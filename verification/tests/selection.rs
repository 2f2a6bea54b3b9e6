use fog_of_chess::Selection;

#[test]
fn new_selection_is_empty() {
    let selection = Selection::new();
    assert_eq!(selection.len(), 0);
    assert_eq!(selection.nth(0), None);
    assert_eq!(selection.to_vec(), vec![]);
    assert!(!selection.contains((0, 0)));
}

#[test]
fn insert_keeps_the_order_of_marking() {
    let mut selection = Selection::new();
    assert!(selection.insert((3, 0)));
    assert!(selection.insert((0, 0)));
    assert!(selection.insert((5, 5)));
    assert_eq!(selection.to_vec(), vec![(3, 0), (0, 0), (5, 5)]);
    assert_eq!(selection.nth(0), Some((3, 0)));
    assert_eq!(selection.nth(2), Some((5, 5)));
    assert_eq!(selection.nth(3), None);
    assert_eq!(selection.len(), 3);
}

#[test]
fn insert_holds_no_position_twice() {
    let mut selection = Selection::new();
    assert!(selection.insert((1, 2)));
    assert!(!selection.insert((1, 2)));
    assert!(selection.insert((2, 1)));
    assert!(!selection.insert((1, 2)));
    assert_eq!(selection.to_vec(), vec![(1, 2), (2, 1)]);
    assert!(selection.contains((1, 2)));
    assert!(selection.contains((2, 1)));
    assert!(!selection.contains((2, 2)));
}

#[test]
fn clear_unmarks_everything() {
    let mut selection = Selection::new();
    selection.insert((1, 2));
    selection.insert((3, 4));
    selection.clear();
    assert_eq!(selection.len(), 0);
    assert!(!selection.contains((1, 2)));
    assert!(selection.insert((1, 2)));
}

#[test]
fn clone_holds_the_same_positions() {
    let mut selection = Selection::new();
    selection.insert((7, 7));
    selection.insert((0, 1));
    let copy = selection.clone();
    selection.clear();
    assert_eq!(copy.to_vec(), vec![(7, 7), (0, 1)]);
}
