//! What holds of every game, proved from the rules and the transitions.

use vstd::prelude::*;
use crate::board::{counter_fits, in_bounds, relocate, within_grid, Cell, Layout};
use crate::game::{Outcome, StateView};
use crate::piece::{Piece, Player, Unit};
use crate::rules::{legal_move, span};

verus! {

/// Every target of a piece lies one to seven steps from it, so the targets
/// of a piece on the grid are positions that a machine integer can hold.
pub proof fn lemma_targets_within_reach(layout: Layout, turn: Player, from: Cell, to: Cell)
    requires
        legal_move(layout, turn, from, to),
    ensures
        1 <= span(from, to) <= 7,
{
}

/// A relocation with a cell outside the grid as source or destination, or
/// with an empty source, changes nothing.
pub proof fn lemma_relocation_needs_grid(layout: Layout, from: Cell, to: Cell)
    requires
        !in_bounds(from) || !in_bounds(to) || !layout.contains_key(from),
    ensures
        relocate(layout, from, to) == layout,
{
}

/// A relocation never puts a piece outside the grid.
pub proof fn lemma_relocation_stays_in_grid(layout: Layout, from: Cell, to: Cell)
    requires
        within_grid(layout),
    ensures
        within_grid(relocate(layout, from, to)),
{
}

/// A successful relocation counts once on the piece that moved and leaves
/// every other cell as it was: the piece arrives with its unit, its owner and
/// its counter raised by one, the source is empty, and no other cell changes.
pub proof fn lemma_relocation_counts_once(layout: Layout, from: Cell, to: Cell)
    requires
        in_bounds(from),
        in_bounds(to),
        layout.contains_key(from),
        counter_fits(layout, from),
    ensures
        relocate(layout, from, to).contains_key(to),
        relocate(layout, from, to)[to].unit == layout[from].unit,
        relocate(layout, from, to)[to].player == layout[from].player,
        relocate(layout, from, to)[to].moved == layout[from].moved + 1,
        from != to ==> !relocate(layout, from, to).contains_key(from),
        forall|c: Cell|
            c != from && c != to ==> relocate(layout, from, to).contains_key(c)
                == layout.contains_key(c),
        forall|c: Cell|
            c != from && c != to && layout.contains_key(c) ==> relocate(layout, from, to)[c]
                == layout[c],
{
}

/// The layout after one piece has gone along `path`, cell by cell, starting
/// on `path[0]`.
pub open spec fn travelled(layout: Layout, path: Seq<Cell>) -> Layout
    decreases path.len(),
{
    if path.len() <= 1 {
        layout
    } else {
        travelled(relocate(layout, path[0], path[1]), path.drop_first())
    }
}

/// A piece that is relocated N times in a row ends with its counter raised
/// by exactly N, and is still the same unit of the same owner.
pub proof fn lemma_relocations_add_up(layout: Layout, path: Seq<Cell>)
    requires
        path.len() >= 1,
        forall|i: int| 0 <= i < path.len() ==> in_bounds(#[trigger] path[i]),
        layout.contains_key(path[0]),
        layout[path[0]].moved + path.len() - 1 <= u32::MAX,
    ensures
        travelled(layout, path).contains_key(path.last()),
        travelled(layout, path)[path.last()].unit == layout[path[0]].unit,
        travelled(layout, path)[path.last()].player == layout[path[0]].player,
        travelled(layout, path)[path.last()].moved == layout[path[0]].moved + path.len() - 1,
    decreases path.len(),
{
    if path.len() > 1 {
        let next = relocate(layout, path[0], path[1]);
        let rest = path.drop_first();
        assert(rest[0] == path[1]);
        assert(rest.last() == path.last());
        assert forall|i: int| 0 <= i < rest.len() implies in_bounds(#[trigger] rest[i]) by {
            assert(rest[i] == path[i + 1]);
        }
        lemma_relocation_counts_once(layout, path[0], path[1]);
        lemma_relocations_add_up(next, rest);
    }
}

/// A pawn that has been relocated never again steps two cells: every target
/// it has from then on, whoever is to move, lies on the row directly ahead.
pub proof fn lemma_relocated_pawn_steps_once(
    layout: Layout,
    turn: Player,
    from: Cell,
    to: Cell,
    target: Cell,
)
    requires
        in_bounds(from),
        in_bounds(to),
        layout.contains_key(from),
        layout[from].unit == Unit::Pawn,
        counter_fits(layout, from),
        legal_move(relocate(layout, from, to), turn, to, target),
    ensures
        target.1 == to.1 + layout[from].player.forward(),
{
    lemma_relocation_counts_once(layout, from, to);
}

/// A king that stands alone on the board shows its owner, when to move,
/// its own cell and the cells of the grid around it, and nothing else.
pub proof fn lemma_lone_king_sees_its_surroundings(state: StateView, at: Cell, moved: u32)
    requires
        in_bounds(at),
        state.board == Map::<Cell, Piece>::empty().insert(
            at,
            Piece { unit: Unit::King, player: state.turn, moved },
        ),
    ensures
        forall|c: Cell| state.visible().contains(c) <==> in_bounds(c) && span(at, c) <= 1,
{
    assert forall|c: Cell| state.visible().contains(c) <==> in_bounds(c) && span(at, c) <= 1 by {
        if in_bounds(c) && span(at, c) <= 1 {
            assert(state.ally(at));
        }
    }
}

/// A choice that no guard lets through changes nothing at all.
pub proof fn lemma_ignored_choice_changes_nothing(
    state: StateView,
    target: Cell,
    multi_select: bool,
)
    requires
        state.outcome(target, multi_select) == Outcome::Ignored,
    ensures
        state.after(target, multi_select) == state,
{
}

/// Choosing an occupied cell never moves a piece onto it as onto an empty
/// cell and never castles. Without the modifier it captures, reselects or is
/// ignored, and it never does two of these at once: if the board changed, the
/// target was captured and nothing is marked afterwards; if the target was
/// reselected, the board and the player to move are as before.
pub proof fn lemma_occupied_target_captures_or_reselects(
    state: StateView,
    target: Cell,
    multi_select: bool,
)
    requires
        state.board.contains_key(target),
    ensures
        state.outcome(target, multi_select) != Outcome::Moved,
        state.outcome(target, multi_select) != Outcome::Castled,
        !multi_select ==> state.outcome(target, multi_select) != Outcome::Marked,
        state.after(target, multi_select).board != state.board ==> state.outcome(
            target,
            multi_select,
        ) == Outcome::Captured,
        state.after(target, multi_select).board != state.board ==> state.after(
            target,
            multi_select,
        ).selected == Seq::<Cell>::empty(),
        state.outcome(target, multi_select) == Outcome::Reselected ==> state.after(
            target,
            multi_select,
        ).board == state.board,
        state.outcome(target, multi_select) == Outcome::Reselected ==> state.after(
            target,
            multi_select,
        ).turn == state.turn,
        state.outcome(target, multi_select) == Outcome::Reselected ==> state.after(
            target,
            multi_select,
        ).selected == seq![target],
{
}

/// Choosing an empty cell never captures and never marks: it moves, castles
/// or is ignored.
pub proof fn lemma_empty_target_moves_or_castles(
    state: StateView,
    target: Cell,
    multi_select: bool,
)
    requires
        !state.board.contains_key(target),
    ensures
        state.outcome(target, multi_select) == Outcome::Moved || state.outcome(
            target,
            multi_select,
        ) == Outcome::Castled || state.outcome(target, multi_select) == Outcome::Ignored,
{
}

/// A move, a capture and a castle leave nothing marked and pass the turn to
/// the other player, unless the game is in single-player mode.
pub proof fn lemma_concluded_turn(state: StateView, target: Cell, multi_select: bool)
    requires
        state.outcome(target, multi_select) == Outcome::Moved || state.outcome(
            target,
            multi_select,
        ) == Outcome::Captured || state.outcome(target, multi_select) == Outcome::Castled,
    ensures
        state.after(target, multi_select).selected == Seq::<Cell>::empty(),
        state.after(target, multi_select).turn == state.next_turn(),
        state.single_player ==> state.after(target, multi_select).turn == state.turn,
        !state.single_player ==> state.after(target, multi_select).turn != state.turn,
{
}

/// A cell is marked only if it holds a piece of the player to move: marking
/// and reselecting add no other cell.
pub proof fn lemma_only_allies_are_marked(state: StateView, target: Cell, multi_select: bool)
    requires
        forall|i: int| 0 <= i < state.selected.len() ==> state.ally(#[trigger] state.selected[i]),
    ensures
        forall|i: int|
            0 <= i < state.after(target, multi_select).selected.len() ==> state.after(
                target,
                multi_select,
            ).ally(#[trigger] state.after(target, multi_select).selected[i]),
{
}

/// `now`, standing on `at`, is the piece that stood on `origin` in `before`:
/// the same unit of the same owner, with the same counter, or with one more
/// if it changed cells.
pub open spec fn descends(before: Layout, origin: Cell, now: Piece, at: Cell) -> bool {
    &&& before.contains_key(origin)
    &&& now.unit == before[origin].unit
    &&& now.player == before[origin].player
    &&& before[origin].moved <= now.moved <= before[origin].moved + 1
    &&& origin != at ==> now.moved == before[origin].moved + 1
}

/// No transition lowers a counter: every piece on the board after a choice
/// stood on the board before it, as the same unit of the same owner, and its
/// counter is what it was, or one more if the piece changed cells.
pub proof fn lemma_counters_never_decrease(
    state: StateView,
    target: Cell,
    multi_select: bool,
    c: Cell,
)
    requires
        within_grid(state.board),
        state.can_count(),
        state.after(target, multi_select).board.contains_key(c),
    ensures
        exists|origin: Cell| #[trigger]
            descends(state.board, origin, state.after(target, multi_select).board[c], c),
{
    let next = state.after(target, multi_select);
    match state.outcome(target, multi_select) {
        Outcome::Moved | Outcome::Captured => {
            let from = state.selected[0];
            assert(counter_fits(state.board, from));
            lemma_relocation_counts_once(state.board, from, target);
            let origin = if c == target {
                from
            } else {
                c
            };
            assert(descends(state.board, origin, next.board[c], c));
        },
        Outcome::Castled => {
            let first = state.selected[0];
            let second = state.selected[1];
            let first_to = state.landing(first);
            let second_to = state.landing(second);
            let mid = relocate(state.board, first, first_to);
            lemma_relocation_counts_once(state.board, first, first_to);
            assert(mid.contains_key(second) ==> mid[second] == state.board[second]);
            if mid.contains_key(second) {
                lemma_relocation_counts_once(mid, second, second_to);
            }
            let origin = if c == second_to && mid.contains_key(second) {
                second
            } else if c == first_to {
                first
            } else {
                c
            };
            assert(descends(state.board, origin, next.board[c], c));
        },
        _ => {
            assert(next.board == state.board);
            assert(descends(state.board, c, next.board[c], c));
        },
    }
}

} // verus!
