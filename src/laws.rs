use vstd::prelude::*;
use crate::cell::Cell;
use crate::grid::{cell_at, chosen_state, live_neighbours, next_generation, tiled_neighbours};
use crate::rule::RuleView;
use crate::universe::{UniverseView, created, restarted};

verus! {

/// Restarting reproduces creation: whatever a universe went through, after
/// `restart` its grid is cell for cell the grid of a freshly created
/// universe of the same size.
pub proof fn restart_matches_creation(u: UniverseView)
    ensures
        restarted(u).cells == created(u.width, u.height).cells,
        restarted(u).width == u.width,
        restarted(u).height == u.height,
{
}

/// The wrapped neighbour count equals the count of the eight immediate
/// neighbours in the grid repeated without end in both directions.
pub proof fn wrapped_count_matches_tiling(
    cells: Seq<Cell>,
    width: int,
    height: int,
    row: int,
    col: int,
)
    requires
        width > 0,
        height > 0,
        0 <= row < height,
        0 <= col < width,
    ensures
        live_neighbours(cells, width, height, row, col) == tiled_neighbours(
            cells,
            width,
            height,
            row,
            col,
        ),
{
    vstd::arithmetic::div_mod::lemma_mod_add_multiples_vanish(row - 1, height);
    vstd::arithmetic::div_mod::lemma_mod_add_multiples_vanish(col - 1, width);
    assert(row + (height - 1) == height + (row - 1));
    assert(col + (width - 1) == width + (col - 1));
}

/// The corner `(0, 0)` counts the cells at `(h-1, w-1)`, `(h-1, 0)`,
/// `(h-1, 1)`, `(0, w-1)`, `(0, 1)`, `(1, w-1)`, `(1, 0)` and `(1, 1)`.
pub proof fn corner_neighbours(cells: Seq<Cell>, width: int, height: int)
    requires
        width >= 2,
        height >= 2,
    ensures
        live_neighbours(cells, width, height, 0, 0) == cell_at(
            cells,
            width,
            height - 1,
            width - 1,
        ).weight() + cell_at(cells, width, height - 1, 0).weight() + cell_at(
            cells,
            width,
            height - 1,
            1,
        ).weight() + cell_at(cells, width, 0, width - 1).weight() + cell_at(
            cells,
            width,
            0,
            1,
        ).weight() + cell_at(cells, width, 1, width - 1).weight() + cell_at(
            cells,
            width,
            1,
            0,
        ).weight() + cell_at(cells, width, 1, 1).weight(),
{
    vstd::arithmetic::div_mod::lemma_small_mod((height - 1) as nat, height as nat);
    vstd::arithmetic::div_mod::lemma_small_mod((width - 1) as nat, width as nat);
    vstd::arithmetic::div_mod::lemma_small_mod(1, height as nat);
    vstd::arithmetic::div_mod::lemma_small_mod(1, width as nat);
    vstd::arithmetic::div_mod::lemma_small_mod(0, height as nat);
    vstd::arithmetic::div_mod::lemma_small_mod(0, width as nat);
}

/// With no rules a generation step leaves every cell as it was.
pub proof fn empty_rule_list_keeps_grid(
    cells: Seq<Cell>,
    width: int,
    height: int,
    table: Seq<Seq<bool>>,
)
    ensures
        next_generation(cells, width, height, Seq::<RuleView>::empty(), table) == cells,
{
    assert(next_generation(cells, width, height, Seq::<RuleView>::empty(), table) =~= cells);
}

/// First match wins: when rule `i` is the first rule from the cell's state
/// whose condition fired, the cell takes rule `i`'s `to_state`, whatever the
/// later rules say.
pub proof fn first_firing_rule_wins(rules: Seq<RuleView>, fired: Seq<bool>, cell: Cell, i: int)
    requires
        fired.len() == rules.len(),
        0 <= i < rules.len(),
        rules[i].from_state == cell,
        fired[i],
        forall|j: int| 0 <= j < i ==> !(#[trigger] rules[j].from_state == cell && fired[j]),
    ensures
        chosen_state(rules, fired, cell) == rules[i].to_state,
    decreases i,
{
    if i > 0 {
        assert(!(rules[0].from_state == cell && fired[0]));
        let rs = rules.drop_first();
        let fs = fired.drop_first();
        assert forall|j: int| 0 <= j < i - 1 implies !(#[trigger] rs[j].from_state == cell
            && fs[j]) by {
            assert(rs[j] == rules[j + 1]);
            assert(!(rules[j + 1].from_state == cell && fired[j + 1]));
        }
        first_firing_rule_wins(rs, fs, cell, i - 1);
    }
}

/// A cell whose state no rule leaves, or whose rules from its state all
/// failed to fire, keeps its state.
pub proof fn no_firing_rule_keeps_cell(rules: Seq<RuleView>, fired: Seq<bool>, cell: Cell)
    requires
        fired.len() == rules.len(),
        forall|j: int| 0 <= j < rules.len() ==> !(#[trigger] rules[j].from_state == cell && fired[j]),
    ensures
        chosen_state(rules, fired, cell) == cell,
    decreases rules.len(),
{
    if rules.len() > 0 {
        let rs = rules.drop_first();
        let fs = fired.drop_first();
        assert(!(rules[0].from_state == cell && fired[0]));
        assert forall|j: int| 0 <= j < rs.len() implies !(#[trigger] rs[j].from_state == cell
            && fs[j]) by {
            assert(rs[j] == rules[j + 1]);
            assert(!(rules[j + 1].from_state == cell && fired[j + 1]));
        }
        no_firing_rule_keeps_cell(rs, fs, cell);
    }
}

} // verus!
