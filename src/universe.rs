use vstd::prelude::*;
use crate::cell::{Cell, lowercase_of, state_named};
use crate::grid::{
    Grid, cell_at, chosen_state, evaluation_table, live_neighbours, next_generation,
    rendering, seed_pattern,
};
use crate::rule::{Rule, RuleView, evaluable, evaluation};

verus! {

/// The width of the grid that `Universe::new` makes.
pub const DEFAULT_WIDTH: u32 = 64;

/// The height of the grid that `Universe::new` makes.
pub const DEFAULT_HEIGHT: u32 = 32;

/// A rule text named no state.
#[derive(Clone, Copy, Debug, PartialEq, Eq, Structural)]
pub enum ParseError {
    /// The text of the state a rule moves from.
    FromState,
    /// The text of the state a rule moves to.
    ToState,
}

/// A rule position out of the rule list's bounds.
#[derive(Clone, Copy, Debug, PartialEq, Eq, Structural)]
pub struct IndexError {
    pub index: usize,
    pub len: usize,
}

/// The simulation: a toroidal grid of cells and the ordered rule list that
/// drives it. Rule changes take `&mut self`, so they never overlap a tick,
/// which reads one fixed list from start to end.
pub struct Universe {
    grid: Grid,
    rules: Vec<Rule>,
}

/// The mathematical content of a universe.
pub struct UniverseView {
    pub width: nat,
    pub height: nat,
    pub cells: Seq<Cell>,
    pub rules: Seq<RuleView>,
}

impl UniverseView {
    /// The size is positive and there is one cell per position.
    pub open spec fn wf(self) -> bool {
        &&& self.width > 0
        &&& self.height > 0
        &&& self.cells.len() == self.width * self.height
    }
}

/// A freshly made universe of the given size: the default pattern, no rules.
pub open spec fn created(width: nat, height: nat) -> UniverseView {
    UniverseView { width, height, cells: seed_pattern(width * height), rules: seq![] }
}

/// A universe reset to generation zero: the default pattern, rules kept.
pub open spec fn restarted(u: UniverseView) -> UniverseView {
    UniverseView { cells: seed_pattern(u.width * u.height), ..u }
}

impl View for Universe {
    type V = UniverseView;

    closed spec fn view(&self) -> UniverseView {
        UniverseView {
            width: self.grid@.width,
            height: self.grid@.height,
            cells: self.grid@.cells,
            rules: self.rules@.map_values(|r: Rule| r@),
        }
    }
}

impl Universe {
    /// A universe of the default size, seeded with the default pattern.
    pub fn new() -> (r: Universe)
        ensures
            r@ == created(DEFAULT_WIDTH as nat, DEFAULT_HEIGHT as nat),
            r@.wf(),
    {
        Universe::with_size(DEFAULT_WIDTH, DEFAULT_HEIGHT)
    }

    /// A universe of the given size, seeded with the default pattern.
    pub fn with_size(width: u32, height: u32) -> (r: Universe)
        requires
            width > 0,
            height > 0,
            width * height <= usize::MAX,
        ensures
            r@ == created(width as nat, height as nat),
            r@.wf(),
    {
        let r = Universe { grid: Grid::with_size(width, height), rules: Vec::new() };
        assert(r@.rules =~= seq![]);
        r
    }

    /// Resets the grid to the default pattern; the rules stay.
    pub fn restart(&mut self)
        ensures
            final(self)@ == restarted(old(self)@),
            final(self)@.wf(),
    {
        proof {
            use_type_invariant(&self.grid);
        }
        self.grid.reseed();
    }

    /// The state that `cell` moves to, `fired[i]` saying whether rule `i`'s
    /// condition holds: the first rule from `cell`'s state that fired wins.
    fn choose_next(&self, fired: &Vec<bool>, cell: Cell) -> (r: Cell)
        requires
            fired@.len() == self@.rules.len(),
        ensures
            r == chosen_state(self@.rules, fired@, cell),
    {
        let ghost rules = self@.rules;
        assert(rules.subrange(0, rules.len() as int) =~= rules);
        assert(fired@.subrange(0, rules.len() as int) =~= fired@);
        let mut i: usize = 0;
        while i < self.rules.len()
            invariant
                rules == self@.rules,
                fired@.len() == rules.len(),
                i <= rules.len(),
                chosen_state(rules, fired@, cell) == chosen_state(
                    rules.subrange(i as int, rules.len() as int),
                    fired@.subrange(i as int, rules.len() as int),
                    cell,
                ),
            decreases rules.len() - i,
        {
            let rule = &self.rules[i];
            proof {
                let rs = rules.subrange(i as int, rules.len() as int);
                let fs = fired@.subrange(i as int, rules.len() as int);
                assert(rs.drop_first() =~= rules.subrange(i + 1, rules.len() as int));
                assert(fs.drop_first() =~= fired@.subrange(i + 1, rules.len() as int));
                assert(rs[0] == rule@);
            }
            if rule.from_state() == cell && fired[i] {
                return rule.to_state();
            }
            i += 1;
        }
        cell
    }

    /// The state that `cell` moves to at live-neighbour count `n`: the rules
    /// from `cell`'s state are evaluated in order, up to the first that fires.
    fn choose_next_evaluated(&self, n: u8, cell: Cell) -> (r: Cell)
        requires
            n < 9,
        ensures
            r == chosen_state(self@.rules, evaluation_table(self@.rules)[n as int], cell),
    {
        let ghost rules = self@.rules;
        let ghost fired = evaluation_table(rules)[n as int];
        assert(rules.subrange(0, rules.len() as int) =~= rules);
        assert(fired.subrange(0, rules.len() as int) =~= fired);
        let mut i: usize = 0;
        while i < self.rules.len()
            invariant
                rules == self@.rules,
                fired == evaluation_table(rules)[n as int],
                n < 9,
                fired.len() == rules.len(),
                i <= rules.len(),
                chosen_state(rules, fired, cell) == chosen_state(
                    rules.subrange(i as int, rules.len() as int),
                    fired.subrange(i as int, rules.len() as int),
                    cell,
                ),
            decreases rules.len() - i,
        {
            let rule = &self.rules[i];
            proof {
                let rs = rules.subrange(i as int, rules.len() as int);
                let fs = fired.subrange(i as int, rules.len() as int);
                assert(rs.drop_first() =~= rules.subrange(i + 1, rules.len() as int));
                assert(fs.drop_first() =~= fired.subrange(i + 1, rules.len() as int));
                assert(rs[0] == rule@);
            }
            if rule.from_state() == cell && rule.fires_at(n) {
                return rule.to_state();
            }
            i += 1;
        }
        cell
    }

    /// The next generation, `verdicts[n][i]` saying whether rule `i` fires
    /// at count `n`; without a table the conditions are evaluated as needed.
    fn next_cells(&self, verdicts: Option<&Vec<Vec<bool>>>) -> (next: Vec<Cell>)
        requires
            verdicts matches Some(v) ==> v@.len() == 9 && forall|n: int|
                0 <= n < 9 ==> #[trigger] v@[n]@.len() == self@.rules.len(),
        ensures
            next@ == next_generation(
                self@.cells,
                self@.width as int,
                self@.height as int,
                self@.rules,
                match verdicts {
                    Some(v) => v@.map_values(|v: Vec<bool>| v@),
                    None => evaluation_table(self@.rules),
                },
            ),
    {
        let width = self.grid.width();
        let height = self.grid.height();
        let cells = self.grid.cells();
        let ghost w = width as int;
        let ghost h = height as int;
        let ghost table = match verdicts {
            Some(v) => v@.map_values(|v: Vec<bool>| v@),
            None => evaluation_table(self@.rules),
        };
        let len = cells.len();
        let mut next: Vec<Cell> = Vec::with_capacity(len);
        let mut i: usize = 0;
        while i < len
            invariant
                cells@ == self@.cells,
                len == cells@.len(),
                len == w * h,
                w == width,
                h == height,
                w == self@.width,
                h == self@.height,
                w > 0,
                h > 0,
                i <= len,
                verdicts matches Some(v) ==> v@.len() == 9 && forall|n: int|
                    0 <= n < 9 ==> #[trigger] v@[n]@.len() == self@.rules.len(),
                table == match verdicts {
                    Some(v) => v@.map_values(|v: Vec<bool>| v@),
                    None => evaluation_table(self@.rules),
                },
                next@.len() == i,
                forall|j: int|
                    0 <= j < i ==> #[trigger] next@[j] == chosen_state(
                        self@.rules,
                        table[live_neighbours(cells@, w, h, j / w, j % w)],
                        cells@[j],
                    ),
            decreases len - i,
        {
            proof {
                vstd::arithmetic::div_mod::lemma_fundamental_div_mod(i as int, w);
                assert((i as int) / w < h) by (nonlinear_arith)
                    requires
                        0 <= i < w * h,
                        w > 0,
                        (i as int) == w * ((i as int) / w) + (i as int) % w,
                        0 <= (i as int) % w < w,
                ;
            }
            let row = (i / width as usize) as u32;
            let col = (i % width as usize) as u32;
            let n = self.grid.live_neighbour_count(row, col);
            let c = match verdicts {
                Some(v) => self.choose_next(&v[n as usize], cells[i]),
                None => self.choose_next_evaluated(n, cells[i]),
            };
            next.push(c);
            i += 1;
        }
        assert(next@ =~= next_generation(cells@, w, h, self@.rules, table));
        next
    }

    /// Advances one generation, `verdicts[n][i]` saying whether rule `i`'s
    /// condition holds at live-neighbour count `n`. Every cell is decided from
    /// the old generation; the new one replaces it whole.
    pub fn tick_with_verdicts(&mut self, verdicts: &Vec<Vec<bool>>)
        requires
            verdicts@.len() == 9,
            forall|n: int| 0 <= n < 9 ==> #[trigger] verdicts@[n]@.len() == old(self)@.rules.len(),
        ensures
            final(self)@ == (UniverseView {
                cells: next_generation(
                    old(self)@.cells,
                    old(self)@.width as int,
                    old(self)@.height as int,
                    old(self)@.rules,
                    verdicts@.map_values(|v: Vec<bool>| v@),
                ),
                ..old(self)@
            }),
            final(self)@.wf(),
    {
        proof {
            use_type_invariant(&self.grid);
        }
        let next = self.next_cells(Some(verdicts));
        self.grid.replace_cells(next);
    }

    /// Advances one generation. Each cell moves to the `to_state` of the
    /// first rule, in list order, whose `from_state` is the cell's and whose
    /// condition evaluates to `true` at the cell's live-neighbour count; with
    /// no such rule it keeps its state. An evaluation error counts as `false`,
    /// and so does a condition outside the evaluable fragment, which is never
    /// handed to the evaluator. Only the rules from the cell's state are
    /// evaluated, in order, up to the first that fires. All counts are taken
    /// on the old generation.
    pub fn tick(&mut self)
        ensures
            final(self)@ == (UniverseView {
                cells: next_generation(
                    old(self)@.cells,
                    old(self)@.width as int,
                    old(self)@.height as int,
                    old(self)@.rules,
                    evaluation_table(old(self)@.rules),
                ),
                ..old(self)@
            }),
            final(self)@.wf(),
    {
        proof {
            use_type_invariant(&self.grid);
        }
        let next = self.next_cells(None);
        self.grid.replace_cells(next);
    }

    /// Appends a rule built from the texts of its two states (read as
    /// `Cell::parse_from_string` reads them) and its condition. When a state
    /// text names no state, the error says which, and nothing changes.
    pub fn add_rule(&mut self, from_state: String, to_state: String, with_condition: String) -> (r:
        Result<(), ParseError>)
        ensures
            match (state_named(lowercase_of(from_state@)), state_named(lowercase_of(to_state@))) {
                (Some(f), Some(t)) => r == Ok::<(), ParseError>(()) && final(self)@ == (UniverseView {
                    rules: old(self)@.rules.push(
                        RuleView { from_state: f, to_state: t, condition: with_condition@ },
                    ),
                    ..old(self)@
                }),
                (None, _) => r == Err::<(), ParseError>(ParseError::FromState) && final(self)@
                    == old(self)@,
                (Some(_), None) => r == Err::<(), ParseError>(ParseError::ToState) && final(self)@
                    == old(self)@,
            },
            final(self)@.wf(),
    {
        proof {
            use_type_invariant(&self.grid);
        }
        let from = match Cell::parse_from_string(&from_state) {
            Some(c) => c,
            None => return Err(ParseError::FromState),
        };
        let to = match Cell::parse_from_string(&to_state) {
            Some(c) => c,
            None => return Err(ParseError::ToState),
        };
        let rule = Rule::new(from, to, with_condition);
        let ghost before = self.rules@;
        self.rules.push(rule);
        assert(self.rules@.map_values(|r: Rule| r@) =~= before.map_values(|r: Rule| r@).push(
            rule@,
        ));
        Ok(())
    }

    /// Removes the rule at `index`; the later rules move down one place and
    /// keep their order. An index out of bounds is an error and changes
    /// nothing.
    pub fn remove_rule(&mut self, index: usize) -> (r: Result<(), IndexError>)
        ensures
            index < old(self)@.rules.len() ==> r == Ok::<(), IndexError>(()) && final(self)@ == (
            UniverseView { rules: old(self)@.rules.remove(index as int), ..old(self)@ }),
            index >= old(self)@.rules.len() ==> r == Err::<(), IndexError>(
                IndexError { index, len: old(self)@.rules.len() as usize },
            ) && final(self)@ == old(self)@,
            final(self)@.wf(),
    {
        proof {
            use_type_invariant(&self.grid);
        }
        let len = self.rules.len();
        if index >= len {
            return Err(IndexError { index, len });
        }
        let ghost before = self.rules@;
        self.rules.remove(index);
        assert(self.rules@.map_values(|r: Rule| r@) =~= before.map_values(|r: Rule| r@).remove(
            index as int,
        ));
        Ok(())
    }

    /// What the evaluator makes of rule `index`'s condition at live-neighbour
    /// count `x`: `None` where evaluation fails or gives no boolean, or where
    /// the condition is not evaluable. A tick treats such a rule as not
    /// firing; this lets a caller find it.
    pub fn evaluate_rule(&self, index: usize, x: u8) -> (r: Option<bool>)
        requires
            index < self@.rules.len(),
        ensures
            r == (if evaluable(self@.rules[index as int].condition) {
                evaluation(self@.rules[index as int].condition, x)
            } else {
                None
            }),
    {
        self.rules[index].evaluate_at(x)
    }

    /// The number of rules.
    pub fn rule_count(&self) -> (r: usize)
        ensures
            r == self@.rules.len(),
    {
        self.rules.len()
    }

    /// The rule at `index`, in precedence order.
    pub fn rule(&self, index: usize) -> (r: &Rule)
        requires
            index < self@.rules.len(),
        ensures
            r@ == self@.rules[index as int],
    {
        &self.rules[index]
    }


    /// The width of the grid.
    pub fn width(&self) -> (r: u32)
        ensures
            r == self@.width,
            r > 0,
    {
        proof {
            use_type_invariant(&self.grid);
        }
        self.grid.width()
    }

    /// The height of the grid.
    pub fn height(&self) -> (r: u32)
        ensures
            r == self@.height,
            r > 0,
    {
        proof {
            use_type_invariant(&self.grid);
        }
        self.grid.height()
    }

    /// The cells in row-major order.
    pub fn cells(&self) -> (r: &Vec<Cell>)
        ensures
            r@ == self@.cells,
            r@.len() == self@.width * self@.height,
    {
        proof {
            use_type_invariant(&self.grid);
        }
        self.grid.cells()
    }

    /// The cell at `(row, col)`.
    pub fn get(&self, row: u32, col: u32) -> (r: Cell)
        requires
            row < self@.height,
            col < self@.width,
        ensures
            r == cell_at(self@.cells, self@.width as int, row as int, col as int),
    {
        self.grid.get(row, col)
    }

    /// Replaces the cell at `(row, col)`.
    pub fn set(&mut self, row: u32, col: u32, cell: Cell)
        requires
            row < old(self)@.height,
            col < old(self)@.width,
        ensures
            final(self)@ == (UniverseView {
                cells: old(self)@.cells.update(row * old(self)@.width + col, cell),
                ..old(self)@
            }),
            final(self)@.wf(),
    {
        proof {
            use_type_invariant(&self.grid);
        }
        self.grid.set(row, col, cell);
    }

    /// The number of live cells among the eight neighbours of `(row, col)`,
    /// the grid's edges wrapping around to the opposite side.
    pub fn live_neighbour_count(&self, row: u32, col: u32) -> (r: u8)
        requires
            row < self@.height,
            col < self@.width,
        ensures
            r == live_neighbours(
                self@.cells,
                self@.width as int,
                self@.height as int,
                row as int,
                col as int,
            ),
            r <= 8,
    {
        self.grid.live_neighbour_count(row, col)
    }

    /// The grid as text: `height` lines of `width` glyphs, each ended by a
    /// line break; an alive cell is a black square, a dead one a white square.
    pub fn render(&self) -> (r: String)
        ensures
            r@ == rendering(self@.cells, self@.width as int),
    {
        self.grid.render()
    }
}

} // verus!
