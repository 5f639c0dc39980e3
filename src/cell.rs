use vstd::prelude::*;

verus! {

/// The state of one cell of the grid.
#[derive(Clone, Copy, Debug, PartialEq, Eq, Structural)]
pub enum Cell {
    Dead,
    Alive,
}

impl Cell {
    /// What the cell adds to a live-neighbour sum: 1 when alive, 0 when dead.
    pub open spec fn weight(self) -> int {
        match self {
            Cell::Dead => 0,
            Cell::Alive => 1,
        }
    }

    /// Reads a state from a text that is already in lower case: a text that
    /// holds "alive" names `Alive`, else one that holds "dead" names `Dead`.
    pub fn parse_lowercase(lower: &str) -> (r: Option<Cell>)
        ensures
            r == state_named(lower@),
    {
        proof {
            reveal_strlit("alive");
            reveal_strlit("dead");
            assert("alive"@ =~= alive_word());
            assert("dead"@ =~= dead_word());
        }
        if contains(lower, "alive") {
            Some(Cell::Alive)
        } else if contains(lower, "dead") {
            Some(Cell::Dead)
        } else {
            None
        }
    }

    /// Reads a state from free-form text, ignoring case: "alive" is looked
    /// for first, then "dead"; a text with neither names no state.
    pub fn parse_from_string(text: &String) -> (r: Option<Cell>)
        ensures
            r == state_named(lowercase_of(text@)),
    {
        let lower = lowercase(text.as_str());
        Cell::parse_lowercase(lower.as_str())
    }
}

/// What `str::to_lowercase` makes of a text.
pub uninterp spec fn lowercase_of(s: Seq<char>) -> Seq<char>;

pub open spec fn alive_word() -> Seq<char> {
    seq!['a', 'l', 'i', 'v', 'e']
}

pub open spec fn dead_word() -> Seq<char> {
    seq!['d', 'e', 'a', 'd']
}

/// `needle` stands in `hay` as a run of consecutive characters.
pub open spec fn occurs_in(hay: Seq<char>, needle: Seq<char>) -> bool {
    exists|i: int|
        0 <= i && i + needle.len() <= hay.len() && #[trigger] hay.subrange(i, i + needle.len())
            == needle
}

/// The state that a lower-case text names, if any.
pub open spec fn state_named(lower: Seq<char>) -> Option<Cell> {
    if occurs_in(lower, alive_word()) {
        Some(Cell::Alive)
    } else if occurs_in(lower, dead_word()) {
        Some(Cell::Dead)
    } else {
        None
    }
}

/// Relies on `str::to_lowercase`: the result depends on the text alone.
#[verifier::external_body]
fn lowercase(s: &str) -> (r: String)
    ensures
        r@ == lowercase_of(s@),
{
    s.to_lowercase()
}

/// Relies on `str::contains` with a `&str` pattern: true exactly when
/// `needle` occurs in `hay` as a substring.
#[verifier::external_body]
fn contains(hay: &str, needle: &str) -> (r: bool)
    ensures
        r == occurs_in(hay@, needle@),
{
    hay.contains(needle)
}

} // verus!
