use vstd::prelude::*;
use crate::cell::Cell;
use vstd::string::StrSliceExecFns;

verus! {

/// A guarded transition: a cell in `from_state` whose condition holds at its
/// live-neighbour count moves to `to_state`. Immutable once built.
pub struct Rule {
    from_state: Cell,
    to_state: Cell,
    with_condition: String,
    evaluable: bool,
}

/// The mathematical content of a rule.
pub struct RuleView {
    pub from_state: Cell,
    pub to_state: Cell,
    pub condition: Seq<char>,
}

impl View for Rule {
    type V = RuleView;

    closed spec fn view(&self) -> RuleView {
        RuleView {
            from_state: self.from_state,
            to_state: self.to_state,
            condition: self.with_condition@,
        }
    }
}

impl Rule {
    #[verifier::type_invariant]
    spec fn inv(&self) -> bool {
        self.evaluable == evaluable(self.with_condition@)
    }

    pub fn new(from_state: Cell, to_state: Cell, with_condition: String) -> (r: Rule)
        ensures
            r@ == (RuleView { from_state, to_state, condition: with_condition@ }),
    {
        let evaluable = is_evaluable(with_condition.as_str());
        Rule { from_state, to_state, with_condition, evaluable }
    }

    /// Whether the condition lies in the fragment that the evaluator is
    /// handed (see `evaluable`).
    pub fn is_evaluable(&self) -> (r: bool)
        ensures
            r == evaluable(self@.condition),
    {
        proof {
            use_type_invariant(self);
        }
        self.evaluable
    }

    /// What the evaluator makes of the condition at count `x`; `None` for a
    /// condition outside the evaluable fragment, which is never handed over.
    pub fn evaluate_at(&self, x: u8) -> (r: Option<bool>)
        ensures
            r == (if evaluable(self@.condition) {
                evaluation(self@.condition, x)
            } else {
                None
            }),
    {
        if self.is_evaluable() {
            evaluate(self.with_condition.as_str(), x)
        } else {
            None
        }
    }

    /// Whether the condition holds at count `x`.
    pub fn fires_at(&self, x: u8) -> (r: bool)
        ensures
            r == fires(self@.condition, x),
    {
        self.evaluate_at(x) == Some(true)
    }

    pub fn from_state(&self) -> (r: Cell)
        ensures
            r == self@.from_state,
    {
        self.from_state
    }

    pub fn to_state(&self) -> (r: Cell)
        ensures
            r == self@.to_state,
    {
        self.to_state
    }

    pub fn condition(&self) -> (r: &str)
        ensures
            r@ == self@.condition,
    {
        self.with_condition.as_str()
    }
}

/// What the expression evaluator makes of `condition` with `x` bound to the
/// given live-neighbour count: `Some(b)` for a boolean result `b`, `None` for
/// an evaluation error or a result that is not a boolean.
pub uninterp spec fn evaluation(condition: Seq<char>, x: u8) -> Option<bool>;

/// The longest condition text handed to the evaluator, which recurses once
/// per operator.
pub const MAX_CONDITION_LEN: usize = 1000;

/// A character that may stand at position `i` of an evaluable condition:
/// an ASCII letter or digit, a space, one of `< > = & |`, or a `!` that
/// starts `!=`.
pub open spec fn condition_char(c: Seq<char>, i: int) -> bool {
    let ch = c[i];
    ('a' <= ch && ch <= 'z') || ('A' <= ch && ch <= 'Z') || ('0' <= ch && ch <= '9') || ch
        == ' ' || ch == '<' || ch == '>' || ch == '=' || ch == '&' || ch == '|' || (ch == '!'
        && i + 1 < c.len() && c[i + 1] == '=')
}

/// The conditions handed to the evaluator: comparisons and `&&` / `||`
/// over names and numbers, with no brackets, unary `!` or arithmetic, and
/// at most `MAX_CONDITION_LEN` characters. Any other text is treated as a
/// condition that fails to evaluate.
pub open spec fn evaluable(c: Seq<char>) -> bool {
    c.len() <= MAX_CONDITION_LEN && forall|i: int| 0 <= i < c.len() ==> #[trigger] condition_char(c, i)
}

/// The condition holds at count `x`: it is evaluable and evaluates to
/// `true`. An evaluation error counts as not holding.
pub open spec fn fires(condition: Seq<char>, x: u8) -> bool {
    evaluable(condition) && evaluation(condition, x) == Some(true)
}

fn is_condition_char(ch: char, next: Option<char>) -> (r: bool)
    ensures
        r == (('a' <= ch && ch <= 'z') || ('A' <= ch && ch <= 'Z') || ('0' <= ch && ch <= '9')
            || ch == ' ' || ch == '<' || ch == '>' || ch == '=' || ch == '&' || ch == '|' || (ch
            == '!' && next == Some('='))),
{
    ('a' <= ch && ch <= 'z') || ('A' <= ch && ch <= 'Z') || ('0' <= ch && ch <= '9') || ch == ' '
        || ch == '<' || ch == '>' || ch == '=' || ch == '&' || ch == '|' || (ch == '!' && next
        == Some('='))
}

/// Decides `evaluable`.
pub fn is_evaluable(c: &str) -> (r: bool)
    ensures
        r == evaluable(c@),
{
    let len = c.unicode_len();
    if len > MAX_CONDITION_LEN {
        return false;
    }
    let mut i: usize = 0;
    while i < len
        invariant
            len == c@.len(),
            len <= MAX_CONDITION_LEN,
            i <= len,
            forall|j: int| 0 <= j < i ==> #[trigger] condition_char(c@, j),
        decreases len - i,
    {
        let ch = c.get_char(i);
        let next = if i + 1 < len {
            Some(c.get_char(i + 1))
        } else {
            None
        };
        if !is_condition_char(ch, next) {
            assert(!condition_char(c@, i as int));
            return false;
        }
        assert(condition_char(c@, i as int));
        i += 1;
    }
    true
}

/// Relies on `eval::Expr::exec` (eval 0.4), with `Expr::new` and
/// `Expr::value`: the expression `condition`, with the variable `x` bound to
/// `x`, is parsed and evaluated; the outcome depends on these two alone. A
/// boolean result is passed on, an error or a value of another kind becomes
/// `None`. eval panics on some texts (integer arithmetic, a `)` or unary `!`
/// without operands, byte slicing of non-ASCII text); an evaluable text has
/// none of `+ - * / % ( ) [ ] . , ! " '` but in `!=`, is ASCII, and is short
/// enough for eval's recursion, so only comparisons and `&&` / `||` remain,
/// which return errors rather than panic.
#[verifier::external_body]
fn evaluate(condition: &str, x: u8) -> (r: Option<bool>)
    requires
        evaluable(condition@),
    ensures
        r == evaluation(condition@, x),
{
    match eval::Expr::new(condition).value("x", x).exec() {
        Ok(eval::Value::Bool(b)) => Some(b),
        Ok(_) => None,
        Err(_) => None,
    }
}

} // verus!
