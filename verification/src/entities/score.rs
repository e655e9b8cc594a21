//! Score state: the two counters, and the two displayed text slots that
//! the scoring judge keeps in step with them. The slots hold ASCII bytes;
//! reading and writing them as base-10 integers is verified here.

use vstd::prelude::*;

use vstd::arithmetic::div_mod::lemma_fundamental_div_mod;

verus! {

/// `d` is an ASCII decimal digit.
pub open spec fn is_digit(d: u8) -> bool {
    48 <= d <= 57
}

/// The numeric value of an ASCII decimal digit.
pub open spec fn digit_val(d: u8) -> int {
    d - 48
}

/// Every byte of `s` is an ASCII decimal digit.
pub open spec fn all_digits(s: Seq<u8>) -> bool {
    forall|i: int| 0 <= i < s.len() ==> is_digit(#[trigger] s[i])
}

/// The integer a string of digits denotes, most significant digit first.
pub open spec fn decimal_value(s: Seq<u8>) -> int
    decreases s.len(),
{
    if s.len() == 0 {
        0
    } else {
        decimal_value(s.drop_last()) * 10 + digit_val(s.last())
    }
}

/// The n-th power of ten.
pub open spec fn pow10(n: nat) -> int
    decreases n,
{
    if n == 0 {
        1
    } else {
        10 * pow10((n - 1) as nat)
    }
}

/// A text slot the scoring judge accepts: one to nine ASCII digits (so its
/// value always fits the score counters).
pub open spec fn parses(s: Seq<u8>) -> bool {
    1 <= s.len() <= 9 && all_digits(s)
}

/// `s` is the canonical decimal rendering of `v`: all digits, denoting
/// `v`, with no leading zero.
pub open spec fn displays(s: Seq<u8>, v: int) -> bool {
    all_digits(s) && 1 <= s.len() && decimal_value(s) == v && (s.len() > 1 ==> s[0] != 48)
}

proof fn lemma_pow10_positive(n: nat)
    ensures
        0 < pow10(n),
    decreases n,
{
    if n > 0 {
        lemma_pow10_positive((n - 1) as nat);
    }
}

proof fn lemma_pow10_monotone(a: nat, b: nat)
    requires
        a <= b,
    ensures
        pow10(a) <= pow10(b),
    decreases b,
{
    if a < b {
        lemma_pow10_monotone(a, (b - 1) as nat);
        lemma_pow10_positive((b - 1) as nat);
    }
}

/// A digit string's value is at least zero and below `10 ^ length`.
proof fn lemma_decimal_value_bound(s: Seq<u8>)
    requires
        all_digits(s),
    ensures
        0 <= decimal_value(s) < pow10(s.len()),
    decreases s.len(),
{
    if s.len() > 0 {
        let head = s.drop_last();
        assert(all_digits(head)) by {
            assert(forall|i: int| 0 <= i < head.len() ==> #[trigger] head[i] == s[i]);
        }
        lemma_decimal_value_bound(head);
    }
}

/// Prepending a digit adds its value at the next power of ten.
proof fn lemma_decimal_value_prepend(c: u8, s: Seq<u8>)
    ensures
        decimal_value(seq![c] + s) == digit_val(c) * pow10(s.len()) + decimal_value(s),
    decreases s.len(),
{
    let t = seq![c] + s;
    assert(t.len() == s.len() + 1);
    if s.len() == 0 {
        assert(t.drop_last() =~= Seq::<u8>::empty());
        assert(t.last() == c);
        assert(decimal_value(Seq::<u8>::empty()) == 0);
        assert(decimal_value(t) == digit_val(c));
        assert(pow10(0) == 1);
    } else {
        assert(t.drop_last() =~= seq![c] + s.drop_last());
        assert(t.last() == s.last());
        assert(s.drop_last().len() == s.len() - 1);
        lemma_decimal_value_prepend(c, s.drop_last());
        let p = pow10((s.len() - 1) as nat);
        assert(decimal_value(t) == (digit_val(c) * p + decimal_value(s.drop_last())) * 10
            + digit_val(s.last()));
        assert((digit_val(c) * p + decimal_value(s.drop_last())) * 10 == digit_val(c) * p * 10
            + decimal_value(s.drop_last()) * 10);
        assert(digit_val(c) * p * 10 == digit_val(c) * (10 * p)) by (nonlinear_arith);
        assert(pow10(s.len()) == 10 * p);
        assert(decimal_value(s) == decimal_value(s.drop_last()) * 10 + digit_val(s.last()));
    }
}

/// A digit string that does not start with `0` denotes at least
/// `10 ^ (length - 1)`.
proof fn lemma_leading_value_lower_bound(s: Seq<u8>)
    requires
        all_digits(s),
        1 <= s.len(),
        s[0] != 48,
    ensures
        pow10((s.len() - 1) as nat) <= decimal_value(s),
    decreases s.len(),
{
    if s.len() == 1 {
        assert(s.drop_last() =~= Seq::<u8>::empty());
        assert(s.last() == s[0]);
        assert(is_digit(s[0]));
        assert(pow10(0) == 1);
        assert(decimal_value(Seq::<u8>::empty()) == 0);
        assert(decimal_value(s) == digit_val(s[0]));
    } else {
        let head = s.drop_last();
        assert(head.len() == s.len() - 1);
        assert(all_digits(head) && head[0] == s[0]) by {
            assert(forall|i: int| 0 <= i < head.len() ==> #[trigger] head[i] == s[i]);
        }
        lemma_leading_value_lower_bound(head);
        assert(is_digit(s[s.len() - 1]));
        assert(s.last() == s[s.len() - 1]);
        assert(pow10((s.len() - 1) as nat) == 10 * pow10((s.len() - 2) as nat));
    }
}

/// Reads a displayed score: `Some` exactly when the slot holds one to nine
/// ASCII digits, and then the slot's base-10 value.
pub fn parse_score(text: &Vec<u8>) -> (parsed: Option<u32>)
    ensures
        match parsed {
            Some(v) => parses(text@) && v == decimal_value(text@) && v <= 999_999_999,
            None => !parses(text@),
        },
{
    let n = text.len();
    if n == 0 || n > 9 {
        return None;
    }
    let mut acc: u32 = 0;
    let mut i: usize = 0;
    while i < n
        invariant
            1 <= n <= 9,
            i <= n,
            n == text@.len(),
            all_digits(text@.take(i as int)),
            acc == decimal_value(text@.take(i as int)),
            0 <= acc < pow10(i as nat),
        decreases n - i,
    {
        let d = text[i];
        if d < 48 || d > 57 {
            proof {
                assert(!is_digit(text@[i as int]));
            }
            return None;
        }
        proof {
            lemma_pow10_monotone(i as nat, 8);
            assert(pow10(8) == 100_000_000) by {
                reveal_with_fuel(pow10, 9);
            }
        }
        let ghost prev = text@.take(i as int);
        acc = acc * 10 + (d - 48) as u32;
        i = i + 1;
        proof {
            let cur = text@.take(i as int);
            assert(cur.drop_last() =~= prev);
            assert(cur.last() == d);
            assert forall|j: int| 0 <= j < cur.len() implies is_digit(#[trigger] cur[j]) by {
                if j < prev.len() {
                    assert(cur[j] == prev[j]);
                } else {
                    assert(cur[j] == d);
                }
            }
        }
    }
    proof {
        assert(text@.take(n as int) =~= text@);
        lemma_pow10_monotone(n as nat, 9);
        assert(pow10(9) == 1_000_000_000) by {
            reveal_with_fuel(pow10, 10);
        }
    }
    Some(acc)
}

/// Writes a score as its canonical decimal text: no leading zero, and at
/// most nine digits whenever the value fits nine digits (as every value
/// the judge writes does).
pub fn render_score(value: u32) -> (text: Vec<u8>)
    ensures
        displays(text@, value as int),
        value <= 999_999_999 ==> text@.len() <= 9,
{
    let mut digits: Vec<u8> = Vec::new();
    if value == 0 {
        digits.push(48);
        proof {
            assert(digits@ =~= seq![48u8]);
            assert(digits@.len() == 1);
            assert(digits@.drop_last() =~= Seq::<u8>::empty());
            assert(digits@.last() == 48);
            assert(is_digit(digits@[0]));
            assert(decimal_value(Seq::<u8>::empty()) == 0);
            assert(decimal_value(digits@) == 0);
        }
        return digits;
    }
    let mut v: u32 = value;
    while v > 0
        invariant
            v <= value,
            all_digits(digits@),
            0 <= decimal_value(digits@) < pow10(digits@.len()),
            decimal_value(digits@) + v * pow10(digits@.len()) == value,
            v == 0 ==> 1 <= digits@.len() && digits@[0] != 48,
        decreases v,
    {
        let d: u8 = (v % 10) as u8 + 48;
        let ghost prev = digits@;
        let ghost old_v = v;
        digits.insert(0, d);
        v = v / 10;
        proof {
            let p = pow10(prev.len());
            let q = v as int;
            let r = digit_val(d);
            lemma_pow10_positive(prev.len());
            lemma_fundamental_div_mod(old_v as int, 10);
            assert(digits@ =~= seq![d] + prev);
            lemma_decimal_value_prepend(d, prev);
            assert(q * (10 * p) == (10 * q) * p) by (nonlinear_arith);
            assert((r + 10 * q) * p == r * p + (10 * q) * p) by (nonlinear_arith);
            assert(0 <= r * p <= 9 * p) by (nonlinear_arith)
                requires
                    0 <= r <= 9,
                    0 < p,
            ;
            assert(pow10(digits@.len()) == 10 * p);
        }
    }
    proof {
        assert(decimal_value(digits@) == value) by {
            assert(v * pow10(digits@.len()) == 0) by (nonlinear_arith)
                requires
                    v == 0,
            ;
        }
        lemma_leading_value_lower_bound(digits@);
        if value <= 999_999_999 && digits@.len() > 9 {
            lemma_pow10_monotone(9, (digits@.len() - 1) as nat);
            assert(pow10(9) == 1_000_000_000) by {
                reveal_with_fuel(pow10, 10);
            }
            assert(false);
        }
    }
    digits
}

/// The match score: one counter per player, starting at zero, each
/// incremented by exactly one whenever the scoring judge awards a point.
#[derive(Clone, Copy, Debug)]
pub struct ScoreBoard {
    pub score_left: u32,
    pub score_right: u32,
}

impl ScoreBoard {
    pub fn new() -> (board: ScoreBoard)
        ensures
            board.score_left == 0,
            board.score_right == 0,
    {
        ScoreBoard { score_left: 0, score_right: 0 }
    }
}

/// The two displayed score texts, one per player, each a slot of ASCII
/// bytes that is expected to hold a base-10 integer.
#[derive(Debug)]
pub struct ScoreText {
    pub p1_score: Vec<u8>,
    pub p2_score: Vec<u8>,
}

impl ScoreText {
    /// Both slots start out displaying zero.
    pub fn new() -> (text: ScoreText)
        ensures
            displays(text.p1_score@, 0),
            displays(text.p2_score@, 0),
            parses(text.p1_score@),
            parses(text.p2_score@),
    {
        ScoreText { p1_score: render_score(0), p2_score: render_score(0) }
    }
}

/// What can go wrong while the scoring judge synchronises a displayed
/// text with the score.
#[derive(Clone, Copy, Debug, PartialEq, Eq, Structural)]
pub enum ScoreError {
    /// The slot does not hold a displayable base-10 integer, so the update
    /// was abandoned to keep the counter and the text from diverging.
    MalformedDisplay,
}

} // verus!
