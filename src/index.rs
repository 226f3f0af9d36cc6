//! Candidate-index payloads: surrounding whitespace is dropped and the rest
//! is read as an unsigned decimal number that fits in `usize`.
use vstd::prelude::*;

verus! {

/// Characters with the Unicode `White_Space` property.
pub open spec fn is_white_space(c: char) -> bool {
    let u = c as u32;
    (0x9 <= u && u <= 0xd) || u == 0x20 || u == 0x85 || u == 0xa0 || u == 0x1680 || (0x2000
        <= u && u <= 0x200a) || u == 0x2028 || u == 0x2029 || u == 0x202f || u == 0x205f || u
        == 0x3000
}

pub open spec fn trim_start(s: Seq<char>) -> Seq<char>
    decreases s.len(),
{
    if s.len() > 0 && is_white_space(s[0]) {
        trim_start(s.drop_first())
    } else {
        s
    }
}

pub open spec fn trim_end(s: Seq<char>) -> Seq<char>
    decreases s.len(),
{
    if s.len() > 0 && is_white_space(s.last()) {
        trim_end(s.drop_last())
    } else {
        s
    }
}

/// `s` without its leading and trailing white space.
pub open spec fn trimmed(s: Seq<char>) -> Seq<char> {
    trim_end(trim_start(s))
}

pub open spec fn is_digit(c: char) -> bool {
    48 <= (c as u32) && (c as u32) <= 57
}

pub open spec fn digit_value(c: char) -> nat {
    ((c as u32) - 48) as nat
}

/// The value of a string of decimal digits, most significant first.
pub open spec fn decimal_value(s: Seq<char>) -> nat
    decreases s.len(),
{
    if s.len() == 0 {
        0
    } else {
        decimal_value(s.drop_last()) * 10 + digit_value(s.last())
    }
}

pub open spec fn all_digits(s: Seq<char>) -> bool {
    s.len() > 0 && forall|i: int| 0 <= i < s.len() ==> is_digit(#[trigger] s[i])
}

/// The digits of a number text, after an optional leading `+`.
pub open spec fn unsigned_digits(s: Seq<char>) -> Seq<char> {
    if s.len() > 0 && s[0] == '+' {
        s.drop_first()
    } else {
        s
    }
}

/// The `usize` that a number text denotes: one or more decimal digits after an
/// optional `+`, with a value no larger than `usize::MAX`.
pub open spec fn parsed_index(s: Seq<char>) -> Option<usize> {
    let d = unsigned_digits(s);
    if all_digits(d) && decimal_value(d) <= usize::MAX {
        Some(decimal_value(d) as usize)
    } else {
        None
    }
}

/// The index that a candidate payload selects, if it is well formed.
pub open spec fn candidate_index(payload: Seq<char>) -> Option<usize> {
    parsed_index(trimmed(payload))
}

/// Relies on `str::trim`: the slice without leading and trailing characters
/// that have the Unicode `White_Space` property.
#[verifier::external_body]
fn trim_text(s: &str) -> (r: &str)
    ensures
        r@ == trimmed(s@),
{
    s.trim()
}

proof fn lemma_prefix_value_le(s: Seq<char>, k: int)
    requires
        0 <= k <= s.len(),
    ensures
        decimal_value(s.subrange(0, k)) <= decimal_value(s),
    decreases s.len(),
{
    if k == s.len() {
        assert(s.subrange(0, k) =~= s);
    } else {
        lemma_prefix_value_le(s.drop_last(), k);
        assert(s.drop_last().subrange(0, k) =~= s.subrange(0, k));
    }
}

proof fn lemma_trim_start_drops_white(s: Seq<char>) -> (k: int)
    ensures
        0 <= k <= s.len(),
        trim_start(s) == s.subrange(k, s.len() as int),
        forall|j: int| 0 <= j < k ==> is_white_space(#[trigger] s[j]),
    decreases s.len(),
{
    if s.len() > 0 && is_white_space(s[0]) {
        let k0 = lemma_trim_start_drops_white(s.drop_first());
        assert(s.drop_first().subrange(k0, s.len() - 1) =~= s.subrange(k0 + 1, s.len() as int));
        assert forall|j: int| 0 <= j < k0 + 1 implies is_white_space(#[trigger] s[j]) by {
            if j > 0 {
                assert(s[j] == s.drop_first()[j - 1]);
            }
        }
        k0 + 1
    } else {
        assert(s.subrange(0, s.len() as int) =~= s);
        0
    }
}

proof fn lemma_trim_end_drops_white(s: Seq<char>) -> (m: int)
    ensures
        0 <= m <= s.len(),
        trim_end(s) == s.subrange(0, m),
        forall|j: int| m <= j < s.len() ==> is_white_space(#[trigger] s[j]),
    decreases s.len(),
{
    if s.len() > 0 && is_white_space(s.last()) {
        let m0 = lemma_trim_end_drops_white(s.drop_last());
        assert(s.drop_last().subrange(0, m0) =~= s.subrange(0, m0));
        assert forall|j: int| m0 <= j < s.len() implies is_white_space(#[trigger] s[j]) by {
            if j < s.len() - 1 {
                assert(s[j] == s.drop_last()[j]);
            }
        }
        m0
    } else {
        assert(s.subrange(0, s.len() as int) =~= s);
        s.len() as int
    }
}

/// A candidate payload made of decimal digits alone, whose value fits in
/// `usize`, selects that index; a payload holding any character that is not
/// a digit, white space or `+` is rejected.
pub proof fn lemma_candidate_payloads(s: Seq<char>)
    ensures
        all_digits(s) && decimal_value(s) <= usize::MAX ==> candidate_index(s) == Some(
            decimal_value(s) as usize,
        ),
        (exists|i: int|
            0 <= i < s.len() && !is_digit(#[trigger] s[i]) && !is_white_space(s[i]) && s[i]
                != '+') ==> candidate_index(s) is None,
{
    if all_digits(s) {
        assert(is_digit(s[0]) && is_digit(s[s.len() - 1]));
        assert(trim_start(s) == s);
        assert(trim_end(s) == s);
    }
    if exists|i: int|
        0 <= i < s.len() && !is_digit(#[trigger] s[i]) && !is_white_space(s[i]) && s[i] != '+' {
        let i = choose|i: int|
            0 <= i < s.len() && !is_digit(#[trigger] s[i]) && !is_white_space(s[i]) && s[i]
                != '+';
        let k = lemma_trim_start_drops_white(s);
        let t = trim_start(s);
        let m = lemma_trim_end_drops_white(t);
        assert(k <= i);
        assert(t[i - k] == s[i]);
        assert(i - k < m);
        let u = trimmed(s);
        assert(u[i - k] == s[i]);
        let d = unsigned_digits(u);
        if u.len() > 0 && u[0] == '+' {
            assert(d[i - k - 1] == s[i]);
            assert(!is_digit(d[i - k - 1]));
        } else {
            assert(d[i - k] == s[i]);
            assert(!is_digit(d[i - k]));
        }
        assert(!all_digits(d));
    }
}

/// Reads a number text: one or more decimal digits after an optional `+`.
pub fn parse_index(s: &str) -> (r: Option<usize>)
    ensures
        r == parsed_index(s@),
{
    let n = s.unicode_len();
    let mut start: usize = 0;
    if n > 0 && s.get_char(0) == '+' {
        start = 1;
    }
    if start == n {
        return None;
    }
    let ghost d = unsigned_digits(s@);
    assert(d =~= s@.subrange(start as int, n as int));
    let mut i: usize = start;
    let mut value: usize = 0;
    while i < n
        invariant
            start <= i <= n,
            n == s@.len(),
            d == unsigned_digits(s@),
            d == s@.subrange(start as int, n as int),
            forall|j: int| start <= j < i ==> is_digit(#[trigger] s@[j]),
            value as nat == decimal_value(s@.subrange(start as int, i as int)),
        decreases n - i,
    {
        let c = s.get_char(i);
        let u = c as u32;
        if u < 48 || u > 57 {
            assert(!is_digit(d[i - start]));
            assert(!all_digits(d));
            return None;
        }
        let ghost next = s@.subrange(start as int, i + 1);
        assert(next.drop_last() =~= s@.subrange(start as int, i as int));
        assert(decimal_value(next) == value * 10 + digit_value(c));
        proof {
            assert(d.subrange(0, i + 1 - start) =~= next);
            lemma_prefix_value_le(d, i + 1 - start);
        }
        match value.checked_mul(10) {
            None => {
                assert(decimal_value(d) > usize::MAX);
                return None;
            },
            Some(tens) => {
                match tens.checked_add((u - 48) as usize) {
                    None => {
                        assert(decimal_value(d) > usize::MAX);
                        return None;
                    },
                    Some(v) => {
                        value = v;
                    },
                }
            },
        }
        i = i + 1;
    }
    assert(s@.subrange(start as int, i as int) =~= d);
    Some(value)
}

/// Reads the index carried by a candidate payload, ignoring surrounding white
/// space; `None` when the payload is not a number that fits in `usize`.
pub fn parse_candidate_index(payload: &str) -> (r: Option<usize>)
    ensures
        r == candidate_index(payload@),
{
    parse_index(trim_text(payload))
}

} // verus!
