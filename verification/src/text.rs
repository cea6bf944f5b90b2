//! Text helpers: decoding a child's output and writing numbers.
use vstd::prelude::*;
use vstd::utf8::{decode_utf8, valid_utf8};

verus! {

/// The text that `String::from_utf8_lossy` makes of `bytes`.
pub uninterp spec fn utf8_lossy(bytes: Seq<u8>) -> Seq<char>;

/// Decodes a child's output with `String::from_utf8_lossy`.
///
/// Its result is named [`utf8_lossy`]; of it only the documented fact is stated that
/// valid UTF-8 comes back decoded unchanged. How invalid sequences are replaced is
/// left unsaid.
#[verifier::external_body]
pub(crate) fn lossy(bytes: &[u8]) -> (s: String)
    ensures
        s@ == utf8_lossy(bytes@),
        valid_utf8(bytes@) ==> s@ == decode_utf8(bytes@),
{
    String::from_utf8_lossy(bytes).into_owned()
}

/// The decimal digit that stands for `d`.
pub open spec fn digit(d: nat) -> char {
    if d == 0 {
        '0'
    } else if d == 1 {
        '1'
    } else if d == 2 {
        '2'
    } else if d == 3 {
        '3'
    } else if d == 4 {
        '4'
    } else if d == 5 {
        '5'
    } else if d == 6 {
        '6'
    } else if d == 7 {
        '7'
    } else if d == 8 {
        '8'
    } else {
        '9'
    }
}

/// `n` written in decimal, without leading zeros.
pub open spec fn decimal(n: nat) -> Seq<char>
    decreases n,
{
    if n < 10 {
        seq![digit(n)]
    } else {
        decimal(n / 10).push(digit(n % 10))
    }
}

fn digit_text(d: usize) -> (s: &'static str)
    requires
        d < 10,
    ensures
        s@ == seq![digit(d as nat)],
{
    if d == 0 {
        proof { reveal_strlit("0"); }
        "0"
    } else if d == 1 {
        proof { reveal_strlit("1"); }
        "1"
    } else if d == 2 {
        proof { reveal_strlit("2"); }
        "2"
    } else if d == 3 {
        proof { reveal_strlit("3"); }
        "3"
    } else if d == 4 {
        proof { reveal_strlit("4"); }
        "4"
    } else if d == 5 {
        proof { reveal_strlit("5"); }
        "5"
    } else if d == 6 {
        proof { reveal_strlit("6"); }
        "6"
    } else if d == 7 {
        proof { reveal_strlit("7"); }
        "7"
    } else if d == 8 {
        proof { reveal_strlit("8"); }
        "8"
    } else {
        proof { reveal_strlit("9"); }
        "9"
    }
}

/// Writes `n` in decimal.
pub fn decimal_text(n: usize) -> (s: String)
    ensures
        s@ == decimal(n as nat),
    decreases n,
{
    if n < 10 {
        String::from_str(digit_text(n))
    } else {
        let head = decimal_text(n / 10);
        head.concat(digit_text(n % 10))
    }
}

/// The concatenation of three texts.
pub fn join3(a: &str, b: &str, c: &str) -> (s: String)
    ensures
        s@ == a@ + b@ + c@,
{
    String::from_str(a).concat(b).concat(c)
}

/// An owned copy of a text.
pub fn owned(a: &str) -> (s: String)
    ensures
        s@ == a@,
{
    String::from_str(a)
}

} // verus!

verus! {

/// Where the last `k` lines of `s[0..i]` start (`k >= 1`): just after the `k`-th line
/// break counted back from `i`, or at 0 when there are fewer line breaks.
pub open spec fn start_of_last(s: Seq<char>, i: int, k: nat) -> int
    decreases i,
{
    if i <= 0 {
        0
    } else if s[i - 1] == '\n' {
        if k <= 1 {
            i
        } else {
            start_of_last(s, i - 1, (k - 1) as nat)
        }
    } else {
        start_of_last(s, i - 1, k)
    }
}

/// The end of the text's last line: a final line break only closes that line.
pub open spec fn body_end(s: Seq<char>) -> int {
    if s.len() > 0 && s.last() == '\n' {
        s.len() - 1
    } else {
        s.len() as int
    }
}

/// The last `n` lines of `s`, each with its line break (the last one keeps a final
/// line break if `s` has one); all of `s` when it has at most `n` lines, and the
/// empty text when `n` is 0.
pub open spec fn last_lines(s: Seq<char>, n: nat) -> Seq<char> {
    if n == 0 {
        Seq::<char>::empty()
    } else {
        s.skip(start_of_last(s, body_end(s), n))
    }
}

proof fn start_of_last_bounds(s: Seq<char>, i: int, k: nat)
    requires
        0 <= i <= s.len(),
    ensures
        0 <= start_of_last(s, i, k) <= i,
    decreases i,
{
    if i > 0 {
        if s[i - 1] == '\n' {
            if k > 1 {
                start_of_last_bounds(s, i - 1, (k - 1) as nat);
            }
        } else {
            start_of_last_bounds(s, i - 1, k);
        }
    }
}

/// The characters of a text, in order.
fn chars_of(s: &str) -> (v: Vec<char>)
    ensures
        v@ == s@,
{
    broadcast use vstd::string::axiom_spec_iter, vstd::string::next_postcondition;

    let mut it = s.chars();
    let mut v: Vec<char> = Vec::new();
    loop
        invariant
            vstd::std_specs::iter::IteratorSpec::remaining(&it) == s@.skip(v@.len() as int),
            v@ == s@.take(v@.len() as int),
            v@.len() <= s@.len(),
        decreases s@.len() - v@.len(),
    {
        let ghost before = vstd::std_specs::iter::IteratorSpec::remaining(&it);
        match it.next() {
            Some(c) => {
                assert(c == s@[v@.len() as int]);
                v.push(c);
                assert(v@ =~= s@.take(v@.len() as int));
                assert(vstd::std_specs::iter::IteratorSpec::remaining(&it) =~= s@.skip(v@.len() as int));
            },
            None => {
                assert(v@ =~= s@);
                return v;
            },
        }
    }
}

/// The last `n` lines of `s`.
pub fn last_lines_text(s: &str, n: usize) -> (r: String)
    ensures
        r@ == last_lines(s@, n as nat),
{
    if n == 0 {
        return String::new();
    }
    let chars = chars_of(s);
    let len = chars.len();
    let end = if len > 0 && chars[len - 1] == '\n' {
        len - 1
    } else {
        len
    };
    assert(end == body_end(s@));
    let mut i = end;
    let mut k = n;
    let mut start: usize = 0;
    loop
        invariant
            i <= end <= len,
            len == s@.len(),
            chars@ == s@,
            1 <= k <= n,
            start_of_last(s@, end as int, n as nat) == start_of_last(s@, i as int, k as nat),
        ensures
            start_of_last(s@, end as int, n as nat) == start as int,
        decreases i,
    {
        if i == 0 {
            start = 0;
            break;
        }
        if chars[i - 1] == '\n' {
            if k == 1 {
                start = i;
                break;
            }
            k = k - 1;
        }
        i = i - 1;
    }
    proof {
        start_of_last_bounds(s@, end as int, n as nat);
    }
    String::from_str(s.substring_char(start, len))
}

/// How many line breaks `s` holds.
pub open spec fn breaks(s: Seq<char>) -> nat
    decreases s.len(),
{
    if s.len() == 0 {
        0
    } else {
        breaks(s.drop_last()) + if s.last() == '\n' {
            1nat
        } else {
            0nat
        }
    }
}

/// How many lines `s` holds: every line break closes one, and text after the last
/// line break is one more.
pub open spec fn line_count(s: Seq<char>) -> nat {
    if s.len() == 0 {
        0
    } else if s.last() == '\n' {
        breaks(s)
    } else {
        breaks(s) + 1
    }
}

proof fn breaks_step(s: Seq<char>, j: int, i: int)
    requires
        0 <= j < i <= s.len(),
    ensures
        breaks(s.subrange(j, i)) == breaks(s.subrange(j, i - 1)) + if s[i - 1] == '\n' {
            1nat
        } else {
            0nat
        },
{
    assert(s.subrange(j, i).drop_last() =~= s.subrange(j, i - 1));
}

/// What `start_of_last(s, i, k)` finds: a line start at or before `i` such that the
/// text from it to `i` holds `k - 1` line breaks, or all of them when there are fewer.
proof fn start_of_last_counts(s: Seq<char>, i: int, k: nat)
    requires
        0 <= i <= s.len(),
        k >= 1,
    ensures
        0 <= start_of_last(s, i, k) <= i,
        start_of_last(s, i, k) == 0 || s[start_of_last(s, i, k) - 1] == '\n',
        breaks(s.subrange(start_of_last(s, i, k), i)) == if breaks(s.subrange(0, i)) < k - 1 {
            breaks(s.subrange(0, i))
        } else {
            (k - 1) as nat
        },
    decreases i,
{
    let j = start_of_last(s, i, k);
    if i == 0 {
        assert(s.subrange(0, 0).len() == 0);
    } else {
        breaks_step(s, 0, i);
        if s[i - 1] == '\n' {
            if k <= 1 {
                assert(s.subrange(i, i).len() == 0);
            } else {
                start_of_last_counts(s, i - 1, (k - 1) as nat);
                breaks_step(s, j, i);
            }
        } else {
            start_of_last_counts(s, i - 1, k);
            breaks_step(s, j, i);
        }
    }
}

/// The last `n` lines of a text (`n >= 1`) are a tail of it that starts at the start
/// of a line and holds exactly `n` lines, or all of its lines when it has fewer.
pub proof fn last_lines_are_the_last_n_lines(s: Seq<char>, n: nat)
    requires
        n >= 1,
    ensures
        ({
            let r = last_lines(s, n);
            &&& r.len() <= s.len()
            &&& r =~= s.subrange(s.len() - r.len(), s.len() as int)
            &&& r.len() == s.len() || s[s.len() - r.len() - 1] == '\n'
            &&& line_count(r) == if line_count(s) < n {
                line_count(s)
            } else {
                n
            }
        }),
{
    let e = body_end(s);
    let j = start_of_last(s, e, n);
    start_of_last_counts(s, e, n);
    let r = last_lines(s, n);
    assert(r =~= s.subrange(j, s.len() as int));
    if s.len() > 0 {
        if s.last() == '\n' {
            breaks_step(s, j, s.len() as int);
            breaks_step(s, 0, s.len() as int);
            assert(s.subrange(0, s.len() as int) =~= s);
            assert(r.last() == '\n');
        } else {
            assert(s.subrange(0, s.len() as int) =~= s);
            assert(j < s.len()) by {
                if j == s.len() {
                    assert(s[j - 1] == '\n');
                }
            }
            assert(r.last() == s.last());
        }
    }
}

} // verus!
