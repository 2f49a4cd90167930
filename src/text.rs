//! Character-level helpers shared by the markdown scanners.

use vstd::prelude::*;

verus! {

broadcast use vstd::string::group_string_axioms;

/// The view of an optional string.
pub open spec fn opt_view(o: Option<String>) -> Option<Seq<char>> {
    match o {
        Some(s) => Some(s@),
        None => None,
    }
}

/// The views of a vector of strings.
pub open spec fn views(v: Seq<String>) -> Seq<Seq<char>> {
    v.map_values(|t: String| t@)
}

/// Whether `c` has the Unicode `White_Space` property: U+0009..=U+000D,
/// U+0020, U+0085, U+00A0, U+1680, U+2000..=U+200A, U+2028, U+2029, U+202F,
/// U+205F and U+3000.
pub open spec fn is_space(c: char) -> bool {
    let u = c as u32;
    ||| 0x09 <= u <= 0x0d
    ||| u == 0x20
    ||| u == 0x85
    ||| u == 0xa0
    ||| u == 0x1680
    ||| 0x2000 <= u <= 0x200a
    ||| u == 0x2028
    ||| u == 0x2029
    ||| u == 0x202f
    ||| u == 0x205f
    ||| u == 0x3000
}

/// Relies on `char::is_whitespace`: true exactly for the characters with the
/// Unicode `White_Space` property.
#[verifier::external_body]
pub(crate) fn whitespace(c: char) -> (r: bool)
    ensures
        r == is_space(c),
{
    c.is_whitespace()
}

/// The characters of `s`, in order.
pub fn char_vec(s: &str) -> (r: Vec<char>)
    ensures
        r@ == s@,
{
    let mut r: Vec<char> = Vec::new();
    for c in it: s.chars()
        invariant
            r@ == it.seq().take(it.index() as int),
    {
        r.push(c);
    }
    r
}


/// `s` without its leading `White_Space` characters.
pub open spec fn trim_start(s: Seq<char>) -> Seq<char>
    decreases s.len(),
{
    if s.len() > 0 && is_space(s[0]) {
        trim_start(s.drop_first())
    } else {
        s
    }
}

/// `s` without its trailing `White_Space` characters.
pub open spec fn trim_end(s: Seq<char>) -> Seq<char>
    decreases s.len(),
{
    if s.len() > 0 && is_space(s.last()) {
        trim_end(s.drop_last())
    } else {
        s
    }
}

/// `s` without leading and trailing `White_Space` characters, as `str::trim`.
pub open spec fn trim(s: Seq<char>) -> Seq<char> {
    trim_end(trim_start(s))
}

/// The first line of `s` as `str::lines` yields it: everything before the
/// first `'\n'`, without the `'\r'` of a `"\r\n"` ending.
pub open spec fn first_line(s: Seq<char>) -> Seq<char> {
    if exists|i: int| 0 <= i < s.len() && s[i] == '\n' {
        let i = choose|i: int| 0 <= i < s.len() && s[i] == '\n' && forall|j: int| 0 <= j < i ==> s[j] != '\n';
        if i > 0 && s[i - 1] == '\r' {
            s.subrange(0, i - 1)
        } else {
            s.subrange(0, i)
        }
    } else {
        s
    }
}

/// Bounds `(lo, hi)` with `cs@.subrange(lo, hi) == trim(cs@.subrange(from, to))`.
pub fn trim_bounds(cs: &Vec<char>, from: usize, to: usize) -> (r: (usize, usize))
    requires
        from <= to <= cs.len(),
    ensures
        from <= r.0 <= r.1 <= to,
        cs@.subrange(r.0 as int, r.1 as int) == trim(cs@.subrange(from as int, to as int)),
{
    let mut lo = from;
    while lo < to && whitespace(cs[lo])
        invariant
            from <= lo <= to <= cs.len(),
            trim_start(cs@.subrange(from as int, to as int)) == trim_start(cs@.subrange(lo as int, to as int)),
        decreases to - lo,
    {
        assert(cs@.subrange(lo as int, to as int).drop_first() =~= cs@.subrange(lo + 1, to as int));
        lo = lo + 1;
    }
    assert(trim_start(cs@.subrange(lo as int, to as int)) == cs@.subrange(lo as int, to as int));
    let mut hi = to;
    while hi > lo && whitespace(cs[hi - 1])
        invariant
            from <= lo <= hi <= to <= cs.len(),
            trim(cs@.subrange(from as int, to as int)) == trim_end(cs@.subrange(lo as int, hi as int)),
        decreases hi - lo,
    {
        assert(cs@.subrange(lo as int, hi as int).drop_last() =~= cs@.subrange(lo as int, hi - 1));
        hi = hi - 1;
    }
    (lo, hi)
}

/// Index of the first `'\n'` in `cs` at or after `from`, or `cs.len()`.
pub fn find_newline(cs: &Vec<char>, from: usize) -> (r: usize)
    requires
        from <= cs.len(),
    ensures
        from <= r <= cs.len(),
        r < cs.len() ==> cs[r as int] == '\n',
        forall|j: int| from <= j < r ==> cs[j] != '\n',
{
    let mut i = from;
    while i < cs.len() && cs[i] != '\n'
        invariant
            from <= i <= cs.len(),
            forall|j: int| from <= j < i ==> cs[j] != '\n',
        decreases cs.len() - i,
    {
        i = i + 1;
    }
    i
}

/// End (exclusive) of the first line of `cs`, as `first_line` gives it.
pub fn first_line_end(cs: &Vec<char>) -> (r: usize)
    ensures
        r <= cs.len(),
        cs@.subrange(0, r as int) == first_line(cs@),
{
    let i = find_newline(cs, 0);
    if i < cs.len() {
        assert(exists|k: int| 0 <= k < cs.len() && cs@[k] == '\n');
        let ghost k = choose|k: int| 0 <= k < cs@.len() && cs@[k] == '\n' && forall|j: int| 0 <= j < k ==> cs@[j] != '\n';
        assert(k == i) by {
            if k < i { } else if k > i { assert(cs@[i as int] == '\n'); }
        };
        if i > 0 && cs[i - 1] == '\r' {
            i - 1
        } else {
            i
        }
    } else {
        assert(!exists|k: int| 0 <= k < cs.len() && cs@[k] == '\n');
        assert(cs@.subrange(0, cs.len() as int) =~= cs@);
        i
    }
}

/// The decimal digit of `d < 10`.
pub open spec fn digit_char(d: nat) -> char {
    if d == 0 { '0' } else if d == 1 { '1' } else if d == 2 { '2' } else if d == 3 { '3' }
    else if d == 4 { '4' } else if d == 5 { '5' } else if d == 6 { '6' } else if d == 7 { '7' }
    else if d == 8 { '8' } else { '9' }
}

/// The decimal notation of `n`, without sign or leading zeros.
pub open spec fn decimal(n: nat) -> Seq<char>
    decreases n,
{
    if n < 10 {
        seq![digit_char(n)]
    } else {
        decimal(n / 10) + seq![digit_char(n % 10)]
    }
}

fn digit_str(d: u64) -> (r: &'static str)
    requires
        d < 10,
    ensures
        r@ == seq![digit_char(d as nat)],
{
    proof {
        reveal_strlit("0"); reveal_strlit("1"); reveal_strlit("2"); reveal_strlit("3");
        reveal_strlit("4"); reveal_strlit("5"); reveal_strlit("6"); reveal_strlit("7");
        reveal_strlit("8"); reveal_strlit("9");
    }
    match d {
        0 => { assert("0"@ =~= seq!['0']); "0" },
        1 => { assert("1"@ =~= seq!['1']); "1" },
        2 => { assert("2"@ =~= seq!['2']); "2" },
        3 => { assert("3"@ =~= seq!['3']); "3" },
        4 => { assert("4"@ =~= seq!['4']); "4" },
        5 => { assert("5"@ =~= seq!['5']); "5" },
        6 => { assert("6"@ =~= seq!['6']); "6" },
        7 => { assert("7"@ =~= seq!['7']); "7" },
        8 => { assert("8"@ =~= seq!['8']); "8" },
        _ => { assert("9"@ =~= seq!['9']); "9" },
    }
}

/// Appends the decimal notation of `n` to `s`.
pub fn append_decimal(s: &mut String, n: u64)
    ensures
        final(s)@ == old(s)@ + decimal(n as nat),
    decreases n,
{
    if n >= 10 {
        append_decimal(s, n / 10);
    }
    s.append(digit_str(n % 10));
    proof {
        if n >= 10 {
            assert(s@ =~= old(s)@ + decimal(n as nat));
        }
    }
}

} // verus!
