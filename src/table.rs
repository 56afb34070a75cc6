use vstd::prelude::*;

verus! {

/// What `char::is_whitespace` says of a character (the Unicode White_Space
/// property).
pub uninterp spec fn white_space(c: char) -> bool;

/// Relies on `char::is_whitespace`, which depends on the character alone.
#[verifier::external_body]
fn is_space(c: char) -> (r: bool)
    ensures
        r == white_space(c),
{
    c.is_whitespace()
}

/// `s` without its leading white space.
pub open spec fn trim_start(s: Seq<char>) -> Seq<char>
    decreases s.len(),
{
    if s.len() > 0 && white_space(s[0]) {
        trim_start(s.subrange(1, s.len() as int))
    } else {
        s
    }
}

/// `s` without its trailing white space.
pub open spec fn trim_end(s: Seq<char>) -> Seq<char>
    decreases s.len(),
{
    if s.len() > 0 && white_space(s.last()) {
        trim_end(s.drop_last())
    } else {
        s
    }
}

/// `s` without white space at either end.
pub open spec fn trim(s: Seq<char>) -> Seq<char> {
    trim_end(trim_start(s))
}

/// `i` is the position of the first separator in `s`.
pub open spec fn first_colon(s: Seq<char>, i: int) -> bool {
    0 <= i < s.len() && s[i] == ':' && forall|j: int| 0 <= j < i ==> s[j] != ':'
}

/// A put operand split on its first separator into a trimmed key and value;
/// nothing unless it has a separator and both parts are non-empty.
pub open spec fn put_operand(s: Seq<char>) -> Option<(Seq<char>, Seq<char>)> {
    if exists|i: int| first_colon(s, i) {
        let i = choose|i: int| first_colon(s, i);
        let k = trim(s.subrange(0, i));
        let v = trim(s.subrange(i + 1, s.len() as int));
        if k.len() > 0 && v.len() > 0 {
            Some((k, v))
        } else {
            None
        }
    } else {
        None
    }
}

/// A get operand trimmed; nothing when that leaves it empty.
pub open spec fn get_operand(s: Seq<char>) -> Option<Seq<char>> {
    if trim(s).len() > 0 {
        Some(trim(s))
    } else {
        None
    }
}

/// The characters of `s` from `lo` up to `hi`, without white space at
/// either end.
fn trim_range(s: &Vec<char>, lo: usize, hi: usize) -> (r: Vec<char>)
    requires
        lo <= hi <= s@.len(),
    ensures
        r@ == trim(s@.subrange(lo as int, hi as int)),
{
    let ghost t0 = s@.subrange(lo as int, hi as int);
    let mut i: usize = lo;
    while i < hi && is_space(s[i])
        invariant
            lo <= i <= hi <= s@.len(),
            trim_start(t0) == trim_start(s@.subrange(i as int, hi as int)),
        decreases hi - i,
    {
        assert(s@.subrange(i as int, hi as int).subrange(1, (hi - i) as int) =~= s@.subrange(
            i + 1,
            hi as int,
        ));
        i = i + 1;
    }
    let ghost t1 = s@.subrange(i as int, hi as int);
    assert(trim_start(t1) == t1);
    let mut j: usize = hi;
    while j > i && is_space(s[j - 1])
        invariant
            lo <= i <= j <= hi <= s@.len(),
            trim_end(t1) == trim_end(s@.subrange(i as int, j as int)),
        decreases j - i,
    {
        assert(s@.subrange(i as int, j as int).drop_last() =~= s@.subrange(i as int, j - 1));
        j = j - 1;
    }
    let ghost t2 = s@.subrange(i as int, j as int);
    assert(trim_end(t2) == t2);
    let mut out: Vec<char> = Vec::new();
    let mut k: usize = i;
    while k < j
        invariant
            i <= k <= j <= s@.len(),
            out@ == s@.subrange(i as int, k as int),
        decreases j - k,
    {
        out.push(s[k]);
        assert(out@ =~= s@.subrange(i as int, k + 1));
        k = k + 1;
    }
    out
}

/// Splits a put operand `key:value` on its first separator and trims both
/// parts; nothing unless both are non-empty.
pub fn parse_put(s: &Vec<char>) -> (r: Option<(Vec<char>, Vec<char>)>)
    ensures
        r matches Some((k, v)) ==> put_operand(s@) == Some((k@, v@)),
        r is None ==> put_operand(s@) is None,
{
    let mut i: usize = 0;
    while i < s.len() && s[i] != ':'
        invariant
            i <= s@.len(),
            forall|j: int| 0 <= j < i ==> s@[j] != ':',
        decreases s@.len() - i,
    {
        i = i + 1;
    }
    if i == s.len() {
        assert(!exists|c: int| first_colon(s@, c));
        return None;
    }
    assert(first_colon(s@, i as int));
    let ghost c = choose|c: int| first_colon(s@, c);
    assert(c == i) by {
        if c < i {
            assert(s@[c] != ':');
        } else if c > i {
            assert(s@[i as int] != ':');
        }
    }
    let k = trim_range(s, 0, i);
    let v = trim_range(s, i + 1, s.len());
    if k.len() > 0 && v.len() > 0 {
        Some((k, v))
    } else {
        None
    }
}

/// Trims a get operand; nothing when that leaves it empty.
pub fn parse_get(s: &Vec<char>) -> (r: Option<Vec<char>>)
    ensures
        r matches Some(k) ==> get_operand(s@) == Some(k@),
        r is None ==> get_operand(s@) is None,
{
    let k = trim_range(s, 0, s.len());
    assert(s@.subrange(0, s@.len() as int) =~= s@);
    if k.len() > 0 {
        Some(k)
    } else {
        None
    }
}

} // verus!
