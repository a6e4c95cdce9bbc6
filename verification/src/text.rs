//! Character-level helpers on strings.

use vstd::prelude::*;
use vstd::string::{StrSliceExecFns, StringExecFns};

verus! {

/// The characters of `s`, in order.
pub fn chars_of(s: &str) -> (v: Vec<char>)
    ensures
        v@ == s@,
{
    let mut v: Vec<char> = Vec::new();
    for c in it: s.chars()
        invariant
            it.seq() == s@,
            v@ == it.seq().take(it.index()),
    {
        v.push(c);
    }
    v
}

/// Whether two strings hold the same characters.
pub fn same_text(a: &str, b: &str) -> (r: bool)
    ensures
        r == (a@ == b@),
{
    let x = String::from_str(a);
    let y = String::from_str(b);
    x == y
}

/// The strings of `items`, each as its characters.
pub open spec fn text_views(items: Seq<String>) -> Seq<Seq<char>> {
    items.map_values(|s: String| s@)
}

/// Whether `c` is white space as Unicode defines it.
pub open spec fn is_white_space(c: char) -> bool {
    let n = c as u32;
    ||| 0x09 <= n <= 0x0D
    ||| n == 0x20
    ||| n == 0x85
    ||| n == 0xA0
    ||| n == 0x1680
    ||| 0x2000 <= n <= 0x200A
    ||| n == 0x2028
    ||| n == 0x2029
    ||| n == 0x202F
    ||| n == 0x205F
    ||| n == 0x3000
}

/// `s` without its leading white space.
pub open spec fn skip_white_space(s: Seq<char>) -> Seq<char>
    decreases s.len(),
{
    if s.len() > 0 && is_white_space(s[0]) {
        skip_white_space(s.drop_first())
    } else {
        s
    }
}

/// `s` without its trailing white space.
pub open spec fn drop_trailing_white_space(s: Seq<char>) -> Seq<char>
    decreases s.len(),
{
    if s.len() > 0 && is_white_space(s.last()) {
        drop_trailing_white_space(s.drop_last())
    } else {
        s
    }
}

/// `s` without white space at either end.
pub open spec fn trimmed(s: Seq<char>) -> Seq<char> {
    drop_trailing_white_space(skip_white_space(s))
}

/// `s` without its leading dots.
pub open spec fn skip_dots(s: Seq<char>) -> Seq<char>
    decreases s.len(),
{
    if s.len() > 0 && s[0] == '.' {
        skip_dots(s.drop_first())
    } else {
        s
    }
}

/// `s` trimmed, then without the dots that the trimmed text begins with.
pub open spec fn cleaned(s: Seq<char>) -> Seq<char> {
    skip_dots(trimmed(s))
}

/// Whether `c` is white space.
pub fn is_white_space_char(c: char) -> (r: bool)
    ensures
        r == is_white_space(c),
{
    let n: u32 = c as u32;
    (0x09 <= n && n <= 0x0D) || n == 0x20 || n == 0x85 || n == 0xA0 || n == 0x1680 || (0x2000 <= n
        && n <= 0x200A) || n == 0x2028 || n == 0x2029 || n == 0x202F || n == 0x205F || n == 0x3000
}

/// Where the cleaned text lies in `v`: it is `v[from..to]`.
fn clean_bounds(v: &Vec<char>) -> (r: (usize, usize))
    ensures
        r.0 <= r.1 <= v.len(),
        v@.subrange(r.0 as int, r.1 as int) == cleaned(v@),
{
    let len = v.len();
    let mut from: usize = 0;
    assert(v@.subrange(0, len as int) =~= v@);
    while from < len && is_white_space_char(v[from])
        invariant
            from <= len == v.len(),
            skip_white_space(v@) == skip_white_space(v@.subrange(from as int, len as int)),
        decreases len - from,
    {
        assert(v@.subrange(from as int, len as int).drop_first() =~= v@.subrange(
            from as int + 1,
            len as int,
        ));
        from += 1;
    }
    let mut to: usize = len;
    while to > from && is_white_space_char(v[to - 1])
        invariant
            from <= to <= len == v.len(),
            drop_trailing_white_space(v@.subrange(from as int, len as int))
                == drop_trailing_white_space(v@.subrange(from as int, to as int)),
        decreases to,
    {
        assert(v@.subrange(from as int, to as int).drop_last() =~= v@.subrange(
            from as int,
            to as int - 1,
        ));
        to -= 1;
    }
    assert(trimmed(v@) == v@.subrange(from as int, to as int));
    while from < to && v[from] == '.'
        invariant
            from <= to <= v.len(),
            cleaned(v@) == skip_dots(v@.subrange(from as int, to as int)),
        decreases to - from,
    {
        assert(v@.subrange(from as int, to as int).drop_first() =~= v@.subrange(
            from as int + 1,
            to as int,
        ));
        from += 1;
    }
    (from, to)
}

/// `raw` without white space at either end, and then without the dots that
/// the trimmed text begins with.
pub fn clean(raw: &str) -> (r: &str)
    ensures
        r@ == cleaned(raw@),
{
    let v = chars_of(raw);
    let (from, to) = clean_bounds(&v);
    raw.substring_char(from, to)
}

/// Whether `v` begins with `prefix`.
pub fn begins_with(v: &Vec<char>, prefix: &Vec<char>) -> (r: bool)
    ensures
        r == prefix@.is_prefix_of(v@),
{
    let n = prefix.len();
    if v.len() < n {
        return false;
    }
    let mut i: usize = 0;
    while i < n
        invariant
            i <= n == prefix.len(),
            n <= v.len(),
            forall|j: int| 0 <= j < i ==> prefix@[j] == v@[j],
        decreases n - i,
    {
        if prefix[i] != v[i] {
            return false;
        }
        i += 1;
    }
    assert(v@.subrange(0, n as int) =~= prefix@);
    true
}

} // verus!
