//! Small operations on text, each with its meaning over `Seq<char>`.

use vstd::prelude::*;
use vstd::string::StrSliceExecFns;
use vstd::string::StringExecFns;

verus! {

/// Whether `c` is white space in the sense of Unicode's `White_Space`
/// property, which is what trimming removes.
pub open spec fn is_space(c: char) -> bool {
    let n = c as u32;
    ||| 0x09 <= n <= 0x0D
    ||| n == 0x20
    ||| n == 0x85
    ||| n == 0xA0
    ||| n == 0x1680
    ||| 0x2000 <= n <= 0x200A
    ||| n == 0x2028
    ||| n == 0x2029
    ||| n == 0x202F
    ||| n == 0x205F
    ||| n == 0x3000
}

/// `s` without its leading white space.
pub open spec fn trim_start(s: Seq<char>) -> Seq<char>
    decreases s.len(),
{
    if s.len() > 0 && is_space(s[0]) {
        trim_start(s.drop_first())
    } else {
        s
    }
}

/// `s` without its trailing white space.
pub open spec fn trim_end(s: Seq<char>) -> Seq<char>
    decreases s.len(),
{
    if s.len() > 0 && is_space(s.last()) {
        trim_end(s.drop_last())
    } else {
        s
    }
}

/// `s` without white space at either end.
pub open spec fn trim(s: Seq<char>) -> Seq<char> {
    trim_end(trim_start(s))
}

/// `s` without the run of `c` at its end.
pub open spec fn strip_trailing(s: Seq<char>, c: char) -> Seq<char>
    decreases s.len(),
{
    if s.len() > 0 && s.last() == c {
        strip_trailing(s.drop_last(), c)
    } else {
        s
    }
}

/// The code of `c` with an ASCII capital replaced by its small letter.
pub open spec fn folded(c: char) -> u32 {
    if 'A' <= c <= 'Z' {
        (c as u32 + 32) as u32
    } else {
        c as u32
    }
}

/// Whether `s` begins with `prefix` when ASCII letters are compared
/// without regard to case.
pub open spec fn starts_with_ignoring_case(s: Seq<char>, prefix: Seq<char>) -> bool {
    &&& prefix.len() <= s.len()
    &&& forall|i: int| 0 <= i < prefix.len() ==> folded(#[trigger] s[i]) == folded(prefix[i])
}

/// Whether `c` is white space.
pub fn is_space_char(c: char) -> (r: bool)
    ensures
        r == is_space(c),
{
    let n: u32 = c as u32;
    (0x09 <= n && n <= 0x0D) || n == 0x20 || n == 0x85 || n == 0xA0 || n == 0x1680 || (0x2000 <= n
        && n <= 0x200A) || n == 0x2028 || n == 0x2029 || n == 0x202F || n == 0x205F || n == 0x3000
}

/// The code of `c` with an ASCII capital replaced by its small letter.
pub fn fold_char(c: char) -> (r: u32)
    ensures
        r == folded(c),
{
    if 'A' <= c && c <= 'Z' {
        c as u32 + 32
    } else {
        c as u32
    }
}

/// The characters of `s`, in order.
pub fn chars_of(s: &str) -> (v: Vec<char>)
    ensures
        v@ == s@,
{
    let mut v: Vec<char> = Vec::new();
    for c in it: s.chars()
        invariant
            it.seq() == s@,
            v@ == it.seq().take(it.index() as int),
    {
        v.push(c);
    }
    v
}

/// `a` followed by `b`.
pub fn join(a: &str, b: &str) -> (r: String)
    ensures
        r@ == a@ + b@,
{
    let mut s = String::from_str(a);
    s.append(b);
    s
}

/// `s` without the slashes at its end.
pub fn trim_end_slashes(s: &str) -> (r: &str)
    ensures
        r@ == strip_trailing(s@, '/'),
{
    let v = chars_of(s);
    let mut end: usize = v.len();
    assert(s@.take(end as int) =~= s@);
    while end > 0 && v[end - 1] == '/'
        invariant
            end <= v.len(),
            v@ == s@,
            strip_trailing(s@, '/') == strip_trailing(s@.take(end as int), '/'),
        decreases end,
    {
        assert(s@.take(end as int).drop_last() =~= s@.take(end - 1));
        end -= 1;
    }
    s.substring_char(0, end)
}

/// The bounds of what trimming leaves of `v` from index `from` on.
pub(crate) fn trim_range(v: &Vec<char>, from: usize) -> (r: (usize, usize))
    requires
        from <= v.len(),
    ensures
        from <= r.0 <= r.1 <= v.len(),
        v@.subrange(r.0 as int, r.1 as int) == trim(v@.skip(from as int)),
{
    let mut a: usize = from;
    while a < v.len() && is_space_char(v[a])
        invariant
            from <= a <= v.len(),
            trim_start(v@.skip(from as int)) == trim_start(v@.skip(a as int)),
        decreases v.len() - a,
    {
        assert(v@.skip(a as int).drop_first() =~= v@.skip(a + 1));
        a += 1;
    }
    assert(v@.skip(a as int) =~= v@.subrange(a as int, v.len() as int));
    let mut b: usize = v.len();
    while b > a && is_space_char(v[b - 1])
        invariant
            a <= b <= v.len(),
            trim_end(v@.skip(a as int)) == trim_end(v@.subrange(a as int, b as int)),
        decreases b,
    {
        assert(v@.subrange(a as int, b as int).drop_last() =~= v@.subrange(a as int, b - 1));
        b -= 1;
    }
    (a, b)
}

} // verus!
