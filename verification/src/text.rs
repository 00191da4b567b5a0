//! Character-level helpers on strings: searching for a literal marker,
//! trimming white space and cutting out a range of characters.

use vstd::prelude::*;
use vstd::string::*;

verus! {

/// `needle` stands in `hay` at character position `i`.
pub open spec fn occurs_at(hay: Seq<char>, needle: Seq<char>, i: int) -> bool {
    &&& 0 <= i
    &&& i + needle.len() <= hay.len()
    &&& hay.subrange(i, i + needle.len()) == needle
}

/// `needle` stands in `hay` at `i` and nowhere before `i`.
pub open spec fn is_first_occurrence(hay: Seq<char>, needle: Seq<char>, i: int) -> bool {
    &&& occurs_at(hay, needle, i)
    &&& forall|j: int| 0 <= j < i ==> !occurs_at(hay, needle, j)
}

/// `needle` stands somewhere in `hay`.
pub open spec fn occurs(hay: Seq<char>, needle: Seq<char>) -> bool {
    exists|i: int| occurs_at(hay, needle, i)
}

/// The position of the earliest occurrence of `needle` in `hay`, if there is one.
pub open spec fn first_occurrence(hay: Seq<char>, needle: Seq<char>) -> Option<int> {
    if exists|i: int| is_first_occurrence(hay, needle, i) {
        Some(choose|i: int| is_first_occurrence(hay, needle, i))
    } else {
        None
    }
}

/// An earliest occurrence is unique, so it is the one `first_occurrence` names.
pub proof fn lemma_first_occurrence_is(hay: Seq<char>, needle: Seq<char>, i: int)
    requires
        is_first_occurrence(hay, needle, i),
    ensures
        first_occurrence(hay, needle) == Some(i),
{
    let k = choose|k: int| is_first_occurrence(hay, needle, k);
    if k < i {
        assert(!occurs_at(hay, needle, k));
    } else if i < k {
        assert(!occurs_at(hay, needle, i));
    }
}

/// Where nothing matches, `first_occurrence` is `None`.
pub proof fn lemma_first_occurrence_none(hay: Seq<char>, needle: Seq<char>)
    requires
        forall|j: int| 0 <= j ==> !occurs_at(hay, needle, j),
    ensures
        first_occurrence(hay, needle) is None,
        !occurs(hay, needle),
{
}

/// `first_occurrence` finds a match exactly when there is one.
pub proof fn lemma_first_occurrence_total(hay: Seq<char>, needle: Seq<char>)
    ensures
        first_occurrence(hay, needle) is Some <==> occurs(hay, needle),
        first_occurrence(hay, needle) matches Some(i) ==> is_first_occurrence(hay, needle, i),
{
    if occurs(hay, needle) {
        let w = choose|i: int| occurs_at(hay, needle, i);
        lemma_least_occurrence(hay, needle, w);
    }
}

/// Below any occurrence there is an earliest one.
proof fn lemma_least_occurrence(hay: Seq<char>, needle: Seq<char>, w: int)
    requires
        occurs_at(hay, needle, w),
    ensures
        exists|i: int| is_first_occurrence(hay, needle, i),
    decreases w,
{
    if exists|j: int| 0 <= j < w && occurs_at(hay, needle, j) {
        let j = choose|j: int| 0 <= j < w && occurs_at(hay, needle, j);
        lemma_least_occurrence(hay, needle, j);
    } else {
        assert(is_first_occurrence(hay, needle, w));
    }
}

/// The characters of `s`, in order.
pub fn chars_of(s: &str) -> (v: Vec<char>)
    ensures
        v@ == s@,
{
    let mut v: Vec<char> = Vec::new();
    let chars = s.chars();
    for c in it: chars
        invariant
            it.seq() == s@,
            v@ == it.seq().take(it.index() as int),
    {
        v.push(c);
    }
    v
}

/// Whether `needle` stands in `hay` at position `at`.
fn matches_here(hay: &Vec<char>, needle: &Vec<char>, at: usize) -> (r: bool)
    requires
        at + needle@.len() <= hay@.len(),
    ensures
        r == occurs_at(hay@, needle@, at as int),
{
    let n: usize = needle.len();
    let h: usize = hay.len();
    let mut k: usize = 0;
    while k < n
        invariant
            n == needle@.len(),
            h == hay@.len(),
            at + n <= h,
            k <= n,
            forall|j: int| 0 <= j < k ==> hay@[at + j] == needle@[j],
        decreases n - k,
    {
        if hay[at + k] != needle[k] {
            proof {
                assert(hay@.subrange(at as int, at + n)[k as int] == hay@[at + k]);
            }
            return false;
        }
        k += 1;
    }
    proof {
        assert(hay@.subrange(at as int, at + n) =~= needle@);
    }
    true
}

/// The character position of the earliest occurrence of `needle` in `hay`.
pub fn find(hay: &Vec<char>, needle: &Vec<char>) -> (r: Option<usize>)
    ensures
        r matches Some(i) ==> is_first_occurrence(hay@, needle@, i as int),
        r is None ==> !occurs(hay@, needle@),
        match r {
            Some(i) => first_occurrence(hay@, needle@) == Some(i as int),
            None => first_occurrence(hay@, needle@) is None,
        },
{
    let h: usize = hay.len();
    let n: usize = needle.len();
    if n > h {
        proof {
            lemma_first_occurrence_none(hay@, needle@);
        }
        return None;
    }
    let last: usize = h - n;
    let mut i: usize = 0;
    loop
        invariant_except_break
            h == hay@.len(),
            n == needle@.len(),
            n <= h,
            last == h - n,
            i <= last,
            forall|j: int| 0 <= j < i ==> !occurs_at(hay@, needle@, j),
        ensures
            forall|j: int| 0 <= j ==> !occurs_at(hay@, needle@, j),
        decreases last - i,
    {
        if matches_here(hay, needle, i) {
            proof {
                lemma_first_occurrence_is(hay@, needle@, i as int);
            }
            return Some(i);
        }
        if i == last {
            break;
        }
        i += 1;
    }
    proof {
        lemma_first_occurrence_none(hay@, needle@);
    }
    None
}

/// White space as Unicode's property `White_Space` lists it.
pub open spec fn is_white_space(c: char) -> bool {
    let n = c as u32;
    ||| 0x09 <= n <= 0x0D
    ||| n == 0x20
    ||| n == 0x85
    ||| n == 0xA0
    ||| n == 0x1680
    ||| 0x2000 <= n <= 0x200A
    ||| n == 0x2028
    ||| n == 0x2029
    ||| n == 0x202F
    ||| n == 0x205F
    ||| n == 0x3000
}

/// `s` without its leading white space.
pub open spec fn trim_start(s: Seq<char>) -> Seq<char>
    decreases s.len(),
{
    if s.len() > 0 && is_white_space(s.first()) {
        trim_start(s.drop_first())
    } else {
        s
    }
}

/// `s` without its trailing white space.
pub open spec fn trim_end(s: Seq<char>) -> Seq<char>
    decreases s.len(),
{
    if s.len() > 0 && is_white_space(s.last()) {
        trim_end(s.drop_last())
    } else {
        s
    }
}

/// `s` without leading and trailing white space.
pub open spec fn trimmed(s: Seq<char>) -> Seq<char> {
    trim_end(trim_start(s))
}

/// Whether `c` is white space.
pub fn white_space(c: char) -> (r: bool)
    ensures
        r == is_white_space(c),
{
    let n: u32 = c as u32;
    (0x09 <= n && n <= 0x0D) || n == 0x20 || n == 0x85 || n == 0xA0 || n == 0x1680 || (0x2000 <= n
        && n <= 0x200A) || n == 0x2028 || n == 0x2029 || n == 0x202F || n == 0x205F || n == 0x3000
}

/// The bounds of what is left of `chars[from..to]` once white space is
/// trimmed from both of its ends.
pub fn trim_range(chars: &Vec<char>, from: usize, to: usize) -> (r: (usize, usize))
    requires
        from <= to <= chars@.len(),
    ensures
        from <= r.0 <= r.1 <= to,
        chars@.subrange(r.0 as int, r.1 as int) == trimmed(chars@.subrange(from as int, to as int)),
{
    let mut a: usize = from;
    while a < to && white_space(chars[a])
        invariant
            from <= a <= to <= chars@.len(),
            trim_start(chars@.subrange(from as int, to as int)) == trim_start(
                chars@.subrange(a as int, to as int),
            ),
        decreases to - a,
    {
        proof {
            let s = chars@.subrange(a as int, to as int);
            assert(s.first() == chars@[a as int]);
            assert(s.drop_first() =~= chars@.subrange(a + 1, to as int));
        }
        a += 1;
    }
    proof {
        let s = chars@.subrange(a as int, to as int);
        if a < to {
            assert(s.first() == chars@[a as int]);
        }
        assert(trim_start(s) == s);
    }
    let mut b: usize = to;
    while b > a && white_space(chars[b - 1])
        invariant
            a <= b <= to <= chars@.len(),
            trim_end(chars@.subrange(a as int, to as int)) == trim_end(
                chars@.subrange(a as int, b as int),
            ),
        decreases b - a,
    {
        proof {
            let s = chars@.subrange(a as int, b as int);
            assert(s.last() == chars@[b - 1]);
            assert(s.drop_last() =~= chars@.subrange(a as int, b - 1));
        }
        b -= 1;
    }
    proof {
        let s = chars@.subrange(a as int, b as int);
        if a < b {
            assert(s.last() == chars@[b - 1]);
        }
        assert(trim_end(s) == s);
    }
    (a, b)
}

/// The characters `from..to` of `s` as a string of their own.
pub fn slice_chars(s: &str, from: usize, to: usize) -> (r: String)
    requires
        from <= to <= s@.len(),
    ensures
        r@ == s@.subrange(from as int, to as int),
{
    s.substring_char(from, to).to_owned()
}

} // verus!
