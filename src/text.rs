use vstd::prelude::*;

verus! {

/// The pattern `p` occurs in `s` starting at position `i`.
pub open spec fn match_at(s: Seq<char>, p: Seq<char>, i: int) -> bool {
    0 <= i && i + p.len() <= s.len() && s.subrange(i, i + p.len()) == p
}

/// The first position at or after `i` where `p` occurs in `s`, or -1.
pub open spec fn first_match_from(s: Seq<char>, p: Seq<char>, i: int) -> int
    decreases s.len() + 1 - i,
{
    if i < 0 || i + p.len() > s.len() {
        -1
    } else if match_at(s, p, i) {
        i
    } else {
        first_match_from(s, p, i + 1)
    }
}

pub proof fn lemma_first_match_from(s: Seq<char>, p: Seq<char>, i: int)
    ensures
        first_match_from(s, p, i) >= 0 ==> match_at(s, p, first_match_from(s, p, i))
            && first_match_from(s, p, i) >= i,
        first_match_from(s, p, i) >= -1,
    decreases s.len() + 1 - i,
{
    if i < 0 || i + p.len() > s.len() {
    } else if match_at(s, p, i) {
    } else {
        lemma_first_match_from(s, p, i + 1);
    }
}

pub open spec fn first_match(s: Seq<char>, p: Seq<char>) -> int {
    first_match_from(s, p, 0)
}

pub open spec fn contains(s: Seq<char>, p: Seq<char>) -> bool {
    first_match(s, p) >= 0
}

/// What precedes the first occurrence of `p`, or all of `s` where there is none
/// (the first piece of a split on `p`).
pub open spec fn before(s: Seq<char>, p: Seq<char>) -> Seq<char> {
    if first_match(s, p) < 0 {
        s
    } else {
        s.take(first_match(s, p))
    }
}

/// What follows the first occurrence of `p`, if there is one.
pub open spec fn after(s: Seq<char>, p: Seq<char>) -> Option<Seq<char>> {
    if first_match(s, p) < 0 {
        None
    } else {
        Some(s.skip(first_match(s, p) + p.len()))
    }
}

pub open spec fn ascii_lower(c: char) -> char {
    if 'A' <= c && c <= 'Z' {
        ((c as u32) + 32) as char
    } else {
        c
    }
}

/// The word "none" in any letter case: the sentinel for an unset value.
pub open spec fn is_none_word(s: Seq<char>) -> bool {
    s.len() == 4 && ascii_lower(s[0]) == 'n' && ascii_lower(s[1]) == 'o' && ascii_lower(s[2]) == 'n'
        && ascii_lower(s[3]) == 'e'
}

/// An optional setting that is present and is not the "none" sentinel.
pub open spec fn is_set(v: Option<Seq<char>>) -> bool {
    v is Some && !is_none_word(v->0)
}

pub fn chars_of(s: &str) -> (r: Vec<char>)
    ensures
        r@ == s@,
{
    let n = s.unicode_len();
    let mut r: Vec<char> = Vec::new();
    let mut i: usize = 0;
    while i < n
        invariant
            n == s@.len(),
            i <= n,
            r@ == s@.take(i as int),
        decreases n - i,
    {
        r.push(s.get_char(i));
        i = i + 1;
        assert(r@ =~= s@.take(i as int));
    }
    assert(r@ =~= s@);
    r
}

pub fn push_chars(out: &mut Vec<char>, s: &Vec<char>)
    ensures
        final(out)@ == old(out)@ + s@,
{
    let mut i: usize = 0;
    while i < s.len()
        invariant
            i <= s.len(),
            out@ == old(out)@ + s@.take(i as int),
        decreases s.len() - i,
    {
        out.push(s[i]);
        i = i + 1;
        assert(out@ =~= old(out)@ + s@.take(i as int));
    }
    assert(s@.take(s.len() as int) =~= s@);
}

pub fn push_str(out: &mut Vec<char>, s: &str)
    ensures
        final(out)@ == old(out)@ + s@,
{
    let v = chars_of(s);
    push_chars(out, &v);
}

/// Relies on `String`'s `FromIterator<char>`: the characters, in order.
#[verifier::external_body]
pub fn string_of(v: &Vec<char>) -> (r: String)
    ensures
        r@ == v@,
{
    v.iter().collect()
}

pub fn sub_chars(s: &Vec<char>, lo: usize, hi: usize) -> (r: Vec<char>)
    requires
        lo <= hi <= s@.len(),
    ensures
        r@ == s@.subrange(lo as int, hi as int),
{
    let mut r: Vec<char> = Vec::new();
    let mut i: usize = lo;
    while i < hi
        invariant
            lo <= i <= hi <= s@.len(),
            r@ == s@.subrange(lo as int, i as int),
        decreases hi - i,
    {
        r.push(s[i]);
        i = i + 1;
        assert(r@ =~= s@.subrange(lo as int, i as int));
    }
    r
}

fn match_here(s: &Vec<char>, p: &Vec<char>, i: usize) -> (r: bool)
    requires
        i + p@.len() <= s@.len(),
    ensures
        r == match_at(s@, p@, i as int),
{
    let mut j: usize = 0;
    while j < p.len()
        invariant
            i + p@.len() <= s@.len(),
            s@.len() == s.len(),
            j <= p@.len(),
            forall|k: int| 0 <= k < j ==> s@[i + k] == p@[k],
        decreases p.len() - j,
    {
        if s[i + j] != p[j] {
            assert(s@.subrange(i as int, i + p@.len())[j as int] != p@[j as int]);
            return false;
        }
        j = j + 1;
    }
    assert(s@.subrange(i as int, i + p@.len()) =~= p@);
    true
}

/// The first occurrence of `p` in `s`, if any.
pub fn find(s: &Vec<char>, p: &Vec<char>) -> (r: Option<usize>)
    ensures
        r is None <==> first_match(s@, p@) < 0,
        r is Some ==> r->0 == first_match(s@, p@) && match_at(s@, p@, r->0 as int),
{
    proof {
        lemma_first_match_from(s@, p@, 0);
    }
    if p.len() > s.len() {
        return None;
    }
    let last = s.len() - p.len();
    let mut i: usize = 0;
    while i <= last
        invariant
            last + p@.len() == s@.len(),
            first_match(s@, p@) == first_match_from(s@, p@, i as int),
        decreases last + 1 - i,
    {
        if match_here(s, p, i) {
            return Some(i);
        }
        if i == last {
            assert(first_match_from(s@, p@, i as int) == first_match_from(s@, p@, i + 1));
            assert(first_match_from(s@, p@, i + 1) == -1);
            return None;
        }
        i = i + 1;
    }
    None
}

pub fn contains_str(s: &Vec<char>, p: &str) -> (r: bool)
    ensures
        r == contains(s@, p@),
{
    let pv = chars_of(p);
    find(s, &pv).is_some()
}

pub fn lower_char(c: char) -> (r: char)
    ensures
        r == ascii_lower(c),
{
    if 'A' <= c && c <= 'Z' {
        ((c as u32) + 32) as u8 as char
    } else {
        c
    }
}

pub fn none_word(s: &str) -> (r: bool)
    ensures
        r == is_none_word(s@),
{
    if s.unicode_len() != 4 {
        return false;
    }
    lower_char(s.get_char(0)) == 'n' && lower_char(s.get_char(1)) == 'o' && lower_char(
        s.get_char(2),
    ) == 'n' && lower_char(s.get_char(3)) == 'e'
}

/// Whether an optional setting is present and not the "none" sentinel.
pub fn setting_present(v: &Option<String>) -> (r: bool)
    ensures
        r == is_set(match v {
            Some(s) => Some(s@),
            None => None,
        }),
{
    match v {
        Some(s) => !none_word(s.as_str()),
        None => false,
    }
}

} // verus!
