use vstd::prelude::*;
use vstd::std_specs::iter::IteratorSpec;
use vstd::string::*;
use vstd::utf8::*;

verus! {

/// Whether two strings hold the same characters.
pub fn str_eq(a: &str, b: &str) -> (same: bool)
    ensures
        same == (a@ == b@),
{
    let x = a.as_bytes();
    let y = b.as_bytes();
    proof {
        // Encoding loses nothing, so equal bytes mean equal characters.
        encode_utf8_decode_utf8(a@);
        encode_utf8_decode_utf8(b@);
    }
    if x.len() != y.len() {
        return false;
    }
    let mut i: usize = 0;
    while i < x.len()
        invariant
            i <= x.len(),
            x.len() == y.len(),
            x@ == a.spec_bytes(),
            y@ == b.spec_bytes(),
            forall|j: int| 0 <= j < i ==> x@[j] == y@[j],
        decreases x.len() - i,
    {
        if x[i] != y[i] {
            return false;
        }
        i += 1;
    }
    assert(x@ =~= y@);
    true
}

/// The position of the first `c` in `s`, or the length of `s` where `s` holds
/// no `c`.
pub open spec fn first_index(s: Seq<char>, c: char) -> int
    decreases s.len(),
{
    if s.len() == 0 {
        0
    } else if s[0] == c {
        0
    } else {
        1 + first_index(s.drop_first(), c)
    }
}

/// `first_index` is the least position that holds `c`, and the length when no
/// position does.
pub proof fn lemma_first_index(s: Seq<char>, c: char)
    ensures
        0 <= first_index(s, c) <= s.len(),
        forall|j: int| 0 <= j < first_index(s, c) ==> s[j] != c,
        first_index(s, c) < s.len() ==> s[first_index(s, c)] == c,
    decreases s.len(),
{
    if s.len() > 0 && s[0] != c {
        let rest = s.drop_first();
        lemma_first_index(rest, c);
        assert forall|j: int| 0 <= j < first_index(s, c) implies s[j] != c by {
            if j > 0 {
                assert(s[j] == rest[j - 1]);
            }
        }
    }
}

/// A position that holds `c` with none before it is the first.
pub proof fn lemma_first_index_is(s: Seq<char>, c: char, at: int)
    requires
        0 <= at <= s.len(),
        forall|j: int| 0 <= j < at ==> s[j] != c,
        at < s.len() ==> s[at] == c,
    ensures
        first_index(s, c) == at,
{
    lemma_first_index(s, c);
    let first = first_index(s, c);
    if first < at {
        assert(s[first] != c);
    }
}

/// Where the first `c` of `s` stands, counted in characters.
pub fn position(s: &str, c: char) -> (at: usize)
    ensures
        at == first_index(s@, c),
        at <= s@.len(),
{
    let length = s.unicode_len();
    let mut rest = s.chars();
    let mut at: usize = 0;
    loop
        invariant_except_break
            rest.remaining() == s@.subrange(at as int, s@.len() as int),
        invariant
            at <= length,
            length == s@.len(),
            forall|j: int| 0 <= j < at ==> s@[j] != c,
        ensures
            at <= s@.len(),
            forall|j: int| 0 <= j < at ==> s@[j] != c,
            at < s@.len() ==> s@[at as int] == c,
        decreases s@.len() - at,
    {
        match rest.next() {
            Some(found) => {
                if found == c {
                    break ;
                }
                at += 1;
            },
            None => {
                break ;
            },
        }
    }
    proof {
        lemma_first_index_is(s@, c, at as int);
    }
    at
}

} // verus!
