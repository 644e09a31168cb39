use vstd::prelude::*;
use vstd::string::*;

verus! {

/// Compare two string slices character by character.
pub fn str_eq(a: &str, b: &str) -> (r: bool)
    ensures
        r == (a@ == b@),
{
    let alen = a.unicode_len();
    let blen = b.unicode_len();
    if alen != blen {
        return false;
    }
    let mut i: usize = 0;
    while i < alen
        invariant
            i <= alen,
            alen == a@.len(),
            blen == b@.len(),
            alen == blen,
            forall|j: int| 0 <= j < i ==> a@[j] == b@[j],
        decreases alen - i,
    {
        if a.get_char(i) != b.get_char(i) {
            return false;
        }
        i += 1;
    }
    proof {
        assert(a@ =~= b@);
    }
    true
}

/// Relies on `String::push` from std: it appends the given character to the
/// end of the string.
#[verifier::external_body]
pub(crate) fn push_char(s: &mut String, c: char)
    ensures
        final(s)@ == old(s)@.push(c),
{
    s.push(c);
}

/// Whether the string holds this character.
pub fn contains_char(s: &str, c: char) -> (r: bool)
    ensures
        r == exists|i: int| 0 <= i < s@.len() && s@[i] == c,
{
    let len = s.unicode_len();
    let mut i: usize = 0;
    while i < len
        invariant
            i <= len,
            len == s@.len(),
            forall|j: int| 0 <= j < i ==> s@[j] != c,
        decreases len - i,
    {
        if s.get_char(i) == c {
            return true;
        }
        i += 1;
    }
    false
}

/// Whether the pattern occurs in `s` starting at position `i`.
pub open spec fn match_at(s: Seq<char>, pat: Seq<char>, i: int) -> bool {
    0 <= i && i + pat.len() <= s.len() && s.subrange(i, i + pat.len() as int) == pat
}

/// Whether the pattern occurs anywhere in `s`.
pub open spec fn has_match(s: Seq<char>, pat: Seq<char>) -> bool {
    exists|i: int| match_at(s, pat, i)
}

/// Check whether the pattern occurs at position `i`.
pub fn match_at_exec(s: &str, pat: &str, i: usize) -> (r: bool)
    requires
        i + pat@.len() <= s@.len(),
    ensures
        r == match_at(s@, pat@, i as int),
{
    let slen = s.unicode_len();
    let plen = pat.unicode_len();
    let mut j: usize = 0;
    while j < plen
        invariant
            j <= plen,
            plen == pat@.len(),
            slen == s@.len(),
            i + plen <= s@.len(),
            forall|k: int| 0 <= k < j ==> s@[i + k] == pat@[k],
        decreases plen - j,
    {
        if s.get_char(i + j) != pat.get_char(j) {
            proof {
                assert(s@.subrange(i as int, i + pat@.len() as int)[j as int] == s@[i + j]);
            }
            return false;
        }
        j += 1;
    }
    proof {
        assert(s@.subrange(i as int, i + pat@.len() as int) =~= pat@);
    }
    true
}

/// Find the first occurrence of the pattern in `s`.
pub fn find_pattern(s: &str, pat: &str) -> (r: Option<usize>)
    requires
        pat@.len() >= 1,
    ensures
        match r {
            Some(i) => match_at(s@, pat@, i as int) && forall|j: int|
                0 <= j < i ==> !match_at(s@, pat@, j),
            None => forall|j: int| !match_at(s@, pat@, j),
        },
{
    let slen = s.unicode_len();
    let plen = pat.unicode_len();
    if plen > slen {
        return None;
    }
    let mut i: usize = 0;
    while i <= slen - plen
        invariant
            plen == pat@.len(),
            slen == s@.len(),
            1 <= plen <= slen,
            i <= slen - plen + 1,
            forall|j: int| 0 <= j < i ==> !match_at(s@, pat@, j),
        decreases slen + 1 - plen - i,
    {
        if match_at_exec(s, pat, i) {
            return Some(i);
        }
        i += 1;
    }
    proof {
        assert forall|j: int| !match_at(s@, pat@, j) by {
            if j < i {
            } else {
                assert(j + pat@.len() > s@.len());
            }
        }
    }
    None
}

/// `s` with every occurrence of the pattern replaced, scanning left to
/// right; an empty pattern replaces nothing.
pub open spec fn replace_all(s: Seq<char>, pat: Seq<char>, rep: Seq<char>) -> Seq<char>
    decreases s.len(),
{
    if pat.len() == 0 || s.len() < pat.len() {
        s
    } else if s.subrange(0, pat.len() as int) == pat {
        rep + replace_all(s.subrange(pat.len() as int, s.len() as int), pat, rep)
    } else {
        seq![s[0]] + replace_all(s.subrange(1, s.len() as int), pat, rep)
    }
}

/// Replace every occurrence of the pattern in `s`, scanning left to right.
pub fn replace_all_exec(s: &str, pat: &str, rep: &str) -> (r: String)
    requires
        pat@.len() >= 1,
    ensures
        r@ == replace_all(s@, pat@, rep@),
{
    let slen = s.unicode_len();
    let plen = pat.unicode_len();
    let mut r = String::new();
    let mut i: usize = 0;
    proof {
        assert(s@.subrange(0, slen as int) =~= s@);
        assert(Seq::<char>::empty() + replace_all(s@, pat@, rep@) =~= replace_all(s@, pat@, rep@));
    }
    while i < slen
        invariant
            plen == pat@.len(),
            plen >= 1,
            slen == s@.len(),
            i <= slen,
            replace_all(s@, pat@, rep@) == r@ + replace_all(
                s@.subrange(i as int, slen as int),
                pat@,
                rep@,
            ),
        decreases slen - i,
    {
        let ghost rem = s@.subrange(i as int, slen as int);
        let ghost r0 = r@;
        if plen <= slen - i && match_at_exec(s, pat, i) {
            let ghost x = replace_all(s@.subrange(i + plen, slen as int), pat@, rep@);
            proof {
                assert(rem.subrange(0, plen as int) =~= s@.subrange(i as int, i + plen));
                assert(rem.subrange(plen as int, rem.len() as int) =~= s@.subrange(
                    i + plen,
                    slen as int,
                ));
                assert(replace_all(rem, pat@, rep@) == rep@ + x);
            }
            r.append(rep);
            proof {
                assert(r@ + x =~= r0 + (rep@ + x));
            }
            i += plen;
        } else {
            let ghost x = replace_all(s@.subrange(i + 1, slen as int), pat@, rep@);
            proof {
                if i + plen <= slen as int {
                    assert(rem.subrange(0, plen as int) =~= s@.subrange(i as int, i + plen));
                } else {
                    assert(rem.len() < plen);
                }
                assert(rem.subrange(1, rem.len() as int) =~= s@.subrange(i + 1, slen as int));
                assert(replace_all(rem, pat@, rep@) == seq![rem[0]] + x);
            }
            push_char(&mut r, s.get_char(i));
            proof {
                assert(r@ == r0.push(rem[0]));
                assert(r@ + x =~= r0 + (seq![rem[0]] + x));
            }
            i += 1;
        }
    }
    proof {
        assert(s@.subrange(0, slen as int) =~= s@);
        assert(s@.subrange(slen as int, slen as int) =~= Seq::<char>::empty());
    }
    r
}

} // verus!
