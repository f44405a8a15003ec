//! Comparison of strings by their UTF-8 bytes, stated over their characters.

use vstd::prelude::*;
use vstd::string::*;
use vstd::utf8::*;

verus! {

/// Encoding distributes over concatenation.
proof fn lemma_encode_concat(a: Seq<char>, b: Seq<char>)
    ensures
        encode_utf8(a + b) == encode_utf8(a) + encode_utf8(b),
    decreases a.len(),
{
    if a.len() == 0 {
        assert(a + b =~= b);
        assert(encode_utf8(a) + encode_utf8(b) =~= encode_utf8(b));
    } else {
        lemma_encode_concat(a.drop_first(), b);
        assert((a + b).drop_first() =~= a.drop_first() + b);
        assert((a + b)[0] == a[0]);
        assert(encode_utf8(a + b) =~= encode_utf8(a) + encode_utf8(b));
    }
}

/// Only the empty string has an empty encoding.
proof fn lemma_encode_empty(a: Seq<char>)
    ensures
        encode_utf8(a).len() == 0 <==> a.len() == 0,
{
    if a.len() > 0 {
        encode_utf8_first_scalar(a);
    }
}

/// A string whose encoding begins with the encoding of `p` begins with `p`.
proof fn lemma_encode_prefix(p: Seq<char>, s: Seq<char>)
    requires
        encode_utf8(p).is_prefix_of(encode_utf8(s)),
    ensures
        p.is_prefix_of(s),
    decreases p.len(),
{
    if p.len() == 0 {
        assert(p =~= s.subrange(0, 0));
    } else {
        let pb = encode_utf8(p);
        let sb = encode_utf8(s);
        encode_utf8_first_scalar(p);
        lemma_encode_empty(s);
        assert(s.len() > 0);
        encode_utf8_first_scalar(s);
        let n = length_of_first_scalar(pb);
        assert(n <= pb.len());
        assert(forall|i: int| 0 <= i < pb.len() ==> pb[i] == sb.subrange(0, pb.len() as int)[i]);
        assert(pb[0] == sb[0]);
        assert(n >= 2 ==> pb[1] == sb[1]);
        assert(n >= 3 ==> pb[2] == sb[2]);
        assert(n >= 4 ==> pb[3] == sb[3]);
        assert(decode_first_scalar(pb) == decode_first_scalar(sb));
        char_u32_cast(p[0], decode_first_scalar(pb));
        char_u32_cast(s[0], decode_first_scalar(sb));
        assert(p[0] == s[0]);
        let pt = p.drop_first();
        let st = s.drop_first();
        assert(encode_utf8(pt) =~= pb.subrange(n, pb.len() as int));
        assert(encode_utf8(st) =~= sb.subrange(n, sb.len() as int));
        assert(encode_utf8(pt).is_prefix_of(encode_utf8(st)));
        lemma_encode_prefix(pt, st);
        assert forall|i: int| 0 <= i < p.len() implies p[i] == s[i] by {
            if i > 0 {
                assert(pt[i - 1] == st.subrange(0, pt.len() as int)[i - 1]);
            }
        }
        assert(p =~= s.subrange(0, p.len() as int));
    }
}

/// A string begins with `p` exactly when its encoding begins with the
/// encoding of `p`.
proof fn lemma_prefix_by_bytes(p: Seq<char>, s: Seq<char>)
    ensures
        p.is_prefix_of(s) <==> encode_utf8(p).is_prefix_of(encode_utf8(s)),
{
    if p.is_prefix_of(s) {
        let rest = s.subrange(p.len() as int, s.len() as int);
        assert(s =~= p + rest);
        lemma_encode_concat(p, rest);
        assert(encode_utf8(p) =~= encode_utf8(s).subrange(0, encode_utf8(p).len() as int));
    }
    if encode_utf8(p).is_prefix_of(encode_utf8(s)) {
        lemma_encode_prefix(p, s);
    }
}

/// Two strings are equal exactly when their encodings are.
proof fn lemma_equal_by_bytes(a: Seq<char>, b: Seq<char>)
    ensures
        a == b <==> encode_utf8(a) == encode_utf8(b),
{
    encode_utf8_decode_utf8(a);
    encode_utf8_decode_utf8(b);
}

/// Whether `s` begins with `prefix`.
pub fn starts_with(s: &str, prefix: &str) -> (r: bool)
    ensures
        r == prefix@.is_prefix_of(s@),
{
    let sb = s.as_bytes();
    let pb = prefix.as_bytes();
    proof {
        lemma_prefix_by_bytes(prefix@, s@);
    }
    if pb.len() > sb.len() {
        return false;
    }
    let mut i: usize = 0;
    while i < pb.len()
        invariant
            i <= pb.len() <= sb.len(),
            pb@ == encode_utf8(prefix@),
            sb@ == encode_utf8(s@),
            forall|k: int| 0 <= k < i ==> pb@[k] == sb@[k],
        decreases pb.len() - i,
    {
        if pb[i] != sb[i] {
            proof {
                lemma_prefix_by_bytes(prefix@, s@);
                assert(sb@.subrange(0, pb@.len() as int)[i as int] != pb@[i as int]);
            }
            return false;
        }
        i += 1;
    }
    assert(pb@ =~= sb@.subrange(0, pb@.len() as int));
    true
}

/// Whether two strings hold the same characters.
pub fn text_eq(a: &str, b: &str) -> (r: bool)
    ensures
        r == (a@ == b@),
{
    let ab = a.as_bytes();
    let bb = b.as_bytes();
    proof {
        lemma_equal_by_bytes(a@, b@);
    }
    if ab.len() != bb.len() {
        return false;
    }
    let mut i: usize = 0;
    while i < ab.len()
        invariant
            i <= ab.len(),
            ab.len() == bb.len(),
            ab@ == encode_utf8(a@),
            bb@ == encode_utf8(b@),
            forall|k: int| 0 <= k < i ==> ab@[k] == bb@[k],
        decreases ab.len() - i,
    {
        if ab[i] != bb[i] {
            proof {
                lemma_equal_by_bytes(a@, b@);
            }
            return false;
        }
        i += 1;
    }
    assert(ab@ =~= bb@);
    true
}

} // verus!
