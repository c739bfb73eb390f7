//! The order of registry keys: texts by their UTF-8 bytes, keys part by part.

use vstd::prelude::*;
use vstd::string::*;
use vstd::utf8::encode_utf8;

verus! {

/// Key of a registry entry: connection id, port id, controller.
pub type AccountKey = (Seq<char>, Seq<char>, Seq<char>);

/// `a` comes before `b` in the lexicographic order of bytes.
pub open spec fn bytes_lt(a: Seq<u8>, b: Seq<u8>) -> bool
    decreases a.len(),
{
    if b.len() == 0 {
        false
    } else if a.len() == 0 {
        true
    } else if a[0] != b[0] {
        a[0] < b[0]
    } else {
        bytes_lt(a.skip(1), b.skip(1))
    }
}

/// `a` comes before `b` in the order of texts.
pub open spec fn text_lt(a: Seq<char>, b: Seq<char>) -> bool {
    bytes_lt(encode_utf8(a), encode_utf8(b))
}

/// `a` comes before `b` in the order of keys.
pub open spec fn key_lt(a: AccountKey, b: AccountKey) -> bool {
    ||| text_lt(a.0, b.0)
    ||| a.0 == b.0 && text_lt(a.1, b.1)
    ||| a.0 == b.0 && a.1 == b.1 && text_lt(a.2, b.2)
}

/// No sequence of bytes comes before itself.
pub proof fn lemma_bytes_lt_irreflexive(a: Seq<u8>)
    ensures
        !bytes_lt(a, a),
    decreases a.len(),
{
    if a.len() > 0 {
        lemma_bytes_lt_irreflexive(a.skip(1));
    }
}

/// The order of bytes is transitive.
pub proof fn lemma_bytes_lt_transitive(a: Seq<u8>, b: Seq<u8>, c: Seq<u8>)
    requires
        bytes_lt(a, b),
        bytes_lt(b, c),
    ensures
        bytes_lt(a, c),
    decreases a.len(),
{
    if a.len() > 0 && a[0] == b[0] && b[0] == c[0] {
        lemma_bytes_lt_transitive(a.skip(1), b.skip(1), c.skip(1));
    }
}

/// Of two sequences of bytes that differ, one comes before the other.
pub proof fn lemma_bytes_lt_total(a: Seq<u8>, b: Seq<u8>)
    ensures
        bytes_lt(a, b) || bytes_lt(b, a) || a == b,
    decreases a.len(),
{
    if a.len() > 0 && b.len() > 0 && a[0] == b[0] {
        lemma_bytes_lt_total(a.skip(1), b.skip(1));
        if a.skip(1) == b.skip(1) {
            assert(a =~= seq![a[0]] + a.skip(1));
            assert(b =~= seq![b[0]] + b.skip(1));
        }
    } else if a.len() == 0 && b.len() == 0 {
        assert(a =~= b);
    }
}

/// Two texts with the same bytes are the same text.
pub proof fn lemma_encoding_injective(a: Seq<char>, b: Seq<char>)
    requires
        encode_utf8(a) == encode_utf8(b),
    ensures
        a == b,
{
    vstd::utf8::encode_utf8_decode_utf8(a);
    vstd::utf8::encode_utf8_decode_utf8(b);
}

/// No text comes before itself.
pub proof fn lemma_text_lt_irreflexive(a: Seq<char>)
    ensures
        !text_lt(a, a),
{
    lemma_bytes_lt_irreflexive(encode_utf8(a));
}

/// Of two texts that differ, one comes before the other.
pub proof fn lemma_text_lt_total(a: Seq<char>, b: Seq<char>)
    ensures
        text_lt(a, b) || text_lt(b, a) || a == b,
{
    lemma_bytes_lt_total(encode_utf8(a), encode_utf8(b));
    if encode_utf8(a) == encode_utf8(b) {
        lemma_encoding_injective(a, b);
    }
}

/// No key comes before itself.
pub proof fn lemma_key_lt_irreflexive(a: AccountKey)
    ensures
        !key_lt(a, a),
{
    lemma_text_lt_irreflexive(a.0);
    lemma_text_lt_irreflexive(a.1);
    lemma_text_lt_irreflexive(a.2);
}

/// The order of keys is transitive.
pub proof fn lemma_key_lt_transitive(a: AccountKey, b: AccountKey, c: AccountKey)
    requires
        key_lt(a, b),
        key_lt(b, c),
    ensures
        key_lt(a, c),
{
    if text_lt(a.0, b.0) && text_lt(b.0, c.0) {
        lemma_bytes_lt_transitive(encode_utf8(a.0), encode_utf8(b.0), encode_utf8(c.0));
    }
    if text_lt(a.1, b.1) && text_lt(b.1, c.1) {
        lemma_bytes_lt_transitive(encode_utf8(a.1), encode_utf8(b.1), encode_utf8(c.1));
    }
    if text_lt(a.2, b.2) && text_lt(b.2, c.2) {
        lemma_bytes_lt_transitive(encode_utf8(a.2), encode_utf8(b.2), encode_utf8(c.2));
    }
}

/// Of two keys that differ, one comes before the other.
pub proof fn lemma_key_lt_total(a: AccountKey, b: AccountKey)
    ensures
        key_lt(a, b) || key_lt(b, a) || a == b,
{
    lemma_text_lt_total(a.0, b.0);
    lemma_text_lt_total(a.1, b.1);
    lemma_text_lt_total(a.2, b.2);
}

/// No two keys come before each other.
pub proof fn lemma_key_lt_asymmetric(a: AccountKey, b: AccountKey)
    requires
        key_lt(a, b),
    ensures
        !key_lt(b, a),
{
    if key_lt(b, a) {
        lemma_key_lt_transitive(a, b, a);
        lemma_key_lt_irreflexive(a);
    }
}

/// Skipping one more byte is skipping once more.
proof fn lemma_skip_step(a: Seq<u8>, i: int)
    requires
        0 <= i < a.len(),
    ensures
        a.skip(i).skip(1) == a.skip(i + 1),
        a.skip(i)[0] == a[i],
        a.skip(i).len() == a.len() - i,
{
    assert(a.skip(i).skip(1) =~= a.skip(i + 1));
}

/// Whether `a` comes before `b` in the order of texts.
pub fn text_before(a: &str, b: &str) -> (before: bool)
    ensures
        before == text_lt(a@, b@),
{
    let x = a.as_bytes();
    let y = b.as_bytes();
    let mut i: usize = 0;
    proof {
        assert(x@.skip(0) =~= x@);
        assert(y@.skip(0) =~= y@);
    }
    while i < x.len() && i < y.len()
        invariant
            x@ == encode_utf8(a@),
            y@ == encode_utf8(b@),
            i <= x@.len(),
            i <= y@.len(),
            bytes_lt(x@, y@) == bytes_lt(x@.skip(i as int), y@.skip(i as int)),
        decreases x@.len() - i,
    {
        proof {
            lemma_skip_step(x@, i as int);
            lemma_skip_step(y@, i as int);
        }
        if x[i] != y[i] {
            return x[i] < y[i];
        }
        i = i + 1;
    }
    proof {
        assert(x@.skip(i as int).len() == x@.len() - i);
        assert(y@.skip(i as int).len() == y@.len() - i);
    }
    i < y.len()
}

/// Whether the key `(a0, a1, a2)` comes before the key `(b0, b1, b2)`.
pub fn key_before(a0: &str, a1: &str, a2: &str, b0: &str, b1: &str, b2: &str) -> (before: bool)
    ensures
        before == key_lt((a0@, a1@, a2@), (b0@, b1@, b2@)),
{
    if text_before(a0, b0) {
        true
    } else if text_before(b0, a0) {
        proof {
            lemma_key_lt_asymmetric((b0@, b1@, b2@), (a0@, a1@, a2@));
        }
        false
    } else {
        proof {
            lemma_text_lt_total(a0@, b0@);
        }
        if text_before(a1, b1) {
            true
        } else if text_before(b1, a1) {
            proof {
                lemma_key_lt_asymmetric((b0@, b1@, b2@), (a0@, a1@, a2@));
            }
            false
        } else {
            proof {
                lemma_text_lt_total(a1@, b1@);
            }
            text_before(a2, b2)
        }
    }
}

} // verus!
