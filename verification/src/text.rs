//! Comparing strings and splitting them, proved over their UTF-8 encoding.
//!
//! Strings are viewed as sequences of characters and stored as bytes. The
//! functions here work on the bytes and state their results over the
//! characters; the lemmas carry facts from one to the other.

use vstd::prelude::*;
use vstd::string::StringSliceAdditionalSpecFns;
use vstd::utf8::*;

verus! {

/// Encoding distributes over concatenation.
pub proof fn lemma_encode_concat(a: Seq<char>, b: Seq<char>)
    ensures
        encode_utf8(a + b) == encode_utf8(a) + encode_utf8(b),
    decreases a.len(),
{
    if a.len() > 0 {
        lemma_encode_concat(a.drop_first(), b);
        assert((a + b).drop_first() =~= a.drop_first() + b);
    }
}

/// Two strings with the same encoding are the same string.
pub proof fn lemma_encode_injective(a: Seq<char>, b: Seq<char>)
    requires
        encode_utf8(a) == encode_utf8(b),
    ensures
        a == b,
{
    encode_utf8_decode_utf8(a);
    encode_utf8_decode_utf8(b);
}

/// Where the first `n` bytes of a valid encoding are themselves a valid
/// encoding, a character starts at byte `n`.
pub proof fn lemma_valid_prefix_ends_on_boundary(bytes: Seq<u8>, n: int)
    requires
        valid_utf8(bytes),
        0 <= n <= bytes.len(),
        valid_utf8(bytes.subrange(0, n)),
    ensures
        is_char_boundary(bytes, n),
    decreases bytes.len(),
{
    if n != 0 {
        let head = bytes.subrange(0, n);
        let width = length_of_first_scalar(bytes);
        assert(pop_first_scalar(head) =~= pop_first_scalar(bytes).subrange(0, n - width));
        lemma_valid_prefix_ends_on_boundary(pop_first_scalar(bytes), n - width);
    }
}

/// Whether two strings hold the same characters.
pub fn same_text(a: &str, b: &str) -> (r: bool)
    ensures
        r == (a@ == b@),
{
    let x = a.as_bytes();
    let y = b.as_bytes();
    if x.len() != y.len() {
        return false;
    }
    let mut i: usize = 0;
    while i < x.len()
        invariant
            i <= x.len(),
            x.len() == y.len(),
            x@ == encode_utf8(a@),
            y@ == encode_utf8(b@),
            forall|j: int| 0 <= j < i ==> x@[j] == y@[j],
        decreases x.len() - i,
    {
        if x[i] != y[i] {
            return false;
        }
        i = i + 1;
    }
    proof {
        assert(x@ =~= y@);
        lemma_encode_injective(a@, b@);
    }
    true
}

/// The rest of `text` after `prefix`, or `None` where `text` does not start
/// with `prefix`.
pub fn strip_prefix<'a>(text: &'a str, prefix: &str) -> (r: Option<&'a str>)
    ensures
        r is Some <==> prefix@.is_prefix_of(text@),
        r matches Some(rest) ==> text@ == prefix@ + rest@,
{
    let x = text.as_bytes();
    let p = prefix.as_bytes();
    proof {
        if prefix@.is_prefix_of(text@) {
            let tail = text@.subrange(prefix@.len() as int, text@.len() as int);
            assert(text@ =~= prefix@ + tail);
            lemma_encode_concat(prefix@, tail);
        }
    }
    if p.len() > x.len() {
        return None;
    }
    let mut i: usize = 0;
    while i < p.len()
        invariant
            i <= p.len() <= x.len(),
            prefix@.is_prefix_of(text@) ==> p@.is_prefix_of(x@),
            forall|j: int| 0 <= j < i ==> x@[j] == p@[j],
        decreases p.len() - i,
    {
        if x[i] != p[i] {
            return None;
        }
        i = i + 1;
    }
    let n = p.len();
    proof {
        assert(x@.subrange(0, n as int) =~= p@);
        encode_utf8_valid_utf8(text@);
        encode_utf8_valid_utf8(prefix@);
        lemma_valid_prefix_ends_on_boundary(x@, n as int);
        valid_utf8_split(x@, n as int);
        decode_utf8_split(x@, n as int);
        encode_utf8_decode_utf8(text@);
        encode_utf8_decode_utf8(prefix@);
    }
    let (_, rest) = text.split_at(n);
    proof {
        encode_utf8_decode_utf8(rest@);
    }
    Some(rest)
}

} // verus!
