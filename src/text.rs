//! Zero-terminated byte strings and the text they carry.
use vstd::prelude::*;
use vstd::string::StringSliceAdditionalSpecFns;
use vstd::utf8::{decode_utf8, encode_scalar, encode_utf8, valid_utf8};

verus! {

broadcast use vstd::utf8::encode_utf8_decode_utf8, vstd::utf8::encode_utf8_valid_utf8;

/// Whether `s` holds a zero byte.
pub open spec fn has_nul(s: Seq<u8>) -> bool {
    exists|i: int| 0 <= i < s.len() && s[i] == 0
}

/// Whether `s` holds no zero byte.
pub open spec fn nul_free(s: Seq<u8>) -> bool {
    forall|i: int| 0 <= i < s.len() ==> s[i] != 0
}

/// The bytes of `s` before its first zero byte (all of `s` if it has none).
pub open spec fn c_prefix(s: Seq<u8>) -> Seq<u8>
    decreases s.len(),
{
    if s.len() == 0 {
        s
    } else if s[0] == 0 {
        Seq::empty()
    } else {
        seq![s[0]] + c_prefix(s.drop_first())
    }
}

/// The text that a name's bytes decode to: empty where they are not UTF-8.
pub open spec fn name_text(b: Seq<u8>) -> Seq<char> {
    if valid_utf8(b) {
        decode_utf8(b)
    } else {
        Seq::empty()
    }
}

/// A prefix without zero bytes is kept whole, and reading stops in what
/// follows it.
pub proof fn lemma_c_prefix_concat(a: Seq<u8>, b: Seq<u8>)
    requires
        nul_free(a),
    ensures
        c_prefix(a + b) == a + c_prefix(b),
    decreases a.len(),
{
    if a.len() == 0 {
        assert(a + b =~= b);
        assert(a + c_prefix(b) =~= c_prefix(b));
    } else {
        let rest = a.drop_first();
        assert((a + b).drop_first() =~= rest + b);
        lemma_c_prefix_concat(rest, b);
        assert(a =~= seq![a[0]] + rest);
        assert(seq![a[0]] + (rest + c_prefix(b)) =~= a + c_prefix(b));
    }
}

/// Appending a terminating zero leaves what is read unchanged.
pub proof fn lemma_c_prefix_push_nul(s: Seq<u8>)
    ensures
        c_prefix(s.push(0)) == c_prefix(s),
    decreases s.len(),
{
    if s.len() == 0 {
        assert(c_prefix(s) =~= Seq::<u8>::empty());
    } else if s[0] == 0 {
    } else {
        assert(s.push(0).drop_first() =~= s.drop_first().push(0));
        lemma_c_prefix_push_nul(s.drop_first());
    }
}

/// A byte string without zero bytes reads back whole.
pub proof fn lemma_c_prefix_nul_free(s: Seq<u8>)
    requires
        nul_free(s),
    ensures
        c_prefix(s) == s,
{
    lemma_c_prefix_concat(s, Seq::empty());
    assert(s + Seq::<u8>::empty() =~= s);
}

/// A text without the NUL character has no zero byte in its UTF-8 encoding.
pub proof fn lemma_encode_nul_free(chars: Seq<char>)
    requires
        forall|i: int| 0 <= i < chars.len() ==> chars[i] != '\0',
    ensures
        nul_free(encode_utf8(chars)),
    decreases chars.len(),
{
    if chars.len() > 0 {
        let c = chars[0] as u32;
        vstd::utf8::char_u32_cast(chars[0], c);
        assert(c != 0) by {
            if c == 0 {
                assert(('\0' as u32) == 0);
                vstd::utf8::char_u32_cast('\0', 0);
            }
        }
        assert(c != 0 && c <= 0x7f ==> (c & 0x7f) as u8 != 0) by (bit_vector);
        assert(0xc0u8 | (((c >> 6u32) & 0x1f) as u8) != 0) by (bit_vector);
        assert(0xe0u8 | (((c >> 12u32) & 0x0f) as u8) != 0) by (bit_vector);
        assert(0xf0u8 | (((c >> 18u32) & 0x7) as u8) != 0) by (bit_vector);
        assert(0x80u8 | ((c & 0x3f) as u8) != 0) by (bit_vector);
        assert(0x80u8 | (((c >> 6u32) & 0x3f) as u8) != 0) by (bit_vector);
        assert(0x80u8 | (((c >> 12u32) & 0x3f) as u8) != 0) by (bit_vector);
        let head = encode_scalar(c);
        assert(nul_free(head));
        lemma_encode_nul_free(chars.drop_first());
        let tail = encode_utf8(chars.drop_first());
        assert(encode_utf8(chars) == head + tail);
        assert forall|i: int| 0 <= i < (head + tail).len() implies (head + tail)[i] != 0 by {
            if i >= head.len() {
                assert((head + tail)[i] == tail[i - head.len()]);
            }
        }
    }
}

/// The bytes of `s` followed by a terminating zero.
pub fn c_string(s: &str) -> (r: Vec<u8>)
    ensures
        r@ == s.spec_bytes().push(0),
{
    let mut v = vstd::slice::slice_to_vec(s.as_bytes());
    v.push(0u8);
    v
}

/// The bytes of `s` before its first zero byte.
pub fn c_prefix_of(s: &[u8]) -> (r: Vec<u8>)
    ensures
        r@ == c_prefix(s@),
{
    let mut r: Vec<u8> = Vec::new();
    let mut i: usize = 0;
    while i < s.len() && s[i] != 0
        invariant
            i <= s@.len(),
            r@ == s@.take(i as int),
            nul_free(r@),
        decreases s@.len() - i,
    {
        r.push(s[i]);
        i = i + 1;
        assert(r@ =~= s@.take(i as int));
    }
    proof {
        assert(s@ =~= s@.take(i as int) + s@.skip(i as int));
        lemma_c_prefix_concat(s@.take(i as int), s@.skip(i as int));
        assert(c_prefix(s@.skip(i as int)) =~= Seq::<u8>::empty());
        assert(r@ + Seq::<u8>::empty() =~= r@);
    }
    r
}

/// Relies on core::str::from_utf8: it accepts exactly the valid UTF-8 byte
/// strings, and the text it returns is made of those bytes.
#[verifier::external_body]
fn utf8_text(b: &[u8]) -> (r: Option<String>)
    ensures
        r.is_some() == valid_utf8(b@),
        r.is_some() ==> encode_utf8(r.unwrap()@) == b@,
{
    core::str::from_utf8(b).ok().map(|t| t.to_owned())
}

/// Decodes UTF-8 bytes: the text they encode, or `None` where they are not
/// valid UTF-8.
pub fn decode_text(b: &[u8]) -> (r: Option<String>)
    ensures
        r.is_some() == valid_utf8(b@),
        r.is_some() ==> r.unwrap()@ == decode_utf8(b@),
{
    let r = utf8_text(b);
    if let Some(t) = &r {
        assert(decode_utf8(encode_utf8(t@)) == t@);
    }
    r
}

/// Decodes a name, giving the empty text where the bytes are not UTF-8.
pub fn decode_name(b: &[u8]) -> (r: String)
    ensures
        r@ == name_text(b@),
{
    match decode_text(b) {
        Some(t) => t,
        None => String::new(),
    }
}

/// A label without the NUL character, stored as its UTF-8 bytes and read
/// back up to the first zero byte, decodes to itself.
pub proof fn lemma_label_round_trip(label: Seq<char>)
    requires
        forall|i: int| 0 <= i < label.len() ==> label[i] != '\0',
    ensures
        name_text(c_prefix(encode_utf8(label))) == label,
{
    lemma_encode_nul_free(label);
    lemma_c_prefix_nul_free(encode_utf8(label));
}

} // verus!
