//! Text that crosses the boundary as a C string: bytes up to a terminating
//! NUL, with no NUL before it.
use vstd::prelude::*;
use vstd::utf8::encode_utf8;

verus! {

/// Whether the text can be a C string: its UTF-8 encoding holds no NUL byte.
pub open spec fn is_c_text(text: Seq<char>) -> bool {
    forall|i: int| 0 <= i < encode_utf8(text).len() ==> #[trigger] encode_utf8(text)[i] != 0u8
}

/// The C string of a text: its UTF-8 encoding and one terminating NUL.
pub open spec fn c_string_of(text: Seq<char>) -> Seq<u8> {
    encode_utf8(text).push(0u8)
}

/// Whether the bytes are a C string: they end in a NUL and hold no other.
pub open spec fn is_c_bytes(bytes: Seq<u8>) -> bool {
    &&& bytes.len() > 0
    &&& bytes.last() == 0u8
    &&& forall|i: int| 0 <= i < bytes.len() - 1 ==> #[trigger] bytes[i] != 0u8
}

/// The C string of a text without a NUL is a C string.
pub proof fn lemma_c_string_of_is_c_bytes(text: Seq<char>)
    requires
        is_c_text(text),
    ensures
        is_c_bytes(c_string_of(text)),
{
    let bytes = c_string_of(text);
    assert forall|i: int| 0 <= i < bytes.len() - 1 implies #[trigger] bytes[i] != 0u8 by {
        assert(bytes[i] == encode_utf8(text)[i]);
    }
}

/// The bytes of `text` as a C string, or `None` where the text holds a NUL
/// byte and so cannot be one.
pub fn to_c_string(text: &str) -> (r: Option<Vec<u8>>)
    ensures
        r is Some <==> is_c_text(text@),
        r matches Some(bytes) ==> bytes@ == c_string_of(text@),
{
    let bytes = text.as_bytes();
    let mut out: Vec<u8> = Vec::new();
    let mut i: usize = 0;
    while i < bytes.len()
        invariant
            bytes@ == encode_utf8(text@),
            i <= bytes@.len(),
            out@ == bytes@.take(i as int),
            forall|j: int| 0 <= j < i ==> #[trigger] bytes@[j] != 0u8,
        decreases bytes@.len() - i,
    {
        let b = bytes[i];
        if b == 0 {
            return None;
        }
        out.push(b);
        proof {
            assert(bytes@.take(i + 1) =~= bytes@.take(i as int).push(b));
        }
        i += 1;
    }
    proof {
        assert(bytes@.take(i as int) =~= bytes@);
    }
    out.push(0);
    Some(out)
}

/// Whether `text` can be a C string.
pub fn is_c_string(text: &str) -> (r: bool)
    ensures
        r == is_c_text(text@),
{
    let bytes = text.as_bytes();
    let mut i: usize = 0;
    while i < bytes.len()
        invariant
            bytes@ == encode_utf8(text@),
            i <= bytes@.len(),
            forall|j: int| 0 <= j < i ==> #[trigger] bytes@[j] != 0u8,
        decreases bytes@.len() - i,
    {
        if bytes[i] == 0 {
            return false;
        }
        i += 1;
    }
    true
}

} // verus!
