use vstd::prelude::*;

verus! {

/// The bytes that a text takes when stored.
pub open spec fn stored_bytes(text: Seq<char>) -> Seq<u8> {
    vstd::utf8::encode_utf8(text)
}

/// The number of bytes that a text takes when stored, which is what the
/// length bounds on names, hashes and content identifiers count.
pub open spec fn byte_len(text: Seq<char>) -> nat {
    stored_bytes(text).len()
}

/// The stored length of `text` in bytes.
pub fn stored_len(text: &String) -> (n: usize)
    ensures
        n == byte_len(text@),
{
    text.as_str().as_bytes().len()
}

} // verus!
