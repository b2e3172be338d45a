//! NUL-terminated byte strings as the vendor DLL fills them in.
use vstd::prelude::*;
use vstd::utf8::*;

verus! {

/// `n` is the length of the C string at the start of `b`: no NUL before
/// `n`, and a NUL at `n` unless `n` is the end of the buffer.
pub open spec fn is_c_str_len(b: Seq<u8>, n: int) -> bool {
    &&& 0 <= n <= b.len()
    &&& forall|i: int| 0 <= i < n ==> b[i] != 0
    &&& n < b.len() ==> b[n] == 0
}

/// The length of the C string at the start of `b` (the whole buffer when it
/// holds no NUL).
pub open spec fn c_str_len(b: Seq<u8>) -> int {
    choose|n: int| is_c_str_len(b, n)
}

/// The bytes of the C string at the start of `b`, without the NUL.
pub open spec fn c_str(b: Seq<u8>) -> Seq<u8> {
    b.take(c_str_len(b))
}

/// The C string length of a buffer exists and is unique.
pub proof fn lemma_c_str_len(b: Seq<u8>, n: int)
    requires
        is_c_str_len(b, n),
    ensures
        c_str_len(b) == n,
{
    let m = c_str_len(b);
    assert(is_c_str_len(b, m));
    if m < n {
        assert(b[m] != 0);
    } else if n < m {
        assert(b[n] != 0);
    }
}

/// What `String::from_utf8_lossy` makes of `bytes`: the decoded text, with
/// every invalid sequence replaced by U+FFFD.
pub uninterp spec fn utf8_lossy(bytes: Seq<u8>) -> Seq<char>;

/// Calls `String::from_utf8_lossy`. Its documentation states that valid
/// UTF-8 comes back unchanged and that every invalid sequence is replaced by
/// U+FFFD; so the only way a NUL character gets into the result is a zero
/// byte of the input (NUL is encoded as that one byte, and no other
/// character's encoding contains it). Which text comes out of invalid
/// sequences beyond that is left to the name `utf8_lossy`.
#[verifier::external_body]
pub(crate) fn string_from_utf8_lossy(bytes: &[u8]) -> (s: String)
    ensures
        s@ == utf8_lossy(bytes@),
        valid_utf8(bytes@) ==> s@ == decode_utf8(bytes@),
        !bytes@.contains(0u8) ==> !s@.contains('\0'),
{
    String::from_utf8_lossy(bytes).into_owned()
}

/// Calls `std::str::from_utf8`, which accepts exactly the valid UTF-8
/// byte strings and then yields the text they encode.
#[verifier::external_body]
pub(crate) fn str_from_utf8(bytes: &[u8]) -> (r: Option<String>)
    ensures
        r is Some <==> valid_utf8(bytes@),
        r matches Some(s) ==> s@ == decode_utf8(bytes@),
{
    match std::str::from_utf8(bytes) {
        Ok(s) => Some(s.to_string()),
        Err(_) => None,
    }
}

/// The length of the C string at the start of `bytes`.
pub fn c_str_length(bytes: &[u8]) -> (n: usize)
    ensures
        n == c_str_len(bytes@),
        is_c_str_len(bytes@, n as int),
{
    let mut n: usize = 0;
    while n < bytes.len() && bytes[n] != 0
        invariant
            n <= bytes@.len(),
            forall|i: int| 0 <= i < n ==> bytes@[i] != 0,
        decreases bytes@.len() - n,
    {
        n = n + 1;
    }
    proof {
        lemma_c_str_len(bytes@, n as int);
    }
    n
}

/// The text of the C string at the start of `bytes`, decoded from UTF-8
/// with invalid sequences replaced.
pub fn c_string_from_bytes(bytes: &[u8]) -> (s: String)
    ensures
        s@ == utf8_lossy(c_str(bytes@)),
        valid_utf8(c_str(bytes@)) ==> s@ == decode_utf8(c_str(bytes@)),
        !s@.contains('\0'),
{
    let len = c_str_length(bytes);
    let head = &bytes[0..len];
    assert(head@ == c_str(bytes@));
    assert(!head@.contains(0u8)) by {
        assert forall|i: int| 0 <= i < head@.len() implies head@[i] != 0u8 by {
            assert(head@[i] == bytes@[i]);
        }
    }
    string_from_utf8_lossy(head)
}

} // verus!
