//! Text on its way across the boundary with the native runtime.
//!
//! Outbound text travels as a NUL-terminated byte string, so it must not hold a
//! NUL byte of its own. Inbound text arrives as raw bytes and is accepted only
//! if it is well-formed UTF-8.

use vstd::prelude::*;
use vstd::slice::slice_subrange;
use vstd::string::*;
use vstd::utf8::*;

verus! {

/// No byte of `bytes` is NUL.
pub open spec fn nul_free(bytes: Seq<u8>) -> bool {
    forall|i: int| 0 <= i < bytes.len() ==> bytes[i] != 0
}

/// `at` is the position of the first NUL byte of `bytes`.
pub open spec fn is_first_nul(bytes: Seq<u8>, at: int) -> bool {
    &&& 0 <= at < bytes.len()
    &&& bytes[at] == 0
    &&& nul_free(bytes.subrange(0, at))
}

/// `text` carries exactly `bytes`, which hold no NUL.
pub open spec fn encodes(bytes: Seq<u8>, text: CText) -> bool {
    nul_free(bytes) && text@ == bytes
}

/// A NUL byte inside text that was meant for the native runtime.
#[derive(Debug, Clone, Copy, PartialEq, Eq, Structural)]
pub struct NulError {
    /// Where the first NUL byte stands.
    pub position: usize,
}

/// Bytes from the native runtime that are not well-formed UTF-8.
#[derive(Debug, Clone, Copy, PartialEq, Eq, Structural)]
pub struct InvalidUtf8;

/// A NUL-terminated byte string, ready to be handed to the native runtime.
///
/// Its view is the text itself, without the terminator.
#[derive(Debug, PartialEq, Eq)]
pub struct CText {
    bytes: Vec<u8>,
}

impl View for CText {
    type V = Seq<u8>;

    closed spec fn view(&self) -> Seq<u8> {
        self.bytes@.drop_last()
    }
}

impl CText {
    #[verifier::type_invariant]
    spec fn terminated(&self) -> bool {
        &&& self.bytes@.len() > 0
        &&& self.bytes@.last() == 0
        &&& nul_free(self.bytes@.drop_last())
    }

    /// Terminates `bytes` with a NUL, unless they hold one already.
    pub fn from_bytes(bytes: &[u8]) -> (out: Result<CText, NulError>)
        ensures
            match out {
                Ok(text) => encodes(bytes@, text),
                Err(e) => is_first_nul(bytes@, e.position as int),
            },
    {
        let mut buffer: Vec<u8> = Vec::new();
        let mut i: usize = 0;
        while i < bytes.len()
            invariant
                i <= bytes.len(),
                buffer@ == bytes@.subrange(0, i as int),
                nul_free(buffer@),
            decreases bytes.len() - i,
        {
            let byte: u8 = bytes[i];
            if byte == 0 {
                return Err(NulError { position: i });
            }
            buffer.push(byte);
            i += 1;
        }
        buffer.push(0);
        assert(buffer@.drop_last() == bytes@);
        Ok(CText { bytes: buffer })
    }

    /// The UTF-8 bytes of `text`, terminated with a NUL, unless `text` holds
    /// one already.
    pub fn new(text: &str) -> (out: Result<CText, NulError>)
        ensures
            match out {
                Ok(encoded) => encodes(text.spec_bytes(), encoded),
                Err(e) => is_first_nul(text.spec_bytes(), e.position as int),
            },
    {
        CText::from_bytes(text.as_bytes())
    }

    /// The text, without its terminator.
    pub fn as_bytes(&self) -> (out: &[u8])
        ensures
            out@ == self@,
            nul_free(out@),
    {
        proof {
            use_type_invariant(self);
        }
        slice_subrange(self.bytes.as_slice(), 0, self.bytes.len() - 1)
    }

    /// The text, followed by its terminator.
    pub fn as_bytes_with_nul(&self) -> (out: &[u8])
        ensures
            out@ == self@.push(0),
            nul_free(self@),
    {
        proof {
            use_type_invariant(self);
            assert(self.bytes@ == self.bytes@.drop_last().push(self.bytes@.last()));
        }
        self.bytes.as_slice()
    }

    /// The number of bytes of the text, without its terminator.
    pub fn len(&self) -> (n: usize)
        ensures
            n == self@.len(),
    {
        proof {
            use_type_invariant(self);
        }
        self.bytes.len() - 1
    }
}

impl Clone for CText {
    fn clone(&self) -> (copy: Self)
        ensures
            copy@ == self@,
    {
        proof {
            use_type_invariant(self);
        }
        let bytes = self.bytes.clone();
        assert(bytes@ =~= self.bytes@);
        CText { bytes }
    }
}

/// What `core::str::from_utf8` returns: the bytes as a string slice if and only
/// if they are well-formed UTF-8, and then the slice is made of those bytes.
pub assume_specification[ core::str::from_utf8 ](bytes: &[u8]) -> (out: Result<
    &str,
    core::str::Utf8Error,
>)
    ensures
        out is Ok <==> valid_utf8(bytes@),
        out matches Ok(text) ==> text.spec_bytes() == bytes@,
;

/// An error of `core::str::from_utf8`, carried through unread.
#[verifier::external_type_specification]
#[verifier::external_body]
pub struct ExUtf8Error(core::str::Utf8Error);

/// Reads `bytes` from the native runtime as text, or refuses them if they are
/// not well-formed UTF-8.
pub fn decode_text(bytes: &[u8]) -> (out: Result<&str, InvalidUtf8>)
    ensures
        out is Ok <==> valid_utf8(bytes@),
        out matches Ok(text) ==> text.spec_bytes() == bytes@ && text@ == decode_utf8(bytes@),
{
    match core::str::from_utf8(bytes) {
        Ok(text) => {
            proof {
                decode_utf8_encode_utf8(bytes@);
                encode_utf8_decode_utf8(text@);
            }
            Ok(text)
        },
        Err(_) => Err(InvalidUtf8),
    }
}

} // verus!
