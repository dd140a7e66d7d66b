use vstd::prelude::*;
use vstd::utf8::decode_utf8;
use vstd::utf8::decode_utf8_encode_utf8;
use vstd::utf8::encode_utf8;
use vstd::utf8::valid_utf8;

verus! {

/// Failure raised by this library, or carrying a backend error report.
#[derive(Debug)]
pub enum Fault {
    /// A pointer that had to be non-null was null, or a string that had to
    /// become a nul-terminated buffer held an embedded nul byte.
    NullPtr,
    /// The backend reported an error and its message decoded as UTF-8 text.
    ErrText(String),
    /// The backend reported an error but its message pointer was null.
    ErrNull,
    /// The backend reported an error whose message is not valid UTF-8; the
    /// raw bytes are preserved unchanged.
    ErrUTF8(Vec<u8>),
}

/// The view of an optional message buffer: the byte sequence it holds,
/// if any.
pub open spec fn msg_bytes(msg: Option<Vec<u8>>) -> Option<Seq<u8>> {
    match msg {
        None => None,
        Some(b) => Some(b@),
    }
}

/// Whether `f` is the fault that translating a backend error message read
/// back as `msg` must produce: `ErrNull` when the message pointer was null
/// (`msg` is `None`), `ErrText` with the decoded text when the bytes are
/// valid UTF-8, and `ErrUTF8` with the bytes preserved otherwise.
pub open spec fn is_translation_of(f: Fault, msg: Option<Seq<u8>>) -> bool {
    match msg {
        None => f is ErrNull,
        Some(bytes) => if valid_utf8(bytes) {
            f matches Fault::ErrText(s) && s@ == decode_utf8(bytes)
        } else {
            f matches Fault::ErrUTF8(b) && b@ == bytes
        },
    }
}

/// Relies on `String::from_utf8`: it returns the decoded string exactly
/// when the bytes are valid UTF-8, and on failure `FromUtf8Error::into_bytes`
/// hands the input bytes back unchanged.
#[verifier::external_body]
fn decode_bytes(bytes: Vec<u8>) -> (r: Result<String, Vec<u8>>)
    ensures
        r is Ok <==> valid_utf8(bytes@),
        r matches Ok(s) ==> s@ == decode_utf8(bytes@),
        r matches Err(b) ==> b@ == bytes@,
{
    match String::from_utf8(bytes) {
        Ok(s) => Ok(s),
        Err(e) => Err(e.into_bytes()),
    }
}

/// A backend message of valid UTF-8 loses nothing in translation: the
/// fault carries text, and encoding that text gives the message's bytes
/// back exactly.
pub proof fn lemma_translation_preserves_text(f: Fault, bytes: Seq<u8>)
    requires
        valid_utf8(bytes),
        is_translation_of(f, Some(bytes)),
    ensures
        f matches Fault::ErrText(s) && encode_utf8(s@) == bytes,
{
    decode_utf8_encode_utf8(bytes);
}

/// Translates a backend error message into a `Fault`.
///
/// The caller reads the backend's error pointer beforehand: `None` stands
/// for a null pointer, `Some(bytes)` for the bytes of the nul-terminated
/// message, without the terminator.
pub fn build_fault(msg: Option<Vec<u8>>) -> (r: Fault)
    ensures
        is_translation_of(r, msg_bytes(msg)),
{
    match msg {
        None => Fault::ErrNull,
        Some(bytes) => match decode_bytes(bytes) {
            Ok(s) => Fault::ErrText(s),
            Err(b) => Fault::ErrUTF8(b),
        },
    }
}

/// Routes a backend call's outcome through a single translation.
///
/// `failed` is the backend's failure flag; `msg` is what its error
/// out-parameter held afterwards, `None` for a pointer still null. A call
/// that did not fail yields `Ok` whatever `msg` holds; a failed call yields
/// the translated fault.
pub fn translate_outcome(failed: bool, msg: Option<Vec<u8>>) -> (r: Result<(), Fault>)
    ensures
        !failed ==> r is Ok,
        failed ==> (r matches Err(f) && is_translation_of(f, msg_bytes(msg))),
{
    if failed {
        Err(build_fault(msg))
    } else {
        Ok(())
    }
}

} // verus!
