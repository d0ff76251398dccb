//! Translation of platform credential-vault outcomes into the adapter's
//! uniform results: success, an explicit not-found, or a failure carrying a
//! human-readable diagnostic.
//!
//! The platform call itself is made by the surrounding application; it hands
//! this module the outcome as plain values (the secret's bytes, or an error
//! code with the platform's error text).

use vstd::prelude::*;
use vstd::string::StringExecFns;
use vstd::utf8::{decode_utf8, valid_utf8};

verus! {

/// A platform vault error as the adapter reads it: the platform's numeric
/// error code and its human-readable error text.
pub struct OsError {
    pub code: i32,
    pub message: String,
}

/// The error codes by which the platform reports an absent credential: the
/// system error code for a missing element, and the same code wrapped in the
/// result-handle form in which the vault API surfaces it.
pub open spec fn is_not_found_code(code: i32) -> bool {
    code == 1168 || code == -2147023728
}

/// Decides whether a platform error code reports an absent credential.
pub fn code_is_not_found(code: i32) -> (b: bool)
    ensures
        b == is_not_found_code(code),
{
    code == 1168 || code == -2147023728
}

/// The diagnostic the adapter returns when no supported vault exists.
pub open spec fn unavailable_message() -> Seq<char> {
    "Windows Credential Locker not available on this platform"@
}

/// The diagnostic for a store that the platform refused.
pub open spec fn store_failure_message(detail: Seq<char>) -> Seq<char> {
    "Failed to store API key in Windows Credential Locker: "@ + detail
}

/// The diagnostic for a read that the platform refused.
pub open spec fn read_failure_message(detail: Seq<char>) -> Seq<char> {
    "Failed to read API key from Windows Credential Locker: "@ + detail
}

/// The diagnostic for a delete that the platform refused.
pub open spec fn delete_failure_message(detail: Seq<char>) -> Seq<char> {
    "Failed to delete API key from Windows Credential Locker: "@ + detail
}

/// The diagnostic for a stored secret that is not valid UTF-8 text.
pub open spec fn decode_failure_message(detail: Seq<char>) -> Seq<char> {
    "Failed to decode API key from UTF-8: "@ + detail
}

/// What a store or delete comes to once the platform's outcome is
/// normalized: success, or a failure with its diagnostic.
pub ghost enum OpInterpretation {
    Success,
    Failure(Seq<char>),
}

/// What a read comes to once the platform's outcome is normalized: the
/// credential is absent, or its text was found, or its bytes are not text,
/// or the platform failed with a diagnostic.
pub ghost enum ReadInterpretation {
    NotFound,
    Secret(Seq<char>),
    DecodeFailure,
    OsFailure(Seq<char>),
}

/// The meaning of a platform write outcome: success passes through, and any
/// platform error is a failure with its diagnostic.
pub open spec fn spec_interpret_store(outcome: Result<(), OsError>) -> OpInterpretation {
    match outcome {
        Ok(_) => OpInterpretation::Success,
        Err(e) => OpInterpretation::Failure(store_failure_message(e.message@)),
    }
}

/// The meaning of a platform delete outcome: an absent credential counts as
/// success, so the delete is idempotent; any other error is a failure.
pub open spec fn spec_interpret_delete(outcome: Result<(), OsError>) -> OpInterpretation {
    match outcome {
        Ok(_) => OpInterpretation::Success,
        Err(e) => if is_not_found_code(e.code) {
            OpInterpretation::Success
        } else {
            OpInterpretation::Failure(delete_failure_message(e.message@))
        },
    }
}

/// The meaning of a platform read outcome: a null record or a not-found
/// error is the explicit not-found outcome, a present record is its decoded
/// text when the bytes are valid UTF-8 and a decode failure otherwise, and
/// any other error is a platform failure.
pub open spec fn spec_interpret_read(outcome: Result<Option<Vec<u8>>, OsError>)
    -> ReadInterpretation {
    match outcome {
        Ok(record) => match record {
            None => ReadInterpretation::NotFound,
            Some(b) => if valid_utf8(b@) {
                ReadInterpretation::Secret(decode_utf8(b@))
            } else {
                ReadInterpretation::DecodeFailure
            },
        },
        Err(e) => if is_not_found_code(e.code) {
            ReadInterpretation::NotFound
        } else {
            ReadInterpretation::OsFailure(read_failure_message(e.message@))
        },
    }
}

/// How a store or delete result realizes its normalized meaning.
pub open spec fn op_result_reflects(i: OpInterpretation, r: Result<(), String>) -> bool {
    match i {
        OpInterpretation::Success => r is Ok,
        OpInterpretation::Failure(msg) => r matches Err(m) && m@ == msg,
    }
}

/// How a read result realizes its normalized meaning. A decode failure's
/// diagnostic embeds the decoder's own account of the defect, so only its
/// fixed part is pinned.
pub open spec fn read_result_reflects(i: ReadInterpretation, r: Result<Option<String>, String>)
    -> bool {
    match i {
        ReadInterpretation::NotFound => r == Ok::<Option<String>, String>(None),
        ReadInterpretation::Secret(text) => r matches Ok(o) && o matches Some(s) && s@ == text,
        ReadInterpretation::DecodeFailure => r matches Err(m) && exists|d: Seq<char>|
            m@ == decode_failure_message(d),
        ReadInterpretation::OsFailure(msg) => r matches Err(m) && m@ == msg,
    }
}

/// Relies on `core::str::from_utf8`: it returns the decoded text exactly when
/// the bytes are valid UTF-8, and an error describing the defect otherwise.
#[verifier::external_body]
pub(crate) fn utf8_to_string(bytes: &[u8]) -> (r: Result<String, String>)
    ensures
        r is Ok <==> valid_utf8(bytes@),
        r matches Ok(s) ==> s@ == decode_utf8(bytes@),
{
    match core::str::from_utf8(bytes) {
        Ok(s) => Ok(s.to_owned()),
        Err(e) => Err(format!("{}", e)),
    }
}

/// Interprets the outcome of a platform write of the credential.
pub fn interpret_store(outcome: Result<(), OsError>) -> (r: Result<(), String>)
    ensures
        op_result_reflects(spec_interpret_store(outcome), r),
        r is Ok <==> outcome is Ok,
{
    match outcome {
        Ok(()) => Ok(()),
        Err(e) => Err(
            "Failed to store API key in Windows Credential Locker: ".to_owned().concat(
                e.message.as_str(),
            ),
        ),
    }
}

/// Interprets the outcome of a platform delete of the credential.
pub fn interpret_delete(outcome: Result<(), OsError>) -> (r: Result<(), String>)
    ensures
        op_result_reflects(spec_interpret_delete(outcome), r),
        r is Ok <==> spec_interpret_delete(outcome) is Success,
{
    match outcome {
        Ok(()) => Ok(()),
        Err(e) => {
            if code_is_not_found(e.code) {
                Ok(())
            } else {
                Err(
                    "Failed to delete API key from Windows Credential Locker: ".to_owned().concat(
                        e.message.as_str(),
                    ),
                )
            }
        },
    }
}

/// Interprets the outcome of a platform read of the credential.
pub fn interpret_read(outcome: Result<Option<Vec<u8>>, OsError>) -> (r: Result<
    Option<String>,
    String,
>)
    ensures
        read_result_reflects(spec_interpret_read(outcome), r),
        r is Ok <==> !(spec_interpret_read(outcome) is DecodeFailure || spec_interpret_read(
            outcome,
        ) is OsFailure),
{
    match outcome {
        Ok(None) => Ok(None),
        Ok(Some(bytes)) => {
            match utf8_to_string(bytes.as_slice()) {
                Ok(s) => Ok(Some(s)),
                Err(detail) => {
                    let m: String = "Failed to decode API key from UTF-8: ".to_owned().concat(
                        detail.as_str(),
                    );
                    proof {
                        assert(m@ == decode_failure_message(detail@));
                    }
                    Err(m)
                },
            }
        },
        Err(e) => {
            if code_is_not_found(e.code) {
                Ok(None)
            } else {
                Err(
                    "Failed to read API key from Windows Credential Locker: ".to_owned().concat(
                        e.message.as_str(),
                    ),
                )
            }
        },
    }
}

} // verus!
