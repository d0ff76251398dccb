//! The credential-store adapter and its model of the platform vault.
//!
//! The platform vault holds at most one entry under the application's fixed
//! target name; on some platforms there is no supported vault at all. A
//! [`Vault`] value models exactly that: whether a vault is available, and
//! the bytes of the one entry if it is present. The three operations —
//! store, read, delete — are verified against this model, and the laws that
//! govern them (round trip, overwrite, idempotent delete, graceful
//! degradation) are proved below.

use vstd::prelude::*;
use vstd::string::StringExecFns;
use vstd::utf8::{
    decode_utf8, encode_utf8, encode_utf8_decode_utf8, encode_utf8_valid_utf8, valid_utf8,
};

use crate::outcome::{decode_failure_message, unavailable_message, utf8_to_string};

verus! {

/// Placeholder state for the command bridge that invokes the adapter to
/// manage; no operation reads it, as the adapter keeps no in-process state
/// between calls.
pub struct SecureCache {}

impl Default for SecureCache {
    fn default() -> (c: SecureCache)
        ensures
            c == (SecureCache {  }),
    {
        SecureCache {  }
    }
}

/// What the platform vault comes to for this adapter: whether a supported
/// vault exists, and the bytes stored under the fixed target name, if any.
pub ghost struct VaultView {
    pub available: bool,
    pub entry: Option<Seq<u8>>,
}

/// The platform credential vault, as the adapter sees it: at most one entry,
/// kept under the application's fixed target name.
pub struct Vault {
    available: bool,
    entry: Option<Vec<u8>>,
}

impl View for Vault {
    type V = VaultView;

    closed spec fn view(&self) -> VaultView {
        VaultView {
            available: self.available,
            entry: match self.entry {
                Some(b) => Some(b@),
                None => None,
            },
        }
    }
}

impl Vault {
    /// A vault on a platform with a supported credential store, holding no
    /// entry yet.
    pub fn new_available() -> (v: Vault)
        ensures
            v@ == (VaultView { available: true, entry: None::<Seq<u8>> }),
    {
        Vault { available: true, entry: None }
    }

    /// The degenerate vault of a platform without a supported credential
    /// store.
    pub fn new_unavailable() -> (v: Vault)
        ensures
            v@ == (VaultView { available: false, entry: None::<Seq<u8>> }),
    {
        Vault { available: false, entry: None }
    }

    /// A vault whose entry already holds the given bytes — for instance
    /// written by another program, so possibly not valid UTF-8 text.
    pub fn with_raw_entry(bytes: Vec<u8>) -> (v: Vault)
        ensures
            v@ == (VaultView { available: true, entry: Some(bytes@) }),
    {
        Vault { available: true, entry: Some(bytes) }
    }
}

/// What a store of `key` leaves in the vault: on an available vault the
/// entry becomes the UTF-8 bytes of the key, overwriting any previous entry;
/// an unavailable vault is untouched.
pub open spec fn store_transition(v: VaultView, key: Seq<char>) -> VaultView {
    if v.available {
        VaultView { available: true, entry: Some(encode_utf8(key)) }
    } else {
        v
    }
}

/// What a delete leaves in the vault: on an available vault the entry is
/// gone, whether or not one was present; an unavailable vault is untouched.
pub open spec fn delete_transition(v: VaultView) -> VaultView {
    if v.available {
        VaultView { available: true, entry: None::<Seq<u8>> }
    } else {
        v
    }
}

/// Store and delete succeed exactly on an available vault.
pub open spec fn operation_succeeds(v: VaultView) -> bool {
    v.available
}

/// A read reports the credential absent: the platform has no vault, or the
/// vault has no entry. Absence is a valid outcome, not an error.
pub open spec fn read_reports_not_found(v: VaultView) -> bool {
    !v.available || v.entry is None
}

/// A read finds `secret`: the vault entry is present, is valid UTF-8, and
/// decodes to exactly that text.
pub open spec fn read_finds_secret(v: VaultView, secret: Seq<char>) -> bool {
    &&& v.available
    &&& v.entry matches Some(b)
    &&& valid_utf8(b)
    &&& secret == decode_utf8(b)
}

/// A read fails to decode: the vault entry is present but its bytes are not
/// valid UTF-8 text.
pub open spec fn read_fails_to_decode(v: VaultView) -> bool {
    &&& v.available
    &&& v.entry matches Some(b)
    &&& !valid_utf8(b)
}

/// The read result carries exactly the given secret.
pub open spec fn read_result_is_secret(r: Result<Option<String>, String>, secret: Seq<char>)
    -> bool {
    r matches Ok(o) && o matches Some(s) && s@ == secret
}

/// The read result is a decode failure: its diagnostic is the fixed decode
/// prefix followed by the decoder's own account of the defect.
pub open spec fn read_result_is_decode_failure(r: Result<Option<String>, String>) -> bool {
    r matches Err(m) && exists|d: Seq<char>| m@ == decode_failure_message(d)
}

/// Stores the API key under the fixed target name, overwriting any previous
/// entry. On a platform without a supported vault the store fails with the
/// unavailability diagnostic and changes nothing.
pub fn store_api_key(vault: &mut Vault, api_key: String) -> (r: Result<(), String>)
    ensures
        final(vault)@ == store_transition(old(vault)@, api_key@),
        r is Ok <==> operation_succeeds(old(vault)@),
        r matches Err(m) ==> m@ == unavailable_message(),
{
    if vault.available {
        vault.entry = Some(api_key.as_str().as_bytes_vec());
        Ok(())
    } else {
        Err("Windows Credential Locker not available on this platform".to_owned())
    }
}

/// Reads the API key back from the vault. Absence — including the whole
/// platform lacking a vault — is the explicit not-found outcome, never a
/// failure; an entry that is not valid UTF-8 is a decode failure.
pub fn read_api_key(vault: &Vault) -> (r: Result<Option<String>, String>)
    ensures
        read_reports_not_found(vault@) ==> r == Ok::<Option<String>, String>(None),
        read_fails_to_decode(vault@) ==> read_result_is_decode_failure(r),
        forall|secret: Seq<char>|
            read_finds_secret(vault@, secret) ==> read_result_is_secret(r, secret),
        r is Err <==> read_fails_to_decode(vault@),
{
    if !vault.available {
        return Ok(None);
    }
    match &vault.entry {
        None => Ok(None),
        Some(bytes) => {
            match utf8_to_string(bytes.as_slice()) {
                Ok(s) => Ok(Some(s)),
                Err(detail) => {
                    let m: String = "Failed to decode API key from UTF-8: ".to_owned().concat(
                        detail.as_str(),
                    );
                    proof {
                        assert(m@ == decode_failure_message(detail@));
                    }
                    Err(m)
                },
            }
        },
    }
}

/// Deletes the API key from the vault. Deleting an absent credential is
/// still a success. On a platform without a supported vault the delete
/// fails with the unavailability diagnostic and changes nothing.
pub fn delete_api_key(vault: &mut Vault) -> (r: Result<(), String>)
    ensures
        final(vault)@ == delete_transition(old(vault)@),
        r is Ok <==> operation_succeeds(old(vault)@),
        r matches Err(m) ==> m@ == unavailable_message(),
{
    if vault.available {
        vault.entry = None;
        Ok(())
    } else {
        Err("Windows Credential Locker not available on this platform".to_owned())
    }
}

/// Round trip: after storing a secret on an available vault, a read finds
/// exactly that secret, byte for byte.
pub proof fn lemma_store_then_read(v: VaultView, key: Seq<char>)
    requires
        v.available,
    ensures
        read_finds_secret(store_transition(v, key), key),
{
    broadcast use encode_utf8_valid_utf8, encode_utf8_decode_utf8;

}

/// Overwrite: a second store replaces the first entirely, and a read then
/// finds only the second secret.
pub proof fn lemma_store_overwrites(v: VaultView, first: Seq<char>, second: Seq<char>)
    requires
        v.available,
    ensures
        store_transition(store_transition(v, first), second) == store_transition(v, second),
        read_finds_secret(store_transition(store_transition(v, first), second), second),
        first != second ==> !read_finds_secret(
            store_transition(store_transition(v, first), second),
            first,
        ),
{
    broadcast use encode_utf8_valid_utf8, encode_utf8_decode_utf8;

}

/// Idempotent delete: deleting when no credential is present still
/// succeeds and leaves the vault unchanged, so a second delete is as good
/// as the first.
pub proof fn lemma_delete_idempotent(v: VaultView)
    requires
        v.available,
    ensures
        operation_succeeds(delete_transition(v)),
        delete_transition(delete_transition(v)) == delete_transition(v),
        v.entry is None ==> delete_transition(v) == v,
{
}

/// After a delete, a read reports the credential absent, whatever was
/// stored before.
pub proof fn lemma_read_after_delete(v: VaultView, key: Seq<char>)
    requires
        v.available,
    ensures
        read_reports_not_found(delete_transition(store_transition(v, key))),
{
}

/// An entry that is not valid UTF-8 yields a decode failure on read —
/// never a not-found, and never some other secret.
pub proof fn lemma_non_utf8_entry(v: VaultView)
    requires
        v.available,
        v.entry matches Some(b) && !valid_utf8(b),
    ensures
        read_fails_to_decode(v),
        !read_reports_not_found(v),
        forall|secret: Seq<char>| !read_finds_secret(v, secret),
{
}

/// On a platform without a supported vault, store and delete fail while a
/// read reports not-found, and no operation changes the vault.
pub proof fn lemma_unavailable_fallback(v: VaultView, key: Seq<char>)
    requires
        !v.available,
    ensures
        !operation_succeeds(v),
        read_reports_not_found(v),
        store_transition(v, key) == v,
        delete_transition(v) == v,
{
}

} // verus!
