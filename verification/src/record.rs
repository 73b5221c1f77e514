//! The encrypted record: the one artifact callers persist or transmit. It
//! carries the wrapped data key, the nonce the payload was sealed under, and
//! the sealed payload itself (authentication tag appended).

use vstd::prelude::*;

verus! {

/// Bytes of nonce in every record.
pub const NONCE_LEN: usize = 12;

/// Longest wrapped key the wire format carries: it must fit a two-byte length
/// prefix.
pub const MAX_WRAPPED_KEY_LEN: usize = 65535;

/// The abstract value of an encrypted record.
#[verifier::ext_equal]
pub ghost struct RecordModel {
    pub wrapped_key: Seq<u8>,
    pub nonce: Seq<u8>,
    pub ciphertext: Seq<u8>,
}

impl RecordModel {
    /// A record the wire format can carry: the nonce has its fixed size and
    /// each variable-length field fits its length prefix.
    pub open spec fn wf(self) -> bool {
        &&& self.nonce.len() == NONCE_LEN
        &&& self.wrapped_key.len() <= MAX_WRAPPED_KEY_LEN
        &&& self.ciphertext.len() <= u64::MAX
    }
}

/// An envelope-encrypted payload.
#[derive(Clone, Debug, PartialEq, Eq)]
pub struct EncryptedRecord {
    pub wrapped_key: Vec<u8>,
    pub nonce: Vec<u8>,
    pub ciphertext: Vec<u8>,
}

impl View for EncryptedRecord {
    type V = RecordModel;

    open spec fn view(&self) -> RecordModel {
        RecordModel {
            wrapped_key: self.wrapped_key@,
            nonce: self.nonce@,
            ciphertext: self.ciphertext@,
        }
    }
}

} // verus!
