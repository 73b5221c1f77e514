//! The wire form of an encrypted record, version-tagged so that future
//! layouts stay distinguishable:
//!
//! | bytes          | field                                  |
//! |----------------|----------------------------------------|
//! | 1              | format version                         |
//! | 2              | wrapped-key length, little endian      |
//! | that many      | wrapped key                            |
//! | 12             | nonce                                  |
//! | 8              | ciphertext length, little endian       |
//! | that many      | ciphertext (tag appended)              |
//!
//! Serialization is deterministic and total on well-formed records;
//! deserialization accepts exactly the buffers serialization produces.

use vstd::prelude::*;

use crate::errors::FormatError;
use crate::record::{EncryptedRecord, RecordModel, MAX_WRAPPED_KEY_LEN, NONCE_LEN};
use vstd::bytes::{
    lemma_auto_spec_u16_to_from_le_bytes, lemma_auto_spec_u64_to_from_le_bytes,
    spec_u16_from_le_bytes, spec_u16_to_le_bytes, spec_u64_from_le_bytes, spec_u64_to_le_bytes,
    u16_from_le_bytes, u16_to_le_bytes, u64_from_le_bytes, u64_to_le_bytes,
};
use vstd::slice::{slice_subrange, slice_to_vec};

verus! {

/// The version byte this library writes.
pub const FORMAT_VERSION: u8 = 1;

/// The exact buffer a well-formed record serializes to.
pub open spec fn spec_serialize(m: RecordModel) -> Seq<u8> {
    seq![FORMAT_VERSION] + spec_u16_to_le_bytes(m.wrapped_key.len() as u16)
        + m.wrapped_key + m.nonce + spec_u64_to_le_bytes(m.ciphertext.len() as u64)
        + m.ciphertext
}

/// The record a buffer deserializes to, or the exact reason it is rejected.
pub open spec fn spec_deserialize(b: Seq<u8>) -> Result<RecordModel, FormatError> {
    if b.len() < 1 {
        Err(FormatError::Truncated)
    } else if b[0] != FORMAT_VERSION {
        Err(FormatError::UnknownVersion)
    } else if b.len() < 3 {
        Err(FormatError::Truncated)
    } else {
        let klen = spec_u16_from_le_bytes(b.subrange(1, 3)) as int;
        if b.len() < 3 + klen + NONCE_LEN + 8 {
            Err(FormatError::Truncated)
        } else {
            let clen = spec_u64_from_le_bytes(
                b.subrange(3 + klen + NONCE_LEN, 3 + klen + NONCE_LEN + 8),
            ) as int;
            let total = 3 + klen + NONCE_LEN + 8 + clen;
            if b.len() < total {
                Err(FormatError::Truncated)
            } else if b.len() > total {
                Err(FormatError::TrailingData)
            } else {
                Ok(
                    RecordModel {
                        wrapped_key: b.subrange(3, 3 + klen),
                        nonce: b.subrange(3 + klen, 3 + klen + NONCE_LEN),
                        ciphertext: b.subrange(3 + klen + NONCE_LEN + 8, total),
                    },
                )
            }
        }
    }
}

/// Serialization then deserialization gives every well-formed record back
/// unchanged.
pub proof fn lemma_codec_round_trip(m: RecordModel)
    requires
        m.wf(),
    ensures
        spec_deserialize(spec_serialize(m)) == Ok::<RecordModel, FormatError>(m),
{
    lemma_auto_spec_u16_to_from_le_bytes();
    lemma_auto_spec_u64_to_from_le_bytes();
    let b = spec_serialize(m);
    let klen = m.wrapped_key.len() as int;
    let clen = m.ciphertext.len() as int;
    assert(b.len() == 3 + klen + NONCE_LEN + 8 + clen);
    assert(b[0] == FORMAT_VERSION);
    assert(b.subrange(1, 3) =~= spec_u16_to_le_bytes(m.wrapped_key.len() as u16));
    assert(spec_u16_from_le_bytes(b.subrange(1, 3)) as int == klen);
    assert(b.subrange(3 + klen + NONCE_LEN, 3 + klen + NONCE_LEN + 8) =~= spec_u64_to_le_bytes(
        m.ciphertext.len() as u64,
    ));
    assert(spec_u64_from_le_bytes(
        b.subrange(3 + klen + NONCE_LEN, 3 + klen + NONCE_LEN + 8),
    ) as int == clen);
    assert(b.subrange(3, 3 + klen) =~= m.wrapped_key);
    assert(b.subrange(3 + klen, 3 + klen + NONCE_LEN) =~= m.nonce);
    assert(b.subrange(3 + klen + NONCE_LEN + 8, 3 + klen + NONCE_LEN + 8 + clen)
        =~= m.ciphertext);
    assert(spec_deserialize(b) == Ok::<RecordModel, FormatError>(
        RecordModel { wrapped_key: m.wrapped_key, nonce: m.nonce, ciphertext: m.ciphertext },
    ));
    assert(RecordModel { wrapped_key: m.wrapped_key, nonce: m.nonce, ciphertext: m.ciphertext }
        =~= m);
}

impl EncryptedRecord {
    /// Serialize this record; fails only when it is not well formed (a nonce
    /// of the wrong size, or a wrapped key too long for its length prefix).
    pub fn to_vec(&self) -> (r: Result<Vec<u8>, FormatError>)
        ensures
            self@.wf() ==> r is Ok,
            r is Ok ==> self@.wf() && (r->Ok_0)@ == spec_serialize(self@),
    {
        proof {
            lemma_auto_spec_u16_to_from_le_bytes();
            lemma_auto_spec_u64_to_from_le_bytes();
        }
        if self.nonce.len() != NONCE_LEN || self.wrapped_key.len() > MAX_WRAPPED_KEY_LEN {
            return Err(FormatError::Unencodable);
        }
        let mut out: Vec<u8> = Vec::new();
        out.push(FORMAT_VERSION);
        let klen_bytes = u16_to_le_bytes(self.wrapped_key.len() as u16);
        out.extend_from_slice(klen_bytes.as_slice());
        out.extend_from_slice(self.wrapped_key.as_slice());
        out.extend_from_slice(self.nonce.as_slice());
        let clen_bytes = u64_to_le_bytes(self.ciphertext.len() as u64);
        out.extend_from_slice(clen_bytes.as_slice());
        out.extend_from_slice(self.ciphertext.as_slice());
        proof {
            assert(out@ =~= spec_serialize(self@));
        }
        Ok(out)
    }

    /// Deserialize a buffer, accepting exactly what `to_vec` produces and
    /// reporting the precise reason anything else is rejected.
    pub fn from_vec(bytes: Vec<u8>) -> (r: Result<EncryptedRecord, FormatError>)
        ensures
            r is Ok ==> spec_deserialize(bytes@) == Ok::<RecordModel, FormatError>((r->Ok_0)@)
                && (r->Ok_0)@.wf(),
            r is Err ==> spec_deserialize(bytes@) == Err::<RecordModel, FormatError>(r->Err_0),
    {
        proof {
            lemma_auto_spec_u16_to_from_le_bytes();
            lemma_auto_spec_u64_to_from_le_bytes();
        }
        let n = bytes.len();
        if n < 1 {
            return Err(FormatError::Truncated);
        }
        if bytes[0] != FORMAT_VERSION {
            return Err(FormatError::UnknownVersion);
        }
        if n < 3 {
            return Err(FormatError::Truncated);
        }
        let klen = u16_from_le_bytes(slice_subrange(bytes.as_slice(), 1, 3)) as usize;
        if n < 3 + klen + NONCE_LEN + 8 {
            return Err(FormatError::Truncated);
        }
        let wrapped_key = slice_to_vec(slice_subrange(bytes.as_slice(), 3, 3 + klen));
        let nonce = slice_to_vec(
            slice_subrange(bytes.as_slice(), 3 + klen, 3 + klen + NONCE_LEN),
        );
        let clen = u64_from_le_bytes(
            slice_subrange(bytes.as_slice(), 3 + klen + NONCE_LEN, 3 + klen + NONCE_LEN + 8),
        );
        let rest = n - (3 + klen + NONCE_LEN + 8);
        if (rest as u64) < clen {
            return Err(FormatError::Truncated);
        }
        if (rest as u64) > clen {
            return Err(FormatError::TrailingData);
        }
        let ciphertext = slice_to_vec(
            slice_subrange(bytes.as_slice(), 3 + klen + NONCE_LEN + 8, n),
        );
        Ok(EncryptedRecord { wrapped_key, nonce, ciphertext })
    }
}

} // verus!
