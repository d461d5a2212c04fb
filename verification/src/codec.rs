use vstd::prelude::*;

use crate::error::ProcessError;
use crate::proof_type::{lemma_tag_round_trip, spec_tag_of, spec_type_from_tag, tag_of, type_from_tag, ProofType};
use crate::pubkey::Pubkey;

verus! {

/// The bytes of a record header: a 32-byte authority address followed by the
/// one-byte proof type tag.
pub const CONTEXT_META_LEN: usize = 33;

/// A decoded record header: who may close the record, and the raw tag byte.
/// The tag byte is kept as read, whether or not it names a proof type: the
/// processor only ever compares it against the `Uninitialized` tag.
pub struct ContextMeta {
    pub authority: Pubkey,
    pub proof_tag: u8,
}

/// A fully decoded proof context record.
pub struct ContextState {
    pub authority: Pubkey,
    pub proof_type: ProofType,
    pub payload: Vec<u8>,
}

/// The on-chain byte layout of a proof context record: the authority address,
/// the proof type tag, then the proof-type-specific context payload.
pub open spec fn encode_spec(authority: Seq<u8>, t: ProofType, payload: Seq<u8>) -> Seq<u8> {
    authority + seq![spec_tag_of(t)] + payload
}

/// Whether record bytes are long enough to hold a header.
pub open spec fn meta_well_formed(data: Seq<u8>) -> bool {
    data.len() >= CONTEXT_META_LEN
}

/// The authority address stored in a record header.
pub open spec fn meta_authority(data: Seq<u8>) -> Seq<u8> {
    data.subrange(0, 32)
}

/// The tag byte stored in a record header.
pub open spec fn meta_tag(data: Seq<u8>) -> u8 {
    data[32]
}

/// What full decoding yields: the header fields and the remaining payload,
/// or nothing if the bytes are too short or the tag names no proof type.
pub open spec fn decode_spec(data: Seq<u8>) -> Option<(Seq<u8>, ProofType, Seq<u8>)> {
    if data.len() < CONTEXT_META_LEN {
        None
    } else {
        match spec_type_from_tag(meta_tag(data)) {
            Some(t) => Some((meta_authority(data), t, data.subrange(33, data.len() as int))),
            None => None,
        }
    }
}

/// Encodes a proof context record. The result is deterministic and its
/// length is exactly the header length plus the payload length.
pub fn encode(authority: &Pubkey, proof_type: ProofType, payload: &Vec<u8>) -> (r: Vec<u8>)
    ensures
        r@ == encode_spec(authority@, proof_type, payload@),
{
    let mut out: Vec<u8> = Vec::new();
    let mut i: usize = 0;
    while i < 32
        invariant
            i <= 32,
            out@.len() == i,
            forall|j: int| 0 <= j < i ==> out@[j] == authority@[j],
        decreases 32 - i,
    {
        out.push(authority.bytes[i]);
        i = i + 1;
    }
    out.push(tag_of(proof_type));
    let mut k: usize = 0;
    while k < payload.len()
        invariant
            k <= payload@.len(),
            out@.len() == 33 + k,
            forall|j: int| 0 <= j < 32 ==> out@[j] == authority@[j],
            out@[32] == spec_tag_of(proof_type),
            forall|j: int| 0 <= j < k ==> out@[33 + j] == payload@[j],
        decreases payload@.len() - k,
    {
        out.push(payload[k]);
        k = k + 1;
    }
    proof {
        assert(out@ =~= encode_spec(authority@, proof_type, payload@));
    }
    out
}

/// Decodes only the record header, as the processor's own checks need it.
/// Fails exactly when the bytes cannot hold a header.
pub fn decode_meta(data: &Vec<u8>) -> (r: Result<ContextMeta, ProcessError>)
    ensures
        meta_well_formed(data@) ==> (r matches Ok(m) && m.authority@ == meta_authority(data@)
            && m.proof_tag == meta_tag(data@)),
        !meta_well_formed(data@) ==> r == Err::<ContextMeta, ProcessError>(
            ProcessError::InvalidAccountData,
        ),
{
    if data.len() < CONTEXT_META_LEN {
        return Err(ProcessError::InvalidAccountData);
    }
    let mut bytes: [u8; 32] = [0; 32];
    let mut i: usize = 0;
    while i < 32
        invariant
            i <= 32,
            data@.len() >= 33,
            forall|j: int| 0 <= j < i ==> bytes@[j] == data@[j],
        decreases 32 - i,
    {
        bytes[i] = data[i];
        i = i + 1;
    }
    let authority = Pubkey::new(bytes);
    proof {
        assert(authority@ =~= meta_authority(data@));
    }
    Ok(ContextMeta { authority, proof_tag: data[32] })
}

/// Decodes a whole proof context record. Fails exactly when the bytes cannot
/// hold a header or the tag byte names no proof type.
pub fn decode(data: &Vec<u8>) -> (r: Result<ContextState, ProcessError>)
    ensures
        (match decode_spec(data@) {
            Some((a, t, p)) => r matches Ok(c) && c.authority@ == a && c.proof_type == t
                && c.payload@ == p,
            None => r == Err::<ContextState, ProcessError>(ProcessError::InvalidAccountData),
        }),
{
    let meta = match decode_meta(data) {
        Ok(m) => m,
        Err(e) => {
            return Err(e);
        },
    };
    let proof_type = match type_from_tag(meta.proof_tag) {
        Some(t) => t,
        None => {
            return Err(ProcessError::InvalidAccountData);
        },
    };
    let mut payload: Vec<u8> = Vec::new();
    let mut k: usize = 33;
    while k < data.len()
        invariant
            33 <= k <= data@.len(),
            data@.len() >= 33,
            payload@.len() == k - 33,
            forall|j: int| 33 <= j < k ==> payload@[j - 33] == data@[j],
        decreases data@.len() - k,
    {
        payload.push(data[k]);
        k = k + 1;
    }
    proof {
        assert(payload@ =~= data@.subrange(33, data@.len() as int));
    }
    Ok(ContextState { authority: meta.authority, proof_type, payload })
}

/// Round-trip law: decoding an encoded record reproduces the authority, the
/// proof type and the payload exactly, for every valid authority address.
pub proof fn lemma_codec_round_trip(authority: Seq<u8>, t: ProofType, payload: Seq<u8>)
    requires
        authority.len() == 32,
    ensures
        decode_spec(encode_spec(authority, t, payload)) == Some((authority, t, payload)),
{
    let e = encode_spec(authority, t, payload);
    assert(e.len() == 33 + payload.len());
    assert(meta_tag(e) == spec_tag_of(t));
    lemma_tag_round_trip(t);
    assert(meta_authority(e) =~= authority);
    assert(e.subrange(33, e.len() as int) =~= payload);
}

} // verus!
