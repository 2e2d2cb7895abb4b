//! TCG measurement: which runtime measurement register a PCR maps to, and the event
//! header that records a measured event.
use vstd::prelude::*;
use crate::tdx::TdxDigest;

verus! {

/// Length of a SHA-384 digest in bytes.
pub const SHA384_DIGEST_SIZE: usize = 48;

/// TPM algorithm identifier of SHA-384.
pub const TPM_ALG_SHA384: u16 = 0xc;

/// Digest union of a TPM event (only SHA-384 is used).
#[derive(Clone, Copy, Debug, PartialEq, Eq)]
pub struct TpmuHa {
    pub sha384: [u8; 48],
}

/// A digest tagged with its algorithm.
#[derive(Clone, Copy, Debug, PartialEq, Eq)]
pub struct TpmtHa {
    pub hash_alg: u16,
    pub digest: TpmuHa,
}

/// The list of digests of an event.
#[derive(Clone, Copy, Debug, PartialEq, Eq)]
pub struct TpmlDigestValues {
    pub count: u32,
    pub digests: [TpmtHa; 1],
}

/// Header of a TCG_PCR_EVENT2 log record.
#[derive(Clone, Copy, Debug, PartialEq, Eq)]
pub struct TcgPcrEvent2Header {
    pub pcr_index: u32,
    pub event_type: u32,
    pub digest: TpmlDigestValues,
    pub event_size: u32,
}

/// The SHA-384 digest of `data`, as the ring crate computes it.
pub uninterp spec fn sha384(data: Seq<u8>) -> Seq<u8>;

/// Calls `ring::digest::digest` with `ring::digest::SHA384` and copies the 48-byte digest
/// out. Claimed: the result is the SHA-384 digest of `data`, named by `sha384`. The
/// function panics when the input's length in bits does not fit in 64 bits; `requires`
/// leaves those inputs out.
#[verifier::external_body]
fn sha384_digest(data: &[u8]) -> (hash: [u8; 48])
    requires
        data@.len() * 8 <= u64::MAX,
    ensures
        hash@ == sha384(data@),
{
    let digest = ring::digest::digest(&ring::digest::SHA384, data);
    let mut hash = [0u8; 48];
    hash.copy_from_slice(digest.as_ref());
    hash
}

/// The runtime measurement register that PCR `pcr_index` is extended into: PCR 1 and 7 go
/// to RTMR 0, PCRs 2 to 6 to RTMR 1, PCRs 8 to 15 to RTMR 2. PCR 0 (measured through
/// MRTD) and PCRs above 15 have none.
pub open spec fn rtmr_for_pcr(pcr_index: u32) -> Option<u32> {
    if pcr_index == 1 || pcr_index == 7 {
        Some(0u32)
    } else if 2 <= pcr_index <= 6 {
        Some(1u32)
    } else if 8 <= pcr_index <= 15 {
        Some(2u32)
    } else {
        None
    }
}

/// Which RTMR, if any, extending PCR `pcr_index` with `data` goes to, with the digest to
/// extend it by: `Some((digest, mr_index))`, or `None` when the PCR has no RTMR.
pub fn extend_rtmr(data: &[u8; 48], pcr_index: u32) -> (extension: Option<(TdxDigest, u32)>)
    ensures
        match rtmr_for_pcr(pcr_index) {
            Some(mr_index) => extension matches Some(e) && e.0.data@ == data@ && e.1 == mr_index,
            None => extension is None,
        },
        (pcr_index == 1 || pcr_index == 7) ==> (extension matches Some(e) && e.1 == 0),
        2 <= pcr_index <= 6 ==> (extension matches Some(e) && e.1 == 1),
        8 <= pcr_index <= 15 ==> (extension matches Some(e) && e.1 == 2),
        (pcr_index == 0 || pcr_index > 15) ==> extension is None,
        extension matches Some(e) ==> e.0.data@ == data@,
{
    let digest = TdxDigest { data: *data };
    let mr_index: u32 = if pcr_index == 0 {
        0xFF
    } else if pcr_index == 1 || pcr_index == 7 {
        0
    } else if 2 <= pcr_index && pcr_index <= 6 {
        1
    } else if 8 <= pcr_index && pcr_index <= 15 {
        2
    } else {
        0xFF
    };
    if mr_index >= 3 {
        return None;
    }
    Some((digest, mr_index))
}

/// Whether `h` is the event header that records an event of `event_type` on PCR
/// `pcr_index`, with event data of `event_data_len` bytes (the size field keeps its low 32
/// bits) and the single SHA-384 digest `hash`.
pub open spec fn is_event_header(
    h: TcgPcrEvent2Header,
    pcr_index: u32,
    event_type: u32,
    hash: Seq<u8>,
    event_data_len: nat,
) -> bool {
    &&& h.pcr_index == pcr_index
    &&& h.event_type == event_type
    &&& h.digest.count == 1
    &&& h.digest.digests@.len() == 1
    &&& h.digest.digests[0].hash_alg == TPM_ALG_SHA384
    &&& h.digest.digests[0].digest.sha384@ == hash
    &&& h.event_size == event_data_len % 0x1_0000_0000
}

/// Measures an event: hashes `hash_data` with SHA-384, works out the RTMR extension for
/// `pcr_index` with that digest, and builds the event header for `event_data`.
/// Returns the header and the extension (`None` when the PCR has no RTMR).
pub fn create_td_event(
    pcr_index: u32,
    event_type: u32,
    event_data: &[u8],
    hash_data: &[u8],
) -> (event: (TcgPcrEvent2Header, Option<(TdxDigest, u32)>))
    requires
        hash_data@.len() * 8 <= u64::MAX,
    ensures
        is_event_header(event.0, pcr_index, event_type, sha384(hash_data@), event_data@.len()),
        match rtmr_for_pcr(pcr_index) {
            Some(mr_index) => event.1 matches Some(e) && e.0.data@ == sha384(hash_data@) && e.1
                == mr_index,
            None => event.1 is None,
        },
        event.1 matches Some(e) ==> e.0.data@ == event.0.digest.digests[0].digest.sha384@,
        event.0.pcr_index == pcr_index,
        event.0.event_type == event_type,
        event.0.event_size == event_data@.len() % 0x1_0000_0000,
        event_data@.len() < 0x1_0000_0000 ==> event.0.event_size == event_data@.len(),
        event.0.digest.count == 1,
        event.0.digest.digests[0].hash_alg == 0xc,
        event.0.digest.digests[0].digest.sha384@ == sha384(hash_data@),
{
    let event_data_size = event_data.len();
    let hash_value = sha384_digest(hash_data);
    let extension = extend_rtmr(&hash_value, pcr_index);
    let event_size: u32 = (event_data_size as u64 % 0x1_0000_0000) as u32;
    let header = TcgPcrEvent2Header {
        pcr_index,
        event_type,
        digest: TpmlDigestValues {
            count: 1,
            digests: [TpmtHa { hash_alg: TPM_ALG_SHA384, digest: TpmuHa { sha384: hash_value } }],
        },
        event_size,
    };
    proof {
        lemma_event_header_fields(header, pcr_index, event_type, sha384(hash_data@), event_data@.len());
    }
    (header, extension)
}

/// An event header records the PCR, the event type, one SHA-384 digest, and the length of
/// the event data taken as a `u32` (the whole length whenever it is below 2^32).
pub proof fn lemma_event_header_fields(
    h: TcgPcrEvent2Header,
    pcr_index: u32,
    event_type: u32,
    hash: Seq<u8>,
    event_data_len: nat,
)
    requires
        is_event_header(h, pcr_index, event_type, hash, event_data_len),
    ensures
        h.pcr_index == pcr_index,
        h.event_type == event_type,
        h.event_size == event_data_len % 0x1_0000_0000,
        event_data_len < 0x1_0000_0000 ==> h.event_size == event_data_len,
        h.digest.count == 1,
        h.digest.digests[0].hash_alg == 0xc,
        h.digest.digests[0].digest.sha384@ == hash,
{
}

/// The RTMR a PCR goes to: PCR 1 and 7 to RTMR 0, PCRs 2..=6 to RTMR 1, PCRs 8..=15 to
/// RTMR 2, and no other PCR (0 included) to any RTMR.
pub proof fn lemma_rtmr_for_pcr_mapping(pcr_index: u32)
    ensures
        rtmr_for_pcr(pcr_index) == Some(0u32) <==> (pcr_index == 1 || pcr_index == 7),
        rtmr_for_pcr(pcr_index) == Some(1u32) <==> (2 <= pcr_index <= 6),
        rtmr_for_pcr(pcr_index) == Some(2u32) <==> (8 <= pcr_index <= 15),
        rtmr_for_pcr(pcr_index) is None <==> (pcr_index == 0 || pcr_index > 15),
{
}

/// A PCR is extended into an RTMR exactly when it lies in 1..=15, and the RTMR index is
/// always one of the three runtime registers.
pub proof fn lemma_rtmr_for_pcr_range(pcr_index: u32)
    ensures
        rtmr_for_pcr(pcr_index) is Some <==> 1 <= pcr_index <= 15,
        rtmr_for_pcr(pcr_index) matches Some(i) ==> i < 3,
{
}

} // verus!
