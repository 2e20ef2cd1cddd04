//! The output prefix that marks which key produced a ciphertext, tag or signature.

use vstd::prelude::*;

use crate::error::TinkError;
use crate::proto::OutputPrefixType;

verus! {

/// Length of the prefix of the Tink, Legacy and Crunchy kinds.
pub const NON_RAW_PREFIX_SIZE: usize = 5;

/// Length of the prefix of the Raw kind.
pub const RAW_PREFIX_SIZE: usize = 0;

/// First byte of a Tink prefix.
pub const TINK_START_BYTE: u8 = 1;

/// First byte of a Legacy or Crunchy prefix.
pub const LEGACY_START_BYTE: u8 = 0;

/// The four bytes of `x`, most significant first.
pub open spec fn be32(x: u32) -> Seq<u8> {
    seq![(x >> 24u32) as u8, (x >> 16u32) as u8, (x >> 8u32) as u8, x as u8]
}

/// The prefix of a key of this kind and id; `None` for the unknown kind.
pub open spec fn spec_output_prefix(kind: OutputPrefixType, key_id: u32) -> Option<Seq<u8>> {
    match kind {
        OutputPrefixType::Tink => Some(seq![TINK_START_BYTE].add(be32(key_id))),
        OutputPrefixType::Legacy => Some(seq![LEGACY_START_BYTE].add(be32(key_id))),
        OutputPrefixType::Crunchy => Some(seq![LEGACY_START_BYTE].add(be32(key_id))),
        OutputPrefixType::Raw => Some(Seq::empty()),
        OutputPrefixType::UnknownPrefix => None,
    }
}

/// Returns the prefix that a key of this kind and id puts in front of what it produces.
pub fn output_prefix(kind: OutputPrefixType, key_id: u32) -> (r: Result<Vec<u8>, TinkError>)
    ensures
        match spec_output_prefix(kind, key_id) {
            Some(p) => r matches Ok(v) && v@ == p,
            None => r == Err::<Vec<u8>, TinkError>(TinkError::InvalidKey),
        },
{
    let start = match kind {
        OutputPrefixType::Tink => TINK_START_BYTE,
        OutputPrefixType::Legacy | OutputPrefixType::Crunchy => LEGACY_START_BYTE,
        OutputPrefixType::Raw => {
            return Ok(Vec::new());
        },
        OutputPrefixType::UnknownPrefix => {
            return Err(TinkError::InvalidKey);
        },
    };
    let mut v: Vec<u8> = Vec::new();
    v.push(start);
    v.push((key_id >> 24u32) as u8);
    v.push((key_id >> 16u32) as u8);
    v.push((key_id >> 8u32) as u8);
    v.push(key_id as u8);
    assert(v@ == seq![start].add(be32(key_id)));
    Ok(v)
}

/// Equal big-endian encodings come from equal integers.
pub proof fn lemma_be32_injective(a: u32, b: u32)
    requires
        be32(a) == be32(b),
    ensures
        a == b,
{
    assert(be32(a)[0] == be32(b)[0] && be32(a)[1] == be32(b)[1]);
    assert(be32(a)[2] == be32(b)[2] && be32(a)[3] == be32(b)[3]);
    let (a0, a1, a2, a3) = ((a >> 24u32) as u8, (a >> 16u32) as u8, (a >> 8u32) as u8, a as u8);
    let (b0, b1, b2, b3) = ((b >> 24u32) as u8, (b >> 16u32) as u8, (b >> 8u32) as u8, b as u8);
    assert(a0 == b0 && a1 == b1 && a2 == b2 && a3 == b3);
    assert(a == b) by (bit_vector)
        requires
            (a >> 24u32) as u8 == (b >> 24u32) as u8,
            (a >> 16u32) as u8 == (b >> 16u32) as u8,
            (a >> 8u32) as u8 == (b >> 8u32) as u8,
            a as u8 == b as u8,
    ;
}

/// Two keys of kind Tink with different ids never get the same prefix.
pub proof fn lemma_tink_prefixes_distinct(a: u32, b: u32)
    requires
        a != b,
    ensures
        spec_output_prefix(OutputPrefixType::Tink, a) != spec_output_prefix(OutputPrefixType::Tink, b),
{
    if spec_output_prefix(OutputPrefixType::Tink, a) == spec_output_prefix(OutputPrefixType::Tink, b) {
        lemma_prefix_names_key(OutputPrefixType::Tink, a, OutputPrefixType::Tink, b);
    }
}

/// A non-empty prefix names the key's id: two keys whose prefixes are equal and
/// non-empty have the same id, and either both are of kind Tink or neither is.
pub proof fn lemma_prefix_names_key(ka: OutputPrefixType, a: u32, kb: OutputPrefixType, b: u32)
    requires
        spec_output_prefix(ka, a) matches Some(pa) && pa.len() > 0,
        spec_output_prefix(ka, a) == spec_output_prefix(kb, b),
    ensures
        a == b,
        (ka == OutputPrefixType::Tink) == (kb == OutputPrefixType::Tink),
{
    let pa = spec_output_prefix(ka, a)->Some_0;
    let pb = spec_output_prefix(kb, b)->Some_0;
    assert(pa.len() == 5 && pb.len() == 5);
    assert(pa.skip(1) == be32(a));
    assert(pb.skip(1) == be32(b));
    lemma_be32_injective(a, b);
    assert(pa[0] == pb[0]);
}

} // verus!
