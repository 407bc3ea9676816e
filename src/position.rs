use vstd::prelude::*;

verus! {

#[verifier::external_type_specification]
#[verifier::external_body]
pub struct ExCidGeneric<const S: usize>(sp_cid::CidGeneric<S>);

#[verifier::external_type_specification]
#[verifier::external_body]
pub struct ExMultihashGeneric<const S: usize>(sp_cid::sp_multihash::MultihashGeneric<S>);

/// Content identifier of a source text.
pub type Cid = sp_cid::Cid;

/// A self-describing hash digest.
pub type Multihash = sp_cid::sp_multihash::Multihash;

/// The span of `input` from offset `from` up to offset `upto`.
pub open spec fn span_spec(input: Cid, from: int, upto: int) -> Pos {
    Pos::At(Position { input, from: from as u64, upto: upto as u64 })
}

/// The span of `input` from offset `from` up to offset `upto`.
pub fn span(input: Cid, from: usize, upto: usize) -> (p: Pos)
    ensures
        p == span_spec(input, from as int, upto as int),
{
    Pos::At(Position { input, from: from as u64, upto: upto as u64 })
}

/// The multicodec code of raw bytes.
pub const RAW_CODEC: u64 = 0x55;

/// Relies on `sp_multihash::Code::Blake2b256` through `MultihashDigest::digest`:
/// the BLAKE2b-256 multihash of the bytes.
#[verifier::external_body]
fn blake2b256(bytes: &Vec<u8>) -> Multihash {
    <sp_cid::sp_multihash::Code as sp_cid::sp_multihash::MultihashDigest<64>>::digest(
        &sp_cid::sp_multihash::Code::Blake2b256,
        bytes.as_slice(),
    )
}

/// Relies on `sp_cid::Cid::new_v1`: the version-1 identifier of a codec and
/// a hash.
#[verifier::external_body]
fn cid_v1(codec: u64, hash: Multihash) -> Cid {
    sp_cid::Cid::new_v1(codec, hash)
}

/// The content identifier of a source text, from its canonical encoding: a
/// version-1 identifier with the raw codec over the BLAKE2b-256 digest.
pub fn input_cid_of_encoding(encoded: &Vec<u8>) -> Cid {
    cid_v1(RAW_CODEC, blake2b256(encoded))
}

/// A concrete span of source text.
#[derive(Clone, Copy)]
pub struct Position {
    /// identifier of the source the span belongs to
    pub input: Cid,
    /// character offset where the span starts
    pub from: u64,
    /// character offset just past the span
    pub upto: u64,
}

/// Where a syntax node came from: nowhere (a synthetic node) or a span.
#[derive(Clone, Copy)]
pub enum Pos {
    /// a synthetic node, made by a program rather than read from a source
    Nowhere,
    /// a node read from the given span
    At(Position),
}

} // verus!
