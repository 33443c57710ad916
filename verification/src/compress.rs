//! Block compression of the packets that travel in `Data` messages.
//!
//! Every payload is one raw Snappy block, compressed on its own; nothing is
//! carried over from one packet to the next.

use vstd::prelude::*;

verus! {

/// Largest number of bytes that a packet on the virtual interface holds.
pub const MTU: usize = 1380;

/// `snap::raw::Encoder`, a Snappy compressor. It keeps scratch tables between
/// calls and clears them for every block.
#[verifier::external_type_specification]
#[verifier::external_body]
pub struct ExEncoder(snap::raw::Encoder);

/// `snap::raw::Decoder`, a Snappy decompressor without state.
#[verifier::external_type_specification]
#[verifier::external_body]
pub struct ExDecoder(snap::raw::Decoder);

/// `snap::Error`, the reason a block could not be compressed or decompressed.
#[verifier::external_type_specification]
#[verifier::external_body]
pub struct ExSnapError(snap::Error);

/// The raw Snappy block that `snap::raw::Encoder::compress_vec` makes of
/// `data`.
pub uninterp spec fn snappy_block(data: Seq<u8>) -> Seq<u8>;

/// What `snap::raw::Decoder::decompress_vec` makes of `block`: the bytes it
/// stands for, or nothing where it is not a well-formed block.
pub uninterp spec fn snappy_unblock(block: Seq<u8>) -> Option<Seq<u8>>;

/// Whether a block of `len` bytes is within what Snappy compresses: the
/// largest size the block may take has to fit in 32 bits.
pub open spec fn compressible(len: nat) -> bool {
    32 + len + len / 6 <= u32::MAX
}

/// `snap::raw::Encoder::new` makes a compressor.
pub assume_specification[ snap::raw::Encoder::new ]() -> (encoder: snap::raw::Encoder);

/// `snap::raw::Decoder::new` makes a decompressor.
pub assume_specification[ snap::raw::Decoder::new ]() -> (decoder: snap::raw::Decoder);

/// `snap::raw::Encoder::compress_vec` compresses `input` into one block. It
/// fails exactly on an input that is too long, the block is a function of the
/// input alone, and decompressing the block gives the input back.
pub assume_specification[ snap::raw::Encoder::compress_vec ](
    encoder: &mut snap::raw::Encoder,
    input: &[u8],
) -> (r: Result<Vec<u8>, snap::Error>)
    ensures
        r is Ok <==> compressible(input@.len()),
        r matches Ok(block) ==> block@ == snappy_block(input@) && snappy_unblock(block@) == Some(
            input@,
        ),
;

/// `snap::raw::Decoder::decompress_vec` decompresses one block. The outcome
/// is a function of the input alone.
pub assume_specification[ snap::raw::Decoder::decompress_vec ](
    decoder: &mut snap::raw::Decoder,
    input: &[u8],
) -> (r: Result<Vec<u8>, snap::Error>)
    ensures
        match r {
            Ok(data) => snappy_unblock(input@) == Some(data@),
            Err(_) => snappy_unblock(input@) is None,
        },
;

/// A compressor and a decompressor, kept together for the life of a session.
pub struct Compressor {
    encoder: snap::raw::Encoder,
    decoder: snap::raw::Decoder,
}

impl Compressor {
    /// Makes a compressor.
    pub fn new() -> (compressor: Compressor) {
        Compressor { encoder: snap::raw::Encoder::new(), decoder: snap::raw::Decoder::new() }
    }

    /// Compresses a packet into one block. There is none exactly where the
    /// packet is too long to be compressed, which no packet of at most
    /// `MTU` bytes is; decompressing the block gives the packet back.
    pub fn compress(&mut self, data: &[u8]) -> (r: Option<Vec<u8>>)
        ensures
            r is Some <==> compressible(data@.len()),
            data@.len() <= MTU ==> r is Some,
            r matches Some(block) ==> block@ == snappy_block(data@) && snappy_unblock(block@)
                == Some(data@),
    {
        match self.encoder.compress_vec(data) {
            Ok(block) => Some(block),
            Err(_) => None,
        }
    }

    /// Decompresses one block; none exactly where the bytes are not a
    /// well-formed block.
    pub fn decompress(&mut self, block: &[u8]) -> (r: Option<Vec<u8>>)
        ensures
            match r {
                Some(data) => snappy_unblock(block@) == Some(data@),
                None => snappy_unblock(block@) is None,
            },
    {
        match self.decoder.decompress_vec(block) {
            Ok(data) => Some(data),
            Err(_) => None,
        }
    }
}

} // verus!
