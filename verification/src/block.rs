//! The `lz4_flex` block format, reached through trusted wrappers.
//!
//! Each call's result is named by a spec function of its arguments'
//! views; what the `lz4_flex` source shows plainly is stated beside it.

use vstd::prelude::*;
use lz4_flex::block::DecompressError;
use crate::text::{decimal, push_decimal};

verus! {

/// Why a block could not be decompressed; one variant for each variant of
/// `lz4_flex::block::DecompressError`, and `Unrecognized` for variants
/// that a later `lz4_flex` may add.
#[derive(Debug, Clone, Copy, PartialEq, Eq)]
pub enum BlockError {
    OutputTooSmall { expected: usize, actual: usize },
    LiteralOutOfBounds,
    ExpectedAnotherByte,
    OffsetZero,
    OffsetOutOfBounds,
    Unrecognized,
}

/// The `Debug` text of the `lz4_flex` error that `e` stands for.
pub open spec fn block_error_text(e: BlockError) -> Seq<char> {
    match e {
        BlockError::OutputTooSmall { expected, actual } => "OutputTooSmall { expected: "@
            + decimal(expected as nat) + ", actual: "@ + decimal(actual as nat) + " }"@,
        BlockError::LiteralOutOfBounds => "LiteralOutOfBounds"@,
        BlockError::ExpectedAnotherByte => "ExpectedAnotherByte"@,
        BlockError::OffsetZero => "OffsetZero"@,
        BlockError::OffsetOutOfBounds => "OffsetOutOfBounds"@,
        BlockError::Unrecognized => "Unrecognized"@,
    }
}

impl BlockError {
    /// Appends the `Debug` text of the `lz4_flex` error to `s`.
    pub fn push_text(&self, s: &mut String)
        ensures
            final(s)@ == old(s)@ + block_error_text(*self),
    {
        match self {
            BlockError::OutputTooSmall { expected, actual } => {
                s.append("OutputTooSmall { expected: ");
                push_decimal(s, *expected as u128);
                s.append(", actual: ");
                push_decimal(s, *actual as u128);
                s.append(" }");
            },
            BlockError::LiteralOutOfBounds => s.append("LiteralOutOfBounds"),
            BlockError::ExpectedAnotherByte => s.append("ExpectedAnotherByte"),
            BlockError::OffsetZero => s.append("OffsetZero"),
            BlockError::OffsetOutOfBounds => s.append("OffsetOutOfBounds"),
            BlockError::Unrecognized => s.append("Unrecognized"),
        }
    }
}

#[verifier::external_type_specification]
#[verifier::external_body]
pub struct ExDecompressError(DecompressError);

/// The view of a decompression outcome: the decoded bytes or the error.
pub open spec fn decoded_view(r: Result<Vec<u8>, BlockError>) -> Result<Seq<u8>, BlockError> {
    match r {
        Ok(v) => Ok(v@),
        Err(e) => Err(e),
    }
}

/// What `lz4_flex::block::decompress_size_prepended` returns for `input`.
pub uninterp spec fn lz4_decompress_size_prepended(input: Seq<u8>) -> Result<Seq<u8>, BlockError>;

/// What `lz4_flex::block::compress_prepend_size_with_dict` returns for
/// `input` and `dict`.
pub uninterp spec fn lz4_compress_prepend_size_with_dict(input: Seq<u8>, dict: Seq<u8>) -> Seq<u8>;

/// What `lz4_flex::block::decompress_size_prepended_with_dict` returns for
/// `input` and `dict`.
pub uninterp spec fn lz4_decompress_size_prepended_with_dict(
    input: Seq<u8>,
    dict: Seq<u8>,
) -> Result<Seq<u8>, BlockError>;

/// Maps an `lz4_flex::block::DecompressError` to the variant of the same
/// name, moving the fields of `OutputTooSmall`.
#[verifier::external_body]
fn block_error(e: DecompressError) -> BlockError {
    match e {
        DecompressError::OutputTooSmall { expected, actual } => BlockError::OutputTooSmall {
            expected,
            actual,
        },
        DecompressError::LiteralOutOfBounds => BlockError::LiteralOutOfBounds,
        DecompressError::ExpectedAnotherByte => BlockError::ExpectedAnotherByte,
        DecompressError::OffsetZero => BlockError::OffsetZero,
        DecompressError::OffsetOutOfBounds => BlockError::OffsetOutOfBounds,
        _ => BlockError::Unrecognized,
    }
}

/// Calls `lz4_flex::block::decompress_size_prepended`.
///
/// The result is named `lz4_decompress_size_prepended`. Its source reads
/// the little-endian size through `uncompressed_size`, which fails with
/// `ExpectedAnotherByte` when fewer than four bytes are given, before
/// anything else is read: that is stated too.
#[verifier::external_body]
pub(crate) fn decompress_size_prepended(input: &[u8]) -> (r: Result<Vec<u8>, BlockError>)
    ensures
        decoded_view(r) == lz4_decompress_size_prepended(input@),
        input@.len() < 4 ==> r matches Err(BlockError::ExpectedAnotherByte),
{
    lz4_flex::block::decompress_size_prepended(input).map_err(block_error)
}

/// The four little-endian bytes of `n` taken modulo 2^32.
pub open spec fn le_u32_bytes(n: nat) -> Seq<u8> {
    seq![
        (n % 256) as u8,
        (n / 256 % 256) as u8,
        (n / 65536 % 256) as u8,
        (n / 16777216 % 256) as u8,
    ]
}

/// Calls `lz4_flex::block::compress_prepend_size_with_dict`; the result
/// is named `lz4_compress_prepend_size_with_dict`. As documented, it
/// starts with the input's length as a little-endian `u32` (the source
/// writes `(input.len() as u32).to_le_bytes()`).
#[verifier::external_body]
pub(crate) fn compress_prepend_size_with_dict(input: &[u8], dict: &[u8]) -> (r: Vec<u8>)
    ensures
        r@ == lz4_compress_prepend_size_with_dict(input@, dict@),
        r@.len() >= 4,
        r@.subrange(0, 4) == le_u32_bytes(input@.len()),
{
    lz4_flex::block::compress_prepend_size_with_dict(input, dict)
}

/// Calls `lz4_flex::block::decompress_size_prepended_with_dict`; the
/// result is named `lz4_decompress_size_prepended_with_dict`.
#[verifier::external_body]
pub(crate) fn decompress_size_prepended_with_dict(input: &[u8], dict: &[u8]) -> (r: Result<
    Vec<u8>,
    BlockError,
>)
    ensures
        decoded_view(r) == lz4_decompress_size_prepended_with_dict(input@, dict@),
{
    lz4_flex::block::decompress_size_prepended_with_dict(input, dict).map_err(block_error)
}

} // verus!
