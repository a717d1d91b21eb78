//! The `lz4_flex` frame format, reached through trusted wrappers.
//!
//! An encoding writes into a caller's byte buffer, as a writer that keeps
//! what it was given; a decoding reads a whole frame back. Errors arrive
//! as the `Debug` text of the `std::io::Error` that the codec reported.

use vstd::prelude::*;
use std::io::{Read, Write};
use lz4_flex::frame::{FrameDecoder, FrameEncoder};

verus! {

/// A byte buffer that encoders write into and that stays readable after
/// the encoder that wrote it has been dropped.
pub struct SharedWriter {
    buf: Vec<u8>,
}

impl View for SharedWriter {
    type V = Seq<u8>;

    closed spec fn view(&self) -> Seq<u8> {
        self.buf@
    }
}

/// A fresh, empty buffer.
pub fn shared() -> (w: SharedWriter)
    ensures
        w@ == Seq::<u8>::empty(),
{
    SharedWriter { buf: Vec::new() }
}

impl SharedWriter {
    /// The bytes written so far.
    pub fn bytes(&self) -> (b: &[u8])
        ensures
            b@ == self@,
    {
        self.buf.as_slice()
    }

    /// The bytes written, taken out of the buffer.
    pub fn into_bytes(self) -> (b: Vec<u8>)
        ensures
            b@ == self@,
    {
        self.buf
    }
}

/// The view of a frame codec outcome: the bytes, or the error's text.
pub open spec fn frame_view(r: Result<Vec<u8>, String>) -> Result<Seq<u8>, Seq<char>> {
    match r {
        Ok(v) => Ok(v@),
        Err(e) => Err(e@),
    }
}

/// What `FrameEncoder::new(..).auto_finish()` with default settings
/// writes into an empty `Vec<u8>` when `data` is written to it with
/// `write_all` and the encoder is then dropped (`Ok`), or the `Debug`
/// text of the error that `write_all` returned (`Err`).
pub uninterp spec fn lz4_frame_encode_auto(data: Seq<u8>) -> Result<Seq<u8>, Seq<char>>;

/// What `FrameEncoder::new(..)` with default settings writes into an
/// empty `Vec<u8>` when `data` is written to it with `write_all` and
/// `try_finish` is then called (`Ok`), or the `Debug` text of the error
/// that `write_all` returned (`Err`).
pub uninterp spec fn lz4_frame_encode_finished(data: Seq<u8>) -> Result<Seq<u8>, Seq<char>>;

/// What `read_to_end` on a `lz4_flex::frame::FrameDecoder` over `frame`
/// yields (`Ok`), or the `Debug` text of its error (`Err`).
pub uninterp spec fn lz4_frame_decode(frame: Seq<u8>) -> Result<Seq<u8>, Seq<char>>;

/// Encodes `data` through `FrameEncoder::new(..).auto_finish()` over the sink:
/// `write_all`, then the encoder is dropped, which finishes the stream.
/// The bytes, named `lz4_frame_encode_auto`, are appended to the sink (a
/// `Vec<u8>` writer, which appends and never fails); what the sink holds
/// after a failed `write_all` is not stated.
#[verifier::external_body]
pub(crate) fn encode_frame_auto_finish(sink: &mut SharedWriter, data: &[u8]) -> (r: Result<(), String>)
    ensures
        r is Ok <==> lz4_frame_encode_auto(data@) is Ok,
        r is Ok ==> final(sink)@ == old(sink)@ + lz4_frame_encode_auto(data@)->Ok_0,
        r matches Err(m) ==> lz4_frame_encode_auto(data@)->Err_0 == m@,
{
    let mut encoder = FrameEncoder::new(&mut sink.buf).auto_finish();
    let written = encoder.write_all(data);
    drop(encoder);
    written.map_err(|e| format!("{e:?}"))
}

/// Encodes `data` through `FrameEncoder::new(..)` over the sink: `write_all`, then
/// `try_finish`, whose result is dropped, then the encoder is dropped.
/// The bytes, named `lz4_frame_encode_finished`, are appended to the
/// sink; what the sink holds after a failed `write_all` is not stated.
#[verifier::external_body]
pub(crate) fn encode_frame_try_finish(sink: &mut SharedWriter, data: &[u8]) -> (r: Result<(), String>)
    ensures
        r is Ok <==> lz4_frame_encode_finished(data@) is Ok,
        r is Ok ==> final(sink)@ == old(sink)@ + lz4_frame_encode_finished(data@)->Ok_0,
        r matches Err(m) ==> lz4_frame_encode_finished(data@)->Err_0 == m@,
{
    let mut encoder = FrameEncoder::new(&mut sink.buf);
    encoder.write_all(data).map_err(|e| format!("{e:?}"))?;
    let _ = encoder.try_finish();
    Ok(())
}

/// Encodes `data` through `FrameEncoder::new(..).auto_finish()` into a
/// writer with no room at all, so that every write fails, and drops the
/// encoder. Nothing is returned: the call only has to come back.
#[verifier::external_body]
pub(crate) fn encode_frame_auto_finish_into_full_writer(data: &[u8]) {
    let mut no_room: [u8; 0] = [];
    let mut encoder = FrameEncoder::new(&mut no_room[..]).auto_finish();
    let _ = encoder.write_all(data);
    drop(encoder);
}

/// Decodes a whole frame with `FrameDecoder::new(frame)` and
/// `read_to_end`; the result is named `lz4_frame_decode`.
#[verifier::external_body]
pub(crate) fn decode_frame(frame: &[u8]) -> (r: Result<Vec<u8>, String>)
    ensures
        frame_view(r) == lz4_frame_decode(frame@),
{
    let mut decoded = Vec::new();
    match FrameDecoder::new(frame).read_to_end(&mut decoded) {
        Ok(_) => Ok(decoded),
        Err(e) => Err(format!("{e:?}")),
    }
}

} // verus!
