//! The property checks: each calls the codec under test on its inputs and
//! judges what came back. The judging stands in public functions of its
//! own, which take the codec's outcome as an argument.

use vstd::prelude::*;
use crate::block::{
    BlockError, block_error_text, compress_prepend_size_with_dict, decoded_view,
    decompress_size_prepended, decompress_size_prepended_with_dict,
    lz4_compress_prepend_size_with_dict, lz4_decompress_size_prepended,
    lz4_decompress_size_prepended_with_dict,
};
use crate::frame::{
    decode_frame, encode_frame_auto_finish, encode_frame_auto_finish_into_full_writer,
    encode_frame_try_finish, frame_view, lz4_frame_decode, lz4_frame_encode_auto, lz4_frame_encode_finished, shared,
};
use crate::text::{decimal, push_decimal};

verus! {

/// The outcome of one property check.
#[derive(Debug, Clone, PartialEq, Eq)]
pub enum PropertyResult {
    /// The property held.
    Pass,
    /// The property failed; the text says how.
    Fail(String),
    /// The input is outside what the property speaks of.
    Discard,
}

/// The abstract outcome of a property check.
pub enum Verdict {
    Pass,
    Fail(Seq<char>),
    Discard,
}

impl View for PropertyResult {
    type V = Verdict;

    open spec fn view(&self) -> Verdict {
        match self {
            PropertyResult::Pass => Verdict::Pass,
            PropertyResult::Fail(m) => Verdict::Fail(m@),
            PropertyResult::Discard => Verdict::Discard,
        }
    }
}

/// Whether two byte slices hold the same bytes.
pub fn same_bytes(a: &[u8], b: &[u8]) -> (r: bool)
    ensures
        r == (a@ == b@),
{
    if a.len() != b.len() {
        return false;
    }
    let n = a.len();
    for i in 0..n
        invariant
            n == a@.len(),
            n == b@.len(),
            forall|j: int| 0 <= j < i ==> a@[j] == b@[j],
    {
        if a[i] != b[i] {
            return false;
        }
    }
    assert(a@ =~= b@);
    true
}

// ---------------------------------------------------------------------------
// A short input to `decompress_size_prepended`.
// ---------------------------------------------------------------------------

/// The failure text when a short input was decoded without error.
pub open spec fn short_input_ok_text(input_len: nat) -> Seq<char> {
    "decompress_size_prepended returned Ok on short input.len()="@ + decimal(input_len)
        + " (expected Err)"@
}

/// The verdict on an input of `input_len` bytes that
/// `decompress_size_prepended` answered with `outcome`: inputs of four
/// bytes or more are discarded; a shorter one passes when it was refused.
pub open spec fn short_input_verdict(input_len: nat, outcome: Result<Seq<u8>, BlockError>) -> Verdict {
    if input_len >= 4 {
        Verdict::Discard
    } else {
        match outcome {
            Ok(_) => Verdict::Fail(short_input_ok_text(input_len)),
            Err(_) => Verdict::Pass,
        }
    }
}

/// The verdict on `input`, given what the codec answers for it.
pub open spec fn short_input_verdict_of(input: Seq<u8>) -> Verdict {
    short_input_verdict(input.len(), lz4_decompress_size_prepended(input))
}

/// Judges what `decompress_size_prepended` answered for an input of
/// `input_len` bytes.
pub fn judge_short_input(input_len: usize, outcome: Result<Vec<u8>, BlockError>) -> (r:
    PropertyResult)
    ensures
        r@ == short_input_verdict(input_len as nat, decoded_view(outcome)),
{
    if input_len >= 4 {
        return PropertyResult::Discard;
    }
    match outcome {
        Ok(_) => {
            let mut m = String::from_str("decompress_size_prepended returned Ok on short input.len()=");
            push_decimal(&mut m, input_len as u128);
            m.append(" (expected Err)");
            PropertyResult::Fail(m)
        },
        Err(_) => PropertyResult::Pass,
    }
}

/// `decompress_size_prepended` must refuse an input shorter than the four
/// bytes of its size prefix; longer inputs are discarded.
///
/// Every input shorter than four bytes passes: the size prefix is read
/// before anything else, and a missing byte of it is an error.
pub fn property_decompress_short_input_no_panic(input: Vec<u8>) -> (r: PropertyResult)
    ensures
        r@ == short_input_verdict_of(input@),
        input@.len() >= 4 ==> r@ == Verdict::Discard,
        input@.len() < 4 ==> r@ == Verdict::Pass,
{
    if input.len() >= 4 {
        return PropertyResult::Discard;
    }
    let outcome = decompress_size_prepended(input.as_slice());
    judge_short_input(input.len(), outcome)
}

// ---------------------------------------------------------------------------
// A block roundtrip through a dictionary of any length.
// ---------------------------------------------------------------------------

/// The failure text when decompression with the dictionary failed.
pub open spec fn dict_decode_error_text(e: BlockError, input_len: nat, dict_len: nat) -> Seq<char> {
    "decompress_size_prepended_with_dict returned Err("@ + block_error_text(e)
        + "): input.len()="@ + decimal(input_len) + ", dict.len()="@ + decimal(dict_len)
}

/// The failure text when a roundtrip gave back other bytes.
pub open spec fn dict_mismatch_text(input_len: nat, decoded_len: nat) -> Seq<char> {
    "roundtrip mismatch: orig.len()="@ + decimal(input_len) + ", decoded.len()="@ + decimal(
        decoded_len,
    )
}

/// The verdict on a roundtrip of `input` through a dictionary of
/// `dict_len` bytes that decoded to `decoded`: it passes exactly when
/// the decoded bytes are the input.
pub open spec fn dict_roundtrip_verdict(
    input: Seq<u8>,
    dict_len: nat,
    decoded: Result<Seq<u8>, BlockError>,
) -> Verdict {
    match decoded {
        Err(e) => Verdict::Fail(dict_decode_error_text(e, input.len(), dict_len)),
        Ok(d) => if d == input {
            Verdict::Pass
        } else {
            Verdict::Fail(dict_mismatch_text(input.len(), d.len()))
        },
    }
}

/// The verdict on `input` and `dict`, given what the codec answers.
pub open spec fn dict_roundtrip_verdict_of(input: Seq<u8>, dict: Seq<u8>) -> Verdict {
    dict_roundtrip_verdict(
        input,
        dict.len(),
        lz4_decompress_size_prepended_with_dict(lz4_compress_prepend_size_with_dict(input, dict), dict),
    )
}

/// The dictionary check passes exactly when decompressing the compressed
/// input with the same dictionary, whatever its length, gives back the
/// input; any error or any other bytes make it fail.
pub proof fn lemma_dict_roundtrip_decides(input: Seq<u8>, dict: Seq<u8>)
    ensures
        dict_roundtrip_verdict_of(input, dict) == Verdict::Pass
            <==> lz4_decompress_size_prepended_with_dict(
            lz4_compress_prepend_size_with_dict(input, dict),
            dict,
        ) == Ok::<Seq<u8>, BlockError>(input),
        dict_roundtrip_verdict_of(input, dict) is Fail || dict_roundtrip_verdict_of(input, dict)
            == Verdict::Pass,
{
}

/// Judges the decompression of `input`'s compressed form with a
/// dictionary of `dict_len` bytes.
pub fn judge_dict_roundtrip(input: &Vec<u8>, dict_len: usize, decoded: Result<Vec<u8>, BlockError>) -> (r:
    PropertyResult)
    ensures
        r@ == dict_roundtrip_verdict(input@, dict_len as nat, decoded_view(decoded)),
{
    match decoded {
        Err(e) => {
            let mut m = String::from_str("decompress_size_prepended_with_dict returned Err(");
            e.push_text(&mut m);
            m.append("): input.len()=");
            push_decimal(&mut m, input.len() as u128);
            m.append(", dict.len()=");
            push_decimal(&mut m, dict_len as u128);
            PropertyResult::Fail(m)
        },
        Ok(d) => {
            if same_bytes(d.as_slice(), input.as_slice()) {
                PropertyResult::Pass
            } else {
                let mut m = String::from_str("roundtrip mismatch: orig.len()=");
                push_decimal(&mut m, input.len() as u128);
                m.append(", decoded.len()=");
                push_decimal(&mut m, d.len() as u128);
                PropertyResult::Fail(m)
            }
        },
    }
}

/// Compressing `input` with `dict` and decompressing the result with the
/// same `dict` must give back `input`, whatever the dictionary's length
/// (in particular below four bytes).
pub fn property_small_dict_no_panic(args: (Vec<u8>, Vec<u8>)) -> (r: PropertyResult)
    ensures
        r@ == dict_roundtrip_verdict_of(args.0@, args.1@),
        r@ == Verdict::Pass <==> lz4_decompress_size_prepended_with_dict(
            lz4_compress_prepend_size_with_dict(args.0@, args.1@),
            args.1@,
        ) == Ok::<Seq<u8>, BlockError>(args.0@),
{
    proof {
        lemma_dict_roundtrip_decides(args.0@, args.1@);
    }
    let (input, dict) = args;
    let compressed = compress_prepend_size_with_dict(input.as_slice(), dict.as_slice());
    let decoded = decompress_size_prepended_with_dict(compressed.as_slice(), dict.as_slice());
    judge_dict_roundtrip(&input, dict.len(), decoded)
}

// ---------------------------------------------------------------------------
// Dropping an auto-finishing frame encoder.
// ---------------------------------------------------------------------------

/// The failure text when writing to the auto-finishing encoder failed.
pub open spec fn auto_write_error_text(e: Seq<char>) -> Seq<char> {
    "auto_finish write_all errored: "@ + e
}

/// The failure text when writing to the explicitly finished encoder failed.
pub open spec fn manual_write_error_text(e: Seq<char>) -> Seq<char> {
    "manual write_all errored: "@ + e
}

/// The failure text when the two encodings differ.
pub open spec fn encodings_differ_text(auto_len: nat, manual_len: nat) -> Seq<char> {
    "auto_finish drop produced "@ + decimal(auto_len)
        + " bytes, manual try_finish+drop produced "@ + decimal(manual_len)
        + " bytes (must be identical per documented Drop contract)"@
}

/// The failure text when the frame decoder refused the encoding.
pub open spec fn frame_decode_error_text(e: Seq<char>) -> Seq<char> {
    "FrameDecoder errored on auto_finish output: "@ + e
}

/// The failure text when the frame decoded to other bytes.
pub open spec fn frame_mismatch_text(input_len: nat, decoded_len: nat) -> Seq<char> {
    "roundtrip mismatch: input.len()="@ + decimal(input_len) + ", decoded.len()="@ + decimal(
        decoded_len,
    )
}

/// The verdict on `data`, given what the auto-finishing encoder wrote
/// (`auto`), what the explicitly finished encoder wrote (`manual`), and
/// what decoding `auto`'s bytes gave (`decoded`). The checks come in
/// that order and the first that fails decides.
pub open spec fn drop_verdict(
    data: Seq<u8>,
    auto: Result<Seq<u8>, Seq<char>>,
    manual: Result<Seq<u8>, Seq<char>>,
    decoded: Result<Seq<u8>, Seq<char>>,
) -> Verdict {
    match auto {
        Err(e) => Verdict::Fail(auto_write_error_text(e)),
        Ok(a) => match manual {
            Err(e) => Verdict::Fail(manual_write_error_text(e)),
            Ok(b) => if a != b {
                Verdict::Fail(encodings_differ_text(a.len(), b.len()))
            } else {
                match decoded {
                    Err(e) => Verdict::Fail(frame_decode_error_text(e)),
                    Ok(out) => if out != data {
                        Verdict::Fail(frame_mismatch_text(data.len(), out.len()))
                    } else {
                        Verdict::Pass
                    },
                }
            },
        },
    }
}

/// The verdict on `data`, given what the codec answers: what the
/// auto-finishing encoder writes, what the explicitly finished encoder
/// writes, and what decoding the first gives.
pub open spec fn drop_verdict_of(data: Seq<u8>) -> Verdict {
    drop_verdict(
        data,
        lz4_frame_encode_auto(data),
        lz4_frame_encode_finished(data),
        lz4_frame_decode(lz4_frame_encode_auto(data)->Ok_0),
    )
}

/// Judges the two encodings of `data` and the decoding of the first.
/// `decoded` is read only where both encodings succeeded and agree.
pub fn judge_drop_matches_manual_finish(
    data: &Vec<u8>,
    auto: Result<Vec<u8>, String>,
    manual: Result<Vec<u8>, String>,
    decoded: Result<Vec<u8>, String>,
) -> (r: PropertyResult)
    ensures
        r@ == drop_verdict(data@, frame_view(auto), frame_view(manual), frame_view(decoded)),
{
    let a = match auto {
        Err(e) => {
            let mut m = String::from_str("auto_finish write_all errored: ");
            m.append(e.as_str());
            return PropertyResult::Fail(m);
        },
        Ok(a) => a,
    };
    let b = match manual {
        Err(e) => {
            let mut m = String::from_str("manual write_all errored: ");
            m.append(e.as_str());
            return PropertyResult::Fail(m);
        },
        Ok(b) => b,
    };
    if !same_bytes(a.as_slice(), b.as_slice()) {
        let mut m = String::from_str("auto_finish drop produced ");
        push_decimal(&mut m, a.len() as u128);
        m.append(" bytes, manual try_finish+drop produced ");
        push_decimal(&mut m, b.len() as u128);
        m.append(" bytes (must be identical per documented Drop contract)");
        return PropertyResult::Fail(m);
    }
    match decoded {
        Err(e) => {
            let mut m = String::from_str("FrameDecoder errored on auto_finish output: ");
            m.append(e.as_str());
            PropertyResult::Fail(m)
        },
        Ok(out) => {
            if same_bytes(out.as_slice(), data.as_slice()) {
                PropertyResult::Pass
            } else {
                let mut m = String::from_str("roundtrip mismatch: input.len()=");
                push_decimal(&mut m, data.len() as u128);
                m.append(", decoded.len()=");
                push_decimal(&mut m, out.len() as u128);
                PropertyResult::Fail(m)
            }
        },
    }
}

/// Dropping an encoder made by `auto_finish()` must act as calling
/// `try_finish()` and ignoring its result: with a working writer both
/// ways write the same bytes, and those bytes decode back to `data`;
/// with a writer that refuses every write, the drop must still return.
pub fn property_drop_matches_manual_finish(data: Vec<u8>) -> (r: PropertyResult)
    ensures
        r@ == drop_verdict_of(data@),
        r@ == Verdict::Pass <==> (lz4_frame_encode_auto(data@) matches Ok(a)
            && lz4_frame_encode_finished(data@) matches Ok(b) && a == b && lz4_frame_decode(a)
            == Ok::<Seq<u8>, Seq<char>>(data@)),
{
    let mut auto_writer = shared();
    let auto_written = encode_frame_auto_finish(&mut auto_writer, data.as_slice());
    let mut manual_writer = shared();
    let manual_written = encode_frame_try_finish(&mut manual_writer, data.as_slice());
    let agreed = auto_written.is_ok() && manual_written.is_ok() && same_bytes(
        auto_writer.bytes(),
        manual_writer.bytes(),
    );
    let decoded = if agreed {
        decode_frame(auto_writer.bytes())
    } else {
        Err(String::new())
    };
    let auto = match auto_written {
        Ok(()) => Ok(auto_writer.into_bytes()),
        Err(e) => Err(e),
    };
    let manual = match manual_written {
        Ok(()) => Ok(manual_writer.into_bytes()),
        Err(e) => Err(e),
    };
    let r = judge_drop_matches_manual_finish(&data, auto, manual, decoded);
    if let PropertyResult::Pass = r {
        encode_frame_auto_finish_into_full_writer(data.as_slice());
    }
    r
}

/// The drop check under the name by which its witnesses and the runner
/// call it; the same check as `property_drop_matches_manual_finish`.
pub fn property_dont_panic_on_drop(data: Vec<u8>) -> (r: PropertyResult)
    ensures
        r@ == drop_verdict_of(data@),
{
    property_drop_matches_manual_finish(data)
}

} // verus!
