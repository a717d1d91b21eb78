//! Checks of the judging, naming and reporting functions on given values,
//! and of the codec through the public property checks.

use lz4_etna::block::BlockError;
use lz4_etna::frame::shared;
use lz4_etna::json::json_str;
use lz4_etna::names::{all_properties, is_all, same_text, Property, Tool};
use lz4_etna::properties::{
    judge_dict_roundtrip, judge_drop_matches_manual_finish, judge_short_input,
    property_dont_panic_on_drop,
    property_decompress_short_input_no_panic, property_drop_matches_manual_finish,
    property_small_dict_no_panic, same_bytes, PropertyResult,
};
use lz4_etna::report::{
    aborted_report, as_check, json_report, outcome_report, run_all, run_end_status_of,
    run_etna_once, run_etna_property, to_err, unknown_property, unknown_tool, Metrics, RunEnd,
};
use lz4_flex::block::DecompressError;

fn fail(m: &str) -> PropertyResult {
    PropertyResult::Fail(m.to_string())
}

// ---- short inputs ----

#[test]
fn short_input_of_four_bytes_is_discarded() {
    assert_eq!(property_decompress_short_input_no_panic(vec![0u8; 4]), PropertyResult::Discard);
    assert_eq!(property_decompress_short_input_no_panic(vec![7u8; 100]), PropertyResult::Discard);
}

#[test]
fn short_input_decoded_without_error_fails() {
    assert_eq!(
        judge_short_input(2, Ok(vec![1, 2, 3])),
        fail("decompress_size_prepended returned Ok on short input.len()=2 (expected Err)")
    );
}

#[test]
fn short_input_refused_passes_with_any_error() {
    assert_eq!(judge_short_input(0, Err(BlockError::ExpectedAnotherByte)), PropertyResult::Pass);
    assert_eq!(judge_short_input(3, Err(BlockError::OffsetZero)), PropertyResult::Pass);
    assert_eq!(judge_short_input(9, Ok(Vec::new())), PropertyResult::Discard);
}

#[test]
fn every_input_below_four_bytes_passes() {
    for len in 0..4usize {
        for fill in [0u8, 1, 0x7f, 0xff] {
            let r = property_decompress_short_input_no_panic(vec![fill; len]);
            assert_eq!(r, PropertyResult::Pass);
        }
    }
}

// ---- dictionaries ----

#[test]
fn dict_roundtrip_with_longer_dicts_passes() {
    let input: Vec<u8> = b"the quick brown fox jumps over the lazy dog, the quick brown fox".to_vec();
    let dict: Vec<u8> = b"the quick brown".to_vec();
    assert_eq!(property_small_dict_no_panic((input.clone(), dict)), PropertyResult::Pass);
    assert_eq!(property_small_dict_no_panic((input, Vec::new())), PropertyResult::Pass);
    assert_eq!(property_small_dict_no_panic((Vec::new(), vec![1, 2, 3])), PropertyResult::Pass);
}

#[test]
fn dict_roundtrip_mismatch_fails() {
    assert_eq!(
        judge_dict_roundtrip(&vec![1, 2, 3], 0, Ok(vec![1, 2])),
        fail("roundtrip mismatch: orig.len()=3, decoded.len()=2")
    );
    assert_eq!(judge_dict_roundtrip(&vec![1, 2, 3], 0, Ok(vec![1, 2, 3])), PropertyResult::Pass);
    assert_eq!(
        judge_dict_roundtrip(&vec![1, 2, 3], 1, Ok(vec![1, 2, 4])),
        fail("roundtrip mismatch: orig.len()=3, decoded.len()=3")
    );
}

#[test]
fn dict_decode_error_fails_with_the_codec_debug_text() {
    let cases = [
        (
            BlockError::OutputTooSmall { expected: 5, actual: 3 },
            DecompressError::OutputTooSmall { expected: 5, actual: 3 },
        ),
        (BlockError::LiteralOutOfBounds, DecompressError::LiteralOutOfBounds),
        (BlockError::ExpectedAnotherByte, DecompressError::ExpectedAnotherByte),
        (BlockError::OffsetZero, DecompressError::OffsetZero),
        (BlockError::OffsetOutOfBounds, DecompressError::OffsetOutOfBounds),
    ];
    for (ours, theirs) in cases {
        let expected = format!(
            "decompress_size_prepended_with_dict returned Err({theirs:?}): input.len()=3, dict.len()=2"
        );
        assert_eq!(judge_dict_roundtrip(&vec![1, 2, 3], 2, Err(ours)), PropertyResult::Fail(expected));
    }
}

// ---- dropping an auto-finishing encoder ----

#[test]
fn drop_judge_reports_each_failure() {
    let data = vec![1u8, 2];
    let ok = |v: &[u8]| Ok::<Vec<u8>, String>(v.to_vec());
    assert_eq!(
        judge_drop_matches_manual_finish(&data, Err("boom".to_string()), ok(&[1]), ok(&[1, 2])),
        fail("auto_finish write_all errored: boom")
    );
    assert_eq!(
        judge_drop_matches_manual_finish(&data, ok(&[9]), Err("bang".to_string()), ok(&[1, 2])),
        fail("manual write_all errored: bang")
    );
    assert_eq!(
        judge_drop_matches_manual_finish(&data, ok(&[9, 9, 9]), ok(&[9, 9]), ok(&[1, 2])),
        fail("auto_finish drop produced 3 bytes, manual try_finish+drop produced 2 bytes (must be identical per documented Drop contract)")
    );
    assert_eq!(
        judge_drop_matches_manual_finish(&data, ok(&[9]), ok(&[9]), Err("bad".to_string())),
        fail("FrameDecoder errored on auto_finish output: bad")
    );
    assert_eq!(
        judge_drop_matches_manual_finish(&data, ok(&[9]), ok(&[9]), ok(&[1])),
        fail("roundtrip mismatch: input.len()=2, decoded.len()=1")
    );
    assert_eq!(
        judge_drop_matches_manual_finish(&data, ok(&[9]), ok(&[9]), ok(&[1, 2])),
        PropertyResult::Pass
    );
}

#[test]
fn drop_property_passes_on_larger_inputs() {
    let data: Vec<u8> = (0..200_000u32).map(|i| (i % 251) as u8).collect();
    assert_eq!(property_drop_matches_manual_finish(data), PropertyResult::Pass);
}

#[test]
fn shared_writer_starts_empty() {
    let w = shared();
    assert!(w.bytes().is_empty());
    assert!(w.into_bytes().is_empty());
}

#[test]
fn same_bytes_compares_contents() {
    assert!(same_bytes(&[1, 2, 3], &[1, 2, 3]));
    assert!(!same_bytes(&[1, 2, 3], &[1, 2]));
    assert!(!same_bytes(&[1, 2, 3], &[1, 2, 4]));
    assert!(same_bytes(&[], &[]));
}

// ---- outcomes ----

#[test]
fn pass_and_discard_find_nothing_wrong() {
    assert_eq!(to_err(PropertyResult::Pass), Ok(()));
    assert_eq!(to_err(PropertyResult::Discard), Ok(()));
    assert_eq!(to_err(fail("why")), Err("why".to_string()));
    assert_eq!(as_check(&PropertyResult::Pass), Some(true));
    assert_eq!(as_check(&fail("why")), Some(false));
    assert_eq!(as_check(&PropertyResult::Discard), None);
}

#[test]
fn metrics_add_up() {
    let m = Metrics { inputs: 1, elapsed_us: 10 }.combine(Metrics { inputs: 2, elapsed_us: 5 });
    assert_eq!((m.inputs, m.elapsed_us), (3, 15));
    let d = Metrics::default();
    assert_eq!((d.inputs, d.elapsed_us), (0, 0));
}

#[test]
fn run_all_keeps_the_first_failure_and_sums() {
    let outcomes = vec![
        (Ok(()), Metrics { inputs: 1, elapsed_us: 10 }),
        (Err("a".to_string()), Metrics { inputs: 1, elapsed_us: 1 }),
        (Err("b".to_string()), Metrics { inputs: 1, elapsed_us: 1 }),
    ];
    let (status, m) = run_all(outcomes);
    assert_eq!(status, Err("a".to_string()));
    assert_eq!((m.inputs, m.elapsed_us), (3, 12));
    let (status, m) = run_all(Vec::new());
    assert_eq!(status, Ok(()));
    assert_eq!((m.inputs, m.elapsed_us), (0, 0));
}

#[test]
fn runs_that_all_pass_pass_together() {
    let outcomes = vec![
        (Ok(()), Metrics { inputs: 4, elapsed_us: 1 }),
        (Ok(()), Metrics { inputs: 5, elapsed_us: 2 }),
    ];
    let (status, m) = run_all(outcomes);
    assert_eq!(status, Ok(()));
    assert_eq!(m.inputs, 9);
}

// ---- names ----

#[test]
fn tools_are_found_by_name() {
    assert_eq!(Tool::from_name("etna"), Some(Tool::Etna));
    assert_eq!(Tool::from_name("proptest"), Some(Tool::Proptest));
    assert_eq!(Tool::from_name("quickcheck"), Some(Tool::Quickcheck));
    assert_eq!(Tool::from_name("crabcheck"), Some(Tool::Crabcheck));
    assert_eq!(Tool::from_name("hegel"), Some(Tool::Hegel));
    assert_eq!(Tool::from_name("Etna"), None);
    assert_eq!(Tool::from_name(""), None);
}

#[test]
fn properties_are_found_by_their_names() {
    let all = all_properties();
    assert_eq!(
        all,
        vec![Property::DontPanicOnDrop, Property::SmallDictNoPanic, Property::DecompressShortInputNoPanic]
    );
    for p in all {
        assert_eq!(Property::from_name(p.name()), Some(p));
        assert!(!is_all(p.name()));
    }
    assert!(is_all("All"));
    assert!(!is_all("all"));
    assert_eq!(Property::from_name("SmallDict"), None);
    assert!(same_text("héllo", "héllo"));
    assert!(!same_text("héllo", "hello"));
}

#[test]
fn unknown_names_are_reported() {
    assert_eq!(unknown_property("quickcheck", "Foo"), "Unknown property for quickcheck: Foo");
    assert_eq!(unknown_tool("pytest"), "Unknown tool: pytest");
}

// ---- fixed runs ----

#[test]
fn fixed_runs_pass() {
    let (status, m) = run_etna_property("All");
    assert_eq!(status, Ok(()));
    assert_eq!(m.inputs, 3);
    for p in all_properties() {
        let (status, m) = run_etna_property(p.name());
        assert_eq!(status, Ok(()));
        assert_eq!(m.inputs, 1);
        let (status, _) = run_etna_once(p);
        assert_eq!(status, Ok(()));
    }
}

#[test]
fn fixed_run_of_an_unknown_property() {
    let (status, m) = run_etna_property("Nope");
    assert_eq!(status, Err("Unknown property for etna: Nope".to_string()));
    assert_eq!((m.inputs, m.elapsed_us), (0, 0));
}

// ---- JSON ----

#[test]
fn json_strings_escape_what_they_must() {
    assert_eq!(json_str("plain"), "\"plain\"");
    assert_eq!(json_str(""), "\"\"");
    assert_eq!(json_str("a\"b\\c"), "\"a\\\"b\\\\c\"");
    assert_eq!(json_str("\n\r\t"), "\"\\n\\r\\t\"");
    assert_eq!(json_str("\u{1}\u{1f}\u{0}"), "\"\\u0001\\u001f\\u0000\"");
    assert_eq!(json_str("é ∑ \u{7f}"), "\"é ∑ \u{7f}\"");
}

#[test]
fn json_strings_hold_no_control_characters() {
    let all_controls: String = (0u32..0x20).map(|c| char::from_u32(c).unwrap()).collect();
    let quoted = json_str(&all_controls);
    assert!(quoted.chars().all(|c| (c as u32) >= 0x20));
    assert!(quoted.starts_with('"') && quoted.ends_with('"'));
}

#[test]
fn report_lines() {
    assert_eq!(
        json_report("etna", "All", "passed", Metrics { inputs: 3, elapsed_us: 120 }, None, None),
        "{\"status\":\"passed\",\"tests\":3,\"discards\":0,\"time\":\"120us\",\"counterexample\":null,\"error\":null,\"tool\":\"etna\",\"property\":\"All\"}"
    );
    assert_eq!(
        json_report(
            "proptest",
            "SmallDictNoPanic",
            "failed",
            Metrics { inputs: u64::MAX, elapsed_us: 0 },
            Some("([1, 2] [3])"),
            Some("e\"r"),
        ),
        "{\"status\":\"failed\",\"tests\":18446744073709551615,\"discards\":0,\"time\":\"0us\",\"counterexample\":\"([1, 2] [3])\",\"error\":\"e\\\"r\",\"tool\":\"proptest\",\"property\":\"SmallDictNoPanic\"}"
    );
}

#[test]
fn outcome_and_aborted_reports() {
    let passed = (Ok(()), Metrics { inputs: 2, elapsed_us: 7 });
    assert_eq!(
        outcome_report("etna", "DontPanicOnDrop", &passed),
        "{\"status\":\"passed\",\"tests\":2,\"discards\":0,\"time\":\"7us\",\"counterexample\":null,\"error\":null,\"tool\":\"etna\",\"property\":\"DontPanicOnDrop\"}"
    );
    let failed = (Err("x\ny".to_string()), Metrics { inputs: 1, elapsed_us: 1000 });
    assert_eq!(
        outcome_report("crabcheck", "All", &failed),
        "{\"status\":\"failed\",\"tests\":1,\"discards\":0,\"time\":\"1000us\",\"counterexample\":\"x\\ny\",\"error\":null,\"tool\":\"crabcheck\",\"property\":\"All\"}"
    );
    assert_eq!(
        aborted_report("hegel", "All", "boom"),
        "{\"status\":\"aborted\",\"tests\":0,\"discards\":0,\"time\":\"0us\",\"counterexample\":null,\"error\":\"adapter panic: boom\",\"tool\":\"hegel\",\"property\":\"All\"}"
    );
}

/// Reads a JSON string literal back, as a JSON parser would.
fn read_json_string(lit: &str) -> Option<String> {
    let inner = lit.strip_prefix('"')?.strip_suffix('"')?;
    let mut out = String::new();
    let mut chars = inner.chars();
    while let Some(c) = chars.next() {
        match c {
            '\\' => match chars.next()? {
                '"' => out.push('"'),
                '\\' => out.push('\\'),
                '/' => out.push('/'),
                'b' => out.push('\u{8}'),
                'f' => out.push('\u{c}'),
                'n' => out.push('\n'),
                'r' => out.push('\r'),
                't' => out.push('\t'),
                'u' => {
                    let hex: String = (0..4).filter_map(|_| chars.next()).collect();
                    out.push(char::from_u32(u32::from_str_radix(&hex, 16).ok()?)?);
                }
                _ => return None,
            },
            '"' => return None,
            c if (c as u32) < 0x20 => return None,
            c => out.push(c),
        }
    }
    Some(out)
}

#[test]
fn json_strings_read_back() {
    let all_controls: String = (0u32..0x20).map(|c| char::from_u32(c).unwrap()).collect();
    for s in ["", "plain", "a\"b\\c/d", "tab\there\nnew\rline", "é ∑ \u{7f} 😀", all_controls.as_str()] {
        assert_eq!(read_json_string(&json_str(s)), Some(s.to_string()));
    }
}

#[test]
fn run_ends_give_their_status() {
    assert_eq!(run_end_status_of(RunEnd::Passed), Ok(()));
    assert_eq!(
        run_end_status_of(RunEnd::Failed { arguments: vec!["[1, 2]".to_string(), "[3]".to_string()] }),
        Err("([1, 2] [3])".to_string())
    );
    assert_eq!(run_end_status_of(RunEnd::Failed { arguments: Vec::new() }), Err("()".to_string()));
    assert_eq!(run_end_status_of(RunEnd::TimedOut), Err("timed out".to_string()));
    assert_eq!(
        run_end_status_of(RunEnd::GaveUp { passed: 12, discarded: 2000 }),
        Err("gave up: passed=12, discarded=2000".to_string())
    );
    assert_eq!(
        run_end_status_of(RunEnd::Aborted { error: "Some(boom)".to_string() }),
        Err("aborted: Some(boom)".to_string())
    );
}

#[test]
fn both_names_of_the_drop_check_agree() {
    for data in [Vec::new(), b"hello world".to_vec(), vec![7u8; 70_000]] {
        assert_eq!(property_dont_panic_on_drop(data.clone()), PropertyResult::Pass);
        assert_eq!(property_drop_matches_manual_finish(data), PropertyResult::Pass);
    }
}
