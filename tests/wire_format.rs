use pulse_bridge::model::{Decimal, Flags, PBInstruction, PulseBlasterConfig, PulsePattern};
use pulse_bridge::wire::{
    decode_flags, encode_flags, encode_instruction, pattern_payload, program_payload, wait_payload,
};

fn same_flags(a: &Flags, b: &Flags) -> bool {
    match (a, b) {
        (Flags::Integer(x), Flags::Integer(y)) => x == y,
        (Flags::String(x), Flags::String(y)) => x == y,
        (Flags::Array(x), Flags::Array(y)) => x == y,
        _ => false,
    }
}

fn round_trip(f: Flags) {
    let text = encode_flags(&f);
    let back = decode_flags(&text).expect("encoded flags decode");
    assert!(same_flags(&f, &back), "{:?} came back as {:?}", f, back);
}

#[test]
fn integer_flags_encode_as_a_number() {
    assert_eq!(encode_flags(&Flags::Integer(0)), "0");
    assert_eq!(encode_flags(&Flags::Integer(4294967295)), "4294967295");
}

#[test]
fn string_flags_encode_as_an_escaped_literal() {
    assert_eq!(encode_flags(&Flags::String("0b1010".to_string())), "\"0b1010\"");
    assert_eq!(
        encode_flags(&Flags::String("a\"b\\c\nd\u{1}".to_string())),
        "\"a\\\"b\\\\c\\nd\\u0001\""
    );
}

#[test]
fn array_flags_encode_as_a_number_array() {
    assert_eq!(encode_flags(&Flags::Array(vec![])), "[]");
    assert_eq!(encode_flags(&Flags::Array(vec![1, 0, 23])), "[1,0,23]");
}

#[test]
fn every_flags_form_round_trips() {
    round_trip(Flags::Integer(0));
    round_trip(Flags::Integer(7));
    round_trip(Flags::Integer(u32::MAX));
    round_trip(Flags::String(String::new()));
    round_trip(Flags::String("7".to_string()));
    round_trip(Flags::String("[1,2]".to_string()));
    round_trip(Flags::String("quote \" back \\ tab \t bell \u{7} é".to_string()));
    round_trip(Flags::Array(vec![]));
    round_trip(Flags::Array(vec![5]));
    round_trip(Flags::Array(vec![0, 1, u32::MAX]));
}

#[test]
fn decoding_keeps_the_three_forms_apart() {
    assert!(matches!(decode_flags("12"), Some(Flags::Integer(12))));
    assert!(matches!(decode_flags("\"12\""), Some(Flags::String(s)) if s == "12"));
    assert!(matches!(decode_flags("[12]"), Some(Flags::Array(v)) if v == vec![12]));
    assert!(decode_flags("").is_none());
    assert!(decode_flags("-1").is_none());
    assert!(decode_flags("\"open").is_none());
}

fn continue_step() -> PBInstruction {
    PBInstruction::basic(
        Flags::Integer(3),
        "CONTINUE".to_string(),
        0,
        Decimal::new(15, 1),
        "us".to_string(),
    )
}

#[test]
fn instruction_encodes_every_field_in_order() {
    let text = encode_instruction(&continue_step());
    assert_eq!(
        text,
        "{\"flags\":3,\"opcode\":\"CONTINUE\",\"data\":0,\"duration\":15e-1,\"units\":\"us\",\
\"freq0\":null,\"phase0\":null,\"amp0\":null,\"dds_en0\":null,\"phase_reset0\":null,\
\"freq1\":null,\"phase1\":null,\"amp1\":null,\"dds_en1\":null,\"phase_reset1\":null}"
    );
}

#[test]
fn dds_fields_and_negative_numbers_are_written() {
    let mut i = PBInstruction::basic(
        Flags::Array(vec![1, 2]),
        "BRANCH".to_string(),
        -4,
        Decimal::new(-25, 0),
        "ns".to_string(),
    );
    i.freq0 = Some(2);
    i.phase_reset1 = Some(-1);
    let text = encode_instruction(&i);
    assert!(text.starts_with("{\"flags\":[1,2],\"opcode\":\"BRANCH\",\"data\":-4,\"duration\":-25e-0,"));
    assert!(text.contains(",\"freq0\":2,"));
    assert!(text.ends_with(",\"phase_reset1\":-1}"));
}

#[test]
fn program_payload_holds_config_and_whole_sequence() {
    let config = PulseBlasterConfig { board: 0, core_clock_mhz: Some(Decimal::whole(500)), debug: false };
    let steps = vec![continue_step(), continue_step()];
    let text = program_payload(&config, &steps);
    let one = encode_instruction(&continue_step());
    assert_eq!(
        text,
        format!(
            "{{\"board\":0,\"coreClockMHz\":500e-0,\"debug\":false,\"program\":[{},{}]}}",
            one, one
        )
    );
}

#[test]
fn empty_program_and_absent_clock() {
    let config = PulseBlasterConfig { board: 2, core_clock_mhz: None, debug: true };
    let text = program_payload(&config, &vec![]);
    assert_eq!(text, "{\"board\":2,\"coreClockMHz\":null,\"debug\":true,\"program\":[]}");
}

#[test]
fn pattern_payload_holds_steps_and_repeat() {
    let config = PulseBlasterConfig { board: 1, core_clock_mhz: None, debug: false };
    let steps = vec![
        PulsePattern { flags: Flags::Integer(1), duration: Decimal::whole(10), units: "ms".to_string() },
        PulsePattern { flags: Flags::String("0x0".to_string()), duration: Decimal::new(5, 2), units: "ms".to_string() },
    ];
    let text = pattern_payload(&config, &steps, 3);
    assert_eq!(
        text,
        "{\"board\":1,\"coreClockMHz\":null,\"debug\":false,\"pattern\":[\
{\"flags\":1,\"duration\":10e-0,\"units\":\"ms\"},\
{\"flags\":\"0x0\",\"duration\":5e-2,\"units\":\"ms\"}],\"repeat\":3}"
    );
}

#[test]
fn wait_payload_passes_the_timeout_through() {
    assert_eq!(wait_payload(Decimal::whole(0)), "{\"timeout_s\":0e-0}");
    assert_eq!(wait_payload(Decimal::new(25, 1)), "{\"timeout_s\":25e-1}");
}

#[test]
fn exponent_form_reads_as_the_intended_number() {
    let v: serde_json::Value = serde_json::from_str("{\"timeout_s\":15e-1}").unwrap();
    assert_eq!(v["timeout_s"].as_f64(), Some(1.5));
    let w: serde_json::Value = serde_json::from_str("500e-0").unwrap();
    assert_eq!(w.as_f64(), Some(500.0));
}
