//! The JSON payloads handed to the executor.
use vstd::prelude::*;

use crate::json::{
    lemma_nat_text_first,
    bool_text, int_text, nat_text, opt_int_text, parse_string, parse_u32, parse_u32_list,
    push_bool, push_int, push_opt_int, push_str_literal, push_u32_list, quoted, u32_list_text,
};
use crate::model::{Decimal, Flags, FlagsView, PBInstruction, PulseBlasterConfig, PulsePattern};

verus! {

/// Flags as JSON: a number, a string literal or an array of numbers.
pub open spec fn flags_text(f: FlagsView) -> Seq<char> {
    match f {
        FlagsView::Integer(n) => nat_text(n as nat),
        FlagsView::String(s) => quoted(s),
        FlagsView::Array(v) => u32_list_text(v),
    }
}

/// A decimal as a JSON number in exponent form, `<mantissa>e-<scale>`, which
/// the executor always reads as a floating-point value.
pub open spec fn decimal_text(d: Decimal) -> Seq<char> {
    int_text(d.mantissa as int) + "e-"@ + nat_text(d.scale as nat)
}

/// An optional decimal: the number, or `null`.
pub open spec fn opt_decimal_text(d: Option<Decimal>) -> Seq<char> {
    match d {
        Some(x) => decimal_text(x),
        None => "null"@,
    }
}

/// The scalar fields of an instruction after its flags.
pub open spec fn instruction_core_text(i: PBInstruction) -> Seq<char> {
    ",\"opcode\":"@ + quoted(i.opcode@) + ",\"data\":"@ + int_text(i.data as int)
        + ",\"duration\":"@ + decimal_text(i.duration) + ",\"units\":"@ + quoted(i.units@)
}

/// The DDS fields of channel 0.
pub open spec fn dds0_text(i: PBInstruction) -> Seq<char> {
    ",\"freq0\":"@ + opt_int_text(i.freq0) + ",\"phase0\":"@ + opt_int_text(i.phase0)
        + ",\"amp0\":"@ + opt_int_text(i.amp0) + ",\"dds_en0\":"@ + opt_int_text(i.dds_en0)
        + ",\"phase_reset0\":"@ + opt_int_text(i.phase_reset0)
}

/// The DDS fields of channel 1.
pub open spec fn dds1_text(i: PBInstruction) -> Seq<char> {
    ",\"freq1\":"@ + opt_int_text(i.freq1) + ",\"phase1\":"@ + opt_int_text(i.phase1)
        + ",\"amp1\":"@ + opt_int_text(i.amp1) + ",\"dds_en1\":"@ + opt_int_text(i.dds_en1)
        + ",\"phase_reset1\":"@ + opt_int_text(i.phase_reset1)
}

/// One instruction as a JSON object, fields in declaration order and absent
/// DDS fields as `null`.
pub open spec fn instruction_text(i: PBInstruction) -> Seq<char> {
    "{\"flags\":"@ + flags_text(i.flags@) + instruction_core_text(i) + dds0_text(i) + dds1_text(i)
        + "}"@
}

/// One pattern step as a JSON object.
pub open spec fn pattern_text(p: PulsePattern) -> Seq<char> {
    "{\"flags\":"@ + flags_text(p.flags@) + ",\"duration\":"@ + decimal_text(p.duration)
        + ",\"units\":"@ + quoted(p.units@) + "}"@
}

/// The instructions, comma separated.
pub open spec fn instruction_items_text(s: Seq<PBInstruction>) -> Seq<char>
    decreases s.len(),
{
    if s.len() == 0 {
        seq![]
    } else if s.len() == 1 {
        instruction_text(s[0])
    } else {
        instruction_items_text(s.drop_last()) + ","@ + instruction_text(s.last())
    }
}

/// The pattern steps, comma separated.
pub open spec fn pattern_items_text(s: Seq<PulsePattern>) -> Seq<char>
    decreases s.len(),
{
    if s.len() == 0 {
        seq![]
    } else if s.len() == 1 {
        pattern_text(s[0])
    } else {
        pattern_items_text(s.drop_last()) + ","@ + pattern_text(s.last())
    }
}

/// The board settings that open every program payload.
pub open spec fn config_fields_text(c: PulseBlasterConfig) -> Seq<char> {
    "{\"board\":"@ + int_text(c.board as int) + ",\"coreClockMHz\":"@ + opt_decimal_text(
        c.core_clock_mhz,
    ) + ",\"debug\":"@ + bool_text(c.debug)
}

/// The payload of a full program: the board settings and the whole
/// instruction sequence in one object.
pub open spec fn program_text(c: PulseBlasterConfig, s: Seq<PBInstruction>) -> Seq<char> {
    config_fields_text(c) + ",\"program\":["@ + instruction_items_text(s) + "]}"@
}

/// The payload of a pattern program: the board settings, the steps and how
/// many times they repeat.
pub open spec fn pattern_program_text(c: PulseBlasterConfig, s: Seq<PulsePattern>, repeat: u32) -> Seq<
    char,
> {
    config_fields_text(c) + ",\"pattern\":["@ + pattern_items_text(s) + "],\"repeat\":"@ + nat_text(
        repeat as nat,
    ) + "}"@
}

/// The payload of a wait.
pub open spec fn wait_text(timeout: Decimal) -> Seq<char> {
    "{\"timeout_s\":"@ + decimal_text(timeout) + "}"@
}

/// Appends `f` as JSON.
pub fn push_flags(out: &mut String, f: &Flags)
    ensures
        final(out)@ == old(out)@ + flags_text(f@),
{
    match f {
        Flags::Integer(n) => {
            push_int(out, *n as i64);
        },
        Flags::String(s) => {
            push_str_literal(out, s.as_str());
        },
        Flags::Array(v) => {
            push_u32_list(out, v);
        },
    }
}

/// Appends a decimal in exponent form.
pub fn push_decimal(out: &mut String, d: Decimal)
    ensures
        final(out)@ == old(out)@ + decimal_text(d),
{
    let ghost start = out@;
    push_int(out, d.mantissa);
    out.append("e-");
    push_int(out, d.scale as i64);
    assert(out@ =~= start + decimal_text(d));
}

/// Appends an optional decimal, `null` when absent.
pub fn push_opt_decimal(out: &mut String, d: Option<Decimal>)
    ensures
        final(out)@ == old(out)@ + opt_decimal_text(d),
{
    match d {
        Some(x) => push_decimal(out, x),
        None => out.append("null"),
    }
}

fn push_instruction_core(out: &mut String, i: &PBInstruction)
    ensures
        final(out)@ == old(out)@ + instruction_core_text(*i),
{
    let ghost start = out@;
    out.append(",\"opcode\":");
    push_str_literal(out, i.opcode.as_str());
    out.append(",\"data\":");
    push_int(out, i.data as i64);
    out.append(",\"duration\":");
    push_decimal(out, i.duration);
    out.append(",\"units\":");
    push_str_literal(out, i.units.as_str());
    assert(out@ =~= start + instruction_core_text(*i));
}

fn push_dds0(out: &mut String, i: &PBInstruction)
    ensures
        final(out)@ == old(out)@ + dds0_text(*i),
{
    let ghost start = out@;
    out.append(",\"freq0\":");
    push_opt_int(out, i.freq0);
    out.append(",\"phase0\":");
    push_opt_int(out, i.phase0);
    out.append(",\"amp0\":");
    push_opt_int(out, i.amp0);
    out.append(",\"dds_en0\":");
    push_opt_int(out, i.dds_en0);
    out.append(",\"phase_reset0\":");
    push_opt_int(out, i.phase_reset0);
    assert(out@ =~= start + dds0_text(*i));
}

fn push_dds1(out: &mut String, i: &PBInstruction)
    ensures
        final(out)@ == old(out)@ + dds1_text(*i),
{
    let ghost start = out@;
    out.append(",\"freq1\":");
    push_opt_int(out, i.freq1);
    out.append(",\"phase1\":");
    push_opt_int(out, i.phase1);
    out.append(",\"amp1\":");
    push_opt_int(out, i.amp1);
    out.append(",\"dds_en1\":");
    push_opt_int(out, i.dds_en1);
    out.append(",\"phase_reset1\":");
    push_opt_int(out, i.phase_reset1);
    assert(out@ =~= start + dds1_text(*i));
}

/// Appends one instruction as a JSON object.
pub fn push_instruction(out: &mut String, i: &PBInstruction)
    ensures
        final(out)@ == old(out)@ + instruction_text(*i),
{
    let ghost start = out@;
    out.append("{\"flags\":");
    push_flags(out, &i.flags);
    push_instruction_core(out, i);
    push_dds0(out, i);
    push_dds1(out, i);
    out.append("}");
    assert(out@ =~= start + instruction_text(*i));
}

/// Appends one pattern step as a JSON object.
pub fn push_pattern(out: &mut String, p: &PulsePattern)
    ensures
        final(out)@ == old(out)@ + pattern_text(*p),
{
    let ghost start = out@;
    out.append("{\"flags\":");
    push_flags(out, &p.flags);
    out.append(",\"duration\":");
    push_decimal(out, p.duration);
    out.append(",\"units\":");
    push_str_literal(out, p.units.as_str());
    out.append("}");
    assert(out@ =~= start + pattern_text(*p));
}

/// Appends the board settings that open a program payload.
pub fn push_config_fields(out: &mut String, c: &PulseBlasterConfig)
    ensures
        final(out)@ == old(out)@ + config_fields_text(*c),
{
    let ghost start = out@;
    out.append("{\"board\":");
    push_int(out, c.board as i64);
    out.append(",\"coreClockMHz\":");
    push_opt_decimal(out, c.core_clock_mhz);
    out.append(",\"debug\":");
    push_bool(out, c.debug);
    assert(out@ =~= start + config_fields_text(*c));
}

/// The JSON text of flags.
pub fn encode_flags(f: &Flags) -> (r: String)
    ensures
        r@ == flags_text(f@),
{
    let mut out = String::new();
    push_flags(&mut out, f);
    assert(out@ =~= flags_text(f@));
    out
}

/// Reads flags back from their JSON text. The three forms are told apart by
/// the first character: a string literal opens with a quote, an array with a
/// bracket, and a number with a digit. Text that any flags encode to gives
/// those flags back.
pub fn decode_flags(text: &str) -> (r: Option<Flags>)
    ensures
        forall|f: FlagsView| #[trigger] flags_text(f) == text@ ==> r is Some && r.unwrap()@ == f,
{
    proof {
        reveal_strlit("[");
    }
    let n = text.unicode_len();
    if n == 0 {
        proof {
            assert forall|f: FlagsView| #[trigger] flags_text(f) != text@ by {
                if let FlagsView::Integer(k) = f {
                    lemma_nat_text_first(k as nat);
                }
            }
        }
        return None;
    }
    let c = text.get_char(0);
    let r = if c == '"' {
        match parse_string(text) {
            Some(s) => Some(Flags::String(s)),
            None => None,
        }
    } else if c == '[' {
        match parse_u32_list(text) {
            Some(v) => Some(Flags::Array(v)),
            None => None,
        }
    } else {
        match parse_u32(text) {
            Some(k) => Some(Flags::Integer(k)),
            None => None,
        }
    };
    proof {
        assert forall|f: FlagsView| #[trigger] flags_text(f) == text@ implies r is Some
            && r.unwrap()@ == f by {
            match f {
                FlagsView::Integer(k) => {
                    lemma_nat_text_first(k as nat);
                    assert(nat_text(k as nat) == text@);
                },
                FlagsView::String(t) => {
                    assert(quoted(t)[0] == '"');
                    assert(quoted(t) == text@);
                },
                FlagsView::Array(v) => {
                    assert(u32_list_text(v)[0] == '[');
                    assert(u32_list_text(v) == text@);
                },
            }
        }
    }
    r
}

/// The JSON text of one instruction.
pub fn encode_instruction(i: &PBInstruction) -> (r: String)
    ensures
        r@ == instruction_text(*i),
{
    let mut out = String::new();
    push_instruction(&mut out, i);
    assert(out@ =~= instruction_text(*i));
    out
}

/// The payload that loads a full program.
pub fn program_payload(c: &PulseBlasterConfig, s: &Vec<PBInstruction>) -> (r: String)
    ensures
        r@ == program_text(*c, s@),
{
    let mut out = String::new();
    push_config_fields(&mut out, c);
    out.append(",\"program\":[");
    let ghost start = out@;
    assert(out@ =~= start + Seq::<char>::empty());
    let mut k: usize = 0;
    while k < s.len()
        invariant
            k <= s.len(),
            out@ == start + instruction_items_text(s@.take(k as int)),
        decreases s.len() - k,
    {
        if k > 0 {
            out.append(",");
        }
        push_instruction(&mut out, &s[k]);
        proof {
            let t = s@.take(k + 1);
            assert(t.drop_last() =~= s@.take(k as int));
            assert(t.last() == s@[k as int]);
            assert(out@ =~= start + instruction_items_text(t));
        }
        k = k + 1;
    }
    assert(s@.take(s.len() as int) =~= s@);
    out.append("]}");
    assert(out@ =~= program_text(*c, s@));
    out
}

/// The payload that loads a pattern repeated `repeat` times.
pub fn pattern_payload(c: &PulseBlasterConfig, s: &Vec<PulsePattern>, repeat: u32) -> (r: String)
    ensures
        r@ == pattern_program_text(*c, s@, repeat),
{
    let mut out = String::new();
    push_config_fields(&mut out, c);
    out.append(",\"pattern\":[");
    let ghost start = out@;
    assert(out@ =~= start + Seq::<char>::empty());
    let mut k: usize = 0;
    while k < s.len()
        invariant
            k <= s.len(),
            out@ == start + pattern_items_text(s@.take(k as int)),
        decreases s.len() - k,
    {
        if k > 0 {
            out.append(",");
        }
        push_pattern(&mut out, &s[k]);
        proof {
            let t = s@.take(k + 1);
            assert(t.drop_last() =~= s@.take(k as int));
            assert(t.last() == s@[k as int]);
            assert(out@ =~= start + pattern_items_text(t));
        }
        k = k + 1;
    }
    assert(s@.take(s.len() as int) =~= s@);
    out.append("],\"repeat\":");
    push_int(&mut out, repeat as i64);
    out.append("}");
    assert(out@ =~= pattern_program_text(*c, s@, repeat));
    out
}

/// The payload of a wait with the given timeout in seconds.
pub fn wait_payload(timeout: Decimal) -> (r: String)
    ensures
        r@ == wait_text(timeout),
{
    let mut out = String::new();
    out.append("{\"timeout_s\":");
    push_decimal(&mut out, timeout);
    out.append("}");
    assert(out@ =~= wait_text(timeout));
    out
}

} // verus!
