use vstd::prelude::*;

verus! {

/// A decimal number `mantissa * 10^(-scale)`.
///
/// Durations, clock rates and timeouts are carried this way, so that the value
/// handed to the executor is exactly the one the caller wrote.
#[derive(Clone, Copy, Debug, PartialEq, Eq, Structural)]
pub struct Decimal {
    pub mantissa: i64,
    pub scale: u32,
}

impl Decimal {
    /// The whole number `n`.
    pub fn whole(n: i64) -> (r: Decimal)
        ensures
            r.mantissa == n,
            r.scale == 0,
    {
        Decimal { mantissa: n, scale: 0 }
    }

    /// The number `mantissa * 10^(-scale)`.
    pub fn new(mantissa: i64, scale: u32) -> (r: Decimal)
        ensures
            r.mantissa == mantissa,
            r.scale == scale,
    {
        Decimal { mantissa, scale }
    }
}

/// The board a session talks to.
#[derive(Clone, Copy, Debug)]
pub struct PulseBlasterConfig {
    /// Index of the board.
    pub board: i32,
    /// Core clock in MHz, when the caller fixes it.
    pub core_clock_mhz: Option<Decimal>,
    pub debug: bool,
}

/// The output flags of one instruction, in one of three equivalent forms that
/// the executor interprets.
#[derive(Clone, Debug)]
pub enum Flags {
    Integer(u32),
    String(String),
    Array(Vec<u32>),
}

/// What flags hold, as mathematical values.
pub enum FlagsView {
    Integer(u32),
    String(Seq<char>),
    Array(Seq<u32>),
}

impl View for Flags {
    type V = FlagsView;

    open spec fn view(&self) -> FlagsView {
        match self {
            Flags::Integer(n) => FlagsView::Integer(*n),
            Flags::String(s) => FlagsView::String(s@),
            Flags::Array(v) => FlagsView::Array(v@),
        }
    }
}

/// One timed step of a hardware program, with optional DDS settings for two
/// channels.
#[derive(Clone, Debug)]
pub struct PBInstruction {
    pub flags: Flags,
    pub opcode: String,
    pub data: i32,
    pub duration: Decimal,
    pub units: String,
    pub freq0: Option<i32>,
    pub phase0: Option<i32>,
    pub amp0: Option<i32>,
    pub dds_en0: Option<i32>,
    pub phase_reset0: Option<i32>,
    pub freq1: Option<i32>,
    pub phase1: Option<i32>,
    pub amp1: Option<i32>,
    pub dds_en1: Option<i32>,
    pub phase_reset1: Option<i32>,
}

/// A simplified instruction: flags held for a duration, with no opcode and no
/// DDS settings.
#[derive(Clone, Debug)]
pub struct PulsePattern {
    pub flags: Flags,
    pub duration: Decimal,
    pub units: String,
}

impl PBInstruction {
    /// An instruction without DDS settings.
    pub fn basic(flags: Flags, opcode: String, data: i32, duration: Decimal, units: String) -> (r:
        PBInstruction)
        ensures
            r.flags == flags,
            r.opcode == opcode,
            r.data == data,
            r.duration == duration,
            r.units == units,
            r.freq0 is None && r.phase0 is None && r.amp0 is None,
            r.dds_en0 is None && r.phase_reset0 is None,
            r.freq1 is None && r.phase1 is None && r.amp1 is None,
            r.dds_en1 is None && r.phase_reset1 is None,
    {
        PBInstruction {
            flags,
            opcode,
            data,
            duration,
            units,
            freq0: None,
            phase0: None,
            amp0: None,
            dds_en0: None,
            phase_reset0: None,
            freq1: None,
            phase1: None,
            amp1: None,
            dds_en1: None,
            phase_reset1: None,
        }
    }
}

} // verus!
