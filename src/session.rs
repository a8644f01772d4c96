//! One connection to a board: its settings, the executor found for it, and
//! the request that each hardware operation hands to that executor.
use vstd::prelude::*;

use crate::model::{Decimal, PBInstruction, PulseBlasterConfig, PulsePattern};
use crate::wire::{pattern_payload, pattern_program_text, program_payload, program_text, wait_payload, wait_text};

verus! {

/// One run of the executor: `<executable> <command>`, with the payload, if
/// any, written whole to its standard input.
#[derive(Clone, Debug)]
pub struct CliRequest {
    pub executable: String,
    pub command: String,
    pub payload: Option<String>,
}

/// A request as mathematical values.
pub struct RequestView {
    pub executable: Seq<char>,
    pub command: Seq<char>,
    pub payload: Option<Seq<char>>,
}

impl View for CliRequest {
    type V = RequestView;

    open spec fn view(&self) -> RequestView {
        RequestView {
            executable: self.executable@,
            command: self.command@,
            payload: match self.payload {
                Some(p) => Some(p@),
                None => None,
            },
        }
    }
}

/// A session as mathematical values: the board settings and the executor.
pub struct SessionView {
    pub config: PulseBlasterConfig,
    pub executable: Seq<char>,
}

/// A hardware operation on the live session.
#[derive(Clone, Debug)]
pub enum Operation {
    /// Load a full program, sent whole in one payload.
    Program(Vec<PBInstruction>),
    /// Load a pattern repeated a number of times.
    ProgramPattern(Vec<PulsePattern>, u32),
    Start,
    Stop,
    Reset,
    Status,
    /// Wait until the hardware stops or the timeout, in seconds, runs out.
    Wait(Decimal),
}

/// The request that runs `command` with `payload` on the executor of `s`.
pub open spec fn command_spec(s: SessionView, command: Seq<char>, payload: Option<Seq<char>>) -> RequestView {
    RequestView { executable: s.executable, command, payload }
}

/// The request that carries out `op` on session `s`.
pub open spec fn request_spec(s: SessionView, op: Operation) -> RequestView {
    match op {
        Operation::Program(v) => command_spec(s, "run"@, Some(program_text(s.config, v@))),
        Operation::ProgramPattern(v, n) => command_spec(
            s,
            "run"@,
            Some(pattern_program_text(s.config, v@, n)),
        ),
        Operation::Start => command_spec(s, "start"@, None),
        Operation::Stop => command_spec(s, "stop"@, None),
        Operation::Reset => command_spec(s, "reset"@, None),
        Operation::Status => command_spec(s, "status"@, None),
        Operation::Wait(t) => command_spec(s, "wait"@, Some(wait_text(t))),
    }
}

/// The request that confirms that the executor of `s` answers: a status
/// query.
pub open spec fn initialize_spec(s: SessionView) -> RequestView {
    command_spec(s, "status"@, None)
}

/// A session with one board, through one executor. Both are fixed for its
/// lifetime.
#[derive(Debug)]
pub struct PulseBlaster {
    config: PulseBlasterConfig,
    executable: String,
}

impl View for PulseBlaster {
    type V = SessionView;

    closed spec fn view(&self) -> SessionView {
        SessionView { config: self.config, executable: self.executable@ }
    }
}

impl PulseBlaster {
    /// A session with the board of `config` through `executable`.
    pub fn new(config: PulseBlasterConfig, executable: String) -> (r: Self)
        ensures
            r@ == (SessionView { config, executable: executable@ }),
    {
        PulseBlaster { config, executable }
    }

    /// A second handle on the same board and executor.
    pub fn duplicate(&self) -> (r: PulseBlaster)
        ensures
            r@ == self@,
    {
        PulseBlaster { config: self.config, executable: self.executable.clone() }
    }

    /// The board settings.
    pub fn config(&self) -> (r: PulseBlasterConfig)
        ensures
            r == self@.config,
    {
        self.config
    }

    /// The executor in use.
    pub fn executable(&self) -> (r: &str)
        ensures
            r@ == self@.executable,
    {
        self.executable.as_str()
    }

    /// The request that runs `command` with `payload`.
    pub fn execute_cli_command(&self, command: &str, payload: Option<String>) -> (r: CliRequest)
        ensures
            r@ == command_spec(
                self@,
                command@,
                match payload {
                    Some(p) => Some(p@),
                    None => None,
                },
            ),
    {
        CliRequest {
            executable: self.executable.clone(),
            command: String::from_str(command),
            payload,
        }
    }

    /// The status query that confirms the executor is reachable.
    pub fn initialize(&self) -> (r: CliRequest)
        ensures
            r@ == initialize_spec(self@),
    {
        self.execute_cli_command("status", None)
    }

    /// Loads a full program: board settings and every instruction in one
    /// payload.
    pub fn program_instructions(&self, instructions: &Vec<PBInstruction>) -> (r: CliRequest)
        ensures
            r@ == request_spec(self@, Operation::Program(*instructions)),
    {
        let payload = program_payload(&self.config, instructions);
        self.execute_cli_command("run", Some(payload))
    }

    /// Loads a pattern repeated `repeat` times.
    pub fn program_pattern(&self, patterns: &Vec<PulsePattern>, repeat: u32) -> (r: CliRequest)
        ensures
            r@ == request_spec(self@, Operation::ProgramPattern(*patterns, repeat)),
    {
        let payload = pattern_payload(&self.config, patterns, repeat);
        self.execute_cli_command("run", Some(payload))
    }

    pub fn start(&self) -> (r: CliRequest)
        ensures
            r@ == request_spec(self@, Operation::Start),
    {
        self.execute_cli_command("start", None)
    }

    pub fn stop(&self) -> (r: CliRequest)
        ensures
            r@ == request_spec(self@, Operation::Stop),
    {
        self.execute_cli_command("stop", None)
    }

    pub fn reset(&self) -> (r: CliRequest)
        ensures
            r@ == request_spec(self@, Operation::Reset),
    {
        self.execute_cli_command("reset", None)
    }

    pub fn get_status(&self) -> (r: CliRequest)
        ensures
            r@ == request_spec(self@, Operation::Status),
    {
        self.execute_cli_command("status", None)
    }

    /// Waits, inside the executor, until the hardware stops or `timeout_s`
    /// seconds pass. A timeout that runs out is reported by the executor in
    /// its output, not as a failure.
    pub fn wait_until_stopped(&self, timeout_s: Decimal) -> (r: CliRequest)
        ensures
            r@ == request_spec(self@, Operation::Wait(timeout_s)),
    {
        let payload = wait_payload(timeout_s);
        self.execute_cli_command("wait", Some(payload))
    }

    /// The request that carries out `op`.
    pub fn request_for(&self, op: &Operation) -> (r: CliRequest)
        ensures
            r@ == request_spec(self@, *op),
    {
        match op {
            Operation::Program(v) => self.program_instructions(v),
            Operation::ProgramPattern(v, n) => self.program_pattern(v, *n),
            Operation::Start => self.start(),
            Operation::Stop => self.stop(),
            Operation::Reset => self.reset(),
            Operation::Status => self.get_status(),
            Operation::Wait(t) => self.wait_until_stopped(*t),
        }
    }
}

} // verus!
