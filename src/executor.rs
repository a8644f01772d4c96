//! What one run of the executor came to, and the errors of the bridge.
use vstd::prelude::*;
use vstd::utf8::{decode_utf8, valid_utf8};

verus! {

/// A failure of a hardware operation. None of them is retried.
#[derive(Clone, Debug)]
pub enum BridgeError {
    /// No candidate executor passed its probe; holds every path tried.
    Resolution(Vec<String>),
    /// The executor was found but could not be started.
    Spawn(String),
    /// Writing to the executor or collecting its output failed.
    Transport(String),
    /// The executor's output was not valid UTF-8.
    Decode,
    /// The executor exited with a failure status; holds its standard error
    /// and its standard output.
    ExecutionFailed { stderr: String, stdout: String },
    /// An operation was asked for before any successful initialize.
    NotInitialized,
    /// Another operation is still in flight.
    Busy,
}

/// How a run of the executor ended, as the caller that ran it saw it.
#[derive(Clone, Debug)]
pub enum ProcessOutcome {
    /// The process could not be started; the system's reason.
    SpawnFailed(String),
    /// The payload could not be written to its input; the system's reason.
    WriteFailed(String),
    /// Waiting for it or reading its output failed; the system's reason.
    WaitFailed(String),
    /// It exited; whether with success, and what it wrote.
    Exited { success: bool, stdout: Vec<u8>, stderr: Vec<u8> },
}

/// The text of `b` with each invalid UTF-8 sequence replaced by U+FFFD.
pub uninterp spec fn lossy_text(b: Seq<u8>) -> Seq<char>;

/// Relies on String::from_utf8: it succeeds exactly on valid UTF-8, with
/// the characters that the bytes encode.
#[verifier::external_body]
fn utf8_string(b: Vec<u8>) -> (r: Option<String>)
    ensures
        r is Some <==> valid_utf8(b@),
        r is Some ==> r.unwrap()@ == decode_utf8(b@),
{
    String::from_utf8(b).ok()
}

/// Relies on String::from_utf8_lossy: valid UTF-8 is decoded as it is, and
/// no bytes give no text.
#[verifier::external_body]
fn utf8_lossy(b: &Vec<u8>) -> (r: String)
    ensures
        r@ == lossy_text(b@),
        valid_utf8(b@) ==> r@ == decode_utf8(b@),
        b@.len() == 0 ==> r@.len() == 0,
{
    String::from_utf8_lossy(b.as_slice()).into_owned()
}

/// What a run of the executor yields: its standard output on success, and
/// otherwise the error that says why.
pub open spec fn outcome_result(o: ProcessOutcome) -> Result<Seq<char>, ErrorView> {
    match o {
        ProcessOutcome::SpawnFailed(e) => Err(ErrorView::Spawn(e@)),
        ProcessOutcome::WriteFailed(e) => Err(ErrorView::Transport(e@)),
        ProcessOutcome::WaitFailed(e) => Err(ErrorView::Transport(e@)),
        ProcessOutcome::Exited { success, stdout, stderr } => {
            if success {
                if valid_utf8(stdout@) {
                    Ok(decode_utf8(stdout@))
                } else {
                    Err(ErrorView::Decode)
                }
            } else {
                Err(
                    ErrorView::ExecutionFailed {
                        stderr: lossy_text(stderr@),
                        stdout: lossy_text(stdout@),
                    },
                )
            }
        },
    }
}

/// A bridge error as mathematical values.
pub enum ErrorView {
    Resolution(Seq<Seq<char>>),
    Spawn(Seq<char>),
    Transport(Seq<char>),
    Decode,
    ExecutionFailed { stderr: Seq<char>, stdout: Seq<char> },
    NotInitialized,
    Busy,
}

impl View for BridgeError {
    type V = ErrorView;

    open spec fn view(&self) -> ErrorView {
        match self {
            BridgeError::Resolution(v) => ErrorView::Resolution(v@.map_values(|s: String| s@)),
            BridgeError::Spawn(e) => ErrorView::Spawn(e@),
            BridgeError::Transport(e) => ErrorView::Transport(e@),
            BridgeError::Decode => ErrorView::Decode,
            BridgeError::ExecutionFailed { stderr, stdout } => ErrorView::ExecutionFailed {
                stderr: stderr@,
                stdout: stdout@,
            },
            BridgeError::NotInitialized => ErrorView::NotInitialized,
            BridgeError::Busy => ErrorView::Busy,
        }
    }
}

/// A result of the bridge as mathematical values.
pub open spec fn result_view(r: Result<String, BridgeError>) -> Result<Seq<char>, ErrorView> {
    match r {
        Ok(s) => Ok(s@),
        Err(e) => Err(e@),
    }
}

/// Classifies one run of the executor: success with UTF-8 output gives that
/// output, whatever it reports inside; everything else is an error that
/// carries the system's reason or the executor's own words.
pub fn classify_outcome(o: ProcessOutcome) -> (r: Result<String, BridgeError>)
    ensures
        result_view(r) == outcome_result(o),
{
    match o {
        ProcessOutcome::SpawnFailed(e) => Err(BridgeError::Spawn(e)),
        ProcessOutcome::WriteFailed(e) => Err(BridgeError::Transport(e)),
        ProcessOutcome::WaitFailed(e) => Err(BridgeError::Transport(e)),
        ProcessOutcome::Exited { success, stdout, stderr } => {
            if success {
                match utf8_string(stdout) {
                    Some(s) => Ok(s),
                    None => Err(BridgeError::Decode),
                }
            } else {
                let err_text = utf8_lossy(&stderr);
                let out_text = utf8_lossy(&stdout);
                Err(BridgeError::ExecutionFailed { stderr: err_text, stdout: out_text })
            }
        },
    }
}

/// `paths`, separated by `", "`.
pub open spec fn paths_text(paths: Seq<Seq<char>>) -> Seq<char>
    decreases paths.len(),
{
    if paths.len() == 0 {
        seq![]
    } else if paths.len() == 1 {
        paths[0]
    } else {
        paths_text(paths.drop_last()) + ", "@ + paths.last()
    }
}

/// The text shown for an error.
pub open spec fn message_text(e: ErrorView) -> Seq<char> {
    match e {
        ErrorView::Resolution(paths) => "Could not locate a working executor; tried: "@ + paths_text(
            paths,
        ),
        ErrorView::Spawn(why) => "Failed to spawn process: "@ + why,
        ErrorView::Transport(why) => "Failed to exchange data with process: "@ + why,
        ErrorView::Decode => "Invalid UTF-8 output"@,
        ErrorView::ExecutionFailed { stderr, stdout } => if stdout.len() == 0 {
            "Command failed: "@ + stderr
        } else {
            "Command failed: "@ + stderr + "\n"@ + stdout
        },
        ErrorView::NotInitialized => "PulseBlaster not initialized"@,
        ErrorView::Busy => "Another hardware operation is in progress"@,
    }
}

fn push_paths(out: &mut String, paths: &Vec<String>)
    ensures
        final(out)@ == old(out)@ + paths_text(paths@.map_values(|s: String| s@)),
{
    let ghost start = out@;
    let ghost all = paths@.map_values(|s: String| s@);
    assert(all.take(0) =~= Seq::<Seq<char>>::empty());
    assert(out@ =~= start + paths_text(all.take(0)));
    let mut i: usize = 0;
    while i < paths.len()
        invariant
            i <= paths.len(),
            all == paths@.map_values(|s: String| s@),
            out@ == start + paths_text(all.take(i as int)),
        decreases paths.len() - i,
    {
        if i > 0 {
            out.append(", ");
        }
        out.append(paths[i].as_str());
        proof {
            let t = all.take(i + 1);
            assert(t.drop_last() =~= all.take(i as int));
            assert(t.last() == paths@[i as int]@);
            assert(out@ =~= start + paths_text(t));
        }
        i = i + 1;
    }
    assert(all.take(paths.len() as int) =~= all);
}

impl BridgeError {
    /// The text shown for this error. A failed search names every path it
    /// tried; a failed run carries the executor's own words.
    pub fn message(&self) -> (r: String)
        ensures
            r@ == message_text(self@),
    {
        match self {
            BridgeError::Resolution(paths) => {
                let mut out = String::from_str("Could not locate a working executor; tried: ");
                push_paths(&mut out, paths);
                out
            },
            BridgeError::Spawn(why) => {
                let mut out = String::from_str("Failed to spawn process: ");
                out.append(why.as_str());
                out
            },
            BridgeError::Transport(why) => {
                let mut out = String::from_str("Failed to exchange data with process: ");
                out.append(why.as_str());
                out
            },
            BridgeError::Decode => String::from_str("Invalid UTF-8 output"),
            BridgeError::ExecutionFailed { stderr, stdout } => {
                let mut out = String::from_str("Command failed: ");
                out.append(stderr.as_str());
                if stdout.unicode_len() > 0 {
                    out.append("\n");
                    out.append(stdout.as_str());
                }
                out
            },
            BridgeError::NotInitialized => String::from_str("PulseBlaster not initialized"),
            BridgeError::Busy => String::from_str("Another hardware operation is in progress"),
        }
    }
}

} // verus!
