//! The process-wide holder of the live session. Every hardware operation goes
//! through it in two steps: `begin` hands out the request to run, `complete`
//! takes back how the run ended. While one request is out, no other is
//! handed out, so runs of the executor never overlap.
use vstd::prelude::*;

use vstd::utf8::{decode_utf8, valid_utf8};

use crate::executor::{classify_outcome, outcome_result, result_view, BridgeError, ErrorView, ProcessOutcome};
use crate::model::{Decimal, PulseBlasterConfig};
use crate::session::{initialize_spec, request_spec, CliRequest, Operation, PulseBlaster, RequestView, SessionView};

verus! {

/// What the holder waits for.
pub enum PendingView {
    /// Nothing is in flight.
    Idle,
    /// The status query of an initialize, for this new session.
    Initialize(SessionView),
    /// An operation on the live session.
    Operation,
}

/// The holder as mathematical values.
pub struct BridgeView {
    pub session: Option<SessionView>,
    pub pending: PendingView,
}

/// The holder as it starts: no session, nothing in flight.
pub open spec fn empty_bridge() -> BridgeView {
    BridgeView { session: None, pending: PendingView::Idle }
}

/// Starting an initialize for session `s`: refused while a request is out;
/// otherwise the status query of `s` goes out, and the live session stays
/// until it succeeds.
pub open spec fn begin_initialize_spec(b: BridgeView, s: SessionView) -> (BridgeView, Result<
    RequestView,
    ErrorView,
>) {
    if b.pending is Idle {
        (
            BridgeView { session: b.session, pending: PendingView::Initialize(s) },
            Ok(initialize_spec(s)),
        )
    } else {
        (b, Err(ErrorView::Busy))
    }
}

/// Starting an operation: refused without a live session, and while a
/// request is out; otherwise its request on the live session goes out.
pub open spec fn begin_spec(b: BridgeView, op: Operation) -> (BridgeView, Result<
    RequestView,
    ErrorView,
>) {
    match b.session {
        None => (b, Err(ErrorView::NotInitialized)),
        Some(s) => if b.pending is Idle {
            (
                BridgeView { session: b.session, pending: PendingView::Operation },
                Ok(request_spec(s, op)),
            )
        } else {
            (b, Err(ErrorView::Busy))
        },
    }
}

/// Ending the request in flight with outcome `o`: the result is the outcome's
/// classification, and a successful initialize makes its session the live
/// one, replacing any earlier.
pub open spec fn complete_spec(b: BridgeView, o: ProcessOutcome) -> (BridgeView, Result<
    Seq<char>,
    ErrorView,
>) {
    let r = outcome_result(o);
    let session = match b.pending {
        PendingView::Initialize(s) => if r is Ok {
            Some(s)
        } else {
            b.session
        },
        _ => b.session,
    };
    (BridgeView { session, pending: PendingView::Idle }, r)
}

enum Pending {
    Idle,
    Initialize(PulseBlaster),
    Operation,
}

/// The holder of at most one live session.
pub struct Bridge {
    session: Option<PulseBlaster>,
    pending: Pending,
}

impl View for Bridge {
    type V = BridgeView;

    closed spec fn view(&self) -> BridgeView {
        BridgeView {
            session: match self.session {
                Some(s) => Some(s@),
                None => None,
            },
            pending: match self.pending {
                Pending::Idle => PendingView::Idle,
                Pending::Initialize(s) => PendingView::Initialize(s@),
                Pending::Operation => PendingView::Operation,
            },
        }
    }
}

/// A request handed out, or the error that kept it back, as mathematical
/// values.
pub open spec fn begun_view(r: Result<CliRequest, BridgeError>) -> Result<RequestView, ErrorView> {
    match r {
        Ok(q) => Ok(q@),
        Err(e) => Err(e@),
    }
}

impl Bridge {
    /// An empty holder.
    pub fn new() -> (r: Bridge)
        ensures
            r@ == empty_bridge(),
    {
        Bridge { session: None, pending: Pending::Idle }
    }

    /// Whether a request is out and waits for `complete`.
    pub fn is_busy(&self) -> (r: bool)
        ensures
            r == !(self@.pending is Idle),
    {
        match self.pending {
            Pending::Idle => false,
            _ => true,
        }
    }

    /// Whether a session is live.
    pub fn is_initialized(&self) -> (r: bool)
        ensures
            r == self@.session is Some,
    {
        self.session.is_some()
    }

    /// Starts an initialize with the board of `config` through `executable`.
    pub fn begin_initialize(&mut self, config: PulseBlasterConfig, executable: String) -> (r: Result<
        CliRequest,
        BridgeError,
    >)
        ensures
            (final(self)@, begun_view(r)) == begin_initialize_spec(
                old(self)@,
                SessionView { config, executable: executable@ },
            ),
    {
        match self.pending {
            Pending::Idle => {
                let pb = PulseBlaster::new(config, executable);
                let q = pb.initialize();
                self.pending = Pending::Initialize(pb);
                Ok(q)
            },
            _ => Err(BridgeError::Busy),
        }
    }

    /// Starts `op` on the live session.
    pub fn begin(&mut self, op: &Operation) -> (r: Result<CliRequest, BridgeError>)
        ensures
            (final(self)@, begun_view(r)) == begin_spec(old(self)@, *op),
    {
        match &self.session {
            None => Err(BridgeError::NotInitialized),
            Some(pb) => {
                match self.pending {
                    Pending::Idle => {
                        let q = pb.request_for(op);
                        self.pending = Pending::Operation;
                        Ok(q)
                    },
                    _ => Err(BridgeError::Busy),
                }
            },
        }
    }

    /// Ends the request in flight with how its run ended.
    pub fn complete(&mut self, outcome: ProcessOutcome) -> (r: Result<String, BridgeError>)
        requires
            !(old(self)@.pending is Idle),
        ensures
            (final(self)@, result_view(r)) == complete_spec(old(self)@, outcome),
    {
        let r = classify_outcome(outcome);
        if let Pending::Initialize(pb) = &self.pending {
            if r.is_ok() {
                self.session = Some(pb.duplicate());
            }
        }
        self.pending = Pending::Idle;
        r
    }
}

/// An operation asked for while no session is live fails with
/// `NotInitialized`, hands out no request, and changes nothing.
pub proof fn operation_without_session_refused(b: BridgeView, op: Operation)
    requires
        b.session is None,
    ensures
        begin_spec(b, op) == (b, Err::<RequestView, ErrorView>(ErrorView::NotInitialized)),
{
}

/// Initializing twice in a row leaves the second session live: every later
/// operation runs on its executor with its board settings.
pub proof fn reinitialize_replaces_session(
    b: BridgeView,
    s1: SessionView,
    o1: ProcessOutcome,
    s2: SessionView,
    o2: ProcessOutcome,
    op: Operation,
)
    requires
        b.pending is Idle,
        outcome_result(o1) is Ok,
        outcome_result(o2) is Ok,
    ensures
        ({
            let b1 = complete_spec(begin_initialize_spec(b, s1).0, o1).0;
            let b2 = complete_spec(begin_initialize_spec(b1, s2).0, o2).0;
            &&& b1.session == Some(s1)
            &&& b2.session == Some(s2)
            &&& begin_spec(b2, op).1 == Ok::<RequestView, ErrorView>(request_spec(s2, op))
        }),
{
}

/// While a request is out, no other is handed out: operations and
/// initializes alike are refused with `Busy` and change nothing. A request is
/// handed out only from an idle holder, and leaves it busy until `complete`.
pub proof fn one_request_in_flight(b: BridgeView, op: Operation, s: SessionView)
    ensures
        !(b.pending is Idle) ==> begin_spec(b, op).0 == b && begin_spec(b, op).1 is Err,
        !(b.pending is Idle) ==> begin_initialize_spec(b, s) == (b, Err::<RequestView, ErrorView>(
            ErrorView::Busy,
        )),
        begin_spec(b, op).1 is Ok ==> b.pending is Idle && !(begin_spec(b, op).0.pending is Idle),
        begin_initialize_spec(b, s).1 is Ok ==> b.pending is Idle && !(begin_initialize_spec(
            b,
            s,
        ).0.pending is Idle),
{
}

/// A program load that the executor accepts, whatever its report says (a
/// warning included), yields that report as a success, and leaves the
/// session ready: a `start` right after it is handed out.
pub proof fn accepted_program_then_start(
    b: BridgeView,
    program: Operation,
    stdout: Vec<u8>,
    stderr: Vec<u8>,
)
    requires
        b.session is Some,
        b.pending is Idle,
        program is Program || program is ProgramPattern,
        valid_utf8(stdout@),
    ensures
        ({
            let o = ProcessOutcome::Exited { success: true, stdout, stderr };
            let (b1, r1) = begin_spec(b, program);
            let (b2, r2) = complete_spec(b1, o);
            &&& r1 == Ok::<RequestView, ErrorView>(request_spec(b.session.unwrap(), program))
            &&& r2 == Ok::<Seq<char>, ErrorView>(decode_utf8(stdout@))
            &&& b2.session == b.session
            &&& begin_spec(b2, Operation::Start).1 == Ok::<RequestView, ErrorView>(
                request_spec(b.session.unwrap(), Operation::Start),
            )
        }),
{
}

/// A wait whose executor exits normally yields the executor's report, such
/// as one that says the hardware has not stopped, never an error: a timeout
/// that runs out is no failure of the bridge.
pub proof fn finished_wait_reports(b: BridgeView, timeout: Decimal, stdout: Vec<u8>, stderr: Vec<u8>)
    requires
        b.session is Some,
        b.pending is Idle,
        valid_utf8(stdout@),
    ensures
        ({
            let o = ProcessOutcome::Exited { success: true, stdout, stderr };
            let (b1, r1) = begin_spec(b, Operation::Wait(timeout));
            let (b2, r2) = complete_spec(b1, o);
            &&& r1 == Ok::<RequestView, ErrorView>(
                request_spec(b.session.unwrap(), Operation::Wait(timeout)),
            )
            &&& r2 == Ok::<Seq<char>, ErrorView>(decode_utf8(stdout@))
            &&& b2 == (BridgeView { session: b.session, pending: PendingView::Idle })
        }),
{
}

} // verus!
