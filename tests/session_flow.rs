use pulse_bridge::bridge::Bridge;
use pulse_bridge::executor::{classify_outcome, BridgeError, ProcessOutcome};
use pulse_bridge::model::{Decimal, Flags, PBInstruction, PulseBlasterConfig};
use pulse_bridge::resolver::{candidate_paths, ResolveStep, Resolver, SearchRoots};
use pulse_bridge::session::{CliRequest, Operation, PulseBlaster};
use pulse_bridge::wire::program_payload;

fn config(board: i32) -> PulseBlasterConfig {
    PulseBlasterConfig { board, core_clock_mhz: Some(Decimal::whole(500)), debug: false }
}

fn exited(stdout: &str) -> ProcessOutcome {
    ProcessOutcome::Exited { success: true, stdout: stdout.as_bytes().to_vec(), stderr: vec![] }
}

fn all_operations() -> Vec<Operation> {
    vec![
        Operation::Program(vec![]),
        Operation::ProgramPattern(vec![], 1),
        Operation::Start,
        Operation::Stop,
        Operation::Reset,
        Operation::Status,
        Operation::Wait(Decimal::whole(1)),
    ]
}

fn initialized(board: i32, exe: &str) -> Bridge {
    let mut b = Bridge::new();
    let q = b.begin_initialize(config(board), exe.to_string()).unwrap();
    assert_eq!(q.command, "status");
    assert!(q.payload.is_none());
    b.complete(exited("{\"status\":\"success\"}")).unwrap();
    b
}

fn step() -> PBInstruction {
    PBInstruction::basic(Flags::Integer(1), "STOP".to_string(), 0, Decimal::whole(100), "ns".to_string())
}

#[test]
fn search_order_is_bundle_then_development_tree() {
    let roots = SearchRoots {
        resource_dir: Some("/res".to_string()),
        exe_dir: Some("/app".to_string()),
        cwd: Some("/work".to_string()),
    };
    assert_eq!(
        candidate_paths(&roots, "pulseblaster.exe"),
        vec![
            "/res/bin/pulseblaster.exe",
            "/app/bin/pulseblaster.exe",
            "/app/pulseblaster.exe",
            "src-tauri/bin/pulseblaster.exe",
            "/work/src-tauri/bin/pulseblaster.exe",
        ]
    );
    let bare = SearchRoots { resource_dir: None, exe_dir: None, cwd: None };
    assert_eq!(candidate_paths(&bare, "x"), vec!["src-tauri/bin/x"]);
}

#[test]
fn resolver_stops_at_first_live_candidate() {
    let cands: Vec<String> = (0..5).map(|i| format!("/c{}", i)).collect();
    for n in 0..5usize {
        let mut r = Resolver::new(cands.clone());
        let mut probed = vec![];
        loop {
            match r.next_step() {
                ResolveStep::Probe(p) => {
                    let alive = p == cands[n];
                    probed.push(p);
                    r.record(alive);
                }
                ResolveStep::Found(p) => {
                    assert_eq!(p, cands[n]);
                    break;
                }
                ResolveStep::Exhausted(_) => panic!("candidate {} was alive", n),
            }
        }
        assert_eq!(probed, cands[..=n].to_vec());
        assert!(!r.is_probing());
    }
}

#[test]
fn resolver_failure_lists_every_path() {
    let cands = vec!["/a/x".to_string(), "/b/x".to_string()];
    let mut r = Resolver::new(cands.clone());
    while r.is_probing() {
        r.record(false);
    }
    match r.next_step() {
        ResolveStep::Exhausted(tried) => {
            assert_eq!(tried, cands);
            let msg = BridgeError::Resolution(tried).message();
            assert_eq!(msg, "Could not locate a working executor; tried: /a/x, /b/x");
        }
        other => panic!("unexpected {:?}", other),
    }
    assert!(matches!(Resolver::new(vec![]).next_step(), ResolveStep::Exhausted(v) if v.is_empty()));
}

#[test]
fn outcomes_are_classified() {
    assert_eq!(classify_outcome(exited("done")).unwrap(), "done");
    assert!(matches!(
        classify_outcome(ProcessOutcome::SpawnFailed("no such file".to_string())),
        Err(BridgeError::Spawn(s)) if s == "no such file"
    ));
    assert!(matches!(
        classify_outcome(ProcessOutcome::WriteFailed("broken pipe".to_string())),
        Err(BridgeError::Transport(s)) if s == "broken pipe"
    ));
    assert!(matches!(
        classify_outcome(ProcessOutcome::WaitFailed("interrupted".to_string())),
        Err(BridgeError::Transport(_))
    ));
    let bad = ProcessOutcome::Exited { success: true, stdout: vec![0x66, 0xff], stderr: vec![] };
    assert!(matches!(classify_outcome(bad), Err(BridgeError::Decode)));
    let failed = ProcessOutcome::Exited {
        success: false,
        stdout: vec![],
        stderr: b"board 0 not found".to_vec(),
    };
    let e = classify_outcome(failed).unwrap_err();
    assert_eq!(e.message(), "Command failed: board 0 not found");
    let failed_both = ProcessOutcome::Exited {
        success: false,
        stdout: b"partial".to_vec(),
        stderr: vec![b'e', 0xff],
    };
    let e = classify_outcome(failed_both).unwrap_err();
    assert_eq!(e.message(), "Command failed: e\u{fffd}\npartial");
}

#[test]
fn error_messages() {
    assert_eq!(BridgeError::NotInitialized.message(), "PulseBlaster not initialized");
    assert_eq!(BridgeError::Spawn("denied".to_string()).message(), "Failed to spawn process: denied");
    assert_eq!(BridgeError::Decode.message(), "Invalid UTF-8 output");
    assert_eq!(BridgeError::Busy.message(), "Another hardware operation is in progress");
}

#[test]
fn session_requests_name_fixed_commands() {
    let pb = PulseBlaster::new(config(0), "/opt/pb".to_string());
    let check = |q: CliRequest, cmd: &str| {
        assert_eq!(q.executable, "/opt/pb");
        assert_eq!(q.command, cmd);
        assert!(q.payload.is_none());
    };
    check(pb.initialize(), "status");
    check(pb.start(), "start");
    check(pb.stop(), "stop");
    check(pb.reset(), "reset");
    check(pb.get_status(), "status");
    let w = pb.wait_until_stopped(Decimal::whole(0));
    assert_eq!(w.command, "wait");
    assert_eq!(w.payload.as_deref(), Some("{\"timeout_s\":0e-0}"));
    let p = pb.program_instructions(&vec![step()]);
    assert_eq!(p.command, "run");
    assert_eq!(p.payload, Some(program_payload(&config(0), &vec![step()])));
}

#[test]
fn operations_before_initialize_are_refused() {
    let mut b = Bridge::new();
    for op in all_operations() {
        assert!(matches!(b.begin(&op), Err(BridgeError::NotInitialized)));
    }
    assert!(!b.is_busy());
    assert!(!b.is_initialized());
}

#[test]
fn failed_initialize_leaves_no_session() {
    let mut b = Bridge::new();
    b.begin_initialize(config(0), "/x".to_string()).unwrap();
    let r = b.complete(ProcessOutcome::SpawnFailed("not found".to_string()));
    assert!(matches!(r, Err(BridgeError::Spawn(_))));
    assert!(!b.is_initialized());
    assert!(matches!(b.begin(&Operation::Start), Err(BridgeError::NotInitialized)));
}

#[test]
fn second_initialize_replaces_the_session() {
    let mut b = initialized(0, "/first");
    b.begin_initialize(config(7), "/second".to_string()).unwrap();
    b.complete(exited("ok")).unwrap();
    let q = b.begin(&Operation::Program(vec![step()])).unwrap();
    assert_eq!(q.executable, "/second");
    assert!(q.payload.unwrap().starts_with("{\"board\":7,"));
}

#[test]
fn no_second_request_while_one_is_out() {
    let mut b = initialized(0, "/pb");
    let first = b.begin(&Operation::Status).unwrap();
    assert_eq!(first.command, "status");
    assert!(b.is_busy());
    assert!(matches!(b.begin(&Operation::Start), Err(BridgeError::Busy)));
    assert!(matches!(b.begin_initialize(config(1), "/other".to_string()), Err(BridgeError::Busy)));
    b.complete(exited("{}")).unwrap();
    assert!(!b.is_busy());
    let second = b.begin(&Operation::Start).unwrap();
    assert_eq!(second.command, "start");
    assert_eq!(second.executable, "/pb");
}

#[test]
fn warning_program_is_loaded_and_start_follows() {
    let mut b = initialized(0, "/pb");
    let q = b.begin(&Operation::Program(vec![step(), step()])).unwrap();
    assert_eq!(q.command, "run");
    let report = "{\"status\":\"warning\",\"message\":\"loaded\",\"warnings\":[\"last instruction is not STOP\"]}";
    let r = b.complete(exited(report)).unwrap();
    assert_eq!(r, report);
    let v: serde_json::Value = serde_json::from_str(&r).unwrap();
    assert_eq!(v["status"], "warning");
    assert!(!v["warnings"].as_array().unwrap().is_empty());
    assert_eq!(b.begin(&Operation::Start).unwrap().command, "start");
}

#[test]
fn wait_with_zero_timeout_reports_not_stopped() {
    let mut b = initialized(0, "/pb");
    let q = b.begin(&Operation::Wait(Decimal::whole(0))).unwrap();
    assert_eq!(q.command, "wait");
    assert_eq!(q.payload.as_deref(), Some("{\"timeout_s\":0e-0}"));
    let r = b.complete(exited("{\"stopped\": false}")).unwrap();
    assert_eq!(r, "{\"stopped\": false}");
}

#[test]
fn initialize_then_status_end_to_end() {
    let roots = SearchRoots { resource_dir: None, exe_dir: Some("/app".to_string()), cwd: None };
    let cands = candidate_paths(&roots, "pulseblaster.exe");
    let mut r = Resolver::new(cands);
    let exe = loop {
        match r.next_step() {
            ResolveStep::Probe(p) => r.record(p == "src-tauri/bin/pulseblaster.exe"),
            ResolveStep::Found(p) => break p,
            ResolveStep::Exhausted(_) => panic!("not found"),
        }
    };
    let mut b = Bridge::new();
    let cfg = PulseBlasterConfig { board: 0, core_clock_mhz: Some(Decimal::new(5000, 1)), debug: false };
    let q = b.begin_initialize(cfg, exe).unwrap();
    assert_eq!(q.executable, "src-tauri/bin/pulseblaster.exe");
    b.complete(exited("{\"status\":\"success\"}")).unwrap();
    let s = b.begin(&Operation::Status).unwrap();
    assert_eq!(s.command, "status");
    let reply = "{\"status\":\"success\",\"hardware_status\":[0,0,0,1],\"status_message\":\"stopped\"}";
    let out = b.complete(exited(reply)).unwrap();
    let v: serde_json::Value = serde_json::from_str(&out).unwrap();
    assert_eq!(v["status"], "success");
    assert_eq!(v["status_message"], "stopped");
    assert!(v["hardware_status"].is_array());
}
