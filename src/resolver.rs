//! The search for a working executor: an ordered list of candidate paths,
//! probed one at a time until one is alive.
use vstd::prelude::*;

verus! {

/// What the environment tells about where the application runs. Each part is
/// absent when the host could not say.
#[derive(Clone, Debug)]
pub struct SearchRoots {
    /// The application's resource directory.
    pub resource_dir: Option<String>,
    /// The directory that holds the running executable.
    pub exe_dir: Option<String>,
    /// The current working directory.
    pub cwd: Option<String>,
}

/// `rel` under `base`.
pub open spec fn joined(base: Seq<char>, rel: Seq<char>) -> Seq<char> {
    base + "/"@ + rel
}

/// The candidates under the resource directory.
pub open spec fn resource_candidates(r: Option<String>, name: Seq<char>) -> Seq<Seq<char>> {
    match r {
        Some(d) => seq![joined(d@, "bin/"@ + name)],
        None => seq![],
    }
}

/// The candidates beside the running executable: its `bin` directory, then
/// its own directory.
pub open spec fn exe_dir_candidates(r: Option<String>, name: Seq<char>) -> Seq<Seq<char>> {
    match r {
        Some(d) => seq![joined(d@, "bin/"@ + name), joined(d@, name)],
        None => seq![],
    }
}

/// The candidate under the current working directory.
pub open spec fn cwd_candidates(r: Option<String>, name: Seq<char>) -> Seq<Seq<char>> {
    match r {
        Some(d) => seq![joined(d@, "src-tauri/bin/"@ + name)],
        None => seq![],
    }
}

/// Every candidate, in the order of the search: the bundled copies first,
/// then the development tree relative to the process, then the one under the
/// working directory.
pub open spec fn candidates_spec(roots: SearchRoots, name: Seq<char>) -> Seq<Seq<char>> {
    resource_candidates(roots.resource_dir, name) + exe_dir_candidates(roots.exe_dir, name) + seq![
        "src-tauri/bin/"@ + name,
    ] + cwd_candidates(roots.cwd, name)
}

fn join_path(base: &str, rel: &str) -> (r: String)
    ensures
        r@ == joined(base@, rel@),
{
    let mut s = String::from_str(base);
    s.append("/");
    s.append(rel);
    s
}

fn prefixed(prefix: &str, name: &str) -> (r: String)
    ensures
        r@ == prefix@ + name@,
{
    let mut s = String::from_str(prefix);
    s.append(name);
    s
}

/// The paths to try for the executable `name`, in the order of the search.
pub fn candidate_paths(roots: &SearchRoots, name: &str) -> (r: Vec<String>)
    ensures
        r@.map_values(|s: String| s@) == candidates_spec(*roots, name@),
{
    let mut v: Vec<String> = Vec::new();
    let bin_name = prefixed("bin/", name);
    if let Some(d) = &roots.resource_dir {
        v.push(join_path(d.as_str(), bin_name.as_str()));
    }
    if let Some(d) = &roots.exe_dir {
        v.push(join_path(d.as_str(), bin_name.as_str()));
        v.push(join_path(d.as_str(), name));
    }
    let dev_name = prefixed("src-tauri/bin/", name);
    v.push(dev_name.clone());
    if let Some(d) = &roots.cwd {
        v.push(join_path(d.as_str(), dev_name.as_str()));
    }
    assert(v@.map_values(|s: String| s@) =~= candidates_spec(*roots, name@));
    v
}

/// A copy of `v`, path by path.
fn copy_paths(v: &Vec<String>) -> (r: Vec<String>)
    ensures
        r@.map_values(|s: String| s@) == v@.map_values(|s: String| s@),
{
    let mut r: Vec<String> = Vec::new();
    let mut i: usize = 0;
    while i < v.len()
        invariant
            i <= v.len(),
            r@.map_values(|s: String| s@) == v@.take(i as int).map_values(|s: String| s@),
        decreases v.len() - i,
    {
        r.push(v[i].clone());
        assert(v@.take(i + 1).map_values(|s: String| s@) =~= v@.take(i as int).map_values(
            |s: String| s@,
        ).push(v[i as int]@));
        i = i + 1;
    }
    assert(v@.take(v.len() as int) =~= v@);
    r
}

/// The search as mathematical values: the candidates, how many have been
/// probed, and the one selected, if any.
pub struct ResolverView {
    pub candidates: Seq<Seq<char>>,
    pub probed: nat,
    pub selected: Option<nat>,
}

/// What the search asks for next.
#[derive(Clone, Debug)]
pub enum ResolveStep {
    /// Probe this candidate and report whether it is alive.
    Probe(String),
    /// This candidate passed its probe: use it.
    Found(String),
    /// Every candidate failed; these are the paths that were tried.
    Exhausted(Vec<String>),
}

/// A step as mathematical values.
pub enum StepView {
    Probe(Seq<char>),
    Found(Seq<char>),
    Exhausted(Seq<Seq<char>>),
}

impl View for ResolveStep {
    type V = StepView;

    open spec fn view(&self) -> StepView {
        match self {
            ResolveStep::Probe(s) => StepView::Probe(s@),
            ResolveStep::Found(s) => StepView::Found(s@),
            ResolveStep::Exhausted(v) => StepView::Exhausted(v@.map_values(|s: String| s@)),
        }
    }
}

/// The step that a search in state `s` asks for.
pub open spec fn next_step_spec(s: ResolverView) -> StepView {
    match s.selected {
        Some(i) => StepView::Found(s.candidates[i as int]),
        None => if s.probed < s.candidates.len() {
            StepView::Probe(s.candidates[s.probed as int])
        } else {
            StepView::Exhausted(s.candidates)
        },
    }
}

/// The state after the last probe asked for came back `alive` or not.
pub open spec fn record_spec(s: ResolverView, alive: bool) -> ResolverView {
    ResolverView {
        candidates: s.candidates,
        probed: s.probed + 1,
        selected: if alive {
            Some(s.probed)
        } else {
            None
        },
    }
}

/// Whether a state can still take a probe result.
pub open spec fn awaiting_probe(s: ResolverView) -> bool {
    s.selected is None && s.probed < s.candidates.len()
}

/// The state that the search reaches from `s` when each candidate `i` that
/// it probes answers `alive[i]`.
pub open spec fn drive(s: ResolverView, alive: Seq<bool>) -> ResolverView
    decreases s.candidates.len() - s.probed,
{
    if awaiting_probe(s) {
        drive(record_spec(s, alive[s.probed as int]), alive)
    } else {
        s
    }
}

/// A search over an ordered list of candidates. It stops at the first one
/// that passes its probe and never probes a later one.
pub struct Resolver {
    candidates: Vec<String>,
    probed: usize,
    selected: Option<usize>,
}

impl View for Resolver {
    type V = ResolverView;

    closed spec fn view(&self) -> ResolverView {
        ResolverView {
            candidates: self.candidates@.map_values(|s: String| s@),
            probed: self.probed as nat,
            selected: match self.selected {
                Some(i) => Some(i as nat),
                None => None,
            },
        }
    }
}

impl Resolver {
    /// Whether the fields agree: at most the candidates are probed, and the
    /// selected one is the last one probed.
    pub closed spec fn wf(&self) -> bool {
        &&& self.probed <= self.candidates.len()
        &&& match self.selected {
            Some(i) => i + 1 == self.probed,
            None => true,
        }
    }

    /// A search over `candidates`, in their order, with nothing probed yet.
    pub fn new(candidates: Vec<String>) -> (r: Resolver)
        ensures
            r.wf(),
            r@.candidates == candidates@.map_values(|s: String| s@),
            r@.probed == 0,
            r@.selected is None,
    {
        Resolver { candidates, probed: 0, selected: None }
    }

    /// What to do next: probe the next candidate, use the one found, or give
    /// up with the list of every path tried.
    pub fn next_step(&self) -> (r: ResolveStep)
        requires
            self.wf(),
        ensures
            r@ == next_step_spec(self@),
    {
        match self.selected {
            Some(i) => ResolveStep::Found(self.candidates[i].clone()),
            None => {
                if self.probed < self.candidates.len() {
                    ResolveStep::Probe(self.candidates[self.probed].clone())
                } else {
                    ResolveStep::Exhausted(copy_paths(&self.candidates))
                }
            },
        }
    }

    /// Takes the answer of the probe that `next_step` asked for.
    pub fn record(&mut self, alive: bool)
        requires
            old(self).wf(),
            awaiting_probe(old(self)@),
        ensures
            final(self).wf(),
            final(self)@ == record_spec(old(self)@, alive),
    {
        if alive {
            self.selected = Some(self.probed);
        }
        self.probed = self.probed + 1;
    }

    /// Whether the search still waits for a probe result.
    pub fn is_probing(&self) -> (r: bool)
        requires
            self.wf(),
        ensures
            r == awaiting_probe(self@),
    {
        self.selected.is_none() && self.probed < self.candidates.len()
    }
}

/// When candidate `n` is the first that is alive, the search selects it after
/// exactly `n + 1` probes: every candidate after it is left unprobed.
pub proof fn first_live_candidate_selected(candidates: Seq<Seq<char>>, alive: Seq<bool>, n: nat)
    requires
        alive.len() == candidates.len(),
        n < candidates.len(),
        alive[n as int],
        forall|j: int| 0 <= j < n ==> !alive[j],
    ensures
        ({
            let end = drive(ResolverView { candidates, probed: 0, selected: None }, alive);
            &&& end.selected == Some(n)
            &&& end.probed == n + 1
            &&& next_step_spec(end) == StepView::Found(candidates[n as int])
        }),
{
    lemma_drive_from(ResolverView { candidates, probed: 0, selected: None }, alive, n);
}

proof fn lemma_drive_from(s: ResolverView, alive: Seq<bool>, n: nat)
    requires
        alive.len() == s.candidates.len(),
        n < s.candidates.len(),
        s.probed <= n,
        s.selected is None,
        alive[n as int],
        forall|j: int| s.probed <= j < n ==> !alive[j],
    ensures
        drive(s, alive).selected == Some(n),
        drive(s, alive).probed == n + 1,
        drive(s, alive).candidates == s.candidates,
    decreases n - s.probed,
{
    let t = record_spec(s, alive[s.probed as int]);
    assert(awaiting_probe(s));
    assert(drive(s, alive) == drive(t, alive));
    if s.probed < n {
        lemma_drive_from(t, alive, n);
    } else {
        assert(t.selected == Some(n));
        assert(!awaiting_probe(t));
        assert(drive(t, alive) == t);
    }
}

/// When no candidate is alive, the search probes every one of them and then
/// gives up listing them all.
pub proof fn no_live_candidate_exhausts(candidates: Seq<Seq<char>>, alive: Seq<bool>)
    requires
        alive.len() == candidates.len(),
        forall|j: int| 0 <= j < alive.len() ==> !alive[j],
    ensures
        ({
            let end = drive(ResolverView { candidates, probed: 0, selected: None }, alive);
            &&& end.selected is None
            &&& end.probed == candidates.len()
            &&& next_step_spec(end) == StepView::Exhausted(candidates)
        }),
{
    lemma_drive_dead(ResolverView { candidates, probed: 0, selected: None }, alive);
}

proof fn lemma_drive_dead(s: ResolverView, alive: Seq<bool>)
    requires
        alive.len() == s.candidates.len(),
        s.probed <= s.candidates.len(),
        s.selected is None,
        forall|j: int| 0 <= j < alive.len() ==> !alive[j],
    ensures
        drive(s, alive).selected is None,
        drive(s, alive).probed == s.candidates.len(),
        drive(s, alive).candidates == s.candidates,
    decreases s.candidates.len() - s.probed,
{
    if s.probed < s.candidates.len() {
        lemma_drive_dead(record_spec(s, alive[s.probed as int]), alive);
    }
}

} // verus!
