use getrandom::error::Error;
use getrandom::reader::{
    capability_from_probe, next_chunk, step, syscall_read_ok, Action, Capability, Event,
    FillState, ProbeOutcome, SourceKind, CHUNK_LIMIT,
};

/// A stand-in for the operating-system boundary: it performs the actions
/// the state machine asks for with configurable outcomes, and counts what
/// was touched.
struct Sim {
    /// What the zero-length probe reports when it runs.
    probe: ProbeOutcome,
    /// Whether opening the fallback device succeeds.
    open_ok: bool,
    /// Whether each chunk read succeeds.
    read_ok: bool,
    /// The process-wide one-shot cache of the capability flag.
    cached: Option<bool>,
    /// How many times the probe actually ran.
    probes: usize,
    /// How many times the device was opened.
    opens: usize,
    /// The lengths of the fast-syscall reads, in order.
    syscall_reads: Vec<usize>,
    /// The lengths of the device reads, in order.
    device_reads: Vec<usize>,
}

impl Sim {
    fn new(probe: ProbeOutcome, open_ok: bool, read_ok: bool) -> Sim {
        Sim {
            probe,
            open_ok,
            read_ok,
            cached: None,
            probes: 0,
            opens: 0,
            syscall_reads: Vec::new(),
            device_reads: Vec::new(),
        }
    }

    fn capability_view(&self) -> Capability {
        match self.cached {
            None => Capability::Unprobed,
            Some(true) => Capability::Available,
            Some(false) => Capability::Unavailable,
        }
    }

    /// One fill request, driven exactly as the native driver drives it:
    /// perform each action, report its outcome as the next event.
    fn fill(&mut self, source: &mut SourceKind, total: usize) -> Result<(), Error> {
        let mut state = FillState::begin(*source, self.capability_view(), total);
        let mut event = Event::Begin;
        loop {
            let (next, action) = step(state, event);
            state = next;
            *source = state.source;
            event = match action {
                Action::DoProbe => {
                    if self.cached.is_none() {
                        self.probes += 1;
                        self.cached = Some(capability_from_probe(self.probe));
                    }
                    Event::CapabilityKnown(self.cached.unwrap())
                }
                Action::DoOpen => {
                    self.opens += 1;
                    Event::Opened(self.open_ok)
                }
                Action::DoReadSyscall(n) => {
                    self.syscall_reads.push(n);
                    Event::ReadDone(self.read_ok)
                }
                Action::DoReadDevice(n) => {
                    self.device_reads.push(n);
                    Event::ReadDone(self.read_ok)
                }
                Action::Succeed => return Ok(()),
                Action::Fail(err) => return Err(err),
            };
        }
    }
}

#[test]
fn fill_is_all_or_nothing() {
    for total in [0usize, 1, 31, 1024, 1025, 4096] {
        let mut sim = Sim::new(ProbeOutcome::Success, true, true);
        let mut source = SourceKind::Unresolved;
        assert_eq!(sim.fill(&mut source, total), Ok(()));
        let written: usize = sim.syscall_reads.iter().sum();
        assert_eq!(written, total);
    }
}

#[test]
fn failed_read_reports_unknown() {
    for total in [1usize, 31, 1024, 1025, 4096] {
        let mut sim = Sim::new(ProbeOutcome::Success, true, false);
        let mut source = SourceKind::Unresolved;
        assert_eq!(sim.fill(&mut source, total), Err(Error::Unknown));
    }
}

#[test]
fn probe_runs_at_most_once_per_process() {
    let mut sim = Sim::new(ProbeOutcome::Success, true, true);
    let mut source = SourceKind::Unresolved;
    assert_eq!(sim.fill(&mut source, 64), Ok(()));
    assert_eq!(sim.fill(&mut source, 64), Ok(()));
    assert_eq!(sim.probes, 1);
    // A fresh thread has its own unresolved source but sees the cached
    // process-wide flag: still no second probe.
    let mut other_thread_source = SourceKind::Unresolved;
    assert_eq!(sim.fill(&mut other_thread_source, 64), Ok(()));
    assert_eq!(sim.probes, 1);
}

#[test]
fn not_implemented_resolves_to_device_for_every_thread() {
    let mut sim = Sim::new(ProbeOutcome::NotImplemented, true, true);
    let mut source = SourceKind::Unresolved;
    assert_eq!(sim.fill(&mut source, 100), Ok(()));
    assert_eq!(sim.cached, Some(false));
    assert_eq!(source, SourceKind::Device);
    let mut other_thread_source = SourceKind::Unresolved;
    assert_eq!(sim.fill(&mut other_thread_source, 100), Ok(()));
    assert_eq!(other_thread_source, SourceKind::Device);
    assert!(sim.syscall_reads.is_empty());
    assert_eq!(sim.device_reads, vec![100, 100]);
}

#[test]
fn open_failure_is_not_cached() {
    let mut sim = Sim::new(ProbeOutcome::NotImplemented, false, true);
    let mut source = SourceKind::Unresolved;
    assert_eq!(sim.fill(&mut source, 8), Err(Error::Unknown));
    assert_eq!(source, SourceKind::Unresolved);
    // The device becomes available: the next request opens it and
    // succeeds.
    sim.open_ok = true;
    assert_eq!(sim.fill(&mut source, 8), Ok(()));
    assert_eq!(source, SourceKind::Device);
    assert_eq!(sim.opens, 2);
}

#[test]
fn empty_buffer_succeeds_without_touching_any_source() {
    let mut sim = Sim::new(ProbeOutcome::Success, true, true);
    let mut source = SourceKind::Unresolved;
    assert_eq!(sim.fill(&mut source, 0), Ok(()));
    assert_eq!(sim.probes, 0);
    assert_eq!(sim.opens, 0);
    assert!(sim.syscall_reads.is_empty());
    assert!(sim.device_reads.is_empty());
}

#[test]
fn chunks_split_at_the_limit() {
    let mut sim = Sim::new(ProbeOutcome::Success, true, true);
    let mut source = SourceKind::Unresolved;
    assert_eq!(sim.fill(&mut source, 3000), Ok(()));
    assert_eq!(sim.syscall_reads, vec![1024, 1024, 952]);
}

#[test]
fn chunk_lengths_cap_at_the_limit() {
    let s = FillState::begin(SourceKind::FastSyscall, Capability::Available, 4096);
    assert_eq!(next_chunk(s), CHUNK_LIMIT);
    let t = FillState::begin(SourceKind::FastSyscall, Capability::Available, 31);
    assert_eq!(next_chunk(t), 31);
}

#[test]
fn probe_outcomes_keep_the_conservative_bias() {
    assert!(capability_from_probe(ProbeOutcome::Success));
    assert!(!capability_from_probe(ProbeOutcome::NotImplemented));
    // A probe that fails for unrelated reasons still counts as available.
    assert!(capability_from_probe(ProbeOutcome::OtherFailure));
}

#[test]
fn syscall_return_values_are_checked_against_the_request() {
    assert!(syscall_read_ok(5, 5));
    assert!(syscall_read_ok(0, 0));
    assert!(!syscall_read_ok(-1, 5));
    assert!(!syscall_read_ok(4, 5));
    assert!(!syscall_read_ok(1025, 1024));
}
