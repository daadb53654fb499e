use vstd::prelude::*;
use crate::error::Error;

verus! {

/// Largest number of bytes requested from the operating system in one read.
///
/// The fast syscall accepts at most 1024 bytes per call and the fallback
/// device slightly more; the smaller of the two bounds is used uniformly
/// for both paths, for simplicity and safety.
pub const CHUNK_LIMIT: usize = 1024;

/// What the zero-length capability probe reported.
#[derive(Clone, Copy, Debug, PartialEq, Eq, Structural)]
pub enum ProbeOutcome {
    /// The probe call returned success.
    Success,
    /// The probe call failed with the platform's "function not implemented"
    /// code: the fast syscall does not exist on this kernel.
    NotImplemented,
    /// The probe call failed for any other reason.
    OtherFailure,
}

/// The process-wide record of whether the fast entropy syscall exists.
///
/// It is written at most once per process and read-only thereafter.
#[derive(Clone, Copy, Debug, PartialEq, Eq, Structural)]
pub enum Capability {
    /// The probe has not run yet.
    Unprobed,
    /// The fast syscall is present.
    Available,
    /// The fast syscall is missing.
    Unavailable,
}

/// A calling thread's cached entropy source.
///
/// Once a thread resolves to [`SourceKind::FastSyscall`] or
/// [`SourceKind::Device`] it never goes back to
/// [`SourceKind::Unresolved`].
#[derive(Clone, Copy, Debug, PartialEq, Eq, Structural)]
pub enum SourceKind {
    /// No source has been chosen yet.
    Unresolved,
    /// All reads go through the fast entropy syscall.
    FastSyscall,
    /// All reads go through the thread's open handle on the fallback
    /// device.
    Device,
}

/// One report from the operating-system boundary to the state machine.
#[derive(Clone, Copy, Debug, PartialEq, Eq, Structural)]
pub enum Event {
    /// A fill request starts on the current state.
    Begin,
    /// The capability probe finished; the flag is true iff the fast
    /// syscall exists.
    CapabilityKnown(bool),
    /// Opening the fallback device finished; the flag is true iff the
    /// device is now open.
    Opened(bool),
    /// The pending chunk read finished; the flag is true iff the chunk
    /// was filled in full.
    ReadDone(bool),
}

/// What the driver must do next to advance the fill request.
#[derive(Clone, Copy, Debug, PartialEq, Eq, Structural)]
pub enum Action {
    /// Run the zero-length capability probe and report
    /// [`Event::CapabilityKnown`].
    DoProbe,
    /// Open the fallback device and report [`Event::Opened`].
    DoOpen,
    /// Read this many bytes, starting at the first unfilled position,
    /// through the fast syscall, and report [`Event::ReadDone`].
    DoReadSyscall(usize),
    /// Read this many bytes, starting at the first unfilled position,
    /// from the open device handle, and report [`Event::ReadDone`].
    DoReadDevice(usize),
    /// Every byte of the buffer has been filled: return success.
    Succeed,
    /// Abort the fill request and return this error.
    Fail(Error),
}

/// The state a fill request steps through.
///
/// `source` is the calling thread's cached source and `capability` the
/// thread's view of the process-wide capability flag; the driver carries
/// both across calls. `total` is the length of the destination buffer and
/// `filled` the number of bytes already written into it.
#[derive(Clone, Copy, Debug, PartialEq, Eq, Structural)]
pub struct FillState {
    pub source: SourceKind,
    pub capability: Capability,
    pub total: usize,
    pub filled: usize,
}

impl FillState {
    /// No more bytes are recorded as filled than the buffer holds.
    pub open spec fn wf(self) -> bool {
        self.filled <= self.total
    }

    /// The cached source agrees with the capability flag: the fast path is
    /// chosen only when the syscall is present, the device only when it is
    /// missing.
    pub open spec fn consistent(self) -> bool {
        &&& self.source is FastSyscall ==> self.capability is Available
        &&& self.source is Device ==> self.capability is Unavailable
    }

    /// The initial state of a fill request for a buffer of `total` bytes,
    /// on a thread whose cached source and capability view are given.
    pub fn begin(source: SourceKind, capability: Capability, total: usize) -> (s: FillState)
        ensures
            s == (FillState { source, capability, total, filled: 0 }),
            s.wf(),
    {
        FillState { source, capability, total, filled: 0 }
    }
}

/// Length of the next chunk to request: the whole remainder of the buffer,
/// capped at [`CHUNK_LIMIT`].
pub open spec fn spec_next_chunk(s: FillState) -> usize {
    if s.total - s.filled < CHUNK_LIMIT {
        (s.total - s.filled) as usize
    } else {
        CHUNK_LIMIT
    }
}

/// Promote an unresolved source to the fast path when the capability flag
/// allows it; every other state is left as it is.
pub open spec fn spec_resolve(s: FillState) -> FillState {
    if s.source is Unresolved && s.capability is Available {
        FillState { source: SourceKind::FastSyscall, ..s }
    } else {
        s
    }
}

/// The action the machine requests from a given state, once all pure
/// transitions have been applied.
pub open spec fn spec_next_action(s: FillState) -> Action {
    if s.filled >= s.total {
        Action::Succeed
    } else {
        match s.source {
            SourceKind::FastSyscall => Action::DoReadSyscall(spec_next_chunk(s)),
            SourceKind::Device => Action::DoReadDevice(spec_next_chunk(s)),
            SourceKind::Unresolved => match s.capability {
                Capability::Unprobed => Action::DoProbe,
                Capability::Available => Action::DoReadSyscall(spec_next_chunk(s)),
                Capability::Unavailable => Action::DoOpen,
            },
        }
    }
}

/// The transition relation of the fill state machine: the state after
/// processing one event, and the action the driver must perform next.
pub open spec fn spec_step(s: FillState, e: Event) -> (FillState, Action) {
    match e {
        Event::Begin => {
            let s1 = spec_resolve(s);
            (s1, spec_next_action(s1))
        }
        Event::CapabilityKnown(avail) => {
            let s1 = if s.capability is Unprobed {
                FillState {
                    capability: if avail { Capability::Available } else { Capability::Unavailable },
                    ..s
                }
            } else {
                s
            };
            let s2 = spec_resolve(s1);
            (s2, spec_next_action(s2))
        }
        Event::Opened(ok) => {
            if s.source is Unresolved && s.capability is Unavailable {
                if ok {
                    let s1 = FillState { source: SourceKind::Device, ..s };
                    (s1, spec_next_action(s1))
                } else {
                    (s, Action::Fail(Error::Unknown))
                }
            } else {
                let s1 = spec_resolve(s);
                (s1, spec_next_action(s1))
            }
        }
        Event::ReadDone(ok) => {
            if (s.source is FastSyscall || s.source is Device) && s.filled < s.total {
                if ok {
                    let s1 = FillState { filled: (s.filled + spec_next_chunk(s)) as usize, ..s };
                    (s1, spec_next_action(s1))
                } else {
                    (s, Action::Fail(Error::Unknown))
                }
            } else {
                let s1 = spec_resolve(s);
                (s1, spec_next_action(s1))
            }
        }
    }
}

/// Length of the next chunk to request from the operating system.
pub fn next_chunk(s: FillState) -> (n: usize)
    requires
        s.filled < s.total,
    ensures
        n == spec_next_chunk(s),
        1 <= n <= CHUNK_LIMIT,
        n <= s.total - s.filled,
{
    let remaining = s.total - s.filled;
    if remaining < CHUNK_LIMIT {
        remaining
    } else {
        CHUNK_LIMIT
    }
}

/// Promote an unresolved source to the fast path when the capability flag
/// allows it.
fn resolve(s: FillState) -> (r: FillState)
    ensures
        r == spec_resolve(s),
{
    if s.source == SourceKind::Unresolved && s.capability == Capability::Available {
        FillState { source: SourceKind::FastSyscall, ..s }
    } else {
        s
    }
}

/// The action the machine requests from a given state.
pub fn next_action(s: FillState) -> (a: Action)
    requires
        s.wf(),
    ensures
        a == spec_next_action(s),
{
    if s.filled >= s.total {
        Action::Succeed
    } else {
        match s.source {
            SourceKind::FastSyscall => Action::DoReadSyscall(next_chunk(s)),
            SourceKind::Device => Action::DoReadDevice(next_chunk(s)),
            SourceKind::Unresolved => match s.capability {
                Capability::Unprobed => Action::DoProbe,
                Capability::Available => Action::DoReadSyscall(next_chunk(s)),
                Capability::Unavailable => Action::DoOpen,
            },
        }
    }
}

/// Advance a fill request by one report from the operating-system
/// boundary.
///
/// The driver starts a request with [`Event::Begin`] on the state built by
/// [`FillState::begin`], performs each returned action, reports its
/// outcome as the next event, and stops at [`Action::Succeed`] or
/// [`Action::Fail`].
pub fn step(s: FillState, e: Event) -> (r: (FillState, Action))
    requires
        s.wf(),
    ensures
        r == spec_step(s, e),
        r.0.wf(),
{
    match e {
        Event::Begin => {
            let s1 = resolve(s);
            let a = next_action(s1);
            (s1, a)
        }
        Event::CapabilityKnown(avail) => {
            let s1 = if s.capability == Capability::Unprobed {
                FillState {
                    capability: if avail { Capability::Available } else { Capability::Unavailable },
                    ..s
                }
            } else {
                s
            };
            let s2 = resolve(s1);
            let a = next_action(s2);
            (s2, a)
        }
        Event::Opened(ok) => {
            if s.source == SourceKind::Unresolved && s.capability == Capability::Unavailable {
                if ok {
                    let s1 = FillState { source: SourceKind::Device, ..s };
                    let a = next_action(s1);
                    (s1, a)
                } else {
                    (s, Action::Fail(Error::Unknown))
                }
            } else {
                let s1 = resolve(s);
                let a = next_action(s1);
                (s1, a)
            }
        }
        Event::ReadDone(ok) => {
            if (s.source == SourceKind::FastSyscall || s.source == SourceKind::Device)
                && s.filled < s.total
            {
                if ok {
                    let n = next_chunk(s);
                    let s1 = FillState { filled: s.filled + n, ..s };
                    let a = next_action(s1);
                    (s1, a)
                } else {
                    (s, Action::Fail(Error::Unknown))
                }
            } else {
                let s1 = resolve(s);
                let a = next_action(s1);
                (s1, a)
            }
        }
    }
}

/// The lengths of the chunks a buffer of `total` bytes is drained in,
/// once `filled` bytes are already written: each chunk is the remainder
/// capped at [`CHUNK_LIMIT`], and each is filled in full before the next
/// begins.
pub open spec fn chunk_plan(total: int, filled: int) -> Seq<int>
    decreases total - filled,
{
    if filled >= total {
        Seq::empty()
    } else if total - filled < CHUNK_LIMIT {
        seq![total - filled]
    } else {
        seq![CHUNK_LIMIT as int] + chunk_plan(total, filled + CHUNK_LIMIT)
    }
}

/// The state the machine reaches after processing a sequence of events.
pub open spec fn run_state(s: FillState, evs: Seq<Event>) -> FillState
    decreases evs.len(),
{
    if evs.len() == 0 {
        s
    } else {
        run_state(spec_step(s, evs[0]).0, evs.drop_first())
    }
}

/// The actions the machine emits while processing a sequence of events.
pub open spec fn run_actions(s: FillState, evs: Seq<Event>) -> Seq<Action>
    decreases evs.len(),
{
    if evs.len() == 0 {
        Seq::empty()
    } else {
        seq![spec_step(s, evs[0]).1] + run_actions(spec_step(s, evs[0]).0, evs.drop_first())
    }
}

/// How many probe requests a sequence of actions contains.
pub open spec fn count_probes(actions: Seq<Action>) -> nat
    decreases actions.len(),
{
    if actions.len() == 0 {
        0
    } else {
        (if actions[0] == Action::DoProbe { 1nat } else { 0nat }) + count_probes(
            actions.drop_first(),
        )
    }
}

/// The lengths of the reads a sequence of actions requests, over both
/// paths, in order.
pub open spec fn read_lengths(actions: Seq<Action>) -> Seq<int>
    decreases actions.len(),
{
    if actions.len() == 0 {
        Seq::empty()
    } else {
        let rest = read_lengths(actions.drop_first());
        match actions[0] {
            Action::DoReadSyscall(n) => seq![n as int] + rest,
            Action::DoReadDevice(n) => seq![n as int] + rest,
            _ => rest,
        }
    }
}

/// The driver's side of the protocol: whenever the machine asks for the
/// capability probe, the next event reports the probe's result.
pub open spec fn probes_answered(s: FillState, evs: Seq<Event>) -> bool
    decreases evs.len(),
{
    evs.len() == 0 || {
        &&& (spec_step(s, evs[0]).1 == Action::DoProbe && evs.len() > 1 ==> evs[1] is CapabilityKnown)
        &&& probes_answered(spec_step(s, evs[0]).0, evs.drop_first())
    }
}

/// A fill request reports success only when every byte of the buffer has
/// been filled: there is no partial silent success.
pub proof fn lemma_success_means_full(s: FillState, e: Event)
    requires
        s.wf(),
    ensures
        spec_step(s, e).0.wf(),
        spec_step(s, e).1 == Action::Succeed ==> spec_step(s, e).0.filled == spec_step(s, e).0.total,
{
}

/// A probe is requested only while the capability flag is still unwritten,
/// and the flag, once written, is never changed by any event.
pub proof fn lemma_probe_only_when_unprobed(s: FillState, e: Event)
    ensures
        spec_step(s, e).1 == Action::DoProbe ==> s.capability is Unprobed && spec_step(
            s,
            e,
        ).0.capability is Unprobed,
        s.capability !is Unprobed ==> spec_step(s, e).0.capability == s.capability,
{
}

/// A resolved source is terminal: once a thread's source is the fast
/// syscall or the device, every event leaves it exactly as it is.
pub proof fn lemma_source_never_demoted(s: FillState, e: Event)
    ensures
        s.source !is Unresolved ==> spec_step(s, e).0.source == s.source,
{
}

/// Reporting the probe's result while the flag is unwritten resolves the
/// flag accordingly, once and for all.
pub proof fn lemma_capability_known_resolves(s: FillState, avail: bool)
    requires
        s.capability is Unprobed,
    ensures
        spec_step(s, Event::CapabilityKnown(avail)).0.capability == (if avail {
            Capability::Available
        } else {
            Capability::Unavailable
        }),
{
}

/// Each step keeps the cached source in agreement with the capability
/// flag.
pub proof fn lemma_step_preserves_consistent(s: FillState, e: Event)
    requires
        s.consistent(),
    ensures
        spec_step(s, e).0.consistent(),
{
}

/// Failure to open the fallback device aborts the request with the
/// unknown-failure error and leaves the source unresolved, so a later
/// request may try to open the device again — and succeeds in resolving
/// to the device once an open goes through.
pub proof fn lemma_open_failure_not_cached(s: FillState)
    requires
        s.source is Unresolved,
        s.capability is Unavailable,
    ensures
        spec_step(s, Event::Opened(false)) == (s, Action::Fail(Error::Unknown)),
        spec_step(s, Event::Opened(true)).0.source is Device,
{
}

/// A fill request for an empty buffer succeeds at once: no probe, no
/// open and no read is requested.
pub proof fn lemma_empty_buffer_succeeds(s: FillState)
    requires
        s.wf(),
        s.total == 0,
    ensures
        spec_step(s, Event::Begin).1 == Action::Succeed,
{
}

/// Once the capability flag is written, no run of the machine, over any
/// events whatsoever, ever asks for the probe again.
pub proof fn lemma_no_probe_after_capability_known(s: FillState, evs: Seq<Event>)
    requires
        s.capability !is Unprobed,
    ensures
        count_probes(run_actions(s, evs)) == 0,
    decreases evs.len(),
{
    if evs.len() > 0 {
        let s1 = spec_step(s, evs[0]).0;
        lemma_probe_only_when_unprobed(s, evs[0]);
        lemma_no_probe_after_capability_known(s1, evs.drop_first());
        assert(run_actions(s, evs).drop_first() =~= run_actions(s1, evs.drop_first()));
    }
}

/// The platform-capability probe runs at most once: in any run whose
/// driver answers a probe request with the probe's result, the probe is
/// requested at most one time, however many fill requests the events
/// span.
pub proof fn lemma_at_most_one_probe(s: FillState, evs: Seq<Event>)
    requires
        probes_answered(s, evs),
    ensures
        count_probes(run_actions(s, evs)) <= 1,
    decreases evs.len(),
{
    if evs.len() > 0 {
        let s1 = spec_step(s, evs[0]).0;
        let a = spec_step(s, evs[0]).1;
        assert(run_actions(s, evs).drop_first() =~= run_actions(s1, evs.drop_first()));
        if a == Action::DoProbe {
            lemma_probe_only_when_unprobed(s, evs[0]);
            if evs.len() > 1 {
                let s2 = spec_step(s1, evs[1]).0;
                let a1 = spec_step(s1, evs[1]).1;
                lemma_probe_only_when_unprobed(s1, evs[1]);
                assert(evs[1] is CapabilityKnown);
                assert(s2.capability !is Unprobed);
                assert(a1 != Action::DoProbe);
                lemma_no_probe_after_capability_known(s2, evs.drop_first().drop_first());
                assert(run_actions(s1, evs.drop_first()).drop_first() =~= run_actions(
                    s2,
                    evs.drop_first().drop_first(),
                ));
                assert(evs.drop_first()[0] == evs[1]);
                assert(run_actions(s1, evs.drop_first())[0] == a1);
                assert(count_probes(run_actions(s1, evs.drop_first())) == 0);
            } else {
                assert(evs.drop_first() =~= Seq::<Event>::empty());
                assert(count_probes(run_actions(s1, evs.drop_first())) == 0);
            }
            assert(count_probes(run_actions(s, evs)) <= 1);
        } else {
            lemma_at_most_one_probe(s1, evs.drop_first());
        }
    }
}

/// When the capability flag says the fast syscall is missing, it stays
/// that way, and no run of the machine ever requests a probe or a
/// fast-syscall read: every read of every later fill request on the
/// thread goes through the fallback device.
pub proof fn lemma_unavailable_uses_device(s: FillState, evs: Seq<Event>)
    requires
        s.capability is Unavailable,
        s.consistent(),
    ensures
        run_state(s, evs).capability is Unavailable,
        run_state(s, evs).consistent(),
        forall|i: int|
            0 <= i < run_actions(s, evs).len() ==> {
                &&& run_actions(s, evs)[i] != Action::DoProbe
                &&& run_actions(s, evs)[i] !is DoReadSyscall
            },
    decreases evs.len(),
{
    if evs.len() > 0 {
        let s1 = spec_step(s, evs[0]).0;
        lemma_probe_only_when_unprobed(s, evs[0]);
        lemma_step_preserves_consistent(s, evs[0]);
        lemma_unavailable_uses_device(s1, evs.drop_first());
        assert(run_actions(s, evs).drop_first() =~= run_actions(s1, evs.drop_first()));
        assert(spec_step(s, evs[0]).1 !is DoReadSyscall);
        assert forall|i: int| 0 <= i < run_actions(s, evs).len() implies {
            &&& run_actions(s, evs)[i] != Action::DoProbe
            &&& run_actions(s, evs)[i] !is DoReadSyscall
        } by {
            if i > 0 {
                assert(run_actions(s, evs)[i] == run_actions(s1, evs.drop_first())[i - 1]);
            }
        }
    }
}

/// The chunk plan splits off exactly the next chunk the machine requests:
/// its first entry is that chunk's length, and the rest is the plan of
/// the advanced state.
pub proof fn lemma_chunk_plan_unfold(s: FillState)
    requires
        s.wf(),
        s.filled < s.total,
    ensures
        chunk_plan(s.total as int, s.filled as int) == seq![spec_next_chunk(s) as int]
            + chunk_plan(s.total as int, s.filled + spec_next_chunk(s)),
{
    let t = s.total as int;
    let f = s.filled as int;
    let c = spec_next_chunk(s) as int;
    if t - f < CHUNK_LIMIT {
        assert(chunk_plan(t, f + c) == Seq::<int>::empty());
        assert(chunk_plan(t, f) =~= seq![c] + chunk_plan(t, f + c));
    }
}

/// Driving a resolved source with reads that all succeed requests exactly
/// the chunks of the plan, in order, each filled in full before the next
/// begins, and then reports success with the whole buffer filled.
pub proof fn lemma_successful_run_follows_plan(s: FillState, k: nat)
    requires
        s.wf(),
        s.source is FastSyscall || s.source is Device,
        k == chunk_plan(s.total as int, s.filled as int).len(),
    ensures
        ({
            let evs = seq![Event::Begin] + Seq::new(k, |i: int| Event::ReadDone(true));
            &&& read_lengths(run_actions(s, evs)) == chunk_plan(s.total as int, s.filled as int)
            &&& run_actions(s, evs).len() == k + 1
            &&& run_actions(s, evs)[k as int] == Action::Succeed
            &&& run_state(s, evs).filled == run_state(s, evs).total
        }),
    decreases k,
{
    let t = s.total as int;
    let f = s.filled as int;
    let evs = seq![Event::Begin] + Seq::new(k, |i: int| Event::ReadDone(true));
    assert(evs[0] == Event::Begin);
    assert(spec_resolve(s) == s);
    let d = evs.drop_first();
    assert(d =~= Seq::new(k, |i: int| Event::ReadDone(true)));
    let acts = run_actions(s, evs);
    assert(acts == seq![spec_next_action(s)] + run_actions(s, d));
    assert(run_state(s, evs) == run_state(s, d));
    if k == 0 {
        assert(f >= t);
        assert(spec_next_action(s) == Action::Succeed);
        assert(d =~= Seq::<Event>::empty());
        assert(acts =~= seq![Action::Succeed]);
        assert(acts.drop_first() =~= Seq::<Action>::empty());
        assert(read_lengths(acts.drop_first()) == Seq::<int>::empty());
        assert(acts[0] == Action::Succeed);
        assert(read_lengths(acts) == Seq::<int>::empty());
        assert(chunk_plan(t, f) =~= Seq::<int>::empty());
    } else {
        assert(f < t);
        let c = spec_next_chunk(s);
        lemma_chunk_plan_unfold(s);
        let s1 = FillState { filled: (s.filled + c) as usize, ..s };
        assert(d[0] == Event::ReadDone(true));
        assert(spec_step(s, d[0]) == (s1, spec_next_action(s1)));
        let rest = seq![Event::Begin] + Seq::new((k - 1) as nat, |i: int| Event::ReadDone(true));
        assert(d.drop_first() =~= Seq::new((k - 1) as nat, |i: int| Event::ReadDone(true)));
        assert(rest.drop_first() =~= d.drop_first());
        assert(spec_resolve(s1) == s1);
        assert(run_actions(s, d) == seq![spec_next_action(s1)] + run_actions(s1, d.drop_first()));
        assert(run_actions(s1, rest) == seq![spec_next_action(s1)] + run_actions(
            s1,
            rest.drop_first(),
        ));
        assert(run_actions(s, d) == run_actions(s1, rest));
        assert(run_state(s, d) == run_state(s1, d.drop_first()));
        assert(run_state(s1, rest) == run_state(s1, rest.drop_first()));
        assert(run_state(s, d) == run_state(s1, rest));
        assert(chunk_plan(t, s1.filled as int).len() == k - 1);
        lemma_successful_run_follows_plan(s1, (k - 1) as nat);
        assert(acts == seq![spec_next_action(s)] + run_actions(s1, rest));
        assert(acts[0] == spec_next_action(s));
        assert(acts.drop_first() =~= run_actions(s1, rest));
        assert(spec_next_action(s) == if s.source is FastSyscall {
            Action::DoReadSyscall(c)
        } else {
            Action::DoReadDevice(c)
        });
        assert(read_lengths(acts) == seq![c as int] + read_lengths(run_actions(s1, rest)));
        assert(read_lengths(acts) == chunk_plan(t, f));
        assert(acts[k as int] == run_actions(s1, rest)[k - 1]);
    }
}

/// Decide the capability flag from the probe outcome.
///
/// Only the platform's "function not implemented" code means the fast
/// syscall does not exist; success means it does, and any other failure is
/// treated as "available but this particular probe failed for unrelated
/// reasons" — a deliberate conservative bias.
pub fn capability_from_probe(outcome: ProbeOutcome) -> (r: bool)
    ensures
        r == (outcome != ProbeOutcome::NotImplemented),
{
    match outcome {
        ProbeOutcome::Success => true,
        ProbeOutcome::NotImplemented => false,
        ProbeOutcome::OtherFailure => true,
    }
}

/// Whether the fast syscall's raw return value reports a fully satisfied
/// read of `requested` bytes: any error code or short count is a failure.
pub fn syscall_read_ok(ret: i64, requested: usize) -> (r: bool)
    requires
        requested <= i64::MAX,
    ensures
        r == (ret == requested as i64),
{
    ret == requested as i64
}

} // verus!
