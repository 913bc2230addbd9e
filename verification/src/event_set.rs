use vstd::prelude::*;

use crate::flags::{PerfEventFlags, FLAG_DISABLED, FLAG_EXCLUDE_HV};
use crate::perf_events::{
    event_type_id, io_state_opcode, prepare_open, EventIOState, EventType,
    PerfEvent, PerfEventAttr, ReadError, CLOSED_FD, PERF_EVENT_ATTR_SIZE, PERF_FORMAT_GROUP,
    PERF_TYPE_HARDWARE,
};

verus! {

/// How many counters one group holds: the leader plus its siblings.
pub const GROUP_SIZE: usize = 8;

/// How many 64-bit words one group-format read returns: a leading
/// count-of-counters word, then one word per grouped counter.
pub const GROUP_READ_WORDS: usize = 9;

/// The byte size of one group-format read.
pub const GROUP_READ_BYTES: usize = 72;

/// Counts of each hardware event over a single counting period,
/// produced atomically by one group read. Plain values with no
/// identity; copied freely.
#[derive(Clone, Copy, Debug, PartialEq, Eq, Structural)]
pub struct EventCounts {
    /// Total CPU cycles; scales with the CPU frequency.
    pub num_cpu_cycles: u64,
    /// Retired instructions.
    pub num_instructions: u64,
    /// Cache accesses, generally of the last-level cache.
    pub num_cache_references: u64,
    /// Cache misses, for a miss rate against `num_cache_references`.
    pub num_cache_misses: u64,
    /// Retired branch instructions.
    pub num_branch_instructions: u64,
    /// Mispredicted branch instructions.
    pub num_branch_misses: u64,
    /// Bus cycles, not to be confused with total cycles.
    pub num_bus_cycles: u64,
    /// Total cycles, not influenced by CPU frequency scaling.
    pub num_ref_cpu_cycles: u64,
}

impl Default for EventCounts {
    /// All counts zero.
    fn default() -> (r: Self)
        ensures
            r == (EventCounts {
                num_cpu_cycles: 0,
                num_instructions: 0,
                num_cache_references: 0,
                num_cache_misses: 0,
                num_branch_instructions: 0,
                num_branch_misses: 0,
                num_bus_cycles: 0,
                num_ref_cpu_cycles: 0,
            }),
    {
        EventCounts {
            num_cpu_cycles: 0,
            num_instructions: 0,
            num_cache_references: 0,
            num_cache_misses: 0,
            num_branch_instructions: 0,
            num_branch_misses: 0,
            num_bus_cycles: 0,
            num_ref_cpu_cycles: 0,
        }
    }
}

impl EventCounts {
    /// Unpacks the words of one group-format read into named counts.
    /// The first word is the kernel-reported number of counters in the
    /// group — structurally required, but not a counter value — and
    /// the remaining words map positionally to the fixed order in
    /// which the group opened its counters.
    pub fn from_read_words(words: &[u64]) -> (r: EventCounts)
        requires
            words@.len() >= GROUP_READ_WORDS,
        ensures
            r.num_cpu_cycles == words@[1],
            r.num_instructions == words@[2],
            r.num_cache_references == words@[3],
            r.num_cache_misses == words@[4],
            r.num_branch_instructions == words@[5],
            r.num_branch_misses == words@[6],
            r.num_bus_cycles == words@[7],
            r.num_ref_cpu_cycles == words@[8],
    {
        EventCounts {
            num_cpu_cycles: words[1],
            num_instructions: words[2],
            num_cache_references: words[3],
            num_cache_misses: words[4],
            num_branch_instructions: words[5],
            num_branch_misses: words[6],
            num_bus_cycles: words[7],
            num_ref_cpu_cycles: words[8],
        }
    }
}

/// The failures of a counter group: both targets left unspecified
/// (rejected before any operating-system call), an open request the
/// operating system refused (carrying its error code, fatal to the
/// whole construction), or a control request it refused (carrying the
/// raw result).
#[derive(Clone, Copy, Debug, PartialEq, Eq, Structural)]
pub enum EventSetError {
    ConfigurationError,
    ResourceOpenFailure(i32),
    ControlFailure(i32),
}

/// A non-fatal misuse report: the operation was refused and nothing
/// changed, but execution continues.
#[derive(Clone, Copy, Debug, PartialEq, Eq, Structural)]
pub enum UsageWarning {
    /// An attempt to disable the group-leader event individually,
    /// which would have stopped the whole group's counting.
    LeaderDisableRejected,
}

/// The event opened at each position of the group, leader first. The
/// positional order is fixed: group reads report counter values in
/// exactly this order.
pub open spec fn group_event_at(k: int) -> EventType {
    if k == 0 {
        EventType::CpuCycles
    } else if k == 1 {
        EventType::Instructions
    } else if k == 2 {
        EventType::CacheReferences
    } else if k == 3 {
        EventType::CacheMisses
    } else if k == 4 {
        EventType::BranchInstructions
    } else if k == 5 {
        EventType::BranchMisses
    } else if k == 6 {
        EventType::BusCycles
    } else {
        EventType::RefCpuCycles
    }
}

/// The behaviour flags each position asks for before the
/// disabled-at-open adjustment: exclude-hypervisor for the leader and
/// the first five siblings, nothing for the bus-cycle and
/// reference-cycle counters.
pub open spec fn group_base_flags(k: int) -> u64 {
    if 0 <= k < 6 {
        FLAG_EXCLUDE_HV
    } else {
        0
    }
}

/// The full descriptor submitted for the counter at position `k` of
/// the group: hardware event class, the record's own byte size, the
/// event identifier for that position, group-format reads requested,
/// the behaviour flags adjusted so that the leader starts disabled and
/// every sibling starts in sync with it, and all unused fields zero.
pub open spec fn group_attr(k: int) -> PerfEventAttr {
    PerfEventAttr {
        type_: PERF_TYPE_HARDWARE,
        size: PERF_EVENT_ATTR_SIZE,
        config: event_type_id(group_event_at(k)),
        sample_period_or_freq: 0,
        sample_type: 0,
        read_format: PERF_FORMAT_GROUP,
        flags: if k == 0 {
            group_base_flags(k) | FLAG_DISABLED
        } else {
            group_base_flags(k) & !FLAG_DISABLED
        },
        wakeup_events_or_watermark: 0,
        bp_type: 0,
        config1: 0,
        config2: 0,
        branch_sample_type: 0,
        sample_regs_user: 0,
        sample_stack_user: 0,
        clockid: 0,
        sample_regs_intr: 0,
        aux_watermark: 0,
        sample_max_stack: 0,
        reserved_2: 0,
    }
}

/// The event opened at position `k` of the group.
pub fn group_event(k: usize) -> (r: EventType)
    requires
        k < GROUP_SIZE,
    ensures
        r == group_event_at(k as int),
{
    if k == 0 {
        EventType::CpuCycles
    } else if k == 1 {
        EventType::Instructions
    } else if k == 2 {
        EventType::CacheReferences
    } else if k == 3 {
        EventType::CacheMisses
    } else if k == 4 {
        EventType::BranchInstructions
    } else if k == 5 {
        EventType::BranchMisses
    } else if k == 6 {
        EventType::BusCycles
    } else {
        EventType::RefCpuCycles
    }
}

/// One open request of a group construction, ready for the
/// operating-system call: the descriptor and the targeting arguments.
#[derive(Clone, Copy, Debug, PartialEq, Eq, Structural)]
pub struct OpenRequest {
    pub attrs: PerfEventAttr,
    pub pid: i32,
    pub cpu: i32,
    pub group_fd: i32,
    pub flags: u64,
}

/// The targeting id handed to the operating system: the specific id,
/// or -1 meaning "all" on that axis.
pub open spec fn target_id(id: Option<u32>) -> i32 {
    match id {
        Some(v) => v as i32,
        None => -1i32,
    }
}

/// An in-progress construction of a counter group. The caller asks for
/// the next open request, performs the operating-system call, and
/// hands the resulting resource id back; when a call fails, the
/// session aborts and surrenders exactly the ids opened so far, so
/// that a partial construction never leaks a resource.
pub struct GroupOpenSession {
    pid: i32,
    cpu: i32,
    fds: Vec<i32>,
}

impl GroupOpenSession {
    /// The process target of every open request of this session.
    pub closed spec fn pid_spec(self) -> i32 {
        self.pid
    }

    /// The CPU target of every open request of this session.
    pub closed spec fn cpu_spec(self) -> i32 {
        self.cpu
    }

    /// The resource ids received so far, in open order (leader first).
    pub closed spec fn opened(self) -> Seq<i32> {
        self.fds@
    }

    /// The session invariant: no more ids than the group holds, and
    /// every received id is a valid open resource.
    pub open spec fn wf(self) -> bool {
        &&& self.opened().len() <= GROUP_SIZE
        &&& forall|k: int| 0 <= k < self.opened().len() ==> #[trigger] self.opened()[k] >= 0
    }

    /// The next open request, or nothing once the whole group is open.
    /// The leader's request carries no group parent; every sibling
    /// request carries the leader's resource id.
    pub fn next_request(&self) -> (r: Option<OpenRequest>)
        requires
            self.wf(),
        ensures
            r is Some <==> self.opened().len() < GROUP_SIZE,
            r matches Some(req) ==> {
                let k = self.opened().len() as int;
                &&& req.attrs == group_attr(k)
                &&& req.pid == self.pid_spec()
                &&& req.cpu == self.cpu_spec()
                &&& req.flags == 0
                &&& req.group_fd == if k == 0 {
                    -1i32
                } else {
                    self.opened()[0]
                }
            },
    {
        let k = self.fds.len();
        if k >= GROUP_SIZE {
            return None;
        }
        let event = group_event(k);
        let base = if k < 6 {
            PerfEventAttr::new(event).with_flags(PerfEventFlags::exclude_hv())
        } else {
            PerfEventAttr::new(event)
        };
        let requested = base.with_perf_format_group();
        let parent = if k == 0 {
            None
        } else {
            Some(self.fds[0])
        };
        let (attrs, group_fd) = prepare_open(requested, parent);
        assert((0u64 | PERF_FORMAT_GROUP) == PERF_FORMAT_GROUP) by (bit_vector);
        assert(attrs == group_attr(k as int));
        Some(OpenRequest { attrs, pid: self.pid, cpu: self.cpu, group_fd, flags: 0 })
    }

    /// Records the resource id that one successful open returned.
    pub fn provide_fd(&mut self, fd: i32)
        requires
            old(self).wf(),
            old(self).opened().len() < GROUP_SIZE,
            fd >= 0,
        ensures
            final(self).wf(),
            final(self).opened() == old(self).opened().push(fd),
            final(self).pid_spec() == old(self).pid_spec(),
            final(self).cpu_spec() == old(self).cpu_spec(),
    {
        self.fds.push(fd);
    }

    /// Abandons the construction after the operating system refused an
    /// open request: the whole construction fails with the refusal's
    /// error code, and the session surrenders, for release, exactly
    /// the resource ids of every counter opened in this attempt — no
    /// more, no fewer — so that nothing leaks.
    pub fn abort(self, os_error: i32) -> (r: (Vec<i32>, EventSetError))
        ensures
            r.0@ == self.opened(),
            r.1 == EventSetError::ResourceOpenFailure(os_error),
    {
        (self.fds, EventSetError::ResourceOpenFailure(os_error))
    }

    /// Seals a fully opened group into a counter set. The handles take
    /// the received ids in open order; the leader starts disarmed (it
    /// was opened disabled) and every sibling starts armed, in sync
    /// with the leader; the group's hardware counting starts stopped.
    pub fn finish(self) -> (r: EventSet)
        requires
            self.wf(),
            self.opened().len() == GROUP_SIZE,
        ensures
            r.wf(),
            r.parent_fd_spec() == self.opened()[0],
            r.fd_of(EventType::CpuCycles) == self.opened()[0],
            r.fd_of(EventType::Instructions) == self.opened()[1],
            r.fd_of(EventType::CacheReferences) == self.opened()[2],
            r.fd_of(EventType::CacheMisses) == self.opened()[3],
            r.fd_of(EventType::BranchInstructions) == self.opened()[4],
            r.fd_of(EventType::BranchMisses) == self.opened()[5],
            r.fd_of(EventType::BusCycles) == self.opened()[6],
            r.fd_of(EventType::RefCpuCycles) == self.opened()[7],
            forall|e: EventType| #[trigger] r.armed_of(e) == (in_group(e)
                && e != EventType::CpuCycles),
            !r.group_enabled_spec(),
    {
        let parent_fd = self.fds[0];
        EventSet {
            parent_fd,
            cpu_cycles: PerfEvent::from_fd(self.fds[0], false),
            instructions: PerfEvent::from_fd(self.fds[1], true),
            cache_references: PerfEvent::from_fd(self.fds[2], true),
            cache_misses: PerfEvent::from_fd(self.fds[3], true),
            branch_instructions: PerfEvent::from_fd(self.fds[4], true),
            branch_misses: PerfEvent::from_fd(self.fds[5], true),
            bus_cycles: PerfEvent::from_fd(self.fds[6], true),
            ref_cpu_cycles: PerfEvent::from_fd(self.fds[7], true),
            group_enabled: false,
        }
    }
}

/// Whether an event class belongs to the fixed group of counters that
/// a counter set opens.
pub open spec fn in_group(event: EventType) -> bool {
    event != EventType::StalledCyclesFrontend && event != EventType::StalledCyclesBackend
}

/// Whether one of the first `i` entries of `events` is `e`.
spec fn hit(events: Seq<EventType>, i: int, e: EventType) -> bool {
    exists|k: int| 0 <= k < i && events[k] == e
}

/// Scanning one more entry of `events` hits exactly the events hit
/// before, plus that entry.
proof fn lemma_hit_step(events: Seq<EventType>, i: int, event: EventType)
    requires
        0 <= i < events.len(),
        events[i] == event,
    ensures
        forall|e: EventType| #[trigger] hit(events, i + 1, e) == (hit(events, i, e) || e
            == event),
{
    assert forall|e: EventType| #[trigger] hit(events, i + 1, e) == (hit(events, i, e) || e
        == event) by {
        if e == event {
            assert(0 <= i < i + 1 && events[i] == e);
            assert(hit(events, i + 1, e));
        } else {
            if hit(events, i, e) {
                let k = choose|k: int| 0 <= k < i && events[k] == e;
                assert(0 <= k < i + 1 && events[k] == e);
                assert(hit(events, i + 1, e));
            }
            if hit(events, i + 1, e) {
                let k = choose|k: int| 0 <= k < i + 1 && events[k] == e;
                assert(0 <= k < i && events[k] == e);
                assert(hit(events, i, e));
            }
        }
    }
}

/// Scanning the whole of `events` hits exactly the events it contains.
proof fn lemma_hit_full(events: Seq<EventType>)
    ensures
        forall|e: EventType| #[trigger] hit(events, events.len() as int, e) == events.contains(e),
{
    assert forall|e: EventType| #[trigger] hit(events, events.len() as int, e) == events.contains(
        e,
    ) by {
        if hit(events, events.len() as int, e) {
            let k = choose|k: int| 0 <= k < events.len() && events[k] == e;
            assert(events[k] == e);
            assert(events.contains(e));
        }
        if events.contains(e) {
            let k = choose|k: int| 0 <= k < events.len() && events[k] == e;
            assert(hit(events, events.len() as int, e));
        }
    }
}

/// Whether two counter sets agree on everything but which events are
/// armed: every handle id, the stored leader id and the counting
/// state.
spec fn members_unchanged_but_armed(a: EventSet, b: EventSet) -> bool {
    &&& b.cpu_cycles.fd_spec() == a.cpu_cycles.fd_spec()
    &&& b.instructions.fd_spec() == a.instructions.fd_spec()
    &&& b.cache_references.fd_spec() == a.cache_references.fd_spec()
    &&& b.cache_misses.fd_spec() == a.cache_misses.fd_spec()
    &&& b.branch_instructions.fd_spec() == a.branch_instructions.fd_spec()
    &&& b.branch_misses.fd_spec() == a.branch_misses.fd_spec()
    &&& b.bus_cycles.fd_spec() == a.bus_cycles.fd_spec()
    &&& b.ref_cpu_cycles.fd_spec() == a.ref_cpu_cycles.fd_spec()
    &&& b.parent_fd == a.parent_fd
    &&& b.group_enabled == a.group_enabled
}

/// What one control request does to the group's hardware counting
/// state when the operating system accepts it: enabling starts it,
/// disabling stops it, refreshing and resetting leave it as it is.
pub open spec fn control_applied(state: EventIOState, enabled: bool) -> bool {
    match state {
        EventIOState::Enable => true,
        EventIOState::Disable => false,
        EventIOState::Refresh => enabled,
        EventIOState::Reset => enabled,
    }
}

/// A set of grouped counter handles sharing one leader. The leader is
/// opened first and is the only handle on which group-level control
/// and reads are performed; siblings inherit the leader's counting
/// state. Arming and disarming individual events only chooses which
/// events are toggled for group formatting — the one mechanism that
/// starts and stops the whole group's hardware counting atomically is
/// a control request against the leader.
pub struct EventSet {
    parent_fd: i32,
    cpu_cycles: PerfEvent,
    instructions: PerfEvent,
    cache_references: PerfEvent,
    cache_misses: PerfEvent,
    branch_instructions: PerfEvent,
    branch_misses: PerfEvent,
    bus_cycles: PerfEvent,
    ref_cpu_cycles: PerfEvent,
    group_enabled: bool,
}

impl EventSet {
    /// The handle that owns an event's counter. Events outside the
    /// group map to the leader, whose id stands in for them; nothing
    /// is armed or stored for them.
    closed spec fn member(self, event: EventType) -> PerfEvent {
        match event {
            EventType::CpuCycles => self.cpu_cycles,
            EventType::Instructions => self.instructions,
            EventType::CacheReferences => self.cache_references,
            EventType::CacheMisses => self.cache_misses,
            EventType::BranchInstructions => self.branch_instructions,
            EventType::BranchMisses => self.branch_misses,
            EventType::BusCycles => self.bus_cycles,
            EventType::RefCpuCycles => self.ref_cpu_cycles,
            EventType::StalledCyclesFrontend => self.cpu_cycles,
            EventType::StalledCyclesBackend => self.cpu_cycles,
        }
    }

    /// The resource id of the leader, the target of every group-level
    /// control request and read.
    pub closed spec fn parent_fd_spec(self) -> i32 {
        self.parent_fd
    }

    /// Whether the group's hardware counting is currently started, as
    /// far as accepted control requests have driven it.
    pub closed spec fn group_enabled_spec(self) -> bool {
        self.group_enabled
    }

    /// Whether an event of the group is armed for group formatting.
    pub closed spec fn armed_of(self, event: EventType) -> bool {
        in_group(event) && self.member(event).armed_spec()
    }

    /// The resource id of the handle that owns an event's counter.
    pub closed spec fn fd_of(self, event: EventType) -> i32 {
        self.member(event).fd_spec()
    }

    /// The definitional shape of one event's handle, armed state and
    /// id, spelt out per variant so that case reasoning over an
    /// arbitrary event closes.
    proof fn lemma_member_cases(self, e: EventType)
        ensures
            self.armed_of(e) == (in_group(e) && self.member(e).armed_spec()),
            self.fd_of(e) == self.member(e).fd_spec(),
            e == EventType::CpuCycles ==> self.member(e) == self.cpu_cycles,
            e == EventType::Instructions ==> self.member(e) == self.instructions,
            e == EventType::CacheReferences ==> self.member(e) == self.cache_references,
            e == EventType::CacheMisses ==> self.member(e) == self.cache_misses,
            e == EventType::BranchInstructions ==> self.member(e) == self.branch_instructions,
            e == EventType::BranchMisses ==> self.member(e) == self.branch_misses,
            e == EventType::BusCycles ==> self.member(e) == self.bus_cycles,
            e == EventType::RefCpuCycles ==> self.member(e) == self.ref_cpu_cycles,
            e == EventType::StalledCyclesFrontend ==> self.member(e) == self.cpu_cycles
                && !self.armed_of(e),
            e == EventType::StalledCyclesBackend ==> self.member(e) == self.cpu_cycles
                && !self.armed_of(e),
    {
    }

    /// The structural invariant: the stored leader id is the leader
    /// handle's own id, and every handle of the group is open.
    pub open spec fn wf(self) -> bool {
        &&& self.parent_fd_spec() == self.fd_of(EventType::CpuCycles)
        &&& forall|e: EventType| in_group(e) ==> #[trigger] self.fd_of(e) >= 0
    }

    /// Starts the construction of a counter group against the given
    /// targets. Rejected before any operating-system call when both
    /// targets are absent: the request would be ambiguous, and an
    /// all-processes-on-all-CPUs request is always invalid. An absent
    /// target resolves to "all" (-1) on its axis.
    pub fn new(cpu_id: Option<u32>, process_id: Option<u32>) -> (r: Result<
        GroupOpenSession,
        EventSetError,
    >)
        ensures
            r is Err <==> (cpu_id is None && process_id is None),
            r is Err ==> r == Err::<GroupOpenSession, EventSetError>(
                EventSetError::ConfigurationError,
            ),
            r matches Ok(s) ==> {
                &&& s.wf()
                &&& s.opened().len() == 0
                &&& s.cpu_spec() == target_id(cpu_id)
                &&& s.pid_spec() == target_id(process_id)
            },
    {
        if cpu_id.is_none() && process_id.is_none() {
            return Err(EventSetError::ConfigurationError);
        }
        let cpu = match cpu_id {
            Some(id) => #[verifier::truncate] (id as i32),
            None => -1,
        };
        let pid = match process_id {
            Some(id) => #[verifier::truncate] (id as i32),
            None => -1,
        };
        Ok(GroupOpenSession { pid, cpu, fds: Vec::new() })
    }

    /// Arms each listed event for group formatting, leaving every
    /// other event, every handle, and the group's counting state as
    /// they were. Events outside the group are ignored.
    pub fn enable(&mut self, events: &[EventType])
        ensures
            forall|e: EventType| final(self).armed_of(e) == (#[trigger] old(self).armed_of(e)
                || (in_group(e) && events@.contains(e))),
            forall|e: EventType| final(self).fd_of(e) == #[trigger] old(self).fd_of(e),
            final(self).parent_fd_spec() == old(self).parent_fd_spec(),
            final(self).group_enabled_spec() == old(self).group_enabled_spec(),
    {
        let ghost snap = *old(self);
        let n = events.len();
        let mut i: usize = 0;
        while i < n
            invariant
                n == events@.len(),
                i <= n,
                self.cpu_cycles.armed_spec() == (snap.cpu_cycles.armed_spec() || hit(
                    events@,
                    i as int,
                    EventType::CpuCycles,
                )),
                self.instructions.armed_spec() == (snap.instructions.armed_spec() || hit(
                    events@,
                    i as int,
                    EventType::Instructions,
                )),
                self.cache_references.armed_spec() == (snap.cache_references.armed_spec() || hit(
                    events@,
                    i as int,
                    EventType::CacheReferences,
                )),
                self.cache_misses.armed_spec() == (snap.cache_misses.armed_spec() || hit(
                    events@,
                    i as int,
                    EventType::CacheMisses,
                )),
                self.branch_instructions.armed_spec() == (snap.branch_instructions.armed_spec()
                    || hit(events@, i as int, EventType::BranchInstructions)),
                self.branch_misses.armed_spec() == (snap.branch_misses.armed_spec() || hit(
                    events@,
                    i as int,
                    EventType::BranchMisses,
                )),
                self.bus_cycles.armed_spec() == (snap.bus_cycles.armed_spec() || hit(
                    events@,
                    i as int,
                    EventType::BusCycles,
                )),
                self.ref_cpu_cycles.armed_spec() == (snap.ref_cpu_cycles.armed_spec() || hit(
                    events@,
                    i as int,
                    EventType::RefCpuCycles,
                )),
                members_unchanged_but_armed(snap, *self),
            decreases n - i,
        {
            let event = events[i];
            proof {
                lemma_hit_step(events@, i as int, event);
            }
            match event {
                EventType::BranchInstructions => {
                    let _ = self.branch_instructions.enable();
                },
                EventType::BranchMisses => {
                    let _ = self.branch_misses.enable();
                },
                EventType::BusCycles => {
                    let _ = self.bus_cycles.enable();
                },
                EventType::CacheMisses => {
                    let _ = self.cache_misses.enable();
                },
                EventType::CacheReferences => {
                    let _ = self.cache_references.enable();
                },
                EventType::Instructions => {
                    let _ = self.instructions.enable();
                },
                EventType::RefCpuCycles => {
                    let _ = self.ref_cpu_cycles.enable();
                },
                EventType::CpuCycles => {
                    let _ = self.cpu_cycles.enable();
                },
                EventType::StalledCyclesFrontend => {},
                EventType::StalledCyclesBackend => {},
            }
            i = i + 1;
        }
        proof {
            lemma_hit_full(events@);
            assert forall|e: EventType| self.armed_of(e) == (#[trigger] snap.armed_of(e)
                || (in_group(e) && events@.contains(e))) by {
                snap.lemma_member_cases(e);
                self.lemma_member_cases(e);
            }
            assert forall|e: EventType| self.fd_of(e) == #[trigger] snap.fd_of(e) by {
                snap.lemma_member_cases(e);
                self.lemma_member_cases(e);
            }
        }
    }

    /// Disarms each listed event for group formatting — except the
    /// leader event, whose disarming is rejected with a warning and
    /// has no effect, because disabling the leader would stop the
    /// whole group's counting rather than hide one event. Everything
    /// else — every handle and the group's counting state — stays as
    /// it was. One warning is produced for each rejected attempt.
    pub fn disable(&mut self, events: &[EventType]) -> (warnings: Vec<UsageWarning>)
        ensures
            forall|e: EventType| final(self).armed_of(e) == (#[trigger] old(self).armed_of(e)
                && !(e != EventType::CpuCycles && events@.contains(e))),
            forall|e: EventType| final(self).fd_of(e) == #[trigger] old(self).fd_of(e),
            final(self).parent_fd_spec() == old(self).parent_fd_spec(),
            final(self).group_enabled_spec() == old(self).group_enabled_spec(),
            warnings@.len() > 0 <==> events@.contains(EventType::CpuCycles),
            forall|k: int| 0 <= k < warnings@.len() ==> warnings@[k]
                == UsageWarning::LeaderDisableRejected,
    {
        let ghost snap = *old(self);
        let n = events.len();
        let mut warnings: Vec<UsageWarning> = Vec::new();
        let mut i: usize = 0;
        while i < n
            invariant
                n == events@.len(),
                i <= n,
                self.cpu_cycles.armed_spec() == snap.cpu_cycles.armed_spec(),
                self.instructions.armed_spec() == (snap.instructions.armed_spec() && !hit(
                    events@,
                    i as int,
                    EventType::Instructions,
                )),
                self.cache_references.armed_spec() == (snap.cache_references.armed_spec() && !hit(
                    events@,
                    i as int,
                    EventType::CacheReferences,
                )),
                self.cache_misses.armed_spec() == (snap.cache_misses.armed_spec() && !hit(
                    events@,
                    i as int,
                    EventType::CacheMisses,
                )),
                self.branch_instructions.armed_spec() == (snap.branch_instructions.armed_spec()
                    && !hit(events@, i as int, EventType::BranchInstructions)),
                self.branch_misses.armed_spec() == (snap.branch_misses.armed_spec() && !hit(
                    events@,
                    i as int,
                    EventType::BranchMisses,
                )),
                self.bus_cycles.armed_spec() == (snap.bus_cycles.armed_spec() && !hit(
                    events@,
                    i as int,
                    EventType::BusCycles,
                )),
                self.ref_cpu_cycles.armed_spec() == (snap.ref_cpu_cycles.armed_spec() && !hit(
                    events@,
                    i as int,
                    EventType::RefCpuCycles,
                )),
                members_unchanged_but_armed(snap, *self),
                warnings@.len() > 0 <==> hit(events@, i as int, EventType::CpuCycles),
                forall|k: int| 0 <= k < warnings@.len() ==> warnings@[k]
                    == UsageWarning::LeaderDisableRejected,
            decreases n - i,
        {
            let event = events[i];
            proof {
                lemma_hit_step(events@, i as int, event);
            }
            match event {
                EventType::BranchInstructions => {
                    let _ = self.branch_instructions.disable();
                },
                EventType::BranchMisses => {
                    let _ = self.branch_misses.disable();
                },
                EventType::BusCycles => {
                    let _ = self.bus_cycles.disable();
                },
                EventType::CacheMisses => {
                    let _ = self.cache_misses.disable();
                },
                EventType::CacheReferences => {
                    let _ = self.cache_references.disable();
                },
                EventType::Instructions => {
                    let _ = self.instructions.disable();
                },
                EventType::RefCpuCycles => {
                    let _ = self.ref_cpu_cycles.disable();
                },
                EventType::CpuCycles => {
                    warnings.push(UsageWarning::LeaderDisableRejected);
                },
                EventType::StalledCyclesFrontend => {},
                EventType::StalledCyclesBackend => {},
            }
            i = i + 1;
        }
        proof {
            lemma_hit_full(events@);
            assert forall|e: EventType| self.armed_of(e) == (#[trigger] snap.armed_of(e)
                && !(e != EventType::CpuCycles && events@.contains(e))) by {
                snap.lemma_member_cases(e);
                self.lemma_member_cases(e);
            }
            assert forall|e: EventType| self.fd_of(e) == #[trigger] snap.fd_of(e) by {
                snap.lemma_member_cases(e);
                self.lemma_member_cases(e);
            }
        }
        warnings
    }

    /// The group-level control request for one state change: the
    /// leader's resource id and the opcode the state encodes to.
    /// Firing it against the leader is the sole mechanism that starts
    /// or stops the whole group's hardware counting atomically.
    pub fn control_request(&self, state: EventIOState) -> (r: (i32, u64))
        ensures
            r.0 == self.parent_fd_spec(),
            r.1 == io_state_opcode(state),
    {
        (self.parent_fd, state.opcode())
    }

    /// Records the raw result of one group-level control request. A
    /// negative result is a control failure, surfaced to the caller
    /// and leaving the tracked state untouched; otherwise the group's
    /// counting state follows the request.
    pub fn note_control_result(&mut self, state: EventIOState, res: i32) -> (r: Result<
        i32,
        EventSetError,
    >)
        ensures
            res < 0 ==> r == Err::<i32, EventSetError>(EventSetError::ControlFailure(res))
                && *final(self) == *old(self),
            res >= 0 ==> {
                &&& r == Ok::<i32, EventSetError>(res)
                &&& final(self).group_enabled_spec() == control_applied(
                    state,
                    old(self).group_enabled_spec(),
                )
                &&& forall|e: EventType| #[trigger] final(self).armed_of(e)
                    == old(self).armed_of(e)
                &&& forall|e: EventType| #[trigger] final(self).fd_of(e) == old(self).fd_of(e)
                &&& final(self).parent_fd_spec() == old(self).parent_fd_spec()
            },
    {
        if res < 0 {
            Err(EventSetError::ControlFailure(res))
        } else {
            match state {
                EventIOState::Enable => {
                    self.group_enabled = true;
                },
                EventIOState::Disable => {
                    self.group_enabled = false;
                },
                EventIOState::Refresh => {},
                EventIOState::Reset => {},
            }
            Ok(res)
        }
    }

    /// The group read request: the leader's resource id and the byte
    /// count of one group-format read — a leading count-of-counters
    /// word plus one word per counter.
    pub fn read_request(&self) -> (r: (i32, usize))
        ensures
            r.0 == self.parent_fd_spec(),
            r.1 == GROUP_READ_BYTES,
    {
        (self.parent_fd, GROUP_READ_BYTES)
    }

    /// The leader's resource id.
    pub fn parent_fd(&self) -> (r: i32)
        ensures
            r == self.parent_fd_spec(),
    {
        self.parent_fd
    }

    /// Whether an event of the group is armed for group formatting.
    pub fn is_armed(&self, event: EventType) -> (r: bool)
        ensures
            r == self.armed_of(event),
    {
        match event {
            EventType::CpuCycles => self.cpu_cycles.is_armed(),
            EventType::Instructions => self.instructions.is_armed(),
            EventType::CacheReferences => self.cache_references.is_armed(),
            EventType::CacheMisses => self.cache_misses.is_armed(),
            EventType::BranchInstructions => self.branch_instructions.is_armed(),
            EventType::BranchMisses => self.branch_misses.is_armed(),
            EventType::BusCycles => self.bus_cycles.is_armed(),
            EventType::RefCpuCycles => self.ref_cpu_cycles.is_armed(),
            EventType::StalledCyclesFrontend => false,
            EventType::StalledCyclesBackend => false,
        }
    }

    /// Whether the group's hardware counting is currently started, as
    /// far as accepted control requests have driven it.
    pub fn is_group_enabled(&self) -> (r: bool)
        ensures
            r == self.group_enabled_spec(),
    {
        self.group_enabled
    }

    /// Gives up ownership of every resource id of the group, in open
    /// order, for the caller to close — each exactly once — and marks
    /// every handle closed.
    pub fn release_all(&mut self) -> (r: Vec<i32>)
        requires
            old(self).wf(),
        ensures
            r@ == seq![
                old(self).fd_of(EventType::CpuCycles),
                old(self).fd_of(EventType::Instructions),
                old(self).fd_of(EventType::CacheReferences),
                old(self).fd_of(EventType::CacheMisses),
                old(self).fd_of(EventType::BranchInstructions),
                old(self).fd_of(EventType::BranchMisses),
                old(self).fd_of(EventType::BusCycles),
                old(self).fd_of(EventType::RefCpuCycles),
            ],
            forall|e: EventType| #[trigger] final(self).fd_of(e) == CLOSED_FD,
            final(self).parent_fd_spec() == CLOSED_FD,
    {
        let mut r: Vec<i32> = Vec::new();
        let mut fd = self.cpu_cycles.release();
        if let Some(v) = fd {
            r.push(v);
        }
        fd = self.instructions.release();
        if let Some(v) = fd {
            r.push(v);
        }
        fd = self.cache_references.release();
        if let Some(v) = fd {
            r.push(v);
        }
        fd = self.cache_misses.release();
        if let Some(v) = fd {
            r.push(v);
        }
        fd = self.branch_instructions.release();
        if let Some(v) = fd {
            r.push(v);
        }
        fd = self.branch_misses.release();
        if let Some(v) = fd {
            r.push(v);
        }
        fd = self.bus_cycles.release();
        if let Some(v) = fd {
            r.push(v);
        }
        fd = self.ref_cpu_cycles.release();
        if let Some(v) = fd {
            r.push(v);
        }
        self.parent_fd = CLOSED_FD;
        proof {
            assert(r@ =~= seq![
                old(self).fd_of(EventType::CpuCycles),
                old(self).fd_of(EventType::Instructions),
                old(self).fd_of(EventType::CacheReferences),
                old(self).fd_of(EventType::CacheMisses),
                old(self).fd_of(EventType::BranchInstructions),
                old(self).fd_of(EventType::BranchMisses),
                old(self).fd_of(EventType::BusCycles),
                old(self).fd_of(EventType::RefCpuCycles),
            ]);
        }
        r
    }
}

/// Sorts the raw result of one group read: a negative result is an
/// operating-system read failure — the caller must treat it as "no
/// sample this cycle", never as stale data — and anything else means
/// the read buffer holds a fresh snapshot.
pub fn classify_group_read(res: isize) -> (r: Result<(), ReadError>)
    ensures
        res < 0 <==> r is Err,
        res < 0 ==> r == Err::<(), ReadError>(ReadError::OsError),
{
    if res < 0 {
        Err(ReadError::OsError)
    } else {
        Ok(())
    }
}

} // verus!
