use vstd::prelude::*;

use crate::flags::{PerfEventFlags, FLAG_DISABLED};

verus! {

/// The attribute type selecting the hardware-event class, fixed by the
/// kernel ABI.
pub const PERF_TYPE_HARDWARE: u32 = 0;

/// The byte size of the counter attribute record, in the revision of
/// the kernel ABI that ends at the maximum-stack-depth field. The
/// record built by this crate must report exactly this size.
pub const PERF_EVENT_ATTR_SIZE: u32 = 112;

/// The read-format bit requesting group reads: one read of the leader
/// returns a counter count followed by every grouped counter's value.
pub const PERF_FORMAT_GROUP: u64 = 1 << 3;

/// Control opcodes for a counter's file handle, encoded by the
/// device-control numbering scheme of the kernel: group `b'$'` (36)
/// in bits 8 and up, the command number in the low byte.
pub const PERF_EVENT_IOC_ENABLE: u64 = 36 << 8;
pub const PERF_EVENT_IOC_DISABLE: u64 = (36 << 8) | 1;
pub const PERF_EVENT_IOC_REFRESH: u64 = (36 << 8) | 2;
pub const PERF_EVENT_IOC_RESET: u64 = (36 << 8) | 3;

/// The control requests that start, stop and refresh counting on a
/// counter file handle.
#[derive(Clone, Copy, Debug, PartialEq, Eq, Structural)]
pub enum EventIOState {
    Enable,
    Disable,
    Refresh,
    Reset,
}

/// The control opcode that a state request encodes to, fixed by the
/// kernel ABI.
pub open spec fn io_state_opcode(state: EventIOState) -> u64 {
    match state {
        EventIOState::Enable => PERF_EVENT_IOC_ENABLE,
        EventIOState::Disable => PERF_EVENT_IOC_DISABLE,
        EventIOState::Refresh => PERF_EVENT_IOC_REFRESH,
        EventIOState::Reset => PERF_EVENT_IOC_RESET,
    }
}

impl EventIOState {
    /// The control opcode for this state request.
    pub fn opcode(self) -> (r: u64)
        ensures
            r == io_state_opcode(self),
    {
        match self {
            EventIOState::Enable => PERF_EVENT_IOC_ENABLE,
            EventIOState::Disable => PERF_EVENT_IOC_DISABLE,
            EventIOState::Refresh => PERF_EVENT_IOC_REFRESH,
            EventIOState::Reset => PERF_EVENT_IOC_RESET,
        }
    }
}

/// The hardware event classes that a counter can be opened for. Each
/// variant maps to a fixed numeric identifier in the kernel's
/// hardware-event taxonomy; the mapping is an external contract and
/// must not be altered.
#[derive(Clone, Copy, Debug, PartialEq, Eq, Structural)]
pub enum EventType {
    CpuCycles,
    Instructions,
    CacheReferences,
    CacheMisses,
    BranchInstructions,
    BranchMisses,
    BusCycles,
    StalledCyclesFrontend,
    StalledCyclesBackend,
    RefCpuCycles,
}

/// The numeric identifier of a hardware event class, fixed by the
/// kernel's hardware-event taxonomy.
pub open spec fn event_type_id(event: EventType) -> u64 {
    match event {
        EventType::CpuCycles => 0,
        EventType::Instructions => 1,
        EventType::CacheReferences => 2,
        EventType::CacheMisses => 3,
        EventType::BranchInstructions => 4,
        EventType::BranchMisses => 5,
        EventType::BusCycles => 6,
        EventType::StalledCyclesFrontend => 7,
        EventType::StalledCyclesBackend => 8,
        EventType::RefCpuCycles => 9,
    }
}

impl EventType {
    /// The numeric identifier of this event class.
    pub fn id(self) -> (r: u64)
        ensures
            r == event_type_id(self),
    {
        match self {
            EventType::CpuCycles => 0,
            EventType::Instructions => 1,
            EventType::CacheReferences => 2,
            EventType::CacheMisses => 3,
            EventType::BranchInstructions => 4,
            EventType::BranchMisses => 5,
            EventType::BusCycles => 6,
            EventType::StalledCyclesFrontend => 7,
            EventType::StalledCyclesBackend => 8,
            EventType::RefCpuCycles => 9,
        }
    }
}

/// The counter attribute record: a fixed-field-order mirror of the
/// kernel's counter-configuration ABI. Every field that this crate
/// does not use is zero by construction. The unverified boundary
/// copies it field for field into the packed record that the open
/// request takes; the field order here must therefore stay exactly as
/// the ABI lays it out.
#[derive(Clone, Copy, Debug, PartialEq, Eq, Structural)]
pub struct PerfEventAttr {
    pub type_: u32,
    pub size: u32,
    pub config: u64,
    pub sample_period_or_freq: u64,
    pub sample_type: u64,
    pub read_format: u64,
    pub flags: u64,
    pub wakeup_events_or_watermark: u32,
    pub bp_type: u32,
    pub config1: u64,
    pub config2: u64,
    pub branch_sample_type: u64,
    pub sample_regs_user: u64,
    pub sample_stack_user: u32,
    pub clockid: i32,
    pub sample_regs_intr: u64,
    pub aux_watermark: u32,
    pub sample_max_stack: u16,
    pub reserved_2: u16,
}

/// Whether every field that the counter engine never configures is
/// zero: the record is never partially initialized.
pub open spec fn unused_fields_zero(attr: PerfEventAttr) -> bool {
    &&& attr.sample_period_or_freq == 0
    &&& attr.sample_type == 0
    &&& attr.wakeup_events_or_watermark == 0
    &&& attr.bp_type == 0
    &&& attr.config1 == 0
    &&& attr.config2 == 0
    &&& attr.branch_sample_type == 0
    &&& attr.sample_regs_user == 0
    &&& attr.sample_stack_user == 0
    &&& attr.clockid == 0
    &&& attr.sample_regs_intr == 0
    &&& attr.aux_watermark == 0
    &&& attr.sample_max_stack == 0
    &&& attr.reserved_2 == 0
}

impl PerfEventAttr {
    /// Builds the descriptor for one hardware event: event class fixed
    /// to hardware, the record size set to the record's own fixed byte
    /// size, the event identifier taken from the event's taxonomy
    /// entry, and every other field zero.
    pub fn new(event: EventType) -> (r: Self)
        ensures
            r.type_ == PERF_TYPE_HARDWARE,
            r.size == PERF_EVENT_ATTR_SIZE,
            r.config == event_type_id(event),
            r.read_format == 0,
            r.flags == 0,
            unused_fields_zero(r),
    {
        PerfEventAttr {
            type_: PERF_TYPE_HARDWARE,
            size: PERF_EVENT_ATTR_SIZE,
            config: event.id(),
            sample_period_or_freq: 0,
            sample_type: 0,
            read_format: 0,
            flags: 0,
            wakeup_events_or_watermark: 0,
            bp_type: 0,
            config1: 0,
            config2: 0,
            branch_sample_type: 0,
            sample_regs_user: 0,
            sample_stack_user: 0,
            clockid: 0,
            sample_regs_intr: 0,
            aux_watermark: 0,
            sample_max_stack: 0,
            reserved_2: 0,
        }
    }

    /// Replaces the behaviour-flags word with the given flag set,
    /// leaving every other field unchanged.
    pub fn with_flags(self, flags: PerfEventFlags) -> (r: Self)
        ensures
            r == (PerfEventAttr { flags: flags.bits_spec(), ..self }),
    {
        PerfEventAttr { flags: flags.bits(), ..self }
    }

    /// Marks the descriptor for group-format reads by setting the
    /// group bit in the read-format word, leaving every other field
    /// unchanged.
    pub fn with_perf_format_group(self) -> (r: Self)
        ensures
            r == (PerfEventAttr { read_format: self.read_format | PERF_FORMAT_GROUP, ..self }),
    {
        PerfEventAttr { read_format: self.read_format | PERF_FORMAT_GROUP, ..self }
    }
}

/// The flags word an open request carries after the automatic
/// disabled-at-open adjustment: a group leader (no parent handle) is
/// forced to start disabled, while a sibling has the disabled flag
/// cleared so that it starts in sync with its leader.
pub open spec fn open_adjusted_flags(flags: u64, parent_fd: Option<i32>) -> u64 {
    match parent_fd {
        Some(_) => flags & !FLAG_DISABLED,
        None => flags | FLAG_DISABLED,
    }
}

/// The group-leader argument an open request carries: the parent's
/// resource id, or -1 when the handle is opened as a leader.
pub open spec fn open_group_fd(parent_fd: Option<i32>) -> i32 {
    match parent_fd {
        Some(p) => p,
        None => -1i32,
    }
}

/// Adjusts a descriptor and picks the group-leader argument for an
/// open request, following the kernel convention of disabling a group
/// leader at open and letting its siblings inherit the leader's state.
pub fn prepare_open(attrs: PerfEventAttr, parent_fd: Option<i32>) -> (r: (PerfEventAttr, i32))
    ensures
        r.0 == (PerfEventAttr { flags: open_adjusted_flags(attrs.flags, parent_fd), ..attrs }),
        r.1 == open_group_fd(parent_fd),
{
    match parent_fd {
        Some(p) => (PerfEventAttr { flags: attrs.flags & !FLAG_DISABLED, ..attrs }, p),
        None => (PerfEventAttr { flags: attrs.flags | FLAG_DISABLED, ..attrs }, -1),
    }
}

/// The sentinel resource id of a handle that is closed or was never
/// opened.
pub const CLOSED_FD: i32 = -1;

/// The byte count of one raw counter value read from a non-grouped
/// handle.
pub const COUNT_READ_BYTES: usize = 8;

/// The distinct ways a raw-count read can fail: the operating system
/// rejected the read, the handle reported end of data, the read
/// returned fewer bytes than one counter value takes, or it returned
/// more (a defensive kind that a well-behaved handle never produces).
#[derive(Clone, Copy, Debug, PartialEq, Eq, Structural)]
pub enum ReadError {
    OsError,
    UnexpectedEof,
    ShortRead,
    OverRead,
}

/// Sorts the raw result of a count read into a value or a failure
/// kind: a negative result is an operating-system error, zero bytes is
/// an unexpected end of data, fewer bytes than one counter value is a
/// short read, exactly one counter value yields the count, and more is
/// the defensive over-read kind.
pub fn classify_count_read(res: isize, count: u64) -> (r: Result<u64, ReadError>)
    ensures
        res < 0 ==> r == Err::<u64, ReadError>(ReadError::OsError),
        res == 0 ==> r == Err::<u64, ReadError>(ReadError::UnexpectedEof),
        0 < res < COUNT_READ_BYTES ==> r == Err::<u64, ReadError>(ReadError::ShortRead),
        res == COUNT_READ_BYTES ==> r == Ok::<u64, ReadError>(count),
        res > COUNT_READ_BYTES ==> r == Err::<u64, ReadError>(ReadError::OverRead),
{
    if res < 0 {
        Err(ReadError::OsError)
    } else if res == 0 {
        Err(ReadError::UnexpectedEof)
    } else if res < COUNT_READ_BYTES as isize {
        Err(ReadError::ShortRead)
    } else if res == COUNT_READ_BYTES as isize {
        Ok(count)
    } else {
        Err(ReadError::OverRead)
    }
}

/// One open counter resource: the kernel-assigned id of the handle,
/// and whether the event is armed for group-format reads. The id is
/// non-negative while the resource is open; releasing the handle
/// replaces it with the closed sentinel so that a release can never
/// happen twice.
pub struct PerfEvent {
    fd: i32,
    armed: bool,
}

impl PerfEvent {
    /// The resource id, as a spec-level value.
    pub closed spec fn fd_spec(self) -> i32 {
        self.fd
    }

    /// Whether the event is armed for group-format reads, as a
    /// spec-level value.
    pub closed spec fn armed_spec(self) -> bool {
        self.armed
    }

    /// Whether the handle still owns an open resource.
    pub open spec fn is_open_spec(self) -> bool {
        self.fd_spec() >= 0
    }

    /// Wraps a resource id that an open request returned.
    pub fn from_fd(fd: i32, armed: bool) -> (r: Self)
        requires
            fd >= 0,
        ensures
            r.fd_spec() == fd,
            r.armed_spec() == armed,
    {
        PerfEvent { fd, armed }
    }

    /// The resource id of this handle.
    pub fn fd(&self) -> (r: i32)
        ensures
            r == self.fd_spec(),
    {
        self.fd
    }

    /// Whether the event is armed for group-format reads.
    pub fn is_armed(&self) -> (r: bool)
        ensures
            r == self.armed_spec(),
    {
        self.armed
    }

    /// Arms the event and hands back the best-effort control request
    /// (resource id and enable opcode) for the caller to fire.
    pub fn enable(&mut self) -> (r: (i32, u64))
        ensures
            final(self).fd_spec() == old(self).fd_spec(),
            final(self).armed_spec(),
            r.0 == old(self).fd_spec(),
            r.1 == io_state_opcode(EventIOState::Enable),
    {
        self.armed = true;
        (self.fd, EventIOState::Enable.opcode())
    }

    /// Disarms the event and hands back the best-effort control
    /// request (resource id and disable opcode) for the caller to fire.
    pub fn disable(&mut self) -> (r: (i32, u64))
        ensures
            final(self).fd_spec() == old(self).fd_spec(),
            !final(self).armed_spec(),
            r.0 == old(self).fd_spec(),
            r.1 == io_state_opcode(EventIOState::Disable),
    {
        self.armed = false;
        (self.fd, EventIOState::Disable.opcode())
    }

    /// The control request (resource id and opcode) for one state
    /// change on this handle alone.
    pub fn control_request(&self, state: EventIOState) -> (r: (i32, u64))
        ensures
            r.0 == self.fd_spec(),
            r.1 == io_state_opcode(state),
    {
        (self.fd, state.opcode())
    }

    /// The read request (resource id and byte count) for one raw
    /// counter value from this handle alone.
    pub fn read_request(&self) -> (r: (i32, usize))
        ensures
            r.0 == self.fd_spec(),
            r.1 == COUNT_READ_BYTES,
    {
        (self.fd, COUNT_READ_BYTES)
    }

    /// Gives up ownership of the resource id: hands it out exactly once
    /// for the caller to close, and marks the handle closed so that a
    /// second release yields nothing.
    pub fn release(&mut self) -> (r: Option<i32>)
        ensures
            old(self).is_open_spec() ==> r == Some(old(self).fd_spec()),
            !old(self).is_open_spec() ==> r == None::<i32>,
            final(self).fd_spec() == CLOSED_FD,
            final(self).armed_spec() == old(self).armed_spec(),
    {
        if self.fd >= 0 {
            let fd = self.fd;
            self.fd = CLOSED_FD;
            Some(fd)
        } else {
            self.fd = CLOSED_FD;
            None
        }
    }
}

} // verus!
