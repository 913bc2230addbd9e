use vstd::prelude::*;

verus! {

/// Bit position values for the behaviour-flags word of a counter
/// attribute record. Each position is fixed by the kernel ABI and
/// must not be altered.
pub const FLAG_DISABLED: u64 = 1 << 0;
pub const FLAG_INHERIT: u64 = 1 << 1;
pub const FLAG_PINNED: u64 = 1 << 2;
pub const FLAG_EXCLUSIVE: u64 = 1 << 3;
pub const FLAG_EXCLUDE_USER: u64 = 1 << 4;
pub const FLAG_EXCLUDE_KERNEL: u64 = 1 << 5;
pub const FLAG_EXCLUDE_HV: u64 = 1 << 6;
pub const FLAG_EXCLUDE_IDLE: u64 = 1 << 7;
pub const FLAG_MMAP: u64 = 1 << 8;
pub const FLAG_COMM: u64 = 1 << 9;
pub const FLAG_FREQ: u64 = 1 << 10;
pub const FLAG_INHERIT_STAT: u64 = 1 << 11;
pub const FLAG_ENABLE_ON_EXEC: u64 = 1 << 12;
pub const FLAG_TASK: u64 = 1 << 13;
pub const FLAG_WATERMARK: u64 = 1 << 14;
pub const FLAG_PRECISE_IP: u64 = 1 << 15;
pub const FLAG_MMAP_DATA: u64 = 1 << 17;
pub const FLAG_SAMPLE_ID_ALL: u64 = 1 << 18;
pub const FLAG_EXCLUDE_HOST: u64 = 1 << 19;
pub const FLAG_EXCLUDE_GUEST: u64 = 1 << 20;
pub const FLAG_EXCLUDE_CALLCHAIN_KERNEL: u64 = 1 << 21;
pub const FLAG_EXCLUDE_CALLCHAIN_USER: u64 = 1 << 22;
pub const FLAG_MMAP2: u64 = 1 << 23;
pub const FLAG_COMM_EXEC: u64 = 1 << 24;
pub const FLAG_USE_CLOCKID: u64 = 1 << 25;
pub const FLAG_CONTEXT_SWITCH: u64 = 1 << 26;
pub const FLAG_WRITE_BACKWARD: u64 = 1 << 27;
pub const FLAG_NAMESPACES: u64 = 1 << 28;
pub const FLAG_KSYMBOL: u64 = 1 << 29;
pub const FLAG_BPF_EVENT: u64 = 1 << 30;
pub const FLAG_AUX_OUTPUT: u64 = 1 << 31;
pub const FLAG_CGROUP: u64 = 1u64 << 32;
pub const FLAG_TEXT_POKE: u64 = 1u64 << 33;
pub const FLAG_BUILD_ID: u64 = 1u64 << 34;
pub const FLAG_INHERIT_THREAD: u64 = 1u64 << 35;
pub const FLAG_REMOVE_ON_EXEC: u64 = 1u64 << 36;
pub const FLAG_SIGTRAP: u64 = 1u64 << 37;

/// The two-bit field inside the flags word that selects the
/// instruction-pointer skid constraint.
pub const PRECISE_IP_MASK: u64 = 0b11 << 15;

/// A set of behaviour flags for one counter attribute record, packed
/// into a single 64-bit word as the kernel ABI expects. Flags compose
/// by bitwise or; each bit position is given by the `FLAG_` constants.
#[derive(Clone, Copy)]
pub struct PerfEventFlags(u64);

impl PerfEventFlags {
    /// The packed flag word, as a spec-level value.
    pub closed spec fn bits_spec(self) -> u64 {
        self.0
    }

    /// The empty flag set.
    pub fn empty() -> (r: Self)
        ensures
            r.bits_spec() == 0,
    {
        PerfEventFlags(0)
    }

    /// A flag set holding exactly the given packed word.
    pub fn from_bits(bits: u64) -> (r: Self)
        ensures
            r.bits_spec() == bits,
    {
        PerfEventFlags(bits)
    }

    /// The disabled-at-open flag: the counter starts switched off.
    pub fn disabled() -> (r: Self)
        ensures
            r.bits_spec() == FLAG_DISABLED,
    {
        PerfEventFlags(FLAG_DISABLED)
    }

    /// The exclude-hypervisor flag: events in the hypervisor are not
    /// counted.
    pub fn exclude_hv() -> (r: Self)
        ensures
            r.bits_spec() == FLAG_EXCLUDE_HV,
    {
        PerfEventFlags(FLAG_EXCLUDE_HV)
    }

    /// The packed flag word.
    pub fn bits(self) -> (r: u64)
        ensures
            r == self.bits_spec(),
    {
        self.0
    }

    /// Whether every flag of `other` is also set in `self`.
    pub fn contains(self, other: Self) -> (r: bool)
        ensures
            r == ((self.bits_spec() & other.bits_spec()) == other.bits_spec()),
    {
        (self.0 & other.0) == other.0
    }

    /// The union of the two flag sets.
    pub fn or(self, rhs: Self) -> (r: Self)
        ensures
            r.bits_spec() == (self.bits_spec() | rhs.bits_spec()),
    {
        PerfEventFlags(self.0 | rhs.0)
    }

    /// Replaces the two-bit skid-constraint field with the given level,
    /// leaving every other flag unchanged.
    pub fn with_precise_ip(self, level: PreciseIp) -> (r: Self)
        ensures
            r.bits_spec() == ((self.bits_spec() & !PRECISE_IP_MASK)
                | (precise_ip_value(level) << 15)),
    {
        let bits: u64 = level.value();
        PerfEventFlags((self.0 & !PRECISE_IP_MASK) | (bits << 15))
    }
}

/// How tightly the reported instruction pointer must match the
/// instruction that raised the event, from arbitrary skid up to a
/// demand for zero skid.
#[derive(Clone, Copy, Debug, PartialEq, Eq, Structural)]
pub enum PreciseIp {
    Arbitrary,
    Constant,
    RequestZeroSkid,
    ForceZeroSkid,
}

/// The numeric encoding of a skid-constraint level, fixed by the
/// kernel ABI.
pub open spec fn precise_ip_value(level: PreciseIp) -> u64 {
    match level {
        PreciseIp::Arbitrary => 0,
        PreciseIp::Constant => 1,
        PreciseIp::RequestZeroSkid => 2,
        PreciseIp::ForceZeroSkid => 3,
    }
}

impl PreciseIp {
    /// The numeric encoding of this level.
    pub fn value(self) -> (r: u64)
        ensures
            r == precise_ip_value(self),
    {
        match self {
            PreciseIp::Arbitrary => 0,
            PreciseIp::Constant => 1,
            PreciseIp::RequestZeroSkid => 2,
            PreciseIp::ForceZeroSkid => 3,
        }
    }
}

} // verus!
