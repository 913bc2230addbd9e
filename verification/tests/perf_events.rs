use cpu_perf::flags::{PerfEventFlags, PreciseIp, FLAG_DISABLED, FLAG_EXCLUDE_HV, FLAG_PINNED};
use cpu_perf::perf_events::{
    classify_count_read, prepare_open, EventIOState, EventType, PerfEvent, PerfEventAttr,
    ReadError, PERF_EVENT_ATTR_SIZE, PERF_EVENT_IOC_DISABLE, PERF_EVENT_IOC_ENABLE,
    PERF_EVENT_IOC_REFRESH, PERF_EVENT_IOC_RESET, PERF_FORMAT_GROUP, PERF_TYPE_HARDWARE,
};

fn all_event_types() -> [EventType; 10] {
    [
        EventType::CpuCycles,
        EventType::Instructions,
        EventType::CacheReferences,
        EventType::CacheMisses,
        EventType::BranchInstructions,
        EventType::BranchMisses,
        EventType::BusCycles,
        EventType::StalledCyclesFrontend,
        EventType::StalledCyclesBackend,
        EventType::RefCpuCycles,
    ]
}

#[test]
fn descriptor_layout_for_every_event_type() {
    for (expected_id, event) in all_event_types().into_iter().enumerate() {
        let attr = PerfEventAttr::new(event);
        assert_eq!(attr.type_, PERF_TYPE_HARDWARE);
        assert_eq!(attr.size, PERF_EVENT_ATTR_SIZE);
        assert_eq!(attr.size, 112);
        assert_eq!(attr.config, expected_id as u64);
        assert_eq!(attr.sample_period_or_freq, 0);
        assert_eq!(attr.sample_type, 0);
        assert_eq!(attr.read_format, 0);
        assert_eq!(attr.flags, 0);
        assert_eq!(attr.wakeup_events_or_watermark, 0);
        assert_eq!(attr.bp_type, 0);
        assert_eq!(attr.config1, 0);
        assert_eq!(attr.config2, 0);
        assert_eq!(attr.branch_sample_type, 0);
        assert_eq!(attr.sample_regs_user, 0);
        assert_eq!(attr.sample_stack_user, 0);
        assert_eq!(attr.clockid, 0);
        assert_eq!(attr.sample_regs_intr, 0);
        assert_eq!(attr.aux_watermark, 0);
        assert_eq!(attr.sample_max_stack, 0);
        assert_eq!(attr.reserved_2, 0);
    }
}

#[test]
fn event_ids_follow_the_kernel_taxonomy() {
    assert_eq!(EventType::CpuCycles.id(), 0);
    assert_eq!(EventType::Instructions.id(), 1);
    assert_eq!(EventType::CacheReferences.id(), 2);
    assert_eq!(EventType::CacheMisses.id(), 3);
    assert_eq!(EventType::BranchInstructions.id(), 4);
    assert_eq!(EventType::BranchMisses.id(), 5);
    assert_eq!(EventType::BusCycles.id(), 6);
    assert_eq!(EventType::StalledCyclesFrontend.id(), 7);
    assert_eq!(EventType::StalledCyclesBackend.id(), 8);
    assert_eq!(EventType::RefCpuCycles.id(), 9);
}

#[test]
fn builder_steps_touch_only_their_field() {
    let base = PerfEventAttr::new(EventType::CacheMisses);
    let with_flags = base.with_flags(PerfEventFlags::exclude_hv());
    assert_eq!(with_flags.flags, FLAG_EXCLUDE_HV);
    assert_eq!(with_flags.config, base.config);
    assert_eq!(with_flags.read_format, 0);

    let grouped = with_flags.with_perf_format_group();
    assert_eq!(grouped.read_format, PERF_FORMAT_GROUP);
    assert_eq!(grouped.flags, FLAG_EXCLUDE_HV);
    assert_eq!(grouped.size, 112);
}

#[test]
fn open_adjustment_disables_a_leader_and_clears_a_sibling() {
    let attrs = PerfEventAttr::new(EventType::CpuCycles).with_flags(PerfEventFlags::exclude_hv());

    let (leader, leader_group_fd) = prepare_open(attrs, None);
    assert_eq!(leader.flags, FLAG_EXCLUDE_HV | FLAG_DISABLED);
    assert_eq!(leader_group_fd, -1);

    let already_disabled = attrs.with_flags(PerfEventFlags::from_bits(
        FLAG_EXCLUDE_HV | FLAG_DISABLED,
    ));
    let (sibling, sibling_group_fd) = prepare_open(already_disabled, Some(42));
    assert_eq!(sibling.flags, FLAG_EXCLUDE_HV);
    assert_eq!(sibling_group_fd, 42);
}

#[test]
fn flag_sets_compose_by_bitwise_or() {
    let flags = PerfEventFlags::disabled().or(PerfEventFlags::exclude_hv());
    assert_eq!(flags.bits(), FLAG_DISABLED | FLAG_EXCLUDE_HV);
    assert!(flags.contains(PerfEventFlags::disabled()));
    assert!(flags.contains(PerfEventFlags::exclude_hv()));
    assert!(!flags.contains(PerfEventFlags::from_bits(FLAG_PINNED)));
    assert!(PerfEventFlags::empty().bits() == 0);
}

#[test]
fn precise_ip_replaces_only_its_two_bits() {
    let flags = PerfEventFlags::from_bits(FLAG_DISABLED)
        .with_precise_ip(PreciseIp::ForceZeroSkid);
    assert_eq!(flags.bits(), FLAG_DISABLED | (3 << 15));
    let relaxed = flags.with_precise_ip(PreciseIp::Arbitrary);
    assert_eq!(relaxed.bits(), FLAG_DISABLED);
    let constant = flags.with_precise_ip(PreciseIp::Constant);
    assert_eq!(constant.bits(), FLAG_DISABLED | (1 << 15));
}

#[test]
fn control_opcodes_follow_the_device_numbering() {
    assert_eq!(PERF_EVENT_IOC_ENABLE, 0x2400);
    assert_eq!(PERF_EVENT_IOC_DISABLE, 0x2401);
    assert_eq!(PERF_EVENT_IOC_REFRESH, 0x2402);
    assert_eq!(PERF_EVENT_IOC_RESET, 0x2403);
    assert_eq!(EventIOState::Enable.opcode(), PERF_EVENT_IOC_ENABLE);
    assert_eq!(EventIOState::Disable.opcode(), PERF_EVENT_IOC_DISABLE);
    assert_eq!(EventIOState::Refresh.opcode(), PERF_EVENT_IOC_REFRESH);
    assert_eq!(EventIOState::Reset.opcode(), PERF_EVENT_IOC_RESET);
}

#[test]
fn count_read_classification_covers_every_kind() {
    assert_eq!(classify_count_read(-1, 0), Err(ReadError::OsError));
    assert_eq!(classify_count_read(-7, 99), Err(ReadError::OsError));
    assert_eq!(classify_count_read(0, 99), Err(ReadError::UnexpectedEof));
    assert_eq!(classify_count_read(1, 99), Err(ReadError::ShortRead));
    assert_eq!(classify_count_read(7, 99), Err(ReadError::ShortRead));
    assert_eq!(classify_count_read(8, 99), Ok(99));
    assert_eq!(classify_count_read(9, 99), Err(ReadError::OverRead));
}

#[test]
fn a_handle_is_released_exactly_once() {
    let mut handle = PerfEvent::from_fd(5, true);
    assert_eq!(handle.fd(), 5);
    assert!(handle.is_armed());
    assert_eq!(handle.release(), Some(5));
    assert_eq!(handle.fd(), -1);
    assert_eq!(handle.release(), None);
}

#[test]
fn handle_requests_name_its_resource() {
    let mut handle = PerfEvent::from_fd(11, false);
    assert_eq!(handle.read_request(), (11, 8));
    assert_eq!(
        handle.control_request(EventIOState::Refresh),
        (11, PERF_EVENT_IOC_REFRESH)
    );
    assert_eq!(handle.enable(), (11, PERF_EVENT_IOC_ENABLE));
    assert!(handle.is_armed());
    assert_eq!(handle.disable(), (11, PERF_EVENT_IOC_DISABLE));
    assert!(!handle.is_armed());
}
