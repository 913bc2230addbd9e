use cpu_perf::event_set::{
    classify_group_read, EventCounts, EventSet, EventSetError, UsageWarning, GROUP_READ_BYTES,
};
use cpu_perf::flags::{FLAG_DISABLED, FLAG_EXCLUDE_HV};
use cpu_perf::perf_events::{
    EventIOState, EventType, ReadError, PERF_EVENT_IOC_ENABLE, PERF_FORMAT_GROUP,
};

/// Runs a whole open session against pretend resource ids.
fn open_with_fds(fds: &[i32]) -> EventSet {
    let mut session = EventSet::new(Some(0), None).unwrap();
    for fd in fds {
        assert!(session.next_request().is_some());
        session.provide_fd(*fd);
    }
    assert!(session.next_request().is_none());
    session.finish()
}

#[test]
fn both_targets_absent_is_a_configuration_error() {
    let result = EventSet::new(None, None);
    assert_eq!(result.err(), Some(EventSetError::ConfigurationError));
}

#[test]
fn one_target_is_enough() {
    assert!(EventSet::new(Some(3), None).is_ok());
    assert!(EventSet::new(None, Some(1234)).is_ok());
    assert!(EventSet::new(Some(0), Some(1)).is_ok());
}

#[test]
fn leader_request_comes_first_and_carries_no_parent() {
    let session = EventSet::new(Some(6), None).unwrap();
    let request = session.next_request().unwrap();
    assert_eq!(request.group_fd, -1);
    assert_eq!(request.cpu, 6);
    assert_eq!(request.pid, -1);
    assert_eq!(request.flags, 0);
    assert_eq!(request.attrs.config, 0);
    assert_eq!(request.attrs.size, 112);
    assert_eq!(request.attrs.read_format, PERF_FORMAT_GROUP);
    assert_eq!(request.attrs.flags, FLAG_EXCLUDE_HV | FLAG_DISABLED);
}

#[test]
fn siblings_follow_in_declared_order_under_the_leader() {
    let mut session = EventSet::new(None, Some(77)).unwrap();
    let mut configs = Vec::new();
    let mut fd = 100;
    loop {
        let request = match session.next_request() {
            Some(request) => request,
            None => break,
        };
        if fd == 100 {
            assert_eq!(request.group_fd, -1);
        } else {
            assert_eq!(request.group_fd, 100);
            assert_eq!(request.attrs.flags & FLAG_DISABLED, 0);
        }
        assert_eq!(request.pid, 77);
        assert_eq!(request.cpu, -1);
        assert_eq!(request.attrs.read_format, PERF_FORMAT_GROUP);
        configs.push(request.attrs.config);
        session.provide_fd(fd);
        fd += 1;
    }
    assert_eq!(configs, vec![0, 1, 2, 3, 4, 5, 6, 9]);
    let set = session.finish();
    assert_eq!(set.parent_fd(), 100);
}

#[test]
fn failed_open_rolls_back_exactly_the_opened_ids() {
    let mut session = EventSet::new(Some(2), None).unwrap();
    for fd in [100, 101, 102] {
        assert!(session.next_request().is_some());
        session.provide_fd(fd);
    }
    // The fourth open is simulated to fail: the session surrenders the
    // three ids already opened, and only those, and the construction
    // fails with the refusal's error code.
    let (to_release, error) = session.abort(13);
    assert_eq!(to_release, vec![100, 101, 102]);
    assert_eq!(error, EventSetError::ResourceOpenFailure(13));
}

#[test]
fn abort_before_any_open_releases_nothing() {
    let session = EventSet::new(Some(2), None).unwrap();
    let (to_release, error) = session.abort(1);
    assert!(to_release.is_empty());
    assert_eq!(error, EventSetError::ResourceOpenFailure(1));
}

#[test]
fn release_hands_out_every_id_once_in_open_order() {
    let mut set = open_with_fds(&[30, 31, 32, 33, 34, 35, 36, 37]);
    let released = set.release_all();
    assert_eq!(released, vec![30, 31, 32, 33, 34, 35, 36, 37]);
    assert_eq!(set.parent_fd(), -1);
}

#[test]
fn siblings_start_armed_and_the_leader_disarmed() {
    let set = open_with_fds(&[10, 11, 12, 13, 14, 15, 16, 17]);
    assert!(!set.is_armed(EventType::CpuCycles));
    assert!(set.is_armed(EventType::Instructions));
    assert!(set.is_armed(EventType::CacheReferences));
    assert!(set.is_armed(EventType::CacheMisses));
    assert!(set.is_armed(EventType::BranchInstructions));
    assert!(set.is_armed(EventType::BranchMisses));
    assert!(set.is_armed(EventType::BusCycles));
    assert!(set.is_armed(EventType::RefCpuCycles));
    assert!(!set.is_armed(EventType::StalledCyclesFrontend));
    assert!(!set.is_armed(EventType::StalledCyclesBackend));
    assert!(!set.is_group_enabled());
}

#[test]
fn events_arm_and_disarm_individually() {
    let mut set = open_with_fds(&[10, 11, 12, 13, 14, 15, 16, 17]);
    let warnings = set.disable(&[EventType::CacheMisses, EventType::BranchMisses]);
    assert!(warnings.is_empty());
    assert!(!set.is_armed(EventType::CacheMisses));
    assert!(!set.is_armed(EventType::BranchMisses));
    assert!(set.is_armed(EventType::CacheReferences));

    set.enable(&[EventType::CacheMisses]);
    assert!(set.is_armed(EventType::CacheMisses));
    assert!(!set.is_armed(EventType::BranchMisses));

    set.enable(&[EventType::CpuCycles]);
    assert!(set.is_armed(EventType::CpuCycles));
}

#[test]
fn disabling_the_leader_warns_and_changes_nothing() {
    let mut set = open_with_fds(&[10, 11, 12, 13, 14, 15, 16, 17]);
    set.enable(&[EventType::CpuCycles]);
    let enabled_before = set.is_group_enabled();

    let warnings = set.disable(&[EventType::CpuCycles]);
    assert_eq!(warnings, vec![UsageWarning::LeaderDisableRejected]);
    assert!(set.is_armed(EventType::CpuCycles));
    assert_eq!(set.is_group_enabled(), enabled_before);

    // Mixed in with siblings, the leader is still the only one spared.
    let warnings = set.disable(&[EventType::Instructions, EventType::CpuCycles]);
    assert_eq!(warnings, vec![UsageWarning::LeaderDisableRejected]);
    assert!(set.is_armed(EventType::CpuCycles));
    assert!(!set.is_armed(EventType::Instructions));
}

#[test]
fn group_control_goes_through_the_leader() {
    let mut set = open_with_fds(&[50, 51, 52, 53, 54, 55, 56, 57]);
    let (fd, opcode) = set.control_request(EventIOState::Enable);
    assert_eq!(fd, 50);
    assert_eq!(opcode, PERF_EVENT_IOC_ENABLE);

    assert_eq!(set.note_control_result(EventIOState::Enable, 0), Ok(0));
    assert!(set.is_group_enabled());
    assert_eq!(set.note_control_result(EventIOState::Disable, 0), Ok(0));
    assert!(!set.is_group_enabled());
    assert_eq!(set.note_control_result(EventIOState::Refresh, 1), Ok(1));
    assert!(!set.is_group_enabled());
}

#[test]
fn a_refused_control_request_changes_no_state() {
    let mut set = open_with_fds(&[50, 51, 52, 53, 54, 55, 56, 57]);
    assert_eq!(
        set.note_control_result(EventIOState::Enable, -1),
        Err(EventSetError::ControlFailure(-1))
    );
    assert!(!set.is_group_enabled());
}

#[test]
fn group_read_request_sizes_the_whole_group() {
    let set = open_with_fds(&[50, 51, 52, 53, 54, 55, 56, 57]);
    assert_eq!(set.read_request(), (50, GROUP_READ_BYTES));
    assert_eq!(GROUP_READ_BYTES, 72);
}

#[test]
fn read_words_decode_positionally() {
    let words: [u64; 9] = [8, 10, 20, 30, 40, 50, 60, 70, 80];
    let counts = EventCounts::from_read_words(&words);
    assert_eq!(counts.num_cpu_cycles, 10);
    assert_eq!(counts.num_instructions, 20);
    assert_eq!(counts.num_cache_references, 30);
    assert_eq!(counts.num_cache_misses, 40);
    assert_eq!(counts.num_branch_instructions, 50);
    assert_eq!(counts.num_branch_misses, 60);
    assert_eq!(counts.num_bus_cycles, 70);
    assert_eq!(counts.num_ref_cpu_cycles, 80);
}

#[test]
fn the_counter_count_word_is_not_a_counter_value() {
    // Whatever the leading word holds, it never leaks into a count.
    let words: [u64; 9] = [999, 1, 2, 3, 4, 5, 6, 7, 8];
    let counts = EventCounts::from_read_words(&words);
    assert_eq!(counts.num_cpu_cycles, 1);
    assert_eq!(counts.num_ref_cpu_cycles, 8);
}

#[test]
fn a_failed_group_read_yields_no_sample() {
    assert_eq!(classify_group_read(-1), Err(ReadError::OsError));
    assert_eq!(classify_group_read(-9), Err(ReadError::OsError));
    assert!(classify_group_read(0).is_ok());
    assert!(classify_group_read(72).is_ok());
}

#[test]
fn default_counts_are_all_zero() {
    let counts = EventCounts::default();
    assert_eq!(counts.num_cpu_cycles, 0);
    assert_eq!(counts.num_instructions, 0);
    assert_eq!(counts.num_cache_references, 0);
    assert_eq!(counts.num_cache_misses, 0);
    assert_eq!(counts.num_branch_instructions, 0);
    assert_eq!(counts.num_branch_misses, 0);
    assert_eq!(counts.num_bus_cycles, 0);
    assert_eq!(counts.num_ref_cpu_cycles, 0);
}
