use spork::{
    calc_cpu_percent, calc_duration, get_cpu_speed, get_num_cores, get_platform, get_thread_id,
    mhz_to_hz, now_ms, platform_from_os_type, safe_unsigned_sub, CpuTime, History, Platform,
    StatType, Stats,
};

const THREAD: usize = 7;

#[test]
fn should_get_thread_id() {
    let id = get_thread_id();
    assert!(id > 0);
}

#[test]
fn should_get_same_thread_id_twice() {
    assert_eq!(get_thread_id(), get_thread_id());
}

#[test]
fn utils_should_get_linux_platform() {
    assert_eq!(get_platform(), Ok(Platform::Linux));
}

#[test]
fn should_name_platforms() {
    assert_eq!(platform_from_os_type(&"Linux".to_owned()), Platform::Linux);
    assert_eq!(platform_from_os_type(&"Windows".to_owned()), Platform::Windows);
    assert_eq!(platform_from_os_type(&"Darwin".to_owned()), Platform::MacOS);
    assert_eq!(platform_from_os_type(&"Haiku".to_owned()), Platform::Unknown);
    assert_eq!(platform_from_os_type(&"linux".to_owned()), Platform::Unknown);
}

#[test]
fn utils_should_get_cpu_speed() {
    let speed = match get_cpu_speed() {
        Ok(s) => s,
        Err(e) => panic!("{:?}", e),
    };

    assert!(speed > 0);
}

#[test]
fn should_convert_mhz_to_hz() {
    assert_eq!(mhz_to_hz(2500), 2_500_000_000);
    assert_eq!(mhz_to_hz(1), 1_000_000);
    assert_eq!(mhz_to_hz(0), 0);
    assert_eq!(mhz_to_hz(u64::MAX / 1_000_000 + 1), u64::MAX);
    let hz = get_cpu_speed().unwrap();
    assert!(hz == u64::MAX || hz % 1_000_000 == 0);
}

#[test]
fn should_get_num_cores() {
    let cores = match get_num_cores() {
        Ok(n) => n,
        Err(e) => panic!("{:?}", e),
    };

    assert!(cores > 0);
}

#[test]
fn should_create_empty_history() {
    let history = History::default();
    assert_eq!(history.get_last(&StatType::Process, THREAD), None);
    assert_eq!(history.get_last(&StatType::Thread, THREAD), None);
    assert_eq!(history.get_last(&StatType::Children, THREAD), None);
}

#[test]
fn should_set_last_process_history() {
    let mut history = History::default();
    let stats = Stats::new_empty(StatType::Process);
    let last = history.set_last(&StatType::Process, THREAD, stats);
    assert_eq!(last, None);
}

#[test]
fn should_set_last_thread_history() {
    let mut history = History::default();
    let stats = Stats::new_empty(StatType::Thread);
    let last = history.set_last(&StatType::Thread, THREAD, stats);
    assert_eq!(last, None);
}

#[test]
fn should_set_last_children_history() {
    let mut history = History::default();
    let stats = Stats::new_empty(StatType::Children);
    let last = history.set_last(&StatType::Children, THREAD, stats);
    assert_eq!(last, None);
}

#[test]
fn should_return_replaced_sample() {
    let mut history = History::default();
    let first = Stats::new_empty(StatType::Thread);
    let mut second = Stats::new_empty(StatType::Thread);
    second.polled = 55;
    history.set_last(&StatType::Thread, THREAD, first);
    assert_eq!(history.set_last(&StatType::Thread, THREAD, second), Some(first));
    assert_eq!(history.get_last(&StatType::Thread, THREAD), Some(second));
}

#[test]
fn should_get_last_process_history() {
    let mut history = History::default();
    let last = history.get_last(&StatType::Process, THREAD);
    assert_eq!(last, None);

    let stats = Stats::new_empty(StatType::Process);
    let last = history.set_last(&StatType::Process, THREAD, stats.clone());
    assert_eq!(last, None);

    let last = history.get_last(&StatType::Process, THREAD);
    assert!(last.is_some());
    let last_stats = last.unwrap();
    assert_eq!(last_stats, stats);
}

#[test]
fn should_share_process_history_between_threads() {
    let mut history = History::default();
    let stats = Stats::new_empty(StatType::Process);
    history.set_last(&StatType::Process, 1, stats);
    assert_eq!(history.get_last(&StatType::Process, 2), Some(stats));
}

#[test]
fn should_get_last_thread_history() {
    let mut history = History::default();
    let last = history.get_last(&StatType::Thread, THREAD);
    assert_eq!(last, None);

    let stats = Stats::new_empty(StatType::Thread);
    let last = history.set_last(&StatType::Thread, THREAD, stats.clone());
    assert_eq!(last, None);

    let last = history.get_last(&StatType::Thread, THREAD);
    assert!(last.is_some());
    let last_stats = last.unwrap();
    assert_eq!(last_stats, stats);
}

#[test]
fn should_keep_thread_histories_apart() {
    let mut history = History::default();
    let stats = Stats::new_empty(StatType::Thread);
    history.set_last(&StatType::Thread, 1, stats);
    assert_eq!(history.get_last(&StatType::Thread, 2), None);
    assert_eq!(history.get_last(&StatType::Children, 1), None);
}

#[test]
fn should_get_last_children_history() {
    let mut history = History::default();
    let last = history.get_last(&StatType::Children, THREAD);
    assert_eq!(last, None);

    let stats = Stats::new_empty(StatType::Children);
    let last = history.set_last(&StatType::Children, THREAD, stats.clone());
    assert_eq!(last, None);

    let last = history.get_last(&StatType::Children, THREAD);
    assert!(last.is_some());
    let last_stats = last.unwrap();
    assert_eq!(last_stats, stats);
}

#[test]
fn should_calc_duration_with_started() {
    let history = History::default();
    let kind = StatType::Thread;
    let started = 1_i64;
    let polled = 1000_i64;

    let duration = calc_duration(&kind, &history, THREAD, started, polled);
    assert_eq!(duration, (polled - started) as u64);
}

#[test]
fn should_calc_duration_with_history() {
    let mut history = History::default();
    let kind = StatType::Thread;
    let started = 1_i64;
    let polled = 1000_i64;

    let stats = Stats::new_empty(kind.clone());
    // stats.polled will be 0
    history.set_last(&kind, THREAD, stats.clone());

    let duration = calc_duration(&kind, &history, THREAD, started, polled);
    assert_eq!(duration, (polled - stats.polled) as u64);
}

#[test]
fn should_calc_duration_backwards_clock() {
    let history = History::default();
    assert_eq!(calc_duration(&StatType::Process, &history, THREAD, 5000, 4000), 1000);
}

#[test]
fn should_calc_cpu_percent_from_start() {
    let history = History::default();
    let half = CpuTime { sec: 0, usec: 500_000 };
    assert_eq!(calc_cpu_percent(&history, &StatType::Thread, THREAD, &half, 1000, 1), 5000);
    assert_eq!(calc_cpu_percent(&history, &StatType::Thread, THREAD, &half, 0, 1), 0);
    assert_eq!(calc_cpu_percent(&history, &StatType::Thread, THREAD, &half, 1000, 0), 0);
}

#[test]
fn should_calc_cpu_percent_against_history() {
    let mut history = History::default();
    let mut last = Stats::new_empty(StatType::Thread);
    last.cpu_time = CpuTime { sec: 2, usec: 0 };
    history.set_last(&StatType::Thread, THREAD, last);
    let now = CpuTime { sec: 2, usec: 250_000 };
    assert_eq!(calc_cpu_percent(&history, &StatType::Thread, THREAD, &now, 500, 1), 5000);
    assert_eq!(calc_cpu_percent(&history, &StatType::Thread, THREAD, &now, 500, 2), 2500);
    let earlier = CpuTime { sec: 1, usec: 0 };
    assert_eq!(calc_cpu_percent(&history, &StatType::Thread, THREAD, &earlier, 500, 1), 0);
}

#[test]
fn should_clear_process_history() {
    let mut history = History::default();
    let kind = StatType::Process;
    let stats = Stats::new_empty(kind.clone());

    let last = history.set_last(&kind, THREAD, stats.clone());
    assert_eq!(last, None);

    let cleared = history.clear_last(&kind, THREAD);
    assert_eq!(cleared, Some(stats));

    let empty = history.get_last(&kind, THREAD);
    assert_eq!(empty, None);
}

#[test]
fn should_clear_thread_history() {
    let mut history = History::default();
    let kind = StatType::Thread;
    let stats = Stats::new_empty(kind.clone());

    let last = history.set_last(&kind, THREAD, stats.clone());
    assert_eq!(last, None);

    let cleared = history.clear_last(&kind, THREAD);
    assert_eq!(cleared, Some(stats));

    let empty = history.get_last(&kind, THREAD);
    assert_eq!(empty, None);
}

#[test]
fn should_clear_children_history() {
    let mut history = History::default();
    let kind = StatType::Children;
    let stats = Stats::new_empty(kind.clone());

    let last = history.set_last(&kind, THREAD, stats.clone());
    assert_eq!(last, None);

    let cleared = history.clear_last(&kind, THREAD);
    assert_eq!(cleared, Some(stats));

    let empty = history.get_last(&kind, THREAD);
    assert_eq!(empty, None);
}

#[test]
fn should_do_valid_safe_unsigned_sub() {
    let lhs = 100_i64;
    let rhs = 50_i64;
    let sub = safe_unsigned_sub(lhs, rhs);
    assert_eq!(sub, (lhs - rhs) as u64);
}

#[test]
fn should_do_invalid_safe_unsigned_sub() {
    let lhs = 100_i64;
    let rhs = -50_i64;
    let sub = safe_unsigned_sub(lhs, rhs);
    assert_eq!(sub, 150_u64);
}

#[test]
fn should_do_extreme_safe_unsigned_sub() {
    assert_eq!(safe_unsigned_sub(i64::MIN, i64::MAX), u64::MAX);
    assert_eq!(safe_unsigned_sub(i64::MAX, i64::MIN), u64::MAX);
    assert_eq!(safe_unsigned_sub(3, 3), 0);
}

#[test]
fn should_get_now_ms() {
    let now = now_ms();
    assert!(now > 0);
}
