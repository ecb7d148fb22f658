use drdotnet::profilers::gc_pause_profiler::{sort_durations, GCPause, GCPauseProfiler};

fn profiler(pauses: &[(u64, u64)], start: u64, end: u64) -> GCPauseProfiler {
    let mut p = GCPauseProfiler::new(0);
    p.gc_pauses = pauses.iter().map(|&(s, e)| GCPause { start: s, end: e }).collect();
    p.profiling_start = start;
    p.profiling_end = end;
    p
}

#[test]
fn windows_stop_at_the_window_of_the_last_pause() {
    let p = profiler(&[(10, 30), (50, 55), (120, 200), (350, 360)], 0, 400);
    assert_eq!(p.get_durations(100), vec![0, 25, 80]);
}

#[test]
fn single_pause_inside_first_window_of_many() {
    let p = profiler(&[(5, 15)], 0, 100);
    assert_eq!(p.get_durations(10), vec![5]);
}

#[test]
fn long_pause_fills_whole_windows() {
    let p = profiler(&[(0, 250)], 0, 1000);
    assert_eq!(p.get_durations(100), vec![100, 100]);
}

#[test]
fn windows_start_at_profiling_start() {
    let p = profiler(&[(100, 110), (900, 950)], 50, 1000);
    assert_eq!(p.get_durations(200), vec![0, 0, 0, 10]);
}

#[test]
fn pause_before_profiling_gives_no_window() {
    let p = profiler(&[(1, 2)], 10, 20);
    assert_eq!(p.get_durations(5), Vec::<u64>::new());
}

#[test]
fn adjacent_pauses() {
    let p = profiler(&[(10, 20), (20, 30)], 0, 100);
    assert_eq!(p.get_durations(20), vec![10]);
}

#[test]
fn first_window_counts_suspension_begun_before_profiling() {
    let p = profiler(&[(0, 30), (500, 510)], 20, 1000);
    assert_eq!(p.get_durations(100), vec![0, 0, 0, 30]);
}

#[test]
fn events_record_pauses() {
    let mut p = GCPauseProfiler::new(0);
    p.profiler_attach_complete(5);
    p.runtime_suspend_started(10).unwrap();
    p.runtime_resume_started(40).unwrap();
    p.runtime_suspend_started(60).unwrap();
    p.runtime_resume_started(65).unwrap();
    assert_eq!(p.gc_pauses, vec![GCPause { start: 10, end: 40 }, GCPause { start: 60, end: 65 }]);
    assert_eq!(p.total_suspended_time(), 35);
    assert_eq!(p.profiling_start, 5);
}

#[test]
fn detach_report() {
    let mut p = GCPauseProfiler::new(0);
    p.profiler_attach_complete(0);
    p.runtime_suspend_started(100_000_000).unwrap();
    p.runtime_resume_started(300_000_000).unwrap();
    p.runtime_suspend_started(1_500_000_000).unwrap();
    p.runtime_resume_started(1_520_000_000).unwrap();
    p.runtime_suspend_started(2_500_000_000).unwrap();
    p.runtime_resume_started(2_510_000_000).unwrap();
    let report = p.profiler_detach_succeeded(3_000_000_000);
    assert_eq!(p.profiling_end, 3_000_000_000);
    assert_eq!(report.total_time, 3_000_000_000);
    assert_eq!(report.total_suspended_time, 230_000_000);
    assert_eq!(report.durations_1000ms, vec![20_000_000, 200_000_000]);
    assert_eq!(report.durations_400ms.len(), 6);
    assert_eq!(report.durations_400ms[5], 200_000_000);
    assert_eq!(report.durations_50ms.len(), 50);
}

#[test]
fn window_reports_stay_within_suspended_time() {
    let mut p = GCPauseProfiler::new(0);
    p.profiler_attach_complete(0);
    p.runtime_suspend_started(100_000_000).unwrap();
    p.runtime_resume_started(300_000_000).unwrap();
    p.runtime_suspend_started(1_500_000_000).unwrap();
    p.runtime_resume_started(1_520_000_000).unwrap();
    p.runtime_suspend_started(2_500_000_000).unwrap();
    p.runtime_resume_started(2_510_000_000).unwrap();
    let report = p.profiler_detach_succeeded(3_000_000_000);
    for durations in [&report.durations_1000ms, &report.durations_400ms, &report.durations_50ms] {
        assert!(durations.iter().sum::<u64>() <= report.total_suspended_time);
    }
    assert_eq!(report.durations_1000ms.iter().sum::<u64>(), 220_000_000);
}

#[test]
fn total_time_saturates() {
    let mut p = GCPauseProfiler::new(100);
    p.runtime_suspend_started(100).unwrap();
    p.runtime_resume_started(101).unwrap();
    let report = p.profiler_detach_succeeded(50);
    assert_eq!(report.total_time, 0);
}

#[test]
fn sorts_ascending() {
    assert_eq!(sort_durations(vec![5, 1, 4, 1, 3]), vec![1, 1, 3, 4, 5]);
    assert_eq!(sort_durations(vec![]), Vec::<u64>::new());
}

#[test]
fn windows_after_the_first_hold_at_most_the_interval() {
    let p = profiler(&[(0, 150), (160, 390), (395, 399), (900, 901)], 100, 1000);
    // The first window also takes in the 100 ns suspended before profiling started.
    assert_eq!(p.get_durations(100), vec![0, 0, 0, 0, 0, 94, 100, 190]);
    let q = profiler(&[(100, 150), (160, 390), (395, 399), (900, 901)], 100, 1000);
    let durations = q.get_durations(100);
    assert_eq!(durations, vec![0, 0, 0, 0, 0, 90, 94, 100]);
    assert!(durations.iter().all(|&d| d <= 100));
}
