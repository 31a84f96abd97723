use yadaw::performance::{
    OptimizationCategory, OptimizationHint, PerformanceMonitor, Severity, MAX_CALLBACK_TIMES,
    MAX_HISTORY_SIZE,
};

fn hint() -> OptimizationHint {
    OptimizationHint {
        category: OptimizationCategory::CPU,
        severity: Severity::Warning,
        message: "CPU usage is high".to_string(),
        suggestion: "Consider disabling some plugins or using sends for effects".to_string(),
    }
}

#[test]
fn history_keeps_the_latest_measurements() {
    let mut m: PerformanceMonitor<u32> = PerformanceMonitor::new();
    assert_eq!(m.get_current_metrics(), None);
    assert!(m.get_metrics_history(5).is_empty());
    for i in 0..(MAX_HISTORY_SIZE as u32 + 5) {
        m.update_metrics(i, Vec::new());
    }
    assert_eq!(m.get_current_metrics(), Some(MAX_HISTORY_SIZE as u32 + 4));
    assert_eq!(m.get_metrics_history(3), vec![1002, 1003, 1004]);
    let all = m.get_metrics_history(usize::MAX);
    assert_eq!(all.len(), MAX_HISTORY_SIZE);
    assert_eq!(all[0], 5);
    assert_eq!(m.get_metrics_history(0), Vec::<u32>::new());
}

#[test]
fn hints_follow_the_latest_measurement() {
    let mut m: PerformanceMonitor<u8> = PerformanceMonitor::new();
    m.update_metrics(1, vec![hint()]);
    assert_eq!(m.get_optimization_hints().len(), 1);
    assert_eq!(m.get_optimization_hints()[0].category, OptimizationCategory::CPU);
    m.update_metrics(2, Vec::new());
    assert!(m.get_optimization_hints().is_empty());
}

#[test]
fn callback_times_average_over_the_window() {
    let mut m: PerformanceMonitor<u8> = PerformanceMonitor::new();
    assert_eq!(m.get_average_callback_time(), 0);
    m.record_audio_callback_time(10);
    m.record_audio_callback_time(11);
    assert_eq!(m.get_average_callback_time(), 10);
    for _ in 0..MAX_CALLBACK_TIMES {
        m.record_audio_callback_time(u64::MAX);
    }
    assert_eq!(m.get_average_callback_time(), u64::MAX);
    m.record_audio_callback_time(0);
    assert_eq!(m.get_average_callback_time(), u64::MAX - u64::MAX / 100 - 1);
}

#[test]
fn dropouts_are_counted() {
    let mut m: PerformanceMonitor<u8> = PerformanceMonitor::new();
    assert_eq!(m.get_xrun_count(), 0);
    m.record_xrun();
    m.record_xrun();
    assert_eq!(m.get_xrun_count(), 2);
    m.reset_xrun_count();
    assert_eq!(m.get_xrun_count(), 0);
}
