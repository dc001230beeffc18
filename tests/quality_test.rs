use vox_gui::quality::{calculate_quality, AdaptiveQualityController, BandwidthMonitor, QualityMode, RateGate};

#[test]
fn quality_mode_table() {
    let modes = [QualityMode::Ultra, QualityMode::High, QualityMode::Medium, QualityMode::Low, QualityMode::Minimal];
    let fps: Vec<u32> = modes.iter().map(|m| m.target_fps()).collect();
    let level: Vec<i32> = modes.iter().map(|m| m.compression_level()).collect();
    let key: Vec<u32> = modes.iter().map(|m| m.keyframe_interval()).collect();
    let scale: Vec<u32> = modes.iter().map(|m| m.resolution_scale_percent()).collect();
    let mbps: Vec<u32> = modes.iter().map(|m| m.bandwidth_requirement_mbps()).collect();
    let interval: Vec<u64> = modes.iter().map(|m| m.frame_interval_ms()).collect();
    assert_eq!(fps, vec![60, 30, 30, 15, 10]);
    assert_eq!(level, vec![1, 3, 6, 9, 12]);
    assert_eq!(key, vec![120, 60, 30, 15, 10]);
    assert_eq!(scale, vec![100, 100, 75, 50, 25]);
    assert_eq!(mbps, vec![50, 20, 10, 5, 2]);
    assert_eq!(interval, vec![16, 33, 33, 66, 100]);
}

#[test]
fn score_thresholds() {
    // 50 Mb/s, 0 ms, no loss: score 1.0.
    assert_eq!(calculate_quality(50_000_000, 0, 0), QualityMode::Ultra);
    // Defaults (10 Mb/s, 50 ms, no loss): 0.1 + 0.225 + 0.2 = 0.525.
    assert_eq!(calculate_quality(10_000_000, 50, 0), QualityMode::Medium);
    // Exactly 0.6: 0.5·(20/50) + 0.3·(1 − 0) ... 0.2 + 0.3 + 0.1 (5% loss) = 0.6.
    assert_eq!(calculate_quality(20_000_000, 0, 50_000), QualityMode::High);
    // 0.8 exactly: 0.3 + 0.3 + 0.2.
    assert_eq!(calculate_quality(30_000_000, 0, 0), QualityMode::Ultra);
    // Nothing left: 0 + 0 + 0.
    assert_eq!(calculate_quality(0, 500, 200_000), QualityMode::Minimal);
}

#[test]
fn bandwidth_window_metrics() {
    let mut m = BandwidthMonitor::new();
    assert_eq!(m.get_bandwidth_bps(), None);
    assert_eq!(m.get_average_rtt(), None);
    m.add_sample_at(1_000, 1_000, 10);
    assert_eq!(m.get_bandwidth_bps(), None);
    m.add_sample_at(1_050, 1_000, 20);
    // 50 ms span: too short to tell.
    assert_eq!(m.get_bandwidth_bps(), None);
    m.add_sample_at(2_000, 1_000, 30);
    // 3000 bytes over 1 s.
    assert_eq!(m.get_bandwidth_bps(), Some(24_000));
    assert_eq!(m.get_average_rtt(), Some(20));
    assert_eq!(m.get_packet_loss_proxy(), 0);
    m.add_sample_at(2_100, 0, 40);
    m.add_sample_at(2_200, 0, 50);
    // RTTs 10..50, mean 30, variance (400+100+0+100+400)/5 = 200 ms².
    assert_eq!(m.get_packet_loss_proxy(), 200);
}

#[test]
fn bandwidth_window_keeps_thirty_samples() {
    let mut m = BandwidthMonitor::new();
    for i in 0..40u64 {
        m.add_sample_at(i * 100, i, 1);
    }
    let s = m.samples();
    assert_eq!(s.len(), 30);
    assert_eq!(s[0].timestamp_ms, 1_000);
    assert_eq!(s[29].bytes_sent, 39);
    m.add_sample_at(5_000, 1, u64::MAX);
    assert_eq!(m.samples()[29].rtt_ms, u32::MAX);
}

#[test]
fn quality_drops_to_low_on_slow_link() {
    let mut c = AdaptiveQualityController::new_at(0);
    assert_eq!(c.get_current_quality(), QualityMode::High);
    // 1.5 Mb/s over the 2.9 s that 30 samples span, RTT 250 ms.
    for i in 0..=30u64 {
        c.update_metrics_at(i * 100, 18_125, 250);
    }
    let metrics = c.get_metrics();
    assert_eq!(metrics.bandwidth_bps, 1_500_000);
    assert_eq!(metrics.average_rtt_ms, 250);
    assert_eq!(c.get_recommended_quality_at(3_000), QualityMode::Low);
    assert_eq!(c.get_current_quality(), QualityMode::Low);
    assert!(QualityMode::Low.frame_interval_ms() >= 66);
}

#[test]
fn quality_changes_respect_dwell() {
    let mut c = AdaptiveQualityController::new_at(0);
    let mut changes: Vec<u64> = Vec::new();
    let mut last = c.get_current_quality();
    for step in 0..100u64 {
        let t = step * 100;
        // Alternate between a fast link and a slow one every 100 ms.
        if step % 2 == 0 {
            c.update_metrics_at(t, 2_000_000, 1);
        } else {
            c.update_metrics_at(t, 10, 400);
        }
        let q = c.get_recommended_quality_at(t);
        if q != last {
            changes.push(t);
            last = q;
        }
    }
    for pair in changes.windows(2) {
        assert!(pair[1] - pair[0] >= 2_000);
    }
    if let Some(first) = changes.first() {
        assert!(*first >= 2_000);
    }
}

#[test]
fn forced_quality_bypasses_dwell() {
    let mut c = AdaptiveQualityController::new_at(0);
    c.force_quality(Some(QualityMode::Minimal));
    assert_eq!(c.get_current_quality(), QualityMode::Minimal);
    assert_eq!(c.get_recommended_quality_at(10), QualityMode::Minimal);
    assert_eq!(c.get_recommended_quality_at(100_000), QualityMode::Minimal);
    c.force_quality(None);
    // Unpinned, empty window: defaults score 0.525, Medium.
    assert_eq!(c.get_recommended_quality_at(100_000), QualityMode::Medium);
}

#[test]
fn rate_gate_spaces_frames() {
    let mut g = RateGate::new();
    let mut emitted = Vec::new();
    for t in 0..5_000u64 {
        if g.try_emit(t, QualityMode::Low) {
            emitted.push(t);
        }
    }
    assert_eq!(emitted[0], 0);
    assert_eq!(emitted[1], 66);
    for pair in emitted.windows(2) {
        assert!(pair[1] - pair[0] >= 66);
    }
    assert_eq!(emitted.len(), 76);
}
