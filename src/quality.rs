//! Quality modes, the rolling network window and the adaptive controller.
use vstd::prelude::*;
use crate::clock::now_millis;

verus! {

/// A discrete operating point of the stream.
#[derive(Debug, Clone, Copy, PartialEq, Eq, Structural)]
pub enum QualityMode {
    Ultra,
    High,
    Medium,
    Low,
    Minimal,
}

impl QualityMode {
    pub open spec fn spec_target_fps(self) -> u32 {
        match self {
            QualityMode::Ultra => 60,
            QualityMode::High => 30,
            QualityMode::Medium => 30,
            QualityMode::Low => 15,
            QualityMode::Minimal => 10,
        }
    }

    pub open spec fn spec_compression_level(self) -> i32 {
        match self {
            QualityMode::Ultra => 1,
            QualityMode::High => 3,
            QualityMode::Medium => 6,
            QualityMode::Low => 9,
            QualityMode::Minimal => 12,
        }
    }

    pub open spec fn spec_keyframe_interval(self) -> u32 {
        match self {
            QualityMode::Ultra => 120,
            QualityMode::High => 60,
            QualityMode::Medium => 30,
            QualityMode::Low => 15,
            QualityMode::Minimal => 10,
        }
    }

    pub open spec fn spec_resolution_scale_percent(self) -> u32 {
        match self {
            QualityMode::Ultra => 100,
            QualityMode::High => 100,
            QualityMode::Medium => 75,
            QualityMode::Low => 50,
            QualityMode::Minimal => 25,
        }
    }

    pub open spec fn spec_bandwidth_requirement_mbps(self) -> u32 {
        match self {
            QualityMode::Ultra => 50,
            QualityMode::High => 20,
            QualityMode::Medium => 10,
            QualityMode::Low => 5,
            QualityMode::Minimal => 2,
        }
    }

    /// Shortest time between two emitted frames, in milliseconds.
    pub open spec fn spec_frame_interval_ms(self) -> u64 {
        (1000u32 / self.spec_target_fps()) as u64
    }

    /// Frames per second the pipeline aims for.
    pub fn target_fps(&self) -> (r: u32)
        ensures
            r == self.spec_target_fps(),
    {
        match self {
            QualityMode::Ultra => 60,
            QualityMode::High => 30,
            QualityMode::Medium => 30,
            QualityMode::Low => 15,
            QualityMode::Minimal => 10,
        }
    }

    /// The zstd level used for frames and tiles.
    pub fn compression_level(&self) -> (r: i32)
        ensures
            r == self.spec_compression_level(),
    {
        match self {
            QualityMode::Ultra => 1,
            QualityMode::High => 3,
            QualityMode::Medium => 6,
            QualityMode::Low => 9,
            QualityMode::Minimal => 12,
        }
    }

    /// Frames between two scheduled keyframes.
    pub fn keyframe_interval(&self) -> (r: u32)
        ensures
            r == self.spec_keyframe_interval(),
    {
        match self {
            QualityMode::Ultra => 120,
            QualityMode::High => 60,
            QualityMode::Medium => 30,
            QualityMode::Low => 15,
            QualityMode::Minimal => 10,
        }
    }

    /// The downscale factor, in percent of the captured size.
    pub fn resolution_scale_percent(&self) -> (r: u32)
        ensures
            r == self.spec_resolution_scale_percent(),
    {
        match self {
            QualityMode::Ultra => 100,
            QualityMode::High => 100,
            QualityMode::Medium => 75,
            QualityMode::Low => 50,
            QualityMode::Minimal => 25,
        }
    }

    /// The target bitrate, in Mb/s.
    pub fn bandwidth_requirement_mbps(&self) -> (r: u32)
        ensures
            r == self.spec_bandwidth_requirement_mbps(),
    {
        match self {
            QualityMode::Ultra => 50,
            QualityMode::High => 20,
            QualityMode::Medium => 10,
            QualityMode::Low => 5,
            QualityMode::Minimal => 2,
        }
    }

    /// Shortest time between two emitted frames: `1000 / target_fps`, in ms.
    pub fn frame_interval_ms(&self) -> (r: u64)
        ensures
            r == self.spec_frame_interval_ms(),
    {
        (1000 / self.target_fps()) as u64
    }
}

/// Samples kept in the rolling window.
pub const MAX_SAMPLES: usize = 30;

/// Bandwidth assumed while the window cannot tell it: 10 Mb/s.
pub const DEFAULT_BANDWIDTH_BPS: u128 = 10_000_000;

/// Round-trip time assumed while the window is empty, in ms.
pub const DEFAULT_RTT_MS: u64 = 50;

/// Largest loss proxy: an RTT variance of 200 000 ms², which stands for 20% loss.
pub const MAX_LOSS_PROXY: u64 = 200_000;

/// Minimum time between two automatic quality changes, in ms.
pub const QUALITY_COOLDOWN_MS: u64 = 2000;

/// One acknowledgement: when it came, the bytes sent since the last one, and the RTT.
#[derive(Debug, Clone, Copy, PartialEq, Eq, Structural)]
pub struct BandwidthSample {
    pub timestamp_ms: u64,
    pub bytes_sent: u64,
    pub rtt_ms: u32,
}

pub open spec fn sum_bytes(s: Seq<BandwidthSample>) -> nat
    decreases s.len(),
{
    if s.len() == 0 {
        0
    } else {
        (sum_bytes(s.drop_last()) + s.last().bytes_sent) as nat
    }
}

pub open spec fn sum_rtt(s: Seq<BandwidthSample>) -> nat
    decreases s.len(),
{
    if s.len() == 0 {
        0
    } else {
        (sum_rtt(s.drop_last()) + s.last().rtt_ms) as nat
    }
}

/// Sum of the squared distances of the RTTs from `avg`.
pub open spec fn sum_sq_dev(s: Seq<BandwidthSample>, avg: int) -> nat
    decreases s.len(),
{
    if s.len() == 0 {
        0
    } else {
        let d = s.last().rtt_ms - avg;
        sum_sq_dev(s.drop_last(), avg) + (d * d) as nat
    }
}

/// Bits per second over the window: the bytes of all samples over the time
/// from the first to the last; unknown below two samples or 100 ms.
pub open spec fn bandwidth_bps(s: Seq<BandwidthSample>) -> Option<nat> {
    if s.len() < 2 {
        None
    } else {
        let first = s[0].timestamp_ms;
        let last = s.last().timestamp_ms;
        let dur: nat = if last >= first {
            (last - first) as nat
        } else {
            0
        };
        if dur < 100 {
            None
        } else {
            Some(sum_bytes(s) * 8000 / dur)
        }
    }
}

/// Mean RTT of the window, in ms (rounded down); unknown when empty.
pub open spec fn average_rtt(s: Seq<BandwidthSample>) -> Option<nat> {
    if s.len() == 0 {
        None
    } else {
        Some(sum_rtt(s) / s.len())
    }
}

/// The loss proxy: the variance of the RTTs in ms² (against the rounded-down
/// mean, itself rounded down), capped at `MAX_LOSS_PROXY`; 0 below five samples.
/// A variance of `v` ms² stands for `v / 10000` percent loss.
pub open spec fn loss_proxy(s: Seq<BandwidthSample>) -> nat {
    if s.len() < 5 {
        0
    } else {
        let v = sum_sq_dev(s, (sum_rtt(s) / s.len()) as int) / s.len();
        if v > MAX_LOSS_PROXY {
            MAX_LOSS_PROXY as nat
        } else {
            v
        }
    }
}

pub open spec fn min_nat(a: nat, b: nat) -> nat {
    if a < b {
        a
    } else {
        b
    }
}

/// The link score in units of 10^-8:
/// `0.5·min(1, bw/50 Mb/s) + 0.3·(1 − min(1, rtt/200 ms)) + 0.2·(1 − min(1, loss/10%))`.
pub open spec fn score(bw_bps: nat, rtt_ms: nat, loss: nat) -> nat {
    (min_nat(bw_bps, 50_000_000) + 150_000 * (200 - min_nat(rtt_ms, 200)) + 200 * (100_000
        - min_nat(loss, 100_000))) as nat
}

/// The mode a score asks for: ≥0.8 Ultra, ≥0.6 High, ≥0.4 Medium, ≥0.2 Low, else Minimal.
pub open spec fn mode_for_score(sc: nat) -> QualityMode {
    if sc >= 80_000_000 {
        QualityMode::Ultra
    } else if sc >= 60_000_000 {
        QualityMode::High
    } else if sc >= 40_000_000 {
        QualityMode::Medium
    } else if sc >= 20_000_000 {
        QualityMode::Low
    } else {
        QualityMode::Minimal
    }
}

/// The mode that the window's metrics ask for, with the defaults where a
/// metric is unknown.
pub open spec fn quality_for(s: Seq<BandwidthSample>) -> QualityMode {
    let bw = match bandwidth_bps(s) {
        Some(b) => b,
        None => DEFAULT_BANDWIDTH_BPS as nat,
    };
    let rtt = match average_rtt(s) {
        Some(r) => r,
        None => DEFAULT_RTT_MS as nat,
    };
    mode_for_score(score(bw, rtt, loss_proxy(s)))
}

/// The sample recorded for an acknowledgement at `now_ms`; an RTT beyond
/// `u32::MAX` ms is recorded as `u32::MAX`.
pub open spec fn sample_of(now_ms: u64, bytes_sent: u64, rtt_ms: u64) -> BandwidthSample {
    BandwidthSample {
        timestamp_ms: now_ms,
        bytes_sent,
        rtt_ms: if rtt_ms > u32::MAX as u64 {
            u32::MAX
        } else {
            rtt_ms as u32
        },
    }
}

/// The window after adding `x`: the oldest sample leaves once there are more than 30.
pub open spec fn window_push(s: Seq<BandwidthSample>, x: BandwidthSample) -> Seq<BandwidthSample> {
    if s.len() + 1 > MAX_SAMPLES {
        s.push(x).drop_first()
    } else {
        s.push(x)
    }
}

/// A rolling window of the last 30 acknowledgements.
pub struct BandwidthMonitor {
    samples: Vec<BandwidthSample>,
    last_update_ms: u64,
}

impl BandwidthMonitor {
    pub closed spec fn window(&self) -> Seq<BandwidthSample> {
        self.samples@
    }

    pub closed spec fn wf(&self) -> bool {
        self.samples@.len() <= MAX_SAMPLES
    }

    /// An empty window.
    pub fn new() -> (r: Self)
        ensures
            r.wf(),
            r.window() == Seq::<BandwidthSample>::empty(),
    {
        BandwidthMonitor { samples: Vec::new(), last_update_ms: now_millis() }
    }

    /// The samples of the window, oldest first.
    pub fn samples(&self) -> (r: &Vec<BandwidthSample>)
        ensures
            r@ == self.window(),
    {
        &self.samples
    }

    /// Adds an acknowledgement received at `now_ms`. An RTT beyond `u32::MAX` ms is
    /// recorded as `u32::MAX`.
    pub fn add_sample_at(&mut self, now_ms: u64, bytes_sent: u64, rtt_ms: u64)
        requires
            old(self).wf(),
        ensures
            final(self).wf(),
            final(self).window() == window_push(
                old(self).window(),
                sample_of(now_ms, bytes_sent, rtt_ms),
            ),
    {
        let rtt: u32 = if rtt_ms > u32::MAX as u64 {
            u32::MAX
        } else {
            rtt_ms as u32
        };
        self.samples.push(BandwidthSample { timestamp_ms: now_ms, bytes_sent, rtt_ms: rtt });
        if self.samples.len() > MAX_SAMPLES {
            let _ = self.samples.remove(0);
        }
        self.last_update_ms = now_ms;
    }

    /// Adds an acknowledgement received now.
    pub fn add_sample(&mut self, bytes_sent: u64, rtt_ms: u64)
        requires
            old(self).wf(),
        ensures
            final(self).wf(),
            exists|t: u64|
                final(self).window() == #[trigger] window_push(
                    old(self).window(),
                    sample_of(t, bytes_sent, rtt_ms),
                ),
    {
        let now = now_millis();
        self.add_sample_at(now, bytes_sent, rtt_ms);
    }

    fn total_bytes(&self) -> (r: u128)
        requires
            self.wf(),
        ensures
            r == sum_bytes(self.window()),
            r <= self.window().len() * 0xffff_ffff_ffff_ffffu128,
    {
        let s = &self.samples;
        let mut acc: u128 = 0;
        let mut i: usize = 0;
        while i < s.len()
            invariant
                i <= s@.len(),
                s@.len() <= MAX_SAMPLES,
                s@ == self.window(),
                acc == sum_bytes(s@.subrange(0, i as int)),
                acc <= i * 0xffff_ffff_ffff_ffffu128,
            decreases s@.len() - i,
        {
            assert(s@.subrange(0, i + 1).drop_last() =~= s@.subrange(0, i as int));
            acc = acc + s[i].bytes_sent as u128;
            i = i + 1;
        }
        assert(s@.subrange(0, s@.len() as int) =~= s@);
        acc
    }

    fn total_rtt(&self) -> (r: u64)
        requires
            self.wf(),
        ensures
            r == sum_rtt(self.window()),
            r <= self.window().len() * 0xffff_ffffu64,
    {
        let s = &self.samples;
        let mut acc: u64 = 0;
        let mut i: usize = 0;
        while i < s.len()
            invariant
                i <= s@.len(),
                s@.len() <= MAX_SAMPLES,
                s@ == self.window(),
                acc == sum_rtt(s@.subrange(0, i as int)),
                acc <= i * 0xffff_ffffu64,
            decreases s@.len() - i,
        {
            assert(s@.subrange(0, i + 1).drop_last() =~= s@.subrange(0, i as int));
            acc = acc + s[i].rtt_ms as u64;
            i = i + 1;
        }
        assert(s@.subrange(0, s@.len() as int) =~= s@);
        acc
    }

    /// Bits per second over the window, if it spans two samples and 100 ms.
    pub fn get_bandwidth_bps(&self) -> (r: Option<u128>)
        requires
            self.wf(),
        ensures
            r matches Some(b) ==> bandwidth_bps(self.window()) == Some(b as nat),
            r is None <==> bandwidth_bps(self.window()) is None,
    {
        if self.samples.len() < 2 {
            return None;
        }
        let first: u64 = self.samples[0].timestamp_ms;
        let last: u64 = self.samples[self.samples.len() - 1].timestamp_ms;
        let dur: u64 = if last >= first {
            last - first
        } else {
            0
        };
        if dur < 100 {
            return None;
        }
        let total = self.total_bytes();
        assert(total <= 30 * 0xffff_ffff_ffff_ffffu128);
        assert(total * 8000 <= 30 * 0xffff_ffff_ffff_ffffu128 * 8000) by (nonlinear_arith)
            requires
                total <= 30 * 0xffff_ffff_ffff_ffffu128,
        ;
        Some(total * 8000 / (dur as u128))
    }

    /// Mean RTT of the window in ms, if it holds a sample.
    pub fn get_average_rtt(&self) -> (r: Option<u64>)
        requires
            self.wf(),
        ensures
            r matches Some(a) ==> average_rtt(self.window()) == Some(a as nat),
            r is None <==> average_rtt(self.window()) is None,
            r matches Some(a) ==> a <= u32::MAX,
    {
        if self.samples.len() == 0 {
            return None;
        }
        let total = self.total_rtt();
        let n: u64 = self.samples.len() as u64;
        assert(total / n <= 0xffff_ffff) by (nonlinear_arith)
            requires
                total <= n * 0xffff_ffff,
                n > 0,
        ;
        Some(total / n)
    }

    /// The loss proxy of the window (see `loss_proxy`).
    pub fn get_packet_loss_proxy(&self) -> (r: u64)
        requires
            self.wf(),
        ensures
            r == loss_proxy(self.window()),
    {
        if self.samples.len() < 5 {
            return 0;
        }
        let avg: u64 = match self.get_average_rtt() {
            Some(a) => a,
            None => 0,
        };
        let s = &self.samples;
        let mut acc: u128 = 0;
        let mut i: usize = 0;
        while i < s.len()
            invariant
                i <= s@.len(),
                s@.len() <= MAX_SAMPLES,
                s@ == self.window(),
                avg <= u32::MAX,
                acc == sum_sq_dev(s@.subrange(0, i as int), avg as int),
                acc <= i * 0x1_0000_0000_0000_0000u128,
            decreases s@.len() - i,
        {
            assert(s@.subrange(0, i + 1).drop_last() =~= s@.subrange(0, i as int));
            let r: u64 = s[i].rtt_ms as u64;
            let d: u64 = if r >= avg {
                r - avg
            } else {
                avg - r
            };
            assert((d as int) * (d as int) <= 0xffff_ffff * 0xffff_ffff) by (nonlinear_arith)
                requires
                    d <= 0xffff_ffff,
            ;
            assert((r - avg) * (r - avg) == (d as int) * (d as int)) by (nonlinear_arith)
                requires
                    d == r - avg || d == avg - r,
            ;
            acc = acc + (d as u128) * (d as u128);
            i = i + 1;
        }
        assert(s@.subrange(0, s@.len() as int) =~= s@);
        let v: u128 = acc / (s.len() as u128);
        if v > MAX_LOSS_PROXY as u128 {
            MAX_LOSS_PROXY
        } else {
            v as u64
        }
    }
}

/// The network view reported to the viewer.
#[derive(Debug, Clone, Copy)]
pub struct QualityMetrics {
    pub quality: QualityMode,
    /// Bits per second, 0 while unknown.
    pub bandwidth_bps: u128,
    /// Mean RTT in ms, 0 while unknown.
    pub average_rtt_ms: u64,
    /// RTT variance in ms², capped at `MAX_LOSS_PROXY`.
    pub packet_loss_proxy: u64,
}

/// The mode score of the given metrics.
pub fn calculate_quality(bw_bps: u128, rtt_ms: u64, loss: u64) -> (r: QualityMode)
    ensures
        r == mode_for_score(score(bw_bps as nat, rtt_ms as nat, loss as nat)),
{
    let b: u64 = if bw_bps < 50_000_000 {
        bw_bps as u64
    } else {
        50_000_000
    };
    let t: u64 = if rtt_ms < 200 {
        rtt_ms
    } else {
        200
    };
    let l: u64 = if loss < 100_000 {
        loss
    } else {
        100_000
    };
    let sc: u64 = b + 150_000 * (200 - t) + 200 * (100_000 - l);
    if sc >= 80_000_000 {
        QualityMode::Ultra
    } else if sc >= 60_000_000 {
        QualityMode::High
    } else if sc >= 40_000_000 {
        QualityMode::Medium
    } else if sc >= 20_000_000 {
        QualityMode::Low
    } else {
        QualityMode::Minimal
    }
}

/// One recommendation: a pinned mode stays; otherwise, once the cooldown
/// since the last change has passed, the mode follows the metrics, and a
/// change restarts the cooldown. Yields the new (mode, time of last change).
pub open spec fn dwell_step(
    current: QualityMode,
    last_change: u64,
    cooldown: u64,
    forced: Option<QualityMode>,
    now: u64,
    recommended: QualityMode,
) -> (QualityMode, u64) {
    if forced is Some {
        (current, last_change)
    } else if now < last_change + cooldown {
        (current, last_change)
    } else if recommended != current {
        (recommended, now)
    } else {
        (current, last_change)
    }
}

/// Picks the quality mode from the network metrics, with a dwell time.
pub struct AdaptiveQualityController {
    current_quality: QualityMode,
    bandwidth_monitor: BandwidthMonitor,
    last_quality_change_ms: u64,
    quality_change_cooldown_ms: u64,
    forced_quality: Option<QualityMode>,
}

impl AdaptiveQualityController {
    pub closed spec fn current(&self) -> QualityMode {
        self.current_quality
    }

    pub closed spec fn last_change(&self) -> u64 {
        self.last_quality_change_ms
    }

    pub closed spec fn cooldown(&self) -> u64 {
        self.quality_change_cooldown_ms
    }

    pub closed spec fn forced(&self) -> Option<QualityMode> {
        self.forced_quality
    }

    pub closed spec fn window(&self) -> Seq<BandwidthSample> {
        self.bandwidth_monitor.window()
    }

    pub closed spec fn wf(&self) -> bool {
        self.bandwidth_monitor.wf()
    }

    /// A controller at High quality, unpinned, whose cooldown starts at `now_ms`.
    pub fn new_at(now_ms: u64) -> (r: Self)
        ensures
            r.wf(),
            r.current() == QualityMode::High,
            r.last_change() == now_ms,
            r.cooldown() == QUALITY_COOLDOWN_MS,
            r.forced() is None,
            r.window() == Seq::<BandwidthSample>::empty(),
    {
        AdaptiveQualityController {
            current_quality: QualityMode::High,
            bandwidth_monitor: BandwidthMonitor::new(),
            last_quality_change_ms: now_ms,
            quality_change_cooldown_ms: QUALITY_COOLDOWN_MS,
            forced_quality: None,
        }
    }

    /// A controller at High quality whose cooldown starts now.
    pub fn new() -> (r: Self)
        ensures
            r.wf(),
            r.current() == QualityMode::High,
            r.cooldown() == QUALITY_COOLDOWN_MS,
            r.forced() is None,
            r.window() == Seq::<BandwidthSample>::empty(),
    {
        Self::new_at(now_millis())
    }

    /// Pins the mode to `quality` (the viewer's request), or unpins with `None`.
    pub fn force_quality(&mut self, quality: Option<QualityMode>)
        ensures
            final(self).forced() == quality,
            final(self).current() == match quality {
                Some(q) => q,
                None => old(self).current(),
            },
            final(self).last_change() == old(self).last_change(),
            final(self).cooldown() == old(self).cooldown(),
            final(self).window() == old(self).window(),
            final(self).wf() == old(self).wf(),
    {
        self.forced_quality = quality;
        if let Some(q) = quality {
            self.current_quality = q;
        }
    }

    /// Records a frame acknowledgement received at `now_ms`.
    pub fn update_metrics_at(&mut self, now_ms: u64, bytes_sent: u64, rtt_ms: u64)
        requires
            old(self).wf(),
        ensures
            final(self).wf(),
            final(self).window() == window_push(
                old(self).window(),
                sample_of(now_ms, bytes_sent, rtt_ms),
            ),
            final(self).current() == old(self).current(),
            final(self).last_change() == old(self).last_change(),
            final(self).cooldown() == old(self).cooldown(),
            final(self).forced() == old(self).forced(),
    {
        self.bandwidth_monitor.add_sample_at(now_ms, bytes_sent, rtt_ms);
    }

    /// Records a frame acknowledgement received now.
    pub fn update_metrics(&mut self, bytes_sent: u64, rtt_ms: u64)
        requires
            old(self).wf(),
        ensures
            final(self).wf(),
            final(self).current() == old(self).current(),
            final(self).last_change() == old(self).last_change(),
            final(self).cooldown() == old(self).cooldown(),
            final(self).forced() == old(self).forced(),
            exists|t: u64|
                final(self).window() == #[trigger] window_push(
                    old(self).window(),
                    sample_of(t, bytes_sent, rtt_ms),
                ),
    {
        let now = now_millis();
        self.update_metrics_at(now, bytes_sent, rtt_ms);
    }

    /// The metrics of the window and the current mode.
    pub fn get_metrics(&self) -> (r: QualityMetrics)
        requires
            self.wf(),
        ensures
            r.quality == self.current(),
            r.bandwidth_bps == match bandwidth_bps(self.window()) {
                Some(b) => b,
                None => 0,
            },
            r.average_rtt_ms == match average_rtt(self.window()) {
                Some(a) => a,
                None => 0,
            },
            r.packet_loss_proxy == loss_proxy(self.window()),
    {
        QualityMetrics {
            quality: self.current_quality,
            bandwidth_bps: match self.bandwidth_monitor.get_bandwidth_bps() {
                Some(b) => b,
                None => 0,
            },
            average_rtt_ms: match self.bandwidth_monitor.get_average_rtt() {
                Some(a) => a,
                None => 0,
            },
            packet_loss_proxy: self.bandwidth_monitor.get_packet_loss_proxy(),
        }
    }

    /// The mode to stream at, as of `now_ms`: the pinned mode if there is one;
    /// otherwise the current mode until the cooldown has passed, then the mode
    /// that the metrics ask for.
    pub fn get_recommended_quality_at(&mut self, now_ms: u64) -> (r: QualityMode)
        requires
            old(self).wf(),
        ensures
            final(self).wf(),
            (final(self).current(), final(self).last_change()) == dwell_step(
                old(self).current(),
                old(self).last_change(),
                old(self).cooldown(),
                old(self).forced(),
                now_ms,
                quality_for(old(self).window()),
            ),
            r == match old(self).forced() {
                Some(q) => q,
                None => final(self).current(),
            },
            final(self).cooldown() == old(self).cooldown(),
            final(self).forced() == old(self).forced(),
            final(self).window() == old(self).window(),
    {
        if let Some(q) = self.forced_quality {
            return q;
        }
        if (now_ms as u128) < (self.last_quality_change_ms as u128) + (
        self.quality_change_cooldown_ms as u128) {
            return self.current_quality;
        }
        let bw: u128 = match self.bandwidth_monitor.get_bandwidth_bps() {
            Some(b) => b,
            None => DEFAULT_BANDWIDTH_BPS,
        };
        let rtt: u64 = match self.bandwidth_monitor.get_average_rtt() {
            Some(a) => a,
            None => DEFAULT_RTT_MS,
        };
        let loss: u64 = self.bandwidth_monitor.get_packet_loss_proxy();
        let recommended = calculate_quality(bw, rtt, loss);
        if recommended != self.current_quality {
            self.current_quality = recommended;
            self.last_quality_change_ms = now_ms;
        }
        self.current_quality
    }

    /// The mode to stream at now.
    pub fn get_recommended_quality(&mut self) -> (r: QualityMode)
        requires
            old(self).wf(),
        ensures
            final(self).wf(),
            final(self).forced() == old(self).forced(),
            final(self).cooldown() == old(self).cooldown(),
            final(self).window() == old(self).window(),
            old(self).forced() matches Some(q) ==> r == q,
            old(self).forced() is None ==> r == final(self).current(),
            exists|t: u64|
                (final(self).current(), final(self).last_change()) == #[trigger] dwell_step(
                    old(self).current(),
                    old(self).last_change(),
                    old(self).cooldown(),
                    old(self).forced(),
                    t,
                    quality_for(old(self).window()),
                ),
    {
        let now = now_millis();
        self.get_recommended_quality_at(now)
    }

    /// The mode streamed at.
    pub fn get_current_quality(&self) -> (r: QualityMode)
        ensures
            r == self.current(),
    {
        self.current_quality
    }
}

/// Automatic changes keep their distance: whatever the metrics ask for, when
/// two successive unpinned recommendations both change the mode, the second
/// comes at least one cooldown after the first.
pub proof fn lemma_quality_dwell(
    current: QualityMode,
    last_change: u64,
    cooldown: u64,
    t1: u64,
    rec1: QualityMode,
    t2: u64,
    rec2: QualityMode,
)
    requires
        t1 <= t2,
        dwell_step(current, last_change, cooldown, None, t1, rec1).0 != current,
        dwell_step(
            dwell_step(current, last_change, cooldown, None, t1, rec1).0,
            dwell_step(current, last_change, cooldown, None, t1, rec1).1,
            cooldown,
            None,
            t2,
            rec2,
        ).0 != dwell_step(current, last_change, cooldown, None, t1, rec1).0,
    ensures
        t2 - t1 >= cooldown,
{
}

/// Paces frame emission to the mode's frame rate.
pub struct RateGate {
    last_emit_ms: Option<u64>,
}

impl RateGate {
    pub closed spec fn last_emit(&self) -> Option<u64> {
        self.last_emit_ms
    }

    /// At `now`, at least `1000 / target_fps(mode)` ms have passed since the
    /// last frame let through, or none was.
    pub open spec fn open_at(&self, now: u64, mode: QualityMode) -> bool {
        match self.last_emit() {
            None => true,
            Some(t) => now >= t && now - t >= mode.spec_frame_interval_ms(),
        }
    }

    /// Whether a frame may go at `now_ms`; records nothing.
    pub fn is_open(&self, now_ms: u64, mode: QualityMode) -> (r: bool)
        ensures
            r == self.open_at(now_ms, mode),
    {
        match self.last_emit_ms {
            None => true,
            Some(t) => now_ms >= t && now_ms - t >= mode.frame_interval_ms(),
        }
    }

    /// Records that a frame went at `now_ms`.
    pub fn record(&mut self, now_ms: u64)
        ensures
            final(self).last_emit() == Some(now_ms),
    {
        self.last_emit_ms = Some(now_ms);
    }

    /// A gate that lets the first frame through.
    pub fn new() -> (r: Self)
        ensures
            r.last_emit() is None,
    {
        RateGate { last_emit_ms: None }
    }

    /// Lets a frame through at `now_ms` when at least `1000 / target_fps(mode)`
    /// ms have passed since the last frame let through, and records it.
    pub fn try_emit(&mut self, now_ms: u64, mode: QualityMode) -> (r: bool)
        ensures
            r == old(self).open_at(now_ms, mode),
            r ==> final(self).last_emit() == Some(now_ms),
            !r ==> *final(self) == *old(self),
    {
        let open = match self.last_emit_ms {
            None => true,
            Some(t) => now_ms >= t && now_ms - t >= mode.frame_interval_ms(),
        };
        if open {
            self.last_emit_ms = Some(now_ms);
        }
        open
    }
}

} // verus!
