//! The host's per-tick frame pipeline: rate gate, keyframe cadence, tile
//! differencing, zstd compression and the frame message to send.
use vstd::prelude::*;
use crate::codec::{compress_frame, compress_tiles, same_rect, zstd_compressed, EncodingType};
use crate::frame_processor::{
    is_delta_of, overlay_all, promotes_to_keyframe, FrameProcessor, FrameType, TileData,
};
use crate::quality::{QualityMode, RateGate};

verus! {

/// A frame message ready for the writer.
#[derive(Debug, Clone)]
pub enum FrameMessage {
    /// A whole frame.
    Screen { timestamp: u64, width: u32, height: u32, data: Vec<u8>, encoding: EncodingType },
    /// The changed tiles, each compressed on its own.
    Delta { timestamp: u64, tiles: Vec<TileData> },
}

/// What one tick did.
#[derive(Debug)]
pub enum TickOutcome {
    /// Too early for the mode's frame rate, or no frame was captured.
    Skipped,
    /// A frame message to send.
    Emitted(FrameMessage),
    /// The frame had the wrong size for its dimensions.
    BadFrame,
}

/// The host pipeline of one session.
pub struct FramePipeline {
    processor: FrameProcessor,
    gate: RateGate,
    quality: QualityMode,
    frames_since_keyframe: u32,
    keyframe_requested: bool,
}

impl FramePipeline {
    pub closed spec fn processor(&self) -> FrameProcessor {
        self.processor
    }

    pub closed spec fn gate(&self) -> RateGate {
        self.gate
    }

    pub closed spec fn quality(&self) -> QualityMode {
        self.quality
    }

    pub closed spec fn frames_since_keyframe(&self) -> u32 {
        self.frames_since_keyframe
    }

    pub closed spec fn keyframe_requested(&self) -> bool {
        self.keyframe_requested
    }

    pub closed spec fn wf(&self) -> bool {
        self.processor.wf()
    }

    /// The next frame is sent whole: one was asked for, or the cadence is due.
    pub open spec fn keyframe_forced(&self) -> bool {
        self.keyframe_requested() || self.frames_since_keyframe()
            >= self.quality().spec_keyframe_interval()
    }

    /// A pipeline for `width × height` frames at `quality`, with no frame sent yet.
    pub fn new(width: u32, height: u32, quality: QualityMode) -> (r: Self)
        ensures
            r.wf(),
            r.processor().reference() is None,
            r.processor().spec_width() == width,
            r.processor().spec_height() == height,
            r.gate().last_emit() is None,
            r.quality() == quality,
            r.frames_since_keyframe() == 0,
            !r.keyframe_requested(),
    {
        FramePipeline {
            processor: FrameProcessor::new(width, height),
            gate: RateGate::new(),
            quality,
            frames_since_keyframe: 0,
            keyframe_requested: false,
        }
    }

    /// Switches the mode; frame rate, cadence and compression follow it from
    /// the next tick.
    pub fn set_quality(&mut self, quality: QualityMode)
        ensures
            final(self).quality() == quality,
            final(self).processor() == old(self).processor(),
            final(self).gate() == old(self).gate(),
            final(self).frames_since_keyframe() == old(self).frames_since_keyframe(),
            final(self).keyframe_requested() == old(self).keyframe_requested(),
    {
        self.quality = quality;
    }

    /// Asks for the next frame to be sent whole (after loss, or a decoder failure).
    pub fn request_keyframe(&mut self)
        ensures
            final(self).keyframe_requested(),
            final(self).quality() == old(self).quality(),
            final(self).processor() == old(self).processor(),
            final(self).gate() == old(self).gate(),
            final(self).frames_since_keyframe() == old(self).frames_since_keyframe(),
    {
        self.keyframe_requested = true;
    }

    pub fn quality_mode(&self) -> (r: QualityMode)
        ensures
            r == self.quality(),
    {
        self.quality
    }

    /// One tick at `now_ms` with the captured RGB frame, if any.
    ///
    /// A frame is taken only when the frame rate allows it, and only a frame
    /// that is sent counts as the last one sent. A frame of another size than the
    /// last one restarts the reference, so it goes whole. The frame goes
    /// whole when it is the first, when one was asked for, when the keyframe
    /// cadence is due or when more than 60% of its tiles changed; otherwise
    /// its changed tiles go.
    pub fn tick(&mut self, now_ms: u64, frame: Option<(&Vec<u8>, u32, u32)>) -> (r: TickOutcome)
        requires
            old(self).wf(),
        ensures
            final(self).wf(),
            final(self).quality() == old(self).quality(),
            !(r is Emitted) ==> *final(self) == *old(self),
            r is Emitted ==> final(self).gate().last_emit() == Some(now_ms)
                && !final(self).keyframe_requested(),
            frame is None ==> r is Skipped,
            frame matches Some((f, w, h)) ==> {
                &&& !old(self).gate().open_at(now_ms, old(self).quality()) ==> r is Skipped
                &&& old(self).gate().open_at(now_ms, old(self).quality()) && f@.len() != w * h
                    * 3 ==> r is BadFrame
                &&& old(self).gate().open_at(now_ms, old(self).quality()) && f@.len() == w * h
                    * 3 ==> r is Emitted
            },
            r matches TickOutcome::Emitted(FrameMessage::Screen { timestamp, width, height, data, encoding }) ==> {
                let (f, w, h) = frame->0;
                &&& timestamp == now_ms
                &&& width == w && height == h
                &&& encoding == EncodingType::ZstdCompressed
                &&& data@ == zstd_compressed(f@, old(self).quality().spec_compression_level())
                &&& final(self).processor().reference() == Some(f@)
                &&& final(self).processor().spec_width() == w
                &&& final(self).processor().spec_height() == h
                &&& final(self).frames_since_keyframe() == 0
            },
            r matches TickOutcome::Emitted(FrameMessage::Delta { timestamp, tiles }) ==> {
                let (f, w, h) = frame->0;
                &&& timestamp == now_ms
                &&& old(self).processor().spec_width() == w
                &&& old(self).processor().spec_height() == h
                &&& !old(self).keyframe_forced()
                &&& old(self).processor().reference() matches Some(prev)
                &&& !promotes_to_keyframe(prev, f@, w as nat, h as nat)
                &&& exists|raw: Seq<TileData>|
                    {
                        &&& #[trigger] is_delta_of(raw, prev, f@, w as nat, h as nat)
                        &&& final(self).processor().reference() == Some(overlay_all(prev, w as nat, raw))
                        &&& raw.len() == tiles@.len()
                        &&& forall|i: int|
                            0 <= i < raw.len() ==> same_rect(#[trigger] tiles@[i], raw[i])
                                && tiles@[i].data@ == zstd_compressed(
                                raw[i].data@,
                                old(self).quality().spec_compression_level(),
                            )
                    }
                &&& final(self).frames_since_keyframe() == if old(self).frames_since_keyframe()
                    == u32::MAX {
                    u32::MAX
                } else {
                    (old(self).frames_since_keyframe() + 1) as u32
                }
            },
    {
        let (f, w, h) = match frame {
            None => {
                return TickOutcome::Skipped;
            },
            Some(x) => x,
        };
        if !self.gate.is_open(now_ms, self.quality) {
            return TickOutcome::Skipped;
        }
        let ghost before = self.processor;
        let force = self.keyframe_requested || self.frames_since_keyframe
            >= self.quality.keyframe_interval();
        let p = match self.processor.process_frame_at_size(f, w, h, force) {
            Ok(p) => p,
            Err(_) => {
                return TickOutcome::BadFrame;
            },
        };
        let level = self.quality.compression_level();
        let ghost pg = p;
        match p.frame_type {
            FrameType::KeyFrame => {
                let data = compress_frame(p.data.as_slice(), level).unwrap();
                self.frames_since_keyframe = 0;
                self.keyframe_requested = false;
                self.gate.record(now_ms);
                TickOutcome::Emitted(
                    FrameMessage::Screen {
                        timestamp: now_ms,
                        width: w,
                        height: h,
                        data,
                        encoding: EncodingType::ZstdCompressed,
                    },
                )
            },
            FrameType::DeltaFrame => {
                let raw: Vec<TileData> = match p.tiles {
                    Some(ts) => ts,
                    None => Vec::new(),
                };
                let tiles = compress_tiles(&raw, level).unwrap();
                proof {
                    let prev = before.reference()->0;
                    assert(pg.tiles == Some(raw));
                    assert(is_delta_of(raw@, prev, f@, w as nat, h as nat));
                    assert(self.processor.reference() == Some(overlay_all(prev, w as nat, raw@)));
                }
                self.frames_since_keyframe = if self.frames_since_keyframe == u32::MAX {
                    u32::MAX
                } else {
                    self.frames_since_keyframe + 1
                };
                self.keyframe_requested = false;
                self.gate.record(now_ms);
                TickOutcome::Emitted(FrameMessage::Delta { timestamp: now_ms, tiles })
            },
        }
    }
}

} // verus!
