//! Frame encoders: settings, the software (WebP lossless) encoder, the
//! platform encoders that fall back to it, and the factory that picks one.
use vstd::prelude::*;
use crate::clock::now_millis;
use crate::quality::QualityMode;

verus! {

/// Largest side of a WebP image, in pixels.
pub const WEBP_MAX_DIMENSION: u32 = 16383;

/// The lossless WebP encoding of a `w × h` RGB image.
pub uninterp spec fn webp_lossless(rgb: Seq<u8>, w: u32, h: u32) -> Seq<u8>;

/// Relies on `webp::Encoder::from_rgb` and `encode_lossless`: the encoding
/// depends on the pixels and the size alone. `from_rgb` panics on a buffer
/// shorter than `w * h * 3`, and `encode_lossless` on a size WebP refuses.
#[verifier::external_body]
fn webp_encode_lossless(rgb: &[u8], w: u32, h: u32) -> (r: Vec<u8>)
    requires
        0 < w <= WEBP_MAX_DIMENSION,
        0 < h <= WEBP_MAX_DIMENSION,
        rgb@.len() == w * h * 3,
    ensures
        r@ == webp_lossless(rgb@, w, h),
{
    webp::Encoder::from_rgb(rgb, w, h).encode_lossless().to_vec()
}

/// Software or platform encoder.
#[derive(Debug, Clone, Copy, PartialEq, Eq, Structural)]
pub enum EncoderType {
    Software,
    Hardware,
}

/// What an encoder is configured with.
#[derive(Debug, Clone, Copy, PartialEq, Eq, Structural)]
pub struct EncoderSettings {
    pub width: u32,
    pub height: u32,
    pub fps: u32,
    pub bitrate: u32,
    pub keyframe_interval: u32,
}

impl EncoderSettings {
    /// Settings an encoder can work with: a WebP-sized frame and a keyframe cadence.
    pub open spec fn valid(&self) -> bool {
        &&& 0 < self.width <= WEBP_MAX_DIMENSION
        &&& 0 < self.height <= WEBP_MAX_DIMENSION
        &&& self.keyframe_interval > 0
    }

    /// The settings a quality mode asks for, for a `width × height` frame:
    /// its frame rate, its bitrate in bits per second and its keyframe cadence.
    pub fn for_quality(mode: QualityMode, width: u32, height: u32) -> (r: EncoderSettings)
        ensures
            r.width == width,
            r.height == height,
            r.fps == mode.spec_target_fps(),
            r.bitrate == mode.spec_bandwidth_requirement_mbps() * 1_000_000,
            r.keyframe_interval == mode.spec_keyframe_interval(),
    {
        EncoderSettings {
            width,
            height,
            fps: mode.target_fps(),
            bitrate: mode.bandwidth_requirement_mbps() * 1_000_000,
            keyframe_interval: mode.keyframe_interval(),
        }
    }
}

/// Tells whether the settings are usable.
pub fn settings_valid(s: &EncoderSettings) -> (r: bool)
    ensures
        r == s.valid(),
{
    0 < s.width && s.width <= WEBP_MAX_DIMENSION && 0 < s.height && s.height <= WEBP_MAX_DIMENSION
        && s.keyframe_interval > 0
}

/// Failures of an encoder.
#[derive(Debug, Clone, Copy, PartialEq, Eq, Structural)]
pub enum EncoderError {
    /// Zero or oversized dimensions, or a keyframe interval of zero.
    InvalidSettings,
    /// The frame is not `width * height * 3` bytes.
    InvalidInput,
}

/// An encoded frame.
#[derive(Debug, Clone)]
pub struct EncodedFrame {
    pub data: Vec<u8>,
    pub is_keyframe: bool,
    pub timestamp: u64,
}

/// The portable encoder, which writes each frame as lossless WebP.
#[derive(Debug)]
pub struct SoftwareEncoder {
    settings: EncoderSettings,
    frame_count: u64,
}

impl SoftwareEncoder {
    pub closed spec fn spec_settings(&self) -> EncoderSettings {
        self.settings
    }

    /// Frames encoded so far.
    pub closed spec fn spec_frame_count(&self) -> u64 {
        self.frame_count
    }

    /// A frame counted `n` is a keyframe when forced or when `n` is a multiple
    /// of the keyframe interval.
    pub open spec fn keyframe_due(&self, force: bool) -> bool {
        force || self.spec_frame_count() % (self.spec_settings().keyframe_interval as u64) == 0
    }

    /// An encoder with `settings`, which must be valid.
    pub fn new(settings: EncoderSettings) -> (r: Result<SoftwareEncoder, EncoderError>)
        ensures
            settings.valid() ==> (r matches Ok(e) && e.spec_settings() == settings
                && e.spec_frame_count() == 0),
            !settings.valid() ==> r == Err::<SoftwareEncoder, EncoderError>(
                EncoderError::InvalidSettings,
            ),
    {
        if !settings_valid(&settings) {
            return Err(EncoderError::InvalidSettings);
        }
        Ok(SoftwareEncoder { settings, frame_count: 0 })
    }

    /// Encodes one frame, a keyframe when forced or when the cadence is due.
    pub fn encode_frame(&mut self, rgb_data: &[u8], force_keyframe: bool) -> (r: Result<
        EncodedFrame,
        EncoderError,
    >)
        requires
            old(self).spec_settings().valid(),
        ensures
            final(self).spec_settings() == old(self).spec_settings(),
            rgb_data@.len() != old(self).spec_settings().width * old(self).spec_settings().height
                * 3 ==> r == Err::<EncodedFrame, EncoderError>(EncoderError::InvalidInput)
                && final(self).spec_frame_count() == old(self).spec_frame_count(),
            rgb_data@.len() == old(self).spec_settings().width * old(self).spec_settings().height
                * 3 ==> (r matches Ok(f) && f.is_keyframe == old(self).keyframe_due(force_keyframe)
                && f.data@ == webp_lossless(
                rgb_data@,
                old(self).spec_settings().width,
                old(self).spec_settings().height,
            ) && final(self).spec_frame_count() == if old(self).spec_frame_count() == u64::MAX {
                0
            } else {
                old(self).spec_frame_count() + 1
            }),
    {
        let w: u32 = self.settings.width;
        let h: u32 = self.settings.height;
        assert((w as nat) * (h as nat) <= 16383 * 16383) by (nonlinear_arith)
            requires
                w <= 16383,
                h <= 16383,
        ;
        let expected: u64 = (w as u64) * (h as u64) * 3;
        if rgb_data.len() as u64 != expected {
            return Err(EncoderError::InvalidInput);
        }
        let is_keyframe = force_keyframe || self.frame_count % (self.settings.keyframe_interval as u64)
            == 0;
        self.frame_count = if self.frame_count == u64::MAX {
            0
        } else {
            self.frame_count + 1
        };
        let data = webp_encode_lossless(rgb_data, w, h);
        Ok(EncodedFrame { data, is_keyframe, timestamp: now_millis() })
    }

    pub fn get_type(&self) -> (r: EncoderType)
        ensures
            r == EncoderType::Software,
    {
        EncoderType::Software
    }

    /// Takes new settings if they are valid.
    pub fn update_settings(&mut self, settings: EncoderSettings) -> (r: Result<(), EncoderError>)
        ensures
            settings.valid() ==> r is Ok && final(self).spec_settings() == settings,
            !settings.valid() ==> r == Err::<(), EncoderError>(EncoderError::InvalidSettings)
                && final(self).spec_settings() == old(self).spec_settings(),
            final(self).spec_frame_count() == old(self).spec_frame_count(),
    {
        if !settings_valid(&settings) {
            return Err(EncoderError::InvalidSettings);
        }
        self.settings = settings;
        Ok(())
    }
}

/// The Windows platform encoder; it encodes through the software encoder.
#[derive(Debug)]
pub struct WindowsHardwareEncoder {
    settings: EncoderSettings,
}

/// The Linux VAAPI encoder; it encodes through the software encoder.
#[derive(Debug)]
pub struct VaapiEncoder {
    settings: EncoderSettings,
}

impl WindowsHardwareEncoder {
    pub closed spec fn spec_settings(&self) -> EncoderSettings {
        self.settings
    }

    pub fn new(settings: EncoderSettings) -> (r: Result<WindowsHardwareEncoder, EncoderError>)
        ensures
            settings.valid() ==> (r matches Ok(e) && e.spec_settings() == settings),
            !settings.valid() ==> r == Err::<WindowsHardwareEncoder, EncoderError>(
                EncoderError::InvalidSettings,
            ),
    {
        if !settings_valid(&settings) {
            return Err(EncoderError::InvalidSettings);
        }
        Ok(WindowsHardwareEncoder { settings })
    }

    /// Encodes through a fresh software encoder, so every frame is a keyframe.
    pub fn encode_frame(&mut self, rgb_data: &[u8], force_keyframe: bool) -> (r: Result<
        EncodedFrame,
        EncoderError,
    >)
        requires
            old(self).spec_settings().valid(),
        ensures
            final(self).spec_settings() == old(self).spec_settings(),
            r matches Ok(f) ==> f.is_keyframe,
            rgb_data@.len() == old(self).spec_settings().width * old(self).spec_settings().height
                * 3 <==> r is Ok,
    {
        let mut sw = SoftwareEncoder::new(self.settings)?;
        sw.encode_frame(rgb_data, force_keyframe)
    }

    pub fn get_type(&self) -> (r: EncoderType)
        ensures
            r == EncoderType::Hardware,
    {
        EncoderType::Hardware
    }

    pub fn update_settings(&mut self, settings: EncoderSettings) -> (r: Result<(), EncoderError>)
        ensures
            settings.valid() ==> r is Ok && final(self).spec_settings() == settings,
            !settings.valid() ==> r == Err::<(), EncoderError>(EncoderError::InvalidSettings)
                && final(self).spec_settings() == old(self).spec_settings(),
    {
        if !settings_valid(&settings) {
            return Err(EncoderError::InvalidSettings);
        }
        self.settings = settings;
        Ok(())
    }
}

impl VaapiEncoder {
    pub closed spec fn spec_settings(&self) -> EncoderSettings {
        self.settings
    }

    pub fn new(settings: EncoderSettings) -> (r: Result<VaapiEncoder, EncoderError>)
        ensures
            settings.valid() ==> (r matches Ok(e) && e.spec_settings() == settings),
            !settings.valid() ==> r == Err::<VaapiEncoder, EncoderError>(
                EncoderError::InvalidSettings,
            ),
    {
        if !settings_valid(&settings) {
            return Err(EncoderError::InvalidSettings);
        }
        Ok(VaapiEncoder { settings })
    }

    /// Encodes through a fresh software encoder, so every frame is a keyframe.
    pub fn encode_frame(&mut self, rgb_data: &[u8], force_keyframe: bool) -> (r: Result<
        EncodedFrame,
        EncoderError,
    >)
        requires
            old(self).spec_settings().valid(),
        ensures
            final(self).spec_settings() == old(self).spec_settings(),
            r matches Ok(f) ==> f.is_keyframe,
            rgb_data@.len() == old(self).spec_settings().width * old(self).spec_settings().height
                * 3 <==> r is Ok,
    {
        let mut sw = SoftwareEncoder::new(self.settings)?;
        sw.encode_frame(rgb_data, force_keyframe)
    }

    pub fn get_type(&self) -> (r: EncoderType)
        ensures
            r == EncoderType::Hardware,
    {
        EncoderType::Hardware
    }

    pub fn update_settings(&mut self, settings: EncoderSettings) -> (r: Result<(), EncoderError>)
        ensures
            settings.valid() ==> r is Ok && final(self).spec_settings() == settings,
            !settings.valid() ==> r == Err::<(), EncoderError>(EncoderError::InvalidSettings)
                && final(self).spec_settings() == old(self).spec_settings(),
    {
        if !settings_valid(&settings) {
            return Err(EncoderError::InvalidSettings);
        }
        self.settings = settings;
        Ok(())
    }
}

/// The encoder the factory hands out.
#[derive(Debug)]
pub enum VideoEncoder {
    Software(SoftwareEncoder),
    Windows(WindowsHardwareEncoder),
    Vaapi(VaapiEncoder),
}

impl VideoEncoder {
    pub open spec fn spec_type(&self) -> EncoderType {
        match self {
            VideoEncoder::Software(_) => EncoderType::Software,
            _ => EncoderType::Hardware,
        }
    }

    pub open spec fn spec_settings(&self) -> EncoderSettings {
        match self {
            VideoEncoder::Software(e) => e.spec_settings(),
            VideoEncoder::Windows(e) => e.spec_settings(),
            VideoEncoder::Vaapi(e) => e.spec_settings(),
        }
    }

    pub fn get_type(&self) -> (r: EncoderType)
        ensures
            r == self.spec_type(),
    {
        match self {
            VideoEncoder::Software(e) => e.get_type(),
            VideoEncoder::Windows(e) => e.get_type(),
            VideoEncoder::Vaapi(e) => e.get_type(),
        }
    }

    /// Encodes one frame with the encoder held.
    pub fn encode_frame(&mut self, rgb_data: &[u8], force_keyframe: bool) -> (r: Result<
        EncodedFrame,
        EncoderError,
    >)
        requires
            old(self).spec_settings().valid(),
        ensures
            final(self).spec_settings() == old(self).spec_settings(),
            final(self).spec_type() == old(self).spec_type(),
            rgb_data@.len() == old(self).spec_settings().width * old(self).spec_settings().height
                * 3 <==> r is Ok,
            force_keyframe ==> (r matches Ok(f) ==> f.is_keyframe),
    {
        match self {
            VideoEncoder::Software(e) => e.encode_frame(rgb_data, force_keyframe),
            VideoEncoder::Windows(e) => e.encode_frame(rgb_data, force_keyframe),
            VideoEncoder::Vaapi(e) => e.encode_frame(rgb_data, force_keyframe),
        }
    }
}

/// Picks an encoder.
pub struct EncoderFactory;

impl EncoderFactory {
    /// No platform encoder is probed here, so none is available.
    pub fn is_hardware_available() -> (r: bool)
        ensures
            !r,
    {
        false
    }

    /// An encoder of the requested type; on Linux the hardware request gets
    /// the VAAPI encoder. Fails only on invalid settings.
    pub fn create_encoder(encoder_type: EncoderType, settings: EncoderSettings) -> (r: Result<
        VideoEncoder,
        EncoderError,
    >)
        ensures
            settings.valid() <==> r is Ok,
            r matches Ok(e) ==> e.spec_type() == encoder_type && e.spec_settings() == settings,
            r matches Err(e) ==> e == EncoderError::InvalidSettings,
    {
        match encoder_type {
            EncoderType::Software => {
                let e = SoftwareEncoder::new(settings)?;
                Ok(VideoEncoder::Software(e))
            },
            EncoderType::Hardware => {
                let e = VaapiEncoder::new(settings)?;
                Ok(VideoEncoder::Vaapi(e))
            },
        }
    }
}

} // verus!
