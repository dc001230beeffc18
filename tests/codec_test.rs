use vox_gui::codec::{compress_frame, compress_tiles, decode_frame_data, decompress_tiles, EncodingType};
use vox_gui::encoder::{EncoderError, EncoderFactory, EncoderSettings, EncoderType, SoftwareEncoder, VaapiEncoder, WindowsHardwareEncoder};
use vox_gui::frame_processor::TileData;
use vox_gui::pixels::{bgra_to_rgb, rgb_to_bgra, scale_frame};
use vox_gui::quality::QualityMode;

#[test]
fn bgra_rgb_conversions() {
    let bgra = vec![1, 2, 3, 255, 4, 5, 6, 128, 7];
    assert_eq!(bgra_to_rgb(&bgra, 2, 1), vec![3, 2, 1, 6, 5, 4]);
    let rgb = vec![10, 20, 30, 40, 50, 60, 70];
    assert_eq!(rgb_to_bgra(&rgb, 2, 1), vec![30, 20, 10, 255, 60, 50, 40, 255]);
    assert_eq!(bgra_to_rgb(&rgb_to_bgra(&rgb[..6], 2, 1), 2, 1), rgb[..6].to_vec());
}

#[test]
fn zstd_frame_round_trip() {
    let data: Vec<u8> = (0..10_000u32).map(|i| (i % 7) as u8).collect();
    let c = compress_frame(&data, 3).unwrap();
    assert_ne!(c, data);
    assert!(c.len() < data.len());
    assert_eq!(decode_frame_data(&c, EncodingType::ZstdCompressed).unwrap(), data);
    assert_eq!(decode_frame_data(&data, EncodingType::Raw).unwrap(), data);
    assert!(decode_frame_data(&data, EncodingType::H264).is_none());
    assert!(decode_frame_data(&vec![1, 2, 3], EncodingType::ZstdCompressed).is_none());
}

#[test]
fn tiles_compress_independently() {
    let tiles = vec![
        TileData { x: 0, y: 0, width: 2, height: 1, data: vec![1; 6] },
        TileData { x: 64, y: 0, width: 1, height: 1, data: vec![2, 3, 4] },
    ];
    let c = compress_tiles(&tiles, 9).unwrap();
    assert_eq!(c.len(), 2);
    assert_eq!((c[1].x, c[1].y, c[1].width, c[1].height), (64, 0, 1, 1));
    assert_ne!(c[0].data, tiles[0].data);
    let d = decompress_tiles(&c).unwrap();
    assert_eq!(d[0].data, tiles[0].data);
    assert_eq!(d[1].data, tiles[1].data);
    assert!(decompress_tiles(&tiles).is_none());
}

fn settings(w: u32, h: u32, key: u32) -> EncoderSettings {
    EncoderSettings { width: w, height: h, fps: 30, bitrate: 5_000_000, keyframe_interval: key }
}

#[test]
fn software_encoder_webp_and_cadence() {
    let mut e = SoftwareEncoder::new(settings(4, 2, 3)).unwrap();
    let rgb = vec![200u8; 4 * 2 * 3];
    let mut flags = Vec::new();
    for i in 0..5 {
        let f = e.encode_frame(&rgb, i == 4).unwrap();
        assert_eq!(&f.data[..4], b"RIFF");
        assert_eq!(&f.data[8..12], b"WEBP");
        flags.push(f.is_keyframe);
    }
    assert_eq!(flags, vec![true, false, false, true, true]);
    assert_eq!(e.encode_frame(&rgb[..5], false).err(), Some(EncoderError::InvalidInput));
    assert_eq!(e.get_type(), EncoderType::Software);
}

#[test]
fn encoder_settings_are_checked() {
    assert_eq!(SoftwareEncoder::new(settings(0, 2, 3)).err(), Some(EncoderError::InvalidSettings));
    assert_eq!(SoftwareEncoder::new(settings(4, 2, 0)).err(), Some(EncoderError::InvalidSettings));
    assert_eq!(VaapiEncoder::new(settings(20_000, 2, 1)).err(), Some(EncoderError::InvalidSettings));
    let mut w = WindowsHardwareEncoder::new(settings(2, 2, 5)).unwrap();
    assert_eq!(w.get_type(), EncoderType::Hardware);
    assert!(w.encode_frame(&vec![0u8; 12], false).unwrap().is_keyframe);
    assert_eq!(w.update_settings(settings(0, 0, 0)), Err(EncoderError::InvalidSettings));
}

#[test]
fn factory_creates_requested_type() {
    assert!(!EncoderFactory::is_hardware_available());
    let mut e = EncoderFactory::create_encoder(EncoderType::Software, settings(2, 2, 10)).unwrap();
    assert_eq!(e.get_type(), EncoderType::Software);
    assert!(e.encode_frame(&vec![5u8; 12], false).unwrap().is_keyframe);
    let h = EncoderFactory::create_encoder(EncoderType::Hardware, settings(2, 2, 10)).unwrap();
    assert_eq!(h.get_type(), EncoderType::Hardware);
    assert!(EncoderFactory::create_encoder(EncoderType::Software, settings(2, 2, 0)).is_err());
}

#[test]
fn settings_follow_quality_mode() {
    let s = EncoderSettings::for_quality(QualityMode::Low, 1920, 1080);
    assert_eq!((s.width, s.height, s.fps, s.bitrate, s.keyframe_interval), (1920, 1080, 15, 5_000_000, 15));
    let u = EncoderSettings::for_quality(QualityMode::Ultra, 8, 8);
    assert_eq!((u.fps, u.bitrate, u.keyframe_interval), (60, 50_000_000, 120));
}

#[test]
fn nearest_neighbour_downscale() {
    // 4×2 frame, pixel (x, y) = [x, y, 7].
    let mut rgb = Vec::new();
    for y in 0..2u8 {
        for x in 0..4u8 {
            rgb.extend_from_slice(&[x, y, 7]);
        }
    }
    let half = scale_frame(&rgb, 4, 2, 50);
    assert_eq!(half, vec![0, 0, 7, 2, 0, 7]);
    assert_eq!(scale_frame(&rgb, 4, 2, 100), rgb);
    let three_quarters = scale_frame(&rgb, 4, 2, 75);
    // 3×1: sources x = 0, 1 (100/75 = 1.33), 2 (200/75 = 2.67).
    assert_eq!(three_quarters, vec![0, 0, 7, 1, 0, 7, 2, 0, 7]);
    assert!(scale_frame(&rgb, 4, 2, 25).is_empty());
}
