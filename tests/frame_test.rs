use vox_gui::codec::{decode_frame_data, decompress_tiles, EncodingType};
use vox_gui::frame_processor::{FrameError, FrameProcessor, FrameSink, FrameType, ProcessedFrame, TileData};
use vox_gui::pipeline::{FrameMessage, FramePipeline, TickOutcome};
use vox_gui::quality::QualityMode;

fn test_image(w: usize, h: usize) -> Vec<u8> {
    let mut v = Vec::with_capacity(w * h * 3);
    for y in 0..h {
        for x in 0..w {
            v.push((x % 251) as u8);
            v.push((y % 241) as u8);
            v.push(((x + y) % 239) as u8);
        }
    }
    v
}

/// Changes every pixel of tile (tx, ty) of a `w`-wide frame.
fn mutate_tile(f: &mut [u8], w: usize, h: usize, tx: usize, ty: usize) {
    for y in ty * 64..((ty + 1) * 64).min(h) {
        for x in tx * 64..((tx + 1) * 64).min(w) {
            let o = (y * w + x) * 3;
            f[o] = f[o].wrapping_add(97);
        }
    }
}

#[test]
fn delta_reconstruction_two_tiles() {
    let mut host = FrameProcessor::new(128, 128);
    let img = test_image(128, 128);
    let first = host.process_frame(&img, false).unwrap();
    assert_eq!(first.frame_type, FrameType::KeyFrame);
    assert_eq!(first.data, img);
    assert!(first.tiles.is_none());

    let mut sink = FrameSink::new();
    sink.apply(&first).unwrap();
    assert_eq!(sink.current().unwrap(), &img);

    let mut next = img.clone();
    mutate_tile(&mut next, 128, 128, 0, 0);
    mutate_tile(&mut next, 128, 128, 1, 0);
    let delta = host.process_frame(&next, false).unwrap();
    assert_eq!(delta.frame_type, FrameType::DeltaFrame);
    assert!(delta.data.is_empty());
    let tiles = delta.tiles.as_ref().unwrap();
    let rects: Vec<(u32, u32, u32, u32)> = tiles.iter().map(|t| (t.x, t.y, t.width, t.height)).collect();
    assert_eq!(rects, vec![(0, 0, 64, 64), (64, 0, 64, 64)]);
    assert!(tiles.iter().all(|t| t.data.len() == 64 * 64 * 3));

    sink.apply(&delta).unwrap();
    assert_eq!(sink.current().unwrap(), host.reference_frame().unwrap());
    assert_eq!(sink.current().unwrap(), &next);
}

#[test]
fn keyframe_promotion_over_sixty_percent() {
    let img = test_image(256, 256);
    let mut host = FrameProcessor::new(256, 256);
    host.process_frame(&img, false).unwrap();
    let mut next = img.clone();
    for k in 0..11 {
        mutate_tile(&mut next, 256, 256, k % 4, k / 4);
    }
    let out = host.process_frame(&next, false).unwrap();
    assert_eq!(out.frame_type, FrameType::KeyFrame);
    assert_eq!(out.data, next);
    assert_eq!(host.reference_frame().unwrap(), &next);
}

#[test]
fn promotion_threshold_is_strictly_above_sixty_percent() {
    let img = test_image(256, 256);
    // 9 of 16 tiles (56%) stay a delta.
    let mut host = FrameProcessor::new(256, 256);
    host.process_frame(&img, false).unwrap();
    let mut nine = img.clone();
    for k in 0..9 {
        mutate_tile(&mut nine, 256, 256, k % 4, k / 4);
    }
    let out = host.process_frame(&nine, false).unwrap();
    assert_eq!(out.frame_type, FrameType::DeltaFrame);
    assert_eq!(out.tiles.unwrap().len(), 9);
    // 10 of 16 tiles (62.5%) go whole.
    let mut host = FrameProcessor::new(256, 256);
    host.process_frame(&img, false).unwrap();
    let mut ten = img.clone();
    for k in 0..10 {
        mutate_tile(&mut ten, 256, 256, k % 4, k / 4);
    }
    assert_eq!(host.process_frame(&ten, false).unwrap().frame_type, FrameType::KeyFrame);
}

#[test]
fn edge_tiles_are_clipped() {
    let img = test_image(100, 70);
    let mut host = FrameProcessor::new(100, 70);
    host.process_frame(&img, false).unwrap();
    let mut next = img.clone();
    mutate_tile(&mut next, 100, 70, 1, 1);
    let out = host.process_frame(&next, false).unwrap();
    let tiles = out.tiles.unwrap();
    assert_eq!(tiles.len(), 1);
    assert_eq!((tiles[0].x, tiles[0].y, tiles[0].width, tiles[0].height), (64, 64, 36, 6));
    assert_eq!(tiles[0].data.len(), 36 * 6 * 3);
}

#[test]
fn unchanged_frame_gives_empty_delta_and_forced_keyframe() {
    let img = test_image(64, 64);
    let mut host = FrameProcessor::new(64, 64);
    host.process_frame(&img, false).unwrap();
    let same = host.process_frame(&img, false).unwrap();
    assert_eq!(same.frame_type, FrameType::DeltaFrame);
    assert!(same.tiles.unwrap().is_empty());
    let forced = host.process_frame(&img, true).unwrap();
    assert_eq!(forced.frame_type, FrameType::KeyFrame);
}

#[test]
fn wrong_frame_size_is_refused() {
    let mut host = FrameProcessor::new(10, 10);
    assert_eq!(host.process_frame(&vec![0u8; 299], false).err(), Some(FrameError::DimensionMismatch));
    assert!(host.reference_frame().is_none());
}

#[test]
fn apply_delta_checks_tiles() {
    let host = FrameProcessor::new(4, 4);
    let mut base = vec![0u8; 48];
    let good = ProcessedFrame {
        frame_type: FrameType::DeltaFrame,
        data: Vec::new(),
        width: 4,
        height: 4,
        tiles: Some(vec![TileData { x: 2, y: 2, width: 2, height: 1, data: vec![9; 6] }]),
    };
    host.apply_delta(&mut base, &good).unwrap();
    let o = (2 * 4 + 2) * 3;
    assert_eq!(&base[o..o + 6], &[9; 6]);
    assert_eq!(base.iter().filter(|b| **b == 9).count(), 6);
    let bad = ProcessedFrame {
        frame_type: FrameType::DeltaFrame,
        data: Vec::new(),
        width: 4,
        height: 4,
        tiles: Some(vec![TileData { x: 3, y: 0, width: 2, height: 1, data: vec![1; 6] }]),
    };
    let before = base.clone();
    assert_eq!(host.apply_delta(&mut base, &bad), Err(FrameError::TileOutOfBounds));
    assert_eq!(base, before);
    let mut short = vec![0u8; 47];
    assert_eq!(host.apply_delta(&mut short, &good), Err(FrameError::DimensionMismatch));
}

#[test]
fn sink_discards_delta_without_frame() {
    let mut sink = FrameSink::new();
    let delta = ProcessedFrame {
        frame_type: FrameType::DeltaFrame,
        data: Vec::new(),
        width: 2,
        height: 2,
        tiles: Some(vec![]),
    };
    assert!(sink.apply(&delta).is_ok());
    assert!(sink.current().is_none());
}

#[test]
fn pipeline_emits_keyframe_then_compressed_delta() {
    let img = test_image(128, 128);
    let mut pipe = FramePipeline::new(128, 128, QualityMode::High);
    let first = pipe.tick(0, Some((&img, 128, 128)));
    let (w, h, data) = match first {
        TickOutcome::Emitted(FrameMessage::Screen { timestamp, width, height, data, encoding }) => {
            assert_eq!(timestamp, 0);
            assert_eq!(encoding, EncodingType::ZstdCompressed);
            (width, height, data)
        }
        other => panic!("expected a keyframe, got {:?}", other),
    };
    assert_eq!((w, h), (128, 128));
    assert_ne!(data, img);
    let rgb = decode_frame_data(&data, EncodingType::ZstdCompressed).unwrap();
    assert_eq!(rgb, img);

    // Too soon for 30 fps: skipped.
    assert!(matches!(pipe.tick(10, Some((&img, 128, 128))), TickOutcome::Skipped));
    assert!(matches!(pipe.tick(40, None), TickOutcome::Skipped));

    let mut next = img.clone();
    mutate_tile(&mut next, 128, 128, 1, 1);
    let tiles = match pipe.tick(40, Some((&next, 128, 128))) {
        TickOutcome::Emitted(FrameMessage::Delta { timestamp, tiles }) => {
            assert_eq!(timestamp, 40);
            tiles
        }
        other => panic!("expected a delta, got {:?}", other),
    };
    assert_eq!(tiles.len(), 1);
    assert_eq!((tiles[0].x, tiles[0].y), (64, 64));
    let raw = decompress_tiles(&tiles).unwrap();
    assert_eq!(raw[0].data.len(), 64 * 64 * 3);

    let mut sink = FrameSink::new();
    let key = ProcessedFrame { frame_type: FrameType::KeyFrame, data: rgb, width: 128, height: 128, tiles: None };
    sink.apply(&key).unwrap();
    let delta = ProcessedFrame { frame_type: FrameType::DeltaFrame, data: Vec::new(), width: 128, height: 128, tiles: Some(raw) };
    sink.apply(&delta).unwrap();
    assert_eq!(sink.current().unwrap(), &next);
}

#[test]
fn pipeline_keyframe_cadence_and_resize() {
    let img = test_image(64, 64);
    let mut pipe = FramePipeline::new(64, 64, QualityMode::Minimal);
    let mut kinds = Vec::new();
    for i in 0..12u64 {
        match pipe.tick(i * 100, Some((&img, 64, 64))) {
            TickOutcome::Emitted(FrameMessage::Screen { .. }) => kinds.push('K'),
            TickOutcome::Emitted(FrameMessage::Delta { .. }) => kinds.push('D'),
            other => panic!("unexpected {:?}", other),
        }
    }
    // Minimal mode sends a keyframe every 10 frames.
    assert_eq!(kinds.iter().collect::<String>(), "KDDDDDDDDDDK");
    let bigger = test_image(128, 64);
    assert!(matches!(pipe.tick(2000, Some((&bigger, 128, 64))), TickOutcome::Emitted(FrameMessage::Screen { .. })));
    pipe.request_keyframe();
    assert!(matches!(pipe.tick(3000, Some((&bigger, 128, 64))), TickOutcome::Emitted(FrameMessage::Screen { .. })));
    assert!(matches!(pipe.tick(4000, Some((&vec![0u8; 5], 128, 64))), TickOutcome::BadFrame));
}

#[test]
fn bad_frame_does_not_use_up_the_rate_slot() {
    let img = test_image(64, 64);
    let mut pipe = FramePipeline::new(64, 64, QualityMode::High);
    assert!(matches!(pipe.tick(0, Some((&img, 64, 64))), TickOutcome::Emitted(_)));
    assert!(matches!(pipe.tick(40, Some((&vec![1u8; 7], 64, 64))), TickOutcome::BadFrame));
    // The slot at 40 ms is still free.
    assert!(matches!(pipe.tick(40, Some((&img, 64, 64))), TickOutcome::Emitted(_)));
    assert!(matches!(pipe.tick(50, Some((&img, 64, 64))), TickOutcome::Skipped));
}

#[test]
fn size_change_restarts_the_reference() {
    let mut host = FrameProcessor::new(64, 64);
    let small = test_image(64, 64);
    host.process_frame_at_size(&small, 64, 64, false).unwrap();
    let big = test_image(128, 64);
    // The plain entry point refuses a frame of another size.
    assert_eq!(host.process_frame(&big, false).err(), Some(FrameError::DimensionMismatch));
    let out = host.process_frame_at_size(&big, 128, 64, false).unwrap();
    assert_eq!(out.frame_type, FrameType::KeyFrame);
    assert_eq!((out.width, out.height), (128, 64));
    assert_eq!(out.data, big);
    assert_eq!(host.reference_frame().unwrap(), &big);
    assert_eq!((host.width(), host.height()), (128, 64));
    let again = host.process_frame_at_size(&big, 128, 64, false).unwrap();
    assert_eq!(again.frame_type, FrameType::DeltaFrame);
    assert_eq!(host.process_frame_at_size(&big, 64, 64, false).err(), Some(FrameError::DimensionMismatch));
    assert_eq!((host.width(), host.height()), (128, 64));
}
