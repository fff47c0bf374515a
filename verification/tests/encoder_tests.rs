use remote_desktop::annexb::{contains_idr, find_access_unit_boundary};
use remote_desktop::encoder::{AccessUnitReader, H264Encoder};
use remote_desktop::error::CoreError;
use remote_desktop::yuv::{rgb_to_yuv420p, yuv420_layout_fits};

#[test]
fn test_create_encoder() {
    let enc = H264Encoder::new(1920, 1080);
    assert_eq!(enc.width(), 1920);
    assert_eq!(enc.height(), 1080);
}

#[test]
fn test_rgb_to_yuv420() {
    let rgb = vec![255u8, 0, 0, 0, 255, 0, 0, 0, 255, 255, 255, 255];
    assert!(yuv420_layout_fits(rgb.len(), 2, 2));
    let yuv = rgb_to_yuv420p(&rgb, 2, 2);
    assert_eq!(yuv.len(), 2 * 2 * 3 / 2);
}

#[test]
fn test_contains_idr() {
    let data = vec![0x00, 0x00, 0x00, 0x01, 0x65];
    assert!(contains_idr(&data));
    let data = vec![0x00, 0x00, 0x00, 0x01, 0x41];
    assert!(!contains_idr(&data));
}

#[test]
fn test_find_access_unit_boundary() {
    let data = vec![
        0x00, 0x00, 0x00, 0x01, 0x67,
        0xAA, 0xBB,
        0x00, 0x00, 0x00, 0x01, 0x65,
    ];
    assert_eq!(find_access_unit_boundary(&data, 1), Some(7));
}

#[test]
fn rgb_to_yuv_exact_samples() {
    // Limited-range BT.601: white is luma 235, black luma 16, both with
    // neutral chroma.
    let white = vec![255u8; 12];
    let yuv = rgb_to_yuv420p(&white, 2, 2);
    assert_eq!(yuv, vec![235, 235, 235, 235, 128, 128]);
    let black = vec![0u8; 12];
    let yuv = rgb_to_yuv420p(&black, 2, 2);
    assert_eq!(yuv, vec![16, 16, 16, 16, 128, 128]);
    // Pure red: Y = (66*255 + 128)/256 + 16 = 82, U = 91, V = 240.
    let red = vec![255u8, 0, 0, 255, 0, 0, 255, 0, 0, 255, 0, 0];
    let yuv = rgb_to_yuv420p(&red, 2, 2);
    assert_eq!(yuv, vec![82, 82, 82, 82, 91, 240]);
}

#[test]
fn boundary_search_skips_parameter_sets() {
    // Only an SPS and a PPS: no slice starts a new access unit.
    let data = vec![0, 0, 0, 1, 0x67, 1, 0, 0, 0, 1, 0x68, 2];
    assert_eq!(find_access_unit_boundary(&data, 1), None);
    // A three-byte start code of a non-IDR slice is a boundary too.
    let data = vec![0, 0, 0, 1, 0x41, 9, 0, 0, 1, 0x41, 8];
    assert_eq!(find_access_unit_boundary(&data, 1), Some(6));
}

#[test]
fn access_units_are_cut_at_slices() {
    let mut reader = AccessUnitReader::new();
    let stream = vec![
        0, 0, 0, 1, 0x67, 7, 0, 0, 0, 1, 0x65, 5, 5, // SPS, IDR
        0, 0, 0, 1, 0x41, 1, // P slice
        0, 0, 0, 1, 0x41, 2, // P slice
    ];
    // An SPS starts a unit of its own, and so does each slice.
    let frames = reader.push_chunk(&stream);
    assert_eq!(frames.len(), 3);
    assert_eq!(frames[0].data, stream[0..6].to_vec());
    assert!(!frames[0].is_keyframe);
    assert_eq!(frames[0].pts, 0);
    assert_eq!(frames[1].data, stream[6..13].to_vec());
    assert!(frames[1].is_keyframe);
    assert_eq!(frames[1].pts, 1);
    assert_eq!(frames[2].data, stream[13..19].to_vec());
    assert_eq!(frames[2].pts, 2);
    let last = reader.finish().unwrap();
    assert_eq!(last.data, stream[19..].to_vec());
    assert_eq!(last.pts, 3);
}

fn frames_of_chunks(chunks: &[&[u8]]) -> Vec<(Vec<u8>, i64, bool)> {
    let mut reader = AccessUnitReader::new();
    let mut out = Vec::new();
    for chunk in chunks {
        for f in reader.push_chunk(chunk) {
            out.push((f.data, f.pts, f.is_keyframe));
        }
    }
    if let Some(f) = reader.finish() {
        out.push((f.data, f.pts, f.is_keyframe));
    }
    out
}

#[test]
fn start_code_at_end_of_chunk_is_found() {
    // The four bytes of a start code end the first chunk; its header byte
    // comes with the second.
    let first: &[u8] = &[0, 0, 0, 1, 0x65, 0xAA, 0, 0, 0, 1];
    let second: &[u8] = &[0x41, 0xBB];
    let frames = frames_of_chunks(&[first, second]);
    assert_eq!(frames.len(), 2);
    assert_eq!(frames[0], (vec![0, 0, 0, 1, 0x65, 0xAA], 0, true));
    assert_eq!(frames[1], (vec![0, 0, 0, 1, 0x41, 0xBB], 1, false));
}

#[test]
fn frames_do_not_depend_on_chunking() {
    let stream: Vec<u8> = vec![
        0, 0, 0, 1, 0x67, 7, 0, 0, 0, 1, 0x65, 5, 5, // SPS, IDR
        0, 0, 1, 0x41, 1, // P slice, short start code
        0, 0, 0, 1, 0x41, 2, 3, // P slice
        0, 0, 0, 1, 0x65, 4, // IDR
    ];
    let whole = frames_of_chunks(&[&stream]);
    assert_eq!(whole.len(), 5);
    for size in 1..stream.len() {
        let chunks: Vec<&[u8]> = stream.chunks(size).collect();
        assert_eq!(frames_of_chunks(&chunks), whole, "chunk size {}", size);
    }
    for cut in 0..=stream.len() {
        let (a, b) = stream.split_at(cut);
        assert_eq!(frames_of_chunks(&[a, b]), whole, "cut at {}", cut);
    }
}

#[test]
fn encoder_bookkeeping() {
    let mut enc = H264Encoder::new(4, 2);
    assert_eq!(enc.y4m_header(), "YUV4MPEG2 W4 H2 F30:1 Ip C420mpeg2\n");
    let first = enc.priming_input();
    assert_eq!(first.header.as_deref(), Some("YUV4MPEG2 W4 H2 F30:1 Ip C420mpeg2\n"));
    assert_eq!(first.yuv.len(), 12);
    let rgb = vec![0u8; 24];
    let second = enc.prepare_frame(&rgb, 12).unwrap();
    assert!(second.header.is_none());
    match enc.prepare_frame(&rgb[..10], 12) {
        Err(CoreError::PipeWire(m)) => assert_eq!(m, "RGB data too small: 10 < 24"),
        _ => panic!("Expected a short frame to be refused"),
    }
    let gap = enc.missing_frame();
    assert_eq!(gap.pts, -1);
    enc.frame_written();
    enc.frame_written();
    assert_eq!(enc.missing_frame().pts, 1);
    enc.restart();
    assert_eq!(enc.missing_frame().pts, -1);
    assert!(enc.priming_input().header.is_some());
    assert!(enc.request_keyframe().is_ok());
}

#[test]
fn keyframe_request_restarts_the_encoder() {
    let mut enc = H264Encoder::new(4, 2);
    let rgb = vec![0u8; 24];
    let first = enc.prepare_frame(&rgb, 12).unwrap();
    assert!(!first.restart_encoder);
    assert!(first.header.is_some());
    enc.frame_written();
    enc.frame_written();
    assert_eq!(enc.missing_frame().pts, 1);
    assert!(enc.request_keyframe().is_ok());
    let next = enc.prepare_frame(&rgb, 12).unwrap();
    assert!(next.restart_encoder);
    assert_eq!(next.header.as_deref(), Some("YUV4MPEG2 W4 H2 F30:1 Ip C420mpeg2\n"));
    assert_eq!(enc.missing_frame().pts, -1);
    let after = enc.prepare_frame(&rgb, 12).unwrap();
    assert!(!after.restart_encoder);
    assert!(after.header.is_none());
}
