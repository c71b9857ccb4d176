use hbb_common::compress::{
    compress, decompress, decompress_capacity_for, MAX_DECOMPRESS_CAPACITY,
    MIN_DECOMPRESS_CAPACITY,
};

#[test]
fn compress_then_decompress_gives_data_back() {
    let data: Vec<u8> = (0..10_000u32).map(|i| (i % 251) as u8).collect();
    let frame = compress(&data);
    assert!(!frame.is_empty());
    assert_ne!(frame, data);
    assert!(frame.len() < data.len());
    assert_eq!(decompress(&frame), data);
}

#[test]
fn compress_of_empty_input_round_trips() {
    let frame = compress(&[]);
    assert!(!frame.is_empty());
    assert_eq!(decompress(&frame), Vec::<u8>::new());
}

#[test]
fn compressed_frame_starts_with_zstd_magic() {
    let frame = compress(b"hello hello hello hello");
    assert_eq!(&frame[..4], &[0x28, 0xb5, 0x2f, 0xfd]);
}

#[test]
fn decompress_of_invalid_data_is_empty() {
    assert!(decompress(b"not a zstd frame").is_empty());
    assert!(decompress(&[]).is_empty());
}

#[test]
fn decompress_of_content_larger_than_buffer_is_empty() {
    let data = vec![0u8; 2 * 1024 * 1024];
    let frame = compress(&data);
    assert!(30 * frame.len() < MIN_DECOMPRESS_CAPACITY);
    assert!(decompress(&frame).is_empty());
}

#[test]
fn decompress_of_content_that_just_fits_is_content() {
    let data = vec![7u8; MIN_DECOMPRESS_CAPACITY];
    let frame = compress(&data);
    assert!(30 * frame.len() < MIN_DECOMPRESS_CAPACITY);
    assert_eq!(decompress(&frame), data);
}

#[test]
fn decompress_of_concatenated_frames_is_concatenated_content() {
    let a: Vec<u8> = b"first packet, first packet".to_vec();
    let b: Vec<u8> = (0..5000u32).map(|i| (i % 13) as u8).collect();
    let mut both = compress(&a);
    both.extend_from_slice(&compress(&b));
    let mut expected = a.clone();
    expected.extend_from_slice(&b);
    assert_eq!(decompress(&both), expected);
}

#[test]
fn decompress_is_the_same_on_every_call() {
    let frame = compress(&vec![3u8; 3 * 1024 * 1024]);
    let first = decompress(&frame);
    let _ = compress(b"something else in between");
    assert_eq!(decompress(&frame), first);
}

#[test]
fn decompress_capacity_is_thirty_times_clamped() {
    assert_eq!(decompress_capacity_for(0), MIN_DECOMPRESS_CAPACITY);
    assert_eq!(decompress_capacity_for(1000), MIN_DECOMPRESS_CAPACITY);
    assert_eq!(decompress_capacity_for(34_952), MIN_DECOMPRESS_CAPACITY);
    assert_eq!(decompress_capacity_for(34_953), 1_048_590);
    assert_eq!(decompress_capacity_for(100_000), 3_000_000);
    assert_eq!(decompress_capacity_for(2_236_962), 67_108_860);
    assert_eq!(decompress_capacity_for(2_236_963), MAX_DECOMPRESS_CAPACITY);
    assert_eq!(decompress_capacity_for(usize::MAX), MAX_DECOMPRESS_CAPACITY);
}
