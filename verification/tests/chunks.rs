use joyboot::firmware::{chunk, chunk_count};
use joyboot::bootloader::Bootloader;

#[test]
fn fifteen_bytes_make_three_chunks() {
    let firmware: Vec<u8> = (1..=15).collect();
    assert_eq!(chunk_count(firmware.len()), 3);
    assert_eq!(chunk(&firmware, 0), &[1, 2, 3, 4, 5, 6, 7]);
    assert_eq!(chunk(&firmware, 1), &[8, 9, 10, 11, 12, 13, 14]);
    assert_eq!(chunk(&firmware, 2), &[15]);
    assert_eq!(
        Bootloader::make_program_data(1, 1, chunk(&firmware, 2)),
        vec![1, 0x14, 15, 0xff, 0xff, 0xff, 0xff, 0xff, 0xff]
    );
}

#[test]
fn chunk_count_is_the_ceiling() {
    assert_eq!(chunk_count(0), 0);
    assert_eq!(chunk_count(1), 1);
    assert_eq!(chunk_count(6), 1);
    assert_eq!(chunk_count(7), 1);
    assert_eq!(chunk_count(8), 2);
    assert_eq!(chunk_count(14), 2);
    assert_eq!(chunk_count(15), 3);
    assert_eq!(chunk_count(65536), 9363);
    assert_eq!(chunk_count(usize::MAX), usize::MAX / 7 + 1);
    for len in 0..200usize {
        let count = chunk_count(len);
        assert!(count * 7 >= len);
        assert!(len == 0 || (count - 1) * 7 < len);
    }
}

#[test]
fn chunks_past_the_end_are_empty() {
    let firmware: Vec<u8> = (1..=15).collect();
    assert!(chunk(&firmware, 3).is_empty());
    assert!(chunk(&firmware, 4).is_empty());
    assert!(chunk(&firmware, usize::MAX).is_empty());
    let empty: Vec<u8> = Vec::new();
    assert!(chunk(&empty, 0).is_empty());
    let exact: Vec<u8> = vec![9; 14];
    assert_eq!(chunk(&exact, 1).len(), 7);
    assert!(chunk(&exact, 2).is_empty());
}

#[test]
fn chunks_agree_with_the_standard_library() {
    for len in 0..60usize {
        let firmware: Vec<u8> = (0..len).map(|i| (i * 7 + 3) as u8).collect();
        let expected: Vec<&[u8]> = firmware.chunks(7).collect();
        assert_eq!(chunk_count(len), expected.len());
        for (index, piece) in expected.iter().enumerate() {
            assert_eq!(chunk(&firmware, index), *piece);
        }
    }
}

#[test]
fn chunks_rebuild_the_firmware() {
    for len in [0usize, 1, 6, 7, 8, 13, 14, 15, 100] {
        let firmware: Vec<u8> = (0..len).map(|i| (i % 251) as u8).collect();
        let mut joined: Vec<u8> = Vec::new();
        for index in 0..chunk_count(len) {
            joined.extend_from_slice(chunk(&firmware, index));
        }
        assert_eq!(joined, firmware);
    }
}
