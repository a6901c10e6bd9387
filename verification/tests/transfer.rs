use sftp_core::transfer::{copy_step, run_copy, split_chunks, CopyStep, CHUNK_SIZE};

#[test]
fn copy_step_zero_read_is_done() {
    let buffer = vec![9u8; 16];
    assert!(matches!(copy_step(&buffer, 0), CopyStep::Done));
}

#[test]
fn copy_step_hands_back_exactly_the_read_bytes() {
    let buffer = vec![1u8, 2, 3, 4, 5];
    match copy_step(&buffer, 3) {
        CopyStep::Write(c) => assert_eq!(c, vec![1u8, 2, 3]),
        CopyStep::Done => panic!("a read of 3 bytes must be written"),
    }
}

#[test]
fn split_chunks_of_empty_source_is_empty() {
    let data: Vec<u8> = Vec::new();
    assert!(split_chunks(&data).is_empty());
}

#[test]
fn split_chunks_small_source_is_one_chunk() {
    let data = vec![7u8, 8, 9];
    let chunks = split_chunks(&data);
    assert_eq!(chunks.len(), 1);
    assert_eq!(chunks[0], data);
}

#[test]
fn split_chunks_exact_buffer_is_one_chunk() {
    let data = vec![5u8; CHUNK_SIZE];
    let chunks = split_chunks(&data);
    assert_eq!(chunks.len(), 1);
    assert_eq!(chunks[0].len(), CHUNK_SIZE);
}

#[test]
fn split_chunks_cuts_at_buffer_size() {
    let mut data = Vec::new();
    for i in 0..(CHUNK_SIZE + 1) {
        data.push((i % 251) as u8);
    }
    let chunks = split_chunks(&data);
    assert_eq!(chunks.len(), 2);
    assert_eq!(chunks[0].len(), CHUNK_SIZE);
    assert_eq!(chunks[1].len(), 1);
    let rejoined: Vec<u8> = chunks.concat();
    assert_eq!(rejoined, data);
}

#[test]
fn run_copy_stops_at_first_empty_read() {
    let reads = vec![vec![1u8, 2], Vec::new(), vec![3u8, 4]];
    assert_eq!(run_copy(&reads), vec![1u8, 2]);
}

#[test]
fn download_then_reupload_is_byte_identical() {
    // a source larger than two full buffers, with an uneven tail
    let mut remote = Vec::new();
    for i in 0..(2 * CHUNK_SIZE + 137) {
        remote.push((i % 239) as u8);
    }
    // the download reads the remote content buffer by buffer, then sees the
    // zero-length read, and writes what it read
    let mut reads = split_chunks(&remote);
    reads.push(Vec::new());
    let local = run_copy(&reads);
    assert_eq!(local, remote);
    // re-uploading the downloaded bytes writes each chunk in full
    let uploaded: Vec<u8> = split_chunks(&local).concat();
    assert_eq!(uploaded, remote);
}

#[test]
fn zero_byte_source_gives_zero_byte_destination() {
    let remote: Vec<u8> = Vec::new();
    let mut reads = split_chunks(&remote);
    reads.push(Vec::new());
    let local = run_copy(&reads);
    assert!(local.is_empty());
    let uploaded: Vec<u8> = split_chunks(&local).concat();
    assert!(uploaded.is_empty());
}
