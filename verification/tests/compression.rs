use direct_storage::compression::{
    compressed, uncompressed, ChunkMetadata, Metadata, PipelineError,
};

const MIB: u32 = 1024 * 1024;

fn sizes(metadata: &Metadata) -> Vec<u32> {
    metadata.chunks.iter().map(|c| c.uncompressed_size).collect()
}

/// A toy codec: a window of one repeated byte shrinks to that byte and the
/// window's length; any other window grows by one marker byte.
fn toy_compress(window: &[u8]) -> Vec<u8> {
    let uniform = !window.is_empty() && window.iter().all(|b| *b == window[0]);
    if uniform && window.len() > 5 {
        let mut out = vec![1u8, window[0]];
        out.extend_from_slice(&(window.len() as u32).to_le_bytes());
        out
    } else {
        let mut out = vec![0u8];
        out.extend_from_slice(window);
        out
    }
}

fn toy_decompress(stored: &[u8]) -> Vec<u8> {
    if stored[0] == 1 {
        let len = u32::from_le_bytes([stored[2], stored[3], stored[4], stored[5]]) as usize;
        vec![stored[1]; len]
    } else {
        stored[1..].to_vec()
    }
}

fn compress_all(data: &[u8], chunk_size: u32) -> Vec<Vec<u8>> {
    let windows = uncompressed(data.len() as u64, chunk_size).unwrap();
    windows
        .chunks
        .iter()
        .map(|c| toy_compress(&data[c.offset as usize..(c.offset + c.uncompressed_size) as usize]))
        .collect()
}

fn restore(bytes: &[u8], metadata: &Metadata) -> Vec<u8> {
    let mut out = Vec::new();
    for chunk in &metadata.chunks {
        let stored = &bytes[chunk.offset as usize..(chunk.offset + chunk.compressed_size) as usize];
        if chunk.compressed {
            out.extend_from_slice(&toy_decompress(stored));
        } else {
            out.extend_from_slice(stored);
        }
    }
    out
}

#[test]
fn two_and_a_half_chunks_make_three() {
    let metadata = uncompressed((2 * MIB + MIB / 2) as u64, MIB).unwrap();
    assert_eq!(sizes(&metadata), vec![MIB, MIB, MIB / 2]);
    assert!(metadata.chunks.iter().all(|c| !c.compressed));
    assert_eq!(metadata.uncompressed_size, 2 * MIB + MIB / 2);
    assert_eq!(metadata.compressed_size, 2 * MIB + MIB / 2);
    assert_eq!(
        metadata.chunks[2],
        ChunkMetadata {
            compressed: false,
            offset: 2 * MIB,
            compressed_size: MIB / 2,
            uncompressed_size: MIB / 2,
        }
    );
}

#[test]
fn pass_through_has_ceil_of_size_over_chunk_chunks() {
    for size in 0..200u32 {
        for chunk in 1..40u32 {
            let metadata = uncompressed(size as u64, chunk).unwrap();
            let count = metadata.chunks.len() as u32;
            assert_eq!(count, (size + chunk - 1) / chunk);
            for (i, entry) in metadata.chunks.iter().enumerate() {
                assert!(!entry.compressed);
                assert_eq!(entry.offset, i as u32 * chunk);
                assert_eq!(entry.compressed_size, entry.uncompressed_size);
                if i as u32 + 1 < count {
                    assert_eq!(entry.uncompressed_size, chunk);
                } else if size % chunk == 0 {
                    assert_eq!(entry.uncompressed_size, chunk);
                } else {
                    assert_eq!(entry.uncompressed_size, size % chunk);
                }
            }
            let total: u32 = metadata.chunks.iter().map(|c| c.uncompressed_size).sum();
            assert_eq!(total, size);
        }
    }
}

#[test]
fn an_empty_file_has_no_chunks() {
    let metadata = uncompressed(0, 16 * MIB).unwrap();
    assert!(metadata.chunks.is_empty());
    assert_eq!(metadata.uncompressed_size, 0);
    assert_eq!(metadata.compressed_size, 0);
}

#[test]
fn a_file_of_exactly_one_chunk_has_one_full_chunk() {
    let metadata = uncompressed(MIB as u64, MIB).unwrap();
    assert_eq!(sizes(&metadata), vec![MIB]);
}

#[test]
fn the_largest_file_is_accepted_and_one_byte_more_is_not() {
    let metadata = uncompressed(u32::MAX as u64, 1 << 30).unwrap();
    assert_eq!(sizes(&metadata), vec![1 << 30, 1 << 30, 1 << 30, (1 << 30) - 1]);
    assert_eq!(metadata.chunks[3].offset, 3 << 30);
    assert_eq!(
        uncompressed(u32::MAX as u64 + 1, 1 << 30).unwrap_err(),
        PipelineError::InputTooLarge
    );
    assert_eq!(
        uncompressed(u64::MAX, 1).unwrap_err(),
        PipelineError::InputTooLarge
    );
}

#[test]
fn output_as_large_as_the_input_falls_back_to_literal() {
    let data: Vec<u8> = (0..10u8).collect();
    // The codec "compressed" the only window to exactly its own size.
    let outputs = vec![vec![9u8; 10]];
    let file = compressed(&data, &outputs, 16).unwrap();
    assert_eq!(
        file.metadata.chunks,
        vec![ChunkMetadata {
            compressed: false,
            offset: 0,
            compressed_size: 10,
            uncompressed_size: 10,
        }]
    );
    assert_eq!(file.bytes, data);
}

#[test]
fn output_larger_than_the_input_falls_back_to_literal() {
    let data: Vec<u8> = (0..10u8).collect();
    let outputs = vec![vec![9u8; 11]];
    let file = compressed(&data, &outputs, 16).unwrap();
    assert!(!file.metadata.chunks[0].compressed);
    assert_eq!(file.bytes, data);
    assert_eq!(file.metadata.compressed_size, 10);
}

#[test]
fn output_one_byte_smaller_is_kept() {
    let data: Vec<u8> = (0..10u8).collect();
    let outputs = vec![vec![9u8; 9]];
    let file = compressed(&data, &outputs, 16).unwrap();
    assert_eq!(
        file.metadata.chunks,
        vec![ChunkMetadata {
            compressed: true,
            offset: 0,
            compressed_size: 9,
            uncompressed_size: 10,
        }]
    );
    assert_eq!(file.bytes, vec![9u8; 9]);
    assert_eq!(file.metadata.compressed_size, 9);
    assert_eq!(file.metadata.uncompressed_size, 10);
}

#[test]
fn offsets_run_along_the_output_stream() {
    // Windows: [0;8] shrinks, 1..=8 does not, [7;4] is too short to shrink.
    let mut data = vec![0u8; 8];
    data.extend(1..=8u8);
    data.extend([7u8; 4]);
    let outputs = compress_all(&data, 8);
    assert_eq!(outputs.len(), 3);
    let file = compressed(&data, &outputs, 8).unwrap();
    assert_eq!(
        file.metadata.chunks,
        vec![
            ChunkMetadata { compressed: true, offset: 0, compressed_size: 6, uncompressed_size: 8 },
            ChunkMetadata { compressed: false, offset: 6, compressed_size: 8, uncompressed_size: 8 },
            ChunkMetadata { compressed: false, offset: 14, compressed_size: 4, uncompressed_size: 4 },
        ]
    );
    assert_eq!(file.metadata.uncompressed_size, 20);
    assert_eq!(file.metadata.compressed_size, 18);
    assert_eq!(file.bytes.len(), 18);
    assert_eq!(&file.bytes[0..6], &[1, 0, 8, 0, 0, 0]);
    assert_eq!(&file.bytes[6..14], &[1, 2, 3, 4, 5, 6, 7, 8]);
    assert_eq!(&file.bytes[14..18], &[7, 7, 7, 7]);
}

#[test]
fn chunks_restore_the_input() {
    for chunk_size in [1u32, 3, 7, 8, 16, 64, 1000] {
        for len in [0usize, 1, 7, 8, 9, 63, 64, 65, 257] {
            let data: Vec<u8> = (0..len).map(|i| if i % 40 < 24 { 5 } else { i as u8 }).collect();
            let outputs = compress_all(&data, chunk_size);
            let file = compressed(&data, &outputs, chunk_size).unwrap();
            assert_eq!(restore(&file.bytes, &file.metadata), data);
            let mut offset = 0;
            let mut total = 0;
            for chunk in &file.metadata.chunks {
                if chunk.compressed {
                    assert!(chunk.compressed_size < chunk.uncompressed_size);
                } else {
                    assert_eq!(chunk.compressed_size, chunk.uncompressed_size);
                }
                assert_eq!(chunk.offset, offset);
                offset += chunk.compressed_size;
                total += chunk.compressed_size;
            }
            assert_eq!(total, file.metadata.compressed_size);
            assert_eq!(file.bytes.len() as u32, file.metadata.compressed_size);
            assert_eq!(file.metadata.uncompressed_size as usize, len);
        }
    }
}

#[test]
fn one_output_per_window_is_asked_for() {
    let data = vec![0u8; 20];
    let two = vec![vec![1u8], vec![1u8]];
    assert_eq!(
        compressed(&data, &two, 8).unwrap_err(),
        PipelineError::ChunkCountMismatch
    );
    let four = vec![vec![1u8]; 4];
    assert_eq!(
        compressed(&data, &four, 8).unwrap_err(),
        PipelineError::ChunkCountMismatch
    );
    let three = vec![vec![1u8]; 3];
    assert!(compressed(&data, &three, 8).is_ok());
    let none: Vec<Vec<u8>> = Vec::new();
    let empty = compressed(&Vec::new(), &none, 8).unwrap();
    assert!(empty.metadata.chunks.is_empty());
    assert!(empty.bytes.is_empty());
}
