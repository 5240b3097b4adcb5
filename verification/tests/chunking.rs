use file_to_png::chunk_bytes;

#[test]
fn no_bytes_give_no_chunks() {
    let chunks: Vec<Vec<u8>> = chunk_bytes(&[]);
    assert!(chunks.is_empty());
}

#[test]
fn one_byte_gives_one_short_chunk() {
    assert_eq!(chunk_bytes(&[7]), vec![vec![7u8]]);
}

#[test]
fn two_bytes_give_one_chunk_of_two() {
    assert_eq!(chunk_bytes(&[7, 8]), vec![vec![7u8, 8]]);
}

#[test]
fn three_bytes_give_one_full_chunk() {
    assert_eq!(chunk_bytes(&[1, 2, 3]), vec![vec![1u8, 2, 3]]);
}

#[test]
fn four_bytes_give_a_full_chunk_and_a_short_one() {
    assert_eq!(chunk_bytes(&[1, 2, 3, 4]), vec![vec![1u8, 2, 3], vec![4]]);
}

#[test]
fn eight_bytes_end_in_a_chunk_of_two() {
    assert_eq!(
        chunk_bytes(&[10, 20, 30, 40, 50, 60, 70, 80]),
        vec![vec![10u8, 20, 30], vec![40, 50, 60], vec![70, 80]]
    );
}

#[test]
fn chunks_keep_zero_bytes() {
    assert_eq!(chunk_bytes(&[0, 0, 0, 0]), vec![vec![0u8, 0, 0], vec![0]]);
}

#[test]
fn all_chunks_but_the_last_are_full() {
    let len: usize = 1000;
    let bytes: Vec<u8> = (0..len).map(|at| (at % 251) as u8).collect();
    let chunks = chunk_bytes(&bytes);
    assert_eq!(chunks.len(), 334);
    for chunk in &chunks[..333] {
        assert_eq!(chunk.len(), 3);
    }
    assert_eq!(chunks[333], vec![(999 % 251) as u8]);
}

#[test]
fn chunks_joined_are_the_bytes() {
    let len: usize = 301;
    let bytes: Vec<u8> = (0..len).map(|at| (at * 7 % 256) as u8).collect();
    let joined: Vec<u8> = chunk_bytes(&bytes).into_iter().flatten().collect();
    assert_eq!(joined, bytes);
}
