use file_to_png::{convert_file_to_png, convert_pixel_rgb_bytes_to_png, PixelGrid};
use image::Rgb;

fn pixel_of(grid: &PixelGrid, x: u32, y: u32) -> [u8; 3] {
    grid.image.get_pixel(x, y).0
}

#[test]
fn ten_chunks_fill_a_grid_of_side_four() {
    let data: Vec<Vec<u8>> = (0..10u8).map(|at| vec![at + 1, at + 101, at + 201]).collect();
    let grid = convert_pixel_rgb_bytes_to_png(data).unwrap();
    assert_eq!(grid.image.dimensions(), (4, 4));
    let mut index: u32 = 0;
    while index < 16 {
        let x: u32 = index % 4;
        let y: u32 = index / 4;
        let wanted: [u8; 3] = if index < 10 {
            [index as u8 + 1, index as u8 + 101, index as u8 + 201]
        } else {
            [0, 0, 0]
        };
        assert_eq!(pixel_of(&grid, x, y), wanted);
        index += 1;
    }
}

#[test]
fn chunks_go_row_by_row() {
    let data: Vec<Vec<u8>> = vec![vec![1, 1, 1], vec![2, 2, 2], vec![3, 3, 3], vec![4, 4, 4], vec![5, 5, 5]];
    let grid = convert_pixel_rgb_bytes_to_png(data).unwrap();
    assert_eq!(grid.image.dimensions(), (3, 3));
    assert_eq!(pixel_of(&grid, 0, 0), [1, 1, 1]);
    assert_eq!(pixel_of(&grid, 1, 0), [2, 2, 2]);
    assert_eq!(pixel_of(&grid, 2, 0), [3, 3, 3]);
    assert_eq!(pixel_of(&grid, 0, 1), [4, 4, 4]);
    assert_eq!(pixel_of(&grid, 1, 1), [5, 5, 5]);
    assert_eq!(pixel_of(&grid, 2, 1), [0, 0, 0]);
    assert_eq!(pixel_of(&grid, 0, 2), [0, 0, 0]);
    assert_eq!(pixel_of(&grid, 1, 2), [0, 0, 0]);
    assert_eq!(pixel_of(&grid, 2, 2), [0, 0, 0]);
}

#[test]
fn samples_are_the_bytes_and_then_zeros() {
    let data: Vec<Vec<u8>> = vec![vec![9, 8, 7], vec![6, 5, 4], vec![3]];
    let grid = convert_pixel_rgb_bytes_to_png(data).unwrap();
    assert_eq!(grid.image.as_raw(), &vec![9u8, 8, 7, 6, 5, 4, 3, 0, 0, 0, 0, 0]);
}

#[test]
fn no_chunks_give_a_grid_without_pixels() {
    let grid = convert_pixel_rgb_bytes_to_png(Vec::new()).unwrap();
    assert_eq!(grid.image.dimensions(), (0, 0));
    assert!(grid.image.as_raw().is_empty());
}

#[test]
fn one_chunk_gives_one_pixel() {
    let grid = convert_pixel_rgb_bytes_to_png(vec![vec![12, 34, 56]]).unwrap();
    assert_eq!(grid.image.dimensions(), (1, 1));
    assert_eq!(grid.image.get_pixel(0, 0), &Rgb([12, 34, 56]));
}

#[test]
fn last_chunk_of_one_byte_has_no_green_and_no_blue() {
    let grid = convert_pixel_rgb_bytes_to_png(vec![vec![200, 100, 50], vec![77]]).unwrap();
    assert_eq!(grid.image.dimensions(), (2, 2));
    assert_eq!(pixel_of(&grid, 0, 0), [200, 100, 50]);
    assert_eq!(pixel_of(&grid, 1, 0), [77, 0, 0]);
}

#[test]
fn last_chunk_of_two_bytes_has_no_blue() {
    let grid = convert_pixel_rgb_bytes_to_png(vec![vec![200, 100, 50], vec![77, 88]]).unwrap();
    assert_eq!(pixel_of(&grid, 1, 0), [77, 88, 0]);
}

#[test]
fn short_chunk_in_the_middle_is_padded_too() {
    let grid = convert_pixel_rgb_bytes_to_png(vec![vec![5], vec![6, 7], vec![8, 9, 10]]).unwrap();
    assert_eq!(pixel_of(&grid, 0, 0), [5, 0, 0]);
    assert_eq!(pixel_of(&grid, 1, 0), [6, 7, 0]);
    assert_eq!(pixel_of(&grid, 0, 1), [8, 9, 10]);
    assert_eq!(pixel_of(&grid, 1, 1), [0, 0, 0]);
}

#[test]
fn bytes_of_a_chunk_past_the_third_are_left_out() {
    let grid = convert_pixel_rgb_bytes_to_png(vec![vec![1, 2, 3, 4, 5]]).unwrap();
    assert_eq!(grid.image.as_raw(), &vec![1u8, 2, 3]);
}

#[test]
fn file_content_gives_its_chunks_and_their_grid() {
    let (chunks, grid) = convert_file_to_png(b"abcdefg").unwrap();
    assert_eq!(chunks, vec![b"abc".to_vec(), b"def".to_vec(), b"g".to_vec()]);
    assert_eq!(grid.image.dimensions(), (2, 2));
    assert_eq!(grid.image.as_raw(), &b"abcdefg\0\0\0\0\0".to_vec());
}

#[test]
fn empty_file_gives_no_chunks_and_an_empty_grid() {
    let (chunks, grid) = convert_file_to_png(&[]).unwrap();
    assert!(chunks.is_empty());
    assert_eq!(grid.image.dimensions(), (0, 0));
}

#[test]
fn larger_file_fills_its_grid_in_order() {
    let len: usize = 3 * 1000 + 2;
    let content: Vec<u8> = (0..len).map(|at| (at % 255) as u8 + 1).collect();
    let (chunks, grid) = convert_file_to_png(&content).unwrap();
    assert_eq!(chunks.len(), 1001);
    assert_eq!(grid.image.dimensions(), (32, 32));
    let raw: &Vec<u8> = grid.image.as_raw();
    assert_eq!(raw.len(), 3 * 32 * 32);
    assert_eq!(&raw[..len], &content[..]);
    assert!(raw[len..].iter().all(|&byte| byte == 0));
}
