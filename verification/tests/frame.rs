use tao_softbuffer_bar::frame::{copy_frame, frame_fits, place_cast, place_words, CastError};

fn bytes(words: &[u32]) -> &[u8] {
    bytemuck::cast_slice(words)
}

#[test]
fn image_without_gaps_is_copied_whole() {
    let image: Vec<u32> = vec![0x11223344, 0xff00ff00, 3, 4, 5, 6];
    let mut buffer: Vec<u32> = vec![9; 8];
    assert!(frame_fits(buffer.len(), 24, 3, 2, 12));
    assert_eq!(copy_frame(&mut buffer, bytes(&image), 3, 2, 12), Ok(()));
    assert_eq!(buffer, vec![0x11223344, 0xff00ff00, 3, 4, 5, 6, 9, 9]);
}

#[test]
fn words_are_read_in_the_order_of_the_machine() {
    let image: Vec<u32> = vec![0x01020304];
    let mut buffer: Vec<u32> = vec![0];
    assert_eq!(copy_frame(&mut buffer, bytes(&image), 1, 1, 4), Ok(()));
    let raw = bytes(&image);
    assert_eq!(
        buffer[0],
        u32::from_ne_bytes([raw[0], raw[1], raw[2], raw[3]])
    );
}

#[test]
fn padding_between_rows_is_left_out() {
    let image: Vec<u32> = vec![1, 2, 77, 3, 4, 88, 5, 6, 99];
    let mut buffer: Vec<u32> = vec![0; 7];
    assert_eq!(copy_frame(&mut buffer, bytes(&image), 2, 3, 12), Ok(()));
    assert_eq!(buffer, vec![1, 2, 3, 4, 5, 6, 0]);
}

#[test]
fn padding_does_not_show() {
    let one: Vec<u32> = vec![1, 2, 77, 3, 4, 88];
    let other: Vec<u32> = vec![1, 2, 55, 3, 4, 66];
    let mut first: Vec<u32> = vec![0; 4];
    let mut second: Vec<u32> = vec![0; 4];
    assert_eq!(copy_frame(&mut first, bytes(&one), 2, 2, 12), Ok(()));
    assert_eq!(copy_frame(&mut second, bytes(&other), 2, 2, 12), Ok(()));
    assert_eq!(first, second);
}

#[test]
fn pixel_is_found_at_its_row_and_column() {
    let image: Vec<u32> = (0..40).collect();
    let mut buffer: Vec<u32> = vec![0; 15];
    assert_eq!(copy_frame(&mut buffer, bytes(&image), 3, 5, 32), Ok(()));
    assert_eq!(buffer[4 * 3 + 2], 4 * 8 + 2);
    assert_eq!(buffer[2 * 3], 2 * 8);
}

#[test]
fn last_row_needs_no_padding() {
    let image: Vec<u32> = vec![1, 77, 2];
    let mut buffer: Vec<u32> = vec![0; 2];
    assert!(frame_fits(2, 12, 1, 2, 8));
    assert_eq!(copy_frame(&mut buffer, bytes(&image), 1, 2, 8), Ok(()));
    assert_eq!(buffer, vec![1, 2]);
}

#[test]
fn misaligned_image_is_refused_untouched() {
    let image: Vec<u32> = vec![1, 2, 3];
    let mut buffer: Vec<u32> = vec![9, 9];
    let shifted = &bytes(&image)[1..9];
    assert_eq!(
        copy_frame(&mut buffer, shifted, 2, 1, 8),
        Err(CastError::Misaligned)
    );
    assert_eq!(buffer, vec![9, 9]);
}

#[test]
fn misaligned_row_stops_the_copy() {
    let image: Vec<u32> = vec![1, 2, 3, 4];
    let mut buffer: Vec<u32> = vec![9, 9];
    assert_eq!(
        copy_frame(&mut buffer, bytes(&image), 1, 2, 6),
        Err(CastError::Misaligned)
    );
    assert_eq!(buffer, vec![1, 9]);
}

#[test]
fn frames_that_do_not_fit_are_told() {
    assert!(!frame_fits(4, 16, 0, 2, 4));
    assert!(!frame_fits(4, 16, 2, 0, 8));
    assert!(frame_fits(4, 16, 2, 2, 8));
    assert!(!frame_fits(3, 16, 2, 2, 8));
    assert!(!frame_fits(4, 15, 2, 2, 8));
    assert!(!frame_fits(usize::MAX, usize::MAX, usize::MAX, 2, 4));
    assert!(!frame_fits(usize::MAX, usize::MAX, 1, 3, usize::MAX));
    assert!(!frame_fits(usize::MAX, usize::MAX, usize::MAX / 2, 1, 4));
    assert!(!frame_fits(usize::MAX, usize::MAX, 1, 2, usize::MAX));
}

#[test]
fn words_are_placed_between_their_neighbours() {
    let mut buffer: Vec<u32> = vec![1, 2, 3, 4, 5];
    place_words(&mut buffer, 1, &[7, 8]);
    assert_eq!(buffer, vec![1, 7, 8, 4, 5]);
    place_words(&mut buffer, 5, &[]);
    assert_eq!(buffer, vec![1, 7, 8, 4, 5]);
}

#[test]
fn outcome_of_a_cast_is_placed_or_handed_on() {
    let mut buffer: Vec<u32> = vec![1, 2, 3];
    assert_eq!(place_cast(&mut buffer, 1, Ok(&[8, 9])), Ok(()));
    assert_eq!(buffer, vec![1, 8, 9]);
    for error in [
        CastError::Misaligned,
        CastError::PartialWord,
        CastError::SizeMismatch,
        CastError::AlignmentMismatch,
    ] {
        assert_eq!(place_cast(&mut buffer, 7, Err(error)), Err(error));
        assert_eq!(buffer, vec![1, 8, 9]);
    }
}

#[test]
fn distance_of_rows_does_not_show() {
    let tight: Vec<u32> = vec![1, 2, 3, 4];
    let wide: Vec<u32> = vec![1, 2, 77, 78, 3, 4];
    let mut first: Vec<u32> = vec![0; 4];
    let mut second: Vec<u32> = vec![0; 4];
    assert_eq!(copy_frame(&mut first, bytes(&tight), 2, 2, 8), Ok(()));
    assert_eq!(copy_frame(&mut second, bytes(&wide), 2, 2, 16), Ok(()));
    assert_eq!(first, second);
}
