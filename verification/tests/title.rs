use snesutilities::error::HeaderError;
use snesutilities::layout::{HIROM_TITLE_OFFSET, LOROM_TITLE_OFFSET, TITLE_LENGTH};
use snesutilities::source::read_at;
use snesutilities::title::{is_plausible_title, locate_title, read_title};

fn image_with(length: usize, lorom: &[u8], hirom: &[u8]) -> Vec<u8> {
    let mut image = vec![0u8; length];
    for (i, byte) in lorom.iter().enumerate() {
        if LOROM_TITLE_OFFSET + i < length {
            image[LOROM_TITLE_OFFSET + i] = *byte;
        }
    }
    for (i, byte) in hirom.iter().enumerate() {
        if HIROM_TITLE_OFFSET + i < length {
            image[HIROM_TITLE_OFFSET + i] = *byte;
        }
    }
    image
}

#[test]
fn layout_offsets() {
    assert_eq!(TITLE_LENGTH, 21);
    assert_eq!(LOROM_TITLE_OFFSET, 32704);
    assert_eq!(HIROM_TITLE_OFFSET, 65472);
}

#[test]
fn printable_bytes_make_a_plausible_title() {
    assert!(is_plausible_title(b"THE LEGEND OF ZELDA  "));
    assert!(is_plausible_title(&[32u8; 21]));
    assert!(is_plausible_title(&[127u8; 21]));
    assert!(is_plausible_title(&[]));
}

#[test]
fn one_byte_out_of_range_spoils_a_title() {
    for position in 0..21 {
        for byte in [0u8, 31, 128, 200, 255] {
            let mut region = *b"THE LEGEND OF ZELDA  ";
            region[position] = byte;
            assert!(!is_plausible_title(&region), "byte {} at {}", byte, position);
        }
        for byte in [32u8, 127] {
            let mut region = *b"THE LEGEND OF ZELDA  ";
            region[position] = byte;
            assert!(is_plausible_title(&region), "byte {} at {}", byte, position);
        }
    }
}

#[test]
fn every_byte_is_judged_by_its_range() {
    for byte in 0..=255u8 {
        assert_eq!(is_plausible_title(&[byte]), (32..=127).contains(&byte), "byte {}", byte);
    }
}

#[test]
fn read_at_returns_the_bytes_asked_for() {
    let image: Vec<u8> = (0..=99u8).collect();
    assert_eq!(read_at(&image, 0, 6), Ok(&image[0..6]));
    assert_eq!(read_at(&image, 10, 21), Ok(&image[10..31]));
    assert_eq!(read_at(&image, 79, 21), Ok(&image[79..100]));
    assert_eq!(read_at(&image, 100, 0), Ok(&image[100..100]));
}

#[test]
fn read_at_refuses_a_short_read() {
    let image: Vec<u8> = (0..=99u8).collect();
    assert_eq!(read_at(&image, 80, 21), Err(HeaderError::TruncatedRead));
    assert_eq!(read_at(&image, 100, 1), Err(HeaderError::TruncatedRead));
    assert_eq!(read_at(&image, 101, 0), Err(HeaderError::TruncatedRead));
    assert_eq!(read_at(&image, usize::MAX, 2), Err(HeaderError::TruncatedRead));
    assert_eq!(read_at(&image, 2, usize::MAX), Err(HeaderError::TruncatedRead));
    assert_eq!(read_at(&[], 0, 1), Err(HeaderError::TruncatedRead));
}

#[test]
fn plausible_candidate_selects_the_lorom_offset() {
    let image = image_with(70000, b"SUPER MARIOWORLD     ", b"SOMETHING ELSE       ");
    assert_eq!(locate_title(&image), Ok(32704));
    assert_eq!(read_title(&image), Ok("SUPER MARIOWORLD     ".to_string()));
}

#[test]
fn plausible_candidate_needs_no_hirom_region() {
    let image = image_with(32725, b"SUPER MARIOWORLD     ", b"");
    assert_eq!(locate_title(&image), Ok(32704));
    assert_eq!(read_title(&image), Ok("SUPER MARIOWORLD     ".to_string()));
}

#[test]
fn spoiled_candidate_selects_the_hirom_offset() {
    let image = image_with(70000, b"SUPER MARIOWORLD\x1f    ", b"FINAL FANTASY 5      ");
    assert_eq!(locate_title(&image), Ok(65472));
    assert_eq!(read_title(&image), Ok("FINAL FANTASY 5      ".to_string()));
}

#[test]
fn hirom_offset_is_selected_whatever_stands_there() {
    let image = image_with(70000, &[0u8; 21], &[7u8; 21]);
    assert_eq!(locate_title(&image), Ok(65472));
    assert_eq!(read_title(&image), Ok("\u{7}".repeat(21)));
}

#[test]
fn hirom_offset_is_selected_even_past_the_end() {
    let image = image_with(40000, &[0u8; 21], b"");
    assert_eq!(locate_title(&image), Ok(65472));
    assert_eq!(read_title(&image), Err(HeaderError::TruncatedRead));
}

#[test]
fn image_without_the_whole_candidate_is_truncated() {
    let image = image_with(32724, b"SUPER MARIOWORLD     ", b"");
    assert_eq!(locate_title(&image), Err(HeaderError::TruncatedRead));
    assert_eq!(read_title(&image), Err(HeaderError::TruncatedRead));
    assert_eq!(locate_title(&[]), Err(HeaderError::TruncatedRead));
    assert_eq!(read_title(&[]), Err(HeaderError::TruncatedRead));
}

#[test]
fn image_without_the_whole_hirom_title_is_truncated() {
    let short = image_with(65492, &[0u8; 21], b"FINAL FANTASY 5      ");
    assert_eq!(read_title(&short), Err(HeaderError::TruncatedRead));
    let whole = image_with(65493, &[0u8; 21], b"FINAL FANTASY 5      ");
    assert_eq!(read_title(&whole), Ok("FINAL FANTASY 5      ".to_string()));
}

#[test]
fn title_that_is_no_text_is_refused() {
    let mut title = *b"FINAL FANTASY 5      ";
    title[3] = 0xff;
    let image = image_with(70000, &[0u8; 21], &title);
    assert_eq!(read_title(&image), Err(HeaderError::InvalidText));
    let mut cut = *b"FINAL FANTASY 5      ";
    cut[20] = 0xc3;
    let image = image_with(70000, &[0u8; 21], &cut);
    assert_eq!(read_title(&image), Err(HeaderError::InvalidText));
}

#[test]
fn title_of_longer_characters_is_decoded() {
    let mut title = *b"POKEMON              ";
    title[3] = 0xc3;
    title[4] = 0x89;
    let image = image_with(70000, &[0u8; 21], &title);
    let text = read_title(&image).unwrap();
    assert_eq!(text, "POK\u{c9}ON              ");
    assert_eq!(text.chars().count(), 20);
    assert_eq!(text.len(), 21);
}

#[test]
fn title_with_a_delete_character_is_plausible() {
    let mut title = *b"SUPER MARIOWORLD     ";
    title[20] = 127;
    let image = image_with(32725, &title, b"");
    assert_eq!(locate_title(&image), Ok(32704));
    assert_eq!(read_title(&image), Ok("SUPER MARIOWORLD    \u{7f}".to_string()));
}
