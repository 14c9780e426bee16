use bevy_shaders::text::{encode, DEFAULT_CODE, DEGREE_CODE, DEGREE_SIGN, GLYPH_COUNT};
use bevy_shaders::TextData;

#[test]
fn digits_take_their_value() {
    let digits = ['0', '1', '2', '3', '4', '5', '6', '7', '8', '9'];
    for (value, digit) in digits.iter().enumerate() {
        assert_eq!(encode(*digit), value as u32);
    }
}

#[test]
fn capitals_follow_the_digits() {
    let capitals = "ABCDEFGHIJKLMNOPQRSTUVWXYZ";
    assert_eq!(capitals.chars().count(), 26);
    for (place, letter) in capitals.chars().enumerate() {
        assert_eq!(encode(letter), 10 + place as u32);
    }
    assert_eq!(encode('A'), 10);
    assert_eq!(encode('Z'), 35);
}

#[test]
fn question_mark_and_degree_sign() {
    assert_eq!(encode('?'), 36);
    assert_eq!(encode('\u{b0}'), 37);
    assert_eq!(DEFAULT_CODE, 36);
    assert_eq!(DEGREE_CODE, 37);
    assert_eq!(DEGREE_SIGN, '\u{b0}');
    assert_eq!(GLYPH_COUNT, 38);
}

#[test]
fn characters_without_a_glyph_take_the_default() {
    for c in ['a', 'z', ' ', '-', '.', '/', ':', '@', '[', '`', '\u{e9}', '\u{af}', '\u{b1}', '\u{1f600}', '\0'] {
        assert_eq!(encode(c), DEFAULT_CODE, "{c:?}");
    }
}

#[test]
fn every_code_is_a_glyph_index() {
    for u in 0u32..0x3000 {
        if let Some(c) = char::from_u32(u) {
            assert!(encode(c) < GLYPH_COUNT);
        }
    }
}

#[test]
fn glyph_codes_are_distinct_and_cover_the_table() {
    let alphabet = "0123456789ABCDEFGHIJKLMNOPQRSTUVWXYZ?\u{b0}";
    let mut seen = vec![false; GLYPH_COUNT as usize];
    for c in alphabet.chars() {
        let code = encode(c) as usize;
        assert!(!seen[code], "{c:?} shares its code");
        seen[code] = true;
    }
    assert!(seen.iter().all(|taken| *taken));
}

#[test]
fn temperature_fills_four_slots() {
    let data = TextData::<4>::new("37\u{b0}C");
    assert_eq!(data.chars, [3, 7, 37, 12]);
    // the degree sign takes two bytes
    assert_eq!(data.count, 5);
}

#[test]
fn short_text_is_padded_with_the_default() {
    let data = TextData::<6>::new("AB1");
    assert_eq!(data.chars, [10, 11, 1, 36, 36, 36]);
    assert_eq!(data.count, 3);
}

#[test]
fn long_text_is_cut_at_the_last_slot() {
    let data = TextData::<3>::new("HELLO");
    assert_eq!(data.chars, [17, 14, 21]);
    assert_eq!(data.count, 5);
}

#[test]
fn empty_text_gives_default_slots() {
    let data = TextData::<4>::new("");
    assert_eq!(data.chars, [36, 36, 36, 36]);
    assert_eq!(data.count, 0);
}

#[test]
fn buffer_without_slots() {
    let data = TextData::<0>::new("42");
    assert_eq!(data.chars, [0u32; 0]);
    assert_eq!(data.count, 2);
}

#[test]
fn unknown_characters_become_question_marks() {
    let data = TextData::<5>::new("a-Z?9");
    assert_eq!(data.chars, [36, 36, 35, 36, 9]);
    assert_eq!(data.count, 5);
}

#[test]
fn count_is_in_bytes() {
    // one, two, three and four bytes
    let data = TextData::<4>::new("A\u{b0}\u{20ac}\u{1f600}");
    assert_eq!(data.chars, [10, 37, 36, 36]);
    assert_eq!(data.count, 10);
}

#[test]
fn first_slots_match_a_smaller_buffer() {
    let wide = TextData::<8>::new("12\u{b0}F");
    let narrow = TextData::<3>::new("12\u{b0}F");
    assert_eq!(&wide.chars[..3], &narrow.chars[..]);
    assert_eq!(wide.count, narrow.count);
}

#[test]
fn clone_keeps_the_data() {
    let data = TextData::<4>::new("37\u{b0}C");
    let copy = data.clone();
    assert_eq!(copy.count, data.count);
    assert_eq!(copy.chars, data.chars);
}
