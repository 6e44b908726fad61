use togglebit::mutator::{corrupt_at, flip_bit, randomize_chars, MutateError};
use togglebit::random::{draw_below, fresh_rng};

fn differing_positions(a: &[char], b: &[char]) -> Vec<usize> {
    (0..a.len()).filter(|&i| a[i] != b[i]).collect()
}

#[test]
fn flip_low_bit_of_letter() {
    assert_eq!(flip_bit('A', 0, false), Some('@'));
    assert_eq!(flip_bit('A', 5, false), Some('a'));
}

#[test]
fn flip_into_newline_needs_carnage() {
    // 0x0B with bit 0 flipped is 0x0A, the newline.
    assert_eq!(flip_bit('\u{0B}', 0, false), None);
    assert_eq!(flip_bit('\u{0B}', 0, true), Some('\n'));
}

#[test]
fn flip_out_of_newline() {
    assert_eq!(flip_bit('\n', 0, true), Some('\u{0B}'));
}

#[test]
fn flip_into_surrogate_is_rejected() {
    // 0xD7FF with bit 11 flipped is 0xDFFF, a surrogate.
    assert_eq!(flip_bit('\u{D7FF}', 11, true), None);
}

#[test]
fn flip_beyond_unicode_is_rejected() {
    assert_eq!(flip_bit('A', 31, true), None);
    assert_eq!(flip_bit('A', 21, true), None);
    assert_eq!(flip_bit('A', 20, true), Some('\u{100041}'));
}

#[test]
fn corrupt_at_writes_acceptable_flip() {
    let mut text: Vec<char> = "AB\nCD".chars().collect();
    assert!(corrupt_at(&mut text, 1, 0, false));
    assert_eq!(text, vec!['A', 'C', '\n', 'C', 'D']);
}

#[test]
fn corrupt_at_keeps_text_on_rejected_flip() {
    let mut text: Vec<char> = "AB\u{0B}".chars().collect();
    assert!(!corrupt_at(&mut text, 2, 0, false));
    assert_eq!(text, vec!['A', 'B', '\u{0B}']);
}

#[test]
fn randomize_changes_exactly_one_char() {
    let mut rng = fresh_rng();
    for carnage in [false, true] {
        for _ in 0..500 {
            let before: Vec<char> = "ab\ncd\n€ü".chars().collect();
            let mut text = before.clone();
            let i = randomize_chars(carnage, &mut rng, &mut text).unwrap();
            assert_eq!(text.len(), before.len());
            assert_eq!(differing_positions(&before, &text), vec![i]);
            let flip = (before[i] as u32) ^ (text[i] as u32);
            assert!(flip.is_power_of_two());
            if !carnage {
                assert_ne!(before[i], '\n');
                assert_ne!(text[i], '\n');
            }
        }
    }
}

#[test]
fn randomize_never_touches_newline_without_carnage() {
    let mut rng = fresh_rng();
    let mut hits = [0usize; 5];
    for _ in 0..2000 {
        let mut text: Vec<char> = "AB\nCD".chars().collect();
        let i = randomize_chars(false, &mut rng, &mut text).unwrap();
        hits[i] += 1;
        assert_eq!(text[2], '\n');
    }
    assert_eq!(hits[2], 0);
    assert!(hits.iter().filter(|&&h| h > 0).count() == 4);
}

#[test]
fn randomize_reaches_newline_with_carnage() {
    let mut rng = fresh_rng();
    let mut hit_newline = false;
    for _ in 0..2000 {
        let mut text: Vec<char> = "AB\nCD".chars().collect();
        if randomize_chars(true, &mut rng, &mut text).unwrap() == 2 {
            hit_newline = true;
        }
    }
    assert!(hit_newline);
}

#[test]
fn randomize_all_newlines_without_carnage_fails() {
    let mut rng = fresh_rng();
    let mut text = vec!['\n', '\n'];
    assert_eq!(randomize_chars(false, &mut rng, &mut text), Err(MutateError::NoEligibleIndex));
    assert_eq!(text, vec!['\n', '\n']);
}

#[test]
fn randomize_all_newlines_with_carnage_succeeds() {
    let mut rng = fresh_rng();
    let mut text = vec!['\n'];
    assert_eq!(randomize_chars(true, &mut rng, &mut text), Ok(0));
    assert_ne!(text[0], '\n');
}

#[test]
fn draw_below_stays_in_range() {
    let mut rng = fresh_rng();
    let mut seen = [false; 4];
    for _ in 0..1000 {
        let d = draw_below(&mut rng, 4);
        assert!(d < 4);
        seen[d] = true;
    }
    assert!(seen.iter().all(|&s| s));
}

#[test]
fn eligibility_of_positions() {
    let text: Vec<char> = "A\n".chars().collect();
    assert!(togglebit::mutator::eligible_at(&text, 0, false));
    assert!(!togglebit::mutator::eligible_at(&text, 1, false));
    assert!(togglebit::mutator::eligible_at(&text, 1, true));
}

#[test]
fn chars_of_keeps_every_character() {
    assert_eq!(togglebit::text::chars_of("a\n€ü"), vec!['a', '\n', '€', 'ü']);
    assert_eq!(togglebit::text::chars_of(""), Vec::<char>::new());
}
