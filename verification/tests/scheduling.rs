use morse_rs::{lookup, schedule_character, schedule_word, Sound, UnknownChar};

#[test]
fn test_schedule_character() {
    let actual = schedule_character(2, ".-.");
    let expected: Vec<(Sound, u32)> = vec![
        (Sound::On, 2),
        (Sound::Off, 2),
        (Sound::On, 6),
        (Sound::Off, 2),
        (Sound::On, 2),
        (Sound::Off, 6),
    ];
    assert_eq!(expected, actual);
}

#[test]
fn test_schedule_word() {
    let actual = schedule_word(2, "YEET").unwrap();
    let expected: Vec<(Sound, u32)> = vec![
        (Sound::On, 6),
        (Sound::Off, 2),
        (Sound::On, 2),
        (Sound::Off, 2),
        (Sound::On, 6),
        (Sound::Off, 2),
        (Sound::On, 6),
        (Sound::Off, 6),
        (Sound::On, 2),
        (Sound::Off, 6),
        (Sound::On, 2),
        (Sound::Off, 6),
        (Sound::On, 6),
        (Sound::Off, 14),
    ];
    assert_eq!(expected, actual);
}

#[test]
fn test_callsign() {
    let actual = schedule_word(2, "KD9KJV").unwrap();
    let expected: Vec<(Sound, u32)> = vec![
        // K
        (Sound::On, 6),
        (Sound::Off, 2),
        (Sound::On, 2),
        (Sound::Off, 2),
        (Sound::On, 6),
        (Sound::Off, 6),
        // D
        (Sound::On, 6),
        (Sound::Off, 2),
        (Sound::On, 2),
        (Sound::Off, 2),
        (Sound::On, 2),
        (Sound::Off, 6),
        // 9
        (Sound::On, 6),
        (Sound::Off, 2),
        (Sound::On, 6),
        (Sound::Off, 2),
        (Sound::On, 6),
        (Sound::Off, 2),
        (Sound::On, 6),
        (Sound::Off, 2),
        (Sound::On, 2),
        (Sound::Off, 6),
        // K
        (Sound::On, 6),
        (Sound::Off, 2),
        (Sound::On, 2),
        (Sound::Off, 2),
        (Sound::On, 6),
        (Sound::Off, 6),
        // J
        (Sound::On, 2),
        (Sound::Off, 2),
        (Sound::On, 6),
        (Sound::Off, 2),
        (Sound::On, 6),
        (Sound::Off, 2),
        (Sound::On, 6),
        (Sound::Off, 6),
        // V
        (Sound::On, 2),
        (Sound::Off, 2),
        (Sound::On, 2),
        (Sound::Off, 2),
        (Sound::On, 2),
        (Sound::Off, 2),
        (Sound::On, 6),
        (Sound::Off, 14),
    ];
    assert_eq!(expected, actual);
}

#[test]
fn test_lookup() {
    let actual = lookup('A').unwrap();
    assert_eq!(actual, ".-");
}

#[test]
fn test_lookup_unsupported_fails() {
    assert_eq!(lookup('@'), None);
    assert_eq!(lookup('!'), None);
    // Lookup expects uppercased input; it does not substitute.
    assert_eq!(lookup('a'), None);
}

#[test]
fn test_lookup_case_insensitive_via_uppercasing() {
    // The word scheduler uppercases before lookup, so a lowercase
    // message schedules exactly as the uppercase one.
    let lower = schedule_word(2, "yeet").unwrap();
    let upper = schedule_word(2, "YEET").unwrap();
    assert_eq!(lower, upper);
}

#[test]
fn test_schedule_character_empty() {
    let actual = schedule_character(2, "");
    assert_eq!(actual, Vec::<(Sound, u32)>::new());
}

#[test]
fn test_schedule_word_empty() {
    let actual = schedule_word(2, "").unwrap();
    assert_eq!(actual, Vec::<(Sound, u32)>::new());
}

#[test]
fn test_schedule_character_final_gap() {
    let actual = schedule_character(3, "-");
    assert_eq!(actual.last(), Some(&(Sound::Off, 9)));
}

#[test]
fn test_schedule_word_final_gap() {
    let actual = schedule_word(3, "AB").unwrap();
    assert_eq!(actual.last(), Some(&(Sound::Off, 21)));
}

#[test]
fn test_schedule_word_unknown_character() {
    let err = schedule_word(2, "A@B").unwrap_err();
    assert_eq!(err, UnknownChar { ch: '@' });
    // The first unsupported character is the one named.
    let err = schedule_word(2, "@A").unwrap_err();
    assert_eq!(err, UnknownChar { ch: '@' });
    // The character is reported in its uppercased form.
    let err = schedule_word(2, "é").unwrap_err();
    assert_eq!(err, UnknownChar { ch: 'é' });
}
