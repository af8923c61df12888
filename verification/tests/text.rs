use language_api::text::{chars_of, space, str_eq, to_lower, to_upper, trim_bounds};

#[test]
fn str_eq_compares_characters() {
    assert!(str_eq("/detect", "/detect"));
    assert!(str_eq("", ""));
    assert!(!str_eq("/detect", "/detecT"));
    assert!(!str_eq("/detect", "/detect/"));
    assert!(!str_eq("é", "e"));
    assert!(str_eq("l'étreinte", "l'étreinte"));
}

#[test]
fn chars_of_gives_every_character() {
    assert_eq!(chars_of("l'été"), vec!['l', '\'', 'é', 't', 'é']);
    assert_eq!(chars_of(""), Vec::<char>::new());
}

#[test]
fn space_is_unicode_white_space() {
    for code in 0..=0x11_0000u32 {
        if let Some(c) = char::from_u32(code) {
            assert_eq!(space(c), c.is_whitespace(), "at {:#x}", code);
        }
    }
}

#[test]
fn case_changes_ascii_letters_only() {
    for code in 0..=0x11_0000u32 {
        if let Some(c) = char::from_u32(code) {
            assert_eq!(to_upper(c), c.to_ascii_uppercase());
            assert_eq!(to_lower(c), c.to_ascii_lowercase());
        }
    }
    assert_eq!(to_upper('f'), 'F');
    assert_eq!(to_lower('F'), 'f');
    assert_eq!(to_upper('é'), 'é');
}

#[test]
fn trim_bounds_skip_white_space_at_both_ends() {
    let chars: Vec<char> = "x,  french \t,y".chars().collect();
    assert_eq!(trim_bounds(&chars, 2, 12), (4, 10));
    assert_eq!(trim_bounds(&chars, 0, 1), (0, 1));
    assert_eq!(trim_bounds(&chars, 2, 4), (4, 4));
    assert_eq!(trim_bounds(&chars, 3, 3), (3, 3));
    let inner: Vec<char> = " a b ".chars().collect();
    assert_eq!(trim_bounds(&inner, 0, 5), (1, 4));
}
