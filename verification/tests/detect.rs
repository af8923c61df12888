use language_api::detect::{classify, classify_with_confidence, top_entry, ScoreEntry, FULL_CONFIDENCE};
use lingua::{Language, LanguageDetector, LanguageDetectorBuilder};

fn detector() -> LanguageDetector {
    LanguageDetectorBuilder::from_languages(&[
        Language::English,
        Language::French,
        Language::German,
        Language::Spanish,
        Language::Turkish,
    ])
    .build()
}

#[test]
fn classify_finds_french() {
    assert_eq!(classify(&detector(), "bisous et l'étreinte"), Some(Language::French));
}

#[test]
fn classify_finds_english() {
    assert_eq!(classify(&detector(), "languages are awesome"), Some(Language::English));
}

#[test]
fn classify_of_nothing_is_none() {
    assert_eq!(classify(&detector(), ""), None);
}

#[test]
fn ranking_lists_every_candidate_once_in_descending_order() {
    let entries = classify_with_confidence(&detector(), "bisous et l'étreinte");
    assert_eq!(entries.len(), 5);
    for language in [
        Language::English,
        Language::French,
        Language::German,
        Language::Spanish,
        Language::Turkish,
    ] {
        assert_eq!(entries.iter().filter(|entry| entry.language == language).count(), 1);
    }
    for pair in entries.windows(2) {
        assert!(pair[0].confidence >= pair[1].confidence);
        assert!(f64::from_bits(pair[0].confidence) >= f64::from_bits(pair[1].confidence));
    }
    for entry in &entries {
        assert!(entry.confidence <= FULL_CONFIDENCE);
        let value = f64::from_bits(entry.confidence);
        assert!((0.0..=1.0).contains(&value));
    }
    assert_eq!(entries[0].language, Language::French);
}

#[test]
fn ranking_is_the_same_when_asked_twice() {
    let detector = detector();
    let first = classify_with_confidence(&detector, "hello");
    let second = classify_with_confidence(&detector, "hello");
    assert_eq!(first.len(), second.len());
    for (one, other) in first.iter().zip(second.iter()) {
        assert_eq!(one.language, other.language);
        assert!((f64::from_bits(one.confidence) - f64::from_bits(other.confidence)).abs() < 1e-9);
    }
}

#[test]
fn confidence_in_hello_is_highest_for_the_first_entry() {
    let entries = classify_with_confidence(&detector(), "hello");
    assert!(!entries.is_empty());
    let top = top_entry(&entries).expect("a first entry");
    assert_eq!(top.language, entries[0].language);
    for entry in &entries[1..] {
        assert!(top.confidence > entry.confidence);
    }
}

#[test]
fn confidence_bits_are_those_of_the_detector() {
    let detector = detector();
    let direct = detector.compute_language_confidence_values("languages are awesome");
    let entries = classify_with_confidence(&detector, "languages are awesome");
    assert_eq!(entries.len(), direct.len());
    for (entry, (language, confidence)) in entries.iter().zip(direct.iter()) {
        assert_eq!(entry.language, *language);
        assert!((f64::from_bits(entry.confidence) - confidence).abs() < 1e-9);
    }
    assert_ne!(entries[0].confidence, 0);
}

#[test]
fn top_entry_of_nothing_is_none() {
    let none: Vec<ScoreEntry> = Vec::new();
    assert!(top_entry(&none).is_none());
}

#[test]
fn top_entry_is_the_first() {
    let entries = vec![
        ScoreEntry { language: Language::French, confidence: FULL_CONFIDENCE },
        ScoreEntry { language: Language::English, confidence: 0 },
    ];
    let top = top_entry(&entries).expect("a first entry");
    assert_eq!(top.language, Language::French);
    assert_eq!(top.confidence, FULL_CONFIDENCE);
}

#[test]
fn detector_without_candidates_ranks_nothing() {
    let detector = LanguageDetectorBuilder::from_all_languages_with_cyrillic_script().build();
    assert!(classify_with_confidence(&detector, "hello").is_empty());
    assert_eq!(classify(&detector, "hello"), None);
}
