//! The detection capability: a language detector that is built elsewhere and
//! consulted here through two operations, `classify` and
//! `classify_with_confidence`.
use vstd::prelude::*;
use lingua::Language;
use lingua::LanguageDetector;

verus! {

#[verifier::external_type_specification]
#[verifier::external_body]
pub struct ExLanguage(Language);

#[verifier::external_type_specification]
#[verifier::external_body]
pub struct ExLanguageDetector(LanguageDetector);

/// The languages that a detector was built to choose among.
pub uninterp spec fn candidates(detector: LanguageDetector) -> Set<Language>;

/// Bit pattern of the confidence 1.0 as an IEEE-754 double.
pub const FULL_CONFIDENCE: u64 = 0x3FF0_0000_0000_0000;

/// One language with the confidence that a text is written in it.
///
/// The confidence is a double in `[0, 1]`, held as its IEEE-754 bit pattern.
/// On that range the bit patterns, read as unsigned integers, are ordered as
/// the numbers are, so `confidence` can be compared directly.
#[derive(Clone, Copy, Debug, PartialEq, Eq)]
pub struct ScoreEntry {
    pub language: Language,
    pub confidence: u64,
}

/// Every confidence lies in `[0, 1]`.
pub open spec fn confidences_bounded(entries: Seq<ScoreEntry>) -> bool {
    forall|i: int| 0 <= i < entries.len() ==> (#[trigger] entries[i]).confidence <= FULL_CONFIDENCE
}

/// Confidences never increase from one entry to the next.
pub open spec fn descending(entries: Seq<ScoreEntry>) -> bool {
    forall|i: int, j: int|
        0 <= i <= j < entries.len() ==> (#[trigger] entries[i]).confidence
            >= (#[trigger] entries[j]).confidence
}

/// No language is listed twice.
pub open spec fn languages_distinct(entries: Seq<ScoreEntry>) -> bool {
    forall|i: int, j: int|
        0 <= i < j < entries.len() ==> (#[trigger] entries[i]).language
            != (#[trigger] entries[j]).language
}

/// The listed languages are exactly those of `languages`.
pub open spec fn lists_exactly(entries: Seq<ScoreEntry>, languages: Set<Language>) -> bool {
    &&& forall|i: int|
        0 <= i < entries.len() ==> languages.contains((#[trigger] entries[i]).language)
    &&& forall|l: Language| #[trigger]
        languages.contains(l) ==> exists|i: int|
            0 <= i < entries.len() && (#[trigger] entries[i]).language == l
}

/// A ranking of `languages`: each of them once, with a confidence in `[0, 1]`,
/// the most likely first.
pub open spec fn is_ranking(entries: Seq<ScoreEntry>, languages: Set<Language>) -> bool {
    &&& lists_exactly(entries, languages)
    &&& languages_distinct(entries)
    &&& confidences_bounded(entries)
    &&& descending(entries)
}

/// Calls `LanguageDetector::detect_language_of`. The detector answers with one
/// of the languages it was built from, or with nothing when no language stands
/// out; which of them is not stated here, as the detector sums over hash maps
/// and may round differently from call to call.
#[verifier::external_body]
fn detect_language_of(detector: &LanguageDetector, text: &str) -> (found: Option<Language>)
    ensures
        found matches Some(language) ==> candidates(*detector).contains(language),
{
    detector.detect_language_of(text)
}

/// Calls `LanguageDetector::compute_language_confidence_values` and hands each
/// confidence out as its bit pattern. The detector lists every language it was
/// built from exactly once, gives each a probability between 0.0 and 1.0, and
/// sorts the list by descending probability.
#[verifier::external_body]
fn compute_language_confidence_values(detector: &LanguageDetector, text: &str) -> (entries: Vec<
    ScoreEntry,
>)
    ensures
        is_ranking(entries@, candidates(*detector)),
{
    detector
        .compute_language_confidence_values(text)
        .into_iter()
        .map(|(language, confidence)| ScoreEntry { language, confidence: confidence.to_bits() })
        .collect()
}

/// The language that `text` is most likely written in, if the detector finds
/// one reliably. Absence of a match is a result, not a failure.
pub fn classify(detector: &LanguageDetector, text: &str) -> (found: Option<Language>)
    ensures
        found matches Some(language) ==> candidates(*detector).contains(language),
{
    detect_language_of(detector, text)
}

/// Every candidate language with its confidence for `text`, the most likely
/// first.
pub fn classify_with_confidence(detector: &LanguageDetector, text: &str) -> (entries: Vec<
    ScoreEntry,
>)
    ensures
        is_ranking(entries@, candidates(*detector)),
{
    compute_language_confidence_values(detector, text)
}

/// The first entry of a list. In a list in descending order no other entry
/// exceeds it.
pub fn top_entry(entries: &Vec<ScoreEntry>) -> (top: Option<ScoreEntry>)
    ensures
        top == if entries@.len() == 0 {
            None
        } else {
            Some(entries@[0])
        },
        descending(entries@) ==> forall|i: int|
            0 <= i < entries@.len() ==> entries@[0].confidence >= (
            #[trigger] entries@[i]).confidence,
{
    if entries.len() == 0 {
        None
    } else {
        Some(entries[0])
    }
}

/// A ranking is empty only where there is no candidate. Where the detector
/// has a candidate, the ranking lists it, so the ranking has a first entry,
/// and no entry exceeds the first.
pub proof fn lemma_ranking_lists_each_candidate(
    entries: Seq<ScoreEntry>,
    languages: Set<Language>,
    language: Language,
)
    requires
        is_ranking(entries, languages),
        languages.contains(language),
    ensures
        entries.len() > 0,
        exists|i: int| 0 <= i < entries.len() && (#[trigger] entries[i]).language == language,
        languages.contains(entries[0].language),
        forall|i: int|
            0 <= i < entries.len() ==> entries[0].confidence >= (#[trigger] entries[i]).confidence,
{
}

} // verus!
