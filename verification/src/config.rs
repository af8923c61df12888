//! Settings of the service, and the reading of the list of languages.
//!
//! The languages are configured as one line of names, separated by commas,
//! in any mix of upper and lower case and with white space round the names
//! as one pleases: `english, FRENCH,german`. The line is put into upper
//! case, rewritten as a JSON array of names, each with a capital first
//! letter and the rest in lower case, and read as such.
use vstd::prelude::*;
use lingua::Language;
use serde_json::Error as JsonError;
use crate::text::capitalised;
use crate::text::chars_of;
use crate::text::to_lower;
use crate::text::to_upper;
use crate::text::trim_bounds;
use crate::text::trimmed;

verus! {

/// Bit pattern of 0.99, the largest distance that a detector accepts, as an
/// IEEE-754 double.
pub const MAX_RELATIVE_DISTANCE: u64 = 0x3FEF_AE14_7AE1_47AE;

/// Bit pattern of -0.0, which counts as zero.
pub const NEGATIVE_ZERO: u64 = 0x8000_0000_0000_0000;

/// Whether a bit pattern is that of a double between 0.0 and 0.99. The
/// patterns of the doubles from 0.0 upwards are ordered as the doubles are;
/// those of negative numbers and of what is not a number lie above them all.
pub open spec fn in_range(distance: u64) -> bool {
    distance <= MAX_RELATIVE_DISTANCE || distance == NEGATIVE_ZERO
}

/// The languages that a JSON array of names stands for, if it stands for
/// any.
pub uninterp spec fn decoded_languages(json: Seq<char>) -> Option<Seq<Language>>;

/// The length of a text up to its first comma, or of all of it if it has
/// none.
pub open spec fn item_end(text: Seq<char>) -> int
    decreases text.len(),
{
    if text.len() == 0 || text[0] == ',' {
        0
    } else {
        1 + item_end(text.drop_first())
    }
}

/// One name of the list as a JSON string: trimmed, capitalised, in quotes.
pub open spec fn quoted_name(item: Seq<char>) -> Seq<char> {
    seq!['"'] + capitalised(trimmed(item)) + seq!['"']
}

/// The names of the list as JSON strings, with commas between them.
pub open spec fn list_items(text: Seq<char>) -> Seq<char>
    decreases text.len(),
{
    let end = item_end(text);
    if 0 <= end < text.len() {
        quoted_name(text.take(end)) + seq![','] + list_items(text.skip(end + 1))
    } else {
        quoted_name(text)
    }
}

/// The list of names as the text of a JSON array.
pub open spec fn language_list_json(text: Seq<char>) -> Seq<char> {
    seq!['['] + list_items(text) + seq![']']
}

/// The settings of the service.
#[derive(Clone, Debug, PartialEq, Eq)]
pub struct Config {
    /// The address to listen on, as it is written: `0.0.0.0:8080`.
    pub listen_addr: String,
    /// The candidate languages, as one line of names.
    pub languages: String,
    /// How far the most likely language must lie ahead of the next for it to
    /// be reported: a double, held as its IEEE-754 bit pattern.
    pub minimum_relative_distance: Option<u64>,
}

/// What reading a list of languages came to, as a value.
pub open spec fn languages_model(read: Result<Vec<Language>, JsonError>) -> Option<
    Seq<Language>,
> {
    match read {
        Ok(languages) => Some(languages@),
        Err(_) => None,
    }
}

/// A text in upper case, as Unicode defines the upper case of each of its
/// characters.
pub uninterp spec fn upper_cased(text: Seq<char>) -> Seq<char>;

/// Calls `str::to_uppercase`, which puts a text into upper case. The result
/// depends on the text alone.
#[verifier::external_body]
fn upper_case(text: &str) -> (upper: String)
    ensures
        upper@ == upper_cased(text@),
{
    text.to_uppercase()
}

/// Calls `serde_json::from_str` to read a JSON array of language names.
/// Whether it succeeds, and with which languages, depends on the text alone.
#[verifier::external_body]
fn read_languages(json: &str) -> (read: Result<Vec<Language>, JsonError>)
    ensures
        languages_model(read) == decoded_languages(json@),
{
    serde_json::from_str(json)
}

impl Config {
    /// The candidate languages that `languages` names, or the fault that
    /// `serde_json` found in the rewritten list. The line is put into upper
    /// case before it is rewritten, so a name may be written with any
    /// character whose upper case is the letter that is meant.
    pub fn parse_languages(&self) -> (read: Result<Vec<Language>, JsonError>)
        ensures
            languages_model(read) == decoded_languages(
                language_list_json(upper_cased(self.languages@)),
            ),
    {
        let upper = upper_case(self.languages.as_str());
        let json = language_list(upper.as_str());
        read_languages(json.as_str())
    }

    /// The distance to build the detector with: the configured one, or 0.0.
    pub fn relative_distance(&self) -> (distance: u64)
        ensures
            distance == match self.minimum_relative_distance {
                Some(configured) => configured,
                None => 0,
            },
    {
        match self.minimum_relative_distance {
            Some(configured) => configured,
            None => 0,
        }
    }

    /// Whether a detector can be built with the configured distance, which
    /// must lie between 0.0 and 0.99.
    pub fn distance_in_range(&self) -> (ok: bool)
        ensures
            ok == match self.minimum_relative_distance {
                Some(configured) => in_range(configured),
                None => true,
            },
    {
        let distance = self.relative_distance();
        distance <= MAX_RELATIVE_DISTANCE || distance == NEGATIVE_ZERO
    }
}

/// Writes one name of the list behind `json`.
fn push_name(json: &mut String, chars: &Vec<char>, from: usize, to: usize)
    requires
        from <= to <= chars@.len(),
    ensures
        final(json)@ == old(json)@ + quoted_name(chars@.subrange(from as int, to as int)),
{
    let (first, last) = trim_bounds(chars, from, to);
    let ghost name = chars@.subrange(first as int, last as int);
    json.push('"');
    let mut i = first;
    while i < last
        invariant
            first <= i <= last <= chars@.len(),
            name == chars@.subrange(first as int, last as int),
            json@ == old(json)@ + seq!['"'] + capitalised(name).take(i - first),
        decreases last - i,
    {
        let c = if i == first {
            to_upper(chars[i])
        } else {
            to_lower(chars[i])
        };
        json.push(c);
        assert(capitalised(name).take(i + 1 - first) =~= capitalised(name).take(i - first).push(
            c,
        ));
        i += 1;
    }
    assert(capitalised(name).take(last - first) =~= capitalised(name));
    json.push('"');
    assert(json@ =~= old(json)@ + quoted_name(chars@.subrange(from as int, to as int)));
}

/// Rewrites a line of language names as the text of a JSON array.
pub fn language_list(text: &str) -> (json: String)
    ensures
        json@ == language_list_json(text@),
{
    let chars = chars_of(text);
    let mut json = String::new();
    json.push('[');
    let mut start: usize = 0;
    assert(chars@.skip(0) =~= chars@);
    loop
        invariant_except_break
            json@ + list_items(chars@.skip(start as int)) == seq!['['] + list_items(chars@),
        invariant
            start <= chars@.len(),
        ensures
            json@ == seq!['['] + list_items(chars@),
        decreases chars@.len() - start,
    {
        let ghost rest = chars@.skip(start as int);
        let mut end = start;
        assert(chars@.skip(end as int) =~= rest);
        while end < chars.len() && chars[end] != ','
            invariant
                start <= end <= chars@.len(),
                rest == chars@.skip(start as int),
                item_end(rest) == (end - start) + item_end(chars@.skip(end as int)),
            decreases chars@.len() - end,
        {
            assert(chars@.skip(end as int).drop_first() =~= chars@.skip(end + 1));
            end += 1;
        }
        assert(item_end(rest) == end - start);
        assert(rest.take(end - start) =~= chars@.subrange(start as int, end as int));
        let ghost before = json@;
        push_name(&mut json, &chars, start, end);
        if end >= chars.len() {
            assert(rest =~= chars@.subrange(start as int, end as int));
            break ;
        }
        json.push(',');
        assert(rest.skip(end - start + 1) =~= chars@.skip(end + 1));
        assert(json@ + list_items(chars@.skip(end + 1)) =~= before + list_items(rest));
        start = end + 1;
    }
    json.push(']');
    assert(json@ =~= language_list_json(text@));
    json
}

} // verus!
