//! The capture extractor: matching a compiled pattern against input text and
//! projecting its named capture groups into a name-to-text mapping.
//!
//! The pattern engine itself is the `regex` crate; the few calls into it are
//! gathered here behind trusted declarations, and everything downstream of
//! them is verified.

use crate::error::Error;
use regex::Regex;
use vstd::prelude::*;

verus! {

#[verifier::external_type_specification]
#[verifier::external_body]
pub struct ExRegex(Regex);

/// The pattern source a compiled [`Regex`] holds: what `Regex::as_str`
/// returns, and the string the value was compiled from.
pub uninterp spec fn regex_pattern(re: Regex) -> Seq<char>;

/// Whether `Regex::new` accepts `src` as a pattern. Compilation is a function
/// of the source alone.
pub uninterp spec fn pattern_compiles(src: Seq<char>) -> bool;

/// The diagnostic text that `Regex::new` reports for a source it rejects.
pub uninterp spec fn pattern_diagnostic(src: Seq<char>) -> Seq<char>;

/// What matching `pattern` against `input` yields: `None` when the pattern
/// does not match, otherwise one entry per capture group of the pattern, in
/// declaration order, holding the group's name (`None` for an unnamed group)
/// and the text it captured (`None` for a group that did not participate in
/// the match). Matching is a function of the pattern source and the input
/// alone.
pub uninterp spec fn captures_of(pattern: Seq<char>, input: Seq<char>) -> Option<
    Seq<(Option<Seq<char>>, Option<Seq<char>>)>,
>;

/// The image of one raw capture entry in the mathematical domain.
pub open spec fn raw_entry_view(e: (Option<String>, Option<String>)) -> (
    Option<Seq<char>>,
    Option<Seq<char>>,
) {
    (e.0.deep_view(), e.1.deep_view())
}

/// The image of a raw capture list in the mathematical domain.
pub open spec fn raw_view(v: Seq<(Option<String>, Option<String>)>) -> Seq<
    (Option<Seq<char>>, Option<Seq<char>>),
> {
    v.map_values(|e: (Option<String>, Option<String>)| raw_entry_view(e))
}

/// Relies on `regex::Regex::new`: it compiles the pattern source, returning
/// the compiled pattern exactly when the source is acceptable, and a
/// diagnostic otherwise. Both outcomes depend on the source alone.
#[verifier::external_body]
fn regex_compile(src: &str) -> (r: Result<Regex, String>)
    ensures
        r is Ok <==> pattern_compiles(src@),
        r matches Ok(re) ==> regex_pattern(re) == src@,
        r matches Err(m) ==> m@ == pattern_diagnostic(src@),
{
    Regex::new(src).map_err(|e| e.to_string())
}

/// Relies on `regex::Regex::captures`, `Regex::capture_names` and
/// `regex::Captures::name`: one match attempt, then each capture group's name
/// and captured text read out in declaration order, `None` marking unnamed
/// groups and groups that did not participate in the match.
#[verifier::external_body]
fn regex_captures(re: &Regex, input: &str) -> (r: Option<Vec<(Option<String>, Option<String>)>>)
    ensures
        r is Some <==> captures_of(regex_pattern(*re), input@) is Some,
        r matches Some(v) ==> captures_of(regex_pattern(*re), input@) == Some(raw_view(v@)),
{
    let caps = re.captures(input)?;
    let raw = re
        .capture_names()
        .map(|n| match n {
            None => (None, None),
            Some(g) => (Some(g.to_owned()), caps.name(g).map(|m| m.as_str().to_owned())),
        })
        .collect();
    Some(raw)
}

/// Compiles a pattern source, mapping a rejected source to
/// [`Error::BadRegex`] with the compiler's diagnostic.
pub fn compile(src: &str) -> (r: Result<Regex, Error>)
    ensures
        r is Ok <==> pattern_compiles(src@),
        r matches Ok(re) ==> regex_pattern(re) == src@,
        r matches Err(e) ==> e@ == crate::error::SpecError::BadRegex(pattern_diagnostic(src@)),
{
    match regex_compile(src) {
        Ok(re) => Ok(re),
        Err(m) => Err(Error::BadRegex(m)),
    }
}

/// The named capture groups that participated in a match, projected from the
/// raw capture list in declaration order: unnamed groups and groups that did
/// not participate are left out.
pub open spec fn named_captures(raw: Seq<(Option<Seq<char>>, Option<Seq<char>>)>) -> Seq<
    (Seq<char>, Seq<char>),
>
    decreases raw.len(),
{
    if raw.len() == 0 {
        Seq::empty()
    } else {
        let rest = named_captures(raw.drop_last());
        match raw.last() {
            (Some(name), Some(text)) => rest.push((name, text)),
            _ => rest,
        }
    }
}

/// A name-to-text mapping built once per conversion call: one entry per named
/// capture group that participated in the match, in declaration order.
#[derive(Debug, PartialEq, Eq)]
pub struct CaptureSet {
    pub entries: Vec<(String, String)>,
}

impl View for CaptureSet {
    type V = Seq<(Seq<char>, Seq<char>)>;

    open spec fn view(&self) -> Seq<(Seq<char>, Seq<char>)> {
        self.entries@.map_values(|e: (String, String)| (e.0@, e.1@))
    }
}

/// The captured text for the first entry named `name`, if any.
pub open spec fn spec_lookup(caps: Seq<(Seq<char>, Seq<char>)>, name: Seq<char>) -> Option<
    Seq<char>,
>
    decreases caps.len(),
{
    if caps.len() == 0 {
        None
    } else if caps[0].0 == name {
        Some(caps[0].1)
    } else {
        spec_lookup(caps.drop_first(), name)
    }
}

impl CaptureSet {
    /// The captured text for the capture group named `name`, if that group
    /// exists and participated in the match.
    pub fn lookup(&self, name: &String) -> (r: Option<String>)
        ensures
            r.deep_view() == spec_lookup(self@, name@),
    {
        let n = self.entries.len();
        let mut i: usize = 0;
        proof {
            assert(self@.skip(0) =~= self@);
        }
        while i < n
            invariant
                0 <= i <= n,
                n == self.entries.len(),
                spec_lookup(self@, name@) == spec_lookup(self@.skip(i as int), name@),
            decreases n - i,
        {
            proof {
                assert(self@.skip(i as int)[0] == (self.entries@[i as int].0@,
                self.entries@[i as int].1@));
                assert(self@.skip(i as int).drop_first() =~= self@.skip(i + 1));
            }
            if self.entries[i].0 == *name {
                return Some(self.entries[i].1.clone());
            }
            i = i + 1;
        }
        proof {
            assert(self@.skip(n as int) =~= Seq::<(Seq<char>, Seq<char>)>::empty());
        }
        None
    }
}

/// Matches a compiled pattern against `input` and builds the capture set,
/// or reports [`Error::NoMatch`] when the pattern does not match.
pub fn extract(re: &Regex, input: &str) -> (r: Result<CaptureSet, Error>)
    ensures
        r is Ok <==> captures_of(regex_pattern(*re), input@) is Some,
        r matches Ok(caps) ==> caps@ == named_captures(
            captures_of(regex_pattern(*re), input@)->Some_0,
        ),
        r matches Err(e) ==> e@ == crate::error::SpecError::NoMatch && captures_of(
            regex_pattern(*re),
            input@,
        ) is None,
{
    let raw = match regex_captures(re, input) {
        Some(raw) => raw,
        None => {
            return Err(Error::NoMatch);
        },
    };
    let ghost raw_seq = raw_view(raw@);
    let n = raw.len();
    let mut entries: Vec<(String, String)> = Vec::new();
    let mut i: usize = 0;
    while i < n
        invariant
            0 <= i <= n,
            n == raw.len(),
            raw_seq == raw_view(raw@),
            entries@.map_values(|e: (String, String)| (e.0@, e.1@)) == named_captures(
                raw_seq.take(i as int),
            ),
        decreases n - i,
    {
        let ghost prev = entries@.map_values(|e: (String, String)| (e.0@, e.1@));
        proof {
            assert(raw_seq.take(i + 1).drop_last() =~= raw_seq.take(i as int));
            assert(raw_seq.take(i + 1).last() == raw_entry_view(raw@[i as int]));
        }
        match &raw[i] {
            (Some(name), Some(text)) => {
                entries.push((name.clone(), text.clone()));
                proof {
                    assert(entries@.map_values(|e: (String, String)| (e.0@, e.1@)) =~= prev.push(
                        (raw@[i as int].0->Some_0@, raw@[i as int].1->Some_0@),
                    ));
                }
            },
            _ => {},
        }
        i = i + 1;
    }
    proof {
        assert(raw_seq.take(n as int) =~= raw_seq);
    }
    Ok(CaptureSet { entries })
}

} // verus!
