//! Small text helpers: time stamps, placeholders and plurals.
use std::sync::Arc;
use vstd::prelude::*;
use vstd::string::*;
use crate::decimal::{decimal, decimal_padded, digits, signed_decimal, signed_digits, zero_padded};

verus! {

/// What stands in for a missing tag.
pub const NONE: &'static str = "None";

/// Nanoseconds in a second.
pub const NANOS_PER_SECOND: u64 = 1_000_000_000;

/// The whole seconds of a time stamp given in nanoseconds.
pub open spec fn whole_seconds(timestamp: u64) -> nat {
    (timestamp / NANOS_PER_SECOND) as nat
}

/// A time stamp as `minutes:seconds`, the minutes zero padded to `width`
/// digits and the seconds to two.
pub open spec fn clock_text(timestamp: u64, width: nat) -> Seq<char> {
    zero_padded(digits(whole_seconds(timestamp) / 60), width) + seq![':'] + zero_padded(
        digits(whole_seconds(timestamp) % 60),
        2,
    )
}

/// `format_pad` with a width of one.
pub fn format(timestamp: u64) -> (text: String)
    ensures
        text@ == clock_text(timestamp, 1),
{
    format_pad(timestamp, 1)
}

/// A time stamp in nanoseconds as `minutes:seconds`, the minutes zero padded
/// to `width` digits and the seconds to two.
pub fn format_pad(timestamp: u64, width: usize) -> (text: String)
    ensures
        text@ == clock_text(timestamp, width as nat),
{
    let seconds = timestamp / NANOS_PER_SECOND;
    let minutes_text = decimal_padded(seconds / 60, width);
    let seconds_text = decimal_padded(seconds % 60, 2);
    proof { reveal_strlit(":"); }
    let with_colon = minutes_text.concat(":");
    with_colon.concat(seconds_text.as_str())
}

/// The tag, or `NONE` when there is none.
pub fn or_none(string: &Option<String>) -> (text: &str)
    ensures
        text@ == match string {
            Some(s) => s@,
            None => NONE@,
        },
{
    match string {
        Some(s) => s.as_str(),
        None => NONE,
    }
}

/// The shared tag, or a new shared `NONE` when there is none.
pub fn or_none_arc(string: Option<Arc<String>>) -> (text: Arc<String>)
    ensures
        text@ == match string {
            Some(s) => s@,
            None => NONE@,
        },
{
    match string {
        Some(s) => s,
        None => Arc::new(String::from_str(NONE)),
    }
}

/// `word` as it stands after a count: unchanged after exactly one, with an
/// 's' after any other count.
pub open spec fn plural_word(is_one: bool, word: Seq<char>) -> Seq<char> {
    if is_one {
        word
    } else {
        word + seq!['s']
    }
}

/// Counts that put a word in the plural.
pub trait Plural {
    /// `string` in the singular after a count of one, in the plural otherwise.
    fn plural(&self, string: &str) -> String;

    /// The count, a space, and `string` in the number that the count asks for.
    fn number_plural(&self, string: &str) -> String;
}

fn with_s(string: &str, is_one: bool) -> (text: String)
    ensures
        text@ == plural_word(is_one, string@),
{
    let word = String::from_str(string);
    if is_one {
        word
    } else {
        proof { reveal_strlit("s"); }
        word.concat("s")
    }
}

fn counted(count_text: String, word: String) -> (text: String)
    ensures
        text@ == count_text@ + seq![' '] + word@,
{
    proof { reveal_strlit(" "); }
    let spaced = count_text.concat(" ");
    spaced.concat(word.as_str())
}

impl Plural for usize {
    fn plural(&self, string: &str) -> (text: String)
        ensures
            text@ == plural_word(*self == 1, string@),
    {
        with_s(string, *self == 1)
    }

    fn number_plural(&self, string: &str) -> (text: String)
        ensures
            text@ == digits(*self as nat) + seq![' '] + plural_word(*self == 1, string@),
    {
        counted(decimal(*self as u64), self.plural(string))
    }
}

impl Plural for i64 {
    /// The plural of the count taken as a `usize`.
    fn plural(&self, string: &str) -> (text: String)
        ensures
            text@ == plural_word((*self as usize) == 1, string@),
    {
        (*self as usize).plural(string)
    }

    fn number_plural(&self, string: &str) -> (text: String)
        ensures
            text@ == signed_digits(*self as int) + seq![' '] + plural_word((*self as usize) == 1, string@),
    {
        counted(signed_decimal(*self), self.plural(string))
    }
}

} // verus!
