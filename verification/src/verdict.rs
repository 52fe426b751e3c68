//! What a check concludes.
//!
//! A check returns `Result<(), String>`: `Ok` accepts, `Err` rejects and gives
//! the reason. Contracts speak of the reason through its view.

use vstd::prelude::*;
use crate::text::is_blank;
use crate::text::is_one_of;
use crate::text::join_strs;
use crate::text::joined;
use crate::text::literal_views;
use crate::text::str_is_blank;

verus! {

/// Acceptance, or the text of the rejection.
pub type Verdict = Result<(), Seq<char>>;

/// The verdict that a result stands for.
pub open spec fn outcome(res: Result<(), String>) -> Verdict {
    match res {
        Ok(_) => Ok(()),
        Err(message) => Err(message@),
    }
}

/// The first rejection of two checks made in order.
pub open spec fn and_then(first: Verdict, second: Verdict) -> Verdict {
    if first is Err {
        first
    } else {
        second
    }
}

/// Rejects where `failed` holds, with `message`.
pub open spec fn reject_if(failed: bool, message: Seq<char>) -> Verdict {
    if failed {
        Err(message)
    } else {
        Ok(())
    }
}

/// A rejection with a fixed text.
pub fn rejection(message: &str) -> (res: Result<(), String>)
    ensures
        outcome(res) == Err::<(), Seq<char>>(message@),
{
    Err(message.to_string())
}

/// A rejection that quotes one value between two fixed texts.
pub open spec fn quoting(before: Seq<char>, value: Seq<char>, after: Seq<char>) -> Seq<char> {
    before + value + after
}

/// Builds the text that quotes `value` between `before` and `after`.
pub fn quote(before: &str, value: &str, after: &str) -> (out: String)
    ensures
        out@ == quoting(before@, value@, after@),
{
    let mut out = before.to_string();
    out.append(value);
    out.append(after);
    out
}

/// The rejection of a value that is none of the allowed ones: it names what
/// the value is, the value, and the allowed ones.
pub open spec fn choice_message(label: Seq<char>, value: Seq<char>, allowed: Seq<Seq<char>>) -> Seq<
    char,
> {
    "Invalid "@ + label + " '"@ + value + "'. Must be one of: "@ + joined(allowed, ", "@)
}

/// A value must be one of the allowed ones.
pub open spec fn choice_verdict(label: Seq<char>, value: Seq<char>, allowed: Seq<Seq<char>>) -> Verdict {
    reject_if(!allowed.contains(value), choice_message(label, value, allowed))
}

/// Builds the rejection of a value that is none of the allowed ones.
pub fn choice_rejection(label: &str, value: &str, allowed: String) -> (res: Result<(), String>)
    ensures
        outcome(res) == Err::<(), Seq<char>>(
            "Invalid "@ + label@ + " '"@ + value@ + "'. Must be one of: "@ + allowed@,
        ),
{
    let mut message = "Invalid ".to_string();
    message.append(label);
    message.append(" '");
    message.append(value);
    message.append("'. Must be one of: ");
    message.append(allowed.as_str());
    Err(message)
}

/// Checks that `value` is one of `allowed`.
pub fn check_choice(label: &str, value: &str, allowed: &Vec<&'static str>) -> (res: Result<
    (),
    String,
>)
    ensures
        outcome(res) == choice_verdict(label@, value@, literal_views(allowed@)),
{
    if is_one_of(value, allowed) {
        Ok(())
    } else {
        choice_rejection(label, value, join_strs(allowed, ", "))
    }
}

/// An optional text that is absent or blank.
pub open spec fn lacks_text(value: Option<String>) -> bool {
    match value {
        Some(text) => is_blank(text@),
        None => true,
    }
}

/// Whether an optional text is absent or blank.
pub fn is_lacking(value: &Option<String>) -> (r: bool)
    ensures
        r == lacks_text(*value),
{
    match value {
        Some(text) => str_is_blank(text.as_str()),
        None => true,
    }
}

/// A text with the decoder's words after it.
pub fn unreadable(before: &str, failure: &String) -> (res: Result<(), String>)
    ensures
        outcome(res) == Err::<(), Seq<char>>(before@ + failure@),
{
    let mut message = before.to_string();
    message.append(failure.as_str());
    Err(message)
}

} // verus!
