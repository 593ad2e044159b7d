//! The debug text of an error, as it appears in the answers to requests.

use vstd::prelude::*;
use vstd::string::*;

use crate::error::{BackendError, BackendErrorView, OhosRdbError};

verus! {

/// What std's `Debug` writes for a string slice: the text in double quotes, with
/// the characters escaped that are not shown as they are.
pub uninterp spec fn quoted(text: Seq<char>) -> Seq<char>;

/// Formats `text` with std's `Debug` implementation of `str`. Claimed of it is
/// only that the result depends on the characters of `text` and on nothing else;
/// which characters it escapes is left unsaid.
#[verifier::external_body]
fn quote(text: &str) -> (result: String)
    ensures
        result@ == quoted(text@),
{
    format!("{text:?}")
}

/// The character of a decimal digit.
pub open spec fn digit(value: int) -> char
    recommends
        0 <= value < 10,
{
    ('0' as int + value) as char
}

/// The decimal digits of a natural number, without leading zeros.
pub open spec fn digits(value: nat) -> Seq<char>
    decreases value,
{
    if value < 10 {
        seq![digit(value as int)]
    } else {
        digits(value / 10).push(digit((value % 10) as int))
    }
}

/// The decimal text of an integer: a minus sign where it is negative, then its
/// digits.
pub open spec fn decimal(value: int) -> Seq<char> {
    if value < 0 {
        seq!['-'] + digits((-value) as nat)
    } else {
        digits(value as nat)
    }
}

/// The text of one digit.
fn digit_text(value: u32) -> (text: &'static str)
    requires
        value < 10,
    ensures
        text@ == seq![digit(value as int)],
{
    proof {
        reveal_strlit("0");
        reveal_strlit("1");
        reveal_strlit("2");
        reveal_strlit("3");
        reveal_strlit("4");
        reveal_strlit("5");
        reveal_strlit("6");
        reveal_strlit("7");
        reveal_strlit("8");
        reveal_strlit("9");
    }
    match value {
        0 => "0",
        1 => "1",
        2 => "2",
        3 => "3",
        4 => "4",
        5 => "5",
        6 => "6",
        7 => "7",
        8 => "8",
        _ => "9",
    }
}

/// Writes a natural number in decimal.
fn digits_text(value: u32) -> (text: String)
    ensures
        text@ == digits(value as nat),
    decreases value,
{
    if value < 10 {
        digit_text(value).to_string()
    } else {
        let mut text = digits_text(value / 10);
        text.append(digit_text(value % 10));
        text
    }
}

/// Writes an integer in decimal.
pub fn decimal_text(value: i32) -> (text: String)
    ensures
        text@ == decimal(value as int),
{
    if value < 0 {
        proof {
            reveal_strlit("-");
        }
        let mut text = "-".to_string();
        let magnitude: u32 = if value == i32::MIN {
            2147483648
        } else {
            (-value) as u32
        };
        text.append(digits_text(magnitude).as_str());
        text
    } else {
        digits_text(value as u32)
    }
}

impl OhosRdbError {
    /// The debug text of this error, in the layout of a derived `Debug`: the
    /// variant's name with its fields, or the text that the store layer gave.
    pub open spec fn debug_view(self) -> Seq<char> {
        match self {
            OhosRdbError::Api { context, code } => "Api { context: "@ + quoted(context@)
                + ", code: "@ + decimal(code as int) + " }"@,
            OhosRdbError::Reported { debug } => debug@,
        }
    }

    /// Writes the debug text of this error.
    pub fn debug_text(&self) -> (text: String)
        ensures
            text@ == self.debug_view(),
    {
        match self {
            OhosRdbError::Api { context, code } => {
                let mut text = "Api { context: ".to_string();
                text.append(quote(context).as_str());
                text.append(", code: ");
                text.append(decimal_text(*code).as_str());
                text.append(" }");
                text
            },
            OhosRdbError::Reported { debug } => debug.clone(),
        }
    }
}

/// The answer to a request that a failing call of the relational store ended.
pub open spec fn db_err_view(error: OhosRdbError) -> BackendErrorView {
    BackendErrorView::DbErr(error.debug_view())
}

/// The answer to a request that a failing call of the relational store ended:
/// it carries the debug text of the error.
pub fn db_err(error: &OhosRdbError) -> (answer: BackendError)
    ensures
        answer@ == db_err_view(*error),
{
    BackendError::DbErr(error.debug_text())
}

} // verus!
