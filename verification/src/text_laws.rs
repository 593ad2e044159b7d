//! What the texts of errors say, whatever the error.

use vstd::prelude::*;
use vstd::string::*;

use crate::batch::CreationFailure;
use crate::debug_text::{db_err, decimal_text, digit, digits, quoted};
use crate::error::{missing_row, required, BackendError, OhosRdbError, OhosRdbResult};

verus! {

/// The number that a text of decimal digits stands for.
pub open spec fn number_read(text: Seq<char>) -> int
    decreases text.len(),
{
    if text.len() == 0 {
        0
    } else {
        10 * number_read(text.drop_last()) + (text.last() as int - '0' as int)
    }
}

/// The text holds decimal digits only, and starts with a zero only if that is all.
pub open spec fn is_plain_number(text: Seq<char>) -> bool {
    &&& text.len() > 0
    &&& forall|i: int| 0 <= i < text.len() ==> '0' <= #[trigger] text[i] <= '9'
    &&& text[0] == '0' ==> text.len() == 1
}

proof fn lemma_digits_read_back(value: nat)
    ensures
        is_plain_number(digits(value)),
        number_read(digits(value)) == value,
        value > 0 ==> digits(value)[0] != '0',
    decreases value,
{
    let text = digits(value);
    if value < 10 {
        assert(text.drop_last() =~= Seq::empty());
        assert(number_read(text.drop_last()) == 0);
    } else {
        lemma_digits_read_back(value / 10);
        assert(text.drop_last() =~= digits(value / 10));
        assert(text.last() == digit((value % 10) as int));
        assert(text[0] == digits(value / 10)[0]);
    }
}

/// The decimal text of a number reads back as that number: a minus sign where it is
/// negative, then digits alone that stand for its magnitude.
pub proof fn law_decimal_text_reads_back(value: i32, text: String)
    requires
        call_ensures(decimal_text, (value,), text),
    ensures
        value >= 0 ==> is_plain_number(text@) && number_read(text@) == value,
        value < 0 ==> {
            &&& text@.len() > 0
            &&& text@[0] == '-'
            &&& is_plain_number(text@.skip(1))
            &&& number_read(text@.skip(1)) == -value
        },
{
    if value < 0 {
        lemma_digits_read_back((-value) as nat);
        assert(text@.skip(1) =~= digits((-value) as nat));
    } else {
        lemma_digits_read_back(value as nat);
    }
}

/// The debug text of an API error holds its context, quoted, and the decimal text of its
/// code, and nothing else that depends on the error.
pub proof fn law_api_error_text(
    context: &'static str,
    code: i32,
    text: String,
    code_text: String,
)
    requires
        call_ensures(
            OhosRdbError::debug_text,
            (&OhosRdbError::Api { context, code },),
            text,
        ),
        call_ensures(decimal_text, (code,), code_text),
    ensures
        text@ == "Api { context: "@ + quoted(context@) + ", code: "@ + code_text@ + " }"@,
{
}

/// A failure that the store layer reported keeps the text that it was reported with.
pub proof fn law_reported_error_text(debug: String, text: String)
    requires
        call_ensures(OhosRdbError::debug_text, (&OhosRdbError::Reported { debug },), text),
    ensures
        text@ == debug@,
{
}

/// A request that a failing call ended is answered with the debug text of that call's
/// error.
pub proof fn law_db_err_carries_the_text(error: OhosRdbError, answer: BackendError, text: String)
    requires
        call_ensures(db_err, (&error,), answer),
        call_ensures(OhosRdbError::debug_text, (&error,), text),
    ensures
        answer matches BackendError::DbErr(told) && told@ == text@,
{
}

/// Where the store could not be locked, requests are told the lock's own text.
pub proof fn law_failed_lock_is_told_as_it_is(debug: String, answer: BackendError)
    requires
        call_ensures(CreationFailure::answer, (CreationFailure::Lock { debug },), answer),
    ensures
        answer matches BackendError::DbErr(told) && told@ == debug@,
{
}

/// Where the store refused to create a transaction, requests are told the debug text of
/// its error.
pub proof fn law_refused_creation_is_told_as_its_text(
    error: OhosRdbError,
    answer: BackendError,
    text: String,
)
    requires
        call_ensures(CreationFailure::answer, (CreationFailure::Rdb(error),), answer),
        call_ensures(OhosRdbError::debug_text, (&error,), text),
    ensures
        answer matches BackendError::DbErr(told) && told@ == text@,
{
}

/// The error reports what is missing under the given context, with the code minus one.
pub open spec fn reports_missing(error: OhosRdbError, context: &'static str) -> bool {
    error matches OhosRdbError::Api { context: named, code } && named == context && code == -1
}

/// What is missing is reported under the context it was looked for in, with the code
/// minus one.
pub proof fn law_missing_row_names_its_context(context: &'static str, error: OhosRdbError)
    requires
        call_ensures(missing_row, (context,), error),
    ensures
        reports_missing(error, context),
{
}

/// A value that is there is handed on as it is; one that is not is the same error that
/// a missing row is.
pub proof fn law_required_value_or_missing_row<T>(
    value: Option<T>,
    context: &'static str,
    result: OhosRdbResult<T>,
    missing: OhosRdbError,
)
    requires
        call_ensures(required::<T>, (value, context), result),
        call_ensures(missing_row, (context,), missing),
    ensures
        value matches Some(held) ==> result == Ok::<T, OhosRdbError>(held),
        value is None ==> result == Err::<T, OhosRdbError>(missing),
{
}

/// A copied answer is the answer itself.
pub proof fn law_copied_answer_is_the_same(error: BackendError, copy: BackendError)
    requires
        call_ensures(<BackendError as Clone>::clone, (&error,), copy),
    ensures
        copy == error,
{
}

} // verus!
