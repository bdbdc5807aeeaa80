//! Text form of a handle: a label, and the pointee's own rendering in round
//! brackets.
use std::fmt::{Debug, Error, Formatter, Write};
use vstd::prelude::*;
use vstd::string::StringExecFns;

verus! {

/// The text of a handle called `label` whose pointee renders as `pointee`.
pub open spec fn labelled_text(label: Seq<char>, pointee: Seq<char>) -> Seq<char> {
    label + seq!['('] + pointee + seq![')']
}

/// Builds `label(pointee)`.
pub fn labelled(label: &str, pointee: &str) -> (text: String)
    ensures
        text@ == labelled_text(label@, pointee@),
{
    proof {
        reveal_strlit("(");
        reveal_strlit(")");
        assert("("@ =~= seq!['(']);
        assert(")"@ =~= seq![')']);
    }
    let mut text = String::from_str(label);
    text.append("(");
    text.append(pointee);
    text.append(")");
    text
}

/// Puts `label` and the brackets around a pointee's rendering, and hands on
/// the error of a pointee that could not be rendered.
pub fn labelled_rendering(label: &str, pointee: Result<String, Error>) -> (text: Result<
    String,
    Error,
>)
    ensures
        match pointee {
            Ok(inner) => text matches Ok(whole) && whole@ == labelled_text(label@, inner@),
            Err(error) => text == Err::<String, Error>(error),
        },
{
    match pointee {
        Ok(inner) => Ok(labelled(label, inner.as_str())),
        Err(error) => Err(error),
    }
}

/// `write!` with `{:?}` into a new `String`: the value's `Debug` rendering, or
/// the error that the value's `Debug` impl returned. Which of the two, and
/// what the text holds, is up to that impl, so nothing is claimed of either.
#[verifier::external_body]
pub(crate) fn debug_text<T: Debug>(value: &T) -> (text: Result<String, Error>) {
    let mut text = String::new();
    match write!(text, "{:?}", value) {
        Ok(()) => Ok(text),
        Err(error) => Err(error),
    }
}

/// `std::fmt::Formatter`, where a `Debug` impl writes its text.
#[verifier::external_type_specification]
#[verifier::external_body]
pub struct ExFormatter<'a>(Formatter<'a>);

/// `std::fmt::Error`, what a formatter returns when it cannot write.
#[verifier::external_type_specification]
#[verifier::external_body]
pub struct ExError(Error);

/// `Formatter::write_str` hands `text` to the formatter's sink. Whether that
/// takes it is up to the sink.
pub assume_specification<'a>[ Formatter::<'a>::write_str ](
    formatter: &mut Formatter<'a>,
    text: &str,
) -> Result<(), Error>;

} // verus!
