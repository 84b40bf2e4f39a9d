//! The multi-part body of a submission, as `reqwest` builds it.

use vstd::prelude::*;

verus! {

/// `reqwest::blocking::multipart::Form`: the parts of a multi-part body in
/// the order in which they were added, a boundary that is drawn at random,
/// and the way in which the names of the parts are encoded.
#[verifier::external_type_specification]
#[verifier::external_body]
pub struct ExForm(reqwest::blocking::multipart::Form);

/// The parts of a form that holds text parts only: the name and the text
/// of each, in the order in which they were added.
pub uninterp spec fn form_parts(form: reqwest::blocking::multipart::Form) -> Seq<
    (Seq<char>, Seq<char>),
>;

/// Whether a form writes the names of its parts as they stand, without
/// percent-encoding them.
pub uninterp spec fn form_is_raw(form: reqwest::blocking::multipart::Form) -> bool;

/// Calls `Form::new`.
///
/// Trusted: the new form has no parts, and it percent-encodes names.
#[verifier::external_body]
pub(crate) fn new_form() -> (result: reqwest::blocking::multipart::Form)
    ensures
        form_parts(result) == Seq::<(Seq<char>, Seq<char>)>::empty(),
        !form_is_raw(result),
{
    reqwest::blocking::multipart::Form::new()
}

/// Calls `Form::percent_encode_noop`.
///
/// Trusted: the form keeps its parts, and it no longer percent-encodes
/// names.
#[verifier::external_body]
pub(crate) fn raw_form(form: reqwest::blocking::multipart::Form) -> (result:
    reqwest::blocking::multipart::Form)
    ensures
        form_parts(result) == form_parts(form),
        form_is_raw(result),
{
    form.percent_encode_noop()
}

/// Calls `Form::text`.
///
/// Trusted: the form gains one part at its end, with the given name and
/// text, and encodes names as before.
#[verifier::external_body]
pub(crate) fn add_text(
    form: reqwest::blocking::multipart::Form,
    name: String,
    value: String,
) -> (result: reqwest::blocking::multipart::Form)
    ensures
        form_parts(result) == form_parts(form).push((name@, value@)),
        form_is_raw(result) == form_is_raw(form),
{
    form.text(name, value)
}

} // verus!
