//! The exercise site: where its pages are, and what its forms hold.

use vstd::prelude::*;
use vstd::string::StringExecFns;
use crate::model::FormField;

verus! {

/// The address of an exercise's page.
pub open spec fn exercise_address(exercise: Seq<char>) -> Seq<char> {
    "https://codingbat.com/prob/"@ + exercise
}

/// The address that logins are posted to.
pub open spec fn login_address() -> Seq<char> {
    "https://codingbat.com/login"@
}

/// The address that solutions are posted to.
pub open spec fn submit_address() -> Seq<char> {
    "https://codingbat.com/run"@
}

/// The login form: the account, its credential, and the fixed login flag.
pub open spec fn login_fields(id: Seq<char>, credential: Seq<char>) -> Seq<
    (Seq<char>, Seq<char>),
> {
    seq![("uname"@, id), ("pw"@, credential), ("dologin"@, "log+in"@)]
}

/// The submission form: the exercise, the code, and the submitting account.
pub open spec fn submit_fields(exercise: Seq<char>, code: Seq<char>, id: Seq<char>) -> Seq<
    (Seq<char>, Seq<char>),
> {
    seq![("id"@, exercise), ("code"@, code), ("cuname"@, id)]
}

/// The fields of a form as pairs of name and value.
pub open spec fn form_view(form: Vec<FormField>) -> Seq<(Seq<char>, Seq<char>)> {
    Seq::new(form@.len(), |i: int| form@[i]@)
}

fn field(name: &str, value: &str) -> (r: FormField)
    ensures
        r@ == (name@, value@),
{
    FormField { name: String::from_str(name), value: String::from_str(value) }
}

/// Builds the address of an exercise's page.
pub fn exercise_url(exercise: &str) -> (r: String)
    ensures
        r@ == exercise_address(exercise@),
{
    String::from_str("https://codingbat.com/prob/").concat(exercise)
}

/// The address that logins are posted to.
pub fn login_url() -> (r: String)
    ensures
        r@ == login_address(),
{
    String::from_str("https://codingbat.com/login")
}

/// The address that solutions are posted to.
pub fn submit_url() -> (r: String)
    ensures
        r@ == submit_address(),
{
    String::from_str("https://codingbat.com/run")
}

/// Builds the form that logs an account in. What the site answers is not
/// looked at, so a wrong credential is not told from a right one.
pub fn login_form(id: &str, credential: &str) -> (r: Vec<FormField>)
    ensures
        form_view(r) == login_fields(id@, credential@),
{
    let mut form: Vec<FormField> = Vec::new();
    form.push(field("uname", id));
    form.push(field("pw", credential));
    form.push(field("dologin", "log+in"));
    assert(form_view(form) =~= login_fields(id@, credential@));
    form
}

/// Builds the form that submits a solution for an account.
pub fn submit_form(exercise: &str, code: &str, id: &str) -> (r: Vec<FormField>)
    ensures
        form_view(r) == submit_fields(exercise@, code@, id@),
{
    let mut form: Vec<FormField> = Vec::new();
    form.push(field("id", exercise));
    form.push(field("code", code));
    form.push(field("cuname", id));
    assert(form_view(form) =~= submit_fields(exercise@, code@, id@));
    form
}

} // verus!
