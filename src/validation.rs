use crate::models::NewPost;
use vstd::prelude::*;
use validator::ValidateLength;

verus! {

/// The messages that one field failed validation with.
pub struct FieldError {
    pub field: String,
    pub messages: Vec<String>,
}

/// Relies on validator's `ValidateLength::validate_length` for `String`, which
/// counts characters and, with only a minimum given, checks `count >= min`.
#[verifier::external_body]
fn has_min_length(s: &String, min: u64) -> (r: bool)
    ensures
        r == (s@.len() >= min),
{
    s.validate_length(Some(min), None, None)
}

/// Whether `errs` holds, in order, an entry for each of `title` and `body`
/// that is empty, with the message that names it.
pub open spec fn reports_empty_fields(title: Seq<char>, body: Seq<char>, errs: Seq<FieldError>) -> bool {
    let t = title.len() == 0;
    let b = body.len() == 0;
    &&& errs.len() == (if t { 1int } else { 0 }) + (if b { 1int } else { 0 })
    &&& t ==> errs[0].field@ == "title"@ && errs[0].messages@.len() == 1
        && errs[0].messages@[0]@ == "Title is required"@
    &&& b ==> {
        let k = if t { 1int } else { 0 };
        errs[k].field@ == "body"@ && errs[k].messages@.len() == 1
            && errs[k].messages@[0]@ == "Body is required"@
    }
}

fn field_error(field: &str, message: &str) -> (r: FieldError)
    ensures
        r.field@ == field@,
        r.messages@.len() == 1,
        r.messages@[0]@ == message@,
{
    let mut messages: Vec<String> = Vec::new();
    messages.push(String::from_str(message));
    FieldError { field: String::from_str(field), messages }
}

/// Checks that a post's title and body are non-empty; on failure lists each
/// empty field with its message.
pub fn validate_post(p: &NewPost) -> (r: Result<(), Vec<FieldError>>)
    ensures
        r is Ok <==> (p.title@.len() > 0 && p.body@.len() > 0),
        r matches Err(errs) ==> reports_empty_fields(p.title@, p.body@, errs@),
{
    let title_ok = has_min_length(&p.title, 1);
    let body_ok = has_min_length(&p.body, 1);
    if title_ok && body_ok {
        return Ok(());
    }
    let mut errs: Vec<FieldError> = Vec::new();
    if !title_ok {
        errs.push(field_error("title", "Title is required"));
    }
    if !body_ok {
        errs.push(field_error("body", "Body is required"));
    }
    Err(errs)
}

} // verus!
