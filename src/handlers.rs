use crate::models::{ApiResponse, Contact, NewContact, NewPost, Post};
use crate::store::StoreError;
use crate::upload::{check_contact, completeness_check, is_complete, UploadError};
use crate::validation::{reports_empty_fields, validate_post, FieldError};
use vstd::prelude::*;

verus! {

/// The payload of a response about posts.
pub enum PostData {
    One(Post),
    Many(Vec<Post>),
    /// The fields that failed validation.
    Invalid(Vec<FieldError>),
}

/// The payload of a response about contacts.
pub enum ContactData {
    One(Contact),
    Many(Vec<Contact>),
}

/// What a post handler asks of the store next, or the response it ends with.
pub enum PostAction {
    Find(i32),
    Insert(NewPost),
    Update(Post),
    Delete(i32),
    Respond(ApiResponse<PostData>),
}

/// What a contact handler asks of the store next, or the response it ends with.
pub enum ContactAction {
    Find(i32),
    Insert(NewContact),
    Delete(i32),
    Respond(ApiResponse<ContactData>),
}

/// How far a handler that first looks a record up has come: it has not asked
/// the store yet, it has the outcome of the lookup, or its write is done.
pub enum Progress<T> {
    Begin,
    Checked(Result<(), StoreError>),
    Finished(Result<T, StoreError>),
}

/// Whether `r` has this status and message.
pub open spec fn responds<T>(r: ApiResponse<T>, status: u128, message: Seq<char>) -> bool {
    r.status == status && r.message@ == message
}

/// Whether `a` is the response with this status and message and no data.
pub open spec fn post_reply(a: PostAction, status: u128, message: Seq<char>) -> bool {
    a matches PostAction::Respond(r) && responds(r, status, message) && r.data is None
}

/// Whether `a` is the response with this status and message and no data.
pub open spec fn contact_reply(a: ContactAction, status: u128, message: Seq<char>) -> bool {
    a matches ContactAction::Respond(r) && responds(r, status, message) && r.data is None
}

/// Whether `a` refuses `payload` for its empty fields.
pub open spec fn rejects_payload(a: PostAction, payload: NewPost) -> bool {
    &&& a matches PostAction::Respond(r)
    &&& responds(r, 400, "Validation Error"@)
    &&& r.data matches Some(PostData::Invalid(errs))
    &&& reports_empty_fields(payload.title@, payload.body@, errs@)
}

pub open spec fn valid_payload(p: NewPost) -> bool {
    p.title@.len() > 0 && p.body@.len() > 0
}

fn respond<T>(status: u128, message: &str, data: Option<T>) -> (r: ApiResponse<T>)
    ensures
        r.status == status,
        r.message@ == message@,
        r.data == data,
{
    ApiResponse { status, message: String::from_str(message), data }
}

/// The response to a listing of all posts.
pub fn list_posts(listed: Result<Vec<Post>, StoreError>) -> (r: ApiResponse<PostData>)
    ensures
        match listed {
            Ok(ps) => responds(r, 200, "OK"@) && r.data == Some(PostData::Many(ps)),
            Err(_) => responds(r, 500, "Failed to fetch posts"@) && r.data is None,
        },
{
    match listed {
        Ok(ps) => respond(200, "OK", Some(PostData::Many(ps))),
        Err(_) => respond(500, "Failed to fetch posts", None),
    }
}

/// The response to a lookup of one post.
pub fn get_post(found: Result<Post, StoreError>) -> (r: ApiResponse<PostData>)
    ensures
        match found {
            Ok(p) => responds(r, 200, "OK"@) && r.data == Some(PostData::One(p)),
            Err(StoreError::NotFound(_)) => responds(r, 404, "Post not found"@) && r.data is None,
            Err(StoreError::Failed(_)) => responds(r, 500, "Failed to fetch post"@) && r.data is None,
        },
{
    match found {
        Ok(p) => respond(200, "OK", Some(PostData::One(p))),
        Err(StoreError::NotFound(_)) => respond(404, "Post not found", None),
        Err(StoreError::Failed(_)) => respond(500, "Failed to fetch post", None),
    }
}

/// Creating a post: a valid payload is inserted (`inserted` is `None` until
/// the store has answered), an invalid one is refused with its field errors.
pub fn create_post(payload: &NewPost, inserted: Option<Result<Post, StoreError>>) -> (r: PostAction)
    ensures
        match inserted {
            None => if valid_payload(*payload) {
                r == PostAction::Insert(*payload)
            } else {
                rejects_payload(r, *payload)
            },
            Some(Ok(p)) => r matches PostAction::Respond(resp) && responds(resp, 201, "Post created"@)
                && resp.data == Some(PostData::One(p)),
            Some(Err(_)) => post_reply(r, 500, "Failed to create post"@),
        },
{
    match inserted {
        None => match validate_post(payload) {
            Ok(()) => PostAction::Insert(payload.clone()),
            Err(errs) => PostAction::Respond(respond(400, "Validation Error", Some(PostData::Invalid(errs)))),
        },
        Some(Ok(p)) => PostAction::Respond(respond(201, "Post created", Some(PostData::One(p)))),
        Some(Err(_)) => PostAction::Respond(respond(500, "Failed to create post", None)),
    }
}

/// Replacing post `id` with `payload`: the payload is validated, the post
/// must exist, and only then is it written.
pub fn update_post(id: i32, payload: &NewPost, step: Progress<Post>) -> (r: PostAction)
    ensures
        match step {
            Progress::Begin => if valid_payload(*payload) {
                r == PostAction::Find(id)
            } else {
                rejects_payload(r, *payload)
            },
            Progress::Checked(Err(StoreError::NotFound(_))) => post_reply(r, 404, "Post not found"@),
            Progress::Checked(Err(StoreError::Failed(_))) => post_reply(r, 500, "Internal Server error"@),
            Progress::Checked(Ok(())) => r == PostAction::Update(
                Post { id, title: payload.title, body: payload.body, published: payload.published },
            ),
            Progress::Finished(Ok(p)) => r matches PostAction::Respond(resp) && responds(resp, 200, "OK"@)
                && resp.data == Some(PostData::One(p)),
            Progress::Finished(Err(_)) => post_reply(r, 500, "Failed to update post"@),
        },
{
    match step {
        Progress::Begin => match validate_post(payload) {
            Ok(()) => PostAction::Find(id),
            Err(errs) => PostAction::Respond(respond(400, "Validation Error", Some(PostData::Invalid(errs)))),
        },
        Progress::Checked(Err(StoreError::NotFound(_))) => PostAction::Respond(respond(404, "Post not found", None)),
        Progress::Checked(Err(StoreError::Failed(_))) => PostAction::Respond(respond(500, "Internal Server error", None)),
        Progress::Checked(Ok(())) => {
            let p = payload.clone();
            PostAction::Update(Post { id, title: p.title, body: p.body, published: p.published })
        },
        Progress::Finished(Ok(p)) => PostAction::Respond(respond(200, "OK", Some(PostData::One(p)))),
        Progress::Finished(Err(_)) => PostAction::Respond(respond(500, "Failed to update post", None)),
    }
}

/// Deleting post `id`: the post must exist, and only then is it removed.
pub fn delete_post(id: i32, step: Progress<usize>) -> (r: PostAction)
    ensures
        match step {
            Progress::Begin => r == PostAction::Find(id),
            Progress::Checked(Err(StoreError::NotFound(_))) => post_reply(r, 404, "Post not found"@),
            Progress::Checked(Err(StoreError::Failed(_))) => post_reply(r, 500, "Internal Server error"@),
            Progress::Checked(Ok(())) => r == PostAction::Delete(id),
            Progress::Finished(Ok(_)) => post_reply(r, 200, "OK"@),
            Progress::Finished(Err(_)) => post_reply(r, 500, "Internal Server error"@),
        },
{
    match step {
        Progress::Begin => PostAction::Find(id),
        Progress::Checked(Err(StoreError::NotFound(_))) => PostAction::Respond(respond(404, "Post not found", None)),
        Progress::Checked(Err(StoreError::Failed(_))) => PostAction::Respond(respond(500, "Internal Server error", None)),
        Progress::Checked(Ok(())) => PostAction::Delete(id),
        Progress::Finished(Ok(_)) => PostAction::Respond(respond(200, "OK", None)),
        Progress::Finished(Err(_)) => PostAction::Respond(respond(500, "Internal Server error", None)),
    }
}

/// How far the creation of a contact has come.
pub enum ContactCreation {
    /// The upload pipeline has finished, with the contact or its refusal.
    Uploaded(Result<NewContact, UploadError>),
    /// The store has answered the insert.
    Stored(Result<Contact, StoreError>),
}

/// Creating a contact: a refused upload answers 400 or 500 with the
/// pipeline's message; an accepted one is inserted if it has a title and a
/// body, and answers 400 otherwise.
pub fn create_contact(step: ContactCreation) -> (r: ContactAction)
    ensures
        match step {
            ContactCreation::Uploaded(Ok(c)) => if is_complete(c) {
                r == ContactAction::Insert(c)
            } else {
                r matches ContactAction::Respond(resp) && resp.status == 400 && resp.data is None
                    && completeness_check(c, Err(UploadError::BadRequest(resp.message)))
            },
            ContactCreation::Uploaded(Err(UploadError::BadRequest(m))) => contact_reply(r, 400, m@),
            ContactCreation::Uploaded(Err(UploadError::InternalError(m))) => contact_reply(r, 500, m@),
            ContactCreation::Stored(Ok(c)) => r matches ContactAction::Respond(resp)
                && responds(resp, 201, "Contact created"@) && resp.data == Some(ContactData::One(c)),
            ContactCreation::Stored(Err(_)) => contact_reply(r, 500, "Failed to create contact"@),
        },
{
    match step {
        ContactCreation::Uploaded(Ok(c)) => match check_contact(&c) {
            Ok(()) => ContactAction::Insert(c),
            Err(UploadError::BadRequest(m)) => ContactAction::Respond(ApiResponse { status: 400, message: m, data: None }),
            Err(UploadError::InternalError(m)) => ContactAction::Respond(ApiResponse { status: 500, message: m, data: None }),
        },
        ContactCreation::Uploaded(Err(UploadError::BadRequest(m))) => ContactAction::Respond(
            ApiResponse { status: 400, message: m, data: None },
        ),
        ContactCreation::Uploaded(Err(UploadError::InternalError(m))) => ContactAction::Respond(
            ApiResponse { status: 500, message: m, data: None },
        ),
        ContactCreation::Stored(Ok(c)) => ContactAction::Respond(
            respond(201, "Contact created", Some(ContactData::One(c))),
        ),
        ContactCreation::Stored(Err(_)) => ContactAction::Respond(respond(500, "Failed to create contact", None)),
    }
}

/// The response to a listing of all contacts.
pub fn list_contacts(listed: Result<Vec<Contact>, StoreError>) -> (r: ApiResponse<ContactData>)
    ensures
        match listed {
            Ok(cs) => responds(r, 200, "OK"@) && r.data == Some(ContactData::Many(cs)),
            Err(_) => responds(r, 500, "failed to fetch contacts"@) && r.data is None,
        },
{
    match listed {
        Ok(cs) => respond(200, "OK", Some(ContactData::Many(cs))),
        Err(_) => respond(500, "failed to fetch contacts", None),
    }
}

/// Deleting contact `id`: the contact must exist, and only then is it removed.
pub fn delete_contact(id: i32, step: Progress<usize>) -> (r: ContactAction)
    ensures
        match step {
            Progress::Begin => r == ContactAction::Find(id),
            Progress::Checked(Err(StoreError::NotFound(_))) => contact_reply(r, 404, "Not Found"@),
            Progress::Checked(Err(StoreError::Failed(_))) => contact_reply(r, 500, "Internal Server error"@),
            Progress::Checked(Ok(())) => r == ContactAction::Delete(id),
            Progress::Finished(Ok(_)) => contact_reply(r, 200, "OK"@),
            Progress::Finished(Err(_)) => contact_reply(r, 500, "Internal Server error"@),
        },
{
    match step {
        Progress::Begin => ContactAction::Find(id),
        Progress::Checked(Err(StoreError::NotFound(_))) => ContactAction::Respond(respond(404, "Not Found", None)),
        Progress::Checked(Err(StoreError::Failed(_))) => ContactAction::Respond(respond(500, "Internal Server error", None)),
        Progress::Checked(Ok(())) => ContactAction::Delete(id),
        Progress::Finished(Ok(_)) => ContactAction::Respond(respond(200, "OK", None)),
        Progress::Finished(Err(_)) => ContactAction::Respond(respond(500, "Internal Server error", None)),
    }
}

} // verus!
