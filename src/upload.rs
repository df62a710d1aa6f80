use crate::models::NewContact;
use vstd::prelude::*;

verus! {

/// The directory that uploaded images are written to.
pub const UPLOAD_DIR: &'static str = "./uploads/";

/// Why a contact submission was refused.
pub enum UploadError {
    /// The client's input is at fault (HTTP 400).
    BadRequest(String),
    /// The server failed to store the upload (HTTP 500).
    InternalError(String),
}

/// What the caller does with the part that has just begun.
pub enum PartAction {
    /// Ignore the part: a file part without a file name.
    Skip,
    /// Stream the part's bytes into the file at this path.
    SaveFile(String),
    /// Read the part as text and hand it to `accept_title`.
    ReadTitle,
    /// Read the part as text and hand it to `accept_body`.
    ReadBody,
}

/// The contact being assembled from the parts seen so far.
pub struct UploadState {
    pub contact: NewContact,
    pub seen_file: bool,
    pub seen_title: bool,
    pub seen_body: bool,
}

/// What `std::path::Path::extension` gives for a path written as this text.
pub uninterp spec fn extension_of(file_name: Seq<char>) -> Option<Seq<char>>;

/// What `str::to_lowercase` gives for this text.
pub uninterp spec fn lowercase_of(s: Seq<char>) -> Seq<char>;

/// Relies on `std::path::Path::extension`: the portion of the file name after
/// its final `.`, if any. The extension of a `&str` is valid UTF-8.
#[verifier::external_body]
fn file_extension(file_name: &str) -> (r: Option<String>)
    ensures
        match extension_of(file_name@) {
            Some(e) => r is Some && r->Some_0@ == e,
            None => r is None,
        },
{
    std::path::Path::new(file_name).extension().and_then(|e| e.to_str()).map(|e| e.to_string())
}

/// Relies on `str::to_lowercase`: the lowercase form of each character.
#[verifier::external_body]
fn lowercase(s: &str) -> (r: String)
    ensures
        r@ == lowercase_of(s@),
{
    s.to_lowercase()
}

pub open spec fn is_supported_format_spec(lower_ext: Seq<char>) -> bool {
    lower_ext == "jpg"@ || lower_ext == "jpeg"@
}

/// Whether a lowercased extension names a supported image format.
pub fn is_supported_format(lower_ext: &str) -> (r: bool)
    ensures
        r == is_supported_format_spec(lower_ext@),
{
    let e = String::from_str(lower_ext);
    e == String::from_str("jpg") || e == String::from_str("jpeg")
}

pub open spec fn bad_request(r: UploadError, msg: Seq<char>) -> bool {
    r matches UploadError::BadRequest(m) && m@ == msg
}

/// The outcome of checking a file's extension, given what `extension_of` gave
/// for its name and what `lowercase_of` gives for that extension.
pub open spec fn extension_check(ext: Option<Seq<char>>, lowered: Seq<char>, r: Result<(), UploadError>) -> bool {
    match ext {
        None => r matches Err(e) && bad_request(e, "Extension Invalid"@),
        Some(_) => if is_supported_format_spec(lowered) {
            r is Ok
        } else {
            r matches Err(e) && bad_request(e, "File format is not supported"@)
        },
    }
}

/// Decides on a file's extension once it is known (`None`: the name has none)
/// and lowercased (`lower_ext`, which is unused when `ext` is `None`).
pub fn check_extension(ext: &Option<String>, lower_ext: &str) -> (r: Result<(), UploadError>)
    ensures
        extension_check(
            match ext { Some(e) => Some(e@), None => None },
            lower_ext@,
            r,
        ),
{
    match ext {
        None => Err(UploadError::BadRequest(String::from_str("Extension Invalid"))),
        Some(_) => if is_supported_format(lower_ext) {
            Ok(())
        } else {
            Err(UploadError::BadRequest(String::from_str("File format is not supported")))
        },
    }
}

/// Checks a file name's extension: it must be `jpg` or `jpeg`, in any case.
pub fn check_file_name(file_name: &str) -> (r: Result<(), UploadError>)
    ensures
        extension_check(
            extension_of(file_name@),
            lowercase_of(extension_of(file_name@)->Some_0),
            r,
        ),
{
    let ext = file_extension(file_name);
    let lower = match &ext {
        Some(e) => lowercase(e.as_str()),
        None => String::new(),
    };
    check_extension(&ext, lower.as_str())
}

/// Where an upload named `file_name` is stored: the upload directory followed
/// by the name as the client gave it.
pub fn upload_path(file_name: &str) -> (r: String)
    ensures
        r@ == UPLOAD_DIR@ + file_name@,
{
    String::from_str(UPLOAD_DIR).concat(file_name)
}

impl UploadState {
    /// The state before any part has arrived: empty text, no file.
    pub fn new() -> (r: Self)
        ensures
            r.contact.title@.len() == 0,
            r.contact.body@.len() == 0,
            r.contact.files is None,
            !r.seen_file && !r.seen_title && !r.seen_body,
    {
        UploadState {
            contact: NewContact { title: String::new(), body: String::new(), files: None },
            seen_file: false,
            seen_title: false,
            seen_body: false,
        }
    }

    /// The contact assembled from the parts accepted so far; refused where
    /// its title or its body never arrived.
    pub fn finish(self) -> (r: Result<NewContact, UploadError>)
        ensures
            is_complete(self.contact) ==> r == Ok::<NewContact, UploadError>(self.contact),
            !is_complete(self.contact) ==> (r matches Err(e) && completeness_check(self.contact, Err(e))),
    {
        match check_contact(&self.contact) {
            Ok(()) => Ok(self.contact),
            Err(e) => Err(e),
        }
    }
}

/// A contact may be stored only with a title and a body.
pub open spec fn is_complete(c: NewContact) -> bool {
    c.title@.len() > 0 && c.body@.len() > 0
}

/// The outcome of checking that `c` has a title and a body, the title first.
pub open spec fn completeness_check(c: NewContact, r: Result<(), UploadError>) -> bool {
    if c.title@.len() == 0 {
        r matches Err(e) && bad_request(e, "Title is required"@)
    } else if c.body@.len() == 0 {
        r matches Err(e) && bad_request(e, "Body is required"@)
    } else {
        r is Ok
    }
}

/// Checks that a contact has a title and a body.
pub fn check_contact(c: &NewContact) -> (r: Result<(), UploadError>)
    ensures
        completeness_check(*c, r),
{
    if c.title.as_str().unicode_len() == 0 {
        Err(UploadError::BadRequest(String::from_str("Title is required")))
    } else if c.body.as_str().unicode_len() == 0 {
        Err(UploadError::BadRequest(String::from_str("Body is required")))
    } else {
        Ok(())
    }
}

/// Whether `s` has already been handed a part named `name`.
pub open spec fn already_seen(s: UploadState, name: Seq<char>) -> bool {
    ||| name == "file"@ && s.seen_file
    ||| name == "title"@ && s.seen_title
    ||| name == "body"@ && s.seen_body
}

pub open spec fn without_action(r: Result<PartAction, UploadError>) -> Result<(), UploadError> {
    match r {
        Ok(_) => Ok(()),
        Err(e) => Err(e),
    }
}

pub open spec fn is_known_field(name: Seq<char>) -> bool {
    name == "file"@ || name == "title"@ || name == "body"@
}

pub open spec fn unknown_field_message(name: Seq<char>) -> Seq<char> {
    "Unknown field: "@ + name
}

fn text_is(a: &str, b: &str) -> (r: bool)
    ensures
        r == (a@ == b@),
{
    String::from_str(a) == String::from_str(b)
}

/// Begins the part named `name`, whose file name is `file_name` when it
/// carries one, and says what to do with its content.
///
/// A part named `file` without a file name, or with an empty one, is skipped;
/// otherwise its extension must be `jpg` or `jpeg` and its bytes are to be
/// saved under the upload directory, where the contact's `files` now points.
/// Parts `title` and `body` are to be read as text. Any other name, or a name
/// seen before, is refused as an unknown field. A refusal leaves the state
/// as it was.
pub fn upload_file(state: &mut UploadState, name: &str, file_name: Option<&str>) -> (r: Result<PartAction, UploadError>)
    ensures
        !is_known_field(name@) || already_seen(*old(state), name@) ==> {
            &&& r matches Err(e) && bad_request(e, unknown_field_message(name@))
            &&& *final(state) == *old(state)
        },
        is_known_field(name@) && !already_seen(*old(state), name@) && name@ == "title"@ ==> {
            &&& r matches Ok(PartAction::ReadTitle)
            &&& *final(state) == UploadState { seen_title: true, ..*old(state) }
        },
        is_known_field(name@) && !already_seen(*old(state), name@) && name@ == "body"@ ==> {
            &&& r matches Ok(PartAction::ReadBody)
            &&& *final(state) == UploadState { seen_body: true, ..*old(state) }
        },
        is_known_field(name@) && !already_seen(*old(state), name@) && name@ == "file"@ ==> {
            match file_name {
                Some(f) if f@.len() > 0 => {
                    let ext = extension_of(f@);
                    let lowered = lowercase_of(ext->Some_0);
                    if ext is Some && is_supported_format_spec(lowered) {
                        &&& r matches Ok(PartAction::SaveFile(path))
                        &&& path@ == UPLOAD_DIR@ + f@
                        &&& final(state).contact.files matches Some(p) && p@ == path@
                        &&& final(state).contact.title == old(state).contact.title
                        &&& final(state).contact.body == old(state).contact.body
                        &&& final(state).seen_file
                        &&& final(state).seen_title == old(state).seen_title
                        &&& final(state).seen_body == old(state).seen_body
                    } else {
                        &&& extension_check(ext, lowered, without_action(r))
                        &&& *final(state) == *old(state)
                    }
                },
                _ => {
                    &&& r matches Ok(PartAction::Skip)
                    &&& *final(state) == UploadState { seen_file: true, ..*old(state) }
                },
            }
        },
{
    proof {
        reveal_strlit("file");
        reveal_strlit("title");
        reveal_strlit("body");
        assert("title"@.len() != "body"@.len());
        assert("title"@.len() != "file"@.len());
        assert("body"@[0] != "file"@[0]);
    }
    let is_file = text_is(name, "file");
    let is_title = text_is(name, "title");
    let is_body = text_is(name, "body");
    if (is_file && state.seen_file) || (is_title && state.seen_title) || (is_body && state.seen_body)
        || !(is_file || is_title || is_body) {
        let msg = String::from_str("Unknown field: ").concat(name);
        return Err(UploadError::BadRequest(msg));
    }
    if is_title {
        state.seen_title = true;
        return Ok(PartAction::ReadTitle);
    }
    if is_body {
        state.seen_body = true;
        return Ok(PartAction::ReadBody);
    }
    match file_name {
        Some(f) if f.unicode_len() > 0 => {
            match check_file_name(f) {
                Err(e) => Err(e),
                Ok(()) => {
                    let path = upload_path(f);
                    state.contact.files = Some(path.clone());
                    state.seen_file = true;
                    Ok(PartAction::SaveFile(path))
                },
            }
        },
        _ => {
            state.seen_file = true;
            Ok(PartAction::Skip)
        },
    }
}

/// Takes the decoded text of the `title` part (`Err`: why decoding failed).
/// An empty title, or a decoding failure, is refused and leaves the state as
/// it was.
pub fn accept_title(state: &mut UploadState, text: Result<String, String>) -> (r: Result<(), UploadError>)
    ensures
        match text {
            Err(m) => r matches Err(e) && bad_request(e, m@) && *final(state) == *old(state),
            Ok(t) => if t@.len() == 0 {
                r matches Err(e) && bad_request(e, "Title is required"@) && *final(state) == *old(state)
            } else {
                &&& r is Ok
                &&& final(state).contact == NewContact { title: t, ..old(state).contact }
                &&& final(state).seen_file == old(state).seen_file
                &&& final(state).seen_title == old(state).seen_title
                &&& final(state).seen_body == old(state).seen_body
            },
        },
{
    match text {
        Err(m) => Err(UploadError::BadRequest(m)),
        Ok(t) => {
            if t.as_str().unicode_len() == 0 {
                Err(UploadError::BadRequest(String::from_str("Title is required")))
            } else {
                state.contact.title = t;
                Ok(())
            }
        },
    }
}

/// Takes the decoded text of the `body` part (`Err`: why decoding failed).
/// An empty body, or a decoding failure, is refused and leaves the state as
/// it was.
pub fn accept_body(state: &mut UploadState, text: Result<String, String>) -> (r: Result<(), UploadError>)
    ensures
        match text {
            Err(m) => r matches Err(e) && bad_request(e, m@) && *final(state) == *old(state),
            Ok(t) => if t@.len() == 0 {
                r matches Err(e) && bad_request(e, "Body is required"@) && *final(state) == *old(state)
            } else {
                &&& r is Ok
                &&& final(state).contact == NewContact { body: t, ..old(state).contact }
                &&& final(state).seen_file == old(state).seen_file
                &&& final(state).seen_title == old(state).seen_title
                &&& final(state).seen_body == old(state).seen_body
            },
        },
{
    match text {
        Err(m) => Err(UploadError::BadRequest(m)),
        Ok(t) => {
            if t.as_str().unicode_len() == 0 {
                Err(UploadError::BadRequest(String::from_str("Body is required")))
            } else {
                state.contact.body = t;
                Ok(())
            }
        },
    }
}

} // verus!
