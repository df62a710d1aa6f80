use vstd::prelude::*;

verus! {

/// A stored post; `id` is assigned by the store on insert.
pub struct Post {
    pub id: i32,
    pub title: String,
    pub body: String,
    pub published: bool,
}

/// The fields of a post as a client sends them, before an id exists.
pub struct NewPost {
    pub title: String,
    pub body: String,
    pub published: bool,
}

/// A stored contact submission; `files` is the path of the attached image.
pub struct Contact {
    pub id: i32,
    pub title: String,
    pub body: String,
    pub files: Option<String>,
}

/// A contact submission ready to be stored.
pub struct NewContact {
    pub title: String,
    pub body: String,
    pub files: Option<String>,
}

/// The envelope of every response: `status` mirrors the HTTP status code.
pub struct ApiResponse<T> {
    pub status: u128,
    pub message: String,
    pub data: Option<T>,
}

impl Clone for Post {
    fn clone(&self) -> (r: Self)
        ensures
            r == *self,
    {
        Post { id: self.id, title: self.title.clone(), body: self.body.clone(), published: self.published }
    }
}

impl Clone for Contact {
    fn clone(&self) -> (r: Self)
        ensures
            r == *self,
    {
        let files = match &self.files {
            Some(f) => Some(f.clone()),
            None => None,
        };
        Contact { id: self.id, title: self.title.clone(), body: self.body.clone(), files }
    }
}

impl Clone for NewPost {
    fn clone(&self) -> (r: Self)
        ensures
            r == *self,
    {
        NewPost { title: self.title.clone(), body: self.body.clone(), published: self.published }
    }
}

} // verus!
