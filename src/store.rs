use crate::models::{Contact, NewContact, NewPost, Post};
use vstd::prelude::*;

verus! {

/// A failure of the storage layer, with its message.
pub enum StoreError {
    /// No row has the requested id.
    NotFound(String),
    /// The storage itself failed: connection, constraint, serialization.
    Failed(String),
}

/// The operations on the table of posts.
pub trait PostRepositoryTrait {
    fn find_by_id(&mut self, pid: i32) -> Result<Post, StoreError>;

    fn list_all(&mut self) -> Result<Vec<Post>, StoreError>;

    fn create(&mut self, new_post: NewPost) -> Result<Post, StoreError>;

    fn update(&mut self, post: Post) -> Result<Post, StoreError>;

    fn delete(&mut self, pid: i32) -> Result<usize, StoreError>;
}

/// The operations on the table of contacts.
pub trait ContactRepositoryTrait {
    fn create(&mut self, new_contact: NewContact) -> Result<Contact, StoreError>;

    fn list_all(&mut self) -> Result<Vec<Contact>, StoreError>;

    fn delete(&mut self, id: i32) -> Result<usize, StoreError>;

    fn find_one(&mut self, id: i32) -> Result<Contact, StoreError>;
}

/// Whether some post in `rows` has the id `id`.
pub open spec fn holds_post(rows: Seq<Post>, id: int) -> bool {
    exists|i: int| 0 <= i < rows.len() && rows[i].id == id
}

/// Where the post with id `id` stands in `rows`.
pub open spec fn post_index(rows: Seq<Post>, id: int) -> int {
    choose|i: int| 0 <= i < rows.len() && rows[i].id == id
}

/// No two posts of `rows` share an id.
pub open spec fn unique_post_ids(rows: Seq<Post>) -> bool {
    forall|i: int, j: int| 0 <= i < rows.len() && 0 <= j < rows.len() && i != j ==> rows[i].id != rows[j].id
}

/// Whether some contact in `rows` has the id `id`.
pub open spec fn holds_contact(rows: Seq<Contact>, id: int) -> bool {
    exists|i: int| 0 <= i < rows.len() && rows[i].id == id
}

/// Where the contact with id `id` stands in `rows`.
pub open spec fn contact_index(rows: Seq<Contact>, id: int) -> int {
    choose|i: int| 0 <= i < rows.len() && rows[i].id == id
}

/// No two contacts of `rows` share an id.
pub open spec fn unique_contact_ids(rows: Seq<Contact>) -> bool {
    forall|i: int, j: int| 0 <= i < rows.len() && 0 <= j < rows.len() && i != j ==> rows[i].id != rows[j].id
}

/// In a table whose ids are unique, the row at `i` is the one found under
/// its id.
pub proof fn lemma_post_index(rows: Seq<Post>, i: int)
    requires
        unique_post_ids(rows),
        0 <= i < rows.len(),
    ensures
        holds_post(rows, rows[i].id as int),
        post_index(rows, rows[i].id as int) == i,
{
    assert(rows[i].id == rows[i].id);
    let k = post_index(rows, rows[i].id as int);
    assert(rows[k].id == rows[i].id);
}

/// A post stored under an id that no other post has is found again under
/// that id, unchanged, and the ids stay unique.
pub proof fn lemma_created_post_is_found(rows: Seq<Post>, row: Post)
    requires
        unique_post_ids(rows),
        !holds_post(rows, row.id as int),
    ensures
        unique_post_ids(rows.push(row)),
        holds_post(rows.push(row), row.id as int),
        rows.push(row)[post_index(rows.push(row), row.id as int)] == row,
{
    let s = rows.push(row);
    assert forall|i: int, j: int| 0 <= i < s.len() && 0 <= j < s.len() && i != j implies s[i].id != s[j].id by {
        if i < rows.len() && j < rows.len() {
            assert(s[i] == rows[i] && s[j] == rows[j]);
        } else if i < rows.len() {
            assert(s[i] == rows[i]);
        } else {
            assert(s[j] == rows[j]);
        }
    }
    lemma_post_index(s, rows.len() as int);
}

/// Once the post with id `id` is removed, no post with that id is left, so a
/// later lookup or delete of it finds nothing; the other ids stay unique.
pub proof fn lemma_deleted_post_is_gone(rows: Seq<Post>, id: int)
    requires
        unique_post_ids(rows),
        holds_post(rows, id),
    ensures
        unique_post_ids(rows.remove(post_index(rows, id))),
        !holds_post(rows.remove(post_index(rows, id)), id),
{
    let k = post_index(rows, id);
    let s = rows.remove(k);
    assert forall|a: int, b: int| 0 <= a < s.len() && 0 <= b < s.len() && a != b implies s[a].id != s[b].id by {
        let oa = if a < k { a } else { a + 1 };
        let ob = if b < k { b } else { b + 1 };
        assert(s[a] == rows[oa]);
        assert(s[b] == rows[ob]);
    }
    if holds_post(s, id) {
        let j = choose|j: int| 0 <= j < s.len() && s[j].id == id;
        let oj = if j < k { j } else { j + 1 };
        assert(s[j] == rows[oj]);
    }
}

/// A table of posts held in memory, in insertion order, with ids handed out
/// from 1 upwards.
pub struct MemoryPostRepository {
    rows: Vec<Post>,
    next_id: i32,
}

impl View for MemoryPostRepository {
    type V = Seq<Post>;

    closed spec fn view(&self) -> Seq<Post> {
        self.rows@
    }
}

impl MemoryPostRepository {
    /// The id that the next insert will receive.
    pub closed spec fn next_id(&self) -> int {
        self.next_id as int
    }

    /// Ids are unique, positive, and below the next one to be handed out.
    pub closed spec fn wf(&self) -> bool {
        &&& unique_post_ids(self.rows@)
        &&& 1 <= self.next_id
        &&& forall|i: int| 0 <= i < self.rows@.len() ==> 1 <= #[trigger] self.rows@[i].id < self.next_id
    }

    /// What a well-formed table guarantees: unique ids, each positive and
    /// below the next id, which itself fits an `i32`.
    pub proof fn lemma_wf(&self)
        requires
            self.wf(),
        ensures
            unique_post_ids(self@),
            1 <= self.next_id() <= i32::MAX,
            forall|i: int| 0 <= i < self@.len() ==> 1 <= #[trigger] self@[i].id < self.next_id(),
    {
    }

    pub fn new() -> (r: Self)
        ensures
            r.wf(),
            r@ == Seq::<Post>::empty(),
            r.next_id() == 1,
    {
        MemoryPostRepository { rows: Vec::new(), next_id: 1 }
    }

    fn position(&self, pid: i32) -> (r: Option<usize>)
        requires
            self.wf(),
        ensures
            r is Some <==> holds_post(self@, pid as int),
            r matches Some(i) ==> i == post_index(self@, pid as int) && self@[i as int].id == pid,
    {
        let mut i: usize = 0;
        while i < self.rows.len()
            invariant
                self.wf(),
                i <= self.rows@.len(),
                forall|j: int| 0 <= j < i ==> self.rows@[j].id != pid,
            decreases self.rows@.len() - i,
        {
            if self.rows[i].id == pid {
                proof {
                    lemma_post_index(self.rows@, i as int);
                }
                return Some(i);
            }
            i = i + 1;
        }
        None
    }

    /// The post with id `pid`; a not-found error where there is none.
    pub fn find_by_id(&self, pid: i32) -> (r: Result<Post, StoreError>)
        requires
            self.wf(),
        ensures
            r is Ok <==> holds_post(self@, pid as int),
            r matches Ok(p) ==> p == self@[post_index(self@, pid as int)] && p.id == pid,
            r matches Err(e) ==> e is NotFound,
    {
        match self.position(pid) {
            Some(i) => Ok(self.rows[i].clone()),
            None => Err(StoreError::NotFound(String::from_str("Record not found"))),
        }
    }

    /// Every post, in insertion order.
    pub fn list_all(&self) -> (r: Vec<Post>)
        ensures
            r@ == self@,
    {
        let mut out: Vec<Post> = Vec::new();
        let mut i: usize = 0;
        while i < self.rows.len()
            invariant
                i <= self.rows@.len(),
                out@ == self.rows@.subrange(0, i as int),
            decreases self.rows@.len() - i,
        {
            out.push(self.rows[i].clone());
            i = i + 1;
            assert(out@ == self.rows@.subrange(0, i as int));
        }
        assert(self.rows@.subrange(0, self.rows@.len() as int) == self.rows@);
        out
    }

    /// Inserts a post under the next free id and returns the stored row; an
    /// error, with nothing changed, once the ids are used up.
    pub fn create(&mut self, new_post: NewPost) -> (r: Result<Post, StoreError>)
        requires
            old(self).wf(),
        ensures
            final(self).wf(),
            old(self).next_id() < i32::MAX ==> {
                &&& r matches Ok(p)
                &&& p == Post { id: p.id, title: new_post.title, body: new_post.body, published: new_post.published }
                &&& p.id == old(self).next_id()
                &&& !holds_post(old(self)@, p.id as int)
                &&& final(self)@ == old(self)@.push(p)
                &&& final(self).next_id() == old(self).next_id() + 1
                &&& holds_post(final(self)@, p.id as int)
                &&& final(self)@[post_index(final(self)@, p.id as int)] == p
            },
            old(self).next_id() >= i32::MAX ==> {
                &&& r matches Err(e) && e is Failed
                &&& final(self)@ == old(self)@
                &&& final(self).next_id() == old(self).next_id()
            },
    {
        if self.next_id == i32::MAX {
            return Err(StoreError::Failed(String::from_str("No id left to assign")));
        }
        let p = Post { id: self.next_id, title: new_post.title, body: new_post.body, published: new_post.published };
        self.rows.push(p.clone());
        self.next_id = self.next_id + 1;
        proof {
            assert(forall|i: int| 0 <= i < old(self).rows@.len() ==> self.rows@[i] == old(self).rows@[i]);
            assert(!holds_post(old(self).rows@, p.id as int));
            lemma_created_post_is_found(old(self).rows@, p);
        }
        Ok(p)
    }

    /// Replaces the title, body and flag of the post with `post.id` and
    /// returns the stored row; a not-found error, with nothing changed, where
    /// there is no such post.
    pub fn update(&mut self, post: Post) -> (r: Result<Post, StoreError>)
        requires
            old(self).wf(),
        ensures
            final(self).wf(),
            final(self).next_id() == old(self).next_id(),
            holds_post(old(self)@, post.id as int) ==> {
                &&& r matches Ok(p) && p == post
                &&& final(self)@ == old(self)@.update(post_index(old(self)@, post.id as int), post)
                &&& holds_post(final(self)@, post.id as int)
                &&& final(self)@[post_index(final(self)@, post.id as int)] == post
            },
            !holds_post(old(self)@, post.id as int) ==> {
                &&& r matches Err(e) && e is NotFound
                &&& final(self)@ == old(self)@
            },
    {
        match self.position(post.id) {
            Some(i) => {
                self.rows.set(i, post.clone());
                proof {
                    assert forall|a: int, b: int| 0 <= a < self.rows@.len() && 0 <= b < self.rows@.len() && a != b
                        implies self.rows@[a].id != self.rows@[b].id by {
                        assert(a != i ==> self.rows@[a] == old(self).rows@[a]);
                        assert(b != i ==> self.rows@[b] == old(self).rows@[b]);
                    }
                    assert forall|a: int| 0 <= a < self.rows@.len() implies 1 <= #[trigger] self.rows@[a].id < self.next_id by {
                        assert(a != i ==> self.rows@[a] == old(self).rows@[a]);
                    }
                    lemma_post_index(self.rows@, i as int);
                }
                Ok(post)
            },
            None => Err(StoreError::NotFound(String::from_str("Record not found"))),
        }
    }

    /// Removes the post with id `pid` and returns how many rows went: one, or
    /// none where there was no such post. Afterwards no post has that id.
    pub fn delete(&mut self, pid: i32) -> (r: Result<usize, StoreError>)
        requires
            old(self).wf(),
        ensures
            final(self).wf(),
            final(self).next_id() == old(self).next_id(),
            !holds_post(final(self)@, pid as int),
            holds_post(old(self)@, pid as int) ==> {
                &&& r == Ok::<usize, StoreError>(1)
                &&& final(self)@ == old(self)@.remove(post_index(old(self)@, pid as int))
            },
            !holds_post(old(self)@, pid as int) ==> r == Ok::<usize, StoreError>(0) && final(self)@ == old(self)@,
    {
        match self.position(pid) {
            Some(i) => {
                self.rows.remove(i);
                proof {
                    lemma_deleted_post_is_gone(old(self).rows@, pid as int);
                    assert forall|a: int| 0 <= a < self.rows@.len() implies 1 <= #[trigger] self.rows@[a].id < self.next_id by {
                        let oa = if a < i { a } else { a + 1 };
                        assert(self.rows@[a] == old(self).rows@[oa]);
                    }
                }
                Ok(1)
            },
            None => Ok(0),
        }
    }
}

/// In a table whose ids are unique, the row at `i` is the one found under
/// its id.
pub proof fn lemma_contact_index(rows: Seq<Contact>, i: int)
    requires
        unique_contact_ids(rows),
        0 <= i < rows.len(),
    ensures
        holds_contact(rows, rows[i].id as int),
        contact_index(rows, rows[i].id as int) == i,
{
    assert(rows[i].id == rows[i].id);
    let k = contact_index(rows, rows[i].id as int);
    assert(rows[k].id == rows[i].id);
}

/// A contact stored under an id that no other contact has is found again under
/// that id, unchanged, and the ids stay unique.
pub proof fn lemma_created_contact_is_found(rows: Seq<Contact>, row: Contact)
    requires
        unique_contact_ids(rows),
        !holds_contact(rows, row.id as int),
    ensures
        unique_contact_ids(rows.push(row)),
        holds_contact(rows.push(row), row.id as int),
        rows.push(row)[contact_index(rows.push(row), row.id as int)] == row,
{
    let s = rows.push(row);
    assert forall|i: int, j: int| 0 <= i < s.len() && 0 <= j < s.len() && i != j implies s[i].id != s[j].id by {
        if i < rows.len() && j < rows.len() {
            assert(s[i] == rows[i] && s[j] == rows[j]);
        } else if i < rows.len() {
            assert(s[i] == rows[i]);
        } else {
            assert(s[j] == rows[j]);
        }
    }
    lemma_contact_index(s, rows.len() as int);
}

/// Once the contact with id `id` is removed, no contact with that id is left, so a
/// later lookup or delete of it finds nothing; the other ids stay unique.
pub proof fn lemma_deleted_contact_is_gone(rows: Seq<Contact>, id: int)
    requires
        unique_contact_ids(rows),
        holds_contact(rows, id),
    ensures
        unique_contact_ids(rows.remove(contact_index(rows, id))),
        !holds_contact(rows.remove(contact_index(rows, id)), id),
{
    let k = contact_index(rows, id);
    let s = rows.remove(k);
    assert forall|a: int, b: int| 0 <= a < s.len() && 0 <= b < s.len() && a != b implies s[a].id != s[b].id by {
        let oa = if a < k { a } else { a + 1 };
        let ob = if b < k { b } else { b + 1 };
        assert(s[a] == rows[oa]);
        assert(s[b] == rows[ob]);
    }
    if holds_contact(s, id) {
        let j = choose|j: int| 0 <= j < s.len() && s[j].id == id;
        let oj = if j < k { j } else { j + 1 };
        assert(s[j] == rows[oj]);
    }
}

/// A table of contacts held in memory, in insertion order, with ids handed out
/// from 1 upwards.
pub struct MemoryContactRepository {
    rows: Vec<Contact>,
    next_id: i32,
}

impl View for MemoryContactRepository {
    type V = Seq<Contact>;

    closed spec fn view(&self) -> Seq<Contact> {
        self.rows@
    }
}

impl MemoryContactRepository {
    /// The id that the next insert will receive.
    pub closed spec fn next_id(&self) -> int {
        self.next_id as int
    }

    /// Ids are unique, positive, and below the next one to be handed out.
    pub closed spec fn wf(&self) -> bool {
        &&& unique_contact_ids(self.rows@)
        &&& 1 <= self.next_id
        &&& forall|i: int| 0 <= i < self.rows@.len() ==> 1 <= #[trigger] self.rows@[i].id < self.next_id
    }

    /// What a well-formed table guarantees: unique ids, each positive and
    /// below the next id, which itself fits an `i32`.
    pub proof fn lemma_wf(&self)
        requires
            self.wf(),
        ensures
            unique_contact_ids(self@),
            1 <= self.next_id() <= i32::MAX,
            forall|i: int| 0 <= i < self@.len() ==> 1 <= #[trigger] self@[i].id < self.next_id(),
    {
    }

    pub fn new() -> (r: Self)
        ensures
            r.wf(),
            r@ == Seq::<Contact>::empty(),
            r.next_id() == 1,
    {
        MemoryContactRepository { rows: Vec::new(), next_id: 1 }
    }

    fn position(&self, pid: i32) -> (r: Option<usize>)
        requires
            self.wf(),
        ensures
            r is Some <==> holds_contact(self@, pid as int),
            r matches Some(i) ==> i == contact_index(self@, pid as int) && self@[i as int].id == pid,
    {
        let mut i: usize = 0;
        while i < self.rows.len()
            invariant
                self.wf(),
                i <= self.rows@.len(),
                forall|j: int| 0 <= j < i ==> self.rows@[j].id != pid,
            decreases self.rows@.len() - i,
        {
            if self.rows[i].id == pid {
                proof {
                    lemma_contact_index(self.rows@, i as int);
                }
                return Some(i);
            }
            i = i + 1;
        }
        None
    }

    /// The contact with id `pid`; a not-found error where there is none.
    pub fn find_one(&self, pid: i32) -> (r: Result<Contact, StoreError>)
        requires
            self.wf(),
        ensures
            r is Ok <==> holds_contact(self@, pid as int),
            r matches Ok(p) ==> p == self@[contact_index(self@, pid as int)] && p.id == pid,
            r matches Err(e) ==> e is NotFound,
    {
        match self.position(pid) {
            Some(i) => Ok(self.rows[i].clone()),
            None => Err(StoreError::NotFound(String::from_str("Record not found"))),
        }
    }

    /// Every contact, in insertion order.
    pub fn list_all(&self) -> (r: Vec<Contact>)
        ensures
            r@ == self@,
    {
        let mut out: Vec<Contact> = Vec::new();
        let mut i: usize = 0;
        while i < self.rows.len()
            invariant
                i <= self.rows@.len(),
                out@ == self.rows@.subrange(0, i as int),
            decreases self.rows@.len() - i,
        {
            out.push(self.rows[i].clone());
            i = i + 1;
            assert(out@ == self.rows@.subrange(0, i as int));
        }
        assert(self.rows@.subrange(0, self.rows@.len() as int) == self.rows@);
        out
    }

    /// Inserts a contact under the next free id and returns the stored row; an
    /// error, with nothing changed, once the ids are used up.
    pub fn create(&mut self, new_contact: NewContact) -> (r: Result<Contact, StoreError>)
        requires
            old(self).wf(),
        ensures
            final(self).wf(),
            old(self).next_id() < i32::MAX ==> {
                &&& r matches Ok(p)
                &&& p == Contact { id: p.id, title: new_contact.title, body: new_contact.body, files: new_contact.files }
                &&& p.id == old(self).next_id()
                &&& !holds_contact(old(self)@, p.id as int)
                &&& final(self)@ == old(self)@.push(p)
                &&& final(self).next_id() == old(self).next_id() + 1
                &&& holds_contact(final(self)@, p.id as int)
                &&& final(self)@[contact_index(final(self)@, p.id as int)] == p
            },
            old(self).next_id() >= i32::MAX ==> {
                &&& r matches Err(e) && e is Failed
                &&& final(self)@ == old(self)@
                &&& final(self).next_id() == old(self).next_id()
            },
    {
        if self.next_id == i32::MAX {
            return Err(StoreError::Failed(String::from_str("No id left to assign")));
        }
        let p = Contact { id: self.next_id, title: new_contact.title, body: new_contact.body, files: new_contact.files };
        self.rows.push(p.clone());
        self.next_id = self.next_id + 1;
        proof {
            assert(forall|i: int| 0 <= i < old(self).rows@.len() ==> self.rows@[i] == old(self).rows@[i]);
            assert(!holds_contact(old(self).rows@, p.id as int));
            lemma_created_contact_is_found(old(self).rows@, p);
        }
        Ok(p)
    }

    /// Removes the contact with id `pid` and returns how many rows went: one, or
    /// none where there was no such contact. Afterwards no contact has that id.
    pub fn delete(&mut self, pid: i32) -> (r: Result<usize, StoreError>)
        requires
            old(self).wf(),
        ensures
            final(self).wf(),
            final(self).next_id() == old(self).next_id(),
            !holds_contact(final(self)@, pid as int),
            holds_contact(old(self)@, pid as int) ==> {
                &&& r == Ok::<usize, StoreError>(1)
                &&& final(self)@ == old(self)@.remove(contact_index(old(self)@, pid as int))
            },
            !holds_contact(old(self)@, pid as int) ==> r == Ok::<usize, StoreError>(0) && final(self)@ == old(self)@,
    {
        match self.position(pid) {
            Some(i) => {
                self.rows.remove(i);
                proof {
                    lemma_deleted_contact_is_gone(old(self).rows@, pid as int);
                    assert forall|a: int| 0 <= a < self.rows@.len() implies 1 <= #[trigger] self.rows@[a].id < self.next_id by {
                        let oa = if a < i { a } else { a + 1 };
                        assert(self.rows@[a] == old(self).rows@[oa]);
                    }
                }
                Ok(1)
            },
            None => Ok(0),
        }
    }
}

} // verus!
