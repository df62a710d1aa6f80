use blog_backend::handlers::{create_post, delete_post, get_post, list_posts, update_post, PostAction, PostData, Progress};
use blog_backend::models::{NewPost, Post};
use blog_backend::store::{MemoryPostRepository, StoreError};
use blog_backend::validation::validate_post;

fn payload(title: &str, body: &str, published: bool) -> NewPost {
    NewPost { title: title.to_string(), body: body.to_string(), published }
}

fn store_error() -> StoreError {
    StoreError::Failed("connection refused".to_string())
}

#[test]
fn valid_post_passes_validation() {
    assert!(validate_post(&payload("Hello", "World", true)).is_ok());
}

#[test]
fn empty_title_is_reported_by_field() {
    let errs = validate_post(&payload("", "World", false)).err().unwrap();
    assert_eq!(errs.len(), 1);
    assert_eq!(errs[0].field, "title");
    assert_eq!(errs[0].messages, vec!["Title is required".to_string()]);
}

#[test]
fn empty_title_and_body_are_both_reported() {
    let errs = validate_post(&payload("", "", false)).err().unwrap();
    assert_eq!(errs.len(), 2);
    assert_eq!(errs[0].field, "title");
    assert_eq!(errs[1].field, "body");
    assert_eq!(errs[1].messages, vec!["Body is required".to_string()]);
}

#[test]
fn title_of_one_multibyte_character_is_valid() {
    assert!(validate_post(&payload("é", "x", false)).is_ok());
}

#[test]
fn create_post_with_empty_title_answers_400_with_title_error() {
    match create_post(&payload("", "body", true), None) {
        PostAction::Respond(r) => {
            assert_eq!(r.status, 400);
            assert_eq!(r.message, "Validation Error");
            match r.data {
                Some(PostData::Invalid(errs)) => assert!(errs.iter().any(|e| e.field == "title")),
                _ => panic!("expected field errors"),
            }
        }
        _ => panic!("expected a response"),
    }
}

#[test]
fn create_then_get_round_trip() {
    let mut repo = MemoryPostRepository::new();
    let p = payload("Hello", "World", true);
    let to_insert = match create_post(&p, None) {
        PostAction::Insert(n) => n,
        _ => panic!("expected an insert"),
    };
    let row = repo.create(to_insert).ok().unwrap();
    assert_eq!(row.id, 1);
    assert_eq!(row.title, "Hello");
    assert_eq!(row.body, "World");
    assert!(row.published);
    let created_id = row.id;
    match create_post(&p, Some(Ok(row))) {
        PostAction::Respond(r) => {
            assert_eq!(r.status, 201);
            assert_eq!(r.message, "Post created");
        }
        _ => panic!("expected a response"),
    }
    let r = get_post(repo.find_by_id(created_id));
    assert_eq!(r.status, 200);
    match r.data {
        Some(PostData::One(found)) => {
            assert_eq!(found.id, created_id);
            assert_eq!(found.title, "Hello");
            assert_eq!(found.body, "World");
            assert!(found.published);
        }
        _ => panic!("expected the row"),
    }
}

#[test]
fn ids_are_fresh_for_each_insert() {
    let mut repo = MemoryPostRepository::new();
    let a = repo.create(payload("a", "1", false)).ok().unwrap();
    let b = repo.create(payload("b", "2", false)).ok().unwrap();
    assert_ne!(a.id, b.id);
    assert_eq!(repo.list_all().len(), 2);
}

#[test]
fn update_of_missing_post_answers_404_and_creates_nothing() {
    let mut repo = MemoryPostRepository::new();
    let p = payload("t", "b", false);
    assert!(matches!(update_post(7, &p, Progress::Begin), PostAction::Find(7)));
    let lookup = repo.find_by_id(7).map(|_| ());
    match update_post(7, &p, Progress::Checked(lookup)) {
        PostAction::Respond(r) => {
            assert_eq!(r.status, 404);
            assert_eq!(r.message, "Post not found");
            assert!(r.data.is_none());
        }
        _ => panic!("expected a response"),
    }
    assert!(repo.list_all().is_empty());
    let direct = repo.update(Post { id: 7, title: "t".to_string(), body: "b".to_string(), published: false });
    assert!(direct.is_err());
    assert!(repo.list_all().is_empty());
}

#[test]
fn update_of_existing_post_replaces_fields() {
    let mut repo = MemoryPostRepository::new();
    let row = repo.create(payload("old", "old body", false)).ok().unwrap();
    let p = payload("new", "new body", true);
    let target = match update_post(row.id, &p, Progress::Checked(Ok(()))) {
        PostAction::Update(t) => t,
        _ => panic!("expected an update"),
    };
    assert_eq!(target.id, row.id);
    let updated = repo.update(target).ok().unwrap();
    match update_post(row.id, &p, Progress::Finished(Ok(updated))) {
        PostAction::Respond(r) => assert_eq!(r.status, 200),
        _ => panic!("expected a response"),
    }
    let found = repo.find_by_id(row.id).ok().unwrap();
    assert_eq!(found.title, "new");
    assert_eq!(found.body, "new body");
    assert!(found.published);
}

#[test]
fn update_with_empty_body_answers_400() {
    match update_post(1, &payload("t", "", false), Progress::Begin) {
        PostAction::Respond(r) => assert_eq!(r.status, 400),
        _ => panic!("expected a response"),
    }
}

#[test]
fn delete_then_get_answers_200_then_404() {
    let mut repo = MemoryPostRepository::new();
    let row = repo.create(payload("t", "b", false)).ok().unwrap();
    let id = row.id;
    assert!(matches!(delete_post(id, Progress::Begin), PostAction::Find(_)));
    let lookup = repo.find_by_id(id).map(|_| ());
    assert!(matches!(delete_post(id, Progress::Checked(lookup)), PostAction::Delete(_)));
    let removed = repo.delete(id);
    assert_eq!(*removed.as_ref().ok().unwrap(), 1);
    match delete_post(id, Progress::Finished(removed)) {
        PostAction::Respond(r) => assert_eq!(r.status, 200),
        _ => panic!("expected a response"),
    }
    assert_eq!(get_post(repo.find_by_id(id)).status, 404);
    let lookup_again = repo.find_by_id(id).map(|_| ());
    match delete_post(id, Progress::Checked(lookup_again)) {
        PostAction::Respond(r) => {
            assert_eq!(r.status, 404);
            assert_eq!(r.message, "Post not found");
        }
        _ => panic!("expected a response"),
    }
    assert_eq!(*repo.delete(id).as_ref().ok().unwrap(), 0);
}

#[test]
fn store_failures_answer_500() {
    assert_eq!(list_posts(Err(store_error())).status, 500);
    match create_post(&payload("t", "b", true), Some(Err(store_error()))) {
        PostAction::Respond(r) => assert_eq!(r.message, "Failed to create post"),
        _ => panic!("expected a response"),
    }
    match update_post(1, &payload("t", "b", true), Progress::Finished(Err(store_error()))) {
        PostAction::Respond(r) => assert_eq!(r.status, 500),
        _ => panic!("expected a response"),
    }
    match delete_post(1, Progress::Finished(Err(store_error()))) {
        PostAction::Respond(r) => assert_eq!(r.message, "Internal Server error"),
        _ => panic!("expected a response"),
    }
}

#[test]
fn list_posts_keeps_insertion_order() {
    let mut repo = MemoryPostRepository::new();
    repo.create(payload("first", "1", false)).ok().unwrap();
    repo.create(payload("second", "2", true)).ok().unwrap();
    let r = list_posts(Ok(repo.list_all()));
    assert_eq!(r.status, 200);
    match r.data {
        Some(PostData::Many(ps)) => {
            assert_eq!(ps.len(), 2);
            assert_eq!(ps[0].title, "first");
            assert_eq!(ps[1].title, "second");
        }
        _ => panic!("expected the rows"),
    }
}

#[test]
fn lookup_failure_of_storage_answers_500_not_404() {
    let r = get_post(Err(store_error()));
    assert_eq!(r.status, 500);
    assert_eq!(r.message, "Failed to fetch post");
    let missing = get_post(Err(StoreError::NotFound("Record not found".to_string())));
    assert_eq!(missing.status, 404);
    match update_post(1, &payload("t", "b", true), Progress::Checked(Err(store_error()))) {
        PostAction::Respond(r) => assert_eq!(r.status, 500),
        _ => panic!("expected a response"),
    }
    match delete_post(1, Progress::Checked(Err(store_error()))) {
        PostAction::Respond(r) => assert_eq!(r.status, 500),
        _ => panic!("expected a response"),
    }
}

#[test]
fn repeated_update_returns_same_row() {
    let mut repo = MemoryPostRepository::new();
    let row = repo.create(payload("a", "b", false)).ok().unwrap();
    let target = Post { id: row.id, title: "x".to_string(), body: "y".to_string(), published: true };
    let first = repo.update(target.clone()).ok().unwrap();
    let second = repo.update(target).ok().unwrap();
    assert_eq!(first.title, second.title);
    assert_eq!(repo.list_all().len(), 1);
    assert!(matches!(repo.find_by_id(99), Err(StoreError::NotFound(_))));
}
