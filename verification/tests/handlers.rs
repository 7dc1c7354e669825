use blog_backend::errors::{AppError, StatusCode, StoreError};
use blog_backend::handlers::{
    create_post, created, delete_post, deleted, fetched, get_post, health_check, list_posts,
    listed, update_post, updated,
};
use blog_backend::models::{CreatePost, Post, UpdatePost};
use blog_backend::pagination::{PaginatedResponse, PaginationParams};
use blog_backend::store::PostStore;

fn request(title: &str, content: &str, author: &str) -> CreatePost {
    CreatePost::new(title.to_string(), content.to_string(), author.to_string(), None)
}

fn params(page: i64, per_page: i64) -> PaginationParams {
    PaginationParams { page: Some(page), per_page: Some(per_page) }
}

fn sample(id: i64) -> Post {
    Post {
        id,
        title: "title".to_string(),
        content: "content".to_string(),
        author: "author".to_string(),
        status: "draft".to_string(),
        created_at: 1,
        updated_at: 2,
    }
}

fn short_title() -> UpdatePost {
    UpdatePost {
        title: Some("ab".to_string()),
        content: Some("changed".to_string()),
        author: None,
        status: None,
    }
}

fn only_content(text: &str) -> UpdatePost {
    UpdatePost { title: None, content: Some(text.to_string()), author: None, status: None }
}

#[test]
fn create_returns_fresh_post_with_equal_timestamps_and_draft_status() {
    let mut store = PostStore::new();
    let (status, post) = create_post(&mut store, request("abc", "x", "me"), 1234).unwrap();
    assert_eq!(status, StatusCode::Created);
    assert_eq!(status.as_u16(), 201);
    assert_eq!(post.id, 1);
    assert_eq!(post.created_at, post.updated_at);
    assert_eq!(post.created_at, 1234);
    assert_eq!(post.status, "draft");
    assert_eq!(post.title, "abc");
    assert_eq!(post.content, "x");
    assert_eq!(post.author, "me");
    let (_, next) = create_post(&mut store, request("def", "y", "you"), 1235).unwrap();
    assert_eq!(next.id, 2);
}

#[test]
fn create_keeps_a_supplied_status() {
    let mut store = PostStore::new();
    let payload = CreatePost::new(
        "abc".to_string(),
        "x".to_string(),
        "me".to_string(),
        Some("published".to_string()),
    );
    let (_, post) = create_post(&mut store, payload, 1).unwrap();
    assert_eq!(post.status, "published");
}

#[test]
fn create_then_get_round_trip() {
    let mut store = PostStore::new();
    create_post(&mut store, request("first", "a", "me"), 10).unwrap();
    let (_, post) = create_post(&mut store, request("second", "b", "you"), 20).unwrap();
    assert_eq!(get_post(&store, post.id), Ok(post));
}

#[test]
fn short_title_is_a_bad_request() {
    let mut store = PostStore::new();
    let failure = create_post(&mut store, request("ab", "x", "me"), 1).unwrap_err();
    assert_eq!(
        failure,
        AppError::ValidationError("Title must be at least 3 characters".to_string())
    );
    let response = failure.into_response();
    assert_eq!(response.status, StatusCode::BadRequest);
    assert_eq!(response.body.status, 400);
    assert!(response.body.error.contains("at least 3 characters"));
    assert_eq!(list_posts(&store, params(1, 10)).unwrap().total, 0);
}

#[test]
fn rejected_creation_leaves_the_store_unchanged() {
    let mut store = PostStore::new();
    create_post(&mut store, request("abc", "x", "me"), 1).unwrap();
    assert_eq!(
        create_post(&mut store, request("abc", "", "me"), 2),
        Err(AppError::ValidationError("Content cannot be empty".to_string()))
    );
    assert_eq!(
        create_post(&mut store, request("abc", "x", ""), 3),
        Err(AppError::ValidationError("Author cannot be empty".to_string()))
    );
    assert_eq!(list_posts(&store, params(1, 10)).unwrap().total, 1);
    let (_, next) = create_post(&mut store, request("abc", "x", "me"), 4).unwrap();
    assert_eq!(next.id, 2);
}

#[test]
fn get_on_empty_store_is_not_found() {
    let store = PostStore::new();
    let failure = get_post(&store, 999999).unwrap_err();
    assert_eq!(failure, AppError::NotFound);
    assert_eq!(failure.into_response().status.as_u16(), 404);
}

#[test]
fn three_posts_first_page_of_two() {
    let mut store = PostStore::new();
    create_post(&mut store, request("first", "a", "me"), 10).unwrap();
    let (_, second) = create_post(&mut store, request("second", "b", "me"), 20).unwrap();
    let (_, third) = create_post(&mut store, request("third", "c", "me"), 30).unwrap();
    let page = list_posts(&store, params(1, 2)).unwrap();
    assert_eq!(
        page,
        PaginatedResponse { data: vec![third, second], page: 1, per_page: 2, total: 3 }
    );
}

#[test]
fn listing_reports_the_effective_window() {
    let mut store = PostStore::new();
    for n in 0..3 {
        create_post(&mut store, request("post", "a", "me"), n).unwrap();
    }
    let page = list_posts(&store, params(0, 1000)).unwrap();
    assert_eq!(page.page, 1);
    assert_eq!(page.per_page, 100);
    assert_eq!(page.total, 3);
    assert_eq!(page.data.len(), 3);
    let omitted = list_posts(&store, PaginationParams { page: None, per_page: None }).unwrap();
    assert_eq!(omitted.page, 1);
    assert_eq!(omitted.per_page, 1);
    assert_eq!(omitted.data.len(), 1);
    assert_eq!(omitted.data[0].id, 3);
    let beyond = list_posts(&store, params(4, 1)).unwrap();
    assert_eq!(beyond.data, vec![]);
    assert_eq!(beyond.total, 3);
}

#[test]
fn listing_twice_gives_the_same_page() {
    let mut store = PostStore::new();
    for n in 0..7 {
        create_post(&mut store, request("post", "a", "me"), n).unwrap();
    }
    let first = list_posts(&store, params(2, 3)).unwrap();
    let second = list_posts(&store, params(2, 3)).unwrap();
    assert_eq!(first, second);
    assert_eq!(first.data.iter().map(|post| post.id).collect::<Vec<i64>>(), vec![4, 3, 2]);
    // Requests that fail or only read leave the listing as it was.
    assert!(get_post(&store, 99).is_err());
    assert!(delete_post(&mut store, 99).is_err());
    assert!(update_post(&mut store, 99, only_content("x"), 100).is_err());
    assert_eq!(list_posts(&store, params(2, 3)).unwrap(), first);
}

#[test]
fn update_preserves_fields_that_are_not_supplied() {
    let mut store = PostStore::new();
    let payload = CreatePost::new(
        "title".to_string(),
        "content".to_string(),
        "author".to_string(),
        Some("published".to_string()),
    );
    let (_, before) = create_post(&mut store, payload, 100).unwrap();
    let after = update_post(&mut store, before.id, only_content("x"), 200).unwrap();
    assert_eq!(after.id, before.id);
    assert_eq!(after.title, before.title);
    assert_eq!(after.author, before.author);
    assert_eq!(after.status, before.status);
    assert_eq!(after.created_at, before.created_at);
    assert_eq!(after.content, "x");
    assert!(after.updated_at > before.updated_at);
    assert_eq!(after.updated_at, 200);
    assert_eq!(get_post(&store, before.id), Ok(after));
}

#[test]
fn update_with_nothing_supplied_refreshes_the_time_only() {
    let mut store = PostStore::new();
    let (_, before) = create_post(&mut store, request("abc", "x", "me"), 100).unwrap();
    let nothing = UpdatePost { title: None, content: None, author: None, status: None };
    let after = update_post(&mut store, before.id, nothing, 101).unwrap();
    assert_eq!(after, Post { updated_at: 101, ..before });
}

#[test]
fn update_at_the_time_of_creation_keeps_the_time() {
    let mut store = PostStore::new();
    let (_, before) = create_post(&mut store, request("abc", "x", "me"), 100).unwrap();
    let after = update_post(&mut store, before.id, only_content("y"), 100).unwrap();
    assert_eq!(after.updated_at, before.updated_at);
    assert!(after.created_at <= after.updated_at);
}

#[test]
fn update_of_missing_post_is_not_found() {
    let mut store = PostStore::new();
    assert_eq!(update_post(&mut store, 5, only_content("x"), 1), Err(AppError::NotFound));
}

#[test]
fn update_checks_the_title_before_it_looks_for_the_post() {
    let mut store = PostStore::new();
    let (_, post) = create_post(&mut store, request("abc", "x", "me"), 1).unwrap();
    let rejected = Err(AppError::ValidationError(
        "Title must be at least 3 characters".to_string(),
    ));
    assert_eq!(update_post(&mut store, 77, short_title(), 2), rejected);
    assert_eq!(update_post(&mut store, post.id, short_title(), 2), rejected);
    assert_eq!(get_post(&store, post.id), Ok(post));
}

#[test]
fn delete_succeeds_once_and_is_not_found_afterwards() {
    let mut store = PostStore::new();
    let (_, post) = create_post(&mut store, request("abc", "x", "me"), 1).unwrap();
    let first = delete_post(&mut store, post.id);
    assert_eq!(first, Ok(StatusCode::NoContent));
    assert_eq!(first.unwrap().as_u16(), 204);
    let second = delete_post(&mut store, post.id);
    assert_eq!(second, Err(AppError::NotFound));
    assert_eq!(second.unwrap_err().into_response().body.status, 404);
    assert_eq!(get_post(&store, post.id), Err(AppError::NotFound));
}

#[test]
fn delete_of_missing_post_is_not_found() {
    let mut store = PostStore::new();
    assert_eq!(delete_post(&mut store, 1), Err(AppError::NotFound));
}

#[test]
fn health_check_answers_success() {
    assert_eq!(health_check(), StatusCode::Success);
    assert_eq!(health_check().as_u16(), 200);
}

#[test]
fn listed_wraps_what_the_store_reported() {
    let window = params(2, 5).window();
    assert_eq!(
        listed(&window, Ok((vec![sample(3), sample(2)], 7))),
        Ok(PaginatedResponse { data: vec![sample(3), sample(2)], page: 2, per_page: 5, total: 7 })
    );
    assert_eq!(
        listed(&window, Err(StoreError::Fault("pool timed out".to_string()))),
        Err(AppError::DatabaseError("pool timed out".to_string()))
    );
}

#[test]
fn fetched_maps_a_missing_row_to_not_found() {
    assert_eq!(fetched(Ok(sample(1))), Ok(sample(1)));
    assert_eq!(fetched(Err(StoreError::RowNotFound)), Err(AppError::NotFound));
    assert_eq!(
        fetched(Err(StoreError::Fault("database is locked".to_string()))),
        Err(AppError::DatabaseError("database is locked".to_string()))
    );
}

#[test]
fn created_answers_with_created_or_a_storage_fault() {
    assert_eq!(created(Ok(sample(1))), Ok((StatusCode::Created, sample(1))));
    assert_eq!(
        created(Err(StoreError::Fault("constraint failed".to_string()))),
        Err(AppError::DatabaseError("constraint failed".to_string()))
    );
    let failure = created(Err(StoreError::RowNotFound)).unwrap_err();
    assert_eq!(failure.status_code(), StatusCode::InternalServerError);
}

#[test]
fn updated_maps_a_missing_row_to_not_found() {
    assert_eq!(updated(Ok(sample(1))), Ok(sample(1)));
    assert_eq!(updated(Err(StoreError::RowNotFound)), Err(AppError::NotFound));
    assert_eq!(
        updated(Err(StoreError::Fault("database is locked".to_string()))),
        Err(AppError::DatabaseError("database is locked".to_string()))
    );
}

#[test]
fn deleted_depends_on_the_affected_rows() {
    assert_eq!(deleted(Ok(1)), Ok(StatusCode::NoContent));
    assert_eq!(deleted(Ok(3)), Ok(StatusCode::NoContent));
    assert_eq!(deleted(Ok(0)), Err(AppError::NotFound));
    assert_eq!(
        deleted(Err(StoreError::Fault("database is locked".to_string()))),
        Err(AppError::DatabaseError("database is locked".to_string()))
    );
    assert_eq!(
        deleted(Err(StoreError::RowNotFound)),
        Err(AppError::DatabaseError(
            "no rows returned by a query that expected to return at least one row".to_string()
        ))
    );
}
