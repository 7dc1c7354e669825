//! The request handlers: each checks its input, asks the store, and turns
//! what the store reports into the response.
//!
//! Every handler comes in two parts. The functions `listed`, `fetched`,
//! `created`, `updated` and `deleted` say what response follows from an
//! outcome of the store, whatever store produced it. The handlers themselves
//! run a request against the in-memory store.

use crate::errors::{AppError, AppErrorView, StatusCode, StoreError, StoreErrorView};
use crate::models::{post_views, CreatePost, Post, UpdatePost};
use crate::pagination::{effective_page, effective_per_page, PaginatedResponse, PaginationParams,
    Window};
use crate::store::{ids_exhausted_text, PostStore};
use crate::store_model::StoreView;
use crate::validation::{create_violation, update_violation, validate_create, validate_update};
use vstd::prelude::*;

verus! {

/// The response to a listing, from what the store reported: the posts of the
/// window with the window's page and page size and the total, or the storage
/// fault.
pub fn listed(window: &Window, outcome: Result<(Vec<Post>, i64), StoreError>) -> (response: Result<
    PaginatedResponse<Post>,
    AppError,
>)
    ensures
        window@.valid(),
        match outcome {
            Ok(listing) => response matches Ok(page) && page.data == listing.0 && page.page
                == window@.page && page.per_page == window@.per_page && page.total == listing.1,
            Err(error) => response matches Err(failure) && failure@ == AppErrorView::of_store(
                error@,
            ),
        },
{
    let page = window.page();
    let per_page = window.per_page();
    match outcome {
        Ok((data, total)) => Ok(PaginatedResponse { data, page, per_page, total }),
        Err(error) => Err(AppError::from(error)),
    }
}

/// The response to a lookup, from what the store reported: the post, "not
/// found" where the store found no row, or the storage fault.
pub fn fetched(outcome: Result<Post, StoreError>) -> (response: Result<Post, AppError>)
    ensures
        match outcome {
            Ok(post) => response == Ok::<Post, AppError>(post),
            Err(error) => response matches Err(failure) && failure@ == AppErrorView::of_lookup(
                error@,
            ),
        },
{
    match outcome {
        Ok(post) => Ok(post),
        Err(error) => Err(AppError::from_lookup(error)),
    }
}

/// The response to a creation, from what the store reported: the new post
/// with the status code `Created`, or the storage fault.
pub fn created(outcome: Result<Post, StoreError>) -> (response: Result<
    (StatusCode, Post),
    AppError,
>)
    ensures
        match outcome {
            Ok(post) => response == Ok::<(StatusCode, Post), AppError>(
                (StatusCode::Created, post),
            ),
            Err(error) => response matches Err(failure) && failure@ == AppErrorView::of_store(
                error@,
            ),
        },
{
    match outcome {
        Ok(post) => Ok((StatusCode::Created, post)),
        Err(error) => Err(AppError::from(error)),
    }
}

/// The response to an update, from what the store reported: the updated
/// post, "not found" where the store found no row, or the storage fault.
pub fn updated(outcome: Result<Post, StoreError>) -> (response: Result<Post, AppError>)
    ensures
        match outcome {
            Ok(post) => response == Ok::<Post, AppError>(post),
            Err(error) => response matches Err(failure) && failure@ == AppErrorView::of_lookup(
                error@,
            ),
        },
{
    match outcome {
        Ok(post) => Ok(post),
        Err(error) => Err(AppError::from_lookup(error)),
    }
}

/// The response to a deletion, from what the store reported: the status code
/// `NoContent` where a row was removed, "not found" where none was, or the
/// storage fault.
pub fn deleted(outcome: Result<u64, StoreError>) -> (response: Result<StatusCode, AppError>)
    ensures
        match outcome {
            Ok(affected) => if affected == 0 {
                response matches Err(failure) && failure@ == AppErrorView::NotFound
            } else {
                response == Ok::<StatusCode, AppError>(StatusCode::NoContent)
            },
            Err(error) => response matches Err(failure) && failure@ == AppErrorView::of_store(
                error@,
            ),
        },
{
    match outcome {
        Ok(affected) => {
            if affected == 0 {
                Err(AppError::NotFound)
            } else {
                Ok(StatusCode::NoContent)
            }
        },
        Err(error) => Err(AppError::from(error)),
    }
}

/// Lists one page of the posts, the latest created first. The page number
/// and the page size are those that the parameters are given, and the total
/// counts all posts of the store. Does not fail.
pub fn list_posts(store: &PostStore, params: PaginationParams) -> (response: Result<
    PaginatedResponse<Post>,
    AppError,
>)
    ensures
        store@.wf(),
        response matches Ok(page) && {
            &&& page.page == effective_page(params.page)
            &&& page.per_page == effective_per_page(params.per_page)
            &&& page.total == store@.total()
            &&& post_views(page.data@) == store@.list(
                effective_page(params.page),
                effective_per_page(params.per_page),
            )
        },
{
    let window = params.window();
    let listing = store.list(&window);
    listed(&window, Ok(listing))
}

/// Looks up the post with this identifier. Fails with `NotFound` exactly if
/// no such post exists.
pub fn get_post(store: &PostStore, id: i64) -> (response: Result<Post, AppError>)
    ensures
        store@.wf(),
        match response {
            Ok(post) => store@.get(id as int) == Some(post@),
            Err(failure) => store@.get(id as int) is None && failure@ == AppErrorView::NotFound,
        },
{
    fetched(store.get(id))
}

/// Creates a post from the request at the time that the clock reading `now`
/// gives, and answers with the status code `Created` and the new post.
///
/// Fails with the reason of the first rule that the request breaks, if it
/// breaks one, and else with a storage fault if the store has no identifier
/// left. A failed creation leaves the store as it was.
pub fn create_post(store: &mut PostStore, payload: CreatePost, now: i64) -> (response: Result<
    (StatusCode, Post),
    AppError,
>)
    ensures
        final(store)@.wf(),
        match response {
            Ok((status, post)) => {
                &&& create_violation(payload@) is None
                &&& old(store)@.can_create()
                &&& status == StatusCode::Created
                &&& post@ == old(store)@.created(
                    payload@.title,
                    payload@.content,
                    payload@.author,
                    Some(payload@.status),
                    now as int,
                )
                &&& final(store)@ == old(store)@.create(
                    payload@.title,
                    payload@.content,
                    payload@.author,
                    Some(payload@.status),
                    now as int,
                )
            },
            Err(failure) => {
                &&& final(store)@ == old(store)@
                &&& match create_violation(payload@) {
                    Some(reason) => failure@ == AppErrorView::ValidationError(reason),
                    None => !old(store)@.can_create() && failure@ == AppErrorView::DatabaseError(
                        ids_exhausted_text(),
                    ),
                }
            },
        },
{
    match validate_create(&payload) {
        Ok(()) => {},
        Err(failure) => {
            proof {
                use_type_invariant(&*store);
            }
            return Err(failure);
        },
    }
    let outcome = store.create(
        payload.title,
        payload.content,
        payload.author,
        Some(payload.status),
        now,
    );
    created(outcome)
}

/// Applies a partial update to the post with this identifier at the time
/// that the clock reading `now` gives, and answers with the updated post.
///
/// Fails with the reason if a title is supplied that is too short, and else
/// with `NotFound` if no such post exists. A failed update leaves the store
/// as it was.
pub fn update_post(store: &mut PostStore, id: i64, payload: UpdatePost, now: i64) -> (response:
    Result<Post, AppError>)
    ensures
        final(store)@.wf(),
        match response {
            Ok(post) => {
                &&& update_violation(payload@) is None
                &&& old(store)@.contains(id as int)
                &&& post@ == old(store)@.updated(id as int, payload@, now as int)
                &&& final(store)@ == old(store)@.update(id as int, payload@, now as int)
            },
            Err(failure) => {
                &&& final(store)@ == old(store)@
                &&& match update_violation(payload@) {
                    Some(reason) => failure@ == AppErrorView::ValidationError(reason),
                    None => !old(store)@.contains(id as int) && failure@
                        == AppErrorView::NotFound,
                }
            },
        },
{
    match validate_update(&payload) {
        Ok(()) => {},
        Err(failure) => {
            proof {
                use_type_invariant(&*store);
            }
            return Err(failure);
        },
    }
    let outcome = store.update(id, &payload, now);
    updated(outcome)
}

/// The status code that answers the deletion of the post with this
/// identifier: `NoContent` if the post exists, `NotFound` if not.
pub open spec fn delete_status(store: StoreView, id: int) -> StatusCode {
    if store.contains(id) {
        StatusCode::NoContent
    } else {
        StatusCode::NotFound
    }
}

/// Removes the post with this identifier and answers with the status code
/// `NoContent`. Fails with `NotFound`, and leaves the store as it was, exactly
/// if no such post exists.
pub fn delete_post(store: &mut PostStore, id: i64) -> (response: Result<StatusCode, AppError>)
    ensures
        final(store)@.wf(),
        final(store)@ == old(store)@.delete(id as int),
        match response {
            Ok(status) => old(store)@.contains(id as int) && status == StatusCode::NoContent,
            Err(failure) => !old(store)@.contains(id as int) && failure@
                == AppErrorView::NotFound,
        },
        match response {
            Ok(status) => status == delete_status(old(store)@, id as int),
            Err(failure) => failure@.status() == delete_status(old(store)@, id as int),
        },
{
    let affected = store.delete(id);
    deleted(Ok(affected))
}

/// The answer to a health check: the status code `Success`.
pub fn health_check() -> (status: StatusCode)
    ensures
        status == StatusCode::Success,
{
    StatusCode::Success
}

} // verus!
