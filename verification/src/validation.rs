//! The rules that a request must meet before the store is touched.

use crate::errors::{AppError, AppErrorView};
use crate::models::{CreatePost, CreatePostView, UpdatePost, UpdatePostView};
use vstd::prelude::*;
use vstd::string::*;

verus! {

/// The least number of characters in a title.
pub const MIN_TITLE_CHARS: usize = 3;

/// The reason given for a title that is too short.
pub open spec fn title_too_short_text() -> Seq<char> {
    "Title must be at least 3 characters"@
}

/// The reason given for an empty content.
pub open spec fn content_empty_text() -> Seq<char> {
    "Content cannot be empty"@
}

/// The reason given for an empty author.
pub open spec fn author_empty_text() -> Seq<char> {
    "Author cannot be empty"@
}

/// A title is long enough if it has at least `MIN_TITLE_CHARS` characters.
pub open spec fn title_long_enough(title: Seq<char>) -> bool {
    title.len() >= MIN_TITLE_CHARS
}

/// The first rule that a creation request breaks, by its reason, in the
/// order title, content, author; `None` if it breaks none.
pub open spec fn create_violation(payload: CreatePostView) -> Option<Seq<char>> {
    if !title_long_enough(payload.title) {
        Some(title_too_short_text())
    } else if payload.content.len() == 0 {
        Some(content_empty_text())
    } else if payload.author.len() == 0 {
        Some(author_empty_text())
    } else {
        None
    }
}

/// The rule that a partial update breaks, by its reason: a title that is
/// supplied must be long enough. Nothing is asked of the other fields, nor of
/// a title that is left out.
pub open spec fn update_violation(payload: UpdatePostView) -> Option<Seq<char>> {
    match payload.title {
        Some(title) => if title_long_enough(title) {
            None
        } else {
            Some(title_too_short_text())
        },
        None => None,
    }
}

/// What a check yields for a broken rule, if any.
pub open spec fn verdict_of(violation: Option<Seq<char>>, verdict: Result<(), AppError>) -> bool {
    match violation {
        Some(reason) => verdict matches Err(failure) && failure@ == AppErrorView::ValidationError(
            reason,
        ),
        None => verdict is Ok,
    }
}

fn has_title_length(title: &String) -> (long_enough: bool)
    ensures
        long_enough == title_long_enough(title@),
{
    title.as_str().unicode_len() >= MIN_TITLE_CHARS
}

/// Checks a creation request against the rules for title, content and
/// author, and fails with the reason of the first one that it breaks.
pub fn validate_create(payload: &CreatePost) -> (verdict: Result<(), AppError>)
    ensures
        verdict_of(create_violation(payload@), verdict),
{
    if !has_title_length(&payload.title) {
        return Err(
            AppError::ValidationError(String::from_str("Title must be at least 3 characters")),
        );
    }
    if payload.content.as_str().is_empty() {
        return Err(AppError::ValidationError(String::from_str("Content cannot be empty")));
    }
    if payload.author.as_str().is_empty() {
        return Err(AppError::ValidationError(String::from_str("Author cannot be empty")));
    }
    Ok(())
}

/// Checks a partial update: a title that is supplied must be long enough.
pub fn validate_update(payload: &UpdatePost) -> (verdict: Result<(), AppError>)
    ensures
        verdict_of(update_violation(payload@), verdict),
{
    match &payload.title {
        Some(title) => {
            if !has_title_length(title) {
                return Err(
                    AppError::ValidationError(
                        String::from_str("Title must be at least 3 characters"),
                    ),
                );
            }
        },
        None => {},
    }
    Ok(())
}

} // verus!
