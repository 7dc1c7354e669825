//! What holds of the store and of the handlers on every input, stated over
//! the store's mathematical value.

use crate::errors::StatusCode;
use crate::handlers::delete_status;
use crate::models::{default_status_text, CreatePostView, PostView, UpdatePostView};
use crate::pagination::{effective_page, effective_per_page, page_of, MAX_PER_PAGE};
use crate::store_model::{
    is_newest_first, lemma_create_wf, lemma_delete_wf, lemma_index_of_row, lemma_update_wf,
    StoreView,
};
use crate::validation::{create_violation, title_long_enough, update_violation};
use vstd::prelude::*;

verus! {

/// Every post of the store has a title that is long enough.
pub open spec fn titles_long_enough(store: StoreView) -> bool {
    forall|i: int| 0 <= i < store.rows.len() ==> title_long_enough((#[trigger] store.rows[i]).title)
}

/// A request for a page before the first, or for no page, is given the first
/// page, and any other the page it asks for. The page size it is given is in
/// the range from 1 to `MAX_PER_PAGE`: the size it asks for if that is in the
/// range, and else the end of the range that is nearer to it.
pub proof fn law_window_is_clamped(page: Option<i64>, per_page: Option<i64>)
    ensures
        page is None ==> effective_page(page) == 1,
        page matches Some(number) ==> (number <= 0 ==> effective_page(page) == 1),
        page matches Some(number) ==> (number >= 1 ==> effective_page(page) == number),
        1 <= effective_per_page(per_page) <= MAX_PER_PAGE,
        MAX_PER_PAGE == 100,
        per_page matches Some(size) ==> (1 <= size <= 100 ==> effective_per_page(per_page)
            == size),
        per_page matches Some(size) ==> (size < 1 ==> effective_per_page(per_page) == 1),
        per_page matches Some(size) ==> (size > 100 ==> effective_per_page(per_page) == 100),
{
}

/// A creation that breaks no rule makes a post with a title that is long
/// enough, a content and an author, and an update that breaks no rule leaves
/// a title that is long enough: where every title of the store was long
/// enough, every title still is.
pub proof fn law_accepted_requests_keep_titles(
    store: StoreView,
    payload: CreatePostView,
    id: int,
    patch: UpdatePostView,
    reading: int,
)
    requires
        titles_long_enough(store),
        create_violation(payload) is None,
        update_violation(patch) is None,
    ensures
        ({
            let post = store.created(
                payload.title,
                payload.content,
                payload.author,
                Some(payload.status),
                reading,
            );
            &&& title_long_enough(post.title)
            &&& post.content.len() > 0
            &&& post.author.len() > 0
        }),
        titles_long_enough(
            store.create(
                payload.title,
                payload.content,
                payload.author,
                Some(payload.status),
                reading,
            ),
        ),
        titles_long_enough(store.update(id, patch, reading)),
        titles_long_enough(store.delete(id)),
{
    let created = store.create(
        payload.title,
        payload.content,
        payload.author,
        Some(payload.status),
        reading,
    );
    assert forall|i: int| 0 <= i < created.rows.len() implies title_long_enough(
        (#[trigger] created.rows[i]).title,
    ) by {
        if i < store.rows.len() {
            assert(created.rows[i] == store.rows[i]);
        }
    }
    if store.contains(id) {
        let at = store.index_of(id);
        let updated = store.update(id, patch, reading);
        assert forall|i: int| 0 <= i < updated.rows.len() implies title_long_enough(
            (#[trigger] updated.rows[i]).title,
        ) by {
            assert(title_long_enough(store.rows[i].title));
        }
        let deleted = store.delete(id);
        assert forall|i: int| 0 <= i < deleted.rows.len() implies title_long_enough(
            (#[trigger] deleted.rows[i]).title,
        ) by {
            if i < at {
                assert(deleted.rows[i] == store.rows[i]);
            } else {
                assert(deleted.rows[i] == store.rows[i + 1]);
            }
        }
    }
}

/// A post that was just created has a positive identifier that no post of
/// the store had, the time of its creation as the time of its last update,
/// and the texts that were supplied.
pub proof fn law_created_post_is_fresh(
    store: StoreView,
    title: Seq<char>,
    content: Seq<char>,
    author: Seq<char>,
    status: Option<Seq<char>>,
    reading: int,
)
    requires
        store.wf(),
    ensures
        ({
            let post = store.created(title, content, author, status, reading);
            &&& post.id >= 1
            &&& !store.contains(post.id)
            &&& post.created_at == post.updated_at
            &&& post.title == title
            &&& post.content == content
            &&& post.author == author
            &&& status matches Some(text) ==> post.status == text
        }),
{
    lemma_create_wf(store, title, content, author, status, reading);
}

/// A post that is created without a status has the status `"draft"`, on
/// either way of leaving the status out: in the request, or in the call to
/// the store.
pub proof fn law_omitted_status_is_draft(
    store: StoreView,
    title: Seq<char>,
    content: Seq<char>,
    author: Seq<char>,
    reading: int,
)
    ensures
        store.created(title, content, author, None, reading).status == default_status_text(),
        ({
            let payload = CreatePostView::new(title, content, author, None);
            store.created(
                payload.title,
                payload.content,
                payload.author,
                Some(payload.status),
                reading,
            ).status == default_status_text()
        }),
        default_status_text() == "draft"@,
{
    reveal_strlit("draft");
    assert(default_status_text() =~= "draft"@);
}

/// A lookup right after a creation finds the post that was created, equal in
/// every field, and every post that existed before is found as it was.
pub proof fn law_create_then_get(
    store: StoreView,
    title: Seq<char>,
    content: Seq<char>,
    author: Seq<char>,
    status: Option<Seq<char>>,
    reading: int,
)
    requires
        store.wf(),
    ensures
        ({
            let post = store.created(title, content, author, status, reading);
            let after = store.create(title, content, author, status, reading);
            &&& after.get(post.id) == Some(post)
            &&& after.total() == store.total() + 1
            &&& forall|id: int| #[trigger] store.contains(id) ==> after.get(id) == store.get(id)
        }),
{
    let post = store.created(title, content, author, status, reading);
    let after = store.create(title, content, author, status, reading);
    lemma_create_wf(store, title, content, author, status, reading);
    lemma_index_of_row(after, store.rows.len() as int);
    assert forall|id: int| #[trigger] store.contains(id) implies after.get(id) == store.get(
        id,
    ) by {
        let at = store.index_of(id);
        assert(after.rows[at] == store.rows[at]);
        lemma_index_of_row(after, at);
    }
}

/// An update leaves every field that the partial payload does not hold as it
/// was, gives every field that it holds the value supplied, and keeps the
/// identifier and the time of creation. The time of the last update does not
/// go back, and it grows where the clock reads later than the last update.
/// Every other post stays as it was.
pub proof fn law_update_preserves_absent_fields(
    store: StoreView,
    id: int,
    patch: UpdatePostView,
    reading: int,
)
    requires
        store.wf(),
        store.contains(id),
    ensures
        ({
            let before = store.get(id)->0;
            let post = store.updated(id, patch, reading);
            let after = store.update(id, patch, reading);
            &&& after.get(id) == Some(post)
            &&& post.id == id
            &&& post.created_at == before.created_at
            &&& patch.title is None ==> post.title == before.title
            &&& patch.content is None ==> post.content == before.content
            &&& patch.author is None ==> post.author == before.author
            &&& patch.status is None ==> post.status == before.status
            &&& patch.title matches Some(text) ==> post.title == text
            &&& patch.content matches Some(text) ==> post.content == text
            &&& patch.author matches Some(text) ==> post.author == text
            &&& patch.status matches Some(text) ==> post.status == text
            &&& post.updated_at >= before.updated_at
            &&& post.updated_at >= reading
            &&& reading > before.updated_at ==> post.updated_at > before.updated_at
            &&& after.total() == store.total()
            &&& forall|other: int|
                other != id && #[trigger] store.contains(other) ==> after.get(other) == store.get(
                    other,
                )
        }),
{
    let at = store.index_of(id);
    let after = store.update(id, patch, reading);
    assert(store.rows[at].id == id);
    lemma_update_wf(store, id, patch, reading);
    lemma_index_of_row(after, at);
    assert forall|other: int| other != id && #[trigger] store.contains(other) implies after.get(
        other,
    ) == store.get(other) by {
        let there = store.index_of(other);
        assert(after.rows[there] == store.rows[there]);
        lemma_index_of_row(after, there);
    }
}

/// The first deletion of a post that exists answers `NoContent` and removes
/// the post; a second deletion of the same identifier answers `NotFound` and
/// changes nothing. Every other post stays as it was.
pub proof fn law_delete_twice(store: StoreView, id: int)
    requires
        store.wf(),
        store.contains(id),
    ensures
        delete_status(store, id) == StatusCode::NoContent,
        store.affected_by_delete(id) == 1,
        store.delete(id).get(id) is None,
        store.delete(id).total() == store.total() - 1,
        delete_status(store.delete(id), id) == StatusCode::NotFound,
        store.delete(id).affected_by_delete(id) == 0,
        store.delete(id).delete(id) == store.delete(id),
        forall|other: int|
            other != id && #[trigger] store.contains(other) ==> store.delete(id).get(other)
                == store.get(other),
{
    let at = store.index_of(id);
    let after = store.delete(id);
    assert(store.rows[at].id == id);
    lemma_delete_wf(store, id);
    assert forall|other: int| other != id && #[trigger] store.contains(other) implies after.get(
        other,
    ) == store.get(other) by {
        let there = store.index_of(other);
        let now_there = if there < at {
            there
        } else {
            there - 1
        };
        assert(after.rows[now_there] == store.rows[there]);
        lemma_index_of_row(after, now_there);
    }
}

/// A listing depends on the rows of the store alone: two stores with the
/// same rows give the same page and the same total for the same parameters,
/// so a listing that is asked for again, of a store whose rows did not
/// change, is the same.
pub proof fn law_listing_repeats(first: StoreView, second: StoreView, page: int, per_page: int)
    requires
        first.rows == second.rows,
    ensures
        first.list(page, per_page) == second.list(page, per_page),
        first.total() == second.total(),
{
}

/// The order of a listing: it holds every post of the store once, later
/// creation times first and, among equal creation times, greater identifiers
/// first.
pub proof fn law_listing_order(store: StoreView)
    requires
        store.wf(),
    ensures
        is_newest_first(store.newest_first()),
        store.newest_first().len() == store.total(),
        forall|i: int|
            0 <= i < store.total() ==> #[trigger] store.newest_first()[i] == store.rows[store.total()
                - 1 - i],
        forall|post: PostView| store.newest_first().contains(post) <==> store.rows.contains(post),
{
    let listing = store.newest_first();
    let n = store.rows.len() as int;
    assert forall|i: int, j: int| 0 <= i < j < listing.len() implies {
        ||| (#[trigger] listing[i]).created_at > (#[trigger] listing[j]).created_at
        ||| (listing[i].created_at == listing[j].created_at && listing[i].id > listing[j].id)
    } by {
        assert(store.rows[n - 1 - j].id < store.rows[n - 1 - i].id);
    }
    assert forall|post: PostView| listing.contains(post) <==> store.rows.contains(post) by {
        if listing.contains(post) {
            let i = choose|i: int| 0 <= i < listing.len() && listing[i] == post;
            assert(store.rows[n - 1 - i] == post);
        }
        if store.rows.contains(post) {
            let i = choose|i: int| 0 <= i < store.rows.len() && store.rows[i] == post;
            assert(listing[n - 1 - i] == post);
        }
    }
}

/// A page holds the items of the listing from its offset on, in their order,
/// as many as the page size allows and the listing has left.
pub proof fn law_page_is_a_window<T>(items: Seq<T>, page: int, per_page: int)
    requires
        1 <= page,
        1 <= per_page,
    ensures
        ({
            let offset = (page - 1) * per_page;
            let shown = page_of(items, page, per_page);
            &&& offset >= 0
            &&& shown.len() <= per_page
            &&& offset >= items.len() ==> shown.len() == 0
            &&& offset + per_page <= items.len() ==> shown.len() == per_page
            &&& offset <= items.len() <= offset + per_page ==> shown.len() == items.len() - offset
            &&& forall|k: int| 0 <= k < shown.len() ==> #[trigger] shown[k] == items[offset + k]
        }),
{
    assert((page - 1) * per_page >= 0) by (nonlinear_arith)
        requires
            1 <= page,
            1 <= per_page,
    ;
}

} // verus!
