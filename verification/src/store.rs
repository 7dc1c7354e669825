//! The post store: the posts that exist, held in memory, with the operations
//! that create, read, change, remove and list them.

use crate::errors::{StoreError, StoreErrorView};
use crate::models::{default_status, post_views, text_view, Post, UpdatePost};
use crate::pagination::Window;
use crate::store_model::{
    lemma_create_wf, lemma_delete_wf, lemma_empty_wf, lemma_index_of_row, lemma_total_bounded,
    lemma_update_wf, StoreView,
};
use vstd::prelude::*;
use vstd::string::*;

verus! {

/// The diagnostic of a creation that found no identifier left to give out.
pub open spec fn ids_exhausted_text() -> Seq<char> {
    "no post identifier is left to assign"@
}

/// A store that holds its posts in memory, in the order of their creation.
pub struct PostStore {
    rows: Vec<Post>,
    last_id: i64,
    clock: i64,
}

impl View for PostStore {
    type V = StoreView;

    closed spec fn view(&self) -> StoreView {
        StoreView {
            rows: post_views(self.rows@),
            last_id: self.last_id as int,
            clock: self.clock as int,
        }
    }
}

impl PostStore {
    #[verifier::type_invariant]
    pub(crate) open spec fn well_formed(self) -> bool {
        self@.wf()
    }

    /// A store that holds no post.
    pub fn new() -> (store: PostStore)
        ensures
            store@ == StoreView::empty(),
            store@.wf(),
    {
        proof {
            lemma_empty_wf();
        }
        let store = PostStore { rows: Vec::new(), last_id: 0, clock: i64::MIN };
        assert(store@.rows =~= StoreView::empty().rows);
        store
    }

    /// The number of posts in the store.
    pub fn total(&self) -> (total: i64)
        ensures
            self@.wf(),
            total == self@.total(),
    {
        proof {
            use_type_invariant(self);
            lemma_total_bounded(self@);
        }
        self.rows.len() as i64
    }

    /// The position of the post with this identifier among the rows.
    fn position(&self, id: i64) -> (found: Option<usize>)
        ensures
            self@.wf(),
            match found {
                Some(at) => self@.contains(id as int) && at == self@.index_of(id as int) && at
                    < self.rows.len(),
                None => !self@.contains(id as int),
            },
    {
        proof {
            use_type_invariant(self);
        }
        let mut at: usize = 0;
        while at < self.rows.len()
            invariant
                self@.wf(),
                at <= self.rows.len(),
                forall|i: int| 0 <= i < at ==> (#[trigger] self@.rows[i]).id != id,
            decreases self.rows.len() - at,
        {
            if self.rows[at].id == id {
                proof {
                    assert(self@.rows[at as int].id == id);
                    lemma_index_of_row(self@, at as int);
                }
                return Some(at);
            }
            at += 1;
        }
        None
    }

    /// The post with this identifier. Fails with `RowNotFound` exactly if no
    /// such post exists.
    pub fn get(&self, id: i64) -> (outcome: Result<Post, StoreError>)
        ensures
            self@.wf(),
            match outcome {
                Ok(post) => self@.get(id as int) == Some(post@),
                Err(error) => self@.get(id as int) is None && error@
                    == StoreErrorView::RowNotFound,
            },
    {
        match self.position(id) {
            Some(at) => Ok(self.rows[at].clone()),
            None => Err(StoreError::RowNotFound),
        }
    }

    /// Creates a post at the time that the clock reading `now` gives, and
    /// returns it. Fails, and leaves the store as it was, exactly if no
    /// identifier is left to give out.
    pub fn create(
        &mut self,
        title: String,
        content: String,
        author: String,
        status: Option<String>,
        now: i64,
    ) -> (outcome: Result<Post, StoreError>)
        ensures
            final(self)@.wf(),
            match outcome {
                Ok(post) => {
                    &&& old(self)@.can_create()
                    &&& post@ == old(self)@.created(
                        title@,
                        content@,
                        author@,
                        text_view(status),
                        now as int,
                    )
                    &&& final(self)@ == old(self)@.create(
                        title@,
                        content@,
                        author@,
                        text_view(status),
                        now as int,
                    )
                },
                Err(error) => {
                    &&& !old(self)@.can_create()
                    &&& final(self)@ == old(self)@
                    &&& error@ == StoreErrorView::Fault(ids_exhausted_text())
                },
            },
    {
        proof {
            use_type_invariant(&*self);
            lemma_create_wf(self@, title@, content@, author@, text_view(status), now as int);
        }
        if self.last_id == i64::MAX {
            return Err(StoreError::Fault(String::from_str("no post identifier is left to assign")));
        }
        let time: i64 = if now > self.clock {
            now
        } else {
            self.clock
        };
        let status = match status {
            Some(text) => text,
            None => default_status(),
        };
        let post = Post {
            id: self.last_id + 1,
            title,
            content,
            author,
            status,
            created_at: time,
            updated_at: time,
        };
        let created = post.clone();
        let mut rows: Vec<Post> = Vec::new();
        std::mem::swap(&mut rows, &mut self.rows);
        rows.push(post);
        assert(post_views(rows@) =~= old(self)@.rows.push(created@));
        *self = PostStore { rows, last_id: created.id, clock: time };
        Ok(created)
    }

    /// Applies a partial update to the post with this identifier at the time
    /// that the clock reading `now` gives, and returns the updated post.
    /// Fails with `RowNotFound`, and leaves the store as it was, exactly if no
    /// such post exists.
    pub fn update(&mut self, id: i64, patch: &UpdatePost, now: i64) -> (outcome: Result<
        Post,
        StoreError,
    >)
        ensures
            final(self)@.wf(),
            final(self)@ == old(self)@.update(id as int, patch@, now as int),
            match outcome {
                Ok(post) => old(self)@.contains(id as int) && post@ == old(self)@.updated(
                    id as int,
                    patch@,
                    now as int,
                ),
                Err(error) => !old(self)@.contains(id as int) && error@
                    == StoreErrorView::RowNotFound,
            },
    {
        proof {
            use_type_invariant(&*self);
            lemma_update_wf(self@, id as int, patch@, now as int);
        }
        match self.position(id) {
            Some(at) => {
                let time: i64 = if now > self.clock {
                    now
                } else {
                    self.clock
                };
                let merged = patch.apply(&self.rows[at], time);
                let updated = merged.clone();
                let last_id = self.last_id;
                let mut rows: Vec<Post> = Vec::new();
                std::mem::swap(&mut rows, &mut self.rows);
                rows.set(at, merged);
                assert(post_views(rows@) =~= old(self)@.rows.update(at as int, updated@));
                *self = PostStore { rows, last_id, clock: time };
                Ok(updated)
            },
            None => Err(StoreError::RowNotFound),
        }
    }

    /// Removes the post with this identifier and returns the number of rows
    /// removed: 1 if it existed, 0 if not.
    pub fn delete(&mut self, id: i64) -> (affected: u64)
        ensures
            final(self)@.wf(),
            final(self)@ == old(self)@.delete(id as int),
            affected == old(self)@.affected_by_delete(id as int),
    {
        proof {
            use_type_invariant(&*self);
            lemma_delete_wf(self@, id as int);
        }
        match self.position(id) {
            Some(at) => {
                let last_id = self.last_id;
                let clock = self.clock;
                let mut rows: Vec<Post> = Vec::new();
                std::mem::swap(&mut rows, &mut self.rows);
                rows.remove(at);
                assert(post_views(rows@) =~= old(self)@.rows.remove(at as int));
                *self = PostStore { rows, last_id, clock };
                1
            },
            None => 0,
        }
    }

    /// The posts in the window of a listing, the latest created first, and
    /// the number of posts in the store. A window beyond the last post holds
    /// no post.
    pub fn list(&self, window: &Window) -> (listing: (Vec<Post>, i64))
        ensures
            self@.wf(),
            window@.valid(),
            post_views(listing.0@) == self@.list(window@.page, window@.per_page),
            listing.1 == self@.total(),
    {
        let total = self.total();
        let offset = window.offset();
        let limit = window.limit();
        let mut posts: Vec<Post> = Vec::new();
        if offset >= total {
            assert(post_views(posts@) =~= self@.list(window@.page, window@.per_page));
            return (posts, total);
        }
        let count = self.rows.len();
        let start: usize = offset as usize;
        let end: usize = if limit < total - offset {
            (offset + limit) as usize
        } else {
            count
        };
        let ghost all = self@.newest_first();
        let mut at: usize = start;
        while at < end
            invariant
                start <= at <= end <= count,
                count == self.rows.len(),
                all == self@.newest_first(),
                all.len() == count,
                post_views(posts@) == all.subrange(start as int, at as int),
            decreases end - at,
        {
            let ghost before = posts@;
            posts.push(self.rows[count - 1 - at].clone());
            proof {
                assert(all[at as int] == self@.rows[count - 1 - at]);
                assert(post_views(before).len() == at - start);
                assert forall|k: int| 0 <= k < posts@.len() implies post_views(posts@)[k]
                    == all.subrange(start as int, at + 1)[k] by {
                    if k < before.len() {
                        assert(post_views(before)[k] == all.subrange(start as int, at as int)[k]);
                    }
                }
                assert(post_views(posts@) =~= all.subrange(start as int, at + 1));
            }
            at += 1;
        }
        (posts, total)
    }
}

} // verus!
