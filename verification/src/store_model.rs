//! The post store as a mathematical value: its rows in the order of their
//! creation, and what each operation makes of them.

use crate::models::{status_or_default, PostView, UpdatePostView};
use crate::pagination::page_of;
use vstd::prelude::*;

verus! {

/// The state of a post store.
pub struct StoreView {
    /// The posts that exist, in the order in which they were created.
    pub rows: Seq<PostView>,
    /// The greatest identifier given out so far, 0 if none was.
    pub last_id: int,
    /// The store's time: the latest clock reading that a change was made at.
    pub clock: int,
}

impl StoreView {
    /// The store that holds no post and has given out no identifier.
    pub open spec fn empty() -> StoreView {
        StoreView { rows: Seq::empty(), last_id: 0, clock: i64::MIN as int }
    }

    /// What holds of every store: identifiers are positive, were given out by
    /// this store, and grow with the order of creation, as the creation times
    /// do; no post was created after it was last updated, nor updated after
    /// the store's time.
    pub open spec fn wf(self) -> bool {
        &&& 0 <= self.last_id
        &&& forall|i: int|
            0 <= i < self.rows.len() ==> {
                &&& 1 <= (#[trigger] self.rows[i]).id <= self.last_id
                &&& self.rows[i].created_at <= self.rows[i].updated_at <= self.clock
            }
        &&& forall|i: int, j: int|
            0 <= i < j < self.rows.len() ==> {
                &&& (#[trigger] self.rows[i]).id < (#[trigger] self.rows[j]).id
                &&& self.rows[i].created_at <= self.rows[j].created_at
            }
    }

    /// A post with this identifier exists.
    pub open spec fn contains(self, id: int) -> bool {
        exists|i: int| 0 <= i < self.rows.len() && (#[trigger] self.rows[i]).id == id
    }

    /// The position of the post with this identifier among the rows.
    pub open spec fn index_of(self, id: int) -> int {
        choose|i: int| 0 <= i < self.rows.len() && (#[trigger] self.rows[i]).id == id
    }

    /// The post with this identifier, if it exists.
    pub open spec fn get(self, id: int) -> Option<PostView> {
        if self.contains(id) {
            Some(self.rows[self.index_of(id)])
        } else {
            None
        }
    }

    /// The time that a change is made at when the clock reads `reading`: the
    /// reading, or the store's time where the reading is behind it. The
    /// store's time never goes back.
    pub open spec fn time_at(self, reading: int) -> int {
        if reading > self.clock {
            reading
        } else {
            self.clock
        }
    }

    /// The store has an identifier left to give out.
    pub open spec fn can_create(self) -> bool {
        self.last_id < i64::MAX
    }

    /// The post that a creation makes: it has the next identifier, the texts
    /// supplied, the default status where none is supplied, and the time of
    /// the creation as both of its timestamps.
    pub open spec fn created(
        self,
        title: Seq<char>,
        content: Seq<char>,
        author: Seq<char>,
        status: Option<Seq<char>>,
        reading: int,
    ) -> PostView {
        PostView {
            id: self.last_id + 1,
            title,
            content,
            author,
            status: status_or_default(status),
            created_at: self.time_at(reading),
            updated_at: self.time_at(reading),
        }
    }

    /// The store after a creation: the new post is its last row.
    pub open spec fn create(
        self,
        title: Seq<char>,
        content: Seq<char>,
        author: Seq<char>,
        status: Option<Seq<char>>,
        reading: int,
    ) -> StoreView {
        StoreView {
            rows: self.rows.push(self.created(title, content, author, status, reading)),
            last_id: self.last_id + 1,
            clock: self.time_at(reading),
        }
    }

    /// The post that an update of the post with this identifier makes.
    pub open spec fn updated(self, id: int, patch: UpdatePostView, reading: int) -> PostView
        recommends
            self.contains(id),
    {
        patch.apply(self.rows[self.index_of(id)], self.time_at(reading))
    }

    /// The store after an update: the updated post stands where the post
    /// stood. A store without such a post stays as it is.
    pub open spec fn update(self, id: int, patch: UpdatePostView, reading: int) -> StoreView {
        if self.contains(id) {
            StoreView {
                rows: self.rows.update(self.index_of(id), self.updated(id, patch, reading)),
                last_id: self.last_id,
                clock: self.time_at(reading),
            }
        } else {
            self
        }
    }

    /// The number of rows that a deletion removes: 1 if the post exists, else
    /// 0.
    pub open spec fn affected_by_delete(self, id: int) -> int {
        if self.contains(id) {
            1
        } else {
            0
        }
    }

    /// The store after a deletion: the post is gone and the other rows keep
    /// their order. A store without such a post stays as it is.
    pub open spec fn delete(self, id: int) -> StoreView {
        if self.contains(id) {
            StoreView {
                rows: self.rows.remove(self.index_of(id)),
                last_id: self.last_id,
                clock: self.clock,
            }
        } else {
            self
        }
    }

    /// All posts in the order of a listing: the latest created first.
    pub open spec fn newest_first(self) -> Seq<PostView> {
        Seq::new(self.rows.len(), |i: int| self.rows[self.rows.len() - 1 - i])
    }

    /// The posts on one page of the listing.
    pub open spec fn list(self, page: int, per_page: int) -> Seq<PostView> {
        page_of(self.newest_first(), page, per_page)
    }

    /// The number of posts in the store.
    pub open spec fn total(self) -> int {
        self.rows.len() as int
    }
}

/// `listing` is in the order of a listing: later creation times first, and
/// among equal creation times greater identifiers first.
pub open spec fn is_newest_first(listing: Seq<PostView>) -> bool {
    forall|i: int, j: int|
        0 <= i < j < listing.len() ==> {
            ||| (#[trigger] listing[i]).created_at > (#[trigger] listing[j]).created_at
            ||| (listing[i].created_at == listing[j].created_at && listing[i].id > listing[j].id)
        }
}

/// In a well-formed store the row at a position is the one that its
/// identifier finds.
pub proof fn lemma_index_of_row(store: StoreView, i: int)
    requires
        store.wf(),
        0 <= i < store.rows.len(),
    ensures
        store.contains(store.rows[i].id),
        store.index_of(store.rows[i].id) == i,
        store.get(store.rows[i].id) == Some(store.rows[i]),
{
    let id = store.rows[i].id;
    let found = store.index_of(id);
    assert(0 <= found < store.rows.len() && store.rows[found].id == id);
    if found < i {
        assert(store.rows[found].id < store.rows[i].id);
    } else if i < found {
        assert(store.rows[i].id < store.rows[found].id);
    }
}

/// A well-formed store holds no more posts than it has given out
/// identifiers.
pub proof fn lemma_total_bounded(store: StoreView)
    requires
        store.wf(),
    ensures
        store.total() <= store.last_id,
{
    lemma_ids_outgrow_positions(store, store.rows.len() as int);
    if store.rows.len() > 0 {
        assert(store.rows[store.rows.len() - 1].id <= store.last_id);
    }
}

proof fn lemma_ids_outgrow_positions(store: StoreView, n: int)
    requires
        store.wf(),
        0 <= n <= store.rows.len(),
    ensures
        forall|i: int| 0 <= i < n ==> (#[trigger] store.rows[i]).id >= i + 1,
    decreases n,
{
    if n > 0 {
        lemma_ids_outgrow_positions(store, n - 1);
        if n > 1 {
            assert(store.rows[n - 2].id < store.rows[n - 1].id);
        } else {
            assert(store.rows[0].id >= 1);
        }
    }
}

/// The empty store is well-formed.
pub proof fn lemma_empty_wf()
    ensures
        StoreView::empty().wf(),
        StoreView::empty().total() == 0,
{
}

/// A creation keeps the store well-formed, and the post it makes has an
/// identifier that no post of the store had.
pub proof fn lemma_create_wf(
    store: StoreView,
    title: Seq<char>,
    content: Seq<char>,
    author: Seq<char>,
    status: Option<Seq<char>>,
    reading: int,
)
    requires
        store.wf(),
    ensures
        store.create(title, content, author, status, reading).wf(),
        !store.contains(store.created(title, content, author, status, reading).id),
{
    let after = store.create(title, content, author, status, reading);
    let post = store.created(title, content, author, status, reading);
    assert forall|i: int| 0 <= i < after.rows.len() implies {
        &&& 1 <= (#[trigger] after.rows[i]).id <= after.last_id
        &&& after.rows[i].created_at <= after.rows[i].updated_at <= after.clock
    } by {
        if i < store.rows.len() {
            assert(after.rows[i] == store.rows[i]);
        }
    }
    assert forall|i: int, j: int| 0 <= i < j < after.rows.len() implies {
        &&& (#[trigger] after.rows[i]).id < (#[trigger] after.rows[j]).id
        &&& after.rows[i].created_at <= after.rows[j].created_at
    } by {
        assert(after.rows[i] == store.rows[i]);
        if j < store.rows.len() {
            assert(after.rows[j] == store.rows[j]);
        }
    }
}

/// An update keeps the store well-formed.
pub proof fn lemma_update_wf(store: StoreView, id: int, patch: UpdatePostView, reading: int)
    requires
        store.wf(),
    ensures
        store.update(id, patch, reading).wf(),
{
    if store.contains(id) {
        let at = store.index_of(id);
        let after = store.update(id, patch, reading);
        assert(store.rows[at].id == id);
        assert forall|i: int| 0 <= i < after.rows.len() implies {
            &&& 1 <= (#[trigger] after.rows[i]).id <= after.last_id
            &&& after.rows[i].created_at <= after.rows[i].updated_at <= after.clock
        } by {
            assert(store.rows[i].id >= 1);
        }
        assert forall|i: int, j: int| 0 <= i < j < after.rows.len() implies {
            &&& (#[trigger] after.rows[i]).id < (#[trigger] after.rows[j]).id
            &&& after.rows[i].created_at <= after.rows[j].created_at
        } by {
            assert(store.rows[i].id < store.rows[j].id);
        }
    }
}

/// A deletion keeps the store well-formed, and afterwards the post does not
/// exist.
pub proof fn lemma_delete_wf(store: StoreView, id: int)
    requires
        store.wf(),
    ensures
        store.delete(id).wf(),
        !store.delete(id).contains(id),
{
    if store.contains(id) {
        let at = store.index_of(id);
        let after = store.delete(id);
        assert(store.rows[at].id == id);
        assert forall|i: int| 0 <= i < after.rows.len() implies {
            &&& 1 <= (#[trigger] after.rows[i]).id <= after.last_id
            &&& after.rows[i].created_at <= after.rows[i].updated_at <= after.clock
            &&& after.rows[i].id != id
        } by {
            if i < at {
                assert(after.rows[i] == store.rows[i]);
                assert(store.rows[i].id < store.rows[at].id);
            } else {
                assert(after.rows[i] == store.rows[i + 1]);
                assert(store.rows[at].id < store.rows[i + 1].id);
            }
        }
        assert forall|i: int, j: int| 0 <= i < j < after.rows.len() implies {
            &&& (#[trigger] after.rows[i]).id < (#[trigger] after.rows[j]).id
            &&& after.rows[i].created_at <= after.rows[j].created_at
        } by {
            let from_i = if i < at { i } else { i + 1 };
            let from_j = if j < at { j } else { j + 1 };
            assert(after.rows[i] == store.rows[from_i]);
            assert(after.rows[j] == store.rows[from_j]);
            assert(store.rows[from_i].id < store.rows[from_j].id);
        }
    }
}

} // verus!
