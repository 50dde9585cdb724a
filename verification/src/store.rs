//! In-memory row stores for the two entities, standing in for the relational
//! engine: insert, find, replace, delete, count and paging, over rows kept in
//! id order with auto-assigned ids.

use vstd::prelude::*;

use crate::entities::PostRecord;
use crate::entities::PostRecordView;
use crate::entities::UserRecord;
use crate::entities::UserRecordView;
use crate::json::JsonValue;

verus! {

/// The rows of `rows` from `offset`, at most `limit` of them.
pub open spec fn spec_page<T>(rows: Seq<T>, offset: int, limit: int) -> Seq<T>
    recommends
        offset >= 0,
        limit >= 0,
{
    let start = if offset > rows.len() {
        rows.len() as int
    } else {
        offset
    };
    let end = if offset + limit > rows.len() {
        rows.len() as int
    } else {
        offset + limit
    };
    rows.subrange(start, end)
}

// ---------------------------------------------------------------------------
// Users.
// ---------------------------------------------------------------------------
/// Index of the first row with the given id, or -1 where none has it.
pub open spec fn user_index_of(rows: Seq<UserRecordView>, id: i32) -> int
    decreases rows.len(),
{
    if rows.len() == 0 {
        -1
    } else if rows[0].id == id {
        0
    } else {
        let r = user_index_of(rows.subrange(1, rows.len() as int), id);
        if r < 0 {
            -1
        } else {
            r + 1
        }
    }
}

/// Whether some row bears the given id.
pub open spec fn contains_user_id(rows: Seq<UserRecordView>, id: i32) -> bool {
    exists|i: int| 0 <= i < rows.len() && (#[trigger] rows[i]).id == id
}

/// Index of the first row with the given email, or -1 where none has it.
pub open spec fn user_email_index_of(rows: Seq<UserRecordView>, email: Seq<char>) -> int
    decreases rows.len(),
{
    if rows.len() == 0 {
        -1
    } else if rows[0].email == email {
        0
    } else {
        let r = user_email_index_of(rows.subrange(1, rows.len() as int), email);
        if r < 0 {
            -1
        } else {
            r + 1
        }
    }
}

/// Whether some row bears the given email.
pub open spec fn contains_email(rows: Seq<UserRecordView>, email: Seq<char>) -> bool {
    exists|i: int| 0 <= i < rows.len() && (#[trigger] rows[i]).email == email
}

/// `user_index_of` names the first index bearing the id, and -1 only where
/// no index bears it.
pub proof fn lemma_user_index_of(rows: Seq<UserRecordView>, id: i32)
    ensures
        user_index_of(rows, id) < 0 ==> !contains_user_id(rows, id),
        user_index_of(rows, id) >= 0 ==> user_index_of(rows, id) < rows.len() && rows[user_index_of(
            rows,
            id,
        )].id == id && forall|j: int|
            0 <= j < user_index_of(rows, id) ==> (#[trigger] rows[j]).id != id,
    decreases rows.len(),
{
    if rows.len() > 0 && rows[0].id != id {
        let rest = rows.subrange(1, rows.len() as int);
        lemma_user_index_of(rest, id);
        assert(forall|j: int| 1 <= j < rows.len() ==> rest[j - 1] == #[trigger] rows[j]);
        if user_index_of(rows, id) < 0 {
            assert(forall|i: int|
                0 <= i < rows.len() ==> (#[trigger] rows[i]).id != id) by {
                assert(forall|i: int|
                    1 <= i < rows.len() ==> rows[i] == rest[i - 1] && (#[trigger] rows[i]).id
                        != id);
            }
        }
    }
}

/// Same characterization for the email index.
pub proof fn lemma_user_email_index_of(rows: Seq<UserRecordView>, email: Seq<char>)
    ensures
        user_email_index_of(rows, email) < 0 ==> !contains_email(rows, email),
        user_email_index_of(rows, email) >= 0 ==> user_email_index_of(rows, email) < rows.len()
            && rows[user_email_index_of(rows, email)].email == email && forall|j: int|
            0 <= j < user_email_index_of(rows, email) ==> (#[trigger] rows[j]).email != email,
    decreases rows.len(),
{
    if rows.len() > 0 && rows[0].email != email {
        let rest = rows.subrange(1, rows.len() as int);
        lemma_user_email_index_of(rest, email);
        assert(forall|j: int| 1 <= j < rows.len() ==> rest[j - 1] == #[trigger] rows[j]);
        if user_email_index_of(rows, email) < 0 {
            assert(forall|i: int|
                0 <= i < rows.len() ==> (#[trigger] rows[i]).email != email) by {
                assert(forall|i: int|
                    1 <= i < rows.len() ==> rows[i] == rest[i - 1] && (#[trigger] rows[i]).email
                        != email);
            }
        }
    }
}

/// The user rows, kept in ascending id order; ids are assigned from
/// `next_id`, which every present id stays below.
pub struct UserStore {
    pub rows: Vec<UserRecord>,
    pub next_id: i32,
}

impl View for UserStore {
    type V = Seq<UserRecordView>;

    open spec fn view(&self) -> Seq<UserRecordView> {
        self.rows.deep_view()
    }
}

impl UserStore {
    /// Well-formedness: ids positive, below `next_id`, strictly ascending.
    pub open spec fn wf(&self) -> bool {
        &&& 1 <= self.next_id
        &&& forall|i: int| 0 <= i < self@.len() ==> 1 <= (#[trigger] self@[i]).id < self.next_id
        &&& forall|i: int, j: int| 0 <= i < j < self@.len() ==> self@[i].id < self@[j].id
    }

    /// An empty store.
    pub fn new() -> (r: Self)
        ensures
            r.wf(),
            r@.len() == 0,
            r.next_id == 1,
    {
        let r = UserStore { rows: Vec::new(), next_id: 1 };
        proof {
            assert(r@ =~= Seq::<UserRecordView>::empty());
        }
        r
    }

    /// How many rows the store holds.
    pub fn count(&self) -> (r: u64)
        ensures
            r == self@.len(),
    {
        proof {
            assert(self@.len() == self.rows@.len());
        }
        self.rows.len() as u64
    }

    /// Position of the row with the given id, if present.
    pub fn position_of_id(&self, id: i32) -> (r: Option<usize>)
        ensures
            match r {
                Some(i) => i < self@.len() && i as int == user_index_of(self@, id)
                    && self@[i as int].id == id,
                None => !contains_user_id(self@, id),
            },
    {
        let n: usize = self.rows.len();
        for i in 0..n
            invariant
                n == self.rows.len(),
                forall|j: int| 0 <= j < i ==> (#[trigger] self@[j]).id != id,
        {
            if self.rows[i].id == id {
                proof {
                    assert(self@[i as int].id == id);
                    lemma_user_index_of(self@, id);
                    let f = user_index_of(self@, id);
                    assert(f >= 0);
                    if f < i as int {
                        assert(self@[f].id != id);
                    }
                    if f > i as int {
                        assert(self@[i as int].id != id);
                    }
                }
                return Some(i);
            }
        }
        proof {
            lemma_user_index_of(self@, id);
            if user_index_of(self@, id) >= 0 {
                assert(self@[user_index_of(self@, id)].id != id);
            }
        }
        None
    }

    /// A copy of the row with the given id, if present.
    pub fn find_by_id(&self, id: i32) -> (r: Option<UserRecord>)
        ensures
            match r {
                Some(u) => contains_user_id(self@, id) && u@ == self@[user_index_of(self@, id)],
                None => !contains_user_id(self@, id),
            },
    {
        match self.position_of_id(id) {
            Some(i) => Some(self.rows[i].clone()),
            None => None,
        }
    }

    /// A copy of the first row with the given email, if present.
    pub fn find_by_email(&self, email: &String) -> (r: Option<UserRecord>)
        ensures
            match r {
                Some(u) => contains_email(self@, email@) && u@ == self@[user_email_index_of(
                    self@,
                    email@,
                )],
                None => !contains_email(self@, email@),
            },
    {
        let n: usize = self.rows.len();
        for i in 0..n
            invariant
                n == self.rows.len(),
                forall|j: int| 0 <= j < i ==> (#[trigger] self@[j]).email != email@,
        {
            if self.rows[i].email == *email {
                proof {
                    assert(self@[i as int].email == email@);
                    lemma_user_email_index_of(self@, email@);
                    let f = user_email_index_of(self@, email@);
                    assert(f >= 0);
                    if f < i as int {
                        assert(self@[f].email != email@);
                    }
                    if f > i as int {
                        assert(self@[i as int].email != email@);
                    }
                    assert(f == i as int);
                }
                return Some(self.rows[i].clone());
            }
        }
        proof {
            lemma_user_email_index_of(self@, email@);
            if user_email_index_of(self@, email@) >= 0 {
                assert(self@[user_email_index_of(self@, email@)].email != email@);
            }
        }
        None
    }

    /// Inserts a new row, assigning it the next id.
    pub fn insert(&mut self, username: String, email: String, created_at: i64) -> (r: UserRecord)
        requires
            old(self).wf(),
            old(self).next_id < i32::MAX,
        ensures
            final(self).wf(),
            r@.id == old(self).next_id,
            r@.username == username@,
            r@.email == email@,
            r@.created_at == created_at,
            final(self)@ == old(self)@.push(r@),
            final(self).next_id == old(self).next_id + 1,
    {
        let row = UserRecord { id: self.next_id, username, email, created_at };
        let r = row.clone();
        self.rows.push(row);
        self.next_id = self.next_id + 1;
        proof {
            assert(self@ =~= old(self)@.push(r@));
        }
        r
    }

    /// Replaces the row at a position with one bearing the same id.
    pub fn set_row(&mut self, i: usize, row: UserRecord)
        requires
            old(self).wf(),
            i < old(self)@.len(),
            row@.id == old(self)@[i as int].id,
        ensures
            final(self).wf(),
            final(self)@ == old(self)@.update(i as int, row@),
            final(self).next_id == old(self).next_id,
    {
        self.rows[i] = row;
        proof {
            assert(self@ =~= old(self)@.update(i as int, self@[i as int]));
        }
    }

    /// Deletes the row with the given id; reports whether a row went away.
    pub fn delete(&mut self, id: i32) -> (r: bool)
        requires
            old(self).wf(),
        ensures
            final(self).wf(),
            final(self).next_id == old(self).next_id,
            r == contains_user_id(old(self)@, id),
            r ==> final(self)@ == old(self)@.remove(user_index_of(old(self)@, id)),
            !r ==> final(self)@ == old(self)@,
    {
        match self.position_of_id(id) {
            Some(i) => {
                self.rows.remove(i);
                proof {
                    assert(self@ =~= old(self)@.remove(i as int));
                }
                true
            },
            None => {
                proof {
                    assert(self@ =~= old(self)@);
                }
                false
            },
        }
    }

    /// Copies the requested page of rows, in store (ascending id) order.
    pub fn page(&self, offset: u64, limit: u64) -> (r: Vec<UserRecord>)
        ensures
            r.deep_view() == spec_page(self@, offset as int, limit as int),
    {
        let n: usize = self.rows.len();
        let start: usize = if offset > n as u64 {
            n
        } else {
            offset as usize
        };
        let remaining: usize = n - start;
        let take: usize = if limit > remaining as u64 {
            remaining
        } else {
            limit as usize
        };
        let mut out: Vec<UserRecord> = Vec::new();
        for k in 0..take
            invariant
                n == self.rows.len(),
                start + take <= n,
                out.len() == k,
                forall|j: int| 0 <= j < k ==> out@[j]@ == self.rows@[start + j]@,
        {
            out.push(self.rows[start + k].clone());
        }
        proof {
            assert(out.deep_view() =~= spec_page(self@, offset as int, limit as int));
        }
        out
    }
}

// ---------------------------------------------------------------------------
// Posts.
// ---------------------------------------------------------------------------
/// Index of the first post row with the given id, or -1 where none has it.
pub open spec fn post_index_of(rows: Seq<PostRecordView>, id: i32) -> int
    decreases rows.len(),
{
    if rows.len() == 0 {
        -1
    } else if rows[0].id == id {
        0
    } else {
        let r = post_index_of(rows.subrange(1, rows.len() as int), id);
        if r < 0 {
            -1
        } else {
            r + 1
        }
    }
}

/// Whether some post row bears the given id.
pub open spec fn contains_post_id(rows: Seq<PostRecordView>, id: i32) -> bool {
    exists|i: int| 0 <= i < rows.len() && (#[trigger] rows[i]).id == id
}

/// `post_index_of` names the first index bearing the id, and -1 only where
/// no index bears it.
pub proof fn lemma_post_index_of(rows: Seq<PostRecordView>, id: i32)
    ensures
        post_index_of(rows, id) < 0 ==> !contains_post_id(rows, id),
        post_index_of(rows, id) >= 0 ==> post_index_of(rows, id) < rows.len() && rows[post_index_of(
            rows,
            id,
        )].id == id && forall|j: int|
            0 <= j < post_index_of(rows, id) ==> (#[trigger] rows[j]).id != id,
    decreases rows.len(),
{
    if rows.len() > 0 && rows[0].id != id {
        let rest = rows.subrange(1, rows.len() as int);
        lemma_post_index_of(rest, id);
        assert(forall|j: int| 1 <= j < rows.len() ==> rest[j - 1] == #[trigger] rows[j]);
        if post_index_of(rows, id) < 0 {
            assert(forall|i: int|
                0 <= i < rows.len() ==> (#[trigger] rows[i]).id != id) by {
                assert(forall|i: int|
                    1 <= i < rows.len() ==> rows[i] == rest[i - 1] && (#[trigger] rows[i]).id
                        != id);
            }
        }
    }
}

/// The published rows of `rows`, most recently inserted first.
pub open spec fn published_posts(rows: Seq<PostRecordView>) -> Seq<PostRecordView>
    decreases rows.len(),
{
    if rows.len() == 0 {
        Seq::empty()
    } else if rows.last().published {
        seq![rows.last()] + published_posts(rows.drop_last())
    } else {
        published_posts(rows.drop_last())
    }
}

/// The rows of `rows` by the given author, most recently inserted first.
pub open spec fn authored_posts(rows: Seq<PostRecordView>, author_id: i32) -> Seq<PostRecordView>
    decreases rows.len(),
{
    if rows.len() == 0 {
        Seq::empty()
    } else if rows.last().author_id == author_id {
        seq![rows.last()] + authored_posts(rows.drop_last(), author_id)
    } else {
        authored_posts(rows.drop_last(), author_id)
    }
}

/// The post rows, kept in insertion (ascending id) order; ids are assigned
/// from `next_id`.
pub struct PostStore {
    pub rows: Vec<PostRecord>,
    pub next_id: i32,
}

impl View for PostStore {
    type V = Seq<PostRecordView>;

    open spec fn view(&self) -> Seq<PostRecordView> {
        self.rows.deep_view()
    }
}

impl PostStore {
    /// Well-formedness: ids positive, below `next_id`, strictly ascending.
    pub open spec fn wf(&self) -> bool {
        &&& 1 <= self.next_id
        &&& forall|i: int| 0 <= i < self@.len() ==> 1 <= (#[trigger] self@[i]).id < self.next_id
        &&& forall|i: int, j: int| 0 <= i < j < self@.len() ==> self@[i].id < self@[j].id
    }

    /// An empty store.
    pub fn new() -> (r: Self)
        ensures
            r.wf(),
            r@.len() == 0,
            r.next_id == 1,
    {
        let r = PostStore { rows: Vec::new(), next_id: 1 };
        proof {
            assert(r@ =~= Seq::<PostRecordView>::empty());
        }
        r
    }

    /// How many rows the store holds.
    pub fn count(&self) -> (r: u64)
        ensures
            r == self@.len(),
    {
        proof {
            assert(self@.len() == self.rows@.len());
        }
        self.rows.len() as u64
    }

    /// Position of the row with the given id, if present.
    pub fn position_of_id(&self, id: i32) -> (r: Option<usize>)
        ensures
            match r {
                Some(i) => i < self@.len() && i as int == post_index_of(self@, id)
                    && self@[i as int].id == id,
                None => !contains_post_id(self@, id),
            },
    {
        let n: usize = self.rows.len();
        for i in 0..n
            invariant
                n == self.rows.len(),
                forall|j: int| 0 <= j < i ==> (#[trigger] self@[j]).id != id,
        {
            if self.rows[i].id == id {
                proof {
                    assert(self@[i as int].id == id);
                    lemma_post_index_of(self@, id);
                    let f = post_index_of(self@, id);
                    assert(f >= 0);
                    if f < i as int {
                        assert(self@[f].id != id);
                    }
                    if f > i as int {
                        assert(self@[i as int].id != id);
                    }
                }
                return Some(i);
            }
        }
        proof {
            lemma_post_index_of(self@, id);
            if post_index_of(self@, id) >= 0 {
                assert(self@[post_index_of(self@, id)].id != id);
            }
        }
        None
    }

    /// A copy of the row with the given id, if present.
    pub fn find_by_id(&self, id: i32) -> (r: Option<PostRecord>)
        ensures
            match r {
                Some(p) => contains_post_id(self@, id) && p@ == self@[post_index_of(self@, id)],
                None => !contains_post_id(self@, id),
            },
    {
        match self.position_of_id(id) {
            Some(i) => Some(self.rows[i].clone()),
            None => None,
        }
    }

    /// Inserts a new row, assigning it the next id; the row starts without
    /// an update time.
    pub fn insert(
        &mut self,
        title: String,
        content: String,
        author_id: i32,
        metadata: JsonValue,
        published: bool,
        created_at: i64,
    ) -> (r: PostRecord)
        requires
            old(self).wf(),
            old(self).next_id < i32::MAX,
        ensures
            final(self).wf(),
            r@.id == old(self).next_id,
            r@.title == title@,
            r@.content == content@,
            r@.author_id == author_id,
            r@.metadata == metadata@,
            r@.published == published,
            r@.created_at == created_at,
            r@.updated_at is None,
            final(self)@ == old(self)@.push(r@),
            final(self).next_id == old(self).next_id + 1,
    {
        let row = PostRecord {
            id: self.next_id,
            title,
            content,
            author_id,
            metadata,
            published,
            created_at,
            updated_at: None,
        };
        let r = row.clone();
        self.rows.push(row);
        self.next_id = self.next_id + 1;
        proof {
            assert(self@ =~= old(self)@.push(r@));
        }
        r
    }

    /// Replaces the row at a position with one bearing the same id.
    pub fn set_row(&mut self, i: usize, row: PostRecord)
        requires
            old(self).wf(),
            i < old(self)@.len(),
            row@.id == old(self)@[i as int].id,
        ensures
            final(self).wf(),
            final(self)@ == old(self)@.update(i as int, row@),
            final(self).next_id == old(self).next_id,
    {
        self.rows[i] = row;
        proof {
            assert(self@ =~= old(self)@.update(i as int, self@[i as int]));
        }
    }

    /// Deletes the row with the given id; reports whether a row went away.
    pub fn delete(&mut self, id: i32) -> (r: bool)
        requires
            old(self).wf(),
        ensures
            final(self).wf(),
            final(self).next_id == old(self).next_id,
            r == contains_post_id(old(self)@, id),
            r ==> final(self)@ == old(self)@.remove(post_index_of(old(self)@, id)),
            !r ==> final(self)@ == old(self)@,
    {
        match self.position_of_id(id) {
            Some(i) => {
                self.rows.remove(i);
                proof {
                    assert(self@ =~= old(self)@.remove(i as int));
                }
                true
            },
            None => {
                proof {
                    assert(self@ =~= old(self)@);
                }
                false
            },
        }
    }

    /// Copies the requested page of rows, most recently inserted first.
    pub fn page_desc(&self, offset: u64, limit: u64) -> (r: Vec<PostRecord>)
        ensures
            r.deep_view() == spec_page(self@.reverse(), offset as int, limit as int),
    {
        let n: usize = self.rows.len();
        let start: usize = if offset > n as u64 {
            n
        } else {
            offset as usize
        };
        let remaining: usize = n - start;
        let take: usize = if limit > remaining as u64 {
            remaining
        } else {
            limit as usize
        };
        let mut out: Vec<PostRecord> = Vec::new();
        for k in 0..take
            invariant
                n == self.rows.len(),
                start + take <= n,
                out.len() == k,
                forall|j: int| 0 <= j < k ==> out@[j]@ == self.rows@[n - 1 - start - j]@,
        {
            out.push(self.rows[n - 1 - start - k].clone());
        }
        proof {
            assert(out.deep_view() =~= spec_page(
                self@.reverse(),
                offset as int,
                limit as int,
            ));
        }
        out
    }

    /// Copies the rows of one author, most recently inserted first.
    pub fn by_author(&self, author_id: i32) -> (r: Vec<PostRecord>)
        ensures
            r.deep_view() == authored_posts(self@, author_id),
    {
        let mut out: Vec<PostRecord> = Vec::new();
        let n: usize = self.rows.len();
        proof {
            assert(self@.subrange(n as int, n as int) =~= Seq::<PostRecordView>::empty());
            assert(out.deep_view() =~= authored_posts(self@.subrange(n as int, n as int), author_id));
        }
        let mut i: usize = n;
        while i > 0
            invariant
                n == self.rows.len(),
                i <= n,
                out.deep_view() == authored_posts(self@.subrange(i as int, n as int), author_id),
            decreases i,
        {
            i = i - 1;
            let ghost sub = self@.subrange(i as int, n as int);
            proof {
                lemma_authored_posts_step(sub, author_id);
                assert(sub.subrange(1, sub.len() as int) =~= self@.subrange(i + 1, n as int));
                assert(sub[0] == self@[i as int]);
            }
            if self.rows[i].author_id == author_id {
                out.push(self.rows[i].clone());
            }
            proof {
                assert(out.deep_view() =~= authored_posts(sub, author_id));
            }
        }
        proof {
            assert(self@.subrange(0, n as int) =~= self@);
        }
        out
    }

    /// Copies the published rows, most recently inserted first.
    pub fn published_desc(&self) -> (r: Vec<PostRecord>)
        ensures
            r.deep_view() == published_posts(self@),
    {
        let mut out: Vec<PostRecord> = Vec::new();
        let n: usize = self.rows.len();
        proof {
            assert(self@.subrange(n as int, n as int) =~= Seq::<PostRecordView>::empty());
            assert(out.deep_view() =~= published_posts(self@.subrange(n as int, n as int)));
        }
        let mut i: usize = n;
        while i > 0
            invariant
                n == self.rows.len(),
                i <= n,
                out.deep_view() == published_posts(self@.subrange(i as int, n as int)),
            decreases i,
        {
            i = i - 1;
            let ghost sub = self@.subrange(i as int, n as int);
            proof {
                lemma_published_posts_step(sub);
                assert(sub.subrange(1, sub.len() as int) =~= self@.subrange(i + 1, n as int));
                assert(sub[0] == self@[i as int]);
            }
            if self.rows[i].published {
                out.push(self.rows[i].clone());
            }
            proof {
                assert(out.deep_view() =~= published_posts(sub));
            }
        }
        proof {
            assert(self@.subrange(0, n as int) =~= self@);
        }
        out
    }
}

/// Copies the requested page out of an already-ordered row list.
pub fn page_of_posts(rows: &Vec<PostRecord>, offset: u64, limit: u64) -> (r: Vec<PostRecord>)
    ensures
        r.deep_view() == spec_page(rows.deep_view(), offset as int, limit as int),
{
    let n: usize = rows.len();
    let start: usize = if offset > n as u64 {
        n
    } else {
        offset as usize
    };
    let remaining: usize = n - start;
    let take: usize = if limit > remaining as u64 {
        remaining
    } else {
        limit as usize
    };
    let mut out: Vec<PostRecord> = Vec::new();
    for k in 0..take
        invariant
            n == rows.len(),
            start + take <= n,
            out.len() == k,
            forall|j: int| 0 <= j < k ==> out@[j]@ == rows@[start + j]@,
    {
        out.push(rows[start + k].clone());
    }
    proof {
        assert(out.deep_view() =~= spec_page(rows.deep_view(), offset as int, limit as int));
    }
    out
}

/// Peeling `authored_posts` from the front: the first row contributes at the
/// end of the result.
proof fn lemma_authored_posts_step(rows: Seq<PostRecordView>, author_id: i32)
    requires
        rows.len() > 0,
    ensures
        authored_posts(rows, author_id) == authored_posts(
            rows.subrange(1, rows.len() as int),
            author_id,
        ) + (if rows[0].author_id == author_id {
            seq![rows[0]]
        } else {
            Seq::<PostRecordView>::empty()
        }),
    decreases rows.len(),
{
    let head = if rows[0].author_id == author_id {
        seq![rows[0]]
    } else {
        Seq::<PostRecordView>::empty()
    };
    let rest = rows.subrange(1, rows.len() as int);
    if rows.len() == 1 {
        assert(rows.last() == rows[0]);
        assert(rows.drop_last().len() == 0);
        assert(rest.len() == 0);
        assert(authored_posts(rows.drop_last(), author_id) =~= Seq::<PostRecordView>::empty());
        assert(authored_posts(rest, author_id) =~= Seq::<PostRecordView>::empty());
        assert(authored_posts(rows, author_id) =~= authored_posts(rest, author_id) + head);
    } else {
        let body = rows.drop_last();
        lemma_authored_posts_step(body, author_id);
        assert(body[0] == rows[0]);
        assert(body.subrange(1, body.len() as int) =~= rest.drop_last());
        assert(rest.last() == rows.last());
        let tail = if rows.last().author_id == author_id {
            seq![rows.last()]
        } else {
            Seq::<PostRecordView>::empty()
        };
        assert(authored_posts(rows, author_id) =~= tail + authored_posts(body, author_id));
        assert(authored_posts(body, author_id) == authored_posts(rest.drop_last(), author_id)
            + head);
        assert(authored_posts(rest, author_id) =~= tail + authored_posts(
            rest.drop_last(),
            author_id,
        ));
        assert(authored_posts(rows, author_id) =~= authored_posts(rest, author_id) + head);
    }
}

/// Peeling `published_posts` from the front: the first row contributes at
/// the end of the result.
proof fn lemma_published_posts_step(rows: Seq<PostRecordView>)
    requires
        rows.len() > 0,
    ensures
        published_posts(rows) == published_posts(rows.subrange(1, rows.len() as int)) + (if rows[0]
            .published {
            seq![rows[0]]
        } else {
            Seq::<PostRecordView>::empty()
        }),
    decreases rows.len(),
{
    let head = if rows[0].published {
        seq![rows[0]]
    } else {
        Seq::<PostRecordView>::empty()
    };
    let rest = rows.subrange(1, rows.len() as int);
    if rows.len() == 1 {
        assert(rows.last() == rows[0]);
        assert(rows.drop_last().len() == 0);
        assert(rest.len() == 0);
        assert(published_posts(rows.drop_last()) =~= Seq::<PostRecordView>::empty());
        assert(published_posts(rest) =~= Seq::<PostRecordView>::empty());
        assert(published_posts(rows) =~= published_posts(rest) + head);
    } else {
        let body = rows.drop_last();
        lemma_published_posts_step(body);
        assert(body[0] == rows[0]);
        assert(body.subrange(1, body.len() as int) =~= rest.drop_last());
        assert(rest.last() == rows.last());
        let tail = if rows.last().published {
            seq![rows.last()]
        } else {
            Seq::<PostRecordView>::empty()
        };
        assert(published_posts(rows) =~= tail + published_posts(body));
        assert(published_posts(body) == published_posts(rest.drop_last()) + head);
        assert(published_posts(rest) =~= tail + published_posts(rest.drop_last()));
        assert(published_posts(rows) =~= published_posts(rest) + head);
    }
}

} // verus!
