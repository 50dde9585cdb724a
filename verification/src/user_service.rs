//! The user service: paginated listing, lookup, creation with an email
//! uniqueness check, partial update, and deletion, over the user row store.

use vstd::prelude::*;

use crate::clock::now_epoch_seconds;
use crate::dto_user::CreateUserDto;
use crate::dto_user::UpdateUserDto;
use crate::dto_user::UpdateUserView;
use crate::entities::UserRecord;
use crate::entities::UserRecordView;
use crate::error::ServiceError;
use crate::error::ServiceErrorView;
use crate::pagination::PaginationQuery;
use crate::store::UserStore;
use crate::store::contains_email;
use crate::store::contains_user_id;
use crate::store::spec_page;
use crate::store::user_index_of;

verus! {

/// One page of user rows, with the collection's total row count.
pub struct PaginatedUsers {
    pub users: Vec<UserRecord>,
    pub total: u64,
}

/// The row a user-update request leaves in place of the current one: each
/// present field replaces the stored value, each absent field leaves it
/// untouched; id and creation time never change.
pub open spec fn apply_user_update(cur: UserRecordView, d: UpdateUserView) -> UserRecordView {
    UserRecordView {
        id: cur.id,
        username: match d.username {
            Some(n) => n,
            None => cur.username,
        },
        email: match d.email {
            Some(e) => e,
            None => cur.email,
        },
        created_at: cur.created_at,
    }
}

/// Whether an update asks for an email that differs from the current one
/// and is already taken by some row.
pub open spec fn email_conflict_on_update(
    rows: Seq<UserRecordView>,
    cur: UserRecordView,
    d: UpdateUserView,
) -> bool {
    match d.email {
        Some(e) => e != cur.email && contains_email(rows, e),
        None => false,
    }
}

/// Business logic for user management, over the user row store.
pub struct UserService {
    pub store: UserStore,
}

impl UserService {
    /// A service over the given store.
    pub fn new(store: UserStore) -> (r: Self)
        ensures
            r.store == store,
    {
        UserService { store }
    }

    /// The service invariant: its store is well-formed.
    pub open spec fn wf(&self) -> bool {
        self.store.wf()
    }

    /// Lists one page of users, in ascending id order, with the total count.
    pub fn find_all(&self, pagination: &PaginationQuery) -> (r: Result<
        PaginatedUsers,
        ServiceError,
    >)
        requires
            pagination.spec_offset() <= u64::MAX,
        ensures
            r matches Ok(p) && p.total == self.store@.len() && p.users.deep_view() == spec_page(
                self.store@,
                pagination.spec_offset(),
                pagination.per_page as int,
            ),
    {
        let total = self.store.count();
        let users = self.store.page(pagination.offset(), pagination.limit());
        Ok(PaginatedUsers { users, total })
    }

    /// The user with the given id, or not-found.
    pub fn find_by_id(&self, id: i32) -> (r: Result<UserRecord, ServiceError>)
        ensures
            match r {
                Ok(u) => contains_user_id(self.store@, id)
                    && u@ == self.store@[user_index_of(self.store@, id)],
                Err(e) => !contains_user_id(self.store@, id) && e@ == ServiceErrorView::NotFound,
            },
    {
        match self.store.find_by_id(id) {
            Some(u) => Ok(u),
            None => Err(ServiceError::NotFound),
        }
    }

    /// Creates a user at the given time: the new row carries the request's
    /// fields and the next id, unless the email is already taken, in which
    /// case nothing changes and the duplicate is reported.
    pub fn create_at(&mut self, dto: CreateUserDto, now: i64) -> (r: Result<
        UserRecord,
        ServiceError,
    >)
        requires
            old(self).wf(),
            old(self).store.next_id < i32::MAX,
        ensures
            final(self).wf(),
            match r {
                Ok(u) => !contains_email(old(self).store@, dto@.email)
                    && u@.id == old(self).store.next_id && u@.username == dto@.username
                    && u@.email == dto@.email && u@.created_at == now
                    && final(self).store@ == old(self).store@.push(u@)
                    && final(self).store.next_id == old(self).store.next_id + 1,
                Err(e) => contains_email(old(self).store@, dto@.email) && e@
                    == ServiceErrorView::AlreadyExists("Email already exists"@) && *final(self)
                    == *old(self),
            },
    {
        match self.store.find_by_email(&dto.email) {
            Some(_) => Err(ServiceError::AlreadyExists("Email already exists".to_owned())),
            None => Ok(self.store.insert(dto.username, dto.email, now)),
        }
    }

    /// Creates a user, stamping the creation time from the clock.
    pub fn create(&mut self, dto: CreateUserDto) -> (r: Result<UserRecord, ServiceError>)
        requires
            old(self).wf(),
            old(self).store.next_id < i32::MAX,
        ensures
            final(self).wf(),
            match r {
                Ok(u) => !contains_email(old(self).store@, dto@.email)
                    && u@.id == old(self).store.next_id && u@.username == dto@.username
                    && u@.email == dto@.email
                    && final(self).store@ == old(self).store@.push(u@)
                    && final(self).store.next_id == old(self).store.next_id + 1,
                Err(e) => contains_email(old(self).store@, dto@.email) && e@
                    == ServiceErrorView::AlreadyExists("Email already exists"@) && *final(self)
                    == *old(self),
            },
    {
        let now = now_epoch_seconds();
        self.create_at(dto, now)
    }

    /// Updates a user: each present field replaces the stored value. A
    /// missing row answers not-found; an email that differs from the current
    /// one and is already taken answers a duplicate; either way nothing
    /// changes.
    pub fn update(&mut self, id: i32, dto: UpdateUserDto) -> (r: Result<UserRecord, ServiceError>)
        requires
            old(self).wf(),
        ensures
            final(self).wf(),
            ({
                let rows = old(self).store@;
                let idx = user_index_of(rows, id);
                match r {
                    Ok(u) => contains_user_id(rows, id) && !email_conflict_on_update(
                        rows,
                        rows[idx],
                        dto@,
                    ) && u@ == apply_user_update(rows[idx], dto@)
                        && final(self).store@ == rows.update(idx, u@)
                        && final(self).store.next_id == old(self).store.next_id,
                    Err(e) => *final(self) == *old(self) && match e@ {
                        ServiceErrorView::NotFound => !contains_user_id(rows, id),
                        ServiceErrorView::AlreadyExists(d) => contains_user_id(rows, id)
                            && email_conflict_on_update(rows, rows[idx], dto@) && d
                            == "Email already exists"@,
                        ServiceErrorView::Database(_) => false,
                    },
                }
            }),
    {
        let idx: usize = match self.store.position_of_id(id) {
            Some(i) => i,
            None => {
                return Err(ServiceError::NotFound);
            },
        };
        let cur = self.store.rows[idx].clone();
        proof {
            assert(cur@ == self.store@[idx as int]);
        }
        match &dto.email {
            Some(e) => {
                if !(*e == cur.email) {
                    match self.store.find_by_email(e) {
                        Some(_) => {
                            return Err(
                                ServiceError::AlreadyExists("Email already exists".to_owned()),
                            );
                        },
                        None => {},
                    }
                }
            },
            None => {},
        }
        let row = UserRecord {
            id: cur.id,
            username: match dto.username {
                Some(n) => n,
                None => cur.username,
            },
            email: match dto.email {
                Some(e) => e,
                None => cur.email,
            },
            created_at: cur.created_at,
        };
        let result = row.clone();
        self.store.set_row(idx, row);
        Ok(result)
    }

    /// Deletes the user with the given id, or answers not-found.
    pub fn delete(&mut self, id: i32) -> (r: Result<(), ServiceError>)
        requires
            old(self).wf(),
        ensures
            final(self).wf(),
            match r {
                Ok(_) => contains_user_id(old(self).store@, id)
                    && final(self).store@ == old(self).store@.remove(
                    user_index_of(old(self).store@, id),
                ) && final(self).store.next_id == old(self).store.next_id,
                Err(e) => !contains_user_id(old(self).store@, id) && e@
                    == ServiceErrorView::NotFound && final(self).store@ == old(self).store@
                    && final(self).store.next_id == old(self).store.next_id,
            },
    {
        if self.store.delete(id) {
            Ok(())
        } else {
            Err(ServiceError::NotFound)
        }
    }
}

/// Uniqueness across two creations: once a row carrying an email stands in
/// the store, a later creation sees that email as taken, whatever else was
/// stored around it.
pub proof fn lemma_created_email_is_taken(rows: Seq<UserRecordView>, created: UserRecordView)
    ensures
        contains_email(rows.push(created), created.email),
{
    assert(rows.push(created)[rows.len() as int] == created);
}

} // verus!
