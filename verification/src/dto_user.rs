//! Request and response shapes for users.

use vstd::prelude::*;

use crate::entities::UserRecord;

verus! {

/// The body of a user-creation request.
pub struct CreateUserDto {
    pub username: String,
    pub email: String,
}

/// Mathematical view of a [`CreateUserDto`].
pub ghost struct CreateUserView {
    pub username: Seq<char>,
    pub email: Seq<char>,
}

impl View for CreateUserDto {
    type V = CreateUserView;

    open spec fn view(&self) -> CreateUserView {
        CreateUserView { username: self.username@, email: self.email@ }
    }
}

/// The body of a user-update request; absent fields leave the stored value
/// untouched.
pub struct UpdateUserDto {
    pub username: Option<String>,
    pub email: Option<String>,
}

/// Mathematical view of an [`UpdateUserDto`].
pub ghost struct UpdateUserView {
    pub username: Option<Seq<char>>,
    pub email: Option<Seq<char>>,
}

impl View for UpdateUserDto {
    type V = UpdateUserView;

    open spec fn view(&self) -> UpdateUserView {
        UpdateUserView { username: self.username.deep_view(), email: self.email.deep_view() }
    }
}

/// A user as returned to the caller.
pub struct UserResponse {
    pub id: i32,
    pub username: String,
    pub email: String,
    /// Creation time, seconds since the Unix epoch.
    pub created_at: i64,
}

/// Mathematical view of a [`UserResponse`].
pub ghost struct UserResponseView {
    pub id: i32,
    pub username: Seq<char>,
    pub email: Seq<char>,
    pub created_at: i64,
}

impl View for UserResponse {
    type V = UserResponseView;

    open spec fn view(&self) -> UserResponseView {
        UserResponseView {
            id: self.id,
            username: self.username@,
            email: self.email@,
            created_at: self.created_at,
        }
    }
}

impl UserResponse {
    /// The response shape of a stored user row: the same four fields.
    pub fn from_user(u: &UserRecord) -> (r: UserResponse)
        ensures
            r@.id == u@.id,
            r@.username == u@.username,
            r@.email == u@.email,
            r@.created_at == u@.created_at,
    {
        UserResponse {
            id: u.id,
            username: u.username.clone(),
            email: u.email.clone(),
            created_at: u.created_at,
        }
    }
}

} // verus!
