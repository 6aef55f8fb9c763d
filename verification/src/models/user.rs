//! The user record of the REST surface and the requests that concern it.

use vstd::prelude::*;
use super::common::{opt_text, BaseUser, BaseUserView, UserBase};

verus! {

/// A user as the REST surface shows it.
#[derive(Debug, Clone, PartialEq, Eq)]
pub struct User {
    /// Unique identifier, assigned by the server.
    pub id: Option<u64>,
    /// Login name.
    pub username: String,
    /// E-mail address.
    pub email: String,
    /// Time of creation, ISO 8601.
    pub created_at: Option<String>,
    /// Time of the last change, ISO 8601.
    pub updated_at: Option<String>,
}

/// Mathematical content of a [`User`].
pub struct UserView {
    pub id: Option<u64>,
    pub username: Seq<char>,
    pub email: Seq<char>,
    pub created_at: Option<Seq<char>>,
    pub updated_at: Option<Seq<char>>,
}

impl View for User {
    type V = UserView;

    open spec fn view(&self) -> UserView {
        UserView {
            id: self.id,
            username: self.username@,
            email: self.email@,
            created_at: opt_text(self.created_at),
            updated_at: opt_text(self.updated_at),
        }
    }
}

impl DeepView for User {
    type V = UserView;

    open spec fn deep_view(&self) -> UserView {
        self.view()
    }
}

impl UserBase for User {
    open spec fn base_id(&self) -> Option<u64> {
        self.id
    }

    open spec fn base_name(&self) -> Seq<char> {
        self.username@
    }

    fn id(&self) -> (r: Option<u64>) {
        self.id
    }

    fn name(&self) -> (r: &str) {
        self.username.as_str()
    }
}

/// What a [`User`] made from a [`BaseUser`] holds: the identity of the base,
/// an empty e-mail address and no timestamps.
pub open spec fn user_of_base(base: BaseUserView) -> UserView {
    UserView {
        id: base.id,
        username: base.name,
        email: Seq::empty(),
        created_at: None,
        updated_at: None,
    }
}

impl vstd::std_specs::convert::FromSpecImpl<BaseUser> for User {
    /// The conversion is stated on `from` itself, over the content of the
    /// result: no specification function can name the empty `String` that
    /// the result holds.
    open spec fn obeys_from_spec() -> bool {
        false
    }

    open spec fn from_spec(base: BaseUser) -> User {
        choose|u: User| u@ == user_of_base(base@)
    }
}

impl From<BaseUser> for User {
    /// A user with the identity of `base`; the caller fills in the rest.
    fn from(base: BaseUser) -> (r: User)
        ensures
            r@ == user_of_base(base@),
    {
        User {
            id: base.id,
            username: base.name,
            email: String::new(),
            created_at: None,
            updated_at: None,
        }
    }
}

/// Body of a request to create a user.
#[derive(Debug, Clone, PartialEq, Eq)]
pub struct CreateUserRequest {
    /// Login name.
    pub username: String,
    /// E-mail address.
    pub email: String,
    /// Password.
    pub password: String,
}

/// Body of a request to change a user. Absent fields stay as they are.
#[derive(Debug, Clone, PartialEq, Eq)]
pub struct UpdateUserRequest {
    /// New e-mail address.
    pub email: Option<String>,
    /// New password.
    pub password: Option<String>,
}

/// Filter and page selection of a user list query.
#[derive(Debug, Clone, PartialEq, Eq)]
pub struct UserQuery {
    /// Keep users whose login name contains this text.
    pub username: Option<String>,
    /// Keep users whose e-mail address contains this text.
    pub email: Option<String>,
    /// Page number, starting at 1.
    pub page: u32,
    /// Number of records per page.
    pub page_size: u32,
}

/// Page number used when a query names none.
pub fn default_page() -> (r: u32)
    ensures
        r == 1,
{
    1
}

/// Page length used when a query names none.
pub fn default_page_size() -> (r: u32)
    ensures
        r == 10,
{
    10
}

/// One page of a user list.
#[derive(Debug, Clone, PartialEq, Eq)]
pub struct UserListResponse {
    /// The users on this page.
    pub users: Vec<User>,
    /// Number of users in the whole directory.
    pub total: u64,
    /// The page shown.
    pub page: u32,
    /// The page length asked for.
    pub page_size: u32,
}

/// Mathematical content of a [`UserListResponse`].
pub struct UserListView {
    pub users: Seq<UserView>,
    pub total: u64,
    pub page: u32,
    pub page_size: u32,
}

impl View for UserListResponse {
    type V = UserListView;

    open spec fn view(&self) -> UserListView {
        UserListView {
            users: self.users.deep_view(),
            total: self.total,
            page: self.page,
            page_size: self.page_size,
        }
    }
}

} // verus!
