//! Resolvers that read users.

use vstd::prelude::*;
use super::models::{User, UserView};
use crate::graphql::error::{fails_with, graphql_error, GraphQLErrorType};
use crate::utils::text::{byte_len, utf8_len};

verus! {

/// Least length, in bytes, of a search keyword.
pub const MIN_KEYWORD_BYTES: usize = 2;

/// Message of the failure for an identifier that is not positive.
pub open spec fn id_message() -> Seq<char> {
    "用户ID必须为正整数"@
}

/// Message of the failure for a search keyword that is too short.
pub open spec fn keyword_message() -> Seq<char> {
    "搜索关键词至少需要2个字符"@
}

/// The users that [`UserQuery::users`] lists.
pub open spec fn all_users() -> Seq<UserView> {
    seq![UserView { id: 1, name: "Alice"@ }, UserView { id: 2, name: "Bob"@ }]
}

/// The user found for a positive identifier.
pub open spec fn found_user(id: i32) -> UserView {
    UserView { id, name: "Test User"@ }
}

/// The users found for a search keyword: one, with the keyword in its name.
pub open spec fn search_result(name_contains: Seq<char>) -> Seq<UserView> {
    seq![UserView { id: 1, name: "User with "@ + name_contains }]
}

/// `r` succeeded with exactly the users `users`, in that order.
pub open spec fn yields_users(
    r: Result<Vec<User>, async_graphql::Error>,
    users: Seq<UserView>,
) -> bool {
    r matches Ok(found) && found.deep_view() == users
}

/// Resolvers that read users.
#[derive(Debug, Default, Clone, Copy, PartialEq, Eq, Structural)]
pub struct UserQuery;

impl UserQuery {
    /// Lists all users. Never fails.
    pub fn users(&self) -> (r: Result<Vec<User>, async_graphql::Error>)
        ensures
            yields_users(r, all_users()),
    {
        let mut users: Vec<User> = Vec::new();
        users.push(User { id: 1, name: "Alice".to_string() });
        users.push(User { id: 2, name: "Bob".to_string() });
        assert(users.deep_view() =~= all_users());
        Ok(users)
    }

    /// Looks up the user with identifier `id`.
    ///
    /// Fails with a validation failure exactly when `id` is not positive;
    /// otherwise a user is always found.
    pub fn user(&self, id: i32) -> (r: Result<Option<User>, async_graphql::Error>)
        ensures
            id <= 0 ==> fails_with(r, GraphQLErrorType::Validation, id_message()),
            id > 0 ==> (r matches Ok(Some(u)) && u@ == found_user(id)),
    {
        if id <= 0 {
            return Err(graphql_error(GraphQLErrorType::Validation, "用户ID必须为正整数"));
        }
        Ok(Some(User { id, name: "Test User".to_string() }))
    }

    /// Searches users by a part of their name.
    ///
    /// Fails with a validation failure exactly when the keyword takes fewer
    /// than [`MIN_KEYWORD_BYTES`] bytes in UTF-8.
    pub fn search_users(&self, name_contains: String) -> (r: Result<
        Vec<User>,
        async_graphql::Error,
    >)
        ensures
            utf8_len(name_contains@) < MIN_KEYWORD_BYTES ==> fails_with(
                r,
                GraphQLErrorType::Validation,
                keyword_message(),
            ),
            utf8_len(name_contains@) >= MIN_KEYWORD_BYTES ==> yields_users(
                r,
                search_result(name_contains@),
            ),
    {
        if byte_len(name_contains.as_str()) < MIN_KEYWORD_BYTES {
            return Err(graphql_error(GraphQLErrorType::Validation, "搜索关键词至少需要2个字符"));
        }
        let mut name = "User with ".to_string();
        name.append(name_contains.as_str());
        let mut users: Vec<User> = Vec::new();
        users.push(User { id: 1, name });
        assert(users.deep_view() =~= search_result(name_contains@));
        Ok(users)
    }
}

} // verus!
