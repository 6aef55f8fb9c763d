//! Resolvers that change users.

use vstd::prelude::*;
use super::models::{User, UserView};
use super::query::id_message;
use crate::graphql::error::{fails_with, graphql_error, GraphQLErrorType};
use crate::utils::text::{byte_len, utf8_len};

verus! {

/// Least length, in bytes, of a user's name.
pub const MIN_NAME_BYTES: usize = 3;

/// Identifier given to every newly created user.
pub const CREATED_USER_ID: i32 = 100;

/// Message of the failure for a name that is too short.
pub open spec fn name_message() -> Seq<char> {
    "用户名至少需要3个字符"@
}

/// `r` succeeded with the user of identifier `id` and name `name`.
pub open spec fn yields_user(
    r: Result<User, async_graphql::Error>,
    id: i32,
    name: Seq<char>,
) -> bool {
    r matches Ok(u) && u@ == (UserView { id, name })
}

/// Resolvers that change users.
#[derive(Debug, Default, Clone, Copy, PartialEq, Eq, Structural)]
pub struct UserMutation;

impl UserMutation {
    /// Creates a user called `name`.
    ///
    /// Fails with a validation failure exactly when the name takes fewer
    /// than [`MIN_NAME_BYTES`] bytes in UTF-8; otherwise the new user has
    /// that name and the identifier [`CREATED_USER_ID`].
    pub fn create_user(&self, name: String) -> (r: Result<User, async_graphql::Error>)
        ensures
            utf8_len(name@) < MIN_NAME_BYTES ==> fails_with(
                r,
                GraphQLErrorType::Validation,
                name_message(),
            ),
            utf8_len(name@) >= MIN_NAME_BYTES ==> yields_user(r, CREATED_USER_ID, name@),
    {
        if byte_len(name.as_str()) < MIN_NAME_BYTES {
            return Err(graphql_error(GraphQLErrorType::Validation, "用户名至少需要3个字符"));
        }
        Ok(User { id: CREATED_USER_ID, name })
    }

    /// Renames user `id` to `name`.
    ///
    /// The identifier is checked first: if it is not positive the failure
    /// speaks of it, whatever the name. Otherwise a name of fewer than
    /// [`MIN_NAME_BYTES`] bytes fails, and any other yields the renamed user.
    pub fn update_user(&self, id: i32, name: String) -> (r: Result<User, async_graphql::Error>)
        ensures
            id <= 0 ==> fails_with(r, GraphQLErrorType::Validation, id_message()),
            id > 0 && utf8_len(name@) < MIN_NAME_BYTES ==> fails_with(
                r,
                GraphQLErrorType::Validation,
                name_message(),
            ),
            id > 0 && utf8_len(name@) >= MIN_NAME_BYTES ==> yields_user(r, id, name@),
    {
        if id <= 0 {
            return Err(graphql_error(GraphQLErrorType::Validation, "用户ID必须为正整数"));
        }
        if byte_len(name.as_str()) < MIN_NAME_BYTES {
            return Err(graphql_error(GraphQLErrorType::Validation, "用户名至少需要3个字符"));
        }
        Ok(User { id, name })
    }

    /// Deletes user `id`.
    ///
    /// Fails with a validation failure exactly when `id` is not positive;
    /// otherwise reports `true`.
    pub fn delete_user(&self, id: i32) -> (r: Result<bool, async_graphql::Error>)
        ensures
            id <= 0 ==> fails_with(r, GraphQLErrorType::Validation, id_message()),
            id > 0 ==> (r matches Ok(done) && done),
    {
        if id <= 0 {
            return Err(graphql_error(GraphQLErrorType::Validation, "用户ID必须为正整数"));
        }
        Ok(true)
    }
}

} // verus!
