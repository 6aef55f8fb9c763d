//! Shapes shared by the REST and the GraphQL surface.

use vstd::prelude::*;

verus! {

/// Mathematical content of an optional text.
pub open spec fn opt_text(s: Option<String>) -> Option<Seq<char>> {
    match s {
        Some(t) => Some(t@),
        None => None,
    }
}

/// The identity and display name that every user representation can give.
///
/// Both surfaces keep their own user type; this trait is the bridge between
/// them.
pub trait UserBase {
    /// The identifier that [`UserBase::id`] returns.
    spec fn base_id(&self) -> Option<u64>;

    /// The text that [`UserBase::name`] returns.
    spec fn base_name(&self) -> Seq<char>;

    /// Identifier of the user, if it has one yet.
    fn id(&self) -> (r: Option<u64>)
        ensures
            r == self.base_id(),
    ;

    /// Display name of the user.
    fn name(&self) -> (r: &str)
        ensures
            r@ == self.base_name(),
    ;

    /// The surface-independent form of this user.
    fn to_base_user(&self) -> (r: BaseUser)
        ensures
            r@ == (BaseUserView { id: self.base_id(), name: self.base_name() }),
    {
        BaseUser { id: self.id(), name: self.name().to_string() }
    }
}

/// Surface-independent core of a user.
#[derive(Debug, Clone, PartialEq, Eq)]
pub struct BaseUser {
    /// Identifier, absent before the user is stored.
    pub id: Option<u64>,
    /// Display name.
    pub name: String,
}

/// Mathematical content of a [`BaseUser`].
pub struct BaseUserView {
    pub id: Option<u64>,
    pub name: Seq<char>,
}

impl View for BaseUser {
    type V = BaseUserView;

    open spec fn view(&self) -> BaseUserView {
        BaseUserView { id: self.id, name: self.name@ }
    }
}

/// Failure description common to both surfaces.
#[derive(Debug, Clone, PartialEq, Eq)]
pub struct ErrorResponse {
    /// Machine-readable code, e.g. `NOT_FOUND`.
    pub code: String,
    /// Explanation for humans.
    pub message: String,
    /// Further detail, when the failure carries any.
    pub details: Option<String>,
}

/// Mathematical content of an [`ErrorResponse`].
pub struct ErrorResponseView {
    pub code: Seq<char>,
    pub message: Seq<char>,
    pub details: Option<Seq<char>>,
}

impl View for ErrorResponse {
    type V = ErrorResponseView;

    open spec fn view(&self) -> ErrorResponseView {
        ErrorResponseView {
            code: self.code@,
            message: self.message@,
            details: opt_text(self.details),
        }
    }
}

/// Page selection of a list query. Pages are numbered from 1.
#[derive(Debug, Clone, Copy, PartialEq, Eq, Structural)]
pub struct PaginationParams {
    /// Page number, starting at 1.
    pub page: u32,
    /// Number of records per page.
    pub page_size: u32,
}

impl Default for PaginationParams {
    /// The first page, ten records long.
    fn default() -> (r: Self)
        ensures
            r == (PaginationParams { page: 1, page_size: 10 }),
    {
        PaginationParams { page: 1, page_size: 10 }
    }
}

} // verus!
