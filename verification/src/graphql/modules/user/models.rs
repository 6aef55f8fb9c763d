//! The user record of the GraphQL surface.

use vstd::prelude::*;
use crate::models::common::{BaseUser, BaseUserView, UserBase};
use crate::models::user::{User as RestUser, UserView as RestUserView};

verus! {

/// A user as the GraphQL surface shows it.
#[derive(Debug, Clone, PartialEq, Eq)]
pub struct User {
    /// Identifier; GraphQL integers are 32 bits wide.
    pub id: i32,
    /// Display name.
    pub name: String,
}

/// Mathematical content of a [`User`].
pub struct UserView {
    pub id: i32,
    pub name: Seq<char>,
}

impl View for User {
    type V = UserView;

    open spec fn view(&self) -> UserView {
        UserView { id: self.id, name: self.name@ }
    }
}

impl DeepView for User {
    type V = UserView;

    open spec fn deep_view(&self) -> UserView {
        self.view()
    }
}

/// A 32-bit identifier widened to 64 bits in two's complement: itself when
/// it is not negative, and 2^64 more than itself when it is.
pub open spec fn widened(id: i32) -> u64 {
    if id >= 0 {
        id as u64
    } else {
        (id + 0x1_0000_0000_0000_0000) as u64
    }
}

/// A 64-bit identifier cut to its low 32 bits, read in two's complement.
pub open spec fn narrowed(id: u64) -> i32 {
    let low = id % 0x1_0000_0000;
    if low < 0x8000_0000 {
        low as i32
    } else {
        (low - 0x1_0000_0000) as i32
    }
}

/// The identifier of a GraphQL user made from an optional 64-bit one: the
/// narrowed identifier, or 0 without one.
pub open spec fn narrowed_or_zero(id: Option<u64>) -> i32 {
    match id {
        Some(id) => narrowed(id),
        None => 0,
    }
}

/// Widening loses nothing: narrowing a widened identifier gives it back, so
/// a GraphQL user survives the way through [`BaseUser`] unchanged.
pub proof fn lemma_narrowed_widened(id: i32)
    ensures
        narrowed(widened(id)) == id,
        narrowed_or_zero(Some(widened(id))) == id,
{
}

/// Widens a 32-bit identifier.
fn widen(id: i32) -> (r: u64)
    ensures
        r == widened(id),
{
    let r = #[verifier::truncate] (id as u64);
    assert(r == widened(id)) by (bit_vector)
        requires
            r == id as u64,
    ;
    r
}

/// Narrows a 64-bit identifier.
fn narrow(id: u64) -> (r: i32)
    ensures
        r == narrowed(id),
{
    let r = #[verifier::truncate] (id as i32);
    assert(r == narrowed(id)) by (bit_vector)
        requires
            r == id as i32,
    ;
    r
}

impl UserBase for User {
    open spec fn base_id(&self) -> Option<u64> {
        Some(widened(self.id))
    }

    open spec fn base_name(&self) -> Seq<char> {
        self.name@
    }

    fn id(&self) -> (r: Option<u64>) {
        Some(widen(self.id))
    }

    fn name(&self) -> (r: &str) {
        self.name.as_str()
    }
}

/// What a GraphQL user made from a [`BaseUser`] holds.
pub open spec fn user_of_base(base: BaseUserView) -> UserView {
    UserView { id: narrowed_or_zero(base.id), name: base.name }
}

/// What a GraphQL user made from a REST user holds: the narrowed identifier
/// and the login name as display name.
pub open spec fn user_of_rest(user: RestUserView) -> UserView {
    UserView { id: narrowed_or_zero(user.id), name: user.username }
}

/// Narrows an optional identifier, taking 0 where there is none.
fn narrow_or_zero(id: Option<u64>) -> (r: i32)
    ensures
        r == narrowed_or_zero(id),
{
    match id {
        Some(id) => narrow(id),
        None => narrow(0),
    }
}

impl vstd::std_specs::convert::FromSpecImpl<BaseUser> for User {
    open spec fn obeys_from_spec() -> bool {
        true
    }

    open spec fn from_spec(base: BaseUser) -> User {
        User { id: narrowed_or_zero(base.id), name: base.name }
    }
}

impl From<BaseUser> for User {
    /// The GraphQL form of `base`.
    fn from(base: BaseUser) -> (r: User)
        ensures
            r@ == user_of_base(base@),
    {
        User { id: narrow_or_zero(base.id), name: base.name }
    }
}

impl vstd::std_specs::convert::FromSpecImpl<RestUser> for User {
    open spec fn obeys_from_spec() -> bool {
        true
    }

    open spec fn from_spec(user: RestUser) -> User {
        User { id: narrowed_or_zero(user.id), name: user.username }
    }
}

impl From<RestUser> for User {
    /// The GraphQL form of a REST user.
    fn from(user: RestUser) -> (r: User)
        ensures
            r@ == user_of_rest(user@),
    {
        User { id: narrow_or_zero(user.id), name: user.username }
    }
}

} // verus!
