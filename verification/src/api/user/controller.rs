//! Handlers of the user resource over a fixed directory of users.

use vstd::prelude::*;
use crate::models::common::opt_text;
use crate::models::user::{
    default_page, default_page_size, CreateUserRequest, UpdateUserRequest, User, UserListResponse,
    UserListView, UserView,
};
use crate::utils::clock::current_timestamp;
use crate::utils::response::{
    empty, error_view, success_view, ApiResponse, ApiResponseView, EmptyResponse,
};
use crate::utils::text::{
    contains_text, decimal, decimal_string, lemma_decimal_reads_back, text_contains,
};

verus! {

/// Number of users that the directory lists; their identifiers run from 1
/// to this number. It is also the largest identifier that a lookup, a change
/// or a deletion answers for; these three answer for identifier 0 as well.
pub const DIRECTORY_SIZE: u64 = 100;

/// Status code of an answer about a user that does not exist.
pub const NOT_FOUND_CODE: u16 = 404;

/// Identifier given to every newly created user.
pub const CREATED_USER_ID: u64 = 1;

/// Creation time of every user of the directory.
pub open spec fn directory_epoch() -> Seq<char> {
    "2025-01-01T00:00:00Z"@
}

/// Login name of the directory's user `id`.
pub open spec fn directory_username(id: u64) -> Seq<char> {
    "user_"@ + decimal(id as nat)
}

/// E-mail address of the directory's user `id`.
pub open spec fn directory_email(id: u64) -> Seq<char> {
    "user_"@ + decimal(id as nat) + "@example.com"@
}

/// The directory's record of user `id`.
pub open spec fn directory_user(id: u64) -> UserView {
    UserView {
        id: Some(id),
        username: directory_username(id),
        email: directory_email(id),
        created_at: Some(directory_epoch()),
        updated_at: Some(directory_epoch()),
    }
}

/// Message of the answer about the missing user `id`.
pub open spec fn not_found_message(id: u64) -> Seq<char> {
    "User with id "@ + decimal(id as nat) + " not found"@
}

/// Content of the answer about the missing user `id`.
pub open spec fn not_found_view<V>(id: u64) -> ApiResponseView<V> {
    error_view(NOT_FOUND_CODE, not_found_message(id))
}

/// The record that a creation request yields, given the two clock readings.
pub open spec fn created_user(
    username: Seq<char>,
    email: Seq<char>,
    created_at: Seq<char>,
    updated_at: Seq<char>,
) -> UserView {
    UserView {
        id: Some(CREATED_USER_ID),
        username,
        email,
        created_at: Some(created_at),
        updated_at: Some(updated_at),
    }
}

/// The record of user `id` after a change request: the requested e-mail
/// address, or the directory's if the request names none, and the time of
/// the change. A password in the request leaves no trace in the record.
pub open spec fn updated_user(
    id: u64,
    email: Option<Seq<char>>,
    updated_at: Seq<char>,
) -> UserView {
    UserView {
        id: Some(id),
        username: directory_username(id),
        email: match email {
            Some(e) => e,
            None => directory_email(id),
        },
        created_at: Some(directory_epoch()),
        updated_at: Some(updated_at),
    }
}

/// Zero-based position `x` brought into the directory's range.
pub open spec fn clip(x: int) -> int {
    if x < 0 {
        0
    } else if x > DIRECTORY_SIZE {
        DIRECTORY_SIZE as int
    } else {
        x
    }
}

/// First zero-based position of page `page`, and the position after its
/// last, both within the directory. Page 1 starts at position 0; page 0 lies
/// wholly before the directory and is empty.
pub open spec fn page_bounds(page: u32, page_size: u32) -> (int, int) {
    let start = (page - 1) * page_size;
    (clip(start), clip(start + page_size))
}

/// The directory's records at zero-based positions `lo` up to, not
/// including, `hi`. Position `k` holds the user with identifier `k + 1`.
pub open spec fn directory_slice(lo: int, hi: int) -> Seq<UserView> {
    Seq::new((hi - lo) as nat, |k: int| directory_user((lo + k + 1) as u64))
}

/// A record passes the filters when its login name contains the name
/// filter and its e-mail address contains the e-mail filter, as far as the
/// filters are given.
pub open spec fn passes(
    u: UserView,
    username: Option<Seq<char>>,
    email: Option<Seq<char>>,
) -> bool {
    &&& username matches Some(f) ==> contains_text(u.username, f)
    &&& email matches Some(f) ==> contains_text(u.email, f)
}

/// [`passes`] as a predicate on records, for use with `Seq::filter`.
pub open spec fn filter_of(username: Option<Seq<char>>, email: Option<Seq<char>>) -> spec_fn(
    UserView,
) -> bool {
    |u: UserView| passes(u, username, email)
}

/// The users that a list query shows: the records of the page, in order of
/// identifier, that pass the filters.
pub open spec fn listed_users(
    username: Option<Seq<char>>,
    email: Option<Seq<char>>,
    page: u32,
    page_size: u32,
) -> Seq<UserView> {
    let (lo, hi) = page_bounds(page, page_size);
    directory_slice(lo, hi).filter(filter_of(username, email))
}

/// Content of the answer to a list query.
pub open spec fn user_list(
    username: Option<Seq<char>>,
    email: Option<Seq<char>>,
    page: u32,
    page_size: u32,
) -> UserListView {
    UserListView {
        users: listed_users(username, email, page, page_size),
        total: DIRECTORY_SIZE,
        page,
        page_size,
    }
}

/// Filtering a sequence that grew by one element: the element joins the
/// result exactly when it satisfies the predicate.
proof fn lemma_filter_push<A>(s: Seq<A>, pred: spec_fn(A) -> bool, x: A)
    ensures
        s.push(x).filter(pred) == if pred(x) {
            s.filter(pred).push(x)
        } else {
            s.filter(pred)
        },
{
    reveal(Seq::filter);
    assert(s.push(x).drop_last() =~= s);
}

/// Extending a slice of the directory by one position appends that
/// position's record.
proof fn lemma_directory_slice_step(lo: int, hi: int)
    requires
        0 <= lo <= hi,
    ensures
        directory_slice(lo, hi + 1) == directory_slice(lo, hi).push(
            directory_user((hi + 1) as u64),
        ),
{
    assert(directory_slice(lo, hi + 1) =~= directory_slice(lo, hi).push(
        directory_user((hi + 1) as u64),
    ));
}

/// No two users of the directory share a login name.
pub proof fn lemma_usernames_differ(a: u64, b: u64)
    requires
        a != b,
    ensures
        directory_username(a) != directory_username(b),
{
    if directory_username(a) == directory_username(b) {
        let len = "user_"@.len() as int;
        assert(directory_username(a).subrange(len, directory_username(a).len() as int) =~= decimal(
            a as nat,
        ));
        assert(directory_username(b).subrange(len, directory_username(b).len() as int) =~= decimal(
            b as nat,
        ));
        lemma_decimal_reads_back(a as nat);
        lemma_decimal_reads_back(b as nat);
    }
}

/// A page lies within the directory and is at most `page_size` long.
pub proof fn lemma_page_bounds(page: u32, page_size: u32)
    ensures
        ({
            let (lo, hi) = page_bounds(page, page_size);
            0 <= lo <= hi <= DIRECTORY_SIZE && hi - lo <= page_size
        }),
{
}

/// Each page starts where the one before it ends, so that going through the
/// pages in order meets every user of the directory once.
pub proof fn lemma_next_page_follows(page: u32, page_size: u32)
    requires
        1 <= page < u32::MAX,
    ensures
        page_bounds(page, page_size).0 == if page == 1 {
            0
        } else {
            page_bounds((page - 1) as u32, page_size).1
        },
        page_bounds((page + 1) as u32, page_size).0 == page_bounds(page, page_size).1,
{
    assert((page - 1) * page_size + page_size == page * page_size) by (nonlinear_arith);
    assert((page - 2) * page_size + page_size == (page - 1) * page_size) by (nonlinear_arith);
    assert((1 - 1) * page_size == 0) by (nonlinear_arith);
}

/// Page 0, and every page that starts at or after the end of the directory,
/// shows nobody.
pub proof fn lemma_page_outside_directory(
    username: Option<Seq<char>>,
    email: Option<Seq<char>>,
    page: u32,
    page_size: u32,
)
    requires
        page == 0 || (page - 1) * page_size >= DIRECTORY_SIZE,
    ensures
        listed_users(username, email, page, page_size) == Seq::<UserView>::empty(),
{
    reveal(Seq::filter);
    let (lo, hi) = page_bounds(page, page_size);
    if page == 0 {
        assert((page - 1) * page_size == -page_size) by (nonlinear_arith)
            requires
                page == 0,
        ;
    }
    assert(directory_slice(lo, hi) =~= Seq::<UserView>::empty());
}

/// A list never shows more users than the page is long, nor more than the
/// directory holds, and it shows only users of the page that pass the
/// filters.
pub proof fn lemma_listed_users_within_page(
    username: Option<Seq<char>>,
    email: Option<Seq<char>>,
    page: u32,
    page_size: u32,
)
    ensures
        listed_users(username, email, page, page_size).len() <= page_size,
        listed_users(username, email, page, page_size).len() <= DIRECTORY_SIZE,
        forall|i: int|
            0 <= i < listed_users(username, email, page, page_size).len() ==> {
                let u = #[trigger] listed_users(username, email, page, page_size)[i];
                &&& passes(u, username, email)
                &&& exists|id: u64|
                    page_bounds(page, page_size).0 < id <= page_bounds(page, page_size).1 && u
                        == directory_user(id)
            },
{
    let (lo, hi) = page_bounds(page, page_size);
    let slice = directory_slice(lo, hi);
    let pred = filter_of(username, email);
    let listed = listed_users(username, email, page, page_size);
    lemma_page_bounds(page, page_size);
    slice.lemma_filter_len(pred);
    assert forall|i: int| 0 <= i < listed.len() implies {
        let u = #[trigger] listed[i];
        &&& passes(u, username, email)
        &&& exists|id: u64| lo < id <= hi && u == directory_user(id)
    } by {
        let u = listed[i];
        slice.lemma_filter_pred(pred, i);
        assert(listed.contains(u));
        slice.lemma_filter_contains_rev(pred, u);
        let k = choose|k: int| 0 <= k < slice.len() && slice[k] == u;
        assert(u == directory_user((lo + k + 1) as u64));
    }
}

/// Without filters a list shows the whole page.
pub proof fn lemma_unfiltered_list_is_page(page: u32, page_size: u32)
    ensures
        listed_users(None, None, page, page_size) == directory_slice(
            page_bounds(page, page_size).0,
            page_bounds(page, page_size).1,
        ),
{
    let (lo, hi) = page_bounds(page, page_size);
    lemma_page_bounds(page, page_size);
    lemma_unfiltered_slice(lo, hi);
}

/// Filtering a slice of the directory with no filter given keeps all of it.
proof fn lemma_unfiltered_slice(lo: int, hi: int)
    requires
        0 <= lo <= hi,
    ensures
        directory_slice(lo, hi).filter(filter_of(None, None)) == directory_slice(lo, hi),
    decreases hi - lo,
{
    reveal(Seq::filter);
    if lo == hi {
        assert(directory_slice(lo, hi) =~= Seq::<UserView>::empty());
    } else {
        lemma_unfiltered_slice(lo, hi - 1);
        lemma_directory_slice_step(lo, hi - 1);
        lemma_filter_push(
            directory_slice(lo, hi - 1),
            filter_of(None, None),
            directory_user(hi as u64),
        );
    }
}

/// Builds the login name of user `id`.
fn make_username(id: u64) -> (s: String)
    ensures
        s@ == directory_username(id),
{
    let mut s = "user_".to_string();
    s.append(decimal_string(id).as_str());
    s
}

/// Builds the e-mail address of user `id`.
fn make_email(id: u64) -> (s: String)
    ensures
        s@ == directory_email(id),
{
    let mut s = make_username(id);
    s.append("@example.com");
    s
}

/// Builds the directory's record of user `id`.
fn make_directory_user(id: u64) -> (u: User)
    ensures
        u@ == directory_user(id),
{
    User {
        id: Some(id),
        username: make_username(id),
        email: make_email(id),
        created_at: Some("2025-01-01T00:00:00Z".to_string()),
        updated_at: Some("2025-01-01T00:00:00Z".to_string()),
    }
}

/// Builds the answer about the missing user `id`.
fn not_found<T: View>(id: u64) -> (r: ApiResponse<T>)
    ensures
        r@ == not_found_view::<T::V>(id),
{
    let mut msg = "User with id ".to_string();
    msg.append(decimal_string(id).as_str());
    msg.append(" not found");
    ApiResponse::error(NOT_FOUND_CODE, msg)
}

/// Computes the positions of a page within the directory.
fn window(page: u32, page_size: u32) -> (w: (u64, u64))
    ensures
        (w.0 as int, w.1 as int) == page_bounds(page, page_size),
        w.0 <= w.1 <= DIRECTORY_SIZE,
{
    if page == 0 {
        return (0, 0);
    }
    let before: u64 = (page - 1) as u64;
    let size: u64 = page_size as u64;
    assert(before * size <= 0xffff_ffff * 0xffff_ffff) by (nonlinear_arith)
        requires
            before <= 0xffff_ffff,
            size <= 0xffff_ffff,
    ;
    let start: u64 = before * size;
    let end: u64 = start + size;
    let lo: u64 = if start > DIRECTORY_SIZE { DIRECTORY_SIZE } else { start };
    let hi: u64 = if end > DIRECTORY_SIZE { DIRECTORY_SIZE } else { end };
    (lo, hi)
}

/// Tests a text against an optional filter.
fn filter_admits(filter: &Option<String>, text: &str) -> (r: bool)
    ensures
        r == (opt_text(*filter) matches Some(f) ==> contains_text(text@, f)),
{
    match filter {
        Some(f) => text_contains(text, f.as_str()),
        None => true,
    }
}

/// Handlers of the user resource.
#[derive(Debug, Default, Clone, Copy, PartialEq, Eq, Structural)]
pub struct UserController;

impl UserController {
    /// Creates a user from `req` and stamps it with the present time.
    ///
    /// The answer is the one that [`UserController::create_user_at`] gives
    /// for two readings of the clock.
    pub fn create_user(&self, req: CreateUserRequest) -> (r: ApiResponse<User>)
        ensures
            exists|created_at: Seq<char>, updated_at: Seq<char>|
                r@ == success_view(
                    Some(
                        #[trigger] created_user(req.username@, req.email@, created_at, updated_at),
                    ),
                ),
    {
        let created_at = current_timestamp();
        let updated_at = current_timestamp();
        self.create_user_at(req, created_at, updated_at)
    }

    /// Creates a user from `req` with the given timestamps: always a
    /// success, carrying the requested names under identifier
    /// [`CREATED_USER_ID`]. The password is accepted and not stored.
    pub fn create_user_at(
        &self,
        req: CreateUserRequest,
        created_at: String,
        updated_at: String,
    ) -> (r: ApiResponse<User>)
        ensures
            r@ == success_view(
                Some(created_user(req.username@, req.email@, created_at@, updated_at@)),
            ),
    {
        let user = User {
            id: Some(CREATED_USER_ID),
            username: req.username,
            email: req.email,
            created_at: Some(created_at),
            updated_at: Some(updated_at),
        };
        ApiResponse::success(user)
    }

    /// Looks up user `id`.
    ///
    /// Identifiers up to [`DIRECTORY_SIZE`] are answered with the directory's
    /// record; larger ones with a 404 failure that names the identifier.
    pub fn get_user(&self, id: u64) -> (r: ApiResponse<User>)
        ensures
            r@ == if id > DIRECTORY_SIZE {
                not_found_view(id)
            } else {
                success_view(Some(directory_user(id)))
            },
    {
        if id > DIRECTORY_SIZE {
            return not_found(id);
        }
        ApiResponse::success(make_directory_user(id))
    }

    /// Changes user `id` as `req` asks and stamps the change with the present
    /// time.
    ///
    /// Identifiers above [`DIRECTORY_SIZE`] get the 404 failure and the clock
    /// is not read; otherwise the answer is the one that
    /// [`UserController::update_user_at`] gives for a reading of the clock.
    pub fn update_user(&self, id: u64, req: UpdateUserRequest) -> (r: ApiResponse<User>)
        ensures
            id > DIRECTORY_SIZE ==> r@ == not_found_view::<UserView>(id),
            id <= DIRECTORY_SIZE ==> exists|updated_at: Seq<char>|
                r@ == success_view(
                    Some(#[trigger] updated_user(id, opt_text(req.email), updated_at)),
                ),
    {
        if id > DIRECTORY_SIZE {
            return not_found(id);
        }
        let updated_at = current_timestamp();
        self.update_user_at(id, req, updated_at)
    }

    /// Changes user `id` as `req` asks, at the given time.
    ///
    /// Identifiers above [`DIRECTORY_SIZE`] get the 404 failure; otherwise
    /// the answer carries the record after the change.
    pub fn update_user_at(
        &self,
        id: u64,
        req: UpdateUserRequest,
        updated_at: String,
    ) -> (r: ApiResponse<User>)
        ensures
            r@ == if id > DIRECTORY_SIZE {
                not_found_view(id)
            } else {
                success_view(Some(updated_user(id, opt_text(req.email), updated_at@)))
            },
    {
        if id > DIRECTORY_SIZE {
            return not_found(id);
        }
        let email = match req.email {
            Some(e) => e,
            None => make_email(id),
        };
        let user = User {
            id: Some(id),
            username: make_username(id),
            email,
            created_at: Some("2025-01-01T00:00:00Z".to_string()),
            updated_at: Some(updated_at),
        };
        ApiResponse::success(user)
    }

    /// Deletes user `id`: an empty success for identifiers up to
    /// [`DIRECTORY_SIZE`], the 404 failure for larger ones.
    pub fn delete_user(&self, id: u64) -> (r: ApiResponse<EmptyResponse>)
        ensures
            r@ == if id > DIRECTORY_SIZE {
                not_found_view(id)
            } else {
                success_view(Some(EmptyResponse {}))
            },
    {
        if id > DIRECTORY_SIZE {
            return not_found(id);
        }
        ApiResponse::success(empty())
    }

    /// Lists one page of the directory.
    ///
    /// `page` counts from 1 and defaults to 1; `page_size` defaults to 10.
    /// The page covers the zero-based positions from `(page - 1) * page_size`
    /// on, `page_size` of them, as far as they lie within the directory; the
    /// product is taken over the integers, so no page number wraps around.
    /// Of these the answer shows, in order, the users whose login name
    /// contains `username` and whose e-mail address contains `email`, where
    /// given. `total` is always the size of the directory, whatever the
    /// filters.
    pub fn list_users(
        &self,
        username: Option<String>,
        email: Option<String>,
        page: Option<u32>,
        page_size: Option<u32>,
    ) -> (r: ApiResponse<UserListResponse>)
        ensures
            r@ == success_view(
                Some(
                    user_list(
                        opt_text(username),
                        opt_text(email),
                        page.unwrap_or(1),
                        page_size.unwrap_or(10),
                    ),
                ),
            ),
    {
        let page = match page {
            Some(p) => p,
            None => default_page(),
        };
        let page_size = match page_size {
            Some(n) => n,
            None => default_page_size(),
        };
        let (lo, hi) = window(page, page_size);
        let ghost pred = filter_of(opt_text(username), opt_text(email));
        let mut users: Vec<User> = Vec::new();
        let mut i: u64 = lo;
        while i < hi
            invariant
                lo <= i <= hi <= DIRECTORY_SIZE,
                pred == filter_of(opt_text(username), opt_text(email)),
                users.deep_view() == directory_slice(lo as int, i as int).filter(pred),
            decreases hi - i,
        {
            let user = make_directory_user(i + 1);
            let keep = filter_admits(&username, user.username.as_str()) && filter_admits(
                &email,
                user.email.as_str(),
            );
            proof {
                lemma_directory_slice_step(lo as int, i as int);
                lemma_filter_push(directory_slice(lo as int, i as int), pred, user@);
            }
            if keep {
                let ghost before = users.deep_view();
                users.push(user);
                assert(users.deep_view() =~= before.push(user@));
            }
            i += 1;
        }
        let response = UserListResponse { users, total: DIRECTORY_SIZE, page, page_size };
        ApiResponse::success(response)
    }
}

} // verus!
