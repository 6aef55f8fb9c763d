use rust_poem_api_template::api::user::controller::{
    UserController, CREATED_USER_ID, DIRECTORY_SIZE, NOT_FOUND_CODE,
};
use rust_poem_api_template::models::user::{
    CreateUserRequest, UpdateUserRequest, User, UserListResponse,
};
use rust_poem_api_template::utils::response::{ApiResponse, EmptyResponse};

const EPOCH: &str = "2025-01-01T00:00:00Z";

fn directory_user(id: u64) -> User {
    User {
        id: Some(id),
        username: format!("user_{}", id),
        email: format!("user_{}@example.com", id),
        created_at: Some(String::from(EPOCH)),
        updated_at: Some(String::from(EPOCH)),
    }
}

fn directory_range(first: u64, last: u64) -> Vec<User> {
    (first..=last).map(directory_user).collect()
}

fn listing(r: ApiResponse<UserListResponse>) -> UserListResponse {
    assert_eq!(r.code, 200);
    assert_eq!(r.msg, "Success");
    match r.data {
        Some(list) => list,
        None => panic!("a list answer carries a list"),
    }
}

fn list(
    username: Option<&str>,
    email: Option<&str>,
    page: Option<u32>,
    page_size: Option<u32>,
) -> UserListResponse {
    listing(UserController.list_users(
        username.map(String::from),
        email.map(String::from),
        page,
        page_size,
    ))
}

fn assert_not_found<T: std::fmt::Debug + PartialEq>(r: ApiResponse<T>, id: u64) {
    assert_eq!(r.code, 404);
    assert_eq!(r.msg, format!("User with id {} not found", id));
    assert_eq!(r.data, None);
}

fn assert_recent_rfc3339(text: &str) {
    let parsed = match chrono::DateTime::parse_from_rfc3339(text) {
        Ok(t) => t,
        Err(e) => panic!("{} is not RFC 3339: {}", text, e),
    };
    let age = chrono::Utc::now().signed_duration_since(parsed);
    assert!(age.num_seconds() >= 0);
    assert!(age.num_seconds() < 60);
    assert_eq!(parsed.offset().local_minus_utc(), 0);
}

#[test]
fn constants_of_the_directory() {
    assert_eq!(DIRECTORY_SIZE, 100);
    assert_eq!(NOT_FOUND_CODE, 404);
    assert_eq!(CREATED_USER_ID, 1);
}

#[test]
fn get_user_returns_the_directory_record() {
    let r = UserController.get_user(42);
    assert_eq!(r.code, 200);
    assert_eq!(r.msg, "Success");
    assert_eq!(r.data, Some(directory_user(42)));
}

#[test]
fn get_user_exact_strings() {
    let r = UserController.get_user(7);
    let u = r.data.unwrap();
    assert_eq!(u.id, Some(7));
    assert_eq!(u.username, "user_7");
    assert_eq!(u.email, "user_7@example.com");
    assert_eq!(u.created_at.as_deref(), Some("2025-01-01T00:00:00Z"));
    assert_eq!(u.updated_at.as_deref(), Some("2025-01-01T00:00:00Z"));
}

#[test]
fn get_user_accepts_identifier_zero() {
    let r = UserController.get_user(0);
    assert_eq!(r.code, 200);
    assert_eq!(r.data, Some(directory_user(0)));
}

#[test]
fn get_user_accepts_the_last_identifier() {
    let r = UserController.get_user(100);
    assert_eq!(r.code, 200);
    assert_eq!(r.data, Some(directory_user(100)));
}

#[test]
fn get_user_beyond_the_directory_is_not_found() {
    assert_not_found(UserController.get_user(101), 101);
    assert_not_found(UserController.get_user(u64::MAX), u64::MAX);
}

#[test]
fn delete_user_in_the_directory_succeeds_with_empty_payload() {
    for id in [0u64, 1, 50, 100] {
        let r = UserController.delete_user(id);
        assert_eq!(r.code, 200);
        assert_eq!(r.msg, "Success");
        assert_eq!(r.data, Some(EmptyResponse {}));
    }
}

#[test]
fn delete_user_beyond_the_directory_is_not_found() {
    assert_not_found(UserController.delete_user(101), 101);
    assert_not_found(UserController.delete_user(4_000_000_000), 4_000_000_000);
}

#[test]
fn create_user_at_keeps_names_and_timestamps() {
    let req = CreateUserRequest {
        username: String::from("grace"),
        email: String::from("grace@example.com"),
        password: String::from("secret-word"),
    };
    let r = UserController.create_user_at(
        req,
        String::from("2026-02-03T04:05:06+00:00"),
        String::from("2026-02-03T04:05:07+00:00"),
    );
    assert_eq!(r.code, 200);
    assert_eq!(r.msg, "Success");
    assert_eq!(
        r.data,
        Some(User {
            id: Some(1),
            username: String::from("grace"),
            email: String::from("grace@example.com"),
            created_at: Some(String::from("2026-02-03T04:05:06+00:00")),
            updated_at: Some(String::from("2026-02-03T04:05:07+00:00")),
        })
    );
}

#[test]
fn create_user_stamps_with_the_clock() {
    let req = CreateUserRequest {
        username: String::from("grace"),
        email: String::from("grace@example.com"),
        password: String::from("secret-word"),
    };
    let r = UserController.create_user(req);
    assert_eq!(r.code, 200);
    let u = r.data.unwrap();
    assert_eq!(u.id, Some(1));
    assert_eq!(u.username, "grace");
    assert_eq!(u.email, "grace@example.com");
    let created = u.created_at.unwrap();
    let updated = u.updated_at.unwrap();
    assert_recent_rfc3339(&created);
    assert_recent_rfc3339(&updated);
    let c = chrono::DateTime::parse_from_rfc3339(&created).unwrap();
    let d = chrono::DateTime::parse_from_rfc3339(&updated).unwrap();
    assert!(c <= d);
}

#[test]
fn update_user_at_takes_the_requested_email() {
    let req = UpdateUserRequest {
        email: Some(String::from("new@example.org")),
        password: Some(String::from("another-secret")),
    };
    let r = UserController.update_user_at(9, req, String::from("2026-01-01T00:00:00+00:00"));
    assert_eq!(r.code, 200);
    assert_eq!(
        r.data,
        Some(User {
            id: Some(9),
            username: String::from("user_9"),
            email: String::from("new@example.org"),
            created_at: Some(String::from(EPOCH)),
            updated_at: Some(String::from("2026-01-01T00:00:00+00:00")),
        })
    );
}

#[test]
fn update_user_at_without_email_keeps_the_directory_email() {
    let req = UpdateUserRequest { email: None, password: None };
    let r = UserController.update_user_at(100, req, String::from("later"));
    let u = r.data.unwrap();
    assert_eq!(u.email, "user_100@example.com");
    assert_eq!(u.username, "user_100");
    assert_eq!(u.created_at.as_deref(), Some(EPOCH));
    assert_eq!(u.updated_at.as_deref(), Some("later"));
}

#[test]
fn update_user_at_beyond_the_directory_is_not_found() {
    let req = UpdateUserRequest { email: Some(String::from("x@y.zz")), password: None };
    assert_not_found(UserController.update_user_at(101, req, String::from("later")), 101);
}

#[test]
fn update_user_stamps_with_the_clock() {
    let req = UpdateUserRequest { email: None, password: None };
    let r = UserController.update_user(5, req);
    assert_eq!(r.code, 200);
    let u = r.data.unwrap();
    assert_eq!(u.id, Some(5));
    assert_eq!(u.username, "user_5");
    assert_eq!(u.email, "user_5@example.com");
    assert_eq!(u.created_at.as_deref(), Some(EPOCH));
    assert_recent_rfc3339(&u.updated_at.unwrap());
}

#[test]
fn update_user_beyond_the_directory_is_not_found() {
    let req = UpdateUserRequest { email: None, password: None };
    assert_not_found(UserController.update_user(1000, req), 1000);
}

#[test]
fn list_users_defaults_to_the_first_ten() {
    let l = list(None, None, None, None);
    assert_eq!(l.page, 1);
    assert_eq!(l.page_size, 10);
    assert_eq!(l.total, 100);
    assert_eq!(l.users, directory_range(1, 10));
}

#[test]
fn list_users_second_page() {
    let l = list(None, None, Some(2), Some(10));
    assert_eq!(l.page, 2);
    assert_eq!(l.users, directory_range(11, 20));
}

#[test]
fn list_users_last_full_page() {
    let l = list(None, None, Some(10), Some(10));
    assert_eq!(l.users, directory_range(91, 100));
}

#[test]
fn list_users_page_cut_by_the_end_of_the_directory() {
    let l = list(None, None, Some(4), Some(30));
    assert_eq!(l.page_size, 30);
    assert_eq!(l.users, directory_range(91, 100));
}

#[test]
fn list_users_page_after_the_directory_is_empty() {
    let l = list(None, None, Some(11), Some(10));
    assert_eq!(l.users, Vec::<User>::new());
    assert_eq!(l.total, 100);
    assert_eq!(l.page, 11);
}

#[test]
fn list_users_whole_directory_on_one_page() {
    let l = list(None, None, Some(1), Some(100));
    assert_eq!(l.users, directory_range(1, 100));
    let l = list(None, None, Some(1), Some(u32::MAX));
    assert_eq!(l.users, directory_range(1, 100));
}

#[test]
fn list_users_page_size_zero_is_empty() {
    let l = list(None, None, Some(1), Some(0));
    assert_eq!(l.users, Vec::<User>::new());
    assert_eq!(l.page_size, 0);
    let l = list(None, None, Some(5), Some(0));
    assert_eq!(l.users, Vec::<User>::new());
}

#[test]
fn list_users_page_zero_is_empty() {
    let l = list(None, None, Some(0), Some(10));
    assert_eq!(l.users, Vec::<User>::new());
    assert_eq!(l.page, 0);
    assert_eq!(l.total, 100);
    let l = list(None, None, Some(0), Some(u32::MAX));
    assert_eq!(l.users, Vec::<User>::new());
}

#[test]
fn list_users_huge_page_numbers_are_empty() {
    let l = list(None, None, Some(u32::MAX), Some(u32::MAX));
    assert_eq!(l.users, Vec::<User>::new());
    let l = list(None, None, Some(0x8000_0001), Some(2));
    assert_eq!(l.users, Vec::<User>::new());
    let l = list(None, None, Some(u32::MAX), Some(1));
    assert_eq!(l.users, Vec::<User>::new());
}

#[test]
fn list_users_filters_by_login_name() {
    let l = list(Some("user_1"), None, Some(1), Some(100));
    let mut expected = vec![directory_user(1)];
    expected.extend(directory_range(10, 19));
    expected.push(directory_user(100));
    assert_eq!(l.users, expected);
    assert_eq!(l.total, 100);
}

#[test]
fn list_users_filters_by_email() {
    let l = list(None, Some("9@"), Some(1), Some(100));
    let expected: Vec<User> = (0..10u64).map(|k| directory_user(10 * k + 9)).collect();
    assert_eq!(l.users, expected);
}

#[test]
fn list_users_applies_both_filters() {
    let l = list(Some("_2"), Some("5@example"), Some(1), Some(100));
    assert_eq!(l.users, vec![directory_user(25)]);
}

#[test]
fn list_users_filters_within_the_page_only() {
    let l = list(Some("7"), None, Some(2), Some(10));
    assert_eq!(l.users, vec![directory_user(17)]);
    let l = list(Some("7"), None, Some(8), Some(10));
    assert_eq!(l.users, directory_range(71, 79));
}

#[test]
fn list_users_email_filter_does_not_match_login_name_only_text() {
    let l = list(Some("example"), None, Some(1), Some(100));
    assert_eq!(l.users, Vec::<User>::new());
    let l = list(None, Some("example"), Some(1), Some(100));
    assert_eq!(l.users.len(), 100);
}

#[test]
fn list_users_empty_filters_keep_everyone() {
    let l = list(Some(""), Some(""), Some(3), Some(5));
    assert_eq!(l.users, directory_range(11, 15));
}

#[test]
fn list_users_filter_that_matches_nobody() {
    let l = list(Some("admin"), None, Some(1), Some(100));
    assert_eq!(l.users, Vec::<User>::new());
    assert_eq!(l.total, 100);
}

#[test]
fn list_users_is_case_sensitive() {
    let l = list(Some("USER_1"), None, Some(1), Some(100));
    assert_eq!(l.users, Vec::<User>::new());
}

#[test]
fn list_users_never_shows_more_than_a_page() {
    for page in 0..14u32 {
        for page_size in [0u32, 1, 3, 10, 33, 100, 101] {
            let l = list(None, None, Some(page), Some(page_size));
            assert!(l.users.len() as u64 <= page_size as u64);
            assert!(l.users.len() <= 100);
            let start = (page as i64 - 1) * page_size as i64;
            let lo = start.clamp(0, 100) as u64;
            let hi = (start + page_size as i64).clamp(0, 100) as u64;
            let expected: Vec<User> = (lo..hi).map(|k| directory_user(k + 1)).collect();
            assert_eq!(l.users, expected);
        }
    }
}

#[test]
fn list_users_pages_cover_the_directory_once() {
    for page_size in [1u32, 7, 10, 33, 99, 100, 250] {
        let mut seen: Vec<User> = Vec::new();
        let mut page = 1u32;
        loop {
            let l = list(None, None, Some(page), Some(page_size));
            if l.users.is_empty() {
                break;
            }
            seen.extend(l.users);
            page += 1;
        }
        assert_eq!(seen, directory_range(1, 100));
    }
}

#[test]
fn directory_login_names_are_distinct() {
    let l = list(None, None, Some(1), Some(100));
    for a in 0..l.users.len() {
        for b in (a + 1)..l.users.len() {
            assert_ne!(l.users[a].username, l.users[b].username);
        }
    }
}
