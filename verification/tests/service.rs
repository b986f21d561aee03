use credvault::credentials::{check_password, derive_key, hash_new_password};
use credvault::service::{
    bearer_token, create_password, decode_base64, delete_password, edit_password, encode_base64,
    is_whitespace, requires_auth, AuthUser, Password, Token, TokenResponse, User, UserClaims,
};

fn kept(data: &str, uuid: &str) -> Password {
    Password { data: data.to_string(), uuid: uuid.to_string() }
}

fn pairs(list: &[Password]) -> Vec<(String, String)> {
    list.iter().map(|p| (p.data.clone(), p.uuid.clone())).collect()
}

fn pair(data: &str, uuid: &str) -> (String, String) {
    (data.to_string(), uuid.to_string())
}

#[test]
fn getters_give_the_names() {
    let user = AuthUser { username: String::from("alice"), password: String::from("pw") };
    assert_eq!(user.username(), "alice");
    let claims = UserClaims { username: String::from("bob") };
    assert_eq!(claims.username(), "bob");
    let token = Token { token: String::from("t") };
    assert_eq!(token.token, "t");
    let response = TokenResponse { token: String::from("r") };
    assert_eq!(response.token, "r");
}

#[test]
fn login_needs_a_stored_hash_that_the_password_verifies_against() {
    let hash = derive_key("hunter42", "mgtQBCKsArg2KiDaL1xkbQ").unwrap();
    let user = AuthUser { username: String::from("alice"), password: String::from("hunter42") };
    assert_eq!(user.verify_login(Some(hash.as_text())), Ok(()));
    assert_eq!(user.verify_login(None), Err(()));
    assert_eq!(user.verify_login(Some("no hash")), Err(()));
    let other = AuthUser { username: String::from("alice"), password: String::from("hunter43") };
    assert_eq!(other.verify_login(Some(hash.as_text())), Err(()));
}

#[test]
fn new_password_keeps_the_data_under_a_fresh_identifier() {
    let a = Password::new(String::from("blob"));
    let b = Password::new(String::from("blob"));
    assert_eq!(a.data(), "blob");
    assert_eq!(a.data, "blob");
    assert_eq!(a.uuid.len(), 36);
    assert_ne!(a.uuid, b.uuid);
    assert_eq!(a.uuid.chars().filter(|c| *c == '-').count(), 4);
}

#[test]
fn hash_of_a_new_password_verifies_and_is_salted_afresh() {
    let a = hash_new_password("hunter42");
    let b = hash_new_password("hunter42");
    assert!(a.starts_with("$pbkdf2-sha256$i=10000,l=32$"));
    assert_ne!(a, b);
    assert!(check_password("hunter42", &a));
    assert!(check_password("hunter42", &b));
    assert!(!check_password("hunter43", &a));
}

#[test]
fn new_account_has_identifier_hash_and_no_data() {
    let user = User::create_new(String::from("hunter42"));
    assert_eq!(user.uuid().len(), 36);
    assert_eq!(user.data(), "");
    assert!(check_password("hunter42", &user.password));
    let other = User::create_new(String::from("hunter42"));
    assert_ne!(user.uuid, other.uuid);
    assert_ne!(user.password, other.password);
}

#[test]
fn account_login_gives_the_account_for_the_right_password() {
    let user = User::create_new(String::from("hunter42"));
    let account = User::new_from_login(Some(user.clone()), String::from("hunter42")).unwrap();
    assert_eq!(account.uuid, user.uuid);
    assert_eq!(account.password, user.password);
    assert_eq!(account.data, user.data);
    assert_eq!(
        User::new_from_login(Some(user.clone()), String::from("wrong")).map(|_| ()),
        Err(())
    );
    assert_eq!(User::new_from_login(None, String::from("hunter42")).map(|_| ()), Err(()));
    let mut broken = user;
    broken.password = String::from("garbage");
    assert_eq!(User::new_from_login(Some(broken), String::from("hunter42")).map(|_| ()), Err(()));
}

#[test]
fn update_data_replaces_the_data_alone() {
    let mut user = User {
        uuid: String::from("u"),
        password: String::from("h"),
        data: String::from("old"),
    };
    user.update_data(String::from("new"));
    assert_eq!(user.data(), "new");
    assert_eq!(user.uuid(), "u");
    assert_eq!(user.password, "h");
}

#[test]
fn delete_keeps_the_others_in_order() {
    let stored = vec![kept("1", "a"), kept("2", "b"), kept("3", "c"), kept("4", "b")];
    let left = delete_password(Some(stored), &String::from("b")).unwrap();
    assert_eq!(pairs(&left), vec![pair("1", "a"), pair("3", "c")]);
    let same = delete_password(Some(left), &String::from("z")).unwrap();
    assert_eq!(pairs(&same), vec![pair("1", "a"), pair("3", "c")]);
    assert!(delete_password(None, &String::from("a")).is_none());
    assert!(delete_password(Some(Vec::new()), &String::from("a")).unwrap().is_empty());
}

#[test]
fn create_appends_under_a_fresh_identifier() {
    let first = create_password(None, String::from("blob"));
    assert_eq!(first.len(), 1);
    assert_eq!(first[0].data, "blob");
    assert_eq!(first[0].uuid.len(), 36);
    let id = first[0].uuid.clone();
    let second = create_password(Some(first), String::from("other"));
    assert_eq!(second.len(), 2);
    assert_eq!(second[0].uuid, id);
    assert_eq!(second[0].data, "blob");
    assert_eq!(second[1].data, "other");
    assert_ne!(second[1].uuid, id);
}

#[test]
fn edit_replaces_by_identifier() {
    let stored = vec![kept("1", "a"), kept("2", "b"), kept("3", "c")];
    let edited = edit_password(Some(stored), &kept("two", "b")).unwrap();
    assert_eq!(pairs(&edited), vec![pair("1", "a"), pair("two", "b"), pair("3", "c")]);
    let same = edit_password(Some(edited), &kept("x", "z")).unwrap();
    assert_eq!(pairs(&same), vec![pair("1", "a"), pair("two", "b"), pair("3", "c")]);
    assert!(edit_password(None, &kept("x", "a")).is_none());
}

#[test]
fn stored_text_is_base64_of_the_serialized_value() {
    assert_eq!(encode_base64("{\"a\":1}"), Some(String::from("eyJhIjoxfQ==")));
    assert_eq!(encode_base64(""), Some(String::new()));
    assert_eq!(decode_base64("eyJhIjoxfQ=="), Some(String::from("{\"a\":1}")));
    assert_eq!(decode_base64(""), Some(String::new()));
    for text in ["x", "päß ✓", "[{\"data\":\"d\",\"uuid\":\"u\"}]"] {
        assert_eq!(decode_base64(&encode_base64(text).unwrap()), Some(text.to_string()));
    }
}

#[test]
fn stored_text_that_is_no_base64_of_utf8_stands_for_nothing() {
    assert_eq!(decode_base64("not base64!"), None);
    assert_eq!(decode_base64("e"), None);
    assert_eq!(decode_base64("eyJh IjoxfQ=="), None);
    assert_eq!(decode_base64(&base64::encode([0xffu8, 0xfe])), None);
}

#[test]
fn white_space_is_what_the_language_calls_so() {
    for n in 0u32..=0x10ffff {
        if let Some(c) = char::from_u32(n) {
            assert_eq!(is_whitespace(c), c.is_whitespace());
        }
    }
}

#[test]
fn token_is_the_last_word_of_the_header() {
    assert_eq!(bearer_token("Bearer abc.def.ghi"), Some(String::from("abc.def.ghi")));
    assert_eq!(bearer_token("abc.def.ghi"), Some(String::from("abc.def.ghi")));
    assert_eq!(bearer_token("  Bearer \t abc  \n"), Some(String::from("abc")));
    assert_eq!(bearer_token("a b c"), Some(String::from("c")));
    assert_eq!(bearer_token("Bearer\u{a0}tökén\u{3000}"), Some(String::from("tökén")));
    assert_eq!(bearer_token(""), None);
    assert_eq!(bearer_token(" \t\n "), None);
    for header in ["Bearer abc", " x ", "", "  ", "a\u{2003}b ", "one"] {
        assert_eq!(
            bearer_token(header),
            header.split_whitespace().last().map(|word| word.to_string())
        );
    }
}

#[test]
fn every_path_needs_a_token_but_login_and_signup() {
    assert!(!requires_auth("/auth/login"));
    assert!(!requires_auth("/auth/signup"));
    assert!(!requires_auth("/Auth/LOGIN"));
    assert!(!requires_auth("/AUTH/SignUp"));
    assert!(requires_auth("/user"));
    assert!(requires_auth("/user/data"));
    assert!(requires_auth("/auth/login/"));
    assert!(requires_auth("/auth"));
    assert!(requires_auth(""));
}
