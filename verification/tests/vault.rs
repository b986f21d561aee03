use credvault::entry::{seal_all, unseal_all, Password, PasswordData, PasswordType};
use credvault::encryption::{Encryption, EncryptionError};
use credvault::generator::PasswordGenerator;
use credvault::user::{ConfigError, RawUser, User, UserData};

fn plain(entry: &PasswordType) -> &PasswordData {
    match entry {
        PasswordType::Data(data) => data,
        PasswordType::Raw(_) => panic!("Wrong enum"),
    }
}

fn as_json(entry: &PasswordData) -> String {
    let mut map = serde_json::Map::new();
    let field = |value: &Option<String>| match value {
        Some(text) => serde_json::Value::String(text.clone()),
        None => serde_json::Value::Null,
    };
    map.insert("name".to_string(), field(&entry.name));
    map.insert("login".to_string(), field(&entry.login));
    map.insert("password".to_string(), field(&entry.password));
    map.insert("url".to_string(), field(&entry.url));
    map.insert("description".to_string(), field(&entry.description));
    map.insert("uuid".to_string(), serde_json::Value::String(entry.uuid.clone()));
    serde_json::Value::Object(map).to_string()
}

fn serialized(user: &User) -> Vec<String> {
    user.passwords().iter().map(|entry| as_json(plain(entry))).collect()
}

#[test]
fn test_signup() {
    let data = UserData {
        username: String::from("username"),
        password: String::from("password"),
    };
    User::new_from_signup(false, data).unwrap();
}

#[test]
fn test_login() {
    let data = UserData {
        username: String::from("username"),
        password: String::from("password"),
    };
    let user = User::new_from_signup(false, data.clone()).unwrap();
    let stored = RawUser::from_user(&user, &serialized(&user)).unwrap();

    let login = User::new_from_login(Some(stored), data)
        .unwrap()
        .restore(Vec::new())
        .unwrap();
    assert_eq!(user.username(), login.username());
}

#[test]
#[should_panic]
fn test_auth() {
    let data = UserData {
        username: String::from("username"),
        password: String::from("password"),
    };
    let user = User::new_from_signup(false, data.clone()).unwrap();
    let stored = RawUser::from_user(&user, &serialized(&user)).unwrap();

    User::new_from_login(
        Some(stored),
        UserData {
            username: String::from("username"),
            password: String::from("te"),
        },
    )
    .map(|_| ())
    .unwrap();
}

#[test]
fn test_new_password() {
    let data = UserData {
        username: String::from("username"),
        password: String::from("password"),
    };
    let mut user = User::new_from_signup(false, data.clone()).unwrap();
    user.new_password();
    assert_eq!(1, user.passwords().len());
}

#[test]
fn test_update_password() {
    let data = UserData {
        username: String::from("username"),
        password: String::from("password"),
    };
    let mut user = User::new_from_signup(false, data.clone()).unwrap();
    let mut password = user.new_password();
    password.password = Some(String::from("test"));
    user.update_password(password);

    assert_eq!(1, user.passwords().len());
    if let PasswordType::Data(pwd) = user.passwords().first().unwrap() {
        assert_eq!(&String::from("test"), pwd.password.as_ref().unwrap())
    } else {
        panic!("Wrong enum")
    }
}

#[test]
fn test_delete_password() {
    let data = UserData {
        username: String::from("username"),
        password: String::from("password"),
    };
    let mut user = User::new_from_signup(false, data.clone()).unwrap();
    let password = user.new_password();
    user.delete_password(password);
    assert_eq!(0, user.passwords().len());
}

#[test]
fn signup_over_a_stored_vault_is_refused() {
    let data = UserData { username: String::from("alice"), password: String::from("S3cret!") };
    assert_eq!(User::new_from_signup(true, data).map(|_| ()), Err(ConfigError::AlreadyExists));
}

#[test]
fn new_vault_is_empty_with_default_generator() {
    let data = UserData { username: String::from("alice"), password: String::from("S3cret!") };
    let user = User::new_from_signup(false, data).unwrap();
    assert_eq!(user.username(), "alice");
    assert!(user.passwords().is_empty());
    assert!(user.backup().is_none());
    assert!(user.is_unlocked());
    assert_eq!(
        user.generator(),
        PasswordGenerator { numbers: true, letters: true, symbols: true, length: 32 }
    );
}

#[test]
fn login_without_a_stored_vault_is_unauthorized() {
    let data = UserData { username: String::from("nobody"), password: String::from("S3cret!") };
    assert_eq!(User::new_from_login(None, data).map(|_| ()), Err(ConfigError::Unauthorized));
}

#[test]
fn login_with_another_password_is_unauthorized_like_an_unknown_user() {
    let data = UserData { username: String::from("alice"), password: String::from("S3cret!") };
    let user = User::new_from_signup(false, data).unwrap();
    let stored = RawUser::from_user(&user, &Vec::new()).unwrap();
    let wrong = UserData { username: String::from("alice"), password: String::from("wrongpass") };
    let refused = User::new_from_login(Some(stored), wrong.clone()).map(|_| ());
    let unknown = User::new_from_login(None, wrong).map(|_| ());
    assert_eq!(refused, Err(ConfigError::Unauthorized));
    assert_eq!(refused, unknown);
}

#[test]
fn stored_vault_opens_to_the_same_entries() {
    let data = UserData { username: String::from("alice"), password: String::from("S3cret!") };
    let mut user = User::new_from_signup(false, data.clone()).unwrap();
    let mut first = user.new_password();
    first.password = Some(String::from("hunter2"));
    first.url = Some(String::from("https://example.org/?q=\"x\""));
    user.update_password(first);
    user.new_password();
    let texts = serialized(&user);
    let stored = RawUser::from_user(&user, &texts).unwrap();
    assert_eq!(stored.username, "alice");
    assert_eq!(stored.passwords.len(), 2);
    assert_eq!(stored.generator, user.generator());
    for sealed in stored.passwords.iter() {
        assert_eq!(sealed.iv.len(), 12);
        assert!(!sealed.data.contains("hunter2"));
    }
    let unsealed = User::new_from_login(Some(stored), data).unwrap();
    assert_eq!(unsealed.texts(), texts);
    let entries: Vec<PasswordData> = user.passwords().iter().map(|e| plain(e).clone()).collect();
    let opened = unsealed.restore(entries).unwrap();
    assert_eq!(opened.username(), "alice");
    assert_eq!(serialized(&opened), texts);
    assert_eq!(opened.generator(), user.generator());
}

#[test]
fn storing_twice_gives_fresh_nonces() {
    let data = UserData { username: String::from("alice"), password: String::from("S3cret!") };
    let mut user = User::new_from_signup(false, data).unwrap();
    user.new_password();
    let texts = serialized(&user);
    let a = RawUser::from_user(&user, &texts).unwrap();
    let b = RawUser::from_user(&user, &texts).unwrap();
    assert_ne!(a.passwords[0].iv, b.passwords[0].iv);
    assert_ne!(a.passwords[0].data, b.passwords[0].data);
    assert_eq!(a.password.key, b.password.key);
    assert_eq!(a.password.hash, b.password.hash);
}

#[test]
fn corrupted_entry_fails_the_login_with_crypto_failure() {
    let data = UserData { username: String::from("alice"), password: String::from("S3cret!") };
    let mut user = User::new_from_signup(false, data.clone()).unwrap();
    user.new_password();
    let mut stored = RawUser::from_user(&user, &serialized(&user)).unwrap();
    stored.passwords[0].data = base64::encode([0u8; 40]);
    assert_eq!(
        User::new_from_login(Some(stored), data.clone()).map(|_| ()),
        Err(ConfigError::CryptoFailure(EncryptionError::AuthenticationFailure))
    );
    let mut stored = RawUser::from_user(&user, &serialized(&user)).unwrap();
    stored.passwords[0].data = String::from("???");
    assert_eq!(
        User::new_from_login(Some(stored), data).map(|_| ()),
        Err(ConfigError::CryptoFailure(EncryptionError::DecodeFailure))
    );
}

#[test]
fn restore_takes_one_parsed_entry_for_each_stored_entry() {
    let data = UserData { username: String::from("alice"), password: String::from("S3cret!") };
    let mut user = User::new_from_signup(false, data.clone()).unwrap();
    let a = user.new_password_with(String::from("a"));
    let b = user.new_password_with(String::from("b"));
    let texts = serialized(&user);

    let stored = RawUser::from_user(&user, &texts).unwrap();
    let unsealed = User::new_from_login(Some(stored), data.clone()).unwrap();
    let opened = unsealed.restore(vec![a.clone(), b.clone()]).unwrap();
    let list = opened.passwords();
    assert_eq!(list.len(), 2);
    assert_eq!(plain(&list[0]).uuid, "a");
    assert_eq!(plain(&list[1]).uuid, "b");
    assert!(opened.is_unlocked());

    let stored = RawUser::from_user(&user, &texts).unwrap();
    let unsealed = User::new_from_login(Some(stored), data.clone()).unwrap();
    assert_eq!(unsealed.restore(vec![a.clone()]).map(|_| ()), Err(ConfigError::ParseFailure));

    let stored = RawUser::from_user(&user, &texts).unwrap();
    let unsealed = User::new_from_login(Some(stored), data.clone()).unwrap();
    assert_eq!(unsealed.restore(Vec::new()).map(|_| ()), Err(ConfigError::ParseFailure));

    let stored = RawUser::from_user(&user, &texts).unwrap();
    let unsealed = User::new_from_login(Some(stored), data).unwrap();
    assert_eq!(
        unsealed.restore(vec![a.clone(), b, a]).map(|_| ()),
        Err(ConfigError::ParseFailure)
    );
}

#[test]
fn new_entry_is_the_placeholder() {
    let data = UserData { username: String::from("alice"), password: String::from("S3cret!") };
    let mut user = User::new_from_signup(false, data).unwrap();
    let entry = user.new_password();
    assert_eq!(entry.uuid.len(), 36);
    assert_eq!(entry.name, Some(String::from("Unnamed")));
    assert_eq!(entry.login, None);
    assert_eq!(entry.password, None);
    assert_eq!(entry.url, None);
    assert_eq!(entry.description, None);
    let list = user.passwords();
    assert_eq!(list.len(), 1);
    assert_eq!(plain(&list[0]).uuid, entry.uuid);
    assert_eq!(plain(&list[0]).name, Some(String::from("Unnamed")));
    let other = user.new_password();
    assert_ne!(other.uuid, entry.uuid);
}

#[test]
fn new_entry_under_a_given_identifier_comes_last() {
    let data = UserData { username: String::from("alice"), password: String::from("S3cret!") };
    let mut user = User::new_from_signup(false, data).unwrap();
    user.new_password_with(String::from("first"));
    let entry = user.new_password_with(String::from("second"));
    assert_eq!(entry.uuid, "second");
    let list = user.passwords();
    assert_eq!(plain(&list[0]).uuid, "first");
    assert_eq!(plain(&list[1]).uuid, "second");
}

#[test]
fn update_replaces_by_identifier_and_leaves_the_others() {
    let data = UserData { username: String::from("alice"), password: String::from("S3cret!") };
    let mut user = User::new_from_signup(false, data).unwrap();
    user.new_password_with(String::from("a"));
    let mut b = user.new_password_with(String::from("b"));
    user.new_password_with(String::from("c"));
    b.name = None;
    b.login = Some(String::from("bob"));
    b.password = Some(String::from("pw"));
    user.update_password(b);
    let list = user.passwords();
    assert_eq!(list.len(), 3);
    assert_eq!(plain(&list[0]).uuid, "a");
    assert_eq!(plain(&list[0]).name, Some(String::from("Unnamed")));
    assert_eq!(plain(&list[0]).password, None);
    assert_eq!(plain(&list[1]).uuid, "b");
    assert_eq!(plain(&list[1]).name, None);
    assert_eq!(plain(&list[1]).login, Some(String::from("bob")));
    assert_eq!(plain(&list[1]).password, Some(String::from("pw")));
    assert_eq!(plain(&list[2]).uuid, "c");
    assert_eq!(plain(&list[2]).password, None);
}

#[test]
fn update_of_an_unknown_identifier_changes_nothing() {
    let data = UserData { username: String::from("alice"), password: String::from("S3cret!") };
    let mut user = User::new_from_signup(false, data).unwrap();
    user.new_password_with(String::from("a"));
    let mut stranger = PasswordData::placeholder(String::from("z"));
    stranger.password = Some(String::from("pw"));
    user.update_password(stranger);
    let list = user.passwords();
    assert_eq!(list.len(), 1);
    assert_eq!(plain(&list[0]).uuid, "a");
    assert_eq!(plain(&list[0]).password, None);
}

#[test]
fn delete_removes_by_identifier_and_leaves_the_others() {
    let data = UserData { username: String::from("alice"), password: String::from("S3cret!") };
    let mut user = User::new_from_signup(false, data).unwrap();
    user.new_password_with(String::from("a"));
    let b = user.new_password_with(String::from("b"));
    user.new_password_with(String::from("c"));
    user.delete_password(b);
    let list = user.passwords();
    assert_eq!(list.len(), 2);
    assert_eq!(plain(&list[0]).uuid, "a");
    assert_eq!(plain(&list[1]).uuid, "c");
    user.delete_password(PasswordData::placeholder(String::from("z")));
    assert_eq!(user.passwords().len(), 2);
}

#[test]
fn update_generator_replaces_the_settings() {
    let data = UserData { username: String::from("alice"), password: String::from("S3cret!") };
    let mut user = User::new_from_signup(false, data).unwrap();
    let settings = PasswordGenerator { numbers: true, letters: false, symbols: false, length: 6 };
    user.update_generator(settings);
    assert_eq!(user.generator(), settings);
    assert!(user.passwords().is_empty());
}

#[test]
fn locked_vault_refuses_the_key_manager() {
    let data = UserData { username: String::from("alice"), password: String::from("S3cret!") };
    let mut user = User::new_from_signup(false, data).unwrap();
    let sealed = user.encrypt_field("field").unwrap();
    assert_eq!(
        user.decrypt_field(sealed.ciphertext.clone(), sealed.nonce.clone()),
        Ok(String::from("field"))
    );
    user.lock();
    assert!(!user.is_unlocked());
    assert_eq!(user.encrypt_field("field").map(|_| ()), Err(ConfigError::NotAuthenticated));
    assert_eq!(
        user.decrypt_field(sealed.ciphertext, sealed.nonce),
        Err(ConfigError::NotAuthenticated)
    );
    assert_eq!(
        RawUser::from_user(&user, &Vec::new()).map(|_| ()),
        Err(ConfigError::NotAuthenticated)
    );
}

#[test]
fn key_manager_reports_a_corrupted_field() {
    let data = UserData { username: String::from("alice"), password: String::from("S3cret!") };
    let user = User::new_from_signup(false, data).unwrap();
    assert_eq!(
        user.decrypt_field(String::from("AAAA"), String::from("AAAAAAAAAAA=")),
        Err(ConfigError::CryptoFailure(EncryptionError::AuthenticationFailure))
    );
    assert_eq!(
        user.decrypt_field(String::from("AAAA"), String::from("")),
        Err(ConfigError::CryptoFailure(EncryptionError::DecodeFailure))
    );
}

#[test]
fn sealed_entries_open_in_order() {
    let encryption = Encryption::new(&[9u8; 32]);
    let texts = vec![String::from("one"), String::from(""), String::from("drei")];
    let sealed = seal_all(&encryption, &texts).unwrap();
    assert_eq!(sealed.len(), 3);
    assert_eq!(unseal_all(&encryption, &sealed), Ok(texts));
    assert_eq!(unseal_all(&encryption, &Vec::new()), Ok(Vec::new()));
}

#[test]
fn first_entry_that_does_not_open_gives_the_error() {
    let encryption = Encryption::new(&[9u8; 32]);
    let texts = vec![String::from("one"), String::from("two"), String::from("three")];
    let mut sealed = seal_all(&encryption, &texts).unwrap();
    sealed[1].data = String::from("%%%");
    sealed[2].iv = String::from("AAAAAAAAAAA=");
    assert_eq!(unseal_all(&encryption, &sealed), Err(EncryptionError::DecodeFailure));
    sealed[1] = Password::seal(&Encryption::new(&[8u8; 32]), "two").unwrap();
    assert_eq!(unseal_all(&encryption, &sealed), Err(EncryptionError::AuthenticationFailure));
}

#[test]
fn sealed_entry_opens_to_what_was_sealed() {
    let encryption = Encryption::new(&[9u8; 32]);
    let sealed = Password::seal(&encryption, "{\"uuid\":\"u\"}").unwrap();
    assert_eq!(sealed.iv.len(), 12);
    assert_ne!(sealed.data, "{\"uuid\":\"u\"}");
    assert_eq!(sealed.unseal(&encryption), Ok(String::from("{\"uuid\":\"u\"}")));
    let copy = sealed.clone();
    assert_eq!(copy.iv, sealed.iv);
    assert_eq!(copy.data, sealed.data);
}

#[test]
fn cipher_failure_becomes_a_crypto_failure() {
    assert_eq!(
        ConfigError::from(EncryptionError::AuthenticationFailure),
        ConfigError::CryptoFailure(EncryptionError::AuthenticationFailure)
    );
    assert_eq!(
        ConfigError::from(EncryptionError::DecodeFailure),
        ConfigError::CryptoFailure(EncryptionError::DecodeFailure)
    );
    assert_eq!(
        ConfigError::from(EncryptionError::TooLong),
        ConfigError::CryptoFailure(EncryptionError::TooLong)
    );
}

#[test]
fn stored_vault_needs_one_text_for_each_entry() {
    let data = UserData { username: String::from("alice"), password: String::from("S3cret!") };
    let mut user = User::new_from_signup(false, data).unwrap();
    user.new_password_with(String::from("a"));
    user.new_password_with(String::from("b"));
    let texts = serialized(&user);
    assert_eq!(texts.len(), 2);
    assert_eq!(RawUser::from_user(&user, &texts).unwrap().passwords.len(), 2);
    assert_eq!(
        RawUser::from_user(&user, &Vec::new()).map(|_| ()),
        Err(ConfigError::ParseFailure)
    );
    assert_eq!(
        RawUser::from_user(&user, &texts[..1].to_vec()).map(|_| ()),
        Err(ConfigError::ParseFailure)
    );
    let mut more = texts.clone();
    more.push(String::from("{}"));
    assert_eq!(RawUser::from_user(&user, &more).map(|_| ()), Err(ConfigError::ParseFailure));
    user.lock();
    assert_eq!(
        RawUser::from_user(&user, &Vec::new()).map(|_| ()),
        Err(ConfigError::NotAuthenticated)
    );
}
