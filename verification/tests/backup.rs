use credvault::backup::{clone_backup, Backup, BackupUser};
use credvault::encryption::{Encryption, EncryptionError};
use credvault::user::{ConfigError, RawUser, User, UserData};

#[test]
fn pointer_after_signup_is_switched_on_without_nonce() {
    let user = BackupUser {
        password: String::from("hash"),
        uuid: String::from("account"),
        data: String::new(),
    };
    let backup = Backup::from_signup(String::from("http://localhost:8787"), user);
    assert_eq!(backup.uuid, "account");
    assert_eq!(backup.url, "http://localhost:8787");
    assert!(backup.enabled);
    assert_eq!(backup.iv, "");
}

#[test]
fn getters_give_the_fields() {
    let backup = Backup {
        uuid: String::from("account"),
        url: String::from("url"),
        enabled: false,
        iv: String::from("iv"),
    };
    assert_eq!(backup.clone().uuid(), "account");
    assert!(!backup.clone().enabled());
    let copy = clone_backup(&Some(backup)).unwrap();
    assert_eq!(copy.url, "url");
    assert_eq!(copy.iv, "iv");
    assert!(clone_backup(&None).is_none());
}

#[test]
fn login_decrypts_the_stored_identifier() {
    let encryption = Encryption::new(&[3u8; 32]);
    let sealed = encryption.encrypt("account").unwrap();
    let backup = Backup {
        uuid: sealed.ciphertext,
        url: String::from("url"),
        enabled: true,
        iv: sealed.nonce.clone(),
    };
    let opened = backup.init_from_login(&encryption).unwrap();
    assert_eq!(opened.uuid, "account");
    assert_eq!(opened.url, "url");
    assert!(opened.enabled);
    assert_eq!(opened.iv, sealed.nonce);
}

#[test]
fn identifier_that_does_not_decrypt_gives_the_error() {
    let encryption = Encryption::new(&[3u8; 32]);
    let plain = Backup {
        uuid: String::from("account"),
        url: String::from("url"),
        enabled: true,
        iv: String::new(),
    };
    assert_eq!(
        plain.init_from_login(&encryption).map(|_| ()),
        Err(EncryptionError::DecodeFailure)
    );
    let sealed = Encryption::new(&[4u8; 32]).encrypt("account").unwrap();
    let foreign = Backup {
        uuid: sealed.ciphertext,
        url: String::from("url"),
        enabled: true,
        iv: sealed.nonce,
    };
    assert_eq!(
        foreign.init_from_login(&encryption).map(|_| ()),
        Err(EncryptionError::AuthenticationFailure)
    );
}

#[test]
fn vault_with_a_backup_pointer_opens_with_the_identifier_decrypted() {
    let data = UserData { username: String::from("alice"), password: String::from("S3cret!") };
    let user = User::new_from_signup(false, data.clone()).unwrap();
    let sealed = user.encrypt_field("account").unwrap();
    let mut stored = RawUser::from_user(&user, &Vec::new()).unwrap();
    stored.backup = Some(Backup {
        uuid: sealed.ciphertext,
        url: String::from("url"),
        enabled: true,
        iv: sealed.nonce,
    });
    let opened = User::new_from_login(Some(stored), data.clone())
        .unwrap()
        .restore(Vec::new())
        .unwrap();
    assert_eq!(opened.backup().unwrap().uuid, "account");

    let mut stored = RawUser::from_user(&user, &Vec::new()).unwrap();
    stored.backup = Some(Backup {
        uuid: String::from("account"),
        url: String::from("url"),
        enabled: true,
        iv: String::new(),
    });
    assert_eq!(
        User::new_from_login(Some(stored), data).map(|_| ()),
        Err(ConfigError::CryptoFailure(EncryptionError::DecodeFailure))
    );
}
