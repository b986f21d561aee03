//! The vault of one user: what is stored of it, what is held of it while it
//! is open, and the steps between the two.

use crate::analysis::{analysis, answers_view, to_score, AnalyseResult, Answer};
use crate::backup::{backup_view, clone_backup, Backup, BackupView};
use crate::credentials::{
    authenticate, enroll, key_view, login_key, RawUserPassword, RawUserPasswordView,
};
use crate::encoding::texts_view;
use crate::encryption::{
    decrypted, encrypted, is_nonce, sealable, CipherText, Encryption, EncryptionError,
};
use crate::entry::{
    all_nonces, all_sealable, fresh_uuid, seal_all, sealed_view, unseal_all, unsealed_all,
    Password, PasswordData, PasswordDataView, PasswordType, PasswordView, UUID_LEN,
};
use crate::generator::PasswordGenerator;
use crate::manager::{
    create_entry, created, delete_entry, deleted, entries_view, list_entries, listed,
    listed_view, update_entry, updated,
};
use vstd::prelude::*;
use vstd::utf8::*;

verus! {

/// The credentials that a user types in. They are never stored.
#[derive(Debug)]
pub struct UserData {
    pub username: String,
    pub password: String,
}

/// The model of a `UserData`.
pub struct UserDataView {
    pub username: Seq<char>,
    pub password: Seq<char>,
}

impl View for UserData {
    type V = UserDataView;

    open spec fn view(&self) -> UserDataView {
        UserDataView { username: self.username@, password: self.password@ }
    }
}

impl Clone for UserData {
    fn clone(&self) -> (copy: Self)
        ensures
            copy@ == self@,
    {
        UserData { username: self.username.clone(), password: self.password.clone() }
    }
}

/// Why an operation on a vault failed.
#[derive(Clone, Copy, Debug, PartialEq, Eq, Structural)]
pub enum ConfigError {
    /// The vault's file could not be read or written.
    IOFailure,
    /// What is stored, or what is to be stored, is not a vault: a document
    /// that does not parse, or serialized entries that are not one for each
    /// entry.
    ParseFailure,
    /// A stored value did not decrypt, or a value could not be encrypted.
    CryptoFailure(EncryptionError),
    /// The login was refused. Nothing tells why: an unknown user, a wrong
    /// password and a damaged key all look the same.
    Unauthorized,
    /// A vault for the user exists already.
    AlreadyExists,
    /// No vault is open.
    NotAuthenticated,
}

impl From<EncryptionError> for ConfigError {
    /// A failure of the cipher engine, as a failure of the vault.
    fn from(cause: EncryptionError) -> (error: Self) {
        ConfigError::CryptoFailure(cause)
    }
}

impl vstd::std_specs::convert::FromSpecImpl<EncryptionError> for ConfigError {
    open spec fn obeys_from_spec() -> bool {
        true
    }

    open spec fn from_spec(cause: EncryptionError) -> Self {
        ConfigError::CryptoFailure(cause)
    }
}

/// A vault as it is stored: every entry sealed.
#[derive(Debug)]
pub struct RawUser {
    pub username: String,
    pub backup: Option<Backup>,
    pub password: RawUserPassword,
    pub passwords: Vec<Password>,
    pub generator: PasswordGenerator,
}

/// The model of a `RawUser`.
pub struct RawUserView {
    pub username: Seq<char>,
    pub backup: Option<BackupView>,
    pub password: RawUserPasswordView,
    pub passwords: Seq<PasswordView>,
    pub generator: PasswordGenerator,
}

impl View for RawUser {
    type V = RawUserView;

    open spec fn view(&self) -> RawUserView {
        RawUserView {
            username: self.username@,
            backup: backup_view(self.backup),
            password: self.password@,
            passwords: sealed_view(self.passwords@),
            generator: self.generator,
        }
    }
}

/// The model of a stored vault that may be absent.
pub open spec fn stored_view(stored: Option<RawUser>) -> Option<RawUserView> {
    match stored {
        Some(raw) => Some(raw@),
        None => None,
    }
}

/// The model of a `User`.
pub struct UserView {
    pub username: Seq<char>,
    pub backup: Option<BackupView>,
    /// The vault key, while the vault is unlocked.
    pub key: Option<Seq<u8>>,
    pub password: RawUserPasswordView,
    pub passwords: Seq<PasswordDataView>,
    pub generator: PasswordGenerator,
}

/// A vault while it is open: the vault key and every entry in plain form.
pub struct User {
    username: String,
    backup: Option<Backup>,
    encryption: Option<Encryption>,
    password: RawUserPassword,
    passwords: Vec<PasswordData>,
    generator: PasswordGenerator,
}

impl View for User {
    type V = UserView;

    closed spec fn view(&self) -> UserView {
        UserView {
            username: self.username@,
            backup: backup_view(self.backup),
            key: key_view(self.encryption),
            password: self.password@,
            passwords: entries_view(self.passwords@),
            generator: self.generator,
        }
    }
}

/// The stored backup pointer with its identifier decrypted under `key`.
pub open spec fn opened_backup(backup: Option<BackupView>, key: Seq<u8>) -> Result<
    Option<BackupView>,
    EncryptionError,
> {
    match backup {
        Some(b) => match b.opened(key) {
            Ok(opened) => Ok(Some(opened)),
            Err(e) => Err(e),
        },
        None => Ok(None),
    }
}

/// What unlocking the stored vault `raw` with the vault key `key` gives: the
/// open vault, still without entries, and the serialized form of each entry.
/// A backup pointer or an entry that does not decrypt gives `CryptoFailure`.
pub open spec fn unlocked(raw: RawUserView, key: Seq<u8>) -> Result<
    (UserView, Seq<Seq<char>>),
    ConfigError,
> {
    match opened_backup(raw.backup, key) {
        Ok(backup) => match unsealed_all(raw.passwords, key) {
            Ok(texts) => Ok(
                (
                    UserView {
                        username: raw.username,
                        backup,
                        key: Some(key),
                        password: raw.password,
                        passwords: Seq::<PasswordDataView>::empty(),
                        generator: raw.generator,
                    },
                    texts,
                ),
            ),
            Err(e) => Err(ConfigError::CryptoFailure(e)),
        },
        Err(e) => Err(ConfigError::CryptoFailure(e)),
    }
}

/// What a login with `password` gives on what is stored for the user: no
/// stored vault and a refused password both give `Unauthorized`.
pub open spec fn logged_in(stored: Option<RawUserView>, password: Seq<char>) -> Result<
    (UserView, Seq<Seq<char>>),
    ConfigError,
> {
    match stored {
        Some(raw) => match login_key(raw.password, password) {
            Some(key) => unlocked(raw, key),
            None => Err(ConfigError::Unauthorized),
        },
        None => Err(ConfigError::Unauthorized),
    }
}

/// A vault between its stored and its open form: unlocked, with every
/// stored entry decrypted to its serialized form and none parsed yet. It
/// takes no change and cannot be stored; `restore` makes the open vault of
/// it once the entries are parsed.
pub struct Unsealed {
    user: User,
    texts: Vec<String>,
}

impl View for Unsealed {
    type V = (UserView, Seq<Seq<char>>);

    closed spec fn view(&self) -> (UserView, Seq<Seq<char>>) {
        (self.user@, texts_view(self.texts@))
    }
}

/// The model of the result of a login.
pub open spec fn login_view(r: Result<Unsealed, ConfigError>) -> Result<
    (UserView, Seq<Seq<char>>),
    ConfigError,
> {
    match r {
        Ok(unsealed) => Ok(unsealed@),
        Err(e) => Err(e),
    }
}

/// What restoring the parsed `entries` into an unlocked vault gives: the
/// open vault with these entries, or `ParseFailure` where they are not one
/// for each stored entry.
pub open spec fn restored(
    user: UserView,
    texts: Seq<Seq<char>>,
    entries: Seq<PasswordDataView>,
) -> Result<UserView, ConfigError> {
    if entries.len() == texts.len() {
        Ok(UserView { passwords: entries, ..user })
    } else {
        Err(ConfigError::ParseFailure)
    }
}

/// The model of a result that holds an open vault.
pub open spec fn user_result(r: Result<User, ConfigError>) -> Result<UserView, ConfigError> {
    match r {
        Ok(user) => Ok(user@),
        Err(e) => Err(e),
    }
}

impl Unsealed {
    /// The serialized form of each stored entry, in their order.
    pub fn texts(&self) -> (texts: Vec<String>)
        ensures
            texts_view(texts@) == self@.1,
    {
        let mut texts: Vec<String> = Vec::new();
        let mut i: usize = 0;
        while i < self.texts.len()
            invariant
                i <= self.texts.len(),
                texts_view(texts@) == texts_view(self.texts@).take(i as int),
            decreases self.texts.len() - i,
        {
            texts.push(self.texts[i].clone());
            assert(texts_view(self.texts@).take(i + 1) =~= texts_view(self.texts@).take(
                i as int,
            ).push(self.texts@[i as int]@));
            i = i + 1;
        }
        texts
    }

    /// The open vault, with the entries that the serialized forms were
    /// parsed to: one for each stored entry, in their order.
    pub fn restore(self, entries: Vec<PasswordData>) -> (r: Result<User, ConfigError>)
        ensures
            user_result(r) == restored(self@.0, self@.1, entries_view(entries@)),
    {
        if entries.len() != self.texts.len() {
            return Err(ConfigError::ParseFailure);
        }
        let mut user = self.user;
        user.passwords = entries;
        Ok(user)
    }
}

/// The vault that a signup creates for `username`, given what was stored of
/// the password and the vault key.
pub open spec fn signed_up(username: Seq<char>, password: RawUserPasswordView, key: Seq<u8>) -> UserView {
    UserView {
        username,
        backup: None,
        key: Some(key),
        password,
        passwords: Seq::<PasswordDataView>::empty(),
        generator: PasswordGenerator { numbers: true, letters: true, symbols: true, length: 32 },
    }
}

/// The model of a text result of the key manager.
pub open spec fn field_view(r: Result<String, ConfigError>) -> Result<Seq<char>, ConfigError> {
    match r {
        Ok(text) => Ok(text@),
        Err(e) => Err(e),
    }
}

/// What decrypting a field gives under the key that is held, if any.
pub open spec fn field_decrypted(key: Option<Seq<u8>>, data: Seq<char>, iv: Seq<char>) -> Result<
    Seq<char>,
    ConfigError,
> {
    match key {
        Some(k) => match decrypted(k, data, iv) {
            Ok(text) => Ok(text),
            Err(e) => Err(ConfigError::CryptoFailure(e)),
        },
        None => Err(ConfigError::NotAuthenticated),
    }
}

/// A refused login tells nothing of its cause: where no vault is stored
/// for the user, and where the password does not unlock the one that is,
/// the result is the same `Unauthorized`.
pub proof fn lemma_refusal_tells_nothing(raw: RawUserView, password: Seq<char>)
    requires
        login_key(raw.password, password) is None,
    ensures
        logged_in(Some(raw), password) == logged_in(None, password),
        logged_in(None, password) == Err::<(UserView, Seq<Seq<char>>), ConfigError>(
            ConfigError::Unauthorized,
        ),
{
}

/// A stored vault opens again: where the password unlocks the vault key,
/// and the backup pointer and every sealed entry decrypt under it, the login
/// gives the vault with that key and the serialized form of each entry.
pub proof fn lemma_stored_vault_opens(
    raw: RawUserView,
    password: Seq<char>,
    key: Seq<u8>,
    backup: Option<BackupView>,
    texts: Seq<Seq<char>>,
)
    requires
        login_key(raw.password, password) == Some(key),
        opened_backup(raw.backup, key) == Ok::<Option<BackupView>, EncryptionError>(backup),
        unsealed_all(raw.passwords, key) == Ok::<Seq<Seq<char>>, EncryptionError>(texts),
    ensures
        logged_in(Some(raw), password) == Ok::<(UserView, Seq<Seq<char>>), ConfigError>(
            (
                UserView {
                    username: raw.username,
                    backup,
                    key: Some(key),
                    password: raw.password,
                    passwords: Seq::<PasswordDataView>::empty(),
                    generator: raw.generator,
                },
                texts,
            ),
        ),
{
}

impl User {
    /// The name of the user.
    pub fn username(&self) -> (name: String)
        ensures
            name@ == self@.username,
    {
        self.username.clone()
    }

    /// The settings of the password generator.
    pub fn generator(&self) -> (generator: PasswordGenerator)
        ensures
            generator == self@.generator,
    {
        self.generator
    }

    /// Replaces the settings of the password generator.
    pub fn update_generator(&mut self, generator: PasswordGenerator)
        ensures
            final(self)@ == (UserView { generator, ..old(self)@ }),
    {
        self.generator = generator;
    }

    /// The backup pointer, if there is one.
    pub fn backup(&self) -> (backup: Option<Backup>)
        ensures
            backup_view(backup) == self@.backup,
    {
        clone_backup(&self.backup)
    }

    /// The entries, every one in plain form.
    pub fn passwords(&self) -> (list: Vec<PasswordType>)
        ensures
            listed_view(list@) == listed(self@.passwords),
    {
        list_entries(&self.passwords)
    }

    /// Whether the vault key is held.
    pub fn is_unlocked(&self) -> (unlocked: bool)
        ensures
            unlocked == self@.key is Some,
    {
        self.encryption.is_some()
    }

    /// Drops the vault key. Nothing can be encrypted or decrypted after.
    pub fn lock(&mut self)
        ensures
            final(self)@ == (UserView { key: None, ..old(self)@ }),
    {
        self.encryption = None;
    }

    /// Creates the vault of a new user: a fresh vault key, wrapped under the
    /// password, and no entries. `exists` tells whether a vault is stored
    /// for the user already; no vault is created over one. A login with the
    /// same password unlocks the same vault key.
    pub fn new_from_signup(exists: bool, data: UserData) -> (r: Result<Self, ConfigError>)
        ensures
            exists ==> r == Err::<Self, ConfigError>(ConfigError::AlreadyExists),
            !exists ==> ({
                &&& r matches Ok(user)
                &&& user@.key matches Some(key)
                &&& user@ == signed_up(data.username@, user@.password, key)
                &&& login_key(user@.password, data.password@) == Some(key)
            }),
    {
        if exists {
            return Err(ConfigError::AlreadyExists);
        }
        let (password, encryption) = enroll(data.password.as_str());
        let user = User {
            username: data.username,
            backup: None,
            encryption: Some(encryption),
            password,
            passwords: Vec::new(),
            generator: PasswordGenerator::default(),
        };
        assert(user@.passwords =~= Seq::<PasswordDataView>::empty());
        Ok(user)
    }

    /// Opens the vault that is stored for a user, `stored`, with the
    /// password typed in. The vault comes back unlocked but not yet open:
    /// it holds the serialized form of each stored entry, and
    /// `Unsealed::restore` takes the entries once they are parsed.
    pub fn new_from_login(stored: Option<RawUser>, data: UserData) -> (r: Result<
        Unsealed,
        ConfigError,
    >)
        ensures
            login_view(r) == logged_in(stored_view(stored), data.password@),
    {
        let raw = match stored {
            Some(raw) => raw,
            None => {
                return Err(ConfigError::Unauthorized);
            },
        };
        let encryption = match authenticate(&raw.password, data.password.as_str()) {
            Some(encryption) => encryption,
            None => {
                return Err(ConfigError::Unauthorized);
            },
        };
        let RawUser { username, backup, password, passwords, generator } = raw;
        let backup = match backup {
            Some(b) => match b.init_from_login(&encryption) {
                Ok(opened) => Some(opened),
                Err(e) => {
                    return Err(ConfigError::from(e));
                },
            },
            None => None,
        };
        let texts = match unseal_all(&encryption, &passwords) {
            Ok(texts) => texts,
            Err(e) => {
                return Err(ConfigError::from(e));
            },
        };
        let user = User {
            username,
            backup,
            encryption: Some(encryption),
            password,
            passwords: Vec::new(),
            generator,
        };
        assert(user@.passwords =~= Seq::<PasswordDataView>::empty());
        Ok(Unsealed { user, texts })
    }

    /// Creates an entry under a fresh random identifier: named "Unnamed",
    /// everything else absent. It is appended and returned.
    pub fn new_password(&mut self) -> (entry: PasswordData)
        ensures
            entry@ == PasswordDataView::placeholder(entry@.uuid),
            entry@.uuid.len() == UUID_LEN,
            final(self)@ == (UserView {
                passwords: created(old(self)@.passwords, entry@.uuid),
                ..old(self)@
            }),
    {
        let uuid = fresh_uuid();
        self.new_password_with(uuid)
    }

    /// Creates an entry under the identifier `uuid`: named "Unnamed",
    /// everything else absent. It is appended and returned.
    pub fn new_password_with(&mut self, uuid: String) -> (entry: PasswordData)
        ensures
            entry@ == PasswordDataView::placeholder(uuid@),
            final(self)@ == (UserView {
                passwords: created(old(self)@.passwords, uuid@),
                ..old(self)@
            }),
    {
        create_entry(&mut self.passwords, uuid)
    }

    /// Replaces the entry that has the identifier of `data` by `data`.
    /// Nothing changes where no entry has it.
    pub fn update_password(&mut self, data: PasswordData)
        ensures
            final(self)@ == (UserView {
                passwords: updated(old(self)@.passwords, data@),
                ..old(self)@
            }),
    {
        update_entry(&mut self.passwords, &data);
    }

    /// Removes the entry that has the identifier of `data`. Nothing changes
    /// where no entry has it.
    pub fn delete_password(&mut self, data: PasswordData)
        ensures
            final(self)@ == (UserView {
                passwords: deleted(old(self)@.passwords, data@.uuid),
                ..old(self)@
            }),
    {
        delete_entry(&mut self.passwords, &data.uuid);
    }

    /// The passwords that are to be scored by the strength oracle: the
    /// password of each entry that has one, in the order of the entries.
    pub fn passwords_to_score(&self) -> (list: Vec<String>)
        ensures
            texts_view(list@) == to_score(self@.passwords),
    {
        crate::analysis::passwords_to_score(&self.passwords)
    }

    /// Analyses the entries under the answers of the strength oracle: which
    /// passwords are used more than once, and the bucket of each password by
    /// its score.
    pub fn analyse_passwords(&self, answers: &Vec<Answer>) -> (result: AnalyseResult)
        ensures
            result@ == analysis(self@.passwords, answers_view(answers@)),
    {
        crate::analysis::analyse_scored(&self.passwords, answers)
    }

    /// Encrypts a text under the vault key.
    pub fn encrypt_field(&self, plaintext: &str) -> (r: Result<CipherText, ConfigError>)
        ensures
            match self@.key {
                Some(key) => {
                    &&& r is Ok <==> sealable(encode_utf8(plaintext@).len() as int)
                    &&& r matches Err(e) ==> e == ConfigError::CryptoFailure(
                        EncryptionError::TooLong,
                    )
                    &&& r matches Ok(c) ==> is_nonce(c.nonce@) && c@ == encrypted(
                        key,
                        plaintext@,
                        c.nonce@,
                    ) && decrypted(key, c.ciphertext@, c.nonce@) == Ok::<
                        Seq<char>,
                        EncryptionError,
                    >(plaintext@)
                },
                None => r matches Err(e) && e == ConfigError::NotAuthenticated,
            },
    {
        match &self.encryption {
            Some(encryption) => match encryption.encrypt(plaintext) {
                Ok(c) => Ok(c),
                Err(e) => Err(ConfigError::from(e)),
            },
            None => Err(ConfigError::NotAuthenticated),
        }
    }

    /// Decrypts a stored text with its nonce under the vault key.
    pub fn decrypt_field(&self, data: String, iv: String) -> (r: Result<String, ConfigError>)
        ensures
            field_view(r) == field_decrypted(self@.key, data@, iv@),
    {
        match &self.encryption {
            Some(encryption) => match encryption.decrypt(data, iv) {
                Ok(text) => Ok(text),
                Err(e) => Err(ConfigError::from(e)),
            },
            None => Err(ConfigError::NotAuthenticated),
        }
    }
}

/// Whether `r` is what storing the open vault `user` gives, where `texts` are
/// the serialized forms of its entries. A locked vault gives
/// `NotAuthenticated`. Texts that are not one for each entry give
/// `ParseFailure`, and a text too long to seal gives `CryptoFailure`.
/// Otherwise the stored vault holds what the open one holds, with one
/// sealed entry for each entry of the vault, each under the text of a
/// nonce, and opens to `texts` again under the vault key.
pub open spec fn stored_as(user: UserView, texts: Seq<Seq<char>>, r: Result<RawUser, ConfigError>) -> bool {
    match user.key {
        Some(key) => if texts.len() != user.passwords.len() {
            r matches Err(e) && e == ConfigError::ParseFailure
        } else if !all_sealable(texts) {
            r matches Err(e) && e == ConfigError::CryptoFailure(EncryptionError::TooLong)
        } else {
            &&& r matches Ok(raw)
            &&& raw@.username == user.username
            &&& raw@.backup == user.backup
            &&& raw@.password == user.password
            &&& raw@.generator == user.generator
            &&& raw@.passwords.len() == user.passwords.len()
            &&& all_nonces(raw@.passwords)
            &&& unsealed_all(raw@.passwords, key) == Ok::<Seq<Seq<char>>, EncryptionError>(texts)
        },
        None => r matches Err(e) && e == ConfigError::NotAuthenticated,
    }
}

impl RawUser {
    /// The stored form of an open vault: every entry sealed under the vault
    /// key, each under a fresh nonce. `serialized` holds the serialized form
    /// of each entry of the vault, one for each entry and in their order.
    /// What comes back opens to the same texts again under the vault key.
    pub fn from_user(user: &User, serialized: &Vec<String>) -> (r: Result<Self, ConfigError>)
        ensures
            stored_as(user@, texts_view(serialized@), r),
    {
        let encryption = match &user.encryption {
            Some(encryption) => encryption,
            None => {
                return Err(ConfigError::NotAuthenticated);
            },
        };
        if serialized.len() != user.passwords.len() {
            return Err(ConfigError::ParseFailure);
        }
        let passwords = match seal_all(encryption, serialized) {
            Ok(passwords) => passwords,
            Err(e) => {
                return Err(ConfigError::from(e));
            },
        };
        Ok(
            RawUser {
                username: user.username.clone(),
                backup: clone_backup(&user.backup),
                password: user.password.clone(),
                passwords,
                generator: user.generator,
            },
        )
    }
}

} // verus!
