//! The operations of a session: at most one vault is open at a time, and
//! every operation on entries is refused while none is.
//!
//! The session is an explicit value that the host owns and hands to every
//! operation. Reading and writing the stored vault is the host's part: a
//! login takes what the host read, and `seal` gives what the host writes
//! after every change. So is parsing the entries, which `restore` takes,
//! and asking the strength oracle, whose answers the analysis takes.

use crate::analysis::{
    analysis, answers_view, strength, strength_of, to_score, AnalyseResult, Answer,
};
use crate::credentials::login_key;
use crate::encoding::texts_view;
use crate::encryption::{decrypted, is_nonce, sealable, CipherText, EncryptionError};
use crate::entry::{PasswordData, PasswordDataView, PasswordType, UUID_LEN};
use crate::generator::{chosen, generated, PasswordGenerator};
use crate::manager::{created, deleted, entries_view, listed, listed_view, updated};
use crate::user::{
    field_decrypted, field_view, logged_in, login_view, restored, signed_up, stored_as,
    stored_view, ConfigError, RawUser, Unsealed, User, UserData, UserView,
};
use vstd::prelude::*;
use vstd::utf8::*;

verus! {

/// The session: the vault that is open, if any.
pub struct UserState {
    pub user: Option<User>,
}

impl View for UserState {
    type V = Option<UserView>;

    open spec fn view(&self) -> Option<UserView> {
        match self.user {
            Some(user) => Some(user@),
            None => None,
        }
    }
}

/// The result of an operation as the host's front end sees it: a failure
/// tells nothing of its cause.
pub fn opaque<T>(r: Result<T, ConfigError>) -> (flat: Result<T, ()>)
    ensures
        match r {
            Ok(value) => flat == Ok::<T, ()>(value),
            Err(_) => flat is Err,
        },
{
    match r {
        Ok(value) => Ok(value),
        Err(_) => Err(()),
    }
}

impl UserState {
    /// A session with no vault open.
    pub fn new() -> (state: Self)
        ensures
            state@ is None,
    {
        UserState { user: None }
    }
}

/// Unlocks the vault that is stored for a user, `stored`, with the password
/// typed in. The session is not touched: the vault comes back unlocked, with
/// the serialized form of each stored entry, and `restore` opens it in the
/// session once the entries are parsed.
pub fn login(stored: Option<RawUser>, data: UserData) -> (r: Result<Unsealed, ConfigError>)
    ensures
        login_view(r) == logged_in(stored_view(stored), data.password@),
{
    User::new_from_login(stored, data)
}

/// Creates the vault of a new user and opens it. `exists` tells whether a
/// vault is stored for the user already. A session that holds an open vault
/// takes no signup, and no vault is created over a stored one: both give
/// `AlreadyExists` and leave the session as it was.
pub fn signup(state: &mut UserState, exists: bool, data: UserData) -> (r: Result<(), ConfigError>)
    ensures
        old(state)@ is Some || exists ==> r == Err::<(), ConfigError>(ConfigError::AlreadyExists)
            && final(state)@ == old(state)@,
        old(state)@ is None && !exists ==> ({
            &&& r is Ok
            &&& final(state)@ matches Some(user)
            &&& user.key matches Some(key)
            &&& user == signed_up(data.username@, user.password, key)
            &&& login_key(user.password, data.password@) == Some(key)
        }),
{
    if state.user.is_some() {
        return Err(ConfigError::AlreadyExists);
    }
    match User::new_from_signup(exists, data) {
        Ok(user) => {
            state.user = Some(user);
            Ok(())
        },
        Err(e) => Err(e),
    }
}

/// Closes the vault: the vault key and the plain entries are dropped.
pub fn logout(state: &mut UserState)
    ensures
        final(state)@ is None,
{
    state.user = None;
}

/// Opens an unlocked vault in the session, with the entries that its
/// serialized forms were parsed to: one for each stored entry, in their
/// order. It takes the place of a vault that was open. Entries that are not
/// one for each stored entry give `ParseFailure` and leave the session as it
/// was.
pub fn restore(state: &mut UserState, unsealed: Unsealed, entries: Vec<PasswordData>) -> (r:
    Result<(), ConfigError>)
    ensures
        match restored(unsealed@.0, unsealed@.1, entries_view(entries@)) {
            Ok(user) => r is Ok && final(state)@ == Some(user),
            Err(e) => r == Err::<(), ConfigError>(e) && final(state)@ == old(state)@,
        },
{
    match unsealed.restore(entries) {
        Ok(user) => {
            state.user = Some(user);
            Ok(())
        },
        Err(e) => Err(e),
    }
}

/// The stored form of the open vault, for the host to write: every entry
/// sealed under the vault key. `serialized` holds the serialized form of
/// each entry, one for each entry and in their order.
pub fn seal(state: &UserState, serialized: &Vec<String>) -> (r: Result<RawUser, ConfigError>)
    ensures
        match state@ {
            Some(user) => stored_as(user, texts_view(serialized@), r),
            None => r matches Err(e) && e == ConfigError::NotAuthenticated,
        },
{
    match &state.user {
        Some(user) => RawUser::from_user(user, serialized),
        None => Err(ConfigError::NotAuthenticated),
    }
}

/// The entries of the open vault.
pub fn get_passwords(state: &UserState) -> (r: Result<Vec<PasswordType>, ConfigError>)
    ensures
        match state@ {
            Some(user) => r matches Ok(list) && listed_view(list@) == listed(user.passwords),
            None => r matches Err(e) && e == ConfigError::NotAuthenticated,
        },
{
    match &state.user {
        Some(user) => Ok(user.passwords()),
        None => Err(ConfigError::NotAuthenticated),
    }
}

/// Creates an entry in the open vault under a fresh random identifier:
/// named "Unnamed", everything else absent. It is appended and returned.
pub fn new_password(state: &mut UserState) -> (r: Result<PasswordData, ConfigError>)
    ensures
        match old(state)@ {
            Some(user) => {
                &&& r matches Ok(entry)
                &&& entry@ == PasswordDataView::placeholder(entry@.uuid)
                &&& entry@.uuid.len() == UUID_LEN
                &&& final(state)@ == Some(
                    UserView { passwords: created(user.passwords, entry@.uuid), ..user },
                )
            },
            None => r matches Err(e) && e == ConfigError::NotAuthenticated && final(state)@
                is None,
        },
{
    match &mut state.user {
        Some(user) => Ok(user.new_password()),
        None => Err(ConfigError::NotAuthenticated),
    }
}

/// Replaces the entry of the open vault that has the identifier of `data`
/// by `data`. Nothing changes where no entry has it.
pub fn update_password(state: &mut UserState, data: PasswordData) -> (r: Result<(), ConfigError>)
    ensures
        match old(state)@ {
            Some(user) => r is Ok && final(state)@ == Some(
                UserView { passwords: updated(user.passwords, data@), ..user },
            ),
            None => r == Err::<(), ConfigError>(ConfigError::NotAuthenticated) && final(state)@
                is None,
        },
{
    match &mut state.user {
        Some(user) => {
            user.update_password(data);
            Ok(())
        },
        None => Err(ConfigError::NotAuthenticated),
    }
}

/// Removes the entry of the open vault that has the identifier of `data`.
/// Nothing changes where no entry has it.
pub fn delete_password(state: &mut UserState, data: PasswordData) -> (r: Result<(), ConfigError>)
    ensures
        match old(state)@ {
            Some(user) => r is Ok && final(state)@ == Some(
                UserView { passwords: deleted(user.passwords, data@.uuid), ..user },
            ),
            None => r == Err::<(), ConfigError>(ConfigError::NotAuthenticated) && final(state)@
                is None,
        },
{
    match &mut state.user {
        Some(user) => {
            user.delete_password(data);
            Ok(())
        },
        None => Err(ConfigError::NotAuthenticated),
    }
}

/// The strength of a password under the answers of the strength oracle,
/// from 0 to `MAX_SCORE`. The empty password is not scored, and a password
/// without an answer has no strength.
pub fn password_strength(password: String, answers: &Vec<Answer>) -> (r: Result<u8, ()>)
    ensures
        r == strength_of(answers_view(answers@), password@),
{
    strength(answers, &password)
}

/// The passwords of the open vault that are to be scored by the strength
/// oracle: the password of each entry that has one, in the order of the
/// entries.
pub fn passwords_to_score(state: &UserState) -> (r: Result<Vec<String>, ConfigError>)
    ensures
        match state@ {
            Some(user) => r matches Ok(list) && texts_view(list@) == to_score(user.passwords),
            None => r matches Err(e) && e == ConfigError::NotAuthenticated,
        },
{
    match &state.user {
        Some(user) => Ok(user.passwords_to_score()),
        None => Err(ConfigError::NotAuthenticated),
    }
}

/// Analyses the entries of the open vault under the answers of the strength
/// oracle: which passwords are used more than once, and the bucket of each
/// password by its score.
pub fn analyse(state: &UserState, answers: &Vec<Answer>) -> (r: Result<
    AnalyseResult,
    ConfigError,
>)
    ensures
        match state@ {
            Some(user) => r matches Ok(result) && result@ == analysis(
                user.passwords,
                answers_view(answers@),
            ),
            None => r matches Err(e) && e == ConfigError::NotAuthenticated,
        },
{
    match &state.user {
        Some(user) => Ok(user.analyse_passwords(answers)),
        None => Err(ConfigError::NotAuthenticated),
    }
}

/// Replaces the generator settings of the open vault.
pub fn update_generator(state: &mut UserState, generator: PasswordGenerator) -> (r: Result<
    (),
    ConfigError,
>)
    ensures
        match old(state)@ {
            Some(user) => r is Ok && final(state)@ == Some(UserView { generator, ..user }),
            None => r == Err::<(), ConfigError>(ConfigError::NotAuthenticated) && final(state)@
                is None,
        },
{
    match &mut state.user {
        Some(user) => {
            user.update_generator(generator);
            Ok(())
        },
        None => Err(ConfigError::NotAuthenticated),
    }
}

/// The generator settings of the open vault.
pub fn get_generator(state: &UserState) -> (r: Result<PasswordGenerator, ConfigError>)
    ensures
        match state@ {
            Some(user) => r == Ok::<PasswordGenerator, ConfigError>(user.generator),
            None => r == Err::<PasswordGenerator, ConfigError>(ConfigError::NotAuthenticated),
        },
{
    match &state.user {
        Some(user) => Ok(user.generator()),
        None => Err(ConfigError::NotAuthenticated),
    }
}

/// A random password under the settings `generator`, or under those of the
/// open vault where none are given.
pub fn generate_password(state: &UserState, generator: Option<PasswordGenerator>) -> (r: Result<
    String,
    ConfigError,
>)
    ensures
        match state@ {
            Some(user) => r matches Ok(password) && exists|numbers: Seq<u8>|
                numbers.len() == chosen(user.generator, generator).length && password@
                    == #[trigger] generated(chosen(user.generator, generator), numbers),
            None => r matches Err(e) && e == ConfigError::NotAuthenticated,
        },
{
    match &state.user {
        Some(user) => Ok(user.generator().generate(generator)),
        None => Err(ConfigError::NotAuthenticated),
    }
}

/// Encrypts a text under the key of the open vault.
pub fn encrypt(state: &UserState, data: String) -> (r: Result<CipherText, ConfigError>)
    ensures
        match state@ {
            Some(user) => match user.key {
                Some(key) => {
                    &&& r is Ok <==> sealable(encode_utf8(data@).len() as int)
                    &&& r matches Err(e) ==> e == ConfigError::CryptoFailure(
                        EncryptionError::TooLong,
                    )
                    &&& r matches Ok(c) ==> is_nonce(c.nonce@) && decrypted(
                        key,
                        c.ciphertext@,
                        c.nonce@,
                    ) == Ok::<Seq<char>, EncryptionError>(data@)
                },
                None => r matches Err(e) && e == ConfigError::NotAuthenticated,
            },
            None => r matches Err(e) && e == ConfigError::NotAuthenticated,
        },
{
    match &state.user {
        Some(user) => user.encrypt_field(data.as_str()),
        None => Err(ConfigError::NotAuthenticated),
    }
}

/// Decrypts a stored text with its nonce under the key of the open vault.
pub fn decrypt(state: &UserState, data: String, iv: String) -> (r: Result<String, ConfigError>)
    ensures
        field_view(r) == match state@ {
            Some(user) => field_decrypted(user.key, data@, iv@),
            None => Err(ConfigError::NotAuthenticated),
        },
{
    match &state.user {
        Some(user) => user.decrypt_field(data, iv),
        None => Err(ConfigError::NotAuthenticated),
    }
}

} // verus!
