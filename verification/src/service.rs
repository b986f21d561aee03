//! The account side of the backup service: what it keeps of an account and
//! of the passwords stored with it, and what it decides on a login. Storage
//! and tokens are the host's part.

use crate::credentials::{check_password, hash_new_password, kdf_verified};
use crate::encoding::{
    base64_bytes, base64_decode, base64_encode, base64_len, base64_text, chars_of,
    text_of_chars, text_view, utf8_to_string,
};
use crate::entry::{fresh_uuid, UUID_LEN};
use vstd::prelude::*;
use vstd::string::StringExecFns;
use vstd::utf8::*;

verus! {

/// The credentials of a login at the service.
#[derive(Debug)]
pub struct AuthUser {
    pub username: String,
    pub password: String,
}

/// The model of an `AuthUser`.
pub struct AuthUserView {
    pub username: Seq<char>,
    pub password: Seq<char>,
}

impl View for AuthUser {
    type V = AuthUserView;

    open spec fn view(&self) -> AuthUserView {
        AuthUserView { username: self.username@, password: self.password@ }
    }
}

/// What a token says of its bearer.
#[derive(Debug)]
pub struct UserClaims {
    pub username: String,
}

impl View for UserClaims {
    type V = Seq<char>;

    open spec fn view(&self) -> Seq<char> {
        self.username@
    }
}

/// A token as the service hands it out for an account.
#[derive(Debug)]
pub struct Token {
    pub token: String,
}

impl View for Token {
    type V = Seq<char>;

    open spec fn view(&self) -> Seq<char> {
        self.token@
    }
}

/// A token as the service hands it out after a login.
#[derive(Debug)]
pub struct TokenResponse {
    pub token: String,
}

impl View for TokenResponse {
    type V = Seq<char>;

    open spec fn view(&self) -> Seq<char> {
        self.token@
    }
}

/// Whether a login is accepted, given the hash that is stored for the user,
/// if any: the password must verify against it.
pub open spec fn login_accepted(stored: Option<Seq<char>>, password: Seq<char>) -> bool {
    match stored {
        Some(hash) => kdf_verified(encode_utf8(password), hash),
        None => false,
    }
}

impl AuthUser {
    /// The name of the user.
    pub fn username(&self) -> (name: String)
        ensures
            name@ == self@.username,
    {
        self.username.clone()
    }

    /// Decides a login, given the hash that is stored for the user, if any.
    /// An unknown user and a wrong password are refused alike.
    pub fn verify_login(&self, stored: Option<&str>) -> (r: Result<(), ()>)
        ensures
            r is Ok <==> login_accepted(
                match stored {
                    Some(hash) => Some(hash@),
                    None => None,
                },
                self@.password,
            ),
    {
        match stored {
            Some(hash) => if check_password(self.password.as_str(), hash) {
                Ok(())
            } else {
                Err(())
            },
            None => Err(()),
        }
    }
}

impl UserClaims {
    /// The name of the bearer.
    pub fn username(&self) -> (name: String)
        ensures
            name@ == self@,
    {
        self.username.clone()
    }
}

/// One password as the service keeps it: the data, which the client
/// encrypted, under an identifier.
#[derive(Debug)]
pub struct Password {
    pub data: String,
    pub uuid: String,
}

/// The model of a `Password` of the service.
pub struct PasswordView {
    pub data: Seq<char>,
    pub uuid: Seq<char>,
}

impl View for Password {
    type V = PasswordView;

    open spec fn view(&self) -> PasswordView {
        PasswordView { data: self.data@, uuid: self.uuid@ }
    }
}

impl Clone for Password {
    fn clone(&self) -> (copy: Self)
        ensures
            copy@ == self@,
    {
        Password { data: self.data.clone(), uuid: self.uuid.clone() }
    }
}

impl Password {
    /// Keeps `data` under a fresh random identifier.
    pub fn new(data: String) -> (password: Self)
        ensures
            password@.data == data@,
            password@.uuid.len() == UUID_LEN,
    {
        Password { data, uuid: fresh_uuid() }
    }

    /// The data.
    pub fn data(&self) -> (data: String)
        ensures
            data@ == self@.data,
    {
        self.data.clone()
    }
}

/// The model of a list of passwords of the service.
pub open spec fn passwords_view(passwords: Seq<Password>) -> Seq<PasswordView> {
    passwords.map_values(|p: Password| p@)
}

/// The model of a list of passwords that may be absent.
pub open spec fn stored_passwords(stored: Option<Vec<Password>>) -> Option<Seq<PasswordView>> {
    match stored {
        Some(list) => Some(passwords_view(list@)),
        None => None,
    }
}

/// The passwords without the ones under the identifier `uuid`.
pub open spec fn without(passwords: Seq<PasswordView>, uuid: Seq<char>) -> Seq<PasswordView> {
    passwords.filter(|p: PasswordView| p.uuid != uuid)
}

/// The passwords with `new` in place of each one under its identifier.
pub open spec fn replaced(passwords: Seq<PasswordView>, new: PasswordView) -> Seq<PasswordView> {
    passwords.map_values(
        |p: PasswordView|
            if p.uuid == new.uuid {
                new
            } else {
                p
            },
    )
}

/// What is stored after a password was removed from what is stored for an
/// account: the others, in their order. Nothing is stored where nothing
/// was.
pub fn delete_password(stored: Option<Vec<Password>>, uuid: &String) -> (kept: Option<
    Vec<Password>,
>)
    ensures
        stored_passwords(kept) == match stored_passwords(stored) {
            Some(list) => Some(without(list, uuid@)),
            None => None,
        },
{
    let list = match stored {
        Some(list) => list,
        None => {
            return None;
        },
    };
    let ghost before = passwords_view(list@);
    let ghost keep = |p: PasswordView| p.uuid != uuid@;
    let mut kept: Vec<Password> = Vec::new();
    let mut i: usize = 0;
    proof {
        reveal(Seq::filter);
    }
    while i < list.len()
        invariant
            i <= list.len(),
            before == passwords_view(list@),
            keep == |p: PasswordView| p.uuid != uuid@,
            passwords_view(kept@) == before.take(i as int).filter(keep),
        decreases list.len() - i,
    {
        proof {
            reveal(Seq::filter);
            assert(before.take(i + 1).drop_last() =~= before.take(i as int));
        }
        if list[i].uuid != *uuid {
            kept.push(list[i].clone());
        }
        i = i + 1;
    }
    assert(before.take(i as int) =~= before);
    Some(kept)
}

/// What is stored after `data` was added, under a fresh random identifier,
/// to what is stored for an account: it comes last. Where nothing was
/// stored, it is the only one.
pub fn create_password(stored: Option<Vec<Password>>, data: String) -> (list: Vec<Password>)
    ensures
        passwords_view(list@).len() > 0,
        passwords_view(list@).last().data == data@,
        passwords_view(list@).last().uuid.len() == UUID_LEN,
        passwords_view(list@).drop_last() == match stored_passwords(stored) {
            Some(before) => before,
            None => Seq::<PasswordView>::empty(),
        },
{
    let mut list = match stored {
        Some(list) => list,
        None => Vec::new(),
    };
    list.push(Password::new(data));
    list
}

/// What is stored after `new` took the place of the password under its
/// identifier in what is stored for an account. Nothing is stored where
/// nothing was.
pub fn edit_password(stored: Option<Vec<Password>>, new: &Password) -> (edited: Option<
    Vec<Password>,
>)
    ensures
        stored_passwords(edited) == match stored_passwords(stored) {
            Some(list) => Some(replaced(list, new@)),
            None => None,
        },
{
    let list = match stored {
        Some(list) => list,
        None => {
            return None;
        },
    };
    let ghost before = passwords_view(list@);
    let mut edited: Vec<Password> = Vec::new();
    let mut i: usize = 0;
    while i < list.len()
        invariant
            i <= list.len(),
            before == passwords_view(list@),
            passwords_view(edited@) == replaced(before, new@).take(i as int),
        decreases list.len() - i,
    {
        if list[i].uuid == new.uuid {
            edited.push(new.clone());
        } else {
            edited.push(list[i].clone());
        }
        assert(passwords_view(edited@) =~= replaced(before, new@).take(i as int).push(
            replaced(before, new@)[i as int],
        ));
        i = i + 1;
    }
    Some(edited)
}

/// An account at the service: its identifier, the hash of its password, and
/// the data backed up for it, which the client encrypted.
#[derive(Debug)]
pub struct User {
    pub uuid: String,
    pub password: String,
    pub data: String,
}

/// The model of a `User` of the service.
pub struct UserView {
    pub uuid: Seq<char>,
    pub password: Seq<char>,
    pub data: Seq<char>,
}

impl View for User {
    type V = UserView;

    open spec fn view(&self) -> UserView {
        UserView { uuid: self.uuid@, password: self.password@, data: self.data@ }
    }
}

impl Clone for User {
    fn clone(&self) -> (copy: Self)
        ensures
            copy@ == self@,
    {
        User { uuid: self.uuid.clone(), password: self.password.clone(), data: self.data.clone() }
    }
}

/// The model of an account that may be absent.
pub open spec fn account_view(account: Option<User>) -> Option<UserView> {
    match account {
        Some(user) => Some(user@),
        None => None,
    }
}

impl User {
    /// A new account for `password`: a fresh random identifier, the hash of
    /// the password under a fresh random salt, and no data. The password
    /// verifies against the hash.
    pub fn create_new(password: String) -> (user: Self)
        ensures
            user@.uuid.len() == UUID_LEN,
            user@.data.len() == 0,
            kdf_verified(encode_utf8(password@), user@.password),
    {
        let hash = hash_new_password(password.as_str());
        User { uuid: fresh_uuid(), password: hash, data: String::new() }
    }

    /// Decides a login, given the account that is stored under the
    /// identifier typed in, if any: the account, where the password verifies
    /// against its hash. An unknown account and a wrong password are
    /// refused alike.
    pub fn new_from_login(stored: Option<Self>, password: String) -> (r: Result<Self, ()>)
        ensures
            match stored {
                Some(user) => if kdf_verified(encode_utf8(password@), user@.password) {
                    r matches Ok(account) && account@ == user@
                } else {
                    r is Err
                },
                None => r is Err,
            },
    {
        match stored {
            Some(user) => if check_password(password.as_str(), user.password.as_str()) {
                Ok(user)
            } else {
                Err(())
            },
            None => Err(()),
        }
    }

    /// Replaces the data backed up for the account.
    pub fn update_data(&mut self, data: String)
        ensures
            final(self)@ == (UserView { data: data@, ..old(self)@ }),
    {
        self.data = data;
    }

    /// The data backed up for the account.
    pub fn data(&self) -> (data: String)
        ensures
            data@ == self@.data,
    {
        self.data.clone()
    }

    /// The identifier of the account.
    pub fn uuid(&self) -> (uuid: String)
        ensures
            uuid@ == self@.uuid,
    {
        self.uuid.clone()
    }
}

/// Whether a serialized value of `n` bytes can be stored as base64 text
/// and read again.
pub open spec fn storable(n: int) -> bool {
    readable(base64_len(n))
}

/// Whether a stored text of `n` bytes can be handed to the base64 decoder.
pub open spec fn readable(n: int) -> bool {
    n + 7 <= usize::MAX
}

/// The serialized value that a stored text stands for: what its base64
/// decodes to, read as UTF-8. `None` where it is neither.
pub open spec fn decoded(stored: Seq<char>) -> Option<Seq<char>> {
    if !readable(encode_utf8(stored).len() as int) {
        None
    } else {
        match base64_bytes(stored) {
            Some(bytes) => if valid_utf8(bytes) {
                Some(decode_utf8(bytes))
            } else {
                None
            },
            None => None,
        }
    }
}

/// The text under which a serialized value is stored: its base64. `None`
/// where the text would be longer than an address can hold. What comes back
/// stands for the serialized value again.
pub fn encode_base64(serialized: &str) -> (stored: Option<String>)
    ensures
        stored is Some <==> storable(encode_utf8(serialized@).len() as int),
        stored matches Some(text) ==> text@ == base64_text(encode_utf8(serialized@)) && decoded(
            text@,
        ) == Some(serialized@),
{
    let bytes = serialized.as_bytes();
    if bytes.len() > usize::MAX - 2 || (bytes.len() + 2) / 3 > (usize::MAX - 7) / 4 {
        return None;
    }
    proof {
        encode_utf8_valid_utf8(serialized@);
        encode_utf8_decode_utf8(serialized@);
    }
    let text = base64_encode(bytes);
    proof {
        is_ascii_chars_encode_utf8(text@);
    }
    Some(text)
}

/// The serialized value that a stored text stands for. `None` where the
/// text is no base64 of UTF-8.
pub fn decode_base64(stored: &str) -> (serialized: Option<String>)
    ensures
        text_view(serialized) == decoded(stored@),
{
    if stored.as_bytes().len() > usize::MAX - 7 {
        return None;
    }
    match base64_decode(stored) {
        Some(bytes) => utf8_to_string(bytes),
        None => None,
    }
}

/// Whether a character is white space.
pub open spec fn is_space(c: char) -> bool {
    let n = c as u32;
    ||| 0x09 <= n <= 0x0d
    ||| n == 0x20
    ||| n == 0x85
    ||| n == 0xa0
    ||| n == 0x1680
    ||| 0x2000 <= n <= 0x200a
    ||| n == 0x2028
    ||| n == 0x2029
    ||| n == 0x202f
    ||| n == 0x205f
    ||| n == 0x3000
}

/// A text without the white space at its end.
pub open spec fn trimmed(text: Seq<char>) -> Seq<char>
    decreases text.len(),
{
    if text.len() > 0 && is_space(text.last()) {
        trimmed(text.drop_last())
    } else {
        text
    }
}

/// Where the word at the end of a text starts.
pub open spec fn word_start(text: Seq<char>) -> int
    decreases text.len(),
{
    if text.len() > 0 && !is_space(text.last()) {
        word_start(text.drop_last())
    } else {
        text.len() as int
    }
}

/// The last word of a text: its last run of characters that are not white
/// space. `None` where the text holds no such character.
pub open spec fn last_word(text: Seq<char>) -> Option<Seq<char>> {
    let body = trimmed(text);
    if body.len() == 0 {
        None
    } else {
        Some(body.skip(word_start(body)))
    }
}

/// Tells whether a character is white space.
pub fn is_whitespace(c: char) -> (b: bool)
    ensures
        b == is_space(c),
{
    let n = c as u32;
    (0x09 <= n && n <= 0x0d) || n == 0x20 || n == 0x85 || n == 0xa0 || n == 0x1680 || (0x2000
        <= n && n <= 0x200a) || n == 0x2028 || n == 0x2029 || n == 0x202f || n == 0x205f || n
        == 0x3000
}

/// The token in an authorization header: its last word, with any scheme
/// before it split off. `None` where the header holds no word.
pub fn bearer_token(header: &str) -> (token: Option<String>)
    ensures
        text_view(token) == last_word(header@),
{
    let chars = chars_of(header);
    let mut end: usize = chars.len();
    assert(chars@.take(end as int) =~= chars@);
    while end > 0 && is_whitespace(chars[end - 1])
        invariant
            end <= chars.len(),
            trimmed(chars@) == trimmed(chars@.take(end as int)),
        decreases end,
    {
        assert(chars@.take(end as int).drop_last() =~= chars@.take(end - 1));
        end = end - 1;
    }
    let ghost body = chars@.take(end as int);
    if end == 0 {
        return None;
    }
    let mut start: usize = end;
    assert(body.take(start as int) =~= body);
    while start > 0 && !is_whitespace(chars[start - 1])
        invariant
            start <= end <= chars.len(),
            body == chars@.take(end as int),
            word_start(body) == word_start(body.take(start as int)),
        decreases start,
    {
        assert(body.take(start as int).drop_last() =~= body.take(start - 1));
        start = start - 1;
    }
    let mut word: Vec<char> = Vec::new();
    let mut i: usize = start;
    while i < end
        invariant
            start <= i <= end <= chars.len(),
            body == chars@.take(end as int),
            word@ == body.subrange(start as int, i as int),
        decreases end - i,
    {
        word.push(chars[i]);
        i = i + 1;
    }
    Some(text_of_chars(&word))
}

/// The lower-case form of a text.
pub uninterp spec fn lowercased(text: Seq<char>) -> Seq<char>;

/// `str::to_lowercase`: the lower-case form of the text.
#[verifier::external_body]
fn to_lowercase(text: &str) -> (lower: String)
    ensures
        lower@ == lowercased(text@),
{
    text.to_lowercase()
}

/// Whether a request for `path` needs a token: every path does but the two
/// that hand out accounts and tokens, whatever the case of their letters.
pub fn requires_auth(path: &str) -> (needed: bool)
    ensures
        needed == !(lowercased(path@) == "/auth/login"@ || lowercased(path@) == "/auth/signup"@),
{
    let lower = to_lowercase(path);
    let login = String::from_str("/auth/login");
    let signup = String::from_str("/auth/signup");
    !(lower == login || lower == signup)
}

} // verus!
