//! The entries of a vault: plain in memory, sealed on disk.

use crate::encoding::{clone_text, text_view, texts_view};
use crate::encryption::{
    decrypted, is_nonce, sealable, text_result, CipherText, Encryption, EncryptionError,
};
use vstd::prelude::*;
use vstd::string::StringExecFns;
use vstd::utf8::*;

verus! {

/// Number of characters in the text of an identifier.
pub const UUID_LEN: usize = 36;

/// The name that a new entry carries.
pub open spec fn placeholder_name() -> Seq<char> {
    "Unnamed"@
}

/// `Uuid::new_v4` in its hyphenated text: a random identifier of `UUID_LEN`
/// characters. Nothing else is known of it.
#[verifier::external_body]
pub(crate) fn fresh_uuid() -> (uuid: String)
    ensures
        uuid@.len() == UUID_LEN,
{
    ::uuid::Uuid::new_v4().to_string()
}

/// One stored secret in plain form. Every field but the identifier may be
/// absent.
#[derive(Debug)]
pub struct PasswordData {
    pub name: Option<String>,
    pub login: Option<String>,
    pub password: Option<String>,
    pub url: Option<String>,
    pub description: Option<String>,
    pub uuid: String,
}

/// The model of a `PasswordData`.
pub struct PasswordDataView {
    pub name: Option<Seq<char>>,
    pub login: Option<Seq<char>>,
    pub password: Option<Seq<char>>,
    pub url: Option<Seq<char>>,
    pub description: Option<Seq<char>>,
    pub uuid: Seq<char>,
}

impl View for PasswordData {
    type V = PasswordDataView;

    open spec fn view(&self) -> PasswordDataView {
        PasswordDataView {
            name: text_view(self.name),
            login: text_view(self.login),
            password: text_view(self.password),
            url: text_view(self.url),
            description: text_view(self.description),
            uuid: self.uuid@,
        }
    }
}

impl DeepView for PasswordData {
    type V = PasswordDataView;

    open spec fn deep_view(&self) -> PasswordDataView {
        self@
    }
}

impl PasswordDataView {
    /// The entry that `create` adds for the identifier `uuid`.
    pub open spec fn placeholder(uuid: Seq<char>) -> PasswordDataView {
        PasswordDataView {
            name: Some(placeholder_name()),
            login: None,
            password: None,
            url: None,
            description: None,
            uuid,
        }
    }

    /// Whether the entry has a password that is not empty.
    pub open spec fn has_password(self) -> bool {
        self.password matches Some(p) && p.len() > 0
    }
}

impl Clone for PasswordData {
    fn clone(&self) -> (copy: Self)
        ensures
            copy@ == self@,
    {
        PasswordData {
            name: clone_text(&self.name),
            login: clone_text(&self.login),
            password: clone_text(&self.password),
            url: clone_text(&self.url),
            description: clone_text(&self.description),
            uuid: self.uuid.clone(),
        }
    }
}

impl PasswordData {
    /// The entry that `create` adds for the identifier `uuid`: named
    /// "Unnamed", everything else absent.
    pub fn placeholder(uuid: String) -> (entry: Self)
        ensures
            entry@ == PasswordDataView::placeholder(uuid@),
    {
        PasswordData {
            name: Some(String::from_str("Unnamed")),
            login: None,
            password: None,
            url: None,
            description: None,
            uuid,
        }
    }
}

/// One stored secret in sealed form: the nonce and the encrypted text of its
/// serialized plain form.
#[derive(Debug)]
pub struct Password {
    pub iv: String,
    pub data: String,
}

/// The model of a `Password`.
pub struct PasswordView {
    pub iv: Seq<char>,
    pub data: Seq<char>,
}

impl View for Password {
    type V = PasswordView;

    open spec fn view(&self) -> PasswordView {
        PasswordView { iv: self.iv@, data: self.data@ }
    }
}

impl DeepView for Password {
    type V = PasswordView;

    open spec fn deep_view(&self) -> PasswordView {
        self@
    }
}

impl PasswordView {
    /// What the sealed entry opens to under `key`.
    pub open spec fn unsealed(self, key: Seq<u8>) -> Result<Seq<char>, EncryptionError> {
        decrypted(key, self.data, self.iv)
    }
}

impl Clone for Password {
    fn clone(&self) -> (copy: Self)
        ensures
            copy@ == self@,
    {
        Password { iv: self.iv.clone(), data: self.data.clone() }
    }
}

impl Password {
    /// Seals the serialized form of an entry under a fresh nonce. What comes
    /// back opens to `serialized` again under the same key.
    pub fn seal(encryption: &Encryption, serialized: &str) -> (r: Result<Self, EncryptionError>)
        ensures
            r is Ok <==> sealable(encode_utf8(serialized@).len() as int),
            r matches Err(e) ==> e == EncryptionError::TooLong,
            r matches Ok(sealed) ==> {
                &&& is_nonce(sealed.iv@)
                &&& sealed@.unsealed(encryption.key()) == Ok::<Seq<char>, EncryptionError>(
                    serialized@,
                )
            },
    {
        match encryption.encrypt(serialized) {
            Ok(CipherText { ciphertext, nonce }) => Ok(Password { iv: nonce, data: ciphertext }),
            Err(e) => Err(e),
        }
    }

    /// Opens a sealed entry to the serialized form of the plain entry.
    pub fn unseal(&self, encryption: &Encryption) -> (r: Result<String, EncryptionError>)
        ensures
            text_result(r) == self@.unsealed(encryption.key()),
    {
        encryption.decrypt(self.data.clone(), self.iv.clone())
    }
}

/// The model of a list of sealed entries.
pub open spec fn sealed_view(sealed: Seq<Password>) -> Seq<PasswordView> {
    sealed.map_values(|p: Password| p@)
}

/// What a list of sealed entries opens to under `key`: the serialized form
/// of each, in their order, or the error of the first one that does not
/// open.
pub open spec fn unsealed_all(sealed: Seq<PasswordView>, key: Seq<u8>) -> Result<
    Seq<Seq<char>>,
    EncryptionError,
>
    decreases sealed.len(),
{
    if sealed.len() == 0 {
        Ok(Seq::<Seq<char>>::empty())
    } else {
        match unsealed_all(sealed.drop_last(), key) {
            Ok(texts) => match sealed.last().unsealed(key) {
                Ok(text) => Ok(texts.push(text)),
                Err(e) => Err(e),
            },
            Err(e) => Err(e),
        }
    }
}

/// Whether every one of the serialized entries can be sealed.
pub open spec fn all_sealable(texts: Seq<Seq<char>>) -> bool {
    forall|i: int| 0 <= i < texts.len() ==> sealable(encode_utf8(#[trigger] texts[i]).len() as int)
}

/// Whether every sealed entry carries the text of a nonce.
pub open spec fn all_nonces(sealed: Seq<PasswordView>) -> bool {
    forall|i: int| 0 <= i < sealed.len() ==> is_nonce((#[trigger] sealed[i]).iv)
}

/// The model of a result that holds a list of texts.
pub open spec fn texts_result(r: Result<Vec<String>, EncryptionError>) -> Result<
    Seq<Seq<char>>,
    EncryptionError,
> {
    match r {
        Ok(texts) => Ok(texts_view(texts@)),
        Err(e) => Err(e),
    }
}

/// Seals the serialized form of each entry, each under a fresh nonce. What
/// comes back opens to the same texts again under the same key.
pub fn seal_all(encryption: &Encryption, texts: &Vec<String>) -> (r: Result<
    Vec<Password>,
    EncryptionError,
>)
    ensures
        r is Ok <==> all_sealable(texts_view(texts@)),
        r matches Err(e) ==> e == EncryptionError::TooLong,
        r matches Ok(sealed) ==> {
            &&& sealed@.len() == texts@.len()
            &&& all_nonces(sealed_view(sealed@))
            &&& unsealed_all(sealed_view(sealed@), encryption.key()) == Ok::<
                Seq<Seq<char>>,
                EncryptionError,
            >(texts_view(texts@))
        },
{
    let ghost key = encryption.key();
    let ghost model = texts_view(texts@);
    let mut sealed: Vec<Password> = Vec::new();
    let mut i: usize = 0;
    assert(model.take(0) =~= Seq::<Seq<char>>::empty());
    while i < texts.len()
        invariant
            i <= texts.len(),
            key == encryption.key(),
            model == texts_view(texts@),
            sealed@.len() == i,
            all_nonces(sealed_view(sealed@)),
            all_sealable(model.take(i as int)),
            unsealed_all(sealed_view(sealed@), key) == Ok::<Seq<Seq<char>>, EncryptionError>(
                model.take(i as int),
            ),
        decreases texts.len() - i,
    {
        let ghost earlier = sealed_view(sealed@);
        match Password::seal(encryption, texts[i].as_str()) {
            Ok(entry) => {
                sealed.push(entry);
                proof {
                    let now = sealed_view(sealed@);
                    assert(now.drop_last() =~= earlier);
                    assert(model.take(i + 1) =~= model.take(i as int).push(model[i as int]));
                    assert forall|k: int| 0 <= k < now.len() implies is_nonce(
                        (#[trigger] now[k]).iv,
                    ) by {
                        if k < i {
                            assert(now[k] == earlier[k]);
                        }
                    }
                }
            },
            Err(e) => {
                return Err(e);
            },
        }
        i = i + 1;
    }
    assert(model.take(i as int) =~= model);
    Ok(sealed)
}

/// Opens each sealed entry to the serialized form of the plain entry.
pub fn unseal_all(encryption: &Encryption, sealed: &Vec<Password>) -> (r: Result<
    Vec<String>,
    EncryptionError,
>)
    ensures
        texts_result(r) == unsealed_all(sealed_view(sealed@), encryption.key()),
{
    let ghost key = encryption.key();
    let ghost model = sealed_view(sealed@);
    let mut texts: Vec<String> = Vec::new();
    let mut i: usize = 0;
    assert(texts_view(texts@) =~= Seq::<Seq<char>>::empty());
    while i < sealed.len()
        invariant
            i <= sealed.len(),
            key == encryption.key(),
            model == sealed_view(sealed@),
            unsealed_all(model.take(i as int), key) == Ok::<Seq<Seq<char>>, EncryptionError>(
                texts_view(texts@),
            ),
        decreases sealed.len() - i,
    {
        let ghost earlier = texts_view(texts@);
        proof {
            assert(model.take(i + 1).drop_last() =~= model.take(i as int));
        }
        match sealed[i].unseal(encryption) {
            Ok(text) => {
                texts.push(text);
                assert(texts_view(texts@) =~= earlier.push(text@));
            },
            Err(e) => {
                proof {
                    lemma_unsealed_error(model, key, i as int);
                }
                return Err(e);
            },
        }
        i = i + 1;
    }
    assert(model.take(i as int) =~= model);
    Ok(texts)
}

/// Where the entries before `i` open and the entry at `i` does not, opening
/// the list gives the error of the entry at `i`.
proof fn lemma_unsealed_error(sealed: Seq<PasswordView>, key: Seq<u8>, i: int)
    requires
        0 <= i < sealed.len(),
        unsealed_all(sealed.take(i), key) is Ok,
        sealed[i].unsealed(key) is Err,
    ensures
        unsealed_all(sealed, key) == Err::<Seq<Seq<char>>, EncryptionError>(
            sealed[i].unsealed(key)->Err_0,
        ),
    decreases sealed.len(),
{
    if i == sealed.len() - 1 {
    } else {
        assert(sealed.drop_last().take(i) =~= sealed.take(i));
        lemma_unsealed_error(sealed.drop_last(), key, i);
    }
}

/// An entry in either form.
#[derive(Debug)]
pub enum PasswordType {
    Data(PasswordData),
    Raw(Password),
}

/// The model of a `PasswordType`.
pub enum PasswordTypeView {
    Data(PasswordDataView),
    Raw(PasswordView),
}

impl View for PasswordType {
    type V = PasswordTypeView;

    open spec fn view(&self) -> PasswordTypeView {
        match self {
            PasswordType::Data(data) => PasswordTypeView::Data(data@),
            PasswordType::Raw(raw) => PasswordTypeView::Raw(raw@),
        }
    }
}

impl DeepView for PasswordType {
    type V = PasswordTypeView;

    open spec fn deep_view(&self) -> PasswordTypeView {
        self@
    }
}

impl Clone for PasswordType {
    fn clone(&self) -> (copy: Self)
        ensures
            copy@ == self@,
    {
        match self {
            PasswordType::Data(data) => PasswordType::Data(data.clone()),
            PasswordType::Raw(raw) => PasswordType::Raw(raw.clone()),
        }
    }
}

} // verus!
