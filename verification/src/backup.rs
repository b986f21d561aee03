//! The pointer to a remote backup of a vault.

use crate::encryption::{decrypted, Encryption, EncryptionError};
use vstd::prelude::*;

verus! {

/// Where a vault is backed up: the account at the backup service, the
/// service's address, whether backing up is switched on, and the nonce under
/// which the account's identifier is stored.
#[derive(Debug)]
pub struct Backup {
    pub uuid: String,
    pub url: String,
    pub enabled: bool,
    pub iv: String,
}

/// The model of a `Backup`.
pub struct BackupView {
    pub uuid: Seq<char>,
    pub url: Seq<char>,
    pub enabled: bool,
    pub iv: Seq<char>,
}

impl View for Backup {
    type V = BackupView;

    open spec fn view(&self) -> BackupView {
        BackupView { uuid: self.uuid@, url: self.url@, enabled: self.enabled, iv: self.iv@ }
    }
}

/// The model of a backup pointer that may be absent.
pub open spec fn backup_view(backup: Option<Backup>) -> Option<BackupView> {
    match backup {
        Some(b) => Some(b@),
        None => None,
    }
}

/// An account as the backup service reports it.
#[derive(Debug)]
pub struct BackupUser {
    pub password: String,
    pub uuid: String,
    pub data: String,
}

/// The model of a `BackupUser`.
pub struct BackupUserView {
    pub password: Seq<char>,
    pub uuid: Seq<char>,
    pub data: Seq<char>,
}

impl View for BackupUser {
    type V = BackupUserView;

    open spec fn view(&self) -> BackupUserView {
        BackupUserView { password: self.password@, uuid: self.uuid@, data: self.data@ }
    }
}

impl Clone for Backup {
    fn clone(&self) -> (copy: Self)
        ensures
            copy@ == self@,
    {
        Backup {
            uuid: self.uuid.clone(),
            url: self.url.clone(),
            enabled: self.enabled,
            iv: self.iv.clone(),
        }
    }
}

/// A copy of a backup pointer that may be absent.
pub fn clone_backup(backup: &Option<Backup>) -> (copy: Option<Backup>)
    ensures
        backup_view(copy) == backup_view(*backup),
{
    match backup {
        Some(b) => Some(b.clone()),
        None => None,
    }
}

impl BackupView {
    /// The pointer with its identifier decrypted under `key`.
    pub open spec fn opened(self, key: Seq<u8>) -> Result<BackupView, EncryptionError> {
        match decrypted(key, self.uuid, self.iv) {
            Ok(uuid) => Ok(BackupView { uuid, ..self }),
            Err(e) => Err(e),
        }
    }
}

/// The model of the result of opening a pointer.
pub open spec fn opened_view(r: Result<Backup, EncryptionError>) -> Result<
    BackupView,
    EncryptionError,
> {
    match r {
        Ok(b) => Ok(b@),
        Err(e) => Err(e),
    }
}

impl Backup {
    /// The pointer to an account that the service at `url` has just opened:
    /// switched on, with no nonce yet.
    pub fn from_signup(url: String, user: BackupUser) -> (backup: Self)
        ensures
            backup@ == (BackupView {
                uuid: user.uuid@,
                url: url@,
                enabled: true,
                iv: Seq::<char>::empty(),
            }),
    {
        Backup { uuid: user.uuid, url, enabled: true, iv: String::new() }
    }

    /// The identifier of the account.
    pub fn uuid(self) -> (uuid: String)
        ensures
            uuid@ == self.uuid@,
    {
        self.uuid
    }

    /// Whether backing up is switched on.
    pub fn enabled(self) -> (enabled: bool)
        ensures
            enabled == self.enabled,
    {
        self.enabled
    }

    /// Decrypts the stored identifier with the vault key.
    pub fn init_from_login(self, encryption: &Encryption) -> (r: Result<Self, EncryptionError>)
        ensures
            opened_view(r) == self@.opened(encryption.key()),
    {
        let Backup { uuid, url, enabled, iv } = self;
        match encryption.decrypt(uuid, iv.clone()) {
            Ok(uuid) => Ok(Backup { uuid, url, enabled, iv }),
            Err(e) => Err(e),
        }
    }
}

} // verus!
