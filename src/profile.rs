//! Browser profiles and the choice of their session-store file.
use vstd::prelude::*;
use vstd::string::*;
use crate::path::{file_name, file_name_start};

verus! {

/// A browser profile folder.
#[derive(Debug, Clone)]
pub struct FirefoxProfileInfo {
    path: String,
    /// Last modification, in seconds since the Unix epoch, when known.
    modified_at: Option<u64>,
}

/// The files in a profile that may hold session data, relative to its folder.
#[derive(Debug, Clone, Copy, PartialEq, Eq, Structural)]
pub enum SessionStoreFile {
    /// `sessionstore.jsonlz4`: latest data once the browser is closed.
    SessionStore,
    /// `sessionstore-backups/recovery.jsonlz4`: latest data while it runs.
    Recovery,
    /// `sessionstore-backups/recovery.baklz4`: the previous recovery file.
    RecoveryOlder,
    /// `sessionstore-backups/previous.jsonlz4`: data of the previous start.
    Previous,
}

/// Which of the candidate files exist in a profile folder.
#[derive(Debug, Clone, Copy, PartialEq, Eq, Structural)]
pub struct PresentFiles {
    pub session_store: bool,
    pub recovery: bool,
    pub recovery_older: bool,
    pub previous: bool,
}

/// The first present file in order of freshness; the recovery file (the
/// one written most often) when none is present.
pub open spec fn preferred_file(p: PresentFiles) -> SessionStoreFile {
    if p.session_store {
        SessionStoreFile::SessionStore
    } else if p.recovery {
        SessionStoreFile::Recovery
    } else if p.recovery_older {
        SessionStoreFile::RecoveryOlder
    } else if p.previous {
        SessionStoreFile::Previous
    } else {
        SessionStoreFile::Recovery
    }
}

pub open spec fn relative_path_of(f: SessionStoreFile) -> Seq<char> {
    match f {
        SessionStoreFile::SessionStore => "sessionstore.jsonlz4"@,
        SessionStoreFile::Recovery => "sessionstore-backups/recovery.jsonlz4"@,
        SessionStoreFile::RecoveryOlder => "sessionstore-backups/recovery.baklz4"@,
        SessionStoreFile::Previous => "sessionstore-backups/previous.jsonlz4"@,
    }
}

impl SessionStoreFile {
    /// Every candidate, in the order their presence is checked.
    pub fn candidates() -> (r: Vec<SessionStoreFile>)
        ensures
            r@ == seq![
                SessionStoreFile::SessionStore,
                SessionStoreFile::Recovery,
                SessionStoreFile::RecoveryOlder,
                SessionStoreFile::Previous,
            ],
    {
        let r = vec![
            SessionStoreFile::SessionStore,
            SessionStoreFile::Recovery,
            SessionStoreFile::RecoveryOlder,
            SessionStoreFile::Previous,
        ];
        assert(r@ =~= seq![
            SessionStoreFile::SessionStore,
            SessionStoreFile::Recovery,
            SessionStoreFile::RecoveryOlder,
            SessionStoreFile::Previous,
        ]);
        r
    }

    /// Path of the file relative to the profile folder.
    pub fn relative_path(&self) -> (r: &'static str)
        ensures
            r@ == relative_path_of(*self),
    {
        match self {
            SessionStoreFile::SessionStore => "sessionstore.jsonlz4",
            SessionStoreFile::Recovery => "sessionstore-backups/recovery.jsonlz4",
            SessionStoreFile::RecoveryOlder => "sessionstore-backups/recovery.baklz4",
            SessionStoreFile::Previous => "sessionstore-backups/previous.jsonlz4",
        }
    }
}

impl FirefoxProfileInfo {
    pub fn new(path: String, modified_at: Option<u64>) -> (r: Self)
        ensures
            r.path() == path,
            r.modified_at() == modified_at,
    {
        FirefoxProfileInfo { path, modified_at }
    }

    pub closed spec fn path(&self) -> String {
        self.path
    }

    pub closed spec fn modified_at(&self) -> Option<u64> {
        self.modified_at
    }

    /// The profile folder.
    pub fn folder(&self) -> (r: &String)
        ensures
            *r == self.path(),
    {
        &self.path
    }

    /// Name of the profile folder (the last part of its path).
    pub fn name(&self) -> (r: String)
        ensures
            r@ == file_name(self.path()@),
    {
        let k = file_name_start(self.path.as_str());
        let n = self.path.as_str().unicode_len();
        self.path.as_str().substring_char(k, n).to_owned()
    }

    /// The session file to load from this profile, given which candidates
    /// exist in its folder.
    pub fn find_sessionstore_file(&self, present: &PresentFiles) -> (r: SessionStoreFile)
        ensures
            r == preferred_file(*present),
    {
        if present.session_store {
            SessionStoreFile::SessionStore
        } else if present.recovery {
            SessionStoreFile::Recovery
        } else if present.recovery_older {
            SessionStoreFile::RecoveryOlder
        } else if present.previous {
            SessionStoreFile::Previous
        } else {
            SessionStoreFile::Recovery
        }
    }
}

} // verus!
