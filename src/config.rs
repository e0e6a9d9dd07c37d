//! The file-backed collaborators: the allow list of peers, this node's
//! identity and the names of peers. The library decides which file names to
//! read and write and what their contents mean; the caller forms the paths
//! and touches the file system.
use vstd::prelude::*;
use vstd::string::StrSliceExecFns;

use crate::identity::{
    identity_of_text, pkcs8_pem_of, pkcs8_secret_of, public_key_of, z32_text, IdentityError, PeerIdentity, SecretKey,
};

verus! {

/// A text without its leading and trailing white space, as str::trim cuts it.
pub uninterp spec fn trimmed(s: Seq<char>) -> Seq<char>;

/// Relies on str::trim.
#[verifier::external_body]
fn trim_text(s: &str) -> (r: &str)
    ensures
        r@ == trimmed(s@),
{
    s.trim()
}

/// Subdirectory of the configuration directory that holds the allow list.
pub const AUTH_DIR_NAME: &'static str = "auth";

/// Subdirectory of the configuration directory that holds peer names.
pub const NAMES_DIR_NAME: &'static str = "names";

/// File of the secret key, PKCS#8 PEM.
pub const PRIV_KEY_NAME: &'static str = "self.priv";

/// File of the public identity, z-base-32 text.
pub const PUB_KEY_NAME: &'static str = "self.pub";

/// What the file system shows at a path.
#[derive(Clone, Copy, PartialEq, Eq, Debug, Structural)]
pub enum EntryKind {
    Missing,
    /// A regular file.
    File,
    /// A directory or anything else that is not a regular file.
    Other,
}

/// The allow list kept as one empty file per authorized peer, named by the
/// peer's z-base-32 identity, in one directory (`AUTH_DIR_NAME` under the
/// configuration directory).
#[derive(Debug)]
pub struct FileBasedAuth {
    auth_dir: String,
}

impl FileBasedAuth {
    /// The allow list kept in the directory `auth_dir`.
    pub fn new(auth_dir: &str) -> (r: FileBasedAuth)
        ensures
            r.auth_dir() == auth_dir@,
    {
        FileBasedAuth { auth_dir: auth_dir.to_owned() }
    }

    pub closed spec fn auth_dir(&self) -> Seq<char> {
        self.auth_dir@
    }

    /// The directory of the allow list.
    pub fn dir(&self) -> (r: &str)
        ensures
            r@ == self.auth_dir(),
    {
        self.auth_dir.as_str()
    }

    /// The name of the file whose presence authorizes `key`.
    pub fn entry_name(&self, key: &PeerIdentity) -> (r: String)
        ensures
            r@ == z32_text(key@),
    {
        key.to_z32()
    }

    /// Whether the peer is authorized, given what the file system shows at
    /// its entry: only a regular file authorizes, so anything missing or
    /// unreadable refuses.
    pub fn is_allowed(&self, entry: EntryKind) -> (r: bool)
        ensures
            r == (entry == EntryKind::File),
    {
        entry == EntryKind::File
    }
}

/// Why an identity cannot be created or loaded.
#[derive(Clone, Copy, PartialEq, Eq, Debug, Structural)]
pub enum IdentityFileError {
    /// A secret key file is already there.
    AlreadyExists,
    /// The secret key could not be encoded as PKCS#8 PEM.
    Encoding,
    /// The secret key file holds no ed25519 PKCS#8 PEM key.
    InvalidKeyFile,
}

/// The contents of the two files of a new identity.
#[derive(Debug)]
pub struct IdentityFiles {
    /// The secret key, PKCS#8 PEM.
    pub private_pem: String,
    /// The public identity, z-base-32.
    pub public_text: String,
}

/// This node's identity, kept as the secret key file `PRIV_KEY_NAME` and the
/// public key file `PUB_KEY_NAME` in a key directory.
#[derive(Debug)]
pub struct FileBasedIdentity {
    key_dir: String,
}

impl FileBasedIdentity {
    /// The identity files in the directory `key_dir`.
    pub fn new(key_dir: &str) -> (r: FileBasedIdentity)
        ensures
            r.key_dir() == key_dir@,
    {
        FileBasedIdentity { key_dir: key_dir.to_owned() }
    }

    pub closed spec fn key_dir(&self) -> Seq<char> {
        self.key_dir@
    }

    /// The key directory.
    pub fn dir(&self) -> (r: &str)
        ensures
            r@ == self.key_dir(),
    {
        self.key_dir.as_str()
    }

    /// Whether an identity exists, given what the file system shows at the
    /// secret key file: only a regular file counts.
    pub fn has_identity(&self, entry: EntryKind) -> (r: bool)
        ensures
            r == (entry == EntryKind::File),
    {
        entry == EntryKind::File
    }

    /// The contents of the two files of the new identity `key`, refused when
    /// one is already there (`entry` is what the secret key file shows).
    pub fn init(&self, entry: EntryKind, key: &SecretKey) -> (r: Result<IdentityFiles, IdentityFileError>)
        ensures
            entry == EntryKind::File ==> r == Err::<IdentityFiles, IdentityFileError>(IdentityFileError::AlreadyExists),
            entry != EntryKind::File && pkcs8_pem_of(key@) is None
                ==> r == Err::<IdentityFiles, IdentityFileError>(IdentityFileError::Encoding),
            entry != EntryKind::File && pkcs8_pem_of(key@) is Some ==> (r matches Ok(f) && {
                &&& Some(f.private_pem@) == pkcs8_pem_of(key@)
                &&& f.public_text@ == z32_text(public_key_of(key@))
            }),
    {
        if self.has_identity(entry) {
            return Err(IdentityFileError::AlreadyExists);
        }
        match key.to_pkcs8_pem() {
            None => Err(IdentityFileError::Encoding),
            Some(private_pem) => {
                let public_text = key.public().to_z32();
                Ok(IdentityFiles { private_pem, public_text })
            },
        }
    }

    /// The secret key held by the contents of the secret key file.
    pub fn load(&self, pem: &str) -> (r: Result<SecretKey, IdentityFileError>)
        ensures
            r matches Ok(k) ==> pkcs8_secret_of(pem@) == Some(k@),
            r is Err <==> pkcs8_secret_of(pem@) is None,
            r matches Err(e) ==> e == IdentityFileError::InvalidKeyFile,
    {
        match SecretKey::from_pkcs8_pem(pem) {
            Some(k) => Ok(k),
            None => Err(IdentityFileError::InvalidKeyFile),
        }
    }
}

/// Why a peer name does not resolve.
#[derive(Clone, Copy, PartialEq, Eq, Debug, Structural)]
pub enum NameError {
    /// Only the ':' prefix was given.
    EmptyAfterPrefix,
    /// The name is empty, 64 characters or longer, or uses a character other
    /// than ASCII letters, digits, '.', '_' and '-'.
    InvalidName,
    /// The text is not a peer identity.
    InvalidIdentity(IdentityError),
}

pub open spec fn is_name_char(c: char) -> bool {
    ('a' <= c && c <= 'z') || ('A' <= c && c <= 'Z') || ('0' <= c && c <= '9') || c == '.' || c == '_' || c == '-'
}

/// A name that may stand as a file name in the names directory.
pub open spec fn is_valid_name(name: Seq<char>) -> bool {
    &&& 0 < name.len() < 64
    &&& forall|i: int| 0 <= i < name.len() ==> is_name_char(#[trigger] name[i])
}

fn is_name_character(c: char) -> (r: bool)
    ensures
        r == is_name_char(c),
{
    ('a' <= c && c <= 'z') || ('A' <= c && c <= 'Z') || ('0' <= c && c <= '9') || c == '.' || c == '_' || c == '-'
}

/// Accepts a peer name that may stand as a file name, refuses any other.
pub fn ensure_name_sanitized(name: &str) -> (r: Result<(), NameError>)
    ensures
        r is Ok <==> is_valid_name(name@),
        r matches Err(e) ==> e == NameError::InvalidName,
{
    let n = name.unicode_len();
    if n == 0 || n >= 64 {
        return Err(NameError::InvalidName);
    }
    let mut i: usize = 0;
    while i < n
        invariant
            n == name@.len(),
            i <= n,
            forall|j: int| 0 <= j < i ==> is_name_char(#[trigger] name@[j]),
        decreases n - i,
    {
        if !is_name_character(name.get_char(i)) {
            return Err(NameError::InvalidName);
        }
        i = i + 1;
    }
    Ok(())
}

/// Where a peer name leads.
#[derive(Debug)]
pub enum NameLookup {
    /// The name was ':' followed by the identity itself.
    Direct(PeerIdentity),
    /// The identity is stored, as z-base-32 text, in the file `name` of the
    /// names directory.
    Stored { name: String },
}

pub open spec fn name_error(e: IdentityError) -> NameError {
    NameError::InvalidIdentity(e)
}

/// The peer names kept as one file per name, holding the peer's z-base-32
/// identity, in one directory (`NAMES_DIR_NAME` under the configuration
/// directory).
#[derive(Debug)]
pub struct FileBasedNameResolver {
    name_dir: String,
}

impl FileBasedNameResolver {
    /// The names kept in the directory `name_dir`.
    pub fn new(name_dir: &str) -> (r: FileBasedNameResolver)
        ensures
            r.name_dir() == name_dir@,
    {
        FileBasedNameResolver { name_dir: name_dir.to_owned() }
    }

    pub closed spec fn name_dir(&self) -> Seq<char> {
        self.name_dir@
    }

    /// The names directory.
    pub fn dir(&self) -> (r: &str)
        ensures
            r@ == self.name_dir(),
    {
        self.name_dir.as_str()
    }

    /// Where `name` leads: ':' followed by a z-base-32 identity gives that
    /// identity; a valid name gives the file that stores the identity.
    pub fn resolve(&self, name: &str) -> (r: Result<NameLookup, NameError>)
        ensures
            name@.len() > 0 && name@[0] == ':' ==> {
                &&& name@.len() == 1 ==> r == Err::<NameLookup, NameError>(NameError::EmptyAfterPrefix)
                &&& name@.len() > 1 ==> match identity_of_text(name@.drop_first()) {
                    Ok(b) => r matches Ok(NameLookup::Direct(p)) && p@ == b,
                    Err(e) => r == Err::<NameLookup, NameError>(name_error(e)),
                }
            },
            !(name@.len() > 0 && name@[0] == ':') ==> {
                &&& !is_valid_name(name@) ==> r == Err::<NameLookup, NameError>(NameError::InvalidName)
                &&& is_valid_name(name@) ==> (r matches Ok(NameLookup::Stored { name: stored })
                    && stored@ == name@)
            },
    {
        let n = name.unicode_len();
        if n > 0 && name.get_char(0) == ':' {
            if n == 1 {
                return Err(NameError::EmptyAfterPrefix);
            }
            let rest = name.substring_char(1, n);
            proof {
                assert(rest@ =~= name@.drop_first());
            }
            return match PeerIdentity::from_z32(rest) {
                Ok(p) => Ok(NameLookup::Direct(p)),
                Err(e) => Err(NameError::InvalidIdentity(e)),
            };
        }
        match ensure_name_sanitized(name) {
            Err(e) => Err(e),
            Ok(()) => Ok(NameLookup::Stored { name: name.to_owned() }),
        }
    }

    /// The identity stored in a names file, read as z-base-32 text once
    /// leading and trailing white space is cut.
    pub fn identity_from_entry(&self, contents: &str) -> (r: Result<PeerIdentity, NameError>)
        ensures
            match identity_of_text(trimmed(contents@)) {
                Ok(b) => r matches Ok(p) && p@ == b,
                Err(e) => r == Err::<PeerIdentity, NameError>(name_error(e)),
            },
    {
        match PeerIdentity::from_z32(trim_text(contents)) {
            Ok(p) => Ok(p),
            Err(e) => Err(NameError::InvalidIdentity(e)),
        }
    }
}

/// The configuration directory as a whole: the allow list in its `auth`
/// subdirectory, the identity files in the directory itself and the names in
/// its `names` subdirectory.
#[derive(Debug)]
pub struct FileConfig {
    pub auth: FileBasedAuth,
    pub identity: FileBasedIdentity,
    pub names: FileBasedNameResolver,
}

impl FileConfig {
    /// Whether this node has an identity, given what the file system shows at
    /// the secret key file.
    pub fn does_identity_exist(&self, entry: EntryKind) -> (r: bool)
        ensures
            r == (entry == EntryKind::File),
    {
        self.identity.has_identity(entry)
    }
}

/// The allow list under its earlier name.
pub type FileBasedAuther = FileBasedAuth;

} // verus!
