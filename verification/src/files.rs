//! The files of a configuration directory: which there are, what each is
//! called, which of them are sealed, and a directory's contents as a value.

use crate::error::ConfigError;
use vstd::prelude::*;
use vstd::string::*;
use vstd::utf8::{decode_utf8, encode_utf8, encode_utf8_decode_utf8, encode_utf8_valid_utf8, valid_utf8};

verus! {

/// Client configuration file
pub const CLIENT_CONFIG: &'static str = "client";

/// Server encrypted private keys file
pub const PRIVATE_CONFIG: &'static str = "private";

/// Server locally configurable file
pub const LOCAL_CONFIG: &'static str = "local";

/// Server consensus-only configurable file
pub const CONSENSUS_CONFIG: &'static str = "consensus";

/// Client connection string file
pub const CLIENT_CONNECT_FILE: &'static str = "client-connect";

/// Salt backup for combining with the private key
pub const SALT_FILE: &'static str = "private.salt";

/// Database file name
pub const DB_FILE: &'static str = "database";

/// Encrypted TLS private keys
pub const TLS_PK: &'static str = "tls-pk";

/// TLS public cert
pub const TLS_CERT: &'static str = "tls-cert";

/// Extension of the files that are kept in the clear
pub const JSON_EXT: &'static str = "json";

/// Extension of the sealed configuration file
pub const ENCRYPTED_EXT: &'static str = "encrypt";

/// One of the files that a configuration directory holds.
#[derive(Clone, Copy, Debug, PartialEq, Eq, Hash, Structural)]
pub enum ConfigFile {
    /// What this guardian configures for itself.
    Local,
    /// What all guardians of the federation agree on.
    Consensus,
    /// This guardian's secrets.
    Private,
    /// What clients are told of the consensus configuration.
    Client,
    /// What a client needs to find the federation.
    ClientConnect,
    /// The salt that the password is combined with.
    Salt,
    /// Our own connection string.
    TlsCert,
    /// The private key of our TLS certificate.
    TlsPk,
}

impl ConfigFile {
    /// The file's name without its extension.
    pub open spec fn base_name_spec(self) -> Seq<char> {
        match self {
            ConfigFile::Local => LOCAL_CONFIG@,
            ConfigFile::Consensus => CONSENSUS_CONFIG@,
            ConfigFile::Private => PRIVATE_CONFIG@,
            ConfigFile::Client => CLIENT_CONFIG@,
            ConfigFile::ClientConnect => CLIENT_CONNECT_FILE@,
            ConfigFile::Salt => SALT_FILE@,
            ConfigFile::TlsCert => TLS_CERT@,
            ConfigFile::TlsPk => TLS_PK@,
        }
    }

    /// The file's extension, for the files that have one.
    pub open spec fn extension_spec(self) -> Option<Seq<char>> {
        match self {
            ConfigFile::Local
            | ConfigFile::Consensus
            | ConfigFile::Client
            | ConfigFile::ClientConnect => Some(JSON_EXT@),
            ConfigFile::Private => Some(ENCRYPTED_EXT@),
            ConfigFile::Salt | ConfigFile::TlsCert | ConfigFile::TlsPk => None,
        }
    }

    /// Whether the file is sealed under the password-derived key.
    pub open spec fn is_encrypted_spec(self) -> bool {
        self == ConfigFile::Private || self == ConfigFile::TlsPk
    }

    /// Whether the file holds JSON in the clear: whether its extension is
    /// `json`.
    pub open spec fn is_json_spec(self) -> bool {
        self.extension_spec() == Some(JSON_EXT@)
    }

    /// Whether the file holds sealed JSON: whether its extension is
    /// `encrypt`.
    pub open spec fn is_encrypted_json_spec(self) -> bool {
        self.extension_spec() == Some(ENCRYPTED_EXT@)
    }

    /// The name under which the file stands in the directory.
    pub open spec fn file_name_spec(self) -> Seq<char> {
        match self.extension_spec() {
            Some(extension) => self.base_name_spec() + seq!['.'] + extension,
            None => self.base_name_spec(),
        }
    }

    /// The file's name without its extension.
    pub fn base_name(self) -> (name: &'static str)
        ensures
            name@ == self.base_name_spec(),
    {
        match self {
            ConfigFile::Local => LOCAL_CONFIG,
            ConfigFile::Consensus => CONSENSUS_CONFIG,
            ConfigFile::Private => PRIVATE_CONFIG,
            ConfigFile::Client => CLIENT_CONFIG,
            ConfigFile::ClientConnect => CLIENT_CONNECT_FILE,
            ConfigFile::Salt => SALT_FILE,
            ConfigFile::TlsCert => TLS_CERT,
            ConfigFile::TlsPk => TLS_PK,
        }
    }

    /// The file's extension, for the files that have one.
    pub fn extension(self) -> (extension: Option<&'static str>)
        ensures
            match extension {
                Some(e) => self.extension_spec() == Some(e@),
                None => self.extension_spec() is None,
            },
    {
        match self {
            ConfigFile::Local
            | ConfigFile::Consensus
            | ConfigFile::Client
            | ConfigFile::ClientConnect => Some(JSON_EXT),
            ConfigFile::Private => Some(ENCRYPTED_EXT),
            ConfigFile::Salt | ConfigFile::TlsCert | ConfigFile::TlsPk => None,
        }
    }

    /// Whether the file is sealed under the password-derived key.
    pub fn is_encrypted(self) -> (sealed: bool)
        ensures
            sealed == self.is_encrypted_spec(),
    {
        match self {
            ConfigFile::Private | ConfigFile::TlsPk => true,
            _ => false,
        }
    }

    /// Whether the file holds JSON in the clear.
    pub fn is_json(self) -> (json: bool)
        ensures
            json == self.is_json_spec(),
    {
        proof {
            reveal_strlit("json");
            reveal_strlit("encrypt");
            assert(JSON_EXT@.len() == 4 && ENCRYPTED_EXT@.len() == 7);
        }
        match self {
            ConfigFile::Local
            | ConfigFile::Consensus
            | ConfigFile::Client
            | ConfigFile::ClientConnect => true,
            _ => false,
        }
    }

    /// Whether the file holds sealed JSON.
    pub fn is_encrypted_json(self) -> (sealed: bool)
        ensures
            sealed == self.is_encrypted_json_spec(),
    {
        proof {
            reveal_strlit("json");
            reveal_strlit("encrypt");
            assert(JSON_EXT@.len() == 4 && ENCRYPTED_EXT@.len() == 7);
        }
        match self {
            ConfigFile::Private => true,
            _ => false,
        }
    }

    /// The name under which the file stands in the directory.
    pub fn file_name(self) -> (name: String)
        ensures
            name@ == self.file_name_spec(),
    {
        let mut name = String::from_str(self.base_name());
        match self.extension() {
            Some(extension) => {
                name.append(".");
                name.append(extension);
                proof {
                    reveal_strlit(".");
                    assert("."@ =~= seq!['.']);
                }
            },
            None => {},
        }
        name
    }
}

/// No two files stand under the same name: their names even differ in
/// length.
pub proof fn lemma_file_names_distinct(a: ConfigFile, b: ConfigFile)
    requires
        a != b,
    ensures
        a.file_name_spec() != b.file_name_spec(),
{
    reveal_strlit("client");
    reveal_strlit("private");
    reveal_strlit("local");
    reveal_strlit("consensus");
    reveal_strlit("client-connect");
    reveal_strlit("private.salt");
    reveal_strlit("tls-pk");
    reveal_strlit("tls-cert");
    reveal_strlit("json");
    reveal_strlit("encrypt");
    assert(a.file_name_spec().len() != b.file_name_spec().len());
}

/// The bytes that a text is stored as.
pub open spec fn text_bytes(text: Seq<char>) -> Seq<u8> {
    encode_utf8(text)
}

/// What reading a file as text gives: the text that its bytes stand for.
/// A file that is not there cannot be read, nor can one that does not hold
/// text.
pub open spec fn read_text_spec(contents: Option<Seq<u8>>) -> Result<Seq<char>, ConfigError> {
    match contents {
        None => Err(ConfigError::IoError),
        Some(bytes) => if valid_utf8(bytes) {
            Ok(decode_utf8(bytes))
        } else {
            Err(ConfigError::IoError)
        },
    }
}

/// A text that was stored reads as itself.
pub proof fn lemma_read_text_stored(text: Seq<char>)
    ensures
        read_text_spec(Some(text_bytes(text))) == Ok::<Seq<char>, ConfigError>(text),
{
    encode_utf8_valid_utf8(text);
    encode_utf8_decode_utf8(text);
}

/// `String::from_utf8` of std: the text that the bytes encode, and nothing
/// where they are not UTF-8.
#[verifier::external_body]
pub(crate) fn string_from_utf8(bytes: Vec<u8>) -> (text: Option<String>)
    ensures
        match text {
            Some(t) => valid_utf8(bytes@) && t@ == decode_utf8(bytes@),
            None => !valid_utf8(bytes@),
        },
{
    String::from_utf8(bytes).ok()
}

/// What a configuration directory holds: for each of its files the bytes in
/// it, where the file is there.
#[derive(Debug)]
pub struct ConfigDir {
    local: Option<Vec<u8>>,
    consensus: Option<Vec<u8>>,
    private: Option<Vec<u8>>,
    client: Option<Vec<u8>>,
    client_connect: Option<Vec<u8>>,
    salt: Option<Vec<u8>>,
    tls_cert: Option<Vec<u8>>,
    tls_pk: Option<Vec<u8>>,
}

impl View for ConfigDir {
    type V = Map<ConfigFile, Seq<u8>>;

    closed spec fn view(&self) -> Map<ConfigFile, Seq<u8>> {
        Map::new(|file: ConfigFile| self.slot(file) is Some, |file: ConfigFile| self.slot(file)->0@)
    }
}

/// Whether a directory holds every file: only then is it complete.
pub open spec fn is_complete_spec(dir: Map<ConfigFile, Seq<u8>>) -> bool {
    forall|file: ConfigFile| dir.contains_key(file)
}

/// What a directory holds under `file`.
pub open spec fn contents(dir: Map<ConfigFile, Seq<u8>>, file: ConfigFile) -> Option<Seq<u8>> {
    if dir.contains_key(file) {
        Some(dir[file])
    } else {
        None
    }
}

impl ConfigDir {
    spec fn slot(&self, file: ConfigFile) -> Option<Vec<u8>> {
        match file {
            ConfigFile::Local => self.local,
            ConfigFile::Consensus => self.consensus,
            ConfigFile::Private => self.private,
            ConfigFile::Client => self.client,
            ConfigFile::ClientConnect => self.client_connect,
            ConfigFile::Salt => self.salt,
            ConfigFile::TlsCert => self.tls_cert,
            ConfigFile::TlsPk => self.tls_pk,
        }
    }

    /// A directory without files.
    pub fn new() -> (dir: ConfigDir)
        ensures
            dir@ == Map::<ConfigFile, Seq<u8>>::empty(),
    {
        let dir = ConfigDir {
            local: None,
            consensus: None,
            private: None,
            client: None,
            client_connect: None,
            salt: None,
            tls_cert: None,
            tls_pk: None,
        };
        assert(dir@ =~= Map::<ConfigFile, Seq<u8>>::empty());
        dir
    }

    /// The bytes in `file`, if it is there.
    pub fn get(&self, file: ConfigFile) -> (found: Option<&Vec<u8>>)
        ensures
            match found {
                Some(bytes) => contents(self@, file) == Some(bytes@),
                None => contents(self@, file) is None,
            },
    {
        let slot = match file {
            ConfigFile::Local => &self.local,
            ConfigFile::Consensus => &self.consensus,
            ConfigFile::Private => &self.private,
            ConfigFile::Client => &self.client,
            ConfigFile::ClientConnect => &self.client_connect,
            ConfigFile::Salt => &self.salt,
            ConfigFile::TlsCert => &self.tls_cert,
            ConfigFile::TlsPk => &self.tls_pk,
        };
        assert(*slot == self.slot(file));
        slot.as_ref()
    }

    /// Whether `file` is there.
    pub fn contains(&self, file: ConfigFile) -> (there: bool)
        ensures
            there == self@.contains_key(file),
    {
        self.get(file).is_some()
    }

    /// Stores `bytes` as `file`, in place of what was there.
    pub fn put(&mut self, file: ConfigFile, bytes: Vec<u8>)
        ensures
            final(self)@ == old(self)@.insert(file, bytes@),
    {
        match file {
            ConfigFile::Local => self.local = Some(bytes),
            ConfigFile::Consensus => self.consensus = Some(bytes),
            ConfigFile::Private => self.private = Some(bytes),
            ConfigFile::Client => self.client = Some(bytes),
            ConfigFile::ClientConnect => self.client_connect = Some(bytes),
            ConfigFile::Salt => self.salt = Some(bytes),
            ConfigFile::TlsCert => self.tls_cert = Some(bytes),
            ConfigFile::TlsPk => self.tls_pk = Some(bytes),
        }
        assert(self@ =~= old(self)@.insert(file, bytes@));
    }

    /// Whether every file is there.
    pub fn is_complete(&self) -> (complete: bool)
        ensures
            complete == is_complete_spec(self@),
    {
        let complete = self.local.is_some() && self.consensus.is_some() && self.private.is_some()
            && self.client.is_some() && self.client_connect.is_some() && self.salt.is_some()
            && self.tls_cert.is_some() && self.tls_pk.is_some();
        proof {
            if complete {
                assert forall|file: ConfigFile| self@.contains_key(file) by {
                    assert(self.slot(file) is Some);
                }
            } else {
                let missing = if self.local is None {
                    ConfigFile::Local
                } else if self.consensus is None {
                    ConfigFile::Consensus
                } else if self.private is None {
                    ConfigFile::Private
                } else if self.client is None {
                    ConfigFile::Client
                } else if self.client_connect is None {
                    ConfigFile::ClientConnect
                } else if self.salt is None {
                    ConfigFile::Salt
                } else if self.tls_cert is None {
                    ConfigFile::TlsCert
                } else {
                    ConfigFile::TlsPk
                };
                assert(!self@.contains_key(missing));
            }
        }
        complete
    }

    /// Reads `file` as text.
    pub fn get_text(&self, file: ConfigFile) -> (r: Result<String, ConfigError>)
        ensures
            match r {
                Ok(text) => read_text_spec(contents(self@, file)) == Ok::<Seq<char>, ConfigError>(
                    text@,
                ),
                Err(e) => read_text_spec(contents(self@, file)) == Err::<Seq<char>, ConfigError>(e),
            },
    {
        match self.get(file) {
            None => Err(ConfigError::IoError),
            Some(bytes) => match string_from_utf8(bytes.clone()) {
                Some(text) => Ok(text),
                None => Err(ConfigError::IoError),
            },
        }
    }

    /// Stores `text` as `file`, in place of what was there.
    pub fn put_text(&mut self, file: ConfigFile, text: &str)
        ensures
            final(self)@ == old(self)@.insert(file, text_bytes(text@)),
    {
        self.put(file, text.as_bytes_vec());
    }
}

} // verus!
