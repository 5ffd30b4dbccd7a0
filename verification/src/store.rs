//! Reading a guardian's configuration from its directory, and writing it
//! there. The three records of a configuration are handled in the form in
//! which they are stored, as text; what is secret is only ever written
//! sealed.

use crate::envelope::{
    encrypted_read, encrypted_read_spec, encrypted_write, open_envelope_spec, AeadKey,
    NONCE_LEN, TAG_LEN,
};
use crate::error::ConfigError;
use crate::files::{
    contents, lemma_read_text_stored, read_text_spec, string_from_utf8, text_bytes, ConfigDir,
    ConfigFile, ENCRYPTED_EXT, JSON_EXT,
};
use vstd::prelude::*;
use vstd::string::*;
use vstd::utf8::{decode_utf8, decode_utf8_encode_utf8, valid_utf8};

verus! {

/// A guardian's configuration, each of its three records as the text that
/// is stored for it.
#[derive(Debug)]
pub struct ServerConfig {
    /// What this guardian configures for itself.
    pub local: String,
    /// What all guardians of the federation agree on.
    pub consensus: String,
    /// This guardian's secrets.
    pub private: String,
}

/// A configuration as plain values.
pub ghost struct ServerConfigText {
    pub local: Seq<char>,
    pub consensus: Seq<char>,
    pub private: Seq<char>,
}

impl View for ServerConfig {
    type V = ServerConfigText;

    open spec fn view(&self) -> ServerConfigText {
        ServerConfigText { local: self.local@, consensus: self.consensus@, private: self.private@ }
    }
}

/// What reading a sealed file gives: the text that was sealed. A file that
/// is not there cannot be read; one that does not open fails
/// authentication; one that opens to something that is no text is
/// malformed.
pub open spec fn read_sealed_spec(key: Seq<u8>, sealed: Option<Seq<u8>>) -> Result<
    Seq<char>,
    ConfigError,
> {
    match encrypted_read_spec(key, sealed) {
        Err(e) => Err(e),
        Ok(plaintext) => if valid_utf8(plaintext) {
            Ok(decode_utf8(plaintext))
        } else {
            Err(ConfigError::MalformedConfig)
        },
    }
}

/// What reading `file` as JSON in the clear gives. A file that is kept in
/// another form has no such reading, as if it were not there.
pub open spec fn read_json_spec(dir: Map<ConfigFile, Seq<u8>>, file: ConfigFile) -> Result<
    Seq<char>,
    ConfigError,
> {
    if file.is_json_spec() {
        read_text_spec(contents(dir, file))
    } else {
        Err(ConfigError::IoError)
    }
}

/// What reading `file` as sealed JSON gives under `key`. A file that is
/// kept in another form has no such reading, as if it were not there.
pub open spec fn read_sealed_json_spec(
    key: Seq<u8>,
    dir: Map<ConfigFile, Seq<u8>>,
    file: ConfigFile,
) -> Result<Seq<char>, ConfigError> {
    if file.is_encrypted_json_spec() {
        read_sealed_spec(key, contents(dir, file))
    } else {
        Err(ConfigError::IoError)
    }
}

/// The configuration that a directory holds. All three records must be
/// there: a directory that lacks one is incomplete. Then the consensus record is read, the local one, and the private
/// one under `key`, and the first of them that cannot be read decides the
/// error.
pub open spec fn read_spec(key: Seq<u8>, dir: Map<ConfigFile, Seq<u8>>) -> Result<
    ServerConfigText,
    ConfigError,
> {
    let consensus = read_text_spec(contents(dir, ConfigFile::Consensus));
    let local = read_text_spec(contents(dir, ConfigFile::Local));
    let private = read_sealed_spec(key, contents(dir, ConfigFile::Private));
    if !dir.contains_key(ConfigFile::Consensus) || !dir.contains_key(ConfigFile::Local)
        || !dir.contains_key(ConfigFile::Private) {
        Err(ConfigError::IncompleteConfig)
    } else if consensus is Err {
        Err(consensus->Err_0)
    } else if local is Err {
        Err(local->Err_0)
    } else if private is Err {
        Err(private->Err_0)
    } else {
        Ok(
            ServerConfigText {
                local: local->Ok_0,
                consensus: consensus->Ok_0,
                private: private->Ok_0,
            },
        )
    }
}

/// The directory after the records that are no secret have been written:
/// the local record, the consensus record, what a client needs to find the
/// federation, and what clients are told of its configuration. Every other
/// file is as it was.
pub open spec fn write_nonprivate_spec(
    dir: Map<ConfigFile, Seq<u8>>,
    local: Seq<char>,
    consensus: Seq<char>,
    client_config: Seq<char>,
    connect_info: Seq<char>,
) -> Map<ConfigFile, Seq<u8>> {
    dir.insert(ConfigFile::Local, text_bytes(local)).insert(
        ConfigFile::Consensus,
        text_bytes(consensus),
    ).insert(ConfigFile::ClientConnect, text_bytes(connect_info)).insert(
        ConfigFile::Client,
        text_bytes(client_config),
    )
}

/// Reads the text of a file that holds JSON in the clear.
pub fn plaintext_json_read(dir: &ConfigDir, file: ConfigFile) -> (r: Result<String, ConfigError>)
    ensures
        match r {
            Ok(text) => read_json_spec(dir@, file) == Ok::<Seq<char>, ConfigError>(text@),
            Err(e) => read_json_spec(dir@, file) == Err::<Seq<char>, ConfigError>(e),
        },
{
    if !file.is_json() {
        return Err(ConfigError::IoError);
    }
    dir.get_text(file)
}

/// Reads the text of a file that holds sealed JSON. The text is shorter
/// than the file by the nonce and the tag.
pub fn encrypted_json_read(key: &AeadKey, dir: &ConfigDir, file: ConfigFile) -> (r: Result<
    String,
    ConfigError,
>)
    ensures
        match r {
            Ok(text) => read_sealed_json_spec(key@, dir@, file) == Ok::<Seq<char>, ConfigError>(
                text@,
            ) && text_bytes(text@).len() + NONCE_LEN + TAG_LEN == dir@[file].len(),
            Err(e) => read_sealed_json_spec(key@, dir@, file) == Err::<Seq<char>, ConfigError>(
                e,
            ),
        },
{
    if !file.is_encrypted_json() {
        return Err(ConfigError::IoError);
    }
    let plaintext = match encrypted_read(key, dir, file) {
        Ok(plaintext) => plaintext,
        Err(e) => {
            return Err(e);
        },
    };
    proof {
        if valid_utf8(plaintext@) {
            decode_utf8_encode_utf8(plaintext@);
        }
    }
    match string_from_utf8(plaintext) {
        Some(text) => Ok(text),
        None => Err(ConfigError::MalformedConfig),
    }
}

/// Writes a text to a file that holds JSON in the clear. No other file is
/// written: what is kept sealed is never stored in the clear.
pub fn plaintext_json_write(text: &str, dir: &mut ConfigDir, file: ConfigFile) -> (r: Result<
    (),
    ConfigError,
>)
    ensures
        r is Ok <==> file.is_json_spec(),
        match r {
            Ok(_) => final(dir)@ == old(dir)@.insert(file, text_bytes(text@)) && read_json_spec(
                final(dir)@,
                file,
            ) == Ok::<Seq<char>, ConfigError>(text@),
            Err(e) => e == ConfigError::IoError && final(dir)@ == old(dir)@,
        },
{
    if !file.is_json() {
        return Err(ConfigError::IoError);
    }
    dir.put_text(file, text);
    proof {
        lemma_read_text_stored(text@);
    }
    Ok(())
}

/// Seals a text under `key` and writes it to a file that holds sealed JSON.
/// No other file is written. What is written is the nonce, the sealed text
/// and the tag, and reads back as the text under the same key. Where
/// sealing fails nothing is written.
pub fn encrypted_json_write(text: &str, key: &AeadKey, dir: &mut ConfigDir, file: ConfigFile) -> (r:
    Result<(), ConfigError>)
    ensures
        match r {
            Ok(_) => {
                &&& file.is_encrypted_json_spec()
                &&& final(dir)@.contains_key(file)
                &&& final(dir)@ == old(dir)@.insert(file, final(dir)@[file])
                &&& final(dir)@[file].len() == NONCE_LEN + text_bytes(text@).len() + TAG_LEN
                &&& open_envelope_spec(key@, final(dir)@[file]) == Ok::<Seq<u8>, ConfigError>(
                    text_bytes(text@),
                )
                &&& read_sealed_json_spec(key@, final(dir)@, file) == Ok::<
                    Seq<char>,
                    ConfigError,
                >(text@)
            },
            Err(e) => final(dir)@ == old(dir)@ && (e == ConfigError::IoError
                <==> !file.is_encrypted_json_spec()) && (e == ConfigError::IoError || e
                == ConfigError::CryptoError),
        },
{
    if !file.is_encrypted_json() {
        return Err(ConfigError::IoError);
    }
    let plaintext = text.as_bytes_vec();
    proof {
        lemma_read_text_stored(text@);
        assert(file.is_encrypted_spec()) by {
            reveal_strlit("json");
            reveal_strlit("encrypt");
            assert(JSON_EXT@.len() == 4 && ENCRYPTED_EXT@.len() == 7);
        }
    }
    encrypted_write(&plaintext, key, dir, file)
}

/// Reads the server from the local, private, and consensus cfg files
/// (private file encrypted)
pub fn read_server_configs(key: &AeadKey, dir: &ConfigDir) -> (r: Result<
    ServerConfig,
    ConfigError,
>)
    ensures
        match r {
            Ok(server) => read_spec(key@, dir@) == Ok::<ServerConfigText, ConfigError>(server@),
            Err(e) => read_spec(key@, dir@) == Err::<ServerConfigText, ConfigError>(e),
        },
{
    if !dir.contains(ConfigFile::Consensus) || !dir.contains(ConfigFile::Local) || !dir.contains(
        ConfigFile::Private,
    ) {
        return Err(ConfigError::IncompleteConfig);
    }
    let consensus = match plaintext_json_read(dir, ConfigFile::Consensus) {
        Ok(text) => text,
        Err(e) => {
            return Err(e);
        },
    };
    let local = match plaintext_json_read(dir, ConfigFile::Local) {
        Ok(text) => text,
        Err(e) => {
            return Err(e);
        },
    };
    let private = match encrypted_json_read(key, dir, ConfigFile::Private) {
        Ok(text) => text,
        Err(e) => {
            return Err(e);
        },
    };
    Ok(ServerConfig { local, consensus, private })
}

/// Writes the server into plaintext json configuration files
/// (private keys not serialized). All four files hold JSON in the clear, so
/// writing never fails.
pub fn write_nonprivate_configs(
    server: &ServerConfig,
    dir: &mut ConfigDir,
    client_config: &str,
    connect_info: &str,
) -> (r: Result<(), ConfigError>)
    ensures
        r is Ok,
        final(dir)@ == write_nonprivate_spec(
            old(dir)@,
            server@.local,
            server@.consensus,
            client_config@,
            connect_info@,
        ),
{
    match plaintext_json_write(server.local.as_str(), dir, ConfigFile::Local) {
        Ok(_) => {},
        Err(e) => {
            return Err(e);
        },
    }
    match plaintext_json_write(server.consensus.as_str(), dir, ConfigFile::Consensus) {
        Ok(_) => {},
        Err(e) => {
            return Err(e);
        },
    }
    match plaintext_json_write(connect_info, dir, ConfigFile::ClientConnect) {
        Ok(_) => {},
        Err(e) => {
            return Err(e);
        },
    }
    plaintext_json_write(client_config, dir, ConfigFile::Client)
}

/// What was written is what is read: after the records that are no secret
/// have been written, and the private record has been stored in an envelope
/// that opens to it under `key`, the directory reads as the configuration
/// that was written.
pub proof fn lemma_read_written(
    key: Seq<u8>,
    dir: Map<ConfigFile, Seq<u8>>,
    server: ServerConfigText,
    client_config: Seq<char>,
    connect_info: Seq<char>,
    envelope: Seq<u8>,
)
    requires
        open_envelope_spec(key, envelope) == Ok::<Seq<u8>, ConfigError>(
            text_bytes(server.private),
        ),
    ensures
        read_spec(
            key,
            write_nonprivate_spec(
                dir,
                server.local,
                server.consensus,
                client_config,
                connect_info,
            ).insert(ConfigFile::Private, envelope),
        ) == Ok::<ServerConfigText, ConfigError>(server),
{
    lemma_read_text_stored(server.local);
    lemma_read_text_stored(server.consensus);
    lemma_read_text_stored(server.private);
}

/// No secret reaches a file that is kept in the clear: what is written
/// without a key depends on the local and the consensus record and on what
/// clients are told, and on nothing in the private record; and the sealed
/// files are left as they were.
pub proof fn lemma_private_not_written(
    dir: Map<ConfigFile, Seq<u8>>,
    first: ServerConfigText,
    second: ServerConfigText,
    client_config: Seq<char>,
    connect_info: Seq<char>,
)
    requires
        first.local == second.local,
        first.consensus == second.consensus,
    ensures
        write_nonprivate_spec(dir, first.local, first.consensus, client_config, connect_info)
            == write_nonprivate_spec(
            dir,
            second.local,
            second.consensus,
            client_config,
            connect_info,
        ),
        contents(
            write_nonprivate_spec(dir, first.local, first.consensus, client_config, connect_info),
            ConfigFile::Private,
        ) == contents(dir, ConfigFile::Private),
        contents(
            write_nonprivate_spec(dir, first.local, first.consensus, client_config, connect_info),
            ConfigFile::TlsPk,
        ) == contents(dir, ConfigFile::TlsPk),
{
}

/// A directory that lacks one of the three records does not read as a
/// configuration, whatever else it holds.
pub proof fn lemma_read_incomplete(key: Seq<u8>, dir: Map<ConfigFile, Seq<u8>>, missing: ConfigFile)
    requires
        missing == ConfigFile::Local || missing == ConfigFile::Consensus || missing
            == ConfigFile::Private,
        !dir.contains_key(missing),
    ensures
        read_spec(key, dir) == Err::<ServerConfigText, ConfigError>(ConfigError::IncompleteConfig),
{
}

} // verus!
