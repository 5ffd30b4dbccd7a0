//! A guardian's TLS identity: made once, before the federation exists, in a
//! directory that has not been used.

use crate::conn_string::{
    announceable, can_announce, format_checked, format_spec, parse_spec, parse_url,
    url_serialization, PeerIdentity, PeerServerParams, FIELD_SEPARATOR,
};
use crate::envelope::{
    encrypted_write, get_key, key_spec, open_envelope_spec, option_text, random_bytes, AeadKey,
    SALT_LEN,
};
use crate::error::ConfigError;
use crate::files::{contents, lemma_read_text_stored, text_bytes, ConfigDir, ConfigFile};
use crate::hex::{hex_encode, lemma_decode_encode, to_hex};
use crate::text::contains_char;
use rcgen::{Certificate, CertificateParams, DnType};
use tokio_rustls::rustls::ServerName;
use vstd::prelude::*;
use vstd::string::*;
use vstd::utf8::is_ascii_chars;

verus! {

/// Whether `ServerName::try_from` accepts `name`: whether it is a DNS name
/// as TLS server-name validation wants it, or an IP address.
pub uninterp spec fn accepted_server_name(name: Seq<char>) -> bool;

/// `ServerName::try_from` of `rustls`, on a string: whether `name` is
/// accepted.
#[verifier::external_body]
fn is_server_name(name: &str) -> (accepted: bool)
    ensures
        accepted == accepted_server_name(name@),
{
    ServerName::try_from(name).is_ok()
}

/// A certificate and the private key that belongs to it, both in DER.
pub struct TlsIdentity {
    /// The certificate.
    pub cert: Vec<u8>,
    /// The private key, in PKCS#8.
    pub private_key: Vec<u8>,
}

/// `Certificate::from_params`, `serialize_der` and
/// `serialize_private_key_der` of `rcgen`: a fresh key pair and a
/// certificate for `name` that is signed with it, made for `name` as its DNS
/// name and its common name. What comes back is the certificate and the
/// private key, or nothing where one of them cannot be made. The name must
/// be ASCII, which `rcgen` takes for granted.
#[verifier::external_body]
fn self_signed(name: &str) -> (made: Option<TlsIdentity>)
    requires
        is_ascii_chars(name@),
{
    let mut params = CertificateParams::new(vec![name.to_owned()]);
    params.distinguished_name.push(DnType::CommonName, name);
    let made = Certificate::from_params(params).ok()?;
    Some(TlsIdentity {
        cert: made.serialize_der().ok()?,
        private_key: made.serialize_private_key_der(),
    })
}

/// Whether a guardian may be called `name`: the name is accepted as a TLS
/// server name, and it can stand in a connection string, which is ASCII and
/// has `@` between its fields.
pub open spec fn name_allowed(name: Seq<char>) -> bool {
    accepted_server_name(name) && is_ascii_chars(name) && !name.contains(FIELD_SEPARATOR)
}

/// Whether `text` is a connection string that announces the two URLs and
/// the name with some certificate: it reads as them, and it is written the
/// way a connection string is written.
pub open spec fn announces(
    text: Seq<char>,
    p2p_url: Seq<char>,
    api_url: Seq<char>,
    name: Seq<char>,
) -> bool {
    &&& parse_spec(text) is Ok
    &&& parse_spec(text)->Ok_0.p2p_url == p2p_url
    &&& parse_spec(text)->Ok_0.api_url == api_url
    &&& parse_spec(text)->Ok_0.name == name
    &&& text == format_spec(parse_spec(text)->Ok_0)
}

/// Whether what the URL parser makes of two URLs can be announced under
/// `name` and read back.
pub open spec fn urls_announceable(p2p_url: Seq<char>, api_url: Seq<char>, name: Seq<char>) -> bool {
    &&& url_serialization(p2p_url) is Some
    &&& url_serialization(api_url) is Some
    &&& announceable(url_serialization(p2p_url)->0, url_serialization(api_url)->0, name)
}

/// Whether `after` is `before` with a TLS identity added: a private key
/// sealed under `key`, and `text` as our own connection string.
pub open spec fn identity_stored(
    before: Map<ConfigFile, Seq<u8>>,
    after: Map<ConfigFile, Seq<u8>>,
    key: Seq<u8>,
    text: Seq<char>,
) -> bool {
    &&& after.contains_key(ConfigFile::TlsPk)
    &&& open_envelope_spec(key, after[ConfigFile::TlsPk]) is Ok
    &&& after == before.insert(ConfigFile::TlsPk, after[ConfigFile::TlsPk]).insert(
        ConfigFile::TlsCert,
        text_bytes(text),
    )
}

/// Whether `bytes` is what a salt file holds: a salt of `SALT_LEN` bytes in
/// lowercase hexadecimal.
pub open spec fn is_salt_file(bytes: Seq<u8>) -> bool {
    exists|salt: Seq<u8>|
        salt.len() == SALT_LEN && bytes == text_bytes(#[trigger] hex_encode(salt))
}

/// Whether a guardian may be called `name`.
pub fn check_name(name: &str) -> (allowed: bool)
    ensures
        allowed == name_allowed(name@),
{
    is_server_name(name) && name.is_ascii() && !contains_char(name, FIELD_SEPARATOR)
}

/// Stores a TLS identity: the private key sealed under `key`, and the
/// connection string that announces the certificate under the two URLs and
/// the name. The string is only written where it reads back as what it
/// announces. Where it would not, or where sealing fails, nothing is
/// stored.
pub fn store_identity(
    dir: &mut ConfigDir,
    p2p_url: String,
    api_url: String,
    name: String,
    made: TlsIdentity,
    key: &AeadKey,
) -> (r: Result<String, ConfigError>)
    ensures
        match r {
            Ok(text) => {
                let peer = PeerIdentity {
                    cert: made.cert@,
                    p2p_url: p2p_url@,
                    api_url: api_url@,
                    name: name@,
                };
                &&& announceable(p2p_url@, api_url@, name@)
                &&& text@ == format_spec(peer)
                &&& parse_spec(text@) == Ok::<PeerIdentity, ConfigError>(peer)
                &&& identity_stored(old(dir)@, final(dir)@, key@, text@)
                &&& open_envelope_spec(key@, final(dir)@[ConfigFile::TlsPk]) == Ok::<
                    Seq<u8>,
                    ConfigError,
                >(made.private_key@)
            },
            Err(e) => final(dir)@ == old(dir)@ && (e == ConfigError::MalformedConnectionString
                <==> !announceable(p2p_url@, api_url@, name@)) && (e
                == ConfigError::MalformedConnectionString || e == ConfigError::CryptoError),
        },
{
    let peer = PeerServerParams { cert: made.cert, p2p_url, api_url, name };
    let text = match format_checked(&peer) {
        Some(text) => text,
        None => {
            return Err(ConfigError::MalformedConnectionString);
        },
    };
    match encrypted_write(&made.private_key, key, dir, ConfigFile::TlsPk) {
        Ok(_) => {},
        Err(_) => {
            return Err(ConfigError::CryptoError);
        },
    }
    dir.put_text(ConfigFile::TlsCert, text.as_str());
    Ok(text)
}

/// Makes a TLS identity for `name` and stores it. The name is looked at
/// first, then the two URLs; a failure leaves the directory as it was. The
/// string that comes back reads as the two URLs, as the parser writes them,
/// and the name.
pub fn gen_tls(dir: &mut ConfigDir, p2p_url: &str, api_url: &str, name: String, key: &AeadKey) -> (r:
    Result<String, ConfigError>)
    ensures
        match r {
            Ok(text) => name_allowed(name@) && urls_announceable(p2p_url@, api_url@, name@)
                && announces(
                text@,
                url_serialization(p2p_url@)->0,
                url_serialization(api_url@)->0,
                name@,
            ) && identity_stored(old(dir)@, final(dir)@, key@, text@),
            Err(e) => final(dir)@ == old(dir)@ && (e == ConfigError::InvalidName <==> !name_allowed(
                name@,
            )) && (e == ConfigError::MalformedConnectionString <==> name_allowed(name@)
                && !urls_announceable(p2p_url@, api_url@, name@)) && (e
                == ConfigError::InvalidName || e == ConfigError::MalformedConnectionString || e
                == ConfigError::CryptoError),
        },
{
    if !check_name(name.as_str()) {
        return Err(ConfigError::InvalidName);
    }
    let (p2p_url, api_url) = match (parse_url(p2p_url), parse_url(api_url)) {
        (Some(p2p_url), Some(api_url)) => (p2p_url, api_url),
        _ => {
            return Err(ConfigError::MalformedConnectionString);
        },
    };
    if !can_announce(p2p_url.as_str(), api_url.as_str(), name.as_str()) {
        return Err(ConfigError::MalformedConnectionString);
    }
    match self_signed(name.as_str()) {
        Some(made) => store_identity(dir, p2p_url, api_url, name, made, key),
        None => Err(ConfigError::CryptoError),
    }
}

/// Sets up an unused directory for a guardian: a fresh salt, the key that
/// the password gives with it, and a TLS identity sealed under that key.
/// The connection string that comes back is what the operator hands to the
/// other guardians: it reads as the two URLs, as the parser writes them,
/// and the name.
///
/// A directory that holds a salt has been used and is left alone. After
/// that the salt is stored first, so a later failure leaves the directory
/// with its salt or as it was.
pub fn create_cert(
    dir: &mut ConfigDir,
    p2p_url: &str,
    api_url: &str,
    guardian_name: String,
    password: Option<String>,
) -> (r: Result<String, ConfigError>)
    ensures
        old(dir)@.contains_key(ConfigFile::Salt) <==> r == Err::<String, ConfigError>(
            ConfigError::DirectoryInUse,
        ),
        match r {
            Ok(text) => {
                let salted = old(dir)@.insert(ConfigFile::Salt, final(dir)@[ConfigFile::Salt]);
                &&& final(dir)@.contains_key(ConfigFile::Salt)
                &&& is_salt_file(final(dir)@[ConfigFile::Salt])
                &&& key_spec(option_text(password), contents(final(dir)@, ConfigFile::Salt)) is Ok
                &&& identity_stored(
                    salted,
                    final(dir)@,
                    key_spec(option_text(password), contents(final(dir)@, ConfigFile::Salt))->Ok_0,
                    text@,
                )
                &&& name_allowed(guardian_name@)
                &&& urls_announceable(p2p_url@, api_url@, guardian_name@)
                &&& announces(
                    text@,
                    url_serialization(p2p_url@)->0,
                    url_serialization(api_url@)->0,
                    guardian_name@,
                )
            },
            Err(e) => {
                &&& final(dir)@ == old(dir)@ || (final(dir)@.contains_key(ConfigFile::Salt)
                    && is_salt_file(final(dir)@[ConfigFile::Salt]) && final(dir)@ == old(
                    dir,
                )@.insert(ConfigFile::Salt, final(dir)@[ConfigFile::Salt]))
                &&& e == ConfigError::DirectoryInUse ==> final(dir)@ == old(dir)@
                &&& e == ConfigError::DirectoryInUse || e == ConfigError::CryptoError || e
                    == ConfigError::InvalidName || e == ConfigError::MalformedConnectionString
                &&& e == ConfigError::InvalidName ==> !name_allowed(guardian_name@)
                &&& e == ConfigError::MalformedConnectionString ==> !urls_announceable(
                    p2p_url@,
                    api_url@,
                    guardian_name@,
                )
            },
        },
{
    if dir.contains(ConfigFile::Salt) {
        return Err(ConfigError::DirectoryInUse);
    }
    let salt = match random_bytes(SALT_LEN) {
        Some(salt) => salt,
        None => {
            return Err(ConfigError::CryptoError);
        },
    };
    let salt_text = to_hex(salt.as_slice());
    dir.put_text(ConfigFile::Salt, salt_text.as_str());
    proof {
        lemma_read_text_stored(salt_text@);
        lemma_decode_encode(salt@);
        assert(is_salt_file(dir@[ConfigFile::Salt])) by {
            assert(dir@[ConfigFile::Salt] == text_bytes(hex_encode(salt@)));
        }
    }
    let ghost salted = dir@;
    let key = match get_key(password, dir) {
        Ok(key) => key,
        Err(_) => {
            return Err(ConfigError::CryptoError);
        },
    };
    let r = gen_tls(dir, p2p_url, api_url, guardian_name, &key);
    proof {
        if r is Ok {
            assert(dir@[ConfigFile::Salt] == salted[ConfigFile::Salt]);
            assert(old(dir)@.insert(ConfigFile::Salt, dir@[ConfigFile::Salt]) =~= salted);
        }
    }
    r
}

} // verus!
