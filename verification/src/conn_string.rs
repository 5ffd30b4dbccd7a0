//! Connection strings: the announcement by which a guardian tells the others
//! where it listens and which certificate is its own.
//!
//! A connection string has four fields separated by `@`: the URL of the
//! peer-to-peer endpoint, the URL of the API endpoint, the guardian's name
//! and its certificate in hexadecimal.

use crate::error::ConfigError;
use crate::hex::{
    from_hex, hex_decode, hex_encode, is_hex, lemma_decode_encode, lemma_encode_decode,
    lemma_encode_digits_only, lowercase, to_hex,
};
use crate::text::{
    contains_char, join, lemma_join_split, lemma_split_fields, lemma_split_join, split,
    split_text, texts,
};
use url::Url;
use vstd::prelude::*;
use vstd::string::*;

verus! {

/// The character between two fields of a connection string.
pub const FIELD_SEPARATOR: char = '@';

/// What a guardian makes public about itself. Two values stand for the same
/// guardian exactly if their certificates are equal.
#[derive(Debug)]
pub struct PeerServerParams {
    /// The TLS certificate, in DER.
    pub cert: Vec<u8>,
    /// Where the other guardians reach this one: a URL as its parser writes it.
    pub p2p_url: String,
    /// Where clients reach this guardian: a URL as its parser writes it.
    pub api_url: String,
    /// The name that the guardian shows, and that its certificate is made for.
    pub name: String,
}

/// A guardian's public identity as plain values.
pub ghost struct PeerIdentity {
    pub cert: Seq<u8>,
    pub p2p_url: Seq<char>,
    pub api_url: Seq<char>,
    pub name: Seq<char>,
}

impl View for PeerServerParams {
    type V = PeerIdentity;

    open spec fn view(&self) -> PeerIdentity {
        PeerIdentity {
            cert: self.cert@,
            p2p_url: self.p2p_url@,
            api_url: self.api_url@,
            name: self.name@,
        }
    }
}

/// Whether two byte strings are equal.
pub fn bytes_equal(a: &Vec<u8>, b: &Vec<u8>) -> (equal: bool)
    ensures
        equal == (a@ == b@),
{
    if a.len() != b.len() {
        return false;
    }
    let mut i: usize = 0;
    while i < a.len()
        invariant
            a@.len() == b@.len(),
            i <= a@.len(),
            forall|k: int| 0 <= k < i ==> a@[k] == b@[k],
        decreases a@.len() - i,
    {
        if a[i] != b[i] {
            return false;
        }
        i = i + 1;
    }
    assert(a@ =~= b@);
    true
}

impl PeerServerParams {
    /// Whether `self` and `other` stand for the same guardian.
    pub fn is_same_guardian(&self, other: &PeerServerParams) -> (same: bool)
        ensures
            same == self@.same_guardian(other@),
    {
        bytes_equal(&self.cert, &other.cert)
    }
}

/// What `Url::parse` makes of `input`: the URL written out again, or nothing
/// where `input` is no absolute URL.
pub uninterp spec fn url_serialization(input: Seq<char>) -> Option<Seq<char>>;

/// `Url::parse` of `url`, with the URL handed back as the text that it
/// serialises to; nothing where parsing fails.
#[verifier::external_body]
pub(crate) fn parse_url(input: &str) -> (url: Option<String>)
    ensures
        match url {
            Some(text) => url_serialization(input@) == Some(text@),
            None => url_serialization(input@) is None,
        },
{
    match Url::parse(input) {
        Ok(url) => Some(url.into()),
        Err(_) => None,
    }
}

/// Whether `url` is written the way the URL parser writes it.
pub open spec fn is_canonical_url(url: Seq<char>) -> bool {
    url_serialization(url) == Some(url)
}

/// Whether two URLs and a name can be announced and read back: both URLs
/// are written the way the parser writes them, and neither they nor the
/// name hold the field separator.
pub open spec fn announceable(p2p_url: Seq<char>, api_url: Seq<char>, name: Seq<char>) -> bool {
    &&& is_canonical_url(p2p_url)
    &&& is_canonical_url(api_url)
    &&& !p2p_url.contains(FIELD_SEPARATOR)
    &&& !api_url.contains(FIELD_SEPARATOR)
    &&& !name.contains(FIELD_SEPARATOR)
}

impl PeerIdentity {
    /// Whether this identity can be announced and read back, whatever its
    /// certificate.
    pub open spec fn is_announceable(self) -> bool {
        announceable(self.p2p_url, self.api_url, self.name)
    }

    /// Whether two identities belong to the same guardian.
    pub open spec fn same_guardian(self, other: PeerIdentity) -> bool {
        self.cert == other.cert
    }
}

/// The identity that four fields announce, given what the URL parser made of
/// the first two.
pub open spec fn identity_of_fields(
    p2p_url: Option<Seq<char>>,
    api_url: Option<Seq<char>>,
    name: Seq<char>,
    cert_hex: Seq<char>,
) -> Result<PeerIdentity, ConfigError> {
    if p2p_url is Some && api_url is Some && is_hex(cert_hex) {
        Ok(
            PeerIdentity {
                cert: hex_decode(cert_hex),
                p2p_url: p2p_url->0,
                api_url: api_url->0,
                name,
            },
        )
    } else {
        Err(ConfigError::MalformedConnectionString)
    }
}

/// The identity that a connection string announces. The string is refused
/// unless it has exactly four fields, the first two are URLs and the last is
/// hexadecimal.
pub open spec fn parse_spec(text: Seq<char>) -> Result<PeerIdentity, ConfigError> {
    let fields = split(text, FIELD_SEPARATOR);
    if fields.len() == 4 {
        identity_of_fields(
            url_serialization(fields[0]),
            url_serialization(fields[1]),
            fields[2],
            fields[3],
        )
    } else {
        Err(ConfigError::MalformedConnectionString)
    }
}

/// The connection string that announces an identity, with the certificate in
/// lowercase hexadecimal.
pub open spec fn format_spec(peer: PeerIdentity) -> Seq<char> {
    join(seq![peer.p2p_url, peer.api_url, peer.name, hex_encode(peer.cert)], FIELD_SEPARATOR)
}

/// A connection string with the certificate field in lowercase, and
/// everything else as it was.
pub open spec fn canonicalize(text: Seq<char>) -> Seq<char> {
    let fields = split(text, FIELD_SEPARATOR);
    join(fields.update(fields.len() - 1, lowercase(fields.last())), FIELD_SEPARATOR)
}

/// Puts a guardian's identity together from the fields of a connection
/// string, the URLs already parsed and the certificate already decoded
/// (`None` where that failed).
pub fn peer_params_from_fields(
    p2p_url: Option<String>,
    api_url: Option<String>,
    name: String,
    cert: Option<Vec<u8>>,
) -> (r: Result<PeerServerParams, ConfigError>)
    ensures
        match r {
            Ok(peer) => p2p_url is Some && api_url is Some && cert is Some && peer@
                == (PeerIdentity {
                cert: cert->0@,
                p2p_url: p2p_url->0@,
                api_url: api_url->0@,
                name: name@,
            }),
            Err(e) => e == ConfigError::MalformedConnectionString && (p2p_url is None
                || api_url is None || cert is None),
        },
{
    match (p2p_url, api_url, cert) {
        (Some(p2p_url), Some(api_url), Some(cert)) => Ok(
            PeerServerParams { cert, p2p_url, api_url, name },
        ),
        _ => Err(ConfigError::MalformedConnectionString),
    }
}

/// Reads a connection string.
pub fn parse_peer_params(url: String) -> (r: Result<PeerServerParams, ConfigError>)
    ensures
        match r {
            Ok(peer) => parse_spec(url@) == Ok::<PeerIdentity, ConfigError>(peer@),
            Err(e) => parse_spec(url@) == Err::<PeerIdentity, ConfigError>(e),
        },
{
    let mut fields = split_text(url.as_str(), FIELD_SEPARATOR);
    if fields.len() != 4 {
        return Err(ConfigError::MalformedConnectionString);
    }
    assert(texts(fields@)[0] == fields@[0]@ && texts(fields@)[1] == fields@[1]@ && texts(
        fields@,
    )[2] == fields@[2]@ && texts(fields@)[3] == fields@[3]@);
    let p2p_url = parse_url(fields[0].as_str());
    let api_url = parse_url(fields[1].as_str());
    let cert = from_hex(fields[3].as_str());
    let name = fields.swap_remove(2);
    peer_params_from_fields(p2p_url, api_url, name, cert)
}

/// Writes a guardian's identity as a connection string.
pub fn format_peer_params(peer: &PeerServerParams) -> (text: String)
    ensures
        text@ == format_spec(peer@),
{
    let mut text = peer.p2p_url.clone();
    text.append("@");
    text.append(peer.api_url.as_str());
    text.append("@");
    text.append(peer.name.as_str());
    text.append("@");
    text.append(to_hex(peer.cert.as_slice()).as_str());
    proof {
        reveal_strlit("@");
        let fields = seq![peer@.p2p_url, peer@.api_url, peer@.name, hex_encode(peer@.cert)];
        lemma_join_four(fields);
        assert("@"@ =~= seq![FIELD_SEPARATOR]);
        assert(text@ =~= format_spec(peer@));
    }
    text
}

/// Whether `url` is written the way the URL parser writes it.
pub fn is_canonical(url: &str) -> (canonical: bool)
    ensures
        canonical == is_canonical_url(url@),
{
    match parse_url(url) {
        Some(text) => text == String::from_str(url),
        None => false,
    }
}

/// Whether two URLs and a name can be announced and read back.
pub fn can_announce(p2p_url: &str, api_url: &str, name: &str) -> (can: bool)
    ensures
        can == announceable(p2p_url@, api_url@, name@),
{
    is_canonical(p2p_url) && is_canonical(api_url) && !contains_char(p2p_url, FIELD_SEPARATOR)
        && !contains_char(api_url, FIELD_SEPARATOR) && !contains_char(name, FIELD_SEPARATOR)
}

/// Writes a guardian's identity as a connection string, where the string
/// reads back as the identity; nothing where it would not.
pub fn format_checked(peer: &PeerServerParams) -> (text: Option<String>)
    ensures
        match text {
            Some(t) => peer@.is_announceable() && t@ == format_spec(peer@) && parse_spec(t@)
                == Ok::<PeerIdentity, ConfigError>(peer@),
            None => !peer@.is_announceable(),
        },
{
    if can_announce(peer.p2p_url.as_str(), peer.api_url.as_str(), peer.name.as_str()) {
        proof {
            lemma_parse_format(peer@);
        }
        Some(format_peer_params(peer))
    } else {
        None
    }
}

/// Four fields joined are the fields with three separators between them.
proof fn lemma_join_four(fields: Seq<Seq<char>>)
    requires
        fields.len() == 4,
    ensures
        join(fields, FIELD_SEPARATOR) == fields[0] + seq![FIELD_SEPARATOR] + fields[1]
            + seq![FIELD_SEPARATOR] + fields[2] + seq![FIELD_SEPARATOR] + fields[3],
{
    let three = fields.drop_last();
    let two = three.drop_last();
    let one = two.drop_last();
    assert(join(one, FIELD_SEPARATOR) == fields[0]);
    assert(join(two, FIELD_SEPARATOR) =~= fields[0] + seq![FIELD_SEPARATOR] + fields[1]);
    assert(join(three, FIELD_SEPARATOR) =~= fields[0] + seq![FIELD_SEPARATOR] + fields[1]
        + seq![FIELD_SEPARATOR] + fields[2]);
    assert(join(fields, FIELD_SEPARATOR) =~= fields[0] + seq![FIELD_SEPARATOR] + fields[1]
        + seq![FIELD_SEPARATOR] + fields[2] + seq![FIELD_SEPARATOR] + fields[3]);
}

/// Reading what was written gives the identity back: for every identity
/// that can be announced, parsing its connection string yields it again.
pub proof fn lemma_parse_format(peer: PeerIdentity)
    requires
        peer.is_announceable(),
    ensures
        parse_spec(format_spec(peer)) == Ok::<PeerIdentity, ConfigError>(peer),
{
    let fields = seq![peer.p2p_url, peer.api_url, peer.name, hex_encode(peer.cert)];
    lemma_encode_digits_only(peer.cert, FIELD_SEPARATOR);
    lemma_decode_encode(peer.cert);
    lemma_split_join(fields, FIELD_SEPARATOR);
}

/// Writing what was read gives the string back with its certificate in
/// lowercase: for every connection string that is accepted and whose URLs
/// are written the way the parser writes them, formatting the parsed
/// identity yields the canonical form of the string.
pub proof fn lemma_format_parse(text: Seq<char>)
    requires
        parse_spec(text) is Ok,
        is_canonical_url(split(text, FIELD_SEPARATOR)[0]),
        is_canonical_url(split(text, FIELD_SEPARATOR)[1]),
    ensures
        format_spec(parse_spec(text)->Ok_0) == canonicalize(text),
{
    let fields = split(text, FIELD_SEPARATOR);
    lemma_encode_decode(fields[3]);
    let peer = parse_spec(text)->Ok_0;
    assert(seq![peer.p2p_url, peer.api_url, peer.name, hex_encode(peer.cert)] =~= fields.update(
        3,
        lowercase(fields[3]),
    ));
}

/// The canonical form of a connection string has the fields of the string,
/// but for the last, which is in lowercase.
pub proof fn lemma_canonicalize_fields(text: Seq<char>)
    ensures
        split(canonicalize(text), FIELD_SEPARATOR) == split(text, FIELD_SEPARATOR).update(
            split(text, FIELD_SEPARATOR).len() - 1,
            lowercase(split(text, FIELD_SEPARATOR).last()),
        ),
{
    let fields = split(text, FIELD_SEPARATOR);
    lemma_split_fields(text, FIELD_SEPARATOR);
    let last = fields.last();
    let lowered = fields.update(fields.len() - 1, lowercase(last));
    assert(!lowercase(last).contains(FIELD_SEPARATOR)) by {
        if lowercase(last).contains(FIELD_SEPARATOR) {
            let i = choose|i: int|
                0 <= i < lowercase(last).len() && lowercase(last)[i] == FIELD_SEPARATOR;
            assert(last[i] == FIELD_SEPARATOR);
            assert(last.contains(FIELD_SEPARATOR));
        }
    }
    assert forall|k: int| 0 <= k < lowered.len() implies !(#[trigger] lowered[k]).contains(
        FIELD_SEPARATOR,
    ) by {
        if k < fields.len() - 1 {
            assert(lowered[k] == fields[k]);
        }
    }
    lemma_split_join(lowered, FIELD_SEPARATOR);
}

/// A string whose certificate is in lowercase already is its own canonical
/// form.
pub proof fn lemma_canonicalize_lowercase(text: Seq<char>)
    requires
        lowercase(split(text, FIELD_SEPARATOR).last()) == split(text, FIELD_SEPARATOR).last(),
    ensures
        canonicalize(text) == text,
{
    let fields = split(text, FIELD_SEPARATOR);
    lemma_split_fields(text, FIELD_SEPARATOR);
    lemma_join_split(text, FIELD_SEPARATOR);
    assert(fields.update(fields.len() - 1, fields.last()) =~= fields);
}

} // verus!
