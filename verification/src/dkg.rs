//! What a guardian settles before key generation opens a connection: the
//! roster, its own place in it, and the parameters that key generation is
//! run with; and what it makes of the way key generation ended.

use crate::conn_string::{parse_peer_params, parse_spec, PeerIdentity};
use crate::error::ConfigError;
use crate::files::{contents, read_text_spec, ConfigDir, ConfigFile};
use crate::roster::{
    assign_peer_ids, lemma_roster_of_permutation, position_of, roster_spec, PeerId, Roster,
};
use crate::text::texts;
use vstd::prelude::*;

verus! {

/// What key generation is run with: where this guardian listens, the key of
/// its TLS certificate, its peer id, the roster, the federation's name, and
/// what the modules are told.
pub struct ServerConfigParams<M> {
    /// The address on which the other guardians are listened for.
    pub bind_p2p: String,
    /// The address on which clients are listened for.
    pub bind_api: String,
    /// The private key of our TLS certificate, in DER.
    pub tls_private_key: Vec<u8>,
    /// Our peer id.
    pub our_id: PeerId,
    /// Every guardian of the federation, ourselves among them.
    pub peers: Roster,
    /// The name of the federation.
    pub federation_name: String,
    /// The parameters of the modules.
    pub modules: M,
}

impl<M> ServerConfigParams<M> {
    /// Puts the parameters together. Nothing is computed: every part is
    /// what was handed in.
    pub fn gen_params(
        bind_p2p: String,
        bind_api: String,
        key: Vec<u8>,
        our_id: PeerId,
        peers: Roster,
        federation_name: String,
        modules: M,
    ) -> (params: ServerConfigParams<M>)
        ensures
            params.bind_p2p == bind_p2p,
            params.bind_api == bind_api,
            params.tls_private_key == key,
            params.our_id == our_id,
            params.peers == peers,
            params.federation_name == federation_name,
            params.modules == modules,
    {
        ServerConfigParams {
            bind_p2p,
            bind_api,
            tls_private_key: key,
            our_id,
            peers,
            federation_name,
            modules,
        }
    }
}

/// What is settled before key generation starts.
pub struct DkgSetup<M> {
    /// Our peer id.
    pub our_id: PeerId,
    /// The peer ids of all guardians, in ascending order.
    pub peer_ids: Vec<PeerId>,
    /// What key generation is run with.
    pub params: ServerConfigParams<M>,
}

/// How key generation ended.
pub enum DkgOutcome<C> {
    /// It produced a configuration.
    Completed(C),
    /// The protocol failed.
    Failed,
    /// The caller cancelled it.
    Cancelled,
}

/// Our place in the roster that the connection strings give: the place of
/// the string that carries the certificate of our own connection string,
/// as the directory holds it. The roster is worked out first, so what is
/// wrong with it is reported first.
pub open spec fn our_id_spec(certs: Seq<Seq<char>>, own: Option<Seq<u8>>) -> Result<
    int,
    ConfigError,
> {
    match roster_spec(certs) {
        Err(e) => Err(e),
        Ok(peers) => match read_text_spec(own) {
            Err(e) => Err(e),
            Ok(text) => match parse_spec(text) {
                Err(e) => Err(e),
                Ok(ours) => match position_of(peers, ours.cert) {
                    Some(place) => Ok(place),
                    None => Err(ConfigError::SelfNotInRoster),
                },
            },
        },
    }
}

/// Prepares key generation from the connection strings that the operator
/// collected, our own among them. Nothing is written, and no connection is
/// opened: the caller opens them once this has succeeded.
pub fn run_dkg<M>(
    bind_p2p: String,
    bind_api: String,
    dir: &ConfigDir,
    federation_name: String,
    certs: Vec<String>,
    pk: Vec<u8>,
    module_params: M,
) -> (r: Result<DkgSetup<M>, ConfigError>)
    ensures
        match r {
            Ok(setup) => {
                let params = setup.params;
                &&& roster_spec(texts(certs@)) == Ok::<Seq<PeerIdentity>, ConfigError>(
                    params.peers@,
                )
                &&& our_id_spec(texts(certs@), contents(dir@, ConfigFile::TlsCert)) == Ok::<
                    int,
                    ConfigError,
                >(setup.our_id.0 as int)
                &&& params.peers.wf()
                &&& setup.our_id.0 < params.peers@.len()
                &&& setup.peer_ids@.len() == params.peers@.len()
                &&& forall|i: int|
                    0 <= i < setup.peer_ids@.len() ==> (#[trigger] setup.peer_ids@[i]).0 == i
                &&& params.our_id == setup.our_id
                &&& params.bind_p2p == bind_p2p
                &&& params.bind_api == bind_api
                &&& params.tls_private_key == pk
                &&& params.federation_name == federation_name
                &&& params.modules == module_params
            },
            Err(e) => our_id_spec(texts(certs@), contents(dir@, ConfigFile::TlsCert)) == Err::<
                int,
                ConfigError,
            >(e),
        },
{
    let peers = match assign_peer_ids(certs) {
        Ok(peers) => peers,
        Err(e) => {
            return Err(e);
        },
    };
    let cert_string = match dir.get_text(ConfigFile::TlsCert) {
        Ok(text) => text,
        Err(e) => {
            return Err(e);
        },
    };
    let our_params = match parse_peer_params(cert_string) {
        Ok(ours) => ours,
        Err(e) => {
            return Err(e);
        },
    };
    let our_id = match peers.find_by_cert(&our_params.cert) {
        Some(id) => id,
        None => {
            return Err(ConfigError::SelfNotInRoster);
        },
    };
    let peer_ids = peers.peer_ids();
    let params = ServerConfigParams::gen_params(
        bind_p2p,
        bind_api,
        pk,
        our_id,
        peers,
        federation_name,
        module_params,
    );
    Ok(DkgSetup { our_id, peer_ids, params })
}

/// What the caller of key generation is told: the configuration, or why
/// there is none.
pub fn conclude_dkg<C>(outcome: DkgOutcome<C>) -> (r: Result<C, ConfigError>)
    ensures
        match outcome {
            DkgOutcome::Completed(config) => r == Ok::<C, ConfigError>(config),
            DkgOutcome::Failed => r == Err::<C, ConfigError>(ConfigError::DkgFailed),
            DkgOutcome::Cancelled => r == Err::<C, ConfigError>(ConfigError::Aborted),
        },
{
    match outcome {
        DkgOutcome::Completed(config) => Ok(config),
        DkgOutcome::Failed => Err(ConfigError::DkgFailed),
        DkgOutcome::Cancelled => Err(ConfigError::Aborted),
    }
}

/// Every guardian finds the same peer ids, in whatever order it was handed
/// the connection strings: two collections that hold the same strings, each
/// as often as the other, give the same roster and the same place in it.
pub proof fn lemma_our_id_of_permutation(
    first: Seq<Seq<char>>,
    second: Seq<Seq<char>>,
    own: Option<Seq<u8>>,
)
    requires
        first.to_multiset() == second.to_multiset(),
    ensures
        roster_spec(first) == roster_spec(second),
        our_id_spec(first, own) == our_id_spec(second, own),
{
    lemma_roster_of_permutation(first, second);
}

} // verus!
