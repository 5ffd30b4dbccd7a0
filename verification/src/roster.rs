//! The roster of a federation: its guardians, each under the peer id that
//! every guardian works out for itself from the same connection strings.

use crate::conn_string::{
    bytes_equal, parse_peer_params, parse_spec, PeerIdentity, PeerServerParams,
};
use crate::error::ConfigError;
use crate::order::{
    lemma_sorted_texts_of_permutation, lemma_sorted_texts_unique, sorted_strings, sorted_texts,
};
use crate::text::texts;
use vstd::prelude::*;
use vstd::seq_lib::to_multiset_len;
use vstd::std_specs::convert::FromSpecImpl;

verus! {

/// The fewest guardians that key generation can run with.
pub const MIN_FEDERATION_SIZE: usize = 1;

/// The most guardians that a federation can hold: one for each peer id.
pub const MAX_FEDERATION_SIZE: usize = 65536;

/// The number under which a guardian is known in its federation.
#[derive(Clone, Copy, Debug, PartialEq, Eq, PartialOrd, Ord, Hash, Structural)]
pub struct PeerId(pub u16);

impl PeerId {
    /// The place of this guardian in the roster.
    pub fn to_usize(self) -> (index: usize)
        ensures
            index == self.0,
    {
        self.0 as usize
    }
}

impl From<u16> for PeerId {
    fn from(id: u16) -> (peer: PeerId) {
        PeerId(id)
    }
}

impl FromSpecImpl<u16> for PeerId {
    open spec fn obeys_from_spec() -> bool {
        true
    }

    open spec fn from_spec(id: u16) -> PeerId {
        PeerId(id)
    }
}

/// The identities that a sequence of guardians stands for.
pub open spec fn identities(peers: Seq<PeerServerParams>) -> Seq<PeerIdentity> {
    Seq::new(peers.len(), |i: int| peers[i]@)
}

/// Whether no certificate occurs twice.
pub open spec fn distinct_certs(peers: Seq<PeerIdentity>) -> bool {
    forall|i: int, j: int| 0 <= i < j < peers.len() ==> peers[i].cert != peers[j].cert
}

/// Whether every one of the texts is a connection string.
pub open spec fn all_parse(texts: Seq<Seq<char>>) -> bool {
    forall|i: int| 0 <= i < texts.len() ==> (#[trigger] parse_spec(texts[i])) is Ok
}

/// The roster that a collection of connection strings gives: the strings in
/// ascending order, each read, so that the guardian announced by the string
/// at place `i` has peer id `i`. The collection is refused where it holds
/// more strings than there are peer ids or fewer than key generation needs,
/// where one of them is no connection string, and where two of them carry
/// the same certificate.
pub open spec fn roster_spec(certs: Seq<Seq<char>>) -> Result<Seq<PeerIdentity>, ConfigError> {
    let sorted = sorted_texts(certs);
    let peers = Seq::new(sorted.len(), |i: int| parse_spec(sorted[i])->Ok_0);
    if certs.len() > MAX_FEDERATION_SIZE {
        Err(ConfigError::TooManyPeers)
    } else if certs.len() < MIN_FEDERATION_SIZE {
        Err(ConfigError::TooFewPeers)
    } else if !all_parse(sorted) {
        Err(ConfigError::MalformedConnectionString)
    } else if !distinct_certs(peers) {
        Err(ConfigError::DuplicateCertificate)
    } else {
        Ok(peers)
    }
}

/// The peer id of the guardian with certificate `cert`: its place in the
/// roster, or nothing where the roster does not hold it.
pub open spec fn position_of(peers: Seq<PeerIdentity>, cert: Seq<u8>) -> Option<int> {
    if exists|i: int| 0 <= i < peers.len() && peers[i].cert == cert {
        Some(choose|i: int| 0 <= i < peers.len() && peers[i].cert == cert)
    } else {
        None
    }
}

/// The guardians of a federation in the order of their peer ids.
#[derive(Debug)]
pub struct Roster {
    peers: Vec<PeerServerParams>,
}

impl View for Roster {
    type V = Seq<PeerIdentity>;

    closed spec fn view(&self) -> Seq<PeerIdentity> {
        identities(self.peers@)
    }
}

impl Roster {
    /// What holds of every roster: it has a guardian for each peer id up to
    /// its size, no more guardians than peer ids, and no certificate twice.
    pub open spec fn wf(&self) -> bool {
        &&& MIN_FEDERATION_SIZE <= self@.len() <= MAX_FEDERATION_SIZE
        &&& distinct_certs(self@)
    }

    #[verifier::type_invariant]
    spec fn is_wf(&self) -> bool {
        self.wf()
    }

    /// The number of guardians.
    pub fn len(&self) -> (n: usize)
        ensures
            n == self@.len(),
    {
        self.peers.len()
    }

    /// The guardian with peer id `id`, if the roster has one.
    pub fn get(&self, id: PeerId) -> (peer: Option<&PeerServerParams>)
        ensures
            match peer {
                Some(p) => id.0 < self@.len() && p@ == self@[id.0 as int],
                None => id.0 >= self@.len(),
            },
    {
        let index = id.to_usize();
        if index < self.peers.len() {
            Some(&self.peers[index])
        } else {
            None
        }
    }

    /// The peer ids of the roster in ascending order: `0`, `1`, and so on.
    pub fn peer_ids(&self) -> (ids: Vec<PeerId>)
        ensures
            ids@.len() == self@.len(),
            forall|i: int| 0 <= i < ids@.len() ==> (#[trigger] ids@[i]).0 == i,
    {
        proof {
            use_type_invariant(self);
        }
        let n = self.peers.len();
        let mut ids: Vec<PeerId> = Vec::new();
        let mut i: usize = 0;
        while i < n
            invariant
                n == self@.len(),
                n <= MAX_FEDERATION_SIZE,
                i <= n,
                ids@.len() == i,
                forall|k: int| 0 <= k < i ==> (#[trigger] ids@[k]).0 == k,
            decreases n - i,
        {
            ids.push(PeerId(i as u16));
            i = i + 1;
        }
        ids
    }

    /// The peer id of the guardian whose certificate is `cert`.
    pub fn find_by_cert(&self, cert: &Vec<u8>) -> (id: Option<PeerId>)
        ensures
            match id {
                Some(id) => id.0 < self@.len() && self@[id.0 as int].cert == cert@
                    && position_of(self@, cert@) == Some(id.0 as int),
                None => position_of(self@, cert@) is None,
            },
    {
        proof {
            use_type_invariant(self);
        }
        let n = self.peers.len();
        let mut i: usize = 0;
        while i < n
            invariant
                n == self@.len(),
                n <= MAX_FEDERATION_SIZE,
                distinct_certs(self@),
                i <= n,
                forall|k: int| 0 <= k < i ==> self@[k].cert != cert@,
            decreases n - i,
        {
            if bytes_equal(&self.peers[i].cert, cert) {
                proof {
                    let found = choose|k: int| 0 <= k < self@.len() && self@[k].cert == cert@;
                    assert(found == i) by {
                        if found < i {
                            assert(self@[found].cert != self@[i as int].cert);
                        } else if found > i {
                            assert(self@[i as int].cert != self@[found].cert);
                        }
                    }
                }
                return Some(PeerId(i as u16));
            }
            i = i + 1;
        }
        None
    }
}

/// Works out the roster from the connection strings that the operator
/// collected, our own among them, in whatever order they come.
#[verifier::loop_isolation(false)]
pub fn assign_peer_ids(certs: Vec<String>) -> (r: Result<Roster, ConfigError>)
    ensures
        match r {
            Ok(roster) => roster.wf() && roster_spec(texts(certs@)) == Ok::<
                Seq<PeerIdentity>,
                ConfigError,
            >(roster@),
            Err(e) => roster_spec(texts(certs@)) == Err::<Seq<PeerIdentity>, ConfigError>(e),
        },
{
    let ghost given = texts(certs@);
    let n = certs.len();
    if n > MAX_FEDERATION_SIZE {
        return Err(ConfigError::TooManyPeers);
    }
    if n < MIN_FEDERATION_SIZE {
        return Err(ConfigError::TooFewPeers);
    }
    let sorted = sorted_strings(certs);
    proof {
        lemma_sorted_texts_unique(texts(sorted@), given);
        to_multiset_len(texts(sorted@));
        to_multiset_len(given);
    }
    let ghost order = sorted_texts(given);
    let mut peers: Vec<PeerServerParams> = Vec::new();
    let mut i: usize = 0;
    while i < n
        invariant
            n == sorted@.len(),
            texts(sorted@) == order,
            i <= n,
            peers@.len() == i,
            forall|k: int| 0 <= k < i ==> (#[trigger] parse_spec(order[k])) is Ok,
            forall|k: int|
                0 <= k < i ==> (#[trigger] peers@[k])@ == parse_spec(order[k])->Ok_0,
        decreases n - i,
    {
        assert(texts(sorted@)[i as int] == sorted@[i as int]@);
        match parse_peer_params(sorted[i].clone()) {
            Ok(peer) => {
                peers.push(peer);
            },
            Err(_) => {
                assert(!all_parse(order)) by {
                    assert(parse_spec(order[i as int]) is Err);
                }
                return Err(ConfigError::MalformedConnectionString);
            },
        }
        i = i + 1;
    }
    let ghost parsed = Seq::new(order.len(), |k: int| parse_spec(order[k])->Ok_0);
    assert(identities(peers@) =~= parsed);
    let mut a: usize = 0;
    while a < n
        invariant
            n == peers@.len(),
            a <= n,
            forall|x: int, y: int| 0 <= x < y < n && x < a ==> peers@[x]@.cert != peers@[y]@.cert,
        decreases n - a,
    {
        let mut b: usize = a + 1;
        while b < n
            invariant
                n == peers@.len(),
                a < b <= n,
                forall|x: int, y: int|
                    0 <= x < y < n && x < a ==> peers@[x]@.cert != peers@[y]@.cert,
                forall|y: int| a < y < b ==> peers@[a as int]@.cert != peers@[y]@.cert,
            decreases n - b,
        {
            if bytes_equal(&peers[a].cert, &peers[b].cert) {
                assert(!distinct_certs(parsed)) by {
                    assert(parsed[a as int].cert == parsed[b as int].cert);
                }
                return Err(ConfigError::DuplicateCertificate);
            }
            b = b + 1;
        }
        a = a + 1;
    }
    let roster = Roster { peers };
    assert(roster@ == parsed);
    Ok(roster)
}

/// The peer ids do not depend on the order in which the connection strings
/// are handed over: two collections that hold the same strings, each as
/// often as the other, give the same roster or are refused alike.
pub proof fn lemma_roster_of_permutation(first: Seq<Seq<char>>, second: Seq<Seq<char>>)
    requires
        first.to_multiset() == second.to_multiset(),
    ensures
        roster_spec(first) == roster_spec(second),
{
    lemma_sorted_texts_of_permutation(first, second);
    to_multiset_len(first);
    to_multiset_len(second);
}

} // verus!
