//! Presence tracking: the peer-membership snapshot the library emits when
//! the store's peer graph changes and on demand. Peers are carried as plain
//! values — key, device name, and their metadata as JSON text — with no
//! filtering or deduplication: the snapshot mirrors the live graph.

use vstd::prelude::*;

verus! {

/// Mathematical value of one peer.
pub ghost struct PresencePeerView {
    pub peer_key: Seq<char>,
    pub device_name: Seq<char>,
    pub metadata: Seq<char>,
}

/// One reachable peer: its key, device name, and arbitrary metadata carried
/// as JSON text.
pub struct PresencePeer {
    pub peer_key: String,
    pub device_name: String,
    pub metadata: String,
}

impl View for PresencePeer {
    type V = PresencePeerView;

    open spec fn view(&self) -> PresencePeerView {
        PresencePeerView {
            peer_key: self.peer_key@,
            device_name: self.device_name@,
            metadata: self.metadata@,
        }
    }
}

/// Mathematical value of a presence snapshot.
pub ghost struct PresencePayloadView {
    pub local_peer: PresencePeerView,
    pub remote_peers: Seq<PresencePeerView>,
}

/// The emitted snapshot: the local peer and every reachable remote peer, in
/// the order the graph lists them.
pub struct PresencePayload {
    pub local_peer: PresencePeer,
    pub remote_peers: Vec<PresencePeer>,
}

impl View for PresencePayload {
    type V = PresencePayloadView;

    open spec fn view(&self) -> PresencePayloadView {
        PresencePayloadView {
            local_peer: self.local_peer@,
            remote_peers: self.remote_peers@.map_values(|p: PresencePeer| p@),
        }
    }
}

impl PresencePeer {
    /// Copies the peer, field by field.
    pub fn duplicate(&self) -> (r: PresencePeer)
        ensures
            r@ == self@,
    {
        PresencePeer {
            peer_key: self.peer_key.clone(),
            device_name: self.device_name.clone(),
            metadata: self.metadata.clone(),
        }
    }
}

/// Builds the snapshot for the current peer graph: the local peer first,
/// then every remote peer unchanged and in order — membership size equals
/// the graph's live peer count.
#[verifier::loop_isolation(false)]
pub fn build_presence_payload(local_peer: &PresencePeer, remote_peers: &Vec<PresencePeer>) -> (r:
    PresencePayload)
    ensures
        r@.local_peer == local_peer@,
        r@.remote_peers.len() == remote_peers@.len(),
        forall|i: int| 0 <= i < remote_peers@.len() ==> r@.remote_peers[i] == remote_peers@[i]@,
{
    let mut remotes: Vec<PresencePeer> = Vec::new();
    let mut i: usize = 0;
    while i < remote_peers.len()
        invariant
            i <= remote_peers@.len(),
            remotes@.len() == i,
            forall|j: int| 0 <= j < i ==> remotes@[j]@ == remote_peers@[j]@,
        decreases remote_peers@.len() - i,
    {
        remotes.push(remote_peers[i].duplicate());
        i += 1;
    }
    PresencePayload { local_peer: local_peer.duplicate(), remote_peers: remotes }
}

} // verus!
