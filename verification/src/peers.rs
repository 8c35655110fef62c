//! Peers view: the mesh peer list and its cursor.
//!
//! Peers are keyed by node identifier. A join event upserts: a record whose
//! identifier is already present replaces the old record in place, keeping
//! its position; otherwise the record is appended. A leave event removes the
//! record. Relative order among peers is insertion order of first appearance.

use vstd::prelude::*;
use vstd::string::*;

use crate::events::PeerInfo;
use crate::select::{sel_next, sel_prev};
use crate::text::{dec_digits, push_char, spec_truncated, str_eq, truncate_did, u64_string};

verus! {

/// Whether some record in `s` carries the identifier `id`.
pub open spec fn has_id(s: Seq<PeerInfo>, id: Seq<char>) -> bool {
    exists|j: int| 0 <= j < s.len() && s[j].node_id@ == id
}

/// Whether no two records in `s` carry the same identifier.
pub open spec fn unique_ids(s: Seq<PeerInfo>) -> bool {
    forall|i: int, j: int|
        0 <= i < j < s.len() ==> s[i].node_id@ != s[j].node_id@
}

/// Index of the first record carrying `id`, or -1 when none does.
pub open spec fn first_match(s: Seq<PeerInfo>, id: Seq<char>) -> int
    decreases s.len(),
{
    if s.len() == 0 {
        -1
    } else if s[0].node_id@ == id {
        0
    } else {
        let r = first_match(s.drop_first(), id);
        if r < 0 {
            -1
        } else {
            r + 1
        }
    }
}

/// `s` with `p` upserted: if a record with `p`'s identifier exists, `p`
/// replaces the first such record in place; otherwise `p` is appended.
pub open spec fn upsert_peers(s: Seq<PeerInfo>, p: PeerInfo) -> Seq<PeerInfo> {
    let fm = first_match(s, p.node_id@);
    if fm < 0 {
        s.push(p)
    } else {
        s.update(fm, p)
    }
}

/// `s` with every record carrying `id` removed, the rest in their order.
pub open spec fn removed_peers(s: Seq<PeerInfo>, id: Seq<char>) -> Seq<PeerInfo>
    decreases s.len(),
{
    if s.len() == 0 {
        Seq::empty()
    } else if s[0].node_id@ == id {
        removed_peers(s.drop_first(), id)
    } else {
        seq![s[0]] + removed_peers(s.drop_first(), id)
    }
}

/// `first_match` finds the first record with the identifier: a non-negative
/// result indexes a matching record that no earlier record matches, and -1
/// means the identifier is absent.
pub proof fn lemma_first_match_props(s: Seq<PeerInfo>, id: Seq<char>)
    ensures
        first_match(s, id) == -1 <==> !has_id(s, id),
        first_match(s, id) != -1 ==> {
            let fm = first_match(s, id);
            &&& 0 <= fm < s.len()
            &&& s[fm].node_id@ == id
            &&& forall|j: int| 0 <= j < fm ==> s[j].node_id@ != id
        },
    decreases s.len(),
{
    if s.len() == 0 {
    } else if s[0].node_id@ == id {
    } else {
        let rest = s.drop_first();
        lemma_first_match_props(rest, id);
        assert forall|j: int| 0 <= j < rest.len() implies rest[j] == s[j + 1] by {}
        let r = first_match(rest, id);
        if r >= 0 {
            assert(first_match(s, id) == r + 1);
            assert(rest[r].node_id@ == id);
            assert forall|j: int| 0 <= j < r + 1 implies s[j].node_id@ != id by {
                if j > 0 {
                    assert(rest[j - 1].node_id@ != id);
                }
            }
        }
        if has_id(s, id) {
            let w = choose|j: int| 0 <= j < s.len() && s[j].node_id@ == id;
            assert(w > 0);
            assert(rest[w - 1].node_id@ == id);
            assert(has_id(rest, id));
        }
        if has_id(rest, id) {
            let w = choose|j: int| 0 <= j < rest.len() && rest[j].node_id@ == id;
            assert(s[w + 1].node_id@ == id);
            assert(has_id(s, id));
        }
    }
}

/// Upserting `p` makes its identifier present, changes no other membership,
/// and never introduces a duplicate identifier.
pub proof fn lemma_upsert_membership(s: Seq<PeerInfo>, p: PeerInfo)
    ensures
        forall|x: Seq<char>|
            #[trigger] has_id(upsert_peers(s, p), x) <==> (has_id(s, x) || x == p.node_id@),
        unique_ids(s) ==> unique_ids(upsert_peers(s, p)),
{
    lemma_first_match_props(s, p.node_id@);
    let fm = first_match(s, p.node_id@);
    let t = upsert_peers(s, p);
    if fm < 0 {
        assert forall|x: Seq<char>| #[trigger]
            has_id(t, x) implies (has_id(s, x) || x == p.node_id@) by {
            let w = choose|j: int| 0 <= j < t.len() && t[j].node_id@ == x;
            if w < s.len() {
                assert(s[w].node_id@ == x);
            }
        }
        assert forall|x: Seq<char>| has_id(s, x) || x == p.node_id@ implies #[trigger] has_id(
            t,
            x,
        ) by {
            if has_id(s, x) {
                let w = choose|j: int| 0 <= j < s.len() && s[j].node_id@ == x;
                assert(t[w].node_id@ == x);
            } else {
                assert(t[s.len() as int].node_id@ == x);
            }
        }
    } else {
        assert forall|x: Seq<char>| #[trigger]
            has_id(t, x) implies (has_id(s, x) || x == p.node_id@) by {
            let w = choose|j: int| 0 <= j < t.len() && t[j].node_id@ == x;
            if w != fm {
                assert(s[w].node_id@ == x);
            }
        }
        assert forall|x: Seq<char>| has_id(s, x) || x == p.node_id@ implies #[trigger] has_id(
            t,
            x,
        ) by {
            if x == p.node_id@ {
                assert(t[fm].node_id@ == x);
            } else {
                let w = choose|j: int| 0 <= j < s.len() && s[j].node_id@ == x;
                assert(w != fm);
                assert(t[w].node_id@ == x);
            }
        }
    }
}

/// Removing an identifier removes exactly its records, keeps every other
/// record, and preserves identifier uniqueness.
pub proof fn lemma_removed_membership(s: Seq<PeerInfo>, id: Seq<char>)
    ensures
        forall|x: Seq<char>|
            #[trigger] has_id(removed_peers(s, id), x) <==> (has_id(s, x) && x != id),
        unique_ids(s) ==> unique_ids(removed_peers(s, id)),
    decreases s.len(),
{
    let r = removed_peers(s, id);
    if s.len() == 0 {
    } else {
        let rest = s.drop_first();
        lemma_removed_membership(rest, id);
        let rr = removed_peers(rest, id);
        assert forall|j: int| 0 <= j < rest.len() implies rest[j] == s[j + 1] by {}
        if unique_ids(s) {
            assert(unique_ids(rest));
        }
        assert forall|x: Seq<char>| has_id(s, x) implies (x == s[0].node_id@ || has_id(
            rest,
            x,
        )) by {
            let w = choose|j: int| 0 <= j < s.len() && s[j].node_id@ == x;
            if w > 0 {
                assert(rest[w - 1].node_id@ == x);
            }
        }
        assert forall|x: Seq<char>| has_id(rest, x) implies has_id(s, x) by {
            let w = choose|j: int| 0 <= j < rest.len() && rest[j].node_id@ == x;
            assert(s[w + 1].node_id@ == x);
        }
        if s[0].node_id@ == id {
            assert(r == rr);
        } else {
            assert(r == seq![s[0]] + rr);
            assert(r[0] == s[0]);
            assert forall|j: int| 1 <= j < r.len() implies r[j] == rr[j - 1] by {}
            assert forall|x: Seq<char>| #[trigger] has_id(r, x) implies (has_id(s, x) && x
                != id) by {
                let w = choose|j: int| 0 <= j < r.len() && r[j].node_id@ == x;
                if w > 0 {
                    assert(has_id(rr, x));
                }
            }
            assert forall|x: Seq<char>| has_id(s, x) && x != id implies #[trigger] has_id(
                r,
                x,
            ) by {
                if x == s[0].node_id@ {
                    assert(r[0].node_id@ == x);
                } else {
                    assert(has_id(rest, x));
                    assert(has_id(rr, x));
                    let w = choose|j: int| 0 <= j < rr.len() && rr[j].node_id@ == x;
                    assert(r[w + 1].node_id@ == x);
                }
            }
            if unique_ids(s) {
                assert forall|i: int, j: int| 0 <= i < j < r.len() implies r[i].node_id@
                    != r[j].node_id@ by {
                    if i == 0 {
                        assert(has_id(rr, r[j].node_id@));
                        assert(has_id(rest, r[j].node_id@));
                        let w = choose|k: int|
                            0 <= k < rest.len() && rest[k].node_id@ == r[j].node_id@;
                        assert(s[w + 1].node_id@ == r[j].node_id@);
                    } else {
                        assert(rr[i - 1].node_id@ != rr[j - 1].node_id@);
                    }
                }
            }
        }
    }
}

/// How a peer's latency reading is ranked for display.
#[derive(Debug, Clone, Copy, PartialEq, Eq, Structural)]
pub enum LatencyClass {
    /// Below 50 ms.
    Good,
    /// Below 150 ms.
    Fair,
    /// 150 ms or more.
    Poor,
    /// No measurement yet.
    Unmeasured,
}

/// The display rank of a latency reading.
pub open spec fn spec_latency_class(latency: Option<u32>) -> LatencyClass {
    match latency {
        Some(l) => if l < 50 {
            LatencyClass::Good
        } else if l < 150 {
            LatencyClass::Fair
        } else {
            LatencyClass::Poor
        },
        None => LatencyClass::Unmeasured,
    }
}

/// Rank a latency reading for display.
pub fn latency_class(latency: Option<u32>) -> (c: LatencyClass)
    ensures
        c == spec_latency_class(latency),
{
    match latency {
        Some(l) => if l < 50 {
            LatencyClass::Good
        } else if l < 150 {
            LatencyClass::Fair
        } else {
            LatencyClass::Poor
        },
        None => LatencyClass::Unmeasured,
    }
}

/// A latency reading as text: the milliseconds with an `ms` suffix, or a
/// question mark when unmeasured.
pub open spec fn spec_latency_label(latency: Option<u32>) -> Seq<char> {
    match latency {
        Some(l) => dec_digits(l as int) + seq!['m', 's'],
        None => seq!['?'],
    }
}

/// Render a latency reading as text.
pub fn latency_label(latency: Option<u32>) -> (r: String)
    ensures
        r@ == spec_latency_label(latency),
{
    match latency {
        Some(l) => {
            let mut s = u64_string(l as u64);
            push_char(&mut s, 'm');
            push_char(&mut s, 's');
            proof {
                assert(s@ =~= spec_latency_label(latency));
            }
            s
        },
        None => {
            let mut s = String::new();
            push_char(&mut s, '?');
            proof {
                assert(s@ =~= spec_latency_label(latency));
            }
            s
        },
    }
}

/// One peer as a display row: truncated identifier, address and latency,
/// separated by two spaces.
pub open spec fn spec_peer_line(p: PeerInfo) -> Seq<char> {
    spec_truncated(p.node_id@, 24) + seq![' ', ' '] + p.address@ + seq![' ', ' ']
        + spec_latency_label(p.latency_ms)
}

/// Render one peer as a display row.
pub fn peer_line(p: &PeerInfo) -> (r: String)
    ensures
        r@ == spec_peer_line(*p),
{
    let mut s = truncate_did(p.node_id.as_str(), 24);
    push_char(&mut s, ' ');
    push_char(&mut s, ' ');
    s.append(p.address.as_str());
    push_char(&mut s, ' ');
    push_char(&mut s, ' ');
    let lat = latency_label(p.latency_ms);
    s.append(lat.as_str());
    proof {
        assert(s@ =~= spec_peer_line(*p));
    }
    s
}

/// Peers view state: the peer list and the cursor over it.
#[derive(Debug)]
pub struct PeersView {
    pub peers: Vec<PeerInfo>,
    /// Cursor into `peers`. Removal can leave it past the end; navigation
    /// revalidates it, removal does not.
    pub selected: Option<usize>,
}

impl PeersView {
    /// An empty peers view with no selection.
    pub fn new() -> (r: Self)
        ensures
            r.peers@ == Seq::<PeerInfo>::empty(),
            r.selected is None,
    {
        PeersView { peers: Vec::new(), selected: None }
    }

    /// Upsert a peer record, keyed by its node identifier.
    pub fn add_peer(&mut self, peer: PeerInfo)
        ensures
            final(self).peers@ == upsert_peers(old(self).peers@, peer),
            final(self).selected == old(self).selected,
    {
        let ghost s0 = self.peers@;
        let n = self.peers.len();
        let mut i: usize = 0;
        let mut found = false;
        let mut idx: usize = 0;
        while i < n
            invariant
                n == s0.len(),
                self.peers@ == s0,
                i <= n,
                !found ==> forall|j: int| 0 <= j < i ==> s0[j].node_id@ != peer.node_id@,
                found ==> idx < i && s0[idx as int].node_id@ == peer.node_id@ && (forall|j: int|
                    0 <= j < idx ==> s0[j].node_id@ != peer.node_id@),
            decreases n - i,
        {
            if !found {
                if self.peers[i].node_id.eq(&peer.node_id) {
                    found = true;
                    idx = i;
                }
            }
            i = i + 1;
        }
        proof {
            lemma_first_match_props(s0, peer.node_id@);
        }
        if found {
            proof {
                assert(s0[idx as int].node_id@ == peer.node_id@);
                assert(has_id(s0, peer.node_id@));
                let fm = first_match(s0, peer.node_id@);
                if fm < idx as int {
                    assert(s0[fm].node_id@ == peer.node_id@);
                    assert(false);
                }
                if fm > idx as int {
                    assert(s0[idx as int].node_id@ != peer.node_id@);
                    assert(false);
                }
            }
            let _ = self.peers.remove(idx);
            self.peers.insert(idx, peer);
            proof {
                assert(self.peers@ =~= upsert_peers(s0, peer));
            }
        } else {
            proof {
                assert(!has_id(s0, peer.node_id@));
            }
            self.peers.push(peer);
        }
    }

    /// Remove every peer record carrying the given node identifier.
    pub fn remove_peer(&mut self, node_id: &str)
        ensures
            final(self).peers@ == removed_peers(old(self).peers@, node_id@),
            final(self).selected == old(self).selected,
    {
        let ghost s0 = self.peers@;
        let ghost sel0 = self.selected;
        let mut kept: Vec<PeerInfo> = Vec::new();
        proof {
            assert(removed_peers(s0, node_id@) =~= Seq::empty() + removed_peers(s0, node_id@));
        }
        while self.peers.len() > 0
            invariant
                removed_peers(s0, node_id@) == kept@ + removed_peers(self.peers@, node_id@),
                self.selected == sel0,
            decreases self.peers.len(),
        {
            let ghost rest0 = self.peers@;
            let p = self.peers.remove(0);
            proof {
                assert(rest0.drop_first() =~= self.peers@);
            }
            if !str_eq(p.node_id.as_str(), node_id) {
                let ghost kept0 = kept@;
                kept.push(p);
                proof {
                    assert(kept@ + removed_peers(self.peers@, node_id@) =~= kept0 + (seq![p]
                        + removed_peers(self.peers@, node_id@)));
                }
            }
        }
        proof {
            assert(removed_peers(s0, node_id@) =~= kept@);
        }
        self.peers = kept;
    }

    /// Move the cursor to the next peer, wrapping past the end. The step
    /// revalidates the cursor: it clears on an empty list, and a stale
    /// index left behind by a removal wraps back to the front.
    pub fn select_next(&mut self)
        ensures
            final(self).peers == old(self).peers,
            final(self).selected == sel_next(old(self).selected, old(self).peers@.len() as int),
    {
        if self.peers.len() == 0 {
            self.selected = None;
            return ;
        }
        let len = self.peers.len();
        let next: usize = match self.selected {
            None => 0,
            Some(i) => if i >= len - 1 {
                0
            } else {
                i + 1
            },
        };
        self.selected = Some(next);
    }

    /// Move the cursor to the previous peer, wrapping past the start. The
    /// step revalidates the cursor: it clears on an empty list, and a
    /// stale index left behind by a removal wraps back to the last peer.
    pub fn select_previous(&mut self)
        ensures
            final(self).peers == old(self).peers,
            final(self).selected == sel_prev(old(self).selected, old(self).peers@.len() as int),
    {
        if self.peers.len() == 0 {
            self.selected = None;
            return ;
        }
        let len = self.peers.len();
        let prev: usize = match self.selected {
            None => 0,
            Some(i) => if i == 0 || i >= len {
                len - 1
            } else {
                i - 1
            },
        };
        self.selected = Some(prev);
    }

    /// The view's title line: the peer count in parentheses.
    pub fn title(&self) -> (r: String)
        ensures
            r@ == "Peers ("@ + dec_digits(self.peers@.len() as int) + seq![')'],
    {
        let mut s = String::from_str("Peers (");
        let n = u64_string(self.peers.len() as u64);
        s.append(n.as_str());
        push_char(&mut s, ')');
        proof {
            assert(s@ =~= "Peers ("@ + dec_digits(self.peers@.len() as int) + seq![')']);
        }
        s
    }
}

} // verus!
