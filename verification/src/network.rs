//! The network manager: claims a bus address with the 64-bit Name as
//! tiebreaker (the lower value wins), and keeps the table of nodes seen on
//! the bus.

use vstd::prelude::*;

use crate::dll::DataLinkLayer;
use crate::driver::CanDriverTrait;
use crate::isobus::IsobusAddress;
use crate::isobus::ADDRESS_GLOBAL;
use crate::isobus::ADDRESS_NULL;
use crate::claim::spec_requested_pgn;
use crate::name::spec_le_bytes;
use crate::name::spec_le_u64;
use crate::name::Name;
use crate::pdu::spec_padded_byte;
use crate::pdu::PDU;
use crate::pgn::PGN_ADDRESS_CLAIMED;
use crate::pgn::PGN_REQUEST;
use crate::time::spec_deadline;

verus! {

/// Delay a node waits before acting on claim traffic, in milliseconds.
pub const CLAIM_DELAY: u64 = 250;

/// The phases of the address-claim procedure.
#[derive(Copy, Clone, Debug, PartialEq, Eq, Structural)]
pub enum ClaimState {
    NotConnected,
    RequestedClaimedAddresses,
    ClaimingAddress,
    AddressClaimed,
    UnableToClaimAddress,
}

/// Errors the network manager reports.
#[derive(Debug, PartialEq, Eq, Structural)]
pub enum NetworkError {
    Uninitialised,
    UnableToClaimAddress,
    Other,
}

/// Why `connect` did not return an address yet: the procedure needs more
/// ticks, or it failed.
#[derive(Debug, PartialEq, Eq, Structural)]
pub enum ConnectError {
    WouldBlock,
    Failed(NetworkError),
}

/// The observable state of a network manager: claim phase, candidate
/// address, node table and the start of the current wait.
pub struct NmView {
    pub state: ClaimState,
    pub address_to_claim: u8,
    pub nodes: Seq<(Name, IsobusAddress)>,
    pub start_delay_time: u64,
}

/// The node table without the entries holding name `n` or address `a`.
pub open spec fn spec_remove_conflicts(
    nodes: Seq<(Name, IsobusAddress)>,
    n: Name,
    a: IsobusAddress,
) -> Seq<(Name, IsobusAddress)>
    decreases nodes.len(),
{
    if nodes.len() == 0 {
        Seq::empty()
    } else {
        let rest = spec_remove_conflicts(nodes.drop_first(), n, a);
        if nodes[0].0 == n || nodes[0].1 == a {
            rest
        } else {
            seq![nodes[0]] + rest
        }
    }
}

/// The node table without the entries holding name `n`.
pub open spec fn spec_remove_name(
    nodes: Seq<(Name, IsobusAddress)>,
    n: Name,
) -> Seq<(Name, IsobusAddress)>
    decreases nodes.len(),
{
    if nodes.len() == 0 {
        Seq::empty()
    } else {
        let rest = spec_remove_name(nodes.drop_first(), n);
        if nodes[0].0 == n {
            rest
        } else {
            seq![nodes[0]] + rest
        }
    }
}

/// The table after a node announces: announcing the null address removes the
/// node; anything else replaces the node's entry, and any other node that
/// held the same address, with the new pair — addresses are unique.
pub open spec fn spec_upsert(
    nodes: Seq<(Name, IsobusAddress)>,
    n: Name,
    a: IsobusAddress,
) -> Seq<(Name, IsobusAddress)> {
    if a.0 == ADDRESS_NULL {
        spec_remove_name(nodes, n)
    } else {
        spec_remove_conflicts(nodes, n, a).push((n, a))
    }
}

/// Whether some node in the table holds address `a`.
pub open spec fn spec_addr_taken(nodes: Seq<(Name, IsobusAddress)>, a: u8) -> bool {
    exists|i: int| 0 <= i < nodes.len() && (#[trigger] nodes[i]).1.0 == a
}

/// Whether the table has an entry for name `n`.
pub open spec fn spec_has_name(nodes: Seq<(Name, IsobusAddress)>, n: Name) -> bool {
    exists|i: int| 0 <= i < nodes.len() && (#[trigger] nodes[i]).0 == n
}

/// The address the first entry for `n` holds.
pub open spec fn spec_lookup(nodes: Seq<(Name, IsobusAddress)>, n: Name) -> Option<u8>
    decreases nodes.len(),
{
    if nodes.len() == 0 {
        None
    } else if nodes[0].0 == n {
        Some(nodes[0].1.0)
    } else {
        spec_lookup(nodes.drop_first(), n)
    }
}

/// Whether `a` lies on the candidate walk that starts at `start` and wraps
/// through the self-configurable range.
pub open spec fn spec_in_walk(start: u8, a: u8) -> bool {
    (start <= a <= 247) || (128 <= a < start)
}

/// A name is distinct from every name in the table, and every address
/// differs from the null address: the shape `spec_upsert` preserves.
pub open spec fn spec_table_invariant(nodes: Seq<(Name, IsobusAddress)>) -> bool {
    &&& forall|i: int, j: int|
        0 <= i < j < nodes.len() ==> (#[trigger] nodes[i]).0 != (#[trigger] nodes[j]).0
    &&& forall|i: int| 0 <= i < nodes.len() ==> (#[trigger] nodes[i]).1.0 != ADDRESS_NULL
}

/// Whether `p` is this node's own claim announcement of `addr`: an Address
/// Claimed message to the global address, sourced at `addr`, carrying the
/// eight Name bytes.
pub open spec fn spec_is_claim_announce(p: PDU, my: Name, addr: u8) -> bool {
    &&& p.spec_pgn() == PGN_ADDRESS_CLAIMED
    &&& p.spec_ps() == ADDRESS_GLOBAL
    &&& p.spec_sa() == addr
    &&& p.spec_data() == spec_le_bytes(my.spec_value())
}

/// Whether `p` is the cold-start Request for the claimed addresses: sent to
/// the global address from the null address.
pub open spec fn spec_is_claim_request(p: PDU) -> bool {
    &&& p.spec_pgn() == PGN_REQUEST
    &&& p.spec_ps() == ADDRESS_GLOBAL
    &&& p.spec_sa() == ADDRESS_NULL
    &&& spec_requested_pgn(p) == PGN_ADDRESS_CLAIMED
}

/// The position of `a` on the candidate walk that starts at `start`:
/// addresses from `start` up come first, then the wrap through the
/// self-configurable range. Only meaningful for addresses on the walk.
pub open spec fn spec_walk_pos(start: u8, a: u8) -> int {
    if start <= a {
        a - start
    } else {
        248 - start + (a - 128)
    }
}

/// Whether a node with name `n` appears in the table exactly when its
/// lookup succeeds.
proof fn lemma_lookup_some(nodes: Seq<(Name, IsobusAddress)>, n: Name)
    ensures
        spec_has_name(nodes, n) <==> spec_lookup(nodes, n) is Some,
    decreases nodes.len(),
{
    if nodes.len() > 0 {
        lemma_lookup_some(nodes.drop_first(), n);
        if nodes[0].0 == n {
        } else {
            assert forall|i: int|
                0 <= i < nodes.len() && (#[trigger] nodes[i]).0 == n implies spec_has_name(
                nodes.drop_first(),
                n,
            ) by {
                assert(nodes.drop_first()[i - 1] == nodes[i]);
            }
            if spec_has_name(nodes.drop_first(), n) {
                let i = choose|i: int|
                    0 <= i < nodes.drop_first().len() && nodes.drop_first()[i].0 == n;
                assert(nodes[i + 1] == nodes.drop_first()[i]);
            }
        }
    }
}

/// How one Address Claimed message carrying (`peer`, `addr`) moves a
/// manager's state. A claim that collides with the address this node holds
/// or is claiming is arbitrated by Name: the lower value wins. The loser
/// returns to the candidate search; the winner answers with a fresh claim
/// and changes nothing. All other claims upsert the node table.
pub open spec fn spec_nm_claim_step(
    v: NmView,
    my: Name,
    peer: Name,
    addr: u8,
    time: u64,
) -> NmView {
    let competing = (v.state is ClaimingAddress || v.state is AddressClaimed) && addr
        == v.address_to_claim && peer != my;
    if competing && peer.spec_value() < my.spec_value() {
        NmView {
            state: ClaimState::RequestedClaimedAddresses,
            address_to_claim: v.address_to_claim,
            nodes: spec_upsert(spec_remove_name(v.nodes, my), peer, IsobusAddress(addr)),
            start_delay_time: time,
        }
    } else if competing {
        v
    } else {
        NmView { nodes: spec_upsert(v.nodes, peer, IsobusAddress(addr)), ..v }
    }
}

/// The Name carried in the eight payload bytes of an Address Claimed
/// message, short payloads padded with `0xFF`.
pub open spec fn spec_claimed_name(p: PDU) -> u64 {
    spec_le_u64(
        spec_padded_byte(p, 0),
        spec_padded_byte(p, 1),
        spec_padded_byte(p, 2),
        spec_padded_byte(p, 3),
        spec_padded_byte(p, 4),
        spec_padded_byte(p, 5),
        spec_padded_byte(p, 6),
        spec_padded_byte(p, 7),
    )
}

/// How one received message moves a manager's state: an Address Claimed
/// message steps the claim arbitration; everything else changes nothing.
pub open spec fn spec_nm_step(v: NmView, my: Name, p: PDU, time: u64) -> NmView {
    if p.spec_pgn() == PGN_ADDRESS_CLAIMED && p.spec_sa() != ADDRESS_NULL {
        spec_nm_claim_step(v, my, crate::name::spec_name_of(spec_claimed_name(p)), p.spec_sa(), time)
    } else {
        v
    }
}

/// The address this manager announces in reaction to one message, if any:
/// the claimed address when a Request for claimed addresses arrives while
/// connected, and the contested address when a competing claim from a
/// larger Name arrives.
pub open spec fn spec_nm_step_announce(v: NmView, my: Name, p: PDU) -> Option<u8> {
    if p.spec_pgn() == PGN_REQUEST && spec_requested_pgn(p) == PGN_ADDRESS_CLAIMED
        && spec_has_name(v.nodes, my) {
        Some(
            match spec_lookup(v.nodes, my) {
                Some(a) => a,
                None => ADDRESS_NULL,
            },
        )
    } else if p.spec_pgn() == PGN_ADDRESS_CLAIMED && p.spec_sa() != ADDRESS_NULL && {
        let peer = crate::name::spec_name_of(spec_claimed_name(p));
        &&& v.state is ClaimingAddress || v.state is AddressClaimed
        &&& p.spec_sa() == v.address_to_claim
        &&& peer != my
        &&& !(peer.spec_value() < my.spec_value())
    } {
        Some(v.address_to_claim)
    } else {
        None
    }
}

/// The addresses this manager announces over a run of messages, in order.
pub open spec fn spec_nm_run_announces(v: NmView, my: Name, pdus: Seq<PDU>, time: u64) -> Seq<u8>
    decreases pdus.len(),
{
    if pdus.len() == 0 {
        Seq::empty()
    } else {
        (match spec_nm_step_announce(v, my, pdus[0]) {
            Some(a) => seq![a],
            None => Seq::<u8>::empty(),
        }) + spec_nm_run_announces(spec_nm_step(v, my, pdus[0], time), my, pdus.drop_first(), time)
    }
}

proof fn lemma_nm_announces_push(v: NmView, my: Name, pdus: Seq<PDU>, p: PDU, time: u64)
    ensures
        spec_nm_run_announces(v, my, pdus.push(p), time) == spec_nm_run_announces(
            v,
            my,
            pdus,
            time,
        ) + (match spec_nm_step_announce(spec_nm_run(v, my, pdus, time), my, p) {
            Some(a) => seq![a],
            None => Seq::<u8>::empty(),
        }),
    decreases pdus.len(),
{
    if pdus.len() == 0 {
        assert(pdus.push(p)[0] == p);
        assert(pdus.push(p).drop_first() =~= Seq::<PDU>::empty());
        assert(spec_nm_run_announces(spec_nm_step(v, my, p, time), my, Seq::<PDU>::empty(), time)
            =~= Seq::<u8>::empty());
        assert(spec_nm_run_announces(v, my, pdus, time) =~= Seq::<u8>::empty());
        assert(spec_nm_run(v, my, pdus, time) == v);
        assert(spec_nm_run_announces(v, my, pdus.push(p), time) =~= spec_nm_run_announces(
            v,
            my,
            pdus,
            time,
        ) + (match spec_nm_step_announce(v, my, p) {
            Some(a) => seq![a],
            None => Seq::<u8>::empty(),
        }));
    } else {
        assert(pdus.push(p)[0] == pdus[0]);
        assert(pdus.push(p).drop_first() =~= pdus.drop_first().push(p));
        lemma_nm_announces_push(spec_nm_step(v, my, pdus[0], time), my, pdus.drop_first(), p, time);
        lemma_nm_run_push(v, my, pdus, p, time);
        assert(spec_nm_run(v, my, pdus, time) == spec_nm_run(
            spec_nm_step(v, my, pdus[0], time),
            my,
            pdus.drop_first(),
            time,
        ));
        assert(spec_nm_run_announces(v, my, pdus.push(p), time) =~= spec_nm_run_announces(
            v,
            my,
            pdus,
            time,
        ) + (match spec_nm_step_announce(spec_nm_run(v, my, pdus, time), my, p) {
            Some(a) => seq![a],
            None => Seq::<u8>::empty(),
        }));
    }
}

/// The manager's state after receiving a run of messages, in order.
pub open spec fn spec_nm_run(v: NmView, my: Name, pdus: Seq<PDU>, time: u64) -> NmView
    decreases pdus.len(),
{
    if pdus.len() == 0 {
        v
    } else {
        spec_nm_run(spec_nm_step(v, my, pdus[0], time), my, pdus.drop_first(), time)
    }
}

proof fn lemma_nm_run_push(v: NmView, my: Name, pdus: Seq<PDU>, p: PDU, time: u64)
    ensures
        spec_nm_run(v, my, pdus.push(p), time) == spec_nm_step(
            spec_nm_run(v, my, pdus, time),
            my,
            p,
            time,
        ),
    decreases pdus.len(),
{
    if pdus.len() == 0 {
        assert(pdus.push(p)[0] == p);
        assert(pdus.push(p).drop_first() =~= Seq::<PDU>::empty());
        assert(spec_nm_run(v, my, pdus.push(p), time) == spec_nm_run(
            spec_nm_step(v, my, p, time),
            my,
            pdus.push(p).drop_first(),
            time,
        ));
        assert(spec_nm_run(spec_nm_step(v, my, p, time), my, Seq::<PDU>::empty(), time)
            == spec_nm_step(v, my, p, time));
        assert(spec_nm_run(v, my, pdus, time) == v);
    } else {
        assert(pdus.push(p)[0] == pdus[0]);
        assert(pdus.push(p).drop_first() =~= pdus.drop_first().push(p));
        lemma_nm_run_push(spec_nm_step(v, my, pdus[0], time), my, pdus.drop_first(), p, time);
        assert(spec_nm_run(v, my, pdus.push(p), time) == spec_nm_run(
            spec_nm_step(v, my, pdus[0], time),
            my,
            pdus.drop_first().push(p),
            time,
        ));
        assert(spec_nm_run(v, my, pdus, time) == spec_nm_run(
            spec_nm_step(v, my, pdus[0], time),
            my,
            pdus.drop_first(),
            time,
        ));
    }
}

/// Address-claim arbitration: when two nodes contend for one address, the
/// node with the numerically smaller Name keeps its claim unchanged, and the
/// node with the larger Name returns to the candidate search.
pub proof fn lemma_address_claim_arbitration(
    winner: NmView,
    loser: NmView,
    winner_name: Name,
    loser_name: Name,
    addr: u8,
    time: u64,
)
    requires
        winner_name.spec_value() < loser_name.spec_value(),
        winner.state is ClaimingAddress || winner.state is AddressClaimed,
        loser.state is ClaimingAddress || loser.state is AddressClaimed,
        winner.address_to_claim == addr,
        loser.address_to_claim == addr,
    ensures
        spec_nm_claim_step(winner, winner_name, loser_name, addr, time) == winner,
        spec_nm_claim_step(loser, loser_name, winner_name, addr, time).state
            is RequestedClaimedAddresses,
{
}

/// Upserting keeps the node table's shape: names stay unique and no entry
/// holds the null address.
pub proof fn lemma_upsert_table_invariant(
    nodes: Seq<(Name, IsobusAddress)>,
    n: Name,
    a: IsobusAddress,
)
    requires
        spec_table_invariant(nodes),
    ensures
        spec_table_invariant(spec_upsert(nodes, n, a)),
{
    lemma_remove_name_shape(nodes, n);
    lemma_remove_conflicts_shape(nodes, n, a);
    if a.0 != ADDRESS_NULL {
        let base = spec_remove_conflicts(nodes, n, a);
        let out = base.push((n, a));
        assert forall|i: int, j: int| 0 <= i < j < out.len() implies (#[trigger] out[i]).0 != (
        #[trigger] out[j]).0 by {
            if j < base.len() {
            } else {
                assert(out[j] == (n, a));
                assert(base[i].0 != n);
            }
        }
        assert forall|i: int| 0 <= i < out.len() implies (#[trigger] out[i]).1.0
            != ADDRESS_NULL by {
            if i < base.len() {
            } else {
                assert(out[i] == (n, a));
            }
        }
    }
}

proof fn lemma_remove_name_push(s: Seq<(Name, IsobusAddress)>, n: Name, e: (Name, IsobusAddress))
    ensures
        spec_remove_name(s.push(e), n) == spec_remove_name(s, n) + (if e.0 == n {
            Seq::<(Name, IsobusAddress)>::empty()
        } else {
            seq![e]
        }),
    decreases s.len(),
{
    if s.len() == 0 {
        assert(s.push(e)[0] == e);
        assert(s.push(e).drop_first() =~= Seq::<(Name, IsobusAddress)>::empty());
        assert(spec_remove_name(Seq::<(Name, IsobusAddress)>::empty(), n) =~= Seq::<
            (Name, IsobusAddress),
        >::empty());
        if e.0 == n {
            assert(spec_remove_name(s.push(e), n) =~= spec_remove_name(s, n) + Seq::<
                (Name, IsobusAddress),
            >::empty());
        } else {
            assert(spec_remove_name(s.push(e), n) =~= spec_remove_name(s, n) + seq![e]);
        }
    } else {
        assert(s.push(e)[0] == s[0]);
        assert(s.push(e).drop_first() =~= s.drop_first().push(e));
        lemma_remove_name_push(s.drop_first(), n, e);
        if s[0].0 == n {
        } else {
            assert(seq![s[0]] + (spec_remove_name(s.drop_first(), n) + (if e.0 == n {
                Seq::<(Name, IsobusAddress)>::empty()
            } else {
                seq![e]
            })) =~= (seq![s[0]] + spec_remove_name(s.drop_first(), n)) + (if e.0 == n {
                Seq::<(Name, IsobusAddress)>::empty()
            } else {
                seq![e]
            }));
        }
    }
}

proof fn lemma_remove_conflicts_push(
    s: Seq<(Name, IsobusAddress)>,
    n: Name,
    a: IsobusAddress,
    e: (Name, IsobusAddress),
)
    ensures
        spec_remove_conflicts(s.push(e), n, a) == spec_remove_conflicts(s, n, a) + (if e.0 == n
            || e.1 == a {
            Seq::<(Name, IsobusAddress)>::empty()
        } else {
            seq![e]
        }),
    decreases s.len(),
{
    if s.len() == 0 {
        assert(s.push(e)[0] == e);
        assert(s.push(e).drop_first() =~= Seq::<(Name, IsobusAddress)>::empty());
        assert(spec_remove_conflicts(Seq::<(Name, IsobusAddress)>::empty(), n, a) =~= Seq::<
            (Name, IsobusAddress),
        >::empty());
        if e.0 == n || e.1 == a {
            assert(spec_remove_conflicts(s.push(e), n, a) =~= spec_remove_conflicts(s, n, a)
                + Seq::<(Name, IsobusAddress)>::empty());
        } else {
            assert(spec_remove_conflicts(s.push(e), n, a) =~= spec_remove_conflicts(s, n, a)
                + seq![e]);
        }
    } else {
        assert(s.push(e)[0] == s[0]);
        assert(s.push(e).drop_first() =~= s.drop_first().push(e));
        lemma_remove_conflicts_push(s.drop_first(), n, a, e);
        if s[0].0 == n || s[0].1 == a {
        } else {
            assert(seq![s[0]] + (spec_remove_conflicts(s.drop_first(), n, a) + (if e.0 == n || e.1
                == a {
                Seq::<(Name, IsobusAddress)>::empty()
            } else {
                seq![e]
            })) =~= (seq![s[0]] + spec_remove_conflicts(s.drop_first(), n, a)) + (if e.0 == n
                || e.1 == a {
                Seq::<(Name, IsobusAddress)>::empty()
            } else {
                seq![e]
            }));
        }
    }
}

/// Everything `spec_remove_name` keeps comes from the table, keeps its
/// relative order not stated here, and no kept entry holds name `n`.
proof fn lemma_remove_name_shape(nodes: Seq<(Name, IsobusAddress)>, n: Name)
    requires
        spec_table_invariant(nodes),
    ensures
        spec_table_invariant(spec_remove_name(nodes, n)),
        forall|i: int|
            0 <= i < spec_remove_name(nodes, n).len() ==> (#[trigger] spec_remove_name(
                nodes,
                n,
            )[i]).0 != n && nodes.contains(spec_remove_name(nodes, n)[i]),
    decreases nodes.len(),
{
    if nodes.len() > 0 {
        assert(spec_table_invariant(nodes.drop_first())) by {
            assert forall|i: int, j: int|
                0 <= i < j < nodes.drop_first().len() implies (
            #[trigger] nodes.drop_first()[i]).0 != (#[trigger] nodes.drop_first()[j]).0 by {
                assert(nodes.drop_first()[i] == nodes[i + 1]);
                assert(nodes.drop_first()[j] == nodes[j + 1]);
            }
            assert forall|i: int| 0 <= i < nodes.drop_first().len() implies (
            #[trigger] nodes.drop_first()[i]).1.0 != ADDRESS_NULL by {
                assert(nodes.drop_first()[i] == nodes[i + 1]);
            }
        }
        lemma_remove_name_shape(nodes.drop_first(), n);
        let rest = spec_remove_name(nodes.drop_first(), n);
        assert forall|i: int|
            0 <= i < rest.len() implies nodes.contains(#[trigger] rest[i]) by {
            assert(nodes.drop_first().contains(rest[i]));
            let k = choose|k: int|
                0 <= k < nodes.drop_first().len() && nodes.drop_first()[k] == rest[i];
            assert(nodes[k + 1] == rest[i]);
        }
        if nodes[0].0 != n {
            let out = seq![nodes[0]] + rest;
            assert forall|i: int, j: int| 0 <= i < j < out.len() implies (#[trigger] out[i]).0 != (
            #[trigger] out[j]).0 by {
                if i == 0 {
                    assert(out[j] == rest[j - 1]);
                    assert(nodes.contains(rest[j - 1]));
                    let k = choose|k: int| 0 <= k < nodes.len() && nodes[k] == rest[j - 1];
                    if k == 0 {
                        assert(nodes.drop_first().contains(rest[j - 1]));
                        let m = choose|m: int|
                            0 <= m < nodes.drop_first().len() && nodes.drop_first()[m] == rest[j
                                - 1];
                        assert(nodes[m + 1] == nodes[0]);
                    }
                } else {
                    assert(out[i] == rest[i - 1] && out[j] == rest[j - 1]);
                }
            }
        }
    }
}

/// As `lemma_remove_name_shape`, for the conflict-removing variant.
proof fn lemma_remove_conflicts_shape(nodes: Seq<(Name, IsobusAddress)>, n: Name, a: IsobusAddress)
    requires
        spec_table_invariant(nodes),
    ensures
        spec_table_invariant(spec_remove_conflicts(nodes, n, a)),
        forall|i: int|
            0 <= i < spec_remove_conflicts(nodes, n, a).len() ==> (#[trigger] spec_remove_conflicts(
                nodes,
                n,
                a,
            )[i]).0 != n && nodes.contains(spec_remove_conflicts(nodes, n, a)[i]),
    decreases nodes.len(),
{
    if nodes.len() > 0 {
        assert(spec_table_invariant(nodes.drop_first())) by {
            assert forall|i: int, j: int|
                0 <= i < j < nodes.drop_first().len() implies (
            #[trigger] nodes.drop_first()[i]).0 != (#[trigger] nodes.drop_first()[j]).0 by {
                assert(nodes.drop_first()[i] == nodes[i + 1]);
                assert(nodes.drop_first()[j] == nodes[j + 1]);
            }
            assert forall|i: int| 0 <= i < nodes.drop_first().len() implies (
            #[trigger] nodes.drop_first()[i]).1.0 != ADDRESS_NULL by {
                assert(nodes.drop_first()[i] == nodes[i + 1]);
            }
        }
        lemma_remove_conflicts_shape(nodes.drop_first(), n, a);
        let rest = spec_remove_conflicts(nodes.drop_first(), n, a);
        assert forall|i: int|
            0 <= i < rest.len() implies nodes.contains(#[trigger] rest[i]) by {
            assert(nodes.drop_first().contains(rest[i]));
            let k = choose|k: int|
                0 <= k < nodes.drop_first().len() && nodes.drop_first()[k] == rest[i];
            assert(nodes[k + 1] == rest[i]);
        }
        if !(nodes[0].0 == n || nodes[0].1 == a) {
            let out = seq![nodes[0]] + rest;
            assert forall|i: int, j: int| 0 <= i < j < out.len() implies (#[trigger] out[i]).0 != (
            #[trigger] out[j]).0 by {
                if i == 0 {
                    assert(out[j] == rest[j - 1]);
                    assert(nodes.contains(rest[j - 1]));
                    let k = choose|k: int| 0 <= k < nodes.len() && nodes[k] == rest[j - 1];
                    if k == 0 {
                        assert(nodes.drop_first().contains(rest[j - 1]));
                        let m = choose|m: int|
                            0 <= m < nodes.drop_first().len() && nodes.drop_first()[m] == rest[j
                                - 1];
                        assert(nodes[m + 1] == nodes[0]);
                    }
                } else {
                    assert(out[i] == rest[i - 1] && out[j] == rest[j - 1]);
                }
            }
        }
    }
}

/// The random part of the claim delay: a fixed xorshift round, below `max`.
pub open spec fn spec_random_delay(max: u64) -> u64 {
    ({
        let base = 0xAAAAAAAAu64 << 13;
        let mixed = base ^ (base >> 7);
        (mixed ^ (mixed << 17)) % max
    })
}

/// When the current claim wait expires: the fixed delay plus the random
/// part, measured from when the wait started.
pub open spec fn spec_claim_wait_over(start: u64, time: u64) -> bool {
    time >= spec_deadline(spec_deadline(start, CLAIM_DELAY), spec_random_delay(10))
}

/// The address-claim network manager.
pub struct NetworkManager {
    state: ClaimState,
    address_to_claim: IsobusAddress,
    name: Name,
    network_nodes: Vec<(Name, IsobusAddress)>,
    start_delay_time: u64,
}

impl NetworkManager {
    pub closed spec fn view(&self) -> NmView {
        NmView {
            state: self.state,
            address_to_claim: self.address_to_claim.0,
            nodes: self.network_nodes@,
            start_delay_time: self.start_delay_time,
        }
    }

    pub closed spec fn spec_name(&self) -> Name {
        self.name
    }

    pub fn new(name: Name) -> (r: Self)
        ensures
            r.spec_name() == name,
            r.view().state is NotConnected,
            r.view().nodes == Seq::<(Name, IsobusAddress)>::empty(),
            r.view().address_to_claim == 128,
    {
        let r = NetworkManager {
            state: ClaimState::NotConnected,
            address_to_claim: IsobusAddress(128),
            name,
            network_nodes: Vec::new(),
            start_delay_time: 0,
        };
        proof {
            assert(r.view().nodes =~= Seq::<(Name, IsobusAddress)>::empty());
        }
        r
    }

    /// Record one node announcement in the table.
    fn upsert(&mut self, n: Name, a: IsobusAddress)
        ensures
            final(self).view().nodes == spec_upsert(old(self).view().nodes, n, a),
            final(self).view().state == old(self).view().state,
            final(self).view().address_to_claim == old(self).view().address_to_claim,
            final(self).view().start_delay_time == old(self).view().start_delay_time,
            final(self).spec_name() == old(self).spec_name(),
    {
        let ghost nodes0 = self.network_nodes@;
        let mut kept: Vec<(Name, IsobusAddress)> = Vec::new();
        let remove_all = a.0 == ADDRESS_NULL;
        let mut i: usize = 0;
        while i < self.network_nodes.len()
            invariant
                i <= nodes0.len(),
                self.network_nodes@ == nodes0,
                remove_all == (a.0 == ADDRESS_NULL),
                remove_all ==> kept@ == spec_remove_name(nodes0.take(i as int), n),
                !remove_all ==> kept@ == spec_remove_conflicts(nodes0.take(i as int), n, a),
            decreases nodes0.len() - i,
        {
            let entry = self.network_nodes[i];
            proof {
                assert(nodes0.take(i + 1) =~= nodes0.take(i as int).push(nodes0[i as int]));
                if remove_all {
                    lemma_remove_name_push(nodes0.take(i as int), n, nodes0[i as int]);
                } else {
                    lemma_remove_conflicts_push(nodes0.take(i as int), n, a, nodes0[i as int]);
                }
            }
            if remove_all {
                if !(entry.0 == n) {
                    kept.push(entry);
                    proof {
                        assert(kept@ =~= spec_remove_name(nodes0.take(i as int), n) + seq![
                            nodes0[i as int],
                        ]);
                    }
                } else {
                    proof {
                        assert(kept@ =~= spec_remove_name(nodes0.take(i as int), n) + Seq::<
                            (Name, IsobusAddress),
                        >::empty());
                    }
                }
            } else {
                if !(entry.0 == n) && !(entry.1 == a) {
                    kept.push(entry);
                    proof {
                        assert(kept@ =~= spec_remove_conflicts(nodes0.take(i as int), n, a)
                            + seq![nodes0[i as int]]);
                    }
                } else {
                    proof {
                        assert(kept@ =~= spec_remove_conflicts(nodes0.take(i as int), n, a)
                            + Seq::<(Name, IsobusAddress)>::empty());
                    }
                }
            }
            i = i + 1;
        }
        proof {
            assert(nodes0.take(nodes0.len() as int) =~= nodes0);
        }
        if !remove_all {
            kept.push((n, a));
        }
        self.network_nodes = kept;
    }

    /// Whether some node in the table already holds address `a`.
    fn addr_taken(&self, a: u8) -> (r: bool)
        ensures
            r == spec_addr_taken(self.view().nodes, a),
    {
        let mut i: usize = 0;
        while i < self.network_nodes.len()
            invariant
                i <= self.network_nodes@.len(),
                forall|j: int| 0 <= j < i ==> (#[trigger] self.network_nodes@[j]).1.0 != a,
            decreases self.network_nodes@.len() - i,
        {
            if self.network_nodes[i].1.0 == a {
                return true;
            }
            i = i + 1;
        }
        false
    }

    /// Whether this node's own claim has completed: its Name is in the
    /// table.
    pub fn is_connected(&self) -> (r: bool)
        ensures
            r == spec_has_name(self.view().nodes, self.spec_name()),
    {
        let mut i: usize = 0;
        while i < self.network_nodes.len()
            invariant
                i <= self.network_nodes@.len(),
                forall|j: int| 0 <= j < i ==> (#[trigger] self.network_nodes@[j]).0 != self.name,
            decreases self.network_nodes@.len() - i,
        {
            if self.network_nodes[i].0 == self.name {
                return true;
            }
            i = i + 1;
        }
        false
    }

    /// The address this node has claimed, or the null address before the
    /// claim completes.
    pub fn claimed_address(&self) -> (r: IsobusAddress)
        ensures
            r.0 == (match spec_lookup(self.view().nodes, self.spec_name()) {
                Some(a) => a,
                None => ADDRESS_NULL,
            }),
    {
        proof {
            assert(self.view().nodes.skip(0) =~= self.view().nodes);
        }
        let mut i: usize = 0;
        while i < self.network_nodes.len()
            invariant
                i <= self.network_nodes@.len(),
                spec_lookup(self.view().nodes, self.name) == spec_lookup(
                    self.view().nodes.skip(i as int),
                    self.name,
                ),
            decreases self.network_nodes@.len() - i,
        {
            proof {
                assert(self.view().nodes.skip(i as int)[0] == self.view().nodes[i as int]);
                assert(self.view().nodes.skip(i as int).drop_first() =~= self.view().nodes.skip(
                    i + 1,
                ));
            }
            if self.network_nodes[i].0 == self.name {
                return IsobusAddress(self.network_nodes[i].1.0);
            }
            i = i + 1;
        }
        IsobusAddress(ADDRESS_NULL)
    }

    /// The node table as raw pairs of Name value and address, for the host
    /// to log.
    pub fn log_network(&self) -> (r: Vec<(u64, u8)>)
        ensures
            r@.len() == self.view().nodes.len(),
            forall|i: int|
                0 <= i < r@.len() ==> #[trigger] r@[i] == (
                self.view().nodes[i].0.spec_value(),
                self.view().nodes[i].1.0,
                ),
    {
        let mut out: Vec<(u64, u8)> = Vec::new();
        let mut i: usize = 0;
        while i < self.network_nodes.len()
            invariant
                i <= self.network_nodes@.len(),
                out@.len() == i,
                forall|j: int|
                    0 <= j < i ==> #[trigger] out@[j] == (
                    self.network_nodes@[j].0.spec_value(),
                    self.network_nodes@[j].1.0,
                    ),
            decreases self.network_nodes@.len() - i,
        {
            let entry = self.network_nodes[i];
            out.push((entry.0.as_u64(), entry.1.0));
            i = i + 1;
        }
        out
    }

    fn get_random_delay(&self, max: u64) -> (r: u64)
        requires
            max > 0,
        ensures
            r == spec_random_delay(max),
    {
        let base: u64 = 0xAAAAAAAAu64 << 13;
        let mixed: u64 = base ^ (base >> 7);
        (mixed ^ (mixed << 17)) % max
    }

    /// Forget this node's claim and leave the bus.
    pub fn disconnect(&mut self)
        ensures
            final(self).view().state is NotConnected,
            final(self).spec_name() == old(self).spec_name(),
            final(self).view().nodes == (if spec_has_name(
                old(self).view().nodes,
                old(self).spec_name(),
            ) {
                spec_upsert(old(self).view().nodes, old(self).spec_name(), IsobusAddress(
                    ADDRESS_NULL,
                ))
            } else {
                old(self).view().nodes
            }),
    {
        if self.is_connected() {
            let n = self.name;
            self.upsert(n, IsobusAddress(ADDRESS_NULL));
        }
        self.state = ClaimState::NotConnected;
    }

    /// Feed the received messages through the claim state machine, answering
    /// requests for the claimed address and arbitrating competing claims.
    /// Everything this writes to the bus is a claim announcement of this
    /// node's own Name, exactly as the announce run of the step relation
    /// lists them.
    pub fn process<D: CanDriverTrait>(
        &mut self,
        pdus: &Vec<PDU>,
        dll: &mut DataLinkLayer<D>,
        time: u64,
    )
        requires
            old(dll).wf(),
        ensures
            final(dll).wf(),
            final(dll).spec_tp() == old(dll).spec_tp(),
            final(dll).spec_etp() == old(dll).spec_etp(),
            final(self).spec_name() == old(self).spec_name(),
            final(self).view() == spec_nm_run(old(self).view(), old(self).spec_name(), pdus@, time),
            ({
                let anns = spec_nm_run_announces(
                    old(self).view(),
                    old(self).spec_name(),
                    pdus@,
                    time,
                );
                &&& final(dll).spec_written().len() == old(dll).spec_written().len() + anns.len()
                &&& final(dll).spec_written().subrange(
                    0,
                    old(dll).spec_written().len() as int,
                ) == old(dll).spec_written()
                &&& forall|k: int|
                    0 <= k < anns.len() ==> spec_is_claim_announce(
                        #[trigger] final(dll).spec_written()[old(dll).spec_written().len() + k],
                        old(self).spec_name(),
                        anns[k],
                    )
            }),
    {
        let ghost v0 = self.view();
        let ghost name0 = self.name;
        let ghost w0 = dll.spec_written();
        let mut i: usize = 0;
        while i < pdus.len()
            invariant
                dll.wf(),
                dll.spec_tp() == old(dll).spec_tp(),
                dll.spec_etp() == old(dll).spec_etp(),
                i <= pdus@.len(),
                self.name == name0,
                self.view() == spec_nm_run(v0, name0, pdus@.take(i as int), time),
                dll.spec_written().len() == w0.len() + spec_nm_run_announces(
                    v0,
                    name0,
                    pdus@.take(i as int),
                    time,
                ).len(),
                dll.spec_written().subrange(0, w0.len() as int) == w0,
                forall|k: int|
                    0 <= k < spec_nm_run_announces(v0, name0, pdus@.take(i as int), time).len()
                        ==> spec_is_claim_announce(
                        #[trigger] dll.spec_written()[w0.len() + k],
                        name0,
                        spec_nm_run_announces(v0, name0, pdus@.take(i as int), time)[k],
                    ),
            decreases pdus@.len() - i,
        {
            let pdu = &pdus[i];
            let ghost v_i = self.view();
            let ghost anns_i = spec_nm_run_announces(v0, name0, pdus@.take(i as int), time);
            proof {
                assert(pdus@.take(i + 1) =~= pdus@.take(i as int).push(pdus@[i as int]));
                lemma_nm_run_push(v0, name0, pdus@.take(i as int), pdus@[i as int], time);
                lemma_nm_announces_push(v0, name0, pdus@.take(i as int), pdus@[i as int], time);
            }
            if pdu.is_request_for_address_claimed() && self.is_connected() {
                proof {
                    lemma_lookup_some(self.view().nodes, self.name);
                }
                let a = self.claimed_address();
                let announce = PDU::new_address_claimed(self.name, a);
                dll.send(announce, time);
                proof {
                    assert(dll.spec_written().subrange(0, w0.len() as int) =~= w0);
                    assert(spec_nm_run_announces(v0, name0, pdus@.take(i + 1), time) =~= anns_i
                        + seq![a.0]);
                    assert(dll.spec_written()[w0.len() + anns_i.len() as int] == announce);
                    assert(spec_is_claim_announce(announce, name0, a.0));
                }
            }
            if pdu.is_address_claimed() {
                let d = pdu.data(8);
                let peer = Name::from_bytes(d.as_slice());
                let addr = pdu.source_address();
                proof {
                    crate::name::lemma_name_eq(peer, spec_claimed_name(pdus@[i as int]));
                }
                let competing = (self.state == ClaimState::ClaimingAddress || self.state
                    == ClaimState::AddressClaimed) && addr.0 == self.address_to_claim.0 && !(peer
                    == self.name);
                if competing && peer.as_u64() < self.name.as_u64() {
                    let my_name = self.name;
                    self.upsert(my_name, IsobusAddress(ADDRESS_NULL));
                    self.upsert(peer, addr);
                    self.state = ClaimState::RequestedClaimedAddresses;
                    self.start_delay_time = time;
                } else if competing {
                    let my_name = self.name;
                    let my_addr = IsobusAddress(self.address_to_claim.0);
                    let announce = PDU::new_address_claimed(my_name, my_addr);
                    dll.send(announce, time);
                    proof {
                        assert(dll.spec_written().subrange(0, w0.len() as int) =~= w0);
                        assert(spec_nm_run_announces(v0, name0, pdus@.take(i + 1), time) =~= anns_i
                            + seq![my_addr.0]);
                        assert(dll.spec_written()[w0.len() + anns_i.len() as int] == announce);
                        assert(spec_is_claim_announce(announce, name0, my_addr.0));
                    }
                } else {
                    self.upsert(peer, addr);
                }
            }
            proof {
                if spec_nm_step_announce(v_i, name0, pdus@[i as int]) is None {
                    assert(spec_nm_run_announces(v0, name0, pdus@.take(i + 1), time) =~= anns_i);
                }
            }
            i = i + 1;
        }
        proof {
            assert(pdus@.take(pdus@.len() as int) =~= pdus@);
        }
    }

    /// Drive the address claim forward one tick. From a cold start this
    /// requests the claimed addresses on the bus, then after the claim delay
    /// picks the first free candidate address and announces it, and after a
    /// second delay without a lost arbitration records the claim and returns
    /// the address. `Err(WouldBlock)` asks the caller to keep ticking.
    pub fn connect<D: CanDriverTrait>(
        &mut self,
        dll: &mut DataLinkLayer<D>,
        address_to_claim: Option<IsobusAddress>,
        time: u64,
    ) -> (r: Result<IsobusAddress, ConnectError>)
        requires
            old(dll).wf(),
        ensures
            final(dll).wf(),
            final(dll).spec_tp() == old(dll).spec_tp(),
            final(dll).spec_etp() == old(dll).spec_etp(),
            final(self).spec_name() == old(self).spec_name(),
            final(dll).spec_written().len() >= old(dll).spec_written().len(),
            final(dll).spec_written().subrange(0, old(dll).spec_written().len() as int) == old(
                dll,
            ).spec_written(),
            ({
                let v = old(self).view();
                let w = final(self).view();
                &&& v.state is NotConnected ==> {
                    &&& w.state is RequestedClaimedAddresses
                    &&& w.address_to_claim == (match address_to_claim {
                        Some(a) => a.0,
                        None => 128,
                    })
                    &&& w.nodes == v.nodes
                    &&& w.start_delay_time == time
                    &&& r == Err::<IsobusAddress, ConnectError>(ConnectError::WouldBlock)
                    &&& final(dll).spec_written().len() == old(dll).spec_written().len() + 1
                    &&& spec_is_claim_request(final(dll).spec_written().last())
                }
                &&& v.state is RequestedClaimedAddresses && !spec_claim_wait_over(
                    v.start_delay_time,
                    time,
                ) ==> w == v && r == Err::<IsobusAddress, ConnectError>(ConnectError::WouldBlock)
                    && final(dll).spec_written() == old(dll).spec_written()
                &&& v.state is RequestedClaimedAddresses && spec_claim_wait_over(
                    v.start_delay_time,
                    time,
                ) ==> {
                    &&& w.nodes == v.nodes
                    &&& if exists|a: u8|
                        spec_in_walk(v.address_to_claim, a) && !spec_addr_taken(v.nodes, a) {
                        &&& w.state is ClaimingAddress
                        &&& spec_in_walk(v.address_to_claim, w.address_to_claim)
                        &&& !spec_addr_taken(v.nodes, w.address_to_claim)
                        &&& forall|x: u8|
                            spec_in_walk(v.address_to_claim, x) && spec_walk_pos(
                                v.address_to_claim,
                                x,
                            ) < spec_walk_pos(v.address_to_claim, w.address_to_claim)
                                ==> #[trigger] spec_addr_taken(v.nodes, x)
                        &&& w.start_delay_time == time
                        &&& r == Err::<IsobusAddress, ConnectError>(ConnectError::WouldBlock)
                        &&& final(dll).spec_written().len() == old(dll).spec_written().len() + 1
                        &&& spec_is_claim_announce(
                            final(dll).spec_written().last(),
                            old(self).spec_name(),
                            w.address_to_claim,
                        )
                    } else {
                        &&& w.state is UnableToClaimAddress
                        &&& r == Err::<IsobusAddress, ConnectError>(
                            ConnectError::Failed(NetworkError::UnableToClaimAddress),
                        )
                        &&& final(dll).spec_written() == old(dll).spec_written()
                    }
                }
                &&& v.state is ClaimingAddress && !spec_claim_wait_over(v.start_delay_time, time)
                    ==> w == v && r == Err::<IsobusAddress, ConnectError>(ConnectError::WouldBlock)
                    && final(dll).spec_written() == old(dll).spec_written()
                &&& v.state is ClaimingAddress && spec_claim_wait_over(v.start_delay_time, time)
                    ==> {
                    &&& final(dll).spec_written() == old(dll).spec_written()
                    &&& w.state is AddressClaimed
                    &&& w.address_to_claim == v.address_to_claim
                    &&& w.nodes == spec_upsert(
                        v.nodes,
                        old(self).spec_name(),
                        IsobusAddress(v.address_to_claim),
                    )
                    &&& r == Ok::<IsobusAddress, ConnectError>(IsobusAddress(v.address_to_claim))
                }
                &&& v.state is AddressClaimed ==> w == v && final(dll).spec_written() == old(
                    dll,
                ).spec_written() && r == Ok::<IsobusAddress, ConnectError>(
                    IsobusAddress(
                        match spec_lookup(v.nodes, old(self).spec_name()) {
                            Some(a) => a,
                            None => ADDRESS_NULL,
                        },
                    ),
                )
                &&& v.state is UnableToClaimAddress ==> w == v && final(dll).spec_written()
                    == old(dll).spec_written() && r == Err::<
                    IsobusAddress,
                    ConnectError,
                >(ConnectError::Failed(NetworkError::UnableToClaimAddress))
            }),
    {
        match self.state {
            ClaimState::NotConnected => {
                self.address_to_claim = match address_to_claim {
                    Some(a) => a,
                    None => IsobusAddress(128),
                };
                self.start_delay_time = time;
                let request = PDU::new_request_for_address_claimed(
                    IsobusAddress(ADDRESS_GLOBAL),
                    IsobusAddress(ADDRESS_NULL),
                );
                dll.send(request, time);
                proof {
                    assert(spec_is_claim_request(request));
                }
                self.state = ClaimState::RequestedClaimedAddresses;
                Err(ConnectError::WouldBlock)
            },
            ClaimState::RequestedClaimedAddresses => {
                let wait = crate::time::deadline(
                    crate::time::deadline(self.start_delay_time, CLAIM_DELAY),
                    self.get_random_delay(10),
                );
                if time < wait {
                    return Err(ConnectError::WouldBlock);
                }
                let start_addr: u8 = self.address_to_claim.0;
                let mut found: Option<u8> = None;
                let mut a: u16 = start_addr as u16;
                while a <= 247
                    invariant
                        start_addr as u16 <= a,
                        found matches Some(c) ==> spec_in_walk(start_addr, c) && !spec_addr_taken(
                            self.view().nodes,
                            c,
                        ) && forall|x: u8|
                            spec_in_walk(start_addr, x) && spec_walk_pos(start_addr, x)
                                < spec_walk_pos(start_addr, c) ==> #[trigger] spec_addr_taken(
                                self.view().nodes,
                                x,
                            ),
                        found is None ==> forall|x: u8|
                            start_addr <= x < a ==> #[trigger] spec_addr_taken(
                                self.view().nodes,
                                x,
                            ),
                    decreases 248 - a,
                {
                    if found.is_none() && !self.addr_taken(a as u8) {
                        proof {
                            assert forall|x: u8|
                                spec_in_walk(start_addr, x) && spec_walk_pos(start_addr, x)
                                    < spec_walk_pos(start_addr, a as u8) implies
                                #[trigger] spec_addr_taken(self.view().nodes, x) by {
                                assert(start_addr <= x < a);
                            }
                        }
                        found = Some(a as u8);
                    }
                    a = a + 1;
                }
                let mut b: u16 = 128;
                while b < start_addr as u16
                    invariant
                        128 <= b,
                        found matches Some(c) ==> spec_in_walk(start_addr, c) && !spec_addr_taken(
                            self.view().nodes,
                            c,
                        ) && forall|x: u8|
                            spec_in_walk(start_addr, x) && spec_walk_pos(start_addr, x)
                                < spec_walk_pos(start_addr, c) ==> #[trigger] spec_addr_taken(
                                self.view().nodes,
                                x,
                            ),
                        found is None ==> forall|x: u8|
                            start_addr <= x <= 247 ==> #[trigger] spec_addr_taken(
                                self.view().nodes,
                                x,
                            ),
                        found is None ==> forall|x: u8|
                            128 <= x < b ==> #[trigger] spec_addr_taken(
                                self.view().nodes,
                                x,
                            ),
                    decreases 256 - b,
                {
                    if found.is_none() && !self.addr_taken(b as u8) {
                        proof {
                            assert forall|x: u8|
                                spec_in_walk(start_addr, x) && spec_walk_pos(start_addr, x)
                                    < spec_walk_pos(start_addr, b as u8) implies
                                #[trigger] spec_addr_taken(self.view().nodes, x) by {
                                assert(start_addr <= x <= 247 || 128 <= x < b);
                            }
                        }
                        found = Some(b as u8);
                    }
                    b = b + 1;
                }
                proof {
                    if found is None {
                        assert forall|x: u8| spec_in_walk(start_addr, x) implies #[trigger] spec_addr_taken(
                            self.view().nodes,
                            x,
                        ) by {}
                    }
                }
                match found {
                    Some(candidate) => {
                        self.address_to_claim = IsobusAddress(candidate);
                        let my_name = self.name;
                        let announce = PDU::new_address_claimed(my_name, IsobusAddress(candidate));
                        dll.send(announce, time);
                        proof {
                            assert(spec_is_claim_announce(announce, my_name, candidate));
                        }
                        self.start_delay_time = time;
                        self.state = ClaimState::ClaimingAddress;
                        Err(ConnectError::WouldBlock)
                    },
                    None => {
                        self.state = ClaimState::UnableToClaimAddress;
                        Err(ConnectError::Failed(NetworkError::UnableToClaimAddress))
                    },
                }
            },
            ClaimState::ClaimingAddress => {
                let wait = crate::time::deadline(
                    crate::time::deadline(self.start_delay_time, CLAIM_DELAY),
                    self.get_random_delay(10),
                );
                if time < wait {
                    return Err(ConnectError::WouldBlock);
                }
                self.state = ClaimState::AddressClaimed;
                let my_name = self.name;
                let addr = self.address_to_claim;
                self.upsert(my_name, addr);
                Ok(addr)
            },
            ClaimState::AddressClaimed => Ok(self.claimed_address()),
            ClaimState::UnableToClaimAddress => Err(
                ConnectError::Failed(NetworkError::UnableToClaimAddress),
            ),
        }
    }
}

} // verus!
