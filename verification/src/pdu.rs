//! Protocol Data Units: one logical message, carried in a 29-bit extended
//! CAN identifier plus a payload that may span many frames.

use vstd::prelude::*;

use crate::driver::CanFrame;
use crate::driver::Id;
use crate::isobus::IsobusAddress;
use crate::isobus::ADDRESS_GLOBAL;
use crate::isobus::ADDRESS_NULL;
use crate::name::Name;
use crate::pgn::PGN;
use crate::pgn::PGN_ADDRESS_CLAIMED;
use crate::pgn::PGN_REQUEST;

verus! {

/// Packs the six identifier fields into a raw 29-bit extended identifier.
pub open spec fn spec_pack_id(priority: u8, edp: u8, dp: u8, pf: u8, ps: u8, sa: u8) -> u32 {
    ((priority & 7) as u32) << 26 | ((edp & 1) as u32) << 25 | ((dp & 1) as u32) << 24
        | (pf as u32) << 16 | (ps as u32) << 8 | (sa as u32)
}

pub open spec fn spec_unpack_priority(id: u32) -> u8 {
    ((id >> 26) & 0b111) as u8
}

pub open spec fn spec_unpack_edp(id: u32) -> u8 {
    ((id >> 25) & 0b1) as u8
}

pub open spec fn spec_unpack_dp(id: u32) -> u8 {
    ((id >> 24) & 0b1) as u8
}

pub open spec fn spec_unpack_pf(id: u32) -> u8 {
    ((id >> 16) & 0xFF) as u8
}

pub open spec fn spec_unpack_ps(id: u32) -> u8 {
    ((id >> 8) & 0xFF) as u8
}

pub open spec fn spec_unpack_sa(id: u32) -> u8 {
    (id & 0xFF) as u8
}

/// The 18-bit PGN determined by the identifier fields: the PDU-specific byte
/// folds into the PGN only for the broadcast (PDU2) format.
pub open spec fn spec_pgn_of(edp: u8, dp: u8, pf: u8, ps: u8) -> u32 {
    ((edp & 1) as u32) << 17 | ((dp & 1) as u32) << 16 | (pf as u32) << 8
        | if pf < 240 { 0u32 } else { ps as u32 }
}

/// The three little-endian wire bytes of a 24-bit PGN value.
pub open spec fn spec_pgn_bytes(p: u32) -> Seq<u8> {
    seq![(p & 0xFF) as u8, ((p >> 8) & 0xFF) as u8, ((p >> 16) & 0xFF) as u8]
}

/// The payload byte a PDU carries at `i`, padded with `0xFF` past the end of
/// the payload, as the fixed-width decodings pad short payloads.
pub open spec fn spec_padded_byte(p: PDU, i: int) -> u8 {
    if i < p.spec_data().len() {
        p.spec_data()[i]
    } else {
        0xFFu8
    }
}

/// The eight data bytes of a one-frame message, padded with `0xFF`.
pub open spec fn spec_padded8(p: PDU) -> Seq<u8> {
    Seq::new(8, |i: int| spec_padded_byte(p, i))
}

/// The PGN formula written with arithmetic in place of bit operations: the
/// three identifier parts occupy disjoint bit ranges, so the ors are sums.
pub proof fn lemma_pgn_of_value(edp: u8, dp: u8, pf: u8, ps: u8)
    requires
        edp <= 1,
        dp <= 1,
    ensures
        spec_pgn_of(edp, dp, pf, ps) == (edp as u32) * 0x20000 + (dp as u32) * 0x10000 + (
        pf as u32) * 0x100 + if pf < 240 {
            0u32
        } else {
            ps as u32
        },
{
    assert(edp <= 1 && dp <= 1 ==> (((edp & 1) as u32) << 17 | ((dp & 1) as u32) << 16 | (
    pf as u32) << 8 | (ps as u32)) == (edp as u32) * 0x20000 + (dp as u32) * 0x10000 + (
    pf as u32) * 0x100 + (ps as u32)) by (bit_vector);
    assert(edp <= 1 && dp <= 1 ==> (((edp & 1) as u32) << 17 | ((dp & 1) as u32) << 16 | (
    pf as u32) << 8 | 0u32) == (edp as u32) * 0x20000 + (dp as u32) * 0x10000 + (pf as u32)
        * 0x100 + 0u32) by (bit_vector);
}

/// A message priority; only the low three bits are meaningful.
pub struct PduPriority(pub u8);

/// One Protocol Data Unit.
#[derive(Debug)]
pub struct PDU {
    priority: u8,
    extended_data_page: u8,
    data_page: u8,
    pdu_format: u8,
    pdu_specific: u8,
    source_address: u8,
    data: Vec<u8>,
}

impl PDU {
    pub closed spec fn spec_priority(self) -> u8 {
        self.priority
    }

    pub closed spec fn spec_edp(self) -> u8 {
        self.extended_data_page
    }

    pub closed spec fn spec_dp(self) -> u8 {
        self.data_page
    }

    pub closed spec fn spec_pf(self) -> u8 {
        self.pdu_format
    }

    pub closed spec fn spec_ps(self) -> u8 {
        self.pdu_specific
    }

    pub closed spec fn spec_sa(self) -> u8 {
        self.source_address
    }

    pub closed spec fn spec_data(self) -> Seq<u8> {
        self.data@
    }

    #[verifier::type_invariant]
    closed spec fn inv(self) -> bool {
        self.priority < 8 && self.extended_data_page <= 1 && self.data_page <= 1
    }

    /// The raw 29-bit identifier these fields pack into.
    pub open spec fn spec_id(self) -> u32 {
        spec_pack_id(
            self.spec_priority(),
            self.spec_edp(),
            self.spec_dp(),
            self.spec_pf(),
            self.spec_ps(),
            self.spec_sa(),
        )
    }

    /// The PGN these fields denote.
    pub open spec fn spec_pgn(self) -> u32 {
        spec_pgn_of(self.spec_edp(), self.spec_dp(), self.spec_pf(), self.spec_ps())
    }

    pub open spec fn spec_is_pdu1(self) -> bool {
        self.spec_pf() < 240
    }

    pub open spec fn spec_is_address_specific(self, address: u8) -> bool {
        self.spec_is_pdu1() && self.spec_ps() == address
    }

    pub open spec fn spec_is_address_global(self) -> bool {
        !self.spec_is_pdu1() || self.spec_is_address_specific(ADDRESS_GLOBAL)
    }

    /// Build a PDU from its identifier fields and payload. Out-of-range bits
    /// of the priority and page fields are masked away.
    pub fn new(
        priority: u8,
        extended_data_page: u8,
        data_page: u8,
        pdu_format: u8,
        pdu_specific: u8,
        source_address: u8,
        data: Vec<u8>,
    ) -> (r: PDU)
        ensures
            r.spec_priority() == priority & 0b111,
            r.spec_edp() == extended_data_page & 0b1,
            r.spec_dp() == data_page & 0b1,
            priority < 8 ==> r.spec_priority() == priority,
            extended_data_page <= 1 ==> r.spec_edp() == extended_data_page,
            data_page <= 1 ==> r.spec_dp() == data_page,
            r.spec_pf() == pdu_format,
            r.spec_ps() == pdu_specific,
            r.spec_sa() == source_address,
            r.spec_data() == data@,
    {
        proof {
            assert(priority & 0b111 < 8 && extended_data_page & 0b1 <= 1 && data_page & 0b1
                <= 1 && (priority < 8 ==> priority & 0b111 == priority) && (extended_data_page
                <= 1 ==> extended_data_page & 0b1 == extended_data_page) && (data_page <= 1
                ==> data_page & 0b1 == data_page)) by (bit_vector);
        }
        PDU {
            priority: priority & 0b111,
            extended_data_page: extended_data_page & 0b1,
            data_page: data_page & 0b1,
            pdu_format,
            pdu_specific,
            source_address,
            data,
        }
    }

    /// Build the well-known PDU for a PGN the stack can originate: a Request
    /// or an Address Claimed message. Other PGNs yield `None`.
    pub fn from_pgn(pgn: PGN, source_address: IsobusAddress, data: Vec<u8>) -> (r: Option<PDU>)
        requires
            pgn.spec_as_u32() == PGN_REQUEST ==> data@.len() >= 3,
        ensures
            pgn.spec_as_u32() != PGN_REQUEST && pgn.spec_as_u32() != PGN_ADDRESS_CLAIMED
                ==> r is None,
            pgn.spec_as_u32() == PGN_REQUEST || pgn.spec_as_u32() == PGN_ADDRESS_CLAIMED
                ==> r is Some,
    {
        let raw = pgn.as_u32();
        if raw == PGN_REQUEST {
            Some(
                Self::new_request(
                    IsobusAddress(raw as u8),
                    source_address,
                    PGN::from_vec(data),
                ),
            )
        } else if raw == PGN_ADDRESS_CLAIMED {
            Some(Self::new_address_claimed(Name::from_bytes(data.as_slice()), source_address))
        } else {
            None
        }
    }

    pub fn priority(&self) -> (r: u8)
        ensures
            r == self.spec_priority(),
            r < 8,
    {
        proof {
            use_type_invariant(self);
        }
        self.priority
    }

    pub fn extended_data_page(&self) -> (r: u8)
        ensures
            r == self.spec_edp(),
            r <= 1,
    {
        proof {
            use_type_invariant(self);
        }
        self.extended_data_page
    }

    pub fn data_page(&self) -> (r: u8)
        ensures
            r == self.spec_dp(),
            r <= 1,
    {
        proof {
            use_type_invariant(self);
        }
        self.data_page
    }

    pub fn pdu_format(&self) -> (r: u8)
        ensures
            r == self.spec_pf(),
    {
        self.pdu_format
    }

    pub fn pdu_specific(&self) -> (r: u8)
        ensures
            r == self.spec_ps(),
    {
        self.pdu_specific
    }

    /// For a destination-specific PDU, the PDU-specific byte is the
    /// destination address.
    pub fn destination_address(&self) -> (r: IsobusAddress)
        ensures
            r.0 == self.spec_ps(),
    {
        IsobusAddress(self.pdu_specific)
    }

    pub fn source_address(&self) -> (r: IsobusAddress)
        ensures
            r.0 == self.spec_sa(),
    {
        IsobusAddress(self.source_address)
    }

    /// The first `len` payload bytes, padded with `0xFF` where the payload is
    /// shorter.
    pub fn data(&self, len: usize) -> (r: Vec<u8>)
        ensures
            r@.len() == len,
            forall|i: int|
                0 <= i < len ==> r@[i] == (if i < self.spec_data().len() {
                    self.spec_data()[i]
                } else {
                    0xFFu8
                }),
    {
        let mut out: Vec<u8> = Vec::new();
        let mut i: usize = 0;
        while i < len
            invariant
                i <= len,
                out@.len() == i,
                forall|j: int|
                    0 <= j < i ==> out@[j] == (if j < self.spec_data().len() {
                        self.spec_data()[j]
                    } else {
                        0xFFu8
                    }),
            decreases len - i,
        {
            if i < self.data.len() {
                out.push(self.data[i]);
            } else {
                out.push(0xFF);
            }
            i = i + 1;
        }
        out
    }

    /// The first payload byte, or `0xFF` for an empty payload; control
    /// messages carry their function or control code here.
    pub fn first_byte(&self) -> (r: u8)
        ensures
            r == spec_padded_byte(*self, 0),
    {
        if self.data.len() > 0 {
            self.data[0]
        } else {
            0xFF
        }
    }

    pub fn data_len(&self) -> (r: usize)
        ensures
            r == self.spec_data().len(),
    {
        self.data.len()
    }

    pub fn data_raw(&self) -> (r: &[u8])
        ensures
            r@ == self.spec_data(),
    {
        self.data.as_slice()
    }

    /// The 29-bit identifier of this PDU.
    pub fn id(&self) -> (r: Id)
        ensures
            r.spec_as_u32() == self.spec_id(),
    {
        proof {
            use_type_invariant(self);
        }
        let id: u32 = ((self.priority & 0b111) as u32) << 26
            | ((self.extended_data_page & 0b1) as u32) << 25
            | ((self.data_page & 0b1) as u32) << 24
            | (self.pdu_format as u32) << 16
            | (self.pdu_specific as u32) << 8
            | (self.source_address as u32);
        proof {
            let p = self.priority;
            let e = self.extended_data_page;
            let d = self.data_page;
            let f = self.pdu_format;
            let s = self.pdu_specific;
            let a = self.source_address;
            assert(((p & 0b111) as u32) << 26 | ((e & 0b1) as u32) << 25 | ((d & 0b1) as u32)
                << 24 | (f as u32) << 16 | (s as u32) << 8 | (a as u32) <= 0x1FFF_FFFF)
                by (bit_vector);
        }
        Id::from_raw(id)
    }

    /// The PGN of this PDU, per the PDU1/PDU2 rule: for a PDU-format byte
    /// below 240 the PDU-specific byte is a destination address and does not
    /// enter the PGN; from 240 up it is a group extension and does.
    pub fn pgn(&self) -> (r: PGN)
        ensures
            r.spec_as_u32() == self.spec_pgn(),
    {
        proof {
            use_type_invariant(self);
        }
        let value: u32 = ((self.extended_data_page & 0b1) as u32) << 17
            | ((self.data_page & 0b1) as u32) << 16
            | (self.pdu_format as u32) << 8
            | if self.pdu_format < 240 { 0u32 } else { self.pdu_specific as u32 };
        proof {
            let e = self.extended_data_page;
            let d = self.data_page;
            let f = self.pdu_format;
            let s = self.pdu_specific;
            assert((((e & 1) as u32) << 17 | ((d & 1) as u32) << 16 | (f as u32) << 8 | (
            s as u32)) & 0xFFFFFF == (((e & 1) as u32) << 17 | ((d & 1) as u32) << 16 | (
            f as u32) << 8 | (s as u32)) && (((e & 1) as u32) << 17 | ((d & 1) as u32) << 16 | (
            f as u32) << 8 | 0u32) & 0xFFFFFF == (((e & 1) as u32) << 17 | ((d & 1) as u32)
                << 16 | (f as u32) << 8 | 0u32)) by (bit_vector);
        }
        PGN::new(value)
    }

    pub fn is_address_specific(&self, address: IsobusAddress) -> (r: bool)
        ensures
            r == self.spec_is_address_specific(address.0),
    {
        self.is_pdu1() && self.pdu_specific == address.0
    }

    pub fn is_address_global(&self) -> (r: bool)
        ensures
            r == self.spec_is_address_global(),
    {
        self.is_pdu2() || self.is_address_specific(IsobusAddress(ADDRESS_GLOBAL))
    }

    pub fn is_address_null(&self) -> (r: bool)
        ensures
            r == self.spec_is_address_specific(ADDRESS_NULL),
    {
        self.is_pdu1() && self.is_address_specific(IsobusAddress(ADDRESS_NULL))
    }

    /// Destination-specific format: PDU-format byte below 240.
    pub fn is_pdu1(&self) -> (r: bool)
        ensures
            r == self.spec_is_pdu1(),
    {
        self.pdu_format < 240
    }

    /// Broadcast format: PDU-format byte 240 or above.
    pub fn is_pdu2(&self) -> (r: bool)
        ensures
            r == !self.spec_is_pdu1(),
    {
        self.pdu_format >= 240
    }

    /// Build a Request PDU carrying the requested PGN in its three payload
    /// bytes.
    pub fn new_request(da: IsobusAddress, sa: IsobusAddress, pgn: PGN) -> (r: PDU)
        ensures
            r.spec_priority() == 6,
            r.spec_edp() == 0,
            r.spec_dp() == 0,
            r.spec_pf() == 234,
            r.spec_ps() == da.0,
            r.spec_sa() == sa.0,
            r.spec_data() == spec_pgn_bytes(pgn.spec_as_u32()),
            r.spec_data().len() == 3,
            crate::claim::spec_requested_pgn(r) == pgn.spec_as_u32(),
    {
        let bytes = pgn.as_bytes();
        let data: Vec<u8> = vec![bytes[0], bytes[1], bytes[2]];
        proof {
            assert(data@ =~= spec_pgn_bytes(pgn.spec_as_u32()));
        }
        PDU::new(6, 0, 0, 234, da.0, sa.0, data)
    }

    /// Pack this PDU into a single CAN frame; payloads beyond eight bytes are
    /// truncated.
    pub fn to_frame(&self) -> (r: CanFrame)
        ensures
            r.spec_id().spec_as_u32() == self.spec_id(),
            r.spec_data() == self.spec_data().take(
                if self.spec_data().len() <= 8 {
                    self.spec_data().len() as int
                } else {
                    8
                },
            ),
    {
        CanFrame::new(self.id(), self.data.as_slice())
    }

    /// Decode a CAN frame into a PDU by unpacking the identifier fields.
    pub fn from_frame(frame: &CanFrame) -> (r: PDU)
        ensures
            r.spec_priority() == spec_unpack_priority(frame.spec_id().spec_as_u32()),
            r.spec_edp() == spec_unpack_edp(frame.spec_id().spec_as_u32()),
            r.spec_dp() == spec_unpack_dp(frame.spec_id().spec_as_u32()),
            r.spec_pf() == spec_unpack_pf(frame.spec_id().spec_as_u32()),
            r.spec_ps() == spec_unpack_ps(frame.spec_id().spec_as_u32()),
            r.spec_sa() == spec_unpack_sa(frame.spec_id().spec_as_u32()),
            r.spec_data() == frame.spec_data(),
    {
        let id: u32 = frame.id().as_raw();
        let mut data: Vec<u8> = Vec::new();
        let frame_data = frame.data();
        let mut i: usize = 0;
        while i < frame_data.len()
            invariant
                i <= frame_data@.len(),
                data@ =~= frame_data@.take(i as int),
            decreases frame_data@.len() - i,
        {
            data.push(frame_data[i]);
            i = i + 1;
        }
        proof {
            assert(data@ =~= frame_data@);
            let v = id;
            assert((v >> 26 & 0b111) as u8 & 0b111 == (v >> 26 & 0b111) as u8 && (v >> 25
                & 0b1) as u8 & 0b1 == (v >> 25 & 0b1) as u8 && (v >> 24 & 0b1) as u8 & 0b1 == (v
                >> 24 & 0b1) as u8) by (bit_vector);
        }
        PDU::new(
            (id >> 26 & 0b111) as u8,
            (id >> 25 & 0b1) as u8,
            (id >> 24 & 0b1) as u8,
            (id >> 16 & 0xFF) as u8,
            (id >> 8 & 0xFF) as u8,
            (id & 0xFF) as u8,
            data,
        )
    }
}

impl PDU {
    /// Rebuild a PDU from a transported PGN and a reassembled payload: the
    /// PDU-specific byte is the given destination for a destination-specific
    /// PGN and the PGN's own low byte for a broadcast one.
    pub fn from_pgn_and_payload(
        pgn_value: u32,
        destination: IsobusAddress,
        source: IsobusAddress,
        data: Vec<u8>,
    ) -> (r: PDU)
        ensures
            r.spec_sa() == source.0,
            r.spec_data() == data@,
            r.spec_pf() == ((pgn_value >> 8) & 0xFF) as u8,
            r.spec_edp() == ((pgn_value >> 17) & 1) as u8,
            r.spec_dp() == ((pgn_value >> 16) & 1) as u8,
            (pgn_value >> 8) & 0xFF < 240 ==> r.spec_ps() == destination.0,
            (pgn_value >> 8) & 0xFF >= 240 ==> r.spec_ps() == (pgn_value & 0xFF) as u8,
            (pgn_value >> 8) & 0xFF >= 240 ==> r.spec_pgn() == pgn_value & 0x3FFFF,
            (pgn_value >> 8) & 0xFF < 240 ==> r.spec_pgn() == pgn_value & 0x3FF00,
    {
        let pf: u8 = ((pgn_value >> 8) & 0xFF) as u8;
        let edp: u8 = ((pgn_value >> 17) & 1) as u8;
        let dp: u8 = ((pgn_value >> 16) & 1) as u8;
        let ps: u8 = if pf < 240 {
            destination.0
        } else {
            (pgn_value & 0xFF) as u8
        };
        proof {
            let v = pgn_value;
            assert({
                &&& (v >> 17) & 1 <= 1 && (v >> 16) & 1 <= 1 && (v >> 8) & 0xFF <= 0xFF && v
                    & 0xFF <= 0xFF
                &&& (v >> 8) & 0xFF >= 240 ==> ((((v >> 17) & 1) as u8 & 1) as u32) << 17 | ((((
                v >> 16) & 1) as u8 & 1) as u32) << 16 | ((((v >> 8) & 0xFF) as u8) as u32) << 8
                    | (((v & 0xFF) as u8) as u32) == v & 0x3FFFF
                &&& (((((v >> 17) & 1) as u8) & 1) as u32) << 17 | ((((((v >> 16) & 1) as u8))
                    & 1) as u32) << 16 | ((((v >> 8) & 0xFF) as u8) as u32) << 8 | 0u32 == v
                    & 0x3FF00
            }) by (bit_vector);
        }
        PDU::new(7, edp, dp, pf, ps, source.0, data)
    }
}

impl Clone for PDU {
    /// A clone carries the same identifier fields and payload.
    fn clone(&self) -> (r: Self)
        ensures
            r.spec_priority() == self.spec_priority(),
            r.spec_edp() == self.spec_edp(),
            r.spec_dp() == self.spec_dp(),
            r.spec_pf() == self.spec_pf(),
            r.spec_ps() == self.spec_ps(),
            r.spec_sa() == self.spec_sa(),
            r.spec_data() == self.spec_data(),
    {
        proof {
            use_type_invariant(self);
        }
        let mut data: Vec<u8> = Vec::new();
        let mut i: usize = 0;
        while i < self.data.len()
            invariant
                i <= self.data@.len(),
                data@ =~= self.data@.take(i as int),
            decreases self.data@.len() - i,
        {
            data.push(self.data[i]);
            i = i + 1;
        }
        proof {
            assert(data@ =~= self.data@);
        }
        PDU {
            priority: self.priority,
            extended_data_page: self.extended_data_page,
            data_page: self.data_page,
            pdu_format: self.pdu_format,
            pdu_specific: self.pdu_specific,
            source_address: self.source_address,
            data,
        }
    }
}

impl Default for PDU {
    /// The default PDU has all identifier fields zero and no payload.
    fn default() -> (r: Self)
        ensures
            r.spec_priority() == 0,
            r.spec_edp() == 0,
            r.spec_dp() == 0,
            r.spec_pf() == 0,
            r.spec_ps() == 0,
            r.spec_sa() == 0,
            r.spec_data() == Seq::<u8>::empty(),
    {
        let data: Vec<u8> = Vec::new();
        proof {
            assert(data@ =~= Seq::<u8>::empty());
        }
        PDU::new(0, 0, 0, 0, 0, 0, data)
    }
}

/// Packing a PDU's fields into a 29-bit identifier and unpacking them again
/// loses nothing: the identifier round-trips every field whose stored form is
/// already masked to its width, as every constructed PDU's is.
pub proof fn lemma_id_round_trip(priority: u8, edp: u8, dp: u8, pf: u8, ps: u8, sa: u8)
    requires
        priority < 8,
        edp <= 1,
        dp <= 1,
    ensures
        spec_unpack_priority(spec_pack_id(priority, edp, dp, pf, ps, sa)) == priority,
        spec_unpack_edp(spec_pack_id(priority, edp, dp, pf, ps, sa)) == edp,
        spec_unpack_dp(spec_pack_id(priority, edp, dp, pf, ps, sa)) == dp,
        spec_unpack_pf(spec_pack_id(priority, edp, dp, pf, ps, sa)) == pf,
        spec_unpack_ps(spec_pack_id(priority, edp, dp, pf, ps, sa)) == ps,
        spec_unpack_sa(spec_pack_id(priority, edp, dp, pf, ps, sa)) == sa,
{
    let id = spec_pack_id(priority, edp, dp, pf, ps, sa);
    assert({
        let id = ((priority & 7) as u32) << 26 | ((edp & 1) as u32) << 25 | ((dp & 1) as u32)
            << 24 | (pf as u32) << 16 | (ps as u32) << 8 | (sa as u32);
        &&& priority < 8 ==> (id >> 26 & 0b111) as u8 == priority
        &&& edp <= 1 ==> (id >> 25 & 0b1) as u8 == edp
        &&& dp <= 1 ==> (id >> 24 & 0b1) as u8 == dp
        &&& (id >> 16 & 0xFF) as u8 == pf
        &&& (id >> 8 & 0xFF) as u8 == ps
        &&& (id & 0xFF) as u8 == sa
    }) by (bit_vector);
}

/// Round trip through a single CAN frame: a PDU with at most eight data
/// bytes, packed by `to_frame` and decoded by `from_frame`, comes back with
/// every field and every data byte unchanged.
pub proof fn lemma_frame_pdu_round_trip(pdu: PDU)
    requires
        pdu.spec_priority() < 8,
        pdu.spec_edp() <= 1,
        pdu.spec_dp() <= 1,
        pdu.spec_data().len() <= 8,
    ensures
        spec_unpack_priority(pdu.spec_id()) == pdu.spec_priority(),
        spec_unpack_edp(pdu.spec_id()) == pdu.spec_edp(),
        spec_unpack_dp(pdu.spec_id()) == pdu.spec_dp(),
        spec_unpack_pf(pdu.spec_id()) == pdu.spec_pf(),
        spec_unpack_ps(pdu.spec_id()) == pdu.spec_ps(),
        spec_unpack_sa(pdu.spec_id()) == pdu.spec_sa(),
        pdu.spec_data().take(pdu.spec_data().len() as int) == pdu.spec_data(),
{
    lemma_id_round_trip(
        pdu.spec_priority(),
        pdu.spec_edp(),
        pdu.spec_dp(),
        pdu.spec_pf(),
        pdu.spec_ps(),
        pdu.spec_sa(),
    );
    assert(pdu.spec_data().take(pdu.spec_data().len() as int) =~= pdu.spec_data());
}

} // verus!
