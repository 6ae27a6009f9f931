//! The PDUs of address-claim network management: requests for claimed
//! addresses, claims, refusals and commanded addresses.

use vstd::prelude::*;

use crate::isobus::IsobusAddress;
use crate::isobus::ADDRESS_GLOBAL;
use crate::isobus::ADDRESS_NULL;
use crate::name::spec_le_bytes;
use crate::name::Name;
use crate::pdu::spec_padded_byte;
use crate::pdu::PDU;
use crate::pgn::PGN;
use crate::pgn::PGN_ADDRESS_CLAIMED;
use crate::pgn::PGN_COMMANDED_ADDRESS;
use crate::pgn::PGN_REQUEST;

verus! {

/// The PGN named in the three payload bytes of a Request.
pub open spec fn spec_requested_pgn(p: PDU) -> int {
    spec_padded_byte(p, 0) + 0x100 * spec_padded_byte(p, 1) + 0x10000 * spec_padded_byte(p, 2)
}

impl PDU {
    /// Build a Request for the Address Claimed PGN.
    pub fn new_request_for_address_claimed(da: IsobusAddress, sa: IsobusAddress) -> (r: PDU)
        ensures
            r.spec_pgn() == PGN_REQUEST,
            r.spec_ps() == da.0,
            r.spec_sa() == sa.0,
            r.spec_data().len() == 3,
            spec_requested_pgn(r) == PGN_ADDRESS_CLAIMED,
    {
        let target = PGN::new(PGN_ADDRESS_CLAIMED);
        let r = PDU::new_request(da, sa, target);
        proof {
            crate::pdu::lemma_pgn_of_value(0, 0, 234, da.0);
        }
        r
    }

    /// Whether this is a Request naming the Address Claimed PGN.
    pub fn is_request_for_address_claimed(&self) -> (r: bool)
        ensures
            r == (self.spec_pgn() == PGN_REQUEST && spec_requested_pgn(*self)
                == PGN_ADDRESS_CLAIMED),
    {
        if !self.pgn().is_request() {
            return false;
        }
        let data = self.data(3);
        PGN::from_vec(data).is_address_claimed()
    }

    /// Build an Address Claimed message announcing `sa` for `name`, sent to
    /// the global address.
    pub fn new_address_claimed(name: Name, sa: IsobusAddress) -> (r: PDU)
        ensures
            r.spec_pgn() == PGN_ADDRESS_CLAIMED,
            r.spec_ps() == ADDRESS_GLOBAL,
            r.spec_sa() == sa.0,
            r.spec_data() == spec_le_bytes(name.spec_value()),
    {
        let r = PDU::new(6, 0, 0, 238, ADDRESS_GLOBAL, sa.0, name.as_vec());
        proof {
            crate::pdu::lemma_pgn_of_value(0, 0, 238, ADDRESS_GLOBAL);
        }
        r
    }

    /// Whether this is an Address Claimed message from a node that holds an
    /// address (source not null).
    pub fn is_address_claimed(&self) -> (r: bool)
        ensures
            r == (self.spec_pgn() == PGN_ADDRESS_CLAIMED && self.spec_sa() != ADDRESS_NULL),
    {
        self.pgn().is_address_claimed() && self.source_address().as_u8() != ADDRESS_NULL
    }

    /// Build a Cannot Claim Source Address message: an Address Claimed PDU
    /// whose source is the null address.
    pub fn new_cannot_claim_source_address(name: Name) -> (r: PDU)
        ensures
            r.spec_pgn() == PGN_ADDRESS_CLAIMED,
            r.spec_ps() == ADDRESS_GLOBAL,
            r.spec_sa() == ADDRESS_NULL,
            r.spec_data() == spec_le_bytes(name.spec_value()),
    {
        let r = PDU::new(6, 0, 0, 238, ADDRESS_GLOBAL, ADDRESS_NULL, name.as_vec());
        proof {
            crate::pdu::lemma_pgn_of_value(0, 0, 238, ADDRESS_GLOBAL);
        }
        r
    }

    /// Whether this is a Cannot Claim Source Address message.
    pub fn is_cannot_claim_source_address(&self) -> (r: bool)
        ensures
            r == (self.spec_pgn() == PGN_ADDRESS_CLAIMED && self.spec_sa() == ADDRESS_NULL),
    {
        self.pgn().is_address_claimed() && self.source_address().as_u8() == ADDRESS_NULL
    }

    /// Build a Commanded Address message.
    pub fn new_commanded_address(sa: IsobusAddress) -> (r: PDU)
        ensures
            r.spec_pgn() == PGN_COMMANDED_ADDRESS,
            r.spec_sa() == sa.0,
    {
        let data: Vec<u8> = vec![0xE0u8, 0x15u8, 0x41u8, 0x0Cu8, 0x00u8, 0x80u8, 0x32u8, 0xA0u8, 0x88u8];
        let r = PDU::new(6, 0, 0, 254, 216, sa.0, data);
        proof {
            crate::pdu::lemma_pgn_of_value(0, 0, 254, 216);
        }
        r
    }

    /// Whether this is a Commanded Address message.
    pub fn is_commanded_address(&self) -> (r: bool)
        ensures
            r == (self.spec_pgn() == PGN_COMMANDED_ADDRESS),
    {
        self.pgn().is_commanded_address()
    }
}

} // verus!
