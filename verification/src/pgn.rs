//! Parameter Group Numbers: the 18-bit semantic opcode carried inside a
//! 29-bit extended CAN identifier.

use vstd::prelude::*;

verus! {

/// PGN of a Request message.
pub const PGN_REQUEST: u32 = 0x00EA00;

/// PGN of an Address Claimed message.
pub const PGN_ADDRESS_CLAIMED: u32 = 0x00EE00;

/// PGN of a Commanded Address message.
pub const PGN_COMMANDED_ADDRESS: u32 = 0x00FED8;

/// PGN of Transport Protocol connection management frames.
pub const PGN_TP_CM: u32 = 0x00EC00;

/// PGN of Transport Protocol data transfer frames.
pub const PGN_TP_DT: u32 = 0x00EB00;

/// PGN of Extended Transport Protocol connection management frames.
pub const PGN_ETP_CM: u32 = 0x00C800;

/// PGN of Extended Transport Protocol data transfer frames.
pub const PGN_ETP_DT: u32 = 0x00C700;

/// PGN of messages from the virtual terminal to an ECU.
pub const PGN_VT_TO_ECU: u32 = 0x00E600;

/// PGN of messages from an ECU to the virtual terminal.
pub const PGN_ECU_TO_VT: u32 = 0x00E700;

/// PGN of the Language Command message.
pub const PGN_LANGUAGE_COMMAND: u32 = 0x00FE0F;

/// PGN of the Time/Date message.
pub const PGN_TIME_DATE: u32 = 0x00FEE6;

/// PGN of the Required Tractor Facilities message.
pub const PGN_REQUIRED_TRACTOR_FACILITIES: u32 = 0x00FE08;

/// PGN of the Tractor Facility Response message.
pub const PGN_TRACTOR_FACILITY_RESPONSE: u32 = 0x00FE09;

/// PGN of the Working Set Member message.
pub const PGN_WORKING_SET_MEMBER: u32 = 0x00FE0C;

/// PGN of the Working Set Master message.
pub const PGN_WORKING_SET_MASTER: u32 = 0x00FE0D;

/// An 18-bit Parameter Group Number, stored in the low 24 bits of a `u32`.
#[derive(Clone, Copy, Debug, Default, PartialEq, Eq, Structural)]
pub struct PGN(u32);

impl PGN {
    /// The raw value; the type invariant keeps it below 2^24.
    pub closed spec fn spec_as_u32(self) -> u32 {
        self.0
    }

    #[verifier::type_invariant]
    closed spec fn inv(self) -> bool {
        self.0 < 0x1000000
    }

    pub fn new(value: u32) -> (r: PGN)
        ensures
            r.spec_as_u32() == value & 0xFFFFFF,
            value < 0x1000000 ==> r.spec_as_u32() == value,
    {
        proof {
            assert(value & 0xFFFFFF < 0x1000000 && (value < 0x1000000 ==> value & 0xFFFFFF
                == value)) by (bit_vector);
        }
        PGN(value & 0xFFFFFF)
    }

    /// Assemble a PGN from its three little-endian wire bytes.
    pub fn from_le_bytes(bytes: [u8; 3]) -> (r: PGN)
        ensures
            r.spec_as_u32() == bytes[0] + 0x100 * bytes[1] + 0x10000 * bytes[2],
    {
        let value: u32 = bytes[0] as u32 | (bytes[1] as u32) << 8 | (bytes[2] as u32) << 16;
        proof {
            let b0 = bytes[0];
            let b1 = bytes[1];
            let b2 = bytes[2];
            assert(b0 as u32 | (b1 as u32) << 8 | (b2 as u32) << 16
                == b0 + 0x100 * b1 + 0x10000 * b2) by (bit_vector);
            assert((b0 as u32 | (b1 as u32) << 8 | (b2 as u32) << 16) < 0x1000000)
                by (bit_vector);
        }
        PGN(value)
    }

    /// Assemble a PGN from the first three bytes of a vector.
    pub fn from_vec(bytes: Vec<u8>) -> (r: PGN)
        requires
            bytes@.len() >= 3,
        ensures
            r.spec_as_u32() == bytes@[0] + 0x100 * bytes@[1] + 0x10000 * bytes@[2],
    {
        Self::from_le_bytes([bytes[0], bytes[1], bytes[2]])
    }

    pub fn as_u32(&self) -> (r: u32)
        ensures
            r == self.spec_as_u32(),
    {
        self.0
    }

    /// The three little-endian wire bytes of this PGN.
    pub fn as_bytes(&self) -> (r: [u8; 3])
        ensures
            r[0] == (self.spec_as_u32() & 0xFF) as u8,
            r[1] == ((self.spec_as_u32() >> 8) & 0xFF) as u8,
            r[2] == ((self.spec_as_u32() >> 16) & 0xFF) as u8,
            self.spec_as_u32() == r[0] + 0x100 * r[1] + 0x10000 * r[2],
    {
        proof {
            use_type_invariant(self);
            let v = self.0;
            assert(v & 0xFF < 0x100 && (v >> 8) & 0xFF < 0x100 && (v >> 16) & 0xFF < 0x100)
                by (bit_vector);
            assert(v < 0x1000000 ==> v == (v & 0xFF) + 0x100 * ((v >> 8) & 0xFF)
                + 0x10000 * ((v >> 16) & 0xFF)) by (bit_vector);
        }
        let b0: u8 = (self.0 & 0xFF) as u8;
        let b1: u8 = ((self.0 >> 8) & 0xFF) as u8;
        let b2: u8 = ((self.0 >> 16) & 0xFF) as u8;
        [b0, b1, b2]
    }

    pub fn is_request(&self) -> (r: bool)
        ensures
            r == (self.spec_as_u32() == PGN_REQUEST),
    {
        self.0 == PGN_REQUEST
    }

    pub fn is_address_claimed(&self) -> (r: bool)
        ensures
            r == (self.spec_as_u32() == PGN_ADDRESS_CLAIMED),
    {
        self.0 == PGN_ADDRESS_CLAIMED
    }

    pub fn is_commanded_address(&self) -> (r: bool)
        ensures
            r == (self.spec_as_u32() == PGN_COMMANDED_ADDRESS),
    {
        self.0 == PGN_COMMANDED_ADDRESS
    }

    pub fn is_tp_cm(&self) -> (r: bool)
        ensures
            r == (self.spec_as_u32() == PGN_TP_CM),
    {
        self.0 == PGN_TP_CM
    }

    pub fn is_tp_dt(&self) -> (r: bool)
        ensures
            r == (self.spec_as_u32() == PGN_TP_DT),
    {
        self.0 == PGN_TP_DT
    }

    pub fn is_etp_cm(&self) -> (r: bool)
        ensures
            r == (self.spec_as_u32() == PGN_ETP_CM),
    {
        self.0 == PGN_ETP_CM
    }

    pub fn is_etp_dt(&self) -> (r: bool)
        ensures
            r == (self.spec_as_u32() == PGN_ETP_DT),
    {
        self.0 == PGN_ETP_DT
    }

    pub fn is_vt_to_ecu(&self) -> (r: bool)
        ensures
            r == (self.spec_as_u32() == PGN_VT_TO_ECU),
    {
        self.0 == PGN_VT_TO_ECU
    }

    pub fn is_ecu_to_vt(&self) -> (r: bool)
        ensures
            r == (self.spec_as_u32() == PGN_ECU_TO_VT),
    {
        self.0 == PGN_ECU_TO_VT
    }

    pub fn is_language_command(&self) -> (r: bool)
        ensures
            r == (self.spec_as_u32() == PGN_LANGUAGE_COMMAND),
    {
        self.0 == PGN_LANGUAGE_COMMAND
    }

    pub fn is_time_date(&self) -> (r: bool)
        ensures
            r == (self.spec_as_u32() == PGN_TIME_DATE),
    {
        self.0 == PGN_TIME_DATE
    }

    pub fn is_required_tractor_facilities(&self) -> (r: bool)
        ensures
            r == (self.spec_as_u32() == PGN_REQUIRED_TRACTOR_FACILITIES),
    {
        self.0 == PGN_REQUIRED_TRACTOR_FACILITIES
    }

    pub fn is_tractor_facility_response(&self) -> (r: bool)
        ensures
            r == (self.spec_as_u32() == PGN_TRACTOR_FACILITY_RESPONSE),
    {
        self.0 == PGN_TRACTOR_FACILITY_RESPONSE
    }

    pub fn is_working_set_member(&self) -> (r: bool)
        ensures
            r == (self.spec_as_u32() == PGN_WORKING_SET_MEMBER),
    {
        self.0 == PGN_WORKING_SET_MEMBER
    }

    pub fn is_working_set_master(&self) -> (r: bool)
        ensures
            r == (self.spec_as_u32() == PGN_WORKING_SET_MASTER),
    {
        self.0 == PGN_WORKING_SET_MASTER
    }
}

} // verus!
