//! The connection-management and data-transfer PDUs of the two segmented
//! transport protocols (TP and ETP).

use vstd::prelude::*;

use crate::pdu::spec_padded_byte;
use crate::isobus::IsobusAddress;
use crate::isobus::ADDRESS_GLOBAL;
use crate::pdu::lemma_pgn_of_value;
use crate::pdu::spec_pgn_bytes;
use crate::pdu::PDU;
use crate::pgn::PGN;
use crate::pgn::PGN_ETP_CM;
use crate::pgn::PGN_ETP_DT;
use crate::pgn::PGN_TP_CM;
use crate::pgn::PGN_TP_DT;

verus! {

/// TP-CM control byte of a Request To Send.
pub const TP_CTRL_RTS: u8 = 16;

/// TP-CM control byte of a Clear To Send.
pub const TP_CTRL_CTS: u8 = 17;

/// TP-CM control byte of an End of Message Acknowledge.
pub const TP_CTRL_EOMA: u8 = 19;

/// TP-CM control byte of a Broadcast Announce Message.
pub const TP_CTRL_BAM: u8 = 32;

/// ETP-CM control byte of a Request To Send.
pub const ETP_CTRL_RTS: u8 = 20;

/// ETP-CM control byte of a Clear To Send.
pub const ETP_CTRL_CTS: u8 = 21;

/// ETP-CM control byte of a Data Packet Offset.
pub const ETP_CTRL_DPO: u8 = 22;

/// ETP-CM control byte of an End of Message Acknowledge.
pub const ETP_CTRL_EOMA: u8 = 23;

/// Control byte of a Connection Abort, shared by TP and ETP.
pub const CTRL_ABORT: u8 = 255;

/// The eight data bytes of a connection-management frame: a control byte,
/// four parameter bytes, and the three little-endian bytes of the PGN the
/// session transports.
pub open spec fn spec_cm_data(ctrl: u8, b1: u8, b2: u8, b3: u8, b4: u8, pgn: u32) -> Seq<u8> {
    seq![ctrl, b1, b2, b3, b4] + spec_pgn_bytes(pgn)
}

/// The eight data bytes of a data-transfer frame: a sequence number and
/// seven payload bytes, padded with `0xFF` past the given slice.
pub open spec fn spec_dt_data(sequence: u8, d: Seq<u8>) -> Seq<u8> {
    seq![sequence] + Seq::new(7, |i: int| if i < d.len() { d[i] } else { 0xFFu8 })
}

/// Reasons a node may abort a TP session.
#[derive(Debug, PartialEq, Eq, Structural)]
pub enum TpAbortReasons {
    Reserved,
    AlreadyConnected,
    NoResources,
    Timeout,
    DtInProgress,
    RetransmitLimitReached,
    UnexpectedDt,
    BadSequenceNumber,
    DuplicateSequenceNumber,
    MessageToLarge,
    Other,
}

impl TpAbortReasons {
    /// The wire code of this reason.
    pub open spec fn spec_code(self) -> u8 {
        match self {
            TpAbortReasons::Reserved => 0,
            TpAbortReasons::AlreadyConnected => 1,
            TpAbortReasons::NoResources => 2,
            TpAbortReasons::Timeout => 3,
            TpAbortReasons::DtInProgress => 4,
            TpAbortReasons::RetransmitLimitReached => 5,
            TpAbortReasons::UnexpectedDt => 6,
            TpAbortReasons::BadSequenceNumber => 7,
            TpAbortReasons::DuplicateSequenceNumber => 8,
            TpAbortReasons::MessageToLarge => 9,
            TpAbortReasons::Other => 250,
        }
    }

    pub fn as_u8(&self) -> (r: u8)
        ensures
            r == self.spec_code(),
    {
        match self {
            TpAbortReasons::Reserved => 0,
            TpAbortReasons::AlreadyConnected => 1,
            TpAbortReasons::NoResources => 2,
            TpAbortReasons::Timeout => 3,
            TpAbortReasons::DtInProgress => 4,
            TpAbortReasons::RetransmitLimitReached => 5,
            TpAbortReasons::UnexpectedDt => 6,
            TpAbortReasons::BadSequenceNumber => 7,
            TpAbortReasons::DuplicateSequenceNumber => 8,
            TpAbortReasons::MessageToLarge => 9,
            TpAbortReasons::Other => 250,
        }
    }

    /// Decode a wire code; codes without a listed meaning map to `Other`.
    pub fn from_u8(value: u8) -> (r: TpAbortReasons)
        ensures
            value <= 9 ==> r.spec_code() == value,
            value > 9 ==> r == TpAbortReasons::Other,
    {
        match value {
            0 => Self::Reserved,
            1 => Self::AlreadyConnected,
            2 => Self::NoResources,
            3 => Self::Timeout,
            4 => Self::DtInProgress,
            5 => Self::RetransmitLimitReached,
            6 => Self::UnexpectedDt,
            7 => Self::BadSequenceNumber,
            8 => Self::DuplicateSequenceNumber,
            9 => Self::MessageToLarge,
            _ => Self::Other,
        }
    }
}

/// Reasons a node may abort an ETP session.
#[derive(Debug, PartialEq, Eq, Structural)]
pub enum EtpAbortReasons {
    Reserved,
    AlreadyConnected,
    NoResources,
    Timeout,
    DtInProgress,
    RetransmitLimitReached,
    UnexpectedDt,
    BadSequenceNumber,
    DuplicateSequenceNumber,
    MessageToLarge,
    Other,
}

impl EtpAbortReasons {
    /// The wire code of this reason.
    pub open spec fn spec_code(self) -> u8 {
        match self {
            EtpAbortReasons::Reserved => 0,
            EtpAbortReasons::AlreadyConnected => 1,
            EtpAbortReasons::NoResources => 2,
            EtpAbortReasons::Timeout => 3,
            EtpAbortReasons::DtInProgress => 4,
            EtpAbortReasons::RetransmitLimitReached => 5,
            EtpAbortReasons::UnexpectedDt => 6,
            EtpAbortReasons::BadSequenceNumber => 7,
            EtpAbortReasons::DuplicateSequenceNumber => 8,
            EtpAbortReasons::MessageToLarge => 9,
            EtpAbortReasons::Other => 250,
        }
    }

    pub fn as_u8(&self) -> (r: u8)
        ensures
            r == self.spec_code(),
    {
        match self {
            EtpAbortReasons::Reserved => 0,
            EtpAbortReasons::AlreadyConnected => 1,
            EtpAbortReasons::NoResources => 2,
            EtpAbortReasons::Timeout => 3,
            EtpAbortReasons::DtInProgress => 4,
            EtpAbortReasons::RetransmitLimitReached => 5,
            EtpAbortReasons::UnexpectedDt => 6,
            EtpAbortReasons::BadSequenceNumber => 7,
            EtpAbortReasons::DuplicateSequenceNumber => 8,
            EtpAbortReasons::MessageToLarge => 9,
            EtpAbortReasons::Other => 250,
        }
    }

    /// Decode a wire code; codes without a listed meaning map to `Other`.
    pub fn from_u8(value: u8) -> (r: EtpAbortReasons)
        ensures
            value <= 9 ==> r.spec_code() == value,
            value > 9 ==> r == EtpAbortReasons::Other,
    {
        match value {
            0 => Self::Reserved,
            1 => Self::AlreadyConnected,
            2 => Self::NoResources,
            3 => Self::Timeout,
            4 => Self::DtInProgress,
            5 => Self::RetransmitLimitReached,
            6 => Self::UnexpectedDt,
            7 => Self::BadSequenceNumber,
            8 => Self::DuplicateSequenceNumber,
            9 => Self::MessageToLarge,
            _ => Self::Other,
        }
    }
}

impl PDU {
    pub fn is_tp_connection_management(&self) -> (r: bool)
        ensures
            r == (self.spec_pgn() == PGN_TP_CM),
    {
        self.pgn().is_tp_cm()
    }

    /// Build a TP Request To Send announcing a transfer of the given byte and
    /// packet counts for `message_pgn`.
    pub fn new_tp_request_to_send(
        number_of_bytes: u16,
        number_of_packets: u8,
        message_pgn: PGN,
        da: IsobusAddress,
        sa: IsobusAddress,
    ) -> (r: PDU)
        ensures
            r.spec_pgn() == PGN_TP_CM,
            r.spec_ps() == da.0,
            r.spec_sa() == sa.0,
            r.spec_data() == spec_cm_data(
                TP_CTRL_RTS,
                (number_of_bytes & 0xFF) as u8,
                (number_of_bytes >> 8) as u8,
                number_of_packets,
                0x10,
                message_pgn.spec_as_u32(),
            ),
    {
        proof {
            assert(number_of_bytes >> 8 <= 0xFF) by (bit_vector);
            lemma_pgn_of_value(0, 0, 236, da.0);
        }
        let pgn_bytes = message_pgn.as_bytes();
        let data: Vec<u8> = vec![
            TP_CTRL_RTS,
            (number_of_bytes & 0xFF) as u8,
            (number_of_bytes >> 8) as u8,
            number_of_packets,
            0x10,
            pgn_bytes[0],
            pgn_bytes[1],
            pgn_bytes[2],
        ];
        proof {
            assert(data@ =~= spec_cm_data(
                TP_CTRL_RTS,
                (number_of_bytes & 0xFF) as u8,
                (number_of_bytes >> 8) as u8,
                number_of_packets,
                0x10,
                message_pgn.spec_as_u32(),
            ));
        }
        PDU::new(7, 0, 0, 236, da.0, sa.0, data)
    }

    pub fn is_tp_request_to_send(&self) -> (r: bool)
        ensures
            r == (self.spec_pgn() == PGN_TP_CM && spec_padded_byte(*self, 0) == TP_CTRL_RTS),
    {
        self.is_tp_connection_management() && self.first_byte() == TP_CTRL_RTS
    }

    /// Build a TP Clear To Send granting `number_of_packets` starting at
    /// `next_packet_number`.
    pub fn new_tp_clear_to_send(
        number_of_packets: u8,
        next_packet_number: u8,
        message_pgn: PGN,
        da: IsobusAddress,
        sa: IsobusAddress,
    ) -> (r: PDU)
        ensures
            r.spec_pgn() == PGN_TP_CM,
            r.spec_ps() == da.0,
            r.spec_sa() == sa.0,
            r.spec_data() == spec_cm_data(
                TP_CTRL_CTS,
                number_of_packets,
                next_packet_number,
                0xFF,
                0xFF,
                message_pgn.spec_as_u32(),
            ),
    {
        proof {
            lemma_pgn_of_value(0, 0, 236, da.0);
        }
        let pgn_bytes = message_pgn.as_bytes();
        let data: Vec<u8> = vec![
            TP_CTRL_CTS,
            number_of_packets,
            next_packet_number,
            0xFF,
            0xFF,
            pgn_bytes[0],
            pgn_bytes[1],
            pgn_bytes[2],
        ];
        proof {
            assert(data@ =~= spec_cm_data(
                TP_CTRL_CTS,
                number_of_packets,
                next_packet_number,
                0xFF,
                0xFF,
                message_pgn.spec_as_u32(),
            ));
        }
        PDU::new(7, 0, 0, 236, da.0, sa.0, data)
    }

    pub fn is_tp_clear_to_send(&self) -> (r: bool)
        ensures
            r == (self.spec_pgn() == PGN_TP_CM && spec_padded_byte(*self, 0) == TP_CTRL_CTS),
    {
        self.is_tp_connection_management() && self.first_byte() == TP_CTRL_CTS
    }

    /// Build a TP End of Message Acknowledge closing a finished transfer.
    pub fn new_tp_end_of_message_acknowledge(
        number_of_bytes: u16,
        number_of_packets: u8,
        message_pgn: PGN,
        da: IsobusAddress,
        sa: IsobusAddress,
    ) -> (r: PDU)
        ensures
            r.spec_pgn() == PGN_TP_CM,
            r.spec_ps() == da.0,
            r.spec_sa() == sa.0,
            r.spec_data() == spec_cm_data(
                TP_CTRL_EOMA,
                (number_of_bytes & 0xFF) as u8,
                (number_of_bytes >> 8) as u8,
                number_of_packets,
                0xFF,
                message_pgn.spec_as_u32(),
            ),
    {
        proof {
            assert(number_of_bytes >> 8 <= 0xFF) by (bit_vector);
            lemma_pgn_of_value(0, 0, 236, da.0);
        }
        let pgn_bytes = message_pgn.as_bytes();
        let data: Vec<u8> = vec![
            TP_CTRL_EOMA,
            (number_of_bytes & 0xFF) as u8,
            (number_of_bytes >> 8) as u8,
            number_of_packets,
            0xFF,
            pgn_bytes[0],
            pgn_bytes[1],
            pgn_bytes[2],
        ];
        proof {
            assert(data@ =~= spec_cm_data(
                TP_CTRL_EOMA,
                (number_of_bytes & 0xFF) as u8,
                (number_of_bytes >> 8) as u8,
                number_of_packets,
                0xFF,
                message_pgn.spec_as_u32(),
            ));
        }
        PDU::new(7, 0, 0, 236, da.0, sa.0, data)
    }

    pub fn is_tp_end_of_message_acknowledge(&self) -> (r: bool)
        ensures
            r == (self.spec_pgn() == PGN_TP_CM && spec_padded_byte(*self, 0) == TP_CTRL_EOMA),
    {
        self.is_tp_connection_management() && self.first_byte() == TP_CTRL_EOMA
    }

    /// Build a TP Broadcast Announce Message opening an unconfirmed transfer
    /// to the global address.
    pub fn new_tp_broadcast_announce_message(
        number_of_bytes: u16,
        number_of_packets: u8,
        message_pgn: PGN,
        sa: IsobusAddress,
    ) -> (r: PDU)
        ensures
            r.spec_pgn() == PGN_TP_CM,
            r.spec_ps() == ADDRESS_GLOBAL,
            r.spec_sa() == sa.0,
            r.spec_data() == spec_cm_data(
                TP_CTRL_BAM,
                (number_of_bytes & 0xFF) as u8,
                (number_of_bytes >> 8) as u8,
                number_of_packets,
                0xFF,
                message_pgn.spec_as_u32(),
            ),
    {
        proof {
            assert(number_of_bytes >> 8 <= 0xFF) by (bit_vector);
            lemma_pgn_of_value(0, 0, 236, ADDRESS_GLOBAL);
        }
        let pgn_bytes = message_pgn.as_bytes();
        let data: Vec<u8> = vec![
            TP_CTRL_BAM,
            (number_of_bytes & 0xFF) as u8,
            (number_of_bytes >> 8) as u8,
            number_of_packets,
            0xFF,
            pgn_bytes[0],
            pgn_bytes[1],
            pgn_bytes[2],
        ];
        proof {
            assert(data@ =~= spec_cm_data(
                TP_CTRL_BAM,
                (number_of_bytes & 0xFF) as u8,
                (number_of_bytes >> 8) as u8,
                number_of_packets,
                0xFF,
                message_pgn.spec_as_u32(),
            ));
        }
        PDU::new(7, 0, 0, 236, ADDRESS_GLOBAL, sa.0, data)
    }

    pub fn is_tp_broadcast_announce_message(&self) -> (r: bool)
        ensures
            r == (self.spec_pgn() == PGN_TP_CM && spec_padded_byte(*self, 0) == TP_CTRL_BAM),
    {
        self.is_tp_connection_management() && self.first_byte() == TP_CTRL_BAM
    }

    /// Build a TP Connection Abort carrying the given reason.
    pub fn new_tp_connection_abort(
        reason: TpAbortReasons,
        message_pgn: PGN,
        da: IsobusAddress,
        sa: IsobusAddress,
    ) -> (r: PDU)
        ensures
            r.spec_pgn() == PGN_TP_CM,
            r.spec_ps() == da.0,
            r.spec_sa() == sa.0,
            r.spec_data() == spec_cm_data(
                CTRL_ABORT,
                reason.spec_code(),
                0xFF,
                0xFF,
                0xFF,
                message_pgn.spec_as_u32(),
            ),
    {
        proof {
            lemma_pgn_of_value(0, 0, 236, da.0);
        }
        let pgn_bytes = message_pgn.as_bytes();
        let data: Vec<u8> = vec![
            CTRL_ABORT,
            reason.as_u8(),
            0xFF,
            0xFF,
            0xFF,
            pgn_bytes[0],
            pgn_bytes[1],
            pgn_bytes[2],
        ];
        proof {
            assert(data@ =~= spec_cm_data(
                CTRL_ABORT,
                reason.spec_code(),
                0xFF,
                0xFF,
                0xFF,
                message_pgn.spec_as_u32(),
            ));
        }
        PDU::new(7, 0, 0, 236, da.0, sa.0, data)
    }

    pub fn is_tp_connection_abort(&self) -> (r: bool)
        ensures
            r == (self.spec_pgn() == PGN_TP_CM && spec_padded_byte(*self, 0) == CTRL_ABORT),
    {
        self.is_tp_connection_management() && self.first_byte() == CTRL_ABORT
    }

    /// Build a TP Data Transfer frame: a sequence number followed by up to
    /// seven payload bytes, padded with `0xFF`.
    pub fn new_tp_data_transfer(
        sequence_number: u8,
        data: &[u8],
        da: IsobusAddress,
        sa: IsobusAddress,
    ) -> (r: PDU)
        requires
            data@.len() <= 7,
        ensures
            r.spec_pgn() == PGN_TP_DT,
            r.spec_ps() == da.0,
            r.spec_sa() == sa.0,
            r.spec_data() == spec_dt_data(sequence_number, data@),
    {
        proof {
            lemma_pgn_of_value(0, 0, 235, da.0);
        }
        let mut payload: Vec<u8> = Vec::new();
        payload.push(sequence_number);
        let mut i: usize = 0;
        while i < 7
            invariant
                i <= 7,
                data@.len() <= 7,
                payload@.len() == i + 1,
                payload@[0] == sequence_number,
                forall|k: int|
                    1 <= k <= i ==> payload@[k] == (if k - 1 < data@.len() {
                        data@[k - 1]
                    } else {
                        0xFFu8
                    }),
            decreases 7 - i,
        {
            if i < data.len() {
                payload.push(data[i]);
            } else {
                payload.push(0xFF);
            }
            i = i + 1;
        }
        proof {
            assert(payload@ =~= spec_dt_data(sequence_number, data@));
        }
        PDU::new(7, 0, 0, 235, da.0, sa.0, payload)
    }

    pub fn is_tp_data_transfer(&self) -> (r: bool)
        ensures
            r == (self.spec_pgn() == PGN_TP_DT),
    {
        self.pgn().is_tp_dt()
    }

    pub fn is_etp_connection_management(&self) -> (r: bool)
        ensures
            r == (self.spec_pgn() == PGN_ETP_CM),
    {
        self.pgn().is_etp_cm()
    }

    /// Build an ETP Request To Send announcing a transfer of
    /// `number_of_bytes` for `message_pgn`.
    pub fn new_etp_request_to_send(
        number_of_bytes: u32,
        message_pgn: PGN,
        da: IsobusAddress,
        sa: IsobusAddress,
    ) -> (r: PDU)
        ensures
            r.spec_pgn() == PGN_ETP_CM,
            r.spec_ps() == da.0,
            r.spec_sa() == sa.0,
            r.spec_data() == spec_cm_data(
                ETP_CTRL_RTS,
                (number_of_bytes & 0xFF) as u8,
                ((number_of_bytes >> 8) & 0xFF) as u8,
                ((number_of_bytes >> 16) & 0xFF) as u8,
                (number_of_bytes >> 24) as u8,
                message_pgn.spec_as_u32(),
            ),
    {
        proof {
            assert(number_of_bytes >> 24 <= 0xFF && (number_of_bytes >> 8) & 0xFF <= 0xFF && (
            number_of_bytes >> 16) & 0xFF <= 0xFF) by (bit_vector);
            lemma_pgn_of_value(0, 0, 200, da.0);
        }
        let pgn_bytes = message_pgn.as_bytes();
        let data: Vec<u8> = vec![
            ETP_CTRL_RTS,
            (number_of_bytes & 0xFF) as u8,
            ((number_of_bytes >> 8) & 0xFF) as u8,
            ((number_of_bytes >> 16) & 0xFF) as u8,
            (number_of_bytes >> 24) as u8,
            pgn_bytes[0],
            pgn_bytes[1],
            pgn_bytes[2],
        ];
        proof {
            assert(data@ =~= spec_cm_data(
                ETP_CTRL_RTS,
                (number_of_bytes & 0xFF) as u8,
                ((number_of_bytes >> 8) & 0xFF) as u8,
                ((number_of_bytes >> 16) & 0xFF) as u8,
                (number_of_bytes >> 24) as u8,
                message_pgn.spec_as_u32(),
            ));
        }
        PDU::new(7, 0, 0, 200, da.0, sa.0, data)
    }

    pub fn is_etp_request_to_send(&self) -> (r: bool)
        ensures
            r == (self.spec_pgn() == PGN_ETP_CM && spec_padded_byte(*self, 0) == ETP_CTRL_RTS),
    {
        self.is_etp_connection_management() && self.first_byte() == ETP_CTRL_RTS
    }

    /// Build an ETP Clear To Send granting `number_of_packets` starting at
    /// the given packet number.
    pub fn new_etp_clear_to_send(
        number_of_packets: u8,
        next_packet_number: u32,
        message_pgn: PGN,
        da: IsobusAddress,
        sa: IsobusAddress,
    ) -> (r: PDU)
        ensures
            r.spec_pgn() == PGN_ETP_CM,
            r.spec_ps() == da.0,
            r.spec_sa() == sa.0,
            r.spec_data() == spec_cm_data(
                ETP_CTRL_CTS,
                number_of_packets,
                (next_packet_number & 0xFF) as u8,
                ((next_packet_number >> 8) & 0xFF) as u8,
                ((next_packet_number >> 16) & 0xFF) as u8,
                message_pgn.spec_as_u32(),
            ),
    {
        proof {
            lemma_pgn_of_value(0, 0, 200, da.0);
        }
        let pgn_bytes = message_pgn.as_bytes();
        let data: Vec<u8> = vec![
            ETP_CTRL_CTS,
            number_of_packets,
            (next_packet_number & 0xFF) as u8,
            ((next_packet_number >> 8) & 0xFF) as u8,
            ((next_packet_number >> 16) & 0xFF) as u8,
            pgn_bytes[0],
            pgn_bytes[1],
            pgn_bytes[2],
        ];
        proof {
            assert(data@ =~= spec_cm_data(
                ETP_CTRL_CTS,
                number_of_packets,
                (next_packet_number & 0xFF) as u8,
                ((next_packet_number >> 8) & 0xFF) as u8,
                ((next_packet_number >> 16) & 0xFF) as u8,
                message_pgn.spec_as_u32(),
            ));
        }
        PDU::new(7, 0, 0, 200, da.0, sa.0, data)
    }

    pub fn is_etp_clear_to_send(&self) -> (r: bool)
        ensures
            r == (self.spec_pgn() == PGN_ETP_CM && spec_padded_byte(*self, 0) == ETP_CTRL_CTS),
    {
        self.is_etp_connection_management() && self.first_byte() == ETP_CTRL_CTS
    }

    /// Build an ETP Data Packet Offset frame declaring where the next run of
    /// data-transfer frames starts.
    pub fn new_etp_data_packet_offset(
        number_of_packets: u8,
        offset: u32,
        message_pgn: PGN,
        da: IsobusAddress,
        sa: IsobusAddress,
    ) -> (r: PDU)
        ensures
            r.spec_pgn() == PGN_ETP_CM,
            r.spec_ps() == da.0,
            r.spec_sa() == sa.0,
            r.spec_data() == spec_cm_data(
                ETP_CTRL_DPO,
                number_of_packets,
                (offset & 0xFF) as u8,
                ((offset >> 8) & 0xFF) as u8,
                ((offset >> 16) & 0xFF) as u8,
                message_pgn.spec_as_u32(),
            ),
    {
        proof {
            lemma_pgn_of_value(0, 0, 200, da.0);
        }
        let pgn_bytes = message_pgn.as_bytes();
        let data: Vec<u8> = vec![
            ETP_CTRL_DPO,
            number_of_packets,
            (offset & 0xFF) as u8,
            ((offset >> 8) & 0xFF) as u8,
            ((offset >> 16) & 0xFF) as u8,
            pgn_bytes[0],
            pgn_bytes[1],
            pgn_bytes[2],
        ];
        proof {
            assert(data@ =~= spec_cm_data(
                ETP_CTRL_DPO,
                number_of_packets,
                (offset & 0xFF) as u8,
                ((offset >> 8) & 0xFF) as u8,
                ((offset >> 16) & 0xFF) as u8,
                message_pgn.spec_as_u32(),
            ));
        }
        PDU::new(7, 0, 0, 200, da.0, sa.0, data)
    }

    pub fn is_etp_data_packet_offset(&self) -> (r: bool)
        ensures
            r == (self.spec_pgn() == PGN_ETP_CM && spec_padded_byte(*self, 0) == ETP_CTRL_DPO),
    {
        self.is_etp_connection_management() && self.first_byte() == ETP_CTRL_DPO
    }

    /// Build an ETP End of Message Acknowledge closing a finished transfer.
    pub fn new_etp_end_of_message_acknowledge(
        number_of_bytes: u32,
        message_pgn: PGN,
        da: IsobusAddress,
        sa: IsobusAddress,
    ) -> (r: PDU)
        ensures
            r.spec_pgn() == PGN_ETP_CM,
            r.spec_ps() == da.0,
            r.spec_sa() == sa.0,
            r.spec_data() == spec_cm_data(
                ETP_CTRL_EOMA,
                (number_of_bytes & 0xFF) as u8,
                ((number_of_bytes >> 8) & 0xFF) as u8,
                ((number_of_bytes >> 16) & 0xFF) as u8,
                (number_of_bytes >> 24) as u8,
                message_pgn.spec_as_u32(),
            ),
    {
        proof {
            assert(number_of_bytes >> 24 <= 0xFF) by (bit_vector);
            lemma_pgn_of_value(0, 0, 200, da.0);
        }
        let pgn_bytes = message_pgn.as_bytes();
        let data: Vec<u8> = vec![
            ETP_CTRL_EOMA,
            (number_of_bytes & 0xFF) as u8,
            ((number_of_bytes >> 8) & 0xFF) as u8,
            ((number_of_bytes >> 16) & 0xFF) as u8,
            (number_of_bytes >> 24) as u8,
            pgn_bytes[0],
            pgn_bytes[1],
            pgn_bytes[2],
        ];
        proof {
            assert(data@ =~= spec_cm_data(
                ETP_CTRL_EOMA,
                (number_of_bytes & 0xFF) as u8,
                ((number_of_bytes >> 8) & 0xFF) as u8,
                ((number_of_bytes >> 16) & 0xFF) as u8,
                (number_of_bytes >> 24) as u8,
                message_pgn.spec_as_u32(),
            ));
        }
        PDU::new(7, 0, 0, 200, da.0, sa.0, data)
    }

    pub fn is_etp_end_of_message_acknowledge(&self) -> (r: bool)
        ensures
            r == (self.spec_pgn() == PGN_ETP_CM && spec_padded_byte(*self, 0) == ETP_CTRL_EOMA),
    {
        self.is_etp_connection_management() && self.first_byte() == ETP_CTRL_EOMA
    }

    /// Build an ETP Connection Abort carrying the given reason.
    pub fn new_etp_connection_abort(
        reason: EtpAbortReasons,
        message_pgn: PGN,
        da: IsobusAddress,
        sa: IsobusAddress,
    ) -> (r: PDU)
        ensures
            r.spec_pgn() == PGN_ETP_CM,
            r.spec_ps() == da.0,
            r.spec_sa() == sa.0,
            r.spec_data() == spec_cm_data(
                CTRL_ABORT,
                reason.spec_code(),
                0xFF,
                0xFF,
                0xFF,
                message_pgn.spec_as_u32(),
            ),
    {
        proof {
            lemma_pgn_of_value(0, 0, 200, da.0);
        }
        let pgn_bytes = message_pgn.as_bytes();
        let data: Vec<u8> = vec![
            CTRL_ABORT,
            reason.as_u8(),
            0xFF,
            0xFF,
            0xFF,
            pgn_bytes[0],
            pgn_bytes[1],
            pgn_bytes[2],
        ];
        proof {
            assert(data@ =~= spec_cm_data(
                CTRL_ABORT,
                reason.spec_code(),
                0xFF,
                0xFF,
                0xFF,
                message_pgn.spec_as_u32(),
            ));
        }
        PDU::new(7, 0, 0, 200, da.0, sa.0, data)
    }

    pub fn is_etp_connection_abort(&self) -> (r: bool)
        ensures
            r == (self.spec_pgn() == PGN_ETP_CM && spec_padded_byte(*self, 0) == CTRL_ABORT),
    {
        self.is_etp_connection_management() && self.first_byte() == CTRL_ABORT
    }

    /// Build an ETP Data Transfer frame: a sequence number within the current
    /// offset window followed by up to seven payload bytes, padded with
    /// `0xFF`.
    pub fn new_etp_data_transfer(
        sequence_number: u8,
        data: &[u8],
        da: IsobusAddress,
        sa: IsobusAddress,
    ) -> (r: PDU)
        requires
            data@.len() <= 7,
        ensures
            r.spec_pgn() == PGN_ETP_DT,
            r.spec_ps() == da.0,
            r.spec_sa() == sa.0,
            r.spec_data() == spec_dt_data(sequence_number, data@),
    {
        proof {
            lemma_pgn_of_value(0, 0, 199, da.0);
        }
        let mut payload: Vec<u8> = Vec::new();
        payload.push(sequence_number);
        let mut i: usize = 0;
        while i < 7
            invariant
                i <= 7,
                data@.len() <= 7,
                payload@.len() == i + 1,
                payload@[0] == sequence_number,
                forall|k: int|
                    1 <= k <= i ==> payload@[k] == (if k - 1 < data@.len() {
                        data@[k - 1]
                    } else {
                        0xFFu8
                    }),
            decreases 7 - i,
        {
            if i < data.len() {
                payload.push(data[i]);
            } else {
                payload.push(0xFF);
            }
            i = i + 1;
        }
        proof {
            assert(payload@ =~= spec_dt_data(sequence_number, data@));
        }
        PDU::new(7, 0, 0, 199, da.0, sa.0, payload)
    }

    pub fn is_etp_data_transfer(&self) -> (r: bool)
        ensures
            r == (self.spec_pgn() == PGN_ETP_DT),
    {
        self.pgn().is_etp_dt()
    }
}

} // verus!
