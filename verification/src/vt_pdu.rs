//! The PDUs of the virtual-terminal protocol and the working-set
//! housekeeping messages.

use vstd::prelude::*;

use crate::isobus::IsobusAddress;
use crate::object_pool::ObjectPool;
use crate::pdu::lemma_pgn_of_value;
use crate::pdu::spec_padded_byte;
use crate::pdu::PDU;
use crate::pgn::PGN;
use crate::pgn::PGN_ECU_TO_VT;
use crate::pgn::PGN_LANGUAGE_COMMAND;
use crate::pgn::PGN_REQUEST;
use crate::pgn::PGN_REQUIRED_TRACTOR_FACILITIES;
use crate::pgn::PGN_TIME_DATE;
use crate::pgn::PGN_TRACTOR_FACILITY_RESPONSE;
use crate::pgn::PGN_VT_TO_ECU;
use crate::pgn::PGN_WORKING_SET_MASTER;
use crate::pgn::PGN_WORKING_SET_MEMBER;
use crate::vt_messages::spec_u32_b;
use crate::vt_messages::ButtonActivationResponse;
use crate::vt_messages::ChangeActiveMaskCommand;
use crate::vt_messages::ChangeNumericValueCommand;
use crate::vt_messages::ChangeStringValueCommand;
use crate::vt_messages::EndOfObjectPoolMessage;
use crate::vt_messages::EndOfObjectPoolResponse;
use crate::vt_messages::SoftKeyActivationResponse;
use crate::vt_messages::VTChangeNumericValueResponse;
use crate::vt_messages::VTChangeStringValueResponse;
use crate::vt_messages::VTStatusMessage;
use crate::vt_messages::WorkingSetMaintenanceMessage;
use crate::vt_messages::VT_FN_BUTTON_ACTIVATION;
use crate::vt_messages::VT_FN_CHANGE_ACTIVE_MASK;
use crate::vt_messages::VT_FN_CHANGE_NUMERIC_VALUE;
use crate::vt_messages::VT_FN_CHANGE_STRING_VALUE;
use crate::vt_messages::VT_FN_END_OF_OBJECT_POOL;
use crate::vt_messages::VT_FN_GET_HARDWARE;
use crate::vt_messages::VT_FN_GET_MEMORY;
use crate::vt_messages::VT_FN_GET_NUMBER_OF_SOFTKEYS;
use crate::vt_messages::VT_FN_GET_TEXT_FONT_DATA;
use crate::vt_messages::VT_FN_GET_VERSIONS_MESSAGE;
use crate::vt_messages::VT_FN_GET_VERSIONS_RESPONSE;
use crate::vt_messages::VT_FN_OBJECT_POOL_TRANSFER;
use crate::vt_messages::VT_FN_SOFT_KEY_ACTIVATION;
use crate::vt_messages::VT_FN_VT_CHANGE_NUMERIC_VALUE;
use crate::vt_messages::VT_FN_VT_CHANGE_STRING_VALUE;
use crate::vt_messages::VT_FN_VT_STATUS;
use crate::vt_messages::VT_FN_WORKING_SET_MAINTENANCE;

verus! {

impl PDU {
    /// Build a terminal-to-ECU PDU with the given data.
    pub fn new_vt_to_ecu(da: IsobusAddress, sa: IsobusAddress, data: Vec<u8>) -> (r: PDU)
        ensures
            r.spec_pgn() == PGN_VT_TO_ECU,
            r.spec_ps() == da.0,
            r.spec_sa() == sa.0,
            r.spec_data() == data@,
    {
        proof {
            lemma_pgn_of_value(0, 0, 230, da.0);
        }
        PDU::new(5, 0, 0, 230, da.0, sa.0, data)
    }

    pub fn is_vt_to_ecu(&self) -> (r: bool)
        ensures
            r == (self.spec_pgn() == PGN_VT_TO_ECU),
    {
        self.pgn().is_vt_to_ecu()
    }

    /// Build an ECU-to-terminal PDU with the given data.
    pub fn new_ecu_to_vt(da: IsobusAddress, sa: IsobusAddress, data: Vec<u8>) -> (r: PDU)
        ensures
            r.spec_pgn() == PGN_ECU_TO_VT,
            r.spec_ps() == da.0,
            r.spec_sa() == sa.0,
            r.spec_data() == data@,
    {
        proof {
            lemma_pgn_of_value(0, 0, 231, da.0);
        }
        PDU::new(5, 0, 0, 231, da.0, sa.0, data)
    }

    pub fn is_ecu_to_vt(&self) -> (r: bool)
        ensures
            r == (self.spec_pgn() == PGN_ECU_TO_VT),
    {
        self.pgn().is_ecu_to_vt()
    }

    pub fn new_soft_key_activation_message(
        da: IsobusAddress,
        sa: IsobusAddress,
        data: crate::vt_messages::SoftKeyActivationMessage,
    ) -> (r: PDU)
        ensures
            r.spec_pgn() == PGN_VT_TO_ECU,
            r.spec_ps() == da.0,
            r.spec_sa() == sa.0,
            spec_padded_byte(r, 0) == VT_FN_SOFT_KEY_ACTIVATION,
    {
        PDU::new_vt_to_ecu(da, sa, data.to_bytes())
    }

    pub fn is_soft_key_activation_message(&self) -> (r: bool)
        ensures
            r == (self.spec_pgn() == PGN_VT_TO_ECU && spec_padded_byte(*self, 0)
                == VT_FN_SOFT_KEY_ACTIVATION),
    {
        self.is_vt_to_ecu() && self.first_byte() == VT_FN_SOFT_KEY_ACTIVATION
    }

    pub fn new_soft_key_activation_response(
        da: IsobusAddress,
        sa: IsobusAddress,
        data: SoftKeyActivationResponse,
    ) -> (r: PDU)
        ensures
            r.spec_pgn() == PGN_ECU_TO_VT,
            r.spec_ps() == da.0,
            r.spec_sa() == sa.0,
            spec_padded_byte(r, 0) == VT_FN_SOFT_KEY_ACTIVATION,
            r.spec_data().len() == 8,
    {
        PDU::new_ecu_to_vt(da, sa, data.to_bytes())
    }

    pub fn is_soft_key_activation_response(&self) -> (r: bool)
        ensures
            r == (self.spec_pgn() == PGN_ECU_TO_VT && spec_padded_byte(*self, 0)
                == VT_FN_SOFT_KEY_ACTIVATION),
    {
        self.is_ecu_to_vt() && self.first_byte() == VT_FN_SOFT_KEY_ACTIVATION
    }

    pub fn new_button_activation_message(
        da: IsobusAddress,
        sa: IsobusAddress,
        data: crate::vt_messages::ButtonActivationMessage,
    ) -> (r: PDU)
        ensures
            r.spec_pgn() == PGN_VT_TO_ECU,
            r.spec_ps() == da.0,
            r.spec_sa() == sa.0,
            spec_padded_byte(r, 0) == VT_FN_BUTTON_ACTIVATION,
    {
        PDU::new_vt_to_ecu(da, sa, data.to_bytes())
    }

    pub fn is_button_activation_message(&self) -> (r: bool)
        ensures
            r == (self.spec_pgn() == PGN_VT_TO_ECU && spec_padded_byte(*self, 0)
                == VT_FN_BUTTON_ACTIVATION),
    {
        self.is_vt_to_ecu() && self.first_byte() == VT_FN_BUTTON_ACTIVATION
    }

    pub fn new_button_activation_response(
        da: IsobusAddress,
        sa: IsobusAddress,
        data: ButtonActivationResponse,
    ) -> (r: PDU)
        ensures
            r.spec_pgn() == PGN_ECU_TO_VT,
            r.spec_ps() == da.0,
            r.spec_sa() == sa.0,
            spec_padded_byte(r, 0) == VT_FN_BUTTON_ACTIVATION,
            r.spec_data().len() == 8,
    {
        PDU::new_ecu_to_vt(da, sa, data.to_bytes())
    }

    pub fn is_button_activation_response(&self) -> (r: bool)
        ensures
            r == (self.spec_pgn() == PGN_ECU_TO_VT && spec_padded_byte(*self, 0)
                == VT_FN_BUTTON_ACTIVATION),
    {
        self.is_ecu_to_vt() && self.first_byte() == VT_FN_BUTTON_ACTIVATION
    }

    pub fn new_vt_change_numeric_value_command(
        da: IsobusAddress,
        sa: IsobusAddress,
        data: crate::vt_messages::VTChangeNumericValueCommand,
    ) -> (r: PDU)
        ensures
            r.spec_pgn() == PGN_VT_TO_ECU,
            r.spec_ps() == da.0,
            r.spec_sa() == sa.0,
            spec_padded_byte(r, 0) == VT_FN_VT_CHANGE_NUMERIC_VALUE,
    {
        PDU::new_vt_to_ecu(da, sa, data.to_bytes())
    }

    pub fn is_vt_change_numeric_value_command(&self) -> (r: bool)
        ensures
            r == (self.spec_pgn() == PGN_VT_TO_ECU && spec_padded_byte(*self, 0)
                == VT_FN_VT_CHANGE_NUMERIC_VALUE),
    {
        self.is_vt_to_ecu() && self.first_byte() == VT_FN_VT_CHANGE_NUMERIC_VALUE
    }

    pub fn new_vt_change_numeric_value_response(
        da: IsobusAddress,
        sa: IsobusAddress,
        data: VTChangeNumericValueResponse,
    ) -> (r: PDU)
        ensures
            r.spec_pgn() == PGN_ECU_TO_VT,
            r.spec_ps() == da.0,
            r.spec_sa() == sa.0,
            spec_padded_byte(r, 0) == VT_FN_VT_CHANGE_NUMERIC_VALUE,
            r.spec_data().len() == 8,
            r.spec_data() == seq![
                VT_FN_VT_CHANGE_NUMERIC_VALUE,
                crate::vt_messages::spec_lo(data.id.0),
                crate::vt_messages::spec_hi(data.id.0),
                data.error_code,
                spec_u32_b(data.value, 0),
                spec_u32_b(data.value, 1),
                spec_u32_b(data.value, 2),
                spec_u32_b(data.value, 3),
            ],
    {
        PDU::new_ecu_to_vt(da, sa, data.to_bytes())
    }

    pub fn is_vt_change_numeric_value_response(&self) -> (r: bool)
        ensures
            r == (self.spec_pgn() == PGN_ECU_TO_VT && spec_padded_byte(*self, 0)
                == VT_FN_VT_CHANGE_NUMERIC_VALUE),
    {
        self.is_ecu_to_vt() && self.first_byte() == VT_FN_VT_CHANGE_NUMERIC_VALUE
    }

    pub fn new_vt_change_string_value_command(
        da: IsobusAddress,
        sa: IsobusAddress,
        data: crate::vt_messages::VTChangeStringValueCommand,
    ) -> (r: PDU)
        ensures
            r.spec_pgn() == PGN_VT_TO_ECU,
            r.spec_ps() == da.0,
            r.spec_sa() == sa.0,
            spec_padded_byte(r, 0) == VT_FN_VT_CHANGE_STRING_VALUE,
    {
        PDU::new_vt_to_ecu(da, sa, data.to_bytes())
    }

    pub fn is_vt_change_string_value_command(&self) -> (r: bool)
        ensures
            r == (self.spec_pgn() == PGN_VT_TO_ECU && spec_padded_byte(*self, 0)
                == VT_FN_VT_CHANGE_STRING_VALUE),
    {
        self.is_vt_to_ecu() && self.first_byte() == VT_FN_VT_CHANGE_STRING_VALUE
    }

    pub fn new_vt_change_string_value_response(
        da: IsobusAddress,
        sa: IsobusAddress,
        data: VTChangeStringValueResponse,
    ) -> (r: PDU)
        ensures
            r.spec_pgn() == PGN_ECU_TO_VT,
            r.spec_ps() == da.0,
            r.spec_sa() == sa.0,
            spec_padded_byte(r, 0) == VT_FN_VT_CHANGE_STRING_VALUE,
            r.spec_data().len() == 8,
    {
        PDU::new_ecu_to_vt(da, sa, data.to_bytes())
    }

    pub fn is_vt_change_string_value_response(&self) -> (r: bool)
        ensures
            r == (self.spec_pgn() == PGN_ECU_TO_VT && spec_padded_byte(*self, 0)
                == VT_FN_VT_CHANGE_STRING_VALUE),
    {
        self.is_ecu_to_vt() && self.first_byte() == VT_FN_VT_CHANGE_STRING_VALUE
    }

    pub fn new_change_numeric_value_command(
        da: IsobusAddress,
        sa: IsobusAddress,
        data: ChangeNumericValueCommand,
    ) -> (r: PDU)
        ensures
            r.spec_pgn() == PGN_ECU_TO_VT,
            r.spec_ps() == da.0,
            r.spec_sa() == sa.0,
            spec_padded_byte(r, 0) == VT_FN_CHANGE_NUMERIC_VALUE,
            r.spec_data().len() == 8,
            r.spec_data() == seq![
                VT_FN_CHANGE_NUMERIC_VALUE,
                crate::vt_messages::spec_lo(data.id.0),
                crate::vt_messages::spec_hi(data.id.0),
                0xFFu8,
                spec_u32_b(data.value, 0),
                spec_u32_b(data.value, 1),
                spec_u32_b(data.value, 2),
                spec_u32_b(data.value, 3),
            ],
    {
        PDU::new_ecu_to_vt(da, sa, data.to_bytes())
    }

    pub fn is_change_numeric_value_command(&self) -> (r: bool)
        ensures
            r == (self.spec_pgn() == PGN_ECU_TO_VT && spec_padded_byte(*self, 0)
                == VT_FN_CHANGE_NUMERIC_VALUE),
    {
        self.is_ecu_to_vt() && self.first_byte() == VT_FN_CHANGE_NUMERIC_VALUE
    }

    pub fn new_change_numeric_value_response(
        da: IsobusAddress,
        sa: IsobusAddress,
        data: crate::vt_messages::ChangeNumericValueResponse,
    ) -> (r: PDU)
        ensures
            r.spec_pgn() == PGN_VT_TO_ECU,
            r.spec_ps() == da.0,
            r.spec_sa() == sa.0,
            spec_padded_byte(r, 0) == VT_FN_CHANGE_NUMERIC_VALUE,
    {
        proof {
            let idv = data.id.0;
            let v = data.value;
            assert(idv >> 8 <= 0xFF && v >> 24 <= 0xFF) by (bit_vector);
        }
        let bytes: Vec<u8> = vec![
            VT_FN_CHANGE_NUMERIC_VALUE,
            (data.id.0 & 0xFF) as u8,
            (data.id.0 >> 8) as u8,
            data.error_code,
            (data.value & 0xFF) as u8,
            ((data.value >> 8) & 0xFF) as u8,
            ((data.value >> 16) & 0xFF) as u8,
            (data.value >> 24) as u8,
        ];
        PDU::new_vt_to_ecu(da, sa, bytes)
    }

    pub fn is_change_numeric_value_response(&self) -> (r: bool)
        ensures
            r == (self.spec_pgn() == PGN_VT_TO_ECU && spec_padded_byte(*self, 0)
                == VT_FN_CHANGE_NUMERIC_VALUE),
    {
        self.is_vt_to_ecu() && self.first_byte() == VT_FN_CHANGE_NUMERIC_VALUE
    }

    pub fn new_change_active_mask_command(
        da: IsobusAddress,
        sa: IsobusAddress,
        data: ChangeActiveMaskCommand,
    ) -> (r: PDU)
        ensures
            r.spec_pgn() == PGN_ECU_TO_VT,
            r.spec_ps() == da.0,
            r.spec_sa() == sa.0,
            spec_padded_byte(r, 0) == VT_FN_CHANGE_ACTIVE_MASK,
            r.spec_data().len() == 8,
            r.spec_data() == seq![
                VT_FN_CHANGE_ACTIVE_MASK,
                crate::vt_messages::spec_lo(data.working_set_id.0),
                crate::vt_messages::spec_hi(data.working_set_id.0),
                crate::vt_messages::spec_lo(data.mask_id.0),
                crate::vt_messages::spec_hi(data.mask_id.0),
                0xFFu8,
                0xFFu8,
                0xFFu8,
            ],
    {
        PDU::new_ecu_to_vt(da, sa, data.to_bytes())
    }

    pub fn is_change_active_mask_command(&self) -> (r: bool)
        ensures
            r == (self.spec_pgn() == PGN_ECU_TO_VT && spec_padded_byte(*self, 0)
                == VT_FN_CHANGE_ACTIVE_MASK),
    {
        self.is_ecu_to_vt() && self.first_byte() == VT_FN_CHANGE_ACTIVE_MASK
    }

    pub fn new_change_active_mask_response(
        da: IsobusAddress,
        sa: IsobusAddress,
        data: crate::vt_messages::ChangeActiveMaskResponse,
    ) -> (r: PDU)
        ensures
            r.spec_pgn() == PGN_VT_TO_ECU,
            r.spec_ps() == da.0,
            r.spec_sa() == sa.0,
            spec_padded_byte(r, 0) == VT_FN_CHANGE_ACTIVE_MASK,
    {
        proof {
            let idv = data.mask_id.0;
            assert(idv >> 8 <= 0xFF) by (bit_vector);
        }
        let bytes: Vec<u8> = vec![
            VT_FN_CHANGE_ACTIVE_MASK,
            (data.mask_id.0 & 0xFF) as u8,
            (data.mask_id.0 >> 8) as u8,
            data.error_code,
            0xFF,
            0xFF,
            0xFF,
            0xFF,
        ];
        PDU::new_vt_to_ecu(da, sa, bytes)
    }

    pub fn is_change_active_mask_response(&self) -> (r: bool)
        ensures
            r == (self.spec_pgn() == PGN_VT_TO_ECU && spec_padded_byte(*self, 0)
                == VT_FN_CHANGE_ACTIVE_MASK),
    {
        self.is_vt_to_ecu() && self.first_byte() == VT_FN_CHANGE_ACTIVE_MASK
    }

    pub fn new_change_string_value_command(
        da: IsobusAddress,
        sa: IsobusAddress,
        data: ChangeStringValueCommand,
    ) -> (r: PDU)
        ensures
            r.spec_pgn() == PGN_ECU_TO_VT,
            r.spec_ps() == da.0,
            r.spec_sa() == sa.0,
            spec_padded_byte(r, 0) == VT_FN_CHANGE_STRING_VALUE,
            crate::vt_messages::spec_string_command_data(r.spec_data(), data.id.0, data.value@),
            data.value@.len() <= 3 ==> r.spec_data().len() == 8,
    {
        PDU::new_ecu_to_vt(da, sa, data.to_bytes())
    }

    pub fn is_change_string_value_command(&self) -> (r: bool)
        ensures
            r == (self.spec_pgn() == PGN_ECU_TO_VT && spec_padded_byte(*self, 0)
                == VT_FN_CHANGE_STRING_VALUE),
    {
        self.is_ecu_to_vt() && self.first_byte() == VT_FN_CHANGE_STRING_VALUE
    }

    pub fn new_change_string_value_response(
        da: IsobusAddress,
        sa: IsobusAddress,
        data: crate::vt_messages::ChangeStringValueResponse,
    ) -> (r: PDU)
        ensures
            r.spec_pgn() == PGN_VT_TO_ECU,
            r.spec_ps() == da.0,
            r.spec_sa() == sa.0,
            spec_padded_byte(r, 0) == VT_FN_CHANGE_STRING_VALUE,
    {
        proof {
            let idv = data.id.0;
            assert(idv >> 8 <= 0xFF) by (bit_vector);
        }
        let bytes: Vec<u8> = vec![
            VT_FN_CHANGE_STRING_VALUE,
            0xFF,
            0xFF,
            (data.id.0 & 0xFF) as u8,
            (data.id.0 >> 8) as u8,
            data.error_code,
            0xFF,
            0xFF,
        ];
        PDU::new_vt_to_ecu(da, sa, bytes)
    }

    pub fn is_change_string_value_response(&self) -> (r: bool)
        ensures
            r == (self.spec_pgn() == PGN_VT_TO_ECU && spec_padded_byte(*self, 0)
                == VT_FN_CHANGE_STRING_VALUE),
    {
        self.is_vt_to_ecu() && self.first_byte() == VT_FN_CHANGE_STRING_VALUE
    }

    /// Build a Request for the Language Command message.
    pub fn new_request_language_command(da: IsobusAddress, sa: IsobusAddress) -> (r: PDU)
        ensures
            r.spec_pgn() == PGN_REQUEST,
            r.spec_ps() == da.0,
            r.spec_sa() == sa.0,
            r.spec_data().len() == 3,
            crate::claim::spec_requested_pgn(r) == PGN_LANGUAGE_COMMAND,
    {
        let target = PGN::new(PGN_LANGUAGE_COMMAND);
        let r = PDU::new_request(da, sa, target);
        proof {
            lemma_pgn_of_value(0, 0, 234, da.0);
        }
        r
    }

    pub fn is_language_command(&self) -> (r: bool)
        ensures
            r == (self.spec_pgn() == PGN_LANGUAGE_COMMAND),
    {
        self.pgn().is_language_command()
    }

    /// Build a Request for the Time/Date message.
    pub fn new_request_time_date(da: IsobusAddress, sa: IsobusAddress) -> (r: PDU)
        ensures
            r.spec_pgn() == PGN_REQUEST,
            r.spec_ps() == da.0,
            r.spec_sa() == sa.0,
            r.spec_data().len() == 3,
            crate::claim::spec_requested_pgn(r) == PGN_TIME_DATE,
    {
        let target = PGN::new(PGN_TIME_DATE);
        let r = PDU::new_request(da, sa, target);
        proof {
            lemma_pgn_of_value(0, 0, 234, da.0);
        }
        r
    }

    pub fn is_time_date(&self) -> (r: bool)
        ensures
            r == (self.spec_pgn() == PGN_TIME_DATE),
    {
        self.pgn().is_time_date()
    }

    /// Build the hardware enquiry.
    pub fn new_get_hardware_message(da: IsobusAddress, sa: IsobusAddress) -> (r: PDU)
        ensures
            r.spec_pgn() == PGN_ECU_TO_VT,
            r.spec_ps() == da.0,
            r.spec_sa() == sa.0,
            spec_padded_byte(r, 0) == VT_FN_GET_HARDWARE,
            r.spec_data().len() == 8,
    {
        let data: Vec<u8> = vec![VT_FN_GET_HARDWARE, 0xFF, 0xFF, 0xFF, 0xFF, 0xFF, 0xFF, 0xFF];
        PDU::new_ecu_to_vt(da, sa, data)
    }

    pub fn is_get_hardware_message(&self) -> (r: bool)
        ensures
            r == (self.spec_pgn() == PGN_ECU_TO_VT && spec_padded_byte(*self, 0)
                == VT_FN_GET_HARDWARE),
    {
        self.is_ecu_to_vt() && self.first_byte() == VT_FN_GET_HARDWARE
    }

    pub fn is_get_hardware_response(&self) -> (r: bool)
        ensures
            r == (self.spec_pgn() == PGN_VT_TO_ECU && spec_padded_byte(*self, 0)
                == VT_FN_GET_HARDWARE),
    {
        self.is_vt_to_ecu() && self.first_byte() == VT_FN_GET_HARDWARE
    }

    /// Build the soft key count enquiry.
    pub fn new_get_number_of_softkeys_message(da: IsobusAddress, sa: IsobusAddress) -> (r: PDU)
        ensures
            r.spec_pgn() == PGN_ECU_TO_VT,
            r.spec_ps() == da.0,
            r.spec_sa() == sa.0,
            spec_padded_byte(r, 0) == VT_FN_GET_NUMBER_OF_SOFTKEYS,
            r.spec_data().len() == 8,
    {
        let data: Vec<u8> = vec![
            VT_FN_GET_NUMBER_OF_SOFTKEYS,
            0xFF,
            0xFF,
            0xFF,
            0xFF,
            0xFF,
            0xFF,
            0xFF,
        ];
        PDU::new_ecu_to_vt(da, sa, data)
    }

    pub fn is_get_number_of_softkeys_message(&self) -> (r: bool)
        ensures
            r == (self.spec_pgn() == PGN_ECU_TO_VT && spec_padded_byte(*self, 0)
                == VT_FN_GET_NUMBER_OF_SOFTKEYS),
    {
        self.is_ecu_to_vt() && self.first_byte() == VT_FN_GET_NUMBER_OF_SOFTKEYS
    }

    pub fn is_get_number_of_softkeys_response(&self) -> (r: bool)
        ensures
            r == (self.spec_pgn() == PGN_VT_TO_ECU && spec_padded_byte(*self, 0)
                == VT_FN_GET_NUMBER_OF_SOFTKEYS),
    {
        self.is_vt_to_ecu() && self.first_byte() == VT_FN_GET_NUMBER_OF_SOFTKEYS
    }

    /// Build the text font enquiry.
    pub fn new_get_text_font_data_message(da: IsobusAddress, sa: IsobusAddress) -> (r: PDU)
        ensures
            r.spec_pgn() == PGN_ECU_TO_VT,
            r.spec_ps() == da.0,
            r.spec_sa() == sa.0,
            spec_padded_byte(r, 0) == VT_FN_GET_TEXT_FONT_DATA,
            r.spec_data().len() == 8,
    {
        let data: Vec<u8> = vec![VT_FN_GET_TEXT_FONT_DATA, 0xFF, 0xFF, 0xFF, 0xFF, 0xFF, 0xFF, 0xFF];
        PDU::new_ecu_to_vt(da, sa, data)
    }

    pub fn is_get_text_font_data_message(&self) -> (r: bool)
        ensures
            r == (self.spec_pgn() == PGN_ECU_TO_VT && spec_padded_byte(*self, 0)
                == VT_FN_GET_TEXT_FONT_DATA),
    {
        self.is_ecu_to_vt() && self.first_byte() == VT_FN_GET_TEXT_FONT_DATA
    }

    pub fn is_get_text_font_data_response(&self) -> (r: bool)
        ensures
            r == (self.spec_pgn() == PGN_VT_TO_ECU && spec_padded_byte(*self, 0)
                == VT_FN_GET_TEXT_FONT_DATA),
    {
        self.is_vt_to_ecu() && self.first_byte() == VT_FN_GET_TEXT_FONT_DATA
    }

    /// Build the memory enquiry carrying the pool size the working set
    /// needs.
    pub fn new_get_memory_message(
        da: IsobusAddress,
        sa: IsobusAddress,
        required_memory: u32,
    ) -> (r: PDU)
        ensures
            r.spec_pgn() == PGN_ECU_TO_VT,
            r.spec_ps() == da.0,
            r.spec_sa() == sa.0,
            spec_padded_byte(r, 0) == VT_FN_GET_MEMORY,
            r.spec_data().len() == 8,
            spec_padded_byte(r, 2) == spec_u32_b(required_memory, 0),
            spec_padded_byte(r, 3) == spec_u32_b(required_memory, 1),
            spec_padded_byte(r, 4) == spec_u32_b(required_memory, 2),
            spec_padded_byte(r, 5) == spec_u32_b(required_memory, 3),
    {
        proof {
            assert(required_memory >> 24 <= 0xFF) by (bit_vector);
        }
        let data: Vec<u8> = vec![
            VT_FN_GET_MEMORY,
            0xFF,
            (required_memory & 0xFF) as u8,
            ((required_memory >> 8) & 0xFF) as u8,
            ((required_memory >> 16) & 0xFF) as u8,
            (required_memory >> 24) as u8,
            0xFF,
            0xFF,
        ];
        PDU::new_ecu_to_vt(da, sa, data)
    }

    pub fn is_get_memory_message(&self) -> (r: bool)
        ensures
            r == (self.spec_pgn() == PGN_ECU_TO_VT && spec_padded_byte(*self, 0)
                == VT_FN_GET_MEMORY),
    {
        self.is_ecu_to_vt() && self.first_byte() == VT_FN_GET_MEMORY
    }

    pub fn is_get_memory_response(&self) -> (r: bool)
        ensures
            r == (self.spec_pgn() == PGN_VT_TO_ECU && spec_padded_byte(*self, 0)
                == VT_FN_GET_MEMORY),
    {
        self.is_vt_to_ecu() && self.first_byte() == VT_FN_GET_MEMORY
    }

    /// Build the versions enquiry.
    pub fn new_get_versions_message(da: IsobusAddress, sa: IsobusAddress) -> (r: PDU)
        ensures
            r.spec_pgn() == PGN_ECU_TO_VT,
            r.spec_ps() == da.0,
            r.spec_sa() == sa.0,
            spec_padded_byte(r, 0) == VT_FN_GET_VERSIONS_MESSAGE,
            r.spec_data().len() == 8,
    {
        let data: Vec<u8> = vec![
            VT_FN_GET_VERSIONS_MESSAGE,
            0xFF,
            0xFF,
            0xFF,
            0xFF,
            0xFF,
            0xFF,
            0xFF,
        ];
        PDU::new_ecu_to_vt(da, sa, data)
    }

    pub fn is_get_versions_message(&self) -> (r: bool)
        ensures
            r == (self.spec_pgn() == PGN_ECU_TO_VT && spec_padded_byte(*self, 0)
                == VT_FN_GET_VERSIONS_MESSAGE),
    {
        self.is_ecu_to_vt() && self.first_byte() == VT_FN_GET_VERSIONS_MESSAGE
    }

    pub fn is_get_versions_response(&self) -> (r: bool)
        ensures
            r == (self.spec_pgn() == PGN_VT_TO_ECU && spec_padded_byte(*self, 0)
                == VT_FN_GET_VERSIONS_RESPONSE),
    {
        self.is_vt_to_ecu() && self.first_byte() == VT_FN_GET_VERSIONS_RESPONSE
    }

    /// Build the object pool transfer: the transfer function code followed
    /// by the serialized pool.
    pub fn new_object_pool_transfer_message(
        da: IsobusAddress,
        sa: IsobusAddress,
        op: &ObjectPool,
    ) -> (r: PDU)
        ensures
            r.spec_pgn() == PGN_ECU_TO_VT,
            r.spec_ps() == da.0,
            r.spec_sa() == sa.0,
            spec_padded_byte(r, 0) == VT_FN_OBJECT_POOL_TRANSFER,
    {
        let mut data: Vec<u8> = vec![VT_FN_OBJECT_POOL_TRANSFER];
        let mut pool = op.as_iop();
        data.append(&mut pool);
        proof {
            assert(data@[0] == VT_FN_OBJECT_POOL_TRANSFER);
        }
        PDU::new_ecu_to_vt(da, sa, data)
    }

    pub fn is_object_pool_transfer_message(&self) -> (r: bool)
        ensures
            r == (self.spec_pgn() == PGN_ECU_TO_VT && spec_padded_byte(*self, 0)
                == VT_FN_OBJECT_POOL_TRANSFER),
    {
        self.is_ecu_to_vt() && self.first_byte() == VT_FN_OBJECT_POOL_TRANSFER
    }

    /// Build the end-of-object-pool marker.
    pub fn new_end_of_object_pool_message(da: IsobusAddress, sa: IsobusAddress) -> (r: PDU)
        ensures
            r.spec_pgn() == PGN_ECU_TO_VT,
            r.spec_ps() == da.0,
            r.spec_sa() == sa.0,
            spec_padded_byte(r, 0) == VT_FN_END_OF_OBJECT_POOL,
            r.spec_data().len() == 8,
    {
        let msg = EndOfObjectPoolMessage {};
        PDU::new_ecu_to_vt(da, sa, msg.to_bytes())
    }

    pub fn is_end_of_object_pool_message(&self) -> (r: bool)
        ensures
            r == (self.spec_pgn() == PGN_ECU_TO_VT && spec_padded_byte(*self, 0)
                == VT_FN_END_OF_OBJECT_POOL),
    {
        self.is_ecu_to_vt() && self.first_byte() == VT_FN_END_OF_OBJECT_POOL
    }

    /// Build a default end-of-object-pool verdict.
    pub fn new_end_of_object_pool_response(da: IsobusAddress, sa: IsobusAddress) -> (r: PDU)
        ensures
            r.spec_pgn() == PGN_VT_TO_ECU,
            r.spec_ps() == da.0,
            r.spec_sa() == sa.0,
            spec_padded_byte(r, 0) == VT_FN_END_OF_OBJECT_POOL,
    {
        let msg = EndOfObjectPoolResponse {
            error_code: 0,
            parent_id: crate::objects::ObjectId(0),
            id: crate::objects::ObjectId(0),
            object_pool_error_codes: 0,
        };
        PDU::new_vt_to_ecu(da, sa, msg.to_bytes())
    }

    pub fn is_end_of_object_pool_response(&self) -> (r: bool)
        ensures
            r == (self.spec_pgn() == PGN_VT_TO_ECU && spec_padded_byte(*self, 0)
                == VT_FN_END_OF_OBJECT_POOL),
    {
        self.is_vt_to_ecu() && self.first_byte() == VT_FN_END_OF_OBJECT_POOL
    }

    /// Build a terminal status message.
    pub fn new_vt_status_message(
        da: IsobusAddress,
        sa: IsobusAddress,
        data: VTStatusMessage,
    ) -> (r: PDU)
        ensures
            r.spec_pgn() == PGN_VT_TO_ECU,
            r.spec_ps() == da.0,
            r.spec_sa() == sa.0,
            spec_padded_byte(r, 0) == VT_FN_VT_STATUS,
            spec_padded_byte(r, 1) == data.active_working_set.0,
    {
        PDU::new_vt_to_ecu(da, sa, data.to_bytes())
    }

    pub fn is_vt_status_message(&self) -> (r: bool)
        ensures
            r == (self.spec_pgn() == PGN_VT_TO_ECU && spec_padded_byte(*self, 0)
                == VT_FN_VT_STATUS),
    {
        self.is_vt_to_ecu() && self.first_byte() == VT_FN_VT_STATUS
    }

    /// Build a working-set maintenance message.
    pub fn new_working_set_maintenance_message(
        da: IsobusAddress,
        sa: IsobusAddress,
        data: WorkingSetMaintenanceMessage,
    ) -> (r: PDU)
        ensures
            r.spec_pgn() == PGN_ECU_TO_VT,
            r.spec_ps() == da.0,
            r.spec_sa() == sa.0,
            spec_padded_byte(r, 0) == VT_FN_WORKING_SET_MAINTENANCE,
            r.spec_data().len() == 8,
            spec_padded_byte(r, 1) == data.bit_mask,
    {
        PDU::new_ecu_to_vt(da, sa, data.to_bytes())
    }

    pub fn is_working_set_maintenance_message(&self) -> (r: bool)
        ensures
            r == (self.spec_pgn() == PGN_ECU_TO_VT && spec_padded_byte(*self, 0)
                == VT_FN_WORKING_SET_MAINTENANCE),
    {
        self.is_ecu_to_vt() && self.first_byte() == VT_FN_WORKING_SET_MAINTENANCE
    }

    /// Build a Required Tractor Facilities message.
    pub fn new_required_tractor_facilities(sa: IsobusAddress) -> (r: PDU)
        ensures
            r.spec_pgn() == PGN_REQUIRED_TRACTOR_FACILITIES,
            r.spec_sa() == sa.0,
    {
        let data: Vec<u8> = vec![0xFF, 0xFF, 0xFF, 0xFF, 0xFF, 0xFF, 0xFF, 0xFF];
        let r = PDU::new(3, 0, 0, 254, 8, sa.0, data);
        proof {
            lemma_pgn_of_value(0, 0, 254, 8);
        }
        r
    }

    pub fn is_required_tractor_facilities(&self) -> (r: bool)
        ensures
            r == (self.spec_pgn() == PGN_REQUIRED_TRACTOR_FACILITIES),
    {
        self.pgn().is_required_tractor_facilities()
    }

    /// Build a Tractor Facility Response message.
    pub fn new_tractor_facility_response(sa: IsobusAddress) -> (r: PDU)
        ensures
            r.spec_pgn() == PGN_TRACTOR_FACILITY_RESPONSE,
            r.spec_sa() == sa.0,
    {
        let data: Vec<u8> = vec![0xFF, 0xFF, 0xFF, 0xFF, 0xFF, 0xFF, 0xFF, 0xFF];
        let r = PDU::new(3, 0, 0, 254, 9, sa.0, data);
        proof {
            lemma_pgn_of_value(0, 0, 254, 9);
        }
        r
    }

    pub fn is_tractor_facility_response(&self) -> (r: bool)
        ensures
            r == (self.spec_pgn() == PGN_TRACTOR_FACILITY_RESPONSE),
    {
        self.pgn().is_tractor_facility_response()
    }

    /// Build a Working Set Member message announcing one member.
    pub fn new_working_set_member(sa: IsobusAddress) -> (r: PDU)
        ensures
            r.spec_pgn() == PGN_WORKING_SET_MEMBER,
            r.spec_sa() == sa.0,
    {
        let data: Vec<u8> = vec![0x01, 0xFF, 0xFF, 0xFF, 0xFF, 0xFF, 0xFF, 0xFF];
        let r = PDU::new(7, 0, 0, 254, 12, sa.0, data);
        proof {
            lemma_pgn_of_value(0, 0, 254, 12);
        }
        r
    }

    pub fn is_working_set_member(&self) -> (r: bool)
        ensures
            r == (self.spec_pgn() == PGN_WORKING_SET_MEMBER),
    {
        self.pgn().is_working_set_member()
    }

    /// Build a Working Set Master message.
    pub fn new_working_set_master(sa: IsobusAddress) -> (r: PDU)
        ensures
            r.spec_pgn() == PGN_WORKING_SET_MASTER,
            r.spec_sa() == sa.0,
            r.spec_data().len() == 8,
    {
        let data: Vec<u8> = vec![0xFF, 0xFF, 0xFF, 0xFF, 0xFF, 0xFF, 0xFF, 0xFF];
        let r = PDU::new(7, 0, 0, 254, 13, sa.0, data);
        proof {
            lemma_pgn_of_value(0, 0, 254, 13);
        }
        r
    }

    pub fn is_working_set_master(&self) -> (r: bool)
        ensures
            r == (self.spec_pgn() == PGN_WORKING_SET_MASTER),
    {
        self.pgn().is_working_set_master()
    }
}

} // verus!
