//! The virtual-terminal messages: each carries a one-byte VT function code
//! followed by fixed-position fields, padded with `0xFF` to eight bytes.

use vstd::prelude::*;

use crate::isobus::IsobusAddress;
use crate::isobus::ADDRESS_NULL;
use crate::objects::ObjectId;

verus! {

/// VT function code of a soft key activation.
pub const VT_FN_SOFT_KEY_ACTIVATION: u8 = 0;

/// VT function code of a button activation.
pub const VT_FN_BUTTON_ACTIVATION: u8 = 1;

/// VT function code of a numeric value changed by the terminal.
pub const VT_FN_VT_CHANGE_NUMERIC_VALUE: u8 = 5;

/// VT function code of a string value changed by the terminal.
pub const VT_FN_VT_CHANGE_STRING_VALUE: u8 = 8;

/// VT function code of an object pool transfer.
pub const VT_FN_OBJECT_POOL_TRANSFER: u8 = 17;

/// VT function code of the end-of-object-pool handshake.
pub const VT_FN_END_OF_OBJECT_POOL: u8 = 18;

/// VT function code of a numeric value change commanded by the ECU.
pub const VT_FN_CHANGE_NUMERIC_VALUE: u8 = 168;

/// VT function code of an active mask change commanded by the ECU.
pub const VT_FN_CHANGE_ACTIVE_MASK: u8 = 173;

/// VT function code of a string value change commanded by the ECU.
pub const VT_FN_CHANGE_STRING_VALUE: u8 = 179;

/// VT function code of the memory enquiry.
pub const VT_FN_GET_MEMORY: u8 = 192;

/// VT function code of the soft key count enquiry.
pub const VT_FN_GET_NUMBER_OF_SOFTKEYS: u8 = 194;

/// VT function code of the text font enquiry.
pub const VT_FN_GET_TEXT_FONT_DATA: u8 = 195;

/// VT function code of the hardware enquiry.
pub const VT_FN_GET_HARDWARE: u8 = 199;

/// VT function code of the versions enquiry.
pub const VT_FN_GET_VERSIONS_MESSAGE: u8 = 223;

/// VT function code of the versions answer.
pub const VT_FN_GET_VERSIONS_RESPONSE: u8 = 224;

/// VT function code of the terminal's cyclic status message.
pub const VT_FN_VT_STATUS: u8 = 254;

/// VT function code of the working set's cyclic maintenance message.
pub const VT_FN_WORKING_SET_MAINTENANCE: u8 = 255;

/// Bit of the maintenance message's mask that marks the first message.
pub const WS_MAINTENANCE_INITIATING: u8 = 0b0000_0001;

/// How a key or button was activated.
#[derive(Debug, Clone, Copy, PartialEq, Eq, Structural)]
pub enum KeyActivationCode {
    Released,
    Pressed,
    Held,
    Aborted,
}

impl KeyActivationCode {
    /// The wire code of this activation kind.
    pub open spec fn spec_code(self) -> u8 {
        match self {
            KeyActivationCode::Released => 0,
            KeyActivationCode::Pressed => 1,
            KeyActivationCode::Held => 2,
            KeyActivationCode::Aborted => 3,
        }
    }

    pub fn as_u8(&self) -> (r: u8)
        ensures
            r == self.spec_code(),
    {
        match self {
            KeyActivationCode::Released => 0,
            KeyActivationCode::Pressed => 1,
            KeyActivationCode::Held => 2,
            KeyActivationCode::Aborted => 3,
        }
    }

    /// Decode a wire code; unknown codes count as aborted.
    pub fn from_u8(value: u8) -> (r: KeyActivationCode)
        ensures
            value <= 2 ==> r.spec_code() == value,
            value > 2 ==> r == KeyActivationCode::Aborted,
    {
        match value {
            0 => KeyActivationCode::Released,
            1 => KeyActivationCode::Pressed,
            2 => KeyActivationCode::Held,
            _ => KeyActivationCode::Aborted,
        }
    }
}

/// The VT versions the maintenance message can announce.
#[derive(Debug, Clone, Copy, PartialEq, Eq, Structural)]
pub enum VTVersion {
    V2,
    V3,
    V4,
    V5,
    V6,
}

impl VTVersion {
    /// The wire code of this version.
    pub open spec fn spec_code(self) -> u8 {
        match self {
            VTVersion::V2 => 255,
            VTVersion::V3 => 3,
            VTVersion::V4 => 4,
            VTVersion::V5 => 5,
            VTVersion::V6 => 6,
        }
    }

    pub fn as_u8(&self) -> (r: u8)
        ensures
            r == self.spec_code(),
    {
        match self {
            VTVersion::V2 => 255,
            VTVersion::V3 => 3,
            VTVersion::V4 => 4,
            VTVersion::V5 => 5,
            VTVersion::V6 => 6,
        }
    }

    /// Decode a wire code; unknown codes count as version two.
    pub fn from_u8(value: u8) -> (r: VTVersion)
        ensures
            3 <= value <= 6 ==> r.spec_code() == value,
            value < 3 || value > 6 ==> r == VTVersion::V2,
    {
        match value {
            3 => VTVersion::V3,
            4 => VTVersion::V4,
            5 => VTVersion::V5,
            6 => VTVersion::V6,
            _ => VTVersion::V2,
        }
    }
}

/// How many string bytes a terminal string-change command actually
/// carries: the announced length, clipped to what follows the length byte.
pub open spec fn spec_vt_string_len(d: Seq<u8>) -> int {
    let announced = spec_byte_or_ff(d, 3) as int;
    if d.len() <= 4 {
        0
    } else if announced <= d.len() - 4 {
        announced
    } else {
        d.len() - 4
    }
}

/// The byte a slice holds at `i`, or `0xFF` past its end.
pub open spec fn spec_byte_or_ff(s: Seq<u8>, i: int) -> u8 {
    if i < s.len() {
        s[i]
    } else {
        0xFFu8
    }
}

/// The low half of a 16-bit value.
pub open spec fn spec_lo(v: u16) -> u8 {
    (v & 0xFF) as u8
}

/// The high half of a 16-bit value.
pub open spec fn spec_hi(v: u16) -> u8 {
    (v >> 8) as u8
}

fn lo(v: u16) -> (r: u8)
    ensures
        r == spec_lo(v),
{
    (v & 0xFF) as u8
}

fn hi(v: u16) -> (r: u8)
    ensures
        r == spec_hi(v),
{
    proof {
        assert(v >> 8 <= 0xFF) by (bit_vector);
    }
    (v >> 8) as u8
}

/// The 16-bit value two little-endian bytes hold.
pub open spec fn spec_u16_of(lo: u8, hi: u8) -> u16 {
    (lo + 0x100 * hi) as u16
}

fn u16_of(lo: u8, hi: u8) -> (r: u16)
    ensures
        r == spec_u16_of(lo, hi),
{
    proof {
        assert(lo as u16 | (hi as u16) << 8 == lo + 0x100 * hi) by (bit_vector);
    }
    lo as u16 | (hi as u16) << 8
}

/// The 32-bit value four little-endian bytes hold.
pub open spec fn spec_u32_of(b0: u8, b1: u8, b2: u8, b3: u8) -> u32 {
    (b0 + 0x100 * b1 + 0x10000 * b2 + 0x1000000 * b3) as u32
}

fn u32_of(b0: u8, b1: u8, b2: u8, b3: u8) -> (r: u32)
    ensures
        r == spec_u32_of(b0, b1, b2, b3),
{
    proof {
        assert(b0 as u32 | (b1 as u32) << 8 | (b2 as u32) << 16 | (b3 as u32) << 24 == b0 + 0x100
            * b1 + 0x10000 * b2 + 0x1000000 * b3) by (bit_vector);
    }
    b0 as u32 | (b1 as u32) << 8 | (b2 as u32) << 16 | (b3 as u32) << 24
}

/// The four little-endian bytes of a 32-bit value, as spec values.
pub open spec fn spec_u32_b(v: u32, k: int) -> u8 {
    if k == 0 {
        (v & 0xFF) as u8
    } else if k == 1 {
        ((v >> 8) & 0xFF) as u8
    } else if k == 2 {
        ((v >> 16) & 0xFF) as u8
    } else {
        (v >> 24) as u8
    }
}

/// A soft key was pressed, released or held.
#[derive(Debug, Clone, PartialEq, Eq, Structural)]
pub struct SoftKeyActivationMessage {
    pub key_activation_code: KeyActivationCode,
    pub id: ObjectId,
    pub parent_id: ObjectId,
    pub key_number: u8,
}

impl SoftKeyActivationMessage {
    /// The eight data bytes of this message.
    pub fn to_bytes(&self) -> (r: Vec<u8>)
        ensures
            r@ == seq![
                VT_FN_SOFT_KEY_ACTIVATION,
                self.key_activation_code.spec_code(),
                spec_lo(self.id.0),
                spec_hi(self.id.0),
                spec_lo(self.parent_id.0),
                spec_hi(self.parent_id.0),
                self.key_number,
                0xFFu8,
            ],
    {
        let r: Vec<u8> = vec![
            VT_FN_SOFT_KEY_ACTIVATION,
            self.key_activation_code.as_u8(),
            lo(self.id.0),
            hi(self.id.0),
            lo(self.parent_id.0),
            hi(self.parent_id.0),
            self.key_number,
            0xFF,
        ];
        proof {
            assert(r@ =~= seq![
                VT_FN_SOFT_KEY_ACTIVATION,
                self.key_activation_code.spec_code(),
                spec_lo(self.id.0),
                spec_hi(self.id.0),
                spec_lo(self.parent_id.0),
                spec_hi(self.parent_id.0),
                self.key_number,
                0xFFu8,
            ]);
        }
        r
    }

    /// Decode the message fields from the data bytes; missing bytes read as
    /// `0xFF`.
    pub fn from_bytes(data: &[u8]) -> (r: Self)
        ensures
            r.key_activation_code.spec_code() == (if spec_byte_or_ff(data@, 1) <= 2 {
                spec_byte_or_ff(data@, 1)
            } else {
                3
            }),
            r.id.0 == spec_u16_of(spec_byte_or_ff(data@, 2), spec_byte_or_ff(data@, 3)),
            r.parent_id.0 == spec_u16_of(spec_byte_or_ff(data@, 4), spec_byte_or_ff(data@, 5)),
            r.key_number == spec_byte_or_ff(data@, 6),
    {
        SoftKeyActivationMessage {
            key_activation_code: KeyActivationCode::from_u8(byte_or_ff(data, 1)),
            id: ObjectId(u16_of(byte_or_ff(data, 2), byte_or_ff(data, 3))),
            parent_id: ObjectId(u16_of(byte_or_ff(data, 4), byte_or_ff(data, 5))),
            key_number: byte_or_ff(data, 6),
        }
    }

    /// The acknowledging response, echoing every field.
    pub fn to_response(&self) -> (r: SoftKeyActivationResponse)
        ensures
            r.key_activation_code == self.key_activation_code,
            r.id == self.id,
            r.parent_id == self.parent_id,
            r.key_number == self.key_number,
    {
        SoftKeyActivationResponse {
            key_activation_code: self.key_activation_code,
            id: self.id,
            parent_id: self.parent_id,
            key_number: self.key_number,
        }
    }
}

/// The acknowledgement of a soft key activation.
#[derive(Debug, Clone, PartialEq, Eq, Structural)]
pub struct SoftKeyActivationResponse {
    pub key_activation_code: KeyActivationCode,
    pub id: ObjectId,
    pub parent_id: ObjectId,
    pub key_number: u8,
}

impl SoftKeyActivationResponse {
    /// The eight data bytes of this response.
    pub fn to_bytes(&self) -> (r: Vec<u8>)
        ensures
            r@ == seq![
                VT_FN_SOFT_KEY_ACTIVATION,
                self.key_activation_code.spec_code(),
                spec_lo(self.id.0),
                spec_hi(self.id.0),
                spec_lo(self.parent_id.0),
                spec_hi(self.parent_id.0),
                self.key_number,
                0xFFu8,
            ],
    {
        let r: Vec<u8> = vec![
            VT_FN_SOFT_KEY_ACTIVATION,
            self.key_activation_code.as_u8(),
            lo(self.id.0),
            hi(self.id.0),
            lo(self.parent_id.0),
            hi(self.parent_id.0),
            self.key_number,
            0xFF,
        ];
        proof {
            assert(r@ =~= seq![
                VT_FN_SOFT_KEY_ACTIVATION,
                self.key_activation_code.spec_code(),
                spec_lo(self.id.0),
                spec_hi(self.id.0),
                spec_lo(self.parent_id.0),
                spec_hi(self.parent_id.0),
                self.key_number,
                0xFFu8,
            ]);
        }
        r
    }
}

/// A button was pressed, released or held.
#[derive(Debug, Clone, PartialEq, Eq, Structural)]
pub struct ButtonActivationMessage {
    pub key_activation_code: KeyActivationCode,
    pub id: ObjectId,
    pub parent_id: ObjectId,
    pub key_number: u8,
}

impl ButtonActivationMessage {
    /// The eight data bytes of this message.
    pub fn to_bytes(&self) -> (r: Vec<u8>)
        ensures
            r@ == seq![
                VT_FN_BUTTON_ACTIVATION,
                self.key_activation_code.spec_code(),
                spec_lo(self.id.0),
                spec_hi(self.id.0),
                spec_lo(self.parent_id.0),
                spec_hi(self.parent_id.0),
                self.key_number,
                0xFFu8,
            ],
    {
        let r: Vec<u8> = vec![
            VT_FN_BUTTON_ACTIVATION,
            self.key_activation_code.as_u8(),
            lo(self.id.0),
            hi(self.id.0),
            lo(self.parent_id.0),
            hi(self.parent_id.0),
            self.key_number,
            0xFF,
        ];
        proof {
            assert(r@ =~= seq![
                VT_FN_BUTTON_ACTIVATION,
                self.key_activation_code.spec_code(),
                spec_lo(self.id.0),
                spec_hi(self.id.0),
                spec_lo(self.parent_id.0),
                spec_hi(self.parent_id.0),
                self.key_number,
                0xFFu8,
            ]);
        }
        r
    }

    /// Decode the message fields from the data bytes; missing bytes read as
    /// `0xFF`.
    pub fn from_bytes(data: &[u8]) -> (r: Self)
        ensures
            r.key_activation_code.spec_code() == (if spec_byte_or_ff(data@, 1) <= 2 {
                spec_byte_or_ff(data@, 1)
            } else {
                3
            }),
            r.id.0 == spec_u16_of(spec_byte_or_ff(data@, 2), spec_byte_or_ff(data@, 3)),
            r.parent_id.0 == spec_u16_of(spec_byte_or_ff(data@, 4), spec_byte_or_ff(data@, 5)),
            r.key_number == spec_byte_or_ff(data@, 6),
    {
        ButtonActivationMessage {
            key_activation_code: KeyActivationCode::from_u8(byte_or_ff(data, 1)),
            id: ObjectId(u16_of(byte_or_ff(data, 2), byte_or_ff(data, 3))),
            parent_id: ObjectId(u16_of(byte_or_ff(data, 4), byte_or_ff(data, 5))),
            key_number: byte_or_ff(data, 6),
        }
    }

    /// The acknowledging response, echoing every field.
    pub fn to_response(&self) -> (r: ButtonActivationResponse)
        ensures
            r.key_activation_code == self.key_activation_code,
            r.id == self.id,
            r.parent_id == self.parent_id,
            r.key_number == self.key_number,
    {
        ButtonActivationResponse {
            key_activation_code: self.key_activation_code,
            id: self.id,
            parent_id: self.parent_id,
            key_number: self.key_number,
        }
    }
}

/// The acknowledgement of a button activation.
#[derive(Debug, Clone, PartialEq, Eq, Structural)]
pub struct ButtonActivationResponse {
    pub key_activation_code: KeyActivationCode,
    pub id: ObjectId,
    pub parent_id: ObjectId,
    pub key_number: u8,
}

impl ButtonActivationResponse {
    /// The eight data bytes of this response.
    pub fn to_bytes(&self) -> (r: Vec<u8>)
        ensures
            r@ == seq![
                VT_FN_BUTTON_ACTIVATION,
                self.key_activation_code.spec_code(),
                spec_lo(self.id.0),
                spec_hi(self.id.0),
                spec_lo(self.parent_id.0),
                spec_hi(self.parent_id.0),
                self.key_number,
                0xFFu8,
            ],
    {
        let r: Vec<u8> = vec![
            VT_FN_BUTTON_ACTIVATION,
            self.key_activation_code.as_u8(),
            lo(self.id.0),
            hi(self.id.0),
            lo(self.parent_id.0),
            hi(self.parent_id.0),
            self.key_number,
            0xFF,
        ];
        proof {
            assert(r@ =~= seq![
                VT_FN_BUTTON_ACTIVATION,
                self.key_activation_code.spec_code(),
                spec_lo(self.id.0),
                spec_hi(self.id.0),
                spec_lo(self.parent_id.0),
                spec_hi(self.parent_id.0),
                self.key_number,
                0xFFu8,
            ]);
        }
        r
    }
}

/// The byte a slice holds at `i`, or `0xFF` past its end.
fn byte_or_ff(data: &[u8], i: usize) -> (r: u8)
    ensures
        r == spec_byte_or_ff(data@, i as int),
{
    if i < data.len() {
        data[i]
    } else {
        0xFF
    }
}

/// The terminal changed a numeric value.
#[derive(Debug, Clone, PartialEq, Eq, Structural)]
pub struct VTChangeNumericValueCommand {
    pub id: ObjectId,
    pub value: u32,
}

impl VTChangeNumericValueCommand {
    /// The eight data bytes of this command.
    pub fn to_bytes(&self) -> (r: Vec<u8>)
        ensures
            r@ == seq![
                VT_FN_VT_CHANGE_NUMERIC_VALUE,
                spec_lo(self.id.0),
                spec_hi(self.id.0),
                0xFFu8,
                spec_u32_b(self.value, 0),
                spec_u32_b(self.value, 1),
                spec_u32_b(self.value, 2),
                spec_u32_b(self.value, 3),
            ],
    {
        proof {
            let v = self.value;
            assert(v >> 24 <= 0xFF) by (bit_vector);
        }
        let r: Vec<u8> = vec![
            VT_FN_VT_CHANGE_NUMERIC_VALUE,
            lo(self.id.0),
            hi(self.id.0),
            0xFF,
            (self.value & 0xFF) as u8,
            ((self.value >> 8) & 0xFF) as u8,
            ((self.value >> 16) & 0xFF) as u8,
            (self.value >> 24) as u8,
        ];
        proof {
            assert(r@ =~= seq![
                VT_FN_VT_CHANGE_NUMERIC_VALUE,
                spec_lo(self.id.0),
                spec_hi(self.id.0),
                0xFFu8,
                spec_u32_b(self.value, 0),
                spec_u32_b(self.value, 1),
                spec_u32_b(self.value, 2),
                spec_u32_b(self.value, 3),
            ]);
        }
        r
    }

    /// Decode the command fields from the data bytes.
    pub fn from_bytes(data: &[u8]) -> (r: Self)
        ensures
            r.id.0 == spec_u16_of(spec_byte_or_ff(data@, 1), spec_byte_or_ff(data@, 2)),
            r.value == spec_u32_of(
                spec_byte_or_ff(data@, 4),
                spec_byte_or_ff(data@, 5),
                spec_byte_or_ff(data@, 6),
                spec_byte_or_ff(data@, 7),
            ),
    {
        VTChangeNumericValueCommand {
            id: ObjectId(u16_of(byte_or_ff(data, 1), byte_or_ff(data, 2))),
            value: u32_of(
                byte_or_ff(data, 4),
                byte_or_ff(data, 5),
                byte_or_ff(data, 6),
                byte_or_ff(data, 7),
            ),
        }
    }

    /// The acknowledging response, echoing the id and value.
    pub fn to_response(&self) -> (r: VTChangeNumericValueResponse)
        ensures
            r.id == self.id,
            r.error_code == 0,
            r.value == self.value,
    {
        VTChangeNumericValueResponse { id: self.id, error_code: 0, value: self.value }
    }
}

/// The acknowledgement of a terminal-changed numeric value.
#[derive(Debug, Clone, PartialEq, Eq, Structural)]
pub struct VTChangeNumericValueResponse {
    pub id: ObjectId,
    pub error_code: u8,
    pub value: u32,
}

impl VTChangeNumericValueResponse {
    /// The eight data bytes of this response.
    pub fn to_bytes(&self) -> (r: Vec<u8>)
        ensures
            r@ == seq![
                VT_FN_VT_CHANGE_NUMERIC_VALUE,
                spec_lo(self.id.0),
                spec_hi(self.id.0),
                self.error_code,
                spec_u32_b(self.value, 0),
                spec_u32_b(self.value, 1),
                spec_u32_b(self.value, 2),
                spec_u32_b(self.value, 3),
            ],
    {
        proof {
            let v = self.value;
            assert(v >> 24 <= 0xFF) by (bit_vector);
        }
        let r: Vec<u8> = vec![
            VT_FN_VT_CHANGE_NUMERIC_VALUE,
            lo(self.id.0),
            hi(self.id.0),
            self.error_code,
            (self.value & 0xFF) as u8,
            ((self.value >> 8) & 0xFF) as u8,
            ((self.value >> 16) & 0xFF) as u8,
            (self.value >> 24) as u8,
        ];
        proof {
            assert(r@ =~= seq![
                VT_FN_VT_CHANGE_NUMERIC_VALUE,
                spec_lo(self.id.0),
                spec_hi(self.id.0),
                self.error_code,
                spec_u32_b(self.value, 0),
                spec_u32_b(self.value, 1),
                spec_u32_b(self.value, 2),
                spec_u32_b(self.value, 3),
            ]);
        }
        r
    }
}

/// The terminal changed a string value.
#[derive(Debug, Clone, PartialEq, Eq)]
pub struct VTChangeStringValueCommand {
    pub id: ObjectId,
    pub value: Vec<u8>,
}

impl VTChangeStringValueCommand {
    /// The data bytes of this command: the id, a length byte, then the
    /// string bytes, padded to at least eight bytes.
    pub fn to_bytes(&self) -> (r: Vec<u8>)
        ensures
            r@.len() >= 8,
            r@[0] == VT_FN_VT_CHANGE_STRING_VALUE,
            r@[1] == spec_lo(self.id.0),
            r@[2] == spec_hi(self.id.0),
    {
        let n: usize = if self.value.len() <= 255 {
            self.value.len()
        } else {
            255
        };
        let mut r: Vec<u8> = vec![
            VT_FN_VT_CHANGE_STRING_VALUE,
            lo(self.id.0),
            hi(self.id.0),
            n as u8,
        ];
        let mut i: usize = 0;
        while i < n
            invariant
                i <= n,
                n <= self.value@.len(),
                r@.len() == i + 4,
                r@[0] == VT_FN_VT_CHANGE_STRING_VALUE,
                r@[1] == spec_lo(self.id.0),
                r@[2] == spec_hi(self.id.0),
            decreases n - i,
        {
            r.push(self.value[i]);
            i = i + 1;
        }
        while r.len() < 8
            invariant
                r@.len() >= 4,
                r@[0] == VT_FN_VT_CHANGE_STRING_VALUE,
                r@[1] == spec_lo(self.id.0),
                r@[2] == spec_hi(self.id.0),
            decreases 8 - r@.len(),
        {
            r.push(0xFF);
        }
        r
    }

    /// Decode the command: the id, then as many string bytes as the length
    /// byte names and the payload holds.
    pub fn from_bytes(data: &[u8]) -> (r: Self)
        ensures
            r.id.0 == spec_u16_of(spec_byte_or_ff(data@, 1), spec_byte_or_ff(data@, 2)),
            r.value@ == Seq::new(
                spec_vt_string_len(data@) as nat,
                |i: int| data@[4 + i],
            ),
    {
        let id = ObjectId(u16_of(byte_or_ff(data, 1), byte_or_ff(data, 2)));
        let announced: usize = byte_or_ff(data, 3) as usize;
        let ghost take: int = spec_vt_string_len(data@);
        let mut value: Vec<u8> = Vec::new();
        let mut i: usize = 0;
        while i < announced
            invariant
                i <= announced,
                announced <= 255,
                announced == spec_byte_or_ff(data@, 3),
                take == spec_vt_string_len(data@),
                value@.len() == (if i <= take {
                    i as int
                } else {
                    take
                }),
                forall|j: int| 0 <= j < value@.len() ==> #[trigger] value@[j] == data@[4 + j],
            decreases announced - i,
        {
            if 4 + i < data.len() {
                value.push(data[4 + i]);
            }
            i = i + 1;
        }
        proof {
            assert(value@ =~= Seq::new(spec_vt_string_len(data@) as nat, |i: int| data@[4 + i]));
        }
        VTChangeStringValueCommand { id, value }
    }

    /// The acknowledging response, echoing the id.
    pub fn to_response(&self) -> (r: VTChangeStringValueResponse)
        ensures
            r.id == self.id,
    {
        VTChangeStringValueResponse { id: self.id }
    }
}

/// The acknowledgement of a terminal-changed string value.
#[derive(Debug, Clone, PartialEq, Eq, Structural)]
pub struct VTChangeStringValueResponse {
    pub id: ObjectId,
}

impl VTChangeStringValueResponse {
    /// The eight data bytes of this response.
    pub fn to_bytes(&self) -> (r: Vec<u8>)
        ensures
            r@ == seq![
                VT_FN_VT_CHANGE_STRING_VALUE,
                spec_lo(self.id.0),
                spec_hi(self.id.0),
                0xFFu8,
                0xFFu8,
                0xFFu8,
                0xFFu8,
                0xFFu8,
            ],
    {
        let r: Vec<u8> = vec![
            VT_FN_VT_CHANGE_STRING_VALUE,
            lo(self.id.0),
            hi(self.id.0),
            0xFF,
            0xFF,
            0xFF,
            0xFF,
            0xFF,
        ];
        proof {
            assert(r@ =~= seq![
                VT_FN_VT_CHANGE_STRING_VALUE,
                spec_lo(self.id.0),
                spec_hi(self.id.0),
                0xFFu8,
                0xFFu8,
                0xFFu8,
                0xFFu8,
                0xFFu8,
            ]);
        }
        r
    }
}

/// The ECU commands a numeric value change.
#[derive(Debug, Clone, PartialEq, Eq, Structural)]
pub struct ChangeNumericValueCommand {
    pub id: ObjectId,
    pub value: u32,
}

impl ChangeNumericValueCommand {
    /// The eight data bytes of this command.
    pub fn to_bytes(&self) -> (r: Vec<u8>)
        ensures
            r@ == seq![
                VT_FN_CHANGE_NUMERIC_VALUE,
                spec_lo(self.id.0),
                spec_hi(self.id.0),
                0xFFu8,
                spec_u32_b(self.value, 0),
                spec_u32_b(self.value, 1),
                spec_u32_b(self.value, 2),
                spec_u32_b(self.value, 3),
            ],
    {
        proof {
            let v = self.value;
            assert(v >> 24 <= 0xFF) by (bit_vector);
        }
        let r: Vec<u8> = vec![
            VT_FN_CHANGE_NUMERIC_VALUE,
            lo(self.id.0),
            hi(self.id.0),
            0xFF,
            (self.value & 0xFF) as u8,
            ((self.value >> 8) & 0xFF) as u8,
            ((self.value >> 16) & 0xFF) as u8,
            (self.value >> 24) as u8,
        ];
        proof {
            assert(r@ =~= seq![
                VT_FN_CHANGE_NUMERIC_VALUE,
                spec_lo(self.id.0),
                spec_hi(self.id.0),
                0xFFu8,
                spec_u32_b(self.value, 0),
                spec_u32_b(self.value, 1),
                spec_u32_b(self.value, 2),
                spec_u32_b(self.value, 3),
            ]);
        }
        r
    }

    /// Decode the command fields from the data bytes.
    pub fn from_bytes(data: &[u8]) -> (r: Self)
        ensures
            r.id.0 == spec_u16_of(spec_byte_or_ff(data@, 1), spec_byte_or_ff(data@, 2)),
            r.value == spec_u32_of(
                spec_byte_or_ff(data@, 4),
                spec_byte_or_ff(data@, 5),
                spec_byte_or_ff(data@, 6),
                spec_byte_or_ff(data@, 7),
            ),
    {
        ChangeNumericValueCommand {
            id: ObjectId(u16_of(byte_or_ff(data, 1), byte_or_ff(data, 2))),
            value: u32_of(
                byte_or_ff(data, 4),
                byte_or_ff(data, 5),
                byte_or_ff(data, 6),
                byte_or_ff(data, 7),
            ),
        }
    }
}

/// The terminal's answer to a commanded numeric value change.
#[derive(Debug, Clone, PartialEq, Eq, Structural)]
pub struct ChangeNumericValueResponse {
    pub id: ObjectId,
    pub error_code: u8,
    pub value: u32,
}

impl ChangeNumericValueResponse {
    /// Decode the response fields from the data bytes.
    pub fn from_bytes(data: &[u8]) -> (r: Self)
        ensures
            r.id.0 == spec_u16_of(spec_byte_or_ff(data@, 1), spec_byte_or_ff(data@, 2)),
            r.error_code == spec_byte_or_ff(data@, 3),
            r.value == spec_u32_of(
                spec_byte_or_ff(data@, 4),
                spec_byte_or_ff(data@, 5),
                spec_byte_or_ff(data@, 6),
                spec_byte_or_ff(data@, 7),
            ),
    {
        ChangeNumericValueResponse {
            id: ObjectId(u16_of(byte_or_ff(data, 1), byte_or_ff(data, 2))),
            error_code: byte_or_ff(data, 3),
            value: u32_of(
                byte_or_ff(data, 4),
                byte_or_ff(data, 5),
                byte_or_ff(data, 6),
                byte_or_ff(data, 7),
            ),
        }
    }
}

/// The ECU commands a change of the active mask.
#[derive(Debug, Clone, PartialEq, Eq, Structural)]
pub struct ChangeActiveMaskCommand {
    pub working_set_id: ObjectId,
    pub mask_id: ObjectId,
}

impl ChangeActiveMaskCommand {
    /// The eight data bytes of this command.
    pub fn to_bytes(&self) -> (r: Vec<u8>)
        ensures
            r@ == seq![
                VT_FN_CHANGE_ACTIVE_MASK,
                spec_lo(self.working_set_id.0),
                spec_hi(self.working_set_id.0),
                spec_lo(self.mask_id.0),
                spec_hi(self.mask_id.0),
                0xFFu8,
                0xFFu8,
                0xFFu8,
            ],
    {
        let r: Vec<u8> = vec![
            VT_FN_CHANGE_ACTIVE_MASK,
            lo(self.working_set_id.0),
            hi(self.working_set_id.0),
            lo(self.mask_id.0),
            hi(self.mask_id.0),
            0xFF,
            0xFF,
            0xFF,
        ];
        proof {
            assert(r@ =~= seq![
                VT_FN_CHANGE_ACTIVE_MASK,
                spec_lo(self.working_set_id.0),
                spec_hi(self.working_set_id.0),
                spec_lo(self.mask_id.0),
                spec_hi(self.mask_id.0),
                0xFFu8,
                0xFFu8,
                0xFFu8,
            ]);
        }
        r
    }
}

/// The terminal's answer to a commanded mask change.
#[derive(Debug, Clone, PartialEq, Eq, Structural)]
pub struct ChangeActiveMaskResponse {
    pub mask_id: ObjectId,
    pub error_code: u8,
}

impl ChangeActiveMaskResponse {
    /// Decode the response fields from the data bytes.
    pub fn from_bytes(data: &[u8]) -> (r: Self)
        ensures
            r.mask_id.0 == spec_u16_of(spec_byte_or_ff(data@, 1), spec_byte_or_ff(data@, 2)),
            r.error_code == spec_byte_or_ff(data@, 3),
    {
        ChangeActiveMaskResponse {
            mask_id: ObjectId(u16_of(byte_or_ff(data, 1), byte_or_ff(data, 2))),
            error_code: byte_or_ff(data, 3),
        }
    }
}

/// The transmitted byte count of a commanded string: clipped at the
/// 16-bit length field.
pub open spec fn spec_string_count(len: int) -> int {
    if len <= 65535 {
        len
    } else {
        65535
    }
}

/// The payload of a change-string command: the function code, the object
/// id, the 16-bit count, the string bytes, then 0xFF up to the eight-byte
/// minimum.
pub open spec fn spec_string_command_data(d: Seq<u8>, id: u16, value: Seq<u8>) -> bool {
    let n = spec_string_count(value.len() as int);
    &&& d.len() == (if n >= 3 {
        5 + n
    } else {
        8
    })
    &&& d[0] == VT_FN_CHANGE_STRING_VALUE
    &&& d[1] == spec_lo(id)
    &&& d[2] == spec_hi(id)
    &&& d[3] == spec_lo(n as u16)
    &&& d[4] == spec_hi(n as u16)
    &&& (forall|k: int| 5 <= k < 5 + n ==> d[k] == value[k - 5])
    &&& (forall|k: int| 5 + n <= k < d.len() ==> d[k] == 0xFF)
}

/// The ECU commands a string value change.
#[derive(Debug, Clone, PartialEq, Eq)]
pub struct ChangeStringValueCommand {
    pub id: ObjectId,
    pub value: Vec<u8>,
}

impl ChangeStringValueCommand {
    /// The data bytes of this command: the id, a 16-bit length, then the
    /// string bytes, padded to at least eight bytes; a string of up to
    /// three bytes fits one frame exactly.
    pub fn to_bytes(&self) -> (r: Vec<u8>)
        ensures
            spec_string_command_data(r@, self.id.0, self.value@),
            r@.len() >= 8,
            self.value@.len() <= 3 ==> r@.len() == 8,
            r@[0] == VT_FN_CHANGE_STRING_VALUE,
            r@[1] == spec_lo(self.id.0),
            r@[2] == spec_hi(self.id.0),
    {
        let n: usize = if self.value.len() <= 65535 {
            self.value.len()
        } else {
            65535
        };
        let mut r: Vec<u8> = vec![
            VT_FN_CHANGE_STRING_VALUE,
            lo(self.id.0),
            hi(self.id.0),
            lo(n as u16),
            hi(n as u16),
        ];
        let mut i: usize = 0;
        while i < n
            invariant
                i <= n,
                n <= self.value@.len(),
                n == spec_string_count(self.value@.len() as int),
                r@.len() == i + 5,
                r@[0] == VT_FN_CHANGE_STRING_VALUE,
                r@[1] == spec_lo(self.id.0),
                r@[2] == spec_hi(self.id.0),
                r@[3] == spec_lo(n as u16),
                r@[4] == spec_hi(n as u16),
                forall|k: int| 5 <= k < 5 + i ==> r@[k] == self.value@[k - 5],
            decreases n - i,
        {
            r.push(self.value[i]);
            i = i + 1;
        }
        while r.len() < 8
            invariant
                n == spec_string_count(self.value@.len() as int),
                r@.len() >= 5 + n,
                r@.len() <= 8 || r@.len() == 5 + n,
                r@[0] == VT_FN_CHANGE_STRING_VALUE,
                r@[1] == spec_lo(self.id.0),
                r@[2] == spec_hi(self.id.0),
                r@[3] == spec_lo(n as u16),
                r@[4] == spec_hi(n as u16),
                forall|k: int| 5 <= k < 5 + n ==> r@[k] == self.value@[k - 5],
                forall|k: int| 5 + n <= k < r@.len() ==> r@[k] == 0xFF,
            decreases 8 - r@.len(),
        {
            r.push(0xFF);
        }
        r
    }

    /// Decode the command: the id, then every byte after the length field.
    pub fn from_bytes(data: &[u8]) -> (r: Self)
        ensures
            r.id.0 == spec_u16_of(spec_byte_or_ff(data@, 1), spec_byte_or_ff(data@, 2)),
    {
        let id = ObjectId(u16_of(byte_or_ff(data, 1), byte_or_ff(data, 2)));
        let mut value: Vec<u8> = Vec::new();
        let mut i: usize = 5;
        while i < data.len()
            invariant
                i >= 5,
            decreases data@.len() - i,
        {
            value.push(data[i]);
            i = i + 1;
        }
        ChangeStringValueCommand { id, value }
    }
}

/// The terminal's answer to a commanded string value change.
#[derive(Debug, Clone, PartialEq, Eq, Structural)]
pub struct ChangeStringValueResponse {
    pub id: ObjectId,
    pub error_code: u8,
}

impl ChangeStringValueResponse {
    /// Decode the response fields from the data bytes.
    pub fn from_bytes(data: &[u8]) -> (r: Self)
        ensures
            r.id.0 == spec_u16_of(spec_byte_or_ff(data@, 3), spec_byte_or_ff(data@, 4)),
            r.error_code == spec_byte_or_ff(data@, 5),
    {
        ChangeStringValueResponse {
            id: ObjectId(u16_of(byte_or_ff(data, 3), byte_or_ff(data, 4))),
            error_code: byte_or_ff(data, 5),
        }
    }
}

/// The end-of-object-pool marker the working set sends.
#[derive(Debug, Clone, PartialEq, Eq, Structural, Default)]
pub struct EndOfObjectPoolMessage {
}

impl EndOfObjectPoolMessage {
    /// The eight data bytes of this message.
    pub fn to_bytes(&self) -> (r: Vec<u8>)
        ensures
            r@ == seq![
                VT_FN_END_OF_OBJECT_POOL,
                0xFFu8,
                0xFFu8,
                0xFFu8,
                0xFFu8,
                0xFFu8,
                0xFFu8,
                0xFFu8,
            ],
    {
        let r: Vec<u8> = vec![VT_FN_END_OF_OBJECT_POOL, 0xFF, 0xFF, 0xFF, 0xFF, 0xFF, 0xFF, 0xFF];
        proof {
            assert(r@ =~= seq![
                VT_FN_END_OF_OBJECT_POOL,
                0xFFu8,
                0xFFu8,
                0xFFu8,
                0xFFu8,
                0xFFu8,
                0xFFu8,
                0xFFu8,
            ]);
        }
        r
    }
}

/// The terminal's verdict on the transferred object pool.
#[derive(Debug, Clone, PartialEq, Eq, Structural, Default)]
pub struct EndOfObjectPoolResponse {
    pub error_code: u8,
    pub parent_id: ObjectId,
    pub id: ObjectId,
    pub object_pool_error_codes: u8,
}

impl EndOfObjectPoolResponse {
    /// The eight data bytes of this response.
    pub fn to_bytes(&self) -> (r: Vec<u8>)
        ensures
            r@ == seq![
                VT_FN_END_OF_OBJECT_POOL,
                self.error_code,
                spec_lo(self.parent_id.0),
                spec_hi(self.parent_id.0),
                spec_lo(self.id.0),
                spec_hi(self.id.0),
                self.object_pool_error_codes,
                0xFFu8,
            ],
    {
        let r: Vec<u8> = vec![
            VT_FN_END_OF_OBJECT_POOL,
            self.error_code,
            lo(self.parent_id.0),
            hi(self.parent_id.0),
            lo(self.id.0),
            hi(self.id.0),
            self.object_pool_error_codes,
            0xFF,
        ];
        proof {
            assert(r@ =~= seq![
                VT_FN_END_OF_OBJECT_POOL,
                self.error_code,
                spec_lo(self.parent_id.0),
                spec_hi(self.parent_id.0),
                spec_lo(self.id.0),
                spec_hi(self.id.0),
                self.object_pool_error_codes,
                0xFFu8,
            ]);
        }
        r
    }

    /// Decode the response fields from the data bytes.
    pub fn from_bytes(data: &[u8]) -> (r: Self)
        ensures
            r.error_code == spec_byte_or_ff(data@, 1),
            r.id.0 == spec_u16_of(spec_byte_or_ff(data@, 2), spec_byte_or_ff(data@, 3)),
            r.parent_id.0 == spec_u16_of(spec_byte_or_ff(data@, 4), spec_byte_or_ff(data@, 5)),
            r.object_pool_error_codes == spec_byte_or_ff(data@, 6),
    {
        EndOfObjectPoolResponse {
            error_code: byte_or_ff(data, 1),
            id: ObjectId(u16_of(byte_or_ff(data, 2), byte_or_ff(data, 3))),
            parent_id: ObjectId(u16_of(byte_or_ff(data, 4), byte_or_ff(data, 5))),
            object_pool_error_codes: byte_or_ff(data, 6),
        }
    }
}

/// The terminal's cyclic status message.
#[derive(Debug, Clone, PartialEq, Eq, Structural)]
pub struct VTStatusMessage {
    pub active_working_set: IsobusAddress,
    pub data_alarm_mask: ObjectId,
    pub soft_key_mask: ObjectId,
    pub vt_busy_code: u8,
    pub vt_function_code: u8,
}

impl Default for VTStatusMessage {
    /// A default status: no active working set, null masks, idle terminal.
    fn default() -> (r: Self)
        ensures
            r.active_working_set.0 == ADDRESS_NULL,
    {
        VTStatusMessage {
            active_working_set: IsobusAddress(ADDRESS_NULL),
            data_alarm_mask: ObjectId(0),
            soft_key_mask: ObjectId(0),
            vt_busy_code: 0,
            vt_function_code: 0,
        }
    }
}

impl VTStatusMessage {
    /// The eight data bytes of this status.
    pub fn to_bytes(&self) -> (r: Vec<u8>)
        ensures
            r@ == seq![
                VT_FN_VT_STATUS,
                self.active_working_set.0,
                spec_lo(self.data_alarm_mask.0),
                spec_hi(self.data_alarm_mask.0),
                spec_lo(self.soft_key_mask.0),
                spec_hi(self.soft_key_mask.0),
                self.vt_busy_code,
                self.vt_function_code,
            ],
    {
        let r: Vec<u8> = vec![
            VT_FN_VT_STATUS,
            self.active_working_set.0,
            lo(self.data_alarm_mask.0),
            hi(self.data_alarm_mask.0),
            lo(self.soft_key_mask.0),
            hi(self.soft_key_mask.0),
            self.vt_busy_code,
            self.vt_function_code,
        ];
        proof {
            assert(r@ =~= seq![
                VT_FN_VT_STATUS,
                self.active_working_set.0,
                spec_lo(self.data_alarm_mask.0),
                spec_hi(self.data_alarm_mask.0),
                spec_lo(self.soft_key_mask.0),
                spec_hi(self.soft_key_mask.0),
                self.vt_busy_code,
                self.vt_function_code,
            ]);
        }
        r
    }

    /// Decode the status fields from the data bytes.
    pub fn from_bytes(data: &[u8]) -> (r: Self)
        ensures
            r.active_working_set.0 == spec_byte_or_ff(data@, 1),
            r.data_alarm_mask.0 == spec_u16_of(spec_byte_or_ff(data@, 2), spec_byte_or_ff(data@, 3)),
            r.soft_key_mask.0 == spec_u16_of(spec_byte_or_ff(data@, 4), spec_byte_or_ff(data@, 5)),
            r.vt_busy_code == spec_byte_or_ff(data@, 6),
            r.vt_function_code == spec_byte_or_ff(data@, 7),
    {
        VTStatusMessage {
            active_working_set: IsobusAddress(byte_or_ff(data, 1)),
            data_alarm_mask: ObjectId(u16_of(byte_or_ff(data, 2), byte_or_ff(data, 3))),
            soft_key_mask: ObjectId(u16_of(byte_or_ff(data, 4), byte_or_ff(data, 5))),
            vt_busy_code: byte_or_ff(data, 6),
            vt_function_code: byte_or_ff(data, 7),
        }
    }
}

/// The working set's cyclic maintenance message.
#[derive(Debug, Clone, PartialEq, Eq, Structural)]
pub struct WorkingSetMaintenanceMessage {
    pub bit_mask: u8,
    pub version_number: VTVersion,
}

impl WorkingSetMaintenanceMessage {
    /// The eight data bytes of this message.
    pub fn to_bytes(&self) -> (r: Vec<u8>)
        ensures
            r@ == seq![
                VT_FN_WORKING_SET_MAINTENANCE,
                self.bit_mask,
                self.version_number.spec_code(),
                0xFFu8,
                0xFFu8,
                0xFFu8,
                0xFFu8,
                0xFFu8,
            ],
    {
        let r: Vec<u8> = vec![
            VT_FN_WORKING_SET_MAINTENANCE,
            self.bit_mask,
            self.version_number.as_u8(),
            0xFF,
            0xFF,
            0xFF,
            0xFF,
            0xFF,
        ];
        proof {
            assert(r@ =~= seq![
                VT_FN_WORKING_SET_MAINTENANCE,
                self.bit_mask,
                self.version_number.spec_code(),
                0xFFu8,
                0xFFu8,
                0xFFu8,
                0xFFu8,
                0xFFu8,
            ]);
        }
        r
    }

    /// Decode the message fields from the data bytes.
    pub fn from_bytes(data: &[u8]) -> (r: Self)
        ensures
            r.bit_mask == spec_byte_or_ff(data@, 1),
    {
        WorkingSetMaintenanceMessage {
            bit_mask: byte_or_ff(data, 1),
            version_number: VTVersion::from_u8(byte_or_ff(data, 2)),
        }
    }
}

} // verus!
