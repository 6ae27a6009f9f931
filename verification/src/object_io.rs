//! Reading and writing the ISO 11783-6 binary object-pool stream: each
//! object is a little-endian 16-bit id, a one-byte type tag, and
//! type-specific fields; counted lists follow their scalar attributes.
//! Parsing stops cleanly at the first short read or unknown tag.

use vstd::prelude::*;

use crate::name::Name;
use crate::objects::Colour;
use crate::objects::MacroRef;
use crate::objects::Object;
use crate::objects::ObjectId;
use crate::objects::ObjectLabel;
use crate::objects::ObjectRef;
use crate::objects::ObjectType;
use crate::objects::AlarmMask;
use crate::objects::Animation;
use crate::objects::AuxiliaryControlDesignatorType2;
use crate::objects::AuxiliaryFunctionType1;
use crate::objects::AuxiliaryFunctionType2;
use crate::objects::AuxiliaryInputType1;
use crate::objects::AuxiliaryInputType2;
use crate::objects::Button;
use crate::objects::ColourMap;
use crate::objects::ColourPalette;
use crate::objects::Container;
use crate::objects::DataMask;
use crate::objects::ExtendedInputAttributes;
use crate::objects::ExternalObjectDefinition;
use crate::objects::ExternalObjectPointer;
use crate::objects::ExternalReferenceName;
use crate::objects::FillAttributes;
use crate::objects::FontAttributes;
use crate::objects::GraphicData;
use crate::objects::GraphicsContext;
use crate::objects::InputAttributes;
use crate::objects::InputBoolean;
use crate::objects::InputList;
use crate::objects::InputNumber;
use crate::objects::InputString;
use crate::objects::Key;
use crate::objects::KeyGroup;
use crate::objects::LineAttributes;
use crate::objects::Macro;
use crate::objects::NumberVariable;
use crate::objects::ObjectLabelReferenceList;
use crate::objects::ObjectPointer;
use crate::objects::OutputArchedBarGraph;
use crate::objects::OutputEllipse;
use crate::objects::OutputLine;
use crate::objects::OutputLinearBarGraph;
use crate::objects::OutputList;
use crate::objects::OutputMeter;
use crate::objects::OutputNumber;
use crate::objects::OutputPolygon;
use crate::objects::OutputRectangle;
use crate::objects::OutputString;
use crate::objects::PictureGraphic;
use crate::objects::Point;
use crate::objects::ScalesGraphic;
use crate::objects::SoftKeyMask;
use crate::objects::StringVariable;
use crate::objects::WindowMask;
use crate::objects::WorkingSet;
use crate::objects::WorkingSetSpecialControls;

verus! {

/// Why a pool stream yielded no object.
#[derive(Debug, PartialEq, Eq, Structural)]
pub enum ParseError {
    DataEmpty,
}

/// The 16-bit value at `q`, little-endian.
pub open spec fn spec_u16_at(d: Seq<u8>, q: int) -> u16 {
    (d[q] + 0x100 * d[q + 1]) as u16
}

/// The signed 16-bit value at `q`, little-endian.
pub open spec fn spec_i16_at(d: Seq<u8>, q: int) -> i16 {
    spec_u16_at(d, q) as i16
}

/// The 32-bit value at `q`, little-endian.
pub open spec fn spec_u32_at(d: Seq<u8>, q: int) -> u32 {
    (d[q] + 0x100 * d[q + 1] + 0x10000 * d[q + 2] + 0x1000000 * d[q + 3]) as u32
}

/// The object id at `q`.
pub open spec fn spec_oid_at(d: Seq<u8>, q: int) -> ObjectId {
    ObjectId(spec_u16_at(d, q))
}

/// The child reference at `q`: an id and a signed offset, six bytes.
pub open spec fn spec_objref_at(d: Seq<u8>, q: int) -> ObjectRef {
    ObjectRef {
        id: spec_oid_at(d, q),
        offset: Point { x: spec_i16_at(d, q + 2), y: spec_i16_at(d, q + 4) },
    }
}

/// The macro reference at `q`: two bytes.
pub open spec fn spec_macroref_at(d: Seq<u8>, q: int) -> MacroRef {
    MacroRef { event_id: d[q], macro_id: d[q + 1] }
}

/// The unsigned point at `q`: four bytes.
pub open spec fn spec_point16_at(d: Seq<u8>, q: int) -> Point<u16> {
    Point { x: spec_u16_at(d, q), y: spec_u16_at(d, q + 2) }
}

/// The colour entry at `q`: blue, green, red, alpha.
pub open spec fn spec_colour_at(d: Seq<u8>, q: int) -> Colour {
    Colour { b: d[q], g: d[q + 1], r: d[q + 2], a: d[q + 3] }
}

/// The object label at `q`: seven bytes.
pub open spec fn spec_objlabel_at(d: Seq<u8>, q: int) -> ObjectLabel {
    ObjectLabel {
        id: spec_oid_at(d, q),
        string_variable_reference: spec_oid_at(d, q + 2),
        font_type: d[q + 4],
        graphic_representation: spec_oid_at(d, q + 5),
    }
}

/// Read one byte; fails at the end of the stream and then leaves the
/// position alone.
fn read_u8(data: &[u8], pos: &mut usize) -> (r: Option<u8>)
    requires
        *old(pos) <= data@.len(),
    ensures
        *final(pos) <= data@.len(),
        *final(pos) >= *old(pos),
        r matches Some(b) ==> b == data@[*old(pos) as int] && *final(pos) == *old(pos) + 1,
        r is None ==> *final(pos) == *old(pos),
        r is Some <==> *old(pos) + 1 <= data@.len(),
{
    if *pos < data.len() {
        let b = data[*pos];
        *pos = *pos + 1;
        Some(b)
    } else {
        None
    }
}

/// Read a little-endian 16-bit value.
fn read_u16(data: &[u8], pos: &mut usize) -> (r: Option<u16>)
    requires
        *old(pos) <= data@.len(),
    ensures
        *final(pos) <= data@.len(),
        *final(pos) >= *old(pos),
        r matches Some(v) ==> v == data@[*old(pos) as int] + 0x100 * data@[*old(pos) + 1]
            && *final(pos) == *old(pos) + 2,
        r is None ==> *final(pos) == *old(pos),
        r is Some <==> *old(pos) + 2 <= data@.len(),
{
    if data.len() >= 2 && *pos <= data.len() - 2 {
        let lo = data[*pos];
        let hi = data[*pos + 1];
        *pos = *pos + 2;
        proof {
            assert(lo as u16 | (hi as u16) << 8 == lo + 0x100 * hi) by (bit_vector);
        }
        Some(lo as u16 | (hi as u16) << 8)
    } else {
        None
    }
}

/// Read a little-endian signed 16-bit value.
fn read_i16(data: &[u8], pos: &mut usize) -> (r: Option<i16>)
    requires
        *old(pos) <= data@.len(),
    ensures
        *final(pos) <= data@.len(),
        *final(pos) >= *old(pos),
        r matches Some(v) ==> v == (data@[*old(pos) as int] + 0x100 * data@[*old(pos) + 1]) as u16
            as i16 && *final(pos) == *old(pos) + 2,
        r is None ==> *final(pos) == *old(pos),
        r is Some <==> *old(pos) + 2 <= data@.len(),
{
    match read_u16(data, pos) {
        Some(v) => Some(v as i16),
        None => None,
    }
}

/// Read a little-endian 32-bit value.
fn read_u32(data: &[u8], pos: &mut usize) -> (r: Option<u32>)
    requires
        *old(pos) <= data@.len(),
    ensures
        *final(pos) <= data@.len(),
        *final(pos) >= *old(pos),
        r matches Some(v) ==> v == data@[*old(pos) as int] + 0x100 * data@[*old(pos) + 1]
            + 0x10000 * data@[*old(pos) + 2] + 0x1000000 * data@[*old(pos) + 3] && *final(pos)
            == *old(pos) + 4,
        r is None ==> *final(pos) == *old(pos),
        r is Some <==> *old(pos) + 4 <= data@.len(),
{
    if data.len() >= 4 && *pos <= data.len() - 4 {
        let b0 = data[*pos];
        let b1 = data[*pos + 1];
        let b2 = data[*pos + 2];
        let b3 = data[*pos + 3];
        *pos = *pos + 4;
        proof {
            assert(b0 as u32 | (b1 as u32) << 8 | (b2 as u32) << 16 | (b3 as u32) << 24 == b0
                + 0x100 * b1 + 0x10000 * b2 + 0x1000000 * b3) by (bit_vector);
        }
        Some(b0 as u32 | (b1 as u32) << 8 | (b2 as u32) << 16 | (b3 as u32) << 24)
    } else {
        None
    }
}

/// Read a little-endian signed 32-bit value.
fn read_i32(data: &[u8], pos: &mut usize) -> (r: Option<i32>)
    requires
        *old(pos) <= data@.len(),
    ensures
        *final(pos) <= data@.len(),
        *final(pos) >= *old(pos),
        r matches Some(v) ==> *final(pos) == *old(pos) + 4 && v == spec_u32_at(
            data@,
            *old(pos) as int,
        ) as i32,
        r is None ==> *final(pos) == *old(pos),
        r is Some <==> *old(pos) + 4 <= data@.len(),
{
    match read_u32(data, pos) {
        Some(v) => Some(v as i32),
        None => None,
    }
}

/// Read a boolean: any nonzero byte is true.
fn read_bool(data: &[u8], pos: &mut usize) -> (r: Option<bool>)
    requires
        *old(pos) <= data@.len(),
    ensures
        *final(pos) <= data@.len(),
        *final(pos) >= *old(pos),
        r matches Some(v) ==> v == (data@[*old(pos) as int] != 0) && *final(pos) == *old(pos) + 1,
        r is None ==> *final(pos) == *old(pos),
        r is Some <==> *old(pos) + 1 <= data@.len(),
{
    match read_u8(data, pos) {
        Some(b) => Some(b != 0),
        None => None,
    }
}

/// Read a 16-bit object id.
fn read_oid(data: &[u8], pos: &mut usize) -> (r: Option<ObjectId>)
    requires
        *old(pos) <= data@.len(),
    ensures
        *final(pos) <= data@.len(),
        *final(pos) >= *old(pos),
        r matches Some(v) ==> v.0 == data@[*old(pos) as int] + 0x100 * data@[*old(pos) + 1]
            && *final(pos) == *old(pos) + 2,
        r is None ==> *final(pos) == *old(pos),
        r is Some <==> *old(pos) + 2 <= data@.len(),
{
    match read_u16(data, pos) {
        Some(v) => Some(ObjectId(v)),
        None => None,
    }
}

/// Read `n` raw bytes.
fn read_bytes(data: &[u8], pos: &mut usize, n: usize) -> (r: Option<Vec<u8>>)
    requires
        *old(pos) <= data@.len(),
    ensures
        *final(pos) <= data@.len(),
        *final(pos) >= *old(pos),
        r matches Some(v) ==> v@ == data@.subrange(*old(pos) as int, *old(pos) + n) && *final(pos)
            == *old(pos) + n,
        r is None ==> *final(pos) == *old(pos),
        r is Some <==> *old(pos) + n <= data@.len(),
{
    if n <= data.len() && *pos <= data.len() - n {
        let mut v: Vec<u8> = Vec::new();
        let start = *pos;
        let mut i: usize = 0;
        while i < n
            invariant
                i <= n,
                start + n <= data@.len(),
                data@.len() <= usize::MAX,
                v@ =~= data@.subrange(start as int, start + i),
            decreases n - i,
        {
            v.push(data[start + i]);
            i = i + 1;
        }
        *pos = start + n;
        Some(v)
    } else {
        None
    }
}

/// Read the eight little-endian bytes of a Name.
fn read_name(data: &[u8], pos: &mut usize) -> (r: Option<Name>)
    requires
        *old(pos) <= data@.len(),
    ensures
        *final(pos) <= data@.len(),
        *final(pos) >= *old(pos),
        r matches Some(nm) ==> *final(pos) == *old(pos) + 8 && nm.spec_value()
            == crate::name::spec_le_u64(
            data@[*old(pos) as int],
            data@[*old(pos) + 1],
            data@[*old(pos) + 2],
            data@[*old(pos) + 3],
            data@[*old(pos) + 4],
            data@[*old(pos) + 5],
            data@[*old(pos) + 6],
            data@[*old(pos) + 7],
        ),
        r is None ==> *final(pos) == *old(pos),
        r is Some <==> *old(pos) + 8 <= data@.len(),
{
    match read_bytes(data, pos, 8) {
        Some(v) => {
            let nm = Name::from_bytes(v.as_slice());
            Some(nm)
        },
        None => None,
    }
}

/// Read a child reference: an id and a signed offset.
fn read_objref(data: &[u8], pos: &mut usize) -> (r: Option<ObjectRef>)
    requires
        *old(pos) <= data@.len(),
    ensures
        *final(pos) <= data@.len(),
        *final(pos) >= *old(pos),
        *old(pos) + 6 <= data@.len() ==> (r matches Some(e) && e == spec_objref_at(
            data@,
            *old(pos) as int,
        ) && *final(pos) == *old(pos) + 6),
        *old(pos) + 6 > data@.len() ==> r is None,
{
    let id = match read_oid(data, pos) {
        Some(v) => v,
        None => {
            return None;
        },
    };
    let x = match read_i16(data, pos) {
        Some(v) => v,
        None => {
            return None;
        },
    };
    let y = match read_i16(data, pos) {
        Some(v) => v,
        None => {
            return None;
        },
    };
    Some(ObjectRef { id, offset: Point { x, y } })
}

/// Read a macro reference: an event id and a macro id.
fn read_macroref(data: &[u8], pos: &mut usize) -> (r: Option<MacroRef>)
    requires
        *old(pos) <= data@.len(),
    ensures
        *final(pos) <= data@.len(),
        *final(pos) >= *old(pos),
        *old(pos) + 2 <= data@.len() ==> (r matches Some(e) && e == spec_macroref_at(
            data@,
            *old(pos) as int,
        ) && *final(pos) == *old(pos) + 2),
        *old(pos) + 2 > data@.len() ==> r is None,
{
    let event_id = match read_u8(data, pos) {
        Some(v) => v,
        None => {
            return None;
        },
    };
    let macro_id = match read_u8(data, pos) {
        Some(v) => v,
        None => {
            return None;
        },
    };
    Some(MacroRef { event_id, macro_id })
}

/// Read an unsigned point.
fn read_point16(data: &[u8], pos: &mut usize) -> (r: Option<Point<u16>>)
    requires
        *old(pos) <= data@.len(),
    ensures
        *final(pos) <= data@.len(),
        *final(pos) >= *old(pos),
        *old(pos) + 4 <= data@.len() ==> (r matches Some(e) && e == spec_point16_at(
            data@,
            *old(pos) as int,
        ) && *final(pos) == *old(pos) + 4),
        *old(pos) + 4 > data@.len() ==> r is None,
{
    let x = match read_u16(data, pos) {
        Some(v) => v,
        None => {
            return None;
        },
    };
    let y = match read_u16(data, pos) {
        Some(v) => v,
        None => {
            return None;
        },
    };
    Some(Point { x, y })
}

/// Read a colour entry in blue, green, red, alpha order.
fn read_colour(data: &[u8], pos: &mut usize) -> (r: Option<Colour>)
    requires
        *old(pos) <= data@.len(),
    ensures
        *final(pos) <= data@.len(),
        *final(pos) >= *old(pos),
        *old(pos) + 4 <= data@.len() ==> (r matches Some(e) && e == spec_colour_at(
            data@,
            *old(pos) as int,
        ) && *final(pos) == *old(pos) + 4),
        *old(pos) + 4 > data@.len() ==> r is None,
{
    let b = match read_u8(data, pos) {
        Some(v) => v,
        None => {
            return None;
        },
    };
    let g = match read_u8(data, pos) {
        Some(v) => v,
        None => {
            return None;
        },
    };
    let red = match read_u8(data, pos) {
        Some(v) => v,
        None => {
            return None;
        },
    };
    let a = match read_u8(data, pos) {
        Some(v) => v,
        None => {
            return None;
        },
    };
    Some(Colour { b, g, r: red, a })
}

/// Read an object label entry.
fn read_objlabel(data: &[u8], pos: &mut usize) -> (r: Option<ObjectLabel>)
    requires
        *old(pos) <= data@.len(),
    ensures
        *final(pos) <= data@.len(),
        *final(pos) >= *old(pos),
        *old(pos) + 7 <= data@.len() ==> (r matches Some(e) && e == spec_objlabel_at(
            data@,
            *old(pos) as int,
        ) && *final(pos) == *old(pos) + 7),
        *old(pos) + 7 > data@.len() ==> r is None,
{
    let id = match read_oid(data, pos) {
        Some(v) => v,
        None => {
            return None;
        },
    };
    let string_variable_reference = match read_oid(data, pos) {
        Some(v) => v,
        None => {
            return None;
        },
    };
    let font_type = match read_u8(data, pos) {
        Some(v) => v,
        None => {
            return None;
        },
    };
    let graphic_representation = match read_oid(data, pos) {
        Some(v) => v,
        None => {
            return None;
        },
    };
    Some(ObjectLabel { id, string_variable_reference, font_type, graphic_representation })
}

/// Read a pair of two-byte language codes.
fn read_langpair(data: &[u8], pos: &mut usize) -> (r: Option<(Vec<u8>, Vec<u8>)>)
    requires
        *old(pos) <= data@.len(),
    ensures
        *final(pos) <= data@.len(),
        *final(pos) >= *old(pos),
        *old(pos) + 4 <= data@.len() ==> (r matches Some(e) && e.0@ == data@.subrange(
            *old(pos) as int,
            *old(pos) + 2,
        ) && e.1@ == data@.subrange(*old(pos) + 2, *old(pos) + 4) && *final(pos) == *old(pos)
            + 4),
        *old(pos) + 4 > data@.len() ==> r is None,
{
    let first = match read_bytes(data, pos, 2) {
        Some(v) => v,
        None => {
            return None;
        },
    };
    let second = match read_bytes(data, pos, 2) {
        Some(v) => v,
        None => {
            return None;
        },
    };
    Some((first, second))
}

fn read_objref_list(data: &[u8], pos: &mut usize, n: usize) -> (r: Option<Vec<ObjectRef>>)
    requires
        *old(pos) <= data@.len(),
    ensures
        *final(pos) <= data@.len(),
        *final(pos) >= *old(pos),
        *old(pos) + 6 * n <= data@.len() ==> (r matches Some(v) && v@.len() == n && *final(pos)
            == *old(pos) + 6 * n && forall|k: int| 0 <= k < n ==> #[trigger] v@[k] == spec_objref_at(data@, *old(pos) + 6 * k)),
        *old(pos) + 6 * n > data@.len() ==> r is None,
{
    let mut v: Vec<ObjectRef> = Vec::new();
    let mut i: usize = 0;
    while i < n
        invariant
            i <= n,
            v@.len() == i,
            *pos <= data@.len(),
            *pos >= *old(pos),
            *pos == *old(pos) + 6 * i,
            forall|k: int| 0 <= k < i ==> #[trigger] v@[k] == spec_objref_at(data@, *old(pos) + 6 * k),
        decreases n - i,
    {
        match read_objref(data, pos) {
            Some(e) => {
                v.push(e);
            },
            None => {
                return None;
            },
        }
        i = i + 1;
    }
    Some(v)
}

fn read_macroref_list(data: &[u8], pos: &mut usize, n: usize) -> (r: Option<Vec<MacroRef>>)
    requires
        *old(pos) <= data@.len(),
    ensures
        *final(pos) <= data@.len(),
        *final(pos) >= *old(pos),
        *old(pos) + 2 * n <= data@.len() ==> (r matches Some(v) && v@.len() == n && *final(pos)
            == *old(pos) + 2 * n && forall|k: int| 0 <= k < n ==> #[trigger] v@[k] == spec_macroref_at(data@, *old(pos) + 2 * k)),
        *old(pos) + 2 * n > data@.len() ==> r is None,
{
    let mut v: Vec<MacroRef> = Vec::new();
    let mut i: usize = 0;
    while i < n
        invariant
            i <= n,
            v@.len() == i,
            *pos <= data@.len(),
            *pos >= *old(pos),
            *pos == *old(pos) + 2 * i,
            forall|k: int| 0 <= k < i ==> #[trigger] v@[k] == spec_macroref_at(data@, *old(pos) + 2 * k),
        decreases n - i,
    {
        match read_macroref(data, pos) {
            Some(e) => {
                v.push(e);
            },
            None => {
                return None;
            },
        }
        i = i + 1;
    }
    Some(v)
}

fn read_oid_list(data: &[u8], pos: &mut usize, n: usize) -> (r: Option<Vec<ObjectId>>)
    requires
        *old(pos) <= data@.len(),
    ensures
        *final(pos) <= data@.len(),
        *final(pos) >= *old(pos),
        *old(pos) + 2 * n <= data@.len() ==> (r matches Some(v) && v@.len() == n && *final(pos)
            == *old(pos) + 2 * n && forall|k: int| 0 <= k < n ==> #[trigger] v@[k] == spec_oid_at(data@, *old(pos) + 2 * k)),
        *old(pos) + 2 * n > data@.len() ==> r is None,
{
    let mut v: Vec<ObjectId> = Vec::new();
    let mut i: usize = 0;
    while i < n
        invariant
            i <= n,
            v@.len() == i,
            *pos <= data@.len(),
            *pos >= *old(pos),
            *pos == *old(pos) + 2 * i,
            forall|k: int| 0 <= k < i ==> #[trigger] v@[k] == spec_oid_at(data@, *old(pos) + 2 * k),
        decreases n - i,
    {
        match read_oid(data, pos) {
            Some(e) => {
                v.push(e);
            },
            None => {
                return None;
            },
        }
        i = i + 1;
    }
    Some(v)
}

fn read_byte_list(data: &[u8], pos: &mut usize, n: usize) -> (r: Option<Vec<u8>>)
    requires
        *old(pos) <= data@.len(),
    ensures
        *final(pos) <= data@.len(),
        *final(pos) >= *old(pos),
        *old(pos) + 1 * n <= data@.len() ==> (r matches Some(v) && v@.len() == n && *final(pos)
            == *old(pos) + 1 * n && forall|k: int| 0 <= k < n ==> #[trigger] v@[k] == data@[*old(pos) + k]),
        *old(pos) + 1 * n > data@.len() ==> r is None,
{
    let mut v: Vec<u8> = Vec::new();
    let mut i: usize = 0;
    while i < n
        invariant
            i <= n,
            v@.len() == i,
            *pos <= data@.len(),
            *pos >= *old(pos),
            *pos == *old(pos) + 1 * i,
            forall|k: int| 0 <= k < i ==> #[trigger] v@[k] == data@[*old(pos) + k],
        decreases n - i,
    {
        match read_u8(data, pos) {
            Some(e) => {
                v.push(e);
            },
            None => {
                return None;
            },
        }
        i = i + 1;
    }
    Some(v)
}

fn read_point16_list(data: &[u8], pos: &mut usize, n: usize) -> (r: Option<Vec<Point<u16>>>)
    requires
        *old(pos) <= data@.len(),
    ensures
        *final(pos) <= data@.len(),
        *final(pos) >= *old(pos),
        *old(pos) + 4 * n <= data@.len() ==> (r matches Some(v) && v@.len() == n && *final(pos)
            == *old(pos) + 4 * n && forall|k: int| 0 <= k < n ==> #[trigger] v@[k] == spec_point16_at(data@, *old(pos) + 4 * k)),
        *old(pos) + 4 * n > data@.len() ==> r is None,
{
    let mut v: Vec<Point<u16>> = Vec::new();
    let mut i: usize = 0;
    while i < n
        invariant
            i <= n,
            v@.len() == i,
            *pos <= data@.len(),
            *pos >= *old(pos),
            *pos == *old(pos) + 4 * i,
            forall|k: int| 0 <= k < i ==> #[trigger] v@[k] == spec_point16_at(data@, *old(pos) + 4 * k),
        decreases n - i,
    {
        match read_point16(data, pos) {
            Some(e) => {
                v.push(e);
            },
            None => {
                return None;
            },
        }
        i = i + 1;
    }
    Some(v)
}

fn read_colour_list(data: &[u8], pos: &mut usize, n: usize) -> (r: Option<Vec<Colour>>)
    requires
        *old(pos) <= data@.len(),
    ensures
        *final(pos) <= data@.len(),
        *final(pos) >= *old(pos),
        *old(pos) + 4 * n <= data@.len() ==> (r matches Some(v) && v@.len() == n && *final(pos)
            == *old(pos) + 4 * n && forall|k: int| 0 <= k < n ==> #[trigger] v@[k] == spec_colour_at(data@, *old(pos) + 4 * k)),
        *old(pos) + 4 * n > data@.len() ==> r is None,
{
    let mut v: Vec<Colour> = Vec::new();
    let mut i: usize = 0;
    while i < n
        invariant
            i <= n,
            v@.len() == i,
            *pos <= data@.len(),
            *pos >= *old(pos),
            *pos == *old(pos) + 4 * i,
            forall|k: int| 0 <= k < i ==> #[trigger] v@[k] == spec_colour_at(data@, *old(pos) + 4 * k),
        decreases n - i,
    {
        match read_colour(data, pos) {
            Some(e) => {
                v.push(e);
            },
            None => {
                return None;
            },
        }
        i = i + 1;
    }
    Some(v)
}

fn read_objlabel_list(data: &[u8], pos: &mut usize, n: usize) -> (r: Option<Vec<ObjectLabel>>)
    requires
        *old(pos) <= data@.len(),
    ensures
        *final(pos) <= data@.len(),
        *final(pos) >= *old(pos),
        *old(pos) + 7 * n <= data@.len() ==> (r matches Some(v) && v@.len() == n && *final(pos)
            == *old(pos) + 7 * n && forall|k: int| 0 <= k < n ==> #[trigger] v@[k] == spec_objlabel_at(data@, *old(pos) + 7 * k)),
        *old(pos) + 7 * n > data@.len() ==> r is None,
{
    let mut v: Vec<ObjectLabel> = Vec::new();
    let mut i: usize = 0;
    while i < n
        invariant
            i <= n,
            v@.len() == i,
            *pos <= data@.len(),
            *pos >= *old(pos),
            *pos == *old(pos) + 7 * i,
            forall|k: int| 0 <= k < i ==> #[trigger] v@[k] == spec_objlabel_at(data@, *old(pos) + 7 * k),
        decreases n - i,
    {
        match read_objlabel(data, pos) {
            Some(e) => {
                v.push(e);
            },
            None => {
                return None;
            },
        }
        i = i + 1;
    }
    Some(v)
}

fn read_langpair_list(data: &[u8], pos: &mut usize, n: usize) -> (r: Option<Vec<(Vec<u8>, Vec<u8>)>>)
    requires
        *old(pos) <= data@.len(),
    ensures
        *final(pos) <= data@.len(),
        *final(pos) >= *old(pos),
        *old(pos) + 4 * n <= data@.len() ==> (r matches Some(v) && v@.len() == n && *final(pos)
            == *old(pos) + 4 * n && forall|k: int| 0 <= k < n ==> (#[trigger] v@[k]).0@ == data@.subrange(*old(pos) + 4 * k, *old(pos) + 4 * k + 2) && v@[k].1@ == data@.subrange(*old(pos) + 4 * k + 2, *old(pos) + 4 * k + 4)),
        *old(pos) + 4 * n > data@.len() ==> r is None,
{
    let mut v: Vec<(Vec<u8>, Vec<u8>)> = Vec::new();
    let mut i: usize = 0;
    while i < n
        invariant
            i <= n,
            v@.len() == i,
            *pos <= data@.len(),
            *pos >= *old(pos),
            *pos == *old(pos) + 4 * i,
            forall|k: int| 0 <= k < i ==> (#[trigger] v@[k]).0@ == data@.subrange(*old(pos) + 4 * k, *old(pos) + 4 * k + 2) && v@[k].1@ == data@.subrange(*old(pos) + 4 * k + 2, *old(pos) + 4 * k + 4),
        decreases n - i,
    {
        match read_langpair(data, pos) {
            Some(e) => {
                v.push(e);
            },
            None => {
                return None;
            },
        }
        i = i + 1;
    }
    Some(v)
}

fn read_str2_list(data: &[u8], pos: &mut usize, n: usize) -> (r: Option<Vec<Vec<u8>>>)
    requires
        *old(pos) <= data@.len(),
    ensures
        *final(pos) <= data@.len(),
        *final(pos) >= *old(pos),
        *old(pos) + 2 * n <= data@.len() ==> (r matches Some(v) && v@.len() == n && *final(pos)
            == *old(pos) + 2 * n && forall|k: int|
            0 <= k < n ==> (#[trigger] v@[k])@ == data@.subrange(
                *old(pos) + 2 * k,
                *old(pos) + 2 * k + 2,
            )),
        *old(pos) + 2 * n > data@.len() ==> r is None,
{
    let mut v: Vec<Vec<u8>> = Vec::new();
    let mut i: usize = 0;
    while i < n
        invariant
            i <= n,
            v@.len() == i,
            *pos <= data@.len(),
            *pos >= *old(pos),
            *pos == *old(pos) + 2 * i,
            forall|k: int|
                0 <= k < i ==> (#[trigger] v@[k])@ == data@.subrange(
                    *old(pos) + 2 * k,
                    *old(pos) + 2 * k + 2,
                ),
        decreases n - i,
    {
        match read_bytes(data, pos, 2) {
            Some(e) => {
                v.push(e);
            },
            None => {
                return None;
            },
        }
        i = i + 1;
    }
    Some(v)
}

/// Whether a complete WorkingSet body lies in `d` at `p`.
pub open spec fn spec_working_set_fits(d: Seq<u8>, p: int) -> bool {
    let n_object_refs = d[p + 1 + 1 + 2] as int;
    let n_macro_refs = d[p + 1 + 1 + 2 + 1] as int;
    let n_language_codes = d[p + 1 + 1 + 2 + 1 + 1] as int;
    p + 1 + 1 + 2 + 1 + 1 + 1 + 6 * n_object_refs + 2 * n_macro_refs + 2 * n_language_codes <= d.len()
}

/// The WorkingSet parsed from `d` at `p`, its fields pinned to the input
/// bytes and `end` to the position one past its body.
pub open spec fn spec_working_set_read(d: Seq<u8>, p: int, id: ObjectId, o: WorkingSet, end: int) -> bool {
    let n_object_refs = d[p + 1 + 1 + 2] as int;
    let n_macro_refs = d[p + 1 + 1 + 2 + 1] as int;
    let n_language_codes = d[p + 1 + 1 + 2 + 1 + 1] as int;
    {
        &&& o.id == id
        &&& o.background_colour == d[p]
        &&& o.selectable == (d[p + 1] != 0)
        &&& o.active_mask == spec_oid_at(d, p + 1 + 1)
        &&& o.object_refs@.len() == n_object_refs
        &&& forall|k: int| 0 <= k < n_object_refs ==> #[trigger] o.object_refs@[k] == spec_objref_at(d, p + 1 + 1 + 2 + 1 + 1 + 1 + 6 * k)
        &&& o.macro_refs@.len() == n_macro_refs
        &&& forall|k: int| 0 <= k < n_macro_refs ==> #[trigger] o.macro_refs@[k] == spec_macroref_at(d, p + 1 + 1 + 2 + 1 + 1 + 1 + 6 * n_object_refs + 2 * k)
        &&& o.language_codes@.len() == n_language_codes
        &&& forall|k: int| 0 <= k < n_language_codes ==> (#[trigger] o.language_codes@[k])@ == d.subrange(p + 1 + 1 + 2 + 1 + 1 + 1 + 6 * n_object_refs + 2 * n_macro_refs + 2 * k, p + 1 + 1 + 2 + 1 + 1 + 1 + 6 * n_object_refs + 2 * n_macro_refs + 2 * k + 2)
        &&& end == p + 1 + 1 + 2 + 1 + 1 + 1 + 6 * n_object_refs + 2 * n_macro_refs + 2 * n_language_codes
    }
}

fn read_working_set(data: &[u8], pos: &mut usize, id: ObjectId) -> (r: Option<WorkingSet>)
    requires
        *old(pos) <= data@.len(),
    ensures
        *final(pos) <= data@.len(),
        *final(pos) >= *old(pos),
        (r is Some) <==> spec_working_set_fits(data@, *old(pos) as int),
        r matches Some(o) ==> spec_working_set_read(data@, *old(pos) as int, id, o, *final(pos) as int),
{
    let background_colour = match read_u8(data, pos) {
        Some(v) => v,
        None => {
            return None;
        },
    };
    let selectable = match read_bool(data, pos) {
        Some(v) => v,
        None => {
            return None;
        },
    };
    let active_mask = match read_oid(data, pos) {
        Some(v) => v,
        None => {
            return None;
        },
    };
    let n_object_refs = match read_u8(data, pos) {
        Some(v) => v as usize,
        None => {
            return None;
        },
    };
    let n_macro_refs = match read_u8(data, pos) {
        Some(v) => v as usize,
        None => {
            return None;
        },
    };
    let n_language_codes = match read_u8(data, pos) {
        Some(v) => v as usize,
        None => {
            return None;
        },
    };
    let object_refs = match read_objref_list(data, pos, n_object_refs) {
        Some(v) => v,
        None => {
            return None;
        },
    };
    let macro_refs = match read_macroref_list(data, pos, n_macro_refs) {
        Some(v) => v,
        None => {
            return None;
        },
    };
    let language_codes = match read_str2_list(data, pos, n_language_codes) {
        Some(v) => v,
        None => {
            return None;
        },
    };
    Some(WorkingSet { id, background_colour, selectable, active_mask, object_refs, macro_refs, language_codes })
}

/// Whether a complete DataMask body lies in `d` at `p`.
pub open spec fn spec_data_mask_fits(d: Seq<u8>, p: int) -> bool {
    let n_object_refs = d[p + 1 + 2] as int;
    let n_macro_refs = d[p + 1 + 2 + 1] as int;
    p + 1 + 2 + 1 + 1 + 6 * n_object_refs + 2 * n_macro_refs <= d.len()
}

/// The DataMask parsed from `d` at `p`, its fields pinned to the input
/// bytes and `end` to the position one past its body.
pub open spec fn spec_data_mask_read(d: Seq<u8>, p: int, id: ObjectId, o: DataMask, end: int) -> bool {
    let n_object_refs = d[p + 1 + 2] as int;
    let n_macro_refs = d[p + 1 + 2 + 1] as int;
    {
        &&& o.id == id
        &&& o.background_colour == d[p]
        &&& o.soft_key_mask == spec_oid_at(d, p + 1)
        &&& o.object_refs@.len() == n_object_refs
        &&& forall|k: int| 0 <= k < n_object_refs ==> #[trigger] o.object_refs@[k] == spec_objref_at(d, p + 1 + 2 + 1 + 1 + 6 * k)
        &&& o.macro_refs@.len() == n_macro_refs
        &&& forall|k: int| 0 <= k < n_macro_refs ==> #[trigger] o.macro_refs@[k] == spec_macroref_at(d, p + 1 + 2 + 1 + 1 + 6 * n_object_refs + 2 * k)
        &&& end == p + 1 + 2 + 1 + 1 + 6 * n_object_refs + 2 * n_macro_refs
    }
}

fn read_data_mask(data: &[u8], pos: &mut usize, id: ObjectId) -> (r: Option<DataMask>)
    requires
        *old(pos) <= data@.len(),
    ensures
        *final(pos) <= data@.len(),
        *final(pos) >= *old(pos),
        (r is Some) <==> spec_data_mask_fits(data@, *old(pos) as int),
        r matches Some(o) ==> spec_data_mask_read(data@, *old(pos) as int, id, o, *final(pos) as int),
{
    let background_colour = match read_u8(data, pos) {
        Some(v) => v,
        None => {
            return None;
        },
    };
    let soft_key_mask = match read_oid(data, pos) {
        Some(v) => v,
        None => {
            return None;
        },
    };
    let n_object_refs = match read_u8(data, pos) {
        Some(v) => v as usize,
        None => {
            return None;
        },
    };
    let n_macro_refs = match read_u8(data, pos) {
        Some(v) => v as usize,
        None => {
            return None;
        },
    };
    let object_refs = match read_objref_list(data, pos, n_object_refs) {
        Some(v) => v,
        None => {
            return None;
        },
    };
    let macro_refs = match read_macroref_list(data, pos, n_macro_refs) {
        Some(v) => v,
        None => {
            return None;
        },
    };
    Some(DataMask { id, background_colour, soft_key_mask, object_refs, macro_refs })
}

/// Whether a complete AlarmMask body lies in `d` at `p`.
pub open spec fn spec_alarm_mask_fits(d: Seq<u8>, p: int) -> bool {
    let n_object_refs = d[p + 1 + 2 + 1 + 1] as int;
    let n_macro_refs = d[p + 1 + 2 + 1 + 1 + 1] as int;
    p + 1 + 2 + 1 + 1 + 1 + 1 + 6 * n_object_refs + 2 * n_macro_refs <= d.len()
}

/// The AlarmMask parsed from `d` at `p`, its fields pinned to the input
/// bytes and `end` to the position one past its body.
pub open spec fn spec_alarm_mask_read(d: Seq<u8>, p: int, id: ObjectId, o: AlarmMask, end: int) -> bool {
    let n_object_refs = d[p + 1 + 2 + 1 + 1] as int;
    let n_macro_refs = d[p + 1 + 2 + 1 + 1 + 1] as int;
    {
        &&& o.id == id
        &&& o.background_colour == d[p]
        &&& o.soft_key_mask == spec_oid_at(d, p + 1)
        &&& o.priority == d[p + 1 + 2]
        &&& o.acoustic_signal == d[p + 1 + 2 + 1]
        &&& o.object_refs@.len() == n_object_refs
        &&& forall|k: int| 0 <= k < n_object_refs ==> #[trigger] o.object_refs@[k] == spec_objref_at(d, p + 1 + 2 + 1 + 1 + 1 + 1 + 6 * k)
        &&& o.macro_refs@.len() == n_macro_refs
        &&& forall|k: int| 0 <= k < n_macro_refs ==> #[trigger] o.macro_refs@[k] == spec_macroref_at(d, p + 1 + 2 + 1 + 1 + 1 + 1 + 6 * n_object_refs + 2 * k)
        &&& end == p + 1 + 2 + 1 + 1 + 1 + 1 + 6 * n_object_refs + 2 * n_macro_refs
    }
}

fn read_alarm_mask(data: &[u8], pos: &mut usize, id: ObjectId) -> (r: Option<AlarmMask>)
    requires
        *old(pos) <= data@.len(),
    ensures
        *final(pos) <= data@.len(),
        *final(pos) >= *old(pos),
        (r is Some) <==> spec_alarm_mask_fits(data@, *old(pos) as int),
        r matches Some(o) ==> spec_alarm_mask_read(data@, *old(pos) as int, id, o, *final(pos) as int),
{
    let background_colour = match read_u8(data, pos) {
        Some(v) => v,
        None => {
            return None;
        },
    };
    let soft_key_mask = match read_oid(data, pos) {
        Some(v) => v,
        None => {
            return None;
        },
    };
    let priority = match read_u8(data, pos) {
        Some(v) => v,
        None => {
            return None;
        },
    };
    let acoustic_signal = match read_u8(data, pos) {
        Some(v) => v,
        None => {
            return None;
        },
    };
    let n_object_refs = match read_u8(data, pos) {
        Some(v) => v as usize,
        None => {
            return None;
        },
    };
    let n_macro_refs = match read_u8(data, pos) {
        Some(v) => v as usize,
        None => {
            return None;
        },
    };
    let object_refs = match read_objref_list(data, pos, n_object_refs) {
        Some(v) => v,
        None => {
            return None;
        },
    };
    let macro_refs = match read_macroref_list(data, pos, n_macro_refs) {
        Some(v) => v,
        None => {
            return None;
        },
    };
    Some(AlarmMask { id, background_colour, soft_key_mask, priority, acoustic_signal, object_refs, macro_refs })
}

/// Whether a complete Container body lies in `d` at `p`.
pub open spec fn spec_container_fits(d: Seq<u8>, p: int) -> bool {
    let n_object_refs = d[p + 2 + 2 + 1] as int;
    let n_macro_refs = d[p + 2 + 2 + 1 + 1] as int;
    p + 2 + 2 + 1 + 1 + 1 + 6 * n_object_refs + 2 * n_macro_refs <= d.len()
}

/// The Container parsed from `d` at `p`, its fields pinned to the input
/// bytes and `end` to the position one past its body.
pub open spec fn spec_container_read(d: Seq<u8>, p: int, id: ObjectId, o: Container, end: int) -> bool {
    let n_object_refs = d[p + 2 + 2 + 1] as int;
    let n_macro_refs = d[p + 2 + 2 + 1 + 1] as int;
    {
        &&& o.id == id
        &&& o.width == spec_u16_at(d, p)
        &&& o.height == spec_u16_at(d, p + 2)
        &&& o.hidden == (d[p + 2 + 2] != 0)
        &&& o.object_refs@.len() == n_object_refs
        &&& forall|k: int| 0 <= k < n_object_refs ==> #[trigger] o.object_refs@[k] == spec_objref_at(d, p + 2 + 2 + 1 + 1 + 1 + 6 * k)
        &&& o.macro_refs@.len() == n_macro_refs
        &&& forall|k: int| 0 <= k < n_macro_refs ==> #[trigger] o.macro_refs@[k] == spec_macroref_at(d, p + 2 + 2 + 1 + 1 + 1 + 6 * n_object_refs + 2 * k)
        &&& end == p + 2 + 2 + 1 + 1 + 1 + 6 * n_object_refs + 2 * n_macro_refs
    }
}

fn read_container(data: &[u8], pos: &mut usize, id: ObjectId) -> (r: Option<Container>)
    requires
        *old(pos) <= data@.len(),
    ensures
        *final(pos) <= data@.len(),
        *final(pos) >= *old(pos),
        (r is Some) <==> spec_container_fits(data@, *old(pos) as int),
        r matches Some(o) ==> spec_container_read(data@, *old(pos) as int, id, o, *final(pos) as int),
{
    let width = match read_u16(data, pos) {
        Some(v) => v,
        None => {
            return None;
        },
    };
    let height = match read_u16(data, pos) {
        Some(v) => v,
        None => {
            return None;
        },
    };
    let hidden = match read_bool(data, pos) {
        Some(v) => v,
        None => {
            return None;
        },
    };
    let n_object_refs = match read_u8(data, pos) {
        Some(v) => v as usize,
        None => {
            return None;
        },
    };
    let n_macro_refs = match read_u8(data, pos) {
        Some(v) => v as usize,
        None => {
            return None;
        },
    };
    let object_refs = match read_objref_list(data, pos, n_object_refs) {
        Some(v) => v,
        None => {
            return None;
        },
    };
    let macro_refs = match read_macroref_list(data, pos, n_macro_refs) {
        Some(v) => v,
        None => {
            return None;
        },
    };
    Some(Container { id, width, height, hidden, object_refs, macro_refs })
}

/// Whether a complete SoftKeyMask body lies in `d` at `p`.
pub open spec fn spec_soft_key_mask_fits(d: Seq<u8>, p: int) -> bool {
    let n_objects = d[p + 1] as int;
    let n_macro_refs = d[p + 1 + 1] as int;
    p + 1 + 1 + 1 + 2 * n_objects + 2 * n_macro_refs <= d.len()
}

/// The SoftKeyMask parsed from `d` at `p`, its fields pinned to the input
/// bytes and `end` to the position one past its body.
pub open spec fn spec_soft_key_mask_read(d: Seq<u8>, p: int, id: ObjectId, o: SoftKeyMask, end: int) -> bool {
    let n_objects = d[p + 1] as int;
    let n_macro_refs = d[p + 1 + 1] as int;
    {
        &&& o.id == id
        &&& o.background_colour == d[p]
        &&& o.objects@.len() == n_objects
        &&& forall|k: int| 0 <= k < n_objects ==> #[trigger] o.objects@[k] == spec_oid_at(d, p + 1 + 1 + 1 + 2 * k)
        &&& o.macro_refs@.len() == n_macro_refs
        &&& forall|k: int| 0 <= k < n_macro_refs ==> #[trigger] o.macro_refs@[k] == spec_macroref_at(d, p + 1 + 1 + 1 + 2 * n_objects + 2 * k)
        &&& end == p + 1 + 1 + 1 + 2 * n_objects + 2 * n_macro_refs
    }
}

fn read_soft_key_mask(data: &[u8], pos: &mut usize, id: ObjectId) -> (r: Option<SoftKeyMask>)
    requires
        *old(pos) <= data@.len(),
    ensures
        *final(pos) <= data@.len(),
        *final(pos) >= *old(pos),
        (r is Some) <==> spec_soft_key_mask_fits(data@, *old(pos) as int),
        r matches Some(o) ==> spec_soft_key_mask_read(data@, *old(pos) as int, id, o, *final(pos) as int),
{
    let background_colour = match read_u8(data, pos) {
        Some(v) => v,
        None => {
            return None;
        },
    };
    let n_objects = match read_u8(data, pos) {
        Some(v) => v as usize,
        None => {
            return None;
        },
    };
    let n_macro_refs = match read_u8(data, pos) {
        Some(v) => v as usize,
        None => {
            return None;
        },
    };
    let objects = match read_oid_list(data, pos, n_objects) {
        Some(v) => v,
        None => {
            return None;
        },
    };
    let macro_refs = match read_macroref_list(data, pos, n_macro_refs) {
        Some(v) => v,
        None => {
            return None;
        },
    };
    Some(SoftKeyMask { id, background_colour, objects, macro_refs })
}

/// Whether a complete Key body lies in `d` at `p`.
pub open spec fn spec_key_fits(d: Seq<u8>, p: int) -> bool {
    let n_object_refs = d[p + 1 + 1] as int;
    let n_macro_refs = d[p + 1 + 1 + 1] as int;
    p + 1 + 1 + 1 + 1 + 6 * n_object_refs + 2 * n_macro_refs <= d.len()
}

/// The Key parsed from `d` at `p`, its fields pinned to the input
/// bytes and `end` to the position one past its body.
pub open spec fn spec_key_read(d: Seq<u8>, p: int, id: ObjectId, o: Key, end: int) -> bool {
    let n_object_refs = d[p + 1 + 1] as int;
    let n_macro_refs = d[p + 1 + 1 + 1] as int;
    {
        &&& o.id == id
        &&& o.background_colour == d[p]
        &&& o.key_code == d[p + 1]
        &&& o.object_refs@.len() == n_object_refs
        &&& forall|k: int| 0 <= k < n_object_refs ==> #[trigger] o.object_refs@[k] == spec_objref_at(d, p + 1 + 1 + 1 + 1 + 6 * k)
        &&& o.macro_refs@.len() == n_macro_refs
        &&& forall|k: int| 0 <= k < n_macro_refs ==> #[trigger] o.macro_refs@[k] == spec_macroref_at(d, p + 1 + 1 + 1 + 1 + 6 * n_object_refs + 2 * k)
        &&& end == p + 1 + 1 + 1 + 1 + 6 * n_object_refs + 2 * n_macro_refs
    }
}

fn read_key(data: &[u8], pos: &mut usize, id: ObjectId) -> (r: Option<Key>)
    requires
        *old(pos) <= data@.len(),
    ensures
        *final(pos) <= data@.len(),
        *final(pos) >= *old(pos),
        (r is Some) <==> spec_key_fits(data@, *old(pos) as int),
        r matches Some(o) ==> spec_key_read(data@, *old(pos) as int, id, o, *final(pos) as int),
{
    let background_colour = match read_u8(data, pos) {
        Some(v) => v,
        None => {
            return None;
        },
    };
    let key_code = match read_u8(data, pos) {
        Some(v) => v,
        None => {
            return None;
        },
    };
    let n_object_refs = match read_u8(data, pos) {
        Some(v) => v as usize,
        None => {
            return None;
        },
    };
    let n_macro_refs = match read_u8(data, pos) {
        Some(v) => v as usize,
        None => {
            return None;
        },
    };
    let object_refs = match read_objref_list(data, pos, n_object_refs) {
        Some(v) => v,
        None => {
            return None;
        },
    };
    let macro_refs = match read_macroref_list(data, pos, n_macro_refs) {
        Some(v) => v,
        None => {
            return None;
        },
    };
    Some(Key { id, background_colour, key_code, object_refs, macro_refs })
}

/// Whether a complete Button body lies in `d` at `p`.
pub open spec fn spec_button_fits(d: Seq<u8>, p: int) -> bool {
    let n_object_refs = d[p + 2 + 2 + 1 + 1 + 1 + 1] as int;
    let n_macro_refs = d[p + 2 + 2 + 1 + 1 + 1 + 1 + 1] as int;
    p + 2 + 2 + 1 + 1 + 1 + 1 + 1 + 1 + 6 * n_object_refs + 2 * n_macro_refs <= d.len()
}

/// The Button parsed from `d` at `p`, its fields pinned to the input
/// bytes and `end` to the position one past its body.
pub open spec fn spec_button_read(d: Seq<u8>, p: int, id: ObjectId, o: Button, end: int) -> bool {
    let n_object_refs = d[p + 2 + 2 + 1 + 1 + 1 + 1] as int;
    let n_macro_refs = d[p + 2 + 2 + 1 + 1 + 1 + 1 + 1] as int;
    {
        &&& o.id == id
        &&& o.width == spec_u16_at(d, p)
        &&& o.height == spec_u16_at(d, p + 2)
        &&& o.background_colour == d[p + 2 + 2]
        &&& o.border_colour == d[p + 2 + 2 + 1]
        &&& o.key_code == d[p + 2 + 2 + 1 + 1]
        &&& o.options == d[p + 2 + 2 + 1 + 1 + 1]
        &&& o.object_refs@.len() == n_object_refs
        &&& forall|k: int| 0 <= k < n_object_refs ==> #[trigger] o.object_refs@[k] == spec_objref_at(d, p + 2 + 2 + 1 + 1 + 1 + 1 + 1 + 1 + 6 * k)
        &&& o.macro_refs@.len() == n_macro_refs
        &&& forall|k: int| 0 <= k < n_macro_refs ==> #[trigger] o.macro_refs@[k] == spec_macroref_at(d, p + 2 + 2 + 1 + 1 + 1 + 1 + 1 + 1 + 6 * n_object_refs + 2 * k)
        &&& end == p + 2 + 2 + 1 + 1 + 1 + 1 + 1 + 1 + 6 * n_object_refs + 2 * n_macro_refs
    }
}

fn read_button(data: &[u8], pos: &mut usize, id: ObjectId) -> (r: Option<Button>)
    requires
        *old(pos) <= data@.len(),
    ensures
        *final(pos) <= data@.len(),
        *final(pos) >= *old(pos),
        (r is Some) <==> spec_button_fits(data@, *old(pos) as int),
        r matches Some(o) ==> spec_button_read(data@, *old(pos) as int, id, o, *final(pos) as int),
{
    let width = match read_u16(data, pos) {
        Some(v) => v,
        None => {
            return None;
        },
    };
    let height = match read_u16(data, pos) {
        Some(v) => v,
        None => {
            return None;
        },
    };
    let background_colour = match read_u8(data, pos) {
        Some(v) => v,
        None => {
            return None;
        },
    };
    let border_colour = match read_u8(data, pos) {
        Some(v) => v,
        None => {
            return None;
        },
    };
    let key_code = match read_u8(data, pos) {
        Some(v) => v,
        None => {
            return None;
        },
    };
    let options = match read_u8(data, pos) {
        Some(v) => v,
        None => {
            return None;
        },
    };
    let n_object_refs = match read_u8(data, pos) {
        Some(v) => v as usize,
        None => {
            return None;
        },
    };
    let n_macro_refs = match read_u8(data, pos) {
        Some(v) => v as usize,
        None => {
            return None;
        },
    };
    let object_refs = match read_objref_list(data, pos, n_object_refs) {
        Some(v) => v,
        None => {
            return None;
        },
    };
    let macro_refs = match read_macroref_list(data, pos, n_macro_refs) {
        Some(v) => v,
        None => {
            return None;
        },
    };
    Some(Button { id, width, height, background_colour, border_colour, key_code, options, object_refs, macro_refs })
}

/// Whether a complete InputBoolean body lies in `d` at `p`.
pub open spec fn spec_input_boolean_fits(d: Seq<u8>, p: int) -> bool {
    let n_macro_refs = d[p + 1 + 2 + 2 + 2 + 1 + 1] as int;
    p + 1 + 2 + 2 + 2 + 1 + 1 + 1 + 2 * n_macro_refs <= d.len()
}

/// The InputBoolean parsed from `d` at `p`, its fields pinned to the input
/// bytes and `end` to the position one past its body.
pub open spec fn spec_input_boolean_read(d: Seq<u8>, p: int, id: ObjectId, o: InputBoolean, end: int) -> bool {
    let n_macro_refs = d[p + 1 + 2 + 2 + 2 + 1 + 1] as int;
    {
        &&& o.id == id
        &&& o.background_colour == d[p]
        &&& o.width == spec_u16_at(d, p + 1)
        &&& o.foreground_colour == spec_oid_at(d, p + 1 + 2)
        &&& o.variable_reference == spec_oid_at(d, p + 1 + 2 + 2)
        &&& o.value == (d[p + 1 + 2 + 2 + 2] != 0)
        &&& o.enabled == (d[p + 1 + 2 + 2 + 2 + 1] != 0)
        &&& o.macro_refs@.len() == n_macro_refs
        &&& forall|k: int| 0 <= k < n_macro_refs ==> #[trigger] o.macro_refs@[k] == spec_macroref_at(d, p + 1 + 2 + 2 + 2 + 1 + 1 + 1 + 2 * k)
        &&& end == p + 1 + 2 + 2 + 2 + 1 + 1 + 1 + 2 * n_macro_refs
    }
}

fn read_input_boolean(data: &[u8], pos: &mut usize, id: ObjectId) -> (r: Option<InputBoolean>)
    requires
        *old(pos) <= data@.len(),
    ensures
        *final(pos) <= data@.len(),
        *final(pos) >= *old(pos),
        (r is Some) <==> spec_input_boolean_fits(data@, *old(pos) as int),
        r matches Some(o) ==> spec_input_boolean_read(data@, *old(pos) as int, id, o, *final(pos) as int),
{
    let background_colour = match read_u8(data, pos) {
        Some(v) => v,
        None => {
            return None;
        },
    };
    let width = match read_u16(data, pos) {
        Some(v) => v,
        None => {
            return None;
        },
    };
    let foreground_colour = match read_oid(data, pos) {
        Some(v) => v,
        None => {
            return None;
        },
    };
    let variable_reference = match read_oid(data, pos) {
        Some(v) => v,
        None => {
            return None;
        },
    };
    let value = match read_bool(data, pos) {
        Some(v) => v,
        None => {
            return None;
        },
    };
    let enabled = match read_bool(data, pos) {
        Some(v) => v,
        None => {
            return None;
        },
    };
    let n_macro_refs = match read_u8(data, pos) {
        Some(v) => v as usize,
        None => {
            return None;
        },
    };
    let macro_refs = match read_macroref_list(data, pos, n_macro_refs) {
        Some(v) => v,
        None => {
            return None;
        },
    };
    Some(InputBoolean { id, background_colour, width, foreground_colour, variable_reference, value, enabled, macro_refs })
}

/// Whether a complete InputString body lies in `d` at `p`.
pub open spec fn spec_input_string_fits(d: Seq<u8>, p: int) -> bool {
    let len_value = d[p + 2 + 2 + 1 + 2 + 2 + 1 + 2 + 1] as int;
    let n_macro_refs = d[p + 2 + 2 + 1 + 2 + 2 + 1 + 2 + 1 + 1 + len_value + 1] as int;
    p + 2 + 2 + 1 + 2 + 2 + 1 + 2 + 1 + 1 <= d.len() && p + 2 + 2 + 1 + 2 + 2 + 1 + 2 + 1 + 1 + len_value + 1 + 1 + 2 * n_macro_refs <= d.len()
}

/// The InputString parsed from `d` at `p`, its fields pinned to the input
/// bytes and `end` to the position one past its body.
pub open spec fn spec_input_string_read(d: Seq<u8>, p: int, id: ObjectId, o: InputString, end: int) -> bool {
    let len_value = d[p + 2 + 2 + 1 + 2 + 2 + 1 + 2 + 1] as int;
    let n_macro_refs = d[p + 2 + 2 + 1 + 2 + 2 + 1 + 2 + 1 + 1 + len_value + 1] as int;
    {
        &&& o.id == id
        &&& o.width == spec_u16_at(d, p)
        &&& o.height == spec_u16_at(d, p + 2)
        &&& o.background_colour == d[p + 2 + 2]
        &&& o.font_attributes == spec_oid_at(d, p + 2 + 2 + 1)
        &&& o.input_attributes == spec_oid_at(d, p + 2 + 2 + 1 + 2)
        &&& o.options == d[p + 2 + 2 + 1 + 2 + 2]
        &&& o.variable_reference == spec_oid_at(d, p + 2 + 2 + 1 + 2 + 2 + 1)
        &&& o.justification == d[p + 2 + 2 + 1 + 2 + 2 + 1 + 2]
        &&& o.value@ == d.subrange(p + 2 + 2 + 1 + 2 + 2 + 1 + 2 + 1 + 1, p + 2 + 2 + 1 + 2 + 2 + 1 + 2 + 1 + 1 + len_value)
        &&& o.enabled == (d[p + 2 + 2 + 1 + 2 + 2 + 1 + 2 + 1 + 1 + len_value] != 0)
        &&& o.macro_refs@.len() == n_macro_refs
        &&& forall|k: int| 0 <= k < n_macro_refs ==> #[trigger] o.macro_refs@[k] == spec_macroref_at(d, p + 2 + 2 + 1 + 2 + 2 + 1 + 2 + 1 + 1 + len_value + 1 + 1 + 2 * k)
        &&& end == p + 2 + 2 + 1 + 2 + 2 + 1 + 2 + 1 + 1 + len_value + 1 + 1 + 2 * n_macro_refs
    }
}

fn read_input_string(data: &[u8], pos: &mut usize, id: ObjectId) -> (r: Option<InputString>)
    requires
        *old(pos) <= data@.len(),
    ensures
        *final(pos) <= data@.len(),
        *final(pos) >= *old(pos),
        (r is Some) <==> spec_input_string_fits(data@, *old(pos) as int),
        r matches Some(o) ==> spec_input_string_read(data@, *old(pos) as int, id, o, *final(pos) as int),
{
    let width = match read_u16(data, pos) {
        Some(v) => v,
        None => {
            return None;
        },
    };
    let height = match read_u16(data, pos) {
        Some(v) => v,
        None => {
            return None;
        },
    };
    let background_colour = match read_u8(data, pos) {
        Some(v) => v,
        None => {
            return None;
        },
    };
    let font_attributes = match read_oid(data, pos) {
        Some(v) => v,
        None => {
            return None;
        },
    };
    let input_attributes = match read_oid(data, pos) {
        Some(v) => v,
        None => {
            return None;
        },
    };
    let options = match read_u8(data, pos) {
        Some(v) => v,
        None => {
            return None;
        },
    };
    let variable_reference = match read_oid(data, pos) {
        Some(v) => v,
        None => {
            return None;
        },
    };
    let justification = match read_u8(data, pos) {
        Some(v) => v,
        None => {
            return None;
        },
    };
    let len_value = match read_u8(data, pos) {
        Some(v) => v as usize,
        None => {
            return None;
        },
    };
    let value = match read_bytes(data, pos, len_value) {
        Some(v) => v,
        None => {
            return None;
        },
    };
    let enabled = match read_bool(data, pos) {
        Some(v) => v,
        None => {
            return None;
        },
    };
    let n_macro_refs = match read_u8(data, pos) {
        Some(v) => v as usize,
        None => {
            return None;
        },
    };
    let macro_refs = match read_macroref_list(data, pos, n_macro_refs) {
        Some(v) => v,
        None => {
            return None;
        },
    };
    Some(InputString { id, width, height, background_colour, font_attributes, input_attributes, options, variable_reference, justification, value, enabled, macro_refs })
}

/// Whether a complete InputNumber body lies in `d` at `p`.
pub open spec fn spec_input_number_fits(d: Seq<u8>, p: int) -> bool {
    let n_macro_refs = d[p + 2 + 2 + 1 + 2 + 1 + 2 + 4 + 4 + 4 + 4 + 4 + 1 + 1 + 1 + 1] as int;
    p + 2 + 2 + 1 + 2 + 1 + 2 + 4 + 4 + 4 + 4 + 4 + 1 + 1 + 1 + 1 + 1 + 2 * n_macro_refs <= d.len()
}

/// The InputNumber parsed from `d` at `p`, its fields pinned to the input
/// bytes and `end` to the position one past its body.
pub open spec fn spec_input_number_read(d: Seq<u8>, p: int, id: ObjectId, o: InputNumber, end: int) -> bool {
    let n_macro_refs = d[p + 2 + 2 + 1 + 2 + 1 + 2 + 4 + 4 + 4 + 4 + 4 + 1 + 1 + 1 + 1] as int;
    {
        &&& o.id == id
        &&& o.width == spec_u16_at(d, p)
        &&& o.height == spec_u16_at(d, p + 2)
        &&& o.background_colour == d[p + 2 + 2]
        &&& o.font_attributes == spec_oid_at(d, p + 2 + 2 + 1)
        &&& o.options == d[p + 2 + 2 + 1 + 2]
        &&& o.variable_reference == spec_oid_at(d, p + 2 + 2 + 1 + 2 + 1)
        &&& o.value == spec_u32_at(d, p + 2 + 2 + 1 + 2 + 1 + 2)
        &&& o.min_value == spec_u32_at(d, p + 2 + 2 + 1 + 2 + 1 + 2 + 4)
        &&& o.max_value == spec_u32_at(d, p + 2 + 2 + 1 + 2 + 1 + 2 + 4 + 4)
        &&& o.offset == spec_u32_at(d, p + 2 + 2 + 1 + 2 + 1 + 2 + 4 + 4 + 4) as i32
        &&& o.scale == spec_u32_at(d, p + 2 + 2 + 1 + 2 + 1 + 2 + 4 + 4 + 4 + 4)
        &&& o.nr_of_decimals == d[p + 2 + 2 + 1 + 2 + 1 + 2 + 4 + 4 + 4 + 4 + 4]
        &&& o.format == (d[p + 2 + 2 + 1 + 2 + 1 + 2 + 4 + 4 + 4 + 4 + 4 + 1] != 0)
        &&& o.justification == d[p + 2 + 2 + 1 + 2 + 1 + 2 + 4 + 4 + 4 + 4 + 4 + 1 + 1]
        &&& o.options2 == d[p + 2 + 2 + 1 + 2 + 1 + 2 + 4 + 4 + 4 + 4 + 4 + 1 + 1 + 1]
        &&& o.macro_refs@.len() == n_macro_refs
        &&& forall|k: int| 0 <= k < n_macro_refs ==> #[trigger] o.macro_refs@[k] == spec_macroref_at(d, p + 2 + 2 + 1 + 2 + 1 + 2 + 4 + 4 + 4 + 4 + 4 + 1 + 1 + 1 + 1 + 1 + 2 * k)
        &&& end == p + 2 + 2 + 1 + 2 + 1 + 2 + 4 + 4 + 4 + 4 + 4 + 1 + 1 + 1 + 1 + 1 + 2 * n_macro_refs
    }
}

fn read_input_number(data: &[u8], pos: &mut usize, id: ObjectId) -> (r: Option<InputNumber>)
    requires
        *old(pos) <= data@.len(),
    ensures
        *final(pos) <= data@.len(),
        *final(pos) >= *old(pos),
        (r is Some) <==> spec_input_number_fits(data@, *old(pos) as int),
        r matches Some(o) ==> spec_input_number_read(data@, *old(pos) as int, id, o, *final(pos) as int),
{
    let width = match read_u16(data, pos) {
        Some(v) => v,
        None => {
            return None;
        },
    };
    let height = match read_u16(data, pos) {
        Some(v) => v,
        None => {
            return None;
        },
    };
    let background_colour = match read_u8(data, pos) {
        Some(v) => v,
        None => {
            return None;
        },
    };
    let font_attributes = match read_oid(data, pos) {
        Some(v) => v,
        None => {
            return None;
        },
    };
    let options = match read_u8(data, pos) {
        Some(v) => v,
        None => {
            return None;
        },
    };
    let variable_reference = match read_oid(data, pos) {
        Some(v) => v,
        None => {
            return None;
        },
    };
    let value = match read_u32(data, pos) {
        Some(v) => v,
        None => {
            return None;
        },
    };
    let min_value = match read_u32(data, pos) {
        Some(v) => v,
        None => {
            return None;
        },
    };
    let max_value = match read_u32(data, pos) {
        Some(v) => v,
        None => {
            return None;
        },
    };
    let offset = match read_i32(data, pos) {
        Some(v) => v,
        None => {
            return None;
        },
    };
    let scale = match read_u32(data, pos) {
        Some(v) => v,
        None => {
            return None;
        },
    };
    let nr_of_decimals = match read_u8(data, pos) {
        Some(v) => v,
        None => {
            return None;
        },
    };
    let format = match read_bool(data, pos) {
        Some(v) => v,
        None => {
            return None;
        },
    };
    let justification = match read_u8(data, pos) {
        Some(v) => v,
        None => {
            return None;
        },
    };
    let options2 = match read_u8(data, pos) {
        Some(v) => v,
        None => {
            return None;
        },
    };
    let n_macro_refs = match read_u8(data, pos) {
        Some(v) => v as usize,
        None => {
            return None;
        },
    };
    let macro_refs = match read_macroref_list(data, pos, n_macro_refs) {
        Some(v) => v,
        None => {
            return None;
        },
    };
    Some(InputNumber { id, width, height, background_colour, font_attributes, options, variable_reference, value, min_value, max_value, offset, scale, nr_of_decimals, format, justification, options2, macro_refs })
}

/// Whether a complete InputList body lies in `d` at `p`.
pub open spec fn spec_input_list_fits(d: Seq<u8>, p: int) -> bool {
    let n_list_items = d[p + 2 + 2 + 2 + 1] as int;
    let n_macro_refs = d[p + 2 + 2 + 2 + 1 + 1 + 1] as int;
    p + 2 + 2 + 2 + 1 + 1 + 1 + 1 + 2 * n_list_items + 2 * n_macro_refs <= d.len()
}

/// The InputList parsed from `d` at `p`, its fields pinned to the input
/// bytes and `end` to the position one past its body.
pub open spec fn spec_input_list_read(d: Seq<u8>, p: int, id: ObjectId, o: InputList, end: int) -> bool {
    let n_list_items = d[p + 2 + 2 + 2 + 1] as int;
    let n_macro_refs = d[p + 2 + 2 + 2 + 1 + 1 + 1] as int;
    {
        &&& o.id == id
        &&& o.width == spec_u16_at(d, p)
        &&& o.height == spec_u16_at(d, p + 2)
        &&& o.variable_reference == spec_oid_at(d, p + 2 + 2)
        &&& o.value == d[p + 2 + 2 + 2]
        &&& o.options == d[p + 2 + 2 + 2 + 1 + 1]
        &&& o.list_items@.len() == n_list_items
        &&& forall|k: int| 0 <= k < n_list_items ==> #[trigger] o.list_items@[k] == spec_oid_at(d, p + 2 + 2 + 2 + 1 + 1 + 1 + 1 + 2 * k)
        &&& o.macro_refs@.len() == n_macro_refs
        &&& forall|k: int| 0 <= k < n_macro_refs ==> #[trigger] o.macro_refs@[k] == spec_macroref_at(d, p + 2 + 2 + 2 + 1 + 1 + 1 + 1 + 2 * n_list_items + 2 * k)
        &&& end == p + 2 + 2 + 2 + 1 + 1 + 1 + 1 + 2 * n_list_items + 2 * n_macro_refs
    }
}

fn read_input_list(data: &[u8], pos: &mut usize, id: ObjectId) -> (r: Option<InputList>)
    requires
        *old(pos) <= data@.len(),
    ensures
        *final(pos) <= data@.len(),
        *final(pos) >= *old(pos),
        (r is Some) <==> spec_input_list_fits(data@, *old(pos) as int),
        r matches Some(o) ==> spec_input_list_read(data@, *old(pos) as int, id, o, *final(pos) as int),
{
    let width = match read_u16(data, pos) {
        Some(v) => v,
        None => {
            return None;
        },
    };
    let height = match read_u16(data, pos) {
        Some(v) => v,
        None => {
            return None;
        },
    };
    let variable_reference = match read_oid(data, pos) {
        Some(v) => v,
        None => {
            return None;
        },
    };
    let value = match read_u8(data, pos) {
        Some(v) => v,
        None => {
            return None;
        },
    };
    let n_list_items = match read_u8(data, pos) {
        Some(v) => v as usize,
        None => {
            return None;
        },
    };
    let options = match read_u8(data, pos) {
        Some(v) => v,
        None => {
            return None;
        },
    };
    let n_macro_refs = match read_u8(data, pos) {
        Some(v) => v as usize,
        None => {
            return None;
        },
    };
    let list_items = match read_oid_list(data, pos, n_list_items) {
        Some(v) => v,
        None => {
            return None;
        },
    };
    let macro_refs = match read_macroref_list(data, pos, n_macro_refs) {
        Some(v) => v,
        None => {
            return None;
        },
    };
    Some(InputList { id, width, height, variable_reference, value, options, list_items, macro_refs })
}

/// Whether a complete OutputString body lies in `d` at `p`.
pub open spec fn spec_output_string_fits(d: Seq<u8>, p: int) -> bool {
    let len_value = spec_u16_at(d, p + 2 + 2 + 1 + 2 + 1 + 2 + 1) as int;
    let n_macro_refs = d[p + 2 + 2 + 1 + 2 + 1 + 2 + 1 + 2 + len_value] as int;
    p + 2 + 2 + 1 + 2 + 1 + 2 + 1 + 2 <= d.len() && p + 2 + 2 + 1 + 2 + 1 + 2 + 1 + 2 + len_value + 1 + 2 * n_macro_refs <= d.len()
}

/// The OutputString parsed from `d` at `p`, its fields pinned to the input
/// bytes and `end` to the position one past its body.
pub open spec fn spec_output_string_read(d: Seq<u8>, p: int, id: ObjectId, o: OutputString, end: int) -> bool {
    let len_value = spec_u16_at(d, p + 2 + 2 + 1 + 2 + 1 + 2 + 1) as int;
    let n_macro_refs = d[p + 2 + 2 + 1 + 2 + 1 + 2 + 1 + 2 + len_value] as int;
    {
        &&& o.id == id
        &&& o.width == spec_u16_at(d, p)
        &&& o.height == spec_u16_at(d, p + 2)
        &&& o.background_colour == d[p + 2 + 2]
        &&& o.font_attributes == spec_oid_at(d, p + 2 + 2 + 1)
        &&& o.options == d[p + 2 + 2 + 1 + 2]
        &&& o.variable_reference == spec_oid_at(d, p + 2 + 2 + 1 + 2 + 1)
        &&& o.justification == d[p + 2 + 2 + 1 + 2 + 1 + 2]
        &&& o.value@ == d.subrange(p + 2 + 2 + 1 + 2 + 1 + 2 + 1 + 2, p + 2 + 2 + 1 + 2 + 1 + 2 + 1 + 2 + len_value)
        &&& o.macro_refs@.len() == n_macro_refs
        &&& forall|k: int| 0 <= k < n_macro_refs ==> #[trigger] o.macro_refs@[k] == spec_macroref_at(d, p + 2 + 2 + 1 + 2 + 1 + 2 + 1 + 2 + len_value + 1 + 2 * k)
        &&& end == p + 2 + 2 + 1 + 2 + 1 + 2 + 1 + 2 + len_value + 1 + 2 * n_macro_refs
    }
}

fn read_output_string(data: &[u8], pos: &mut usize, id: ObjectId) -> (r: Option<OutputString>)
    requires
        *old(pos) <= data@.len(),
    ensures
        *final(pos) <= data@.len(),
        *final(pos) >= *old(pos),
        (r is Some) <==> spec_output_string_fits(data@, *old(pos) as int),
        r matches Some(o) ==> spec_output_string_read(data@, *old(pos) as int, id, o, *final(pos) as int),
{
    let width = match read_u16(data, pos) {
        Some(v) => v,
        None => {
            return None;
        },
    };
    let height = match read_u16(data, pos) {
        Some(v) => v,
        None => {
            return None;
        },
    };
    let background_colour = match read_u8(data, pos) {
        Some(v) => v,
        None => {
            return None;
        },
    };
    let font_attributes = match read_oid(data, pos) {
        Some(v) => v,
        None => {
            return None;
        },
    };
    let options = match read_u8(data, pos) {
        Some(v) => v,
        None => {
            return None;
        },
    };
    let variable_reference = match read_oid(data, pos) {
        Some(v) => v,
        None => {
            return None;
        },
    };
    let justification = match read_u8(data, pos) {
        Some(v) => v,
        None => {
            return None;
        },
    };
    let len_value = match read_u16(data, pos) {
        Some(v) => v as usize,
        None => {
            return None;
        },
    };
    let value = match read_bytes(data, pos, len_value) {
        Some(v) => v,
        None => {
            return None;
        },
    };
    let n_macro_refs = match read_u8(data, pos) {
        Some(v) => v as usize,
        None => {
            return None;
        },
    };
    let macro_refs = match read_macroref_list(data, pos, n_macro_refs) {
        Some(v) => v,
        None => {
            return None;
        },
    };
    Some(OutputString { id, width, height, background_colour, font_attributes, options, variable_reference, justification, value, macro_refs })
}

/// Whether a complete OutputNumber body lies in `d` at `p`.
pub open spec fn spec_output_number_fits(d: Seq<u8>, p: int) -> bool {
    let n_macro_refs = d[p + 2 + 2 + 1 + 2 + 1 + 2 + 4 + 4 + 4 + 1 + 1 + 1] as int;
    p + 2 + 2 + 1 + 2 + 1 + 2 + 4 + 4 + 4 + 1 + 1 + 1 + 1 + 2 * n_macro_refs <= d.len()
}

/// The OutputNumber parsed from `d` at `p`, its fields pinned to the input
/// bytes and `end` to the position one past its body.
pub open spec fn spec_output_number_read(d: Seq<u8>, p: int, id: ObjectId, o: OutputNumber, end: int) -> bool {
    let n_macro_refs = d[p + 2 + 2 + 1 + 2 + 1 + 2 + 4 + 4 + 4 + 1 + 1 + 1] as int;
    {
        &&& o.id == id
        &&& o.width == spec_u16_at(d, p)
        &&& o.height == spec_u16_at(d, p + 2)
        &&& o.background_colour == d[p + 2 + 2]
        &&& o.font_attributes == spec_oid_at(d, p + 2 + 2 + 1)
        &&& o.options == d[p + 2 + 2 + 1 + 2]
        &&& o.variable_reference == spec_oid_at(d, p + 2 + 2 + 1 + 2 + 1)
        &&& o.value == spec_u32_at(d, p + 2 + 2 + 1 + 2 + 1 + 2)
        &&& o.offset == spec_u32_at(d, p + 2 + 2 + 1 + 2 + 1 + 2 + 4) as i32
        &&& o.scale == spec_u32_at(d, p + 2 + 2 + 1 + 2 + 1 + 2 + 4 + 4)
        &&& o.nr_of_decimals == d[p + 2 + 2 + 1 + 2 + 1 + 2 + 4 + 4 + 4]
        &&& o.format == (d[p + 2 + 2 + 1 + 2 + 1 + 2 + 4 + 4 + 4 + 1] != 0)
        &&& o.justification == d[p + 2 + 2 + 1 + 2 + 1 + 2 + 4 + 4 + 4 + 1 + 1]
        &&& o.macro_refs@.len() == n_macro_refs
        &&& forall|k: int| 0 <= k < n_macro_refs ==> #[trigger] o.macro_refs@[k] == spec_macroref_at(d, p + 2 + 2 + 1 + 2 + 1 + 2 + 4 + 4 + 4 + 1 + 1 + 1 + 1 + 2 * k)
        &&& end == p + 2 + 2 + 1 + 2 + 1 + 2 + 4 + 4 + 4 + 1 + 1 + 1 + 1 + 2 * n_macro_refs
    }
}

fn read_output_number(data: &[u8], pos: &mut usize, id: ObjectId) -> (r: Option<OutputNumber>)
    requires
        *old(pos) <= data@.len(),
    ensures
        *final(pos) <= data@.len(),
        *final(pos) >= *old(pos),
        (r is Some) <==> spec_output_number_fits(data@, *old(pos) as int),
        r matches Some(o) ==> spec_output_number_read(data@, *old(pos) as int, id, o, *final(pos) as int),
{
    let width = match read_u16(data, pos) {
        Some(v) => v,
        None => {
            return None;
        },
    };
    let height = match read_u16(data, pos) {
        Some(v) => v,
        None => {
            return None;
        },
    };
    let background_colour = match read_u8(data, pos) {
        Some(v) => v,
        None => {
            return None;
        },
    };
    let font_attributes = match read_oid(data, pos) {
        Some(v) => v,
        None => {
            return None;
        },
    };
    let options = match read_u8(data, pos) {
        Some(v) => v,
        None => {
            return None;
        },
    };
    let variable_reference = match read_oid(data, pos) {
        Some(v) => v,
        None => {
            return None;
        },
    };
    let value = match read_u32(data, pos) {
        Some(v) => v,
        None => {
            return None;
        },
    };
    let offset = match read_i32(data, pos) {
        Some(v) => v,
        None => {
            return None;
        },
    };
    let scale = match read_u32(data, pos) {
        Some(v) => v,
        None => {
            return None;
        },
    };
    let nr_of_decimals = match read_u8(data, pos) {
        Some(v) => v,
        None => {
            return None;
        },
    };
    let format = match read_bool(data, pos) {
        Some(v) => v,
        None => {
            return None;
        },
    };
    let justification = match read_u8(data, pos) {
        Some(v) => v,
        None => {
            return None;
        },
    };
    let n_macro_refs = match read_u8(data, pos) {
        Some(v) => v as usize,
        None => {
            return None;
        },
    };
    let macro_refs = match read_macroref_list(data, pos, n_macro_refs) {
        Some(v) => v,
        None => {
            return None;
        },
    };
    Some(OutputNumber { id, width, height, background_colour, font_attributes, options, variable_reference, value, offset, scale, nr_of_decimals, format, justification, macro_refs })
}

/// Whether a complete OutputLine body lies in `d` at `p`.
pub open spec fn spec_output_line_fits(d: Seq<u8>, p: int) -> bool {
    let n_macro_refs = d[p + 2 + 2 + 2 + 1] as int;
    p + 2 + 2 + 2 + 1 + 1 + 2 * n_macro_refs <= d.len()
}

/// The OutputLine parsed from `d` at `p`, its fields pinned to the input
/// bytes and `end` to the position one past its body.
pub open spec fn spec_output_line_read(d: Seq<u8>, p: int, id: ObjectId, o: OutputLine, end: int) -> bool {
    let n_macro_refs = d[p + 2 + 2 + 2 + 1] as int;
    {
        &&& o.id == id
        &&& o.line_attributes == spec_oid_at(d, p)
        &&& o.width == spec_u16_at(d, p + 2)
        &&& o.height == spec_u16_at(d, p + 2 + 2)
        &&& o.line_direction == d[p + 2 + 2 + 2]
        &&& o.macro_refs@.len() == n_macro_refs
        &&& forall|k: int| 0 <= k < n_macro_refs ==> #[trigger] o.macro_refs@[k] == spec_macroref_at(d, p + 2 + 2 + 2 + 1 + 1 + 2 * k)
        &&& end == p + 2 + 2 + 2 + 1 + 1 + 2 * n_macro_refs
    }
}

fn read_output_line(data: &[u8], pos: &mut usize, id: ObjectId) -> (r: Option<OutputLine>)
    requires
        *old(pos) <= data@.len(),
    ensures
        *final(pos) <= data@.len(),
        *final(pos) >= *old(pos),
        (r is Some) <==> spec_output_line_fits(data@, *old(pos) as int),
        r matches Some(o) ==> spec_output_line_read(data@, *old(pos) as int, id, o, *final(pos) as int),
{
    let line_attributes = match read_oid(data, pos) {
        Some(v) => v,
        None => {
            return None;
        },
    };
    let width = match read_u16(data, pos) {
        Some(v) => v,
        None => {
            return None;
        },
    };
    let height = match read_u16(data, pos) {
        Some(v) => v,
        None => {
            return None;
        },
    };
    let line_direction = match read_u8(data, pos) {
        Some(v) => v,
        None => {
            return None;
        },
    };
    let n_macro_refs = match read_u8(data, pos) {
        Some(v) => v as usize,
        None => {
            return None;
        },
    };
    let macro_refs = match read_macroref_list(data, pos, n_macro_refs) {
        Some(v) => v,
        None => {
            return None;
        },
    };
    Some(OutputLine { id, line_attributes, width, height, line_direction, macro_refs })
}

/// Whether a complete OutputRectangle body lies in `d` at `p`.
pub open spec fn spec_output_rectangle_fits(d: Seq<u8>, p: int) -> bool {
    let n_macro_refs = d[p + 2 + 2 + 2 + 1 + 2] as int;
    p + 2 + 2 + 2 + 1 + 2 + 1 + 2 * n_macro_refs <= d.len()
}

/// The OutputRectangle parsed from `d` at `p`, its fields pinned to the input
/// bytes and `end` to the position one past its body.
pub open spec fn spec_output_rectangle_read(d: Seq<u8>, p: int, id: ObjectId, o: OutputRectangle, end: int) -> bool {
    let n_macro_refs = d[p + 2 + 2 + 2 + 1 + 2] as int;
    {
        &&& o.id == id
        &&& o.line_attributes == spec_oid_at(d, p)
        &&& o.width == spec_u16_at(d, p + 2)
        &&& o.height == spec_u16_at(d, p + 2 + 2)
        &&& o.line_suppression == d[p + 2 + 2 + 2]
        &&& o.fill_attributes == spec_oid_at(d, p + 2 + 2 + 2 + 1)
        &&& o.macro_refs@.len() == n_macro_refs
        &&& forall|k: int| 0 <= k < n_macro_refs ==> #[trigger] o.macro_refs@[k] == spec_macroref_at(d, p + 2 + 2 + 2 + 1 + 2 + 1 + 2 * k)
        &&& end == p + 2 + 2 + 2 + 1 + 2 + 1 + 2 * n_macro_refs
    }
}

fn read_output_rectangle(data: &[u8], pos: &mut usize, id: ObjectId) -> (r: Option<OutputRectangle>)
    requires
        *old(pos) <= data@.len(),
    ensures
        *final(pos) <= data@.len(),
        *final(pos) >= *old(pos),
        (r is Some) <==> spec_output_rectangle_fits(data@, *old(pos) as int),
        r matches Some(o) ==> spec_output_rectangle_read(data@, *old(pos) as int, id, o, *final(pos) as int),
{
    let line_attributes = match read_oid(data, pos) {
        Some(v) => v,
        None => {
            return None;
        },
    };
    let width = match read_u16(data, pos) {
        Some(v) => v,
        None => {
            return None;
        },
    };
    let height = match read_u16(data, pos) {
        Some(v) => v,
        None => {
            return None;
        },
    };
    let line_suppression = match read_u8(data, pos) {
        Some(v) => v,
        None => {
            return None;
        },
    };
    let fill_attributes = match read_oid(data, pos) {
        Some(v) => v,
        None => {
            return None;
        },
    };
    let n_macro_refs = match read_u8(data, pos) {
        Some(v) => v as usize,
        None => {
            return None;
        },
    };
    let macro_refs = match read_macroref_list(data, pos, n_macro_refs) {
        Some(v) => v,
        None => {
            return None;
        },
    };
    Some(OutputRectangle { id, line_attributes, width, height, line_suppression, fill_attributes, macro_refs })
}

/// Whether a complete OutputEllipse body lies in `d` at `p`.
pub open spec fn spec_output_ellipse_fits(d: Seq<u8>, p: int) -> bool {
    let n_macro_refs = d[p + 2 + 2 + 2 + 1 + 1 + 1 + 2] as int;
    p + 2 + 2 + 2 + 1 + 1 + 1 + 2 + 1 + 2 * n_macro_refs <= d.len()
}

/// The OutputEllipse parsed from `d` at `p`, its fields pinned to the input
/// bytes and `end` to the position one past its body.
pub open spec fn spec_output_ellipse_read(d: Seq<u8>, p: int, id: ObjectId, o: OutputEllipse, end: int) -> bool {
    let n_macro_refs = d[p + 2 + 2 + 2 + 1 + 1 + 1 + 2] as int;
    {
        &&& o.id == id
        &&& o.line_attributes == spec_oid_at(d, p)
        &&& o.width == spec_u16_at(d, p + 2)
        &&& o.height == spec_u16_at(d, p + 2 + 2)
        &&& o.ellipse_type == d[p + 2 + 2 + 2]
        &&& o.start_angle == d[p + 2 + 2 + 2 + 1]
        &&& o.end_angle == d[p + 2 + 2 + 2 + 1 + 1]
        &&& o.fill_attributes == spec_oid_at(d, p + 2 + 2 + 2 + 1 + 1 + 1)
        &&& o.macro_refs@.len() == n_macro_refs
        &&& forall|k: int| 0 <= k < n_macro_refs ==> #[trigger] o.macro_refs@[k] == spec_macroref_at(d, p + 2 + 2 + 2 + 1 + 1 + 1 + 2 + 1 + 2 * k)
        &&& end == p + 2 + 2 + 2 + 1 + 1 + 1 + 2 + 1 + 2 * n_macro_refs
    }
}

fn read_output_ellipse(data: &[u8], pos: &mut usize, id: ObjectId) -> (r: Option<OutputEllipse>)
    requires
        *old(pos) <= data@.len(),
    ensures
        *final(pos) <= data@.len(),
        *final(pos) >= *old(pos),
        (r is Some) <==> spec_output_ellipse_fits(data@, *old(pos) as int),
        r matches Some(o) ==> spec_output_ellipse_read(data@, *old(pos) as int, id, o, *final(pos) as int),
{
    let line_attributes = match read_oid(data, pos) {
        Some(v) => v,
        None => {
            return None;
        },
    };
    let width = match read_u16(data, pos) {
        Some(v) => v,
        None => {
            return None;
        },
    };
    let height = match read_u16(data, pos) {
        Some(v) => v,
        None => {
            return None;
        },
    };
    let ellipse_type = match read_u8(data, pos) {
        Some(v) => v,
        None => {
            return None;
        },
    };
    let start_angle = match read_u8(data, pos) {
        Some(v) => v,
        None => {
            return None;
        },
    };
    let end_angle = match read_u8(data, pos) {
        Some(v) => v,
        None => {
            return None;
        },
    };
    let fill_attributes = match read_oid(data, pos) {
        Some(v) => v,
        None => {
            return None;
        },
    };
    let n_macro_refs = match read_u8(data, pos) {
        Some(v) => v as usize,
        None => {
            return None;
        },
    };
    let macro_refs = match read_macroref_list(data, pos, n_macro_refs) {
        Some(v) => v,
        None => {
            return None;
        },
    };
    Some(OutputEllipse { id, line_attributes, width, height, ellipse_type, start_angle, end_angle, fill_attributes, macro_refs })
}

/// Whether a complete OutputPolygon body lies in `d` at `p`.
pub open spec fn spec_output_polygon_fits(d: Seq<u8>, p: int) -> bool {
    let n_points = d[p + 2 + 2 + 2 + 2 + 1] as int;
    let n_macro_refs = d[p + 2 + 2 + 2 + 2 + 1 + 1] as int;
    p + 2 + 2 + 2 + 2 + 1 + 1 + 1 + 4 * n_points + 2 * n_macro_refs <= d.len()
}

/// The OutputPolygon parsed from `d` at `p`, its fields pinned to the input
/// bytes and `end` to the position one past its body.
pub open spec fn spec_output_polygon_read(d: Seq<u8>, p: int, id: ObjectId, o: OutputPolygon, end: int) -> bool {
    let n_points = d[p + 2 + 2 + 2 + 2 + 1] as int;
    let n_macro_refs = d[p + 2 + 2 + 2 + 2 + 1 + 1] as int;
    {
        &&& o.id == id
        &&& o.width == spec_u16_at(d, p)
        &&& o.height == spec_u16_at(d, p + 2)
        &&& o.line_attributes == spec_oid_at(d, p + 2 + 2)
        &&& o.fill_attributes == spec_oid_at(d, p + 2 + 2 + 2)
        &&& o.polygon_type == d[p + 2 + 2 + 2 + 2]
        &&& o.points@.len() == n_points
        &&& forall|k: int| 0 <= k < n_points ==> #[trigger] o.points@[k] == spec_point16_at(d, p + 2 + 2 + 2 + 2 + 1 + 1 + 1 + 4 * k)
        &&& o.macro_refs@.len() == n_macro_refs
        &&& forall|k: int| 0 <= k < n_macro_refs ==> #[trigger] o.macro_refs@[k] == spec_macroref_at(d, p + 2 + 2 + 2 + 2 + 1 + 1 + 1 + 4 * n_points + 2 * k)
        &&& end == p + 2 + 2 + 2 + 2 + 1 + 1 + 1 + 4 * n_points + 2 * n_macro_refs
    }
}

fn read_output_polygon(data: &[u8], pos: &mut usize, id: ObjectId) -> (r: Option<OutputPolygon>)
    requires
        *old(pos) <= data@.len(),
    ensures
        *final(pos) <= data@.len(),
        *final(pos) >= *old(pos),
        (r is Some) <==> spec_output_polygon_fits(data@, *old(pos) as int),
        r matches Some(o) ==> spec_output_polygon_read(data@, *old(pos) as int, id, o, *final(pos) as int),
{
    let width = match read_u16(data, pos) {
        Some(v) => v,
        None => {
            return None;
        },
    };
    let height = match read_u16(data, pos) {
        Some(v) => v,
        None => {
            return None;
        },
    };
    let line_attributes = match read_oid(data, pos) {
        Some(v) => v,
        None => {
            return None;
        },
    };
    let fill_attributes = match read_oid(data, pos) {
        Some(v) => v,
        None => {
            return None;
        },
    };
    let polygon_type = match read_u8(data, pos) {
        Some(v) => v,
        None => {
            return None;
        },
    };
    let n_points = match read_u8(data, pos) {
        Some(v) => v as usize,
        None => {
            return None;
        },
    };
    let n_macro_refs = match read_u8(data, pos) {
        Some(v) => v as usize,
        None => {
            return None;
        },
    };
    let points = match read_point16_list(data, pos, n_points) {
        Some(v) => v,
        None => {
            return None;
        },
    };
    let macro_refs = match read_macroref_list(data, pos, n_macro_refs) {
        Some(v) => v,
        None => {
            return None;
        },
    };
    Some(OutputPolygon { id, width, height, line_attributes, fill_attributes, polygon_type, points, macro_refs })
}

/// Whether a complete OutputMeter body lies in `d` at `p`.
pub open spec fn spec_output_meter_fits(d: Seq<u8>, p: int) -> bool {
    let n_macro_refs = d[p + 2 + 1 + 1 + 1 + 1 + 1 + 1 + 1 + 2 + 2 + 2 + 2] as int;
    p + 2 + 1 + 1 + 1 + 1 + 1 + 1 + 1 + 2 + 2 + 2 + 2 + 1 + 2 * n_macro_refs <= d.len()
}

/// The OutputMeter parsed from `d` at `p`, its fields pinned to the input
/// bytes and `end` to the position one past its body.
pub open spec fn spec_output_meter_read(d: Seq<u8>, p: int, id: ObjectId, o: OutputMeter, end: int) -> bool {
    let n_macro_refs = d[p + 2 + 1 + 1 + 1 + 1 + 1 + 1 + 1 + 2 + 2 + 2 + 2] as int;
    {
        &&& o.id == id
        &&& o.width == spec_u16_at(d, p)
        &&& o.needle_colour == d[p + 2]
        &&& o.border_colour == d[p + 2 + 1]
        &&& o.arc_and_tick_colour == d[p + 2 + 1 + 1]
        &&& o.options == d[p + 2 + 1 + 1 + 1]
        &&& o.nr_of_ticks == d[p + 2 + 1 + 1 + 1 + 1]
        &&& o.start_angle == d[p + 2 + 1 + 1 + 1 + 1 + 1]
        &&& o.end_angle == d[p + 2 + 1 + 1 + 1 + 1 + 1 + 1]
        &&& o.min_value == spec_u16_at(d, p + 2 + 1 + 1 + 1 + 1 + 1 + 1 + 1)
        &&& o.max_value == spec_u16_at(d, p + 2 + 1 + 1 + 1 + 1 + 1 + 1 + 1 + 2)
        &&& o.variable_reference == spec_oid_at(d, p + 2 + 1 + 1 + 1 + 1 + 1 + 1 + 1 + 2 + 2)
        &&& o.value == spec_u16_at(d, p + 2 + 1 + 1 + 1 + 1 + 1 + 1 + 1 + 2 + 2 + 2)
        &&& o.macro_refs@.len() == n_macro_refs
        &&& forall|k: int| 0 <= k < n_macro_refs ==> #[trigger] o.macro_refs@[k] == spec_macroref_at(d, p + 2 + 1 + 1 + 1 + 1 + 1 + 1 + 1 + 2 + 2 + 2 + 2 + 1 + 2 * k)
        &&& end == p + 2 + 1 + 1 + 1 + 1 + 1 + 1 + 1 + 2 + 2 + 2 + 2 + 1 + 2 * n_macro_refs
    }
}

fn read_output_meter(data: &[u8], pos: &mut usize, id: ObjectId) -> (r: Option<OutputMeter>)
    requires
        *old(pos) <= data@.len(),
    ensures
        *final(pos) <= data@.len(),
        *final(pos) >= *old(pos),
        (r is Some) <==> spec_output_meter_fits(data@, *old(pos) as int),
        r matches Some(o) ==> spec_output_meter_read(data@, *old(pos) as int, id, o, *final(pos) as int),
{
    let width = match read_u16(data, pos) {
        Some(v) => v,
        None => {
            return None;
        },
    };
    let needle_colour = match read_u8(data, pos) {
        Some(v) => v,
        None => {
            return None;
        },
    };
    let border_colour = match read_u8(data, pos) {
        Some(v) => v,
        None => {
            return None;
        },
    };
    let arc_and_tick_colour = match read_u8(data, pos) {
        Some(v) => v,
        None => {
            return None;
        },
    };
    let options = match read_u8(data, pos) {
        Some(v) => v,
        None => {
            return None;
        },
    };
    let nr_of_ticks = match read_u8(data, pos) {
        Some(v) => v,
        None => {
            return None;
        },
    };
    let start_angle = match read_u8(data, pos) {
        Some(v) => v,
        None => {
            return None;
        },
    };
    let end_angle = match read_u8(data, pos) {
        Some(v) => v,
        None => {
            return None;
        },
    };
    let min_value = match read_u16(data, pos) {
        Some(v) => v,
        None => {
            return None;
        },
    };
    let max_value = match read_u16(data, pos) {
        Some(v) => v,
        None => {
            return None;
        },
    };
    let variable_reference = match read_oid(data, pos) {
        Some(v) => v,
        None => {
            return None;
        },
    };
    let value = match read_u16(data, pos) {
        Some(v) => v,
        None => {
            return None;
        },
    };
    let n_macro_refs = match read_u8(data, pos) {
        Some(v) => v as usize,
        None => {
            return None;
        },
    };
    let macro_refs = match read_macroref_list(data, pos, n_macro_refs) {
        Some(v) => v,
        None => {
            return None;
        },
    };
    Some(OutputMeter { id, width, needle_colour, border_colour, arc_and_tick_colour, options, nr_of_ticks, start_angle, end_angle, min_value, max_value, variable_reference, value, macro_refs })
}

/// Whether a complete OutputLinearBarGraph body lies in `d` at `p`.
pub open spec fn spec_output_linear_bar_graph_fits(d: Seq<u8>, p: int) -> bool {
    let n_macro_refs = d[p + 2 + 2 + 1 + 1 + 1 + 1 + 2 + 2 + 2 + 2 + 2 + 2] as int;
    p + 2 + 2 + 1 + 1 + 1 + 1 + 2 + 2 + 2 + 2 + 2 + 2 + 1 + 2 * n_macro_refs <= d.len()
}

/// The OutputLinearBarGraph parsed from `d` at `p`, its fields pinned to the input
/// bytes and `end` to the position one past its body.
pub open spec fn spec_output_linear_bar_graph_read(d: Seq<u8>, p: int, id: ObjectId, o: OutputLinearBarGraph, end: int) -> bool {
    let n_macro_refs = d[p + 2 + 2 + 1 + 1 + 1 + 1 + 2 + 2 + 2 + 2 + 2 + 2] as int;
    {
        &&& o.id == id
        &&& o.width == spec_u16_at(d, p)
        &&& o.height == spec_u16_at(d, p + 2)
        &&& o.colour == d[p + 2 + 2]
        &&& o.target_line_colour == d[p + 2 + 2 + 1]
        &&& o.options == d[p + 2 + 2 + 1 + 1]
        &&& o.nr_of_ticks == d[p + 2 + 2 + 1 + 1 + 1]
        &&& o.min_value == spec_u16_at(d, p + 2 + 2 + 1 + 1 + 1 + 1)
        &&& o.max_value == spec_u16_at(d, p + 2 + 2 + 1 + 1 + 1 + 1 + 2)
        &&& o.variable_reference == spec_oid_at(d, p + 2 + 2 + 1 + 1 + 1 + 1 + 2 + 2)
        &&& o.value == spec_u16_at(d, p + 2 + 2 + 1 + 1 + 1 + 1 + 2 + 2 + 2)
        &&& o.target_value_variable_reference == spec_oid_at(d, p + 2 + 2 + 1 + 1 + 1 + 1 + 2 + 2 + 2 + 2)
        &&& o.target_value == spec_u16_at(d, p + 2 + 2 + 1 + 1 + 1 + 1 + 2 + 2 + 2 + 2 + 2)
        &&& o.macro_refs@.len() == n_macro_refs
        &&& forall|k: int| 0 <= k < n_macro_refs ==> #[trigger] o.macro_refs@[k] == spec_macroref_at(d, p + 2 + 2 + 1 + 1 + 1 + 1 + 2 + 2 + 2 + 2 + 2 + 2 + 1 + 2 * k)
        &&& end == p + 2 + 2 + 1 + 1 + 1 + 1 + 2 + 2 + 2 + 2 + 2 + 2 + 1 + 2 * n_macro_refs
    }
}

fn read_output_linear_bar_graph(data: &[u8], pos: &mut usize, id: ObjectId) -> (r: Option<OutputLinearBarGraph>)
    requires
        *old(pos) <= data@.len(),
    ensures
        *final(pos) <= data@.len(),
        *final(pos) >= *old(pos),
        (r is Some) <==> spec_output_linear_bar_graph_fits(data@, *old(pos) as int),
        r matches Some(o) ==> spec_output_linear_bar_graph_read(data@, *old(pos) as int, id, o, *final(pos) as int),
{
    let width = match read_u16(data, pos) {
        Some(v) => v,
        None => {
            return None;
        },
    };
    let height = match read_u16(data, pos) {
        Some(v) => v,
        None => {
            return None;
        },
    };
    let colour = match read_u8(data, pos) {
        Some(v) => v,
        None => {
            return None;
        },
    };
    let target_line_colour = match read_u8(data, pos) {
        Some(v) => v,
        None => {
            return None;
        },
    };
    let options = match read_u8(data, pos) {
        Some(v) => v,
        None => {
            return None;
        },
    };
    let nr_of_ticks = match read_u8(data, pos) {
        Some(v) => v,
        None => {
            return None;
        },
    };
    let min_value = match read_u16(data, pos) {
        Some(v) => v,
        None => {
            return None;
        },
    };
    let max_value = match read_u16(data, pos) {
        Some(v) => v,
        None => {
            return None;
        },
    };
    let variable_reference = match read_oid(data, pos) {
        Some(v) => v,
        None => {
            return None;
        },
    };
    let value = match read_u16(data, pos) {
        Some(v) => v,
        None => {
            return None;
        },
    };
    let target_value_variable_reference = match read_oid(data, pos) {
        Some(v) => v,
        None => {
            return None;
        },
    };
    let target_value = match read_u16(data, pos) {
        Some(v) => v,
        None => {
            return None;
        },
    };
    let n_macro_refs = match read_u8(data, pos) {
        Some(v) => v as usize,
        None => {
            return None;
        },
    };
    let macro_refs = match read_macroref_list(data, pos, n_macro_refs) {
        Some(v) => v,
        None => {
            return None;
        },
    };
    Some(OutputLinearBarGraph { id, width, height, colour, target_line_colour, options, nr_of_ticks, min_value, max_value, variable_reference, value, target_value_variable_reference, target_value, macro_refs })
}

/// Whether a complete OutputArchedBarGraph body lies in `d` at `p`.
pub open spec fn spec_output_arched_bar_graph_fits(d: Seq<u8>, p: int) -> bool {
    let n_macro_refs = d[p + 2 + 2 + 1 + 1 + 1 + 1 + 1 + 2 + 2 + 2 + 2 + 2 + 2 + 2] as int;
    p + 2 + 2 + 1 + 1 + 1 + 1 + 1 + 2 + 2 + 2 + 2 + 2 + 2 + 2 + 1 + 2 * n_macro_refs <= d.len()
}

/// The OutputArchedBarGraph parsed from `d` at `p`, its fields pinned to the input
/// bytes and `end` to the position one past its body.
pub open spec fn spec_output_arched_bar_graph_read(d: Seq<u8>, p: int, id: ObjectId, o: OutputArchedBarGraph, end: int) -> bool {
    let n_macro_refs = d[p + 2 + 2 + 1 + 1 + 1 + 1 + 1 + 2 + 2 + 2 + 2 + 2 + 2 + 2] as int;
    {
        &&& o.id == id
        &&& o.width == spec_u16_at(d, p)
        &&& o.height == spec_u16_at(d, p + 2)
        &&& o.colour == d[p + 2 + 2]
        &&& o.target_line_colour == d[p + 2 + 2 + 1]
        &&& o.options == d[p + 2 + 2 + 1 + 1]
        &&& o.start_angle == d[p + 2 + 2 + 1 + 1 + 1]
        &&& o.end_angle == d[p + 2 + 2 + 1 + 1 + 1 + 1]
        &&& o.bar_graph_width == spec_u16_at(d, p + 2 + 2 + 1 + 1 + 1 + 1 + 1)
        &&& o.min_value == spec_u16_at(d, p + 2 + 2 + 1 + 1 + 1 + 1 + 1 + 2)
        &&& o.max_value == spec_u16_at(d, p + 2 + 2 + 1 + 1 + 1 + 1 + 1 + 2 + 2)
        &&& o.variable_reference == spec_oid_at(d, p + 2 + 2 + 1 + 1 + 1 + 1 + 1 + 2 + 2 + 2)
        &&& o.value == spec_u16_at(d, p + 2 + 2 + 1 + 1 + 1 + 1 + 1 + 2 + 2 + 2 + 2)
        &&& o.target_value_variable_reference == spec_oid_at(d, p + 2 + 2 + 1 + 1 + 1 + 1 + 1 + 2 + 2 + 2 + 2 + 2)
        &&& o.target_value == spec_u16_at(d, p + 2 + 2 + 1 + 1 + 1 + 1 + 1 + 2 + 2 + 2 + 2 + 2 + 2)
        &&& o.macro_refs@.len() == n_macro_refs
        &&& forall|k: int| 0 <= k < n_macro_refs ==> #[trigger] o.macro_refs@[k] == spec_macroref_at(d, p + 2 + 2 + 1 + 1 + 1 + 1 + 1 + 2 + 2 + 2 + 2 + 2 + 2 + 2 + 1 + 2 * k)
        &&& end == p + 2 + 2 + 1 + 1 + 1 + 1 + 1 + 2 + 2 + 2 + 2 + 2 + 2 + 2 + 1 + 2 * n_macro_refs
    }
}

fn read_output_arched_bar_graph(data: &[u8], pos: &mut usize, id: ObjectId) -> (r: Option<OutputArchedBarGraph>)
    requires
        *old(pos) <= data@.len(),
    ensures
        *final(pos) <= data@.len(),
        *final(pos) >= *old(pos),
        (r is Some) <==> spec_output_arched_bar_graph_fits(data@, *old(pos) as int),
        r matches Some(o) ==> spec_output_arched_bar_graph_read(data@, *old(pos) as int, id, o, *final(pos) as int),
{
    let width = match read_u16(data, pos) {
        Some(v) => v,
        None => {
            return None;
        },
    };
    let height = match read_u16(data, pos) {
        Some(v) => v,
        None => {
            return None;
        },
    };
    let colour = match read_u8(data, pos) {
        Some(v) => v,
        None => {
            return None;
        },
    };
    let target_line_colour = match read_u8(data, pos) {
        Some(v) => v,
        None => {
            return None;
        },
    };
    let options = match read_u8(data, pos) {
        Some(v) => v,
        None => {
            return None;
        },
    };
    let start_angle = match read_u8(data, pos) {
        Some(v) => v,
        None => {
            return None;
        },
    };
    let end_angle = match read_u8(data, pos) {
        Some(v) => v,
        None => {
            return None;
        },
    };
    let bar_graph_width = match read_u16(data, pos) {
        Some(v) => v,
        None => {
            return None;
        },
    };
    let min_value = match read_u16(data, pos) {
        Some(v) => v,
        None => {
            return None;
        },
    };
    let max_value = match read_u16(data, pos) {
        Some(v) => v,
        None => {
            return None;
        },
    };
    let variable_reference = match read_oid(data, pos) {
        Some(v) => v,
        None => {
            return None;
        },
    };
    let value = match read_u16(data, pos) {
        Some(v) => v,
        None => {
            return None;
        },
    };
    let target_value_variable_reference = match read_oid(data, pos) {
        Some(v) => v,
        None => {
            return None;
        },
    };
    let target_value = match read_u16(data, pos) {
        Some(v) => v,
        None => {
            return None;
        },
    };
    let n_macro_refs = match read_u8(data, pos) {
        Some(v) => v as usize,
        None => {
            return None;
        },
    };
    let macro_refs = match read_macroref_list(data, pos, n_macro_refs) {
        Some(v) => v,
        None => {
            return None;
        },
    };
    Some(OutputArchedBarGraph { id, width, height, colour, target_line_colour, options, start_angle, end_angle, bar_graph_width, min_value, max_value, variable_reference, value, target_value_variable_reference, target_value, macro_refs })
}

/// Whether a complete PictureGraphic body lies in `d` at `p`.
pub open spec fn spec_picture_graphic_fits(d: Seq<u8>, p: int) -> bool {
    let n_data = spec_u32_at(d, p + 2 + 2 + 2 + 1 + 1 + 1) as int;
    let n_macro_refs = d[p + 2 + 2 + 2 + 1 + 1 + 1 + 4] as int;
    p + 2 + 2 + 2 + 1 + 1 + 1 + 4 + 1 + 1 * n_data + 2 * n_macro_refs <= d.len()
}

/// The PictureGraphic parsed from `d` at `p`, its fields pinned to the input
/// bytes and `end` to the position one past its body.
pub open spec fn spec_picture_graphic_read(d: Seq<u8>, p: int, id: ObjectId, o: PictureGraphic, end: int) -> bool {
    let n_data = spec_u32_at(d, p + 2 + 2 + 2 + 1 + 1 + 1) as int;
    let n_macro_refs = d[p + 2 + 2 + 2 + 1 + 1 + 1 + 4] as int;
    {
        &&& o.id == id
        &&& o.width == spec_u16_at(d, p)
        &&& o.actual_width == spec_u16_at(d, p + 2)
        &&& o.actual_height == spec_u16_at(d, p + 2 + 2)
        &&& o.format == d[p + 2 + 2 + 2]
        &&& o.options == d[p + 2 + 2 + 2 + 1]
        &&& o.transparency_colour == d[p + 2 + 2 + 2 + 1 + 1]
        &&& o.data@.len() == n_data
        &&& o.data@ == d.subrange(p + 2 + 2 + 2 + 1 + 1 + 1 + 4 + 1, p + 2 + 2 + 2 + 1 + 1 + 1 + 4 + 1 + n_data)
        &&& o.macro_refs@.len() == n_macro_refs
        &&& forall|k: int| 0 <= k < n_macro_refs ==> #[trigger] o.macro_refs@[k] == spec_macroref_at(d, p + 2 + 2 + 2 + 1 + 1 + 1 + 4 + 1 + 1 * n_data + 2 * k)
        &&& end == p + 2 + 2 + 2 + 1 + 1 + 1 + 4 + 1 + 1 * n_data + 2 * n_macro_refs
    }
}

fn read_picture_graphic(data: &[u8], pos: &mut usize, id: ObjectId) -> (r: Option<PictureGraphic>)
    requires
        *old(pos) <= data@.len(),
    ensures
        *final(pos) <= data@.len(),
        *final(pos) >= *old(pos),
        (r is Some) <==> spec_picture_graphic_fits(data@, *old(pos) as int),
        r matches Some(o) ==> spec_picture_graphic_read(data@, *old(pos) as int, id, o, *final(pos) as int),
{
    let width = match read_u16(data, pos) {
        Some(v) => v,
        None => {
            return None;
        },
    };
    let actual_width = match read_u16(data, pos) {
        Some(v) => v,
        None => {
            return None;
        },
    };
    let actual_height = match read_u16(data, pos) {
        Some(v) => v,
        None => {
            return None;
        },
    };
    let format = match read_u8(data, pos) {
        Some(v) => v,
        None => {
            return None;
        },
    };
    let options = match read_u8(data, pos) {
        Some(v) => v,
        None => {
            return None;
        },
    };
    let transparency_colour = match read_u8(data, pos) {
        Some(v) => v,
        None => {
            return None;
        },
    };
    let n_data = match read_u32(data, pos) {
        Some(v) => v as usize,
        None => {
            return None;
        },
    };
    let n_macro_refs = match read_u8(data, pos) {
        Some(v) => v as usize,
        None => {
            return None;
        },
    };
    let image_data = match read_byte_list(data, pos, n_data) {
        Some(v) => v,
        None => {
            return None;
        },
    };
    let macro_refs = match read_macroref_list(data, pos, n_macro_refs) {
        Some(v) => v,
        None => {
            return None;
        },
    };
    proof {
        let p = *old(pos) as int;
        assert(image_data@ =~= data@.subrange(p + 2 + 2 + 2 + 1 + 1 + 1 + 4 + 1, p + 2 + 2 + 2 + 1 + 1 + 1 + 4 + 1 + spec_u32_at(data@, p + 2 + 2 + 2 + 1 + 1 + 1) as int));
    }
    Some(
        PictureGraphic {
            id,
            width,
            actual_width,
            actual_height,
            format,
            options,
            transparency_colour,
            data: image_data,
            macro_refs,
        },
    )
}

/// Whether a complete NumberVariable body lies in `d` at `p`.
pub open spec fn spec_number_variable_fits(d: Seq<u8>, p: int) -> bool {
    p + 4 <= d.len()
}

/// The NumberVariable parsed from `d` at `p`, its fields pinned to the input
/// bytes and `end` to the position one past its body.
pub open spec fn spec_number_variable_read(d: Seq<u8>, p: int, id: ObjectId, o: NumberVariable, end: int) -> bool {
    {
        &&& o.id == id
        &&& o.value == spec_u32_at(d, p)
        &&& end == p + 4
    }
}

fn read_number_variable(data: &[u8], pos: &mut usize, id: ObjectId) -> (r: Option<NumberVariable>)
    requires
        *old(pos) <= data@.len(),
    ensures
        *final(pos) <= data@.len(),
        *final(pos) >= *old(pos),
        (r is Some) <==> spec_number_variable_fits(data@, *old(pos) as int),
        r matches Some(o) ==> spec_number_variable_read(data@, *old(pos) as int, id, o, *final(pos) as int),
{
    let value = match read_u32(data, pos) {
        Some(v) => v,
        None => {
            return None;
        },
    };
    Some(NumberVariable { id, value })
}

/// Whether a complete StringVariable body lies in `d` at `p`.
pub open spec fn spec_string_variable_fits(d: Seq<u8>, p: int) -> bool {
    let len_value = spec_u16_at(d, p + 0) as int;
    p + 0 + 2 <= d.len() && p + 2 + len_value <= d.len()
}

/// The StringVariable parsed from `d` at `p`, its fields pinned to the input
/// bytes and `end` to the position one past its body.
pub open spec fn spec_string_variable_read(d: Seq<u8>, p: int, id: ObjectId, o: StringVariable, end: int) -> bool {
    let len_value = spec_u16_at(d, p + 0) as int;
    {
        &&& o.id == id
        &&& o.value@ == d.subrange(p + 2, p + 2 + len_value)
        &&& end == p + 2 + len_value
    }
}

fn read_string_variable(data: &[u8], pos: &mut usize, id: ObjectId) -> (r: Option<StringVariable>)
    requires
        *old(pos) <= data@.len(),
    ensures
        *final(pos) <= data@.len(),
        *final(pos) >= *old(pos),
        (r is Some) <==> spec_string_variable_fits(data@, *old(pos) as int),
        r matches Some(o) ==> spec_string_variable_read(data@, *old(pos) as int, id, o, *final(pos) as int),
{
    let len_value = match read_u16(data, pos) {
        Some(v) => v as usize,
        None => {
            return None;
        },
    };
    let value = match read_bytes(data, pos, len_value) {
        Some(v) => v,
        None => {
            return None;
        },
    };
    Some(StringVariable { id, value })
}

/// Whether a complete FontAttributes body lies in `d` at `p`.
pub open spec fn spec_font_attributes_fits(d: Seq<u8>, p: int) -> bool {
    let n_macro_refs = d[p + 1 + 1 + 1 + 1] as int;
    p + 1 + 1 + 1 + 1 + 1 + 2 * n_macro_refs <= d.len()
}

/// The FontAttributes parsed from `d` at `p`, its fields pinned to the input
/// bytes and `end` to the position one past its body.
pub open spec fn spec_font_attributes_read(d: Seq<u8>, p: int, id: ObjectId, o: FontAttributes, end: int) -> bool {
    let n_macro_refs = d[p + 1 + 1 + 1 + 1] as int;
    {
        &&& o.id == id
        &&& o.font_colour == d[p]
        &&& o.font_size == d[p + 1]
        &&& o.font_type == d[p + 1 + 1]
        &&& o.font_style == d[p + 1 + 1 + 1]
        &&& o.macro_refs@.len() == n_macro_refs
        &&& forall|k: int| 0 <= k < n_macro_refs ==> #[trigger] o.macro_refs@[k] == spec_macroref_at(d, p + 1 + 1 + 1 + 1 + 1 + 2 * k)
        &&& end == p + 1 + 1 + 1 + 1 + 1 + 2 * n_macro_refs
    }
}

fn read_font_attributes(data: &[u8], pos: &mut usize, id: ObjectId) -> (r: Option<FontAttributes>)
    requires
        *old(pos) <= data@.len(),
    ensures
        *final(pos) <= data@.len(),
        *final(pos) >= *old(pos),
        (r is Some) <==> spec_font_attributes_fits(data@, *old(pos) as int),
        r matches Some(o) ==> spec_font_attributes_read(data@, *old(pos) as int, id, o, *final(pos) as int),
{
    let font_colour = match read_u8(data, pos) {
        Some(v) => v,
        None => {
            return None;
        },
    };
    let font_size = match read_u8(data, pos) {
        Some(v) => v,
        None => {
            return None;
        },
    };
    let font_type = match read_u8(data, pos) {
        Some(v) => v,
        None => {
            return None;
        },
    };
    let font_style = match read_u8(data, pos) {
        Some(v) => v,
        None => {
            return None;
        },
    };
    let n_macro_refs = match read_u8(data, pos) {
        Some(v) => v as usize,
        None => {
            return None;
        },
    };
    let macro_refs = match read_macroref_list(data, pos, n_macro_refs) {
        Some(v) => v,
        None => {
            return None;
        },
    };
    Some(FontAttributes { id, font_colour, font_size, font_type, font_style, macro_refs })
}

/// Whether a complete LineAttributes body lies in `d` at `p`.
pub open spec fn spec_line_attributes_fits(d: Seq<u8>, p: int) -> bool {
    let n_macro_refs = d[p + 1 + 1 + 2] as int;
    p + 1 + 1 + 2 + 1 + 2 * n_macro_refs <= d.len()
}

/// The LineAttributes parsed from `d` at `p`, its fields pinned to the input
/// bytes and `end` to the position one past its body.
pub open spec fn spec_line_attributes_read(d: Seq<u8>, p: int, id: ObjectId, o: LineAttributes, end: int) -> bool {
    let n_macro_refs = d[p + 1 + 1 + 2] as int;
    {
        &&& o.id == id
        &&& o.line_colour == d[p]
        &&& o.line_width == d[p + 1]
        &&& o.line_art == spec_u16_at(d, p + 1 + 1)
        &&& o.macro_refs@.len() == n_macro_refs
        &&& forall|k: int| 0 <= k < n_macro_refs ==> #[trigger] o.macro_refs@[k] == spec_macroref_at(d, p + 1 + 1 + 2 + 1 + 2 * k)
        &&& end == p + 1 + 1 + 2 + 1 + 2 * n_macro_refs
    }
}

fn read_line_attributes(data: &[u8], pos: &mut usize, id: ObjectId) -> (r: Option<LineAttributes>)
    requires
        *old(pos) <= data@.len(),
    ensures
        *final(pos) <= data@.len(),
        *final(pos) >= *old(pos),
        (r is Some) <==> spec_line_attributes_fits(data@, *old(pos) as int),
        r matches Some(o) ==> spec_line_attributes_read(data@, *old(pos) as int, id, o, *final(pos) as int),
{
    let line_colour = match read_u8(data, pos) {
        Some(v) => v,
        None => {
            return None;
        },
    };
    let line_width = match read_u8(data, pos) {
        Some(v) => v,
        None => {
            return None;
        },
    };
    let line_art = match read_u16(data, pos) {
        Some(v) => v,
        None => {
            return None;
        },
    };
    let n_macro_refs = match read_u8(data, pos) {
        Some(v) => v as usize,
        None => {
            return None;
        },
    };
    let macro_refs = match read_macroref_list(data, pos, n_macro_refs) {
        Some(v) => v,
        None => {
            return None;
        },
    };
    Some(LineAttributes { id, line_colour, line_width, line_art, macro_refs })
}

/// Whether a complete FillAttributes body lies in `d` at `p`.
pub open spec fn spec_fill_attributes_fits(d: Seq<u8>, p: int) -> bool {
    let n_macro_refs = d[p + 1 + 1 + 2] as int;
    p + 1 + 1 + 2 + 1 + 2 * n_macro_refs <= d.len()
}

/// The FillAttributes parsed from `d` at `p`, its fields pinned to the input
/// bytes and `end` to the position one past its body.
pub open spec fn spec_fill_attributes_read(d: Seq<u8>, p: int, id: ObjectId, o: FillAttributes, end: int) -> bool {
    let n_macro_refs = d[p + 1 + 1 + 2] as int;
    {
        &&& o.id == id
        &&& o.fill_type == d[p]
        &&& o.fill_colour == d[p + 1]
        &&& o.fill_pattern == spec_oid_at(d, p + 1 + 1)
        &&& o.macro_refs@.len() == n_macro_refs
        &&& forall|k: int| 0 <= k < n_macro_refs ==> #[trigger] o.macro_refs@[k] == spec_macroref_at(d, p + 1 + 1 + 2 + 1 + 2 * k)
        &&& end == p + 1 + 1 + 2 + 1 + 2 * n_macro_refs
    }
}

fn read_fill_attributes(data: &[u8], pos: &mut usize, id: ObjectId) -> (r: Option<FillAttributes>)
    requires
        *old(pos) <= data@.len(),
    ensures
        *final(pos) <= data@.len(),
        *final(pos) >= *old(pos),
        (r is Some) <==> spec_fill_attributes_fits(data@, *old(pos) as int),
        r matches Some(o) ==> spec_fill_attributes_read(data@, *old(pos) as int, id, o, *final(pos) as int),
{
    let fill_type = match read_u8(data, pos) {
        Some(v) => v,
        None => {
            return None;
        },
    };
    let fill_colour = match read_u8(data, pos) {
        Some(v) => v,
        None => {
            return None;
        },
    };
    let fill_pattern = match read_oid(data, pos) {
        Some(v) => v,
        None => {
            return None;
        },
    };
    let n_macro_refs = match read_u8(data, pos) {
        Some(v) => v as usize,
        None => {
            return None;
        },
    };
    let macro_refs = match read_macroref_list(data, pos, n_macro_refs) {
        Some(v) => v,
        None => {
            return None;
        },
    };
    Some(FillAttributes { id, fill_type, fill_colour, fill_pattern, macro_refs })
}

/// Whether a complete InputAttributes body lies in `d` at `p`.
pub open spec fn spec_input_attributes_fits(d: Seq<u8>, p: int) -> bool {
    let len_validation_string = d[p + 1] as int;
    let n_macro_refs = d[p + 1 + 1 + len_validation_string] as int;
    p + 1 + 1 <= d.len() && p + 1 + 1 + len_validation_string + 1 + 2 * n_macro_refs <= d.len()
}

/// The InputAttributes parsed from `d` at `p`, its fields pinned to the input
/// bytes and `end` to the position one past its body.
pub open spec fn spec_input_attributes_read(d: Seq<u8>, p: int, id: ObjectId, o: InputAttributes, end: int) -> bool {
    let len_validation_string = d[p + 1] as int;
    let n_macro_refs = d[p + 1 + 1 + len_validation_string] as int;
    {
        &&& o.id == id
        &&& o.validation_type == d[p]
        &&& o.validation_string@ == d.subrange(p + 1 + 1, p + 1 + 1 + len_validation_string)
        &&& o.macro_refs@.len() == n_macro_refs
        &&& forall|k: int| 0 <= k < n_macro_refs ==> #[trigger] o.macro_refs@[k] == spec_macroref_at(d, p + 1 + 1 + len_validation_string + 1 + 2 * k)
        &&& end == p + 1 + 1 + len_validation_string + 1 + 2 * n_macro_refs
    }
}

fn read_input_attributes(data: &[u8], pos: &mut usize, id: ObjectId) -> (r: Option<InputAttributes>)
    requires
        *old(pos) <= data@.len(),
    ensures
        *final(pos) <= data@.len(),
        *final(pos) >= *old(pos),
        (r is Some) <==> spec_input_attributes_fits(data@, *old(pos) as int),
        r matches Some(o) ==> spec_input_attributes_read(data@, *old(pos) as int, id, o, *final(pos) as int),
{
    let validation_type = match read_u8(data, pos) {
        Some(v) => v,
        None => {
            return None;
        },
    };
    let len_validation_string = match read_u8(data, pos) {
        Some(v) => v as usize,
        None => {
            return None;
        },
    };
    let validation_string = match read_bytes(data, pos, len_validation_string) {
        Some(v) => v,
        None => {
            return None;
        },
    };
    let n_macro_refs = match read_u8(data, pos) {
        Some(v) => v as usize,
        None => {
            return None;
        },
    };
    let macro_refs = match read_macroref_list(data, pos, n_macro_refs) {
        Some(v) => v,
        None => {
            return None;
        },
    };
    Some(InputAttributes { id, validation_type, validation_string, macro_refs })
}

/// Whether a complete ObjectPointer body lies in `d` at `p`.
pub open spec fn spec_object_pointer_fits(d: Seq<u8>, p: int) -> bool {
    p + 2 <= d.len()
}

/// The ObjectPointer parsed from `d` at `p`, its fields pinned to the input
/// bytes and `end` to the position one past its body.
pub open spec fn spec_object_pointer_read(d: Seq<u8>, p: int, id: ObjectId, o: ObjectPointer, end: int) -> bool {
    {
        &&& o.id == id
        &&& o.value == spec_oid_at(d, p)
        &&& end == p + 2
    }
}

fn read_object_pointer(data: &[u8], pos: &mut usize, id: ObjectId) -> (r: Option<ObjectPointer>)
    requires
        *old(pos) <= data@.len(),
    ensures
        *final(pos) <= data@.len(),
        *final(pos) >= *old(pos),
        (r is Some) <==> spec_object_pointer_fits(data@, *old(pos) as int),
        r matches Some(o) ==> spec_object_pointer_read(data@, *old(pos) as int, id, o, *final(pos) as int),
{
    let value = match read_oid(data, pos) {
        Some(v) => v,
        None => {
            return None;
        },
    };
    Some(ObjectPointer { id, value })
}

/// Whether a complete Macro body lies in `d` at `p`.
pub open spec fn spec_macro_fits(d: Seq<u8>, p: int) -> bool {
    let n_commands = spec_u16_at(d, p) as int;
    p + 2 + 1 * n_commands <= d.len()
}

/// The Macro parsed from `d` at `p`, its fields pinned to the input
/// bytes and `end` to the position one past its body.
pub open spec fn spec_macro_read(d: Seq<u8>, p: int, id: ObjectId, o: Macro, end: int) -> bool {
    let n_commands = spec_u16_at(d, p) as int;
    {
        &&& o.id == id
        &&& o.commands@.len() == n_commands
        &&& o.commands@ == d.subrange(p + 2, p + 2 + n_commands)
        &&& end == p + 2 + 1 * n_commands
    }
}

fn read_macro(data: &[u8], pos: &mut usize, id: ObjectId) -> (r: Option<Macro>)
    requires
        *old(pos) <= data@.len(),
    ensures
        *final(pos) <= data@.len(),
        *final(pos) >= *old(pos),
        (r is Some) <==> spec_macro_fits(data@, *old(pos) as int),
        r matches Some(o) ==> spec_macro_read(data@, *old(pos) as int, id, o, *final(pos) as int),
{
    let n_commands = match read_u16(data, pos) {
        Some(v) => v as usize,
        None => {
            return None;
        },
    };
    let commands = match read_byte_list(data, pos, n_commands) {
        Some(v) => v,
        None => {
            return None;
        },
    };
    proof {
        let p = *old(pos) as int;
        assert(commands@ =~= data@.subrange(p + 2, p + 2 + spec_u16_at(data@, p) as int));
    }
    Some(Macro { id, commands })
}

/// Whether a complete AuxiliaryFunctionType1 body lies in `d` at `p`.
pub open spec fn spec_auxiliary_function_type1_fits(d: Seq<u8>, p: int) -> bool {
    let n_object_refs = d[p + 1 + 1] as int;
    p + 1 + 1 + 1 + 6 * n_object_refs <= d.len()
}

/// The AuxiliaryFunctionType1 parsed from `d` at `p`, its fields pinned to the input
/// bytes and `end` to the position one past its body.
pub open spec fn spec_auxiliary_function_type1_read(d: Seq<u8>, p: int, id: ObjectId, o: AuxiliaryFunctionType1, end: int) -> bool {
    let n_object_refs = d[p + 1 + 1] as int;
    {
        &&& o.id == id
        &&& o.background_colour == d[p]
        &&& o.function_type == d[p + 1]
        &&& o.object_refs@.len() == n_object_refs
        &&& forall|k: int| 0 <= k < n_object_refs ==> #[trigger] o.object_refs@[k] == spec_objref_at(d, p + 1 + 1 + 1 + 6 * k)
        &&& end == p + 1 + 1 + 1 + 6 * n_object_refs
    }
}

fn read_auxiliary_function_type1(data: &[u8], pos: &mut usize, id: ObjectId) -> (r: Option<AuxiliaryFunctionType1>)
    requires
        *old(pos) <= data@.len(),
    ensures
        *final(pos) <= data@.len(),
        *final(pos) >= *old(pos),
        (r is Some) <==> spec_auxiliary_function_type1_fits(data@, *old(pos) as int),
        r matches Some(o) ==> spec_auxiliary_function_type1_read(data@, *old(pos) as int, id, o, *final(pos) as int),
{
    let background_colour = match read_u8(data, pos) {
        Some(v) => v,
        None => {
            return None;
        },
    };
    let function_type = match read_u8(data, pos) {
        Some(v) => v,
        None => {
            return None;
        },
    };
    let n_object_refs = match read_u8(data, pos) {
        Some(v) => v as usize,
        None => {
            return None;
        },
    };
    let object_refs = match read_objref_list(data, pos, n_object_refs) {
        Some(v) => v,
        None => {
            return None;
        },
    };
    Some(AuxiliaryFunctionType1 { id, background_colour, function_type, object_refs })
}

/// Whether a complete AuxiliaryInputType1 body lies in `d` at `p`.
pub open spec fn spec_auxiliary_input_type1_fits(d: Seq<u8>, p: int) -> bool {
    let n_object_refs = d[p + 1 + 1 + 1] as int;
    p + 1 + 1 + 1 + 1 + 6 * n_object_refs <= d.len()
}

/// The AuxiliaryInputType1 parsed from `d` at `p`, its fields pinned to the input
/// bytes and `end` to the position one past its body.
pub open spec fn spec_auxiliary_input_type1_read(d: Seq<u8>, p: int, id: ObjectId, o: AuxiliaryInputType1, end: int) -> bool {
    let n_object_refs = d[p + 1 + 1 + 1] as int;
    {
        &&& o.id == id
        &&& o.background_colour == d[p]
        &&& o.function_type == d[p + 1]
        &&& o.input_id == d[p + 1 + 1]
        &&& o.object_refs@.len() == n_object_refs
        &&& forall|k: int| 0 <= k < n_object_refs ==> #[trigger] o.object_refs@[k] == spec_objref_at(d, p + 1 + 1 + 1 + 1 + 6 * k)
        &&& end == p + 1 + 1 + 1 + 1 + 6 * n_object_refs
    }
}

fn read_auxiliary_input_type1(data: &[u8], pos: &mut usize, id: ObjectId) -> (r: Option<AuxiliaryInputType1>)
    requires
        *old(pos) <= data@.len(),
    ensures
        *final(pos) <= data@.len(),
        *final(pos) >= *old(pos),
        (r is Some) <==> spec_auxiliary_input_type1_fits(data@, *old(pos) as int),
        r matches Some(o) ==> spec_auxiliary_input_type1_read(data@, *old(pos) as int, id, o, *final(pos) as int),
{
    let background_colour = match read_u8(data, pos) {
        Some(v) => v,
        None => {
            return None;
        },
    };
    let function_type = match read_u8(data, pos) {
        Some(v) => v,
        None => {
            return None;
        },
    };
    let input_id = match read_u8(data, pos) {
        Some(v) => v,
        None => {
            return None;
        },
    };
    let n_object_refs = match read_u8(data, pos) {
        Some(v) => v as usize,
        None => {
            return None;
        },
    };
    let object_refs = match read_objref_list(data, pos, n_object_refs) {
        Some(v) => v,
        None => {
            return None;
        },
    };
    Some(AuxiliaryInputType1 { id, background_colour, function_type, input_id, object_refs })
}

/// Whether a complete AuxiliaryFunctionType2 body lies in `d` at `p`.
pub open spec fn spec_auxiliary_function_type2_fits(d: Seq<u8>, p: int) -> bool {
    let n_object_refs = d[p + 1 + 1] as int;
    p + 1 + 1 + 1 + 6 * n_object_refs <= d.len()
}

/// The AuxiliaryFunctionType2 parsed from `d` at `p`, its fields pinned to the input
/// bytes and `end` to the position one past its body.
pub open spec fn spec_auxiliary_function_type2_read(d: Seq<u8>, p: int, id: ObjectId, o: AuxiliaryFunctionType2, end: int) -> bool {
    let n_object_refs = d[p + 1 + 1] as int;
    {
        &&& o.id == id
        &&& o.background_colour == d[p]
        &&& o.function_attributes == d[p + 1]
        &&& o.object_refs@.len() == n_object_refs
        &&& forall|k: int| 0 <= k < n_object_refs ==> #[trigger] o.object_refs@[k] == spec_objref_at(d, p + 1 + 1 + 1 + 6 * k)
        &&& end == p + 1 + 1 + 1 + 6 * n_object_refs
    }
}

fn read_auxiliary_function_type2(data: &[u8], pos: &mut usize, id: ObjectId) -> (r: Option<AuxiliaryFunctionType2>)
    requires
        *old(pos) <= data@.len(),
    ensures
        *final(pos) <= data@.len(),
        *final(pos) >= *old(pos),
        (r is Some) <==> spec_auxiliary_function_type2_fits(data@, *old(pos) as int),
        r matches Some(o) ==> spec_auxiliary_function_type2_read(data@, *old(pos) as int, id, o, *final(pos) as int),
{
    let background_colour = match read_u8(data, pos) {
        Some(v) => v,
        None => {
            return None;
        },
    };
    let function_attributes = match read_u8(data, pos) {
        Some(v) => v,
        None => {
            return None;
        },
    };
    let n_object_refs = match read_u8(data, pos) {
        Some(v) => v as usize,
        None => {
            return None;
        },
    };
    let object_refs = match read_objref_list(data, pos, n_object_refs) {
        Some(v) => v,
        None => {
            return None;
        },
    };
    Some(AuxiliaryFunctionType2 { id, background_colour, function_attributes, object_refs })
}

/// Whether a complete AuxiliaryInputType2 body lies in `d` at `p`.
pub open spec fn spec_auxiliary_input_type2_fits(d: Seq<u8>, p: int) -> bool {
    let n_object_refs = d[p + 1 + 1] as int;
    p + 1 + 1 + 1 + 6 * n_object_refs <= d.len()
}

/// The AuxiliaryInputType2 parsed from `d` at `p`, its fields pinned to the input
/// bytes and `end` to the position one past its body.
pub open spec fn spec_auxiliary_input_type2_read(d: Seq<u8>, p: int, id: ObjectId, o: AuxiliaryInputType2, end: int) -> bool {
    let n_object_refs = d[p + 1 + 1] as int;
    {
        &&& o.id == id
        &&& o.background_colour == d[p]
        &&& o.function_attributes == d[p + 1]
        &&& o.object_refs@.len() == n_object_refs
        &&& forall|k: int| 0 <= k < n_object_refs ==> #[trigger] o.object_refs@[k] == spec_objref_at(d, p + 1 + 1 + 1 + 6 * k)
        &&& end == p + 1 + 1 + 1 + 6 * n_object_refs
    }
}

fn read_auxiliary_input_type2(data: &[u8], pos: &mut usize, id: ObjectId) -> (r: Option<AuxiliaryInputType2>)
    requires
        *old(pos) <= data@.len(),
    ensures
        *final(pos) <= data@.len(),
        *final(pos) >= *old(pos),
        (r is Some) <==> spec_auxiliary_input_type2_fits(data@, *old(pos) as int),
        r matches Some(o) ==> spec_auxiliary_input_type2_read(data@, *old(pos) as int, id, o, *final(pos) as int),
{
    let background_colour = match read_u8(data, pos) {
        Some(v) => v,
        None => {
            return None;
        },
    };
    let function_attributes = match read_u8(data, pos) {
        Some(v) => v,
        None => {
            return None;
        },
    };
    let n_object_refs = match read_u8(data, pos) {
        Some(v) => v as usize,
        None => {
            return None;
        },
    };
    let object_refs = match read_objref_list(data, pos, n_object_refs) {
        Some(v) => v,
        None => {
            return None;
        },
    };
    Some(AuxiliaryInputType2 { id, background_colour, function_attributes, object_refs })
}

/// Whether a complete AuxiliaryControlDesignatorType2 body lies in `d` at `p`.
pub open spec fn spec_auxiliary_control_designator_type2_fits(d: Seq<u8>, p: int) -> bool {
    p + 1 + 2 <= d.len()
}

/// The AuxiliaryControlDesignatorType2 parsed from `d` at `p`, its fields pinned to the input
/// bytes and `end` to the position one past its body.
pub open spec fn spec_auxiliary_control_designator_type2_read(d: Seq<u8>, p: int, id: ObjectId, o: AuxiliaryControlDesignatorType2, end: int) -> bool {
    {
        &&& o.id == id
        &&& o.pointer_type == d[p]
        &&& o.auxiliary_object_id == spec_oid_at(d, p + 1)
        &&& end == p + 1 + 2
    }
}

fn read_auxiliary_control_designator_type2(data: &[u8], pos: &mut usize, id: ObjectId) -> (r: Option<AuxiliaryControlDesignatorType2>)
    requires
        *old(pos) <= data@.len(),
    ensures
        *final(pos) <= data@.len(),
        *final(pos) >= *old(pos),
        (r is Some) <==> spec_auxiliary_control_designator_type2_fits(data@, *old(pos) as int),
        r matches Some(o) ==> spec_auxiliary_control_designator_type2_read(data@, *old(pos) as int, id, o, *final(pos) as int),
{
    let pointer_type = match read_u8(data, pos) {
        Some(v) => v,
        None => {
            return None;
        },
    };
    let auxiliary_object_id = match read_oid(data, pos) {
        Some(v) => v,
        None => {
            return None;
        },
    };
    Some(AuxiliaryControlDesignatorType2 { id, pointer_type, auxiliary_object_id })
}

/// Whether a complete WindowMask body lies in `d` at `p`.
pub open spec fn spec_window_mask_fits(d: Seq<u8>, p: int) -> bool {
    let n_objects = d[p + 1 + 1 + 1 + 1 + 1 + 2 + 2 + 2] as int;
    let n_object_refs = d[p + 1 + 1 + 1 + 1 + 1 + 2 + 2 + 2 + 1] as int;
    let n_macro_refs = d[p + 1 + 1 + 1 + 1 + 1 + 2 + 2 + 2 + 1 + 1] as int;
    p + 1 + 1 + 1 + 1 + 1 + 2 + 2 + 2 + 1 + 1 + 1 + 2 * n_objects + 6 * n_object_refs + 2 * n_macro_refs <= d.len()
}

/// The WindowMask parsed from `d` at `p`, its fields pinned to the input
/// bytes and `end` to the position one past its body.
pub open spec fn spec_window_mask_read(d: Seq<u8>, p: int, id: ObjectId, o: WindowMask, end: int) -> bool {
    let n_objects = d[p + 1 + 1 + 1 + 1 + 1 + 2 + 2 + 2] as int;
    let n_object_refs = d[p + 1 + 1 + 1 + 1 + 1 + 2 + 2 + 2 + 1] as int;
    let n_macro_refs = d[p + 1 + 1 + 1 + 1 + 1 + 2 + 2 + 2 + 1 + 1] as int;
    {
        &&& o.id == id
        &&& o.width == d[p]
        &&& o.height == d[p + 1]
        &&& o.window_type == d[p + 1 + 1]
        &&& o.background_colour == d[p + 1 + 1 + 1]
        &&& o.options == d[p + 1 + 1 + 1 + 1]
        &&& o.name == spec_oid_at(d, p + 1 + 1 + 1 + 1 + 1)
        &&& o.window_title == spec_oid_at(d, p + 1 + 1 + 1 + 1 + 1 + 2)
        &&& o.window_icon == spec_oid_at(d, p + 1 + 1 + 1 + 1 + 1 + 2 + 2)
        &&& o.objects@.len() == n_objects
        &&& forall|k: int| 0 <= k < n_objects ==> #[trigger] o.objects@[k] == spec_oid_at(d, p + 1 + 1 + 1 + 1 + 1 + 2 + 2 + 2 + 1 + 1 + 1 + 2 * k)
        &&& o.object_refs@.len() == n_object_refs
        &&& forall|k: int| 0 <= k < n_object_refs ==> #[trigger] o.object_refs@[k] == spec_objref_at(d, p + 1 + 1 + 1 + 1 + 1 + 2 + 2 + 2 + 1 + 1 + 1 + 2 * n_objects + 6 * k)
        &&& o.macro_refs@.len() == n_macro_refs
        &&& forall|k: int| 0 <= k < n_macro_refs ==> #[trigger] o.macro_refs@[k] == spec_macroref_at(d, p + 1 + 1 + 1 + 1 + 1 + 2 + 2 + 2 + 1 + 1 + 1 + 2 * n_objects + 6 * n_object_refs + 2 * k)
        &&& end == p + 1 + 1 + 1 + 1 + 1 + 2 + 2 + 2 + 1 + 1 + 1 + 2 * n_objects + 6 * n_object_refs + 2 * n_macro_refs
    }
}

fn read_window_mask(data: &[u8], pos: &mut usize, id: ObjectId) -> (r: Option<WindowMask>)
    requires
        *old(pos) <= data@.len(),
    ensures
        *final(pos) <= data@.len(),
        *final(pos) >= *old(pos),
        (r is Some) <==> spec_window_mask_fits(data@, *old(pos) as int),
        r matches Some(o) ==> spec_window_mask_read(data@, *old(pos) as int, id, o, *final(pos) as int),
{
    let width = match read_u8(data, pos) {
        Some(v) => v,
        None => {
            return None;
        },
    };
    let height = match read_u8(data, pos) {
        Some(v) => v,
        None => {
            return None;
        },
    };
    let window_type = match read_u8(data, pos) {
        Some(v) => v,
        None => {
            return None;
        },
    };
    let background_colour = match read_u8(data, pos) {
        Some(v) => v,
        None => {
            return None;
        },
    };
    let options = match read_u8(data, pos) {
        Some(v) => v,
        None => {
            return None;
        },
    };
    let name = match read_oid(data, pos) {
        Some(v) => v,
        None => {
            return None;
        },
    };
    let window_title = match read_oid(data, pos) {
        Some(v) => v,
        None => {
            return None;
        },
    };
    let window_icon = match read_oid(data, pos) {
        Some(v) => v,
        None => {
            return None;
        },
    };
    let n_objects = match read_u8(data, pos) {
        Some(v) => v as usize,
        None => {
            return None;
        },
    };
    let n_object_refs = match read_u8(data, pos) {
        Some(v) => v as usize,
        None => {
            return None;
        },
    };
    let n_macro_refs = match read_u8(data, pos) {
        Some(v) => v as usize,
        None => {
            return None;
        },
    };
    let objects = match read_oid_list(data, pos, n_objects) {
        Some(v) => v,
        None => {
            return None;
        },
    };
    let object_refs = match read_objref_list(data, pos, n_object_refs) {
        Some(v) => v,
        None => {
            return None;
        },
    };
    let macro_refs = match read_macroref_list(data, pos, n_macro_refs) {
        Some(v) => v,
        None => {
            return None;
        },
    };
    Some(WindowMask { id, width, height, window_type, background_colour, options, name, window_title, window_icon, objects, object_refs, macro_refs })
}

/// Whether a complete KeyGroup body lies in `d` at `p`.
pub open spec fn spec_key_group_fits(d: Seq<u8>, p: int) -> bool {
    let n_objects = d[p + 1 + 2 + 2] as int;
    let n_macro_refs = d[p + 1 + 2 + 2 + 1] as int;
    p + 1 + 2 + 2 + 1 + 1 + 2 * n_objects + 2 * n_macro_refs <= d.len()
}

/// The KeyGroup parsed from `d` at `p`, its fields pinned to the input
/// bytes and `end` to the position one past its body.
pub open spec fn spec_key_group_read(d: Seq<u8>, p: int, id: ObjectId, o: KeyGroup, end: int) -> bool {
    let n_objects = d[p + 1 + 2 + 2] as int;
    let n_macro_refs = d[p + 1 + 2 + 2 + 1] as int;
    {
        &&& o.id == id
        &&& o.options == d[p]
        &&& o.name == spec_oid_at(d, p + 1)
        &&& o.key_group_icon == spec_oid_at(d, p + 1 + 2)
        &&& o.objects@.len() == n_objects
        &&& forall|k: int| 0 <= k < n_objects ==> #[trigger] o.objects@[k] == spec_oid_at(d, p + 1 + 2 + 2 + 1 + 1 + 2 * k)
        &&& o.macro_refs@.len() == n_macro_refs
        &&& forall|k: int| 0 <= k < n_macro_refs ==> #[trigger] o.macro_refs@[k] == spec_macroref_at(d, p + 1 + 2 + 2 + 1 + 1 + 2 * n_objects + 2 * k)
        &&& end == p + 1 + 2 + 2 + 1 + 1 + 2 * n_objects + 2 * n_macro_refs
    }
}

fn read_key_group(data: &[u8], pos: &mut usize, id: ObjectId) -> (r: Option<KeyGroup>)
    requires
        *old(pos) <= data@.len(),
    ensures
        *final(pos) <= data@.len(),
        *final(pos) >= *old(pos),
        (r is Some) <==> spec_key_group_fits(data@, *old(pos) as int),
        r matches Some(o) ==> spec_key_group_read(data@, *old(pos) as int, id, o, *final(pos) as int),
{
    let options = match read_u8(data, pos) {
        Some(v) => v,
        None => {
            return None;
        },
    };
    let name = match read_oid(data, pos) {
        Some(v) => v,
        None => {
            return None;
        },
    };
    let key_group_icon = match read_oid(data, pos) {
        Some(v) => v,
        None => {
            return None;
        },
    };
    let n_objects = match read_u8(data, pos) {
        Some(v) => v as usize,
        None => {
            return None;
        },
    };
    let n_macro_refs = match read_u8(data, pos) {
        Some(v) => v as usize,
        None => {
            return None;
        },
    };
    let objects = match read_oid_list(data, pos, n_objects) {
        Some(v) => v,
        None => {
            return None;
        },
    };
    let macro_refs = match read_macroref_list(data, pos, n_macro_refs) {
        Some(v) => v,
        None => {
            return None;
        },
    };
    Some(KeyGroup { id, options, name, key_group_icon, objects, macro_refs })
}

/// Whether a complete GraphicsContext body lies in `d` at `p`.
pub open spec fn spec_graphics_context_fits(d: Seq<u8>, p: int) -> bool {
    p + 2 + 2 + 2 + 2 + 2 + 2 + 4 + 2 + 2 + 1 + 1 + 2 + 2 + 2 + 1 + 1 + 1 <= d.len()
}

/// The GraphicsContext parsed from `d` at `p`, its fields pinned to the input
/// bytes and `end` to the position one past its body.
pub open spec fn spec_graphics_context_read(d: Seq<u8>, p: int, id: ObjectId, o: GraphicsContext, end: int) -> bool {
    {
        &&& o.id == id
        &&& o.viewport_width == spec_u16_at(d, p)
        &&& o.viewport_height == spec_u16_at(d, p + 2)
        &&& o.viewport_x == spec_i16_at(d, p + 2 + 2)
        &&& o.viewport_y == spec_i16_at(d, p + 2 + 2 + 2)
        &&& o.canvas_width == spec_u16_at(d, p + 2 + 2 + 2 + 2)
        &&& o.canvas_height == spec_u16_at(d, p + 2 + 2 + 2 + 2 + 2)
        &&& o.viewport_zoom == spec_u32_at(d, p + 2 + 2 + 2 + 2 + 2 + 2)
        &&& o.graphics_cursor_x == spec_i16_at(d, p + 2 + 2 + 2 + 2 + 2 + 2 + 4)
        &&& o.graphics_cursor_y == spec_i16_at(d, p + 2 + 2 + 2 + 2 + 2 + 2 + 4 + 2)
        &&& o.foreground_colour == d[p + 2 + 2 + 2 + 2 + 2 + 2 + 4 + 2 + 2]
        &&& o.background_colour == d[p + 2 + 2 + 2 + 2 + 2 + 2 + 4 + 2 + 2 + 1]
        &&& o.font_attributes_object == spec_oid_at(d, p + 2 + 2 + 2 + 2 + 2 + 2 + 4 + 2 + 2 + 1 + 1)
        &&& o.line_attributes_object == spec_oid_at(d, p + 2 + 2 + 2 + 2 + 2 + 2 + 4 + 2 + 2 + 1 + 1 + 2)
        &&& o.fill_attributes_object == spec_oid_at(d, p + 2 + 2 + 2 + 2 + 2 + 2 + 4 + 2 + 2 + 1 + 1 + 2 + 2)
        &&& o.format == d[p + 2 + 2 + 2 + 2 + 2 + 2 + 4 + 2 + 2 + 1 + 1 + 2 + 2 + 2]
        &&& o.options == d[p + 2 + 2 + 2 + 2 + 2 + 2 + 4 + 2 + 2 + 1 + 1 + 2 + 2 + 2 + 1]
        &&& o.transparency_colour == d[p + 2 + 2 + 2 + 2 + 2 + 2 + 4 + 2 + 2 + 1 + 1 + 2 + 2 + 2 + 1 + 1]
        &&& end == p + 2 + 2 + 2 + 2 + 2 + 2 + 4 + 2 + 2 + 1 + 1 + 2 + 2 + 2 + 1 + 1 + 1
    }
}

fn read_graphics_context(data: &[u8], pos: &mut usize, id: ObjectId) -> (r: Option<GraphicsContext>)
    requires
        *old(pos) <= data@.len(),
    ensures
        *final(pos) <= data@.len(),
        *final(pos) >= *old(pos),
        (r is Some) <==> spec_graphics_context_fits(data@, *old(pos) as int),
        r matches Some(o) ==> spec_graphics_context_read(data@, *old(pos) as int, id, o, *final(pos) as int),
{
    let viewport_width = match read_u16(data, pos) {
        Some(v) => v,
        None => {
            return None;
        },
    };
    let viewport_height = match read_u16(data, pos) {
        Some(v) => v,
        None => {
            return None;
        },
    };
    let viewport_x = match read_i16(data, pos) {
        Some(v) => v,
        None => {
            return None;
        },
    };
    let viewport_y = match read_i16(data, pos) {
        Some(v) => v,
        None => {
            return None;
        },
    };
    let canvas_width = match read_u16(data, pos) {
        Some(v) => v,
        None => {
            return None;
        },
    };
    let canvas_height = match read_u16(data, pos) {
        Some(v) => v,
        None => {
            return None;
        },
    };
    let viewport_zoom = match read_u32(data, pos) {
        Some(v) => v,
        None => {
            return None;
        },
    };
    let graphics_cursor_x = match read_i16(data, pos) {
        Some(v) => v,
        None => {
            return None;
        },
    };
    let graphics_cursor_y = match read_i16(data, pos) {
        Some(v) => v,
        None => {
            return None;
        },
    };
    let foreground_colour = match read_u8(data, pos) {
        Some(v) => v,
        None => {
            return None;
        },
    };
    let background_colour = match read_u8(data, pos) {
        Some(v) => v,
        None => {
            return None;
        },
    };
    let font_attributes_object = match read_oid(data, pos) {
        Some(v) => v,
        None => {
            return None;
        },
    };
    let line_attributes_object = match read_oid(data, pos) {
        Some(v) => v,
        None => {
            return None;
        },
    };
    let fill_attributes_object = match read_oid(data, pos) {
        Some(v) => v,
        None => {
            return None;
        },
    };
    let format = match read_u8(data, pos) {
        Some(v) => v,
        None => {
            return None;
        },
    };
    let options = match read_u8(data, pos) {
        Some(v) => v,
        None => {
            return None;
        },
    };
    let transparency_colour = match read_u8(data, pos) {
        Some(v) => v,
        None => {
            return None;
        },
    };
    Some(GraphicsContext { id, viewport_width, viewport_height, viewport_x, viewport_y, canvas_width, canvas_height, viewport_zoom, graphics_cursor_x, graphics_cursor_y, foreground_colour, background_colour, font_attributes_object, line_attributes_object, fill_attributes_object, format, options, transparency_colour })
}

/// Whether a complete OutputList body lies in `d` at `p`.
pub open spec fn spec_output_list_fits(d: Seq<u8>, p: int) -> bool {
    let n_list_items = d[p + 2 + 2 + 2 + 1] as int;
    let n_macro_refs = d[p + 2 + 2 + 2 + 1 + 1] as int;
    p + 2 + 2 + 2 + 1 + 1 + 1 + 2 * n_list_items + 2 * n_macro_refs <= d.len()
}

/// The OutputList parsed from `d` at `p`, its fields pinned to the input
/// bytes and `end` to the position one past its body.
pub open spec fn spec_output_list_read(d: Seq<u8>, p: int, id: ObjectId, o: OutputList, end: int) -> bool {
    let n_list_items = d[p + 2 + 2 + 2 + 1] as int;
    let n_macro_refs = d[p + 2 + 2 + 2 + 1 + 1] as int;
    {
        &&& o.id == id
        &&& o.width == spec_u16_at(d, p)
        &&& o.height == spec_u16_at(d, p + 2)
        &&& o.variable_reference == spec_oid_at(d, p + 2 + 2)
        &&& o.value == d[p + 2 + 2 + 2]
        &&& o.list_items@.len() == n_list_items
        &&& forall|k: int| 0 <= k < n_list_items ==> #[trigger] o.list_items@[k] == spec_oid_at(d, p + 2 + 2 + 2 + 1 + 1 + 1 + 2 * k)
        &&& o.macro_refs@.len() == n_macro_refs
        &&& forall|k: int| 0 <= k < n_macro_refs ==> #[trigger] o.macro_refs@[k] == spec_macroref_at(d, p + 2 + 2 + 2 + 1 + 1 + 1 + 2 * n_list_items + 2 * k)
        &&& end == p + 2 + 2 + 2 + 1 + 1 + 1 + 2 * n_list_items + 2 * n_macro_refs
    }
}

fn read_output_list(data: &[u8], pos: &mut usize, id: ObjectId) -> (r: Option<OutputList>)
    requires
        *old(pos) <= data@.len(),
    ensures
        *final(pos) <= data@.len(),
        *final(pos) >= *old(pos),
        (r is Some) <==> spec_output_list_fits(data@, *old(pos) as int),
        r matches Some(o) ==> spec_output_list_read(data@, *old(pos) as int, id, o, *final(pos) as int),
{
    let width = match read_u16(data, pos) {
        Some(v) => v,
        None => {
            return None;
        },
    };
    let height = match read_u16(data, pos) {
        Some(v) => v,
        None => {
            return None;
        },
    };
    let variable_reference = match read_oid(data, pos) {
        Some(v) => v,
        None => {
            return None;
        },
    };
    let value = match read_u8(data, pos) {
        Some(v) => v,
        None => {
            return None;
        },
    };
    let n_list_items = match read_u8(data, pos) {
        Some(v) => v as usize,
        None => {
            return None;
        },
    };
    let n_macro_refs = match read_u8(data, pos) {
        Some(v) => v as usize,
        None => {
            return None;
        },
    };
    let list_items = match read_oid_list(data, pos, n_list_items) {
        Some(v) => v,
        None => {
            return None;
        },
    };
    let macro_refs = match read_macroref_list(data, pos, n_macro_refs) {
        Some(v) => v,
        None => {
            return None;
        },
    };
    Some(OutputList { id, width, height, variable_reference, value, list_items, macro_refs })
}

/// Whether a complete ExtendedInputAttributes body lies in `d` at `p`.
pub open spec fn spec_extended_input_attributes_fits(d: Seq<u8>, p: int) -> bool {
    p + 1 + 1 <= d.len()
}

/// The ExtendedInputAttributes parsed from `d` at `p`, its fields pinned to the input
/// bytes and `end` to the position one past its body.
pub open spec fn spec_extended_input_attributes_read(d: Seq<u8>, p: int, id: ObjectId, o: ExtendedInputAttributes, end: int) -> bool {
    {
        &&& o.id == id
        &&& o.validation_type == d[p]
        &&& o.nr_of_code_planes == d[p + 1]
        &&& end == p + 1 + 1
    }
}

fn read_extended_input_attributes(data: &[u8], pos: &mut usize, id: ObjectId) -> (r: Option<ExtendedInputAttributes>)
    requires
        *old(pos) <= data@.len(),
    ensures
        *final(pos) <= data@.len(),
        *final(pos) >= *old(pos),
        (r is Some) <==> spec_extended_input_attributes_fits(data@, *old(pos) as int),
        r matches Some(o) ==> spec_extended_input_attributes_read(data@, *old(pos) as int, id, o, *final(pos) as int),
{
    let validation_type = match read_u8(data, pos) {
        Some(v) => v,
        None => {
            return None;
        },
    };
    let nr_of_code_planes = match read_u8(data, pos) {
        Some(v) => v,
        None => {
            return None;
        },
    };
    Some(ExtendedInputAttributes { id, validation_type, nr_of_code_planes })
}

/// Whether a complete ColourMap body lies in `d` at `p`.
pub open spec fn spec_colour_map_fits(d: Seq<u8>, p: int) -> bool {
    let n_colour_map = spec_u16_at(d, p) as int;
    p + 2 + 1 * n_colour_map <= d.len()
}

/// The ColourMap parsed from `d` at `p`, its fields pinned to the input
/// bytes and `end` to the position one past its body.
pub open spec fn spec_colour_map_read(d: Seq<u8>, p: int, id: ObjectId, o: ColourMap, end: int) -> bool {
    let n_colour_map = spec_u16_at(d, p) as int;
    {
        &&& o.id == id
        &&& o.colour_map@.len() == n_colour_map
        &&& o.colour_map@ == d.subrange(p + 2, p + 2 + n_colour_map)
        &&& end == p + 2 + 1 * n_colour_map
    }
}

fn read_colour_map(data: &[u8], pos: &mut usize, id: ObjectId) -> (r: Option<ColourMap>)
    requires
        *old(pos) <= data@.len(),
    ensures
        *final(pos) <= data@.len(),
        *final(pos) >= *old(pos),
        (r is Some) <==> spec_colour_map_fits(data@, *old(pos) as int),
        r matches Some(o) ==> spec_colour_map_read(data@, *old(pos) as int, id, o, *final(pos) as int),
{
    let n_colour_map = match read_u16(data, pos) {
        Some(v) => v as usize,
        None => {
            return None;
        },
    };
    let colour_map = match read_byte_list(data, pos, n_colour_map) {
        Some(v) => v,
        None => {
            return None;
        },
    };
    proof {
        let p = *old(pos) as int;
        assert(colour_map@ =~= data@.subrange(p + 2, p + 2 + spec_u16_at(data@, p) as int));
    }
    Some(ColourMap { id, colour_map })
}

/// Whether a complete ObjectLabelReferenceList body lies in `d` at `p`.
pub open spec fn spec_object_label_reference_list_fits(d: Seq<u8>, p: int) -> bool {
    let n_object_labels = spec_u16_at(d, p) as int;
    p + 2 + 7 * n_object_labels <= d.len()
}

/// The ObjectLabelReferenceList parsed from `d` at `p`, its fields pinned to the input
/// bytes and `end` to the position one past its body.
pub open spec fn spec_object_label_reference_list_read(d: Seq<u8>, p: int, id: ObjectId, o: ObjectLabelReferenceList, end: int) -> bool {
    let n_object_labels = spec_u16_at(d, p) as int;
    {
        &&& o.id == id
        &&& o.object_labels@.len() == n_object_labels
        &&& forall|k: int| 0 <= k < n_object_labels ==> #[trigger] o.object_labels@[k] == spec_objlabel_at(d, p + 2 + 7 * k)
        &&& end == p + 2 + 7 * n_object_labels
    }
}

fn read_object_label_reference_list(data: &[u8], pos: &mut usize, id: ObjectId) -> (r: Option<ObjectLabelReferenceList>)
    requires
        *old(pos) <= data@.len(),
    ensures
        *final(pos) <= data@.len(),
        *final(pos) >= *old(pos),
        (r is Some) <==> spec_object_label_reference_list_fits(data@, *old(pos) as int),
        r matches Some(o) ==> spec_object_label_reference_list_read(data@, *old(pos) as int, id, o, *final(pos) as int),
{
    let n_object_labels = match read_u16(data, pos) {
        Some(v) => v as usize,
        None => {
            return None;
        },
    };
    let object_labels = match read_objlabel_list(data, pos, n_object_labels) {
        Some(v) => v,
        None => {
            return None;
        },
    };
    Some(ObjectLabelReferenceList { id, object_labels })
}

/// Whether a complete ExternalObjectDefinition body lies in `d` at `p`.
pub open spec fn spec_external_object_definition_fits(d: Seq<u8>, p: int) -> bool {
    let n_objects = d[p + 1 + 8] as int;
    p + 1 + 8 + 1 + 2 * n_objects <= d.len()
}

/// The ExternalObjectDefinition parsed from `d` at `p`, its fields pinned to the input
/// bytes and `end` to the position one past its body.
pub open spec fn spec_external_object_definition_read(d: Seq<u8>, p: int, id: ObjectId, o: ExternalObjectDefinition, end: int) -> bool {
    let n_objects = d[p + 1 + 8] as int;
    {
        &&& o.id == id
        &&& o.options == d[p]
        &&& o.name.spec_value() == crate::name::spec_le_u64(d[p + 1], d[p + 1 + 1], d[p + 1 + 2], d[p + 1 + 3], d[p + 1 + 4], d[p + 1 + 5], d[p + 1 + 6], d[p + 1 + 7])
        &&& o.objects@.len() == n_objects
        &&& forall|k: int| 0 <= k < n_objects ==> #[trigger] o.objects@[k] == spec_oid_at(d, p + 1 + 8 + 1 + 2 * k)
        &&& end == p + 1 + 8 + 1 + 2 * n_objects
    }
}

fn read_external_object_definition(data: &[u8], pos: &mut usize, id: ObjectId) -> (r: Option<ExternalObjectDefinition>)
    requires
        *old(pos) <= data@.len(),
    ensures
        *final(pos) <= data@.len(),
        *final(pos) >= *old(pos),
        (r is Some) <==> spec_external_object_definition_fits(data@, *old(pos) as int),
        r matches Some(o) ==> spec_external_object_definition_read(data@, *old(pos) as int, id, o, *final(pos) as int),
{
    let options = match read_u8(data, pos) {
        Some(v) => v,
        None => {
            return None;
        },
    };
    let name = match read_name(data, pos) {
        Some(v) => v,
        None => {
            return None;
        },
    };
    let n_objects = match read_u8(data, pos) {
        Some(v) => v as usize,
        None => {
            return None;
        },
    };
    let objects = match read_oid_list(data, pos, n_objects) {
        Some(v) => v,
        None => {
            return None;
        },
    };
    Some(ExternalObjectDefinition { id, options, name, objects })
}

/// Whether a complete ExternalReferenceName body lies in `d` at `p`.
pub open spec fn spec_external_reference_name_fits(d: Seq<u8>, p: int) -> bool {
    p + 1 + 8 <= d.len()
}

/// The ExternalReferenceName parsed from `d` at `p`, its fields pinned to the input
/// bytes and `end` to the position one past its body.
pub open spec fn spec_external_reference_name_read(d: Seq<u8>, p: int, id: ObjectId, o: ExternalReferenceName, end: int) -> bool {
    {
        &&& o.id == id
        &&& o.options == d[p]
        &&& o.name.spec_value() == crate::name::spec_le_u64(d[p + 1], d[p + 1 + 1], d[p + 1 + 2], d[p + 1 + 3], d[p + 1 + 4], d[p + 1 + 5], d[p + 1 + 6], d[p + 1 + 7])
        &&& end == p + 1 + 8
    }
}

fn read_external_reference_name(data: &[u8], pos: &mut usize, id: ObjectId) -> (r: Option<ExternalReferenceName>)
    requires
        *old(pos) <= data@.len(),
    ensures
        *final(pos) <= data@.len(),
        *final(pos) >= *old(pos),
        (r is Some) <==> spec_external_reference_name_fits(data@, *old(pos) as int),
        r matches Some(o) ==> spec_external_reference_name_read(data@, *old(pos) as int, id, o, *final(pos) as int),
{
    let options = match read_u8(data, pos) {
        Some(v) => v,
        None => {
            return None;
        },
    };
    let name = match read_name(data, pos) {
        Some(v) => v,
        None => {
            return None;
        },
    };
    Some(ExternalReferenceName { id, options, name })
}

/// Whether a complete ExternalObjectPointer body lies in `d` at `p`.
pub open spec fn spec_external_object_pointer_fits(d: Seq<u8>, p: int) -> bool {
    p + 2 + 2 + 2 <= d.len()
}

/// The ExternalObjectPointer parsed from `d` at `p`, its fields pinned to the input
/// bytes and `end` to the position one past its body.
pub open spec fn spec_external_object_pointer_read(d: Seq<u8>, p: int, id: ObjectId, o: ExternalObjectPointer, end: int) -> bool {
    {
        &&& o.id == id
        &&& o.default_object_id == spec_oid_at(d, p)
        &&& o.external_reference_name_id == spec_oid_at(d, p + 2)
        &&& o.external_object_id == spec_oid_at(d, p + 2 + 2)
        &&& end == p + 2 + 2 + 2
    }
}

fn read_external_object_pointer(data: &[u8], pos: &mut usize, id: ObjectId) -> (r: Option<ExternalObjectPointer>)
    requires
        *old(pos) <= data@.len(),
    ensures
        *final(pos) <= data@.len(),
        *final(pos) >= *old(pos),
        (r is Some) <==> spec_external_object_pointer_fits(data@, *old(pos) as int),
        r matches Some(o) ==> spec_external_object_pointer_read(data@, *old(pos) as int, id, o, *final(pos) as int),
{
    let default_object_id = match read_oid(data, pos) {
        Some(v) => v,
        None => {
            return None;
        },
    };
    let external_reference_name_id = match read_oid(data, pos) {
        Some(v) => v,
        None => {
            return None;
        },
    };
    let external_object_id = match read_oid(data, pos) {
        Some(v) => v,
        None => {
            return None;
        },
    };
    Some(ExternalObjectPointer { id, default_object_id, external_reference_name_id, external_object_id })
}

/// Whether a complete Animation body lies in `d` at `p`.
pub open spec fn spec_animation_fits(d: Seq<u8>, p: int) -> bool {
    let n_object_refs = d[p + 2 + 2 + 2 + 1 + 1 + 1 + 1 + 1 + 1] as int;
    let n_macro_refs = d[p + 2 + 2 + 2 + 1 + 1 + 1 + 1 + 1 + 1 + 1] as int;
    p + 2 + 2 + 2 + 1 + 1 + 1 + 1 + 1 + 1 + 1 + 1 + 6 * n_object_refs + 2 * n_macro_refs <= d.len()
}

/// The Animation parsed from `d` at `p`, its fields pinned to the input
/// bytes and `end` to the position one past its body.
pub open spec fn spec_animation_read(d: Seq<u8>, p: int, id: ObjectId, o: Animation, end: int) -> bool {
    let n_object_refs = d[p + 2 + 2 + 2 + 1 + 1 + 1 + 1 + 1 + 1] as int;
    let n_macro_refs = d[p + 2 + 2 + 2 + 1 + 1 + 1 + 1 + 1 + 1 + 1] as int;
    {
        &&& o.id == id
        &&& o.width == spec_u16_at(d, p)
        &&& o.height == spec_u16_at(d, p + 2)
        &&& o.refresh_interval == spec_u16_at(d, p + 2 + 2)
        &&& o.value == d[p + 2 + 2 + 2]
        &&& o.enabled == (d[p + 2 + 2 + 2 + 1] != 0)
        &&& o.first_child_index == d[p + 2 + 2 + 2 + 1 + 1]
        &&& o.last_child_index == d[p + 2 + 2 + 2 + 1 + 1 + 1]
        &&& o.default_child_index == d[p + 2 + 2 + 2 + 1 + 1 + 1 + 1]
        &&& o.options == d[p + 2 + 2 + 2 + 1 + 1 + 1 + 1 + 1]
        &&& o.object_refs@.len() == n_object_refs
        &&& forall|k: int| 0 <= k < n_object_refs ==> #[trigger] o.object_refs@[k] == spec_objref_at(d, p + 2 + 2 + 2 + 1 + 1 + 1 + 1 + 1 + 1 + 1 + 1 + 6 * k)
        &&& o.macro_refs@.len() == n_macro_refs
        &&& forall|k: int| 0 <= k < n_macro_refs ==> #[trigger] o.macro_refs@[k] == spec_macroref_at(d, p + 2 + 2 + 2 + 1 + 1 + 1 + 1 + 1 + 1 + 1 + 1 + 6 * n_object_refs + 2 * k)
        &&& end == p + 2 + 2 + 2 + 1 + 1 + 1 + 1 + 1 + 1 + 1 + 1 + 6 * n_object_refs + 2 * n_macro_refs
    }
}

fn read_animation(data: &[u8], pos: &mut usize, id: ObjectId) -> (r: Option<Animation>)
    requires
        *old(pos) <= data@.len(),
    ensures
        *final(pos) <= data@.len(),
        *final(pos) >= *old(pos),
        (r is Some) <==> spec_animation_fits(data@, *old(pos) as int),
        r matches Some(o) ==> spec_animation_read(data@, *old(pos) as int, id, o, *final(pos) as int),
{
    let width = match read_u16(data, pos) {
        Some(v) => v,
        None => {
            return None;
        },
    };
    let height = match read_u16(data, pos) {
        Some(v) => v,
        None => {
            return None;
        },
    };
    let refresh_interval = match read_u16(data, pos) {
        Some(v) => v,
        None => {
            return None;
        },
    };
    let value = match read_u8(data, pos) {
        Some(v) => v,
        None => {
            return None;
        },
    };
    let enabled = match read_bool(data, pos) {
        Some(v) => v,
        None => {
            return None;
        },
    };
    let first_child_index = match read_u8(data, pos) {
        Some(v) => v,
        None => {
            return None;
        },
    };
    let last_child_index = match read_u8(data, pos) {
        Some(v) => v,
        None => {
            return None;
        },
    };
    let default_child_index = match read_u8(data, pos) {
        Some(v) => v,
        None => {
            return None;
        },
    };
    let options = match read_u8(data, pos) {
        Some(v) => v,
        None => {
            return None;
        },
    };
    let n_object_refs = match read_u8(data, pos) {
        Some(v) => v as usize,
        None => {
            return None;
        },
    };
    let n_macro_refs = match read_u8(data, pos) {
        Some(v) => v as usize,
        None => {
            return None;
        },
    };
    let object_refs = match read_objref_list(data, pos, n_object_refs) {
        Some(v) => v,
        None => {
            return None;
        },
    };
    let macro_refs = match read_macroref_list(data, pos, n_macro_refs) {
        Some(v) => v,
        None => {
            return None;
        },
    };
    Some(Animation { id, width, height, refresh_interval, value, enabled, first_child_index, last_child_index, default_child_index, options, object_refs, macro_refs })
}

/// Whether a complete ColourPalette body lies in `d` at `p`.
pub open spec fn spec_colour_palette_fits(d: Seq<u8>, p: int) -> bool {
    let n_colours = spec_u16_at(d, p + 2) as int;
    p + 2 + 2 + 4 * n_colours <= d.len()
}

/// The ColourPalette parsed from `d` at `p`, its fields pinned to the input
/// bytes and `end` to the position one past its body.
pub open spec fn spec_colour_palette_read(d: Seq<u8>, p: int, id: ObjectId, o: ColourPalette, end: int) -> bool {
    let n_colours = spec_u16_at(d, p + 2) as int;
    {
        &&& o.id == id
        &&& o.options == spec_u16_at(d, p)
        &&& o.colours@.len() == n_colours
        &&& forall|k: int| 0 <= k < n_colours ==> #[trigger] o.colours@[k] == spec_colour_at(d, p + 2 + 2 + 4 * k)
        &&& end == p + 2 + 2 + 4 * n_colours
    }
}

fn read_colour_palette(data: &[u8], pos: &mut usize, id: ObjectId) -> (r: Option<ColourPalette>)
    requires
        *old(pos) <= data@.len(),
    ensures
        *final(pos) <= data@.len(),
        *final(pos) >= *old(pos),
        (r is Some) <==> spec_colour_palette_fits(data@, *old(pos) as int),
        r matches Some(o) ==> spec_colour_palette_read(data@, *old(pos) as int, id, o, *final(pos) as int),
{
    let options = match read_u16(data, pos) {
        Some(v) => v,
        None => {
            return None;
        },
    };
    let n_colours = match read_u16(data, pos) {
        Some(v) => v as usize,
        None => {
            return None;
        },
    };
    let colours = match read_colour_list(data, pos, n_colours) {
        Some(v) => v,
        None => {
            return None;
        },
    };
    Some(ColourPalette { id, options, colours })
}

/// Whether a complete GraphicData body lies in `d` at `p`.
pub open spec fn spec_graphic_data_fits(d: Seq<u8>, p: int) -> bool {
    let n_data = spec_u32_at(d, p + 1) as int;
    p + 1 + 4 + 1 * n_data <= d.len()
}

/// The GraphicData parsed from `d` at `p`, its fields pinned to the input
/// bytes and `end` to the position one past its body.
pub open spec fn spec_graphic_data_read(d: Seq<u8>, p: int, id: ObjectId, o: GraphicData, end: int) -> bool {
    let n_data = spec_u32_at(d, p + 1) as int;
    {
        &&& o.id == id
        &&& o.format == d[p]
        &&& o.data@.len() == n_data
        &&& o.data@ == d.subrange(p + 1 + 4, p + 1 + 4 + n_data)
        &&& end == p + 1 + 4 + 1 * n_data
    }
}

fn read_graphic_data(data: &[u8], pos: &mut usize, id: ObjectId) -> (r: Option<GraphicData>)
    requires
        *old(pos) <= data@.len(),
    ensures
        *final(pos) <= data@.len(),
        *final(pos) >= *old(pos),
        (r is Some) <==> spec_graphic_data_fits(data@, *old(pos) as int),
        r matches Some(o) ==> spec_graphic_data_read(data@, *old(pos) as int, id, o, *final(pos) as int),
{
    let format = match read_u8(data, pos) {
        Some(v) => v,
        None => {
            return None;
        },
    };
    let n_data = match read_u32(data, pos) {
        Some(v) => v as usize,
        None => {
            return None;
        },
    };
    let raw = match read_byte_list(data, pos, n_data) {
        Some(v) => v,
        None => {
            return None;
        },
    };
    proof {
        let p = *old(pos) as int;
        assert(raw@ =~= data@.subrange(p + 1 + 4, p + 1 + 4 + spec_u32_at(data@, p + 1) as int));
    }
    Some(GraphicData { id, format, data: raw })
}

/// Whether a complete WorkingSetSpecialControls body lies in `d` at `p`.
pub open spec fn spec_working_set_special_controls_fits(d: Seq<u8>, p: int) -> bool {
    let n_language_pairs = d[p + 2 + 2] as int;
    p + 2 + 2 + 1 + 4 * n_language_pairs <= d.len()
}

/// The WorkingSetSpecialControls parsed from `d` at `p`, its fields pinned to the input
/// bytes and `end` to the position one past its body.
pub open spec fn spec_working_set_special_controls_read(d: Seq<u8>, p: int, id: ObjectId, o: WorkingSetSpecialControls, end: int) -> bool {
    let n_language_pairs = d[p + 2 + 2] as int;
    {
        &&& o.id == id
        &&& o.id_of_colour_map == spec_oid_at(d, p)
        &&& o.id_of_colour_palette == spec_oid_at(d, p + 2)
        &&& o.language_pairs@.len() == n_language_pairs
        &&& forall|k: int| 0 <= k < n_language_pairs ==> (#[trigger] o.language_pairs@[k]).0@ == d.subrange(p + 2 + 2 + 1 + 4 * k, p + 2 + 2 + 1 + 4 * k + 2) && o.language_pairs@[k].1@ == d.subrange(p + 2 + 2 + 1 + 4 * k + 2, p + 2 + 2 + 1 + 4 * k + 4)
        &&& end == p + 2 + 2 + 1 + 4 * n_language_pairs
    }
}

fn read_working_set_special_controls(data: &[u8], pos: &mut usize, id: ObjectId) -> (r: Option<WorkingSetSpecialControls>)
    requires
        *old(pos) <= data@.len(),
    ensures
        *final(pos) <= data@.len(),
        *final(pos) >= *old(pos),
        (r is Some) <==> spec_working_set_special_controls_fits(data@, *old(pos) as int),
        r matches Some(o) ==> spec_working_set_special_controls_read(data@, *old(pos) as int, id, o, *final(pos) as int),
{
    let id_of_colour_map = match read_oid(data, pos) {
        Some(v) => v,
        None => {
            return None;
        },
    };
    let id_of_colour_palette = match read_oid(data, pos) {
        Some(v) => v,
        None => {
            return None;
        },
    };
    let n_language_pairs = match read_u8(data, pos) {
        Some(v) => v as usize,
        None => {
            return None;
        },
    };
    let language_pairs = match read_langpair_list(data, pos, n_language_pairs) {
        Some(v) => v,
        None => {
            return None;
        },
    };
    Some(WorkingSetSpecialControls { id, id_of_colour_map, id_of_colour_palette, language_pairs })
}

/// Whether a complete ScalesGraphic body lies in `d` at `p`.
pub open spec fn spec_scales_graphic_fits(d: Seq<u8>, p: int) -> bool {
    let n_macro_refs = d[p + 2 + 2 + 1 + 1 + 2] as int;
    p + 2 + 2 + 1 + 1 + 2 + 1 + 2 * n_macro_refs <= d.len()
}

/// The ScalesGraphic parsed from `d` at `p`, its fields pinned to the input
/// bytes and `end` to the position one past its body.
pub open spec fn spec_scales_graphic_read(d: Seq<u8>, p: int, id: ObjectId, o: ScalesGraphic, end: int) -> bool {
    let n_macro_refs = d[p + 2 + 2 + 1 + 1 + 2] as int;
    {
        &&& o.id == id
        &&& o.width == spec_u16_at(d, p)
        &&& o.height == spec_u16_at(d, p + 2)
        &&& o.scale_type == d[p + 2 + 2]
        &&& o.options == d[p + 2 + 2 + 1]
        &&& o.value == spec_u16_at(d, p + 2 + 2 + 1 + 1)
        &&& o.macro_refs@.len() == n_macro_refs
        &&& forall|k: int| 0 <= k < n_macro_refs ==> #[trigger] o.macro_refs@[k] == spec_macroref_at(d, p + 2 + 2 + 1 + 1 + 2 + 1 + 2 * k)
        &&& end == p + 2 + 2 + 1 + 1 + 2 + 1 + 2 * n_macro_refs
    }
}

fn read_scales_graphic(data: &[u8], pos: &mut usize, id: ObjectId) -> (r: Option<ScalesGraphic>)
    requires
        *old(pos) <= data@.len(),
    ensures
        *final(pos) <= data@.len(),
        *final(pos) >= *old(pos),
        (r is Some) <==> spec_scales_graphic_fits(data@, *old(pos) as int),
        r matches Some(o) ==> spec_scales_graphic_read(data@, *old(pos) as int, id, o, *final(pos) as int),
{
    let width = match read_u16(data, pos) {
        Some(v) => v,
        None => {
            return None;
        },
    };
    let height = match read_u16(data, pos) {
        Some(v) => v,
        None => {
            return None;
        },
    };
    let scale_type = match read_u8(data, pos) {
        Some(v) => v,
        None => {
            return None;
        },
    };
    let options = match read_u8(data, pos) {
        Some(v) => v,
        None => {
            return None;
        },
    };
    let value = match read_u16(data, pos) {
        Some(v) => v,
        None => {
            return None;
        },
    };
    let n_macro_refs = match read_u8(data, pos) {
        Some(v) => v as usize,
        None => {
            return None;
        },
    };
    let macro_refs = match read_macroref_list(data, pos, n_macro_refs) {
        Some(v) => v,
        None => {
            return None;
        },
    };
    Some(ScalesGraphic { id, width, height, scale_type, options, value, macro_refs })
}

/// Whether a complete object encoding lies in `d` at `p`: two id bytes, a
/// known type tag, then a complete body of that type.
pub open spec fn spec_object_fits(d: Seq<u8>, p: int) -> bool {
    &&& p + 3 <= d.len()
    &&& d[p + 2] <= 48
    &&& match d[p + 2] {
        0u8 => spec_working_set_fits(d, p + 3),
        1u8 => spec_data_mask_fits(d, p + 3),
        2u8 => spec_alarm_mask_fits(d, p + 3),
        3u8 => spec_container_fits(d, p + 3),
        4u8 => spec_soft_key_mask_fits(d, p + 3),
        5u8 => spec_key_fits(d, p + 3),
        6u8 => spec_button_fits(d, p + 3),
        7u8 => spec_input_boolean_fits(d, p + 3),
        8u8 => spec_input_string_fits(d, p + 3),
        9u8 => spec_input_number_fits(d, p + 3),
        10u8 => spec_input_list_fits(d, p + 3),
        11u8 => spec_output_string_fits(d, p + 3),
        12u8 => spec_output_number_fits(d, p + 3),
        13u8 => spec_output_line_fits(d, p + 3),
        14u8 => spec_output_rectangle_fits(d, p + 3),
        15u8 => spec_output_ellipse_fits(d, p + 3),
        16u8 => spec_output_polygon_fits(d, p + 3),
        17u8 => spec_output_meter_fits(d, p + 3),
        18u8 => spec_output_linear_bar_graph_fits(d, p + 3),
        19u8 => spec_output_arched_bar_graph_fits(d, p + 3),
        20u8 => spec_picture_graphic_fits(d, p + 3),
        21u8 => spec_number_variable_fits(d, p + 3),
        22u8 => spec_string_variable_fits(d, p + 3),
        23u8 => spec_font_attributes_fits(d, p + 3),
        24u8 => spec_line_attributes_fits(d, p + 3),
        25u8 => spec_fill_attributes_fits(d, p + 3),
        26u8 => spec_input_attributes_fits(d, p + 3),
        27u8 => spec_object_pointer_fits(d, p + 3),
        28u8 => spec_macro_fits(d, p + 3),
        29u8 => spec_auxiliary_function_type1_fits(d, p + 3),
        30u8 => spec_auxiliary_input_type1_fits(d, p + 3),
        31u8 => spec_auxiliary_function_type2_fits(d, p + 3),
        32u8 => spec_auxiliary_input_type2_fits(d, p + 3),
        33u8 => spec_auxiliary_control_designator_type2_fits(d, p + 3),
        34u8 => spec_window_mask_fits(d, p + 3),
        35u8 => spec_key_group_fits(d, p + 3),
        36u8 => spec_graphics_context_fits(d, p + 3),
        37u8 => spec_output_list_fits(d, p + 3),
        38u8 => spec_extended_input_attributes_fits(d, p + 3),
        39u8 => spec_colour_map_fits(d, p + 3),
        40u8 => spec_object_label_reference_list_fits(d, p + 3),
        41u8 => spec_external_object_definition_fits(d, p + 3),
        42u8 => spec_external_reference_name_fits(d, p + 3),
        43u8 => spec_external_object_pointer_fits(d, p + 3),
        44u8 => spec_animation_fits(d, p + 3),
        45u8 => spec_colour_palette_fits(d, p + 3),
        46u8 => spec_graphic_data_fits(d, p + 3),
        47u8 => spec_working_set_special_controls_fits(d, p + 3),
        48u8 => spec_scales_graphic_fits(d, p + 3),
        _ => false,
    }
}

/// The object parsed from `d` at `p`, ending at `end`: its id from the
/// first two bytes, its type from the third, every field from the body.
pub open spec fn spec_object_read(d: Seq<u8>, p: int, o: Object, end: int) -> bool {
    &&& p + 3 <= d.len()
    &&& match o {
        Object::WorkingSet(x) => d[p + 2] == 0 && spec_working_set_read(d, p + 3, spec_oid_at(d, p), x, end),
        Object::DataMask(x) => d[p + 2] == 1 && spec_data_mask_read(d, p + 3, spec_oid_at(d, p), x, end),
        Object::AlarmMask(x) => d[p + 2] == 2 && spec_alarm_mask_read(d, p + 3, spec_oid_at(d, p), x, end),
        Object::Container(x) => d[p + 2] == 3 && spec_container_read(d, p + 3, spec_oid_at(d, p), x, end),
        Object::SoftKeyMask(x) => d[p + 2] == 4 && spec_soft_key_mask_read(d, p + 3, spec_oid_at(d, p), x, end),
        Object::Key(x) => d[p + 2] == 5 && spec_key_read(d, p + 3, spec_oid_at(d, p), x, end),
        Object::Button(x) => d[p + 2] == 6 && spec_button_read(d, p + 3, spec_oid_at(d, p), x, end),
        Object::InputBoolean(x) => d[p + 2] == 7 && spec_input_boolean_read(d, p + 3, spec_oid_at(d, p), x, end),
        Object::InputString(x) => d[p + 2] == 8 && spec_input_string_read(d, p + 3, spec_oid_at(d, p), x, end),
        Object::InputNumber(x) => d[p + 2] == 9 && spec_input_number_read(d, p + 3, spec_oid_at(d, p), x, end),
        Object::InputList(x) => d[p + 2] == 10 && spec_input_list_read(d, p + 3, spec_oid_at(d, p), x, end),
        Object::OutputString(x) => d[p + 2] == 11 && spec_output_string_read(d, p + 3, spec_oid_at(d, p), x, end),
        Object::OutputNumber(x) => d[p + 2] == 12 && spec_output_number_read(d, p + 3, spec_oid_at(d, p), x, end),
        Object::OutputLine(x) => d[p + 2] == 13 && spec_output_line_read(d, p + 3, spec_oid_at(d, p), x, end),
        Object::OutputRectangle(x) => d[p + 2] == 14 && spec_output_rectangle_read(d, p + 3, spec_oid_at(d, p), x, end),
        Object::OutputEllipse(x) => d[p + 2] == 15 && spec_output_ellipse_read(d, p + 3, spec_oid_at(d, p), x, end),
        Object::OutputPolygon(x) => d[p + 2] == 16 && spec_output_polygon_read(d, p + 3, spec_oid_at(d, p), x, end),
        Object::OutputMeter(x) => d[p + 2] == 17 && spec_output_meter_read(d, p + 3, spec_oid_at(d, p), x, end),
        Object::OutputLinearBarGraph(x) => d[p + 2] == 18 && spec_output_linear_bar_graph_read(d, p + 3, spec_oid_at(d, p), x, end),
        Object::OutputArchedBarGraph(x) => d[p + 2] == 19 && spec_output_arched_bar_graph_read(d, p + 3, spec_oid_at(d, p), x, end),
        Object::PictureGraphic(x) => d[p + 2] == 20 && spec_picture_graphic_read(d, p + 3, spec_oid_at(d, p), x, end),
        Object::NumberVariable(x) => d[p + 2] == 21 && spec_number_variable_read(d, p + 3, spec_oid_at(d, p), x, end),
        Object::StringVariable(x) => d[p + 2] == 22 && spec_string_variable_read(d, p + 3, spec_oid_at(d, p), x, end),
        Object::FontAttributes(x) => d[p + 2] == 23 && spec_font_attributes_read(d, p + 3, spec_oid_at(d, p), x, end),
        Object::LineAttributes(x) => d[p + 2] == 24 && spec_line_attributes_read(d, p + 3, spec_oid_at(d, p), x, end),
        Object::FillAttributes(x) => d[p + 2] == 25 && spec_fill_attributes_read(d, p + 3, spec_oid_at(d, p), x, end),
        Object::InputAttributes(x) => d[p + 2] == 26 && spec_input_attributes_read(d, p + 3, spec_oid_at(d, p), x, end),
        Object::ObjectPointer(x) => d[p + 2] == 27 && spec_object_pointer_read(d, p + 3, spec_oid_at(d, p), x, end),
        Object::Macro(x) => d[p + 2] == 28 && spec_macro_read(d, p + 3, spec_oid_at(d, p), x, end),
        Object::AuxiliaryFunctionType1(x) => d[p + 2] == 29 && spec_auxiliary_function_type1_read(d, p + 3, spec_oid_at(d, p), x, end),
        Object::AuxiliaryInputType1(x) => d[p + 2] == 30 && spec_auxiliary_input_type1_read(d, p + 3, spec_oid_at(d, p), x, end),
        Object::AuxiliaryFunctionType2(x) => d[p + 2] == 31 && spec_auxiliary_function_type2_read(d, p + 3, spec_oid_at(d, p), x, end),
        Object::AuxiliaryInputType2(x) => d[p + 2] == 32 && spec_auxiliary_input_type2_read(d, p + 3, spec_oid_at(d, p), x, end),
        Object::AuxiliaryControlDesignatorType2(x) => d[p + 2] == 33 && spec_auxiliary_control_designator_type2_read(d, p + 3, spec_oid_at(d, p), x, end),
        Object::WindowMask(x) => d[p + 2] == 34 && spec_window_mask_read(d, p + 3, spec_oid_at(d, p), x, end),
        Object::KeyGroup(x) => d[p + 2] == 35 && spec_key_group_read(d, p + 3, spec_oid_at(d, p), x, end),
        Object::GraphicsContext(x) => d[p + 2] == 36 && spec_graphics_context_read(d, p + 3, spec_oid_at(d, p), x, end),
        Object::OutputList(x) => d[p + 2] == 37 && spec_output_list_read(d, p + 3, spec_oid_at(d, p), x, end),
        Object::ExtendedInputAttributes(x) => d[p + 2] == 38 && spec_extended_input_attributes_read(d, p + 3, spec_oid_at(d, p), x, end),
        Object::ColourMap(x) => d[p + 2] == 39 && spec_colour_map_read(d, p + 3, spec_oid_at(d, p), x, end),
        Object::ObjectLabelReferenceList(x) => d[p + 2] == 40 && spec_object_label_reference_list_read(d, p + 3, spec_oid_at(d, p), x, end),
        Object::ExternalObjectDefinition(x) => d[p + 2] == 41 && spec_external_object_definition_read(d, p + 3, spec_oid_at(d, p), x, end),
        Object::ExternalReferenceName(x) => d[p + 2] == 42 && spec_external_reference_name_read(d, p + 3, spec_oid_at(d, p), x, end),
        Object::ExternalObjectPointer(x) => d[p + 2] == 43 && spec_external_object_pointer_read(d, p + 3, spec_oid_at(d, p), x, end),
        Object::Animation(x) => d[p + 2] == 44 && spec_animation_read(d, p + 3, spec_oid_at(d, p), x, end),
        Object::ColourPalette(x) => d[p + 2] == 45 && spec_colour_palette_read(d, p + 3, spec_oid_at(d, p), x, end),
        Object::GraphicData(x) => d[p + 2] == 46 && spec_graphic_data_read(d, p + 3, spec_oid_at(d, p), x, end),
        Object::WorkingSetSpecialControls(x) => d[p + 2] == 47 && spec_working_set_special_controls_read(d, p + 3, spec_oid_at(d, p), x, end),
        Object::ScalesGraphic(x) => d[p + 2] == 48 && spec_scales_graphic_read(d, p + 3, spec_oid_at(d, p), x, end),
    }
}

impl Object {
    /// Read one object from the stream at `pos`. On success the object's id
    /// and type tag are exactly the three header bytes consumed, and the
    /// position has moved past the object; on failure (short read or
    /// unknown tag) reading stops and no object is produced.
    #[verifier::rlimit(100)]
    pub fn read(data: &[u8], pos: &mut usize) -> (r: Option<Object>)
        requires
            *old(pos) <= data@.len(),
        ensures
            *final(pos) <= data@.len(),
            *final(pos) >= *old(pos),
            (r is Some) <==> spec_object_fits(data@, *old(pos) as int),
            r matches Some(o) ==> spec_object_read(data@, *old(pos) as int, o, *final(pos) as int),
            r matches Some(o) ==> {
                &&& o.spec_id() == data@[*old(pos) as int] + 0x100 * data@[*old(pos) + 1]
                &&& o.spec_object_type().spec_code() == data@[*old(pos) + 2]
                &&& *final(pos) >= *old(pos) + 3
            },
            *old(pos) + 3 > data@.len() ==> r is None,
            *old(pos) + 3 <= data@.len() && data@[*old(pos) + 2] > 48 ==> r is None,
            *old(pos) + 3 <= data@.len() && data@[*old(pos) + 2] <= 48 ==> *final(pos) >= *old(
                pos,
            ) + 3,
    {
        let id = match read_oid(data, pos) {
            Some(v) => v,
            None => {
                return None;
            },
        };
        let tag = match read_u8(data, pos) {
            Some(v) => v,
            None => {
                return None;
            },
        };
        let object_type = match ObjectType::from_u8(tag) {
            Some(v) => v,
            None => {
                return None;
            },
        };
        match object_type {
            ObjectType::WorkingSet => match read_working_set(data, pos, id) {
                Some(o) => Some(Object::WorkingSet(o)),
                None => None,
            },
            ObjectType::DataMask => match read_data_mask(data, pos, id) {
                Some(o) => Some(Object::DataMask(o)),
                None => None,
            },
            ObjectType::AlarmMask => match read_alarm_mask(data, pos, id) {
                Some(o) => Some(Object::AlarmMask(o)),
                None => None,
            },
            ObjectType::Container => match read_container(data, pos, id) {
                Some(o) => Some(Object::Container(o)),
                None => None,
            },
            ObjectType::SoftKeyMask => match read_soft_key_mask(data, pos, id) {
                Some(o) => Some(Object::SoftKeyMask(o)),
                None => None,
            },
            ObjectType::Key => match read_key(data, pos, id) {
                Some(o) => Some(Object::Key(o)),
                None => None,
            },
            ObjectType::Button => match read_button(data, pos, id) {
                Some(o) => Some(Object::Button(o)),
                None => None,
            },
            ObjectType::InputBoolean => match read_input_boolean(data, pos, id) {
                Some(o) => Some(Object::InputBoolean(o)),
                None => None,
            },
            ObjectType::InputString => match read_input_string(data, pos, id) {
                Some(o) => Some(Object::InputString(o)),
                None => None,
            },
            ObjectType::InputNumber => match read_input_number(data, pos, id) {
                Some(o) => Some(Object::InputNumber(o)),
                None => None,
            },
            ObjectType::InputList => match read_input_list(data, pos, id) {
                Some(o) => Some(Object::InputList(o)),
                None => None,
            },
            ObjectType::OutputString => match read_output_string(data, pos, id) {
                Some(o) => Some(Object::OutputString(o)),
                None => None,
            },
            ObjectType::OutputNumber => match read_output_number(data, pos, id) {
                Some(o) => Some(Object::OutputNumber(o)),
                None => None,
            },
            ObjectType::OutputLine => match read_output_line(data, pos, id) {
                Some(o) => Some(Object::OutputLine(o)),
                None => None,
            },
            ObjectType::OutputRectangle => match read_output_rectangle(data, pos, id) {
                Some(o) => Some(Object::OutputRectangle(o)),
                None => None,
            },
            ObjectType::OutputEllipse => match read_output_ellipse(data, pos, id) {
                Some(o) => Some(Object::OutputEllipse(o)),
                None => None,
            },
            ObjectType::OutputPolygon => match read_output_polygon(data, pos, id) {
                Some(o) => Some(Object::OutputPolygon(o)),
                None => None,
            },
            ObjectType::OutputMeter => match read_output_meter(data, pos, id) {
                Some(o) => Some(Object::OutputMeter(o)),
                None => None,
            },
            ObjectType::OutputLinearBarGraph => match read_output_linear_bar_graph(data, pos, id) {
                Some(o) => Some(Object::OutputLinearBarGraph(o)),
                None => None,
            },
            ObjectType::OutputArchedBarGraph => match read_output_arched_bar_graph(data, pos, id) {
                Some(o) => Some(Object::OutputArchedBarGraph(o)),
                None => None,
            },
            ObjectType::PictureGraphic => match read_picture_graphic(data, pos, id) {
                Some(o) => Some(Object::PictureGraphic(o)),
                None => None,
            },
            ObjectType::NumberVariable => match read_number_variable(data, pos, id) {
                Some(o) => Some(Object::NumberVariable(o)),
                None => None,
            },
            ObjectType::StringVariable => match read_string_variable(data, pos, id) {
                Some(o) => Some(Object::StringVariable(o)),
                None => None,
            },
            ObjectType::FontAttributes => match read_font_attributes(data, pos, id) {
                Some(o) => Some(Object::FontAttributes(o)),
                None => None,
            },
            ObjectType::LineAttributes => match read_line_attributes(data, pos, id) {
                Some(o) => Some(Object::LineAttributes(o)),
                None => None,
            },
            ObjectType::FillAttributes => match read_fill_attributes(data, pos, id) {
                Some(o) => Some(Object::FillAttributes(o)),
                None => None,
            },
            ObjectType::InputAttributes => match read_input_attributes(data, pos, id) {
                Some(o) => Some(Object::InputAttributes(o)),
                None => None,
            },
            ObjectType::ObjectPointer => match read_object_pointer(data, pos, id) {
                Some(o) => Some(Object::ObjectPointer(o)),
                None => None,
            },
            ObjectType::Macro => match read_macro(data, pos, id) {
                Some(o) => Some(Object::Macro(o)),
                None => None,
            },
            ObjectType::AuxiliaryFunctionType1 => match read_auxiliary_function_type1(data, pos, id) {
                Some(o) => Some(Object::AuxiliaryFunctionType1(o)),
                None => None,
            },
            ObjectType::AuxiliaryInputType1 => match read_auxiliary_input_type1(data, pos, id) {
                Some(o) => Some(Object::AuxiliaryInputType1(o)),
                None => None,
            },
            ObjectType::AuxiliaryFunctionType2 => match read_auxiliary_function_type2(data, pos, id) {
                Some(o) => Some(Object::AuxiliaryFunctionType2(o)),
                None => None,
            },
            ObjectType::AuxiliaryInputType2 => match read_auxiliary_input_type2(data, pos, id) {
                Some(o) => Some(Object::AuxiliaryInputType2(o)),
                None => None,
            },
            ObjectType::AuxiliaryControlDesignatorType2 => match read_auxiliary_control_designator_type2(data, pos, id) {
                Some(o) => Some(Object::AuxiliaryControlDesignatorType2(o)),
                None => None,
            },
            ObjectType::WindowMask => match read_window_mask(data, pos, id) {
                Some(o) => Some(Object::WindowMask(o)),
                None => None,
            },
            ObjectType::KeyGroup => match read_key_group(data, pos, id) {
                Some(o) => Some(Object::KeyGroup(o)),
                None => None,
            },
            ObjectType::GraphicsContext => match read_graphics_context(data, pos, id) {
                Some(o) => Some(Object::GraphicsContext(o)),
                None => None,
            },
            ObjectType::OutputList => match read_output_list(data, pos, id) {
                Some(o) => Some(Object::OutputList(o)),
                None => None,
            },
            ObjectType::ExtendedInputAttributes => match read_extended_input_attributes(data, pos, id) {
                Some(o) => Some(Object::ExtendedInputAttributes(o)),
                None => None,
            },
            ObjectType::ColourMap => match read_colour_map(data, pos, id) {
                Some(o) => Some(Object::ColourMap(o)),
                None => None,
            },
            ObjectType::ObjectLabelReferenceList => match read_object_label_reference_list(data, pos, id) {
                Some(o) => Some(Object::ObjectLabelReferenceList(o)),
                None => None,
            },
            ObjectType::ExternalObjectDefinition => match read_external_object_definition(data, pos, id) {
                Some(o) => Some(Object::ExternalObjectDefinition(o)),
                None => None,
            },
            ObjectType::ExternalReferenceName => match read_external_reference_name(data, pos, id) {
                Some(o) => Some(Object::ExternalReferenceName(o)),
                None => None,
            },
            ObjectType::ExternalObjectPointer => match read_external_object_pointer(data, pos, id) {
                Some(o) => Some(Object::ExternalObjectPointer(o)),
                None => None,
            },
            ObjectType::Animation => match read_animation(data, pos, id) {
                Some(o) => Some(Object::Animation(o)),
                None => None,
            },
            ObjectType::ColourPalette => match read_colour_palette(data, pos, id) {
                Some(o) => Some(Object::ColourPalette(o)),
                None => None,
            },
            ObjectType::GraphicData => match read_graphic_data(data, pos, id) {
                Some(o) => Some(Object::GraphicData(o)),
                None => None,
            },
            ObjectType::WorkingSetSpecialControls => match read_working_set_special_controls(data, pos, id) {
                Some(o) => Some(Object::WorkingSetSpecialControls(o)),
                None => None,
            },
            ObjectType::ScalesGraphic => match read_scales_graphic(data, pos, id) {
                Some(o) => Some(Object::ScalesGraphic(o)),
                None => None,
            },
        }
    }
}


/// `n`, clipped to `max`.
pub open spec fn spec_clip(n: int, max: int) -> int {
    if n <= max {
        n
    } else {
        max
    }
}

/// Encoded size of the type-specific fields of a WorkingSet.
pub open spec fn spec_working_set_body_len(o: WorkingSet) -> int {
    7 + 6 * spec_clip(o.object_refs@.len() as int, 255) + 2 * spec_clip(o.macro_refs@.len() as int, 255) + 2 * spec_clip(o.language_codes@.len() as int, 255)
}

/// Encoded size of the type-specific fields of a DataMask.
pub open spec fn spec_data_mask_body_len(o: DataMask) -> int {
    5 + 6 * spec_clip(o.object_refs@.len() as int, 255) + 2 * spec_clip(o.macro_refs@.len() as int, 255)
}

/// Encoded size of the type-specific fields of a AlarmMask.
pub open spec fn spec_alarm_mask_body_len(o: AlarmMask) -> int {
    7 + 6 * spec_clip(o.object_refs@.len() as int, 255) + 2 * spec_clip(o.macro_refs@.len() as int, 255)
}

/// Encoded size of the type-specific fields of a Container.
pub open spec fn spec_container_body_len(o: Container) -> int {
    7 + 6 * spec_clip(o.object_refs@.len() as int, 255) + 2 * spec_clip(o.macro_refs@.len() as int, 255)
}

/// Encoded size of the type-specific fields of a SoftKeyMask.
pub open spec fn spec_soft_key_mask_body_len(o: SoftKeyMask) -> int {
    3 + 2 * spec_clip(o.objects@.len() as int, 255) + 2 * spec_clip(o.macro_refs@.len() as int, 255)
}

/// Encoded size of the type-specific fields of a Key.
pub open spec fn spec_key_body_len(o: Key) -> int {
    4 + 6 * spec_clip(o.object_refs@.len() as int, 255) + 2 * spec_clip(o.macro_refs@.len() as int, 255)
}

/// Encoded size of the type-specific fields of a Button.
pub open spec fn spec_button_body_len(o: Button) -> int {
    10 + 6 * spec_clip(o.object_refs@.len() as int, 255) + 2 * spec_clip(o.macro_refs@.len() as int, 255)
}

/// Encoded size of the type-specific fields of a InputBoolean.
pub open spec fn spec_input_boolean_body_len(o: InputBoolean) -> int {
    10 + 2 * spec_clip(o.macro_refs@.len() as int, 255)
}

/// Encoded size of the type-specific fields of a InputString.
pub open spec fn spec_input_string_body_len(o: InputString) -> int {
    16 + spec_clip(o.value@.len() as int, 255) + 2 * spec_clip(o.macro_refs@.len() as int, 255)
}

/// Encoded size of the type-specific fields of a InputNumber.
pub open spec fn spec_input_number_body_len(o: InputNumber) -> int {
    35 + 2 * spec_clip(o.macro_refs@.len() as int, 255)
}

/// Encoded size of the type-specific fields of a InputList.
pub open spec fn spec_input_list_body_len(o: InputList) -> int {
    10 + 2 * spec_clip(o.list_items@.len() as int, 255) + 2 * spec_clip(o.macro_refs@.len() as int, 255)
}

/// Encoded size of the type-specific fields of a OutputString.
pub open spec fn spec_output_string_body_len(o: OutputString) -> int {
    14 + spec_clip(o.value@.len() as int, 65535) + 2 * spec_clip(o.macro_refs@.len() as int, 255)
}

/// Encoded size of the type-specific fields of a OutputNumber.
pub open spec fn spec_output_number_body_len(o: OutputNumber) -> int {
    26 + 2 * spec_clip(o.macro_refs@.len() as int, 255)
}

/// Encoded size of the type-specific fields of a OutputLine.
pub open spec fn spec_output_line_body_len(o: OutputLine) -> int {
    8 + 2 * spec_clip(o.macro_refs@.len() as int, 255)
}

/// Encoded size of the type-specific fields of a OutputRectangle.
pub open spec fn spec_output_rectangle_body_len(o: OutputRectangle) -> int {
    10 + 2 * spec_clip(o.macro_refs@.len() as int, 255)
}

/// Encoded size of the type-specific fields of a OutputEllipse.
pub open spec fn spec_output_ellipse_body_len(o: OutputEllipse) -> int {
    12 + 2 * spec_clip(o.macro_refs@.len() as int, 255)
}

/// Encoded size of the type-specific fields of a OutputPolygon.
pub open spec fn spec_output_polygon_body_len(o: OutputPolygon) -> int {
    11 + 4 * spec_clip(o.points@.len() as int, 255) + 2 * spec_clip(o.macro_refs@.len() as int, 255)
}

/// Encoded size of the type-specific fields of a OutputMeter.
pub open spec fn spec_output_meter_body_len(o: OutputMeter) -> int {
    18 + 2 * spec_clip(o.macro_refs@.len() as int, 255)
}

/// Encoded size of the type-specific fields of a OutputLinearBarGraph.
pub open spec fn spec_output_linear_bar_graph_body_len(o: OutputLinearBarGraph) -> int {
    21 + 2 * spec_clip(o.macro_refs@.len() as int, 255)
}

/// Encoded size of the type-specific fields of a OutputArchedBarGraph.
pub open spec fn spec_output_arched_bar_graph_body_len(o: OutputArchedBarGraph) -> int {
    24 + 2 * spec_clip(o.macro_refs@.len() as int, 255)
}

/// Encoded size of the type-specific fields of a PictureGraphic.
pub open spec fn spec_picture_graphic_body_len(o: PictureGraphic) -> int {
    14 + 1 * spec_clip(o.data@.len() as int, 4294967295) + 2 * spec_clip(o.macro_refs@.len() as int, 255)
}

/// Encoded size of the type-specific fields of a NumberVariable.
pub open spec fn spec_number_variable_body_len(o: NumberVariable) -> int {
    4
}

/// Encoded size of the type-specific fields of a StringVariable.
pub open spec fn spec_string_variable_body_len(o: StringVariable) -> int {
    2 + spec_clip(o.value@.len() as int, 65535)
}

/// Encoded size of the type-specific fields of a FontAttributes.
pub open spec fn spec_font_attributes_body_len(o: FontAttributes) -> int {
    5 + 2 * spec_clip(o.macro_refs@.len() as int, 255)
}

/// Encoded size of the type-specific fields of a LineAttributes.
pub open spec fn spec_line_attributes_body_len(o: LineAttributes) -> int {
    5 + 2 * spec_clip(o.macro_refs@.len() as int, 255)
}

/// Encoded size of the type-specific fields of a FillAttributes.
pub open spec fn spec_fill_attributes_body_len(o: FillAttributes) -> int {
    5 + 2 * spec_clip(o.macro_refs@.len() as int, 255)
}

/// Encoded size of the type-specific fields of a InputAttributes.
pub open spec fn spec_input_attributes_body_len(o: InputAttributes) -> int {
    3 + spec_clip(o.validation_string@.len() as int, 255) + 2 * spec_clip(o.macro_refs@.len() as int, 255)
}

/// Encoded size of the type-specific fields of a ObjectPointer.
pub open spec fn spec_object_pointer_body_len(o: ObjectPointer) -> int {
    2
}

/// Encoded size of the type-specific fields of a Macro.
pub open spec fn spec_macro_body_len(o: Macro) -> int {
    2 + 1 * spec_clip(o.commands@.len() as int, 65535)
}

/// Encoded size of the type-specific fields of a AuxiliaryFunctionType1.
pub open spec fn spec_auxiliary_function_type1_body_len(o: AuxiliaryFunctionType1) -> int {
    3 + 6 * spec_clip(o.object_refs@.len() as int, 255)
}

/// Encoded size of the type-specific fields of a AuxiliaryInputType1.
pub open spec fn spec_auxiliary_input_type1_body_len(o: AuxiliaryInputType1) -> int {
    4 + 6 * spec_clip(o.object_refs@.len() as int, 255)
}

/// Encoded size of the type-specific fields of a AuxiliaryFunctionType2.
pub open spec fn spec_auxiliary_function_type2_body_len(o: AuxiliaryFunctionType2) -> int {
    3 + 6 * spec_clip(o.object_refs@.len() as int, 255)
}

/// Encoded size of the type-specific fields of a AuxiliaryInputType2.
pub open spec fn spec_auxiliary_input_type2_body_len(o: AuxiliaryInputType2) -> int {
    3 + 6 * spec_clip(o.object_refs@.len() as int, 255)
}

/// Encoded size of the type-specific fields of a AuxiliaryControlDesignatorType2.
pub open spec fn spec_auxiliary_control_designator_type2_body_len(o: AuxiliaryControlDesignatorType2) -> int {
    3
}

/// Encoded size of the type-specific fields of a WindowMask.
pub open spec fn spec_window_mask_body_len(o: WindowMask) -> int {
    14 + 2 * spec_clip(o.objects@.len() as int, 255) + 6 * spec_clip(o.object_refs@.len() as int, 255) + 2 * spec_clip(o.macro_refs@.len() as int, 255)
}

/// Encoded size of the type-specific fields of a KeyGroup.
pub open spec fn spec_key_group_body_len(o: KeyGroup) -> int {
    7 + 2 * spec_clip(o.objects@.len() as int, 255) + 2 * spec_clip(o.macro_refs@.len() as int, 255)
}

/// Encoded size of the type-specific fields of a GraphicsContext.
pub open spec fn spec_graphics_context_body_len(o: GraphicsContext) -> int {
    31
}

/// Encoded size of the type-specific fields of a OutputList.
pub open spec fn spec_output_list_body_len(o: OutputList) -> int {
    9 + 2 * spec_clip(o.list_items@.len() as int, 255) + 2 * spec_clip(o.macro_refs@.len() as int, 255)
}

/// Encoded size of the type-specific fields of a ExtendedInputAttributes.
pub open spec fn spec_extended_input_attributes_body_len(o: ExtendedInputAttributes) -> int {
    2
}

/// Encoded size of the type-specific fields of a ColourMap.
pub open spec fn spec_colour_map_body_len(o: ColourMap) -> int {
    2 + 1 * spec_clip(o.colour_map@.len() as int, 65535)
}

/// Encoded size of the type-specific fields of a ObjectLabelReferenceList.
pub open spec fn spec_object_label_reference_list_body_len(o: ObjectLabelReferenceList) -> int {
    2 + 7 * spec_clip(o.object_labels@.len() as int, 65535)
}

/// Encoded size of the type-specific fields of a ExternalObjectDefinition.
pub open spec fn spec_external_object_definition_body_len(o: ExternalObjectDefinition) -> int {
    10 + 2 * spec_clip(o.objects@.len() as int, 255)
}

/// Encoded size of the type-specific fields of a ExternalReferenceName.
pub open spec fn spec_external_reference_name_body_len(o: ExternalReferenceName) -> int {
    9
}

/// Encoded size of the type-specific fields of a ExternalObjectPointer.
pub open spec fn spec_external_object_pointer_body_len(o: ExternalObjectPointer) -> int {
    6
}

/// Encoded size of the type-specific fields of a Animation.
pub open spec fn spec_animation_body_len(o: Animation) -> int {
    14 + 6 * spec_clip(o.object_refs@.len() as int, 255) + 2 * spec_clip(o.macro_refs@.len() as int, 255)
}

/// Encoded size of the type-specific fields of a ColourPalette.
pub open spec fn spec_colour_palette_body_len(o: ColourPalette) -> int {
    4 + 4 * spec_clip(o.colours@.len() as int, 65535)
}

/// Encoded size of the type-specific fields of a GraphicData.
pub open spec fn spec_graphic_data_body_len(o: GraphicData) -> int {
    5 + 1 * spec_clip(o.data@.len() as int, 4294967295)
}

/// Encoded size of the type-specific fields of a WorkingSetSpecialControls.
pub open spec fn spec_working_set_special_controls_body_len(o: WorkingSetSpecialControls) -> int {
    5 + 4 * spec_clip(o.language_pairs@.len() as int, 255)
}

/// Encoded size of the type-specific fields of a ScalesGraphic.
pub open spec fn spec_scales_graphic_body_len(o: ScalesGraphic) -> int {
    9 + 2 * spec_clip(o.macro_refs@.len() as int, 255)
}

/// Every object's encoded size covers at least its header.
pub proof fn lemma_encoded_len_bounds(obj: Object)
    ensures
        spec_object_encoded_len(obj) >= 3,
{
}

/// Encoded size of one object: its three header bytes plus its fields.
pub open spec fn spec_object_encoded_len(obj: Object) -> int {
    3 + match obj {
        Object::WorkingSet(o) => spec_working_set_body_len(o),
        Object::DataMask(o) => spec_data_mask_body_len(o),
        Object::AlarmMask(o) => spec_alarm_mask_body_len(o),
        Object::Container(o) => spec_container_body_len(o),
        Object::SoftKeyMask(o) => spec_soft_key_mask_body_len(o),
        Object::Key(o) => spec_key_body_len(o),
        Object::Button(o) => spec_button_body_len(o),
        Object::InputBoolean(o) => spec_input_boolean_body_len(o),
        Object::InputString(o) => spec_input_string_body_len(o),
        Object::InputNumber(o) => spec_input_number_body_len(o),
        Object::InputList(o) => spec_input_list_body_len(o),
        Object::OutputString(o) => spec_output_string_body_len(o),
        Object::OutputNumber(o) => spec_output_number_body_len(o),
        Object::OutputLine(o) => spec_output_line_body_len(o),
        Object::OutputRectangle(o) => spec_output_rectangle_body_len(o),
        Object::OutputEllipse(o) => spec_output_ellipse_body_len(o),
        Object::OutputPolygon(o) => spec_output_polygon_body_len(o),
        Object::OutputMeter(o) => spec_output_meter_body_len(o),
        Object::OutputLinearBarGraph(o) => spec_output_linear_bar_graph_body_len(o),
        Object::OutputArchedBarGraph(o) => spec_output_arched_bar_graph_body_len(o),
        Object::PictureGraphic(o) => spec_picture_graphic_body_len(o),
        Object::NumberVariable(o) => spec_number_variable_body_len(o),
        Object::StringVariable(o) => spec_string_variable_body_len(o),
        Object::FontAttributes(o) => spec_font_attributes_body_len(o),
        Object::LineAttributes(o) => spec_line_attributes_body_len(o),
        Object::FillAttributes(o) => spec_fill_attributes_body_len(o),
        Object::InputAttributes(o) => spec_input_attributes_body_len(o),
        Object::ObjectPointer(o) => spec_object_pointer_body_len(o),
        Object::Macro(o) => spec_macro_body_len(o),
        Object::AuxiliaryFunctionType1(o) => spec_auxiliary_function_type1_body_len(o),
        Object::AuxiliaryInputType1(o) => spec_auxiliary_input_type1_body_len(o),
        Object::AuxiliaryFunctionType2(o) => spec_auxiliary_function_type2_body_len(o),
        Object::AuxiliaryInputType2(o) => spec_auxiliary_input_type2_body_len(o),
        Object::AuxiliaryControlDesignatorType2(o) => spec_auxiliary_control_designator_type2_body_len(o),
        Object::WindowMask(o) => spec_window_mask_body_len(o),
        Object::KeyGroup(o) => spec_key_group_body_len(o),
        Object::GraphicsContext(o) => spec_graphics_context_body_len(o),
        Object::OutputList(o) => spec_output_list_body_len(o),
        Object::ExtendedInputAttributes(o) => spec_extended_input_attributes_body_len(o),
        Object::ColourMap(o) => spec_colour_map_body_len(o),
        Object::ObjectLabelReferenceList(o) => spec_object_label_reference_list_body_len(o),
        Object::ExternalObjectDefinition(o) => spec_external_object_definition_body_len(o),
        Object::ExternalReferenceName(o) => spec_external_reference_name_body_len(o),
        Object::ExternalObjectPointer(o) => spec_external_object_pointer_body_len(o),
        Object::Animation(o) => spec_animation_body_len(o),
        Object::ColourPalette(o) => spec_colour_palette_body_len(o),
        Object::GraphicData(o) => spec_graphic_data_body_len(o),
        Object::WorkingSetSpecialControls(o) => spec_working_set_special_controls_body_len(o),
        Object::ScalesGraphic(o) => spec_scales_graphic_body_len(o),
    }
}

/// Append one byte.
fn write_u8(out: &mut Vec<u8>, v: u8)
    ensures
        final(out)@ == old(out)@.push(v),
{
    out.push(v);
}

/// Append a 16-bit value, little-endian.
fn write_u16(out: &mut Vec<u8>, v: u16)
    ensures
        final(out)@ == old(out)@ + seq![(v & 0xFF) as u8, (v >> 8) as u8],
{
    proof {
        assert(v >> 8 <= 0xFF) by (bit_vector);
    }
    out.push((v & 0xFF) as u8);
    out.push((v >> 8) as u8);
    proof {
        assert(final(out)@ =~= old(out)@ + seq![(v & 0xFF) as u8, (v >> 8) as u8]);
    }
}

/// Append a 32-bit value, little-endian.
fn write_u32(out: &mut Vec<u8>, v: u32)
    ensures
        final(out)@ == old(out)@ + seq![
            (v & 0xFF) as u8,
            ((v >> 8) & 0xFF) as u8,
            ((v >> 16) & 0xFF) as u8,
            (v >> 24) as u8,
        ],
{
    proof {
        assert(v >> 24 <= 0xFF) by (bit_vector);
    }
    out.push((v & 0xFF) as u8);
    out.push(((v >> 8) & 0xFF) as u8);
    out.push(((v >> 16) & 0xFF) as u8);
    out.push((v >> 24) as u8);
    proof {
        assert(final(out)@ =~= old(out)@ + seq![
            (v & 0xFF) as u8,
            ((v >> 8) & 0xFF) as u8,
            ((v >> 16) & 0xFF) as u8,
            (v >> 24) as u8,
        ]);
    }
}

/// Append a signed 16-bit value, little-endian.
fn write_i16(out: &mut Vec<u8>, v: i16)
    ensures
        final(out)@ == old(out)@ + seq![(v as u16 & 0xFF) as u8, (v as u16 >> 8) as u8],
        final(out)@.len() == old(out)@.len() + 2,
        forall|j: int| 0 <= j < old(out)@.len() ==> final(out)@[j] == old(out)@[j],
{
    write_u16(out, v as u16);
}

/// Append a signed 32-bit value, little-endian.
fn write_i32(out: &mut Vec<u8>, v: i32)
    ensures
        final(out)@ == old(out)@ + seq![
            (v as u32 & 0xFF) as u8,
            ((v as u32 >> 8) & 0xFF) as u8,
            ((v as u32 >> 16) & 0xFF) as u8,
            (v as u32 >> 24) as u8,
        ],
        final(out)@.len() == old(out)@.len() + 4,
        forall|j: int| 0 <= j < old(out)@.len() ==> final(out)@[j] == old(out)@[j],
{
    write_u32(out, v as u32);
}

/// Append a boolean as one byte.
fn write_bool(out: &mut Vec<u8>, v: bool)
    ensures
        final(out)@ == old(out)@.push(if v { 1u8 } else { 0u8 }),
{
    out.push(if v { 1 } else { 0 });
}

/// Append a 16-bit object id, little-endian.
fn write_oid(out: &mut Vec<u8>, v: ObjectId)
    ensures
        final(out)@ == old(out)@ + seq![(v.0 & 0xFF) as u8, (v.0 >> 8) as u8],
{
    write_u16(out, v.0);
}

/// Append the eight little-endian bytes of a Name.
fn write_name(out: &mut Vec<u8>, v: &Name)
    ensures
        final(out)@ == old(out)@ + crate::name::spec_le_bytes(v.spec_value()),
        final(out)@.len() == old(out)@.len() + 8,
        forall|j: int| 0 <= j < old(out)@.len() ==> final(out)@[j] == old(out)@[j],
{
    let bytes = v.as_vec();
    let mut i: usize = 0;
    while i < bytes.len()
        invariant
            bytes@ == crate::name::spec_le_bytes(v.spec_value()),
            bytes@.len() == 8,
            i <= 8,
            out@ == old(out)@ + bytes@.take(i as int),
        decreases bytes@.len() - i,
    {
        out.push(bytes[i]);
        i = i + 1;
        proof {
            assert(out@ == old(out)@ + bytes@.take(i as int)) by {
                assert(bytes@.take(i as int) == bytes@.take(i - 1).push(bytes@[i - 1]));
            }
        }
    }
    proof {
        assert(bytes@.take(8) == bytes@);
    }
}

/// Append raw bytes, clipped to the count a field of width `max` can name.
fn write_counted_bytes(out: &mut Vec<u8>, v: &Vec<u8>, n: usize)
    requires
        n <= v@.len(),
    ensures
        final(out)@ == old(out)@ + v@.take(n as int),
        final(out)@.len() == old(out)@.len() + n,
        forall|j: int| 0 <= j < old(out)@.len() ==> final(out)@[j] == old(out)@[j],
{
    let mut i: usize = 0;
    while i < n
        invariant
            i <= n,
            n <= v@.len(),
            out@ == old(out)@ + v@.take(i as int),
        decreases n - i,
    {
        out.push(v[i]);
        i = i + 1;
        proof {
            assert(out@ == old(out)@ + v@.take(i as int)) by {
                assert(v@.take(i as int) == v@.take(i - 1).push(v@[i - 1]));
            }
        }
    }
}


/// The two little-endian bytes of a 16-bit value.
pub open spec fn spec_u16_bytes(v: u16) -> Seq<u8> {
    seq![(v & 0xFF) as u8, (v >> 8) as u8]
}

/// The four little-endian bytes of a 32-bit value.
pub open spec fn spec_u32_bytes(v: u32) -> Seq<u8> {
    seq![(v & 0xFF) as u8, ((v >> 8) & 0xFF) as u8, ((v >> 16) & 0xFF) as u8, (v >> 24) as u8]
}

/// Encoded bytes of one object-reference list element.
pub open spec fn spec_objref_bytes(e: ObjectRef) -> Seq<u8> {
    spec_u16_bytes(e.id.0) + spec_u16_bytes(e.offset.x as u16) + spec_u16_bytes(e.offset.y as u16)
}

/// Encoded bytes of one macro-reference list element.
pub open spec fn spec_macroref_bytes(e: MacroRef) -> Seq<u8> {
    seq![e.event_id, e.macro_id]
}

/// Encoded bytes of one point list element.
pub open spec fn spec_point16_bytes(e: Point<u16>) -> Seq<u8> {
    spec_u16_bytes(e.x) + spec_u16_bytes(e.y)
}

/// Encoded bytes of one colour list element.
pub open spec fn spec_colour_bytes(e: Colour) -> Seq<u8> {
    seq![e.b, e.g, e.r, e.a]
}

/// Encoded bytes of one object-label list element.
pub open spec fn spec_objlabel_bytes(e: ObjectLabel) -> Seq<u8> {
    spec_u16_bytes(e.id.0) + spec_u16_bytes(e.string_variable_reference.0) + seq![e.font_type]
        + spec_u16_bytes(e.graphic_representation.0)
}

/// The two bytes of a language-code entry, zero-padded on the right.
pub open spec fn spec_str2_bytes(e: Seq<u8>) -> Seq<u8> {
    seq![if e.len() > 0 { e[0] } else { 0u8 }, if e.len() > 1 { e[1] } else { 0u8 }]
}

/// The four bytes of a language-pair entry: two zero-padded two-byte codes.
pub open spec fn spec_langpair_bytes(a: Seq<u8>, b: Seq<u8>) -> Seq<u8> {
    spec_str2_bytes(a) + spec_str2_bytes(b)
}

/// Encoded bytes of the first `n` elements of an object-reference list.
pub open spec fn spec_objref_list_bytes(v: Seq<ObjectRef>, n: int) -> Seq<u8>
    decreases n,
{
    if n <= 0 { Seq::empty() } else { spec_objref_list_bytes(v, n - 1) + spec_objref_bytes(v[n - 1]) }
}

/// Encoded bytes of the first `n` elements of a macro-reference list.
pub open spec fn spec_macroref_list_bytes(v: Seq<MacroRef>, n: int) -> Seq<u8>
    decreases n,
{
    if n <= 0 { Seq::empty() } else { spec_macroref_list_bytes(v, n - 1) + spec_macroref_bytes(v[n - 1]) }
}

/// Encoded bytes of the first `n` elements of an object-id list.
pub open spec fn spec_oid_list_bytes(v: Seq<ObjectId>, n: int) -> Seq<u8>
    decreases n,
{
    if n <= 0 { Seq::empty() } else { spec_oid_list_bytes(v, n - 1) + spec_u16_bytes(v[n - 1].0) }
}

/// Encoded bytes of the first `n` elements of a point list.
pub open spec fn spec_point16_list_bytes(v: Seq<Point<u16>>, n: int) -> Seq<u8>
    decreases n,
{
    if n <= 0 { Seq::empty() } else { spec_point16_list_bytes(v, n - 1) + spec_point16_bytes(v[n - 1]) }
}

/// Encoded bytes of the first `n` elements of a colour list.
pub open spec fn spec_colour_list_bytes(v: Seq<Colour>, n: int) -> Seq<u8>
    decreases n,
{
    if n <= 0 { Seq::empty() } else { spec_colour_list_bytes(v, n - 1) + spec_colour_bytes(v[n - 1]) }
}

/// Encoded bytes of the first `n` elements of an object-label list.
pub open spec fn spec_objlabel_list_bytes(v: Seq<ObjectLabel>, n: int) -> Seq<u8>
    decreases n,
{
    if n <= 0 { Seq::empty() } else { spec_objlabel_list_bytes(v, n - 1) + spec_objlabel_bytes(v[n - 1]) }
}

/// Encoded bytes of the first `n` entries of a language-code list.
pub open spec fn spec_str2_list_bytes(v: Seq<Vec<u8>>, n: int) -> Seq<u8>
    decreases n,
{
    if n <= 0 { Seq::empty() } else { spec_str2_list_bytes(v, n - 1) + spec_str2_bytes(v[n - 1]@) }
}

/// Encoded bytes of the first `n` entries of a language-pair list.
pub open spec fn spec_langpair_list_bytes(v: Seq<(Vec<u8>, Vec<u8>)>, n: int) -> Seq<u8>
    decreases n,
{
    if n <= 0 { Seq::empty() } else { spec_langpair_list_bytes(v, n - 1) + spec_langpair_bytes(v[n - 1].0@, v[n - 1].1@) }
}

/// Append one list element of this kind.
fn write_objref(out: &mut Vec<u8>, e: &ObjectRef)
    ensures
        final(out)@ == old(out)@ + spec_objref_bytes(*e),
        final(out)@.len() == old(out)@.len() + 6,
        forall|j: int| 0 <= j < old(out)@.len() ==> final(out)@[j] == old(out)@[j],
{
    write_oid(out, e.id);
    write_i16(out, e.offset.x);
    write_i16(out, e.offset.y);
    proof {
        assert(out@ =~= old(out)@ + spec_objref_bytes(*e));
    }
}

fn write_objref_list(out: &mut Vec<u8>, v: &Vec<ObjectRef>, n: usize)
    requires
        n <= v@.len(),
    ensures
        final(out)@ == old(out)@ + spec_objref_list_bytes(v@, n as int),
        final(out)@.len() == old(out)@.len() + 6 * n,
        forall|j: int| 0 <= j < old(out)@.len() ==> final(out)@[j] == old(out)@[j],
{
    let mut i: usize = 0;
    proof {
        assert(out@ =~= old(out)@ + spec_objref_list_bytes(v@, 0));
    }
    while i < n
        invariant
            i <= n,
            n <= v@.len(),
            out@.len() == old(out)@.len() + 6 * i,
            out@ == old(out)@ + spec_objref_list_bytes(v@, i as int),
            forall|j: int| 0 <= j < old(out)@.len() ==> out@[j] == old(out)@[j],
        decreases n - i,
    {
        write_objref(out, &v[i]);
        i = i + 1;
        proof {
            assert(spec_objref_list_bytes(v@, i as int) == spec_objref_list_bytes(v@, i - 1) + spec_objref_bytes(v@[i - 1]));
            assert(out@ =~= old(out)@ + spec_objref_list_bytes(v@, i as int));
        }
    }
}

/// Append one list element of this kind.
fn write_macroref(out: &mut Vec<u8>, e: &MacroRef)
    ensures
        final(out)@ == old(out)@ + spec_macroref_bytes(*e),
        final(out)@.len() == old(out)@.len() + 2,
        forall|j: int| 0 <= j < old(out)@.len() ==> final(out)@[j] == old(out)@[j],
{
    write_u8(out, e.event_id);
    write_u8(out, e.macro_id);
    proof {
        assert(out@ =~= old(out)@ + spec_macroref_bytes(*e));
    }
}

fn write_macroref_list(out: &mut Vec<u8>, v: &Vec<MacroRef>, n: usize)
    requires
        n <= v@.len(),
    ensures
        final(out)@ == old(out)@ + spec_macroref_list_bytes(v@, n as int),
        final(out)@.len() == old(out)@.len() + 2 * n,
        forall|j: int| 0 <= j < old(out)@.len() ==> final(out)@[j] == old(out)@[j],
{
    let mut i: usize = 0;
    proof {
        assert(out@ =~= old(out)@ + spec_macroref_list_bytes(v@, 0));
    }
    while i < n
        invariant
            i <= n,
            n <= v@.len(),
            out@.len() == old(out)@.len() + 2 * i,
            out@ == old(out)@ + spec_macroref_list_bytes(v@, i as int),
            forall|j: int| 0 <= j < old(out)@.len() ==> out@[j] == old(out)@[j],
        decreases n - i,
    {
        write_macroref(out, &v[i]);
        i = i + 1;
        proof {
            assert(spec_macroref_list_bytes(v@, i as int) == spec_macroref_list_bytes(v@, i - 1) + spec_macroref_bytes(v@[i - 1]));
            assert(out@ =~= old(out)@ + spec_macroref_list_bytes(v@, i as int));
        }
    }
}


fn write_oid_list(out: &mut Vec<u8>, v: &Vec<ObjectId>, n: usize)
    requires
        n <= v@.len(),
    ensures
        final(out)@ == old(out)@ + spec_oid_list_bytes(v@, n as int),
        final(out)@.len() == old(out)@.len() + 2 * n,
        forall|j: int| 0 <= j < old(out)@.len() ==> final(out)@[j] == old(out)@[j],
{
    let mut i: usize = 0;
    proof {
        assert(out@ =~= old(out)@ + spec_oid_list_bytes(v@, 0));
    }
    while i < n
        invariant
            i <= n,
            n <= v@.len(),
            out@.len() == old(out)@.len() + 2 * i,
            out@ == old(out)@ + spec_oid_list_bytes(v@, i as int),
            forall|j: int| 0 <= j < old(out)@.len() ==> out@[j] == old(out)@[j],
        decreases n - i,
    {
        write_oid(out, v[i]);
        i = i + 1;
        proof {
            assert(spec_oid_list_bytes(v@, i as int) == spec_oid_list_bytes(v@, i - 1) + spec_u16_bytes(v@[i - 1].0));
            assert(out@ =~= old(out)@ + spec_oid_list_bytes(v@, i as int));
        }
    }
}

/// Append one list element of this kind.
fn write_byte(out: &mut Vec<u8>, e: &u8)
    ensures
        final(out)@ == old(out)@.push(*e),
        final(out)@.len() == old(out)@.len() + 1,
        forall|j: int| 0 <= j < old(out)@.len() ==> final(out)@[j] == old(out)@[j],
{
    write_u8(out, *e);
}

fn write_byte_list(out: &mut Vec<u8>, v: &Vec<u8>, n: usize)
    requires
        n <= v@.len(),
    ensures
        final(out)@ == old(out)@ + v@.take(n as int),
        final(out)@.len() == old(out)@.len() + 1 * n,
        forall|j: int| 0 <= j < old(out)@.len() ==> final(out)@[j] == old(out)@[j],
{
    let mut i: usize = 0;
    while i < n
        invariant
            i <= n,
            n <= v@.len(),
            out@ == old(out)@ + v@.take(i as int),
        decreases n - i,
    {
        write_byte(out, &v[i]);
        i = i + 1;
        proof {
            assert(out@ == old(out)@ + v@.take(i as int)) by {
                assert(v@.take(i as int) == v@.take(i - 1).push(v@[i - 1]));
            }
        }
    }
}

/// Append one list element of this kind.
fn write_point16(out: &mut Vec<u8>, e: &Point<u16>)
    ensures
        final(out)@ == old(out)@ + spec_point16_bytes(*e),
        final(out)@.len() == old(out)@.len() + 4,
        forall|j: int| 0 <= j < old(out)@.len() ==> final(out)@[j] == old(out)@[j],
{
    write_u16(out, e.x);
    write_u16(out, e.y);
    proof {
        assert(out@ =~= old(out)@ + spec_point16_bytes(*e));
    }
}

fn write_point16_list(out: &mut Vec<u8>, v: &Vec<Point<u16>>, n: usize)
    requires
        n <= v@.len(),
    ensures
        final(out)@ == old(out)@ + spec_point16_list_bytes(v@, n as int),
        final(out)@.len() == old(out)@.len() + 4 * n,
        forall|j: int| 0 <= j < old(out)@.len() ==> final(out)@[j] == old(out)@[j],
{
    let mut i: usize = 0;
    proof {
        assert(out@ =~= old(out)@ + spec_point16_list_bytes(v@, 0));
    }
    while i < n
        invariant
            i <= n,
            n <= v@.len(),
            out@.len() == old(out)@.len() + 4 * i,
            out@ == old(out)@ + spec_point16_list_bytes(v@, i as int),
            forall|j: int| 0 <= j < old(out)@.len() ==> out@[j] == old(out)@[j],
        decreases n - i,
    {
        write_point16(out, &v[i]);
        i = i + 1;
        proof {
            assert(spec_point16_list_bytes(v@, i as int) == spec_point16_list_bytes(v@, i - 1) + spec_point16_bytes(v@[i - 1]));
            assert(out@ =~= old(out)@ + spec_point16_list_bytes(v@, i as int));
        }
    }
}

/// Append one list element of this kind.
fn write_colour(out: &mut Vec<u8>, e: &Colour)
    ensures
        final(out)@ == old(out)@ + spec_colour_bytes(*e),
        final(out)@.len() == old(out)@.len() + 4,
        forall|j: int| 0 <= j < old(out)@.len() ==> final(out)@[j] == old(out)@[j],
{
    write_u8(out, e.b);
    write_u8(out, e.g);
    write_u8(out, e.r);
    write_u8(out, e.a);
    proof {
        assert(out@ =~= old(out)@ + spec_colour_bytes(*e));
    }
}

fn write_colour_list(out: &mut Vec<u8>, v: &Vec<Colour>, n: usize)
    requires
        n <= v@.len(),
    ensures
        final(out)@ == old(out)@ + spec_colour_list_bytes(v@, n as int),
        final(out)@.len() == old(out)@.len() + 4 * n,
        forall|j: int| 0 <= j < old(out)@.len() ==> final(out)@[j] == old(out)@[j],
{
    let mut i: usize = 0;
    proof {
        assert(out@ =~= old(out)@ + spec_colour_list_bytes(v@, 0));
    }
    while i < n
        invariant
            i <= n,
            n <= v@.len(),
            out@.len() == old(out)@.len() + 4 * i,
            out@ == old(out)@ + spec_colour_list_bytes(v@, i as int),
            forall|j: int| 0 <= j < old(out)@.len() ==> out@[j] == old(out)@[j],
        decreases n - i,
    {
        write_colour(out, &v[i]);
        i = i + 1;
        proof {
            assert(spec_colour_list_bytes(v@, i as int) == spec_colour_list_bytes(v@, i - 1) + spec_colour_bytes(v@[i - 1]));
            assert(out@ =~= old(out)@ + spec_colour_list_bytes(v@, i as int));
        }
    }
}

/// Append one list element of this kind.
fn write_objlabel(out: &mut Vec<u8>, e: &ObjectLabel)
    ensures
        final(out)@ == old(out)@ + spec_objlabel_bytes(*e),
        final(out)@.len() == old(out)@.len() + 7,
        forall|j: int| 0 <= j < old(out)@.len() ==> final(out)@[j] == old(out)@[j],
{
    write_oid(out, e.id);
    write_oid(out, e.string_variable_reference);
    write_u8(out, e.font_type);
    write_oid(out, e.graphic_representation);
    proof {
        assert(out@ =~= old(out)@ + spec_objlabel_bytes(*e));
    }
}

fn write_objlabel_list(out: &mut Vec<u8>, v: &Vec<ObjectLabel>, n: usize)
    requires
        n <= v@.len(),
    ensures
        final(out)@ == old(out)@ + spec_objlabel_list_bytes(v@, n as int),
        final(out)@.len() == old(out)@.len() + 7 * n,
        forall|j: int| 0 <= j < old(out)@.len() ==> final(out)@[j] == old(out)@[j],
{
    let mut i: usize = 0;
    proof {
        assert(out@ =~= old(out)@ + spec_objlabel_list_bytes(v@, 0));
    }
    while i < n
        invariant
            i <= n,
            n <= v@.len(),
            out@.len() == old(out)@.len() + 7 * i,
            out@ == old(out)@ + spec_objlabel_list_bytes(v@, i as int),
            forall|j: int| 0 <= j < old(out)@.len() ==> out@[j] == old(out)@[j],
        decreases n - i,
    {
        write_objlabel(out, &v[i]);
        i = i + 1;
        proof {
            assert(spec_objlabel_list_bytes(v@, i as int) == spec_objlabel_list_bytes(v@, i - 1) + spec_objlabel_bytes(v@[i - 1]));
            assert(out@ =~= old(out)@ + spec_objlabel_list_bytes(v@, i as int));
        }
    }
}

fn write_str2_list(out: &mut Vec<u8>, v: &Vec<Vec<u8>>, n: usize)
    requires
        n <= v@.len(),
    ensures
        final(out)@ == old(out)@ + spec_str2_list_bytes(v@, n as int),
        final(out)@.len() == old(out)@.len() + 2 * n,
        forall|j: int| 0 <= j < old(out)@.len() ==> final(out)@[j] == old(out)@[j],
{
    let mut i: usize = 0;
    proof {
        assert(out@ =~= old(out)@ + spec_str2_list_bytes(v@, 0));
    }
    while i < n
        invariant
            i <= n,
            n <= v@.len(),
            out@.len() == old(out)@.len() + 2 * i,
            out@ == old(out)@ + spec_str2_list_bytes(v@, i as int),
            forall|j: int| 0 <= j < old(out)@.len() ==> out@[j] == old(out)@[j],
        decreases n - i,
    {
        let entry = &v[i];
        write_u8(out, if entry.len() > 0 { entry[0] } else { 0 });
        write_u8(out, if entry.len() > 1 { entry[1] } else { 0 });
        i = i + 1;
        proof {
            assert(spec_str2_list_bytes(v@, i as int) == spec_str2_list_bytes(v@, i - 1)
                + spec_str2_bytes(v@[i - 1]@));
            assert(out@ =~= old(out)@ + spec_str2_list_bytes(v@, i as int));
        }
    }
}

fn write_langpair_list(out: &mut Vec<u8>, v: &Vec<(Vec<u8>, Vec<u8>)>, n: usize)
    requires
        n <= v@.len(),
    ensures
        final(out)@ == old(out)@ + spec_langpair_list_bytes(v@, n as int),
        final(out)@.len() == old(out)@.len() + 4 * n,
        forall|j: int| 0 <= j < old(out)@.len() ==> final(out)@[j] == old(out)@[j],
{
    let mut i: usize = 0;
    proof {
        assert(out@ =~= old(out)@ + spec_langpair_list_bytes(v@, 0));
    }
    while i < n
        invariant
            i <= n,
            n <= v@.len(),
            out@.len() == old(out)@.len() + 4 * i,
            out@ == old(out)@ + spec_langpair_list_bytes(v@, i as int),
            forall|j: int| 0 <= j < old(out)@.len() ==> out@[j] == old(out)@[j],
        decreases n - i,
    {
        let entry = &v[i];
        write_u8(out, if entry.0.len() > 0 { entry.0[0] } else { 0 });
        write_u8(out, if entry.0.len() > 1 { entry.0[1] } else { 0 });
        write_u8(out, if entry.1.len() > 0 { entry.1[0] } else { 0 });
        write_u8(out, if entry.1.len() > 1 { entry.1[1] } else { 0 });
        i = i + 1;
        proof {
            assert(spec_langpair_list_bytes(v@, i as int) == spec_langpair_list_bytes(v@, i - 1)
                + spec_langpair_bytes(v@[i - 1].0@, v@[i - 1].1@));
            assert(out@ =~= old(out)@ + spec_langpair_list_bytes(v@, i as int));
        }
    }
}

/// A count clipped to the largest value its field width can carry.
fn clip_count(len: usize, max: usize) -> (r: usize)
    ensures
        r <= len,
        r <= max,
        r == spec_clip(len as int, max as int),
{
    if len <= max {
        len
    } else {
        max
    }
}

/// Serialize the type-specific fields of a WorkingSet; counted lists clip at
/// their count field's width.
#[verifier::rlimit(100)]
fn write_working_set(out: &mut Vec<u8>, o: &WorkingSet)
    ensures
        final(out)@ == old(out)@ + spec_object_body_bytes(Object::WorkingSet(*o)),
        final(out)@.len() == old(out)@.len() + spec_working_set_body_len(*o),
        forall|j: int| 0 <= j < old(out)@.len() ==> final(out)@[j] == old(out)@[j],
{
    write_u8(out, o.background_colour);
    write_bool(out, o.selectable);
    write_oid(out, o.active_mask);
    let n_object_refs = clip_count(o.object_refs.len(), 255);
    write_u8(out, n_object_refs as u8);
    let n_macro_refs = clip_count(o.macro_refs.len(), 255);
    write_u8(out, n_macro_refs as u8);
    let n_language_codes = clip_count(o.language_codes.len(), 255);
    write_u8(out, n_language_codes as u8);
    write_objref_list(out, &o.object_refs, n_object_refs);
    write_macroref_list(out, &o.macro_refs, n_macro_refs);
    write_str2_list(out, &o.language_codes, n_language_codes);
    proof {
        assert(out@ =~= old(out)@ + seq![o.background_colour]
                + seq![if o.selectable { 1u8 } else { 0u8 }]
                + spec_u16_bytes(o.active_mask.0)
                + seq![(spec_clip(o.object_refs@.len() as int, 255)) as u8]
                + seq![(spec_clip(o.macro_refs@.len() as int, 255)) as u8]
                + seq![(spec_clip(o.language_codes@.len() as int, 255)) as u8]
                + spec_objref_list_bytes(o.object_refs@, spec_clip(o.object_refs@.len() as int, 255))
                + spec_macroref_list_bytes(o.macro_refs@, spec_clip(o.macro_refs@.len() as int, 255))
                + spec_str2_list_bytes(o.language_codes@, spec_clip(o.language_codes@.len() as int, 255)));
        assert(out@ == old(out)@ + spec_object_body_bytes(Object::WorkingSet(*o)));
    }
}

/// Serialize the type-specific fields of a DataMask; counted lists clip at
/// their count field's width.
#[verifier::rlimit(100)]
fn write_data_mask(out: &mut Vec<u8>, o: &DataMask)
    ensures
        final(out)@ == old(out)@ + spec_object_body_bytes(Object::DataMask(*o)),
        final(out)@.len() == old(out)@.len() + spec_data_mask_body_len(*o),
        forall|j: int| 0 <= j < old(out)@.len() ==> final(out)@[j] == old(out)@[j],
{
    write_u8(out, o.background_colour);
    write_oid(out, o.soft_key_mask);
    let n_object_refs = clip_count(o.object_refs.len(), 255);
    write_u8(out, n_object_refs as u8);
    let n_macro_refs = clip_count(o.macro_refs.len(), 255);
    write_u8(out, n_macro_refs as u8);
    write_objref_list(out, &o.object_refs, n_object_refs);
    write_macroref_list(out, &o.macro_refs, n_macro_refs);
    proof {
        assert(out@ =~= old(out)@ + seq![o.background_colour]
                + spec_u16_bytes(o.soft_key_mask.0)
                + seq![(spec_clip(o.object_refs@.len() as int, 255)) as u8]
                + seq![(spec_clip(o.macro_refs@.len() as int, 255)) as u8]
                + spec_objref_list_bytes(o.object_refs@, spec_clip(o.object_refs@.len() as int, 255))
                + spec_macroref_list_bytes(o.macro_refs@, spec_clip(o.macro_refs@.len() as int, 255)));
        assert(out@ == old(out)@ + spec_object_body_bytes(Object::DataMask(*o)));
    }
}

/// Serialize the type-specific fields of a AlarmMask; counted lists clip at
/// their count field's width.
#[verifier::rlimit(100)]
fn write_alarm_mask(out: &mut Vec<u8>, o: &AlarmMask)
    ensures
        final(out)@ == old(out)@ + spec_object_body_bytes(Object::AlarmMask(*o)),
        final(out)@.len() == old(out)@.len() + spec_alarm_mask_body_len(*o),
        forall|j: int| 0 <= j < old(out)@.len() ==> final(out)@[j] == old(out)@[j],
{
    write_u8(out, o.background_colour);
    write_oid(out, o.soft_key_mask);
    write_u8(out, o.priority);
    write_u8(out, o.acoustic_signal);
    let n_object_refs = clip_count(o.object_refs.len(), 255);
    write_u8(out, n_object_refs as u8);
    let n_macro_refs = clip_count(o.macro_refs.len(), 255);
    write_u8(out, n_macro_refs as u8);
    write_objref_list(out, &o.object_refs, n_object_refs);
    write_macroref_list(out, &o.macro_refs, n_macro_refs);
    proof {
        assert(out@ =~= old(out)@ + seq![o.background_colour]
                + spec_u16_bytes(o.soft_key_mask.0)
                + seq![o.priority]
                + seq![o.acoustic_signal]
                + seq![(spec_clip(o.object_refs@.len() as int, 255)) as u8]
                + seq![(spec_clip(o.macro_refs@.len() as int, 255)) as u8]
                + spec_objref_list_bytes(o.object_refs@, spec_clip(o.object_refs@.len() as int, 255))
                + spec_macroref_list_bytes(o.macro_refs@, spec_clip(o.macro_refs@.len() as int, 255)));
        assert(out@ == old(out)@ + spec_object_body_bytes(Object::AlarmMask(*o)));
    }
}

/// Serialize the type-specific fields of a Container; counted lists clip at
/// their count field's width.
#[verifier::rlimit(100)]
fn write_container(out: &mut Vec<u8>, o: &Container)
    ensures
        final(out)@ == old(out)@ + spec_object_body_bytes(Object::Container(*o)),
        final(out)@.len() == old(out)@.len() + spec_container_body_len(*o),
        forall|j: int| 0 <= j < old(out)@.len() ==> final(out)@[j] == old(out)@[j],
{
    write_u16(out, o.width);
    write_u16(out, o.height);
    write_bool(out, o.hidden);
    let n_object_refs = clip_count(o.object_refs.len(), 255);
    write_u8(out, n_object_refs as u8);
    let n_macro_refs = clip_count(o.macro_refs.len(), 255);
    write_u8(out, n_macro_refs as u8);
    write_objref_list(out, &o.object_refs, n_object_refs);
    write_macroref_list(out, &o.macro_refs, n_macro_refs);
    proof {
        assert(out@ =~= old(out)@ + spec_u16_bytes(o.width)
                + spec_u16_bytes(o.height)
                + seq![if o.hidden { 1u8 } else { 0u8 }]
                + seq![(spec_clip(o.object_refs@.len() as int, 255)) as u8]
                + seq![(spec_clip(o.macro_refs@.len() as int, 255)) as u8]
                + spec_objref_list_bytes(o.object_refs@, spec_clip(o.object_refs@.len() as int, 255))
                + spec_macroref_list_bytes(o.macro_refs@, spec_clip(o.macro_refs@.len() as int, 255)));
        assert(out@ == old(out)@ + spec_object_body_bytes(Object::Container(*o)));
    }
}

/// Serialize the type-specific fields of a SoftKeyMask; counted lists clip at
/// their count field's width.
#[verifier::rlimit(100)]
fn write_soft_key_mask(out: &mut Vec<u8>, o: &SoftKeyMask)
    ensures
        final(out)@ == old(out)@ + spec_object_body_bytes(Object::SoftKeyMask(*o)),
        final(out)@.len() == old(out)@.len() + spec_soft_key_mask_body_len(*o),
        forall|j: int| 0 <= j < old(out)@.len() ==> final(out)@[j] == old(out)@[j],
{
    write_u8(out, o.background_colour);
    let n_objects = clip_count(o.objects.len(), 255);
    write_u8(out, n_objects as u8);
    let n_macro_refs = clip_count(o.macro_refs.len(), 255);
    write_u8(out, n_macro_refs as u8);
    write_oid_list(out, &o.objects, n_objects);
    write_macroref_list(out, &o.macro_refs, n_macro_refs);
    proof {
        assert(out@ =~= old(out)@ + seq![o.background_colour]
                + seq![(spec_clip(o.objects@.len() as int, 255)) as u8]
                + seq![(spec_clip(o.macro_refs@.len() as int, 255)) as u8]
                + spec_oid_list_bytes(o.objects@, spec_clip(o.objects@.len() as int, 255))
                + spec_macroref_list_bytes(o.macro_refs@, spec_clip(o.macro_refs@.len() as int, 255)));
        assert(out@ == old(out)@ + spec_object_body_bytes(Object::SoftKeyMask(*o)));
    }
}

/// Serialize the type-specific fields of a Key; counted lists clip at
/// their count field's width.
#[verifier::rlimit(100)]
fn write_key(out: &mut Vec<u8>, o: &Key)
    ensures
        final(out)@ == old(out)@ + spec_object_body_bytes(Object::Key(*o)),
        final(out)@.len() == old(out)@.len() + spec_key_body_len(*o),
        forall|j: int| 0 <= j < old(out)@.len() ==> final(out)@[j] == old(out)@[j],
{
    write_u8(out, o.background_colour);
    write_u8(out, o.key_code);
    let n_object_refs = clip_count(o.object_refs.len(), 255);
    write_u8(out, n_object_refs as u8);
    let n_macro_refs = clip_count(o.macro_refs.len(), 255);
    write_u8(out, n_macro_refs as u8);
    write_objref_list(out, &o.object_refs, n_object_refs);
    write_macroref_list(out, &o.macro_refs, n_macro_refs);
    proof {
        assert(out@ =~= old(out)@ + seq![o.background_colour]
                + seq![o.key_code]
                + seq![(spec_clip(o.object_refs@.len() as int, 255)) as u8]
                + seq![(spec_clip(o.macro_refs@.len() as int, 255)) as u8]
                + spec_objref_list_bytes(o.object_refs@, spec_clip(o.object_refs@.len() as int, 255))
                + spec_macroref_list_bytes(o.macro_refs@, spec_clip(o.macro_refs@.len() as int, 255)));
        assert(out@ == old(out)@ + spec_object_body_bytes(Object::Key(*o)));
    }
}

/// Serialize the type-specific fields of a Button; counted lists clip at
/// their count field's width.
#[verifier::rlimit(100)]
fn write_button(out: &mut Vec<u8>, o: &Button)
    ensures
        final(out)@ == old(out)@ + spec_object_body_bytes(Object::Button(*o)),
        final(out)@.len() == old(out)@.len() + spec_button_body_len(*o),
        forall|j: int| 0 <= j < old(out)@.len() ==> final(out)@[j] == old(out)@[j],
{
    write_u16(out, o.width);
    write_u16(out, o.height);
    write_u8(out, o.background_colour);
    write_u8(out, o.border_colour);
    write_u8(out, o.key_code);
    write_u8(out, o.options);
    let n_object_refs = clip_count(o.object_refs.len(), 255);
    write_u8(out, n_object_refs as u8);
    let n_macro_refs = clip_count(o.macro_refs.len(), 255);
    write_u8(out, n_macro_refs as u8);
    write_objref_list(out, &o.object_refs, n_object_refs);
    write_macroref_list(out, &o.macro_refs, n_macro_refs);
    proof {
        assert(out@ =~= old(out)@ + spec_u16_bytes(o.width)
                + spec_u16_bytes(o.height)
                + seq![o.background_colour]
                + seq![o.border_colour]
                + seq![o.key_code]
                + seq![o.options]
                + seq![(spec_clip(o.object_refs@.len() as int, 255)) as u8]
                + seq![(spec_clip(o.macro_refs@.len() as int, 255)) as u8]
                + spec_objref_list_bytes(o.object_refs@, spec_clip(o.object_refs@.len() as int, 255))
                + spec_macroref_list_bytes(o.macro_refs@, spec_clip(o.macro_refs@.len() as int, 255)));
        assert(out@ == old(out)@ + spec_object_body_bytes(Object::Button(*o)));
    }
}

/// Serialize the type-specific fields of a InputBoolean; counted lists clip at
/// their count field's width.
#[verifier::rlimit(100)]
fn write_input_boolean(out: &mut Vec<u8>, o: &InputBoolean)
    ensures
        final(out)@ == old(out)@ + spec_object_body_bytes(Object::InputBoolean(*o)),
        final(out)@.len() == old(out)@.len() + spec_input_boolean_body_len(*o),
        forall|j: int| 0 <= j < old(out)@.len() ==> final(out)@[j] == old(out)@[j],
{
    write_u8(out, o.background_colour);
    write_u16(out, o.width);
    write_oid(out, o.foreground_colour);
    write_oid(out, o.variable_reference);
    write_bool(out, o.value);
    write_bool(out, o.enabled);
    let n_macro_refs = clip_count(o.macro_refs.len(), 255);
    write_u8(out, n_macro_refs as u8);
    write_macroref_list(out, &o.macro_refs, n_macro_refs);
    proof {
        assert(out@ =~= old(out)@ + seq![o.background_colour]
                + spec_u16_bytes(o.width)
                + spec_u16_bytes(o.foreground_colour.0)
                + spec_u16_bytes(o.variable_reference.0)
                + seq![if o.value { 1u8 } else { 0u8 }]
                + seq![if o.enabled { 1u8 } else { 0u8 }]
                + seq![(spec_clip(o.macro_refs@.len() as int, 255)) as u8]
                + spec_macroref_list_bytes(o.macro_refs@, spec_clip(o.macro_refs@.len() as int, 255)));
        assert(out@ == old(out)@ + spec_object_body_bytes(Object::InputBoolean(*o)));
    }
}

/// Serialize the type-specific fields of a InputString; counted lists clip at
/// their count field's width.
#[verifier::rlimit(100)]
fn write_input_string(out: &mut Vec<u8>, o: &InputString)
    ensures
        final(out)@ == old(out)@ + spec_object_body_bytes(Object::InputString(*o)),
        final(out)@.len() == old(out)@.len() + spec_input_string_body_len(*o),
        forall|j: int| 0 <= j < old(out)@.len() ==> final(out)@[j] == old(out)@[j],
{
    write_u16(out, o.width);
    write_u16(out, o.height);
    write_u8(out, o.background_colour);
    write_oid(out, o.font_attributes);
    write_oid(out, o.input_attributes);
    write_u8(out, o.options);
    write_oid(out, o.variable_reference);
    write_u8(out, o.justification);
    let n_value = clip_count(o.value.len(), 255);
    write_u8(out, n_value as u8);
    write_counted_bytes(out, &o.value, n_value);
    write_bool(out, o.enabled);
    let n_macro_refs = clip_count(o.macro_refs.len(), 255);
    write_u8(out, n_macro_refs as u8);
    write_macroref_list(out, &o.macro_refs, n_macro_refs);
    proof {
        assert(out@ =~= old(out)@ + spec_u16_bytes(o.width)
                + spec_u16_bytes(o.height)
                + seq![o.background_colour]
                + spec_u16_bytes(o.font_attributes.0)
                + spec_u16_bytes(o.input_attributes.0)
                + seq![o.options]
                + spec_u16_bytes(o.variable_reference.0)
                + seq![o.justification]
                + seq![(spec_clip(o.value@.len() as int, 255)) as u8]
                + o.value@.take(spec_clip(o.value@.len() as int, 255))
                + seq![if o.enabled { 1u8 } else { 0u8 }]
                + seq![(spec_clip(o.macro_refs@.len() as int, 255)) as u8]
                + spec_macroref_list_bytes(o.macro_refs@, spec_clip(o.macro_refs@.len() as int, 255)));
        assert(out@ == old(out)@ + spec_object_body_bytes(Object::InputString(*o)));
    }
}

/// Serialize the type-specific fields of a InputNumber; counted lists clip at
/// their count field's width.
#[verifier::rlimit(100)]
fn write_input_number(out: &mut Vec<u8>, o: &InputNumber)
    ensures
        final(out)@ == old(out)@ + spec_object_body_bytes(Object::InputNumber(*o)),
        final(out)@.len() == old(out)@.len() + spec_input_number_body_len(*o),
        forall|j: int| 0 <= j < old(out)@.len() ==> final(out)@[j] == old(out)@[j],
{
    write_u16(out, o.width);
    write_u16(out, o.height);
    write_u8(out, o.background_colour);
    write_oid(out, o.font_attributes);
    write_u8(out, o.options);
    write_oid(out, o.variable_reference);
    write_u32(out, o.value);
    write_u32(out, o.min_value);
    write_u32(out, o.max_value);
    write_i32(out, o.offset);
    write_u32(out, o.scale);
    write_u8(out, o.nr_of_decimals);
    write_bool(out, o.format);
    write_u8(out, o.justification);
    write_u8(out, o.options2);
    let n_macro_refs = clip_count(o.macro_refs.len(), 255);
    write_u8(out, n_macro_refs as u8);
    write_macroref_list(out, &o.macro_refs, n_macro_refs);
    proof {
        assert(out@ =~= old(out)@ + spec_u16_bytes(o.width)
                + spec_u16_bytes(o.height)
                + seq![o.background_colour]
                + spec_u16_bytes(o.font_attributes.0)
                + seq![o.options]
                + spec_u16_bytes(o.variable_reference.0)
                + spec_u32_bytes(o.value)
                + spec_u32_bytes(o.min_value)
                + spec_u32_bytes(o.max_value)
                + spec_u32_bytes(o.offset as u32)
                + spec_u32_bytes(o.scale)
                + seq![o.nr_of_decimals]
                + seq![if o.format { 1u8 } else { 0u8 }]
                + seq![o.justification]
                + seq![o.options2]
                + seq![(spec_clip(o.macro_refs@.len() as int, 255)) as u8]
                + spec_macroref_list_bytes(o.macro_refs@, spec_clip(o.macro_refs@.len() as int, 255)));
        assert(out@ == old(out)@ + spec_object_body_bytes(Object::InputNumber(*o)));
    }
}

/// Serialize the type-specific fields of a InputList; counted lists clip at
/// their count field's width.
#[verifier::rlimit(100)]
fn write_input_list(out: &mut Vec<u8>, o: &InputList)
    ensures
        final(out)@ == old(out)@ + spec_object_body_bytes(Object::InputList(*o)),
        final(out)@.len() == old(out)@.len() + spec_input_list_body_len(*o),
        forall|j: int| 0 <= j < old(out)@.len() ==> final(out)@[j] == old(out)@[j],
{
    write_u16(out, o.width);
    write_u16(out, o.height);
    write_oid(out, o.variable_reference);
    write_u8(out, o.value);
    let n_list_items = clip_count(o.list_items.len(), 255);
    write_u8(out, n_list_items as u8);
    write_u8(out, o.options);
    let n_macro_refs = clip_count(o.macro_refs.len(), 255);
    write_u8(out, n_macro_refs as u8);
    write_oid_list(out, &o.list_items, n_list_items);
    write_macroref_list(out, &o.macro_refs, n_macro_refs);
    proof {
        assert(out@ =~= old(out)@ + spec_u16_bytes(o.width)
                + spec_u16_bytes(o.height)
                + spec_u16_bytes(o.variable_reference.0)
                + seq![o.value]
                + seq![(spec_clip(o.list_items@.len() as int, 255)) as u8]
                + seq![o.options]
                + seq![(spec_clip(o.macro_refs@.len() as int, 255)) as u8]
                + spec_oid_list_bytes(o.list_items@, spec_clip(o.list_items@.len() as int, 255))
                + spec_macroref_list_bytes(o.macro_refs@, spec_clip(o.macro_refs@.len() as int, 255)));
        assert(out@ == old(out)@ + spec_object_body_bytes(Object::InputList(*o)));
    }
}

/// Serialize the type-specific fields of a OutputString; counted lists clip at
/// their count field's width.
#[verifier::rlimit(100)]
fn write_output_string(out: &mut Vec<u8>, o: &OutputString)
    ensures
        final(out)@ == old(out)@ + spec_object_body_bytes(Object::OutputString(*o)),
        final(out)@.len() == old(out)@.len() + spec_output_string_body_len(*o),
        forall|j: int| 0 <= j < old(out)@.len() ==> final(out)@[j] == old(out)@[j],
{
    write_u16(out, o.width);
    write_u16(out, o.height);
    write_u8(out, o.background_colour);
    write_oid(out, o.font_attributes);
    write_u8(out, o.options);
    write_oid(out, o.variable_reference);
    write_u8(out, o.justification);
    let n_value = clip_count(o.value.len(), 65535);
    write_u16(out, n_value as u16);
    write_counted_bytes(out, &o.value, n_value);
    let n_macro_refs = clip_count(o.macro_refs.len(), 255);
    write_u8(out, n_macro_refs as u8);
    write_macroref_list(out, &o.macro_refs, n_macro_refs);
    proof {
        assert(out@ =~= old(out)@ + spec_u16_bytes(o.width)
                + spec_u16_bytes(o.height)
                + seq![o.background_colour]
                + spec_u16_bytes(o.font_attributes.0)
                + seq![o.options]
                + spec_u16_bytes(o.variable_reference.0)
                + seq![o.justification]
                + spec_u16_bytes((spec_clip(o.value@.len() as int, 65535)) as u16)
                + o.value@.take(spec_clip(o.value@.len() as int, 65535))
                + seq![(spec_clip(o.macro_refs@.len() as int, 255)) as u8]
                + spec_macroref_list_bytes(o.macro_refs@, spec_clip(o.macro_refs@.len() as int, 255)));
        assert(out@ == old(out)@ + spec_object_body_bytes(Object::OutputString(*o)));
    }
}

/// Serialize the type-specific fields of a OutputNumber; counted lists clip at
/// their count field's width.
#[verifier::rlimit(100)]
fn write_output_number(out: &mut Vec<u8>, o: &OutputNumber)
    ensures
        final(out)@ == old(out)@ + spec_object_body_bytes(Object::OutputNumber(*o)),
        final(out)@.len() == old(out)@.len() + spec_output_number_body_len(*o),
        forall|j: int| 0 <= j < old(out)@.len() ==> final(out)@[j] == old(out)@[j],
{
    write_u16(out, o.width);
    write_u16(out, o.height);
    write_u8(out, o.background_colour);
    write_oid(out, o.font_attributes);
    write_u8(out, o.options);
    write_oid(out, o.variable_reference);
    write_u32(out, o.value);
    write_i32(out, o.offset);
    write_u32(out, o.scale);
    write_u8(out, o.nr_of_decimals);
    write_bool(out, o.format);
    write_u8(out, o.justification);
    let n_macro_refs = clip_count(o.macro_refs.len(), 255);
    write_u8(out, n_macro_refs as u8);
    write_macroref_list(out, &o.macro_refs, n_macro_refs);
    proof {
        assert(out@ =~= old(out)@ + spec_u16_bytes(o.width)
                + spec_u16_bytes(o.height)
                + seq![o.background_colour]
                + spec_u16_bytes(o.font_attributes.0)
                + seq![o.options]
                + spec_u16_bytes(o.variable_reference.0)
                + spec_u32_bytes(o.value)
                + spec_u32_bytes(o.offset as u32)
                + spec_u32_bytes(o.scale)
                + seq![o.nr_of_decimals]
                + seq![if o.format { 1u8 } else { 0u8 }]
                + seq![o.justification]
                + seq![(spec_clip(o.macro_refs@.len() as int, 255)) as u8]
                + spec_macroref_list_bytes(o.macro_refs@, spec_clip(o.macro_refs@.len() as int, 255)));
        assert(out@ == old(out)@ + spec_object_body_bytes(Object::OutputNumber(*o)));
    }
}

/// Serialize the type-specific fields of a OutputLine; counted lists clip at
/// their count field's width.
#[verifier::rlimit(100)]
fn write_output_line(out: &mut Vec<u8>, o: &OutputLine)
    ensures
        final(out)@ == old(out)@ + spec_object_body_bytes(Object::OutputLine(*o)),
        final(out)@.len() == old(out)@.len() + spec_output_line_body_len(*o),
        forall|j: int| 0 <= j < old(out)@.len() ==> final(out)@[j] == old(out)@[j],
{
    write_oid(out, o.line_attributes);
    write_u16(out, o.width);
    write_u16(out, o.height);
    write_u8(out, o.line_direction);
    let n_macro_refs = clip_count(o.macro_refs.len(), 255);
    write_u8(out, n_macro_refs as u8);
    write_macroref_list(out, &o.macro_refs, n_macro_refs);
    proof {
        assert(out@ =~= old(out)@ + spec_u16_bytes(o.line_attributes.0)
                + spec_u16_bytes(o.width)
                + spec_u16_bytes(o.height)
                + seq![o.line_direction]
                + seq![(spec_clip(o.macro_refs@.len() as int, 255)) as u8]
                + spec_macroref_list_bytes(o.macro_refs@, spec_clip(o.macro_refs@.len() as int, 255)));
        assert(out@ == old(out)@ + spec_object_body_bytes(Object::OutputLine(*o)));
    }
}

/// Serialize the type-specific fields of a OutputRectangle; counted lists clip at
/// their count field's width.
#[verifier::rlimit(100)]
fn write_output_rectangle(out: &mut Vec<u8>, o: &OutputRectangle)
    ensures
        final(out)@ == old(out)@ + spec_object_body_bytes(Object::OutputRectangle(*o)),
        final(out)@.len() == old(out)@.len() + spec_output_rectangle_body_len(*o),
        forall|j: int| 0 <= j < old(out)@.len() ==> final(out)@[j] == old(out)@[j],
{
    write_oid(out, o.line_attributes);
    write_u16(out, o.width);
    write_u16(out, o.height);
    write_u8(out, o.line_suppression);
    write_oid(out, o.fill_attributes);
    let n_macro_refs = clip_count(o.macro_refs.len(), 255);
    write_u8(out, n_macro_refs as u8);
    write_macroref_list(out, &o.macro_refs, n_macro_refs);
    proof {
        assert(out@ =~= old(out)@ + spec_u16_bytes(o.line_attributes.0)
                + spec_u16_bytes(o.width)
                + spec_u16_bytes(o.height)
                + seq![o.line_suppression]
                + spec_u16_bytes(o.fill_attributes.0)
                + seq![(spec_clip(o.macro_refs@.len() as int, 255)) as u8]
                + spec_macroref_list_bytes(o.macro_refs@, spec_clip(o.macro_refs@.len() as int, 255)));
        assert(out@ == old(out)@ + spec_object_body_bytes(Object::OutputRectangle(*o)));
    }
}

/// Serialize the type-specific fields of a OutputEllipse; counted lists clip at
/// their count field's width.
#[verifier::rlimit(100)]
fn write_output_ellipse(out: &mut Vec<u8>, o: &OutputEllipse)
    ensures
        final(out)@ == old(out)@ + spec_object_body_bytes(Object::OutputEllipse(*o)),
        final(out)@.len() == old(out)@.len() + spec_output_ellipse_body_len(*o),
        forall|j: int| 0 <= j < old(out)@.len() ==> final(out)@[j] == old(out)@[j],
{
    write_oid(out, o.line_attributes);
    write_u16(out, o.width);
    write_u16(out, o.height);
    write_u8(out, o.ellipse_type);
    write_u8(out, o.start_angle);
    write_u8(out, o.end_angle);
    write_oid(out, o.fill_attributes);
    let n_macro_refs = clip_count(o.macro_refs.len(), 255);
    write_u8(out, n_macro_refs as u8);
    write_macroref_list(out, &o.macro_refs, n_macro_refs);
    proof {
        assert(out@ =~= old(out)@ + spec_u16_bytes(o.line_attributes.0)
                + spec_u16_bytes(o.width)
                + spec_u16_bytes(o.height)
                + seq![o.ellipse_type]
                + seq![o.start_angle]
                + seq![o.end_angle]
                + spec_u16_bytes(o.fill_attributes.0)
                + seq![(spec_clip(o.macro_refs@.len() as int, 255)) as u8]
                + spec_macroref_list_bytes(o.macro_refs@, spec_clip(o.macro_refs@.len() as int, 255)));
        assert(out@ == old(out)@ + spec_object_body_bytes(Object::OutputEllipse(*o)));
    }
}

/// Serialize the type-specific fields of a OutputPolygon; counted lists clip at
/// their count field's width.
#[verifier::rlimit(100)]
fn write_output_polygon(out: &mut Vec<u8>, o: &OutputPolygon)
    ensures
        final(out)@ == old(out)@ + spec_object_body_bytes(Object::OutputPolygon(*o)),
        final(out)@.len() == old(out)@.len() + spec_output_polygon_body_len(*o),
        forall|j: int| 0 <= j < old(out)@.len() ==> final(out)@[j] == old(out)@[j],
{
    write_u16(out, o.width);
    write_u16(out, o.height);
    write_oid(out, o.line_attributes);
    write_oid(out, o.fill_attributes);
    write_u8(out, o.polygon_type);
    let n_points = clip_count(o.points.len(), 255);
    write_u8(out, n_points as u8);
    let n_macro_refs = clip_count(o.macro_refs.len(), 255);
    write_u8(out, n_macro_refs as u8);
    write_point16_list(out, &o.points, n_points);
    write_macroref_list(out, &o.macro_refs, n_macro_refs);
    proof {
        assert(out@ =~= old(out)@ + spec_u16_bytes(o.width)
                + spec_u16_bytes(o.height)
                + spec_u16_bytes(o.line_attributes.0)
                + spec_u16_bytes(o.fill_attributes.0)
                + seq![o.polygon_type]
                + seq![(spec_clip(o.points@.len() as int, 255)) as u8]
                + seq![(spec_clip(o.macro_refs@.len() as int, 255)) as u8]
                + spec_point16_list_bytes(o.points@, spec_clip(o.points@.len() as int, 255))
                + spec_macroref_list_bytes(o.macro_refs@, spec_clip(o.macro_refs@.len() as int, 255)));
        assert(out@ == old(out)@ + spec_object_body_bytes(Object::OutputPolygon(*o)));
    }
}

/// Serialize the type-specific fields of a OutputMeter; counted lists clip at
/// their count field's width.
#[verifier::rlimit(100)]
fn write_output_meter(out: &mut Vec<u8>, o: &OutputMeter)
    ensures
        final(out)@ == old(out)@ + spec_object_body_bytes(Object::OutputMeter(*o)),
        final(out)@.len() == old(out)@.len() + spec_output_meter_body_len(*o),
        forall|j: int| 0 <= j < old(out)@.len() ==> final(out)@[j] == old(out)@[j],
{
    write_u16(out, o.width);
    write_u8(out, o.needle_colour);
    write_u8(out, o.border_colour);
    write_u8(out, o.arc_and_tick_colour);
    write_u8(out, o.options);
    write_u8(out, o.nr_of_ticks);
    write_u8(out, o.start_angle);
    write_u8(out, o.end_angle);
    write_u16(out, o.min_value);
    write_u16(out, o.max_value);
    write_oid(out, o.variable_reference);
    write_u16(out, o.value);
    let n_macro_refs = clip_count(o.macro_refs.len(), 255);
    write_u8(out, n_macro_refs as u8);
    write_macroref_list(out, &o.macro_refs, n_macro_refs);
    proof {
        assert(out@ =~= old(out)@ + spec_u16_bytes(o.width)
                + seq![o.needle_colour]
                + seq![o.border_colour]
                + seq![o.arc_and_tick_colour]
                + seq![o.options]
                + seq![o.nr_of_ticks]
                + seq![o.start_angle]
                + seq![o.end_angle]
                + spec_u16_bytes(o.min_value)
                + spec_u16_bytes(o.max_value)
                + spec_u16_bytes(o.variable_reference.0)
                + spec_u16_bytes(o.value)
                + seq![(spec_clip(o.macro_refs@.len() as int, 255)) as u8]
                + spec_macroref_list_bytes(o.macro_refs@, spec_clip(o.macro_refs@.len() as int, 255)));
        assert(out@ == old(out)@ + spec_object_body_bytes(Object::OutputMeter(*o)));
    }
}

/// Serialize the type-specific fields of a OutputLinearBarGraph; counted lists clip at
/// their count field's width.
#[verifier::rlimit(100)]
fn write_output_linear_bar_graph(out: &mut Vec<u8>, o: &OutputLinearBarGraph)
    ensures
        final(out)@ == old(out)@ + spec_object_body_bytes(Object::OutputLinearBarGraph(*o)),
        final(out)@.len() == old(out)@.len() + spec_output_linear_bar_graph_body_len(*o),
        forall|j: int| 0 <= j < old(out)@.len() ==> final(out)@[j] == old(out)@[j],
{
    write_u16(out, o.width);
    write_u16(out, o.height);
    write_u8(out, o.colour);
    write_u8(out, o.target_line_colour);
    write_u8(out, o.options);
    write_u8(out, o.nr_of_ticks);
    write_u16(out, o.min_value);
    write_u16(out, o.max_value);
    write_oid(out, o.variable_reference);
    write_u16(out, o.value);
    write_oid(out, o.target_value_variable_reference);
    write_u16(out, o.target_value);
    let n_macro_refs = clip_count(o.macro_refs.len(), 255);
    write_u8(out, n_macro_refs as u8);
    write_macroref_list(out, &o.macro_refs, n_macro_refs);
    proof {
        assert(out@ =~= old(out)@ + spec_u16_bytes(o.width)
                + spec_u16_bytes(o.height)
                + seq![o.colour]
                + seq![o.target_line_colour]
                + seq![o.options]
                + seq![o.nr_of_ticks]
                + spec_u16_bytes(o.min_value)
                + spec_u16_bytes(o.max_value)
                + spec_u16_bytes(o.variable_reference.0)
                + spec_u16_bytes(o.value)
                + spec_u16_bytes(o.target_value_variable_reference.0)
                + spec_u16_bytes(o.target_value)
                + seq![(spec_clip(o.macro_refs@.len() as int, 255)) as u8]
                + spec_macroref_list_bytes(o.macro_refs@, spec_clip(o.macro_refs@.len() as int, 255)));
        assert(out@ == old(out)@ + spec_object_body_bytes(Object::OutputLinearBarGraph(*o)));
    }
}

/// Serialize the type-specific fields of a OutputArchedBarGraph; counted lists clip at
/// their count field's width.
#[verifier::rlimit(100)]
fn write_output_arched_bar_graph(out: &mut Vec<u8>, o: &OutputArchedBarGraph)
    ensures
        final(out)@ == old(out)@ + spec_object_body_bytes(Object::OutputArchedBarGraph(*o)),
        final(out)@.len() == old(out)@.len() + spec_output_arched_bar_graph_body_len(*o),
        forall|j: int| 0 <= j < old(out)@.len() ==> final(out)@[j] == old(out)@[j],
{
    write_u16(out, o.width);
    write_u16(out, o.height);
    write_u8(out, o.colour);
    write_u8(out, o.target_line_colour);
    write_u8(out, o.options);
    write_u8(out, o.start_angle);
    write_u8(out, o.end_angle);
    write_u16(out, o.bar_graph_width);
    write_u16(out, o.min_value);
    write_u16(out, o.max_value);
    write_oid(out, o.variable_reference);
    write_u16(out, o.value);
    write_oid(out, o.target_value_variable_reference);
    write_u16(out, o.target_value);
    let n_macro_refs = clip_count(o.macro_refs.len(), 255);
    write_u8(out, n_macro_refs as u8);
    write_macroref_list(out, &o.macro_refs, n_macro_refs);
    proof {
        assert(out@ =~= old(out)@ + spec_u16_bytes(o.width)
                + spec_u16_bytes(o.height)
                + seq![o.colour]
                + seq![o.target_line_colour]
                + seq![o.options]
                + seq![o.start_angle]
                + seq![o.end_angle]
                + spec_u16_bytes(o.bar_graph_width)
                + spec_u16_bytes(o.min_value)
                + spec_u16_bytes(o.max_value)
                + spec_u16_bytes(o.variable_reference.0)
                + spec_u16_bytes(o.value)
                + spec_u16_bytes(o.target_value_variable_reference.0)
                + spec_u16_bytes(o.target_value)
                + seq![(spec_clip(o.macro_refs@.len() as int, 255)) as u8]
                + spec_macroref_list_bytes(o.macro_refs@, spec_clip(o.macro_refs@.len() as int, 255)));
        assert(out@ == old(out)@ + spec_object_body_bytes(Object::OutputArchedBarGraph(*o)));
    }
}

/// Serialize the type-specific fields of a PictureGraphic; counted lists clip at
/// their count field's width.
#[verifier::rlimit(100)]
fn write_picture_graphic(out: &mut Vec<u8>, o: &PictureGraphic)
    ensures
        final(out)@ == old(out)@ + spec_object_body_bytes(Object::PictureGraphic(*o)),
        final(out)@.len() == old(out)@.len() + spec_picture_graphic_body_len(*o),
        forall|j: int| 0 <= j < old(out)@.len() ==> final(out)@[j] == old(out)@[j],
{
    write_u16(out, o.width);
    write_u16(out, o.actual_width);
    write_u16(out, o.actual_height);
    write_u8(out, o.format);
    write_u8(out, o.options);
    write_u8(out, o.transparency_colour);
    let n_data = clip_count(o.data.len(), 0xFFFF_FFFF);
    write_u32(out, n_data as u32);
    let n_macro_refs = clip_count(o.macro_refs.len(), 255);
    write_u8(out, n_macro_refs as u8);
    write_counted_bytes(out, &o.data, n_data);
    write_macroref_list(out, &o.macro_refs, n_macro_refs);
    proof {
        assert(out@ =~= old(out)@ + spec_u16_bytes(o.width)
                + spec_u16_bytes(o.actual_width)
                + spec_u16_bytes(o.actual_height)
                + seq![o.format]
                + seq![o.options]
                + seq![o.transparency_colour]
                + spec_u32_bytes((spec_clip(o.data@.len() as int, 0xFFFF_FFFF)) as u32)
                + seq![(spec_clip(o.macro_refs@.len() as int, 255)) as u8]
                + o.data@.take(spec_clip(o.data@.len() as int, 0xFFFF_FFFF))
                + spec_macroref_list_bytes(o.macro_refs@, spec_clip(o.macro_refs@.len() as int, 255)));
        assert(out@ == old(out)@ + spec_object_body_bytes(Object::PictureGraphic(*o)));
    }
}

/// Serialize the type-specific fields of a NumberVariable; counted lists clip at
/// their count field's width.
fn write_number_variable(out: &mut Vec<u8>, o: &NumberVariable)
    ensures
        final(out)@ == old(out)@ + spec_object_body_bytes(Object::NumberVariable(*o)),
        final(out)@.len() == old(out)@.len() + spec_number_variable_body_len(*o),
        forall|j: int| 0 <= j < old(out)@.len() ==> final(out)@[j] == old(out)@[j],
{
    write_u32(out, o.value);
    proof {
        assert(out@ =~= old(out)@ + spec_u32_bytes(o.value));
        assert(out@ == old(out)@ + spec_object_body_bytes(Object::NumberVariable(*o)));
    }
}

/// Serialize the type-specific fields of a StringVariable; counted lists clip at
/// their count field's width.
fn write_string_variable(out: &mut Vec<u8>, o: &StringVariable)
    ensures
        final(out)@ == old(out)@ + spec_object_body_bytes(Object::StringVariable(*o)),
        final(out)@.len() == old(out)@.len() + spec_string_variable_body_len(*o),
        forall|j: int| 0 <= j < old(out)@.len() ==> final(out)@[j] == old(out)@[j],
{
    let n_value = clip_count(o.value.len(), 65535);
    write_u16(out, n_value as u16);
    write_counted_bytes(out, &o.value, n_value);
    proof {
        assert(out@ =~= old(out)@ + spec_u16_bytes((spec_clip(o.value@.len() as int, 65535)) as u16)
                + o.value@.take(spec_clip(o.value@.len() as int, 65535)));
        assert(out@ == old(out)@ + spec_object_body_bytes(Object::StringVariable(*o)));
    }
}

/// Serialize the type-specific fields of a FontAttributes; counted lists clip at
/// their count field's width.
#[verifier::rlimit(100)]
fn write_font_attributes(out: &mut Vec<u8>, o: &FontAttributes)
    ensures
        final(out)@ == old(out)@ + spec_object_body_bytes(Object::FontAttributes(*o)),
        final(out)@.len() == old(out)@.len() + spec_font_attributes_body_len(*o),
        forall|j: int| 0 <= j < old(out)@.len() ==> final(out)@[j] == old(out)@[j],
{
    write_u8(out, o.font_colour);
    write_u8(out, o.font_size);
    write_u8(out, o.font_type);
    write_u8(out, o.font_style);
    let n_macro_refs = clip_count(o.macro_refs.len(), 255);
    write_u8(out, n_macro_refs as u8);
    write_macroref_list(out, &o.macro_refs, n_macro_refs);
    proof {
        assert(out@ =~= old(out)@ + seq![o.font_colour]
                + seq![o.font_size]
                + seq![o.font_type]
                + seq![o.font_style]
                + seq![(spec_clip(o.macro_refs@.len() as int, 255)) as u8]
                + spec_macroref_list_bytes(o.macro_refs@, spec_clip(o.macro_refs@.len() as int, 255)));
        assert(out@ == old(out)@ + spec_object_body_bytes(Object::FontAttributes(*o)));
    }
}

/// Serialize the type-specific fields of a LineAttributes; counted lists clip at
/// their count field's width.
#[verifier::rlimit(100)]
fn write_line_attributes(out: &mut Vec<u8>, o: &LineAttributes)
    ensures
        final(out)@ == old(out)@ + spec_object_body_bytes(Object::LineAttributes(*o)),
        final(out)@.len() == old(out)@.len() + spec_line_attributes_body_len(*o),
        forall|j: int| 0 <= j < old(out)@.len() ==> final(out)@[j] == old(out)@[j],
{
    write_u8(out, o.line_colour);
    write_u8(out, o.line_width);
    write_u16(out, o.line_art);
    let n_macro_refs = clip_count(o.macro_refs.len(), 255);
    write_u8(out, n_macro_refs as u8);
    write_macroref_list(out, &o.macro_refs, n_macro_refs);
    proof {
        assert(out@ =~= old(out)@ + seq![o.line_colour]
                + seq![o.line_width]
                + spec_u16_bytes(o.line_art)
                + seq![(spec_clip(o.macro_refs@.len() as int, 255)) as u8]
                + spec_macroref_list_bytes(o.macro_refs@, spec_clip(o.macro_refs@.len() as int, 255)));
        assert(out@ == old(out)@ + spec_object_body_bytes(Object::LineAttributes(*o)));
    }
}

/// Serialize the type-specific fields of a FillAttributes; counted lists clip at
/// their count field's width.
#[verifier::rlimit(100)]
fn write_fill_attributes(out: &mut Vec<u8>, o: &FillAttributes)
    ensures
        final(out)@ == old(out)@ + spec_object_body_bytes(Object::FillAttributes(*o)),
        final(out)@.len() == old(out)@.len() + spec_fill_attributes_body_len(*o),
        forall|j: int| 0 <= j < old(out)@.len() ==> final(out)@[j] == old(out)@[j],
{
    write_u8(out, o.fill_type);
    write_u8(out, o.fill_colour);
    write_oid(out, o.fill_pattern);
    let n_macro_refs = clip_count(o.macro_refs.len(), 255);
    write_u8(out, n_macro_refs as u8);
    write_macroref_list(out, &o.macro_refs, n_macro_refs);
    proof {
        assert(out@ =~= old(out)@ + seq![o.fill_type]
                + seq![o.fill_colour]
                + spec_u16_bytes(o.fill_pattern.0)
                + seq![(spec_clip(o.macro_refs@.len() as int, 255)) as u8]
                + spec_macroref_list_bytes(o.macro_refs@, spec_clip(o.macro_refs@.len() as int, 255)));
        assert(out@ == old(out)@ + spec_object_body_bytes(Object::FillAttributes(*o)));
    }
}

/// Serialize the type-specific fields of a InputAttributes; counted lists clip at
/// their count field's width.
fn write_input_attributes(out: &mut Vec<u8>, o: &InputAttributes)
    ensures
        final(out)@ == old(out)@ + spec_object_body_bytes(Object::InputAttributes(*o)),
        final(out)@.len() == old(out)@.len() + spec_input_attributes_body_len(*o),
        forall|j: int| 0 <= j < old(out)@.len() ==> final(out)@[j] == old(out)@[j],
{
    write_u8(out, o.validation_type);
    let n_validation_string = clip_count(o.validation_string.len(), 255);
    write_u8(out, n_validation_string as u8);
    write_counted_bytes(out, &o.validation_string, n_validation_string);
    let n_macro_refs = clip_count(o.macro_refs.len(), 255);
    write_u8(out, n_macro_refs as u8);
    write_macroref_list(out, &o.macro_refs, n_macro_refs);
    proof {
        assert(out@ =~= old(out)@ + seq![o.validation_type]
                + seq![(spec_clip(o.validation_string@.len() as int, 255)) as u8]
                + o.validation_string@.take(spec_clip(o.validation_string@.len() as int, 255))
                + seq![(spec_clip(o.macro_refs@.len() as int, 255)) as u8]
                + spec_macroref_list_bytes(o.macro_refs@, spec_clip(o.macro_refs@.len() as int, 255)));
        assert(out@ == old(out)@ + spec_object_body_bytes(Object::InputAttributes(*o)));
    }
}

/// Serialize the type-specific fields of a ObjectPointer; counted lists clip at
/// their count field's width.
fn write_object_pointer(out: &mut Vec<u8>, o: &ObjectPointer)
    ensures
        final(out)@ == old(out)@ + spec_object_body_bytes(Object::ObjectPointer(*o)),
        final(out)@.len() == old(out)@.len() + spec_object_pointer_body_len(*o),
        forall|j: int| 0 <= j < old(out)@.len() ==> final(out)@[j] == old(out)@[j],
{
    write_oid(out, o.value);
    proof {
        assert(out@ =~= old(out)@ + spec_u16_bytes(o.value.0));
        assert(out@ == old(out)@ + spec_object_body_bytes(Object::ObjectPointer(*o)));
    }
}

/// Serialize the type-specific fields of a Macro; counted lists clip at
/// their count field's width.
fn write_macro(out: &mut Vec<u8>, o: &Macro)
    ensures
        final(out)@ == old(out)@ + spec_object_body_bytes(Object::Macro(*o)),
        final(out)@.len() == old(out)@.len() + spec_macro_body_len(*o),
        forall|j: int| 0 <= j < old(out)@.len() ==> final(out)@[j] == old(out)@[j],
{
    let n_commands = clip_count(o.commands.len(), 65535);
    write_u16(out, n_commands as u16);
    write_counted_bytes(out, &o.commands, n_commands);
    proof {
        assert(out@ =~= old(out)@ + spec_u16_bytes((spec_clip(o.commands@.len() as int, 65535)) as u16)
                + o.commands@.take(spec_clip(o.commands@.len() as int, 65535)));
        assert(out@ == old(out)@ + spec_object_body_bytes(Object::Macro(*o)));
    }
}

/// Serialize the type-specific fields of a AuxiliaryFunctionType1; counted lists clip at
/// their count field's width.
fn write_auxiliary_function_type1(out: &mut Vec<u8>, o: &AuxiliaryFunctionType1)
    ensures
        final(out)@ == old(out)@ + spec_object_body_bytes(Object::AuxiliaryFunctionType1(*o)),
        final(out)@.len() == old(out)@.len() + spec_auxiliary_function_type1_body_len(*o),
        forall|j: int| 0 <= j < old(out)@.len() ==> final(out)@[j] == old(out)@[j],
{
    write_u8(out, o.background_colour);
    write_u8(out, o.function_type);
    let n_object_refs = clip_count(o.object_refs.len(), 255);
    write_u8(out, n_object_refs as u8);
    write_objref_list(out, &o.object_refs, n_object_refs);
    proof {
        assert(out@ =~= old(out)@ + seq![o.background_colour]
                + seq![o.function_type]
                + seq![(spec_clip(o.object_refs@.len() as int, 255)) as u8]
                + spec_objref_list_bytes(o.object_refs@, spec_clip(o.object_refs@.len() as int, 255)));
        assert(out@ == old(out)@ + spec_object_body_bytes(Object::AuxiliaryFunctionType1(*o)));
    }
}

/// Serialize the type-specific fields of a AuxiliaryInputType1; counted lists clip at
/// their count field's width.
#[verifier::rlimit(100)]
fn write_auxiliary_input_type1(out: &mut Vec<u8>, o: &AuxiliaryInputType1)
    ensures
        final(out)@ == old(out)@ + spec_object_body_bytes(Object::AuxiliaryInputType1(*o)),
        final(out)@.len() == old(out)@.len() + spec_auxiliary_input_type1_body_len(*o),
        forall|j: int| 0 <= j < old(out)@.len() ==> final(out)@[j] == old(out)@[j],
{
    write_u8(out, o.background_colour);
    write_u8(out, o.function_type);
    write_u8(out, o.input_id);
    let n_object_refs = clip_count(o.object_refs.len(), 255);
    write_u8(out, n_object_refs as u8);
    write_objref_list(out, &o.object_refs, n_object_refs);
    proof {
        assert(out@ =~= old(out)@ + seq![o.background_colour]
                + seq![o.function_type]
                + seq![o.input_id]
                + seq![(spec_clip(o.object_refs@.len() as int, 255)) as u8]
                + spec_objref_list_bytes(o.object_refs@, spec_clip(o.object_refs@.len() as int, 255)));
        assert(out@ == old(out)@ + spec_object_body_bytes(Object::AuxiliaryInputType1(*o)));
    }
}

/// Serialize the type-specific fields of a AuxiliaryFunctionType2; counted lists clip at
/// their count field's width.
fn write_auxiliary_function_type2(out: &mut Vec<u8>, o: &AuxiliaryFunctionType2)
    ensures
        final(out)@ == old(out)@ + spec_object_body_bytes(Object::AuxiliaryFunctionType2(*o)),
        final(out)@.len() == old(out)@.len() + spec_auxiliary_function_type2_body_len(*o),
        forall|j: int| 0 <= j < old(out)@.len() ==> final(out)@[j] == old(out)@[j],
{
    write_u8(out, o.background_colour);
    write_u8(out, o.function_attributes);
    let n_object_refs = clip_count(o.object_refs.len(), 255);
    write_u8(out, n_object_refs as u8);
    write_objref_list(out, &o.object_refs, n_object_refs);
    proof {
        assert(out@ =~= old(out)@ + seq![o.background_colour]
                + seq![o.function_attributes]
                + seq![(spec_clip(o.object_refs@.len() as int, 255)) as u8]
                + spec_objref_list_bytes(o.object_refs@, spec_clip(o.object_refs@.len() as int, 255)));
        assert(out@ == old(out)@ + spec_object_body_bytes(Object::AuxiliaryFunctionType2(*o)));
    }
}

/// Serialize the type-specific fields of a AuxiliaryInputType2; counted lists clip at
/// their count field's width.
fn write_auxiliary_input_type2(out: &mut Vec<u8>, o: &AuxiliaryInputType2)
    ensures
        final(out)@ == old(out)@ + spec_object_body_bytes(Object::AuxiliaryInputType2(*o)),
        final(out)@.len() == old(out)@.len() + spec_auxiliary_input_type2_body_len(*o),
        forall|j: int| 0 <= j < old(out)@.len() ==> final(out)@[j] == old(out)@[j],
{
    write_u8(out, o.background_colour);
    write_u8(out, o.function_attributes);
    let n_object_refs = clip_count(o.object_refs.len(), 255);
    write_u8(out, n_object_refs as u8);
    write_objref_list(out, &o.object_refs, n_object_refs);
    proof {
        assert(out@ =~= old(out)@ + seq![o.background_colour]
                + seq![o.function_attributes]
                + seq![(spec_clip(o.object_refs@.len() as int, 255)) as u8]
                + spec_objref_list_bytes(o.object_refs@, spec_clip(o.object_refs@.len() as int, 255)));
        assert(out@ == old(out)@ + spec_object_body_bytes(Object::AuxiliaryInputType2(*o)));
    }
}

/// Serialize the type-specific fields of a AuxiliaryControlDesignatorType2; counted lists clip at
/// their count field's width.
fn write_auxiliary_control_designator_type2(out: &mut Vec<u8>, o: &AuxiliaryControlDesignatorType2)
    ensures
        final(out)@ == old(out)@ + spec_object_body_bytes(Object::AuxiliaryControlDesignatorType2(*o)),
        final(out)@.len() == old(out)@.len() + spec_auxiliary_control_designator_type2_body_len(*o),
        forall|j: int| 0 <= j < old(out)@.len() ==> final(out)@[j] == old(out)@[j],
{
    write_u8(out, o.pointer_type);
    write_oid(out, o.auxiliary_object_id);
    proof {
        assert(out@ =~= old(out)@ + seq![o.pointer_type]
                + spec_u16_bytes(o.auxiliary_object_id.0));
        assert(out@ == old(out)@ + spec_object_body_bytes(Object::AuxiliaryControlDesignatorType2(*o)));
    }
}

/// Serialize the type-specific fields of a WindowMask; counted lists clip at
/// their count field's width.
#[verifier::rlimit(100)]
fn write_window_mask(out: &mut Vec<u8>, o: &WindowMask)
    ensures
        final(out)@ == old(out)@ + spec_object_body_bytes(Object::WindowMask(*o)),
        final(out)@.len() == old(out)@.len() + spec_window_mask_body_len(*o),
        forall|j: int| 0 <= j < old(out)@.len() ==> final(out)@[j] == old(out)@[j],
{
    write_u8(out, o.width);
    write_u8(out, o.height);
    write_u8(out, o.window_type);
    write_u8(out, o.background_colour);
    write_u8(out, o.options);
    write_oid(out, o.name);
    write_oid(out, o.window_title);
    write_oid(out, o.window_icon);
    let n_objects = clip_count(o.objects.len(), 255);
    write_u8(out, n_objects as u8);
    let n_object_refs = clip_count(o.object_refs.len(), 255);
    write_u8(out, n_object_refs as u8);
    let n_macro_refs = clip_count(o.macro_refs.len(), 255);
    write_u8(out, n_macro_refs as u8);
    write_oid_list(out, &o.objects, n_objects);
    write_objref_list(out, &o.object_refs, n_object_refs);
    write_macroref_list(out, &o.macro_refs, n_macro_refs);
    proof {
        assert(out@ =~= old(out)@ + seq![o.width]
                + seq![o.height]
                + seq![o.window_type]
                + seq![o.background_colour]
                + seq![o.options]
                + spec_u16_bytes(o.name.0)
                + spec_u16_bytes(o.window_title.0)
                + spec_u16_bytes(o.window_icon.0)
                + seq![(spec_clip(o.objects@.len() as int, 255)) as u8]
                + seq![(spec_clip(o.object_refs@.len() as int, 255)) as u8]
                + seq![(spec_clip(o.macro_refs@.len() as int, 255)) as u8]
                + spec_oid_list_bytes(o.objects@, spec_clip(o.objects@.len() as int, 255))
                + spec_objref_list_bytes(o.object_refs@, spec_clip(o.object_refs@.len() as int, 255))
                + spec_macroref_list_bytes(o.macro_refs@, spec_clip(o.macro_refs@.len() as int, 255)));
        assert(out@ == old(out)@ + spec_object_body_bytes(Object::WindowMask(*o)));
    }
}

/// Serialize the type-specific fields of a KeyGroup; counted lists clip at
/// their count field's width.
#[verifier::rlimit(100)]
fn write_key_group(out: &mut Vec<u8>, o: &KeyGroup)
    ensures
        final(out)@ == old(out)@ + spec_object_body_bytes(Object::KeyGroup(*o)),
        final(out)@.len() == old(out)@.len() + spec_key_group_body_len(*o),
        forall|j: int| 0 <= j < old(out)@.len() ==> final(out)@[j] == old(out)@[j],
{
    write_u8(out, o.options);
    write_oid(out, o.name);
    write_oid(out, o.key_group_icon);
    let n_objects = clip_count(o.objects.len(), 255);
    write_u8(out, n_objects as u8);
    let n_macro_refs = clip_count(o.macro_refs.len(), 255);
    write_u8(out, n_macro_refs as u8);
    write_oid_list(out, &o.objects, n_objects);
    write_macroref_list(out, &o.macro_refs, n_macro_refs);
    proof {
        assert(out@ =~= old(out)@ + seq![o.options]
                + spec_u16_bytes(o.name.0)
                + spec_u16_bytes(o.key_group_icon.0)
                + seq![(spec_clip(o.objects@.len() as int, 255)) as u8]
                + seq![(spec_clip(o.macro_refs@.len() as int, 255)) as u8]
                + spec_oid_list_bytes(o.objects@, spec_clip(o.objects@.len() as int, 255))
                + spec_macroref_list_bytes(o.macro_refs@, spec_clip(o.macro_refs@.len() as int, 255)));
        assert(out@ == old(out)@ + spec_object_body_bytes(Object::KeyGroup(*o)));
    }
}

/// Serialize the type-specific fields of a GraphicsContext; counted lists clip at
/// their count field's width.
#[verifier::rlimit(100)]
fn write_graphics_context(out: &mut Vec<u8>, o: &GraphicsContext)
    ensures
        final(out)@ == old(out)@ + spec_object_body_bytes(Object::GraphicsContext(*o)),
        final(out)@.len() == old(out)@.len() + spec_graphics_context_body_len(*o),
        forall|j: int| 0 <= j < old(out)@.len() ==> final(out)@[j] == old(out)@[j],
{
    write_u16(out, o.viewport_width);
    write_u16(out, o.viewport_height);
    write_i16(out, o.viewport_x);
    write_i16(out, o.viewport_y);
    write_u16(out, o.canvas_width);
    write_u16(out, o.canvas_height);
    write_u32(out, o.viewport_zoom);
    write_i16(out, o.graphics_cursor_x);
    write_i16(out, o.graphics_cursor_y);
    write_u8(out, o.foreground_colour);
    write_u8(out, o.background_colour);
    write_oid(out, o.font_attributes_object);
    write_oid(out, o.line_attributes_object);
    write_oid(out, o.fill_attributes_object);
    write_u8(out, o.format);
    write_u8(out, o.options);
    write_u8(out, o.transparency_colour);
    proof {
        assert(out@ =~= old(out)@ + spec_u16_bytes(o.viewport_width)
                + spec_u16_bytes(o.viewport_height)
                + spec_u16_bytes(o.viewport_x as u16)
                + spec_u16_bytes(o.viewport_y as u16)
                + spec_u16_bytes(o.canvas_width)
                + spec_u16_bytes(o.canvas_height)
                + spec_u32_bytes(o.viewport_zoom)
                + spec_u16_bytes(o.graphics_cursor_x as u16)
                + spec_u16_bytes(o.graphics_cursor_y as u16)
                + seq![o.foreground_colour]
                + seq![o.background_colour]
                + spec_u16_bytes(o.font_attributes_object.0)
                + spec_u16_bytes(o.line_attributes_object.0)
                + spec_u16_bytes(o.fill_attributes_object.0)
                + seq![o.format]
                + seq![o.options]
                + seq![o.transparency_colour]);
        assert(out@ == old(out)@ + spec_object_body_bytes(Object::GraphicsContext(*o)));
    }
}

/// Serialize the type-specific fields of a OutputList; counted lists clip at
/// their count field's width.
#[verifier::rlimit(100)]
fn write_output_list(out: &mut Vec<u8>, o: &OutputList)
    ensures
        final(out)@ == old(out)@ + spec_object_body_bytes(Object::OutputList(*o)),
        final(out)@.len() == old(out)@.len() + spec_output_list_body_len(*o),
        forall|j: int| 0 <= j < old(out)@.len() ==> final(out)@[j] == old(out)@[j],
{
    write_u16(out, o.width);
    write_u16(out, o.height);
    write_oid(out, o.variable_reference);
    write_u8(out, o.value);
    let n_list_items = clip_count(o.list_items.len(), 255);
    write_u8(out, n_list_items as u8);
    let n_macro_refs = clip_count(o.macro_refs.len(), 255);
    write_u8(out, n_macro_refs as u8);
    write_oid_list(out, &o.list_items, n_list_items);
    write_macroref_list(out, &o.macro_refs, n_macro_refs);
    proof {
        assert(out@ =~= old(out)@ + spec_u16_bytes(o.width)
                + spec_u16_bytes(o.height)
                + spec_u16_bytes(o.variable_reference.0)
                + seq![o.value]
                + seq![(spec_clip(o.list_items@.len() as int, 255)) as u8]
                + seq![(spec_clip(o.macro_refs@.len() as int, 255)) as u8]
                + spec_oid_list_bytes(o.list_items@, spec_clip(o.list_items@.len() as int, 255))
                + spec_macroref_list_bytes(o.macro_refs@, spec_clip(o.macro_refs@.len() as int, 255)));
        assert(out@ == old(out)@ + spec_object_body_bytes(Object::OutputList(*o)));
    }
}

/// Serialize the type-specific fields of a ExtendedInputAttributes; counted lists clip at
/// their count field's width.
fn write_extended_input_attributes(out: &mut Vec<u8>, o: &ExtendedInputAttributes)
    ensures
        final(out)@ == old(out)@ + spec_object_body_bytes(Object::ExtendedInputAttributes(*o)),
        final(out)@.len() == old(out)@.len() + spec_extended_input_attributes_body_len(*o),
        forall|j: int| 0 <= j < old(out)@.len() ==> final(out)@[j] == old(out)@[j],
{
    write_u8(out, o.validation_type);
    write_u8(out, o.nr_of_code_planes);
    proof {
        assert(out@ =~= old(out)@ + seq![o.validation_type]
                + seq![o.nr_of_code_planes]);
        assert(out@ == old(out)@ + spec_object_body_bytes(Object::ExtendedInputAttributes(*o)));
    }
}

/// Serialize the type-specific fields of a ColourMap; counted lists clip at
/// their count field's width.
fn write_colour_map(out: &mut Vec<u8>, o: &ColourMap)
    ensures
        final(out)@ == old(out)@ + spec_object_body_bytes(Object::ColourMap(*o)),
        final(out)@.len() == old(out)@.len() + spec_colour_map_body_len(*o),
        forall|j: int| 0 <= j < old(out)@.len() ==> final(out)@[j] == old(out)@[j],
{
    let n_colour_map = clip_count(o.colour_map.len(), 65535);
    write_u16(out, n_colour_map as u16);
    write_counted_bytes(out, &o.colour_map, n_colour_map);
    proof {
        assert(out@ =~= old(out)@ + spec_u16_bytes((spec_clip(o.colour_map@.len() as int, 65535)) as u16)
                + o.colour_map@.take(spec_clip(o.colour_map@.len() as int, 65535)));
        assert(out@ == old(out)@ + spec_object_body_bytes(Object::ColourMap(*o)));
    }
}

/// Serialize the type-specific fields of a ObjectLabelReferenceList; counted lists clip at
/// their count field's width.
fn write_object_label_reference_list(out: &mut Vec<u8>, o: &ObjectLabelReferenceList)
    ensures
        final(out)@ == old(out)@ + spec_object_body_bytes(Object::ObjectLabelReferenceList(*o)),
        final(out)@.len() == old(out)@.len() + spec_object_label_reference_list_body_len(*o),
        forall|j: int| 0 <= j < old(out)@.len() ==> final(out)@[j] == old(out)@[j],
{
    let n_object_labels = clip_count(o.object_labels.len(), 65535);
    write_u16(out, n_object_labels as u16);
    write_objlabel_list(out, &o.object_labels, n_object_labels);
    proof {
        assert(out@ =~= old(out)@ + spec_u16_bytes((spec_clip(o.object_labels@.len() as int, 65535)) as u16)
                + spec_objlabel_list_bytes(o.object_labels@, spec_clip(o.object_labels@.len() as int, 65535)));
        assert(out@ == old(out)@ + spec_object_body_bytes(Object::ObjectLabelReferenceList(*o)));
    }
}

/// Serialize the type-specific fields of a ExternalObjectDefinition; counted lists clip at
/// their count field's width.
fn write_external_object_definition(out: &mut Vec<u8>, o: &ExternalObjectDefinition)
    ensures
        final(out)@ == old(out)@ + spec_object_body_bytes(Object::ExternalObjectDefinition(*o)),
        final(out)@.len() == old(out)@.len() + spec_external_object_definition_body_len(*o),
        forall|j: int| 0 <= j < old(out)@.len() ==> final(out)@[j] == old(out)@[j],
{
    write_u8(out, o.options);
    write_name(out, &o.name);
    let n_objects = clip_count(o.objects.len(), 255);
    write_u8(out, n_objects as u8);
    write_oid_list(out, &o.objects, n_objects);
    proof {
        assert(out@ =~= old(out)@ + seq![o.options]
                + crate::name::spec_le_bytes(o.name.spec_value())
                + seq![(spec_clip(o.objects@.len() as int, 255)) as u8]
                + spec_oid_list_bytes(o.objects@, spec_clip(o.objects@.len() as int, 255)));
        assert(out@ == old(out)@ + spec_object_body_bytes(Object::ExternalObjectDefinition(*o)));
    }
}

/// Serialize the type-specific fields of a ExternalReferenceName; counted lists clip at
/// their count field's width.
fn write_external_reference_name(out: &mut Vec<u8>, o: &ExternalReferenceName)
    ensures
        final(out)@ == old(out)@ + spec_object_body_bytes(Object::ExternalReferenceName(*o)),
        final(out)@.len() == old(out)@.len() + spec_external_reference_name_body_len(*o),
        forall|j: int| 0 <= j < old(out)@.len() ==> final(out)@[j] == old(out)@[j],
{
    write_u8(out, o.options);
    write_name(out, &o.name);
    proof {
        assert(out@ =~= old(out)@ + seq![o.options]
                + crate::name::spec_le_bytes(o.name.spec_value()));
        assert(out@ == old(out)@ + spec_object_body_bytes(Object::ExternalReferenceName(*o)));
    }
}

/// Serialize the type-specific fields of a ExternalObjectPointer; counted lists clip at
/// their count field's width.
fn write_external_object_pointer(out: &mut Vec<u8>, o: &ExternalObjectPointer)
    ensures
        final(out)@ == old(out)@ + spec_object_body_bytes(Object::ExternalObjectPointer(*o)),
        final(out)@.len() == old(out)@.len() + spec_external_object_pointer_body_len(*o),
        forall|j: int| 0 <= j < old(out)@.len() ==> final(out)@[j] == old(out)@[j],
{
    write_oid(out, o.default_object_id);
    write_oid(out, o.external_reference_name_id);
    write_oid(out, o.external_object_id);
    proof {
        assert(out@ =~= old(out)@ + spec_u16_bytes(o.default_object_id.0)
                + spec_u16_bytes(o.external_reference_name_id.0)
                + spec_u16_bytes(o.external_object_id.0));
        assert(out@ == old(out)@ + spec_object_body_bytes(Object::ExternalObjectPointer(*o)));
    }
}

/// Serialize the type-specific fields of a Animation; counted lists clip at
/// their count field's width.
#[verifier::rlimit(100)]
fn write_animation(out: &mut Vec<u8>, o: &Animation)
    ensures
        final(out)@ == old(out)@ + spec_object_body_bytes(Object::Animation(*o)),
        final(out)@.len() == old(out)@.len() + spec_animation_body_len(*o),
        forall|j: int| 0 <= j < old(out)@.len() ==> final(out)@[j] == old(out)@[j],
{
    write_u16(out, o.width);
    write_u16(out, o.height);
    write_u16(out, o.refresh_interval);
    write_u8(out, o.value);
    write_bool(out, o.enabled);
    write_u8(out, o.first_child_index);
    write_u8(out, o.last_child_index);
    write_u8(out, o.default_child_index);
    write_u8(out, o.options);
    let n_object_refs = clip_count(o.object_refs.len(), 255);
    write_u8(out, n_object_refs as u8);
    let n_macro_refs = clip_count(o.macro_refs.len(), 255);
    write_u8(out, n_macro_refs as u8);
    write_objref_list(out, &o.object_refs, n_object_refs);
    write_macroref_list(out, &o.macro_refs, n_macro_refs);
    proof {
        assert(out@ =~= old(out)@ + spec_u16_bytes(o.width)
                + spec_u16_bytes(o.height)
                + spec_u16_bytes(o.refresh_interval)
                + seq![o.value]
                + seq![if o.enabled { 1u8 } else { 0u8 }]
                + seq![o.first_child_index]
                + seq![o.last_child_index]
                + seq![o.default_child_index]
                + seq![o.options]
                + seq![(spec_clip(o.object_refs@.len() as int, 255)) as u8]
                + seq![(spec_clip(o.macro_refs@.len() as int, 255)) as u8]
                + spec_objref_list_bytes(o.object_refs@, spec_clip(o.object_refs@.len() as int, 255))
                + spec_macroref_list_bytes(o.macro_refs@, spec_clip(o.macro_refs@.len() as int, 255)));
        assert(out@ == old(out)@ + spec_object_body_bytes(Object::Animation(*o)));
    }
}

/// Serialize the type-specific fields of a ColourPalette; counted lists clip at
/// their count field's width.
fn write_colour_palette(out: &mut Vec<u8>, o: &ColourPalette)
    ensures
        final(out)@ == old(out)@ + spec_object_body_bytes(Object::ColourPalette(*o)),
        final(out)@.len() == old(out)@.len() + spec_colour_palette_body_len(*o),
        forall|j: int| 0 <= j < old(out)@.len() ==> final(out)@[j] == old(out)@[j],
{
    write_u16(out, o.options);
    let n_colours = clip_count(o.colours.len(), 65535);
    write_u16(out, n_colours as u16);
    write_colour_list(out, &o.colours, n_colours);
    proof {
        assert(out@ =~= old(out)@ + spec_u16_bytes(o.options)
                + spec_u16_bytes((spec_clip(o.colours@.len() as int, 65535)) as u16)
                + spec_colour_list_bytes(o.colours@, spec_clip(o.colours@.len() as int, 65535)));
        assert(out@ == old(out)@ + spec_object_body_bytes(Object::ColourPalette(*o)));
    }
}

/// Serialize the type-specific fields of a GraphicData; counted lists clip at
/// their count field's width.
fn write_graphic_data(out: &mut Vec<u8>, o: &GraphicData)
    ensures
        final(out)@ == old(out)@ + spec_object_body_bytes(Object::GraphicData(*o)),
        final(out)@.len() == old(out)@.len() + spec_graphic_data_body_len(*o),
        forall|j: int| 0 <= j < old(out)@.len() ==> final(out)@[j] == old(out)@[j],
{
    write_u8(out, o.format);
    let n_data = clip_count(o.data.len(), 0xFFFF_FFFF);
    write_u32(out, n_data as u32);
    write_counted_bytes(out, &o.data, n_data);
    proof {
        assert(out@ =~= old(out)@ + seq![o.format]
                + spec_u32_bytes((spec_clip(o.data@.len() as int, 0xFFFF_FFFF)) as u32)
                + o.data@.take(spec_clip(o.data@.len() as int, 0xFFFF_FFFF)));
        assert(out@ == old(out)@ + spec_object_body_bytes(Object::GraphicData(*o)));
    }
}

/// Serialize the type-specific fields of a WorkingSetSpecialControls; counted lists clip at
/// their count field's width.
fn write_working_set_special_controls(out: &mut Vec<u8>, o: &WorkingSetSpecialControls)
    ensures
        final(out)@ == old(out)@ + spec_object_body_bytes(Object::WorkingSetSpecialControls(*o)),
        final(out)@.len() == old(out)@.len() + spec_working_set_special_controls_body_len(*o),
        forall|j: int| 0 <= j < old(out)@.len() ==> final(out)@[j] == old(out)@[j],
{
    write_oid(out, o.id_of_colour_map);
    write_oid(out, o.id_of_colour_palette);
    let n_language_pairs = clip_count(o.language_pairs.len(), 255);
    write_u8(out, n_language_pairs as u8);
    write_langpair_list(out, &o.language_pairs, n_language_pairs);
    proof {
        assert(out@ =~= old(out)@ + spec_u16_bytes(o.id_of_colour_map.0)
                + spec_u16_bytes(o.id_of_colour_palette.0)
                + seq![(spec_clip(o.language_pairs@.len() as int, 255)) as u8]
                + spec_langpair_list_bytes(o.language_pairs@, spec_clip(o.language_pairs@.len() as int, 255)));
        assert(out@ == old(out)@ + spec_object_body_bytes(Object::WorkingSetSpecialControls(*o)));
    }
}

/// Serialize the type-specific fields of a ScalesGraphic; counted lists clip at
/// their count field's width.
#[verifier::rlimit(100)]
fn write_scales_graphic(out: &mut Vec<u8>, o: &ScalesGraphic)
    ensures
        final(out)@ == old(out)@ + spec_object_body_bytes(Object::ScalesGraphic(*o)),
        final(out)@.len() == old(out)@.len() + spec_scales_graphic_body_len(*o),
        forall|j: int| 0 <= j < old(out)@.len() ==> final(out)@[j] == old(out)@[j],
{
    write_u16(out, o.width);
    write_u16(out, o.height);
    write_u8(out, o.scale_type);
    write_u8(out, o.options);
    write_u16(out, o.value);
    let n_macro_refs = clip_count(o.macro_refs.len(), 255);
    write_u8(out, n_macro_refs as u8);
    write_macroref_list(out, &o.macro_refs, n_macro_refs);
    proof {
        assert(out@ =~= old(out)@ + spec_u16_bytes(o.width)
                + spec_u16_bytes(o.height)
                + seq![o.scale_type]
                + seq![o.options]
                + spec_u16_bytes(o.value)
                + seq![(spec_clip(o.macro_refs@.len() as int, 255)) as u8]
                + spec_macroref_list_bytes(o.macro_refs@, spec_clip(o.macro_refs@.len() as int, 255)));
        assert(out@ == old(out)@ + spec_object_body_bytes(Object::ScalesGraphic(*o)));
    }
}


/// Encoded bytes of the type-specific fields of an object, counted lists
/// clipped at their count field's width.
pub open spec fn spec_object_body_bytes(obj: Object) -> Seq<u8> {
    match obj {
        Object::WorkingSet(o) => seq![o.background_colour]
            + seq![if o.selectable { 1u8 } else { 0u8 }]
            + spec_u16_bytes(o.active_mask.0)
            + seq![(spec_clip(o.object_refs@.len() as int, 255)) as u8]
            + seq![(spec_clip(o.macro_refs@.len() as int, 255)) as u8]
            + seq![(spec_clip(o.language_codes@.len() as int, 255)) as u8]
            + spec_objref_list_bytes(o.object_refs@, spec_clip(o.object_refs@.len() as int, 255))
            + spec_macroref_list_bytes(o.macro_refs@, spec_clip(o.macro_refs@.len() as int, 255))
            + spec_str2_list_bytes(o.language_codes@, spec_clip(o.language_codes@.len() as int, 255)),
        Object::DataMask(o) => seq![o.background_colour]
            + spec_u16_bytes(o.soft_key_mask.0)
            + seq![(spec_clip(o.object_refs@.len() as int, 255)) as u8]
            + seq![(spec_clip(o.macro_refs@.len() as int, 255)) as u8]
            + spec_objref_list_bytes(o.object_refs@, spec_clip(o.object_refs@.len() as int, 255))
            + spec_macroref_list_bytes(o.macro_refs@, spec_clip(o.macro_refs@.len() as int, 255)),
        Object::AlarmMask(o) => seq![o.background_colour]
            + spec_u16_bytes(o.soft_key_mask.0)
            + seq![o.priority]
            + seq![o.acoustic_signal]
            + seq![(spec_clip(o.object_refs@.len() as int, 255)) as u8]
            + seq![(spec_clip(o.macro_refs@.len() as int, 255)) as u8]
            + spec_objref_list_bytes(o.object_refs@, spec_clip(o.object_refs@.len() as int, 255))
            + spec_macroref_list_bytes(o.macro_refs@, spec_clip(o.macro_refs@.len() as int, 255)),
        Object::Container(o) => spec_u16_bytes(o.width)
            + spec_u16_bytes(o.height)
            + seq![if o.hidden { 1u8 } else { 0u8 }]
            + seq![(spec_clip(o.object_refs@.len() as int, 255)) as u8]
            + seq![(spec_clip(o.macro_refs@.len() as int, 255)) as u8]
            + spec_objref_list_bytes(o.object_refs@, spec_clip(o.object_refs@.len() as int, 255))
            + spec_macroref_list_bytes(o.macro_refs@, spec_clip(o.macro_refs@.len() as int, 255)),
        Object::SoftKeyMask(o) => seq![o.background_colour]
            + seq![(spec_clip(o.objects@.len() as int, 255)) as u8]
            + seq![(spec_clip(o.macro_refs@.len() as int, 255)) as u8]
            + spec_oid_list_bytes(o.objects@, spec_clip(o.objects@.len() as int, 255))
            + spec_macroref_list_bytes(o.macro_refs@, spec_clip(o.macro_refs@.len() as int, 255)),
        Object::Key(o) => seq![o.background_colour]
            + seq![o.key_code]
            + seq![(spec_clip(o.object_refs@.len() as int, 255)) as u8]
            + seq![(spec_clip(o.macro_refs@.len() as int, 255)) as u8]
            + spec_objref_list_bytes(o.object_refs@, spec_clip(o.object_refs@.len() as int, 255))
            + spec_macroref_list_bytes(o.macro_refs@, spec_clip(o.macro_refs@.len() as int, 255)),
        Object::Button(o) => spec_u16_bytes(o.width)
            + spec_u16_bytes(o.height)
            + seq![o.background_colour]
            + seq![o.border_colour]
            + seq![o.key_code]
            + seq![o.options]
            + seq![(spec_clip(o.object_refs@.len() as int, 255)) as u8]
            + seq![(spec_clip(o.macro_refs@.len() as int, 255)) as u8]
            + spec_objref_list_bytes(o.object_refs@, spec_clip(o.object_refs@.len() as int, 255))
            + spec_macroref_list_bytes(o.macro_refs@, spec_clip(o.macro_refs@.len() as int, 255)),
        Object::InputBoolean(o) => seq![o.background_colour]
            + spec_u16_bytes(o.width)
            + spec_u16_bytes(o.foreground_colour.0)
            + spec_u16_bytes(o.variable_reference.0)
            + seq![if o.value { 1u8 } else { 0u8 }]
            + seq![if o.enabled { 1u8 } else { 0u8 }]
            + seq![(spec_clip(o.macro_refs@.len() as int, 255)) as u8]
            + spec_macroref_list_bytes(o.macro_refs@, spec_clip(o.macro_refs@.len() as int, 255)),
        Object::InputString(o) => spec_u16_bytes(o.width)
            + spec_u16_bytes(o.height)
            + seq![o.background_colour]
            + spec_u16_bytes(o.font_attributes.0)
            + spec_u16_bytes(o.input_attributes.0)
            + seq![o.options]
            + spec_u16_bytes(o.variable_reference.0)
            + seq![o.justification]
            + seq![(spec_clip(o.value@.len() as int, 255)) as u8]
            + o.value@.take(spec_clip(o.value@.len() as int, 255))
            + seq![if o.enabled { 1u8 } else { 0u8 }]
            + seq![(spec_clip(o.macro_refs@.len() as int, 255)) as u8]
            + spec_macroref_list_bytes(o.macro_refs@, spec_clip(o.macro_refs@.len() as int, 255)),
        Object::InputNumber(o) => spec_u16_bytes(o.width)
            + spec_u16_bytes(o.height)
            + seq![o.background_colour]
            + spec_u16_bytes(o.font_attributes.0)
            + seq![o.options]
            + spec_u16_bytes(o.variable_reference.0)
            + spec_u32_bytes(o.value)
            + spec_u32_bytes(o.min_value)
            + spec_u32_bytes(o.max_value)
            + spec_u32_bytes(o.offset as u32)
            + spec_u32_bytes(o.scale)
            + seq![o.nr_of_decimals]
            + seq![if o.format { 1u8 } else { 0u8 }]
            + seq![o.justification]
            + seq![o.options2]
            + seq![(spec_clip(o.macro_refs@.len() as int, 255)) as u8]
            + spec_macroref_list_bytes(o.macro_refs@, spec_clip(o.macro_refs@.len() as int, 255)),
        Object::InputList(o) => spec_u16_bytes(o.width)
            + spec_u16_bytes(o.height)
            + spec_u16_bytes(o.variable_reference.0)
            + seq![o.value]
            + seq![(spec_clip(o.list_items@.len() as int, 255)) as u8]
            + seq![o.options]
            + seq![(spec_clip(o.macro_refs@.len() as int, 255)) as u8]
            + spec_oid_list_bytes(o.list_items@, spec_clip(o.list_items@.len() as int, 255))
            + spec_macroref_list_bytes(o.macro_refs@, spec_clip(o.macro_refs@.len() as int, 255)),
        Object::OutputString(o) => spec_u16_bytes(o.width)
            + spec_u16_bytes(o.height)
            + seq![o.background_colour]
            + spec_u16_bytes(o.font_attributes.0)
            + seq![o.options]
            + spec_u16_bytes(o.variable_reference.0)
            + seq![o.justification]
            + spec_u16_bytes((spec_clip(o.value@.len() as int, 65535)) as u16)
            + o.value@.take(spec_clip(o.value@.len() as int, 65535))
            + seq![(spec_clip(o.macro_refs@.len() as int, 255)) as u8]
            + spec_macroref_list_bytes(o.macro_refs@, spec_clip(o.macro_refs@.len() as int, 255)),
        Object::OutputNumber(o) => spec_u16_bytes(o.width)
            + spec_u16_bytes(o.height)
            + seq![o.background_colour]
            + spec_u16_bytes(o.font_attributes.0)
            + seq![o.options]
            + spec_u16_bytes(o.variable_reference.0)
            + spec_u32_bytes(o.value)
            + spec_u32_bytes(o.offset as u32)
            + spec_u32_bytes(o.scale)
            + seq![o.nr_of_decimals]
            + seq![if o.format { 1u8 } else { 0u8 }]
            + seq![o.justification]
            + seq![(spec_clip(o.macro_refs@.len() as int, 255)) as u8]
            + spec_macroref_list_bytes(o.macro_refs@, spec_clip(o.macro_refs@.len() as int, 255)),
        Object::OutputLine(o) => spec_u16_bytes(o.line_attributes.0)
            + spec_u16_bytes(o.width)
            + spec_u16_bytes(o.height)
            + seq![o.line_direction]
            + seq![(spec_clip(o.macro_refs@.len() as int, 255)) as u8]
            + spec_macroref_list_bytes(o.macro_refs@, spec_clip(o.macro_refs@.len() as int, 255)),
        Object::OutputRectangle(o) => spec_u16_bytes(o.line_attributes.0)
            + spec_u16_bytes(o.width)
            + spec_u16_bytes(o.height)
            + seq![o.line_suppression]
            + spec_u16_bytes(o.fill_attributes.0)
            + seq![(spec_clip(o.macro_refs@.len() as int, 255)) as u8]
            + spec_macroref_list_bytes(o.macro_refs@, spec_clip(o.macro_refs@.len() as int, 255)),
        Object::OutputEllipse(o) => spec_u16_bytes(o.line_attributes.0)
            + spec_u16_bytes(o.width)
            + spec_u16_bytes(o.height)
            + seq![o.ellipse_type]
            + seq![o.start_angle]
            + seq![o.end_angle]
            + spec_u16_bytes(o.fill_attributes.0)
            + seq![(spec_clip(o.macro_refs@.len() as int, 255)) as u8]
            + spec_macroref_list_bytes(o.macro_refs@, spec_clip(o.macro_refs@.len() as int, 255)),
        Object::OutputPolygon(o) => spec_u16_bytes(o.width)
            + spec_u16_bytes(o.height)
            + spec_u16_bytes(o.line_attributes.0)
            + spec_u16_bytes(o.fill_attributes.0)
            + seq![o.polygon_type]
            + seq![(spec_clip(o.points@.len() as int, 255)) as u8]
            + seq![(spec_clip(o.macro_refs@.len() as int, 255)) as u8]
            + spec_point16_list_bytes(o.points@, spec_clip(o.points@.len() as int, 255))
            + spec_macroref_list_bytes(o.macro_refs@, spec_clip(o.macro_refs@.len() as int, 255)),
        Object::OutputMeter(o) => spec_u16_bytes(o.width)
            + seq![o.needle_colour]
            + seq![o.border_colour]
            + seq![o.arc_and_tick_colour]
            + seq![o.options]
            + seq![o.nr_of_ticks]
            + seq![o.start_angle]
            + seq![o.end_angle]
            + spec_u16_bytes(o.min_value)
            + spec_u16_bytes(o.max_value)
            + spec_u16_bytes(o.variable_reference.0)
            + spec_u16_bytes(o.value)
            + seq![(spec_clip(o.macro_refs@.len() as int, 255)) as u8]
            + spec_macroref_list_bytes(o.macro_refs@, spec_clip(o.macro_refs@.len() as int, 255)),
        Object::OutputLinearBarGraph(o) => spec_u16_bytes(o.width)
            + spec_u16_bytes(o.height)
            + seq![o.colour]
            + seq![o.target_line_colour]
            + seq![o.options]
            + seq![o.nr_of_ticks]
            + spec_u16_bytes(o.min_value)
            + spec_u16_bytes(o.max_value)
            + spec_u16_bytes(o.variable_reference.0)
            + spec_u16_bytes(o.value)
            + spec_u16_bytes(o.target_value_variable_reference.0)
            + spec_u16_bytes(o.target_value)
            + seq![(spec_clip(o.macro_refs@.len() as int, 255)) as u8]
            + spec_macroref_list_bytes(o.macro_refs@, spec_clip(o.macro_refs@.len() as int, 255)),
        Object::OutputArchedBarGraph(o) => spec_u16_bytes(o.width)
            + spec_u16_bytes(o.height)
            + seq![o.colour]
            + seq![o.target_line_colour]
            + seq![o.options]
            + seq![o.start_angle]
            + seq![o.end_angle]
            + spec_u16_bytes(o.bar_graph_width)
            + spec_u16_bytes(o.min_value)
            + spec_u16_bytes(o.max_value)
            + spec_u16_bytes(o.variable_reference.0)
            + spec_u16_bytes(o.value)
            + spec_u16_bytes(o.target_value_variable_reference.0)
            + spec_u16_bytes(o.target_value)
            + seq![(spec_clip(o.macro_refs@.len() as int, 255)) as u8]
            + spec_macroref_list_bytes(o.macro_refs@, spec_clip(o.macro_refs@.len() as int, 255)),
        Object::PictureGraphic(o) => spec_u16_bytes(o.width)
            + spec_u16_bytes(o.actual_width)
            + spec_u16_bytes(o.actual_height)
            + seq![o.format]
            + seq![o.options]
            + seq![o.transparency_colour]
            + spec_u32_bytes((spec_clip(o.data@.len() as int, 0xFFFF_FFFF)) as u32)
            + seq![(spec_clip(o.macro_refs@.len() as int, 255)) as u8]
            + o.data@.take(spec_clip(o.data@.len() as int, 0xFFFF_FFFF))
            + spec_macroref_list_bytes(o.macro_refs@, spec_clip(o.macro_refs@.len() as int, 255)),
        Object::NumberVariable(o) => spec_u32_bytes(o.value),
        Object::StringVariable(o) => spec_u16_bytes((spec_clip(o.value@.len() as int, 65535)) as u16)
            + o.value@.take(spec_clip(o.value@.len() as int, 65535)),
        Object::FontAttributes(o) => seq![o.font_colour]
            + seq![o.font_size]
            + seq![o.font_type]
            + seq![o.font_style]
            + seq![(spec_clip(o.macro_refs@.len() as int, 255)) as u8]
            + spec_macroref_list_bytes(o.macro_refs@, spec_clip(o.macro_refs@.len() as int, 255)),
        Object::LineAttributes(o) => seq![o.line_colour]
            + seq![o.line_width]
            + spec_u16_bytes(o.line_art)
            + seq![(spec_clip(o.macro_refs@.len() as int, 255)) as u8]
            + spec_macroref_list_bytes(o.macro_refs@, spec_clip(o.macro_refs@.len() as int, 255)),
        Object::FillAttributes(o) => seq![o.fill_type]
            + seq![o.fill_colour]
            + spec_u16_bytes(o.fill_pattern.0)
            + seq![(spec_clip(o.macro_refs@.len() as int, 255)) as u8]
            + spec_macroref_list_bytes(o.macro_refs@, spec_clip(o.macro_refs@.len() as int, 255)),
        Object::InputAttributes(o) => seq![o.validation_type]
            + seq![(spec_clip(o.validation_string@.len() as int, 255)) as u8]
            + o.validation_string@.take(spec_clip(o.validation_string@.len() as int, 255))
            + seq![(spec_clip(o.macro_refs@.len() as int, 255)) as u8]
            + spec_macroref_list_bytes(o.macro_refs@, spec_clip(o.macro_refs@.len() as int, 255)),
        Object::ObjectPointer(o) => spec_u16_bytes(o.value.0),
        Object::Macro(o) => spec_u16_bytes((spec_clip(o.commands@.len() as int, 65535)) as u16)
            + o.commands@.take(spec_clip(o.commands@.len() as int, 65535)),
        Object::AuxiliaryFunctionType1(o) => seq![o.background_colour]
            + seq![o.function_type]
            + seq![(spec_clip(o.object_refs@.len() as int, 255)) as u8]
            + spec_objref_list_bytes(o.object_refs@, spec_clip(o.object_refs@.len() as int, 255)),
        Object::AuxiliaryInputType1(o) => seq![o.background_colour]
            + seq![o.function_type]
            + seq![o.input_id]
            + seq![(spec_clip(o.object_refs@.len() as int, 255)) as u8]
            + spec_objref_list_bytes(o.object_refs@, spec_clip(o.object_refs@.len() as int, 255)),
        Object::AuxiliaryFunctionType2(o) => seq![o.background_colour]
            + seq![o.function_attributes]
            + seq![(spec_clip(o.object_refs@.len() as int, 255)) as u8]
            + spec_objref_list_bytes(o.object_refs@, spec_clip(o.object_refs@.len() as int, 255)),
        Object::AuxiliaryInputType2(o) => seq![o.background_colour]
            + seq![o.function_attributes]
            + seq![(spec_clip(o.object_refs@.len() as int, 255)) as u8]
            + spec_objref_list_bytes(o.object_refs@, spec_clip(o.object_refs@.len() as int, 255)),
        Object::AuxiliaryControlDesignatorType2(o) => seq![o.pointer_type]
            + spec_u16_bytes(o.auxiliary_object_id.0),
        Object::WindowMask(o) => seq![o.width]
            + seq![o.height]
            + seq![o.window_type]
            + seq![o.background_colour]
            + seq![o.options]
            + spec_u16_bytes(o.name.0)
            + spec_u16_bytes(o.window_title.0)
            + spec_u16_bytes(o.window_icon.0)
            + seq![(spec_clip(o.objects@.len() as int, 255)) as u8]
            + seq![(spec_clip(o.object_refs@.len() as int, 255)) as u8]
            + seq![(spec_clip(o.macro_refs@.len() as int, 255)) as u8]
            + spec_oid_list_bytes(o.objects@, spec_clip(o.objects@.len() as int, 255))
            + spec_objref_list_bytes(o.object_refs@, spec_clip(o.object_refs@.len() as int, 255))
            + spec_macroref_list_bytes(o.macro_refs@, spec_clip(o.macro_refs@.len() as int, 255)),
        Object::KeyGroup(o) => seq![o.options]
            + spec_u16_bytes(o.name.0)
            + spec_u16_bytes(o.key_group_icon.0)
            + seq![(spec_clip(o.objects@.len() as int, 255)) as u8]
            + seq![(spec_clip(o.macro_refs@.len() as int, 255)) as u8]
            + spec_oid_list_bytes(o.objects@, spec_clip(o.objects@.len() as int, 255))
            + spec_macroref_list_bytes(o.macro_refs@, spec_clip(o.macro_refs@.len() as int, 255)),
        Object::GraphicsContext(o) => spec_u16_bytes(o.viewport_width)
            + spec_u16_bytes(o.viewport_height)
            + spec_u16_bytes(o.viewport_x as u16)
            + spec_u16_bytes(o.viewport_y as u16)
            + spec_u16_bytes(o.canvas_width)
            + spec_u16_bytes(o.canvas_height)
            + spec_u32_bytes(o.viewport_zoom)
            + spec_u16_bytes(o.graphics_cursor_x as u16)
            + spec_u16_bytes(o.graphics_cursor_y as u16)
            + seq![o.foreground_colour]
            + seq![o.background_colour]
            + spec_u16_bytes(o.font_attributes_object.0)
            + spec_u16_bytes(o.line_attributes_object.0)
            + spec_u16_bytes(o.fill_attributes_object.0)
            + seq![o.format]
            + seq![o.options]
            + seq![o.transparency_colour],
        Object::OutputList(o) => spec_u16_bytes(o.width)
            + spec_u16_bytes(o.height)
            + spec_u16_bytes(o.variable_reference.0)
            + seq![o.value]
            + seq![(spec_clip(o.list_items@.len() as int, 255)) as u8]
            + seq![(spec_clip(o.macro_refs@.len() as int, 255)) as u8]
            + spec_oid_list_bytes(o.list_items@, spec_clip(o.list_items@.len() as int, 255))
            + spec_macroref_list_bytes(o.macro_refs@, spec_clip(o.macro_refs@.len() as int, 255)),
        Object::ExtendedInputAttributes(o) => seq![o.validation_type]
            + seq![o.nr_of_code_planes],
        Object::ColourMap(o) => spec_u16_bytes((spec_clip(o.colour_map@.len() as int, 65535)) as u16)
            + o.colour_map@.take(spec_clip(o.colour_map@.len() as int, 65535)),
        Object::ObjectLabelReferenceList(o) => spec_u16_bytes((spec_clip(o.object_labels@.len() as int, 65535)) as u16)
            + spec_objlabel_list_bytes(o.object_labels@, spec_clip(o.object_labels@.len() as int, 65535)),
        Object::ExternalObjectDefinition(o) => seq![o.options]
            + crate::name::spec_le_bytes(o.name.spec_value())
            + seq![(spec_clip(o.objects@.len() as int, 255)) as u8]
            + spec_oid_list_bytes(o.objects@, spec_clip(o.objects@.len() as int, 255)),
        Object::ExternalReferenceName(o) => seq![o.options]
            + crate::name::spec_le_bytes(o.name.spec_value()),
        Object::ExternalObjectPointer(o) => spec_u16_bytes(o.default_object_id.0)
            + spec_u16_bytes(o.external_reference_name_id.0)
            + spec_u16_bytes(o.external_object_id.0),
        Object::Animation(o) => spec_u16_bytes(o.width)
            + spec_u16_bytes(o.height)
            + spec_u16_bytes(o.refresh_interval)
            + seq![o.value]
            + seq![if o.enabled { 1u8 } else { 0u8 }]
            + seq![o.first_child_index]
            + seq![o.last_child_index]
            + seq![o.default_child_index]
            + seq![o.options]
            + seq![(spec_clip(o.object_refs@.len() as int, 255)) as u8]
            + seq![(spec_clip(o.macro_refs@.len() as int, 255)) as u8]
            + spec_objref_list_bytes(o.object_refs@, spec_clip(o.object_refs@.len() as int, 255))
            + spec_macroref_list_bytes(o.macro_refs@, spec_clip(o.macro_refs@.len() as int, 255)),
        Object::ColourPalette(o) => spec_u16_bytes(o.options)
            + spec_u16_bytes((spec_clip(o.colours@.len() as int, 65535)) as u16)
            + spec_colour_list_bytes(o.colours@, spec_clip(o.colours@.len() as int, 65535)),
        Object::GraphicData(o) => seq![o.format]
            + spec_u32_bytes((spec_clip(o.data@.len() as int, 0xFFFF_FFFF)) as u32)
            + o.data@.take(spec_clip(o.data@.len() as int, 0xFFFF_FFFF)),
        Object::WorkingSetSpecialControls(o) => spec_u16_bytes(o.id_of_colour_map.0)
            + spec_u16_bytes(o.id_of_colour_palette.0)
            + seq![(spec_clip(o.language_pairs@.len() as int, 255)) as u8]
            + spec_langpair_list_bytes(o.language_pairs@, spec_clip(o.language_pairs@.len() as int, 255)),
        Object::ScalesGraphic(o) => spec_u16_bytes(o.width)
            + spec_u16_bytes(o.height)
            + seq![o.scale_type]
            + seq![o.options]
            + spec_u16_bytes(o.value)
            + seq![(spec_clip(o.macro_refs@.len() as int, 255)) as u8]
            + spec_macroref_list_bytes(o.macro_refs@, spec_clip(o.macro_refs@.len() as int, 255)),
    }
}

/// The full encoding of an object: its id, its type tag, then its fields.
pub open spec fn spec_object_bytes(obj: Object) -> Seq<u8> {
    seq![(obj.spec_id() & 0xFF) as u8, (obj.spec_id() >> 8) as u8, obj.spec_object_type().spec_code()]
        + spec_object_body_bytes(obj)
}

impl Object {
    /// Serialize this object: its id, its type tag, then the type-specific
    /// fields, mirroring `read`.
    #[verifier::rlimit(100)]
    pub fn write(&self) -> (r: Vec<u8>)
        ensures
            r@ == spec_object_bytes(*self),
            r@.len() == spec_object_encoded_len(*self),
            r@.len() >= 3,
            r@[0] == (self.spec_id() & 0xFF) as u8,
            r@[1] == (self.spec_id() >> 8) as u8,
            r@[2] == self.spec_object_type().spec_code(),
    {
        let mut out: Vec<u8> = Vec::new();
        write_u16(&mut out, self.id().0);
        write_u8(&mut out, self.object_type().as_u8());
        proof {
            assert(out@.len() == 3);
            assert(out@[0] == (self.spec_id() & 0xFF) as u8);
            assert(out@[1] == (self.spec_id() >> 8) as u8);
            assert(out@[2] == self.spec_object_type().spec_code());
            assert(out@ =~= seq![
                (self.spec_id() & 0xFF) as u8,
                (self.spec_id() >> 8) as u8,
                self.spec_object_type().spec_code(),
            ]);
        }
        match self {
            Object::WorkingSet(o) => {
                write_working_set(&mut out, o);
                proof {
                    assert(out@ == spec_object_bytes(*self));
                }
            },
            Object::DataMask(o) => {
                write_data_mask(&mut out, o);
                proof {
                    assert(out@ == spec_object_bytes(*self));
                }
            },
            Object::AlarmMask(o) => {
                write_alarm_mask(&mut out, o);
                proof {
                    assert(out@ == spec_object_bytes(*self));
                }
            },
            Object::Container(o) => {
                write_container(&mut out, o);
                proof {
                    assert(out@ == spec_object_bytes(*self));
                }
            },
            Object::SoftKeyMask(o) => {
                write_soft_key_mask(&mut out, o);
                proof {
                    assert(out@ == spec_object_bytes(*self));
                }
            },
            Object::Key(o) => {
                write_key(&mut out, o);
                proof {
                    assert(out@ == spec_object_bytes(*self));
                }
            },
            Object::Button(o) => {
                write_button(&mut out, o);
                proof {
                    assert(out@ == spec_object_bytes(*self));
                }
            },
            Object::InputBoolean(o) => {
                write_input_boolean(&mut out, o);
                proof {
                    assert(out@ == spec_object_bytes(*self));
                }
            },
            Object::InputString(o) => {
                write_input_string(&mut out, o);
                proof {
                    assert(out@ == spec_object_bytes(*self));
                }
            },
            Object::InputNumber(o) => {
                write_input_number(&mut out, o);
                proof {
                    assert(out@ == spec_object_bytes(*self));
                }
            },
            Object::InputList(o) => {
                write_input_list(&mut out, o);
                proof {
                    assert(out@ == spec_object_bytes(*self));
                }
            },
            Object::OutputString(o) => {
                write_output_string(&mut out, o);
                proof {
                    assert(out@ == spec_object_bytes(*self));
                }
            },
            Object::OutputNumber(o) => {
                write_output_number(&mut out, o);
                proof {
                    assert(out@ == spec_object_bytes(*self));
                }
            },
            Object::OutputLine(o) => {
                write_output_line(&mut out, o);
                proof {
                    assert(out@ == spec_object_bytes(*self));
                }
            },
            Object::OutputRectangle(o) => {
                write_output_rectangle(&mut out, o);
                proof {
                    assert(out@ == spec_object_bytes(*self));
                }
            },
            Object::OutputEllipse(o) => {
                write_output_ellipse(&mut out, o);
                proof {
                    assert(out@ == spec_object_bytes(*self));
                }
            },
            Object::OutputPolygon(o) => {
                write_output_polygon(&mut out, o);
                proof {
                    assert(out@ == spec_object_bytes(*self));
                }
            },
            Object::OutputMeter(o) => {
                write_output_meter(&mut out, o);
                proof {
                    assert(out@ == spec_object_bytes(*self));
                }
            },
            Object::OutputLinearBarGraph(o) => {
                write_output_linear_bar_graph(&mut out, o);
                proof {
                    assert(out@ == spec_object_bytes(*self));
                }
            },
            Object::OutputArchedBarGraph(o) => {
                write_output_arched_bar_graph(&mut out, o);
                proof {
                    assert(out@ == spec_object_bytes(*self));
                }
            },
            Object::PictureGraphic(o) => {
                write_picture_graphic(&mut out, o);
                proof {
                    assert(out@ == spec_object_bytes(*self));
                }
            },
            Object::NumberVariable(o) => {
                write_number_variable(&mut out, o);
                proof {
                    assert(out@ == spec_object_bytes(*self));
                }
            },
            Object::StringVariable(o) => {
                write_string_variable(&mut out, o);
                proof {
                    assert(out@ == spec_object_bytes(*self));
                }
            },
            Object::FontAttributes(o) => {
                write_font_attributes(&mut out, o);
                proof {
                    assert(out@ == spec_object_bytes(*self));
                }
            },
            Object::LineAttributes(o) => {
                write_line_attributes(&mut out, o);
                proof {
                    assert(out@ == spec_object_bytes(*self));
                }
            },
            Object::FillAttributes(o) => {
                write_fill_attributes(&mut out, o);
                proof {
                    assert(out@ == spec_object_bytes(*self));
                }
            },
            Object::InputAttributes(o) => {
                write_input_attributes(&mut out, o);
                proof {
                    assert(out@ == spec_object_bytes(*self));
                }
            },
            Object::ObjectPointer(o) => {
                write_object_pointer(&mut out, o);
                proof {
                    assert(out@ == spec_object_bytes(*self));
                }
            },
            Object::Macro(o) => {
                write_macro(&mut out, o);
                proof {
                    assert(out@ == spec_object_bytes(*self));
                }
            },
            Object::AuxiliaryFunctionType1(o) => {
                write_auxiliary_function_type1(&mut out, o);
                proof {
                    assert(out@ == spec_object_bytes(*self));
                }
            },
            Object::AuxiliaryInputType1(o) => {
                write_auxiliary_input_type1(&mut out, o);
                proof {
                    assert(out@ == spec_object_bytes(*self));
                }
            },
            Object::AuxiliaryFunctionType2(o) => {
                write_auxiliary_function_type2(&mut out, o);
                proof {
                    assert(out@ == spec_object_bytes(*self));
                }
            },
            Object::AuxiliaryInputType2(o) => {
                write_auxiliary_input_type2(&mut out, o);
                proof {
                    assert(out@ == spec_object_bytes(*self));
                }
            },
            Object::AuxiliaryControlDesignatorType2(o) => {
                write_auxiliary_control_designator_type2(&mut out, o);
                proof {
                    assert(out@ == spec_object_bytes(*self));
                }
            },
            Object::WindowMask(o) => {
                write_window_mask(&mut out, o);
                proof {
                    assert(out@ == spec_object_bytes(*self));
                }
            },
            Object::KeyGroup(o) => {
                write_key_group(&mut out, o);
                proof {
                    assert(out@ == spec_object_bytes(*self));
                }
            },
            Object::GraphicsContext(o) => {
                write_graphics_context(&mut out, o);
                proof {
                    assert(out@ == spec_object_bytes(*self));
                }
            },
            Object::OutputList(o) => {
                write_output_list(&mut out, o);
                proof {
                    assert(out@ == spec_object_bytes(*self));
                }
            },
            Object::ExtendedInputAttributes(o) => {
                write_extended_input_attributes(&mut out, o);
                proof {
                    assert(out@ == spec_object_bytes(*self));
                }
            },
            Object::ColourMap(o) => {
                write_colour_map(&mut out, o);
                proof {
                    assert(out@ == spec_object_bytes(*self));
                }
            },
            Object::ObjectLabelReferenceList(o) => {
                write_object_label_reference_list(&mut out, o);
                proof {
                    assert(out@ == spec_object_bytes(*self));
                }
            },
            Object::ExternalObjectDefinition(o) => {
                write_external_object_definition(&mut out, o);
                proof {
                    assert(out@ == spec_object_bytes(*self));
                }
            },
            Object::ExternalReferenceName(o) => {
                write_external_reference_name(&mut out, o);
                proof {
                    assert(out@ == spec_object_bytes(*self));
                }
            },
            Object::ExternalObjectPointer(o) => {
                write_external_object_pointer(&mut out, o);
                proof {
                    assert(out@ == spec_object_bytes(*self));
                }
            },
            Object::Animation(o) => {
                write_animation(&mut out, o);
                proof {
                    assert(out@ == spec_object_bytes(*self));
                }
            },
            Object::ColourPalette(o) => {
                write_colour_palette(&mut out, o);
                proof {
                    assert(out@ == spec_object_bytes(*self));
                }
            },
            Object::GraphicData(o) => {
                write_graphic_data(&mut out, o);
                proof {
                    assert(out@ == spec_object_bytes(*self));
                }
            },
            Object::WorkingSetSpecialControls(o) => {
                write_working_set_special_controls(&mut out, o);
                proof {
                    assert(out@ == spec_object_bytes(*self));
                }
            },
            Object::ScalesGraphic(o) => {
                write_scales_graphic(&mut out, o);
                proof {
                    assert(out@ == spec_object_bytes(*self));
                }
            },
        }
        out
    }
}

} // verus!
