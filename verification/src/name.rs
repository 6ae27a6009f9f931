//! The 64-bit node identity ("Name") used for address claiming; lower
//! numeric values win arbitration. On the wire it travels as eight
//! little-endian bytes.

use vstd::prelude::*;

verus! {

/// The 64-bit Name value packed from its nine fields, each masked to its
/// width: 1 bit self-configurable, 3 bits industry group, 4 bits device
/// class instance, 7 bits device class, 8 bits function, 5 bits function
/// instance, 3 bits ECU instance, 11 bits manufacturer code and 21 bits
/// identity number, from the most significant bit down.
pub open spec fn spec_name_value(
    sc: bool,
    ig: u8,
    dci: u8,
    dc: u8,
    f: u8,
    fi: u8,
    ecu: u8,
    mc: u16,
    idn: u32,
) -> u64 {
    (if sc { 1u64 } else { 0u64 }) << 63 | ((ig & 0x7) as u64) << 60 | ((dci & 0xF) as u64)
        << 56 | ((dc & 0x7F) as u64) << 49 | ((f & 0xFF) as u64) << 40 | ((fi & 0x1F) as u64)
        << 35 | ((ecu & 0x7) as u64) << 32 | ((mc & 0x7FF) as u64) << 21 | (idn
        & 0x1FFFFF) as u64
}

/// A 64-bit value assembled from eight little-endian bytes.
pub open spec fn spec_le_u64(
    b0: u8,
    b1: u8,
    b2: u8,
    b3: u8,
    b4: u8,
    b5: u8,
    b6: u8,
    b7: u8,
) -> u64 {
    (b0 as u64) | (b1 as u64) << 8 | (b2 as u64) << 16 | (b3 as u64) << 24 | (b4 as u64) << 32
        | (b5 as u64) << 40 | (b6 as u64) << 48 | (b7 as u64) << 56
}

/// The eight little-endian bytes of a 64-bit value.
pub open spec fn spec_le_bytes(v: u64) -> Seq<u8> {
    seq![
        (v & 0xFF) as u8,
        ((v >> 8) & 0xFF) as u8,
        ((v >> 16) & 0xFF) as u8,
        ((v >> 24) & 0xFF) as u8,
        ((v >> 32) & 0xFF) as u8,
        ((v >> 40) & 0xFF) as u8,
        ((v >> 48) & 0xFF) as u8,
        ((v >> 56) & 0xFF) as u8,
    ]
}

/// The byte a slice holds at `i`, or zero past its end.
pub open spec fn spec_byte_or_zero(s: Seq<u8>, i: int) -> u8 {
    if i < s.len() {
        s[i]
    } else {
        0u8
    }
}

/// A 64-bit node identity.
#[derive(Clone, Copy, Default, PartialEq, Eq, Structural, Debug)]
pub struct Name {
    value: u64,
}

/// The Name holding the raw value `v`.
pub closed spec fn spec_name_of(v: u64) -> Name {
    Name { value: v }
}

/// `spec_name_of` and `spec_value` invert each other.
pub proof fn lemma_name_of(v: u64)
    ensures
        spec_name_of(v).spec_value() == v,
{
}

/// A Name is determined by its raw value.
pub proof fn lemma_name_eq(n: Name, v: u64)
    requires
        n.spec_value() == v,
    ensures
        n == spec_name_of(v),
{
}

impl Name {
    pub closed spec fn spec_value(self) -> u64 {
        self.value
    }

    pub fn builder() -> (r: NameBuilder)
        ensures
            r == NameBuilder::spec_default(),
    {
        NameBuilder::new()
    }

    pub fn has_self_configurable_address(&self) -> (r: bool)
        ensures
            r == (self.spec_value() >> 63 != 0),
    {
        self.value >> 63 != 0
    }

    pub fn industry_group(&self) -> (r: u8)
        ensures
            r == (self.spec_value() >> 60 & 0x7) as u8,
    {
        (self.value >> 60 & 0x7) as u8
    }

    pub fn device_class_instance(&self) -> (r: u8)
        ensures
            r == (self.spec_value() >> 56 & 0xF) as u8,
    {
        (self.value >> 56 & 0xF) as u8
    }

    pub fn device_class(&self) -> (r: u8)
        ensures
            r == (self.spec_value() >> 49 & 0x7F) as u8,
    {
        (self.value >> 49 & 0x7F) as u8
    }

    pub fn function(&self) -> (r: u8)
        ensures
            r == (self.spec_value() >> 40 & 0xFF) as u8,
    {
        (self.value >> 40 & 0xFF) as u8
    }

    pub fn function_instance(&self) -> (r: u8)
        ensures
            r == (self.spec_value() >> 35 & 0x1F) as u8,
    {
        (self.value >> 35 & 0x1F) as u8
    }

    pub fn ecu_instance(&self) -> (r: u8)
        ensures
            r == (self.spec_value() >> 32 & 0x7) as u8,
    {
        (self.value >> 32 & 0x7) as u8
    }

    pub fn manufacturer_code(&self) -> (r: u16)
        ensures
            r == (self.spec_value() >> 21 & 0x7FF) as u16,
    {
        (self.value >> 21 & 0x7FF) as u16
    }

    pub fn identity_number(&self) -> (r: u32)
        ensures
            r == (self.spec_value() & 0x1FFFFF) as u32,
    {
        (self.value & 0x1FFFFF) as u32
    }

    /// The raw 64-bit value.
    pub fn as_u64(&self) -> (r: u64)
        ensures
            r == self.spec_value(),
    {
        self.value
    }

    /// The eight little-endian wire bytes.
    pub fn as_vec(&self) -> (r: Vec<u8>)
        ensures
            r@ == spec_le_bytes(self.spec_value()),
    {
        let v = self.value;
        let r: Vec<u8> = vec![
            (v & 0xFF) as u8,
            ((v >> 8) & 0xFF) as u8,
            ((v >> 16) & 0xFF) as u8,
            ((v >> 24) & 0xFF) as u8,
            ((v >> 32) & 0xFF) as u8,
            ((v >> 40) & 0xFF) as u8,
            ((v >> 48) & 0xFF) as u8,
            ((v >> 56) & 0xFF) as u8,
        ];
        proof {
            assert(r@ =~= spec_le_bytes(self.spec_value()));
        }
        r
    }

    /// Decode a Name from up to eight little-endian bytes; missing bytes
    /// count as zero and extra bytes are ignored.
    pub fn from_bytes(bytes: &[u8]) -> (r: Name)
        ensures
            r.spec_value() == spec_le_u64(
                spec_byte_or_zero(bytes@, 0),
                spec_byte_or_zero(bytes@, 1),
                spec_byte_or_zero(bytes@, 2),
                spec_byte_or_zero(bytes@, 3),
                spec_byte_or_zero(bytes@, 4),
                spec_byte_or_zero(bytes@, 5),
                spec_byte_or_zero(bytes@, 6),
                spec_byte_or_zero(bytes@, 7),
            ),
    {
        let b0 = if bytes.len() > 0 { bytes[0] } else { 0 };
        let b1 = if bytes.len() > 1 { bytes[1] } else { 0 };
        let b2 = if bytes.len() > 2 { bytes[2] } else { 0 };
        let b3 = if bytes.len() > 3 { bytes[3] } else { 0 };
        let b4 = if bytes.len() > 4 { bytes[4] } else { 0 };
        let b5 = if bytes.len() > 5 { bytes[5] } else { 0 };
        let b6 = if bytes.len() > 6 { bytes[6] } else { 0 };
        let b7 = if bytes.len() > 7 { bytes[7] } else { 0 };
        Name {
            value: (b0 as u64) | (b1 as u64) << 8 | (b2 as u64) << 16 | (b3 as u64) << 24 | (
            b4 as u64) << 32 | (b5 as u64) << 40 | (b6 as u64) << 48 | (b7 as u64) << 56,
        }
    }
}

impl From<u64> for Name {
    fn from(value: u64) -> (r: Name) {
        Name { value }
    }
}

impl vstd::std_specs::convert::FromSpecImpl<u64> for Name {
    open spec fn obeys_from_spec() -> bool {
        true
    }

    closed spec fn from_spec(value: u64) -> Name {
        Name { value }
    }
}

/// What `Name::from` means: the raw 64-bit value is taken as is.
pub proof fn lemma_name_from_u64(v: u64)
    ensures
        <Name as vstd::std_specs::convert::FromSpec<u64>>::from_spec(v).spec_value() == v,
{
}

impl From<Name> for u64 {
    fn from(name: Name) -> (r: u64) {
        name.value
    }
}

impl vstd::std_specs::convert::FromSpecImpl<Name> for u64 {
    open spec fn obeys_from_spec() -> bool {
        true
    }

    open spec fn from_spec(name: Name) -> u64 {
        name.spec_value()
    }
}

/// The builder gathers the nine Name fields; `build` packs them.
#[derive(Clone, Copy, PartialEq, Eq, Structural, Default)]
pub struct NameBuilder {
    pub has_self_configurable_address: bool,
    pub industry_group: u8,
    pub device_class_instance: u8,
    pub device_class: u8,
    pub function: u8,
    pub function_instance: u8,
    pub ecu_instance: u8,
    pub manufacturer_code: u16,
    pub identity_number: u32,
}

impl NameBuilder {
    pub open spec fn spec_default() -> NameBuilder {
        NameBuilder {
            has_self_configurable_address: false,
            industry_group: 0,
            device_class_instance: 0,
            device_class: 0,
            function: 0,
            function_instance: 0,
            ecu_instance: 0,
            manufacturer_code: 0,
            identity_number: 0,
        }
    }

    pub fn new() -> (r: NameBuilder)
        ensures
            r == NameBuilder::spec_default(),
    {
        NameBuilder {
            has_self_configurable_address: false,
            industry_group: 0,
            device_class_instance: 0,
            device_class: 0,
            function: 0,
            function_instance: 0,
            ecu_instance: 0,
            manufacturer_code: 0,
            identity_number: 0,
        }
    }

    /// Pack the gathered fields into a Name, masking each to its bit width.
    pub fn build(&self) -> (r: Name)
        ensures
            r.spec_value() == spec_name_value(
                self.has_self_configurable_address,
                self.industry_group,
                self.device_class_instance,
                self.device_class,
                self.function,
                self.function_instance,
                self.ecu_instance,
                self.manufacturer_code,
                self.identity_number,
            ),
    {
        Name {
            value: (if self.has_self_configurable_address {
                1u64
            } else {
                0u64
            }) << 63 | ((self.industry_group & 0x7) as u64) << 60 | ((self.device_class_instance
                & 0xF) as u64) << 56 | ((self.device_class & 0x7F) as u64) << 49 | ((self.function
                & 0xFF) as u64) << 40 | ((self.function_instance & 0x1F) as u64) << 35 | ((
            self.ecu_instance & 0x7) as u64) << 32 | ((self.manufacturer_code & 0x7FF) as u64)
                << 21 | (self.identity_number & 0x1FFFFF) as u64,
        }
    }

    pub fn has_self_configurable_address(self, value: bool) -> (r: NameBuilder)
        ensures
            r == (NameBuilder { has_self_configurable_address: value, ..self }),
    {
        NameBuilder { has_self_configurable_address: value, ..self }
    }

    pub fn industry_group(self, value: u8) -> (r: NameBuilder)
        ensures
            r == (NameBuilder { industry_group: value, ..self }),
    {
        NameBuilder { industry_group: value, ..self }
    }

    pub fn device_class_instance(self, value: u8) -> (r: NameBuilder)
        ensures
            r == (NameBuilder { device_class_instance: value, ..self }),
    {
        NameBuilder { device_class_instance: value, ..self }
    }

    pub fn device_class(self, value: u8) -> (r: NameBuilder)
        ensures
            r == (NameBuilder { device_class: value, ..self }),
    {
        NameBuilder { device_class: value, ..self }
    }

    pub fn function(self, value: u8) -> (r: NameBuilder)
        ensures
            r == (NameBuilder { function: value, ..self }),
    {
        NameBuilder { function: value, ..self }
    }

    pub fn function_instance(self, value: u8) -> (r: NameBuilder)
        ensures
            r == (NameBuilder { function_instance: value, ..self }),
    {
        NameBuilder { function_instance: value, ..self }
    }

    pub fn ecu_instance(self, value: u8) -> (r: NameBuilder)
        ensures
            r == (NameBuilder { ecu_instance: value, ..self }),
    {
        NameBuilder { ecu_instance: value, ..self }
    }

    pub fn manufacturer_code(self, value: u16) -> (r: NameBuilder)
        ensures
            r == (NameBuilder { manufacturer_code: value, ..self }),
    {
        NameBuilder { manufacturer_code: value, ..self }
    }

    pub fn identity_number(self, value: u32) -> (r: NameBuilder)
        ensures
            r == (NameBuilder { identity_number: value, ..self }),
    {
        NameBuilder { identity_number: value, ..self }
    }
}

/// Packing the nine Name fields and reading them back loses no bits: for
/// every field within its legal range, the field extracted from the packed
/// 64-bit value equals the field that went in.
pub proof fn lemma_name_bit_packing(
    sc: bool,
    ig: u8,
    dci: u8,
    dc: u8,
    f: u8,
    fi: u8,
    ecu: u8,
    mc: u16,
    idn: u32,
)
    requires
        ig < 0x8,
        dci < 0x10,
        dc < 0x80,
        fi < 0x20,
        ecu < 0x8,
        mc < 0x800,
        idn < 0x200000,
    ensures
        (spec_name_value(sc, ig, dci, dc, f, fi, ecu, mc, idn) >> 63 != 0) == sc,
        (spec_name_value(sc, ig, dci, dc, f, fi, ecu, mc, idn) >> 60 & 0x7) as u8 == ig,
        (spec_name_value(sc, ig, dci, dc, f, fi, ecu, mc, idn) >> 56 & 0xF) as u8 == dci,
        (spec_name_value(sc, ig, dci, dc, f, fi, ecu, mc, idn) >> 49 & 0x7F) as u8 == dc,
        (spec_name_value(sc, ig, dci, dc, f, fi, ecu, mc, idn) >> 40 & 0xFF) as u8 == f,
        (spec_name_value(sc, ig, dci, dc, f, fi, ecu, mc, idn) >> 35 & 0x1F) as u8 == fi,
        (spec_name_value(sc, ig, dci, dc, f, fi, ecu, mc, idn) >> 32 & 0x7) as u8 == ecu,
        (spec_name_value(sc, ig, dci, dc, f, fi, ecu, mc, idn) >> 21 & 0x7FF) as u16 == mc,
        (spec_name_value(sc, ig, dci, dc, f, fi, ecu, mc, idn) & 0x1FFFFF) as u32 == idn,
{
    let b: u64 = if sc {
        1u64
    } else {
        0u64
    };
    assert(b <= 1 && ig < 0x8 && dci < 0x10 && dc < 0x80 && fi < 0x20 && ecu < 0x8 && mc < 0x800
        && idn < 0x200000 ==> {
        let v = b << 63 | ((ig & 0x7) as u64) << 60 | ((dci & 0xF) as u64) << 56 | ((dc
            & 0x7F) as u64) << 49 | ((f & 0xFF) as u64) << 40 | ((fi & 0x1F) as u64) << 35 | ((ecu
            & 0x7) as u64) << 32 | ((mc & 0x7FF) as u64) << 21 | (idn & 0x1FFFFF) as u64;
        &&& (v >> 63 != 0) == (b == 1)
        &&& (v >> 60 & 0x7) as u8 == ig
        &&& (v >> 56 & 0xF) as u8 == dci
        &&& (v >> 49 & 0x7F) as u8 == dc
        &&& (v >> 40 & 0xFF) as u8 == f
        &&& (v >> 35 & 0x1F) as u8 == fi
        &&& (v >> 32 & 0x7) as u8 == ecu
        &&& (v >> 21 & 0x7FF) as u16 == mc
        &&& (v & 0x1FFFFF) as u32 == idn
    }) by (bit_vector);
}

/// The eight-byte little-endian encoding of a Name round-trips: decoding the
/// encoded bytes restores the 64-bit value exactly.
pub proof fn lemma_name_le_round_trip(v: u64)
    ensures
        spec_le_u64(
            spec_le_bytes(v)[0],
            spec_le_bytes(v)[1],
            spec_le_bytes(v)[2],
            spec_le_bytes(v)[3],
            spec_le_bytes(v)[4],
            spec_le_bytes(v)[5],
            spec_le_bytes(v)[6],
            spec_le_bytes(v)[7],
        ) == v,
{
    assert(((v & 0xFF) as u8) as u64 | (((v >> 8) & 0xFF) as u8 as u64) << 8 | (((v >> 16)
        & 0xFF) as u8 as u64) << 16 | (((v >> 24) & 0xFF) as u8 as u64) << 24 | (((v >> 32)
        & 0xFF) as u8 as u64) << 32 | (((v >> 40) & 0xFF) as u8 as u64) << 40 | (((v >> 48)
        & 0xFF) as u8 as u64) << 48 | (((v >> 56) & 0xFF) as u8 as u64) << 56 == v)
        by (bit_vector);
}

} // verus!
