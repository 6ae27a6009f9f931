//! CAN frames, 11/29-bit identifiers, and the small driver interface the
//! stack is written against. Concrete drivers perform I/O and live outside
//! this crate; the mock driver used by the tests lives beside it.

use vstd::prelude::*;

verus! {

/// Supported CAN bus bit rates.
#[derive(Debug, PartialEq, Eq, Structural, Clone, Copy)]
pub enum Baudrate {
    Baud1M,
    Baud500K,
    Baud250K,
    Baud125K,
}

/// Errors a CAN driver can report.
#[derive(Debug)]
pub enum CanError {
    Uninitialised,
    NoDriver,
    Overrun,
    Bit,
    Stuff,
    Crc,
    Form,
    Acknowledge,
    Other(String),
}

/// Bus error conditions as a controller reports them.
#[derive(Debug, PartialEq, Eq, Structural)]
pub enum CanbusError {
    Overrun,
    BusLight,
    BusHeavy,
    BusPassive,
    BusOff,
    AnyBusErr,
    Other,
}

/// Standard 11-bit CAN identifier (`0..=0x7FF`).
#[derive(Debug, Copy, Clone, Eq, PartialEq, Structural)]
pub struct StandardId(u32);

impl StandardId {
    pub closed spec fn spec_as_u32(self) -> u32 {
        self.0
    }

    #[verifier::type_invariant]
    closed spec fn inv(self) -> bool {
        self.0 <= 0x7FF
    }

    /// Tries to create a `StandardId` from a raw 32-bit integer; `None` if it
    /// is out of the 11-bit range.
    pub fn new(raw: u32) -> (r: Option<Self>)
        ensures
            raw <= 0x7FF ==> (r matches Some(id) && id.spec_as_u32() == raw),
            raw > 0x7FF ==> r is None,
    {
        if raw <= 0x7FF {
            Some(StandardId(raw))
        } else {
            None
        }
    }

    /// The raw value of this identifier.
    pub fn as_raw(&self) -> (r: u32)
        ensures
            r == self.spec_as_u32(),
            r <= 0x7FF,
    {
        proof {
            use_type_invariant(self);
        }
        self.0
    }
}

/// Extended 29-bit CAN identifier (`0..=0x1FFF_FFFF`).
#[derive(Debug, Copy, Clone, Eq, PartialEq, Structural)]
pub struct ExtendedId(u32);

impl ExtendedId {
    pub closed spec fn spec_as_u32(self) -> u32 {
        self.0
    }

    #[verifier::type_invariant]
    closed spec fn inv(self) -> bool {
        self.0 <= 0x1FFF_FFFF
    }

    /// Tries to create an `ExtendedId` from a raw 32-bit integer; `None` if it
    /// is out of the 29-bit range.
    pub fn new(raw: u32) -> (r: Option<Self>)
        ensures
            raw <= 0x1FFF_FFFF ==> (r matches Some(id) && id.spec_as_u32() == raw),
            raw > 0x1FFF_FFFF ==> r is None,
    {
        if raw <= 0x1FFF_FFFF {
            Some(ExtendedId(raw))
        } else {
            None
        }
    }

    /// The largest extended identifier, `0x1FFF_FFFF`.
    pub fn max_value() -> (r: Self)
        ensures
            r.spec_as_u32() == 0x1FFF_FFFF,
    {
        ExtendedId(0x1FFF_FFFF)
    }

    /// The raw value of this identifier.
    pub fn as_raw(&self) -> (r: u32)
        ensures
            r == self.spec_as_u32(),
            r <= 0x1FFF_FFFF,
    {
        proof {
            use_type_invariant(self);
        }
        self.0
    }

    /// The 11-bit base identifier held in the top bits.
    pub fn standard_id(&self) -> (r: StandardId)
        ensures
            r.spec_as_u32() == self.spec_as_u32() >> 18,
    {
        proof {
            use_type_invariant(self);
            let v = self.0;
            assert(v <= 0x1FFF_FFFF ==> v >> 18 <= 0x7FF) by (bit_vector);
        }
        StandardId(self.0 >> 18)
    }
}

/// A CAN identifier, standard or extended.
#[derive(Debug, Copy, Clone, Eq, PartialEq, Structural)]
pub enum Id {
    Standard(StandardId),
    Extended(ExtendedId),
}

impl Id {
    pub open spec fn spec_as_u32(self) -> u32 {
        match self {
            Id::Standard(id) => id.spec_as_u32(),
            Id::Extended(id) => id.spec_as_u32(),
        }
    }

    pub fn as_raw(&self) -> (r: u32)
        ensures
            r == self.spec_as_u32(),
            r <= 0x1FFF_FFFF,
    {
        match self {
            Id::Standard(id) => id.as_raw(),
            Id::Extended(id) => id.as_raw(),
        }
    }

    /// Classify a raw value: 11-bit values become standard identifiers,
    /// 29-bit values extended ones, and anything larger saturates to the
    /// largest extended identifier.
    pub fn from_raw(raw: u32) -> (r: Id)
        ensures
            raw <= 0x7FF ==> r is Standard && r.spec_as_u32() == raw,
            0x7FF < raw <= 0x1FFF_FFFF ==> r is Extended && r.spec_as_u32() == raw,
            raw > 0x1FFF_FFFF ==> r is Extended && r.spec_as_u32() == 0x1FFF_FFFF,
    {
        if raw <= 0x7FF {
            Id::Standard(StandardId(raw))
        } else if raw <= 0x1FFF_FFFF {
            Id::Extended(ExtendedId(raw))
        } else {
            Id::Extended(ExtendedId(0x1FFF_FFFF))
        }
    }
}

/// One CAN frame: an identifier and at most eight data bytes.
#[derive(Debug)]
pub struct CanFrame {
    id: Id,
    dlc: usize,
    data: Vec<u8>,
}

impl CanFrame {
    pub closed spec fn spec_id(self) -> Id {
        self.id
    }

    pub closed spec fn spec_data(self) -> Seq<u8> {
        self.data@
    }

    #[verifier::type_invariant]
    closed spec fn inv(self) -> bool {
        self.dlc == self.data@.len() && self.dlc <= 8
    }

    /// Build a frame from an identifier and data, truncating the data to the
    /// first eight bytes.
    pub fn new(id: Id, data: &[u8]) -> (r: CanFrame)
        ensures
            r.spec_id() == id,
            r.spec_data() == data@.take(if data@.len() <= 8 { data@.len() as int } else { 8 }),
    {
        let dlc: usize = if data.len() <= 8 { data.len() } else { 8 };
        let mut temp_data: Vec<u8> = Vec::new();
        let mut i: usize = 0;
        while i < dlc
            invariant
                i <= dlc,
                dlc <= 8,
                dlc <= data@.len(),
                temp_data@ =~= data@.take(i as int),
            decreases dlc - i,
        {
            temp_data.push(data[i]);
            i = i + 1;
        }
        CanFrame { id, dlc, data: temp_data }
    }

    /// Whether this frame carries an extended identifier.
    pub fn is_extended(&self) -> (r: bool)
        ensures
            r == (self.spec_id() is Extended),
    {
        match self.id {
            Id::Standard(_) => false,
            Id::Extended(_) => true,
        }
    }

    pub fn id(&self) -> (r: Id)
        ensures
            r == self.spec_id(),
    {
        self.id
    }

    pub fn dlc(&self) -> (r: usize)
        ensures
            r == self.spec_data().len(),
            r <= 8,
    {
        proof {
            use_type_invariant(self);
        }
        self.dlc
    }

    pub fn data(&self) -> (r: &[u8])
        ensures
            r@ == self.spec_data(),
            r@.len() <= 8,
    {
        proof {
            use_type_invariant(self);
        }
        self.data.as_slice()
    }
}

/// The capability a CAN driver offers the stack: open and close the bus and
/// exchange single frames without blocking. Implementations perform I/O and
/// are not verified; nothing is assumed of their behaviour.
pub trait CanDriverTrait {
    fn init(&mut self);

    fn open(&mut self, baudrate: Option<Baudrate>);

    fn close(&mut self);

    fn read(&mut self) -> Option<CanFrame>;

    fn write(&mut self, frame: CanFrame);
}

} // verus!
