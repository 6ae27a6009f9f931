//! A terminal-side node: claims the conventional in-cab terminal address
//! and runs the bus; pool serving beyond that is outside the core.

use vstd::prelude::*;

use crate::driver::CanDriverTrait;
use crate::isobus::Isobus;
use crate::isobus::IsobusAddress;
use crate::name::Name;
use crate::object_pool::ObjectPool;

verus! {

/// A virtual-terminal node.
pub struct VirtualTerminal<D: CanDriverTrait> {
    isobus: Isobus<D>,
    object_pool: Option<ObjectPool>,
}

impl<D: CanDriverTrait> VirtualTerminal<D> {
    pub closed spec fn spec_isobus(&self) -> Isobus<D> {
        self.isobus
    }

    pub open spec fn wf(self) -> bool {
        self.spec_isobus().wf()
    }

    /// Build a terminal node around a driver, with the terminal's fixed
    /// identity and preferred address.
    pub fn new(driver: D) -> (r: Self)
        ensures
            r.wf(),
    {
        let name = Name::builder()
            .has_self_configurable_address(false)
            .industry_group(2)
            .function(29)
            .manufacturer_code(519)
            .build();
        let isobus = Isobus::<D>::builder().name(name).address_to_claim(
            IsobusAddress(38),
        ).build(driver);
        VirtualTerminal { isobus, object_pool: None }
    }

    /// One tick of the bus.
    pub fn process(&mut self, time: u64)
        requires
            old(self).wf(),
        ensures
            final(self).wf(),
    {
        self.isobus.process(time);
    }

    /// The pool a working set has transferred, once one has.
    pub fn active_object_pool(&self) -> (r: Option<&ObjectPool>)
        ensures
            r is Some <==> self.spec_pool() is Some,
    {
        self.object_pool.as_ref()
    }

    pub closed spec fn spec_pool(&self) -> Option<ObjectPool> {
        self.object_pool
    }
}

} // verus!
