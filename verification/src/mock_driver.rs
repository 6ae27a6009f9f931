//! A driver that touches no hardware: reads come from a queue the host
//! fills, writes land in a queue the host drains. The tests run the whole
//! stack against it.

use vstd::prelude::*;

use crate::driver::Baudrate;
use crate::driver::CanDriverTrait;
use crate::driver::CanFrame;
use std::collections::VecDeque;

verus! {

/// The in-memory CAN driver.
pub struct MockCanDriver {
    inbound: VecDeque<CanFrame>,
    outbound: Vec<CanFrame>,
}

impl MockCanDriver {
    pub closed spec fn spec_inbound(&self) -> Seq<CanFrame> {
        self.inbound@
    }

    pub closed spec fn spec_outbound(&self) -> Seq<CanFrame> {
        self.outbound@
    }

    pub fn new(_bus_id: u8) -> (r: Self)
        ensures
            r.spec_inbound().len() == 0,
            r.spec_outbound().len() == 0,
    {
        MockCanDriver { inbound: VecDeque::new(), outbound: Vec::new() }
    }

    /// Queue a frame for the stack to read on a later tick.
    pub fn push_inbound(&mut self, frame: CanFrame)
        ensures
            final(self).spec_inbound() == old(self).spec_inbound().push(frame),
            final(self).spec_outbound() == old(self).spec_outbound(),
    {
        self.inbound.push_back(frame);
    }

    /// Hand over everything the stack has written so far.
    pub fn take_outbound(&mut self) -> (r: Vec<CanFrame>)
        ensures
            r@ == old(self).spec_outbound(),
            final(self).spec_outbound().len() == 0,
            final(self).spec_inbound() == old(self).spec_inbound(),
    {
        let r = self.outbound.split_off(0);
        proof {
            assert(r@ =~= old(self).spec_outbound());
        }
        r
    }
}

impl CanDriverTrait for MockCanDriver {
    fn init(&mut self) {
    }

    fn open(&mut self, _baudrate: Option<Baudrate>) {
    }

    fn close(&mut self) {
    }

    fn read(&mut self) -> Option<CanFrame> {
        self.inbound.pop_front()
    }

    fn write(&mut self, frame: CanFrame) {
        self.outbound.push(frame);
    }
}

} // verus!
