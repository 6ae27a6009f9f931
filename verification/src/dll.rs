//! The data-link layer: drains the driver, filters frames for
//! global-or-mine, routes transport frames to the two transport managers,
//! and dispatches outbound messages by size.

use vstd::prelude::*;

use crate::driver::CanDriverTrait;
use crate::etp::ExtendedTransportProtocolManager;
use crate::etp::ETP_MAX_BYTES;
use crate::isobus::IsobusAddress;
use crate::pdu::PDU;
use crate::tp::TransportProtocolManager;
use crate::tp::TP_MAX_BYTES;

verus! {

/// How many frames one call of `process` drains from the driver at most.
pub const MAX_FRAMES_IN_PER_PROCESS: usize = 255;

/// The data-link layer, owning the driver and the two transport managers.
/// A ghost log mirrors every message written to the driver, in order, so
/// contracts can speak of what reached the wire.
pub struct DataLinkLayer<D: CanDriverTrait> {
    can_driver: D,
    tp_manager: TransportProtocolManager,
    etp_manager: ExtendedTransportProtocolManager,
    written: Ghost<Seq<PDU>>,
}

impl<D: CanDriverTrait> DataLinkLayer<D> {
    pub closed spec fn spec_tp(&self) -> TransportProtocolManager {
        self.tp_manager
    }

    /// The messages handed to the driver so far, oldest first; each goes
    /// out as its packed single frame.
    pub closed spec fn spec_written(&self) -> Seq<PDU> {
        self.written@
    }

    pub closed spec fn spec_etp(&self) -> ExtendedTransportProtocolManager {
        self.etp_manager
    }

    pub open spec fn wf(self) -> bool {
        self.spec_tp().wf() && self.spec_etp().wf()
    }

    /// Whether `q` was queued or in flight in either transport manager.
    pub open spec fn spec_was_outbound(self, q: PDU) -> bool {
        TransportProtocolManager::spec_outbound_contains(self.spec_tp(), q)
            || ExtendedTransportProtocolManager::spec_outbound_contains(self.spec_etp(), q)
    }

    /// Take ownership of the driver and open the bus.
    pub fn new(can_driver: D) -> (r: Self)
        ensures
            r.wf(),
            r.spec_tp().spec_is_idle(),
            r.spec_etp().spec_is_idle(),
            r.spec_tp().spec_backlog().len() == 0,
            r.spec_etp().spec_backlog().len() == 0,
            r.spec_written() == Seq::<PDU>::empty(),
    {
        let mut can_driver = can_driver;
        can_driver.init();
        can_driver.open(None);
        DataLinkLayer {
            can_driver,
            tp_manager: TransportProtocolManager::new(),
            etp_manager: ExtendedTransportProtocolManager::new(),
            written: Ghost(Seq::empty()),
        }
    }

    /// Write every pending frame to the driver, in order.
    fn write_all(can_driver: &mut D, frames: &Vec<PDU>) {
        let mut i: usize = 0;
        while i < frames.len()
            decreases frames@.len() - i,
        {
            can_driver.write(frames[i].to_frame());
            i = i + 1;
        }
    }

    /// Send one message, dispatched by payload size: up to eight bytes go
    /// out as exactly one frame, Transport Protocol sizes open or queue a
    /// TP session, Extended Transport Protocol sizes an ETP session, and
    /// anything larger is dropped with nothing written.
    pub fn send(&mut self, pdu: PDU, time: u64)
        requires
            old(self).wf(),
        ensures
            final(self).wf(),
            pdu.spec_data().len() <= 8 ==> final(self).spec_tp() == old(self).spec_tp() && final(self).spec_etp() == old(self).spec_etp() && final(self).spec_written() == old(self).spec_written().push(pdu),
            9 <= pdu.spec_data().len() <= TP_MAX_BYTES ==> {
                &&& final(self).spec_etp() == old(self).spec_etp()
                &&& old(self).spec_tp().spec_is_idle() ==> TransportProtocolManager::spec_opened(
                    final(self).spec_tp(),
                    old(self).spec_tp().spec_backlog(),
                    old(self).spec_written().len() as int,
                    final(self).spec_written(),
                    pdu,
                    time,
                ) && final(self).spec_written().subrange(0, old(self).spec_written().len() as int) == old(self).spec_written()
                &&& !old(self).spec_tp().spec_is_idle() ==> final(self).spec_tp().spec_backlog()
                    == old(self).spec_tp().spec_backlog().push(pdu) && final(self).spec_tp().spec_pdu_to_send() == old(self).spec_tp().spec_pdu_to_send() && final(self).spec_written() == old(self).spec_written()
            },
            TP_MAX_BYTES < pdu.spec_data().len() <= ETP_MAX_BYTES ==> {
                &&& final(self).spec_tp() == old(self).spec_tp()
                &&& old(self).spec_etp().spec_is_idle() ==> ExtendedTransportProtocolManager::spec_opened(
                    final(self).spec_etp(),
                    old(self).spec_etp().spec_backlog(),
                    old(self).spec_written().len() as int,
                    final(self).spec_written(),
                    pdu,
                    time,
                ) && final(self).spec_written().subrange(0, old(self).spec_written().len() as int) == old(self).spec_written()
                &&& !old(self).spec_etp().spec_is_idle() ==> final(self).spec_etp().spec_backlog() == old(self).spec_etp().spec_backlog().push(pdu)
                    && final(self).spec_etp().spec_pdu_to_send() == old(self).spec_etp().spec_pdu_to_send() && final(self).spec_written() == old(self).spec_written()
            },
            pdu.spec_data().len() > ETP_MAX_BYTES ==> final(self).spec_tp() == old(self).spec_tp() && final(self).spec_etp() == old(self).spec_etp() && final(self).spec_written() == old(self).spec_written(),
    {
        let len = pdu.data_len();
        if len <= 8 {
            proof {
                self.written@ = self.written@.push(pdu);
            }
            self.can_driver.write(pdu.to_frame());
        } else if len <= TP_MAX_BYTES {
            let ghost was_idle = self.tp_manager.spec_is_idle();
            let mut outgoing: Vec<PDU> = Vec::new();
            self.tp_manager.send(pdu, time, &mut outgoing);
            proof {
                let w0 = self.written@;
                self.written@ = w0 + outgoing@;
                assert(self.written@.subrange(0, w0.len() as int) =~= w0);
                assert forall|k: int|
                    0 <= k < outgoing@.len() implies #[trigger] self.written@[w0.len() + k]
                    == outgoing@[k] by {}
                if was_idle && !pdu.spec_is_pdu1() {
                    let total = crate::tp::spec_num_packets(pdu.spec_data().len() as int);
                    assert forall|i: int|
                        0 <= i < total implies crate::tp::spec_is_tp_dt_frame(
                        #[trigger] self.written@[w0.len() as int + 1 + i],
                        crate::isobus::ADDRESS_GLOBAL,
                        pdu.spec_sa(),
                        i + 1,
                        crate::tp::spec_chunk(pdu.spec_data(), i),
                    ) by {
                        assert(self.written@[w0.len() + (1 + i)] == outgoing@[1 + i]);
                        assert(w0.len() as int + 1 + i == w0.len() + (1 + i));
                    }
                }
            }
            Self::write_all(&mut self.can_driver, &outgoing);
        } else if len <= ETP_MAX_BYTES {
            let mut outgoing: Vec<PDU> = Vec::new();
            self.etp_manager.send(pdu, time, &mut outgoing);
            proof {
                let w0 = self.written@;
                self.written@ = w0 + outgoing@;
                assert(self.written@.subrange(0, w0.len() as int) =~= w0);
                assert forall|k: int|
                    0 <= k < outgoing@.len() implies #[trigger] self.written@[w0.len() + k]
                    == outgoing@[k] by {}
            }
            Self::write_all(&mut self.can_driver, &outgoing);
        }
    }

    /// Drain up to `MAX_FRAMES_IN_PER_PROCESS` frames from the driver. Each
    /// frame is decoded and dropped unless it is global or addressed to
    /// `claimed_address`; accepted transport frames feed the transport
    /// managers, everything else is handed up as is. When the driver runs
    /// dry the managers tick once more so their deadlines advance.
    ///
    /// Every message handed up either passed the destination filter or is a
    /// message of our own whose transport send completed.
    pub fn process(&mut self, claimed_address: IsobusAddress, time: u64) -> (r: Vec<PDU>)
        requires
            old(self).wf(),
        ensures
            final(self).wf(),
            final(self).spec_written().len() >= old(self).spec_written().len(),
            final(self).spec_written().subrange(0, old(self).spec_written().len() as int) == old(
                self,
            ).spec_written(),
            forall|i: int|
                0 <= i < r@.len() ==> (#[trigger] r@[i]).spec_is_address_global()
                    || r@[i].spec_is_address_specific(claimed_address.0) || old(self).spec_was_outbound(r@[i]),
    {
        let ghost dll0 = *old(self);
        let mut pdus: Vec<PDU> = Vec::new();
        let mut outgoing: Vec<PDU> = Vec::new();
        let mut n: usize = 0;
        while n < MAX_FRAMES_IN_PER_PROCESS
            invariant
                self.spec_tp().wf(),
                self.spec_etp().wf(),
                self.spec_written() == dll0.spec_written(),
                forall|q: PDU|
                    #[trigger] TransportProtocolManager::spec_outbound_contains(
                        self.spec_tp(),
                        q,
                    ) ==> TransportProtocolManager::spec_outbound_contains(dll0.spec_tp(), q),
                forall|q: PDU|
                    #[trigger] ExtendedTransportProtocolManager::spec_outbound_contains(
                        self.spec_etp(),
                        q,
                    ) ==> ExtendedTransportProtocolManager::spec_outbound_contains(
                        dll0.spec_etp(),
                        q,
                    ),
                forall|i: int|
                    0 <= i < pdus@.len() ==> (#[trigger] pdus@[i]).spec_is_address_global()
                        || pdus@[i].spec_is_address_specific(claimed_address.0)
                        || dll0.spec_was_outbound(pdus@[i]),
            decreases MAX_FRAMES_IN_PER_PROCESS - n,
        {
            let frame = match self.can_driver.read() {
                Some(value) => value,
                None => {
                    let ghost tp_pre = self.tp_manager;
                    let res = self.tp_manager.process(claimed_address, None, time, &mut outgoing);
                    let ghost etp_pre = self.etp_manager;
                    let res2 = self.etp_manager.process(
                        claimed_address,
                        None,
                        time,
                        &mut outgoing,
                    );
                    proof {
                        assert forall|q: PDU|
                            #[trigger] TransportProtocolManager::spec_outbound_contains(
                                self.spec_tp(),
                                q,
                            ) implies TransportProtocolManager::spec_outbound_contains(
                            dll0.spec_tp(),
                            q,
                        ) by {
                            assert(TransportProtocolManager::spec_outbound_contains(tp_pre, q));
                        }
                        assert forall|q: PDU|
                            #[trigger] ExtendedTransportProtocolManager::spec_outbound_contains(
                                self.spec_etp(),
                                q,
                            ) implies ExtendedTransportProtocolManager::spec_outbound_contains(
                            dll0.spec_etp(),
                            q,
                        ) by {
                            assert(ExtendedTransportProtocolManager::spec_outbound_contains(
                                etp_pre,
                                q,
                            ));
                        }
                    }
                    break ;
                },
            };
            let pdu = PDU::from_frame(&frame);
            if !pdu.is_address_global() && !pdu.is_address_specific(claimed_address) {
                n = n + 1;
                continue ;
            }
            if pdu.is_tp_connection_management() || pdu.is_tp_data_transfer() {
                let ghost tp_pre = self.tp_manager;
                let ghost n0 = outgoing@.len() as int;
                let ghost pdu_g = pdu;
                let res = self.tp_manager.process(
                    claimed_address,
                    Some(pdu),
                    time,
                    &mut outgoing,
                );
                proof {
                    let fired = tp_pre.spec_is_connected() && time > tp_pre.spec_timeout_time();
                    TransportProtocolManager::lemma_frame_step_outbound(
                        if fired {
                            Option::<PDU>::None
                        } else {
                            tp_pre.spec_pdu_to_send()
                        },
                        if fired {
                            Option::<crate::pgn::PGN>::None
                        } else {
                            tp_pre.spec_receive_pgn()
                        },
                        if fired {
                            0u8
                        } else {
                            tp_pre.spec_receive_total()
                        },
                        if fired {
                            Seq::<u8>::empty()
                        } else {
                            tp_pre.spec_receive_buffer()
                        },
                        tp_pre.spec_backlog(),
                        if fired {
                            u64::MAX
                        } else {
                            tp_pre.spec_timeout_time()
                        },
                        self.tp_manager,
                        if fired {
                            n0 + 1
                        } else {
                            n0
                        },
                        outgoing@,
                        pdu_g,
                        claimed_address.0,
                        time,
                        res,
                    );
                }
                proof {
                    assert forall|q: PDU|
                        #[trigger] TransportProtocolManager::spec_outbound_contains(
                            self.spec_tp(),
                            q,
                        ) implies TransportProtocolManager::spec_outbound_contains(
                        dll0.spec_tp(),
                        q,
                    ) by {
                        assert(TransportProtocolManager::spec_outbound_contains(tp_pre, q));
                    }
                    if res is Some {
                        let q = res->Some_0;
                        if !(q.spec_is_address_global() || q.spec_is_address_specific(
                            claimed_address.0,
                        )) {
                            assert(TransportProtocolManager::spec_outbound_contains(tp_pre, q));
                        }
                    }
                }
                if let Some(q) = res {
                    pdus.push(q);
                }
                n = n + 1;
                continue ;
            }
            if pdu.is_etp_connection_management() || pdu.is_etp_data_transfer() {
                let ghost etp_pre = self.etp_manager;
                let ghost n0 = outgoing@.len() as int;
                let ghost pdu_g = pdu;
                let res = self.etp_manager.process(
                    claimed_address,
                    Some(pdu),
                    time,
                    &mut outgoing,
                );
                proof {
                    let fired = etp_pre.spec_is_sending() && time > etp_pre.spec_timeout_time();
                    ExtendedTransportProtocolManager::lemma_frame_step_outbound(
                        if fired {
                            Option::<PDU>::None
                        } else {
                            etp_pre.spec_pdu_to_send()
                        },
                        etp_pre.spec_backlog(),
                        if fired {
                            u64::MAX
                        } else {
                            etp_pre.spec_timeout_time()
                        },
                        self.etp_manager,
                        if fired {
                            n0 + 1
                        } else {
                            n0
                        },
                        outgoing@,
                        pdu_g,
                        claimed_address.0,
                        time,
                        res,
                    );
                }
                proof {
                    assert forall|q: PDU|
                        #[trigger] ExtendedTransportProtocolManager::spec_outbound_contains(
                            self.spec_etp(),
                            q,
                        ) implies ExtendedTransportProtocolManager::spec_outbound_contains(
                        dll0.spec_etp(),
                        q,
                    ) by {
                        assert(ExtendedTransportProtocolManager::spec_outbound_contains(
                            etp_pre,
                            q,
                        ));
                    }
                    if res is Some {
                        assert(ExtendedTransportProtocolManager::spec_outbound_contains(
                            etp_pre,
                            res->Some_0,
                        ));
                    }
                }
                if let Some(q) = res {
                    pdus.push(q);
                }
                n = n + 1;
                continue ;
            }
            pdus.push(pdu);
            n = n + 1;
        }
        proof {
            let w0 = self.written@;
            self.written@ = w0 + outgoing@;
            assert(self.written@.subrange(0, w0.len() as int) =~= w0);
        }
        Self::write_all(&mut self.can_driver, &outgoing);
        pdus
    }
}

} // verus!
