//! The working set: registers with the virtual terminal through the
//! twelve-state handshake, transfers the object pool, keeps the maintenance
//! heartbeat, and turns terminal messages into application events.

use vstd::prelude::*;

use crate::driver::CanDriverTrait;
use crate::events::EventType;
use crate::isobus::Isobus;
use crate::isobus::IsobusAddress;
use crate::isobus::ADDRESS_NULL;
use crate::language::LanguageSettings;
use crate::name::Name;
use crate::network::spec_has_name;
use crate::network::spec_lookup;
use crate::object_pool::ObjectPool;
use crate::pdu::spec_padded_byte;
use crate::pdu::PDU;
use crate::pgn::PGN_ECU_TO_VT;
use crate::pgn::PGN_LANGUAGE_COMMAND;
use crate::pgn::PGN_REQUEST;
use crate::pgn::PGN_TIME_DATE;
use crate::pgn::PGN_VT_TO_ECU;
use crate::pgn::PGN_WORKING_SET_MASTER;
use crate::time::deadline;
use crate::time::spec_deadline;
use crate::vt_messages::spec_byte_or_ff;
use crate::vt_messages::spec_lo;
use crate::vt_messages::spec_hi;
use crate::vt_messages::spec_u16_of;
use crate::vt_messages::spec_u32_b;
use crate::vt_messages::spec_u32_of;
use crate::vt_messages::spec_vt_string_len;
use crate::vt_messages::ButtonActivationMessage;
use crate::vt_messages::ChangeActiveMaskCommand;
use crate::vt_messages::ChangeNumericValueCommand;
use crate::vt_messages::ChangeStringValueCommand;
use crate::vt_messages::KeyActivationCode;
use crate::vt_messages::SoftKeyActivationMessage;
use crate::vt_messages::VTChangeNumericValueCommand;
use crate::vt_messages::VTChangeStringValueCommand;
use crate::vt_messages::VTStatusMessage;
use crate::vt_messages::VTVersion;
use crate::vt_messages::WorkingSetMaintenanceMessage;
use crate::vt_messages::VT_FN_BUTTON_ACTIVATION;
use crate::vt_messages::VT_FN_END_OF_OBJECT_POOL;
use crate::vt_messages::VT_FN_GET_HARDWARE;
use crate::vt_messages::VT_FN_GET_MEMORY;
use crate::vt_messages::VT_FN_GET_NUMBER_OF_SOFTKEYS;
use crate::vt_messages::VT_FN_GET_TEXT_FONT_DATA;
use crate::vt_messages::VT_FN_GET_VERSIONS_MESSAGE;
use crate::vt_messages::VT_FN_GET_VERSIONS_RESPONSE;
use crate::vt_messages::VT_FN_OBJECT_POOL_TRANSFER;
use crate::vt_messages::VT_FN_SOFT_KEY_ACTIVATION;
use crate::vt_messages::VT_FN_VT_CHANGE_NUMERIC_VALUE;
use crate::vt_messages::VT_FN_VT_CHANGE_STRING_VALUE;
use crate::vt_messages::VT_FN_VT_STATUS;
use crate::vt_messages::VT_FN_WORKING_SET_MAINTENANCE;
use crate::vt_messages::WS_MAINTENANCE_INITIATING;
use std::collections::VecDeque;

verus! {

/// Milliseconds between two working-set maintenance messages.
pub const WS_MAINTENANCE_PERIOD: u64 = 1000;

/// The states of the working set's registration with the terminal, in the
/// order the handshake passes through them.
#[derive(Debug, Clone, Copy, PartialEq, Eq, Structural)]
pub enum WsState {
    Idle,
    RequestedLanguageCommand,
    RequestedGetHardwareResponse,
    RequestedGetNumberOfSoftkeysResponse,
    RequestedGetTextFontDataResponse,
    RequestedGetVersionsResponse,
    RequestedTimeDate,
    RequestedVTVersion,
    RequestedMemory,
    SendingObjectPool,
    ObjectPoolSend,
    Connected,
}

/// Whether one received message starts the handshake: the terminal's status
/// message seen while idle, with no terminal stored yet and the address
/// claim complete.
pub open spec fn spec_ws_starts(st: WsState, vt: u8, connected: bool, p: PDU) -> bool {
    &&& p.spec_pgn() == PGN_VT_TO_ECU
    &&& spec_padded_byte(p, 0) == VT_FN_VT_STATUS
    &&& st is Idle
    &&& vt == ADDRESS_NULL
    &&& connected
}

/// The registration state after one received message: the handshake starts
/// on a status message while idle and then advances exactly one step per
/// matched response; everything else leaves the state alone.
pub open spec fn spec_ws_step_state(st: WsState, vt: u8, connected: bool, p: PDU) -> WsState {
    let b0 = spec_padded_byte(p, 0);
    let from_vt = p.spec_pgn() == PGN_VT_TO_ECU;
    let to_vt = p.spec_pgn() == PGN_ECU_TO_VT;
    if from_vt && b0 == VT_FN_VT_STATUS && st is Idle {
        if vt == ADDRESS_NULL && connected {
            WsState::RequestedLanguageCommand
        } else {
            st
        }
    } else if p.spec_pgn() == PGN_LANGUAGE_COMMAND && st is RequestedLanguageCommand {
        WsState::RequestedGetHardwareResponse
    } else if from_vt && b0 == VT_FN_GET_HARDWARE && st is RequestedGetHardwareResponse {
        WsState::RequestedGetNumberOfSoftkeysResponse
    } else if from_vt && b0 == VT_FN_GET_NUMBER_OF_SOFTKEYS && st
        is RequestedGetNumberOfSoftkeysResponse {
        WsState::RequestedGetTextFontDataResponse
    } else if from_vt && b0 == VT_FN_GET_TEXT_FONT_DATA && st is RequestedGetTextFontDataResponse {
        WsState::RequestedGetVersionsResponse
    } else if from_vt && b0 == VT_FN_GET_VERSIONS_RESPONSE && st is RequestedGetVersionsResponse {
        WsState::RequestedTimeDate
    } else if p.spec_pgn() == PGN_TIME_DATE && st is RequestedTimeDate {
        WsState::RequestedVTVersion
    } else if from_vt && b0 == VT_FN_GET_MEMORY && st is RequestedVTVersion {
        WsState::RequestedMemory
    } else if from_vt && b0 == VT_FN_GET_MEMORY && st is RequestedMemory {
        WsState::SendingObjectPool
    } else if to_vt && b0 == VT_FN_OBJECT_POOL_TRANSFER && st is SendingObjectPool {
        WsState::ObjectPoolSend
    } else if from_vt && b0 == VT_FN_END_OF_OBJECT_POOL && st is ObjectPoolSend {
        WsState::Connected
    } else {
        st
    }
}

/// The stored terminal address after one received message: recorded from
/// the status message that starts the handshake, otherwise kept.
pub open spec fn spec_ws_step_vt(st: WsState, vt: u8, connected: bool, p: PDU) -> u8 {
    if spec_ws_starts(st, vt, connected, p) {
        p.spec_sa()
    } else {
        vt
    }
}

/// How one terminal message received while connected changes the event
/// queue: each message kind appends its event, decoded from the payload
/// bytes, and everything else leaves the queue alone.
pub open spec fn spec_connected_events(
    pre: Seq<EventType>,
    post: Seq<EventType>,
    p: PDU,
    claimed: u8,
) -> bool {
    let d = p.spec_data();
    let b0 = spec_byte_or_ff(d, 0);
    let from_vt = p.spec_pgn() == PGN_VT_TO_ECU;
    if from_vt && b0 == VT_FN_VT_STATUS {
        post == pre.push(
            if spec_byte_or_ff(d, 1) == claimed {
                EventType::OnActivate
            } else {
                EventType::OnDeactivate
            },
        )
    } else if from_vt && b0 == VT_FN_SOFT_KEY_ACTIVATION {
        let code = spec_byte_or_ff(d, 1);
        let id = crate::objects::ObjectId(spec_u16_of(spec_byte_or_ff(d, 2), spec_byte_or_ff(d, 3)));
        let parent = crate::objects::ObjectId(
            spec_u16_of(spec_byte_or_ff(d, 4), spec_byte_or_ff(d, 5)),
        );
        let key = spec_byte_or_ff(d, 6);
        if code == 0 {
            post == pre.push(EventType::SoftKeyReleased(id, parent, key))
        } else if code == 1 {
            post == pre.push(EventType::SoftKeyPressed(id, parent, key))
        } else if code == 2 {
            post == pre.push(EventType::SoftKeyHeld(id, parent, key))
        } else {
            post == pre
        }
    } else if from_vt && b0 == VT_FN_BUTTON_ACTIVATION {
        let code = spec_byte_or_ff(d, 1);
        let id = crate::objects::ObjectId(spec_u16_of(spec_byte_or_ff(d, 2), spec_byte_or_ff(d, 3)));
        let parent = crate::objects::ObjectId(
            spec_u16_of(spec_byte_or_ff(d, 4), spec_byte_or_ff(d, 5)),
        );
        let key = spec_byte_or_ff(d, 6);
        if code == 0 {
            post == pre.push(EventType::ButtonReleased(id, parent, key))
        } else if code == 1 {
            post == pre.push(EventType::ButtonPressed(id, parent, key))
        } else if code == 2 {
            post == pre.push(EventType::ButtonHeld(id, parent, key))
        } else {
            post == pre
        }
    } else if from_vt && b0 == VT_FN_VT_CHANGE_NUMERIC_VALUE {
        post == pre.push(
            EventType::NumericValueChanged(
                crate::objects::ObjectId(
                    spec_u16_of(spec_byte_or_ff(d, 1), spec_byte_or_ff(d, 2)),
                ),
                spec_u32_of(
                    spec_byte_or_ff(d, 4),
                    spec_byte_or_ff(d, 5),
                    spec_byte_or_ff(d, 6),
                    spec_byte_or_ff(d, 7),
                ),
            ),
        )
    } else if from_vt && b0 == VT_FN_VT_CHANGE_STRING_VALUE {
        &&& post.len() == pre.len() + 1
        &&& forall|j: int| 0 <= j < pre.len() ==> post[j] == pre[j]
        &&& (post.last() matches EventType::StringValueChanged(id, value) && id.0 == spec_u16_of(
            spec_byte_or_ff(d, 1),
            spec_byte_or_ff(d, 2),
        ) && value@ == Seq::new(spec_vt_string_len(d) as nat, |i: int| d[4 + i]))
    } else {
        post == pre
    }
}

/// Whether `p` is an ECU-to-terminal message to `da` from `sa` carrying the
/// given function code.
pub open spec fn spec_is_vt_frame(p: PDU, da: u8, sa: u8, code: u8) -> bool {
    &&& p.spec_pgn() == PGN_ECU_TO_VT
    &&& p.spec_ps() == da
    &&& p.spec_sa() == sa
    &&& spec_padded_byte(p, 0) == code
}

/// The maintenance bit mask: INITIATING on the very first send, empty after.
pub open spec fn spec_initiating_mask(first: bool) -> u8 {
    if first {
        WS_MAINTENANCE_INITIATING
    } else {
        0
    }
}

/// Whether `p` is a working-set maintenance message to `da` carrying the
/// given bit mask.
pub open spec fn spec_is_maintenance_frame(p: PDU, da: u8, sa: u8, mask: u8) -> bool {
    spec_is_vt_frame(p, da, sa, VT_FN_WORKING_SET_MAINTENANCE) && spec_padded_byte(p, 1) == mask
}

/// Whether `p` is a Request for the given PGN, to `da` from `sa`.
pub open spec fn spec_is_request_frame(p: PDU, target: int, da: u8, sa: u8) -> bool {
    &&& p.spec_pgn() == PGN_REQUEST
    &&& p.spec_ps() == da
    &&& p.spec_sa() == sa
    &&& crate::claim::spec_requested_pgn(p) == target
}

/// The working set: owns its bus facade and its object pool.
pub struct WorkingSet<D: CanDriverTrait> {
    state: WsState,
    isobus: Isobus<D>,
    object_pool: ObjectPool,
    connected_vt: IsobusAddress,
    language_settings: LanguageSettings,
    event_queue: VecDeque<EventType>,
    working_set_maintenance_time: u64,
    is_first_working_set_maintenance: bool,
}

impl<D: CanDriverTrait> WorkingSet<D> {
    pub closed spec fn spec_state(&self) -> WsState {
        self.state
    }

    pub closed spec fn spec_vt(&self) -> IsobusAddress {
        self.connected_vt
    }

    pub closed spec fn spec_events(&self) -> Seq<EventType> {
        self.event_queue@
    }

    pub closed spec fn spec_maintenance_time(&self) -> u64 {
        self.working_set_maintenance_time
    }

    pub closed spec fn spec_is_first_maintenance(&self) -> bool {
        self.is_first_working_set_maintenance
    }

    pub closed spec fn spec_isobus(&self) -> Isobus<D> {
        self.isobus
    }

    pub closed spec fn spec_language(&self) -> LanguageSettings {
        self.language_settings
    }

    /// Whether the underlying address claim has completed.
    pub open spec fn spec_claim_complete(self) -> bool {
        spec_has_name(
            self.spec_isobus().spec_network().view().nodes,
            self.spec_isobus().spec_network().spec_name(),
        )
    }

    /// The address the claim holds, or the null address.
    pub open spec fn spec_claimed(self) -> u8 {
        match spec_lookup(
            self.spec_isobus().spec_network().view().nodes,
            self.spec_isobus().spec_network().spec_name(),
        ) {
            Some(a) => a,
            None => ADDRESS_NULL,
        }
    }

    /// The messages handed to the driver so far.
    pub open spec fn spec_written(self) -> Seq<PDU> {
        self.spec_isobus().spec_dll().spec_written()
    }

    /// An idle working set is talking to no terminal.
    pub open spec fn wf(self) -> bool {
        &&& self.spec_isobus().wf()
        &&& self.spec_pool_wf()
        &&& self.spec_state() is Idle ==> self.spec_vt().0 == ADDRESS_NULL
    }

    pub closed spec fn spec_pool_wf(self) -> bool {
        self.object_pool.wf()
    }

    /// Build a working set around its object pool and a driver; the bus
    /// identity is the fixed slurry-rate-control ECU of this crate.
    pub fn new(object_pool: ObjectPool, driver: D) -> (r: Self)
        requires
            object_pool.wf(),
        ensures
            r.wf(),
            r.spec_state() is Idle,
            r.spec_vt().0 == ADDRESS_NULL,
            r.spec_events().len() == 0,
            r.spec_maintenance_time() == 0,
            r.spec_is_first_maintenance(),
    {
        let name = Name::builder()
            .has_self_configurable_address(true)
            .industry_group(2)
            .device_class(25)
            .function(128)
            .manufacturer_code(1407)
            .ecu_instance(1)
            .build();
        let isobus = Isobus::<D>::builder().name(name).build(driver);
        let r = WorkingSet {
            state: WsState::Idle,
            isobus,
            object_pool,
            connected_vt: IsobusAddress(ADDRESS_NULL),
            language_settings: LanguageSettings::builder().build(),
            event_queue: VecDeque::new(),
            working_set_maintenance_time: 0,
            is_first_working_set_maintenance: true,
        };
        proof {
            assert(r.spec_events() =~= Seq::<EventType>::empty());
        }
        r
    }

    /// One tick: run the bus, feed every received message through the step
    /// relation (`spec_ws_step_state`/`spec_ws_step_vt`,
    /// `spec_connected_events`) via `handle_pdu`, fall back to `Idle` and
    /// discard the terminal address if the address claim is lost, and keep
    /// the maintenance heartbeat while past `Idle`.
    ///
    /// Events are only appended: anything queued before this tick is still
    /// queued, in order, ahead of anything new.
    pub fn process(&mut self, time: u64)
        requires
            old(self).wf(),
        ensures
            final(self).wf(),
            final(self).spec_events().len() >= old(self).spec_events().len(),
            final(self).spec_events().subrange(0, old(self).spec_events().len() as int) == old(self).spec_events(),
            !final(self).spec_claim_complete() ==> final(self).spec_state() is Idle && final(self).spec_vt().0 == ADDRESS_NULL,
            !old(self).spec_is_first_maintenance() ==> !final(self).spec_is_first_maintenance(),
            final(self).spec_written().len() >= old(self).spec_written().len(),
            final(self).spec_written().subrange(0, old(self).spec_written().len() as int) == old(self).spec_written(),
            // Past `Idle` with the maintenance period elapsed, the tick owes
            // one maintenance message on the wire: the first ever initiates.
            !(final(self).spec_state() is Idle) && time >= spec_deadline(
                old(self).spec_maintenance_time(),
                WS_MAINTENANCE_PERIOD,
            ) ==> final(self).spec_maintenance_time() == time && !final(self).spec_is_first_maintenance()
                && (exists|j: int|
                old(self).spec_written().len() <= j < final(self).spec_written().len()
                    && #[trigger] spec_is_maintenance_frame(
                    final(self).spec_written()[j],
                    final(self).spec_vt().0,
                    final(self).spec_claimed(),
                    spec_initiating_mask(old(self).spec_is_first_maintenance()),
                )),
            final(self).spec_maintenance_time() == time || final(self).spec_maintenance_time()
                == old(self).spec_maintenance_time(),
    {
        let ghost n0 = self.event_queue@.len() as int;
        let pdus = self.isobus.process(time);
        let ghost w0 = self.spec_written().len() as int;
        let ghost ow0 = old(self).spec_written().len() as int;
        proof {
            assert(self.spec_written().subrange(0, ow0) == old(self).spec_written());
        }
        let mut i: usize = 0;
        while i < pdus.len()
            invariant
                self.wf(),
                self.event_queue@.len() >= n0,
                self.event_queue@.subrange(0, n0) == old(self).spec_events(),
                n0 == old(self).spec_events().len(),
                self.working_set_maintenance_time == old(self).spec_maintenance_time() || (
                self.working_set_maintenance_time == time
                    && !self.is_first_working_set_maintenance),
                !old(self).spec_is_first_maintenance()
                    ==> !self.is_first_working_set_maintenance,
                0 <= ow0 && ow0 == old(self).spec_written().len(),
                w0 >= ow0,
                self.spec_written().len() >= w0,
                self.spec_written().subrange(0, ow0) == old(self).spec_written(),
                (self.working_set_maintenance_time == old(self).spec_maintenance_time()
                    && self.is_first_working_set_maintenance == old(
                    self,
                ).spec_is_first_maintenance()) || (!(self.spec_state() is Idle)
                    && self.working_set_maintenance_time == time
                    && !self.is_first_working_set_maintenance && (exists|j: int|
                    w0 <= j < self.spec_written().len()
                        && #[trigger] spec_is_maintenance_frame(
                        self.spec_written()[j],
                        self.spec_vt().0,
                        self.spec_claimed(),
                        spec_initiating_mask(old(self).spec_is_first_maintenance()),
                    ))),
            decreases pdus@.len() - i,
        {
            let ghost wprev = self.spec_written();
            let ghost stprev = self.spec_state();
            let ghost vtprev = self.spec_vt().0;
            let ghost ccprev = self.spec_claim_complete();
            let ghost flagprev = self.spec_is_first_maintenance();
            let ghost mtprev = self.spec_maintenance_time();
            let ghost clprev = self.spec_claimed();
            let stop = self.handle_pdu(&pdus[i], time);
            proof {
                assert(self.event_queue@.subrange(0, n0) =~= old(self).spec_events());
                assert forall|k: int| 0 <= k < wprev.len() implies #[trigger] self.spec_written()[k]
                    == wprev[k] by {
                    assert(self.spec_written().subrange(0, wprev.len() as int)[k] == wprev[k]);
                }
                assert forall|k: int| 0 <= k < ow0 implies #[trigger] self.spec_written()[k]
                    == old(self).spec_written()[k] by {
                    assert(wprev.subrange(0, ow0)[k] == old(self).spec_written()[k]);
                }
                assert(self.spec_written().subrange(0, ow0) =~= old(self).spec_written());
                if spec_ws_starts(stprev, vtprev, ccprev, pdus@[i as int]) {
                    assert(spec_is_maintenance_frame(
                        self.spec_written()[wprev.len() as int + 1],
                        self.spec_vt().0,
                        self.spec_claimed(),
                        spec_initiating_mask(old(self).spec_is_first_maintenance()),
                    ));
                } else if !(mtprev == old(self).spec_maintenance_time() && flagprev == old(
                    self,
                ).spec_is_first_maintenance()) {
                    let j = choose|j: int|
                        w0 <= j < wprev.len() && #[trigger] spec_is_maintenance_frame(
                            wprev[j],
                            vtprev,
                            clprev,
                            spec_initiating_mask(old(self).spec_is_first_maintenance()),
                        );
                    assert(spec_is_maintenance_frame(
                        self.spec_written()[j],
                        self.spec_vt().0,
                        self.spec_claimed(),
                        spec_initiating_mask(old(self).spec_is_first_maintenance()),
                    ));
                }
            }
            if stop {
                break ;
            }
            i = i + 1;
        }
        let ghost wmid = self.spec_written();
        let ghost mtmid = self.spec_maintenance_time();
        let ghost flagmid = self.spec_is_first_maintenance();
        let ghost vtmid = self.spec_vt().0;
        let ghost clmid = self.spec_claimed();
        if !self.isobus.is_connected() {
            self.state = WsState::Idle;
            self.connected_vt = IsobusAddress(ADDRESS_NULL);
        }
        self.cyclic_send_working_set_maintenance_message(time);
        proof {
            assert(self.event_queue@.subrange(0, n0) =~= old(self).spec_events());
            assert forall|k: int| 0 <= k < wmid.len() implies #[trigger] self.spec_written()[k]
                == wmid[k] by {
                assert(self.spec_written().subrange(0, wmid.len() as int)[k] == wmid[k]);
            }
            assert(self.spec_written().subrange(0, ow0) =~= old(self).spec_written());
            if !(self.spec_state() is Idle) && time >= spec_deadline(
                old(self).spec_maintenance_time(),
                WS_MAINTENANCE_PERIOD,
            ) {
                if mtmid == old(self).spec_maintenance_time() && flagmid == old(
                    self,
                ).spec_is_first_maintenance() {
                    assert(spec_is_maintenance_frame(
                        self.spec_written()[self.spec_written().len() - 1],
                        self.spec_vt().0,
                        self.spec_claimed(),
                        spec_initiating_mask(old(self).spec_is_first_maintenance()),
                    ));
                } else {
                    let j = choose|j: int|
                        w0 <= j < wmid.len() && #[trigger] spec_is_maintenance_frame(
                            wmid[j],
                            vtmid,
                            clmid,
                            spec_initiating_mask(old(self).spec_is_first_maintenance()),
                        );
                    assert(spec_is_maintenance_frame(
                        self.spec_written()[j],
                        self.spec_vt().0,
                        self.spec_claimed(),
                        spec_initiating_mask(old(self).spec_is_first_maintenance()),
                    ));
                }
            }
        }
    }

    /// React to one received message: the full step of the registration
    /// state machine. The state and stored terminal address move exactly as
    /// the step relation says; while connected, terminal messages become
    /// events and are acknowledged; the handshake start sends the working
    /// set master, the first maintenance message and the language request,
    /// and each later step sends its one enquiry.
    fn handle_pdu(&mut self, pdu: &PDU, time: u64) -> (stop: bool)
        requires
            old(self).wf(),
        ensures
            final(self).wf(),
            final(self).spec_state() == spec_ws_step_state(
                old(self).spec_state(),
                old(self).spec_vt().0,
                old(self).spec_claim_complete(),
                *pdu,
            ),
            final(self).spec_vt().0 == spec_ws_step_vt(
                old(self).spec_state(),
                old(self).spec_vt().0,
                old(self).spec_claim_complete(),
                *pdu,
            ),
            stop == spec_ws_starts(
                old(self).spec_state(),
                old(self).spec_vt().0,
                old(self).spec_claim_complete(),
                *pdu,
            ),
            final(self).spec_isobus().spec_network() == old(self).spec_isobus().spec_network(),
            final(self).spec_events().len() >= old(self).spec_events().len(),
            final(self).spec_events().subrange(0, old(self).spec_events().len() as int) == old(self).spec_events(),
            old(self).spec_state() is Connected ==> spec_connected_events(
                old(self).spec_events(),
                final(self).spec_events(),
                *pdu,
                old(self).spec_claimed(),
            ),
            !(old(self).spec_state() is Connected) ==> final(self).spec_events() == old(self).spec_events(),
            final(self).spec_written().len() >= old(self).spec_written().len(),
            final(self).spec_written().subrange(0, old(self).spec_written().len() as int) == old(self).spec_written(),
            // The handshake start: the three opening messages, the stamped
            // maintenance clock, and the cleared first-send flag.
            spec_ws_starts(
                old(self).spec_state(),
                old(self).spec_vt().0,
                old(self).spec_claim_complete(),
                *pdu,
            ) ==> {
                &&& final(self).spec_written().len() == old(self).spec_written().len() + 3
                &&& final(self).spec_written()[old(self).spec_written().len() as int].spec_pgn()
                    == PGN_WORKING_SET_MASTER
                &&& final(self).spec_written()[old(self).spec_written().len() as int].spec_sa()
                    == old(self).spec_claimed()
                &&& spec_is_maintenance_frame(
                    final(self).spec_written()[old(self).spec_written().len() as int + 1],
                    pdu.spec_sa(),
                    old(self).spec_claimed(),
                    if old(self).spec_is_first_maintenance() {
                        WS_MAINTENANCE_INITIATING
                    } else {
                        0
                    },
                )
                &&& spec_is_request_frame(
                    final(self).spec_written()[old(self).spec_written().len() as int + 2],
                    PGN_LANGUAGE_COMMAND as int,
                    pdu.spec_sa(),
                    old(self).spec_claimed(),
                )
                &&& final(self).spec_maintenance_time() == time
                &&& !final(self).spec_is_first_maintenance()
            },
            !spec_ws_starts(
                old(self).spec_state(),
                old(self).spec_vt().0,
                old(self).spec_claim_complete(),
                *pdu,
            ) ==> final(self).spec_maintenance_time() == old(self).spec_maintenance_time()
                && final(self).spec_is_first_maintenance() == old(self).spec_is_first_maintenance(),
            // The one enquiry each later handshake step sends.
            pdu.spec_pgn() == PGN_LANGUAGE_COMMAND && old(self).spec_state()
                is RequestedLanguageCommand ==> {
                &&& final(self).spec_written().len() == old(self).spec_written().len() + 1
                &&& spec_is_vt_frame(
                    final(self).spec_written().last(),
                    old(self).spec_vt().0,
                    old(self).spec_claimed(),
                    VT_FN_GET_HARDWARE,
                )
                &&& pdu.spec_data().len() >= 8 ==> final(self).spec_language().spec_language_code() == seq![
                    pdu.spec_data()[0],
                    pdu.spec_data()[1],
                ]
            },
            pdu.spec_pgn() == PGN_VT_TO_ECU && spec_padded_byte(*pdu, 0) == VT_FN_GET_HARDWARE
                && old(self).spec_state() is RequestedGetHardwareResponse ==> final(self).spec_written().len() == old(self).spec_written().len() + 1 && spec_is_vt_frame(
                final(self).spec_written().last(),
                old(self).spec_vt().0,
                old(self).spec_claimed(),
                VT_FN_GET_NUMBER_OF_SOFTKEYS,
            ),
            pdu.spec_pgn() == PGN_VT_TO_ECU && spec_padded_byte(*pdu, 0)
                == VT_FN_GET_NUMBER_OF_SOFTKEYS && old(self).spec_state()
                is RequestedGetNumberOfSoftkeysResponse ==> final(self).spec_written().len() == old(self).spec_written().len() + 1 && spec_is_vt_frame(
                final(self).spec_written().last(),
                old(self).spec_vt().0,
                old(self).spec_claimed(),
                VT_FN_GET_TEXT_FONT_DATA,
            ),
            pdu.spec_pgn() == PGN_VT_TO_ECU && spec_padded_byte(*pdu, 0) == VT_FN_GET_TEXT_FONT_DATA
                && old(self).spec_state() is RequestedGetTextFontDataResponse ==> final(self).spec_written().len() == old(self).spec_written().len() + 1 && spec_is_vt_frame(
                final(self).spec_written().last(),
                old(self).spec_vt().0,
                old(self).spec_claimed(),
                VT_FN_GET_VERSIONS_MESSAGE,
            ),
            pdu.spec_pgn() == PGN_VT_TO_ECU && spec_padded_byte(*pdu, 0)
                == VT_FN_GET_VERSIONS_RESPONSE && old(self).spec_state()
                is RequestedGetVersionsResponse ==> final(self).spec_written().len() == old(self).spec_written().len() + 1 && spec_is_request_frame(
                final(self).spec_written().last(),
                PGN_TIME_DATE as int,
                old(self).spec_vt().0,
                old(self).spec_claimed(),
            ),
            pdu.spec_pgn() == PGN_TIME_DATE && old(self).spec_state() is RequestedTimeDate ==> final(self).spec_written().len() == old(self).spec_written().len() + 1 && spec_is_vt_frame(
                final(self).spec_written().last(),
                old(self).spec_vt().0,
                old(self).spec_claimed(),
                VT_FN_GET_MEMORY,
            ),
            pdu.spec_pgn() == PGN_VT_TO_ECU && spec_padded_byte(*pdu, 0) == VT_FN_GET_MEMORY && old(self).spec_state() is RequestedVTVersion ==> final(self).spec_written().len() == old(self).spec_written().len() + 1 && spec_is_vt_frame(
                final(self).spec_written().last(),
                old(self).spec_vt().0,
                old(self).spec_claimed(),
                VT_FN_GET_MEMORY,
            ),
            pdu.spec_pgn() == PGN_ECU_TO_VT && spec_padded_byte(*pdu, 0)
                == VT_FN_OBJECT_POOL_TRANSFER && old(self).spec_state() is SendingObjectPool
                ==> final(self).spec_written().len() == old(self).spec_written().len() + 1
                && spec_is_vt_frame(
                final(self).spec_written().last(),
                old(self).spec_vt().0,
                old(self).spec_claimed(),
                VT_FN_END_OF_OBJECT_POOL,
            ),
    {
        if pdu.is_vt_status_message() && self.state == WsState::Idle {
            if self.connected_vt.as_u8() == ADDRESS_NULL && self.isobus.is_connected() {
                self.connected_vt = pdu.source_address();
                self.state = WsState::RequestedLanguageCommand;
                let claimed = self.isobus.claimed_address();
                let master = PDU::new_working_set_master(claimed);
                self.isobus.send(master, time);
                let ghost w1 = self.spec_written();
                self.send_working_set_maintenance(time);
                let ghost midw = self.spec_written();
                let vt = self.connected_vt;
                let claimed2 = self.isobus.claimed_address();
                let request = PDU::new_request_language_command(vt, claimed2);
                self.isobus.send(request, time);
                proof {
                    let w0 = old(self).spec_written();
                    assert(w1 == w0.push(master));
                    assert(midw.subrange(0, w1.len() as int) == w1);
                    assert(self.spec_written() == midw.push(request));
                    assert(self.spec_written().subrange(0, w0.len() as int) =~= w0);
                    assert(self.spec_written()[w0.len() as int] == midw[w0.len() as int]);
                    assert(midw[w0.len() as int] == w1[w0.len() as int]);
                    assert(self.spec_written()[w0.len() as int + 1] == midw[w0.len() as int + 1]);
                    assert(midw[w0.len() as int + 1] == midw.last());
                    assert(self.spec_written()[w0.len() as int + 2] == request);
                }
                return true;
            }
            false
        } else if pdu.is_language_command() && self.state == WsState::RequestedLanguageCommand {
            self.language_settings = LanguageSettings::from_data(pdu.data_raw());
            let vt = self.connected_vt;
            let claimed = self.isobus.claimed_address();
            self.isobus.send(PDU::new_get_hardware_message(vt, claimed), time);
            self.state = WsState::RequestedGetHardwareResponse;
            false
        } else if pdu.is_get_hardware_response() && self.state
            == WsState::RequestedGetHardwareResponse {
            let vt = self.connected_vt;
            let claimed = self.isobus.claimed_address();
            self.isobus.send(PDU::new_get_number_of_softkeys_message(vt, claimed), time);
            self.state = WsState::RequestedGetNumberOfSoftkeysResponse;
            false
        } else if pdu.is_get_number_of_softkeys_response() && self.state
            == WsState::RequestedGetNumberOfSoftkeysResponse {
            let vt = self.connected_vt;
            let claimed = self.isobus.claimed_address();
            self.isobus.send(PDU::new_get_text_font_data_message(vt, claimed), time);
            self.state = WsState::RequestedGetTextFontDataResponse;
            false
        } else if pdu.is_get_text_font_data_response() && self.state
            == WsState::RequestedGetTextFontDataResponse {
            let vt = self.connected_vt;
            let claimed = self.isobus.claimed_address();
            self.isobus.send(PDU::new_get_versions_message(vt, claimed), time);
            self.state = WsState::RequestedGetVersionsResponse;
            false
        } else if pdu.is_get_versions_response() && self.state
            == WsState::RequestedGetVersionsResponse {
            let vt = self.connected_vt;
            let claimed = self.isobus.claimed_address();
            self.isobus.send(PDU::new_request_time_date(vt, claimed), time);
            self.state = WsState::RequestedTimeDate;
            false
        } else if pdu.is_time_date() && self.state == WsState::RequestedTimeDate {
            let vt = self.connected_vt;
            let claimed = self.isobus.claimed_address();
            self.isobus.send(PDU::new_get_memory_message(vt, claimed, 0), time);
            self.state = WsState::RequestedVTVersion;
            false
        } else if pdu.is_get_memory_response() && self.state == WsState::RequestedVTVersion {
            let vt = self.connected_vt;
            let claimed = self.isobus.claimed_address();
            let required = self.object_pool.size();
            self.isobus.send(PDU::new_get_memory_message(vt, claimed, required), time);
            self.state = WsState::RequestedMemory;
            false
        } else if pdu.is_get_memory_response() && self.state == WsState::RequestedMemory {
            let vt = self.connected_vt;
            let claimed = self.isobus.claimed_address();
            self.isobus.send(
                PDU::new_object_pool_transfer_message(vt, claimed, &self.object_pool),
                time,
            );
            self.state = WsState::SendingObjectPool;
            proof {
                assert(self.spec_written().subrange(0, old(self).spec_written().len() as int)
                    =~= old(self).spec_written());
            }
            false
        } else if pdu.is_object_pool_transfer_message() && self.state
            == WsState::SendingObjectPool {
            let vt = self.connected_vt;
            let claimed = self.isobus.claimed_address();
            self.isobus.send(PDU::new_end_of_object_pool_message(vt, claimed), time);
            self.state = WsState::ObjectPoolSend;
            false
        } else if pdu.is_end_of_object_pool_response() && self.state == WsState::ObjectPoolSend {
            self.state = WsState::Connected;
            false
        } else if self.state == WsState::Connected {
            self.handle_connected_pdu(pdu, time);
            false
        } else {
            false
        }
    }

    /// Turn one terminal message into its event (per
    /// `spec_connected_events`) and acknowledge it to the terminal.
    fn handle_connected_pdu(&mut self, pdu: &PDU, time: u64)
        requires
            old(self).wf(),
            old(self).spec_state() is Connected,
        ensures
            final(self).wf(),
            final(self).spec_state() is Connected,
            final(self).spec_vt() == old(self).spec_vt(),
            final(self).spec_isobus().spec_network() == old(self).spec_isobus().spec_network(),
            final(self).spec_maintenance_time() == old(self).spec_maintenance_time(),
            final(self).spec_is_first_maintenance() == old(self).spec_is_first_maintenance(),
            final(self).spec_events().len() >= old(self).spec_events().len(),
            final(self).spec_events().subrange(0, old(self).spec_events().len() as int) == old(self).spec_events(),
            spec_connected_events(
                old(self).spec_events(),
                final(self).spec_events(),
                *pdu,
                old(self).spec_claimed(),
            ),
            final(self).spec_written().len() >= old(self).spec_written().len(),
            final(self).spec_written().subrange(0, old(self).spec_written().len() as int) == old(self).spec_written(),
            // The acknowledgements: one echoed response per handled kind.
            pdu.spec_pgn() == PGN_VT_TO_ECU && spec_padded_byte(*pdu, 0)
                == VT_FN_SOFT_KEY_ACTIVATION ==> final(self).spec_written().len() == old(self).spec_written().len() + 1 && spec_is_vt_frame(
                final(self).spec_written().last(),
                old(self).spec_vt().0,
                old(self).spec_claimed(),
                VT_FN_SOFT_KEY_ACTIVATION,
            ),
            pdu.spec_pgn() == PGN_VT_TO_ECU && spec_padded_byte(*pdu, 0) == VT_FN_BUTTON_ACTIVATION
                ==> final(self).spec_written().len() == old(self).spec_written().len() + 1
                && spec_is_vt_frame(
                final(self).spec_written().last(),
                old(self).spec_vt().0,
                old(self).spec_claimed(),
                VT_FN_BUTTON_ACTIVATION,
            ),
            pdu.spec_pgn() == PGN_VT_TO_ECU && spec_padded_byte(*pdu, 0)
                == VT_FN_VT_CHANGE_NUMERIC_VALUE ==> {
                &&& final(self).spec_written().len() == old(self).spec_written().len() + 1
                &&& spec_is_vt_frame(
                    final(self).spec_written().last(),
                    old(self).spec_vt().0,
                    old(self).spec_claimed(),
                    VT_FN_VT_CHANGE_NUMERIC_VALUE,
                )
                // The response echoes the id and value it acknowledges.
                &&& final(self).spec_written().last().spec_data() == seq![
                    VT_FN_VT_CHANGE_NUMERIC_VALUE,
                    spec_byte_or_ff(pdu.spec_data(), 1),
                    spec_byte_or_ff(pdu.spec_data(), 2),
                    0u8,
                    spec_byte_or_ff(pdu.spec_data(), 4),
                    spec_byte_or_ff(pdu.spec_data(), 5),
                    spec_byte_or_ff(pdu.spec_data(), 6),
                    spec_byte_or_ff(pdu.spec_data(), 7),
                ]
            },
            pdu.spec_pgn() == PGN_VT_TO_ECU && spec_padded_byte(*pdu, 0)
                == VT_FN_VT_CHANGE_STRING_VALUE ==> final(self).spec_written().len() == old(self).spec_written().len() + 1 && spec_is_vt_frame(
                final(self).spec_written().last(),
                old(self).spec_vt().0,
                old(self).spec_claimed(),
                VT_FN_VT_CHANGE_STRING_VALUE,
            ),
    {
        let ghost n0 = self.event_queue@.len() as int;
        if pdu.is_vt_status_message() {
            let data = VTStatusMessage::from_bytes(pdu.data_raw());
            if data.active_working_set.as_u8() == self.isobus.claimed_address().as_u8() {
                self.event_queue.push_back(EventType::OnActivate);
            } else {
                self.event_queue.push_back(EventType::OnDeactivate);
            }
        } else if pdu.is_soft_key_activation_message() {
            let data = SoftKeyActivationMessage::from_bytes(pdu.data_raw());
            match data.key_activation_code {
                KeyActivationCode::Released => {
                    self.event_queue.push_back(
                        EventType::SoftKeyReleased(data.id, data.parent_id, data.key_number),
                    );
                },
                KeyActivationCode::Pressed => {
                    self.event_queue.push_back(
                        EventType::SoftKeyPressed(data.id, data.parent_id, data.key_number),
                    );
                },
                KeyActivationCode::Held => {
                    self.event_queue.push_back(
                        EventType::SoftKeyHeld(data.id, data.parent_id, data.key_number),
                    );
                },
                KeyActivationCode::Aborted => {},
            }
            let vt = self.connected_vt;
            let claimed = self.isobus.claimed_address();
            self.isobus.send(
                PDU::new_soft_key_activation_response(vt, claimed, data.to_response()),
                time,
            );
        } else if pdu.is_button_activation_message() {
            let data = ButtonActivationMessage::from_bytes(pdu.data_raw());
            match data.key_activation_code {
                KeyActivationCode::Released => {
                    self.event_queue.push_back(
                        EventType::ButtonReleased(data.id, data.parent_id, data.key_number),
                    );
                },
                KeyActivationCode::Pressed => {
                    self.event_queue.push_back(
                        EventType::ButtonPressed(data.id, data.parent_id, data.key_number),
                    );
                },
                KeyActivationCode::Held => {
                    self.event_queue.push_back(
                        EventType::ButtonHeld(data.id, data.parent_id, data.key_number),
                    );
                },
                KeyActivationCode::Aborted => {},
            }
            let vt = self.connected_vt;
            let claimed = self.isobus.claimed_address();
            self.isobus.send(
                PDU::new_button_activation_response(vt, claimed, data.to_response()),
                time,
            );
        } else if pdu.is_vt_change_numeric_value_command() {
            let data = VTChangeNumericValueCommand::from_bytes(pdu.data_raw());
            self.event_queue.push_back(EventType::NumericValueChanged(data.id, data.value));
            let vt = self.connected_vt;
            let claimed = self.isobus.claimed_address();
            self.isobus.send(
                PDU::new_vt_change_numeric_value_response(vt, claimed, data.to_response()),
                time,
            );
            proof {
                let x1 = spec_byte_or_ff(pdu.spec_data(), 1);
                let x2 = spec_byte_or_ff(pdu.spec_data(), 2);
                let x4 = spec_byte_or_ff(pdu.spec_data(), 4);
                let x5 = spec_byte_or_ff(pdu.spec_data(), 5);
                let x6 = spec_byte_or_ff(pdu.spec_data(), 6);
                let x7 = spec_byte_or_ff(pdu.spec_data(), 7);
                assert({
                    &&& (((x1 + 0x100 * x2) as u16) & 0xFF) as u8 == x1
                    &&& (((x1 + 0x100 * x2) as u16) >> 8) as u8 == x2
                    &&& (((x4 + 0x100 * x5 + 0x10000 * x6 + 0x1000000 * x7) as u32)
                        & 0xFF) as u8 == x4
                    &&& ((((x4 + 0x100 * x5 + 0x10000 * x6 + 0x1000000 * x7) as u32) >> 8)
                        & 0xFF) as u8 == x5
                    &&& ((((x4 + 0x100 * x5 + 0x10000 * x6 + 0x1000000 * x7) as u32) >> 16)
                        & 0xFF) as u8 == x6
                    &&& (((x4 + 0x100 * x5 + 0x10000 * x6 + 0x1000000 * x7) as u32) >> 24) as u8
                        == x7
                }) by (bit_vector);
                assert(self.spec_written().last().spec_data() =~= seq![
                    VT_FN_VT_CHANGE_NUMERIC_VALUE,
                    x1,
                    x2,
                    0u8,
                    x4,
                    x5,
                    x6,
                    x7,
                ]);
            }
        } else if pdu.is_vt_change_string_value_command() {
            let data = VTChangeStringValueCommand::from_bytes(pdu.data_raw());
            let response = data.to_response();
            self.event_queue.push_back(EventType::StringValueChanged(data.id, data.value));
            let vt = self.connected_vt;
            let claimed = self.isobus.claimed_address();
            self.isobus.send(
                PDU::new_vt_change_string_value_response(vt, claimed, response),
                time,
            );
        }
        proof {
            assert(self.event_queue@.subrange(0, n0) =~= old(self).spec_events());
        }
    }

    /// The registration state, for the host to observe.
    pub fn state(&self) -> (r: WsState)
        ensures
            r == self.spec_state(),
    {
        self.state
    }

    /// The terminal this working set is talking to, or the null address.
    pub fn connected_vt(&self) -> (r: IsobusAddress)
        ensures
            r == self.spec_vt(),
    {
        self.connected_vt
    }

    /// The operator preferences the terminal announced last.
    pub fn language_settings(&self) -> (r: &LanguageSettings)
        ensures
            r == self.spec_language(),
    {
        &self.language_settings
    }

    /// The oldest queued event, in the order the source messages arrived.
    pub fn next_event(&mut self) -> (r: Option<EventType>)
        ensures
            old(self).spec_events().len() == 0 ==> r is None && final(self).spec_events() == old(self).spec_events(),
            old(self).spec_events().len() > 0 ==> r == Some(old(self).spec_events()[0]) && final(self).spec_events() == old(self).spec_events().drop_first(),
            final(self).spec_state() == old(self).spec_state(),
            final(self).wf() == old(self).wf(),
    {
        self.event_queue.pop_front()
    }

    /// Send one application event to the terminal as the matching command:
    /// a numeric change, a mask change or a string change becomes exactly
    /// one command frame to the stored terminal address; other events send
    /// nothing.
    pub fn send_event(&mut self, event: EventType, time: u64)
        requires
            old(self).wf(),
        ensures
            final(self).wf(),
            final(self).spec_state() == old(self).spec_state(),
            final(self).spec_vt() == old(self).spec_vt(),
            final(self).spec_events() == old(self).spec_events(),
            final(self).spec_written().subrange(0, old(self).spec_written().len() as int) == old(self).spec_written(),
            event matches EventType::NumericValueChanged(id, value) ==> {
                &&& final(self).spec_written().len() == old(self).spec_written().len() + 1
                &&& spec_is_vt_frame(
                    final(self).spec_written().last(),
                    old(self).spec_vt().0,
                    old(self).spec_claimed(),
                    crate::vt_messages::VT_FN_CHANGE_NUMERIC_VALUE,
                )
                &&& final(self).spec_written().last().spec_data() == seq![
                    crate::vt_messages::VT_FN_CHANGE_NUMERIC_VALUE,
                    spec_lo(id.0),
                    spec_hi(id.0),
                    0xFFu8,
                    spec_u32_b(value, 0),
                    spec_u32_b(value, 1),
                    spec_u32_b(value, 2),
                    spec_u32_b(value, 3),
                ]
            },
            event matches EventType::ActiveMaskChanged(ws_id, mask_id) ==> {
                &&& final(self).spec_written().len() == old(self).spec_written().len() + 1
                &&& spec_is_vt_frame(
                    final(self).spec_written().last(),
                    old(self).spec_vt().0,
                    old(self).spec_claimed(),
                    crate::vt_messages::VT_FN_CHANGE_ACTIVE_MASK,
                )
                &&& final(self).spec_written().last().spec_data() == seq![
                    crate::vt_messages::VT_FN_CHANGE_ACTIVE_MASK,
                    spec_lo(ws_id.0),
                    spec_hi(ws_id.0),
                    spec_lo(mask_id.0),
                    spec_hi(mask_id.0),
                    0xFFu8,
                    0xFFu8,
                    0xFFu8,
                ]
            },
            // A string command longer than one frame leaves through the
            // transport instead; only the one-frame case is a single write.
            event matches EventType::StringValueChanged(id, value) ==> value@.len() <= 3 ==> {
                &&& final(self).spec_written().len() == old(self).spec_written().len() + 1
                &&& spec_is_vt_frame(
                    final(self).spec_written().last(),
                    old(self).spec_vt().0,
                    old(self).spec_claimed(),
                    crate::vt_messages::VT_FN_CHANGE_STRING_VALUE,
                )
                &&& crate::vt_messages::spec_string_command_data(
                    final(self).spec_written().last().spec_data(),
                    id.0,
                    value@,
                )
            },
            event matches EventType::StringValueChanged(id, value) ==> 3 < value@.len() <= 1780 ==> {
                &&& old(self).spec_isobus().spec_dll().spec_tp().spec_is_idle() ==> (
                final(self).spec_isobus().spec_dll().spec_tp().spec_pdu_to_send() matches Some(p)
                    && spec_is_vt_frame(
                    p,
                    old(self).spec_vt().0,
                    old(self).spec_claimed(),
                    crate::vt_messages::VT_FN_CHANGE_STRING_VALUE,
                ) && crate::vt_messages::spec_string_command_data(p.spec_data(), id.0, value@))
                &&& !old(self).spec_isobus().spec_dll().spec_tp().spec_is_idle() ==> {
                    let bl = final(self).spec_isobus().spec_dll().spec_tp().spec_backlog();
                    let bl0 = old(self).spec_isobus().spec_dll().spec_tp().spec_backlog();
                    &&& bl.len() == bl0.len() + 1
                    &&& bl.subrange(0, bl0.len() as int) == bl0
                    &&& spec_is_vt_frame(
                        bl.last(),
                        old(self).spec_vt().0,
                        old(self).spec_claimed(),
                        crate::vt_messages::VT_FN_CHANGE_STRING_VALUE,
                    )
                    &&& crate::vt_messages::spec_string_command_data(bl.last().spec_data(), id.0, value@)
                }
            },
            !(event is NumericValueChanged) && !(event is ActiveMaskChanged) && !(event
                is StringValueChanged) ==> *final(self) == *old(self),
    {
        match event {
            EventType::NumericValueChanged(id, value) => {
                let data = ChangeNumericValueCommand { id, value };
                let vt = self.connected_vt;
                let claimed = self.isobus.claimed_address();
                self.isobus.send(
                    PDU::new_change_numeric_value_command(vt, claimed, data),
                    time,
                );
            },
            EventType::ActiveMaskChanged(working_set_id, mask_id) => {
                let data = ChangeActiveMaskCommand { working_set_id, mask_id };
                let vt = self.connected_vt;
                let claimed = self.isobus.claimed_address();
                self.isobus.send(PDU::new_change_active_mask_command(vt, claimed, data), time);
            },
            EventType::StringValueChanged(id, value) => {
                let data = ChangeStringValueCommand { id, value };
                let vt = self.connected_vt;
                let claimed = self.isobus.claimed_address();
                self.isobus.send(PDU::new_change_string_value_command(vt, claimed, data), time);
            },
            _ => {},
        }
        proof {
            assert(self.spec_written().subrange(0, old(self).spec_written().len() as int)
                =~= old(self).spec_written());
        }
    }

    /// Emit one maintenance message now, to the stored terminal: the first
    /// ever carries the initiating bit, every later one a clear mask.
    pub fn send_working_set_maintenance(&mut self, time: u64)
        requires
            old(self).wf(),
        ensures
            final(self).wf(),
            final(self).spec_state() == old(self).spec_state(),
            final(self).spec_vt() == old(self).spec_vt(),
            final(self).spec_events() == old(self).spec_events(),
            final(self).spec_isobus().spec_network() == old(self).spec_isobus().spec_network(),
            final(self).spec_maintenance_time() == time,
            !final(self).spec_is_first_maintenance(),
            final(self).spec_written().len() == old(self).spec_written().len() + 1,
            final(self).spec_written().subrange(0, old(self).spec_written().len() as int) == old(self).spec_written(),
            spec_is_maintenance_frame(
                final(self).spec_written().last(),
                old(self).spec_vt().0,
                old(self).spec_claimed(),
                if old(self).spec_is_first_maintenance() {
                    WS_MAINTENANCE_INITIATING
                } else {
                    0
                },
            ),
    {
        let bit_mask: u8 = if self.is_first_working_set_maintenance {
            WS_MAINTENANCE_INITIATING
        } else {
            0
        };
        self.is_first_working_set_maintenance = false;
        let data = WorkingSetMaintenanceMessage { bit_mask, version_number: VTVersion::V3 };
        let vt = self.connected_vt;
        let claimed = self.isobus.claimed_address();
        self.isobus.send(PDU::new_working_set_maintenance_message(vt, claimed, data), time);
        self.working_set_maintenance_time = time;
    }

    /// Emit the maintenance message once its period has elapsed and the
    /// working set is past `Idle`; the heartbeat keeps the terminal from
    /// dropping the working set, and none is owed before registration
    /// starts.
    pub fn cyclic_send_working_set_maintenance_message(&mut self, time: u64)
        requires
            old(self).wf(),
        ensures
            final(self).wf(),
            final(self).spec_state() == old(self).spec_state(),
            final(self).spec_vt() == old(self).spec_vt(),
            final(self).spec_events() == old(self).spec_events(),
            final(self).spec_isobus().spec_network() == old(self).spec_isobus().spec_network(),
            old(self).spec_state() is Idle || time < spec_deadline(
                old(self).spec_maintenance_time(),
                WS_MAINTENANCE_PERIOD,
            ) ==> {
                &&& final(self).spec_maintenance_time() == old(self).spec_maintenance_time()
                &&& final(self).spec_is_first_maintenance() == old(self).spec_is_first_maintenance()
                &&& final(self).spec_written() == old(self).spec_written()
            },
            !(old(self).spec_state() is Idle) && time >= spec_deadline(
                old(self).spec_maintenance_time(),
                WS_MAINTENANCE_PERIOD,
            ) ==> {
                &&& final(self).spec_maintenance_time() == time
                &&& !final(self).spec_is_first_maintenance()
                &&& final(self).spec_written().len() == old(self).spec_written().len() + 1
                &&& final(self).spec_written().subrange(
                    0,
                    old(self).spec_written().len() as int,
                ) == old(self).spec_written()
                &&& spec_is_maintenance_frame(
                    final(self).spec_written().last(),
                    old(self).spec_vt().0,
                    old(self).spec_claimed(),
                    if old(self).spec_is_first_maintenance() {
                        WS_MAINTENANCE_INITIATING
                    } else {
                        0
                    },
                )
            },
    {
        if self.state == WsState::Idle {
            return ;
        }
        if time < deadline(self.working_set_maintenance_time, WS_MAINTENANCE_PERIOD) {
            return ;
        }
        self.send_working_set_maintenance(time);
    }
}

} // verus!
