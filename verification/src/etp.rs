//! The Extended Transport Protocol manager: directed segmented transfers of
//! 1786 bytes up to about 117 MB, with 24-bit packet offsets. The core uses
//! ETP to send (the object pool); inbound ETP transfers are not part of the
//! core, but abort frames are still honoured so sending can recover.

use vstd::prelude::*;

use crate::isobus::IsobusAddress;
use crate::pdu::spec_padded_byte;
use crate::pdu::PDU;
use crate::pgn::PGN;
use crate::pgn::PGN_ETP_CM;
use crate::pgn::PGN_ETP_DT;
use crate::time::deadline;
use crate::time::spec_deadline;
use crate::tp::spec_chunk;
use crate::tp::spec_num_packets;
use crate::transport_pdu::spec_cm_data;
use crate::transport_pdu::spec_dt_data;
use crate::transport_pdu::EtpAbortReasons;
use crate::transport_pdu::CTRL_ABORT;
use crate::transport_pdu::ETP_CTRL_CTS;
use crate::transport_pdu::ETP_CTRL_DPO;
use crate::transport_pdu::ETP_CTRL_EOMA;
use crate::transport_pdu::ETP_CTRL_RTS;
use std::collections::VecDeque;

verus! {

/// Longest wait for a CTS after an RTS, or for the acknowledge after the
/// last data-transfer frame.
pub const ETP_TIMEOUT_T3: u64 = 1750;

/// Hold time while the peer pauses the session with a zero-packet CTS.
pub const ETP_TIMEOUT_T4: u64 = 1050;

/// Largest payload the Extended Transport Protocol can carry.
pub const ETP_MAX_BYTES: usize = 117_440_505;

/// Whether `p` is an ETP connection-management frame with the given control
/// byte, destination and source.
pub open spec fn spec_is_etp_cm_frame(p: PDU, ctrl: u8, da: u8, sa: u8) -> bool {
    &&& p.spec_pgn() == PGN_ETP_CM
    &&& spec_padded_byte(p, 0) == ctrl
    &&& p.spec_ps() == da
    &&& p.spec_sa() == sa
}

/// Whether `p` is an ETP data-transfer frame carrying `chunk` under the
/// window-relative sequence number `seqno`.
pub open spec fn spec_is_etp_dt_frame(p: PDU, da: u8, sa: u8, seqno: int, chunk: Seq<u8>) -> bool {
    &&& p.spec_pgn() == PGN_ETP_DT
    &&& p.spec_ps() == da
    &&& p.spec_sa() == sa
    &&& p.spec_data() == spec_dt_data(seqno as u8, chunk)
}

/// Whether every message in a backlog fits the protocol's payload bounds.
pub open spec fn spec_etp_backlog_ok(b: Seq<PDU>) -> bool {
    forall|i: int| 0 <= i < b.len() ==> 1 <= (#[trigger] b[i]).spec_data().len() <= ETP_MAX_BYTES
}

proof fn lemma_etp_backlog_ok_push(b: Seq<PDU>, p: PDU)
    requires
        spec_etp_backlog_ok(b),
        1 <= p.spec_data().len() <= ETP_MAX_BYTES,
    ensures
        spec_etp_backlog_ok(b.push(p)),
{
    assert forall|i: int| 0 <= i < b.push(p).len() implies 1 <= (
    #[trigger] b.push(p)[i]).spec_data().len() <= ETP_MAX_BYTES by {
        if i < b.len() {
            assert(b.push(p)[i] == b[i]);
        } else {
            assert(b.push(p)[i] == p);
        }
    }
}

proof fn lemma_etp_backlog_ok_skip(b: Seq<PDU>)
    requires
        spec_etp_backlog_ok(b),
        b.len() >= 1,
    ensures
        spec_etp_backlog_ok(b.skip(1)),
{
    assert forall|i: int| 0 <= i < b.skip(1).len() implies 1 <= (
    #[trigger] b.skip(1)[i]).spec_data().len() <= ETP_MAX_BYTES by {
        assert(b.skip(1)[i] == b[i + 1]);
    }
}

/// Manager of one outbound ETP session.
pub struct ExtendedTransportProtocolManager {
    backlog: VecDeque<PDU>,
    pdu_to_send: Option<PDU>,
    timeout_time: u64,
}

impl ExtendedTransportProtocolManager {
    pub closed spec fn spec_backlog(&self) -> Seq<PDU> {
        self.backlog@
    }

    pub closed spec fn spec_pdu_to_send(&self) -> Option<PDU> {
        self.pdu_to_send
    }

    pub closed spec fn spec_timeout_time(&self) -> u64 {
        self.timeout_time
    }

    pub open spec fn spec_is_sending(&self) -> bool {
        self.spec_pdu_to_send() is Some
    }

    pub open spec fn spec_is_idle(&self) -> bool {
        self.spec_pdu_to_send() is None
    }

    /// Every queued or in-flight message fits the protocol's cap.
    pub open spec fn wf(self) -> bool {
        &&& self.spec_pdu_to_send() matches Some(p) ==> 1 <= p.spec_data().len() <= ETP_MAX_BYTES
        &&& spec_etp_backlog_ok(self.spec_backlog())
    }

    /// What opening an outbound session leaves behind: the message in
    /// flight, the T3 deadline armed, and one RTS on the wire announcing the
    /// four-byte length and the transported PGN.
    pub open spec fn spec_opened(
        post: Self,
        backlog: Seq<PDU>,
        n: int,
        post_out: Seq<PDU>,
        pdu: PDU,
        time: u64,
    ) -> bool {
        let len = pdu.spec_data().len() as int;
        &&& post.spec_pdu_to_send() == Some(pdu)
        &&& post.spec_timeout_time() == spec_deadline(time, ETP_TIMEOUT_T3)
        &&& post.spec_backlog() == backlog
        &&& post_out.len() == n + 1
        &&& spec_is_etp_cm_frame(post_out[n], ETP_CTRL_RTS, pdu.spec_ps(), pdu.spec_sa())
        &&& post_out[n].spec_data() == spec_cm_data(
            ETP_CTRL_RTS,
            (len % 256) as u8,
            (len / 256 % 256) as u8,
            (len / 0x10000 % 256) as u8,
            (len / 0x1000000) as u8,
            pdu.spec_pgn(),
        )
    }

    /// How one ETP frame moves the session state; layout as in the TP
    /// manager's step relation.
    pub open spec fn spec_frame_step(
        sending0: Option<PDU>,
        backlog0: Seq<PDU>,
        timeout0: u64,
        post: Self,
        n: int,
        post_out: Seq<PDU>,
        p: PDU,
        claimed: u8,
        time: u64,
        r: Option<PDU>,
    ) -> bool {
        let is_sending = sending0 is Some;
        let unchanged = {
            &&& post.spec_pdu_to_send() == sending0
            &&& post.spec_backlog() == backlog0
            &&& post.spec_timeout_time() == timeout0
        };
        let b0 = spec_padded_byte(p, 0);
        let cm = p.spec_pgn() == PGN_ETP_CM;
        let to_us = p.spec_is_address_specific(claimed);
        // A Clear To Send releases a DPO announcing the window's offset,
        // then the granted run of data-transfer frames numbered from one.
        &&& cm && b0 == ETP_CTRL_CTS ==> (if is_sending && to_us {
            let nr = spec_padded_byte(p, 1);
            let next = spec_padded_byte(p, 2) + 0x100 * spec_padded_byte(p, 3) + 0x10000
                * spec_padded_byte(p, 4);
            if nr == 0 {
                &&& post.spec_pdu_to_send() == sending0
                &&& post.spec_backlog() == backlog0
                &&& post.spec_timeout_time() == spec_deadline(time, ETP_TIMEOUT_T4)
                &&& post_out.len() == n
                &&& r is None
            } else if next >= 1 {
                let data = sending0->Some_0.spec_data();
                let total = spec_num_packets(data.len() as int);
                let start = next - 1;
                let cnt = if start >= total {
                    0int
                } else if nr <= total - start {
                    nr as int
                } else {
                    total - start
                };
                &&& post.spec_pdu_to_send() == sending0
                &&& post.spec_backlog() == backlog0
                &&& post.spec_timeout_time() == spec_deadline(time, ETP_TIMEOUT_T3)
                &&& post_out.len() == n + 1 + cnt
                &&& spec_is_etp_cm_frame(post_out[n], ETP_CTRL_DPO, p.spec_sa(), claimed)
                &&& post_out[n].spec_data() == spec_cm_data(
                    ETP_CTRL_DPO,
                    nr,
                    (start % 256) as u8,
                    (start / 256 % 256) as u8,
                    (start / 0x10000) as u8,
                    sending0->Some_0.spec_pgn(),
                )
                &&& forall|i: int|
                    0 <= i < cnt ==> spec_is_etp_dt_frame(
                        #[trigger] post_out[n + 1 + i],
                        p.spec_sa(),
                        claimed,
                        i + 1,
                        spec_chunk(data, start + i),
                    )
                &&& r is None
            } else {
                unchanged && post_out.len() == n && r is None
            }
        } else {
            unchanged && post_out.len() == n && r is None
        })
        // An End of Message Acknowledge completes the outbound session; the
        // next queued message, if any, opens at once.
        &&& cm && b0 == ETP_CTRL_EOMA ==> (if is_sending && to_us {
            &&& r == sending0
            &&& if backlog0.len() == 0 {
                &&& post.spec_is_idle()
                &&& post.spec_backlog() == backlog0
                &&& post_out.len() == n
            } else {
                Self::spec_opened(post, backlog0.skip(1), n, post_out, backlog0[0], time)
            }
        } else {
            unchanged && post_out.len() == n && r is None
        })
        // A peer abort while sending retries the in-flight message.
        &&& cm && b0 == CTRL_ABORT ==> (if is_sending && to_us {
            &&& Self::spec_opened(post, backlog0, n, post_out, sending0->Some_0, time)
            &&& r is None
        } else {
            unchanged && post_out.len() == n && r is None
        })
        // Everything else, inbound transfers included, leaves the session
        // alone.
        &&& cm && b0 != ETP_CTRL_CTS && b0 != ETP_CTRL_EOMA && b0 != CTRL_ABORT ==> unchanged
            && post_out.len() == n && r is None
        &&& !cm ==> unchanged && post_out.len() == n && r is None
    }

    /// Whether `q` is queued or in flight in this manager.
    pub open spec fn spec_outbound_contains(m: Self, q: PDU) -> bool {
        m.spec_pdu_to_send() == Some(q) || m.spec_backlog().contains(q)
    }

    /// Provenance of what a frame step hands up or keeps: the only message
    /// ever handed up is the one that was in flight, and the step never puts
    /// a new message into the outbound set.
    pub proof fn lemma_frame_step_outbound(
        sending0: Option<PDU>,
        backlog0: Seq<PDU>,
        timeout0: u64,
        post: Self,
        n: int,
        post_out: Seq<PDU>,
        p: PDU,
        claimed: u8,
        time: u64,
        r: Option<PDU>,
    )
        requires
            Self::spec_frame_step(
                sending0,
                backlog0,
                timeout0,
                post,
                n,
                post_out,
                p,
                claimed,
                time,
                r,
            ),
        ensures
            r matches Some(q) ==> sending0 == Some(q),
            forall|q: PDU|
                #[trigger] Self::spec_outbound_contains(post, q) ==> sending0 == Some(q)
                    || backlog0.contains(q),
    {
        let b0 = spec_padded_byte(p, 0);
        let cm = p.spec_pgn() == PGN_ETP_CM;
        let to_us = p.spec_is_address_specific(claimed);
        if cm && b0 == ETP_CTRL_EOMA && sending0 is Some && to_us && backlog0.len() > 0 {
            assert forall|q: PDU| #[trigger] Self::spec_outbound_contains(post, q) implies sending0
                == Some(q) || backlog0.contains(q) by {
                if post.spec_pdu_to_send() == Some(q) {
                    assert(backlog0[0] == q);
                    assert(backlog0.contains(q));
                } else if post.spec_backlog().contains(q) {
                    let i = choose|i: int|
                        0 <= i < post.spec_backlog().len() && post.spec_backlog()[i] == q;
                    assert(backlog0[i + 1] == q);
                    assert(backlog0.contains(q));
                }
            }
        }
    }

    pub fn new() -> (r: Self)
        ensures
            r.wf(),
            r.spec_is_idle(),
            r.spec_backlog() == Seq::<PDU>::empty(),
            r.spec_timeout_time() == u64::MAX,
    {
        let r = ExtendedTransportProtocolManager {
            backlog: VecDeque::new(),
            pdu_to_send: None,
            timeout_time: u64::MAX,
        };
        proof {
            assert(r.spec_backlog() =~= Seq::<PDU>::empty());
        }
        r
    }

    /// Hand a message to the transport: open the session at once when idle,
    /// else queue it at the back of the FIFO backlog.
    pub fn send(&mut self, pdu: PDU, time: u64, out: &mut Vec<PDU>)
        requires
            old(self).wf(),
            1 <= pdu.spec_data().len() <= ETP_MAX_BYTES,
        ensures
            final(self).wf(),
            final(out)@.len() >= old(out)@.len(),
            final(out)@.subrange(0, old(out)@.len() as int) == old(out)@,
            old(self).spec_is_idle() ==> Self::spec_opened(
                *final(self),
                old(self).spec_backlog(),
                old(out)@.len() as int,
                final(out)@,
                pdu,
                time,
            ),
            !old(self).spec_is_idle() ==> {
                &&& final(self).spec_backlog() == old(self).spec_backlog().push(pdu)
                &&& final(self).spec_pdu_to_send() == old(self).spec_pdu_to_send()
                &&& final(self).spec_timeout_time() == old(self).spec_timeout_time()
                &&& final(out)@ == old(out)@
            },
    {
        if self.pdu_to_send.is_none() {
            self.open_sending_connection(pdu, time, out);
        } else {
            proof {
                lemma_etp_backlog_ok_push(self.spec_backlog(), pdu);
            }
            self.backlog.push_back(pdu);
        }
        proof {
            assert(final(out)@.subrange(0, old(out)@.len() as int) =~= old(out)@);
        }
    }

    /// Open the outbound session for `pdu` with its RTS.
    fn open_sending_connection(&mut self, pdu: PDU, time: u64, out: &mut Vec<PDU>)
        requires
            old(self).wf(),
            old(self).spec_is_idle(),
            1 <= pdu.spec_data().len() <= ETP_MAX_BYTES,
        ensures
            final(self).wf(),
            final(out)@.subrange(0, old(out)@.len() as int) == old(out)@,
            Self::spec_opened(
                *final(self),
                old(self).spec_backlog(),
                old(out)@.len() as int,
                final(out)@,
                pdu,
                time,
            ),
    {
        let number_of_bytes: u32 = pdu.data_len() as u32;
        proof {
            let nb = number_of_bytes;
            assert(nb & 0xFF == nb % 256 && (nb >> 8) & 0xFF == nb / 256 % 256 && (nb >> 16)
                & 0xFF == nb / 0x10000 % 256 && nb >> 24 == nb / 0x1000000) by (bit_vector);
        }
        out.push(
            PDU::new_etp_request_to_send(
                number_of_bytes,
                pdu.pgn(),
                pdu.destination_address(),
                pdu.source_address(),
            ),
        );
        self.pdu_to_send = Some(pdu);
        self.timeout_time = deadline(time, ETP_TIMEOUT_T3);
        proof {
            assert(self.spec_backlog() == old(self).spec_backlog());
            assert(out@.subrange(0, old(out)@.len() as int) =~= old(out)@);
        }
    }

    /// Emit the Data Packet Offset frame for the window starting at
    /// `next_packet`, then the granted data-transfer frames, numbered from
    /// one within the window.
    fn send_pdu_data(
        &self,
        next_packet: u32,
        number_of_packets: u8,
        da: IsobusAddress,
        sa: IsobusAddress,
        out: &mut Vec<PDU>,
    )
        requires
            self.wf(),
            self.spec_pdu_to_send() is Some,
            1 <= next_packet <= 0xFFFFFF,
        ensures
            ({
                let data = self.spec_pdu_to_send()->Some_0.spec_data();
                let total = spec_num_packets(data.len() as int);
                let start = next_packet - 1;
                let cnt = if start >= total {
                    0int
                } else if number_of_packets <= total - start {
                    number_of_packets as int
                } else {
                    total - start
                };
                &&& final(out)@.len() == old(out)@.len() + 1 + cnt
                &&& final(out)@.subrange(0, old(out)@.len() as int) == old(out)@
                &&& spec_is_etp_cm_frame(
                    final(out)@[old(out)@.len() as int],
                    ETP_CTRL_DPO,
                    da.0,
                    sa.0,
                )
                &&& final(out)@[old(out)@.len() as int].spec_data() == spec_cm_data(
                    ETP_CTRL_DPO,
                    number_of_packets,
                    (start % 256) as u8,
                    (start / 256 % 256) as u8,
                    (start / 0x10000) as u8,
                    self.spec_pdu_to_send()->Some_0.spec_pgn(),
                )
                &&& forall|i: int|
                    0 <= i < cnt ==> spec_is_etp_dt_frame(
                        #[trigger] final(out)@[old(out)@.len() + 1 + i],
                        da.0,
                        sa.0,
                        i + 1,
                        spec_chunk(data, start + i),
                    )
            }),
    {
        let pdu_to_send = self.pdu_to_send.as_ref().unwrap();
        let data = pdu_to_send.data_raw();
        let len: usize = data.len();
        let total: usize = (len + 6) / 7;
        let offset: u32 = next_packet - 1;
        proof {
            let ofs = offset;
            assert(ofs & 0xFF == ofs % 256 && (ofs >> 8) & 0xFF == ofs / 256 % 256 && (ofs >> 16)
                & 0xFF == ofs / 0x10000) by (bit_vector)
                requires
                    ofs <= 0xFFFFFE,
            ;
        }
        out.push(
            PDU::new_etp_data_packet_offset(
                number_of_packets,
                offset,
                pdu_to_send.pgn(),
                da,
                sa,
            ),
        );
        let start: usize = offset as usize;
        let cnt: usize = if start >= total {
            0
        } else if (number_of_packets as usize) <= total - start {
            number_of_packets as usize
        } else {
            total - start
        };
        let ghost pre_out = out@;
        let ghost n0 = old(out)@.len() as int;
        let mut i: usize = 0;
        while i < cnt
            invariant
                out@.len() == pre_out.len() + i,
                out@.subrange(0, pre_out.len() as int) == pre_out,
                i <= cnt,
                len == data@.len(),
                1 <= len <= ETP_MAX_BYTES,
                total == spec_num_packets(len as int),
                start == next_packet - 1,
                cnt <= total - start || cnt == 0,
                cnt <= number_of_packets,
                cnt == (if start >= total {
                    0int
                } else if number_of_packets <= total - start {
                    number_of_packets as int
                } else {
                    total - start
                }),
                data@ == self.spec_pdu_to_send()->Some_0.spec_data(),
                forall|k: int|
                    0 <= k < i ==> spec_is_etp_dt_frame(
                        #[trigger] out@[pre_out.len() + k],
                        da.0,
                        sa.0,
                        k + 1,
                        spec_chunk(data@, start + k),
                    ),
            decreases cnt - i,
        {
            let packet: usize = start + i;
            let chunk_start: usize = 7 * packet;
            let chunk_end: usize = if chunk_start + 7 <= len {
                chunk_start + 7
            } else {
                len
            };
            proof {
                assert(packet < total);
                assert(7 * packet < len) by (nonlinear_arith)
                    requires
                        packet < total,
                        total == (len + 6) / 7,
                        len >= 1,
                ;
            }
            let mut chunk: Vec<u8> = Vec::new();
            let mut j: usize = chunk_start;
            while j < chunk_end
                invariant
                    chunk_start <= j <= chunk_end,
                    chunk_end <= len,
                    len == data@.len(),
                    chunk@ =~= data@.subrange(chunk_start as int, j as int),
                decreases chunk_end - j,
            {
                chunk.push(data[j]);
                j = j + 1;
            }
            proof {
                assert(chunk@ =~= spec_chunk(data@, packet as int));
            }
            let seqno: u8 = (i + 1) as u8;
            out.push(PDU::new_etp_data_transfer(seqno, chunk.as_slice(), da, sa));
            i = i + 1;
        }
        proof {
            assert(out@.subrange(0, old(out)@.len() as int) =~= old(out)@);
            assert(out@[old(out)@.len() as int] == pre_out[old(out)@.len() as int]);
        }
    }

    /// Advance the session clock and react to one incoming ETP frame; an
    /// expired deadline first aborts the open session with the Timeout
    /// reason. The return value is the sent message once its acknowledge
    /// arrives.
    pub fn process(
        &mut self,
        claimed_address: IsobusAddress,
        pdu: Option<PDU>,
        time: u64,
        out: &mut Vec<PDU>,
    ) -> (r: Option<PDU>)
        requires
            old(self).wf(),
        ensures
            final(self).wf(),
            final(out)@.len() >= old(out)@.len(),
            final(out)@.subrange(0, old(out)@.len() as int) == old(out)@,
            ({
                let pre = *old(self);
                let n0 = old(out)@.len() as int;
                let fired = pre.spec_is_sending() && time > pre.spec_timeout_time();
                &&& fired ==> final(out)@.len() > n0 && spec_is_etp_cm_frame(
                    final(out)@[n0],
                    CTRL_ABORT,
                    pre.spec_pdu_to_send()->Some_0.spec_ps(),
                    claimed_address.0,
                ) && final(out)@[n0].spec_data() == spec_cm_data(
                    CTRL_ABORT,
                    3,
                    0xFF,
                    0xFF,
                    0xFF,
                    pre.spec_pdu_to_send()->Some_0.spec_pgn(),
                )
                &&& fired && pdu is None ==> final(self).spec_is_idle() && final(self)
                    .spec_backlog() == pre.spec_backlog() && final(self).spec_timeout_time()
                    == u64::MAX && final(out)@.len() == n0 + 1 && r is None
                &&& pdu is None && !fired ==> *final(self) == pre && final(out)@ == old(out)@
                    && r is None
                &&& pdu matches Some(p) ==> Self::spec_frame_step(
                    if fired {
                        Option::<PDU>::None
                    } else {
                        pre.spec_pdu_to_send()
                    },
                    pre.spec_backlog(),
                    if fired {
                        u64::MAX
                    } else {
                        pre.spec_timeout_time()
                    },
                    *final(self),
                    if fired {
                        n0 + 1
                    } else {
                        n0
                    },
                    final(out)@,
                    p,
                    claimed_address.0,
                    time,
                    r,
                )
            }),
    {
        let ghost n0 = out@.len() as int;
        if self.pdu_to_send.is_some() && time > self.timeout_time {
            let p = self.pdu_to_send.as_ref().unwrap();
            out.push(
                PDU::new_etp_connection_abort(
                    EtpAbortReasons::Timeout,
                    p.pgn(),
                    p.destination_address(),
                    claimed_address,
                ),
            );
            self.pdu_to_send = None;
            self.timeout_time = u64::MAX;
        }
        let ghost nmid = out@.len() as int;
        let pdu = match pdu {
            Some(p) => p,
            None => {
                proof {
                    assert(out@.subrange(0, n0) =~= old(out)@);
                }
                return None;
            },
        };
        let r = self.process_frame(claimed_address, pdu, time, out);
        proof {
            assert(out@.subrange(0, n0) =~= old(out)@);
            if nmid > n0 {
                assert(out@.subrange(0, nmid)[n0] == out@[n0]);
            }
        }
        r
    }

    /// React to one ETP frame; timeouts have already been handled.
    fn process_frame(
        &mut self,
        claimed_address: IsobusAddress,
        pdu: PDU,
        time: u64,
        out: &mut Vec<PDU>,
    ) -> (r: Option<PDU>)
        requires
            old(self).wf(),
        ensures
            final(self).wf(),
            final(out)@.len() >= old(out)@.len(),
            final(out)@.subrange(0, old(out)@.len() as int) == old(out)@,
            Self::spec_frame_step(
                old(self).spec_pdu_to_send(),
                old(self).spec_backlog(),
                old(self).spec_timeout_time(),
                *final(self),
                old(out)@.len() as int,
                final(out)@,
                pdu,
                claimed_address.0,
                time,
                r,
            ),
    {
        let ghost pre_out = out@;
        if pdu.is_etp_clear_to_send() {
            if self.pdu_to_send.is_some() && pdu.is_address_specific(claimed_address) {
                let d = pdu.data(8);
                let nr_of_packets = d[1];
                let next_packet: u32 = d[2] as u32 | (d[3] as u32) << 8 | (d[4] as u32) << 16;
                proof {
                    let b2 = d@[2];
                    let b3 = d@[3];
                    let b4 = d@[4];
                    assert(b2 as u32 | (b3 as u32) << 8 | (b4 as u32) << 16 == b2 + 0x100 * b3
                        + 0x10000 * b4 && (b2 as u32 | (b3 as u32) << 8 | (b4 as u32) << 16)
                        <= 0xFFFFFF) by (bit_vector);
                }
                if nr_of_packets == 0 {
                    self.timeout_time = deadline(time, ETP_TIMEOUT_T4);
                } else if next_packet >= 1 {
                    self.send_pdu_data(
                        next_packet,
                        nr_of_packets,
                        pdu.source_address(),
                        claimed_address,
                        out,
                    );
                    self.timeout_time = deadline(time, ETP_TIMEOUT_T3);
                }
            }
            None
        } else if pdu.is_etp_end_of_message_acknowledge() {
            if self.pdu_to_send.is_some() && pdu.is_address_specific(claimed_address) {
                let finished = self.pdu_to_send.take();
                self.timeout_time = u64::MAX;
                if self.backlog.len() > 0 {
                    proof {
                        lemma_etp_backlog_ok_skip(old(self).spec_backlog());
                    }
                    let next_pdu = self.backlog.pop_front().unwrap();
                    proof {
                        assert(self.spec_backlog() =~= old(self).spec_backlog().skip(1));
                    }
                    self.open_sending_connection(next_pdu, time, out);
                }
                proof {
                    assert(out@.subrange(0, pre_out.len() as int) =~= pre_out);
                }
                finished
            } else {
                None
            }
        } else if pdu.is_etp_connection_abort() {
            if self.pdu_to_send.is_some() && pdu.is_address_specific(claimed_address) {
                let resend = self.pdu_to_send.take().unwrap();
                self.timeout_time = u64::MAX;
                self.open_sending_connection(resend, time, out);
            }
            None
        } else {
            None
        }
    }
}

} // verus!
