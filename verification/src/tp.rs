//! The Transport Protocol manager: segmented transfers of 9 to 1785 bytes,
//! broadcast (BAM) or directed (RTS/CTS/EoMA), one outbound and one inbound
//! session at a time, with a FIFO backlog of waiting messages.

use vstd::prelude::*;

use crate::isobus::IsobusAddress;
use crate::isobus::ADDRESS_GLOBAL;
use crate::pdu::spec_padded8;
use crate::pdu::spec_padded_byte;
use crate::pdu::PDU;
use crate::pgn::PGN;
use crate::pgn::PGN_TP_CM;
use crate::pgn::PGN_TP_DT;
use crate::time::deadline;
use crate::time::spec_deadline;
use crate::transport_pdu::spec_cm_data;
use crate::transport_pdu::spec_dt_data;
use crate::transport_pdu::TpAbortReasons;
use crate::transport_pdu::CTRL_ABORT;
use crate::transport_pdu::TP_CTRL_BAM;
use crate::transport_pdu::TP_CTRL_CTS;
use crate::transport_pdu::TP_CTRL_EOMA;
use crate::transport_pdu::TP_CTRL_RTS;
use std::collections::VecDeque;

verus! {

/// Longest gap allowed between two data-transfer frames while receiving.
pub const TP_TIMEOUT_T1: u64 = 750;

/// Longest wait for the first data-transfer frame after sending a CTS.
pub const TP_TIMEOUT_T2: u64 = 1250;

/// Longest wait for a CTS after an RTS, or for the acknowledge after the
/// last data-transfer frame.
pub const TP_TIMEOUT_T3: u64 = 1750;

/// Hold time while the peer pauses the session with a zero-packet CTS.
pub const TP_TIMEOUT_T4: u64 = 1050;

/// Largest payload the Transport Protocol can carry.
pub const TP_MAX_BYTES: usize = 1785;

/// How many data-transfer frames a payload of `len` bytes needs: seven bytes
/// travel per frame, the last frame padded.
pub open spec fn spec_num_packets(len: int) -> int {
    (len + 6) / 7
}

/// The bytes of packet `k` (zero-based): the `k`-th seven-byte slice of the
/// payload, shorter at the end.
pub open spec fn spec_chunk(data: Seq<u8>, k: int) -> Seq<u8> {
    data.subrange(
        7 * k,
        if 7 * k + 7 <= data.len() {
            7 * k + 7
        } else {
            data.len() as int
        },
    )
}

/// Whether `p` is a TP connection-management frame with the given control
/// byte, destination and source.
pub open spec fn spec_is_tp_cm_frame(p: PDU, ctrl: u8, da: u8, sa: u8) -> bool {
    &&& p.spec_pgn() == PGN_TP_CM
    &&& spec_padded_byte(p, 0) == ctrl
    &&& p.spec_ps() == da
    &&& p.spec_sa() == sa
}

/// Whether `p` is a TP data-transfer frame carrying `chunk` under sequence
/// number `seqno`.
pub open spec fn spec_is_tp_dt_frame(p: PDU, da: u8, sa: u8, seqno: int, chunk: Seq<u8>) -> bool {
    &&& p.spec_pgn() == PGN_TP_DT
    &&& p.spec_ps() == da
    &&& p.spec_sa() == sa
    &&& p.spec_data() == spec_dt_data(seqno as u8, chunk)
}

/// The PGN a connection-management frame names in its last three bytes.
pub open spec fn spec_embedded_pgn(p: PDU) -> int {
    spec_padded_byte(p, 5) + 0x100 * spec_padded_byte(p, 6) + 0x10000 * spec_padded_byte(p, 7)
}

/// The reassembly buffer after storing a data-transfer frame: the frame's
/// seven payload bytes land at `(packet_nr - 1) * 7`, clipped to the buffer;
/// `dt` is the frame's eight data bytes, padded with `0xFF`.
pub open spec fn spec_store_chunk(buffer: Seq<u8>, packet_nr: int, dt: Seq<u8>) -> Seq<u8> {
    Seq::new(
        buffer.len(),
        |j: int|
            if (packet_nr - 1) * 7 <= j < (packet_nr - 1) * 7 + 7 {
                dt[j - (packet_nr - 1) * 7 + 1]
            } else {
                buffer[j]
            },
    )
}

/// Whether every message in a backlog fits the protocol's payload bounds.
pub open spec fn spec_backlog_ok(b: Seq<PDU>) -> bool {
    forall|i: int| 0 <= i < b.len() ==> 1 <= (#[trigger] b[i]).spec_data().len() <= TP_MAX_BYTES
}

/// A backlog stays within bounds when a message within bounds joins it.
proof fn lemma_backlog_ok_push(b: Seq<PDU>, p: PDU)
    requires
        spec_backlog_ok(b),
        1 <= p.spec_data().len() <= TP_MAX_BYTES,
    ensures
        spec_backlog_ok(b.push(p)),
{
    assert forall|i: int| 0 <= i < b.push(p).len() implies 1 <= (
    #[trigger] b.push(p)[i]).spec_data().len() <= TP_MAX_BYTES by {
        if i < b.len() {
            assert(b.push(p)[i] == b[i]);
        } else {
            assert(b.push(p)[i] == p);
        }
    }
}

/// A backlog stays within bounds when its front message leaves.
proof fn lemma_backlog_ok_skip(b: Seq<PDU>)
    requires
        spec_backlog_ok(b),
        b.len() >= 1,
    ensures
        spec_backlog_ok(b.skip(1)),
{
    assert forall|i: int| 0 <= i < b.skip(1).len() implies 1 <= (
    #[trigger] b.skip(1)[i]).spec_data().len() <= TP_MAX_BYTES by {
        assert(b.skip(1)[i] == b[i + 1]);
    }
}

/// The size classifier's packet count is exact: a payload of `len` bytes
/// needs `spec_num_packets(len)` data-transfer frames — one fewer would
/// carry less than `len` bytes, and that many carry it with room only for
/// the final frame's padding.
pub proof fn lemma_packet_count(len: int)
    requires
        1 <= len,
    ensures
        7 * (spec_num_packets(len) - 1) < len <= 7 * spec_num_packets(len),
{
    assert(7 * ((len + 6) / 7 - 1) < len <= 7 * ((len + 6) / 7)) by (nonlinear_arith)
        requires
            len >= 1,
    ;
}

/// The reassembly buffer after the first `k` data-transfer frames of a
/// transfer carrying `p` have been stored, starting from the fresh `0xFF`
/// buffer the receiver allocates for the announced length.
pub open spec fn spec_reassemble(p: Seq<u8>, k: int) -> Seq<u8>
    decreases k,
{
    if k <= 0 {
        Seq::new(p.len(), |j: int| 0xFFu8)
    } else {
        spec_store_chunk(
            spec_reassemble(p, k - 1),
            k,
            spec_dt_data(k as u8, spec_chunk(p, k - 1)),
        )
    }
}

proof fn lemma_reassemble_prefix(p: Seq<u8>, k: int)
    requires
        1 <= p.len(),
        0 <= k,
        k <= spec_num_packets(p.len() as int),
        spec_num_packets(p.len() as int) <= 255,
    ensures
        spec_reassemble(p, k).len() == p.len(),
        forall|j: int|
            0 <= j < p.len() ==> #[trigger] spec_reassemble(p, k)[j] == (if j < 7 * k {
                p[j]
            } else {
                0xFFu8
            }),
    decreases k,
{
    if k > 0 {
        lemma_reassemble_prefix(p, k - 1);
        let prev = spec_reassemble(p, k - 1);
        let chunk = spec_chunk(p, k - 1);
        let dt = spec_dt_data(k as u8, chunk);
        let base = (k - 1) * 7;
        assert(7 * (k - 1) < p.len()) by (nonlinear_arith)
            requires
                k <= (p.len() + 6) / 7,
                k >= 1,
                p.len() >= 1,
        ;
        assert forall|j: int| 0 <= j < p.len() implies #[trigger] spec_reassemble(p, k)[j] == (
        if j < 7 * k {
            p[j]
        } else {
            0xFFu8
        }) by {
            if base <= j < base + 7 {
                assert(dt[j - base + 1] == chunk[j - base]);
                assert(chunk[j - base] == p[j]);
            } else {
                assert(spec_reassemble(p, k)[j] == prev[j]);
            }
        }
    }
}

/// Reassembly is correct: for a payload of any Transport Protocol size,
/// storing the data-transfer frames of its packets, in order, into the
/// `0xFF`-filled buffer allocated for its announced length rebuilds exactly
/// the payload, with no padding byte of the final frame left visible.
pub proof fn lemma_tp_reassembly(p: Seq<u8>)
    requires
        1 <= p.len() <= TP_MAX_BYTES,
    ensures
        spec_reassemble(p, spec_num_packets(p.len() as int)) == p,
{
    let total = spec_num_packets(p.len() as int);
    assert(total <= 255 && 7 * total >= p.len()) by (nonlinear_arith)
        requires
            total == (p.len() + 6) / 7,
            1 <= p.len() <= 1785,
    ;
    lemma_reassemble_prefix(p, total);
    assert(spec_reassemble(p, total) =~= p);
}

/// Manager of one TP send session and one TP receive session.
pub struct TransportProtocolManager {
    backlog: VecDeque<PDU>,
    pdu_to_send: Option<PDU>,
    timeout_time: u64,
    receive_buffer: Vec<u8>,
    receive_pgn: Option<PGN>,
    receive_nr_of_packets: u8,
    receive_peer: u8,
}

impl TransportProtocolManager {
    pub closed spec fn spec_backlog(&self) -> Seq<PDU> {
        self.backlog@
    }

    pub closed spec fn spec_pdu_to_send(&self) -> Option<PDU> {
        self.pdu_to_send
    }

    pub closed spec fn spec_timeout_time(&self) -> u64 {
        self.timeout_time
    }

    pub closed spec fn spec_receive_buffer(&self) -> Seq<u8> {
        self.receive_buffer@
    }

    pub closed spec fn spec_receive_pgn(&self) -> Option<PGN> {
        self.receive_pgn
    }

    pub closed spec fn spec_receive_total(&self) -> u8 {
        self.receive_nr_of_packets
    }

    pub closed spec fn spec_receive_peer(&self) -> u8 {
        self.receive_peer
    }

    pub open spec fn spec_is_sending(&self) -> bool {
        self.spec_pdu_to_send() is Some
    }

    pub open spec fn spec_is_receiving(&self) -> bool {
        self.spec_pdu_to_send() is None && self.spec_receive_pgn() is Some
    }

    pub open spec fn spec_is_idle(&self) -> bool {
        self.spec_pdu_to_send() is None && self.spec_receive_pgn() is None
    }

    pub open spec fn spec_is_connected(&self) -> bool {
        !self.spec_is_idle()
    }

    /// Every queued or in-flight message fits the protocol's 1785-byte cap,
    /// the receive buffer fits the 16-bit byte count of the announcing RTS,
    /// and an idle manager holds no receive state. Constructors establish
    /// this and every method keeps it.
    pub open spec fn wf(self) -> bool {
        &&& self.spec_pdu_to_send() matches Some(p) ==> 1 <= p.spec_data().len() <= TP_MAX_BYTES
        &&& spec_backlog_ok(self.spec_backlog())
        &&& self.spec_receive_buffer().len() <= 0xFFFF
        &&& self.spec_receive_pgn() is None ==> self.spec_receive_total() == 0
            && self.spec_receive_buffer().len() == 0
    }

    /// What opening an outbound session leaves behind: the message is in
    /// flight, the T3 deadline armed, no receive session open, and frames
    /// from index `n` of the output carry either one RTS (directed) or a BAM
    /// followed by every data-transfer frame (broadcast).
    pub open spec fn spec_opened(
        post: Self,
        backlog: Seq<PDU>,
        n: int,
        post_out: Seq<PDU>,
        pdu: PDU,
        time: u64,
    ) -> bool {
        let len = pdu.spec_data().len() as int;
        let total = spec_num_packets(len);
        &&& post.spec_pdu_to_send() == Some(pdu)
        &&& post.spec_timeout_time() == spec_deadline(time, TP_TIMEOUT_T3)
        &&& post.spec_backlog() == backlog
        &&& post.spec_receive_pgn() is None
        &&& post.spec_receive_total() == 0
        &&& post.spec_receive_buffer().len() == 0
        &&& if pdu.spec_is_pdu1() {
            &&& post_out.len() == n + 1
            &&& spec_is_tp_cm_frame(post_out[n], TP_CTRL_RTS, pdu.spec_ps(), pdu.spec_sa())
            &&& post_out[n].spec_data() == spec_cm_data(
                TP_CTRL_RTS,
                (len % 256) as u8,
                (len / 256) as u8,
                total as u8,
                0x10,
                pdu.spec_pgn(),
            )
        } else {
            &&& post_out.len() == n + 1 + total
            &&& spec_is_tp_cm_frame(post_out[n], TP_CTRL_BAM, ADDRESS_GLOBAL, pdu.spec_sa())
            &&& post_out[n].spec_data() == spec_cm_data(
                TP_CTRL_BAM,
                (len % 256) as u8,
                (len / 256) as u8,
                total as u8,
                0xFF,
                pdu.spec_pgn(),
            )
            &&& forall|i: int|
                0 <= i < total ==> spec_is_tp_dt_frame(
                    #[trigger] post_out[n + 1 + i],
                    ADDRESS_GLOBAL,
                    pdu.spec_sa(),
                    i + 1,
                    spec_chunk(pdu.spec_data(), i),
                )
        }
    }

    /// How one transport frame moves the session state. The first six
    /// parameters are the state the frame meets (after any timeout has been
    /// handled); `post` and `post_out` are the state and output afterwards,
    /// with `n` the output length beforehand; `r` is the finished message
    /// handed up, if any.
    pub open spec fn spec_frame_step(
        sending0: Option<PDU>,
        rx_pgn0: Option<PGN>,
        rx_total0: u8,
        rx_buf0: Seq<u8>,
        backlog0: Seq<PDU>,
        timeout0: u64,
        post: Self,
        n: int,
        post_out: Seq<PDU>,
        p: PDU,
        claimed: u8,
        time: u64,
        r: Option<PDU>,
    ) -> bool {
        let is_sending = sending0 is Some;
        let is_receiving = sending0 is None && rx_pgn0 is Some;
        let unchanged = {
            &&& post.spec_pdu_to_send() == sending0
            &&& post.spec_receive_pgn() == rx_pgn0
            &&& post.spec_receive_total() == rx_total0
            &&& post.spec_receive_buffer() == rx_buf0
            &&& post.spec_backlog() == backlog0
            &&& post.spec_timeout_time() == timeout0
        };
        let b0 = spec_padded_byte(p, 0);
        let cm = p.spec_pgn() == PGN_TP_CM;
        let dt = p.spec_pgn() == PGN_TP_DT;
        // A Request To Send opens a receive session when idle (answered by a
        // CTS granting every packet) and is refused with an AlreadyConnected
        // abort otherwise.
        &&& cm && b0 == TP_CTRL_RTS ==> (if is_sending || is_receiving {
            &&& unchanged
            &&& post_out.len() == n + 1
            &&& spec_is_tp_cm_frame(post_out[n], CTRL_ABORT, p.spec_sa(), claimed)
            &&& post_out[n].spec_data() == spec_cm_data(
                CTRL_ABORT,
                1,
                0xFF,
                0xFF,
                0xFF,
                spec_embedded_pgn(p) as u32,
            )
            &&& r is None
        } else {
            let nbytes = spec_padded_byte(p, 1) + 0x100 * spec_padded_byte(p, 2);
            &&& post.spec_pdu_to_send() is None
            &&& (post.spec_receive_pgn() matches Some(g) && g.spec_as_u32() == spec_embedded_pgn(
                p,
            ))
            &&& post.spec_receive_total() == spec_padded_byte(p, 3)
            &&& post.spec_receive_peer() == p.spec_sa()
            &&& post.spec_receive_buffer() == Seq::new(nbytes as nat, |j: int| 0xFFu8)
            &&& post.spec_timeout_time() == spec_deadline(time, TP_TIMEOUT_T2)
            &&& post.spec_backlog() == backlog0
            &&& post_out.len() == n + 1
            &&& spec_is_tp_cm_frame(post_out[n], TP_CTRL_CTS, p.spec_sa(), claimed)
            &&& post_out[n].spec_data() == spec_cm_data(
                TP_CTRL_CTS,
                spec_padded_byte(p, 3),
                1,
                0xFF,
                0xFF,
                spec_embedded_pgn(p) as u32,
            )
            &&& r is None
        })
        // A Clear To Send releases the granted run of data-transfer frames,
        // or pauses the session when it grants zero packets.
        &&& cm && b0 == TP_CTRL_CTS ==> (if is_sending {
            let nr = spec_padded_byte(p, 1);
            let next = spec_padded_byte(p, 2);
            if nr == 0 {
                &&& post.spec_pdu_to_send() == sending0
                &&& post.spec_receive_pgn() == rx_pgn0
                &&& post.spec_receive_total() == rx_total0
                &&& post.spec_receive_buffer() == rx_buf0
                &&& post.spec_backlog() == backlog0
                &&& post.spec_timeout_time() == spec_deadline(time, TP_TIMEOUT_T4)
                &&& post_out.len() == n
                &&& r is None
            } else if next >= 1 {
                let data = sending0->Some_0.spec_data();
                let total = spec_num_packets(data.len() as int);
                let start = next - 1;
                let cnt = if start >= total {
                    0int
                } else if nr <= total - start {
                    nr as int
                } else {
                    total - start
                };
                &&& post.spec_pdu_to_send() == sending0
                &&& post.spec_receive_pgn() == rx_pgn0
                &&& post.spec_receive_total() == rx_total0
                &&& post.spec_receive_buffer() == rx_buf0
                &&& post.spec_backlog() == backlog0
                &&& post.spec_timeout_time() == spec_deadline(time, TP_TIMEOUT_T3)
                &&& post_out.len() == n + cnt
                &&& forall|i: int|
                    0 <= i < cnt ==> spec_is_tp_dt_frame(
                        #[trigger] post_out[n + i],
                        p.spec_sa(),
                        claimed,
                        start + 1 + i,
                        spec_chunk(data, start + i),
                    )
                &&& r is None
            } else {
                unchanged && post_out.len() == n && r is None
            }
        } else {
            unchanged && post_out.len() == n && r is None
        })
        // An End of Message Acknowledge completes the outbound session and
        // hands the finished message back; the next queued message, if any,
        // opens at once.
        &&& cm && b0 == TP_CTRL_EOMA ==> (if is_sending {
            &&& r == sending0
            &&& if backlog0.len() == 0 {
                &&& post.spec_is_idle()
                &&& post.spec_backlog() == backlog0
                &&& post_out.len() == n
            } else {
                Self::spec_opened(post, backlog0.skip(1), n, post_out, backlog0[0], time)
            }
        } else {
            unchanged && post_out.len() == n && r is None
        })
        // A data-transfer frame lands in the reassembly buffer; the final one
        // triggers the acknowledge and hands up the rebuilt message.
        &&& dt ==> (if is_receiving {
            let pn = b0;
            let g = rx_pgn0->Some_0.spec_as_u32();
            let buf1 = spec_store_chunk(rx_buf0, pn as int, spec_padded8(p));
            if pn == 0 {
                unchanged && post_out.len() == n && r is None
            } else if pn == rx_total0 {
                &&& post.spec_is_idle()
                &&& post.spec_backlog() == backlog0
                &&& post_out.len() == n + 1
                &&& spec_is_tp_cm_frame(post_out[n], TP_CTRL_EOMA, p.spec_sa(), claimed)
                &&& post_out[n].spec_data() == spec_cm_data(
                    TP_CTRL_EOMA,
                    (rx_buf0.len() as int % 256) as u8,
                    (rx_buf0.len() as int / 256) as u8,
                    rx_total0,
                    0xFF,
                    g,
                )
                &&& (r matches Some(q) && {
                    &&& q.spec_sa() == p.spec_sa()
                    &&& q.spec_data() == buf1
                    &&& q.spec_pf() == ((g >> 8) & 0xFF) as u8
                    &&& (g >> 8) & 0xFF < 240 ==> q.spec_ps() == claimed && q.spec_pgn() == g
                        & 0x3FF00
                    &&& (g >> 8) & 0xFF >= 240 ==> q.spec_pgn() == g & 0x3FFFF
                })
            } else {
                &&& post.spec_pdu_to_send() is None
                &&& post.spec_receive_pgn() == rx_pgn0
                &&& post.spec_receive_total() == rx_total0
                &&& post.spec_receive_buffer() == buf1
                &&& post.spec_backlog() == backlog0
                &&& post.spec_timeout_time() == spec_deadline(time, TP_TIMEOUT_T1)
                &&& post_out.len() == n
                &&& r is None
            }
        } else {
            unchanged && post_out.len() == n && r is None
        })
        // A peer abort while sending retries the in-flight message from the
        // start: the session reopens immediately.
        &&& cm && b0 == CTRL_ABORT ==> (if is_sending {
            &&& Self::spec_opened(post, backlog0, n, post_out, sending0->Some_0, time)
            &&& r is None
        } else {
            unchanged && post_out.len() == n && r is None
        })
        // Everything else leaves the session alone.
        &&& cm && b0 != TP_CTRL_RTS && b0 != TP_CTRL_CTS && b0 != TP_CTRL_EOMA && b0
            != CTRL_ABORT ==> unchanged && post_out.len() == n && r is None
        &&& !cm && !dt ==> unchanged && post_out.len() == n && r is None
    }

    /// Whether `q` is queued or in flight in this manager.
    pub open spec fn spec_outbound_contains(m: Self, q: PDU) -> bool {
        m.spec_pdu_to_send() == Some(q) || m.spec_backlog().contains(q)
    }

    /// Provenance of what a frame step hands up or keeps: a finished message
    /// is either the one that was in flight or a reassembled message that
    /// passes the destination filter, and the step never puts a new message
    /// into the outbound set.
    pub proof fn lemma_frame_step_outbound(
        sending0: Option<PDU>,
        rx_pgn0: Option<PGN>,
        rx_total0: u8,
        rx_buf0: Seq<u8>,
        backlog0: Seq<PDU>,
        timeout0: u64,
        post: Self,
        n: int,
        post_out: Seq<PDU>,
        p: PDU,
        claimed: u8,
        time: u64,
        r: Option<PDU>,
    )
        requires
            Self::spec_frame_step(
                sending0,
                rx_pgn0,
                rx_total0,
                rx_buf0,
                backlog0,
                timeout0,
                post,
                n,
                post_out,
                p,
                claimed,
                time,
                r,
            ),
        ensures
            r matches Some(q) ==> sending0 == Some(q) || q.spec_is_address_global()
                || q.spec_is_address_specific(claimed),
            forall|q: PDU|
                #[trigger] Self::spec_outbound_contains(post, q) ==> sending0 == Some(q)
                    || backlog0.contains(q),
    {
        let b0 = spec_padded_byte(p, 0);
        let cm = p.spec_pgn() == PGN_TP_CM;
        let dt = p.spec_pgn() == PGN_TP_DT;
        if dt && sending0 is None && rx_pgn0 is Some && b0 != 0 && b0 == rx_total0 {
            let g = rx_pgn0->Some_0.spec_as_u32();
            let q = r->Some_0;
            assert((g >> 8) & 0xFF <= 0xFF) by (bit_vector);
            if (g >> 8) & 0xFF < 240 {
                assert(q.spec_is_address_specific(claimed));
            } else {
                assert(!q.spec_is_pdu1());
            }
        }
        if cm && b0 == TP_CTRL_EOMA && sending0 is Some && backlog0.len() > 0 {
            assert forall|q: PDU| #[trigger] Self::spec_outbound_contains(post, q) implies sending0
                == Some(q) || backlog0.contains(q) by {
                if post.spec_pdu_to_send() == Some(q) {
                    assert(backlog0[0] == q);
                    assert(backlog0.contains(q));
                } else if post.spec_backlog().contains(q) {
                    let i = choose|i: int|
                        0 <= i < post.spec_backlog().len() && post.spec_backlog()[i] == q;
                    assert(backlog0[i + 1] == q);
                    assert(backlog0.contains(q));
                }
            }
        }
    }

    pub fn new() -> (r: Self)
        ensures
            r.wf(),
            r.spec_is_idle(),
            r.spec_backlog() == Seq::<PDU>::empty(),
            r.spec_timeout_time() == u64::MAX,
    {
        let r = TransportProtocolManager {
            backlog: VecDeque::new(),
            pdu_to_send: None,
            timeout_time: u64::MAX,
            receive_buffer: Vec::new(),
            receive_pgn: None,
            receive_nr_of_packets: 0,
            receive_peer: 0,
        };
        proof {
            assert(r.spec_backlog() =~= Seq::<PDU>::empty());
        }
        r
    }

    /// Hand a message to the transport. An idle manager opens the session at
    /// once (RTS, or BAM plus all data for a broadcast); a busy one queues
    /// the message at the back of the FIFO backlog.
    pub fn send(&mut self, pdu: PDU, time: u64, out: &mut Vec<PDU>)
        requires
            old(self).wf(),
            1 <= pdu.spec_data().len() <= TP_MAX_BYTES,
        ensures
            final(self).wf(),
            final(out)@.len() >= old(out)@.len(),
            final(out)@.subrange(0, old(out)@.len() as int) == old(out)@,
            old(self).spec_is_idle() ==> Self::spec_opened(
                *final(self),
                old(self).spec_backlog(),
                old(out)@.len() as int,
                final(out)@,
                pdu,
                time,
            ),
            !old(self).spec_is_idle() ==> {
                &&& final(self).spec_backlog() == old(self).spec_backlog().push(pdu)
                &&& final(self).spec_pdu_to_send() == old(self).spec_pdu_to_send()
                &&& final(self).spec_receive_pgn() == old(self).spec_receive_pgn()
                &&& final(self).spec_receive_buffer() == old(self).spec_receive_buffer()
                &&& final(self).spec_receive_total() == old(self).spec_receive_total()
                &&& final(self).spec_timeout_time() == old(self).spec_timeout_time()
                &&& final(out)@ == old(out)@
            },
    {
        if self.pdu_to_send.is_none() && self.receive_pgn.is_none() {
            self.open_sending_connection(pdu, time, out);
        } else {
            proof {
                lemma_backlog_ok_push(self.spec_backlog(), pdu);
            }
            self.backlog.push_back(pdu);
        }
        proof {
            assert(final(out)@.subrange(0, old(out)@.len() as int) =~= old(out)@);
        }
    }

    /// Open the outbound session for `pdu`.
    fn open_sending_connection(&mut self, pdu: PDU, time: u64, out: &mut Vec<PDU>)
        requires
            old(self).wf(),
            old(self).spec_is_idle(),
            1 <= pdu.spec_data().len() <= TP_MAX_BYTES,
        ensures
            final(self).wf(),
            final(out)@.subrange(0, old(out)@.len() as int) == old(out)@,
            Self::spec_opened(
                *final(self),
                old(self).spec_backlog(),
                old(out)@.len() as int,
                final(out)@,
                pdu,
                time,
            ),
    {
        let ghost pre_out = out@;
        let number_of_bytes: u16 = pdu.data_len() as u16;
        let number_of_packets: u8 = ((number_of_bytes + 7 - 1) / 7) as u8;
        proof {
            let nb = number_of_bytes;
            assert(nb & 0xFF == nb % 256 && nb >> 8 == nb / 256) by (bit_vector);
        }
        if pdu.is_pdu2() {
            out.push(
                PDU::new_tp_broadcast_announce_message(
                    number_of_bytes,
                    number_of_packets,
                    pdu.pgn(),
                    pdu.source_address(),
                ),
            );
            let ghost mid_out = out@;
            self.pdu_to_send = Some(pdu);
            proof {
                assert(self.spec_backlog() == old(self).spec_backlog());
            }
            self.send_pdu_data(
                1,
                number_of_packets,
                IsobusAddress(ADDRESS_GLOBAL),
                self.pdu_to_send.as_ref().unwrap().source_address(),
                out,
            );
            proof {
                assert(out@.subrange(0, pre_out.len() as int) =~= pre_out);
                assert(out@[pre_out.len() as int] == mid_out[pre_out.len() as int]);
            }
        } else {
            out.push(
                PDU::new_tp_request_to_send(
                    number_of_bytes,
                    number_of_packets,
                    pdu.pgn(),
                    pdu.destination_address(),
                    pdu.source_address(),
                ),
            );
            self.pdu_to_send = Some(pdu);
        }
        self.timeout_time = deadline(time, TP_TIMEOUT_T3);
        proof {
            assert(self.spec_backlog() == old(self).spec_backlog());
            assert(out@.subrange(0, pre_out.len() as int) =~= pre_out);
        }
    }

    /// Emit the data-transfer frames for packets `next_packet` up to
    /// `next_packet + number_of_packets - 1`, clipped to the packets the
    /// in-flight message actually has.
    pub fn send_pdu_data(
        &self,
        next_packet: u8,
        number_of_packets: u8,
        da: IsobusAddress,
        sa: IsobusAddress,
        out: &mut Vec<PDU>,
    )
        requires
            self.wf(),
            self.spec_pdu_to_send() is Some,
            next_packet >= 1,
        ensures
            ({
                let data = self.spec_pdu_to_send()->Some_0.spec_data();
                let total = spec_num_packets(data.len() as int);
                let start = next_packet - 1;
                let cnt = if start >= total {
                    0int
                } else if number_of_packets <= total - start {
                    number_of_packets as int
                } else {
                    total - start
                };
                &&& final(out)@.len() == old(out)@.len() + cnt
                &&& final(out)@.subrange(0, old(out)@.len() as int) == old(out)@
                &&& forall|i: int|
                    0 <= i < cnt ==> spec_is_tp_dt_frame(
                        #[trigger] final(out)@[old(out)@.len() + i],
                        da.0,
                        sa.0,
                        start + 1 + i,
                        spec_chunk(data, start + i),
                    )
            }),
    {
        let pdu_to_send = self.pdu_to_send.as_ref().unwrap();
        let data = pdu_to_send.data_raw();
        let len: usize = data.len();
        let total: usize = (len + 6) / 7;
        let start: usize = (next_packet - 1) as usize;
        let cnt: usize = if start >= total {
            0
        } else if (number_of_packets as usize) <= total - start {
            number_of_packets as usize
        } else {
            total - start
        };
        let ghost pre_out = out@;
        let mut i: usize = 0;
        while i < cnt
            invariant
                out@.len() == pre_out.len() + i,
                out@.subrange(0, pre_out.len() as int) == pre_out,
                i <= cnt,
                len == data@.len(),
                1 <= len <= TP_MAX_BYTES,
                total == spec_num_packets(len as int),
                start == next_packet - 1,
                cnt <= total - start || cnt == 0,
                cnt == (if start >= total {
                    0int
                } else if number_of_packets <= total - start {
                    number_of_packets as int
                } else {
                    total - start
                }),
                data@ == self.spec_pdu_to_send()->Some_0.spec_data(),
                forall|k: int|
                    0 <= k < i ==> spec_is_tp_dt_frame(
                        #[trigger] out@[pre_out.len() + k],
                        da.0,
                        sa.0,
                        start + 1 + k,
                        spec_chunk(data@, start + k),
                    ),
            decreases cnt - i,
        {
            let packet: usize = start + i;
            let chunk_start: usize = 7 * packet;
            let chunk_end: usize = if chunk_start + 7 <= len {
                chunk_start + 7
            } else {
                len
            };
            proof {
                assert(packet < total);
                assert(7 * packet < len) by (nonlinear_arith)
                    requires
                        packet < total,
                        total == (len + 6) / 7,
                        len >= 1,
                ;
            }
            let mut chunk: Vec<u8> = Vec::new();
            let mut j: usize = chunk_start;
            while j < chunk_end
                invariant
                    chunk_start <= j <= chunk_end,
                    chunk_end <= len,
                    len == data@.len(),
                    chunk@ =~= data@.subrange(chunk_start as int, j as int),
                decreases chunk_end - j,
            {
                chunk.push(data[j]);
                j = j + 1;
            }
            proof {
                assert(chunk@ =~= spec_chunk(data@, packet as int));
                assert(packet + 1 <= total);
                assert(total <= 255) by (nonlinear_arith)
                    requires
                        total == (len + 6) / 7,
                        len <= 1785,
                ;
            }
            let seqno: u8 = (packet + 1) as u8;
            out.push(PDU::new_tp_data_transfer(seqno, chunk.as_slice(), da, sa));
            i = i + 1;
        }
        proof {
            assert(out@.subrange(0, pre_out.len() as int) =~= pre_out);
        }
    }

    /// Advance the session clock and react to one incoming transport frame.
    ///
    /// The caller hands in a frame already filtered as global-or-ours, or
    /// `None` when the driver ran dry; in either case an expired deadline
    /// first aborts the open session with the Timeout reason. The return
    /// value is the finished message: the sent message when its acknowledge
    /// arrives, or the reassembled one when its last data-transfer frame
    /// does.
    pub fn process(
        &mut self,
        claimed_address: IsobusAddress,
        pdu: Option<PDU>,
        time: u64,
        out: &mut Vec<PDU>,
    ) -> (r: Option<PDU>)
        requires
            old(self).wf(),
        ensures
            final(self).wf(),
            final(out)@.len() >= old(out)@.len(),
            final(out)@.subrange(0, old(out)@.len() as int) == old(out)@,
            ({
                let pre = *old(self);
                let n0 = old(out)@.len() as int;
                let fired = pre.spec_is_connected() && time > pre.spec_timeout_time();
                let abort_da = if pre.spec_is_sending() {
                    pre.spec_pdu_to_send()->Some_0.spec_ps()
                } else {
                    pre.spec_receive_peer()
                };
                let abort_pgn = if pre.spec_is_sending() {
                    pre.spec_pdu_to_send()->Some_0.spec_pgn()
                } else {
                    pre.spec_receive_pgn()->Some_0.spec_as_u32()
                };
                &&& fired ==> final(out)@.len() > n0 && spec_is_tp_cm_frame(
                    final(out)@[n0],
                    CTRL_ABORT,
                    abort_da,
                    claimed_address.0,
                ) && final(out)@[n0].spec_data() == spec_cm_data(
                    CTRL_ABORT,
                    3,
                    0xFF,
                    0xFF,
                    0xFF,
                    abort_pgn,
                )
                &&& fired && pdu is None ==> final(self).spec_is_idle() && final(self)
                    .spec_backlog() == pre.spec_backlog() && final(self).spec_timeout_time()
                    == u64::MAX && final(out)@.len() == n0 + 1 && r is None
                &&& pdu is None && !fired ==> *final(self) == pre && final(out)@ == old(out)@
                    && r is None
                &&& pdu matches Some(p) ==> Self::spec_frame_step(
                    if fired {
                        Option::<PDU>::None
                    } else {
                        pre.spec_pdu_to_send()
                    },
                    if fired {
                        Option::<PGN>::None
                    } else {
                        pre.spec_receive_pgn()
                    },
                    if fired {
                        0u8
                    } else {
                        pre.spec_receive_total()
                    },
                    if fired {
                        Seq::<u8>::empty()
                    } else {
                        pre.spec_receive_buffer()
                    },
                    pre.spec_backlog(),
                    if fired {
                        u64::MAX
                    } else {
                        pre.spec_timeout_time()
                    },
                    *final(self),
                    if fired {
                        n0 + 1
                    } else {
                        n0
                    },
                    final(out)@,
                    p,
                    claimed_address.0,
                    time,
                    r,
                )
            }),
    {
        let ghost n0 = out@.len() as int;
        let connected = self.pdu_to_send.is_some() || self.receive_pgn.is_some();
        if connected && time > self.timeout_time {
            if let Some(p) = &self.pdu_to_send {
                out.push(
                    PDU::new_tp_connection_abort(
                        TpAbortReasons::Timeout,
                        p.pgn(),
                        p.destination_address(),
                        claimed_address,
                    ),
                );
            } else {
                let g = self.receive_pgn.unwrap();
                out.push(
                    PDU::new_tp_connection_abort(
                        TpAbortReasons::Timeout,
                        g,
                        IsobusAddress(self.receive_peer),
                        claimed_address,
                    ),
                );
            }
            self.close_connection();
        }
        let ghost nmid = out@.len() as int;
        let ghost mid_out = out@;
        let pdu = match pdu {
            Some(p) => p,
            None => {
                proof {
                    assert(out@.subrange(0, n0) =~= old(out)@);
                }
                return None;
            },
        };
        let r = self.process_frame(claimed_address, pdu, time, out);
        proof {
            assert(out@.subrange(0, n0) =~= old(out)@);
            if nmid > n0 {
                assert(out@.subrange(0, nmid)[n0] == out@[n0]);
            }
        }
        r
    }

    /// React to one transport frame; timeouts have already been handled.
    fn process_frame(
        &mut self,
        claimed_address: IsobusAddress,
        pdu: PDU,
        time: u64,
        out: &mut Vec<PDU>,
    ) -> (r: Option<PDU>)
        requires
            old(self).wf(),
        ensures
            final(self).wf(),
            final(out)@.len() >= old(out)@.len(),
            final(out)@.subrange(0, old(out)@.len() as int) == old(out)@,
            Self::spec_frame_step(
                old(self).spec_pdu_to_send(),
                old(self).spec_receive_pgn(),
                old(self).spec_receive_total(),
                old(self).spec_receive_buffer(),
                old(self).spec_backlog(),
                old(self).spec_timeout_time(),
                *final(self),
                old(out)@.len() as int,
                final(out)@,
                pdu,
                claimed_address.0,
                time,
                r,
            ),
    {
        let ghost pre_out = out@;
        if pdu.is_tp_request_to_send() {
            let d = pdu.data(8);
            let announced = PGN::from_le_bytes([d[5], d[6], d[7]]);
            if self.pdu_to_send.is_none() && self.receive_pgn.is_none() {
                let nr_of_bytes: u16 = d[1] as u16 | (d[2] as u16) << 8;
                proof {
                    let b1 = d@[1];
                    let b2 = d@[2];
                    assert(b1 as u16 | (b2 as u16) << 8 == b1 + 0x100 * b2) by (bit_vector);
                }
                let mut buf: Vec<u8> = Vec::new();
                let mut i: usize = 0;
                while i < nr_of_bytes as usize
                    invariant
                        i <= nr_of_bytes,
                        buf@.len() == i,
                        forall|j: int| 0 <= j < i ==> buf@[j] == 0xFFu8,
                    decreases nr_of_bytes as usize - i,
                {
                    buf.push(0xFF);
                    i = i + 1;
                }
                out.push(
                    PDU::new_tp_clear_to_send(
                        d[3],
                        1,
                        announced,
                        pdu.source_address(),
                        claimed_address,
                    ),
                );
                self.receive_buffer = buf;
                self.receive_pgn = Some(announced);
                self.receive_nr_of_packets = d[3];
                self.receive_peer = pdu.source_address().as_u8();
                self.timeout_time = deadline(time, TP_TIMEOUT_T2);
                proof {
                    assert(self.spec_backlog() == old(self).spec_backlog());
                    assert(self.spec_receive_buffer() =~= Seq::new(
                        (spec_padded_byte(pdu, 1) + 0x100 * spec_padded_byte(pdu, 2)) as nat,
                        |j: int| 0xFFu8,
                    ));
                    assert(out@.subrange(0, pre_out.len() as int) =~= pre_out);
                }
                None
            } else {
                out.push(
                    PDU::new_tp_connection_abort(
                        TpAbortReasons::AlreadyConnected,
                        announced,
                        pdu.source_address(),
                        claimed_address,
                    ),
                );
                proof {
                    assert(out@.subrange(0, pre_out.len() as int) =~= pre_out);
                }
                None
            }
        } else if pdu.is_tp_clear_to_send() {
            if self.pdu_to_send.is_some() {
                let d = pdu.data(8);
                let nr_of_packets = d[1];
                let next_packet = d[2];
                if nr_of_packets == 0 {
                    self.timeout_time = deadline(time, TP_TIMEOUT_T4);
                } else if next_packet >= 1 {
                    self.send_pdu_data(
                        next_packet,
                        nr_of_packets,
                        pdu.source_address(),
                        claimed_address,
                        out,
                    );
                    self.timeout_time = deadline(time, TP_TIMEOUT_T3);
                }
            }
            None
        } else if pdu.is_tp_end_of_message_acknowledge() {
            if self.pdu_to_send.is_some() {
                let finished = self.pdu_to_send.take();
                self.close_connection();
                if self.backlog.len() > 0 {
                    proof {
                        lemma_backlog_ok_skip(old(self).spec_backlog());
                    }
                    let next_pdu = self.backlog.pop_front().unwrap();
                    proof {
                        assert(self.spec_backlog() =~= old(self).spec_backlog().skip(1));
                    }
                    self.open_sending_connection(next_pdu, time, out);
                }
                proof {
                    assert(out@.subrange(0, pre_out.len() as int) =~= pre_out);
                }
                finished
            } else {
                None
            }
        } else if pdu.is_tp_data_transfer() {
            if self.pdu_to_send.is_none() && self.receive_pgn.is_some() {
                let d = pdu.data(8);
                let packet_nr = d[0];
                if packet_nr >= 1 {
                    let ghost buf0 = self.receive_buffer@;
                    let base: usize = (packet_nr as usize - 1) * 7;
                    let mut i: usize = 0;
                    while i < 7
                        invariant
                            i <= 7,
                            base == (packet_nr - 1) * 7,
                            self.receive_buffer@.len() == buf0.len(),
                            forall|j: int|
                                0 <= j < buf0.len() ==> #[trigger] self.receive_buffer@[j] == (
                                if base <= j < base + i {
                                    d@[j - base + 1]
                                } else {
                                    buf0[j]
                                }),
                            d@.len() == 8,
                            self.backlog == old(self).backlog,
                            self.pdu_to_send == old(self).pdu_to_send,
                            self.receive_pgn == old(self).receive_pgn,
                            self.receive_nr_of_packets == old(self).receive_nr_of_packets,
                            self.receive_peer == old(self).receive_peer,
                            self.timeout_time == old(self).timeout_time,
                        decreases 7 - i,
                    {
                        let index = base + i;
                        if index < self.receive_buffer.len() {
                            self.receive_buffer[index] = d[i + 1];
                        }
                        i = i + 1;
                    }
                    proof {
                        assert(self.spec_receive_buffer() =~= spec_store_chunk(
                            buf0,
                            packet_nr as int,
                            spec_padded8(pdu),
                        ));
                        assert(self.spec_backlog() == old(self).spec_backlog());
                    }
                    self.timeout_time = deadline(time, TP_TIMEOUT_T1);
                    if self.receive_nr_of_packets == packet_nr {
                        let g = self.receive_pgn.unwrap();
                        let nb: u16 = self.receive_buffer.len() as u16;
                        proof {
                            assert(nb & 0xFF == nb % 256 && nb >> 8 == nb / 256) by (bit_vector);
                        }
                        out.push(
                            PDU::new_tp_end_of_message_acknowledge(
                                nb,
                                self.receive_nr_of_packets,
                                g,
                                pdu.source_address(),
                                claimed_address,
                            ),
                        );
                        let buf = self.receive_buffer.split_off(0);
                        proof {
                            assert(buf@ =~= spec_store_chunk(
                                buf0,
                                packet_nr as int,
                                spec_padded8(pdu),
                            ));
                        }
                        let result_pdu = PDU::from_pgn_and_payload(
                            g.as_u32(),
                            claimed_address,
                            pdu.source_address(),
                            buf,
                        );
                        self.close_connection();
                        proof {
                            assert(out@.subrange(0, pre_out.len() as int) =~= pre_out);
                        }
                        Some(result_pdu)
                    } else {
                        None
                    }
                } else {
                    None
                }
            } else {
                None
            }
        } else if pdu.is_tp_connection_abort() {
            if self.pdu_to_send.is_some() {
                let resend = self.pdu_to_send.take().unwrap();
                self.close_connection();
                self.open_sending_connection(resend, time, out);
            }
            None
        } else {
            None
        }
    }

    /// Drop all session state; the backlog is kept.
    fn close_connection(&mut self)
        requires
            old(self).wf(),
        ensures
            final(self).wf(),
            final(self).spec_backlog() == old(self).spec_backlog(),
            final(self).spec_pdu_to_send() is None,
            final(self).spec_receive_pgn() is None,
            final(self).spec_receive_total() == 0,
            final(self).spec_receive_buffer() == Seq::<u8>::empty(),
            final(self).spec_timeout_time() == u64::MAX,
            final(self).spec_is_idle(),
    {
        self.pdu_to_send = None;
        self.timeout_time = u64::MAX;
        self.receive_buffer = Vec::new();
        self.receive_pgn = None;
        self.receive_nr_of_packets = 0;
        proof {
            assert(self.spec_receive_buffer() =~= Seq::<u8>::empty());
            assert(self.spec_backlog() == old(self).spec_backlog());
        }
    }
}

} // verus!
