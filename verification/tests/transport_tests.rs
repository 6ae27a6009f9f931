use open_isobus::EtpAbortReasons;
use open_isobus::ExtendedTransportProtocolManager;
use open_isobus::IsobusAddress;
use open_isobus::TransportProtocolManager;
use open_isobus::PDU;
use open_isobus::PGN;

fn tp_rts(bytes: u16, packets: u8, pgn: u32, da: u8, sa: u8) -> PDU {
    PDU::new_tp_request_to_send(bytes, packets, PGN::new(pgn), IsobusAddress(da), IsobusAddress(sa))
}

#[test]
fn tp_receive_100_bytes() {
    // A peer at 0x25 announces 100 bytes in 15 packets for PGN 0xE600; we
    // are 0x80. Expect a CTS granting all 15 from packet one, then after
    // the fifteenth data frame the acknowledge and the reassembled message.
    let us = IsobusAddress(0x80);
    let peer = IsobusAddress(0x25);
    let payload: Vec<u8> = (0..100u32).map(|i| i as u8).collect();
    let mut tp = TransportProtocolManager::new();
    let mut out: Vec<PDU> = Vec::new();

    let r = tp.process(us, Some(tp_rts(100, 15, 0xE600, 0x80, 0x25)), 0, &mut out);
    assert!(r.is_none());
    assert_eq!(out.len(), 1);
    assert_eq!(out[0].pgn().as_u32(), 0xEC00);
    assert_eq!(out[0].destination_address(), peer);
    assert_eq!(out[0].data_raw()[0], 17);
    assert_eq!(out[0].data_raw()[1], 15);
    assert_eq!(out[0].data_raw()[2], 1);

    let mut finished = None;
    for seq in 1..=15u8 {
        let start = (seq as usize - 1) * 7;
        let end = usize::min(start + 7, 100);
        let dt = PDU::new_tp_data_transfer(seq, &payload[start..end], IsobusAddress(0x80), peer);
        let r = tp.process(us, Some(dt), 10 * seq as u64, &mut out);
        if seq < 15 {
            assert!(r.is_none());
        } else {
            finished = r;
        }
    }
    let finished = finished.expect("reassembly completes on the last packet");
    assert_eq!(finished.pgn().as_u32(), 0xE600);
    assert_eq!(finished.source_address(), peer);
    assert_eq!(finished.destination_address(), us);
    assert_eq!(finished.data_raw(), payload.as_slice());

    // The acknowledge went out after the last data frame.
    let eoma = out.last().unwrap();
    assert_eq!(eoma.pgn().as_u32(), 0xEC00);
    assert_eq!(eoma.data_raw()[0], 19);
    assert_eq!(eoma.data_raw()[1], 100);
    assert_eq!(eoma.data_raw()[2], 0);
    assert_eq!(eoma.data_raw()[3], 15);
}

#[test]
fn tp_broadcast_sends_bam_and_all_packets() {
    // A 100-byte broadcast needs one BAM and exactly fifteen data frames.
    let mut tp = TransportProtocolManager::new();
    let mut out: Vec<PDU> = Vec::new();
    let payload: Vec<u8> = (0..100u32).map(|i| (i * 3) as u8).collect();
    let pdu = PDU::new(7, 0, 0, 254, 0x0D, 0x26, payload.clone());
    tp.send(pdu, 0, &mut out);
    assert_eq!(out.len(), 16);
    assert_eq!(out[0].data_raw()[0], 32);
    assert_eq!(out[0].data_raw()[1], 100);
    assert_eq!(out[0].data_raw()[2], 0);
    assert_eq!(out[0].data_raw()[3], 15);
    for seq in 1..=15usize {
        let dt = &out[seq];
        assert_eq!(dt.pgn().as_u32(), 0xEB00);
        assert_eq!(dt.data_raw()[0], seq as u8);
        let start = (seq - 1) * 7;
        let end = usize::min(start + 7, 100);
        assert_eq!(&dt.data_raw()[1..1 + (end - start)], &payload[start..end]);
    }
}

#[test]
fn tp_directed_send_waits_for_cts() {
    // A directed send opens with one RTS; the granted run follows the CTS.
    let us = IsobusAddress(0x26);
    let mut tp = TransportProtocolManager::new();
    let mut out: Vec<PDU> = Vec::new();
    let payload: Vec<u8> = (0..20u32).map(|i| i as u8).collect();
    let pdu = PDU::new(7, 0, 0, 230, 0x80, 0x26, payload.clone());
    tp.send(pdu, 0, &mut out);
    assert_eq!(out.len(), 1);
    assert_eq!(out[0].data_raw()[0], 16);
    assert_eq!(out[0].data_raw()[1], 20);
    assert_eq!(out[0].data_raw()[3], 3);

    // CTS grants all three packets from packet one.
    let cts = PDU::new_tp_clear_to_send(3, 1, PGN::new(0xE600), IsobusAddress(0x26), IsobusAddress(0x80));
    out.clear();
    let r = tp.process(us, Some(cts), 10, &mut out);
    assert!(r.is_none());
    assert_eq!(out.len(), 3);
    for seq in 1..=3usize {
        assert_eq!(out[seq - 1].data_raw()[0], seq as u8);
    }
}

#[test]
fn tp_backlog_keeps_fifo_order() {
    // Three messages queued behind an in-flight one open in the order they
    // were handed in.
    let us = IsobusAddress(0x26);
    let mut tp = TransportProtocolManager::new();
    let mut out: Vec<PDU> = Vec::new();
    let first = PDU::new(7, 0, 0, 230, 0x80, 0x26, vec![1; 20]);
    let second = PDU::new(7, 0, 0, 230, 0x81, 0x26, vec![2; 30]);
    let third = PDU::new(7, 0, 0, 230, 0x82, 0x26, vec![3; 40]);
    tp.send(first, 0, &mut out);
    tp.send(second, 1, &mut out);
    tp.send(third, 2, &mut out);
    assert_eq!(out.len(), 1);

    // The acknowledge for the first opens the second.
    let eoma1 = PDU::new_tp_end_of_message_acknowledge(20, 3, PGN::new(0xE600), IsobusAddress(0x26), IsobusAddress(0x80));
    out.clear();
    let done1 = tp.process(us, Some(eoma1), 10, &mut out);
    assert_eq!(done1.expect("first completes").destination_address(), IsobusAddress(0x80));
    assert_eq!(out.len(), 1);
    assert_eq!(out[0].data_raw()[0], 16);
    assert_eq!(out[0].destination_address(), IsobusAddress(0x81));
    assert_eq!(out[0].data_raw()[1], 30);

    // The acknowledge for the second opens the third.
    let eoma2 = PDU::new_tp_end_of_message_acknowledge(30, 5, PGN::new(0xE600), IsobusAddress(0x26), IsobusAddress(0x81));
    out.clear();
    let done2 = tp.process(us, Some(eoma2), 20, &mut out);
    assert_eq!(done2.expect("second completes").destination_address(), IsobusAddress(0x81));
    assert_eq!(out[0].destination_address(), IsobusAddress(0x82));
    assert_eq!(out[0].data_raw()[1], 40);
}

#[test]
fn tp_rts_while_busy_is_refused() {
    let us = IsobusAddress(0x26);
    let mut tp = TransportProtocolManager::new();
    let mut out: Vec<PDU> = Vec::new();
    tp.send(PDU::new(7, 0, 0, 230, 0x80, 0x26, vec![0; 20]), 0, &mut out);
    out.clear();
    let r = tp.process(us, Some(tp_rts(50, 8, 0xE600, 0x26, 0x42)), 5, &mut out);
    assert!(r.is_none());
    assert_eq!(out.len(), 1);
    assert_eq!(out[0].data_raw()[0], 255);
    assert_eq!(out[0].data_raw()[1], 1);
    assert_eq!(out[0].destination_address(), IsobusAddress(0x42));
}

#[test]
fn tp_timeout_aborts_session() {
    let us = IsobusAddress(0x26);
    let mut tp = TransportProtocolManager::new();
    let mut out: Vec<PDU> = Vec::new();
    tp.send(PDU::new(7, 0, 0, 230, 0x80, 0x26, vec![0; 20]), 0, &mut out);
    out.clear();
    // Well past T3 with nothing received: the session aborts with Timeout.
    let r = tp.process(us, None, 5000, &mut out);
    assert!(r.is_none());
    assert_eq!(out.len(), 1);
    assert_eq!(out[0].data_raw()[0], 255);
    assert_eq!(out[0].data_raw()[1], 3);
}

#[test]
fn etp_send_4000_bytes() {
    // An ETP send of 4000 bytes: one RTS announcing the four-byte length,
    // then a DPO and the granted frames after each CTS.
    let us = IsobusAddress(0x26);
    let peer = IsobusAddress(0x80);
    let mut etp = ExtendedTransportProtocolManager::new();
    let mut out: Vec<PDU> = Vec::new();
    let payload: Vec<u8> = (0..4000u32).map(|i| (i % 251) as u8).collect();
    let pdu = PDU::new(7, 0, 0, 231, 0x80, 0x26, payload.clone());
    etp.send(pdu, 0, &mut out);
    assert_eq!(out.len(), 1);
    assert_eq!(out[0].pgn().as_u32(), 0xC800);
    assert_eq!(out[0].data_raw()[0], 20);
    assert_eq!(out[0].data_raw()[1], (4000u32 & 0xFF) as u8);
    assert_eq!(out[0].data_raw()[2], ((4000u32 >> 8) & 0xFF) as u8);

    // CTS granting 16 packets from packet one: a DPO with offset zero, then
    // sixteen data frames numbered one to sixteen within the window.
    let cts = PDU::new_etp_clear_to_send(16, 1, PGN::new(0xE700), IsobusAddress(0x26), IsobusAddress(0x80));
    out.clear();
    let r = etp.process(us, Some(cts), 10, &mut out);
    assert!(r.is_none());
    assert_eq!(out.len(), 17);
    assert_eq!(out[0].data_raw()[0], 22);
    assert_eq!(out[0].data_raw()[1], 16);
    assert_eq!(out[0].data_raw()[2], 0);
    for seq in 1..=16usize {
        assert_eq!(out[seq].pgn().as_u32(), 0xC700);
        assert_eq!(out[seq].data_raw()[0], seq as u8);
        let start = (seq - 1) * 7;
        assert_eq!(&out[seq].data_raw()[1..8], &payload[start..start + 7]);
    }

    // A CTS for a later window carries the matching offset.
    let cts2 = PDU::new_etp_clear_to_send(4, 17, PGN::new(0xE700), IsobusAddress(0x26), IsobusAddress(0x80));
    out.clear();
    let r = etp.process(us, Some(cts2), 20, &mut out);
    assert!(r.is_none());
    assert_eq!(out.len(), 5);
    assert_eq!(out[0].data_raw()[0], 22);
    assert_eq!(out[0].data_raw()[2], 16);
    assert_eq!(out[1].data_raw()[0], 1);
    assert_eq!(&out[1].data_raw()[1..8], &payload[16 * 7..16 * 7 + 7]);

    // The peer's acknowledge completes the send.
    let eoma = PDU::new_etp_end_of_message_acknowledge(4000, PGN::new(0xE700), IsobusAddress(0x26), IsobusAddress(0x80));
    out.clear();
    let done = etp.process(us, Some(eoma), 30, &mut out);
    assert_eq!(done.expect("send completes").destination_address(), peer);
    assert_eq!(out.len(), 0);
}

#[test]
fn etp_backlog_opens_after_acknowledge() {
    let us = IsobusAddress(0x26);
    let mut etp = ExtendedTransportProtocolManager::new();
    let mut out: Vec<PDU> = Vec::new();
    etp.send(PDU::new(7, 0, 0, 231, 0x80, 0x26, vec![1; 2000]), 0, &mut out);
    etp.send(PDU::new(7, 0, 0, 231, 0x81, 0x26, vec![2; 3000]), 1, &mut out);
    assert_eq!(out.len(), 1);
    let eoma = PDU::new_etp_end_of_message_acknowledge(2000, PGN::new(0xE700), IsobusAddress(0x26), IsobusAddress(0x80));
    out.clear();
    let done = etp.process(us, Some(eoma), 10, &mut out);
    assert!(done.is_some());
    assert_eq!(out.len(), 1);
    assert_eq!(out[0].data_raw()[0], 20);
    assert_eq!(out[0].destination_address(), IsobusAddress(0x81));
}

#[test]
fn etp_abort_retries_the_send() {
    let us = IsobusAddress(0x26);
    let mut etp = ExtendedTransportProtocolManager::new();
    let mut out: Vec<PDU> = Vec::new();
    etp.send(PDU::new(7, 0, 0, 231, 0x80, 0x26, vec![7; 2000]), 0, &mut out);
    out.clear();
    let abort = PDU::new_etp_connection_abort(
        EtpAbortReasons::NoResources,
        PGN::new(0xE700),
        IsobusAddress(0x26),
        IsobusAddress(0x80),
    );
    let r = etp.process(us, Some(abort), 10, &mut out);
    assert!(r.is_none());
    // The session reopened with a fresh RTS for the same message.
    assert_eq!(out.len(), 1);
    assert_eq!(out[0].data_raw()[0], 20);
    assert_eq!(out[0].destination_address(), IsobusAddress(0x80));
}

#[test]
fn tp_out_of_range_data_frame_is_clipped() {
    // A data frame whose sequence number points past the announced buffer
    // neither crashes nor completes the session.
    let us = IsobusAddress(0x80);
    let mut tp = TransportProtocolManager::new();
    let mut out: Vec<PDU> = Vec::new();
    assert!(tp.process(us, Some(tp_rts(10, 2, 0xE600, 0x80, 0x25)), 0, &mut out).is_none());
    let wild = PDU::new_tp_data_transfer(40, &[9; 7], IsobusAddress(0x80), IsobusAddress(0x25));
    assert!(tp.process(us, Some(wild), 5, &mut out).is_none());
    // The session still completes normally afterwards.
    let dt1 = PDU::new_tp_data_transfer(1, &[1; 7], IsobusAddress(0x80), IsobusAddress(0x25));
    let dt2 = PDU::new_tp_data_transfer(2, &[2; 3], IsobusAddress(0x80), IsobusAddress(0x25));
    assert!(tp.process(us, Some(dt1), 6, &mut out).is_none());
    let done = tp.process(us, Some(dt2), 7, &mut out).expect("completes");
    assert_eq!(done.data_raw(), &[1, 1, 1, 1, 1, 1, 1, 2, 2, 2]);
}

#[test]
fn tp_zero_sequence_frame_is_ignored() {
    let us = IsobusAddress(0x80);
    let mut tp = TransportProtocolManager::new();
    let mut out: Vec<PDU> = Vec::new();
    assert!(tp.process(us, Some(tp_rts(10, 2, 0xE600, 0x80, 0x25)), 0, &mut out).is_none());
    let zero = PDU::new_tp_data_transfer(0, &[9; 7], IsobusAddress(0x80), IsobusAddress(0x25));
    assert!(tp.process(us, Some(zero), 5, &mut out).is_none());
}

#[test]
fn etp_cts_with_zero_next_packet_is_ignored() {
    let us = IsobusAddress(0x26);
    let mut etp = ExtendedTransportProtocolManager::new();
    let mut out: Vec<PDU> = Vec::new();
    etp.send(PDU::new(7, 0, 0, 231, 0x80, 0x26, vec![1; 2000]), 0, &mut out);
    out.clear();
    let bad = PDU::new_etp_clear_to_send(4, 0, PGN::new(0xE700), IsobusAddress(0x26), IsobusAddress(0x80));
    assert!(etp.process(us, Some(bad), 10, &mut out).is_none());
    assert_eq!(out.len(), 0);
}

#[test]
fn tp_cts_beyond_available_packets_is_clipped() {
    // A CTS asking for more packets than the message has yields only the
    // packets that exist.
    let us = IsobusAddress(0x26);
    let mut tp = TransportProtocolManager::new();
    let mut out: Vec<PDU> = Vec::new();
    tp.send(PDU::new(7, 0, 0, 230, 0x80, 0x26, vec![5; 20]), 0, &mut out);
    out.clear();
    let cts = PDU::new_tp_clear_to_send(200, 2, PGN::new(0xE600), IsobusAddress(0x26), IsobusAddress(0x80));
    assert!(tp.process(us, Some(cts), 10, &mut out).is_none());
    // Packets two and three of three.
    assert_eq!(out.len(), 2);
    assert_eq!(out[0].data_raw()[0], 2);
    assert_eq!(out[1].data_raw()[0], 3);
}
