use open_isobus::Baudrate;
use open_isobus::CanDriverTrait;
use open_isobus::CanFrame;
use open_isobus::ConnectError;
use open_isobus::DataLinkLayer;
use open_isobus::IsobusAddress;
use open_isobus::Name;
use open_isobus::NetworkManager;
use open_isobus::PDU;
use std::cell::RefCell;
use std::collections::VecDeque;
use std::rc::Rc;

struct BusTap {
    inbound: VecDeque<CanFrame>,
    written: Vec<(u32, Vec<u8>)>,
}

struct TappedDriver {
    tap: Rc<RefCell<BusTap>>,
}

impl CanDriverTrait for TappedDriver {
    fn init(&mut self) {}
    fn open(&mut self, _baudrate: Option<Baudrate>) {}
    fn close(&mut self) {}
    fn read(&mut self) -> Option<CanFrame> {
        self.tap.borrow_mut().inbound.pop_front()
    }
    fn write(&mut self, frame: CanFrame) {
        let id = frame.id().as_raw();
        let data = frame.data().to_vec();
        self.tap.borrow_mut().written.push((id, data));
    }
}

fn new_tap() -> (Rc<RefCell<BusTap>>, TappedDriver) {
    let tap = Rc::new(RefCell::new(BusTap { inbound: VecDeque::new(), written: Vec::new() }));
    let driver = TappedDriver { tap: tap.clone() };
    (tap, driver)
}

fn test_name(identity: u32) -> Name {
    Name::builder()
        .has_self_configurable_address(true)
        .industry_group(2)
        .device_class(25)
        .function(128)
        .identity_number(identity)
        .build()
}

#[test]
fn address_claim_with_no_peers() {
    // From a cold start: request the claimed addresses, announce the
    // preferred address after the claim delay, and hold it after a second
    // delay with no competing claim.
    let (tap, driver) = new_tap();
    let mut dll = DataLinkLayer::new(driver);
    let mut nm = NetworkManager::new(test_name(1));

    let r = nm.connect(&mut dll, Some(IsobusAddress(0x80)), 0);
    assert_eq!(r, Err(ConnectError::WouldBlock));
    {
        let t = tap.borrow();
        // A Request for the Address Claimed PGN went to the global address
        // from the null address.
        assert_eq!(t.written.len(), 1);
        assert_eq!(t.written[0].0, 0x18EAFFFE);
        assert_eq!(t.written[0].1, vec![0x00, 0xEE, 0x00]);
    }

    let r = nm.connect(&mut dll, Some(IsobusAddress(0x80)), 260);
    assert_eq!(r, Err(ConnectError::WouldBlock));
    {
        let t = tap.borrow();
        // The claim for 0x80 was announced to the global address.
        assert_eq!(t.written.len(), 2);
        assert_eq!(t.written[1].0, 0x18EEFF80);
        assert_eq!(t.written[1].1, test_name(1).as_vec());
    }

    let r = nm.connect(&mut dll, Some(IsobusAddress(0x80)), 520);
    assert_eq!(r, Ok(IsobusAddress(0x80)));
    assert!(nm.is_connected());
    assert_eq!(nm.claimed_address(), IsobusAddress(0x80));
    assert_eq!(nm.log_network(), vec![(u64::from(test_name(1)), 0x80)]);
}

#[test]
fn address_claim_arbitration_lower_name_wins() {
    // After claiming 0x80, a peer with a numerically smaller Name claims
    // the same address: this node yields, re-runs the candidate search and
    // claims 0x81; the peer keeps 0x80.
    let (_tap, driver) = new_tap();
    let mut dll = DataLinkLayer::new(driver);
    let our_name = test_name(10);
    let peer_name = test_name(2);
    assert!(u64::from(peer_name) < u64::from(our_name));
    let mut nm = NetworkManager::new(our_name);
    assert!(nm.connect(&mut dll, Some(IsobusAddress(0x80)), 0).is_err());
    assert!(nm.connect(&mut dll, Some(IsobusAddress(0x80)), 260).is_err());
    assert_eq!(nm.connect(&mut dll, Some(IsobusAddress(0x80)), 520), Ok(IsobusAddress(0x80)));

    let competing = PDU::new_address_claimed(peer_name, IsobusAddress(0x80));
    nm.process(&vec![competing], &mut dll, 530);
    assert!(!nm.is_connected());

    // The candidate search now skips 0x80 and lands on 0x81.
    assert_eq!(nm.connect(&mut dll, Some(IsobusAddress(0x80)), 800), Err(ConnectError::WouldBlock));
    assert_eq!(nm.connect(&mut dll, Some(IsobusAddress(0x80)), 1100), Ok(IsobusAddress(0x81)));
    let table = nm.log_network();
    assert!(table.contains(&(u64::from(peer_name), 0x80)));
    assert!(table.contains(&(u64::from(our_name), 0x81)));
}

#[test]
fn address_claim_arbitration_higher_name_reannounces() {
    // A competing claim from a larger Name does not cost the address: the
    // node answers with a fresh claim of its own.
    let (tap, driver) = new_tap();
    let mut dll = DataLinkLayer::new(driver);
    let our_name = test_name(2);
    let peer_name = test_name(10);
    let mut nm = NetworkManager::new(our_name);
    assert!(nm.connect(&mut dll, Some(IsobusAddress(0x80)), 0).is_err());
    assert!(nm.connect(&mut dll, Some(IsobusAddress(0x80)), 260).is_err());
    assert_eq!(nm.connect(&mut dll, Some(IsobusAddress(0x80)), 520), Ok(IsobusAddress(0x80)));
    let written_before = tap.borrow().written.len();

    let competing = PDU::new_address_claimed(peer_name, IsobusAddress(0x80));
    nm.process(&vec![competing], &mut dll, 530);
    assert!(nm.is_connected());
    assert_eq!(nm.claimed_address(), IsobusAddress(0x80));
    let t = tap.borrow();
    assert_eq!(t.written.len(), written_before + 1);
    assert_eq!(t.written[written_before].0, 0x18EEFF80);
    assert_eq!(t.written[written_before].1, our_name.as_vec());
}

#[test]
fn claim_answers_request_for_claimed_addresses() {
    let (tap, driver) = new_tap();
    let mut dll = DataLinkLayer::new(driver);
    let mut nm = NetworkManager::new(test_name(5));
    assert!(nm.connect(&mut dll, Some(IsobusAddress(0x90)), 0).is_err());
    assert!(nm.connect(&mut dll, Some(IsobusAddress(0x90)), 260).is_err());
    assert_eq!(nm.connect(&mut dll, Some(IsobusAddress(0x90)), 520), Ok(IsobusAddress(0x90)));
    let written_before = tap.borrow().written.len();

    let request = PDU::new_request_for_address_claimed(IsobusAddress(0xFF), IsobusAddress(0x42));
    nm.process(&vec![request], &mut dll, 600);
    let t = tap.borrow();
    assert_eq!(t.written.len(), written_before + 1);
    assert_eq!(t.written[written_before].0, 0x18EEFF90);
}

#[test]
fn claim_fails_when_every_candidate_is_taken() {
    let (_tap, driver) = new_tap();
    let mut dll = DataLinkLayer::new(driver);
    let mut nm = NetworkManager::new(test_name(1000));
    assert!(nm.connect(&mut dll, Some(IsobusAddress(0x80)), 0).is_err());
    // Every address of the walk is already claimed by someone else.
    let mut claims: Vec<PDU> = Vec::new();
    for (k, a) in (0x80..=0xF7u32).enumerate() {
        claims.push(PDU::new_address_claimed(test_name(k as u32), IsobusAddress(a as u8)));
    }
    nm.process(&claims, &mut dll, 10);
    let r = nm.connect(&mut dll, Some(IsobusAddress(0x80)), 300);
    assert_eq!(
        r,
        Err(ConnectError::Failed(open_isobus::NetworkError::UnableToClaimAddress))
    );
}

#[test]
fn dll_filter_drops_foreign_destinations() {
    // A frame addressed to another specific node never reaches the upper
    // layers; global frames and frames for the claimed address do.
    let (tap, driver) = new_tap();
    let mut dll = DataLinkLayer::new(driver);

    let for_us = PDU::new(6, 0, 0, 230, 0x80, 0x26, vec![1]);
    let for_other = PDU::new(6, 0, 0, 230, 0x55, 0x26, vec![2]);
    let broadcast = PDU::new(6, 0, 0, 254, 0x0D, 0x26, vec![3]);
    {
        let mut t = tap.borrow_mut();
        t.inbound.push_back(for_us.to_frame());
        t.inbound.push_back(for_other.to_frame());
        t.inbound.push_back(broadcast.to_frame());
    }
    let pdus = dll.process(IsobusAddress(0x80), 0);
    assert_eq!(pdus.len(), 2);
    assert_eq!(pdus[0].data_raw(), &[1]);
    assert_eq!(pdus[1].data_raw(), &[3]);
}

#[test]
fn dll_send_dispatches_by_size() {
    let (tap, driver) = new_tap();
    let mut dll = DataLinkLayer::new(driver);
    // Eight bytes or fewer: one frame on the wire.
    dll.send(PDU::new(6, 0, 0, 230, 0x80, 0x26, vec![0; 8]), 0);
    assert_eq!(tap.borrow().written.len(), 1);
    // Nine bytes: a TP request-to-send opens instead.
    dll.send(PDU::new(6, 0, 0, 230, 0x80, 0x26, vec![0; 9]), 0);
    {
        let t = tap.borrow();
        assert_eq!(t.written.len(), 2);
        assert_eq!(t.written[1].1[0], 16);
    }
    // Far past the ETP limit: dropped.
    let (tap2, driver2) = new_tap();
    let mut dll2 = DataLinkLayer::new(driver2);
    dll2.send(PDU::new(6, 0, 0, 230, 0x80, 0x26, vec![0; 117_440_506]), 0);
    assert_eq!(tap2.borrow().written.len(), 0);
}

#[test]
fn dll_routes_tp_frames_to_the_manager() {
    // A TP session carried through the data-link layer: the RTS is answered
    // on the wire and the reassembled message comes out of `process`.
    let (tap, driver) = new_tap();
    let mut dll = DataLinkLayer::new(driver);
    let us = IsobusAddress(0x80);
    let payload: Vec<u8> = (0..100u32).map(|i| i as u8).collect();
    {
        let mut t = tap.borrow_mut();
        t.inbound.push_back(
            PDU::new_tp_request_to_send(
                100,
                15,
                open_isobus::PGN::new(0xE600),
                IsobusAddress(0x80),
                IsobusAddress(0x25),
            )
            .to_frame(),
        );
        for seq in 1..=15u8 {
            let start = (seq as usize - 1) * 7;
            let end = usize::min(start + 7, 100);
            t.inbound.push_back(
                PDU::new_tp_data_transfer(
                    seq,
                    &payload[start..end],
                    IsobusAddress(0x80),
                    IsobusAddress(0x25),
                )
                .to_frame(),
            );
        }
    }
    let pdus = dll.process(us, 0);
    assert_eq!(pdus.len(), 1);
    assert_eq!(pdus[0].pgn().as_u32(), 0xE600);
    assert_eq!(pdus[0].data_raw(), payload.as_slice());
    // The CTS went out first, the acknowledge last.
    let t = tap.borrow();
    assert_eq!(t.written.first().unwrap().1[0], 17);
    assert_eq!(t.written.last().unwrap().1[0], 19);
}

#[test]
fn disconnect_leaves_the_table_without_this_node() {
    let (_tap, driver) = new_tap();
    let mut dll = DataLinkLayer::new(driver);
    let mut nm = NetworkManager::new(test_name(3));
    assert!(nm.connect(&mut dll, Some(IsobusAddress(0x80)), 0).is_err());
    assert!(nm.connect(&mut dll, Some(IsobusAddress(0x80)), 260).is_err());
    assert_eq!(nm.connect(&mut dll, Some(IsobusAddress(0x80)), 520), Ok(IsobusAddress(0x80)));
    nm.disconnect();
    assert!(!nm.is_connected());
    assert_eq!(nm.claimed_address(), IsobusAddress(0xFE));
    assert_eq!(nm.log_network(), vec![]);
}
