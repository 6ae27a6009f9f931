use open_isobus::Baudrate;
use open_isobus::CanDriverTrait;
use open_isobus::CanFrame;
use open_isobus::EventType;
use open_isobus::Id;
use open_isobus::ObjectId;
use open_isobus::ObjectPool;
use open_isobus::Object;
use open_isobus::WorkingSet;
use open_isobus::WsState;
use std::cell::RefCell;
use std::collections::VecDeque;
use std::rc::Rc;

struct VtState {
    inbound: VecDeque<CanFrame>,
    written: Vec<(u32, Vec<u8>)>,
    tp_total: u8,
    tp_seen: u8,
    tp_bytes: u16,
    tp_pgn: [u8; 3],
}

/// A driver that plays the terminal's side of the handshake: it answers
/// each enquiry with the matching response and accepts a TP transfer.
struct VtSimDriver {
    vt: u8,
    state: Rc<RefCell<VtState>>,
}

fn raw_id(prio: u32, pf: u32, ps: u32, sa: u32) -> u32 {
    prio << 26 | pf << 16 | ps << 8 | sa
}

fn push_frame(state: &mut VtState, id: u32, data: &[u8]) {
    state.inbound.push_back(CanFrame::new(Id::from_raw(id), data));
}

impl CanDriverTrait for VtSimDriver {
    fn init(&mut self) {}
    fn open(&mut self, _baudrate: Option<Baudrate>) {}
    fn close(&mut self) {}
    fn read(&mut self) -> Option<CanFrame> {
        self.state.borrow_mut().inbound.pop_front()
    }
    fn write(&mut self, frame: CanFrame) {
        let id = frame.id().as_raw();
        let data = frame.data().to_vec();
        let vt = self.vt as u32;
        let mut st = self.state.borrow_mut();
        st.written.push((id, data.clone()));
        let pf = (id >> 16) & 0xFF;
        let ps = (id >> 8) & 0xFF;
        let sa = id & 0xFF;
        if pf == 234 && data.len() >= 3 {
            // A Request: answer the language command and time/date PGNs.
            if data[0] == 0x0F && data[1] == 0xFE {
                push_frame(&mut st, raw_id(6, 254, 0x0F, vt), &[0; 8]);
            }
            if data[0] == 0xE6 && data[1] == 0xFE {
                push_frame(&mut st, raw_id(6, 254, 0xE6, vt), &[0; 8]);
            }
        } else if pf == 231 && ps == vt && !data.is_empty() {
            // An enquiry to the terminal: echo the matching response.
            let f = data[0];
            let reply = match f {
                199 | 194 | 195 | 192 => Some(f),
                223 => Some(224),
                18 => Some(18),
                _ => None,
            };
            if let Some(code) = reply {
                let mut payload = [0xFFu8; 8];
                payload[0] = code;
                push_frame(&mut st, raw_id(5, 230, sa, vt), &payload);
            }
        } else if pf == 236 && data.len() >= 8 && data[0] == 16 {
            // A TP request-to-send: grant every packet at once.
            st.tp_bytes = u16::from_le_bytes([data[1], data[2]]);
            st.tp_total = data[3];
            st.tp_seen = 0;
            st.tp_pgn = [data[5], data[6], data[7]];
            let total = st.tp_total;
            let pgn = st.tp_pgn;
            push_frame(
                &mut st,
                raw_id(7, 236, sa, vt),
                &[17, total, 1, 0xFF, 0xFF, pgn[0], pgn[1], pgn[2]],
            );
        } else if pf == 235 {
            // A TP data frame: acknowledge after the last one.
            st.tp_seen += 1;
            if st.tp_seen == st.tp_total {
                let bytes = st.tp_bytes.to_le_bytes();
                let total = st.tp_total;
                let pgn = st.tp_pgn;
                push_frame(
                    &mut st,
                    raw_id(7, 236, sa, vt),
                    &[19, bytes[0], bytes[1], total, 0xFF, pgn[0], pgn[1], pgn[2]],
                );
            }
        }
    }
}

fn small_pool() -> ObjectPool {
    let mut pool = ObjectPool::new();
    pool.add(Object::NumberVariable(open_isobus::objects::NumberVariable {
        id: ObjectId(1),
        value: 1,
    }));
    pool.add(Object::NumberVariable(open_isobus::objects::NumberVariable {
        id: ObjectId(2),
        value: 2,
    }));
    pool
}

fn vt_status_frame(state: &Rc<RefCell<VtState>>, vt: u8, active: u8) {
    let mut st = state.borrow_mut();
    let payload = [254u8, active, 0, 0, 0, 0, 0, 0];
    push_frame(&mut st, raw_id(5, 230, 0xFF, vt as u32), &payload);
}

#[test]
fn working_set_handshake_reaches_connected() {
    let vt: u8 = 0x26;
    let state = Rc::new(RefCell::new(VtState {
        inbound: VecDeque::new(),
        written: Vec::new(),
        tp_total: 0,
        tp_seen: 0,
        tp_bytes: 0,
        tp_pgn: [0; 3],
    }));
    let driver = VtSimDriver { vt, state: state.clone() };
    let mut ws = WorkingSet::new(small_pool(), driver);

    // Let the address claim complete.
    ws.process(0);
    ws.process(260);
    ws.process(520);
    assert_eq!(ws.state(), WsState::Idle);

    // The terminal's status message starts the handshake; the simulated
    // terminal answers every step, so a few ticks reach Connected.
    vt_status_frame(&state, vt, 0xFE);
    let mut t = 530;
    for _ in 0..20 {
        ws.process(t);
        t += 10;
        if ws.state() == WsState::Connected {
            break;
        }
    }
    assert_eq!(ws.state(), WsState::Connected);

    // A status naming this working set as active yields OnActivate.
    vt_status_frame(&state, vt, 0x80);
    ws.process(t);
    match ws.next_event() {
        Some(EventType::OnActivate) => {},
        _ => panic!("expected the activation event"),
    }

    // A status naming someone else yields OnDeactivate.
    vt_status_frame(&state, vt, 0x33);
    ws.process(t + 10);
    match ws.next_event() {
        Some(EventType::OnDeactivate) => {},
        _ => panic!("expected the deactivation event"),
    }
}

#[test]
fn working_set_maintenance_cadence() {
    // Exactly the first maintenance message carries the initiating bit, and
    // one goes out in every thousand-millisecond window afterwards.
    let vt: u8 = 0x26;
    let state = Rc::new(RefCell::new(VtState {
        inbound: VecDeque::new(),
        written: Vec::new(),
        tp_total: 0,
        tp_seen: 0,
        tp_bytes: 0,
        tp_pgn: [0; 3],
    }));
    let driver = VtSimDriver { vt, state: state.clone() };
    let mut ws = WorkingSet::new(small_pool(), driver);
    ws.process(0);
    ws.process(260);
    ws.process(520);
    vt_status_frame(&state, vt, 0xFE);
    let mut t = 530;
    for _ in 0..20 {
        ws.process(t);
        t += 10;
    }
    // Tick once per window for a few windows.
    ws.process(2000);
    ws.process(3100);
    ws.process(4200);

    let st = state.borrow();
    let maintenance: Vec<&(u32, Vec<u8>)> = st
        .written
        .iter()
        .filter(|(id, data)| (id >> 16) & 0xFF == 231 && !data.is_empty() && data[0] == 255)
        .collect();
    assert!(maintenance.len() >= 4);
    // The first carries the initiating bit; none of the later ones does.
    assert_eq!(maintenance[0].1[1], 0b0000_0001);
    for m in &maintenance[1..] {
        assert_eq!(m.1[1], 0);
    }
}

#[test]
fn working_set_events_keep_wire_order() {
    // Two value changes arriving in one tick come out of the queue in the
    // order they were seen on the wire.
    let vt: u8 = 0x26;
    let state = Rc::new(RefCell::new(VtState {
        inbound: VecDeque::new(),
        written: Vec::new(),
        tp_total: 0,
        tp_seen: 0,
        tp_bytes: 0,
        tp_pgn: [0; 3],
    }));
    let driver = VtSimDriver { vt, state: state.clone() };
    let mut ws = WorkingSet::new(small_pool(), driver);
    ws.process(0);
    ws.process(260);
    ws.process(520);
    vt_status_frame(&state, vt, 0xFE);
    let mut t = 530;
    for _ in 0..20 {
        ws.process(t);
        t += 10;
    }
    assert_eq!(ws.state(), WsState::Connected);

    {
        let mut st = state.borrow_mut();
        // Numeric value change for object 7 to 0x01020304, then a button
        // press on object 9.
        push_frame(
            &mut st,
            raw_id(5, 230, 0x80, vt as u32),
            &[5, 7, 0, 0xFF, 0x04, 0x03, 0x02, 0x01],
        );
        push_frame(
            &mut st,
            raw_id(5, 230, 0x80, vt as u32),
            &[1, 1, 9, 0, 11, 0, 4, 0xFF],
        );
    }
    ws.process(t);
    match ws.next_event() {
        Some(EventType::NumericValueChanged(id, value)) => {
            assert_eq!(id, ObjectId(7));
            assert_eq!(value, 0x01020304);
        },
        _ => panic!("expected the numeric change first"),
    }
    match ws.next_event() {
        Some(EventType::ButtonPressed(id, parent, key)) => {
            assert_eq!(id, ObjectId(9));
            assert_eq!(parent, ObjectId(11));
            assert_eq!(key, 4);
        },
        _ => panic!("expected the button press second"),
    }
    assert!(ws.next_event().is_none());
}

#[test]
fn working_set_resets_when_the_claim_is_lost() {
    // A competing claim from a smaller Name takes the address away; the
    // working set falls back to Idle on the next tick.
    let vt: u8 = 0x26;
    let state = Rc::new(RefCell::new(VtState {
        inbound: VecDeque::new(),
        written: Vec::new(),
        tp_total: 0,
        tp_seen: 0,
        tp_bytes: 0,
        tp_pgn: [0; 3],
    }));
    let driver = VtSimDriver { vt, state: state.clone() };
    let mut ws = WorkingSet::new(small_pool(), driver);
    ws.process(0);
    ws.process(260);
    ws.process(520);
    vt_status_frame(&state, vt, 0xFE);
    let mut t = 530;
    for _ in 0..20 {
        ws.process(t);
        t += 10;
    }
    assert_eq!(ws.state(), WsState::Connected);

    // Name value 1 is below any Name this crate's builder produces here, so
    // the arbitration is lost.
    {
        let mut st = state.borrow_mut();
        let name_bytes = [1u8, 0, 0, 0, 0, 0, 0, 0];
        push_frame(&mut st, raw_id(6, 238, 0xFF, 0x80), &name_bytes);
    }
    ws.process(t);
    assert_eq!(ws.state(), WsState::Idle);
}

#[test]
fn working_set_sends_no_maintenance_while_idle() {
    // Before a terminal announces itself the working set stays idle: no
    // maintenance message goes out, and the initiating bit is still unspent
    // when the handshake finally starts.
    let vt: u8 = 0x26;
    let state = Rc::new(RefCell::new(VtState {
        inbound: VecDeque::new(),
        written: Vec::new(),
        tp_total: 0,
        tp_seen: 0,
        tp_bytes: 0,
        tp_pgn: [0; 3],
    }));
    let driver = VtSimDriver { vt, state: state.clone() };
    let mut ws = WorkingSet::new(small_pool(), driver);
    ws.process(0);
    ws.process(260);
    ws.process(520);
    // Several maintenance windows pass without any terminal on the bus.
    let mut t = 1000;
    for _ in 0..5 {
        ws.process(t);
        t += 1100;
    }
    assert_eq!(ws.state(), WsState::Idle);
    {
        let st = state.borrow();
        let maintenance = st
            .written
            .iter()
            .filter(|(id, data)| (id >> 16) & 0xFF == 231 && !data.is_empty() && data[0] == 255)
            .count();
        assert_eq!(maintenance, 0);
    }
    // A terminal appears; the first maintenance message still initiates.
    vt_status_frame(&state, vt, 0xFE);
    for _ in 0..20 {
        ws.process(t);
        t += 10;
    }
    let st = state.borrow();
    let maintenance: Vec<&(u32, Vec<u8>)> = st
        .written
        .iter()
        .filter(|(id, data)| (id >> 16) & 0xFF == 231 && !data.is_empty() && data[0] == 255)
        .collect();
    assert!(!maintenance.is_empty());
    assert_eq!(maintenance[0].1[1], 0b0000_0001);
}

#[test]
fn working_set_registers_again_after_a_lost_claim() {
    // Losing the address also forgets the terminal, so a fresh claim and a
    // fresh handshake can bring the working set back to Connected.
    let vt: u8 = 0x26;
    let state = Rc::new(RefCell::new(VtState {
        inbound: VecDeque::new(),
        written: Vec::new(),
        tp_total: 0,
        tp_seen: 0,
        tp_bytes: 0,
        tp_pgn: [0; 3],
    }));
    let driver = VtSimDriver { vt, state: state.clone() };
    let mut ws = WorkingSet::new(small_pool(), driver);
    ws.process(0);
    ws.process(260);
    ws.process(520);
    vt_status_frame(&state, vt, 0xFE);
    let mut t = 530;
    for _ in 0..20 {
        ws.process(t);
        t += 10;
    }
    assert_eq!(ws.state(), WsState::Connected);

    // A smaller Name claims the same address: the arbitration is lost.
    {
        let mut st = state.borrow_mut();
        let name_bytes = [1u8, 0, 0, 0, 0, 0, 0, 0];
        push_frame(&mut st, raw_id(6, 238, 0xFF, 0x80), &name_bytes);
    }
    ws.process(t);
    assert_eq!(ws.state(), WsState::Idle);

    // A new claim goes through, and the terminal is greeted anew.
    ws.process(t + 10);
    ws.process(t + 270);
    ws.process(t + 530);
    vt_status_frame(&state, vt, 0xFE);
    t += 540;
    for _ in 0..20 {
        ws.process(t);
        t += 10;
    }
    assert_eq!(ws.state(), WsState::Connected);
}
