use std::sync::mpsc::channel;

use purpledrop::board::BoardLayout;
use purpledrop::driver::{
    feedback_active_capacitance, feedback_bulk_capacitance, output_pins, CapacitanceCache,
    CapacitanceEvent, Driver, OpenLoopDriver, PdDriver, Unsupported,
};
use purpledrop::location::{Location, Rectangle};
use purpledrop::reader::{Routed, SerialReader, WireMessage};
use purpledrop::rpc::{electrode_pins, parse_direction, RpcError, INVALID_PIN};
use purpledrop::location::Direction;
use purpledrop::settings::{default_static_dir, default_threads, PD_STATIC_DIR_DEFAULT_PATH};
use purpledrop::websocket::{forwarded_to_websocket, Broadcaster, BroadcastError, EventKind};
use purpledrop::N_PINS;

const ENABLE_ID: u8 = 0;

#[test]
fn reader_reports_active_capacitance_with_offset() {
    let mut r = SerialReader::new(ENABLE_ID);
    match r.route(WireMessage::ActiveCapacitance { baseline: 100, measurement: 400 }) {
        Routed::Active(c) => assert_eq!(c, 180),
        other => panic!("unexpected {:?}", other),
    }
    match r.route(WireMessage::ActiveCapacitance { baseline: 400, measurement: 100 }) {
        Routed::Active(c) => assert_eq!(c, -420),
        other => panic!("unexpected {:?}", other),
    }
}

#[test]
fn reader_reports_only_electrode_enable_acknowledgements() {
    let mut r = SerialReader::new(ENABLE_ID);
    assert!(matches!(
        r.route(WireMessage::CommandAck { acked_id: ENABLE_ID }),
        Routed::Sensor(CapacitanceEvent::Ack)
    ));
    assert!(matches!(r.route(WireMessage::CommandAck { acked_id: 9 }), Routed::Nothing));
    assert!(matches!(
        r.route(WireMessage::StepperAck),
        Routed::Sensor(CapacitanceEvent::StepperAck)
    ));
    assert!(matches!(r.route(WireMessage::Other), Routed::Nothing));
}

#[test]
fn reader_assembles_bulk_reports_and_drops_bad_ones() {
    let mut r = SerialReader::new(ENABLE_ID);
    assert!(matches!(
        r.route(WireMessage::BulkCapacitance { start_index: 0, values: vec![220; 64] }),
        Routed::Nothing
    ));
    assert!(matches!(
        r.route(WireMessage::BulkCapacitance { start_index: 100, values: vec![1; 40] }),
        Routed::Rejected(_)
    ));
    match r.route(WireMessage::BulkCapacitance { start_index: 64, values: vec![320; 64] }) {
        Routed::Bulk(v) => {
            assert_eq!(v.len(), N_PINS);
            assert_eq!(v[0], 100);
            assert_eq!(v[127], 200);
        }
        other => panic!("unexpected {:?}", other),
    }
}

#[test]
fn driver_outputs_whole_frames() {
    let mut d = PdDriver::new();
    assert!(d.has_capacitance_feedback());
    d.set_pin_hi(3);
    d.set_pin(9, true);
    d.set_pin_lo(3);
    let p = d.shift_and_latch();
    assert_eq!(p[0], 0);
    assert_eq!(p[1], 0x40);
    let mut pins = vec![false; N_PINS];
    pins[0] = true;
    let p = output_pins(&mut d, &pins);
    assert_eq!(p[0], 0x80);
    assert_eq!(p[1], 0);
    d.clear_pins();
    assert_eq!(d.shift_and_latch(), vec![0u8; 16]);
    assert_eq!(d.set_frequency(500), Ok(()));
}

#[test]
fn backend_without_feedback_reports_it() {
    let mut d = OpenLoopDriver::new();
    assert!(!d.has_capacitance_feedback());
    let mut pins = vec![false; N_PINS];
    pins[8] = true;
    pins[127] = true;
    let p = output_pins(&mut d, &pins);
    assert_eq!(p[1], 0x80);
    assert_eq!(p[15], 0x01);
    assert_eq!(d.shift_and_latch(), p);
}

#[test]
fn cache_replaces_readings_whole() {
    let mut c = CapacitanceCache::new();
    assert_eq!(c.bulk_capacitance(), vec![0; N_PINS]);
    c.store_bulk((0..128).collect());
    c.store_active(42);
    assert_eq!(c.bulk_capacitance()[127], 127);
    assert_eq!(c.active_capacitance(), 42);
    assert_eq!(feedback_bulk_capacitance(Some(&c)).unwrap()[5], 5);
    assert_eq!(feedback_active_capacitance(Some(&c)), Ok(42));
    assert_eq!(feedback_bulk_capacitance(None), Err(Unsupported));
    assert_eq!(feedback_active_capacitance(None), Err(Unsupported));
}

#[test]
fn electrode_index_lists() {
    let v = electrode_pins(&[0, 5, 127, 5]).unwrap();
    assert_eq!(v.len(), N_PINS);
    assert_eq!(v.iter().filter(|b| **b).count(), 3);
    assert!(v[0] && v[5] && v[127]);
    assert!(electrode_pins(&[]).unwrap().iter().all(|b| !*b));
    assert!(electrode_pins(&[3, 128]).is_none());
    let e = RpcError::new(INVALID_PIN, "pin 128".to_string());
    assert_eq!(e.code, -7);
}

#[test]
fn direction_names() {
    assert_eq!(parse_direction("up"), Some(Direction::Up));
    assert_eq!(parse_direction("Down"), Some(Direction::Down));
    assert_eq!(parse_direction("LEFT"), Some(Direction::Left));
    assert_eq!(parse_direction("right"), Some(Direction::Right));
    assert_eq!(parse_direction("north"), None);
    assert_eq!(parse_direction(""), None);
    assert_eq!(parse_direction("upp"), None);
}

#[test]
fn settings_defaults() {
    assert_eq!(default_threads(), 4);
    assert_eq!(default_static_dir(), "/usr/share/purpledrop/webroot");
    assert_eq!(default_static_dir(), PD_STATIC_DIR_DEFAULT_PATH);
}

#[test]
fn websocket_holds_back_active_capacitance() {
    assert!(!forwarded_to_websocket(EventKind::ActiveCapacitance));
    assert!(forwarded_to_websocket(EventKind::BulkCapacitance));
    assert!(forwarded_to_websocket(EventKind::ElectrodeState));
    assert!(forwarded_to_websocket(EventKind::Image));
    assert!(forwarded_to_websocket(EventKind::ImageTransform));
}

#[test]
fn broadcaster_queues_copies_until_receiver_is_gone() {
    let (tx, rx) = channel();
    let b = Broadcaster::from_sender(tx);
    assert_eq!(b.broadcast(&[1, 2, 3]), Ok(()));
    assert_eq!(rx.recv().unwrap(), vec![1, 2, 3]);
    drop(rx);
    assert_eq!(b.broadcast(&[4]), Err(BroadcastError));
}

#[test]
fn layout_maps_rectangles_to_electrodes() {
    let layout = BoardLayout::new(vec![vec![0, 1, 2], vec![3, -1, 5], vec![6, 7, 127]]);
    assert_eq!(layout.get_pin(Location { x: 2, y: 1 }), Some(5));
    assert_eq!(layout.get_pin(Location { x: 1, y: 1 }), None);
    assert_eq!(layout.get_pin(Location { x: 3, y: 0 }), None);
    let r = Rectangle { location: Location { x: 1, y: 2 }, dimensions: Location { x: 2, y: 1 } };
    let v = layout.rect_pins(r).unwrap();
    assert_eq!(v.iter().filter(|b| **b).count(), 2);
    assert!(v[7] && v[127]);
    let hole = Rectangle { location: Location { x: 0, y: 0 }, dimensions: Location { x: 2, y: 2 } };
    assert!(layout.rect_pins(hole).is_none());
    let empty = Rectangle { location: Location { x: 0, y: 0 }, dimensions: Location { x: 0, y: 3 } };
    assert!(layout.rect_pins(empty).unwrap().iter().all(|b| !*b));
}
