use purpledrop::collector::{BulkMeasurementCollector, CollectorError, CAP_OFFSET};
use purpledrop::electrodes::{pack_electrodes, unpack_electrodes, PAYLOAD_LEN};
use purpledrop::N_PINS;

fn pins_with(on: &[usize]) -> Vec<bool> {
    let mut pins = vec![false; N_PINS];
    for &p in on {
        pins[p] = true;
    }
    pins
}

#[test]
fn packs_first_electrode_into_most_significant_bit() {
    let payload = pack_electrodes(&pins_with(&[0]));
    assert_eq!(payload.len(), PAYLOAD_LEN);
    assert_eq!(payload[0], 0x80);
    assert!(payload[1..].iter().all(|b| *b == 0));
}

#[test]
fn packs_eighth_and_last_electrodes_into_least_significant_bits() {
    let payload = pack_electrodes(&pins_with(&[7, 127]));
    assert_eq!(payload[0], 0x01);
    assert_eq!(payload[15], 0x01);
    assert!(payload[1..15].iter().all(|b| *b == 0));
}

#[test]
fn packs_mixed_pattern() {
    let payload = pack_electrodes(&pins_with(&[8, 10, 15, 64, 65]));
    assert_eq!(payload[1], 0b1010_0001);
    assert_eq!(payload[8], 0b1100_0000);
}

#[test]
fn packs_empty_and_full_sets() {
    assert_eq!(pack_electrodes(&vec![false; N_PINS]), vec![0u8; 16]);
    assert_eq!(pack_electrodes(&vec![true; N_PINS]), vec![0xffu8; 16]);
}

#[test]
fn electrode_set_round_trips_through_payload() {
    let set = [0usize, 3, 9, 31, 32, 77, 100, 126, 127];
    let pins = pins_with(&set);
    let decoded = unpack_electrodes(&pack_electrodes(&pins));
    assert_eq!(decoded, pins);
    let on: Vec<usize> = (0..N_PINS).filter(|i| decoded[*i]).collect();
    assert_eq!(on, set.to_vec());
}

#[test]
fn collector_completes_once_when_halves_arrive_out_of_order() {
    let mut c = BulkMeasurementCollector::new();
    let high: Vec<u16> = (64..128).map(|i| 1000 + i as u16).collect();
    let low: Vec<u16> = (0..64).map(|i| 2000 + i as u16).collect();
    assert!(matches!(c.add_measurements(64, high), Ok(None)));
    let sample = c.add_measurements(0, low).unwrap().unwrap();
    assert_eq!(sample.len(), N_PINS);
    assert_eq!(sample[0], 2000 - 120);
    assert_eq!(sample[63], 2063 - 120);
    assert_eq!(sample[64], 1064 - 120);
    assert_eq!(sample[127], 1127 - 120);
}

#[test]
fn collector_applies_offset_and_keeps_latest_overlapping_value() {
    let mut c = BulkMeasurementCollector::new();
    assert!(matches!(c.add_measurements(0, vec![500; 100]), Ok(None)));
    assert!(matches!(c.add_measurements(50, vec![7; 10]), Ok(None)));
    let sample = c.add_measurements(100, vec![1000; 28]).unwrap().unwrap();
    assert_eq!(CAP_OFFSET, -120);
    assert_eq!(sample[0], 380);
    assert_eq!(sample[49], 380);
    assert_eq!(sample[50], 7 - 120);
    assert_eq!(sample[59], 7 - 120);
    assert_eq!(sample[60], 380);
    assert_eq!(sample[127], 880);
}

#[test]
fn collector_starts_new_cycle_after_completion() {
    let mut c = BulkMeasurementCollector::new();
    assert!(c.add_measurements(0, vec![300; 128]).unwrap().is_some());
    assert!(matches!(c.add_measurements(0, vec![400; 64]), Ok(None)));
    let sample = c.add_measurements(64, vec![500; 64]).unwrap().unwrap();
    assert_eq!(sample[0], 280);
    assert_eq!(sample[127], 380);
}

#[test]
fn collector_refuses_write_past_end_and_keeps_state() {
    let mut c = BulkMeasurementCollector::new();
    assert!(matches!(c.add_measurements(0, vec![600; 64]), Ok(None)));
    assert_eq!(c.add_measurements(100, vec![1; 29]).unwrap_err(), CollectorError::OutOfRange);
    assert_eq!(c.add_measurements(129, vec![]).unwrap_err(), CollectorError::OutOfRange);
    let sample = c.add_measurements(64, vec![700; 64]).unwrap().unwrap();
    assert_eq!(sample[0], 480);
    assert_eq!(sample[63], 480);
    assert_eq!(sample[100], 580);
}
