use kbus_mqtt_bridge::poller::{detect_changes, OutputDecision, Poller};
use kbus_mqtt_bridge::KBusEvent;

/// Packs a 90-channel boolean image into its 12 raw bytes.
fn pack(image: &[bool; 90]) -> Vec<u8> {
    let mut bytes = vec![0u8; 12];
    for (i, &bit) in image.iter().enumerate() {
        if bit {
            bytes[i / 8] |= 1 << (i % 8);
        }
    }
    bytes
}

/// The expected events: every differing index in ascending order, with
/// the new value.
fn expected_events(prev: &[bool; 90], cur: &[bool; 90]) -> Vec<(u16, bool)> {
    (0..90u16)
        .filter(|&i| prev[i as usize] != cur[i as usize])
        .map(|i| (i, cur[i as usize]))
        .collect()
}

#[test]
fn test_detect_changes_exact_set() {
    let mut prev = [false; 90];
    let mut cur = [false; 90];
    prev[3] = true; // true -> false
    cur[5] = true; // false -> true
    cur[17] = true; // false -> true
    prev[40] = true;
    cur[40] = true; // unchanged, must not emit
    let events = detect_changes(&pack(&cur), &pack(&prev), 90);
    let got: Vec<(u16, bool)> = events.iter().map(|e| (e.channel, e.value)).collect();
    assert_eq!(got, vec![(3, false), (5, true), (17, true)]);
}

#[test]
fn test_detect_changes_random_transitions() {
    // A deterministic linear congruential generator drives N random
    // A -> B transitions; the emitted set must equal the differing-index
    // set each time.
    let mut state: u64 = 0x2545F4914F6CDD1D;
    let mut next_bit = || {
        state = state.wrapping_mul(6364136223846793005).wrapping_add(1442695040888963407);
        (state >> 33) & 1 == 1
    };
    let mut prev = [false; 90];
    for _round in 0..50 {
        let mut cur = [false; 90];
        for slot in cur.iter_mut() {
            *slot = next_bit();
        }
        let events = detect_changes(&pack(&cur), &pack(&prev), 90);
        let got: Vec<(u16, bool)> = events.iter().map(|e| (e.channel, e.value)).collect();
        assert_eq!(got, expected_events(&prev, &cur));
        prev = cur;
    }
}

#[test]
fn test_idle_image_emits_nothing() {
    let mut image = [false; 90];
    image[1] = true;
    image[88] = true;
    let events = detect_changes(&pack(&image), &pack(&image), 90);
    assert_eq!(events.len(), 0);
}

#[test]
fn test_events_ascend_and_carry_new_value() {
    let prev = [false; 90];
    let cur = [true; 90];
    let events = detect_changes(&pack(&cur), &pack(&prev), 90);
    assert_eq!(events.len(), 90);
    for (k, e) in events.iter().enumerate() {
        assert_eq!(e.channel, k as u16);
        assert!(e.value);
    }
}

#[test]
fn test_poller_double_buffer_cycles() {
    let mut poller = Poller::new(90, 90);

    // First cycle: channel 5 comes up against the all-zero start image.
    let mut image = [false; 90];
    image[5] = true;
    let events = detect(&mut poller, &image);
    assert_eq!(events, vec![(5, true)]);

    // Second cycle: nothing changed, nothing is emitted.
    let events = detect(&mut poller, &image);
    assert_eq!(events, vec![]);

    // Third cycle: channel 5 drops, channel 6 rises.
    let mut image2 = [false; 90];
    image2[6] = true;
    let events = detect(&mut poller, &image2);
    assert_eq!(events, vec![(5, false), (6, true)]);
}

fn detect(poller: &mut Poller, image: &[bool; 90]) -> Vec<(u16, bool)> {
    poller
        .on_image(&pack(image))
        .iter()
        .map(|e| (e.channel, e.value))
        .collect()
}

#[test]
fn test_route_output_in_range() {
    let poller = Poller::new(90, 90);
    let event = KBusEvent::new(10, true);
    assert_eq!(
        poller.route_output(&event),
        OutputDecision::Write { offset: 10, value: true }
    );
}

#[test]
fn test_route_output_out_of_range_is_ignored() {
    let poller = Poller::new(90, 90);
    // channel == output size is already out of range
    let event = KBusEvent::new(90, true);
    assert_eq!(poller.route_output(&event), OutputDecision::Ignore);
    let event = KBusEvent::new(1000, false);
    assert_eq!(poller.route_output(&event), OutputDecision::Ignore);
}
