use hid_monitor::Channel;
use hid_monitor::ChannelClosed;
use hid_monitor::DeviceId;
use hid_monitor::Event;
use hid_monitor::Monitor;

fn id(raw: u64) -> DeviceId {
    DeviceId::from_raw(raw)
}

fn snapshot(raws: &[u64]) -> Vec<DeviceId> {
    raws.iter().map(|&r| id(r)).collect()
}

#[test]
fn from_raw_keeps_identity() {
    assert_eq!(id(7), DeviceId { raw: 7 });
    assert_eq!(id(u64::MAX).raw, u64::MAX);
    assert_ne!(id(1), id(2));
}

#[test]
fn first_snapshot_adds_every_device() {
    let mut m = Monitor::new();
    assert!(m.poll(snapshot(&[10])).is_ok());
    assert_eq!(m.events(), vec![Event::Add(id(10))]);
}

#[test]
fn appearing_device_is_added() {
    let mut m = Monitor::new();
    m.poll(snapshot(&[10])).unwrap();
    m.events();
    m.poll(snapshot(&[10, 11])).unwrap();
    assert_eq!(m.events(), vec![Event::Add(id(11))]);
}

#[test]
fn vanishing_device_is_removed() {
    let mut m = Monitor::new();
    m.poll(snapshot(&[10, 11])).unwrap();
    m.events();
    m.poll(snapshot(&[11])).unwrap();
    assert_eq!(m.events(), vec![Event::Remove(id(10))]);
    m.poll(snapshot(&[])).unwrap();
    assert_eq!(m.events(), vec![Event::Remove(id(11))]);
}

#[test]
fn scripted_snapshots_give_the_scripted_events() {
    let mut m = Monitor::new();
    m.poll(snapshot(&[0xA])).unwrap();
    assert_eq!(m.events(), vec![Event::Add(id(0xA))]);
    m.poll(snapshot(&[0xA, 0xB])).unwrap();
    assert_eq!(m.events(), vec![Event::Add(id(0xB))]);
    m.poll(snapshot(&[0xB])).unwrap();
    assert_eq!(m.events(), vec![Event::Remove(id(0xA))]);
    m.poll(snapshot(&[])).unwrap();
    assert_eq!(m.events(), vec![Event::Remove(id(0xB))]);
}

#[test]
fn unchanged_snapshot_emits_nothing() {
    let mut m = Monitor::new();
    m.poll(snapshot(&[1, 2])).unwrap();
    m.events();
    m.poll(snapshot(&[1, 2])).unwrap();
    assert_eq!(m.events(), vec![]);
}

#[test]
fn reordered_snapshot_emits_nothing() {
    let mut m = Monitor::new();
    m.poll(snapshot(&[1, 2])).unwrap();
    m.events();
    m.poll(snapshot(&[2, 1])).unwrap();
    assert_eq!(m.events(), vec![]);
}

#[test]
fn empty_snapshots_emit_nothing() {
    let mut m = Monitor::new();
    m.poll(snapshot(&[])).unwrap();
    m.poll(snapshot(&[])).unwrap();
    assert_eq!(m.events(), vec![]);
}

#[test]
fn removals_come_before_additions() {
    let mut m = Monitor::new();
    m.poll(snapshot(&[1])).unwrap();
    m.events();
    m.poll(snapshot(&[2, 3])).unwrap();
    let evs = m.events();
    assert_eq!(evs.len(), 3);
    assert_eq!(evs[0], Event::Remove(id(1)));
    let tail = [evs[1], evs[2]];
    assert!(
        tail == [Event::Add(id(2)), Event::Add(id(3))]
            || tail == [Event::Add(id(3)), Event::Add(id(2))]
    );
    assert!(!evs.contains(&Event::Remove(id(2))));
    assert!(!evs.contains(&Event::Remove(id(3))));
    assert!(!evs.contains(&Event::Add(id(1))));
}

#[test]
fn known_device_is_not_added_twice() {
    let mut m = Monitor::new();
    m.poll(snapshot(&[5])).unwrap();
    m.poll(snapshot(&[5, 6])).unwrap();
    m.poll(snapshot(&[5, 6])).unwrap();
    let evs = m.events();
    assert_eq!(
        evs.iter().filter(|&&e| e == Event::Add(id(5))).count(),
        1
    );
    assert_eq!(
        evs.iter().filter(|&&e| e == Event::Add(id(6))).count(),
        1
    );
    assert!(!evs.iter().any(|e| matches!(e, Event::Remove(_))));
}

#[test]
fn drain_twice_returns_nothing_the_second_time() {
    let mut m = Monitor::new();
    m.poll(snapshot(&[1])).unwrap();
    assert!(!m.events().is_empty());
    assert!(m.events().is_empty());
}

#[test]
fn monitor_starts_alive() {
    let m = Monitor::new();
    assert!(m.alive());
}

#[test]
fn stop_ends_the_loop_for_good() {
    let mut m = Monitor::new();
    m.poll(snapshot(&[1])).unwrap();
    assert_eq!(m.events(), vec![Event::Add(id(1))]);
    m.stop();
    assert!(!m.alive());
    m.poll(snapshot(&[1, 2])).unwrap();
    assert_eq!(m.events(), vec![]);
    m.poll(snapshot(&[3])).unwrap();
    assert_eq!(m.events(), vec![]);
}

#[test]
fn stop_is_idempotent() {
    let mut m = Monitor::new();
    m.stop();
    m.stop();
    assert!(!m.alive());
}

#[test]
fn lost_consumer_stops_the_loop() {
    let mut m = Monitor::new();
    m.poll(snapshot(&[1])).unwrap();
    assert_eq!(m.events(), vec![Event::Add(id(1))]);
    m.disconnect();
    assert_eq!(m.poll(snapshot(&[1, 2])), Err(ChannelClosed));
    assert!(!m.alive());
    assert_eq!(m.events(), vec![]);
    assert!(m.poll(snapshot(&[3])).is_ok());
    assert_eq!(m.events(), vec![]);
}

#[test]
fn lost_consumer_goes_unnoticed_without_events() {
    let mut m = Monitor::new();
    m.poll(snapshot(&[1])).unwrap();
    m.disconnect();
    assert!(m.poll(snapshot(&[1])).is_ok());
    assert!(m.alive());
}

#[test]
fn channel_hands_events_back_in_order() {
    let mut c = Channel::new();
    c.send(Event::Add(id(1))).unwrap();
    c.send(Event::Remove(id(2))).unwrap();
    assert_eq!(c.drain(), vec![Event::Add(id(1)), Event::Remove(id(2))]);
    assert_eq!(c.drain(), vec![]);
}

#[test]
fn channel_send_fails_once_disconnected() {
    let mut c = Channel::new();
    c.send(Event::Add(id(1))).unwrap();
    c.disconnect();
    assert_eq!(c.send(Event::Add(id(2))), Err(ChannelClosed));
    assert_eq!(c.drain(), vec![Event::Add(id(1))]);
}
