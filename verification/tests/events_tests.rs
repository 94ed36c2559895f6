use rustpods::airpods::detector::DetectedAirPods;
use rustpods::bluetooth::adapter::AdapterInfo;
use rustpods::bluetooth::address::BDAddr;
use rustpods::bluetooth::events::{BleEvent, EventFilter, EventPredicate, EventType};
use rustpods::bluetooth::scanner::DiscoveredDevice;

#[test]
fn test_event_filter_all() {
    let filter = EventFilter::all();
    assert!(filter.matches(&BleEvent::DeviceDiscovered(DiscoveredDevice::default())));
    assert!(filter.matches(&BleEvent::DeviceLost(BDAddr::default())));
    assert!(filter.matches(&BleEvent::Error("test".to_string())));
    assert!(filter.matches(&BleEvent::AdapterChanged(AdapterInfo::default())));
    assert!(filter.matches(&BleEvent::ScanCycleCompleted { devices_found: 0 }));
    assert!(filter.matches(&BleEvent::ScanningCompleted));
    assert!(filter.matches(&BleEvent::AirPodsDetected(DetectedAirPods::default())));
}

#[test]
fn test_event_filter_airpods_only() {
    let filter = EventFilter::airpods_only();
    assert!(!filter.matches(&BleEvent::DeviceDiscovered(DiscoveredDevice::default())));
    assert!(!filter.matches(&BleEvent::DeviceLost(BDAddr::default())));
    assert!(!filter.matches(&BleEvent::Error("test".to_string())));
    assert!(!filter.matches(&BleEvent::AdapterChanged(AdapterInfo::default())));
    assert!(!filter.matches(&BleEvent::ScanCycleCompleted { devices_found: 0 }));
    assert!(!filter.matches(&BleEvent::ScanningCompleted));
    assert!(filter.matches(&BleEvent::AirPodsDetected(DetectedAirPods::default())));
}

struct MinRssi;

impl EventPredicate for MinRssi {
    fn accepts(&self, event: &BleEvent) -> bool {
        if let BleEvent::DeviceDiscovered(device) = event {
            return device.rssi.unwrap_or(-100) >= -75;
        }
        false
    }
}

#[test]
fn test_filter_with_min_rssi() {
    let filter = EventFilter::custom(Box::new(MinRssi));
    assert!(filter.matches(&BleEvent::DeviceDiscovered(DiscoveredDevice {
        address: BDAddr::default(),
        rssi: Some(-70),
        ..DiscoveredDevice::default()
    })));
    assert!(!filter.matches(&BleEvent::DeviceDiscovered(DiscoveredDevice {
        address: BDAddr::default(),
        rssi: Some(-80),
        ..DiscoveredDevice::default()
    })));
    assert!(!filter.matches(&BleEvent::DeviceLost(BDAddr::default())));
}

#[test]
fn device_filter_matches_events_with_listed_address() {
    let addr = BDAddr::from([1, 2, 3, 4, 5, 6]);
    let filter = EventFilter::devices(vec![addr]);
    assert!(filter.matches(&BleEvent::DeviceLost(addr)));
    assert!(!filter.matches(&BleEvent::DeviceLost(BDAddr::default())));
    assert!(!filter.matches(&BleEvent::ScanningCompleted));
    assert_eq!(BleEvent::DeviceLost(addr).get_device_address(), Some(addr));
    assert_eq!(BleEvent::Error("e".to_string()).get_device_address(), None);
    assert_eq!(BleEvent::ScanningCompleted.get_type(), EventType::ScanningCompleted);
}

#[test]
fn duplicate_of_custom_filter_accepts_all() {
    let filter = EventFilter::custom(Box::new(MinRssi)).duplicate();
    assert!(filter.matches(&BleEvent::ScanningCompleted));
    let types = EventFilter::event_types(vec![EventType::Error]).duplicate();
    assert!(types.matches(&BleEvent::Error("x".to_string())));
    assert!(!types.matches(&BleEvent::ScanningCompleted));
}

use rustpods::bluetooth::events::EventBroker;
use std::time::{Duration, Instant};

#[test]
fn test_event_broker_shutdown() {
    let mut broker: EventBroker<u8> = EventBroker::new();

    let _id1 = broker.subscribe(1, EventFilter::all(), Instant::now());
    let _id2 = broker.subscribe(2, EventFilter::all(), Instant::now());
    assert_eq!(broker.subscriber_count(), 2);

    broker.shutdown();

    assert_eq!(broker.subscriber_count(), 0, "Subscribers should be cleared after shutdown");
}

#[test]
fn broker_hands_out_ids_from_one_and_unsubscribes() {
    let mut broker: EventBroker<&str> = EventBroker::new();
    let now = Instant::now();
    assert_eq!(broker.inactive_timeout(), Some(Duration::from_secs(60)));
    let a = broker.subscribe("a", EventFilter::all(), now);
    let b = broker.subscribe("b", EventFilter::event_types(vec![EventType::Error]), now);
    let c = broker.subscribe("c", EventFilter::all(), now);
    assert_eq!((a, b, c), (1, 2, 3));
    broker.unsubscribe(b);
    assert_eq!(broker.ids(), vec![1, 3]);
    broker.unsubscribe(42);
    assert_eq!(broker.ids(), vec![1, 3]);
    assert!(broker.modify_filter(3, EventFilter::event_types(vec![EventType::DeviceLost])));
    assert!(!broker.modify_filter(2, EventFilter::all()));
}

#[test]
fn broker_recipients_follow_filters() {
    let mut broker: EventBroker<u8> = EventBroker::new();
    let now = Instant::now();
    broker.subscribe(0, EventFilter::all(), now);
    broker.subscribe(1, EventFilter::event_types(vec![EventType::DeviceLost]), now);
    broker.subscribe(2, EventFilter::event_types(vec![EventType::Error]), now);
    let r = broker.recipients(&BleEvent::Error("x".to_string()), Instant::now());
    assert_eq!(r, vec![0, 2]);
    let r = broker.recipients(&BleEvent::DeviceLost(BDAddr::default()), Instant::now());
    assert_eq!(r, vec![0, 1]);
}

#[test]
fn broker_removes_only_idle_subscribers() {
    let mut broker: EventBroker<u8> = EventBroker::new();
    let start = Instant::now();
    broker.subscribe(0, EventFilter::all(), start);
    broker.subscribe(1, EventFilter::all(), start + Duration::from_secs(50));
    broker.remove_inactive(start + Duration::from_secs(70));
    assert_eq!(broker.ids(), vec![2]);
    broker.set_inactive_timeout(None);
    broker.remove_inactive(start + Duration::from_secs(1000));
    assert_eq!(broker.ids(), vec![2]);
}

#[test]
fn broker_keeps_flagged_subscribers_in_order() {
    let mut broker: EventBroker<u8> = EventBroker::new();
    let now = Instant::now();
    for tag in 0..4u8 {
        broker.subscribe(tag, EventFilter::all(), now);
    }
    broker.retain_flagged(&vec![true, false, true, false]);
    assert_eq!(broker.ids(), vec![1, 3]);
    assert_eq!(broker.sender_at(1), Some(&2));
    assert_eq!(broker.sender_at(2), None);
    assert_eq!(broker.next_id(), 5);
}

#[test]
fn broker_modified_filter_decides_recipients() {
    let mut broker: EventBroker<u8> = EventBroker::new();
    let now = Instant::now();
    broker.subscribe(0, EventFilter::all(), now);
    broker.subscribe(1, EventFilter::event_types(vec![EventType::DeviceLost]), now);
    let r = broker.recipients(&BleEvent::Error("x".to_string()), Instant::now());
    assert_eq!(r, vec![0]);
    assert!(broker.modify_filter(2, EventFilter::event_types(vec![EventType::Error])));
    let r = broker.recipients(&BleEvent::Error("x".to_string()), Instant::now());
    assert_eq!(r, vec![0, 1]);
    let r = broker.recipients(&BleEvent::DeviceLost(BDAddr::default()), Instant::now());
    assert_eq!(r, vec![0]);
}
