use sg_control::discovery::{
    matches_filter, select_first_match, standard_config, target_filter, DataBits, DeviceFilter,
    Endpoint, EndpointKind, FlowControl, Parity, StopBits, BAUD_RATE, EXCHANGE_TIMEOUT_MS,
    OPEN_TIMEOUT_MS, TARGET_PRODUCT_ID, TARGET_VENDOR_ID,
};

fn usb(name: &str, vendor_id: u16, product_id: u16) -> Endpoint {
    Endpoint { name: name.to_owned(), kind: EndpointKind::Usb { vendor_id, product_id } }
}

fn other(name: &str) -> Endpoint {
    Endpoint { name: name.to_owned(), kind: EndpointKind::Other }
}

#[test]
fn selects_first_matching_endpoint() {
    let f = DeviceFilter { vendor_id: 8137, product_id: 131 };
    let endpoints = vec![
        other("ttyS0"),
        usb("ttyUSB0", 1027, 24577),
        usb("ttyUSB1", 8137, 131),
        usb("ttyUSB2", 8137, 131),
    ];
    assert_eq!(select_first_match(&endpoints, &f), Some(2));
}

#[test]
fn no_match_among_candidates() {
    let f = target_filter();
    let endpoints = vec![other("ttyS0"), usb("ttyUSB0", 8137, 130), usb("ttyUSB1", 8136, 131)];
    assert_eq!(select_first_match(&endpoints, &f), None);
}

#[test]
fn no_candidates_at_all() {
    let f = target_filter();
    assert_eq!(select_first_match(&Vec::new(), &f), None);
}

#[test]
fn filter_matching() {
    let f = target_filter();
    assert!(matches_filter(&usb("a", TARGET_VENDOR_ID, TARGET_PRODUCT_ID), &f));
    assert!(!matches_filter(&usb("b", TARGET_VENDOR_ID, 0), &f));
    assert!(!matches_filter(&usb("c", 0, TARGET_PRODUCT_ID), &f));
    assert!(!matches_filter(&other("d"), &f));
}

#[test]
fn fixed_constants() {
    assert_eq!(TARGET_VENDOR_ID, 8137);
    assert_eq!(TARGET_PRODUCT_ID, 131);
    assert_eq!(BAUD_RATE, 115200);
    assert_eq!(OPEN_TIMEOUT_MS, 10000);
    assert_eq!(EXCHANGE_TIMEOUT_MS, 500);
}

#[test]
fn standard_port_configuration() {
    let c = standard_config();
    assert_eq!(c.baud_rate, 115200);
    assert_eq!(c.data_bits, DataBits::Eight);
    assert_eq!(c.parity, Parity::Off);
    assert_eq!(c.flow_control, FlowControl::Off);
    assert_eq!(c.stop_bits, StopBits::One);
    assert_eq!(c.open_timeout_ms, 10000);
}
