use raw_input_window::{
    device_set, to_wstring, DeviceRegistration, Route, RoutingTable, HID_USAGE_GENERIC_KEYBOARD,
    HID_USAGE_GENERIC_MOUSE, HID_USAGE_PAGE_GENERIC, RIDEV_NOLEGACY,
};

#[test]
fn device_set_is_mouse_and_keyboard_without_legacy() {
    let d = device_set(0x1000);
    assert_eq!(
        d,
        vec![
            DeviceRegistration { usage_page: 1, usage: 2, flags: 0x30, target: 0x1000 },
            DeviceRegistration { usage_page: 1, usage: 6, flags: 0x30, target: 0x1000 },
        ]
    );
    assert_eq!(HID_USAGE_PAGE_GENERIC, 1);
    assert_eq!(HID_USAGE_GENERIC_MOUSE, 2);
    assert_eq!(HID_USAGE_GENERIC_KEYBOARD, 6);
    assert_eq!(RIDEV_NOLEGACY, 0x30);
}

#[test]
fn registering_twice_routes_the_same() {
    let d = device_set(7);
    let mut once = RoutingTable::new();
    once.register(&d);
    let mut twice = RoutingTable::new();
    twice.register(&d);
    twice.register(&d);
    for usage in [HID_USAGE_GENERIC_MOUSE, HID_USAGE_GENERIC_KEYBOARD, 4] {
        assert_eq!(once.route(HID_USAGE_PAGE_GENERIC, usage), twice.route(HID_USAGE_PAGE_GENERIC, usage));
    }
    assert_eq!(twice.route(1, 2), Some(Route { flags: 0x30, target: 7 }));
    assert_eq!(twice.route(1, 6), Some(Route { flags: 0x30, target: 7 }));
    assert_eq!(twice.route(1, 4), None);
    assert_eq!(twice.route(2, 2), None);
}

#[test]
fn later_registration_replaces_route() {
    let mut t = RoutingTable::new();
    assert_eq!(t.route(1, 2), None);
    t.register(&device_set(7));
    t.register(&vec![DeviceRegistration { usage_page: 1, usage: 2, flags: 0, target: 9 }]);
    assert_eq!(t.route(1, 2), Some(Route { flags: 0, target: 9 }));
    assert_eq!(t.route(1, 6), Some(Route { flags: 0x30, target: 7 }));
}

#[test]
fn wide_strings_are_utf16_with_terminator() {
    assert_eq!(to_wstring(""), vec![0]);
    assert_eq!(to_wstring("A"), vec![0x41, 0]);
    assert_eq!(to_wstring("my_window"), "my_window".encode_utf16().chain([0]).collect::<Vec<u16>>());
    assert_eq!(to_wstring("é"), vec![0xE9, 0]);
    assert_eq!(to_wstring("\u{1F600}"), vec![0xD83D, 0xDE00, 0]);
    assert_eq!(to_wstring("\u{10FFFF}"), vec![0xDBFF, 0xDFFF, 0]);
}
