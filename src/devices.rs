//! The set of device classes whose raw input is routed to the window, and a
//! model of the routing table that registering such a set produces.
use vstd::prelude::*;
use std::collections::HashMap;

verus! {

broadcast use vstd::std_specs::hash::group_hash_axioms;

/// Usage page of generic desktop controls.
pub const HID_USAGE_PAGE_GENERIC: u16 = 0x01;

/// Usage of a generic mouse.
pub const HID_USAGE_GENERIC_MOUSE: u16 = 0x02;

/// Usage of a generic keyboard.
pub const HID_USAGE_GENERIC_KEYBOARD: u16 = 0x06;

/// Registration flag that suppresses the legacy messages of a device class.
pub const RIDEV_NOLEGACY: u32 = 0x30;

/// One device class to route: its usage page and usage, the registration
/// flags, and the window that receives its raw input.
#[derive(Debug, Clone, Copy, PartialEq, Eq, Structural)]
pub struct DeviceRegistration {
    pub usage_page: u16,
    pub usage: u16,
    pub flags: u32,
    pub target: usize,
}

/// Where a registered class is routed: flags and target window.
#[derive(Debug, Clone, Copy, PartialEq, Eq, Structural)]
pub struct Route {
    pub flags: u32,
    pub target: usize,
}

pub open spec fn class_key(usage_page: u16, usage: u16) -> u32 {
    (usage_page * 65536 + usage) as u32
}

pub open spec fn generic_device(usage: u16, target: usize) -> DeviceRegistration {
    DeviceRegistration {
        usage_page: HID_USAGE_PAGE_GENERIC,
        usage,
        flags: RIDEV_NOLEGACY,
        target,
    }
}

/// The routing after registering `d` on top of `m`: each class goes to
/// the last registration of it, and a class not in `d` keeps its route.
pub open spec fn registered(m: Map<u32, Route>, d: Seq<DeviceRegistration>) -> Map<u32, Route>
    decreases d.len(),
{
    if d.len() == 0 {
        m
    } else {
        let e = d.last();
        registered(m, d.drop_last()).insert(
            class_key(e.usage_page, e.usage),
            Route { flags: e.flags, target: e.target },
        )
    }
}

/// The window's device set: the generic mouse and the generic keyboard,
/// both routed to `target` with their legacy messages suppressed.
pub fn device_set(target: usize) -> (r: Vec<DeviceRegistration>)
    ensures
        r@ == seq![
            generic_device(HID_USAGE_GENERIC_MOUSE, target),
            generic_device(HID_USAGE_GENERIC_KEYBOARD, target),
        ],
{
    let mut r: Vec<DeviceRegistration> = Vec::new();
    r.push(
        DeviceRegistration {
            usage_page: HID_USAGE_PAGE_GENERIC,
            usage: HID_USAGE_GENERIC_MOUSE,
            flags: RIDEV_NOLEGACY,
            target,
        },
    );
    r.push(
        DeviceRegistration {
            usage_page: HID_USAGE_PAGE_GENERIC,
            usage: HID_USAGE_GENERIC_KEYBOARD,
            flags: RIDEV_NOLEGACY,
            target,
        },
    );
    assert(r@ =~= seq![
        generic_device(HID_USAGE_GENERIC_MOUSE, target),
        generic_device(HID_USAGE_GENERIC_KEYBOARD, target),
    ]);
    r
}

/// Which window receives the raw input of each registered device class;
/// a class has at most one route.
#[derive(Debug)]
pub struct RoutingTable {
    routes: HashMap<u32, Route>,
}

impl View for RoutingTable {
    type V = Map<u32, Route>;

    closed spec fn view(&self) -> Map<u32, Route> {
        self.routes@
    }
}

fn class_key_of(usage_page: u16, usage: u16) -> (r: u32)
    ensures
        r == class_key(usage_page, usage),
{
    usage_page as u32 * 65536 + usage as u32
}

impl RoutingTable {
    /// A table with nothing registered.
    pub fn new() -> (r: RoutingTable)
        ensures
            r@ == Map::<u32, Route>::empty(),
    {
        RoutingTable { routes: HashMap::new() }
    }

    /// Registers each entry of `devices` in order; a later registration of
    /// a class replaces the earlier one.
    pub fn register(&mut self, devices: &Vec<DeviceRegistration>)
        ensures
            final(self)@ == registered(old(self)@, devices@),
    {
        let mut i: usize = 0;
        while i < devices.len()
            invariant
                i <= devices@.len(),
                self@ == registered(old(self)@, devices@.take(i as int)),
            decreases devices@.len() - i,
        {
            let e = devices[i];
            self.routes.insert(
                class_key_of(e.usage_page, e.usage),
                Route { flags: e.flags, target: e.target },
            );
            proof {
                assert(devices@.take(i + 1).drop_last() =~= devices@.take(i as int));
            }
            i = i + 1;
        }
        proof {
            assert(devices@.take(i as int) =~= devices@);
        }
    }

    /// The route of a device class, if it is registered.
    pub fn route(&self, usage_page: u16, usage: u16) -> (r: Option<Route>)
        ensures
            self@.contains_key(class_key(usage_page, usage)) ==> r == Some(
                self@[class_key(usage_page, usage)],
            ),
            !self@.contains_key(class_key(usage_page, usage)) ==> r is None,
    {
        match self.routes.get(&class_key_of(usage_page, usage)) {
            Some(route) => Some(*route),
            None => None,
        }
    }
}

proof fn lemma_registered_union(m: Map<u32, Route>, d: Seq<DeviceRegistration>)
    ensures
        registered(m, d) == m.union_prefer_right(registered(Map::empty(), d)),
    decreases d.len(),
{
    if d.len() > 0 {
        lemma_registered_union(m, d.drop_last());
        lemma_registered_union(Map::empty(), d.drop_last());
        assert(registered(m, d) =~= m.union_prefer_right(registered(Map::empty(), d)));
    } else {
        assert(registered(m, d) =~= m.union_prefer_right(registered(Map::empty(), d)));
    }
}

/// Registering the same device set a second time, with the same
/// parameters, leaves the routing as the first registration made it.
pub proof fn lemma_register_idempotent(m: Map<u32, Route>, d: Seq<DeviceRegistration>)
    ensures
        registered(registered(m, d), d) == registered(m, d),
{
    lemma_registered_union(m, d);
    lemma_registered_union(registered(m, d), d);
    assert(registered(registered(m, d), d) =~= registered(m, d));
}

} // verus!
