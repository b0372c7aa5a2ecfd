//! Google Cast discovery: reading a device out of the TXT values that an
//! mDNS response carries, and the list of devices found so far.

use vstd::prelude::*;
use vstd::string::*;
use crate::discovery::{split_field, split_field_exec};
use crate::text::{chars_of, contains, contains_exec, str_eq, views_of};
use crate::url_ext::opt_view;

verus! {

broadcast use vstd::string::group_string_axioms;

/// An IP address: four bytes or sixteen, as one integer each.
#[derive(Debug, Clone, Copy, PartialEq, Eq, Structural)]
pub enum IpAddress {
    V4(u32),
    V6(u128),
}

/// A Google Cast device: its id, address and friendly name.
#[derive(Debug, Clone)]
pub struct GCastDevice {
    pub id: String,
    pub ip: IpAddress,
    pub name: String,
}

/// The view of a device: (id, address, name).
pub open spec fn gcast_view(d: GCastDevice) -> (Seq<char>, IpAddress, Seq<char>) {
    (d.id@, d.ip, d.name@)
}

/// What a discovery reports.
pub enum GCastDiscovererMessage {
    DiscoverStarted,
    DiscoverEnded,
    FoundDevice(GCastDevice),
}

/// Every TXT value holds a `=`, so that it splits into a key and a value.
pub open spec fn txt_well_formed(values: Seq<Seq<char>>) -> bool {
    forall|i: int| 0 <= i < values.len() ==> contains(#[trigger] values[i], seq!['='])
}

/// The value of `key` among the TXT values: the text between the first and
/// the second `=` of the last value whose text before its first `=` is the
/// key (a later value replaces an earlier one).
pub open spec fn spec_txt_lookup(values: Seq<Seq<char>>, key: Seq<char>) -> Option<Seq<char>>
    decreases values.len(),
{
    if values.len() == 0 {
        None
    } else if split_field(values.last(), '=', 0) == Some(key) {
        split_field(values.last(), '=', 1)
    } else {
        spec_txt_lookup(values.drop_last(), key)
    }
}

/// Looks up `key` among the TXT values.
pub fn txt_lookup(values: &Vec<String>, key: &str) -> (r: Option<String>)
    requires
        txt_well_formed(views_of(values@)),
    ensures
        opt_view(r) == spec_txt_lookup(views_of(values@), key@),
{
    let mut found: Option<String> = None;
    let mut i: usize = 0;
    while i < values.len()
        invariant
            0 <= i <= values.len(),
            txt_well_formed(views_of(values@)),
            opt_view(found) == spec_txt_lookup(views_of(values@).take(i as int), key@),
        decreases values.len() - i,
    {
        let v = chars_of(values[i].as_str());
        let k = split_field_exec(&v, '=', 0);
        proof {
            assert(views_of(values@).take(i + 1).drop_last() =~= views_of(values@).take(i as int));
            assert(views_of(values@).take(i + 1).last() == values@[i as int]@);
            assert(contains(views_of(values@)[i as int], seq!['=']));
        }
        let same = match &k {
            Some(ks) => str_eq(ks.as_str(), key),
            None => false,
        };
        if same {
            found = split_field_exec(&v, '=', 1);
        }
        i += 1;
    }
    proof {
        assert(views_of(values@).take(values@.len() as int) =~= views_of(values@));
    }
    found
}

/// The device an mDNS response describes: none without an address;
/// otherwise its `id` and `fn` TXT values (empty when missing).
pub open spec fn spec_gcast_device(addr: Option<IpAddress>, values: Seq<Seq<char>>) -> Option<(Seq<char>, IpAddress, Seq<char>)> {
    match addr {
        None => None,
        Some(a) => Some(
            (
                match spec_txt_lookup(values, "id"@) {
                    Some(v) => v,
                    None => Seq::empty(),
                },
                a,
                match spec_txt_lookup(values, "fn"@) {
                    Some(v) => v,
                    None => Seq::empty(),
                },
            ),
        ),
    }
}

/// The view of an optional device.
pub open spec fn opt_gcast_view(d: Option<GCastDevice>) -> Option<(Seq<char>, IpAddress, Seq<char>)> {
    match d {
        Some(x) => Some(gcast_view(x)),
        None => None,
    }
}

/// Reads a device from the first address of an mDNS response and its TXT
/// values.
pub fn gcast_device(addr: Option<IpAddress>, values: &Vec<String>) -> (r: Option<GCastDevice>)
    requires
        txt_well_formed(views_of(values@)),
    ensures
        opt_gcast_view(r) == spec_gcast_device(addr, views_of(values@)),
{
    match addr {
        None => None,
        Some(a) => {
            let id = match txt_lookup(values, "id") {
                Some(v) => v,
                None => String::new(),
            };
            let name = match txt_lookup(values, "fn") {
                Some(v) => v,
                None => String::new(),
            };
            Some(GCastDevice { id, ip: a, name })
        },
    }
}

/// Whether every TXT value holds a `=`.
pub fn check_txt_well_formed(values: &Vec<String>) -> (r: bool)
    ensures
        r == txt_well_formed(views_of(values@)),
{
    let eq: Vec<char> = vec!['='];
    proof {
        assert(eq@ =~= seq!['=']);
    }
    let mut i: usize = 0;
    while i < values.len()
        invariant
            0 <= i <= values.len(),
            eq@ == seq!['='],
            forall|j: int| 0 <= j < i ==> contains(#[trigger] views_of(values@)[j], seq!['=']),
        decreases values.len() - i,
    {
        let v = chars_of(values[i].as_str());
        if !contains_exec(&v, &eq) {
            assert(views_of(values@)[i as int] == values@[i as int]@);
            return false;
        }
        i += 1;
    }
    true
}

/// Whether two devices are the same: same id, address and name.
pub fn same_device(a: &GCastDevice, b: &GCastDevice) -> (r: bool)
    ensures
        r == (gcast_view(*a) == gcast_view(*b)),
{
    str_eq(a.id.as_str(), b.id.as_str()) && a.ip == b.ip && str_eq(a.name.as_str(), b.name.as_str())
}

/// The views of a list of devices.
pub open spec fn gcast_views(v: Seq<GCastDevice>) -> Seq<(Seq<char>, IpAddress, Seq<char>)> {
    v.map_values(|d: GCastDevice| gcast_view(d))
}

/// The known devices after `device` was found: a new device goes first, a
/// known one changes nothing.
pub open spec fn spec_recorded(
    known: Seq<(Seq<char>, IpAddress, Seq<char>)>,
    device: (Seq<char>, IpAddress, Seq<char>),
) -> Seq<(Seq<char>, IpAddress, Seq<char>)> {
    if known.contains(device) {
        known
    } else {
        seq![device] + known
    }
}

/// A found device is known afterwards, so finding it again reports nothing
/// new and changes nothing: each device is reported once.
pub proof fn law_device_reported_once(
    known: Seq<(Seq<char>, IpAddress, Seq<char>)>,
    device: (Seq<char>, IpAddress, Seq<char>),
)
    ensures
        spec_recorded(known, device).contains(device),
        spec_recorded(spec_recorded(known, device), device) == spec_recorded(known, device),
{
    if !known.contains(device) {
        assert(spec_recorded(known, device)[0] == device);
    }
}

/// The devices found by a discovery, newest first.
pub struct GCastDiscoverer {
    pub known_devices: Vec<GCastDevice>,
}

impl GCastDiscoverer {
    /// A discoverer that knows no device.
    pub fn new() -> (d: GCastDiscoverer)
        ensures
            d.known_devices@.len() == 0,
    {
        GCastDiscoverer { known_devices: Vec::new() }
    }

    /// Forgets the devices found before, as a new discovery starts.
    pub fn reset(&mut self)
        ensures
            final(self).known_devices@.len() == 0,
    {
        self.known_devices = Vec::new();
    }

    /// Records a device: a device not known yet goes first and `true` is
    /// returned; a known one changes nothing.
    pub fn record_device(&mut self, device: GCastDevice) -> (is_new: bool)
        ensures
            is_new == !gcast_views(old(self).known_devices@).contains(gcast_view(device)),
            gcast_views(final(self).known_devices@) == spec_recorded(
                gcast_views(old(self).known_devices@),
                gcast_view(device),
            ),
            !is_new ==> final(self).known_devices@ == old(self).known_devices@,
    {
        let mut i: usize = 0;
        while i < self.known_devices.len()
            invariant
                0 <= i <= self.known_devices.len(),
                forall|j: int| 0 <= j < i ==> gcast_views(self.known_devices@)[j] != gcast_view(device),
            decreases self.known_devices.len() - i,
        {
            if same_device(&self.known_devices[i], &device) {
                assert(gcast_views(self.known_devices@)[i as int] == gcast_view(device));
                return false;
            }
            i += 1;
        }
        proof {
            if gcast_views(self.known_devices@).contains(gcast_view(device)) {
                let j = choose|j: int|
                    0 <= j < gcast_views(self.known_devices@).len() && gcast_views(self.known_devices@)[j]
                        == gcast_view(device);
                assert(false);
            }
        }
        let ghost before = self.known_devices@;
        self.known_devices.insert(0, device);
        proof {
            assert(gcast_views(self.known_devices@) =~= seq![gcast_view(device)] + gcast_views(before));
        }
        true
    }

    /// The first known device with this address.
    pub fn device_by_ip_addr(&self, ip: IpAddress) -> (r: Option<GCastDevice>)
        ensures
            match r {
                Some(d) => exists|k: int|
                    0 <= k < self.known_devices@.len() && gcast_view(d) == gcast_view(self.known_devices@[k])
                        && self.known_devices@[k].ip == ip && forall|j: int| 0 <= j < k ==> self.known_devices@[j].ip != ip,
                None => forall|j: int| 0 <= j < self.known_devices@.len() ==> self.known_devices@[j].ip != ip,
            },
    {
        let mut i: usize = 0;
        while i < self.known_devices.len()
            invariant
                0 <= i <= self.known_devices.len(),
                forall|j: int| 0 <= j < i ==> self.known_devices@[j].ip != ip,
            decreases self.known_devices.len() - i,
        {
            if self.known_devices[i].ip == ip {
                let d = &self.known_devices[i];
                let c = GCastDevice { id: d.id.clone(), ip: d.ip, name: d.name.clone() };
                return Some(c);
            }
            i += 1;
        }
        None
    }
}

} // verus!
