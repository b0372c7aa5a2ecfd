//! Device discovery: reading SSDP replies and UPnP device descriptions,
//! choosing the media renderers, and the scan state of the discovery.

use vstd::prelude::*;
use vstd::string::*;
use crate::text::{
    chars_of, contains, contains_exec, find_exec, lemma_find_from, next_line, push_str,
    spec_find, spec_lines, spec_trim, starts_with, starts_with_exec, string_from_chars,
    string_from_range, sub_vec, trim_range, trim_start_by, trim_start_index, TrimSet,
};
use crate::url_ext::{opt_opt_view, opt_view, url_host, url_host_of};

verus! {

broadcast use vstd::string::group_string_axioms;

/// The SSDP search for root devices, sent to 239.255.255.250:1900.
pub open spec fn spec_msearch_message() -> Seq<char> {
    "M-SEARCH * HTTP/1.1\r\nHOST: 239.255.255.250:1900\r\nMAN: \"ssdp:discover\"\r\nST: upnp:rootdevice\r\nMX: 2\r\n\r\n"@
}

/// The SSDP search message.
pub fn msearch_message() -> (s: String)
    ensures
        s@ == spec_msearch_message(),
{
    String::from_str("M-SEARCH * HTTP/1.1\r\nHOST: 239.255.255.250:1900\r\nMAN: \"ssdp:discover\"\r\nST: upnp:rootdevice\r\nMX: 2\r\n\r\n")
}

/// The first line of `lines` that begins with `LOCATION:`.
pub open spec fn first_location_line(lines: Seq<Seq<char>>) -> Option<Seq<char>>
    decreases lines.len(),
{
    if lines.len() == 0 {
        None
    } else if starts_with(lines[0], "LOCATION:"@) {
        Some(lines[0])
    } else {
        first_location_line(lines.drop_first())
    }
}

/// The location an SSDP reply announces: the rest of its first `LOCATION:`
/// line, trimmed.
pub open spec fn spec_ssdp_location(response: Seq<char>) -> Option<Seq<char>> {
    match first_location_line(spec_lines(response)) {
        Some(line) => Some(spec_trim(line.subrange(9, line.len() as int))),
        None => None,
    }
}

/// Reads the device location from an SSDP reply.
pub fn ssdp_location(response: &str) -> (r: Option<String>)
    ensures
        opt_view(r) == spec_ssdp_location(response@),
{
    let v = chars_of(response);
    let p = chars_of("LOCATION:");
    let mut pos: usize = 0;
    proof {
        assert(v@.subrange(0, v.len() as int) =~= v@);
        reveal_strlit("LOCATION:");
    }
    while pos < v.len()
        invariant
            pos <= v.len(),
            v@ == response@,
            p@ == "LOCATION:"@,
            p@.len() == 9,
            first_location_line(spec_lines(response@)) == first_location_line(
                spec_lines(v@.subrange(pos as int, v.len() as int)),
            ),
        decreases v.len() - pos,
    {
        let (a, b, next) = next_line(&v, pos);
        let line = sub_vec(&v, a, b);
        let ghost rest = spec_lines(v@.subrange(next as int, v.len() as int));
        proof {
            assert((seq![line@] + rest)[0] == line@);
            assert((seq![line@] + rest).drop_first() =~= rest);
        }
        if starts_with_exec(&line, &p) {
            let (x, y) = trim_range(&line, 9, line.len(), TrimSet::Whitespace);
            return Some(string_from_range(&line, x, y));
        }
        pos = next;
    }
    proof {
        assert(v@.subrange(pos as int, v.len() as int) =~= Seq::<char>::empty());
    }
    None
}

/// The host named by a device location, or `unknown`.
pub open spec fn spec_location_host(host: Option<Option<Seq<char>>>) -> Seq<char> {
    match host {
        Some(Some(h)) => h,
        _ => "unknown"@,
    }
}

/// The host of a location, from the parsed URL's host.
pub fn location_host_from(host: Option<Option<String>>) -> (r: String)
    ensures
        r@ == spec_location_host(opt_opt_view(host)),
{
    match host {
        Some(Some(h)) => h,
        _ => String::from_str("unknown"),
    }
}

/// The host of a device location URL, or `unknown`.
pub fn location_host(location: &str) -> (r: String)
    ensures
        r@ == spec_location_host(url_host_of(location@)),
{
    location_host_from(url_host(location))
}

/// The name and type a device description gives, when its description
/// could not be fetched.
pub open spec fn spec_fallback_device_info(host: Seq<char>) -> (Seq<char>, Seq<char>) {
    ("DLNA Device ("@ + host + ")"@, "unknown"@)
}

/// The device information used when the description cannot be fetched.
pub fn fallback_device_info(host: &str) -> (r: (String, String))
    ensures
        (r.0@, r.1@) == spec_fallback_device_info(host@),
{
    let mut v: Vec<char> = Vec::new();
    push_str(&mut v, "DLNA Device (");
    push_str(&mut v, host);
    push_str(&mut v, ")");
    assert(v@ =~= "DLNA Device ("@ + host@ + ")"@);
    (string_from_chars(&v), String::from_str("unknown"))
}

/// An element of a description is read from `offset` characters after the
/// start of its opening tag up to its closing tag; that slice must not run
/// backwards.
pub open spec fn element_slice_ok(xml: Seq<char>, open: Seq<char>, close: Seq<char>, offset: int) -> bool {
    match (spec_find(xml, open), spec_find(xml, close)) {
        (Some(s), Some(e)) => s + offset <= e,
        _ => true,
    }
}

/// The element text read that way, trimmed, or `default`.
pub open spec fn element_text(xml: Seq<char>, open: Seq<char>, close: Seq<char>, offset: int, default: Seq<char>) -> Seq<char> {
    match (spec_find(xml, open), spec_find(xml, close)) {
        (Some(s), Some(e)) => spec_trim(xml.subrange(s + offset, e)),
        _ => default,
    }
}

/// Reading the friendly name (13 characters after `<friendlyName>` starts,
/// so that its `>` is kept) and the device type (12 after `<deviceType>`)
/// does not slice backwards.
pub open spec fn device_info_readable(xml: Seq<char>) -> bool {
    &&& element_slice_ok(xml, "<friendlyName>"@, "</friendlyName>"@, 13)
    &&& element_slice_ok(xml, "<deviceType>"@, "</deviceType>"@, 12)
}

/// The friendly name and device type of a device description.
pub open spec fn spec_device_info(xml: Seq<char>) -> (Seq<char>, Seq<char>) {
    (
        element_text(xml, "<friendlyName>"@, "</friendlyName>"@, 13, "Unknown Device"@),
        element_text(xml, "<deviceType>"@, "</deviceType>"@, 12, "unknown"@),
    )
}

fn element_ok_exec(x: &Vec<char>, open: &str, close: &str, offset: usize) -> (r: bool)
    ensures
        r == element_slice_ok(x@, open@, close@, offset as int),
{
    let o = chars_of(open);
    let c = chars_of(close);
    match (find_exec(x, &o), find_exec(x, &c)) {
        (Some(s), Some(e)) => s <= e && offset <= e - s,
        _ => true,
    }
}

fn element_text_exec(x: &Vec<char>, open: &str, close: &str, offset: usize, default: &str) -> (r: String)
    requires
        element_slice_ok(x@, open@, close@, offset as int),
    ensures
        r@ == element_text(x@, open@, close@, offset as int, default@),
{
    let o = chars_of(open);
    let c = chars_of(close);
    match find_exec(x, &o) {
        Some(s) => match find_exec(x, &c) {
            Some(e) => {
                proof {
                    lemma_find_from(x@, o@, 0);
                    lemma_find_from(x@, c@, 0);
                }
                let (a, b) = trim_range(x, s + offset, e, TrimSet::Whitespace);
                string_from_range(x, a, b)
            },
            None => String::from_str(default),
        },
        None => String::from_str(default),
    }
}

/// Whether the device information of `xml` can be read (see
/// `device_info_readable`).
pub fn check_device_info_readable(xml: &str) -> (r: bool)
    ensures
        r == device_info_readable(xml@),
{
    let x = chars_of(xml);
    element_ok_exec(&x, "<friendlyName>", "</friendlyName>", 13) && element_ok_exec(
        &x,
        "<deviceType>",
        "</deviceType>",
        12,
    )
}

/// Reads the friendly name and device type from a device description.
pub fn device_info_from_xml(xml: &str) -> (r: (String, String))
    requires
        device_info_readable(xml@),
    ensures
        (r.0@, r.1@) == spec_device_info(xml@),
{
    let x = chars_of(xml);
    let name = element_text_exec(&x, "<friendlyName>", "</friendlyName>", 13, "Unknown Device");
    let kind = element_text_exec(&x, "<deviceType>", "</deviceType>", 12, "unknown");
    (name, kind)
}

/// Field `k` (from 0) of `s` split at `c`, as `split(c).nth(k)` gives it.
pub open spec fn split_field(s: Seq<char>, c: char, k: nat) -> Option<Seq<char>>
    decreases s.len(), k,
{
    match spec_find(s, seq![c]) {
        Some(j) => if 0 <= j < s.len() {
            if k == 0 {
                Some(s.subrange(0, j))
            } else {
                split_field(s.subrange(j + 1, s.len() as int), c, (k - 1) as nat)
            }
        } else {
            None
        },
        None => if k == 0 {
            Some(s)
        } else {
            None
        },
    }
}

/// Field `k` of `s` split at `c`.
pub fn split_field_exec(s: &Vec<char>, c: char, k: usize) -> (r: Option<String>)
    ensures
        opt_view(r) == split_field(s@, c, k as nat),
{
    let sep: Vec<char> = vec![c];
    let mut pos: usize = 0;
    let mut left: usize = k;
    proof {
        assert(s@.subrange(0, s.len() as int) =~= s@);
        assert(sep@ =~= seq![c]);
    }
    loop
        invariant
            pos <= s.len(),
            sep@ == seq![c],
            split_field(s@, c, k as nat) == split_field(
                s@.subrange(pos as int, s.len() as int),
                c,
                left as nat,
            ),
        decreases s.len() - pos,
    {
        let rest = sub_vec(s, pos, s.len());
        match find_exec(&rest, &sep) {
            Some(j) => {
                proof {
                    lemma_find_from(rest@, sep@, 0);
                }
                if left == 0 {
                    return Some(string_from_range(&rest, 0, j));
                }
                proof {
                    assert(rest@.subrange(j + 1, rest@.len() as int) =~= s@.subrange(
                        pos + j + 1,
                        s.len() as int,
                    ));
                }
                pos = pos + j + 1;
                left = left - 1;
            },
            None => {
                if left == 0 {
                    return Some(string_from_chars(&rest));
                }
                return None;
            },
        }
    }
}

/// Kinds of playback devices.
#[derive(Debug, Clone, Copy, PartialEq, Eq, Structural)]
pub enum SwDeviceKind {
    Cast,
    Dlna,
}

/// A playback device found on the network.
#[derive(Debug, Clone)]
pub struct DeviceEntry {
    pub id: String,
    pub kind: SwDeviceKind,
    pub name: String,
    pub model: String,
    pub address: String,
}

/// The view of a device: (id, kind, name, model, address).
pub open spec fn device_view(d: DeviceEntry) -> (Seq<char>, SwDeviceKind, Seq<char>, Seq<char>, Seq<char>) {
    (d.id@, d.kind, d.name@, d.model@, d.address@)
}

/// The renderer a discovered device becomes: only media renderers are kept;
/// its model is `DLNA` and the fourth `:`-field of the device type, its name
/// loses leading `>`, and its location is both id and address.
pub open spec fn spec_renderer_entry(location: Seq<char>, name: Seq<char>, device_type: Seq<char>) -> Option<(Seq<char>, SwDeviceKind, Seq<char>, Seq<char>, Seq<char>)> {
    if contains(device_type, "MediaRenderer"@) {
        let renderer_kind = match split_field(device_type, ':', 3) {
            Some(f) => f,
            None => "MediaRenderer"@,
        };
        Some(
            (
                location,
                SwDeviceKind::Dlna,
                trim_start_by(name, TrimSet::Char('>')),
                "DLNA "@ + renderer_kind,
                location,
            ),
        )
    } else {
        None
    }
}

/// The view of an optional device.
pub open spec fn opt_device_view(d: Option<DeviceEntry>) -> Option<(Seq<char>, SwDeviceKind, Seq<char>, Seq<char>, Seq<char>)> {
    match d {
        Some(e) => Some(device_view(e)),
        None => None,
    }
}

/// The device entry for a discovered DLNA device, if it is a media renderer.
pub fn renderer_entry(location: &str, name: &str, device_type: &str) -> (r: Option<DeviceEntry>)
    ensures
        opt_device_view(r) == spec_renderer_entry(location@, name@, device_type@),
{
    let t = chars_of(device_type);
    if !contains_exec(&t, &chars_of("MediaRenderer")) {
        return None;
    }
    let renderer_kind = match split_field_exec(&t, ':', 3) {
        Some(f) => f,
        None => String::from_str("MediaRenderer"),
    };
    let n = chars_of(name);
    let a = trim_start_index(&n, 0, n.len(), TrimSet::Char('>'));
    proof {
        assert(n@.subrange(0, n.len() as int) =~= n@);
    }
    let mut model = chars_of("DLNA ");
    push_str(&mut model, renderer_kind.as_str());
    Some(
        DeviceEntry {
            id: String::from_str(location),
            kind: SwDeviceKind::Dlna,
            name: string_from_range(&n, a, n.len()),
            model: string_from_chars(&model),
            address: String::from_str(location),
        },
    )
}

/// The view of discovered devices as (location, name, device type).
pub open spec fn infos_view(infos: Seq<(String, String, String)>) -> Seq<(Seq<char>, Seq<char>, Seq<char>)> {
    infos.map_values(|t: (String, String, String)| (t.0@, t.1@, t.2@))
}

/// The view of a list of devices.
pub open spec fn devices_view(devices: Seq<DeviceEntry>) -> Seq<(Seq<char>, SwDeviceKind, Seq<char>, Seq<char>, Seq<char>)> {
    devices.map_values(|d: DeviceEntry| device_view(d))
}

/// The renderers among the discovered devices, in the order found.
pub open spec fn spec_renderer_entries(infos: Seq<(Seq<char>, Seq<char>, Seq<char>)>) -> Seq<(Seq<char>, SwDeviceKind, Seq<char>, Seq<char>, Seq<char>)>
    decreases infos.len(),
{
    if infos.len() == 0 {
        Seq::empty()
    } else {
        let t = infos.last();
        spec_renderer_entries(infos.drop_last()) + match spec_renderer_entry(t.0, t.1, t.2) {
            Some(e) => seq![e],
            None => Seq::empty(),
        }
    }
}

/// The device entries of the discovered media renderers; other devices are
/// skipped.
pub fn renderer_entries(infos: &Vec<(String, String, String)>) -> (r: Vec<DeviceEntry>)
    ensures
        devices_view(r@) == spec_renderer_entries(infos_view(infos@)),
{
    let mut r: Vec<DeviceEntry> = Vec::new();
    let mut i: usize = 0;
    while i < infos.len()
        invariant
            i <= infos.len(),
            devices_view(r@) == spec_renderer_entries(infos_view(infos@.subrange(0, i as int))),
        decreases infos.len() - i,
    {
        let ghost before = r@;
        let e = renderer_entry(infos[i].0.as_str(), infos[i].1.as_str(), infos[i].2.as_str());
        proof {
            let pre = infos_view(infos@.subrange(0, i as int));
            let post = infos_view(infos@.subrange(0, i + 1));
            assert(post.drop_last() =~= pre);
            assert(post.last() == (infos@[i as int].0@, infos@[i as int].1@, infos@[i as int].2@));
        }
        match e {
            Some(d) => {
                r.push(d);
                proof {
                    assert(devices_view(r@) =~= devices_view(before) + seq![device_view(d)]);
                }
            },
            None => {},
        }
        i = i + 1;
    }
    proof {
        assert(infos@.subrange(0, infos.len() as int) =~= infos@);
    }
    r
}

/// The device entry of a Google Cast service: its `id` property (else its
/// host), its `fn` property (else `Google Cast Device`), its `md` property
/// (else `Unknown Model`), and its host as address.
pub open spec fn spec_cast_entry(
    host: Seq<char>,
    id: Option<Seq<char>>,
    friendly_name: Option<Seq<char>>,
    model: Option<Seq<char>>,
) -> (Seq<char>, SwDeviceKind, Seq<char>, Seq<char>, Seq<char>) {
    (
        match id {
            Some(i) => i,
            None => host,
        },
        SwDeviceKind::Cast,
        match friendly_name {
            Some(f) => f,
            None => "Google Cast Device"@,
        },
        match model {
            Some(m) => m,
            None => "Unknown Model"@,
        },
        host,
    )
}

/// The device entry of a resolved Google Cast service.
pub fn cast_entry(host: &str, id: Option<String>, friendly_name: Option<String>, model: Option<String>) -> (r: DeviceEntry)
    ensures
        device_view(r) == spec_cast_entry(host@, opt_view(id), opt_view(friendly_name), opt_view(model)),
{
    DeviceEntry {
        id: match id {
            Some(i) => i,
            None => String::from_str(host),
        },
        kind: SwDeviceKind::Cast,
        name: match friendly_name {
            Some(f) => f,
            None => String::from_str("Google Cast Device"),
        },
        model: match model {
            Some(m) => m,
            None => String::from_str("Unknown Model"),
        },
        address: String::from_str(host),
    }
}

/// The state of device discovery: whether a scan runs and the devices found.
pub struct SwDeviceDiscovery {
    pub is_scanning: bool,
    pub devices: Vec<DeviceEntry>,
}

impl SwDeviceDiscovery {
    /// No scan and no devices.
    pub fn new() -> (d: SwDeviceDiscovery)
        ensures
            !d.is_scanning,
            d.devices@.len() == 0,
    {
        SwDeviceDiscovery { is_scanning: false, devices: Vec::new() }
    }

    /// Begins a scan unless one runs: returns whether it began; a new scan
    /// starts with no devices.
    pub fn begin_scan(&mut self) -> (began: bool)
        ensures
            began == !old(self).is_scanning,
            final(self).is_scanning,
            began ==> final(self).devices@.len() == 0,
            !began ==> final(self).devices@ == old(self).devices@,
    {
        if self.is_scanning {
            return false;
        }
        self.is_scanning = true;
        self.devices = Vec::new();
        true
    }

    /// Ends a scan, keeping the devices found.
    pub fn end_scan(&mut self)
        ensures
            !final(self).is_scanning,
            final(self).devices@ == old(self).devices@,
    {
        self.is_scanning = false;
    }

    /// Stops a running scan and forgets its devices; does nothing otherwise.
    pub fn stop(&mut self)
        ensures
            !final(self).is_scanning,
            old(self).is_scanning ==> final(self).devices@.len() == 0,
            !old(self).is_scanning ==> final(self).devices@ == old(self).devices@,
    {
        if self.is_scanning {
            self.is_scanning = false;
            self.devices = Vec::new();
        }
    }

    /// Adds a found device.
    pub fn add_device(&mut self, device: DeviceEntry)
        ensures
            final(self).devices@ == old(self).devices@.push(device),
            final(self).is_scanning == old(self).is_scanning,
    {
        self.devices.push(device);
    }
}

} // verus!
