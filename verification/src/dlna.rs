//! DLNA/UPnP control: the SOAP requests sent to a media renderer, the parsing
//! of its device description and replies, and the decisions of the sender
//! that drives a renderer through an FFmpeg proxy.

use vstd::prelude::*;
use vstd::string::*;
use crate::text::{
    chars_of, find_exec, lemma_find_from, push_str, spec_find, spec_trim, string_from_chars,
    string_from_range, trim_range, TrimSet, rfind_exec, spec_rfind, lemma_rfind_from, sub_vec,
    push_decimal, spec_decimal, starts_with, starts_with_exec, contains, contains_exec, spec_lines,
    next_line, trim_by, str_eq, views_of, parse_u32, spec_parse_u32, matches_at, lemma_find_from_is,
};
use crate::url_ext::{opt_view, opt_opt_view, url_host, url_host_of, url_join, url_join_of};

verus! {

broadcast use vstd::string::group_string_axioms;

/// Errors of the DLNA sender's own logic.
#[derive(Debug, Clone, Copy, PartialEq, Eq, Structural)]
pub enum DlnaError {
    /// A URL could not be parsed.
    InvalidUrl,
    /// The device URL has no host part.
    InvalidDeviceUrl,
    /// No AVTransport control URL is known for the connected device.
    DiscoveryIncomplete,
    /// The FFmpeg proxy process could not be started.
    ProxyNotStarted,
}

/// The message shown for an error.
pub open spec fn spec_dlna_error_message(e: DlnaError) -> Seq<char> {
    match e {
        DlnaError::InvalidUrl => "Invalid URL"@,
        DlnaError::InvalidDeviceUrl => "Invalid device URL"@,
        DlnaError::DiscoveryIncomplete => "DLNA device discovery incomplete - no AVTransport service found"@,
        DlnaError::ProxyNotStarted => "Failed to receive FFmpeg process handle"@,
    }
}

impl DlnaError {
    /// The message shown for this error.
    pub fn message(&self) -> (m: String)
        ensures
            m@ == spec_dlna_error_message(*self),
    {
        match self {
            DlnaError::InvalidUrl => String::from_str("Invalid URL"),
            DlnaError::InvalidDeviceUrl => String::from_str("Invalid device URL"),
            DlnaError::DiscoveryIncomplete => String::from_str(
                "DLNA device discovery incomplete - no AVTransport service found",
            ),
            DlnaError::ProxyNotStarted => String::from_str("Failed to receive FFmpeg process handle"),
        }
    }
}

/// The service type of the AVTransport service.
pub open spec fn av_transport_service() -> Seq<char> {
    "urn:schemas-upnp-org:service:AVTransport:1"@
}

/// The service type of the RenderingControl service.
pub open spec fn rendering_control_service() -> Seq<char> {
    "urn:schemas-upnp-org:service:RenderingControl:1"@
}

/// The service type of the AVTransport service.
pub fn av_transport_service_type() -> (s: String)
    ensures
        s@ == av_transport_service(),
{
    String::from_str("urn:schemas-upnp-org:service:AVTransport:1")
}

/// The service type of the RenderingControl service.
pub fn rendering_control_service_type() -> (s: String)
    ensures
        s@ == rendering_control_service(),
{
    String::from_str("urn:schemas-upnp-org:service:RenderingControl:1")
}

/// The SOAP envelope that carries `action` of `service_type` with the
/// argument elements `body`.
pub open spec fn spec_soap_envelope(service_type: Seq<char>, action: Seq<char>, body: Seq<char>) -> Seq<char> {
    "<?xml version=\"1.0\" encoding=\"utf-8\"?>\n<s:Envelope xmlns:s=\"http://schemas.xmlsoap.org/soap/envelope/\" s:encodingStyle=\"http://schemas.xmlsoap.org/soap/encoding/\">\n<s:Body>\n<u:"@
        + action + " xmlns:u=\""@ + service_type + "\">\n"@ + body + "\n</u:"@ + action
        + ">\n</s:Body>\n</s:Envelope>"@
}

/// Builds the SOAP envelope for `action` of `service_type` around `body`.
pub fn soap_envelope(service_type: &str, action: &str, body: &str) -> (s: String)
    ensures
        s@ == spec_soap_envelope(service_type@, action@, body@),
{
    let mut v: Vec<char> = Vec::new();
    push_str(&mut v, "<?xml version=\"1.0\" encoding=\"utf-8\"?>\n<s:Envelope xmlns:s=\"http://schemas.xmlsoap.org/soap/envelope/\" s:encodingStyle=\"http://schemas.xmlsoap.org/soap/encoding/\">\n<s:Body>\n<u:");
    push_str(&mut v, action);
    push_str(&mut v, " xmlns:u=\"");
    push_str(&mut v, service_type);
    push_str(&mut v, "\">\n");
    push_str(&mut v, body);
    push_str(&mut v, "\n</u:");
    push_str(&mut v, action);
    push_str(&mut v, ">\n</s:Body>\n</s:Envelope>");
    proof {
        assert(v@ =~= spec_soap_envelope(service_type@, action@, body@));
    }
    string_from_chars(&v)
}

/// The value of the `SOAPAction` header for `action` of `service_type`.
pub open spec fn spec_soap_action_header(service_type: Seq<char>, action: Seq<char>) -> Seq<char> {
    "\""@ + service_type + "#"@ + action + "\""@
}

/// Builds the `SOAPAction` header value.
pub fn soap_action_header(service_type: &str, action: &str) -> (s: String)
    ensures
        s@ == spec_soap_action_header(service_type@, action@),
{
    let mut v: Vec<char> = Vec::new();
    push_str(&mut v, "\"");
    push_str(&mut v, service_type);
    push_str(&mut v, "#");
    push_str(&mut v, action);
    push_str(&mut v, "\"");
    proof {
        assert(v@ =~= spec_soap_action_header(service_type@, action@));
    }
    string_from_chars(&v)
}

/// `<tag>`
pub open spec fn open_tag(tag: Seq<char>) -> Seq<char> {
    "<"@ + tag + ">"@
}

/// `</tag>`
pub open spec fn close_tag(tag: Seq<char>) -> Seq<char> {
    "</"@ + tag + ">"@
}

/// Extracting the element `tag` from `response` slices the text between the
/// first opening tag and the first closing tag; that slice must not run
/// backwards.
pub open spec fn soap_value_extractable(response: Seq<char>, tag: Seq<char>) -> bool {
    match (spec_find(response, open_tag(tag)), spec_find(response, close_tag(tag))) {
        (Some(s), Some(e)) => s + open_tag(tag).len() <= e,
        _ => true,
    }
}

/// The trimmed text between the first `<tag>` and the first `</tag>` of
/// `response`, if both occur.
pub open spec fn spec_extract_soap_value(response: Seq<char>, tag: Seq<char>) -> Option<Seq<char>> {
    match (spec_find(response, open_tag(tag)), spec_find(response, close_tag(tag))) {
        (Some(s), Some(e)) => Some(spec_trim(response.subrange(s + open_tag(tag).len(), e))),
        _ => None,
    }
}

/// A tag name without `<`, `>` or `/`.
pub open spec fn plain_tag(tag: Seq<char>) -> bool {
    forall|i: int| 0 <= i < tag.len() ==> #[trigger] tag[i] != '<' && tag[i] != '>' && tag[i] != '/'
}

/// A text without `<`.
pub open spec fn plain_text(value: Seq<char>) -> bool {
    forall|i: int| 0 <= i < value.len() ==> #[trigger] value[i] != '<'
}

/// An element `<tag>value</tag>` reads back as its trimmed value: the
/// element can be extracted, and extracting `tag` gives what was written.
pub proof fn law_soap_value_reads_back(tag: Seq<char>, value: Seq<char>)
    requires
        plain_tag(tag),
        plain_text(value),
    ensures
        soap_value_extractable(open_tag(tag) + value + close_tag(tag), tag),
        spec_extract_soap_value(open_tag(tag) + value + close_tag(tag), tag) == Some(spec_trim(value)),
{
    reveal_strlit("<");
    reveal_strlit(">");
    reveal_strlit("</");
    let o = open_tag(tag);
    let c = close_tag(tag);
    let r = o + value + c;
    let e: int = (o.len() + value.len()) as int;
    assert(o.len() == tag.len() + 2);
    assert(c.len() == tag.len() + 3);
    assert(r.subrange(0, o.len() as int) =~= o);
    lemma_find_from_is(r, o, 0, 0);
    assert(r.subrange(e, e + c.len()) =~= c);
    assert forall|k: int| 0 <= k < e implies !#[trigger] matches_at(r, c, k) by {
        if matches_at(r, c, k) {
            assert(r.subrange(k, k + c.len())[0] == c[0]);
            assert(r.subrange(k, k + c.len())[1] == c[1]);
            assert(c[0] == '<' && c[1] == '/');
            if k == 0 {
                if tag.len() > 0 {
                    assert(r[1] == tag[0]);
                } else {
                    assert(r[1] == '>');
                }
            } else if k < o.len() - 1 {
                assert(r[k] == tag[k - 1]);
            } else if k == o.len() - 1 {
                assert(r[k] == '>');
            } else {
                assert(r[k] == value[k - o.len()]);
            }
        }
    }
    lemma_find_from_is(r, c, 0, e);
    assert(r.subrange(o.len() as int, e) =~= value);
}

fn tag_chars(tag: &str, closing: bool) -> (v: Vec<char>)
    ensures
        v@ == if closing { close_tag(tag@) } else { open_tag(tag@) },
{
    let mut v: Vec<char> = Vec::new();
    if closing {
        push_str(&mut v, "</");
    } else {
        push_str(&mut v, "<");
    }
    push_str(&mut v, tag);
    push_str(&mut v, ">");
    proof {
        if closing {
            assert(v@ =~= close_tag(tag@));
        } else {
            assert(v@ =~= open_tag(tag@));
        }
    }
    v
}

/// Whether the element `tag` can be extracted from `response` (see
/// `soap_value_extractable`).
pub fn check_soap_value_extractable(response: &str, tag: &str) -> (r: bool)
    ensures
        r == soap_value_extractable(response@, tag@),
{
    let h = chars_of(response);
    let st = tag_chars(tag, false);
    let et = tag_chars(tag, true);
    match (find_exec(&h, &st), find_exec(&h, &et)) {
        (Some(s), Some(e)) => s <= e && st.len() <= e - s,
        _ => true,
    }
}

/// The trimmed text of the first `tag` element of a SOAP response.
pub fn extract_soap_value(response: &str, tag: &str) -> (r: Option<String>)
    requires
        soap_value_extractable(response@, tag@),
    ensures
        opt_view(r) == spec_extract_soap_value(response@, tag@),
{
    let h = chars_of(response);
    let st = tag_chars(tag, false);
    let et = tag_chars(tag, true);
    match find_exec(&h, &st) {
        Some(s) => match find_exec(&h, &et) {
            Some(e) => {
                proof {
                    lemma_find_from(h@, st@, 0);
                    lemma_find_from(h@, et@, 0);
                }
                let (a, b) = trim_range(&h, s + st.len(), e, TrimSet::Whitespace);
                Some(string_from_range(&h, a, b))
            },
            None => None,
        },
        None => None,
    }
}


/// The bounds of the `<service>` block around the service type found at `s`:
/// from the last `<service>` before it (or the start) to just before the `>`
/// of the first `</service>` after it (or the end).
pub open spec fn service_block_bounds(xml: Seq<char>, s: int) -> (int, int) {
    let bs = match spec_rfind(xml.subrange(0, s), "<service>"@) {
        Some(b) => b,
        None => 0,
    };
    let be = match spec_find(xml.subrange(s, xml.len() as int), "</service>"@) {
        Some(p) => s + p + 9,
        None => xml.len() as int,
    };
    (bs, be)
}

/// The service block of the first occurrence of `service_type` in `xml`.
pub open spec fn service_block(xml: Seq<char>, service_type: Seq<char>) -> Option<Seq<char>> {
    match spec_find(xml, service_type) {
        Some(s) => {
            let (bs, be) = service_block_bounds(xml, s);
            Some(xml.subrange(bs, be))
        },
        None => None,
    }
}

/// The control URL of a block is read from 13 characters after the start of
/// `<controlURL>` up to `</controlURL>`; that slice must not run backwards,
/// and the character it skips must be a single byte.
pub open spec fn control_url_slice_ok(block: Seq<char>) -> bool {
    match (spec_find(block, "<controlURL>"@), spec_find(block, "</controlURL>"@)) {
        (Some(us), Some(ue)) => us + 13 <= ue && (block[us + 12] as u32) < 128,
        _ => true,
    }
}

/// The control URL text of a service block, trimmed.
pub open spec fn control_path_in_block(block: Seq<char>) -> Option<Seq<char>> {
    match (spec_find(block, "<controlURL>"@), spec_find(block, "</controlURL>"@)) {
        (Some(us), Some(ue)) => Some(spec_trim(block.subrange(us + 13, ue))),
        _ => None,
    }
}

/// The (relative) control URL that a device description gives for
/// `service_type`.
pub open spec fn spec_service_control_path(xml: Seq<char>, service_type: Seq<char>) -> Option<Seq<char>> {
    match service_block(xml, service_type) {
        Some(b) => control_path_in_block(b),
        None => None,
    }
}

/// Reading the control URLs of both services from `xml` does not slice
/// backwards or through a multi-byte character.
pub open spec fn description_parsable(xml: Seq<char>) -> bool {
    &&& (service_block(xml, av_transport_service()) matches Some(b) ==> control_url_slice_ok(b))
    &&& (service_block(xml, rendering_control_service()) matches Some(b) ==> control_url_slice_ok(b))
}

fn block_of(xml: &Vec<char>, st: &Vec<char>) -> (r: Option<Vec<char>>)
    ensures
        match r {
            Some(b) => service_block(xml@, st@) == Some(b@),
            None => service_block(xml@, st@) is None,
        },
{
    match find_exec(xml, st) {
        None => None,
        Some(s) => {
            proof {
                lemma_find_from(xml@, st@, 0);
            }
            let so = chars_of("<service>");
            let sc = chars_of("</service>");
            let prefix = sub_vec(xml, 0, s);
            let bs = match rfind_exec(&prefix, &so) {
                Some(b) => {
                    proof {
                        lemma_rfind_from(prefix@, so@, prefix@.len() - so@.len());
                    }
                    b
                },
                None => 0,
            };
            let suffix = sub_vec(xml, s, xml.len());
            let be = match find_exec(&suffix, &sc) {
                Some(p) => {
                    proof {
                        lemma_find_from(suffix@, sc@, 0);
                        reveal_strlit("</service>");
                    }
                    s + p + 9
                },
                None => xml.len(),
            };
            proof {
                reveal_strlit("<service>");
            }
            Some(sub_vec(xml, bs, be))
        },
    }
}

fn block_slice_ok(block: &Vec<char>) -> (r: bool)
    ensures
        r == control_url_slice_ok(block@),
{
    let co = chars_of("<controlURL>");
    let cc = chars_of("</controlURL>");
    match (find_exec(block, &co), find_exec(block, &cc)) {
        (Some(us), Some(ue)) => {
            proof {
                lemma_find_from(block@, co@, 0);
                lemma_find_from(block@, cc@, 0);
            }
            us <= ue && 13 <= ue - us && (block[us + 12] as u32) < 128
        },
        _ => true,
    }
}

/// Whether both control URLs of `xml` can be read (see `description_parsable`).
pub fn check_description_parsable(xml: &str) -> (r: bool)
    ensures
        r == description_parsable(xml@),
{
    let x = chars_of(xml);
    let av = chars_of("urn:schemas-upnp-org:service:AVTransport:1");
    let rc = chars_of("urn:schemas-upnp-org:service:RenderingControl:1");
    let ok_av = match block_of(&x, &av) {
        Some(b) => block_slice_ok(&b),
        None => true,
    };
    let ok_rc = match block_of(&x, &rc) {
        Some(b) => block_slice_ok(&b),
        None => true,
    };
    ok_av && ok_rc
}

fn control_path_of(x: &Vec<char>, st: &Vec<char>) -> (r: Option<String>)
    requires
        service_block(x@, st@) matches Some(b) ==> control_url_slice_ok(b),
    ensures
        opt_view(r) == spec_service_control_path(x@, st@),
{
    match block_of(x, st) {
        None => None,
        Some(block) => {
            let co = chars_of("<controlURL>");
            let cc = chars_of("</controlURL>");
            match find_exec(&block, &co) {
                Some(us) => match find_exec(&block, &cc) {
                    Some(ue) => {
                        proof {
                            lemma_find_from(block@, co@, 0);
                            lemma_find_from(block@, cc@, 0);
                        }
                        let (a, b) = trim_range(&block, us + 13, ue, TrimSet::Whitespace);
                        Some(string_from_range(&block, a, b))
                    },
                    None => None,
                },
                None => None,
            }
        },
    }
}

/// The control URL, as written in the device description `xml`, of the
/// service `service_type`.
pub fn service_control_path(xml: &str, service_type: &str) -> (r: Option<String>)
    requires
        service_block(xml@, service_type@) matches Some(b) ==> control_url_slice_ok(b),
    ensures
        opt_view(r) == spec_service_control_path(xml@, service_type@),
{
    let x = chars_of(xml);
    let st = chars_of(service_type);
    control_path_of(&x, &st)
}

/// For a control URL that was found, the result of joining it to the device
/// URL: the joined URL, or the URL parser's error text.
pub open spec fn join_found(device_url: Seq<char>, path: Option<Seq<char>>) -> Option<Result<Seq<char>, Seq<char>>> {
    match path {
        Some(p) => Some(url_join_of(device_url, p)),
        None => None,
    }
}

/// Why a device description yields no service URLs.
#[derive(Debug, Clone, PartialEq, Eq)]
pub enum ServicesError {
    /// Parsing the device URL or joining a control URL to it failed; the
    /// URL parser's error text.
    InvalidUrl(String),
    /// The description names no AVTransport service.
    ServicesNotFound,
}

/// The view of a services error: the URL error's text, or `None` when no
/// service was found.
pub open spec fn services_error_view(e: ServicesError) -> Option<Seq<char>> {
    match e {
        ServicesError::InvalidUrl(m) => Some(m@),
        ServicesError::ServicesNotFound => None,
    }
}

/// The message of a services error.
pub open spec fn spec_services_error_message(e: Option<Seq<char>>) -> Seq<char> {
    match e {
        Some(m) => m,
        None => "Required services not found"@,
    }
}

impl ServicesError {
    /// The message shown for this error: the URL parser's own text, or that
    /// the required services were not found.
    pub fn message(&self) -> (m: String)
        ensures
            m@ == spec_services_error_message(services_error_view(*self)),
    {
        match self {
            ServicesError::InvalidUrl(m) => m.clone(),
            ServicesError::ServicesNotFound => String::from_str("Required services not found"),
        }
    }
}

/// The service URLs a device description yields, from the results of
/// joining the control URLs of AVTransport and RenderingControl (`None`: no
/// control URL found). AVTransport is resolved first, so its URL error comes
/// first; without RenderingControl its URL is empty; without AVTransport no
/// service is found. The error is the view of a `ServicesError`.
pub open spec fn spec_device_services(
    av: Option<Result<Seq<char>, Seq<char>>>,
    rc: Option<Result<Seq<char>, Seq<char>>>,
) -> Result<(Seq<char>, Seq<char>), Option<Seq<char>>> {
    match av {
        Some(Err(m)) => Err(Some(m)),
        _ => match rc {
            Some(Err(m)) => Err(Some(m)),
            _ => match (av, rc) {
                (Some(Ok(a)), Some(Ok(r))) => Ok((a, r)),
                (Some(Ok(a)), None) => Ok((a, Seq::empty())),
                _ => Err(None),
            },
        },
    }
}

/// The view of a pair of service URLs.
pub open spec fn services_view(r: Result<(String, String), ServicesError>) -> Result<(Seq<char>, Seq<char>), Option<Seq<char>>> {
    match r {
        Ok((a, b)) => Ok((a@, b@)),
        Err(e) => Err(services_error_view(e)),
    }
}

/// The view of an optional join result.
pub open spec fn join_result_view(r: Option<Result<String, String>>) -> Option<Result<Seq<char>, Seq<char>>> {
    match r {
        Some(Ok(u)) => Some(Ok(u@)),
        Some(Err(e)) => Some(Err(e@)),
        None => None,
    }
}

/// The AVTransport and RenderingControl service URLs of a device, from the
/// results of joining their control URLs to the device URL.
pub fn device_services_from(av: Option<Result<String, String>>, rc: Option<Result<String, String>>) -> (r: Result<(String, String), ServicesError>)
    ensures
        services_view(r) == spec_device_services(join_result_view(av), join_result_view(rc)),
{
    match av {
        Some(Err(m)) => Err(ServicesError::InvalidUrl(m)),
        Some(Ok(a)) => match rc {
            Some(Err(m)) => Err(ServicesError::InvalidUrl(m)),
            Some(Ok(r)) => Ok((a, r)),
            None => Ok((a, String::new())),
        },
        None => match rc {
            Some(Err(m)) => Err(ServicesError::InvalidUrl(m)),
            _ => Err(ServicesError::ServicesNotFound),
        },
    }
}

/// The service URLs that the device description `xml` of the device at
/// `device_url` gives.
pub open spec fn spec_parse_device_services(xml: Seq<char>, device_url: Seq<char>) -> Result<(Seq<char>, Seq<char>), Option<Seq<char>>> {
    spec_device_services(
        join_found(device_url, spec_service_control_path(xml, av_transport_service())),
        join_found(device_url, spec_service_control_path(xml, rendering_control_service())),
    )
}

fn join_path(device_url: &str, path: Option<String>) -> (r: Option<Result<String, String>>)
    ensures
        join_result_view(r) == join_found(device_url@, opt_view(path)),
{
    match path {
        Some(p) => Some(url_join(device_url, p.as_str())),
        None => None,
    }
}

/// Reads the AVTransport and RenderingControl control URLs from a device
/// description and resolves them against the device URL.
pub fn parse_device_services(xml: &str, device_url: &str) -> (r: Result<(String, String), ServicesError>)
    requires
        description_parsable(xml@),
    ensures
        services_view(r) == spec_parse_device_services(xml@, device_url@),
{
    let x = chars_of(xml);
    let av = chars_of("urn:schemas-upnp-org:service:AVTransport:1");
    let rc = chars_of("urn:schemas-upnp-org:service:RenderingControl:1");
    let av_path = control_path_of(&x, &av);
    let rc_path = control_path_of(&x, &rc);
    let av_url = join_path(device_url, av_path);
    let rc_url = join_path(device_url, rc_path);
    device_services_from(av_url, rc_url)
}


/// `c` with the XML special characters `&`, `<` and `>` replaced by entities.
pub open spec fn escape_char(c: char) -> Seq<char> {
    if c == '&' {
        "&amp;"@
    } else if c == '<' {
        "&lt;"@
    } else if c == '>' {
        "&gt;"@
    } else {
        seq![c]
    }
}

/// `s` with `&`, `<` and `>` replaced by `&amp;`, `&lt;` and `&gt;`.
pub open spec fn spec_xml_escape(s: Seq<char>) -> Seq<char>
    decreases s.len(),
{
    if s.len() == 0 {
        Seq::empty()
    } else {
        spec_xml_escape(s.drop_last()) + escape_char(s.last())
    }
}

/// Escapes `&`, `<` and `>` in a title for use inside XML.
pub fn xml_escape(s: &str) -> (r: String)
    ensures
        r@ == spec_xml_escape(s@),
{
    let t = chars_of(s);
    let mut v: Vec<char> = Vec::new();
    let mut i: usize = 0;
    while i < t.len()
        invariant
            0 <= i <= t.len(),
            v@ == spec_xml_escape(t@.take(i as int)),
        decreases t.len() - i,
    {
        let c = t[i];
        if c == '&' {
            push_str(&mut v, "&amp;");
        } else if c == '<' {
            push_str(&mut v, "&lt;");
        } else if c == '>' {
            push_str(&mut v, "&gt;");
        } else {
            v.push(c);
            assert(seq![c] == escape_char(c));
        }
        proof {
            assert(t@.take(i + 1).drop_last() =~= t@.take(i as int));
            assert(t@.take(i + 1).last() == c);
        }
        i += 1;
    }
    assert(t@.take(t@.len() as int) =~= t@);
    string_from_chars(&v)
}

/// DIDL-Lite metadata for a live item whose markup is itself entity-encoded
/// (as sent along with the proxy URL).
pub open spec fn spec_didl_encoded(escaped_title: Seq<char>, url: Seq<char>) -> Seq<char> {
    "&lt;DIDL-Lite xmlns:dc=\"http://purl.org/dc/elements/1.1/\" xmlns:upnp=\"urn:schemas-upnp-org:metadata-1-0/upnp/\" xmlns=\"urn:schemas-upnp-org:metadata-1-0/DIDL-Lite/\"&gt;&lt;item id=\"0\" parentID=\"-1\" restricted=\"0\"&gt;&lt;dc:title&gt;"@
        + escaped_title
        + " *LIVE&lt;/dc:title&gt;&lt;upnp:class&gt;object.item.audioItem.musicTrack&lt;/upnp:class&gt;&lt;res protocolInfo=\"http-get:*:audio/mpeg:*\"&gt;"@
        + url + "&lt;/res&gt;&lt;/item&gt;&lt;/DIDL-Lite&gt;"@
}

/// Builds the entity-encoded DIDL-Lite metadata.
pub fn didl_encoded(escaped_title: &str, url: &str) -> (r: String)
    ensures
        r@ == spec_didl_encoded(escaped_title@, url@),
{
    let mut v: Vec<char> = Vec::new();
    push_str(&mut v, "&lt;DIDL-Lite xmlns:dc=\"http://purl.org/dc/elements/1.1/\" xmlns:upnp=\"urn:schemas-upnp-org:metadata-1-0/upnp/\" xmlns=\"urn:schemas-upnp-org:metadata-1-0/DIDL-Lite/\"&gt;&lt;item id=\"0\" parentID=\"-1\" restricted=\"0\"&gt;&lt;dc:title&gt;");
    push_str(&mut v, escaped_title);
    push_str(&mut v, " *LIVE&lt;/dc:title&gt;&lt;upnp:class&gt;object.item.audioItem.musicTrack&lt;/upnp:class&gt;&lt;res protocolInfo=\"http-get:*:audio/mpeg:*\"&gt;");
    push_str(&mut v, url);
    push_str(&mut v, "&lt;/res&gt;&lt;/item&gt;&lt;/DIDL-Lite&gt;");
    assert(v@ =~= spec_didl_encoded(escaped_title@, url@));
    string_from_chars(&v)
}

/// DIDL-Lite metadata, one element per line, for the item `title` at `url`.
pub open spec fn spec_didl(title: Seq<char>, url: Seq<char>) -> Seq<char> {
    "<DIDL-Lite xmlns:dc=\"http://purl.org/dc/elements/1.1/\" xmlns:upnp=\"urn:schemas-upnp-org:metadata-1-0/upnp/\" xmlns=\"urn:schemas-upnp-org:metadata-1-0/DIDL-Lite/\">\n<item id=\"0\" parentID=\"-1\" restricted=\"0\">\n<dc:title>"@
        + title + "</dc:title>\n<upnp:class>object.item.audioItem.musicTrack</upnp:class>\n<res protocolInfo=\"http-get:*:audio/mpeg:*\">"@
        + url + "</res>\n</item>\n</DIDL-Lite>"@
}

/// Builds the DIDL-Lite metadata for `title` at `url`.
pub fn didl(title: &str, url: &str) -> (r: String)
    ensures
        r@ == spec_didl(title@, url@),
{
    let mut v: Vec<char> = Vec::new();
    push_str(&mut v, "<DIDL-Lite xmlns:dc=\"http://purl.org/dc/elements/1.1/\" xmlns:upnp=\"urn:schemas-upnp-org:metadata-1-0/upnp/\" xmlns=\"urn:schemas-upnp-org:metadata-1-0/DIDL-Lite/\">\n<item id=\"0\" parentID=\"-1\" restricted=\"0\">\n<dc:title>");
    push_str(&mut v, title);
    push_str(&mut v, "</dc:title>\n<upnp:class>object.item.audioItem.musicTrack</upnp:class>\n<res protocolInfo=\"http-get:*:audio/mpeg:*\">");
    push_str(&mut v, url);
    push_str(&mut v, "</res>\n</item>\n</DIDL-Lite>");
    assert(v@ =~= spec_didl(title@, url@));
    string_from_chars(&v)
}

/// Arguments of `SetAVTransportURI`.
pub open spec fn spec_set_uri_body(uri: Seq<char>, metadata: Seq<char>) -> Seq<char> {
    "<InstanceID>0</InstanceID><CurrentURI>"@ + uri + "</CurrentURI><CurrentURIMetaData>"@
        + metadata + "</CurrentURIMetaData>"@
}

/// Builds the arguments of `SetAVTransportURI`.
pub fn set_uri_body(uri: &str, metadata: &str) -> (r: String)
    ensures
        r@ == spec_set_uri_body(uri@, metadata@),
{
    let mut v: Vec<char> = Vec::new();
    push_str(&mut v, "<InstanceID>0</InstanceID><CurrentURI>");
    push_str(&mut v, uri);
    push_str(&mut v, "</CurrentURI><CurrentURIMetaData>");
    push_str(&mut v, metadata);
    push_str(&mut v, "</CurrentURIMetaData>");
    assert(v@ =~= spec_set_uri_body(uri@, metadata@));
    string_from_chars(&v)
}

/// Arguments of `SetNextAVTransportURI`.
pub open spec fn spec_set_next_uri_body(uri: Seq<char>, metadata: Seq<char>) -> Seq<char> {
    "<InstanceID>0</InstanceID><NextURI>"@ + uri + "</NextURI><NextURIMetaData>"@ + metadata
        + "</NextURIMetaData>"@
}

/// Builds the arguments of `SetNextAVTransportURI`.
pub fn set_next_uri_body(uri: &str, metadata: &str) -> (r: String)
    ensures
        r@ == spec_set_next_uri_body(uri@, metadata@),
{
    let mut v: Vec<char> = Vec::new();
    push_str(&mut v, "<InstanceID>0</InstanceID><NextURI>");
    push_str(&mut v, uri);
    push_str(&mut v, "</NextURI><NextURIMetaData>");
    push_str(&mut v, metadata);
    push_str(&mut v, "</NextURIMetaData>");
    assert(v@ =~= spec_set_next_uri_body(uri@, metadata@));
    string_from_chars(&v)
}

/// Arguments of `Play`.
pub open spec fn spec_play_body() -> Seq<char> {
    "<InstanceID>0</InstanceID><Speed>1</Speed>"@
}

/// The arguments of `Play`.
pub fn play_body() -> (r: String)
    ensures
        r@ == spec_play_body(),
{
    String::from_str("<InstanceID>0</InstanceID><Speed>1</Speed>")
}

/// Arguments of `Stop`.
pub open spec fn spec_stop_body() -> Seq<char> {
    "<InstanceID>0</InstanceID>"@
}

/// The arguments of `Stop`.
pub fn stop_body() -> (r: String)
    ensures
        r@ == spec_stop_body(),
{
    String::from_str("<InstanceID>0</InstanceID>")
}

/// Arguments of `GetVolume`.
pub open spec fn spec_get_volume_body() -> Seq<char> {
    "<InstanceID>0</InstanceID><Channel>Master</Channel>"@
}

/// The arguments of `GetVolume`.
pub fn get_volume_body() -> (r: String)
    ensures
        r@ == spec_get_volume_body(),
{
    String::from_str("<InstanceID>0</InstanceID><Channel>Master</Channel>")
}

/// Arguments of `SetVolume` for a volume in percent.
pub open spec fn spec_set_volume_body(percent: u32) -> Seq<char> {
    "<InstanceID>0</InstanceID><Channel>Master</Channel><DesiredVolume>"@ + spec_decimal(percent as nat)
        + "</DesiredVolume>"@
}

/// Builds the arguments of `SetVolume`.
pub fn set_volume_body(percent: u32) -> (r: String)
    ensures
        r@ == spec_set_volume_body(percent),
{
    let mut v: Vec<char> = Vec::new();
    push_str(&mut v, "<InstanceID>0</InstanceID><Channel>Master</Channel><DesiredVolume>");
    push_decimal(&mut v, percent as u64);
    push_str(&mut v, "</DesiredVolume>");
    assert(v@ =~= spec_set_volume_body(percent));
    string_from_chars(&v)
}

/// Arguments of `SetMute`.
pub open spec fn spec_set_mute_body(mute: bool) -> Seq<char> {
    "<InstanceID>0</InstanceID><Channel>Master</Channel><DesiredMute>"@ + (if mute {
        "1"@
    } else {
        "0"@
    }) + "</DesiredMute>"@
}

/// Builds the arguments of `SetMute`.
pub fn set_mute_body(mute: bool) -> (r: String)
    ensures
        r@ == spec_set_mute_body(mute),
{
    let mut v: Vec<char> = Vec::new();
    push_str(&mut v, "<InstanceID>0</InstanceID><Channel>Master</Channel><DesiredMute>");
    if mute {
        push_str(&mut v, "1");
    } else {
        push_str(&mut v, "0");
    }
    push_str(&mut v, "</DesiredMute>");
    assert(v@ =~= spec_set_mute_body(mute));
    string_from_chars(&v)
}

/// The URL under which the device description of `address` is fetched:
/// the address itself when it begins with `http`, else `http://` before it.
pub open spec fn spec_device_url(address: Seq<char>) -> Seq<char> {
    if starts_with(address, "http"@) {
        address
    } else {
        "http://"@ + address
    }
}

/// The device URL for a device address.
pub fn device_url(address: &str) -> (r: String)
    ensures
        r@ == spec_device_url(address@),
{
    let a = chars_of(address);
    let h = chars_of("http");
    if starts_with_exec(&a, &h) {
        String::from_str(address)
    } else {
        let mut v: Vec<char> = Vec::new();
        push_str(&mut v, "http://");
        push_str(&mut v, address);
        string_from_chars(&v)
    }
}

/// The port of the FFmpeg proxy: the one in use, or 8080 when none is.
pub open spec fn spec_proxy_port(current: u16) -> u16 {
    if current == 0 {
        8080
    } else {
        current
    }
}

/// The port the FFmpeg proxy listens on.
pub fn proxy_port(current: u16) -> (p: u16)
    ensures
        p == spec_proxy_port(current),
{
    if current == 0 {
        8080
    } else {
        current
    }
}

/// The URL a renderer fetches the proxied stream from.
pub open spec fn spec_proxy_stream_url(local_ip: Seq<char>, port: u16) -> Seq<char> {
    "http://"@ + local_ip + ":"@ + spec_decimal(port as nat) + "/stream.mp3"@
}

/// Builds the URL a renderer fetches the proxied stream from.
pub fn proxy_stream_url(local_ip: &str, port: u16) -> (r: String)
    ensures
        r@ == spec_proxy_stream_url(local_ip@, port),
{
    let mut v: Vec<char> = Vec::new();
    push_str(&mut v, "http://");
    push_str(&mut v, local_ip);
    push_str(&mut v, ":");
    push_decimal(&mut v, port as u64);
    push_str(&mut v, "/stream.mp3");
    assert(v@ =~= spec_proxy_stream_url(local_ip@, port));
    string_from_chars(&v)
}

/// The URL the FFmpeg proxy listens on.
pub open spec fn spec_proxy_listen_url(port: u16) -> Seq<char> {
    "http://0.0.0.0:"@ + spec_decimal(port as nat) + "/stream.mp3"@
}

/// Builds the URL the FFmpeg proxy listens on.
pub fn proxy_listen_url(port: u16) -> (r: String)
    ensures
        r@ == spec_proxy_listen_url(port),
{
    let mut v: Vec<char> = Vec::new();
    push_str(&mut v, "http://0.0.0.0:");
    push_decimal(&mut v, port as u64);
    push_str(&mut v, "/stream.mp3");
    assert(v@ =~= spec_proxy_listen_url(port));
    string_from_chars(&v)
}

/// The FFmpeg arguments of the DLNA proxy: read `stream_url` (with live-HLS
/// options for `.m3u8` playlists), transcode to 128 kbit/s MP3 and serve it
/// once over HTTP at `listen_url`.
pub open spec fn spec_dlna_ffmpeg_args(stream_url: Seq<char>, listen_url: Seq<char>) -> Seq<Seq<char>> {
    let input = if contains(stream_url, ".m3u8"@) {
        seq![
            "-fflags"@,
            "+genpts+discardcorrupt"@,
            "-live_start_index"@,
            "-2"@,
            "-max_reload"@,
            "10"@,
            "-max_delay"@,
            "10000000"@,
            "-i"@,
            stream_url,
        ]
    } else {
        seq!["-i"@, stream_url]
    };
    input + seq![
        "-vn"@,
        "-c:a"@,
        "libmp3lame"@,
        "-b:a"@,
        "128k"@,
        "-listen"@,
        "1"@,
        "-f"@,
        "mp3"@,
        listen_url,
    ]
}

/// Builds the FFmpeg arguments of the DLNA proxy.
pub fn dlna_ffmpeg_args(stream_url: &str, listen_url: &str) -> (r: Vec<String>)
    ensures
        views_of(r@) == spec_dlna_ffmpeg_args(stream_url@, listen_url@),
{
    let mut r: Vec<String> = Vec::new();
    let u = chars_of(stream_url);
    let m = chars_of(".m3u8");
    let hls = contains_exec(&u, &m);
    if hls {
        r.push(String::from_str("-fflags"));
        r.push(String::from_str("+genpts+discardcorrupt"));
        r.push(String::from_str("-live_start_index"));
        r.push(String::from_str("-2"));
        r.push(String::from_str("-max_reload"));
        r.push(String::from_str("10"));
        r.push(String::from_str("-max_delay"));
        r.push(String::from_str("10000000"));
    }
    r.push(String::from_str("-i"));
    r.push(String::from_str(stream_url));
    r.push(String::from_str("-vn"));
    r.push(String::from_str("-c:a"));
    r.push(String::from_str("libmp3lame"));
    r.push(String::from_str("-b:a"));
    r.push(String::from_str("128k"));
    r.push(String::from_str("-listen"));
    r.push(String::from_str("1"));
    r.push(String::from_str("-f"));
    r.push(String::from_str("mp3"));
    r.push(String::from_str(listen_url));
    assert(views_of(r@) =~= spec_dlna_ffmpeg_args(stream_url@, listen_url@));
    r
}


/// The title carried by an ICY `StreamTitle=` line: the rest of the line
/// with quotes `'` and then `"` trimmed from both ends.
pub open spec fn icy_line_title(line: Seq<char>) -> Seq<char> {
    trim_by(
        trim_by(line.subrange("StreamTitle="@.len() as int, line.len() as int), TrimSet::Char('\'')),
        TrimSet::Char('"'),
    )
}

/// The first non-empty stream title among `lines`.
pub open spec fn first_icy_title(lines: Seq<Seq<char>>) -> Option<Seq<char>>
    decreases lines.len(),
{
    if lines.len() == 0 {
        None
    } else if starts_with(lines[0], "StreamTitle="@) && icy_line_title(lines[0]).len() > 0 {
        Some(icy_line_title(lines[0]))
    } else {
        first_icy_title(lines.drop_first())
    }
}

/// The stream title of ICY metadata: the first non-empty title of a line
/// beginning with `StreamTitle=`.
pub open spec fn spec_extract_icy_title(metadata: Seq<char>) -> Option<Seq<char>> {
    first_icy_title(spec_lines(metadata))
}

/// Extracts the stream title from ICY metadata.
pub fn extract_icy_title(metadata: &str) -> (r: Option<String>)
    ensures
        opt_view(r) == spec_extract_icy_title(metadata@),
{
    let v = chars_of(metadata);
    let p = chars_of("StreamTitle=");
    let mut pos: usize = 0;
    proof {
        assert(v@.subrange(0, v.len() as int) =~= v@);
    }
    while pos < v.len()
        invariant
            pos <= v.len(),
            v@ == metadata@,
            p@ == "StreamTitle="@,
            spec_extract_icy_title(metadata@) == first_icy_title(
                spec_lines(v@.subrange(pos as int, v.len() as int)),
            ),
        decreases v.len() - pos,
    {
        let (a, b, next) = next_line(&v, pos);
        let line = sub_vec(&v, a, b);
        let ghost rest = spec_lines(v@.subrange(next as int, v.len() as int));
        proof {
            assert((seq![line@] + rest)[0] == line@);
            assert((seq![line@] + rest).drop_first() =~= rest);
        }
        if starts_with_exec(&line, &p) {
            let (a1, b1) = trim_range(&line, p.len(), line.len(), TrimSet::Char('\''));
            let (a2, b2) = trim_range(&line, a1, b1, TrimSet::Char('"'));
            if a2 < b2 {
                return Some(string_from_range(&line, a2, b2));
            }
        }
        pos = next;
    }
    proof {
        assert(v@.subrange(pos as int, v.len() as int) =~= Seq::<char>::empty());
    }
    None
}

/// The process ids among lines: each line, trimmed, that parses as a `u32`;
/// other lines are skipped.
pub open spec fn lines_pids(lines: Seq<Seq<char>>) -> Seq<u32>
    decreases lines.len(),
{
    if lines.len() == 0 {
        Seq::empty()
    } else {
        (match spec_parse_u32(spec_trim(lines[0])) {
            Some(p) => seq![p],
            None => Seq::empty(),
        }) + lines_pids(lines.drop_first())
    }
}

/// The process ids that a `pgrep` listing names, in order: its lines that
/// parse as numbers once trimmed (the orphaned FFmpeg processes, which are
/// then killed).
pub fn listed_pids(output: &str) -> (r: Vec<u32>)
    ensures
        r@ == lines_pids(spec_lines(output@)),
{
    let v = chars_of(output);
    let mut r: Vec<u32> = Vec::new();
    let mut pos: usize = 0;
    proof {
        assert(v@.subrange(0, v.len() as int) =~= v@);
    }
    while pos < v.len()
        invariant
            pos <= v.len(),
            v@ == output@,
            lines_pids(spec_lines(output@)) == r@ + lines_pids(spec_lines(v@.subrange(pos as int, v.len() as int))),
        decreases v.len() - pos,
    {
        let (a, b, next) = next_line(&v, pos);
        let ghost line = v@.subrange(a as int, b as int);
        let ghost rest = spec_lines(v@.subrange(next as int, v.len() as int));
        proof {
            assert((seq![line] + rest)[0] == line);
            assert((seq![line] + rest).drop_first() =~= rest);
        }
        let (x, y) = trim_range(&v, a, b, TrimSet::Whitespace);
        let ghost before = r@;
        match parse_u32(&v, x, y) {
            Some(p) => {
                r.push(p);
                proof {
                    assert(before + (seq![p] + lines_pids(rest)) =~= r@ + lines_pids(rest));
                }
            },
            None => {
                proof {
                    assert(Seq::<u32>::empty() + lines_pids(rest) =~= lines_pids(rest));
                }
            },
        }
        pos = next;
    }
    proof {
        assert(v@.subrange(pos as int, v.len() as int) =~= Seq::<char>::empty());
        assert(r@ + Seq::<u32>::empty() =~= r@);
    }
    r
}

/// What `Child::try_wait` reported about the proxy process, if there is one.
#[derive(Debug, Clone, Copy, PartialEq, Eq, Structural)]
pub enum ProcessStatus {
    /// No process is stored.
    NoProcess,
    /// The process is still running.
    Running,
    /// The process has exited.
    Exited,
    /// Its status could not be read.
    Unknown,
}

/// What starting the FFmpeg proxy has to do with the process that is there.
#[derive(Debug, Clone, Copy, PartialEq, Eq, Structural)]
pub enum ProxyStartPlan {
    /// The running process already serves this URL: keep it.
    Reuse,
    /// Start a new process, first killing and reaping the running one when
    /// `kill_running`, else only forgetting a dead or unreadable one.
    Start { kill_running: bool },
}

/// The proxy can be reused when its process runs and serves the non-empty
/// `current_url` already.
pub open spec fn spec_proxy_start_plan(status: ProcessStatus, current_url: Seq<char>, previous_url: Seq<char>) -> ProxyStartPlan {
    match status {
        ProcessStatus::Running => if current_url == previous_url && current_url.len() > 0 {
            ProxyStartPlan::Reuse
        } else {
            ProxyStartPlan::Start { kill_running: true }
        },
        _ => ProxyStartPlan::Start { kill_running: false },
    }
}

/// Decides, when the proxy is to be started for `current_url`, whether the
/// process serving `previous_url` is reused or replaced.
pub fn proxy_start_plan(status: ProcessStatus, current_url: &str, previous_url: &str) -> (r: ProxyStartPlan)
    ensures
        r == spec_proxy_start_plan(status, current_url@, previous_url@),
{
    match status {
        ProcessStatus::Running => {
            if str_eq(current_url, previous_url) && !current_url.is_empty() {
                ProxyStartPlan::Reuse
            } else {
                ProxyStartPlan::Start { kill_running: true }
            }
        },
        _ => ProxyStartPlan::Start { kill_running: false },
    }
}

/// Whether the running proxy process can serve `new_url`.
pub fn can_reuse_ffmpeg_process(status: ProcessStatus, new_url: &str, previous_url: &str) -> (r: bool)
    ensures
        r == (status == ProcessStatus::Running && new_url@ == previous_url@ && new_url@.len() > 0),
{
    match status {
        ProcessStatus::Running => str_eq(new_url, previous_url) && !new_url.is_empty(),
        _ => false,
    }
}

/// The proxy can serve a URL exactly when starting the proxy for it reuses
/// the running process.
pub proof fn law_reuse_agrees_with_start_plan(status: ProcessStatus, url: Seq<char>, previous_url: Seq<char>)
    ensures
        (status == ProcessStatus::Running && url == previous_url && url.len() > 0)
            <==> spec_proxy_start_plan(status, url, previous_url) == ProxyStartPlan::Reuse,
{
}

/// The address used to find the local interface that reaches a device: the
/// host of its URL on port 80.
pub open spec fn spec_probe_address(host: Option<Option<Seq<char>>>) -> Result<Seq<char>, DlnaError> {
    match host {
        None => Err(DlnaError::InvalidUrl),
        Some(None) => Err(DlnaError::InvalidDeviceUrl),
        Some(Some(h)) => Ok(h + ":80"@),
    }
}

/// The view of a string result.
pub open spec fn string_result_view(r: Result<String, DlnaError>) -> Result<Seq<char>, DlnaError> {
    match r {
        Ok(s) => Ok(s@),
        Err(e) => Err(e),
    }
}

/// The probe address, from the parsed host of the device URL.
pub fn probe_address_from(host: Option<Option<String>>) -> (r: Result<String, DlnaError>)
    ensures
        string_result_view(r) == spec_probe_address(opt_opt_view(host)),
{
    match host {
        None => Err(DlnaError::InvalidUrl),
        Some(None) => Err(DlnaError::InvalidDeviceUrl),
        Some(Some(h)) => {
            let mut v = chars_of(h.as_str());
            push_str(&mut v, ":80");
            Ok(string_from_chars(&v))
        },
    }
}

/// The address to connect a UDP socket to, to learn which local IP reaches
/// the device at `device_url`.
pub fn local_ip_probe_address(device_url: &str) -> (r: Result<String, DlnaError>)
    ensures
        string_result_view(r) == spec_probe_address(url_host_of(device_url@)),
{
    probe_address_from(url_host(device_url))
}

/// The local IP to announce: the one detected, or the loopback address.
pub fn local_ip_or_fallback(detected: Option<String>) -> (r: String)
    ensures
        r@ == match opt_view(detected) {
            Some(ip) => ip,
            None => "127.0.0.1"@,
        },
{
    match detected {
        Some(ip) => ip,
        None => String::from_str("127.0.0.1"),
    }
}

/// How media is loaded onto a renderer.
pub enum MediaPlan {
    /// An HTTP stream goes through the FFmpeg proxy: send `set_uri_envelope`
    /// (pointing at `proxy_url`), start the proxy, then send `play_envelope`.
    Proxied { proxy_url: String, set_uri_envelope: String, play_envelope: String },
    /// Any other URL is handed to the renderer directly with these
    /// `SetAVTransportURI` and `Play` arguments.
    Direct { set_uri_body: String, play_body: String },
}

/// The view of a media plan: (proxied, URL or body, envelope or body, play).
pub open spec fn media_plan_view(p: MediaPlan) -> (bool, Seq<char>, Seq<char>, Seq<char>) {
    match p {
        MediaPlan::Proxied { proxy_url, set_uri_envelope, play_envelope } => (
            true,
            proxy_url@,
            set_uri_envelope@,
            play_envelope@,
        ),
        MediaPlan::Direct { set_uri_body, play_body } => (
            false,
            Seq::empty(),
            set_uri_body@,
            play_body@,
        ),
    }
}

/// The plan of loading `stream_url` titled `title` onto a renderer whose
/// proxy is reached at `local_ip` (port 8080); it fails without a known
/// AVTransport control URL.
pub open spec fn spec_load_media_plan(
    stream_url: Seq<char>,
    title: Seq<char>,
    local_ip: Seq<char>,
    av_transport_known: bool,
) -> Result<(bool, Seq<char>, Seq<char>, Seq<char>), DlnaError> {
    if !av_transport_known {
        Err(DlnaError::DiscoveryIncomplete)
    } else if starts_with(stream_url, "http"@) {
        let proxy_url = spec_proxy_stream_url(local_ip, 8080);
        let metadata = spec_didl_encoded(spec_xml_escape(title), proxy_url);
        Ok(
            (
                true,
                proxy_url,
                spec_soap_envelope(
                    av_transport_service(),
                    "SetAVTransportURI"@,
                    spec_set_uri_body(proxy_url, metadata),
                ),
                spec_soap_envelope(av_transport_service(), "Play"@, spec_play_body()),
            ),
        )
    } else {
        Ok(
            (
                false,
                Seq::empty(),
                spec_set_uri_body(stream_url, spec_didl(title, stream_url)),
                spec_play_body(),
            ),
        )
    }
}

/// The view of a media plan result.
pub open spec fn media_plan_result_view(r: Result<MediaPlan, DlnaError>) -> Result<(bool, Seq<char>, Seq<char>, Seq<char>), DlnaError> {
    match r {
        Ok(p) => Ok(media_plan_view(p)),
        Err(e) => Err(e),
    }
}

/// Plans loading a stream onto the connected renderer.
pub fn load_media_plan(stream_url: &str, title: &str, local_ip: &str, av_transport_known: bool) -> (r: Result<MediaPlan, DlnaError>)
    ensures
        media_plan_result_view(r) == spec_load_media_plan(stream_url@, title@, local_ip@, av_transport_known),
{
    if !av_transport_known {
        return Err(DlnaError::DiscoveryIncomplete);
    }
    let u = chars_of(stream_url);
    let h = chars_of("http");
    if starts_with_exec(&u, &h) {
        let proxy_url = proxy_stream_url(local_ip, 8080);
        let escaped = xml_escape(title);
        let metadata = didl_encoded(escaped.as_str(), proxy_url.as_str());
        let body = set_uri_body(proxy_url.as_str(), metadata.as_str());
        let av = av_transport_service_type();
        let set_uri_envelope = soap_envelope(av.as_str(), "SetAVTransportURI", body.as_str());
        let pb = play_body();
        let play_envelope = soap_envelope(av.as_str(), "Play", pb.as_str());
        Ok(MediaPlan::Proxied { proxy_url, set_uri_envelope, play_envelope })
    } else {
        let metadata = didl(title, stream_url);
        let set_uri_body = set_uri_body(stream_url, metadata.as_str());
        Ok(MediaPlan::Direct { set_uri_body, play_body: play_body() })
    }
}

/// How far loading media onto a renderer has come: the step just performed.
#[derive(Debug, Clone, Copy, PartialEq, Eq, Structural)]
pub enum LoadStage {
    /// Nothing sent yet.
    Begin,
    /// `SetAVTransportURI` was sent.
    SetUriSent,
    /// The FFmpeg proxy was started (or reused).
    ProxyStarted,
    /// `Play` was sent.
    PlaySent,
}

/// How a step of loading media went.
#[derive(Debug, Clone, Copy, PartialEq, Eq, Structural)]
pub enum StepOutcome {
    Succeeded,
    /// The HTTP request itself failed (or the proxy could not be started).
    RequestFailed,
    /// The renderer answered with a status other than 2xx.
    BadStatus,
}

/// Which step of loading media failed, and how.
#[derive(Debug, Clone, Copy, PartialEq, Eq, Structural)]
pub enum LoadFailure {
    SetUriRequest,
    SetUriStatus,
    ProxyStart,
    PlayRequest,
    PlayStatus,
}

/// What loading media does next.
#[derive(Debug, Clone, Copy, PartialEq, Eq, Structural)]
pub enum LoadAction {
    /// Send the plan's `SetAVTransportURI`.
    SendSetUri,
    /// Start (or reuse) the FFmpeg proxy, then wait for it to listen.
    StartProxy,
    /// Send the plan's `Play`.
    SendPlay,
    /// The media plays: loading succeeded.
    Finished,
    /// Loading fails here; nothing more is sent.
    Failed(LoadFailure),
}

/// The sequence of loading media: `SetAVTransportURI` first; for a proxied
/// stream the proxy starts only once the renderer accepted it; `Play` is
/// sent last, only when every earlier step succeeded; the first failure
/// ends loading with that failure, and loading succeeds only when `Play`
/// did.
pub open spec fn spec_load_step(proxied: bool, done: LoadStage, outcome: StepOutcome) -> LoadAction {
    match done {
        LoadStage::Begin => LoadAction::SendSetUri,
        LoadStage::SetUriSent => match outcome {
            StepOutcome::Succeeded => if proxied {
                LoadAction::StartProxy
            } else {
                LoadAction::SendPlay
            },
            StepOutcome::RequestFailed => LoadAction::Failed(LoadFailure::SetUriRequest),
            StepOutcome::BadStatus => LoadAction::Failed(LoadFailure::SetUriStatus),
        },
        LoadStage::ProxyStarted => match outcome {
            StepOutcome::Succeeded => LoadAction::SendPlay,
            _ => LoadAction::Failed(LoadFailure::ProxyStart),
        },
        LoadStage::PlaySent => match outcome {
            StepOutcome::Succeeded => LoadAction::Finished,
            StepOutcome::RequestFailed => LoadAction::Failed(LoadFailure::PlayRequest),
            StepOutcome::BadStatus => LoadAction::Failed(LoadFailure::PlayStatus),
        },
    }
}

/// Decides the next step of loading media, after the step `done` went as
/// `outcome` (the outcome is not read at `Begin`).
pub fn load_step(proxied: bool, done: LoadStage, outcome: StepOutcome) -> (a: LoadAction)
    ensures
        a == spec_load_step(proxied, done, outcome),
{
    match done {
        LoadStage::Begin => LoadAction::SendSetUri,
        LoadStage::SetUriSent => match outcome {
            StepOutcome::Succeeded => if proxied {
                LoadAction::StartProxy
            } else {
                LoadAction::SendPlay
            },
            StepOutcome::RequestFailed => LoadAction::Failed(LoadFailure::SetUriRequest),
            StepOutcome::BadStatus => LoadAction::Failed(LoadFailure::SetUriStatus),
        },
        LoadStage::ProxyStarted => match outcome {
            StepOutcome::Succeeded => LoadAction::SendPlay,
            _ => LoadAction::Failed(LoadFailure::ProxyStart),
        },
        LoadStage::PlaySent => match outcome {
            StepOutcome::Succeeded => LoadAction::Finished,
            StepOutcome::RequestFailed => LoadAction::Failed(LoadFailure::PlayRequest),
            StepOutcome::BadStatus => LoadAction::Failed(LoadFailure::PlayStatus),
        },
    }
}

/// `Play` is only sent after `SetAVTransportURI` succeeded (and, for a
/// proxied stream, after the proxy started); a direct stream never starts
/// the proxy; loading only finishes after `Play` succeeded, and any failed
/// step ends it.
pub proof fn law_load_sequence(proxied: bool, done: LoadStage, outcome: StepOutcome)
    ensures
        spec_load_step(proxied, done, outcome) == LoadAction::SendPlay ==> outcome == StepOutcome::Succeeded
            && (done == LoadStage::ProxyStarted || (done == LoadStage::SetUriSent && !proxied)),
        spec_load_step(proxied, done, outcome) == LoadAction::StartProxy ==> proxied && done
            == LoadStage::SetUriSent && outcome == StepOutcome::Succeeded,
        spec_load_step(proxied, done, outcome) == LoadAction::Finished ==> done == LoadStage::PlaySent
            && outcome == StepOutcome::Succeeded,
        done != LoadStage::Begin && outcome != StepOutcome::Succeeded ==> spec_load_step(proxied, done, outcome) is Failed,
{
}

/// The error text of a failed load, `detail` being the HTTP error or the
/// status: for a proxied stream each step has its own text; a direct stream
/// reports the request error itself, or a failed SOAP action.
pub open spec fn spec_load_failure_text(proxied: bool, failure: LoadFailure, detail: Seq<char>) -> Seq<char> {
    if failure == LoadFailure::ProxyStart {
        spec_dlna_error_message(DlnaError::ProxyNotStarted)
    } else if proxied {
        match failure {
            LoadFailure::SetUriRequest => "HTTP request failed: "@ + detail,
            LoadFailure::SetUriStatus => "SetAVTransportURI failed: "@ + detail,
            LoadFailure::PlayRequest => "Play HTTP request failed: "@ + detail,
            _ => "Play command failed: "@ + detail,
        }
    } else {
        match failure {
            LoadFailure::SetUriRequest => detail,
            LoadFailure::PlayRequest => detail,
            _ => "SOAP action failed: "@ + detail,
        }
    }
}

/// Builds the error text of a failed load.
pub fn load_failure_text(proxied: bool, failure: LoadFailure, detail: &str) -> (r: String)
    ensures
        r@ == spec_load_failure_text(proxied, failure, detail@),
{
    if failure == LoadFailure::ProxyStart {
        return DlnaError::ProxyNotStarted.message();
    }
    let prefix: &str = if proxied {
        match failure {
            LoadFailure::SetUriRequest => "HTTP request failed: ",
            LoadFailure::SetUriStatus => "SetAVTransportURI failed: ",
            LoadFailure::PlayRequest => "Play HTTP request failed: ",
            _ => "Play command failed: ",
        }
    } else {
        match failure {
            LoadFailure::SetUriRequest => "",
            LoadFailure::PlayRequest => "",
            _ => "SOAP action failed: ",
        }
    };
    let mut v = chars_of(prefix);
    push_str(&mut v, detail);
    proof {
        reveal_strlit("");
    }
    string_from_chars(&v)
}

/// The `SetNextAVTransportURI` arguments that announce a new track title for
/// the stream the proxy serves at `local_ip:port`.
pub open spec fn spec_track_metadata_body(title: Seq<char>, local_ip: Seq<char>, port: u16) -> Seq<char> {
    let url = spec_proxy_stream_url(local_ip, port);
    spec_set_next_uri_body(url, spec_didl(spec_xml_escape(title), url))
}

/// Builds the `SetNextAVTransportURI` arguments for a new track title.
pub fn track_metadata_body(title: &str, local_ip: &str, port: u16) -> (r: String)
    ensures
        r@ == spec_track_metadata_body(title@, local_ip@, port),
{
    let url = proxy_stream_url(local_ip, port);
    let escaped = xml_escape(title);
    let metadata = didl(escaped.as_str(), url.as_str());
    set_next_uri_body(url.as_str(), metadata.as_str())
}

/// Service URLs are fetched when loading media only if none is known yet
/// and a device is.
pub fn needs_service_fetch(av_transport_known: bool, device_known: bool) -> (r: bool)
    ensures
        r == (!av_transport_known && device_known),
{
    !av_transport_known && device_known
}

/// The titles seen while polling a stream's ICY metadata: the last one shown
/// and the last one sent to the renderer.
pub struct IcyTracker {
    pub last_title: String,
    pub last_device_title: String,
}

/// What a polled title asks for.
#[derive(Debug, Clone, Copy, PartialEq, Eq, Structural)]
pub enum IcyUpdate {
    /// Nothing new.
    Unchanged,
    /// A new title to show; sent to the renderer too when `send_to_device`.
    NewTitle { send_to_device: bool },
}

/// What a polled title does: a non-empty title that differs from the last
/// one becomes the last title and is reported, to be sent to the renderer
/// unless it is the last one the renderer accepted; anything else changes
/// nothing.
pub open spec fn spec_icy_observe(last_title: Seq<char>, last_device_title: Seq<char>, title: Seq<char>) -> (Seq<char>, IcyUpdate) {
    if title.len() > 0 && title != last_title {
        (title, IcyUpdate::NewTitle { send_to_device: title != last_device_title })
    } else {
        (last_title, IcyUpdate::Unchanged)
    }
}

impl IcyTracker {
    /// No title seen yet.
    pub fn new() -> (t: IcyTracker)
        ensures
            t.last_title@ == Seq::<char>::empty(),
            t.last_device_title@ == Seq::<char>::empty(),
    {
        IcyTracker { last_title: String::new(), last_device_title: String::new() }
    }

    /// Records a polled title: a non-empty title that differs from the last
    /// one becomes the last title.
    pub fn observe(&mut self, title: &str) -> (r: IcyUpdate)
        ensures
            (final(self).last_title@, r) == spec_icy_observe(
                old(self).last_title@,
                old(self).last_device_title@,
                title@,
            ),
            final(self).last_device_title@ == old(self).last_device_title@,
    {
        if !title.is_empty() && !str_eq(title, self.last_title.as_str()) {
            self.last_title = String::from_str(title);
            let send = !str_eq(title, self.last_device_title.as_str());
            IcyUpdate::NewTitle { send_to_device: send }
        } else {
            IcyUpdate::Unchanged
        }
    }

    /// Records that the renderer accepted `title`.
    pub fn device_updated(&mut self, title: &str)
        ensures
            final(self).last_device_title@ == title@,
            final(self).last_title@ == old(self).last_title@,
    {
        self.last_device_title = String::from_str(title);
    }
}

/// Observing the same title twice in a row asks for nothing the second
/// time, and leaves the last title as it was.
pub proof fn law_icy_title_reported_once(last_title: Seq<char>, last_device_title: Seq<char>, title: Seq<char>)
    ensures
        ({
            let t1 = spec_icy_observe(last_title, last_device_title, title).0;
            spec_icy_observe(t1, last_device_title, title) == (t1, IcyUpdate::Unchanged)
        }),
{
}

/// A title the renderer accepted is not sent to it again when it comes
/// back after another title.
pub proof fn law_icy_device_title_sent_once(last_title: Seq<char>, title: Seq<char>)
    requires
        title.len() > 0,
        last_title != title,
    ensures
        spec_icy_observe(last_title, title, title) == (title, IcyUpdate::NewTitle { send_to_device: false }),
{
}


/// What the DLNA sender knows of its renderer and proxy.
pub struct DlnaSenderState {
    pub stream_url: String,
    pub cover_url: String,
    pub title: String,
    pub is_connected: bool,
    /// The device URL of the connected renderer.
    pub device: Option<String>,
    pub av_transport_url: Option<String>,
    pub rendering_control_url: Option<String>,
    /// The proxy's port; 0 before it first started.
    pub ffmpeg_port: u16,
    pub local_ip: String,
    /// The stream the running proxy serves.
    pub original_stream_url: String,
}

/// A service URL that is known, as a request target.
pub open spec fn known_url(u: Option<String>) -> Option<Seq<char>> {
    opt_view(u)
}

impl DlnaSenderState {
    /// Without a connection, no renderer and no service URL is known.
    pub open spec fn wf(&self) -> bool {
        !self.is_connected ==> self.device is None && self.av_transport_url is None
            && self.rendering_control_url is None
    }

    /// Whether the state is consistent (see `wf`).
    pub fn is_consistent(&self) -> (r: bool)
        ensures
            r == self.wf(),
    {
        self.is_connected || (self.device.is_none() && self.av_transport_url.is_none()
            && self.rendering_control_url.is_none())
    }

    /// A sender with no renderer, no media, and no proxy configured.
    pub fn new() -> (s: DlnaSenderState)
        ensures
            s.wf(),
            !s.is_connected,
            s.device is None,
            s.av_transport_url is None,
            s.rendering_control_url is None,
            s.ffmpeg_port == 0,
            s.stream_url@ == Seq::<char>::empty(),
            s.cover_url@ == Seq::<char>::empty(),
            s.title@ == Seq::<char>::empty(),
            s.local_ip@ == Seq::<char>::empty(),
            s.original_stream_url@ == Seq::<char>::empty(),
            spec_play_target(s) is None,
    {
        DlnaSenderState {
            stream_url: String::new(),
            cover_url: String::new(),
            title: String::new(),
            is_connected: false,
            device: None,
            av_transport_url: None,
            rendering_control_url: None,
            ffmpeg_port: 0,
            local_ip: String::new(),
            original_stream_url: String::new(),
        }
    }

    /// Records a connected renderer and its service URLs.
    pub fn connected(&mut self, device_url: String, av_transport_url: String, rendering_control_url: String)
        ensures
            final(self).is_connected,
            opt_view(final(self).device) == Some(device_url@),
            opt_view(final(self).av_transport_url) == Some(av_transport_url@),
            opt_view(final(self).rendering_control_url) == Some(rendering_control_url@),
            final(self).ffmpeg_port == old(self).ffmpeg_port,
            final(self).original_stream_url == old(self).original_stream_url,
            final(self).stream_url == old(self).stream_url,
            final(self).cover_url == old(self).cover_url,
            final(self).title == old(self).title,
            final(self).local_ip == old(self).local_ip,
            final(self).wf(),
            spec_play_target(*final(self)) == Some(av_transport_url@),
    {
        self.device = Some(device_url);
        self.av_transport_url = Some(av_transport_url);
        self.rendering_control_url = Some(rendering_control_url);
        self.is_connected = true;
    }

    /// Disconnects: forgets the renderer when connected and returns whether
    /// it was (the proxy is then stopped too); otherwise changes nothing. The
    /// media, the proxy settings and the stream it serves are kept. This is
    /// also the first step of connecting, so a connect that then fails
    /// leaves no renderer and no service URL known.
    pub fn disconnect(&mut self) -> (was_connected: bool)
        ensures
            was_connected == old(self).is_connected,
            !final(self).is_connected,
            was_connected ==> final(self).device is None && final(self).av_transport_url is None
                && final(self).rendering_control_url is None,
            !was_connected ==> *final(self) == *old(self),
            final(self).stream_url == old(self).stream_url,
            final(self).cover_url == old(self).cover_url,
            final(self).title == old(self).title,
            final(self).ffmpeg_port == old(self).ffmpeg_port,
            final(self).local_ip == old(self).local_ip,
            final(self).original_stream_url == old(self).original_stream_url,
            old(self).wf() ==> final(self).wf() && final(self).device is None
                && final(self).av_transport_url is None && final(self).rendering_control_url is None,
            spec_play_target(*final(self)) is None,
    {
        if !self.is_connected {
            return false;
        }
        self.device = None;
        self.av_transport_url = None;
        self.rendering_control_url = None;
        self.is_connected = false;
        true
    }

    /// Records the media being loaded.
    pub fn set_media(&mut self, stream_url: &str, cover_url: &str, title: &str)
        ensures
            final(self).stream_url@ == stream_url@,
            final(self).cover_url@ == cover_url@,
            final(self).title@ == title@,
            final(self).is_connected == old(self).is_connected,
            final(self).device == old(self).device,
            final(self).av_transport_url == old(self).av_transport_url,
            final(self).rendering_control_url == old(self).rendering_control_url,
            final(self).ffmpeg_port == old(self).ffmpeg_port,
            final(self).local_ip == old(self).local_ip,
            final(self).original_stream_url == old(self).original_stream_url,
            old(self).wf() ==> final(self).wf(),
    {
        self.stream_url = String::from_str(stream_url);
        self.cover_url = String::from_str(cover_url);
        self.title = String::from_str(title);
    }

    /// Records service URLs fetched, when loading media, from the known
    /// renderer.
    pub fn services_fetched(&mut self, av_transport_url: String, rendering_control_url: String)
        requires
            old(self).wf(),
            old(self).device is Some,
        ensures
            opt_view(final(self).av_transport_url) == Some(av_transport_url@),
            opt_view(final(self).rendering_control_url) == Some(rendering_control_url@),
            final(self).is_connected == old(self).is_connected,
            final(self).device == old(self).device,
            final(self).stream_url == old(self).stream_url,
            final(self).cover_url == old(self).cover_url,
            final(self).title == old(self).title,
            final(self).ffmpeg_port == old(self).ffmpeg_port,
            final(self).local_ip == old(self).local_ip,
            final(self).original_stream_url == old(self).original_stream_url,
            final(self).wf(),
    {
        self.av_transport_url = Some(av_transport_url);
        self.rendering_control_url = Some(rendering_control_url);
    }

    /// Records, as loading an HTTP stream does before it sends anything,
    /// that the proxy is reached at `local_ip` on port 8080.
    pub fn proxy_address_set(&mut self, local_ip: &str)
        ensures
            final(self).ffmpeg_port == 8080,
            final(self).local_ip@ == local_ip@,
            final(self).original_stream_url == old(self).original_stream_url,
            final(self).is_connected == old(self).is_connected,
            final(self).device == old(self).device,
            final(self).av_transport_url == old(self).av_transport_url,
            final(self).rendering_control_url == old(self).rendering_control_url,
            final(self).stream_url == old(self).stream_url,
            final(self).cover_url == old(self).cover_url,
            final(self).title == old(self).title,
            old(self).wf() ==> final(self).wf(),
    {
        self.ffmpeg_port = 8080;
        self.local_ip = String::from_str(local_ip);
    }

    /// Records, as loading an HTTP stream does once the renderer took the
    /// proxy URL, that the proxy is to serve the current stream (so a proxy
    /// that already runs is reused).
    pub fn proxy_stream_recorded(&mut self)
        ensures
            final(self).original_stream_url == old(self).stream_url,
            final(self).ffmpeg_port == old(self).ffmpeg_port,
            final(self).local_ip == old(self).local_ip,
            final(self).is_connected == old(self).is_connected,
            final(self).device == old(self).device,
            final(self).av_transport_url == old(self).av_transport_url,
            final(self).rendering_control_url == old(self).rendering_control_url,
            final(self).stream_url == old(self).stream_url,
            final(self).cover_url == old(self).cover_url,
            final(self).title == old(self).title,
            old(self).wf() ==> final(self).wf(),
    {
        self.original_stream_url = self.stream_url.clone();
    }

    /// Records that the proxy serves the current stream from `local_ip` on
    /// the port it uses (8080 when it had none).
    pub fn proxy_configured(&mut self, local_ip: &str)
        ensures
            final(self).ffmpeg_port == spec_proxy_port(old(self).ffmpeg_port),
            final(self).local_ip@ == local_ip@,
            final(self).original_stream_url@ == old(self).stream_url@,
            final(self).is_connected == old(self).is_connected,
            final(self).device == old(self).device,
            final(self).av_transport_url == old(self).av_transport_url,
            final(self).rendering_control_url == old(self).rendering_control_url,
            final(self).stream_url == old(self).stream_url,
            final(self).cover_url == old(self).cover_url,
            final(self).title == old(self).title,
            old(self).wf() ==> final(self).wf(),
    {
        self.ffmpeg_port = proxy_port(self.ffmpeg_port);
        self.local_ip = String::from_str(local_ip);
        self.original_stream_url = self.stream_url.clone();
    }

    /// The `Play` envelope and its target, when connected to a renderer
    /// with a known AVTransport URL.
    pub fn play_request(&self) -> (r: Option<(String, String)>)
        ensures
            match r {
                Some((url, envelope)) => spec_play_target(*self) == Some(url@)
                    && envelope@ == spec_soap_envelope(av_transport_service(), "Play"@, spec_play_body()),
                None => spec_play_target(*self) is None,
            },
    {
        if !self.is_connected {
            return None;
        }
        match &self.av_transport_url {
            Some(url) => {
                let av = av_transport_service_type();
                let body = play_body();
                Some((url.clone(), soap_envelope(av.as_str(), "Play", body.as_str())))
            },
            None => None,
        }
    }

    /// The `Stop` envelope and its target; without an AVTransport URL the
    /// stop fails.
    pub fn stop_request(&self) -> (r: Result<(String, String), DlnaError>)
        ensures
            match r {
                Ok((url, envelope)) => known_url(self.av_transport_url) == Some(url@) && envelope@
                    == spec_soap_envelope(av_transport_service(), "Stop"@, spec_stop_body()),
                Err(e) => self.av_transport_url is None && e == DlnaError::DiscoveryIncomplete,
            },
    {
        match &self.av_transport_url {
            Some(url) => {
                let av = av_transport_service_type();
                let body = stop_body();
                Ok((url.clone(), soap_envelope(av.as_str(), "Stop", body.as_str())))
            },
            None => Err(DlnaError::DiscoveryIncomplete),
        }
    }

    /// The `SetVolume` envelope for a volume in percent and its target, when
    /// a RenderingControl URL is known.
    pub fn volume_request(&self, percent: u32) -> (r: Option<(String, String)>)
        ensures
            match r {
                Some((url, envelope)) => known_url(self.rendering_control_url) == Some(url@) && envelope@
                    == spec_soap_envelope(rendering_control_service(), "SetVolume"@, spec_set_volume_body(percent)),
                None => self.rendering_control_url is None,
            },
    {
        match &self.rendering_control_url {
            Some(url) => {
                let rc = rendering_control_service_type();
                let body = set_volume_body(percent);
                Some((url.clone(), soap_envelope(rc.as_str(), "SetVolume", body.as_str())))
            },
            None => None,
        }
    }

    /// The `SetMute` envelope and its target, when a RenderingControl URL is
    /// known.
    pub fn mute_request(&self, mute: bool) -> (r: Option<(String, String)>)
        ensures
            match r {
                Some((url, envelope)) => known_url(self.rendering_control_url) == Some(url@) && envelope@
                    == spec_soap_envelope(rendering_control_service(), "SetMute"@, spec_set_mute_body(mute)),
                None => self.rendering_control_url is None,
            },
    {
        match &self.rendering_control_url {
            Some(url) => {
                let rc = rendering_control_service_type();
                let body = set_mute_body(mute);
                Some((url.clone(), soap_envelope(rc.as_str(), "SetMute", body.as_str())))
            },
            None => None,
        }
    }

    /// The `GetVolume` envelope and its target, when a RenderingControl URL
    /// is known.
    pub fn get_volume_request(&self) -> (r: Option<(String, String)>)
        ensures
            match r {
                Some((url, envelope)) => known_url(self.rendering_control_url) == Some(url@) && envelope@
                    == spec_soap_envelope(rendering_control_service(), "GetVolume"@, spec_get_volume_body()),
                None => self.rendering_control_url is None,
            },
    {
        match &self.rendering_control_url {
            Some(url) => {
                let rc = rendering_control_service_type();
                let body = get_volume_body();
                Some((url.clone(), soap_envelope(rc.as_str(), "GetVolume", body.as_str())))
            },
            None => None,
        }
    }

    /// The `SetNextAVTransportURI` arguments announcing a new track title
    /// for the proxied stream.
    pub fn track_metadata_request(&self, title: &str) -> (r: String)
        ensures
            r@ == spec_track_metadata_body(title@, self.local_ip@, self.ffmpeg_port),
    {
        track_metadata_body(title, self.local_ip.as_str(), self.ffmpeg_port)
    }
}

/// Where `Play` is sent: the AVTransport URL while connected.
pub open spec fn spec_play_target(s: DlnaSenderState) -> Option<Seq<char>> {
    if s.is_connected {
        known_url(s.av_transport_url)
    } else {
        None
    }
}



/// An escaped title holds no `<` or `>`, so it cannot open or close an
/// element of the metadata it is put in.
pub proof fn law_xml_escape_has_no_markup(s: Seq<char>)
    ensures
        forall|i: int| 0 <= i < spec_xml_escape(s).len() ==> #[trigger] spec_xml_escape(s)[i] != '<'
            && spec_xml_escape(s)[i] != '>',
    decreases s.len(),
{
    if s.len() > 0 {
        law_xml_escape_has_no_markup(s.drop_last());
        reveal_strlit("&amp;");
        reveal_strlit("&lt;");
        reveal_strlit("&gt;");
        let a = spec_xml_escape(s.drop_last());
        let b = escape_char(s.last());
        assert forall|i: int| 0 <= i < (a + b).len() implies #[trigger] (a + b)[i] != '<' && (a + b)[i] != '>' by {
            if i >= a.len() {
                assert((a + b)[i] == b[i - a.len()]);
            }
        }
    }
}

/// Normalizing a device address twice gives what normalizing once gives.
pub proof fn law_device_url_idempotent(address: Seq<char>)
    ensures
        spec_device_url(spec_device_url(address)) == spec_device_url(address),
{
    reveal_strlit("http");
    reveal_strlit("http://");
    let u = spec_device_url(address);
    if !starts_with(address, "http"@) {
        assert(u.subrange(0, 4) =~= "http"@);
    }
}

/// The URL the proxy is reached at always names `/stream.mp3`, so devices
/// recognize MP3.
pub proof fn law_proxy_url_names_mp3(local_ip: Seq<char>, port: u16)
    ensures
        crate::text::ends_with(spec_proxy_stream_url(local_ip, port), "/stream.mp3"@),
{
    let u = spec_proxy_stream_url(local_ip, port);
    let t = "/stream.mp3"@;
    assert(u.subrange(u.len() - t.len(), u.len() as int) =~= t);
}

/// Every stream whose URL begins with `http` (so `https` too) goes through
/// the FFmpeg proxy once AVTransport is known: the renderer is pointed at
/// `http://<local ip>:8080/stream.mp3`, and that URL is what it is told to
/// play. Only other schemes are handed to the renderer directly, with their
/// own URL as the current URI; without AVTransport loading fails.
pub proof fn law_http_streams_are_proxied(stream_url: Seq<char>, title: Seq<char>, local_ip: Seq<char>, av_transport_known: bool)
    ensures
        !av_transport_known ==> spec_load_media_plan(stream_url, title, local_ip, av_transport_known) == Err::<
            (bool, Seq<char>, Seq<char>, Seq<char>),
            DlnaError,
        >(DlnaError::DiscoveryIncomplete),
        av_transport_known && starts_with(stream_url, "http"@) ==> (spec_load_media_plan(
            stream_url,
            title,
            local_ip,
            av_transport_known,
        ) matches Ok(p) && p.0 && p.1 == "http://"@ + local_ip + ":8080/stream.mp3"@),
        av_transport_known && !starts_with(stream_url, "http"@) ==> (spec_load_media_plan(
            stream_url,
            title,
            local_ip,
            av_transport_known,
        ) matches Ok(p) && !p.0 && p.2 == spec_set_uri_body(stream_url, spec_didl(title, stream_url))),
{
    reveal_strlit("8080");
    reveal_with_fuel(spec_decimal, 5);
    assert(spec_decimal(8080) =~= seq!['8', '0', '8', '0']);
    assert("http://"@ + local_ip + ":"@ + spec_decimal(8080) + "/stream.mp3"@ =~= "http://"@ + local_ip
        + ":8080/stream.mp3"@) by {
        reveal_strlit(":");
        reveal_strlit("/stream.mp3");
        reveal_strlit(":8080/stream.mp3");
    }
}

/// The two service URLs are read independently from the whole description:
/// once the AVTransport control URL is found and joins to `a`, the result
/// is `a` with the joined RenderingControl URL that `service_control_path`
/// reads from the whole description, wherever its block stands (in
/// particular before AVTransport), or with an empty URL when the
/// description names no RenderingControl, or the join error.
pub proof fn law_services_read_independently(xml: Seq<char>, device_url: Seq<char>, a: Seq<char>)
    requires
        spec_service_control_path(xml, av_transport_service()) matches Some(pa) && url_join_of(device_url, pa)
            == Ok::<Seq<char>, Seq<char>>(a),
    ensures
        match spec_service_control_path(xml, rendering_control_service()) {
            Some(pr) => match url_join_of(device_url, pr) {
                Ok(r) => spec_parse_device_services(xml, device_url) == Ok::<
                    (Seq<char>, Seq<char>),
                    Option<Seq<char>>,
                >((a, r)),
                Err(m) => spec_parse_device_services(xml, device_url) == Err::<
                    (Seq<char>, Seq<char>),
                    Option<Seq<char>>,
                >(Some(m)),
            },
            None => spec_parse_device_services(xml, device_url) == Ok::<(Seq<char>, Seq<char>), Option<Seq<char>>>(
                (a, Seq::empty()),
            ),
        },
{
}

} // verus!
