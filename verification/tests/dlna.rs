use shortwave::dlna::{listed_pids, load_failure_text, load_step, LoadFailure, LoadStage, StepOutcome};
use shortwave::dlna::ServicesError;
use shortwave::dlna::LoadAction::{Failed, Finished, SendPlay, SendSetUri, StartProxy};
use shortwave::dlna::{
    check_description_parsable, check_soap_value_extractable, device_services_from, device_url,
    didl, didl_encoded, dlna_ffmpeg_args, extract_icy_title, extract_soap_value,
    load_media_plan, local_ip_or_fallback, local_ip_probe_address, parse_device_services,
    proxy_listen_url, proxy_port, proxy_start_plan, proxy_stream_url, service_control_path,
    set_mute_body, set_uri_body, set_volume_body, soap_action_header, soap_envelope,
    track_metadata_body, xml_escape, can_reuse_ffmpeg_process, needs_service_fetch,
    DlnaError, DlnaSenderState, IcyTracker, IcyUpdate, MediaPlan, ProcessStatus, ProxyStartPlan,
};

const DESCRIPTION: &str = "<root><device><deviceType>urn:schemas-upnp-org:device:MediaRenderer:1</deviceType><friendlyName>Living Room</friendlyName><serviceList><service><serviceType>urn:schemas-upnp-org:service:AVTransport:1</serviceType><controlURL>/upnp/control/AVTransport1</controlURL></service><service><serviceType>urn:schemas-upnp-org:service:RenderingControl:1</serviceType><controlURL> /upnp/control/RenderingControl1 </controlURL></service></serviceList></device></root>";

#[test]
fn envelope_is_exact() {
    let e = soap_envelope("urn:schemas-upnp-org:service:AVTransport:1", "Play", "<InstanceID>0</InstanceID><Speed>1</Speed>");
    assert_eq!(
        e,
        "<?xml version=\"1.0\" encoding=\"utf-8\"?>\n<s:Envelope xmlns:s=\"http://schemas.xmlsoap.org/soap/envelope/\" s:encodingStyle=\"http://schemas.xmlsoap.org/soap/encoding/\">\n<s:Body>\n<u:Play xmlns:u=\"urn:schemas-upnp-org:service:AVTransport:1\">\n<InstanceID>0</InstanceID><Speed>1</Speed>\n</u:Play>\n</s:Body>\n</s:Envelope>"
    );
    assert_eq!(
        soap_action_header("urn:schemas-upnp-org:service:AVTransport:1", "Stop"),
        "\"urn:schemas-upnp-org:service:AVTransport:1#Stop\""
    );
}

#[test]
fn soap_value_is_trimmed() {
    let r = "<s:Envelope><u:GetVolumeResponse><CurrentVolume> 35 </CurrentVolume></u:GetVolumeResponse></s:Envelope>";
    assert!(check_soap_value_extractable(r, "CurrentVolume"));
    assert_eq!(extract_soap_value(r, "CurrentVolume"), Some("35".to_string()));
    assert_eq!(extract_soap_value(r, "CurrentMute"), None);
    assert!(!check_soap_value_extractable("</A>x<A>", "A"));
}

#[test]
fn control_paths_skip_one_character() {
    assert!(check_description_parsable(DESCRIPTION));
    assert_eq!(
        service_control_path(DESCRIPTION, "urn:schemas-upnp-org:service:AVTransport:1"),
        Some("upnp/control/AVTransport1".to_string())
    );
    assert_eq!(
        service_control_path(DESCRIPTION, "urn:schemas-upnp-org:service:RenderingControl:1"),
        Some("/upnp/control/RenderingControl1".to_string())
    );
    assert_eq!(service_control_path(DESCRIPTION, "urn:schemas-upnp-org:service:ConnectionManager:1"), None);
}

#[test]
fn device_services_resolve_against_device_url() {
    let r = parse_device_services(DESCRIPTION, "http://192.168.1.20:49152/description.xml");
    assert_eq!(
        r,
        Ok((
            "http://192.168.1.20:49152/upnp/control/AVTransport1".to_string(),
            "http://192.168.1.20:49152/upnp/control/RenderingControl1".to_string()
        ))
    );
    let nested = parse_device_services(DESCRIPTION, "http://192.168.1.20:49152/dev/desc.xml");
    assert_eq!(
        nested.unwrap().0,
        "http://192.168.1.20:49152/dev/upnp/control/AVTransport1".to_string()
    );
    let bad = parse_device_services(DESCRIPTION, "not a url").unwrap_err();
    assert_eq!(bad, ServicesError::InvalidUrl("relative URL without a base".to_string()));
    assert_eq!(bad.message(), "relative URL without a base");
    assert_eq!(parse_device_services("<root/>", "http://h/"), Err(ServicesError::ServicesNotFound));
}

#[test]
fn device_services_without_rendering_control() {
    assert_eq!(
        device_services_from(Some(Ok("http://a/av".to_string())), None),
        Ok(("http://a/av".to_string(), String::new()))
    );
    assert_eq!(
        device_services_from(None, Some(Ok("http://a/rc".to_string()))),
        Err(ServicesError::ServicesNotFound)
    );
    assert_eq!(
        device_services_from(Some(Err("first".to_string())), Some(Err("second".to_string()))),
        Err(ServicesError::InvalidUrl("first".to_string()))
    );
    assert_eq!(
        device_services_from(None, Some(Err("bad rc".to_string()))),
        Err(ServicesError::InvalidUrl("bad rc".to_string()))
    );
}

#[test]
fn unparsable_description_is_detected() {
    let bad = "<service><serviceType>urn:schemas-upnp-org:service:AVTransport:1</serviceType><controlURL></controlURL></service>";
    assert!(!check_description_parsable(bad));
    let multibyte = "<service><serviceType>urn:schemas-upnp-org:service:AVTransport:1</serviceType><controlURL>é/x</controlURL></service>";
    assert!(!check_description_parsable(multibyte));
}

#[test]
fn bodies_are_exact() {
    assert_eq!(set_volume_body(35), "<InstanceID>0</InstanceID><Channel>Master</Channel><DesiredVolume>35</DesiredVolume>");
    assert_eq!(set_mute_body(true), "<InstanceID>0</InstanceID><Channel>Master</Channel><DesiredMute>1</DesiredMute>");
    assert_eq!(set_mute_body(false), "<InstanceID>0</InstanceID><Channel>Master</Channel><DesiredMute>0</DesiredMute>");
    assert_eq!(
        set_uri_body("http://x/s", "M"),
        "<InstanceID>0</InstanceID><CurrentURI>http://x/s</CurrentURI><CurrentURIMetaData>M</CurrentURIMetaData>"
    );
}

#[test]
fn titles_are_escaped() {
    assert_eq!(xml_escape("Rock & Roll <Live>"), "Rock &amp; Roll &lt;Live&gt;");
    assert_eq!(xml_escape(""), "");
}

#[test]
fn metadata_formats() {
    let d = didl("Radio", "http://x/s");
    assert_eq!(
        d,
        "<DIDL-Lite xmlns:dc=\"http://purl.org/dc/elements/1.1/\" xmlns:upnp=\"urn:schemas-upnp-org:metadata-1-0/upnp/\" xmlns=\"urn:schemas-upnp-org:metadata-1-0/DIDL-Lite/\">\n<item id=\"0\" parentID=\"-1\" restricted=\"0\">\n<dc:title>Radio</dc:title>\n<upnp:class>object.item.audioItem.musicTrack</upnp:class>\n<res protocolInfo=\"http-get:*:audio/mpeg:*\">http://x/s</res>\n</item>\n</DIDL-Lite>"
    );
    let e = didl_encoded("Radio", "http://x/s");
    assert!(e.starts_with("&lt;DIDL-Lite"));
    assert!(e.contains("&lt;dc:title&gt;Radio *LIVE&lt;/dc:title&gt;"));
    assert!(e.ends_with("&lt;res protocolInfo=\"http-get:*:audio/mpeg:*\"&gt;http://x/s&lt;/res&gt;&lt;/item&gt;&lt;/DIDL-Lite&gt;"));
}

#[test]
fn device_urls() {
    assert_eq!(device_url("192.168.1.20:1400/xml/device_description.xml"), "http://192.168.1.20:1400/xml/device_description.xml");
    assert_eq!(device_url("http://a/b"), "http://a/b");
    assert_eq!(device_url(device_url("h").as_str()), "http://h");
}

#[test]
fn proxy_addresses() {
    assert_eq!(proxy_port(0), 8080);
    assert_eq!(proxy_port(9000), 9000);
    assert_eq!(proxy_stream_url("192.168.1.5", 8080), "http://192.168.1.5:8080/stream.mp3");
    assert_eq!(proxy_listen_url(8080), "http://0.0.0.0:8080/stream.mp3");
    assert_eq!(local_ip_or_fallback(None), "127.0.0.1");
    assert_eq!(local_ip_or_fallback(Some("10.0.0.2".to_string())), "10.0.0.2");
}

#[test]
fn probe_address_uses_device_host() {
    assert_eq!(local_ip_probe_address("http://192.168.1.20:49152/d.xml"), Ok("192.168.1.20:80".to_string()));
    assert_eq!(local_ip_probe_address("nonsense"), Err(DlnaError::InvalidUrl));
    assert_eq!(local_ip_probe_address("data:text/plain,x"), Err(DlnaError::InvalidDeviceUrl));
}

#[test]
fn proxy_arguments() {
    let plain = dlna_ffmpeg_args("http://r/stream", "http://0.0.0.0:8080/stream.mp3");
    assert_eq!(
        plain,
        vec!["-i", "http://r/stream", "-vn", "-c:a", "libmp3lame", "-b:a", "128k", "-listen", "1", "-f", "mp3", "http://0.0.0.0:8080/stream.mp3"]
    );
    let hls = dlna_ffmpeg_args("http://r/live.m3u8", "L");
    assert_eq!(&hls[..10], &["-fflags", "+genpts+discardcorrupt", "-live_start_index", "-2", "-max_reload", "10", "-max_delay", "10000000", "-i", "http://r/live.m3u8"]);
    assert_eq!(hls.len(), 20);
}

#[test]
fn proxy_reuse() {
    assert_eq!(proxy_start_plan(ProcessStatus::Running, "u", "u"), ProxyStartPlan::Reuse);
    assert_eq!(proxy_start_plan(ProcessStatus::Running, "u", "v"), ProxyStartPlan::Start { kill_running: true });
    assert_eq!(proxy_start_plan(ProcessStatus::Running, "", ""), ProxyStartPlan::Start { kill_running: true });
    assert_eq!(proxy_start_plan(ProcessStatus::Exited, "u", "u"), ProxyStartPlan::Start { kill_running: false });
    assert!(can_reuse_ffmpeg_process(ProcessStatus::Running, "u", "u"));
    assert!(!can_reuse_ffmpeg_process(ProcessStatus::Unknown, "u", "u"));
    assert!(!can_reuse_ffmpeg_process(ProcessStatus::NoProcess, "u", "u"));
}

#[test]
fn icy_titles() {
    assert_eq!(extract_icy_title("StreamTitle='Artist - Song';\n"), Some("Artist - Song';".to_string()));
    assert_eq!(extract_icy_title("x\r\nStreamTitle='Band'\r\n"), Some("Band".to_string()));
    assert_eq!(extract_icy_title("StreamTitle=''\nStreamTitle=\"Next\""), Some("Next".to_string()));
    assert_eq!(extract_icy_title("StreamUrl='x'"), None);
    assert_eq!(extract_icy_title(""), None);
}

#[test]
fn icy_tracker_reports_new_titles_once() {
    let mut t = IcyTracker::new();
    assert_eq!(t.observe(""), IcyUpdate::Unchanged);
    assert_eq!(t.observe("A"), IcyUpdate::NewTitle { send_to_device: true });
    assert_eq!(t.observe("A"), IcyUpdate::Unchanged);
    t.device_updated("A");
    assert_eq!(t.observe("B"), IcyUpdate::NewTitle { send_to_device: true });
    assert_eq!(t.observe("A"), IcyUpdate::NewTitle { send_to_device: false });
}

#[test]
fn media_plans() {
    match load_media_plan("http://r/s", "A&B", "10.0.0.2", true).unwrap() {
        MediaPlan::Proxied { proxy_url, set_uri_envelope, play_envelope } => {
            assert_eq!(proxy_url, "http://10.0.0.2:8080/stream.mp3");
            assert!(set_uri_envelope.contains("<u:SetAVTransportURI xmlns:u=\"urn:schemas-upnp-org:service:AVTransport:1\">"));
            assert!(set_uri_envelope.contains("<CurrentURI>http://10.0.0.2:8080/stream.mp3</CurrentURI>"));
            assert!(set_uri_envelope.contains("&lt;dc:title&gt;A&amp;B *LIVE"));
            assert!(play_envelope.contains("<u:Play xmlns:u=\"urn:schemas-upnp-org:service:AVTransport:1\">\n<InstanceID>0</InstanceID><Speed>1</Speed>\n</u:Play>"));
        }
        MediaPlan::Direct { .. } => panic!("expected a proxied plan"),
    }
    match load_media_plan("file:///music/a.mp3", "A&B", "10.0.0.2", true).unwrap() {
        MediaPlan::Direct { set_uri_body, play_body } => {
            assert!(set_uri_body.starts_with("<InstanceID>0</InstanceID><CurrentURI>file:///music/a.mp3</CurrentURI>"));
            assert!(set_uri_body.contains("<dc:title>A&B</dc:title>"));
            assert_eq!(play_body, "<InstanceID>0</InstanceID><Speed>1</Speed>");
        }
        MediaPlan::Proxied { .. } => panic!("expected a direct plan"),
    }
    assert!(matches!(load_media_plan("http://r/s", "t", "ip", false), Err(DlnaError::DiscoveryIncomplete)));
    assert!(needs_service_fetch(false, true));
    assert!(!needs_service_fetch(true, true));
}

#[test]
fn track_metadata() {
    let b = track_metadata_body("<New>", "10.0.0.2", 8080);
    assert!(b.starts_with("<InstanceID>0</InstanceID><NextURI>http://10.0.0.2:8080/stream.mp3</NextURI><NextURIMetaData><DIDL-Lite"));
    assert!(b.contains("<dc:title>&lt;New&gt;</dc:title>"));
    assert!(b.ends_with("</DIDL-Lite></NextURIMetaData>"));
}

#[test]
fn sender_state_requests() {
    let mut s = DlnaSenderState::new();
    assert!(s.play_request().is_none());
    assert_eq!(s.stop_request(), Err(DlnaError::DiscoveryIncomplete));
    s.connected("http://d/desc.xml".to_string(), "http://d/av".to_string(), "http://d/rc".to_string());
    let (url, env) = s.play_request().unwrap();
    assert_eq!(url, "http://d/av");
    assert!(env.contains("<u:Play "));
    let (url, env) = s.volume_request(40).unwrap();
    assert_eq!(url, "http://d/rc");
    assert!(env.contains("<DesiredVolume>40</DesiredVolume>"));
    assert!(s.mute_request(true).unwrap().1.contains("<DesiredMute>1</DesiredMute>"));
    assert!(s.get_volume_request().unwrap().1.contains("<u:GetVolume "));
    s.set_media("http://r/s", "c", "t");
    s.proxy_configured("10.0.0.2");
    assert_eq!(s.ffmpeg_port, 8080);
    assert_eq!(s.original_stream_url, "http://r/s");
    assert!(s.track_metadata_request("T").contains("http://10.0.0.2:8080/stream.mp3"));
    assert!(s.disconnect());
    assert!(!s.disconnect());
    assert!(s.play_request().is_none());
    assert!(s.volume_request(10).is_none());
}

#[test]
fn fetched_services_become_targets() {
    let mut s = DlnaSenderState::new();
    s.connected("http://d/desc.xml".to_string(), "http://d/av0".to_string(), "http://d/rc0".to_string());
    assert!(s.is_consistent());
    s.services_fetched("http://d/av".to_string(), "http://d/rc".to_string());
    assert!(s.is_connected);
    assert_eq!(s.av_transport_url.as_deref(), Some("http://d/av"));
    assert_eq!(s.rendering_control_url.as_deref(), Some("http://d/rc"));
    assert_eq!(s.device.as_deref(), Some("http://d/desc.xml"));
}

#[test]
fn pgrep_listing_pids() {
    assert_eq!(listed_pids("123\n 456 \r\nabc\n+7\n-5\n99999999999\n\n4294967295"), vec![123, 456, 7, 4294967295]);
    assert!(listed_pids("").is_empty());
}

#[test]
fn written_element_reads_back() {
    let reply = format!("<CurrentVolume>{}</CurrentVolume>", " 35 ");
    assert!(check_soap_value_extractable(&reply, "CurrentVolume"));
    assert_eq!(extract_soap_value(&reply, "CurrentVolume"), Some("35".to_string()));
}

#[test]
fn error_messages() {
    assert_eq!(DlnaError::InvalidDeviceUrl.message(), "Invalid device URL");
    assert_eq!(ServicesError::ServicesNotFound.message(), "Required services not found");
    assert_eq!(
        DlnaError::DiscoveryIncomplete.message(),
        "DLNA device discovery incomplete - no AVTransport service found"
    );
    assert_eq!(DlnaError::InvalidUrl.message(), "Invalid URL");
}

#[test]
fn icy_titles_reported_once() {
    let mut t = IcyTracker::new();
    assert_eq!(t.observe("Song A"), IcyUpdate::NewTitle { send_to_device: true });
    assert_eq!(t.observe("Song A"), IcyUpdate::Unchanged);
    t.device_updated("Song A");
    assert_eq!(t.observe("Song B"), IcyUpdate::NewTitle { send_to_device: true });
    assert_eq!(t.observe("Song A"), IcyUpdate::NewTitle { send_to_device: false });
    assert_eq!(t.observe(""), IcyUpdate::Unchanged);
}

#[test]
fn disconnect_keeps_media_and_proxy() {
    let mut s = DlnaSenderState::new();
    s.connected("http://d/desc.xml".to_string(), "http://d/av".to_string(), "http://d/rc".to_string());
    s.set_media("http://r/s", "c", "Title");
    s.proxy_address_set("10.0.0.2");
    s.proxy_stream_recorded();
    assert!(s.disconnect());
    assert!(s.is_consistent());
    assert_eq!(s.title, "Title");
    assert_eq!(s.stream_url, "http://r/s");
    assert_eq!(s.original_stream_url, "http://r/s");
    assert_eq!(s.local_ip, "10.0.0.2");
    assert_eq!(s.ffmpeg_port, 8080);
    assert!(s.device.is_none() && s.av_transport_url.is_none() && s.rendering_control_url.is_none());
    assert!(!s.disconnect());
    assert_eq!(s.title, "Title");
    assert_eq!(DlnaSenderState::new().title, "");
}

#[test]
fn load_sequences() {
    let ok = StepOutcome::Succeeded;
    assert_eq!(load_step(true, LoadStage::Begin, ok), SendSetUri);
    assert_eq!(load_step(true, LoadStage::SetUriSent, ok), StartProxy);
    assert_eq!(load_step(true, LoadStage::ProxyStarted, ok), SendPlay);
    assert_eq!(load_step(true, LoadStage::PlaySent, ok), Finished);
    assert_eq!(load_step(false, LoadStage::SetUriSent, ok), SendPlay);
    assert_eq!(
        load_step(true, LoadStage::SetUriSent, StepOutcome::BadStatus),
        Failed(LoadFailure::SetUriStatus)
    );
    assert_eq!(
        load_step(true, LoadStage::ProxyStarted, StepOutcome::RequestFailed),
        Failed(LoadFailure::ProxyStart)
    );
    assert_eq!(
        load_step(false, LoadStage::PlaySent, StepOutcome::RequestFailed),
        Failed(LoadFailure::PlayRequest)
    );
}

#[test]
fn load_failure_texts() {
    assert_eq!(load_failure_text(true, LoadFailure::SetUriStatus, "500"), "SetAVTransportURI failed: 500");
    assert_eq!(load_failure_text(true, LoadFailure::SetUriRequest, "timeout"), "HTTP request failed: timeout");
    assert_eq!(load_failure_text(true, LoadFailure::PlayStatus, "500"), "Play command failed: 500");
    assert_eq!(load_failure_text(true, LoadFailure::PlayRequest, "x"), "Play HTTP request failed: x");
    assert_eq!(load_failure_text(true, LoadFailure::ProxyStart, "x"), "Failed to receive FFmpeg process handle");
    assert_eq!(load_failure_text(false, LoadFailure::SetUriStatus, "404"), "SOAP action failed: 404");
    assert_eq!(load_failure_text(false, LoadFailure::PlayRequest, "refused"), "refused");
    assert_eq!(DlnaError::ProxyNotStarted.message(), "Failed to receive FFmpeg process handle");
}
