use rustjay::config::OscConfig;
use rustjay::osc::{
    format_address_for_display, full_address, make_address, normalize_base_address, MessageLog,
    OscRegistry, MESSAGE_LOG_CAPACITY,
};
use rustjay::v4l2_devices::{
    has_capabilities, parse_video_node_name, select_devices, video_nodes, V4l2DeviceInfo,
    VideoNode, CAP_VIDEO_CAPTURE, CAP_VIDEO_OUTPUT,
};
use rustjay::web::{page_path, server_url, ws_path, WebConfig};

#[test]
fn osc_addresses_are_built_from_components() {
    assert_eq!(make_address("/rustjay/", "color", "hue"), "/rustjay/color/hue");
    assert_eq!(make_address("/rustjay", "audio", "amplitude"), "/rustjay/audio/amplitude");
    assert_eq!(make_address("/rustjay///", "a", "b"), "/rustjay/a/b");
    assert_eq!(make_address("", "a", "b"), "/a/b");
}

#[test]
fn osc_addresses_display_with_arrows() {
    assert_eq!(format_address_for_display("/a/b"), "a → b");
    assert_eq!(format_address_for_display("//rustjay/color/hue"), "rustjay → color → hue");
    assert_eq!(format_address_for_display(""), "");
}

#[test]
fn osc_base_and_full_addresses() {
    assert_eq!(normalize_base_address("rustjay"), "/rustjay");
    assert_eq!(normalize_base_address("/rustjay"), "/rustjay");
    assert_eq!(normalize_base_address(""), "/");
    assert_eq!(full_address("/rustjay", "/color/hue"), "/rustjay/color/hue");
    assert_eq!(full_address("/rustjay", "/rustjay/color/hue"), "/rustjay/color/hue");
    let once = full_address("/rustjay", "/x");
    assert_eq!(full_address("/rustjay", &once), once);
}

#[test]
fn osc_config_defaults() {
    let c = OscConfig::default();
    assert_eq!((c.port, c.enabled, c.base_address.as_str()), (9000, false, "/rustjay"));
}

#[test]
fn web_urls() {
    assert_eq!(server_url("192.168.1.20", 8080, "rustjay"), "http://192.168.1.20:8080/rustjay");
    assert_eq!(server_url("localhost", 0, "x"), "http://localhost:0/x");
    assert_eq!(page_path("rustjay"), "/rustjay");
    assert_eq!(ws_path("rustjay"), "/rustjay/ws");
    let c = WebConfig::default();
    assert_eq!((c.port, c.app_name.as_str(), c.enabled), (8080, "rustjay", false));
}

#[test]
fn video_node_names() {
    assert_eq!(parse_video_node_name("video10"), Some(10));
    assert_eq!(parse_video_node_name("video0"), Some(0));
    assert_eq!(parse_video_node_name("video"), Some(u32::MAX));
    assert_eq!(parse_video_node_name("video99999999999"), Some(u32::MAX));
    assert_eq!(parse_video_node_name("video4294967295"), Some(4294967295));
    assert_eq!(parse_video_node_name("video4294967296"), Some(u32::MAX));
    assert_eq!(parse_video_node_name("vid"), None);
    assert_eq!(parse_video_node_name("video1a"), None);
    assert_eq!(parse_video_node_name("media0"), None);
}

#[test]
fn capabilities_and_labels() {
    assert!(has_capabilities(CAP_VIDEO_CAPTURE | CAP_VIDEO_OUTPUT, CAP_VIDEO_OUTPUT));
    assert!(!has_capabilities(CAP_VIDEO_CAPTURE, CAP_VIDEO_OUTPUT));
    let d = V4l2DeviceInfo {
        path: "/dev/video10".to_string(),
        index: 10,
        card: "RustJay Output".to_string(),
        driver: "v4l2 loopback".to_string(),
    };
    assert_eq!(d.display_name(), "RustJay Output (/dev/video10)");
}

#[test]
fn registry_answers_full_and_relative_addresses() {
    let mut r: OscRegistry<u32> = OscRegistry::new("rustjay");
    assert_eq!(r.base_address(), "/rustjay");
    r.register("/color/hue_shift", 1);
    r.register("/audio/amplitude", 2);
    assert_eq!(r.len(), 2);
    assert!(r.has_parameter("/color/hue_shift"));
    assert!(r.has_parameter("/rustjay/color/hue_shift"));
    assert!(!r.has_parameter("/color/nothing"));
    assert_eq!(r.get("/audio/amplitude"), Some(&2));
    assert_eq!(r.resolve("/x"), "/rustjay/x");
    // Registering again replaces.
    r.register("/color/hue_shift", 10);
    assert_eq!(r.len(), 2);
    assert_eq!(r.get("/rustjay/color/hue_shift"), Some(&10));
    assert!(r.set("/audio/amplitude", 20));
    assert_eq!(r.get("/audio/amplitude"), Some(&20));
    assert!(!r.set("/audio/none", 0));
}

#[test]
fn message_log_keeps_the_latest_hundred() {
    let mut log: MessageLog<usize> = MessageLog::new();
    for i in 0..150 {
        log.record(i);
    }
    assert_eq!(log.entries().len(), MESSAGE_LOG_CAPACITY);
    assert_eq!(log.entries()[0], 50);
    assert_eq!(*log.entries().last().unwrap(), 149);
    log.clear();
    assert!(log.entries().is_empty());
}

#[test]
fn video_nodes_are_listed_in_name_order() {
    let entries: Vec<String> = ["video2", "null", "video10", "video", "video1x", "video0", "tty0"]
        .iter()
        .map(|s| s.to_string())
        .collect();
    let nodes = video_nodes(&entries);
    let got: Vec<(&str, u32)> = nodes.iter().map(|n| (n.name.as_str(), n.index)).collect();
    assert_eq!(got, vec![("video", u32::MAX), ("video0", 0), ("video10", 10), ("video2", 2)]);
}

#[test]
fn devices_are_kept_by_capability() {
    let nodes = vec![
        VideoNode { name: "video0".to_string(), index: 0 },
        VideoNode { name: "video1".to_string(), index: 1 },
        VideoNode { name: "video10".to_string(), index: 10 },
    ];
    let probes = vec![
        Some((CAP_VIDEO_CAPTURE, "UVC Camera".to_string(), "uvcvideo".to_string())),
        None,
        Some((CAP_VIDEO_CAPTURE | CAP_VIDEO_OUTPUT, "RustJay Output".to_string(), "v4l2 loopback".to_string())),
    ];
    let outputs = select_devices(nodes.clone(), probes.clone(), CAP_VIDEO_OUTPUT);
    assert_eq!(outputs.len(), 1);
    assert_eq!(outputs[0].path, "/dev/video10");
    assert_eq!(outputs[0].index, 10);
    assert_eq!(outputs[0].card, "RustJay Output");
    let captures = select_devices(nodes, probes, CAP_VIDEO_CAPTURE);
    let paths: Vec<&str> = captures.iter().map(|d| d.path.as_str()).collect();
    assert_eq!(paths, vec!["/dev/video0", "/dev/video10"]);
    assert_eq!(captures[0].driver, "uvcvideo");
}
