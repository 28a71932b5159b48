use rustjay::input::spout_input::{
    check_sender_info, pack_rows, read_sender_dimensions, sender_names, slot_name_equals,
    slot_name_len, SharedTextureInfo, SpoutDiscovery, SpoutInputReceiver, SpoutOpenError,
    SPOUT_MAX_NAME_LEN, SPOUT_MAX_SENDERS,
};
use rustjay::output::spout_output::{register_sender_name, unregister_sender_name};

fn empty_table() -> Vec<u8> {
    vec![0u8; SPOUT_MAX_NAME_LEN * SPOUT_MAX_SENDERS]
}

fn listed(table: &[u8]) -> Vec<String> {
    sender_names(table).into_iter().map(|n| String::from_utf8(n).unwrap()).collect()
}

#[test]
fn register_appends_once() {
    let mut t = empty_table();
    register_sender_name(&mut t, b"RustJay");
    register_sender_name(&mut t, b"Resolume");
    register_sender_name(&mut t, b"RustJay");
    assert_eq!(listed(&t), vec!["RustJay", "Resolume"]);
    assert_eq!(slot_name_len(&t, 0), 7);
    assert!(slot_name_equals(&t, 256, b"Resolume"));
    assert!(!slot_name_equals(&t, 256, b"Resolum"));
}

#[test]
fn unregister_moves_later_names_down() {
    let mut t = empty_table();
    for n in [&b"a"[..], b"b", b"c"] {
        register_sender_name(&mut t, n);
    }
    unregister_sender_name(&mut t, b"a");
    assert_eq!(listed(&t), vec!["b", "c"]);
    unregister_sender_name(&mut t, b"zzz");
    assert_eq!(listed(&t), vec!["b", "c"]);
    unregister_sender_name(&mut t, b"c");
    unregister_sender_name(&mut t, b"b");
    assert!(listed(&t).is_empty());
    assert!(t.iter().all(|&b| b == 0));
}

#[test]
fn full_table_takes_no_more_names() {
    let mut t = empty_table();
    for i in 0..SPOUT_MAX_SENDERS {
        register_sender_name(&mut t, format!("s{}", i).as_bytes());
    }
    register_sender_name(&mut t, b"extra");
    let names = listed(&t);
    assert_eq!(names.len(), 64);
    assert!(!names.contains(&"extra".to_string()));
}

#[test]
fn long_names_are_cut_to_255_bytes() {
    let mut t = empty_table();
    let long = vec![b'x'; 300];
    register_sender_name(&mut t, &long);
    assert_eq!(slot_name_len(&t, 0), 255);
}

#[test]
fn short_tables_list_only_their_slots() {
    let mut t = vec![0u8; 256 * 2 + 100];
    t[0] = b'A';
    t[256] = b'B';
    assert_eq!(listed(&t), vec!["A", "B"]);
    assert!(listed(&[]).is_empty());
}

#[test]
fn texture_info_round_trip() {
    let info = SharedTextureInfo::for_sender(0xDEAD_BEEF, 1920, 1080, Some(b"C:\\app.exe"));
    assert_eq!(info.format, 87);
    assert_eq!(&info.description[..10], b"C:\\app.exe");
    assert!(info.description[10..].iter().all(|&b| b == 0));
    let bytes = info.to_bytes();
    assert_eq!(bytes.len(), 280);
    assert_eq!(&bytes[0..4], &[0xEF, 0xBE, 0xAD, 0xDE]);
    let back = SharedTextureInfo::from_bytes(&bytes).unwrap();
    assert_eq!((back.share_handle, back.width, back.height), (0xDEAD_BEEF, 1920, 1080));
    assert_eq!(back.description, info.description);
    assert!(SharedTextureInfo::from_bytes(&bytes[..279]).is_none());
    assert_eq!(read_sender_dimensions(Some(&bytes)), (1920, 1080));
    assert_eq!(read_sender_dimensions(Some(&bytes[..10])), (0, 0));
    assert_eq!(read_sender_dimensions(None), (0, 0));
}

#[test]
fn description_is_cut_to_255_bytes() {
    let path = vec![b'p'; 400];
    let info = SharedTextureInfo::for_sender(1, 1, 1, Some(&path));
    assert_eq!(info.description.len(), 256);
    assert_eq!(info.description[254], b'p');
    assert_eq!(info.description[255], 0);
    let none = SharedTextureInfo::for_sender(1, 1, 1, None);
    assert!(none.description.iter().all(|&b| b == 0));
}

#[test]
fn sender_checks() {
    let mut info = SharedTextureInfo::for_sender(5, 640, 480, None);
    assert_eq!(check_sender_info(&info), Ok((5, 640, 480)));
    info.share_handle = 0;
    assert_eq!(check_sender_info(&info), Err(SpoutOpenError::NullHandle));
    info.width = 0;
    assert_eq!(check_sender_info(&info), Err(SpoutOpenError::ZeroDimensions));
}

#[test]
fn discovery_skips_empty_names() {
    let block = SharedTextureInfo::for_sender(1, 800, 600, None).to_bytes();
    let senders = SpoutDiscovery::list_senders(
        vec!["A".to_string(), String::new(), "B".to_string()],
        vec![Some(block), None, None],
    );
    assert_eq!(senders.len(), 2);
    assert_eq!((senders[0].name.as_str(), senders[0].width, senders[0].height), ("A", 800, 600));
    assert_eq!((senders[1].name.as_str(), senders[1].width, senders[1].height), ("B", 0, 0));
}

#[test]
fn rows_are_packed_without_padding() {
    let src: Vec<u8> = (0..20).collect();
    assert_eq!(pack_rows(&src, 8, 3, 3), vec![0, 1, 2, 8, 9, 10, 16, 17, 18]);
    assert!(pack_rows(&src, 8, 3, 0).is_empty());
}

#[test]
fn receiver_frames() {
    let mut r = SpoutInputReceiver::new();
    r.connect("RustJay");
    assert_eq!(r.sender_name.as_deref(), Some("RustJay"));
    r.texture_opened(1, 2);
    assert_eq!(r.resolution(), (1, 2));
    assert!(r.pixels().is_none());
    let mapped: Vec<u8> = (0..16).collect();
    r.store_frame(&mapped, 8);
    assert_eq!(r.pixels(), Some(&[0u8, 1, 2, 3, 8, 9, 10, 11][..]));
    assert_eq!(r.take_pixels(), Some(vec![0, 1, 2, 3, 8, 9, 10, 11]));
    assert!(r.take_pixels().is_none());
    r.disconnect();
    assert_eq!(r.sender_name, None);
    assert_eq!(r.resolution(), (0, 0));
}
