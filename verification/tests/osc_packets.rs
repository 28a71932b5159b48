use rosc::{OscBundle, OscMessage, OscPacket, OscTime, OscType};
use rustjay::osc::packet::{decode_osc, flatten_messages, OscArg, OscMessageModel, OscPacketModel};

fn msg(addr: &str, args: Vec<OscType>) -> OscPacket {
    OscPacket::Message(OscMessage { addr: addr.to_string(), args })
}

#[test]
fn a_datagram_decodes_to_its_message() {
    let bytes = rosc::encoder::encode(&msg("/rustjay/color/hue_shift", vec![OscType::Float(0.25)])).unwrap();
    let packet = decode_osc(&bytes).unwrap();
    let msgs = flatten_messages(packet);
    assert_eq!(
        msgs,
        vec![OscMessageModel {
            addr: "/rustjay/color/hue_shift".to_string(),
            first_arg: Some(OscArg::Float(0.25f32.to_bits())),
        }]
    );
}

#[test]
fn bundles_flatten_depth_first_in_order() {
    let inner = OscPacket::Bundle(OscBundle {
        timetag: OscTime { seconds: 0, fractional: 1 },
        content: vec![msg("/b", vec![OscType::Int(64)]), msg("/c", vec![])],
    });
    let outer = OscPacket::Bundle(OscBundle {
        timetag: OscTime { seconds: 0, fractional: 1 },
        content: vec![msg("/a", vec![OscType::Long(7), OscType::Int(1)]), inner, msg("/d", vec![OscType::String("x".into())])],
    });
    let bytes = rosc::encoder::encode(&outer).unwrap();
    let msgs = flatten_messages(decode_osc(&bytes).unwrap());
    let got: Vec<(&str, Option<OscArg>)> = msgs.iter().map(|m| (m.addr.as_str(), m.first_arg)).collect();
    assert_eq!(
        got,
        vec![
            ("/a", Some(OscArg::Long(7))),
            ("/b", Some(OscArg::Int(64))),
            ("/c", None),
            ("/d", Some(OscArg::Other)),
        ]
    );
}

#[test]
fn garbage_does_not_decode() {
    assert!(decode_osc(&[1, 2, 3]).is_none());
    assert!(decode_osc(&[]).is_none());
}

#[test]
fn a_lone_message_flattens_to_itself() {
    let m = OscMessageModel { addr: "/x".to_string(), first_arg: Some(OscArg::Double(1)) };
    assert_eq!(flatten_messages(OscPacketModel::Message(m.clone())), vec![m]);
    assert!(flatten_messages(OscPacketModel::Bundle(vec![])).is_empty());
}
