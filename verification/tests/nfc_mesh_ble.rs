use hello_graphics::fw::ble::{
    ble_device_name, chunk_frames, respond, Command, CompanionContext, ConnEvent, Reaction, Response, Session, WriteReply,
    NO_PASSKEY,
};
use hello_graphics::fw::meshcore::{advert_name, fit_or_empty, key_fingerprint, pm_display_name, split_sender, utf8_or};
use hello_graphics::fw::nfct::{cc_file, ndef_file, Apdu, ApduParseError, Tag, TagFile};

#[test]
fn apdu_parse_cases() {
    assert_eq!(Apdu::parse(&[0, 0xa4, 4]).err(), Some(ApduParseError));
    let a = Apdu::parse(&[0, 0xb0, 0, 2]).unwrap();
    assert_eq!((a.cla, a.ins, a.p1, a.p2, a.data.len(), a.le), (0, 0xb0, 0, 2, 0, 0));
    let a = Apdu::parse(&[0, 0xb0, 0, 0, 0x0f]).unwrap();
    assert_eq!(a.le, 0x0f);
    let a = Apdu::parse(&[0, 0xa4, 0, 12, 2, 0xe1, 0x04]).unwrap();
    assert_eq!(a.data, &[0xe1, 0x04]);
    assert_eq!(a.le, 0);
    let a = Apdu::parse(&[0, 0xa4, 4, 0, 2, 0xd2, 0x76, 0x00]).unwrap();
    assert_eq!(a.data, &[0xd2, 0x76]);
    assert_eq!(a.le, 0);
    assert_eq!(Apdu::parse(&[0, 0xa4, 4, 0, 5, 1, 2]).err(), Some(ApduParseError));
    assert_eq!(Apdu::parse(&[0, 0xa4, 4, 0, 0, 1]).err(), Some(ApduParseError));
}

#[test]
fn tag_session_reads_ndef() {
    let mut tag = Tag::new();
    let sel_app = Apdu::parse(&[0, 0xa4, 4, 0, 7, 0xd2, 0x76, 0, 0, 0x85, 1, 1, 0]).unwrap();
    assert_eq!(tag.respond(&sel_app), vec![0x90, 0x00]);
    // Read the CC (selected after activation) with Le = 0: whole file.
    let read_all = Apdu::parse(&[0, 0xb0, 0, 0, 0]).unwrap();
    let mut expect = cc_file();
    expect.extend_from_slice(&[0x90, 0x00]);
    assert_eq!(tag.respond(&read_all), expect);
    let sel_ndef = Apdu::parse(&[0, 0xa4, 0, 12, 2, 0xe1, 0x04]).unwrap();
    assert_eq!(tag.respond(&sel_ndef), vec![0x90, 0x00]);
    assert_eq!(tag.selected, TagFile::Ndef);
    let read_len = Apdu::parse(&[0, 0xb0, 0, 0, 2]).unwrap();
    assert_eq!(tag.respond(&read_len), vec![0x00, 0x10, 0x90, 0x00]);
    let read_rest = Apdu::parse(&[0, 0xb0, 0, 2, 0x40]).unwrap();
    let mut expect = ndef_file()[2..].to_vec();
    expect.extend_from_slice(&[0x90, 0x00]);
    assert_eq!(tag.respond(&read_rest), expect);
    let unknown = Apdu::parse(&[0x80, 0x01, 0, 0]).unwrap();
    assert_eq!(tag.respond(&unknown), vec![0xFF, 0xFF]);
    let sel_cc = Apdu::parse(&[0, 0xa4, 0, 12, 2, 0xe1, 0x03]).unwrap();
    tag.respond(&sel_cc);
    assert_eq!(tag.selected, TagFile::Cc);
}

#[test]
fn group_text_split() {
    assert_eq!(split_sender("alice: hi there"), ("alice", "hi there"));
    assert_eq!(split_sender("no separator"), ("", "no separator"));
    assert_eq!(split_sender("a:b: c: d"), ("a:b", "c: d"));
    assert_eq!(split_sender(": x"), ("", "x"));
    assert_eq!(split_sender("x:"), ("", "x:"));
}

#[test]
fn bounded_fields() {
    assert_eq!(fit_or_empty("bob", 32), "bob");
    let long = "y".repeat(33);
    assert_eq!(fit_or_empty(&long, 32), "");
    assert_eq!(fit_or_empty(&long, 128), long.as_str());
}

#[test]
fn advert_names_and_fingerprints() {
    assert_eq!(advert_name(b""), None);
    assert_eq!(advert_name(b"Badge"), Some(b"Badge".to_vec()));
    assert_eq!(advert_name(&[7u8; 40]).unwrap().len(), 32);
    let key = [0xDE, 0xAD, 0xBE, 0xEF, 0x01, 0x23, 0x45, 0x67, 0x89];
    assert_eq!(key_fingerprint(&key, 8), "deadbeef01234567");
    assert_eq!(pm_display_name("", &key), "deadbeef01234567");
    assert_eq!(pm_display_name("Carol", &key), "Carol");
}

#[test]
fn device_name_and_chunks() {
    let name = ble_device_name(b"12AB");
    assert_eq!(std::str::from_utf8(&name).unwrap(), "Cyber \u{c6}gg 12AB");
    let data: Vec<u8> = (1..=45).collect();
    let chunks = chunk_frames(&data);
    assert_eq!(chunks.len(), 3);
    assert_eq!(chunks[0][0], 1);
    assert_eq!(chunks[1][19], 40);
    assert_eq!(&chunks[2][..5], &[41, 42, 43, 44, 45]);
    assert!(chunks[2][5..].iter().all(|&b| b == 0));
    assert_eq!(chunk_frames(&[]).len(), 0);
    assert_eq!(chunk_frames(&[0u8; 20]).len(), 1);
}

#[test]
fn session_gates_commands_on_pairing() {
    let mut s = Session::new();
    let r = s.on_event(ConnEvent::Write { on_rx: true });
    assert_eq!(r.write, Some(WriteReply::Accept));
    let r = s.on_event(ConnEvent::PassKeyDisplay(123456));
    assert_eq!(r.passkey, Some(123456));
    assert!(r.signal_pairing);
    let r = s.on_event(ConnEvent::PairingFailed);
    assert_eq!(r.passkey, Some(NO_PASSKEY));
    assert!(!s.authenticated);
    let r = s.on_event(ConnEvent::PairingComplete { new_bond: true });
    assert!(r.save_bond);
    assert!(s.authenticated);
    assert_eq!(s.on_event(ConnEvent::Write { on_rx: true }).write, Some(WriteReply::Respond));
    assert_eq!(s.on_event(ConnEvent::Write { on_rx: false }).write, Some(WriteReply::Accept));
    let r = s.on_event(ConnEvent::Disconnected);
    assert_eq!(
        r,
        Reaction { passkey: Some(NO_PASSKEY), signal_pairing: true, save_bond: false, end: true, write: None }
    );
}

#[test]
fn companion_responses() {
    let ctx = CompanionContext {
        pub_key: [7; 32],
        frequency_hz: 869_618_000,
        bandwidth_hz: 62_500,
        spreading_factor: 8,
        coding_rate: 1,
        tx_power: 14,
    };
    assert_eq!(respond(None, 5, 50, &ctx, b"4F2A"), Response::Error);
    match respond(Some(Command::AppStart), 5, 50, &ctx, b"4F2A") {
        Response::SelfInfo(info) => {
            assert_eq!((info.adv_type, info.tx_power, info.max_tx_power), (1, 14, 22));
            assert_eq!(info.pub_key, [7; 32]);
            assert_eq!((info.lat, info.lon, info.multi_acks, info.adv_location_policy), (0, 0, 0, 0));
            assert_eq!((info.telemetry_mode, info.manual_add_contacts), (0, 0));
            assert_eq!((info.frequency_hz, info.bandwidth_hz), (869_618_000, 62_500));
            assert_eq!((info.spreading_factor, info.coding_rate), (8, 1));
            assert_eq!(info.name, b"4F2A");
        }
        other => panic!("unexpected {:?}", other),
    }
    for (passkey, pin) in [(NO_PASSKEY, 0u32), (424242, 424242)] {
        match respond(Some(Command::DeviceQuery), passkey, 50, &ctx, b"4F2A") {
            Response::DeviceInfo(info) => {
                assert_eq!(info.ble_pin, pin);
                assert_eq!((info.fw_version, info.max_contacts_raw, info.max_channels), (3, 10, 8));
                assert_eq!(&info.fw_build, b"dev");
                assert_eq!(&info.model, "BornHack Cyber\u{C6}gg".as_bytes());
                assert_eq!(&info.version, b"0.1.0");
                assert_eq!((info.client_repeat, info.path_hash_mode), (false, 0));
            }
            other => panic!("unexpected {:?}", other),
        }
    }
    assert_eq!(
        respond(Some(Command::GetBattery), 0, 50, &ctx, b"4F2A"),
        Response::Battery { mv: 3600, used_kb: 0, total_kb: 8192 }
    );
    assert_eq!(respond(Some(Command::GetChannel(3)), 0, 0, &ctx, b"4F2A"), Response::NoMoreMsgs);
    assert_eq!(respond(Some(Command::SetDeviceTime(9)), 0, 0, &ctx, b"4F2A"), Response::Done);
    assert_eq!(respond(Some(Command::Unknown(0x42)), 0, 0, &ctx, b"4F2A"), Response::Error);
}

#[test]
fn received_text_decoding() {
    assert_eq!(utf8_or(b"hi: there", "<invalid utf-8>"), "hi: there");
    assert_eq!(utf8_or(&[0xC3, 0x86, b'g'], "?"), "\u{C6}g");
    assert_eq!(utf8_or(&[0xFF, 0x41], "<invalid utf-8>"), "<invalid utf-8>");
    assert_eq!(utf8_or(&[0xC3], "?"), "?");
    assert_eq!(utf8_or(&[], "?"), "");
}

#[test]
fn unknown_file_select_is_not_found() {
    let mut tag = Tag::new();
    let sel_ndef = Apdu::parse(&[0, 0xa4, 0, 12, 2, 0xe1, 0x04]).unwrap();
    assert_eq!(tag.respond(&sel_ndef), vec![0x90, 0x00]);
    let sel_other = Apdu::parse(&[0, 0xa4, 0, 12, 2, 0x12, 0x34]).unwrap();
    assert_eq!(tag.respond(&sel_other), vec![0x6A, 0x82]);
    assert_eq!(tag.selected, TagFile::Ndef);
    let sel_short = Apdu::parse(&[0, 0xa4, 0, 12, 1, 0xe1]).unwrap();
    assert_eq!(tag.respond(&sel_short), vec![0x6A, 0x82]);
    // Later commands are still served from the kept selection.
    let read_len = Apdu::parse(&[0, 0xb0, 0, 0, 2]).unwrap();
    assert_eq!(tag.respond(&read_len), vec![0x00, 0x10, 0x90, 0x00]);
}

#[test]
fn read_past_end_detection() {
    let mut tag = Tag::new();
    // The CC is 15 bytes: offset 15 is the end, 16 is past it.
    assert!(!tag.reads_past_end(&Apdu::parse(&[0, 0xb0, 0, 15]).unwrap()));
    assert!(tag.reads_past_end(&Apdu::parse(&[0, 0xb0, 0, 16]).unwrap()));
    // The top bit of P1 is not part of the offset.
    assert!(!tag.reads_past_end(&Apdu::parse(&[0, 0xb0, 0x80, 2]).unwrap()));
    assert!(tag.reads_past_end(&Apdu::parse(&[0, 0xb0, 1, 0]).unwrap()));
    assert!(!tag.reads_past_end(&Apdu::parse(&[0, 0xa4, 0, 12, 2, 0xe1, 0x04]).unwrap()));
    assert!(!tag.reads_past_end(&Apdu::parse(&[0x80, 0xb0, 1, 0]).unwrap()));
    let sel_ndef = Apdu::parse(&[0, 0xa4, 0, 12, 2, 0xe1, 0x04]).unwrap();
    tag.respond(&sel_ndef);
    assert!(!tag.reads_past_end(&Apdu::parse(&[0, 0xb0, 0, 18]).unwrap()));
    assert!(tag.reads_past_end(&Apdu::parse(&[0, 0xb0, 0, 19]).unwrap()));
}
