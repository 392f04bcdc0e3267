use hello_graphics::fw::flash::{
    bond_key, deserialize_bond, flatten_addrs, fnv1a, index_key, index_with_saved, jedec_ok, kept_addrs, main_key,
    parse_index, rebuild_index,
    region_address, security_level_from_u8, security_level_to_u8, serialize_bond, stage_write, write_plan,
    Bond, SecurityLevel, WritePlan,
};

#[test]
fn fnv1a_known_values() {
    assert_eq!(fnv1a(b""), 0xcbf29ce484222325);
    assert_eq!(fnv1a(b"a"), 0xaf63dc4c8601ec8c);
    assert_eq!(fnv1a(b"foobar"), 0x85944171f73967e8);
    assert_eq!(main_key(), fnv1a(b"cyberaegg_bonds_v1"));
    assert_eq!(index_key(), fnv1a(b"bond_index"));
    assert_eq!(bond_key(&[1, 2, 3, 4, 5, 6]), fnv1a(&[1, 2, 3, 4, 5, 6]));
    assert_ne!(bond_key(&[1, 2, 3, 4, 5, 6]), bond_key(&[1, 2, 3, 4, 5, 7]));
}

#[test]
fn region_addresses() {
    assert_eq!(region_address(0), 0);
    assert_eq!(region_address(3), 3 * 4096);
}

#[test]
fn write_alignment() {
    assert_eq!(write_plan(8, 5), WritePlan { aligned_addr: 8, prefix_len: 0, padded_len: 8 });
    assert_eq!(write_plan(10, 5), WritePlan { aligned_addr: 8, prefix_len: 2, padded_len: 8 });
    assert_eq!(write_plan(11, 1), WritePlan { aligned_addr: 8, prefix_len: 3, padded_len: 4 });
    let s = stage_write(&[0xA1, 0xA2, 0xA3, 0xA4], 2, &[1, 2, 3, 4, 5], 8);
    assert_eq!(s, vec![0xA1, 0xA2, 1, 2, 3, 4, 5, 0xFF]);
    let s = stage_write(&[0, 0, 0, 0], 0, &[9], 4);
    assert_eq!(s, vec![9, 0xFF, 0xFF, 0xFF]);
}

#[test]
fn security_levels() {
    for l in [SecurityLevel::NoEncryption, SecurityLevel::Encrypted, SecurityLevel::EncryptedAuthenticated] {
        assert_eq!(security_level_from_u8(security_level_to_u8(&l)), l);
    }
    assert_eq!(security_level_to_u8(&SecurityLevel::EncryptedAuthenticated), 2);
    assert_eq!(security_level_from_u8(7), SecurityLevel::NoEncryption);
}

#[test]
fn bond_layout_and_round_trip() {
    let b = Bond {
        ltk: 0x0102030405060708090a0b0c0d0e0f10,
        bd_addr: [0xAA, 0xBB, 0xCC, 0xDD, 0xEE, 0xFF],
        irk: Some(0xFEDCBA98765432100123456789ABCDEF),
        is_bonded: true,
        security_level: SecurityLevel::Encrypted,
    };
    let buf = serialize_bond(&b);
    assert_eq!(buf[0], 0x10);
    assert_eq!(buf[15], 0x01);
    assert_eq!(&buf[16..22], &[0xAA, 0xBB, 0xCC, 0xDD, 0xEE, 0xFF]);
    assert_eq!(buf[22], 1);
    assert_eq!(buf[23], 0xEF);
    assert_eq!(buf[39], 1);
    assert_eq!(buf[40], 1);
    assert_eq!(buf[41], 0);
    assert_eq!(deserialize_bond(&buf), b);

    let c = Bond { irk: None, is_bonded: false, security_level: SecurityLevel::NoEncryption, ..b };
    let buf = serialize_bond(&c);
    assert_eq!(buf[22], 0);
    assert!(buf[23..39].iter().all(|&x| x == 0));
    assert_eq!(deserialize_bond(&buf), c);
}

#[test]
fn index_round_trip() {
    let mut index = vec![0u8; 24];
    for i in 0..24 {
        index[i] = i as u8;
    }
    let addrs = parse_index(&index, 20);
    assert_eq!(addrs, vec![[0, 1, 2, 3, 4, 5], [6, 7, 8, 9, 10, 11], [12, 13, 14, 15, 16, 17]]);
    let flat = rebuild_index(&addrs, &vec![true, false, true]);
    assert_eq!(flat, vec![0, 1, 2, 3, 4, 5, 12, 13, 14, 15, 16, 17]);
    assert_eq!(parse_index(&flat, flat.len()), vec![[0, 1, 2, 3, 4, 5], [12, 13, 14, 15, 16, 17]]);
}

#[test]
fn jedec_presence() {
    assert!(!jedec_ok(&[0xFF, 0xFF, 0xFF]));
    assert!(!jedec_ok(&[0, 0, 0]));
    assert!(jedec_ok(&[0x5E, 0x60, 0x15]));
    assert!(jedec_ok(&[0xFF, 0, 0xFF]));
}

#[test]
fn saving_a_bond_lists_its_address() {
    let a = [1u8, 2, 3, 4, 5, 6];
    let b = [9u8, 9, 9, 9, 9, 9];
    let c = [7u8, 7, 7, 7, 7, 7];
    // Empty index: the saved address becomes its only entry.
    let flat = index_with_saved(&vec![], &vec![], a);
    assert_eq!(flat, a.to_vec());
    assert_eq!(parse_index(&flat, flat.len()), vec![a]);
    // Already listed: kept once, in place.
    let flat = index_with_saved(&vec![a, b], &vec![true, true], a);
    assert_eq!(parse_index(&flat, flat.len()), vec![a, b]);
    // Removed peers drop out, the new one is appended.
    let flat = index_with_saved(&vec![a, b], &vec![false, true], c);
    assert_eq!(parse_index(&flat, flat.len()), vec![b, c]);
    // A full index takes no fifth peer.
    let full = vec![a, b, c, [4u8; 6]];
    let flat = index_with_saved(&full, &vec![true; 4], [5u8; 6]);
    assert_eq!(parse_index(&flat, flat.len()), full);
    assert_eq!(kept_addrs(&vec![a, b, c], &vec![true, false, true]), vec![a, c]);
    assert_eq!(flatten_addrs(&vec![b, c]), [b, c].concat());
}
