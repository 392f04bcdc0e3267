use hello_graphics::game::engine::state::PET_NAME_MAX;
use hello_graphics::game::friends::{
    BeaconOutcome, FriendRecord, FriendsList, PetBeacon, FRIENDS_MAX, FRIEND_BOOST_COOLDOWN_TICKS,
};

fn beacon(id: [u8; 2]) -> PetBeacon {
    PetBeacon {
        device_id: id,
        pet_kind: 1,
        generation: 3,
        name: *b"Rex\0\0\0\0\0\0\0\0\0",
        name_len: 3,
    }
}

#[test]
fn beacon_round_trips() {
    let b = beacon([0xAB, 0xCD]);
    let bytes = b.to_bytes();
    let restored = PetBeacon::from_bytes(&bytes).unwrap();
    assert_eq!(restored.device_id, [0xAB, 0xCD]);
    assert_eq!(restored.pet_kind, 1);
    assert_eq!(restored.generation, 3);
    assert_eq!(restored.name_len, 3);
    assert_eq!(&restored.name[..3], b"Rex");
}

#[test]
fn friends_list_add_and_lookup() {
    let mut list = FriendsList::new();
    assert!(list.find_mut([1, 1]).is_none());
    list.push(FriendRecord {
        device_id: [1, 1],
        pet_kind: 0,
        name: [0; PET_NAME_MAX],
        name_len: 0,
        first_seen_tick: 10,
        last_boost_tick: 10,
    });
    assert_eq!(list.count, 1);
    assert!(list.find_mut([1, 1]).is_some());
    assert!(list.find_mut([2, 2]).is_none());
}

#[test]
fn friends_list_ring_overflow_drops_oldest() {
    let mut list = FriendsList::new();
    for i in 0..(FRIENDS_MAX as u16 + 3) {
        let id = i.to_le_bytes();
        list.push(FriendRecord {
            device_id: id,
            pet_kind: 0,
            name: [0; PET_NAME_MAX],
            name_len: 0,
            first_seen_tick: i as u32,
            last_boost_tick: i as u32,
        });
    }
    assert_eq!(list.count as usize, FRIENDS_MAX);
    // The 3 oldest (i=0,1,2) should have been evicted.
    assert!(list.find_mut(0u16.to_le_bytes()).is_none());
    assert!(list.find_mut(2u16.to_le_bytes()).is_none());
    // The most recent should still be present, at the front.
    let last_id = (FRIENDS_MAX as u16 + 2).to_le_bytes();
    assert!(list.find_mut(last_id).is_some());
}

#[test]
fn friends_list_round_trips_through_bytes() {
    let mut list = FriendsList::new();
    list.push(FriendRecord {
        device_id: [9, 9],
        pet_kind: 2,
        name: *b"Mochi\0\0\0\0\0\0\0",
        name_len: 5,
        first_seen_tick: 100,
        last_boost_tick: 200,
    });
    let bytes = list.to_bytes();
    let restored = FriendsList::from_bytes(&bytes);
    assert_eq!(restored.count, 1);
    assert_eq!(restored.friends[0].device_id, [9, 9]);
    assert_eq!(restored.friends[0].name_str(), "Mochi");
    assert_eq!(restored.friends[0].first_seen_tick, 100);
    assert_eq!(restored.friends[0].last_boost_tick, 200);
}

#[test]
fn cooldown_classification_matches_elapsed_ticks() {
    // Pins down the boundary the classification in `on_pet_beacon` relies on.
    let last_boost_tick: u32 = 1000;
    let just_under = last_boost_tick + FRIEND_BOOST_COOLDOWN_TICKS - 1;
    let at_boundary = last_boost_tick + FRIEND_BOOST_COOLDOWN_TICKS;
    assert!(just_under.saturating_sub(last_boost_tick) < FRIEND_BOOST_COOLDOWN_TICKS);
    assert!(at_boundary.saturating_sub(last_boost_tick) >= FRIEND_BOOST_COOLDOWN_TICKS);
}

#[test]
fn beacon_wire_layout_is_little_endian() {
    let mut b = beacon([1, 2]);
    b.generation = 0x0304;
    let bytes = b.to_bytes();
    assert_eq!(bytes.len(), 18);
    assert_eq!(&bytes[..5], &[1, 2, 1, 0x04, 0x03]);
    assert_eq!(&bytes[5..8], b"Rex");
    assert_eq!(bytes[17], 3);
}

#[test]
fn short_beacon_is_rejected() {
    let bytes = beacon([1, 2]).to_bytes();
    assert!(PetBeacon::from_bytes(&bytes[..17]).is_none());
    assert!(PetBeacon::from_bytes(&[]).is_none());
}

#[test]
fn record_layout_and_round_trip() {
    let r = FriendRecord {
        device_id: [7, 8],
        pet_kind: 4,
        name: *b"Bo\0\0\0\0\0\0\0\0\0\0",
        name_len: 2,
        first_seen_tick: 0x01020304,
        last_boost_tick: 0xA0B0C0D0,
    };
    let bytes = r.to_bytes();
    assert_eq!(&bytes[..3], &[7, 8, 4]);
    assert_eq!(bytes[15], 2);
    assert_eq!(&bytes[16..20], &[4, 3, 2, 1]);
    assert_eq!(&bytes[20..24], &[0xD0, 0xC0, 0xB0, 0xA0]);
    let d = FriendRecord::from_bytes(&bytes);
    assert_eq!(d.first_seen_tick, 0x01020304);
    assert_eq!(d.last_boost_tick, 0xA0B0C0D0);
    assert_eq!(d.name_str(), "Bo");
}

#[test]
fn invalid_utf8_name_reads_as_empty() {
    let mut r = FriendRecord::empty();
    r.name[0] = 0xFF;
    r.name_len = 1;
    assert_eq!(r.name_str(), "");
    // name_len beyond the buffer is capped at the buffer.
    r.name = *b"abcdefghijkl";
    r.name_len = 200;
    assert_eq!(r.name_str(), "abcdefghijkl");
}

#[test]
fn list_encoding_layout() {
    let mut list = FriendsList::new();
    list.push(FriendRecord { device_id: [1, 1], ..FriendRecord::empty() });
    list.push(FriendRecord { device_id: [2, 2], ..FriendRecord::empty() });
    let bytes = list.to_bytes();
    assert_eq!(bytes.len(), 481);
    assert_eq!(bytes[0], 2);
    assert_eq!(&bytes[1..3], &[2, 2]);
    assert_eq!(&bytes[25..27], &[1, 1]);
    assert!(bytes[49..].iter().all(|&b| b == 0));
}

#[test]
fn list_decoding_caps_count_and_tolerates_short_input() {
    assert_eq!(FriendsList::from_bytes(&[]).count, 0);
    let mut bytes = vec![200u8];
    bytes.extend_from_slice(&[5, 6, 1]);
    bytes.extend_from_slice(&[0; 21]);
    let l = FriendsList::from_bytes(&bytes);
    assert_eq!(l.count as usize, FRIENDS_MAX);
    assert_eq!(l.friends[0].device_id, [5, 6]);
    assert_eq!(l.friends[1].device_id, [0, 0]);
}

#[test]
fn beacon_handling_new_reunion_refresh_and_echo() {
    let mut list = FriendsList::new();
    let me = [9, 9];
    let data = beacon([1, 2]).to_bytes();
    assert_eq!(list.on_pet_beacon(&data, me, 100), BeaconOutcome::NewFriend);
    assert_eq!(list.count, 1);
    assert_eq!(list.friends[0].first_seen_tick, 100);
    // Seen again within the cooldown: refreshed, no boost.
    let mut renamed = beacon([1, 2]);
    renamed.name = *b"Max\0\0\0\0\0\0\0\0\0";
    renamed.pet_kind = 5;
    assert_eq!(
        list.on_pet_beacon(&renamed.to_bytes(), me, 100 + FRIEND_BOOST_COOLDOWN_TICKS - 1),
        BeaconOutcome::Refreshed
    );
    assert_eq!(list.friends[0].name_str(), "Max");
    assert_eq!(list.friends[0].pet_kind, 5);
    assert_eq!(list.friends[0].last_boost_tick, 100);
    // After the cooldown: reunion boost, last boost moves to now.
    let now = 100 + FRIEND_BOOST_COOLDOWN_TICKS;
    assert_eq!(list.on_pet_beacon(&data, me, now), BeaconOutcome::Reunion);
    assert_eq!(list.friends[0].last_boost_tick, now);
    assert_eq!(list.count, 1);
    // Our own echo and truncated payloads are ignored.
    assert_eq!(list.on_pet_beacon(&beacon(me).to_bytes(), me, now), BeaconOutcome::Ignored);
    assert_eq!(list.on_pet_beacon(&data[..10], me, now), BeaconOutcome::Ignored);
    assert_eq!(list.count, 1);
    // A clock that went backwards counts as no time elapsed.
    assert_eq!(list.on_pet_beacon(&data, me, 5), BeaconOutcome::Refreshed);
}

#[test]
fn get_returns_known_friends_only() {
    let mut list = FriendsList::new();
    list.push(FriendRecord { device_id: [3, 3], ..FriendRecord::empty() });
    assert_eq!(list.get(0).unwrap().device_id, [3, 3]);
    assert!(list.get(1).is_none());
    assert_eq!(list.find([3, 3]), Some(0));
}
