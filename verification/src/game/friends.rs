//! Mesh friend discovery — pets "meeting" over the private SHDW channel.
//!
//! Every badge periodically broadcasts a small [`PetBeacon`] on the SHDW
//! channel.  When another badge's beacon is received,
//! [`FriendsList::on_pet_beacon`] records it as a friend and says which
//! happiness boost applies — a bigger one-time bump for a brand-new friend,
//! a smaller cooldown-gated bump for spending time with one already known.
//!
//! The list is persisted in its own key-value namespace as
//! [`FriendsList::to_bytes`] / [`FriendsList::from_bytes`].
use vstd::prelude::*;
use vstd::utf8::{decode_utf8, valid_utf8};
use crate::codec::{get_le, le_decode, le_encode, lemma_le_decode_bound, lemma_le_encode_len, lemma_pow256_values, put_bytes, put_le};
use crate::text::str_from_utf8;
use super::engine::state::PET_NAME_MAX;

verus! {

/// Private `GrpData` `data_type` marking a friend-discovery beacon.
pub const PET_BEACON_TYPE: u16 = 0xBEAC;

/// Size of an encoded beacon: 2 + 1 + 2 + 12 + 1.
pub const BEACON_SIZE: usize = 18;

/// Minimum time between recurring happiness boosts from the same known
/// friend: 360 ticks/hour (1 tick = 10 s) × 4 hours.
pub const FRIEND_BOOST_COOLDOWN_TICKS: u32 = 360 * 4;

/// Capacity of the friends list.
pub const FRIENDS_MAX: usize = 20;

/// Size of an encoded friend record: 2 + 1 + 12 + 1 + 4 + 4.
pub const FRIEND_RECORD_SIZE: usize = 24;

/// Size of the encoded friends list: a count byte, then every slot.
pub const FRIENDS_SAVE_SIZE: usize = 1 + FRIENDS_MAX * FRIEND_RECORD_SIZE;

/// Fixed-size beacon payload: sender identity + pet snapshot.
#[derive(Clone, Copy, Debug)]
pub struct PetBeacon {
    pub device_id: [u8; 2],
    pub pet_kind: u8,
    pub generation: u16,
    pub name: [u8; PET_NAME_MAX],
    pub name_len: u8,
}

/// The wire bytes of a beacon: id, kind, generation (little-endian), name, name length.
pub open spec fn spec_beacon_bytes(b: PetBeacon) -> Seq<u8> {
    b.device_id@ + seq![b.pet_kind] + le_encode(b.generation as nat, 2) + b.name@ + seq![
        b.name_len,
    ]
}

/// `b` is the beacon that the first 18 bytes of `s` encode.
pub open spec fn spec_beacon_fields(s: Seq<u8>, b: PetBeacon) -> bool {
    &&& b.device_id@ == s.subrange(0, 2)
    &&& b.pet_kind == s[2]
    &&& b.generation == le_decode(s.subrange(3, 5))
    &&& b.name@ == s.subrange(5, 17)
    &&& b.name_len == s[17]
}

/// Copies the 12 name bytes that start at `at`.
fn read_name(buf: &[u8], at: usize) -> (name: [u8; PET_NAME_MAX])
    requires
        at + 12 <= buf@.len(),
    ensures
        name@ == buf@.subrange(at as int, at + 12),
{
    let len = buf.len();
    let mut name = [0u8; 12];
    let mut k: usize = 0;
    while k < 12
        invariant
            k <= 12,
            at + 12 <= buf@.len(),
            len == buf@.len(),
            forall|i: int| 0 <= i < k ==> name@[i] == buf@[at + i],
        decreases 12 - k,
    {
        name[k] = buf[at + k];
        k = k + 1;
    }
    assert(name@ =~= buf@.subrange(at as int, at + 12));
    name
}

impl PetBeacon {
    /// The 18 wire bytes of this beacon.
    pub fn to_bytes(&self) -> (buf: [u8; BEACON_SIZE])
        ensures
            buf@ == spec_beacon_bytes(*self),
    {
        let mut buf = [0u8; 18];
        buf[0] = self.device_id[0];
        buf[1] = self.device_id[1];
        buf[2] = self.pet_kind;
        let ghost b0 = buf@;
        put_le(&mut buf, 3, self.generation as u128, 2);
        let ghost b1 = buf@;
        put_bytes(&mut buf, 5, self.name.as_slice());
        let ghost b2 = buf@;
        buf[17] = self.name_len;
        proof {
            lemma_le_encode_len(self.generation as nat, 2);
            assert(b1.subrange(0, 5) =~= b0.subrange(0, 3) + le_encode(self.generation as nat, 2));
            assert(b2.subrange(0, 17) =~= b1.subrange(0, 5) + self.name@);
            assert(buf@ =~= b2.subrange(0, 17) + seq![self.name_len]);
            assert(b0.subrange(0, 3) =~= self.device_id@ + seq![self.pet_kind]);
            assert(buf@ =~= spec_beacon_bytes(*self));
        }
        buf
    }

    /// Decode a beacon from the first 18 bytes of `buf`; `None` if shorter.
    pub fn from_bytes(buf: &[u8]) -> (r: Option<PetBeacon>)
        ensures
            r is None <==> buf@.len() < BEACON_SIZE,
            r matches Some(b) ==> spec_beacon_fields(buf@, b),
    {
        if buf.len() < BEACON_SIZE {
            return None;
        }
        let name = read_name(buf, 5);
        let g = get_le(buf, 3, 2);
        proof {
            lemma_le_decode_bound(buf@.subrange(3, 5));
            lemma_pow256_values();
        }
        let b = PetBeacon {
            device_id: [buf[0], buf[1]],
            pet_kind: buf[2],
            generation: g as u16,
            name,
            name_len: buf[17],
        };
        assert(b.device_id@ =~= buf@.subrange(0, 2));
        Some(b)
    }
}

/// Decoding the bytes of a beacon gives back that beacon.
pub proof fn lemma_beacon_round_trip(b: PetBeacon, d: PetBeacon)
    requires
        spec_beacon_fields(spec_beacon_bytes(b), d),
    ensures
        d == b,
{
    let s = spec_beacon_bytes(b);
    lemma_le_encode_len(b.generation as nat, 2);
    assert(s.subrange(0, 2) =~= b.device_id@);
    assert(s.subrange(3, 5) =~= le_encode(b.generation as nat, 2));
    assert(s.subrange(5, 17) =~= b.name@);
    lemma_pow256_values();
    crate::codec::lemma_le_decode_encode(b.generation as nat, 2);
    assert(d.device_id =~= b.device_id);
    assert(d.name =~= b.name);
}

/// A pet met on the mesh.
#[derive(Clone, Copy, Debug)]
pub struct FriendRecord {
    pub device_id: [u8; 2],
    pub pet_kind: u8,
    pub name: [u8; PET_NAME_MAX],
    pub name_len: u8,
    pub first_seen_tick: u32,
    pub last_boost_tick: u32,
}

/// The stored bytes of a record: id, kind, name, name length, then the two
/// ticks little-endian.
pub open spec fn spec_record_bytes(r: FriendRecord) -> Seq<u8> {
    r.device_id@ + seq![r.pet_kind] + r.name@ + seq![r.name_len] + le_encode(
        r.first_seen_tick as nat,
        4,
    ) + le_encode(r.last_boost_tick as nat, 4)
}

/// `r` is the record that the first 24 bytes of `s` encode.
pub open spec fn spec_record_fields(s: Seq<u8>, r: FriendRecord) -> bool {
    &&& r.device_id@ == s.subrange(0, 2)
    &&& r.pet_kind == s[2]
    &&& r.name@ == s.subrange(3, 15)
    &&& r.name_len == s[15]
    &&& r.first_seen_tick == le_decode(s.subrange(16, 20))
    &&& r.last_boost_tick == le_decode(s.subrange(20, 24))
}

/// The all-zero record that fills unused slots.
pub open spec fn spec_is_empty_record(r: FriendRecord) -> bool {
    &&& r.device_id@ == seq![0u8, 0u8]
    &&& r.pet_kind == 0
    &&& r.name@ == Seq::new(12, |i: int| 0u8)
    &&& r.name_len == 0
    &&& r.first_seen_tick == 0
    &&& r.last_boost_tick == 0
}

/// The characters of a record's name: its first `name_len` bytes (at most
/// 12) decoded as UTF-8, or nothing if they are not valid UTF-8.
pub open spec fn spec_name_text(r: FriendRecord) -> Seq<char> {
    let n: int = if r.name_len < 12 { r.name_len as int } else { 12 };
    let bytes = r.name@.subrange(0, n);
    if valid_utf8(bytes) {
        decode_utf8(bytes)
    } else {
        Seq::empty()
    }
}

impl FriendRecord {
    /// The all-zero record that fills unused slots.
    pub fn empty() -> (r: FriendRecord)
        ensures
            spec_is_empty_record(r),
    {
        let r = FriendRecord {
            device_id: [0; 2],
            pet_kind: 0,
            name: [0; 12],
            name_len: 0,
            first_seen_tick: 0,
            last_boost_tick: 0,
        };
        assert(r.device_id@ =~= seq![0u8, 0u8]);
        assert(r.name@ =~= Seq::new(12, |i: int| 0u8));
        r
    }

    /// The 24 stored bytes of this record.
    pub fn to_bytes(&self) -> (buf: [u8; FRIEND_RECORD_SIZE])
        ensures
            buf@ == spec_record_bytes(*self),
    {
        let mut buf = [0u8; 24];
        buf[0] = self.device_id[0];
        buf[1] = self.device_id[1];
        buf[2] = self.pet_kind;
        let ghost b0 = buf@;
        put_bytes(&mut buf, 3, self.name.as_slice());
        let ghost b1 = buf@;
        buf[15] = self.name_len;
        let ghost b2 = buf@;
        put_le(&mut buf, 16, self.first_seen_tick as u128, 4);
        let ghost b3 = buf@;
        put_le(&mut buf, 20, self.last_boost_tick as u128, 4);
        proof {
            lemma_le_encode_len(self.first_seen_tick as nat, 4);
            lemma_le_encode_len(self.last_boost_tick as nat, 4);
            assert(b0.subrange(0, 3) =~= self.device_id@ + seq![self.pet_kind]);
            assert(b1.subrange(0, 15) =~= b0.subrange(0, 3) + self.name@);
            assert(b2.subrange(0, 16) =~= b1.subrange(0, 15) + seq![self.name_len]);
            assert(b3.subrange(0, 20) =~= b2.subrange(0, 16) + le_encode(
                self.first_seen_tick as nat,
                4,
            ));
            assert(buf@ =~= b3.subrange(0, 20) + le_encode(self.last_boost_tick as nat, 4));
            assert(buf@ =~= spec_record_bytes(*self));
        }
        buf
    }

    /// Decode a record from the first 24 bytes of `buf`.
    pub fn from_bytes(buf: &[u8]) -> (r: FriendRecord)
        requires
            buf@.len() >= FRIEND_RECORD_SIZE,
        ensures
            spec_record_fields(buf@, r),
    {
        let name = read_name(buf, 3);
        let first = get_le(buf, 16, 4);
        let last = get_le(buf, 20, 4);
        proof {
            lemma_le_decode_bound(buf@.subrange(16, 20));
            lemma_le_decode_bound(buf@.subrange(20, 24));
            lemma_pow256_values();
        }
        let r = FriendRecord {
            device_id: [buf[0], buf[1]],
            pet_kind: buf[2],
            name,
            name_len: buf[15],
            first_seen_tick: first as u32,
            last_boost_tick: last as u32,
        };
        assert(r.device_id@ =~= buf@.subrange(0, 2));
        r
    }

    /// Friend's pet name as a str: the first `name_len` bytes (at most 12),
    /// or the empty string if they are not valid UTF-8.
    pub fn name_str(&self) -> (s: &str)
        ensures
            s@ == spec_name_text(*self),
    {
        let n: usize = if (self.name_len as usize) < PET_NAME_MAX {
            self.name_len as usize
        } else {
            PET_NAME_MAX
        };
        let bytes = vstd::slice::slice_subrange(self.name.as_slice(), 0, n);
        match str_from_utf8(bytes) {
            Some(s) => s,
            None => {
                proof {
                    reveal_strlit("");
                }
                ""
            },
        }
    }
}

/// Decoding the bytes of a record gives back that record.
pub proof fn lemma_record_round_trip(r: FriendRecord, d: FriendRecord)
    requires
        spec_record_fields(spec_record_bytes(r), d),
    ensures
        d == r,
{
    let s = spec_record_bytes(r);
    lemma_le_encode_len(r.first_seen_tick as nat, 4);
    lemma_le_encode_len(r.last_boost_tick as nat, 4);
    assert(s.subrange(0, 2) =~= r.device_id@);
    assert(s.subrange(3, 15) =~= r.name@);
    assert(s.subrange(16, 20) =~= le_encode(r.first_seen_tick as nat, 4));
    assert(s.subrange(20, 24) =~= le_encode(r.last_boost_tick as nat, 4));
    lemma_pow256_values();
    crate::codec::lemma_le_decode_encode(r.first_seen_tick as nat, 4);
    crate::codec::lemma_le_decode_encode(r.last_boost_tick as nat, 4);
    assert(d.device_id =~= r.device_id);
    assert(d.name =~= r.name);
}

/// The outcome of a received beacon.
#[derive(Clone, Copy, PartialEq, Eq, Structural, Debug)]
pub enum BeaconOutcome {
    /// Not a beacon, or our own beacon echoed back: nothing changes.
    Ignored,
    /// A known friend seen again within the cooldown: record refreshed, no boost.
    Refreshed,
    /// A known friend seen again after the cooldown: small happiness boost.
    Reunion,
    /// A brand-new friend: big happiness boost.
    NewFriend,
}

/// Ring buffer of met friends, newest first; entries are updated in place
/// by device id rather than appended.
#[derive(Clone, Copy, Debug)]
pub struct FriendsList {
    pub friends: [FriendRecord; FRIENDS_MAX],
    pub count: u8,
}

/// `i` is the first position of `s` holding device `id`.
pub open spec fn spec_is_first_match(s: Seq<FriendRecord>, id: [u8; 2], i: int) -> bool {
    &&& 0 <= i < s.len()
    &&& s[i].device_id == id
    &&& forall|j: int| 0 <= j < i ==> s[j].device_id != id
}

/// Some position of `s` holds device `id`.
pub open spec fn spec_has_match(s: Seq<FriendRecord>, id: [u8; 2]) -> bool {
    exists|i: int| 0 <= i < s.len() && s[i].device_id == id
}

/// The first position of `s` holding device `id` (meaningful when there is one).
pub open spec fn spec_first_match(s: Seq<FriendRecord>, id: [u8; 2]) -> int {
    choose|i: int| spec_is_first_match(s, id, i)
}

/// Saturating `a - b`.
pub open spec fn spec_saturating_sub(a: u32, b: u32) -> u32 {
    if a >= b {
        (a - b) as u32
    } else {
        0
    }
}

/// The slots after pushing `record` on the front: every slot moves one place
/// back and the last one falls off.
pub open spec fn spec_pushed(slots: Seq<FriendRecord>, record: FriendRecord) -> Seq<FriendRecord> {
    seq![record] + slots.take(FRIENDS_MAX - 1)
}

/// The record a beacon from a new friend creates at tick `now`.
pub open spec fn spec_new_record(b: PetBeacon, now: u32) -> FriendRecord {
    FriendRecord {
        device_id: b.device_id,
        pet_kind: b.pet_kind,
        name: b.name,
        name_len: b.name_len,
        first_seen_tick: now,
        last_boost_tick: now,
    }
}

/// A known record refreshed with a beacon's name and kind.
pub open spec fn spec_refreshed(f: FriendRecord, b: PetBeacon) -> FriendRecord {
    FriendRecord { pet_kind: b.pet_kind, name: b.name, name_len: b.name_len, ..f }
}

/// The effect of beacon `b` received at tick `now` on a badge with id `local`:
/// `old` becomes `new` with outcome `o`.
pub open spec fn spec_on_beacon(
    old: FriendsList,
    b: PetBeacon,
    local: [u8; 2],
    now: u32,
    new: FriendsList,
    o: BeaconOutcome,
) -> bool {
    if b.device_id == local {
        o == BeaconOutcome::Ignored && new == old
    } else if spec_has_match(old.known(), b.device_id) {
        let i = spec_first_match(old.known(), b.device_id);
        let f = old.friends@[i];
        &&& new.count == old.count
        &&& if spec_saturating_sub(now, f.last_boost_tick) < FRIEND_BOOST_COOLDOWN_TICKS {
            o == BeaconOutcome::Refreshed && new.friends@ == old.friends@.update(
                i,
                spec_refreshed(f, b),
            )
        } else {
            o == BeaconOutcome::Reunion && new.friends@ == old.friends@.update(
                i,
                FriendRecord { last_boost_tick: now, ..spec_refreshed(f, b) },
            )
        }
    } else {
        &&& o == BeaconOutcome::NewFriend
        &&& new.friends@ == spec_pushed(old.friends@, spec_new_record(b, now))
        &&& new.count == if old.count < FRIENDS_MAX { old.count + 1 } else { FRIENDS_MAX as int }
    }
}

/// The bytes of a sequence of records, one after the other.
pub open spec fn spec_records_bytes(s: Seq<FriendRecord>) -> Seq<u8>
    decreases s.len(),
{
    if s.len() == 0 {
        Seq::empty()
    } else {
        spec_records_bytes(s.drop_last()) + spec_record_bytes(s.last())
    }
}

/// The stored bytes of a list: the count, the known records, then zeros up
/// to the full size.
pub open spec fn spec_list_bytes(l: FriendsList) -> Seq<u8> {
    seq![l.count] + spec_records_bytes(l.known()) + Seq::new(
        (FRIENDS_SAVE_SIZE - 1 - FRIEND_RECORD_SIZE * l.count) as nat,
        |i: int| 0u8,
    )
}

/// `l` is the list decoded from `s`: the count is the first byte capped at
/// 20 (0 for no bytes); each counted slot whose 24 bytes are all present is
/// decoded from them; every other slot is empty.
pub open spec fn spec_list_fields(s: Seq<u8>, l: FriendsList) -> bool {
    &&& l.count == if s.len() == 0 {
        0
    } else if s[0] < FRIENDS_MAX {
        s[0] as int
    } else {
        FRIENDS_MAX as int
    }
    &&& forall|i: int|
        0 <= i < FRIENDS_MAX ==> {
            let off = 1 + FRIEND_RECORD_SIZE * i;
            if i < l.count && off + FRIEND_RECORD_SIZE <= s.len() {
                spec_record_fields(s.subrange(off, off + FRIEND_RECORD_SIZE), #[trigger] l.friends@[i])
            } else {
                spec_is_empty_record(l.friends@[i])
            }
        }
}

/// Two device ids are equal exactly when both bytes are.
fn ids_equal(a: [u8; 2], b: [u8; 2]) -> (r: bool)
    ensures
        r == (a == b),
{
    let r = a[0] == b[0] && a[1] == b[1];
    if r {
        assert(a =~= b);
    }
    r
}

impl FriendsList {
    /// The count never exceeds the capacity.
    pub open spec fn wf(&self) -> bool {
        self.count <= FRIENDS_MAX
    }

    /// The known friends, newest first.
    pub open spec fn known(&self) -> Seq<FriendRecord> {
        self.friends@.take(self.count as int)
    }

    /// An empty list.
    pub fn new() -> (l: FriendsList)
        ensures
            l.count == 0,
            l.wf(),
            forall|i: int| 0 <= i < FRIENDS_MAX ==> spec_is_empty_record(#[trigger] l.friends@[i]),
    {
        let e = FriendRecord::empty();
        let l = FriendsList { friends: [e; 20], count: 0 };
        l
    }

    /// Position of the first known friend with this device id.
    pub fn find(&self, device_id: [u8; 2]) -> (r: Option<usize>)
        requires
            self.wf(),
        ensures
            r matches Some(i) ==> spec_is_first_match(self.known(), device_id, i as int),
            r is None <==> !spec_has_match(self.known(), device_id),
    {
        let n = self.count as usize;
        let mut i: usize = 0;
        while i < n
            invariant
                i <= n,
                n == self.count,
                n <= FRIENDS_MAX,
                forall|j: int| 0 <= j < i ==> self.friends@[j].device_id != device_id,
            decreases n - i,
        {
            if ids_equal(self.friends[i].device_id, device_id) {
                assert(self.known()[i as int] == self.friends@[i as int]);
                return Some(i);
            }
            i = i + 1;
        }
        assert forall|j: int| 0 <= j < self.known().len() implies self.known()[j].device_id
            != device_id by {
            assert(self.known()[j] == self.friends@[j]);
        }
        None
    }

    /// The first known friend with this device id, for in-place update.
    pub fn find_mut(&mut self, device_id: [u8; 2]) -> (r: Option<&mut FriendRecord>)
        requires
            old(self).wf(),
        ensures
            r is None <==> !spec_has_match(old(self).known(), device_id),
            r is None ==> *final(self) == *old(self),
            r matches Some(f) ==> {
                let i = spec_first_match(old(self).known(), device_id);
                &&& spec_is_first_match(old(self).known(), device_id, i)
                &&& *f == old(self).friends@[i]
                &&& final(self).count == old(self).count
                &&& final(self).friends@ == old(self).friends@.update(i, *final(f))
            },
    {
        match self.find(device_id) {
            Some(i) => {
                assert(spec_is_first_match(old(self).known(), device_id, i as int));
                Some(&mut self.friends[i])
            },
            None => None,
        }
    }

    /// The known friend at `index` (0 = the friend added last; a reunion
    /// updates its record in place).
    pub fn get(&self, index: usize) -> (r: Option<FriendRecord>)
        requires
            self.wf(),
        ensures
            index < self.count ==> r == Some(self.friends@[index as int]),
            index >= self.count ==> r is None,
    {
        if index < self.count as usize {
            Some(self.friends[index])
        } else {
            None
        }
    }

    /// Add a newly-met friend, newest first, dropping the oldest if full.
    pub fn push(&mut self, record: FriendRecord)
        requires
            old(self).wf(),
        ensures
            final(self).wf(),
            final(self).friends@ == spec_pushed(old(self).friends@, record),
            final(self).count == if old(self).count < FRIENDS_MAX {
                old(self).count + 1
            } else {
                FRIENDS_MAX as int
            },
    {
        let ghost orig = self.friends@;
        let mut i: usize = FRIENDS_MAX - 1;
        while i >= 1
            invariant
                0 <= i < FRIENDS_MAX,
                self.count == old(self).count,
                forall|j: int| 0 <= j <= i ==> self.friends@[j] == orig[j],
                forall|j: int| i < j < FRIENDS_MAX ==> self.friends@[j] == orig[j - 1],
            decreases i,
        {
            self.friends[i] = self.friends[i - 1];
            i = i - 1;
        }
        self.friends[0] = record;
        if (self.count as usize) < FRIENDS_MAX {
            self.count += 1;
        }
        assert(self.friends@ =~= spec_pushed(orig, record));
    }

    /// The 481 stored bytes of the list: the count, the known records in
    /// order, zeros for the unused slots.
    pub fn to_bytes(&self) -> (buf: [u8; FRIENDS_SAVE_SIZE])
        requires
            self.wf(),
        ensures
            buf@ == spec_list_bytes(*self),
    {
        let mut buf = [0u8; 481];
        buf[0] = self.count;
        let n = self.count as usize;
        let mut i: usize = 0;
        proof {
            assert(self.known().take(0) =~= Seq::<FriendRecord>::empty());
            assert(buf@ =~= seq![self.count] + spec_records_bytes(self.known().take(0)) + Seq::new(
                480,
                |k: int| 0u8,
            ));
        }
        while i < n
            invariant
                i <= n,
                n == self.count,
                n <= FRIENDS_MAX,
                buf@ == seq![self.count] + spec_records_bytes(self.known().take(i as int)) + Seq::new(
                    (480 - 24 * i) as nat,
                    |k: int| 0u8,
                ),
            decreases n - i,
        {
            let rec = self.friends[i].to_bytes();
            let ghost before = buf@;
            proof {
                lemma_records_bytes_len(self.known().take(i as int));
            }
            put_bytes(&mut buf, 1 + i * 24, rec.as_slice());
            proof {
                let t1 = self.known().take(i + 1);
                assert(t1.drop_last() =~= self.known().take(i as int));
                assert(t1.last() == self.friends@[i as int]);
                assert(before.subrange(0, 1 + i * 24) =~= seq![self.count] + spec_records_bytes(
                    self.known().take(i as int),
                ));
                assert(before.subrange(1 + i * 24 + 24, 481) =~= Seq::new(
                    (480 - 24 * (i + 1)) as nat,
                    |k: int| 0u8,
                ));
                assert(buf@ =~= seq![self.count] + spec_records_bytes(t1) + Seq::new(
                    (480 - 24 * (i + 1)) as nat,
                    |k: int| 0u8,
                ));
            }
            i = i + 1;
        }
        assert(self.known().take(n as int) =~= self.known());
        buf
    }

    /// Decode a list from stored bytes (possibly short): the count is the
    /// first byte capped at 20, and each counted record whose 24 bytes are
    /// all present is decoded; every other slot stays empty.
    pub fn from_bytes(buf: &[u8]) -> (l: FriendsList)
        ensures
            l.wf(),
            spec_list_fields(buf@, l),
    {
        let mut list = Self::new();
        let len = buf.len();
        if len == 0 {
            return list;
        }
        let c: u8 = if buf[0] < FRIENDS_MAX as u8 {
            buf[0]
        } else {
            FRIENDS_MAX as u8
        };
        list.count = c;
        let mut i: usize = 0;
        while i < c as usize
            invariant
                i <= c,
                c <= FRIENDS_MAX,
                len == buf@.len(),
                len > 0,
                list.count == c,
                c == if buf@[0] < FRIENDS_MAX { buf@[0] as int } else { FRIENDS_MAX as int },
                forall|j: int|
                    0 <= j < FRIENDS_MAX ==> {
                        let off = 1 + FRIEND_RECORD_SIZE * j;
                        if j < i && off + FRIEND_RECORD_SIZE <= len {
                            spec_record_fields(
                                buf@.subrange(off, off + FRIEND_RECORD_SIZE),
                                #[trigger] list.friends@[j],
                            )
                        } else {
                            spec_is_empty_record(list.friends@[j])
                        }
                    },
            decreases c - i,
        {
            let offset = 1 + i * FRIEND_RECORD_SIZE;
            if offset + FRIEND_RECORD_SIZE <= len {
                let rec = FriendRecord::from_bytes(
                    vstd::slice::slice_subrange(buf, offset, offset + FRIEND_RECORD_SIZE),
                );
                list.friends[i] = rec;
            }
            i = i + 1;
        }
        list
    }

    /// Handle a decoded beacon received at tick `now` on the badge with id
    /// `local_id`: ignore our own echo; refresh a known friend's name and
    /// kind, boosting again only once the cooldown has passed; add a new
    /// friend at the front.
    pub fn on_beacon(&mut self, b: &PetBeacon, local_id: [u8; 2], now: u32) -> (o: BeaconOutcome)
        requires
            old(self).wf(),
        ensures
            final(self).wf(),
            spec_on_beacon(*old(self), *b, local_id, now, *final(self), o),
    {
        if ids_equal(b.device_id, local_id) {
            return BeaconOutcome::Ignored;
        }
        match self.find(b.device_id) {
            Some(i) => {
                proof {
                    let k = old(self).known();
                    let j = spec_first_match(k, b.device_id);
                    assert(spec_is_first_match(k, b.device_id, j));
                    assert(j == i);
                }
                let mut f = self.friends[i];
                f.name = b.name;
                f.name_len = b.name_len;
                f.pet_kind = b.pet_kind;
                let elapsed = if now >= f.last_boost_tick {
                    now - f.last_boost_tick
                } else {
                    0
                };
                let o = if elapsed < FRIEND_BOOST_COOLDOWN_TICKS {
                    BeaconOutcome::Refreshed
                } else {
                    f.last_boost_tick = now;
                    BeaconOutcome::Reunion
                };
                self.friends[i] = f;
                o
            },
            None => {
                self.push(
                    FriendRecord {
                        device_id: b.device_id,
                        pet_kind: b.pet_kind,
                        name: b.name,
                        name_len: b.name_len,
                        first_seen_tick: now,
                        last_boost_tick: now,
                    },
                );
                BeaconOutcome::NewFriend
            },
        }
    }

    /// Handle a beacon payload received on the SHDW channel: decode it
    /// (too short: ignored) and apply [`FriendsList::on_beacon`].
    pub fn on_pet_beacon(&mut self, data: &[u8], local_id: [u8; 2], now: u32) -> (o:
        BeaconOutcome)
        requires
            old(self).wf(),
        ensures
            final(self).wf(),
            data@.len() < BEACON_SIZE ==> o == BeaconOutcome::Ignored && *final(self) == *old(
                self,
            ),
            data@.len() >= BEACON_SIZE ==> exists|b: PetBeacon|
                spec_beacon_fields(data@, b) && spec_on_beacon(
                    *old(self),
                    b,
                    local_id,
                    now,
                    *final(self),
                    o,
                ),
    {
        match PetBeacon::from_bytes(data) {
            None => BeaconOutcome::Ignored,
            Some(b) => self.on_beacon(&b, local_id, now),
        }
    }
}

/// A sequence of records takes 24 bytes per record.
pub proof fn lemma_records_bytes_len(s: Seq<FriendRecord>)
    ensures
        spec_records_bytes(s).len() == FRIEND_RECORD_SIZE * s.len(),
    decreases s.len(),
{
    if s.len() > 0 {
        lemma_records_bytes_len(s.drop_last());
        lemma_record_bytes_len(s.last());
    }
}

/// A record takes 24 bytes.
pub proof fn lemma_record_bytes_len(r: FriendRecord)
    ensures
        spec_record_bytes(r).len() == FRIEND_RECORD_SIZE,
{
    lemma_le_encode_len(r.first_seen_tick as nat, 4);
    lemma_le_encode_len(r.last_boost_tick as nat, 4);
}

/// Record `i` of a sequence sits at bytes `24 i .. 24 i + 24`.
pub proof fn lemma_records_bytes_slot(s: Seq<FriendRecord>, i: int)
    requires
        0 <= i < s.len(),
    ensures
        spec_records_bytes(s).subrange(FRIEND_RECORD_SIZE * i, FRIEND_RECORD_SIZE * i + 24)
            == spec_record_bytes(s[i]),
    decreases s.len(),
{
    let d = s.drop_last();
    lemma_records_bytes_len(d);
    lemma_record_bytes_len(s.last());
    if i == s.len() - 1 {
        assert(spec_records_bytes(s).subrange(FRIEND_RECORD_SIZE * i, FRIEND_RECORD_SIZE * i + 24)
            =~= spec_record_bytes(s.last()));
    } else {
        lemma_records_bytes_slot(d, i);
        assert(spec_records_bytes(s).subrange(FRIEND_RECORD_SIZE * i, FRIEND_RECORD_SIZE * i + 24)
            =~= spec_records_bytes(d).subrange(FRIEND_RECORD_SIZE * i, FRIEND_RECORD_SIZE * i + 24));
    }
}

/// Storing a well-formed list and loading it back gives the same count and
/// the same known friends, in the same order.
pub proof fn lemma_list_round_trip(l: FriendsList, d: FriendsList)
    requires
        l.wf(),
        spec_list_fields(spec_list_bytes(l), d),
    ensures
        d.count == l.count,
        d.known() == l.known(),
{
    let s = spec_list_bytes(l);
    let k = l.known();
    lemma_records_bytes_len(k);
    assert(s.len() == FRIENDS_SAVE_SIZE);
    assert(s[0] == l.count);
    assert forall|i: int| 0 <= i < l.count implies d.friends@[i] == l.friends@[i] by {
        let off = 1 + FRIEND_RECORD_SIZE * i;
        lemma_records_bytes_slot(k, i);
        assert(s.subrange(off, off + 24) =~= spec_records_bytes(k).subrange(
            FRIEND_RECORD_SIZE * i,
            FRIEND_RECORD_SIZE * i + 24,
        ));
        assert(spec_record_fields(s.subrange(off, off + 24), d.friends@[i]));
        lemma_record_round_trip(l.friends@[i], d.friends@[i]);
    }
    assert(d.known() =~= l.known());
}

/// After a beacon from another device, that device is a known friend whose
/// record carries the beacon's name and kind, and the list stays within
/// capacity without losing count.
pub proof fn lemma_beacon_makes_friend(
    old: FriendsList,
    b: PetBeacon,
    local: [u8; 2],
    now: u32,
    new: FriendsList,
    o: BeaconOutcome,
)
    requires
        old.wf(),
        new.wf(),
        b.device_id != local,
        spec_on_beacon(old, b, local, now, new, o),
    ensures
        o != BeaconOutcome::Ignored,
        new.count >= old.count,
        new.count >= 1,
        exists|i: int|
            0 <= i < new.count && #[trigger] new.friends@[i].device_id == b.device_id
                && new.friends@[i].name == b.name && new.friends@[i].pet_kind == b.pet_kind
                && new.friends@[i].name_len == b.name_len,
{
    if spec_has_match(old.known(), b.device_id) {
        lemma_first_match_exists(old.known(), b.device_id);
        let i = spec_first_match(old.known(), b.device_id);
        assert(new.friends@[i].device_id == b.device_id && new.friends@[i].name == b.name);
    } else {
        assert(new.friends@[0] == spec_new_record(b, now));
        assert(new.friends@[0].device_id == b.device_id);
    }
}

/// When some position holds a device, there is a first such position.
pub proof fn lemma_first_match_exists(s: Seq<FriendRecord>, id: [u8; 2])
    requires
        spec_has_match(s, id),
    ensures
        spec_is_first_match(s, id, spec_first_match(s, id)),
    decreases s.len(),
{
    if s[0].device_id == id {
        assert(spec_is_first_match(s, id, 0));
    } else {
        let t = s.drop_first();
        let w = choose|i: int| 0 <= i < s.len() && s[i].device_id == id;
        assert(t[w - 1].device_id == id);
        lemma_first_match_exists(t, id);
        let j = spec_first_match(t, id);
        assert forall|k: int| 0 <= k < j + 1 implies s[k].device_id != id by {
            if k > 0 {
                assert(s[k] == t[k - 1]);
            }
        }
        assert(s[j + 1] == t[j]);
        assert(spec_is_first_match(s, id, j + 1));
    }
}

/// A known friend seen again gets the reunion boost exactly when at least
/// the cooldown has elapsed since its last boost (counted saturating); a
/// brand-new friend always gets the big boost.
pub proof fn lemma_cooldown_classification(
    old: FriendsList,
    b: PetBeacon,
    local: [u8; 2],
    now: u32,
    new: FriendsList,
    o: BeaconOutcome,
)
    requires
        old.wf(),
        b.device_id != local,
        spec_on_beacon(old, b, local, now, new, o),
    ensures
        spec_has_match(old.known(), b.device_id) ==> {
            let f = old.friends@[spec_first_match(old.known(), b.device_id)];
            (o == BeaconOutcome::Reunion) == (spec_saturating_sub(now, f.last_boost_tick)
                >= FRIEND_BOOST_COOLDOWN_TICKS)
        },
        !spec_has_match(old.known(), b.device_id) ==> o == BeaconOutcome::NewFriend,
{
}

/// Pushing keeps the list newest first: the new record leads, followed by
/// the previously known friends, the oldest dropped when the list was full.
pub proof fn lemma_push_known(old: FriendsList, record: FriendRecord, new: FriendsList)
    requires
        old.wf(),
        new.friends@ == spec_pushed(old.friends@, record),
        new.count == if old.count < FRIENDS_MAX { old.count + 1 } else { FRIENDS_MAX as int },
    ensures
        new.known() == (seq![record] + old.known()).take(new.count as int),
{
    assert(new.known() =~= (seq![record] + old.known()).take(new.count as int));
}

} // verus!
