//! External QSPI flash: key hashing, BLE bond records and the bond index,
//! and the alignment of flash writes.
//!
//! Bonds live in a key-value store on the flash, keyed by an FNV-1a hash of
//! the peer address.  A well-known index key lists the peer addresses of
//! all stored bonds, six bytes each.  The QSPI DMA engine needs 4-byte
//! aligned addresses and lengths, so every write is staged: the bytes
//! before the target address in its first word are kept, and the tail is
//! padded with the erased-flash value 0xFF.
use vstd::prelude::*;
use vstd::string::StringSliceAdditionalSpecFns;
use crate::codec::{get_le, le_decode, le_encode, lemma_le_decode_bound, lemma_le_decode_encode, lemma_le_encode_len, lemma_pow256_values, pow256, put_bytes, put_le};

verus! {

/// Key-value region size = one erase sector of the flash (4 KiB).
pub const REGION_SIZE: usize = 4096;
/// Number of regions dedicated to bond storage (32 KiB total).
pub const NUM_REGIONS: usize = 8;
/// Byte offset in QSPI address space where bond storage begins.
pub const FLASH_BASE: u32 = 0;
/// Capacity of the bond index.
pub const MAX_BONDS: usize = 4;
/// Size of a stored bond record.
pub const BOND_SIZE: usize = 42;
/// Largest staged write.
pub const STAGING_SIZE: usize = 256;

pub const FNV_OFFSET: u64 = 14_695_981_039_346_656_037;
pub const FNV_PRIME: u64 = 1_099_511_628_211;

/// FNV-1a 64-bit: starting from the offset basis, each byte is xor-ed in
/// and the state multiplied by the prime, wrapping at 2^64.
pub open spec fn spec_fnv1a(s: Seq<u8>) -> u64
    decreases s.len(),
{
    if s.len() == 0 {
        FNV_OFFSET
    } else {
        (((spec_fnv1a(s.drop_last()) ^ (s.last() as u64)) as nat * FNV_PRIME as nat)
            % 0x1_0000_0000_0000_0000) as u64
    }
}

/// Deterministic FNV-1a 64-bit hash.
pub fn fnv1a(data: &[u8]) -> (h: u64)
    ensures
        h == spec_fnv1a(data@),
{
    let mut h: u64 = FNV_OFFSET;
    let n = data.len();
    let mut i: usize = 0;
    while i < n
        invariant
            i <= n,
            n == data@.len(),
            h == spec_fnv1a(data@.take(i as int)),
        decreases n - i,
    {
        proof {
            assert(data@.take(i + 1).drop_last() =~= data@.take(i as int));
        }
        h ^= data[i] as u64;
        h = h.wrapping_mul(FNV_PRIME);
        i += 1;
    }
    assert(data@.take(n as int) =~= data@);
    h
}

/// The key of the bond of a peer address.
pub fn bond_key(addr: &[u8; 6]) -> (k: u64)
    ensures
        k == spec_fnv1a(addr@),
{
    fnv1a(addr.as_slice())
}

/// The main key that seeds the store's hash table.
pub fn main_key() -> (k: u64)
    ensures
        k == spec_fnv1a("cyberaegg_bonds_v1".spec_bytes()),
{
    fnv1a("cyberaegg_bonds_v1".as_bytes())
}

/// The well-known key of the bond index.
pub fn index_key() -> (k: u64)
    ensures
        k == spec_fnv1a("bond_index".spec_bytes()),
{
    fnv1a("bond_index".as_bytes())
}

/// The flash address of region `region_number`.
pub fn region_address(region_number: usize) -> (a: u32)
    requires
        region_number * REGION_SIZE <= usize::MAX,
    ensures
        a == (FLASH_BASE + ((region_number * REGION_SIZE) as u32)) as u32,
{
    FLASH_BASE + (region_number * REGION_SIZE) as u32
}

/// How a write of `len` bytes at store offset `address` is aligned.
#[derive(Clone, Copy, PartialEq, Eq, Structural, Debug)]
pub struct WritePlan {
    /// The address rounded down to a 4-byte boundary.
    pub aligned_addr: u32,
    /// Bytes between the aligned address and the target (0–3).
    pub prefix_len: usize,
    /// `prefix_len + len` rounded up to a multiple of 4.
    pub padded_len: usize,
}

/// The flash address of store offset `address` (wrapping to 32 bits).
pub open spec fn spec_flash_addr(address: usize) -> u32 {
    (FLASH_BASE + (address as u32)) as u32
}

/// Align a write of `len` bytes at store offset `address`.  The staged
/// write must fit the 256-byte staging buffer.
pub fn write_plan(address: usize, len: usize) -> (p: WritePlan)
    requires
        spec_flash_addr(address) % 4 + len <= STAGING_SIZE,
    ensures
        p.aligned_addr == spec_flash_addr(address) - spec_flash_addr(address) % 4,
        p.prefix_len == spec_flash_addr(address) % 4,
        p.padded_len == (p.prefix_len + len + 3) / 4 * 4,
        p.padded_len <= STAGING_SIZE,
{
    let addr: u32 = FLASH_BASE + address as u32;
    let aligned_addr = addr & !3u32;
    assert(addr & !3u32 == addr - addr % 4) by (bit_vector);
    let prefix_len = (addr - aligned_addr) as usize;
    let total = prefix_len + len;
    assert(total <= 256);
    let t3: usize = total + 3;
    let padded_len = t3 & !3usize;
    assert(t3 & !3usize == t3 - t3 % 4) by (bit_vector);
    WritePlan { aligned_addr, prefix_len, padded_len }
}

/// The staged bytes of a write: the first `prefix_len` bytes of the flash
/// word at the aligned address (kept as they are), the data, then 0xFF up
/// to `padded_len`.
pub fn stage_write(prefix_word: &[u8; 4], prefix_len: usize, buf: &[u8], padded_len: usize) -> (s:
    Vec<u8>)
    requires
        prefix_len < 4,
        prefix_len + buf@.len() <= padded_len,
    ensures
        s@ == prefix_word@.take(prefix_len as int) + buf@ + Seq::new(
            (padded_len - prefix_len - buf@.len()) as nat,
            |i: int| 0xFFu8,
        ),
{
    let mut s: Vec<u8> = Vec::new();
    let mut k: usize = 0;
    while k < prefix_len
        invariant
            k <= prefix_len < 4,
            s@ == prefix_word@.take(k as int),
        decreases prefix_len - k,
    {
        s.push(prefix_word[k]);
        assert(s@ =~= prefix_word@.take(k + 1));
        k += 1;
    }
    let n = buf.len();
    let mut j: usize = 0;
    while j < n
        invariant
            j <= n,
            n == buf@.len(),
            s@ == prefix_word@.take(prefix_len as int) + buf@.take(j as int),
        decreases n - j,
    {
        s.push(buf[j]);
        assert(s@ =~= prefix_word@.take(prefix_len as int) + buf@.take(j + 1));
        j += 1;
    }
    assert(buf@.take(n as int) =~= buf@);
    let total = prefix_len + n;
    let mut t = total;
    while t < padded_len
        invariant
            total <= t <= padded_len,
            total == prefix_len + buf@.len(),
            s@ == prefix_word@.take(prefix_len as int) + buf@ + Seq::new(
                (t - total) as nat,
                |i: int| 0xFFu8,
            ),
        decreases padded_len - t,
    {
        s.push(0xFF);
        assert(s@ =~= prefix_word@.take(prefix_len as int) + buf@ + Seq::new(
            (t + 1 - total) as nat,
            |i: int| 0xFFu8,
        ));
        t += 1;
    }
    s
}

/// Security level of a bond.
#[derive(Clone, Copy, PartialEq, Eq, Structural, Debug)]
pub enum SecurityLevel {
    NoEncryption,
    Encrypted,
    EncryptedAuthenticated,
}

/// The stored byte of a security level.
pub open spec fn spec_level_byte(l: SecurityLevel) -> u8 {
    match l {
        SecurityLevel::NoEncryption => 0,
        SecurityLevel::Encrypted => 1,
        SecurityLevel::EncryptedAuthenticated => 2,
    }
}

/// The security level of a stored byte; unknown bytes read as no encryption.
pub open spec fn spec_level_from_byte(b: u8) -> SecurityLevel {
    if b == 1 {
        SecurityLevel::Encrypted
    } else if b == 2 {
        SecurityLevel::EncryptedAuthenticated
    } else {
        SecurityLevel::NoEncryption
    }
}

pub fn security_level_to_u8(sl: &SecurityLevel) -> (b: u8)
    ensures
        b == spec_level_byte(*sl),
{
    match sl {
        SecurityLevel::NoEncryption => 0,
        SecurityLevel::Encrypted => 1,
        SecurityLevel::EncryptedAuthenticated => 2,
    }
}

pub fn security_level_from_u8(b: u8) -> (sl: SecurityLevel)
    ensures
        sl == spec_level_from_byte(b),
{
    match b {
        1 => SecurityLevel::Encrypted,
        2 => SecurityLevel::EncryptedAuthenticated,
        _ => SecurityLevel::NoEncryption,
    }
}

/// A BLE bond: long-term key, peer identity (address and optional identity
/// resolving key), bonded flag and security level.
#[derive(Clone, Copy, PartialEq, Eq, Debug)]
pub struct Bond {
    pub ltk: u128,
    pub bd_addr: [u8; 6],
    pub irk: Option<u128>,
    pub is_bonded: bool,
    pub security_level: SecurityLevel,
}

/// The 42 stored bytes of a bond:
///
/// ```text
///  [0..16]  LTK (little-endian)
///  [16..22] peer address
///  [22]     IRK present (0 or 1)
///  [23..39] IRK (little-endian, zero if absent)
///  [39]     bonded (0 or 1)
///  [40]     security level
///  [41]     reserved (0)
/// ```
pub open spec fn spec_bond_bytes(b: Bond) -> Seq<u8> {
    le_encode(b.ltk as nat, 16) + b.bd_addr@ + match b.irk {
        Some(k) => seq![1u8] + le_encode(k as nat, 16),
        None => seq![0u8] + Seq::new(16, |i: int| 0u8),
    } + seq![if b.is_bonded { 1u8 } else { 0u8 }, spec_level_byte(b.security_level), 0u8]
}

/// `b` is the bond that the 42 bytes `s` encode.
pub open spec fn spec_bond_fields(s: Seq<u8>, b: Bond) -> bool {
    &&& b.ltk == le_decode(s.subrange(0, 16))
    &&& b.bd_addr@ == s.subrange(16, 22)
    &&& b.irk == if s[22] != 0 {
        Some(le_decode(s.subrange(23, 39)) as u128)
    } else {
        None
    }
    &&& b.is_bonded == (s[39] != 0)
    &&& b.security_level == spec_level_from_byte(s[40])
}

/// Encode a bond into its stored layout.
pub fn serialize_bond(info: &Bond) -> (buf: [u8; BOND_SIZE])
    ensures
        buf@ == spec_bond_bytes(*info),
{
    let mut buf = [0u8; 42];
    let ghost b0 = buf@;
    put_le(&mut buf, 0, info.ltk, 16);
    let ghost b1 = buf@;
    put_bytes(&mut buf, 16, info.bd_addr.as_slice());
    let ghost b2 = buf@;
    if let Some(irk) = info.irk {
        buf[22] = 1;
        put_le(&mut buf, 23, irk, 16);
    }
    let ghost b3 = buf@;
    buf[39] = if info.is_bonded {
        1
    } else {
        0
    };
    buf[40] = security_level_to_u8(&info.security_level);
    proof {
        lemma_le_encode_len(info.ltk as nat, 16);
        assert(b1.subrange(0, 16) =~= le_encode(info.ltk as nat, 16));
        assert(b2.subrange(0, 22) =~= b1.subrange(0, 16) + info.bd_addr@);
        match info.irk {
            Some(k) => {
                lemma_le_encode_len(k as nat, 16);
                assert(b3.subrange(22, 39) =~= seq![1u8] + le_encode(k as nat, 16));
            },
            None => {
                assert(b3.subrange(22, 39) =~= seq![0u8] + Seq::new(16, |i: int| 0u8));
            },
        }
        assert(buf@ =~= b3.subrange(0, 22) + b3.subrange(22, 39) + seq![
            if info.is_bonded { 1u8 } else { 0u8 },
            spec_level_byte(info.security_level),
            0u8,
        ]);
        assert(b3.subrange(0, 22) =~= b2.subrange(0, 22));
        assert(buf@ =~= spec_bond_bytes(*info));
    }
    buf
}

/// Decode a bond from its stored layout.
pub fn deserialize_bond(buf: &[u8; BOND_SIZE]) -> (b: Bond)
    ensures
        spec_bond_fields(buf@, b),
{
    let s = buf.as_slice();
    let ltk = get_le(s, 0, 16);
    let mut addr = [0u8; 6];
    let mut k: usize = 0;
    while k < 6
        invariant
            k <= 6,
            s@ == buf@,
            forall|i: int| 0 <= i < k ==> addr@[i] == buf@[16 + i],
        decreases 6 - k,
    {
        addr[k] = buf[16 + k];
        k += 1;
    }
    assert(addr@ =~= buf@.subrange(16, 22));
    let irk = if buf[22] != 0 {
        let key = get_le(s, 23, 16);
        Some(key)
    } else {
        None
    };
    Bond {
        ltk,
        bd_addr: addr,
        irk,
        is_bonded: buf[39] != 0,
        security_level: security_level_from_u8(buf[40]),
    }
}

/// Storing a bond and reading it back gives the same bond.
pub proof fn lemma_bond_round_trip(b: Bond, d: Bond)
    requires
        spec_bond_fields(spec_bond_bytes(b), d),
    ensures
        d == b,
{
    let s = spec_bond_bytes(b);
    lemma_pow256_values();
    lemma_le_encode_len(b.ltk as nat, 16);
    assert(s.subrange(0, 16) =~= le_encode(b.ltk as nat, 16));
    lemma_le_decode_encode(b.ltk as nat, 16);
    assert(s.subrange(16, 22) =~= b.bd_addr@);
    assert(d.bd_addr =~= b.bd_addr);
    match b.irk {
        Some(k) => {
            lemma_le_encode_len(k as nat, 16);
            assert(s.subrange(23, 39) =~= le_encode(k as nat, 16));
            lemma_le_decode_encode(k as nat, 16);
        },
        None => {},
    }
}

/// Security levels survive their byte encoding.
pub proof fn lemma_level_round_trip(l: SecurityLevel)
    ensures
        spec_level_from_byte(spec_level_byte(l)) == l,
{
}

/// The peer addresses listed in the first `n` bytes of an index, six bytes
/// each (a trailing partial address is ignored).
pub open spec fn spec_index_addrs(index: Seq<u8>, n: int) -> Seq<Seq<u8>> {
    Seq::new((n / 6) as nat, |i: int| index.subrange(6 * i, 6 * i + 6))
}

/// Split the first `n` bytes of an index into peer addresses.
pub fn parse_index(index: &[u8], n: usize) -> (addrs: Vec<[u8; 6]>)
    requires
        n <= index@.len(),
    ensures
        addrs@.len() == n / 6,
        forall|i: int| 0 <= i < n / 6 ==> (#[trigger] addrs@[i])@ == index@.subrange(6 * i, 6 * i + 6),
{
    let mut addrs: Vec<[u8; 6]> = Vec::new();
    let count = n / 6;
    let mut c: usize = 0;
    while c < count
        invariant
            c <= count,
            count == n / 6,
            n <= index@.len(),
            addrs@.len() == c,
            forall|i: int| 0 <= i < c ==> (#[trigger] addrs@[i])@ == index@.subrange(6 * i, 6 * i + 6),
        decreases count - c,
    {
        let mut addr = [0u8; 6];
        let mut k: usize = 0;
        while k < 6
            invariant
                k <= 6,
                c < count,
                count == n / 6,
                n <= index@.len(),
                forall|i: int| 0 <= i < k ==> addr@[i] == index@[6 * c + i],
            decreases 6 - k,
        {
            addr[k] = index[6 * c + k];
            k += 1;
        }
        assert(addr@ =~= index@.subrange(6 * c as int, 6 * c + 6));
        addrs.push(addr);
        c += 1;
    }
    addrs
}

/// The addresses of `addrs` whose flag in `present` is set, in order.
pub open spec fn spec_kept(addrs: Seq<[u8; 6]>, present: Seq<bool>) -> Seq<[u8; 6]>
    decreases addrs.len(),
{
    if addrs.len() == 0 {
        Seq::empty()
    } else if present[addrs.len() - 1] {
        spec_kept(addrs.drop_last(), present).push(addrs.last())
    } else {
        spec_kept(addrs.drop_last(), present)
    }
}

/// The index bytes of a list of addresses: the addresses one after the other.
pub open spec fn spec_flatten(addrs: Seq<[u8; 6]>) -> Seq<u8>
    decreases addrs.len(),
{
    if addrs.len() == 0 {
        Seq::empty()
    } else {
        spec_flatten(addrs.drop_last()) + addrs.last()@
    }
}

/// The addresses of `addrs` whose flag in `present` is set, in order.
pub fn kept_addrs(addrs: &Vec<[u8; 6]>, present: &Vec<bool>) -> (kept: Vec<[u8; 6]>)
    requires
        addrs@.len() == present@.len(),
    ensures
        kept@ == spec_kept(addrs@, present@),
{
    let mut kept: Vec<[u8; 6]> = Vec::new();
    let n = addrs.len();
    let mut i: usize = 0;
    while i < n
        invariant
            i <= n,
            n == addrs@.len(),
            n == present@.len(),
            kept@ == spec_kept(addrs@.take(i as int), present@),
        decreases n - i,
    {
        proof {
            assert(addrs@.take(i + 1).drop_last() =~= addrs@.take(i as int));
        }
        if present[i] {
            kept.push(addrs[i]);
        }
        i += 1;
    }
    assert(addrs@.take(n as int) =~= addrs@);
    kept
}

/// The index bytes of a list of addresses.
pub fn flatten_addrs(addrs: &Vec<[u8; 6]>) -> (flat: Vec<u8>)
    ensures
        flat@ == spec_flatten(addrs@),
{
    let mut flat: Vec<u8> = Vec::new();
    let n = addrs.len();
    let mut i: usize = 0;
    while i < n
        invariant
            i <= n,
            n == addrs@.len(),
            flat@ == spec_flatten(addrs@.take(i as int)),
        decreases n - i,
    {
        let ghost before = flat@;
        let a = addrs[i];
        let mut k: usize = 0;
        while k < 6
            invariant
                k <= 6,
                flat@ == before + a@.take(k as int),
            decreases 6 - k,
        {
            flat.push(a[k]);
            assert(flat@ =~= before + a@.take(k + 1));
            k += 1;
        }
        proof {
            assert(a@.take(6) =~= a@);
            assert(addrs@.take(i + 1).drop_last() =~= addrs@.take(i as int));
            assert(addrs@.take(i + 1).last() == a);
        }
        i += 1;
    }
    assert(addrs@.take(n as int) =~= addrs@);
    flat
}

/// The rebuilt index: the addresses still present, six bytes each.
pub fn rebuild_index(addrs: &Vec<[u8; 6]>, present: &Vec<bool>) -> (flat: Vec<u8>)
    requires
        addrs@.len() == present@.len(),
    ensures
        flat@ == spec_flatten(spec_kept(addrs@, present@)),
{
    let kept = kept_addrs(addrs, present);
    flatten_addrs(&kept)
}

/// The index after saving the bond of `added`: the kept addresses, then
/// `added` unless it is already listed or the index holds `MAX_BONDS`.
pub open spec fn spec_with_added(kept: Seq<[u8; 6]>, added: [u8; 6]) -> Seq<[u8; 6]> {
    if kept.contains(added) || kept.len() >= MAX_BONDS {
        kept
    } else {
        kept.push(added)
    }
}

/// Two addresses are equal exactly when all six bytes are.
fn same_addr(a: &[u8; 6], b: &[u8; 6]) -> (r: bool)
    ensures
        r == (*a == *b),
{
    let mut k: usize = 0;
    while k < 6
        invariant
            k <= 6,
            forall|j: int| 0 <= j < k ==> a@[j] == b@[j],
        decreases 6 - k,
    {
        if a[k] != b[k] {
            return false;
        }
        k += 1;
    }
    assert(a@ =~= b@);
    assert(*a =~= *b);
    true
}

/// The index rebuilt after saving the bond of `added`: the addresses still
/// present, then `added` if it is new and there is room, six bytes each.
pub fn index_with_saved(addrs: &Vec<[u8; 6]>, present: &Vec<bool>, added: [u8; 6]) -> (flat: Vec<
    u8,
>)
    requires
        addrs@.len() == present@.len(),
    ensures
        flat@ == spec_flatten(spec_with_added(spec_kept(addrs@, present@), added)),
{
    let mut kept = kept_addrs(addrs, present);
    let n = kept.len();
    let mut listed = false;
    let mut i: usize = 0;
    while i < n
        invariant
            i <= n,
            n == kept@.len(),
            listed == kept@.take(i as int).contains(added),
        decreases n - i,
    {
        proof {
            assert(kept@.take(i + 1) =~= kept@.take(i as int).push(kept@[i as int]));
        }
        let hit = same_addr(&kept[i], &added);
        if hit {
            listed = true;
        }
        proof {
            let t = kept@.take(i as int);
            let t1 = kept@.take(i + 1);
            if hit {
                assert(t1[i as int] == added);
            } else if t1.contains(added) {
                let j = choose|j: int| 0 <= j < t1.len() && t1[j] == added;
                assert(j != i);
                assert(t[j] == added);
            }
            if t.contains(added) {
                let j = choose|j: int| 0 <= j < t.len() && t[j] == added;
                assert(t1[j] == added);
            }
        }
        i += 1;
    }
    assert(kept@.take(n as int) =~= kept@);
    if !listed && n < MAX_BONDS {
        kept.push(added);
    }
    flatten_addrs(&kept)
}

/// The flattened bytes of `k` addresses take `6 k` bytes, address `i` at
/// bytes `6 i .. 6 i + 6`.
pub proof fn lemma_flatten_slots(addrs: Seq<[u8; 6]>)
    ensures
        spec_flatten(addrs).len() == 6 * addrs.len(),
        forall|i: int|
            0 <= i < addrs.len() ==> spec_flatten(addrs).subrange(6 * i, 6 * i + 6) == (
            #[trigger] addrs[i])@,
    decreases addrs.len(),
{
    if addrs.len() > 0 {
        let d = addrs.drop_last();
        lemma_flatten_slots(d);
        assert forall|i: int| 0 <= i < addrs.len() implies spec_flatten(addrs).subrange(
            6 * i,
            6 * i + 6,
        ) == (#[trigger] addrs[i])@ by {
            if i < addrs.len() - 1 {
                assert(spec_flatten(addrs).subrange(6 * i, 6 * i + 6) =~= spec_flatten(d).subrange(
                    6 * i,
                    6 * i + 6,
                ));
                assert(d[i] == addrs[i]);
            } else {
                assert(spec_flatten(addrs).subrange(6 * i, 6 * i + 6) =~= addrs.last()@);
            }
        }
    }
}

/// Reading back a rebuilt index lists exactly the kept addresses, in order.
pub proof fn lemma_index_round_trip(addrs: Seq<[u8; 6]>, present: Seq<bool>)
    requires
        addrs.len() == present.len(),
    ensures
        ({
            let flat = spec_flatten(spec_kept(addrs, present));
            let kept = spec_kept(addrs, present);
            &&& spec_index_addrs(flat, flat.len() as int).len() == kept.len()
            &&& forall|i: int|
                0 <= i < kept.len() ==> #[trigger] spec_index_addrs(flat, flat.len() as int)[i]
                    == kept[i]@
        }),
{
    let kept = spec_kept(addrs, present);
    lemma_flatten_slots(kept);
}

/// After a save, reading the index back lists the saved address, unless the
/// index was already full of other peers.
pub proof fn lemma_saved_bond_listed(addrs: Seq<[u8; 6]>, present: Seq<bool>, added: [u8; 6])
    requires
        addrs.len() == present.len(),
        spec_kept(addrs, present).contains(added) || spec_kept(addrs, present).len() < MAX_BONDS,
    ensures
        ({
            let listed = spec_with_added(spec_kept(addrs, present), added);
            let flat = spec_flatten(listed);
            exists|i: int|
                0 <= i < spec_index_addrs(flat, flat.len() as int).len()
                    && #[trigger] spec_index_addrs(flat, flat.len() as int)[i] == added@
        }),
{
    let kept = spec_kept(addrs, present);
    let listed = spec_with_added(kept, added);
    let flat = spec_flatten(listed);
    lemma_flatten_slots(listed);
    let i = if kept.contains(added) {
        choose|i: int| 0 <= i < kept.len() && kept[i] == added
    } else {
        kept.len() as int
    };
    assert(listed[i] == added);
    assert(spec_index_addrs(flat, flat.len() as int)[i] == listed[i]@);
}

/// Saving a bond into a blank store and loading it back, as far as this
/// library decides it: the rebuilt index lists exactly the saved peer, and
/// the bond decoded from the stored bytes is the saved bond.
pub proof fn lemma_save_then_load(info: Bond, loaded: Bond)
    requires
        spec_bond_fields(spec_bond_bytes(info), loaded),
    ensures
        ({
            let listed = spec_with_added(
                spec_kept(Seq::<[u8; 6]>::empty(), Seq::<bool>::empty()),
                info.bd_addr,
            );
            let flat = spec_flatten(listed);
            spec_index_addrs(flat, flat.len() as int) == seq![info.bd_addr@]
        }),
        loaded == info,
{
    let kept = spec_kept(Seq::<[u8; 6]>::empty(), Seq::<bool>::empty());
    assert(kept =~= Seq::<[u8; 6]>::empty());
    assert(!kept.contains(info.bd_addr));
    let listed = spec_with_added(kept, info.bd_addr);
    assert(listed =~= seq![info.bd_addr]);
    let flat = spec_flatten(listed);
    lemma_flatten_slots(listed);
    assert(spec_index_addrs(flat, flat.len() as int) =~= seq![info.bd_addr@]);
    lemma_bond_round_trip(info, loaded);
}

/// The flash answered the JEDEC ID query: all-0xFF means no device on the
/// bus, all-0x00 a shorted or stuck bus.
pub fn jedec_ok(jedec: &[u8; 3]) -> (ok: bool)
    ensures
        ok == !(jedec@ == seq![0xFFu8, 0xFFu8, 0xFFu8] || jedec@ == seq![0u8, 0u8, 0u8]),
{
    let all_ff = jedec[0] == 0xFF && jedec[1] == 0xFF && jedec[2] == 0xFF;
    let all_zero = jedec[0] == 0 && jedec[1] == 0 && jedec[2] == 0;
    proof {
        if all_ff {
            assert(jedec@ =~= seq![0xFFu8, 0xFFu8, 0xFFu8]);
        }
        if all_zero {
            assert(jedec@ =~= seq![0u8, 0u8, 0u8]);
        }
    }
    !(all_ff || all_zero)
}

} // verus!
