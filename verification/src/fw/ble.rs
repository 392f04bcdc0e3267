//! BLE peripheral logic for the MeshCore companion app: the advertised
//! name, the splitting of responses into 20-byte notifications, the
//! connection's pairing state, and the answer to each companion command.
use vstd::prelude::*;

verus! {

/// Size of one NUS TX notification.
pub const CHUNK_SIZE: usize = 20;

/// "Cyber Ægg " (Æ is C3 86 in UTF-8), then the four hex characters of the
/// device ID.
pub open spec fn spec_device_name(id: Seq<u8>) -> Seq<u8> {
    seq![67u8, 121, 98, 101, 114, 32, 0xC3, 0x86, 103, 103, 32] + id
}

/// The advertised device name.
pub fn ble_device_name(id: &[u8; 4]) -> (name: [u8; 15])
    ensures
        name@ == spec_device_name(id@),
{
    let name: [u8; 15] = [67, 121, 98, 101, 114, 32, 0xC3, 0x86, 103, 103, 32, id[0], id[1], id[2], id[3]];
    assert(name@ =~= spec_device_name(id@));
    name
}

/// Number of notifications for `len` bytes: `len / 20` rounded up.
pub open spec fn spec_chunk_count(len: int) -> int {
    (len + 19) / 20
}

/// Notification `i` of `data`: bytes `20 i ..` (at most 20), zero-padded
/// to 20 bytes.
pub open spec fn spec_chunk(data: Seq<u8>, i: int) -> Seq<u8> {
    let start = CHUNK_SIZE * i;
    let end = if start + CHUNK_SIZE < data.len() { start + CHUNK_SIZE } else { data.len() as int };
    data.subrange(start, end) + Seq::new((CHUNK_SIZE - (end - start)) as nat, |k: int| 0u8)
}

/// Split `data` into 20-byte notifications, zero-padding the last one.
pub fn chunk_frames(data: &[u8]) -> (chunks: Vec<[u8; CHUNK_SIZE]>)
    ensures
        chunks@.len() == spec_chunk_count(data@.len() as int),
        forall|i: int| 0 <= i < chunks@.len() ==> (#[trigger] chunks@[i])@ == spec_chunk(data@, i),
{
    let len = data.len();
    let count = len / CHUNK_SIZE + if len % CHUNK_SIZE == 0 {
        0
    } else {
        1
    };
    let mut chunks: Vec<[u8; CHUNK_SIZE]> = Vec::new();
    let mut c: usize = 0;
    while c < count
        invariant
            len == data@.len(),
            count == spec_chunk_count(len as int),
            c <= count,
            chunks@.len() == c,
            forall|i: int| 0 <= i < chunks@.len() ==> (#[trigger] chunks@[i])@ == spec_chunk(data@, i),
        decreases count - c,
    {
        let offset = CHUNK_SIZE * c;
        let end = if len - offset > CHUNK_SIZE {
            offset + CHUNK_SIZE
        } else {
            len
        };
        let mut chunk = [0u8; 20];
        let mut k: usize = 0;
        while k < end - offset
            invariant
                offset <= end <= len,
                end - offset <= CHUNK_SIZE,
                len == data@.len(),
                k <= end - offset,
                forall|j: int| 0 <= j < k ==> chunk@[j] == data@[offset + j],
                forall|j: int| k <= j < CHUNK_SIZE ==> chunk@[j] == 0u8,
            decreases end - offset - k,
        {
            chunk[k] = data[offset + k];
            k += 1;
        }
        assert(chunk@ =~= spec_chunk(data@, c as int));
        chunks.push(chunk);
        c += 1;
    }
    chunks
}

/// Byte `k` of the data is byte `k % 20` of notification `k / 20`: the
/// notifications, one after the other, carry the data in order.
pub proof fn lemma_chunks_carry_data(data: Seq<u8>, k: int)
    requires
        0 <= k < data.len(),
    ensures
        spec_chunk(data, k / CHUNK_SIZE as int)[k % CHUNK_SIZE as int] == data[k],
        k / (CHUNK_SIZE as int) < (data.len() + CHUNK_SIZE - 1) / CHUNK_SIZE as int,
{
}

/// A connection event seen by the peripheral loop.
#[derive(Clone, Copy, PartialEq, Eq, Structural, Debug)]
pub enum ConnEvent {
    Disconnected,
    /// Show this passkey for pairing.
    PassKeyDisplay(u32),
    /// Pairing completed; `new_bond` when a new bond is to be stored.
    PairingComplete { new_bond: bool },
    PairingFailed,
    /// A write, to the NUS RX characteristic (`on_rx`) or elsewhere.
    Write { on_rx: bool },
    Other,
}

/// How a write is answered.
#[derive(Clone, Copy, PartialEq, Eq, Structural, Debug)]
pub enum WriteReply {
    /// Acknowledge only (writes elsewhere, or before authentication).
    Accept,
    /// Handle the companion command: acknowledge, then notify the response.
    Respond,
}

/// What the peripheral loop does for an event.
#[derive(Clone, Copy, PartialEq, Eq, Structural, Debug)]
pub struct Reaction {
    /// New value of the shared passkey (`u32::MAX` = none shown).
    pub passkey: Option<u32>,
    /// Wake the pairing overlay.
    pub signal_pairing: bool,
    /// Persist the new bond.
    pub save_bond: bool,
    /// The connection ended: leave the event loop.
    pub end: bool,
    pub write: Option<WriteReply>,
}

/// A connection's pairing state: companion commands are processed only
/// after pairing or encryption is confirmed.
#[derive(Clone, Copy, PartialEq, Eq, Structural, Debug)]
pub struct Session {
    pub authenticated: bool,
}

/// The passkey value meaning "no passkey shown".
pub const NO_PASSKEY: u32 = 0xFFFF_FFFF;

/// The reaction to an event in a session with the given authentication.
pub open spec fn spec_reaction(authenticated: bool, ev: ConnEvent) -> Reaction {
    let none = Reaction { passkey: None, signal_pairing: false, save_bond: false, end: false, write: None };
    match ev {
        ConnEvent::Disconnected => Reaction { passkey: Some(NO_PASSKEY), signal_pairing: true, end: true, ..none },
        ConnEvent::PassKeyDisplay(k) => Reaction { passkey: Some(k), signal_pairing: true, ..none },
        ConnEvent::PairingComplete { new_bond } => Reaction {
            passkey: Some(NO_PASSKEY),
            signal_pairing: true,
            save_bond: new_bond,
            ..none
        },
        ConnEvent::PairingFailed => Reaction { passkey: Some(NO_PASSKEY), signal_pairing: true, ..none },
        ConnEvent::Write { on_rx } => Reaction {
            write: Some(if on_rx && authenticated { WriteReply::Respond } else { WriteReply::Accept }),
            ..none
        },
        ConnEvent::Other => none,
    }
}

impl Session {
    /// A new connection, not yet authenticated.
    pub fn new() -> (s: Session)
        ensures
            !s.authenticated,
    {
        Session { authenticated: false }
    }

    /// Handle one connection event.  Only a completed pairing
    /// authenticates the connection; a failure leaves it as it was.
    pub fn on_event(&mut self, ev: ConnEvent) -> (r: Reaction)
        ensures
            r == spec_reaction(old(self).authenticated, ev),
            final(self).authenticated == (old(self).authenticated || ev is PairingComplete),
    {
        let none = Reaction { passkey: None, signal_pairing: false, save_bond: false, end: false, write: None };
        match ev {
            ConnEvent::Disconnected => Reaction {
                passkey: Some(NO_PASSKEY),
                signal_pairing: true,
                end: true,
                ..none
            },
            ConnEvent::PassKeyDisplay(k) => Reaction { passkey: Some(k), signal_pairing: true, ..none },
            ConnEvent::PairingComplete { new_bond } => {
                self.authenticated = true;
                Reaction {
                    passkey: Some(NO_PASSKEY),
                    signal_pairing: true,
                    save_bond: new_bond,
                    ..none
                }
            },
            ConnEvent::PairingFailed => Reaction {
                passkey: Some(NO_PASSKEY),
                signal_pairing: true,
                ..none
            },
            ConnEvent::Write { on_rx } => Reaction {
                write: Some(
                    if on_rx && self.authenticated {
                        WriteReply::Respond
                    } else {
                        WriteReply::Accept
                    },
                ),
                ..none
            },
            ConnEvent::Other => none,
        }
    }
}

/// No companion command is processed on a connection that never completed
/// pairing, whatever events came before.
pub proof fn lemma_no_command_before_pairing(events: Seq<ConnEvent>)
    requires
        forall|i: int| 0 <= i < events.len() ==> !(#[trigger] events[i] is PairingComplete),
    ensures
        forall|i: int| 0 <= i < events.len() ==> spec_reaction(false, #[trigger] events[i]).write
            != Some(WriteReply::Respond),
{
}

/// A companion-protocol command.
#[derive(Clone, Copy, PartialEq, Eq, Structural, Debug)]
pub enum Command {
    AppStart,
    DeviceQuery,
    GetBattery,
    SyncNextMessage,
    GetContacts,
    GetChannel(u8),
    SetDeviceTime(u32),
    SetChannel,
    Unknown(u8),
}

/// Device information snapshot handed to the companion protocol: our
/// identity and radio configuration.
#[derive(Clone, Copy, PartialEq, Eq, Debug)]
pub struct CompanionContext {
    /// Ed25519 public key.
    pub pub_key: [u8; 32],
    /// LoRa radio frequency in Hz.
    pub frequency_hz: u32,
    /// LoRa bandwidth in Hz.
    pub bandwidth_hz: u32,
    /// LoRa spreading factor.
    pub spreading_factor: u8,
    /// LoRa coding rate (1 = 4/5).
    pub coding_rate: u8,
    /// TX power in dBm.
    pub tx_power: i8,
}

/// Our identity and radio settings, as reported to the companion.
#[derive(Clone, Copy, PartialEq, Eq, Debug)]
pub struct SelfInfo<'a> {
    /// Advert type: 1 = chat node.
    pub adv_type: u8,
    pub tx_power: i8,
    pub max_tx_power: i8,
    pub pub_key: [u8; 32],
    pub lat: i32,
    pub lon: i32,
    pub multi_acks: u8,
    pub adv_location_policy: u8,
    pub telemetry_mode: u8,
    pub manual_add_contacts: u8,
    pub frequency_hz: u32,
    pub bandwidth_hz: u32,
    pub spreading_factor: u8,
    pub coding_rate: u8,
    /// The device name.
    pub name: &'a [u8],
}

/// Firmware information reported to the companion.
#[derive(Clone, Copy, PartialEq, Eq, Debug)]
pub struct DeviceInfo {
    pub fw_version: u8,
    /// Contact capacity in units of two contacts.
    pub max_contacts_raw: u8,
    pub max_channels: u8,
    /// The pairing PIN shown, 0 when none.
    pub ble_pin: u32,
    pub fw_build: [u8; 3],
    pub model: [u8; 18],
    pub version: [u8; 5],
    pub client_repeat: bool,
    pub path_hash_mode: u8,
}

/// The answer to a companion command.
#[derive(Clone, Copy, PartialEq, Eq, Debug)]
pub enum Response<'a> {
    Error,
    SelfInfo(SelfInfo<'a>),
    DeviceInfo(DeviceInfo),
    Battery { mv: u16, used_kb: u32, total_kb: u32 },
    NoMoreMsgs,
    Done,
}

/// Flash capacity reported to the companion, in KiB.
pub const TOTAL_KB: u32 = 8192;
/// Highest TX power of the radio, in dBm.
pub const MAX_TX_POWER: i8 = 22;
/// Firmware protocol version.
pub const FW_VERSION: u8 = 3;
/// Contact capacity, in units of two contacts (20 contacts).
pub const MAX_CONTACTS_RAW: u8 = 10;
/// Channel capacity.
pub const MAX_CHANNELS: u8 = 8;
/// Firmware build tag, "dev".
pub const FW_BUILD: [u8; 3] = [100, 101, 118];
/// Model name, "BornHack CyberÆgg" in UTF-8.
pub const MODEL: [u8; 18] = [66, 111, 114, 110, 72, 97, 99, 107, 32, 67, 121, 98, 101, 114, 0xC3, 0x86, 103, 103];
/// Firmware version, "0.1.0".
pub const VERSION: [u8; 5] = [48, 46, 49, 46, 48];

/// The self information of a context and device name.
pub open spec fn spec_self_info<'a>(ctx: CompanionContext, name: &'a [u8]) -> SelfInfo<'a> {
    SelfInfo {
        adv_type: 1,
        tx_power: ctx.tx_power,
        max_tx_power: MAX_TX_POWER,
        pub_key: ctx.pub_key,
        lat: 0,
        lon: 0,
        multi_acks: 0,
        adv_location_policy: 0,
        telemetry_mode: 0,
        manual_add_contacts: 0,
        frequency_hz: ctx.frequency_hz,
        bandwidth_hz: ctx.bandwidth_hz,
        spreading_factor: ctx.spreading_factor,
        coding_rate: ctx.coding_rate,
        name,
    }
}

/// The device information, given the shared passkey.
pub open spec fn spec_device_info(passkey: u32) -> DeviceInfo {
    DeviceInfo {
        fw_version: FW_VERSION,
        max_contacts_raw: MAX_CONTACTS_RAW,
        max_channels: MAX_CHANNELS,
        ble_pin: if passkey == NO_PASSKEY { 0 } else { passkey },
        fw_build: FW_BUILD,
        model: MODEL,
        version: VERSION,
        client_repeat: false,
        path_hash_mode: 0,
    }
}

/// The answer to a parsed command (`None`: the write was empty), given the
/// shared passkey, the battery charge in percent, our context and our
/// device name.
pub open spec fn spec_response<'a>(
    cmd: Option<Command>,
    passkey: u32,
    battery_pct: u8,
    ctx: CompanionContext,
    name: &'a [u8],
) -> Response<'a> {
    match cmd {
        None => Response::Error,
        Some(Command::AppStart) => Response::SelfInfo(spec_self_info(ctx, name)),
        Some(Command::DeviceQuery) => Response::DeviceInfo(spec_device_info(passkey)),
        Some(Command::GetBattery) => Response::Battery {
            mv: (3000 + battery_pct * 12) as u16,
            used_kb: 0,
            total_kb: TOTAL_KB,
        },
        Some(Command::SyncNextMessage) | Some(Command::GetContacts) | Some(Command::GetChannel(_)) => Response::NoMoreMsgs,
        Some(Command::SetDeviceTime(_)) | Some(Command::SetChannel) => Response::Done,
        Some(Command::Unknown(_)) => Response::Error,
    }
}

/// The companion is answered with an error exactly for an empty write or
/// an unknown command; setting the time or a channel is acknowledged, the
/// message, contact and channel queries report nothing more, and the
/// queries for self, device and battery information are answered with
/// that information.
pub proof fn lemma_respond_kinds(
    cmd: Option<Command>,
    passkey: u32,
    battery_pct: u8,
    ctx: CompanionContext,
    name: &[u8],
)
    ensures
        ({
            let r = spec_response(cmd, passkey, battery_pct, ctx, name);
            &&& (r == Response::Error) <==> (cmd is None || cmd matches Some(Command::Unknown(_)))
            &&& (r == Response::Done) <==> (cmd == Some(Command::SetChannel)
                || cmd matches Some(Command::SetDeviceTime(_)))
            &&& (r == Response::NoMoreMsgs) <==> (cmd == Some(Command::SyncNextMessage) || cmd == Some(
                Command::GetContacts,
            ) || cmd matches Some(Command::GetChannel(_)))
            &&& cmd == Some(Command::AppStart) ==> (r matches Response::SelfInfo(i) && i.pub_key
                == ctx.pub_key && i.name == name && i.tx_power == ctx.tx_power)
            &&& cmd == Some(Command::DeviceQuery) ==> (r matches Response::DeviceInfo(i) && (
            passkey != NO_PASSKEY ==> i.ble_pin == passkey) && (passkey == NO_PASSKEY ==> i.ble_pin
                == 0))
            &&& cmd == Some(Command::GetBattery) ==> (r matches Response::Battery { mv, .. } && mv
                == 3000 + 12 * battery_pct)
        }),
{
}

/// Answer a companion command.
pub fn respond<'a>(
    cmd: Option<Command>,
    passkey: u32,
    battery_pct: u8,
    ctx: &CompanionContext,
    name: &'a [u8],
) -> (r: Response<'a>)
    ensures
        r == spec_response(cmd, passkey, battery_pct, *ctx, name),
{
    match cmd {
        None => Response::Error,
        Some(Command::AppStart) => Response::SelfInfo(
            SelfInfo {
                adv_type: 1,
                tx_power: ctx.tx_power,
                max_tx_power: MAX_TX_POWER,
                pub_key: ctx.pub_key,
                lat: 0,
                lon: 0,
                multi_acks: 0,
                adv_location_policy: 0,
                telemetry_mode: 0,
                manual_add_contacts: 0,
                frequency_hz: ctx.frequency_hz,
                bandwidth_hz: ctx.bandwidth_hz,
                spreading_factor: ctx.spreading_factor,
                coding_rate: ctx.coding_rate,
                name,
            },
        ),
        Some(Command::DeviceQuery) => Response::DeviceInfo(
            DeviceInfo {
                fw_version: FW_VERSION,
                max_contacts_raw: MAX_CONTACTS_RAW,
                max_channels: MAX_CHANNELS,
                ble_pin: if passkey == NO_PASSKEY {
                    0
                } else {
                    passkey
                },
                fw_build: FW_BUILD,
                model: MODEL,
                version: VERSION,
                client_repeat: false,
                path_hash_mode: 0,
            },
        ),
        Some(Command::GetBattery) => {
            let pct = battery_pct as u16;
            Response::Battery { mv: 3000 + pct * 12, used_kb: 0, total_kb: TOTAL_KB }
        },
        Some(Command::SyncNextMessage) | Some(Command::GetContacts) | Some(Command::GetChannel(_)) => Response::NoMoreMsgs,
        Some(Command::SetDeviceTime(_)) | Some(Command::SetChannel) => Response::Done,
        Some(Command::Unknown(_)) => Response::Error,
    }
}

} // verus!
