use vstd::prelude::*;

use crate::device::DeviceStatus;

verus! {

/// Bit of the Virtuoso protocol that addresses the wireless receiver.
pub const VIRTUOSO_WIRELESS_BIT: u8 = 0x01;

/// Length of Virtuoso requests and of the HID reports read from headsets.
pub const VIRTUOSO_DATA_LENGTH: usize = 64;

/// Virtuoso command that asks whether the headset is on its charger.
pub const VIRTUOSO_PLUGGED_COMMAND: u8 = 0x10;

/// Virtuoso command that asks for the battery level.
pub const VIRTUOSO_LEVEL_COMMAND: u8 = 0x0F;

/// Legacy headsets report levels above this value with this value added.
pub const VOID_BATTERY_MIXUP: u8 = 128;

/// How long a read waits for a headset's report, in milliseconds.
pub const READ_TIMEOUT_MS: i32 = 700;

/// The request that legacy headsets answer with their battery report.
pub fn legacy_request() -> (request: [u8; 2])
    ensures
        request@ == seq![0xC9u8, 0x64u8],
{
    let request = [0xC9u8, 0x64u8];
    assert(request@ =~= seq![0xC9u8, 0x64u8]);
    request
}

/// The status that a legacy headset's report gives, of which `read` bytes
/// arrived: disconnected when fewer than five bytes came or byte 4 is zero;
/// else connected, with the level of byte 2 (less 128 when above 128, at
/// most 100), charging when byte 4 is 5.
pub open spec fn legacy_status(report: Seq<u8>, read: int) -> DeviceStatus {
    if read < 5 || report[4] == 0 {
        DeviceStatus { connected: false, battery: None, charging: false }
    } else {
        let raw = report[2];
        let level = if raw > 128 {
            raw - 128
        } else {
            raw as int
        };
        DeviceStatus {
            connected: true,
            battery: Some(
                if level < 100 {
                    level as u8
                } else {
                    100u8
                },
            ),
            charging: report[4] == 5,
        }
    }
}

/// Reads a legacy headset's battery report, of which `read` bytes arrived.
pub fn parse_legacy_reply(report: &[u8; 64], read: usize) -> (status: DeviceStatus)
    ensures
        status == legacy_status(report@, read as int),
{
    if read < 5 || report[4] == 0 {
        return DeviceStatus { connected: false, battery: None, charging: false };
    }
    let mut battery = report[2];
    if battery > VOID_BATTERY_MIXUP {
        battery = battery - VOID_BATTERY_MIXUP;
    }
    DeviceStatus {
        connected: true,
        battery: Some(
            if battery < 100 {
                battery
            } else {
                100
            },
        ),
        charging: report[4] == 5,
    }
}

/// The bytes of the Virtuoso request for `command`: report 2, the wireless
/// receiver, a read, the command, the rest zero.
pub open spec fn virtuoso_request_bytes(command: u8) -> Seq<u8> {
    Seq::new(
        VIRTUOSO_DATA_LENGTH as nat,
        |i: int|
            if i == 0 {
                0x02u8
            } else if i == 1 {
                0x09u8
            } else if i == 2 {
                0x02u8
            } else if i == 3 {
                command
            } else {
                0u8
            },
    )
}

/// The Virtuoso request for `command`.
pub fn virtuoso_request(command: u8) -> (request: [u8; 64])
    ensures
        request@ == virtuoso_request_bytes(command),
{
    let mut request = [0u8; 64];
    request[0] = 0x02;
    assert(0x08u8 | 0x01u8 == 0x09u8) by (bit_vector);
    request[1] = 0x08 | VIRTUOSO_WIRELESS_BIT;
    request[2] = 0x02;
    request[3] = command;
    assert(request@ =~= virtuoso_request_bytes(command));
    request
}

/// The reply of a read that gave `read` bytes: none when nothing came.
pub fn virtuoso_reply(report: &[u8; 64], read: usize) -> (reply: Option<[u8; 64]>)
    ensures
        reply == (if read == 0 {
            None
        } else {
            Some(*report)
        }),
{
    if read == 0 {
        return None;
    }
    Some(*report)
}

/// The battery percentage of a Virtuoso level value, given in tenths of a
/// percent: rounded to the nearest percent, at most 100.
pub open spec fn virtuoso_percent(value: int) -> u8 {
    let percent = (value + 5) / 10;
    if percent < 100 {
        percent as u8
    } else {
        100u8
    }
}

/// Whether a Virtuoso result value can be read without overflow: the
/// states 1 and 2, or a level with room to round.
pub open spec fn result_in_range(value: int) -> bool {
    value == 1 || value == 2 || value + 5 <= u16::MAX
}

/// `status` with a Virtuoso result value applied: 1 means charging, 2 not
/// charging, any other value is the battery level in tenths of a percent.
pub open spec fn with_virtuoso_result(status: DeviceStatus, value: int) -> DeviceStatus {
    if value == 1 {
        DeviceStatus { charging: true, ..status }
    } else if value == 2 {
        DeviceStatus { charging: false, ..status }
    } else {
        DeviceStatus { battery: Some(virtuoso_percent(value)), ..status }
    }
}

/// Applies a Virtuoso result value to `status`.
pub fn parse_virtuoso_result(status: &mut DeviceStatus, result: u16)
    requires
        result_in_range(result as int),
    ensures
        *final(status) == with_virtuoso_result(*old(status), result as int),
{
    match result {
        1 => status.charging = true,
        2 => status.charging = false,
        value => {
            let percent = (value + 5) / 10;
            status.battery = Some(
                if percent < 100 {
                    percent as u8
                } else {
                    100
                },
            );
        },
    }
}

/// The little-endian value of two bytes.
pub open spec fn le_value(low: u8, high: u8) -> int {
    low as int + 256 * high as int
}

/// Whether a Virtuoso reply announces a pushed state: `01 01 02 00`,
/// value in bytes 4 and 5.
pub open spec fn is_state_push(reply: Seq<u8>) -> bool {
    reply[0] == 0x01 && reply[1] == VIRTUOSO_WIRELESS_BIT && reply[2] == 0x02 && reply[3] == 0x00
}

/// Whether a Virtuoso reply answers the level command: `03 01 01 0F 00`,
/// level in bytes 5 and 6.
pub open spec fn is_level_answer(reply: Seq<u8>) -> bool {
    reply[0] == 0x03 && reply[1] == VIRTUOSO_WIRELESS_BIT && reply[2] == 0x01 && reply[3]
        == VIRTUOSO_LEVEL_COMMAND && reply[4] == 0x00
}

/// Whether a Virtuoso reply answers the plugged command: `03 01 01 10 00`,
/// state in byte 5.
pub open spec fn is_plugged_answer(reply: Seq<u8>) -> bool {
    reply[0] == 0x03 && reply[1] == VIRTUOSO_WIRELESS_BIT && reply[2] == 0x01 && reply[3]
        == VIRTUOSO_PLUGGED_COMMAND && reply[4] == 0x00
}

/// Whether the values in a Virtuoso reply can be read without overflow.
pub open spec fn reply_in_range(reply: Seq<u8>) -> bool {
    &&& is_state_push(reply) ==> result_in_range(le_value(reply[4], reply[5]))
    &&& !is_state_push(reply) && is_level_answer(reply) ==> le_value(reply[5], reply[6]) + 5
        <= u16::MAX
}

/// `status` with what a Virtuoso reply says: a pushed state or level, the
/// level answer, or the plugged answer; any other reply changes nothing.
pub open spec fn merged_status(status: DeviceStatus, reply: Seq<u8>) -> DeviceStatus {
    if is_state_push(reply) {
        with_virtuoso_result(status, le_value(reply[4], reply[5]))
    } else if is_level_answer(reply) {
        DeviceStatus { battery: Some(virtuoso_percent(le_value(reply[5], reply[6]))), ..status }
    } else if is_plugged_answer(reply) {
        with_virtuoso_result(status, reply[5] as int)
    } else {
        status
    }
}

proof fn lemma_le_value(low: u8, high: u8)
    ensures
        (low as u16) | ((high as u16) << 8) == le_value(low, high),
{
    assert((low as u16) | ((high as u16) << 8) == low as u16 + 256 * (high as u16)) by (bit_vector);
}

/// Applies a Virtuoso reply to `status`.
pub fn merge_virtuoso_reply(status: &mut DeviceStatus, data: &[u8; 64])
    requires
        reply_in_range(data@),
    ensures
        *final(status) == merged_status(*old(status), data@),
{
    proof {
        lemma_le_value(data@[4], data@[5]);
        lemma_le_value(data@[5], data@[6]);
    }
    if data[0] == 0x01 && data[1] == VIRTUOSO_WIRELESS_BIT && data[2] == 0x02 && data[3] == 0x00 {
        parse_virtuoso_result(status, (data[4] as u16) | ((data[5] as u16) << 8));
    } else if data[0] == 0x03 && data[1] == VIRTUOSO_WIRELESS_BIT && data[2] == 0x01 && data[3]
        == VIRTUOSO_LEVEL_COMMAND && data[4] == 0x00 {
        let raw = (data[5] as u16) | ((data[6] as u16) << 8);
        let percent = (raw + 5) / 10;
        status.battery = Some(
            if percent < 100 {
                percent as u8
            } else {
                100
            },
        );
    } else if data[0] == 0x03 && data[1] == VIRTUOSO_WIRELESS_BIT && data[2] == 0x01 && data[3]
        == VIRTUOSO_PLUGGED_COMMAND && data[4] == 0x00 {
        parse_virtuoso_result(status, data[5] as u16);
    }
}

/// Whether the values in a Virtuoso reply can be read without overflow.
pub fn virtuoso_reply_in_range(data: &[u8; 64]) -> (ok: bool)
    ensures
        ok == reply_in_range(data@),
{
    proof {
        lemma_le_value(data@[4], data@[5]);
        lemma_le_value(data@[5], data@[6]);
    }
    let state_push = data[0] == 0x01 && data[1] == VIRTUOSO_WIRELESS_BIT && data[2] == 0x02
        && data[3] == 0x00;
    let level_answer = data[0] == 0x03 && data[1] == VIRTUOSO_WIRELESS_BIT && data[2] == 0x01
        && data[3] == VIRTUOSO_LEVEL_COMMAND && data[4] == 0x00;
    if state_push {
        let value = (data[4] as u16) | ((data[5] as u16) << 8);
        value == 1 || value == 2 || value <= u16::MAX - 5
    } else if level_answer {
        let value = (data[5] as u16) | ((data[6] as u16) << 8);
        value <= u16::MAX - 5
    } else {
        true
    }
}

/// The status of a Virtuoso headset, which answered at all: connected, with
/// what the answer to the plugged command and then the answer to the level
/// command say.
pub open spec fn virtuoso_status_of(plugged: Option<Seq<u8>>, level: Option<Seq<u8>>) -> DeviceStatus {
    let start = DeviceStatus { connected: true, battery: None, charging: false };
    let after_plugged = match plugged {
        Some(reply) => merged_status(start, reply),
        None => start,
    };
    match level {
        Some(reply) => merged_status(after_plugged, reply),
        None => after_plugged,
    }
}

/// The reply's bytes, if there is one.
pub open spec fn reply_bytes(reply: Option<[u8; 64]>) -> Option<Seq<u8>> {
    match reply {
        Some(data) => Some(data@),
        None => None,
    }
}

/// The status of a Virtuoso headset from its replies to the plugged and
/// the level command (`None` where a read gave nothing).
pub fn virtuoso_status(plugged: Option<[u8; 64]>, level: Option<[u8; 64]>) -> (status:
    DeviceStatus)
    requires
        plugged matches Some(reply) ==> reply_in_range(reply@),
        level matches Some(reply) ==> reply_in_range(reply@),
    ensures
        status == virtuoso_status_of(reply_bytes(plugged), reply_bytes(level)),
{
    let mut status = DeviceStatus { connected: true, battery: None, charging: false };
    if let Some(reply) = plugged {
        merge_virtuoso_reply(&mut status, &reply);
    }
    if let Some(reply) = level {
        merge_virtuoso_reply(&mut status, &reply);
    }
    status
}

/// A legacy report of fewer than five bytes, or with state byte 4 zero,
/// means the headset is off: disconnected, no level, not charging.
pub proof fn lemma_legacy_disconnected(report: Seq<u8>, read: int)
    requires
        read < 5 || report[4] == 0,
    ensures
        legacy_status(report, read) == (DeviceStatus { connected: false, battery: None, charging: false }),
{
}

/// A legacy report of five bytes or more with a nonzero state byte 4 means
/// connected; charging exactly when byte 4 is 5; the level comes from byte 2
/// alone, whatever the state: less 128 when above 128, capped at 100.
pub proof fn lemma_legacy_connected(report: Seq<u8>, read: int)
    requires
        read >= 5,
        report[4] != 0,
    ensures
        legacy_status(report, read).connected,
        legacy_status(report, read).charging <==> report[4] == 5,
        legacy_status(report, read).battery is Some,
        report[2] > 128 && report[2] - 128 <= 100 ==> legacy_status(report, read).battery->0
            == report[2] - 128,
        report[2] <= 100 ==> legacy_status(report, read).battery->0 == report[2],
        100 <= report[2] <= 128 ==> legacy_status(report, read).battery->0 == 100,
        legacy_status(report, read).battery->0 <= 100,
{
}

/// Whether a status's battery level, if any, is a percentage (at most 100).
pub open spec fn level_is_percent(status: DeviceStatus) -> bool {
    match status.battery {
        Some(level) => level <= 100,
        None => true,
    }
}

/// A legacy report never gives a level above 100 percent.
pub proof fn lemma_legacy_level_is_percent(report: Seq<u8>, read: int)
    ensures
        level_is_percent(legacy_status(report, read)),
{
}

/// Applying a Virtuoso reply keeps the level a percentage, and never
/// changes whether the headset counts as connected.
pub proof fn lemma_merge_keeps_percent_and_connection(status: DeviceStatus, reply: Seq<u8>)
    requires
        level_is_percent(status),
    ensures
        level_is_percent(merged_status(status, reply)),
        merged_status(status, reply).connected == status.connected,
{
}

/// A Virtuoso headset that answered counts as connected, at a level of at
/// most 100 percent.
pub proof fn lemma_virtuoso_status_connected(plugged: Option<Seq<u8>>, level: Option<Seq<u8>>)
    ensures
        virtuoso_status_of(plugged, level).connected,
        level_is_percent(virtuoso_status_of(plugged, level)),
{
    let start = DeviceStatus { connected: true, battery: None, charging: false };
    if let Some(reply) = plugged {
        lemma_merge_keeps_percent_and_connection(start, reply);
    }
    let after = match plugged {
        Some(reply) => merged_status(start, reply),
        None => start,
    };
    if let Some(reply) = level {
        lemma_merge_keeps_percent_and_connection(after, reply);
    }
}

/// A pushed state (`01 01 02 00`) with value 1 (little-endian in bytes 4
/// and 5) means charging, with value 2 not charging; either leaves the level
/// and the connection as they were.
pub proof fn lemma_pushed_charging_state(status: DeviceStatus, reply: Seq<u8>)
    requires
        reply.len() == VIRTUOSO_DATA_LENGTH,
        reply[0] == 1 && reply[1] == 1 && reply[2] == 2 && reply[3] == 0,
        reply[5] == 0,
        reply[4] == 1 || reply[4] == 2,
    ensures
        merged_status(status, reply).charging == (reply[4] == 1),
        merged_status(status, reply).battery == status.battery,
        merged_status(status, reply).connected == status.connected,
{
}

/// Any other value `v` of a pushed state, of the level answer
/// (`03 01 01 0F 00`, bytes 5 and 6) or of the plugged answer
/// (`03 01 01 10 00`, byte 5) is a level in tenths of a percent: the new
/// level is `v / 10` rounded to the nearest percent (halves up), at most
/// 100; charging and connection stay.
pub proof fn lemma_reply_level(status: DeviceStatus, reply: Seq<u8>)
    requires
        reply.len() == VIRTUOSO_DATA_LENGTH,
    ensures
        ({
            let out = merged_status(status, reply);
            let pushed = reply[0] == 1 && reply[1] == 1 && reply[2] == 2 && reply[3] == 0;
            let answer = reply[0] == 3 && reply[1] == 1 && reply[2] == 1 && reply[4] == 0;
            let v = if pushed {
                reply[4] + 256 * reply[5]
            } else if answer && reply[3] == 0x0F {
                reply[5] + 256 * reply[6]
            } else {
                reply[5] as int
            };
            (pushed && v != 1 && v != 2) || (!pushed && answer && reply[3] == 0x0F) || (!pushed
                && answer && reply[3] == 0x10 && v != 1 && v != 2) ==> {
                &&& out.battery is Some
                &&& out.charging == status.charging
                &&& out.connected == status.connected
                &&& out.battery->0 <= 100
                &&& out.battery->0 < 100 ==> out.battery->0 * 10 <= v + 5 < out.battery->0 * 10 + 10
                &&& out.battery->0 == 100 ==> v + 5 >= 1000
            }
        }),
{
}

/// The plugged answer (`03 01 01 10 00`) with byte 5 equal to 1 means
/// charging, with 2 not charging; the level and connection stay.
pub proof fn lemma_plugged_answer_state(status: DeviceStatus, reply: Seq<u8>)
    requires
        reply.len() == VIRTUOSO_DATA_LENGTH,
        reply[0] == 3 && reply[1] == 1 && reply[2] == 1 && reply[3] == 0x10 && reply[4] == 0,
        reply[5] == 1 || reply[5] == 2,
    ensures
        merged_status(status, reply).charging == (reply[5] == 1),
        merged_status(status, reply).battery == status.battery,
        merged_status(status, reply).connected == status.connected,
{
}

/// A reply that starts with none of the known headers changes nothing.
pub proof fn lemma_unknown_reply(status: DeviceStatus, reply: Seq<u8>)
    requires
        reply.len() == VIRTUOSO_DATA_LENGTH,
        !(reply[0] == 1 && reply[1] == 1 && reply[2] == 2 && reply[3] == 0),
        !(reply[0] == 3 && reply[1] == 1 && reply[2] == 1 && reply[4] == 0 && (reply[3] == 0x0F
            || reply[3] == 0x10)),
    ensures
        merged_status(status, reply) == status,
{
}

/// A reply that is none of the known answers changes nothing; the answer to
/// the level command changes only the level, that to the plugged command
/// only the charging state or, for other values, the level.
pub proof fn lemma_merge_touches_one_field(status: DeviceStatus, reply: Seq<u8>)
    ensures
        !is_state_push(reply) && !is_level_answer(reply) && !is_plugged_answer(reply)
            ==> merged_status(status, reply) == status,
        !is_state_push(reply) && is_level_answer(reply) ==> merged_status(status, reply).charging
            == status.charging,
        merged_status(status, reply).battery != status.battery ==> merged_status(
            status,
            reply,
        ).charging == status.charging,
{
}

} // verus!
