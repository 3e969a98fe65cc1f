use vstd::prelude::*;

use crate::device::{ConnectedDevice, DeviceStatus};

verus! {

/// The character of the decimal digit `d`.
pub open spec fn digit_char(d: int) -> char {
    (48 + d) as char
}

/// The decimal notation of `n`, without leading zeros.
pub open spec fn decimal(n: nat) -> Seq<char>
    decreases n,
{
    if n < 10 {
        seq![digit_char(n as int)]
    } else {
        decimal(n / 10) + seq![digit_char((n % 10) as int)]
    }
}

fn digit_str(d: u8) -> (s: &'static str)
    requires
        d < 10,
    ensures
        s@ == seq![digit_char(d as int)],
{
    match d {
        0 => {
            proof {
                reveal_strlit("0");
            }
            "0"
        },
        1 => {
            proof {
                reveal_strlit("1");
            }
            "1"
        },
        2 => {
            proof {
                reveal_strlit("2");
            }
            "2"
        },
        3 => {
            proof {
                reveal_strlit("3");
            }
            "3"
        },
        4 => {
            proof {
                reveal_strlit("4");
            }
            "4"
        },
        5 => {
            proof {
                reveal_strlit("5");
            }
            "5"
        },
        6 => {
            proof {
                reveal_strlit("6");
            }
            "6"
        },
        7 => {
            proof {
                reveal_strlit("7");
            }
            "7"
        },
        8 => {
            proof {
                reveal_strlit("8");
            }
            "8"
        },
        _ => {
            proof {
                reveal_strlit("9");
            }
            "9"
        },
    }
}

/// Appends the decimal notation of `n` to `text`.
fn append_decimal(text: &mut String, n: u8)
    ensures
        final(text)@ == old(text)@ + decimal(n as nat),
{
    if n >= 100 {
        text.append(digit_str(n / 100));
        text.append(digit_str((n / 10) % 10));
        text.append(digit_str(n % 10));
        assert(decimal(n as nat) =~= seq![digit_char((n / 100) as int)] + seq![
            digit_char(((n / 10) % 10) as int),
        ] + seq![digit_char((n % 10) as int)]) by {
            assert(decimal((n / 10) as nat) == decimal(((n / 10) / 10) as nat) + seq![
                digit_char(((n / 10) % 10) as int),
            ]);
        }
    } else if n >= 10 {
        text.append(digit_str(n / 10));
        text.append(digit_str(n % 10));
        assert(decimal((n / 10) as nat) == seq![digit_char((n / 10) as int)]);
        assert(decimal(n as nat) =~= seq![digit_char((n / 10) as int)] + seq![
            digit_char((n % 10) as int),
        ]);
    } else {
        text.append(digit_str(n));
    }
}

/// The tooltip of a headset: its name, then `Disconnected`; or, with a
/// known level, `Fully charged (L%)` when charging at 100 percent or more,
/// else `Charging (L%)` or `Connected (L%)`; without a level only
/// `Charging` or `Connected`.
pub open spec fn tooltip_text(name: Seq<char>, status: DeviceStatus) -> Seq<char> {
    if !status.connected {
        name + ": Disconnected"@
    } else {
        let state = if status.charging {
            "Charging"@
        } else {
            "Connected"@
        };
        match status.battery {
            Some(level) => if status.charging && level >= 100 {
                name + ": Fully charged ("@ + decimal(level as nat) + "%)"@
            } else {
                name + ": "@ + state + " ("@ + decimal(level as nat) + "%)"@
            },
            None => name + ": "@ + state,
        }
    }
}

/// The tooltip of a headset.
pub fn format_tooltip(device: &ConnectedDevice, status: &DeviceStatus) -> (text: String)
    ensures
        text@ == tooltip_text(device.name@, *status),
{
    let mut text = device.name.clone();
    if !status.connected {
        text.append(": Disconnected");
        return text;
    }
    let state = if status.charging {
        "Charging"
    } else {
        "Connected"
    };
    match status.battery {
        Some(battery) => {
            if status.charging && battery >= 100 {
                text.append(": Fully charged (");
            } else {
                text.append(": ");
                text.append(state);
                text.append(" (");
            }
            append_decimal(&mut text, battery);
            text.append("%)");
        },
        None => {
            text.append(": ");
            text.append(state);
        },
    }
    text
}

/// A headset that is not connected reads `<name>: Disconnected`, whatever
/// its level and charging state.
pub proof fn lemma_tooltip_disconnected(name: Seq<char>, status: DeviceStatus)
    requires
        !status.connected,
    ensures
        tooltip_text(name, status) == name + ": Disconnected"@,
{
}

/// A connected headset with no known level reads `<name>: Charging` or
/// `<name>: Connected`.
pub proof fn lemma_tooltip_without_level(name: Seq<char>, status: DeviceStatus)
    requires
        status.connected,
        status.battery is None,
    ensures
        status.charging ==> tooltip_text(name, status) == name + ": Charging"@,
        !status.charging ==> tooltip_text(name, status) == name + ": Connected"@,
{
    assert(name + ": "@ + "Charging"@ =~= name + ": Charging"@) by {
        reveal_strlit(": ");
        reveal_strlit("Charging");
        reveal_strlit(": Charging");
    }
    assert(name + ": "@ + "Connected"@ =~= name + ": Connected"@) by {
        reveal_strlit(": ");
        reveal_strlit("Connected");
        reveal_strlit(": Connected");
    }
}

/// A connected headset with a known level `L` reads
/// `<name>: Fully charged (L%)` when charging at 100 percent or more,
/// `<name>: Charging (L%)` when charging below, `<name>: Connected (L%)`
/// when not charging.
pub proof fn lemma_tooltip_with_level(name: Seq<char>, status: DeviceStatus)
    requires
        status.connected,
        status.battery is Some,
    ensures
        ({
            let level = decimal(status.battery->0 as nat);
            &&& status.charging && status.battery->0 >= 100 ==> tooltip_text(name, status) == name
                + ": Fully charged ("@ + level + "%)"@
            &&& status.charging && status.battery->0 < 100 ==> tooltip_text(name, status) == name
                + ": Charging ("@ + level + "%)"@
            &&& !status.charging ==> tooltip_text(name, status) == name + ": Connected ("@ + level
                + "%)"@
        }),
{
    let level = decimal(status.battery->0 as nat);
    assert(name + ": "@ + "Charging"@ + " ("@ + level + "%)"@ =~= name + ": Charging ("@ + level
        + "%)"@) by {
        reveal_strlit(": ");
        reveal_strlit("Charging");
        reveal_strlit(" (");
        reveal_strlit(": Charging (");
    }
    assert(name + ": "@ + "Connected"@ + " ("@ + level + "%)"@ =~= name + ": Connected ("@
        + level + "%)"@) by {
        reveal_strlit(": ");
        reveal_strlit("Connected");
        reveal_strlit(" (");
        reveal_strlit(": Connected (");
    }
}

/// The decimal notation of a byte: its hundreds, tens and units digits,
/// without leading zeros.
pub proof fn lemma_decimal_byte(n: u8)
    ensures
        n < 10 ==> decimal(n as nat) == seq![(48 + n) as char],
        10 <= n < 100 ==> decimal(n as nat) == seq![(48 + n / 10) as char, (48 + n % 10) as char],
        100 <= n ==> decimal(n as nat) == seq![
            (48 + n / 100) as char,
            (48 + (n / 10) % 10) as char,
            (48 + n % 10) as char,
        ],
{
    if n >= 100 {
        assert(decimal((n / 100) as nat) == seq![digit_char((n / 100) as int)]);
        assert(decimal((n / 10) as nat) =~= seq![digit_char((n / 100) as int)] + seq![
            digit_char(((n / 10) % 10) as int),
        ]);
        assert(decimal(n as nat) =~= seq![
            (48 + n / 100) as char,
            (48 + (n / 10) % 10) as char,
            (48 + n % 10) as char,
        ]);
    } else if n >= 10 {
        assert(decimal((n / 10) as nat) == seq![digit_char((n / 10) as int)]);
        assert(decimal(n as nat) =~= seq![(48 + n / 10) as char, (48 + n % 10) as char]);
    }
}

/// Every tooltip starts with the headset's name.
pub proof fn lemma_tooltip_starts_with_name(name: Seq<char>, status: DeviceStatus)
    ensures
        tooltip_text(name, status).len() >= name.len(),
        tooltip_text(name, status).subrange(0, name.len() as int) == name,
{
    let t = tooltip_text(name, status);
    let rest = t.subrange(name.len() as int, t.len() as int);
    assert(t =~= name + rest);
    assert(t.subrange(0, name.len() as int) =~= name);
}

} // verus!
