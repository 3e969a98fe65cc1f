use vstd::prelude::*;

verus! {

/// USB vendor id of Corsair.
pub const CORSAIR_VID: u16 = 0x1B1C;

/// USB product id of the Virtuoso RGB Wireless XT.
pub const VIRTUOSO_XT_PID: u16 = 0x0A64;

/// HID usage page of the interface through which Virtuoso headsets answer.
pub const VIRTUOSO_USAGE_PAGE: u16 = 0xFF42;

/// HID usage of the interface through which Virtuoso headsets answer.
pub const VIRTUOSO_USAGE: u16 = 0x01;

/// The way a headset is asked for its battery.
#[derive(Clone, Copy, Debug, PartialEq, Eq, Structural)]
pub enum Protocol {
    /// One two-byte request, answered with level and state in one report.
    Legacy,
    /// 64-byte requests per value, on a vendor-specific interface.
    Virtuoso,
}

/// A supported headset.
#[derive(Clone, Copy, Debug)]
pub struct DeviceProfile {
    pub pid: u16,
    pub name: &'static str,
    pub protocol: Protocol,
}

/// The headset that answered.
#[derive(Clone, Debug)]
pub struct ConnectedDevice {
    pub name: String,
}

/// What a headset reported.
#[derive(Clone, Copy, Debug, PartialEq, Eq, Structural)]
pub struct DeviceStatus {
    pub connected: bool,
    pub battery: Option<u8>,
    pub charging: bool,
}

impl Default for DeviceStatus {
    fn default() -> (status: Self)
        ensures
            status == (DeviceStatus { connected: false, battery: None, charging: false }),
    {
        DeviceStatus { connected: false, battery: None, charging: false }
    }
}

/// The supported headsets, by USB product id (some share a name).
pub open spec fn profile_table() -> Seq<DeviceProfile> {
    seq![
        DeviceProfile { pid: 0x0A38, name: "HS70 Wireless", protocol: Protocol::Legacy },
        DeviceProfile { pid: 0x0A4F, name: "HS70 PRO Wireless", protocol: Protocol::Legacy },
        DeviceProfile { pid: 0x1B27, name: "VOID Wireless", protocol: Protocol::Legacy },
        DeviceProfile { pid: 0x0A2B, name: "VOID Wireless", protocol: Protocol::Legacy },
        DeviceProfile { pid: 0x0A14, name: "VOID PRO Wireless", protocol: Protocol::Legacy },
        DeviceProfile { pid: 0x0A16, name: "VOID PRO Wireless", protocol: Protocol::Legacy },
        DeviceProfile { pid: 0x0A1A, name: "VOID PRO Wireless", protocol: Protocol::Legacy },
        DeviceProfile { pid: 0x0A55, name: "VOID ELITE Wireless", protocol: Protocol::Legacy },
        DeviceProfile { pid: 0x0A51, name: "VOID ELITE Wireless", protocol: Protocol::Legacy },
        DeviceProfile { pid: 0x0A3E, name: "Virtuoso RGB Wireless SE", protocol: Protocol::Virtuoso },
        DeviceProfile { pid: 0x0A40, name: "Virtuoso RGB Wireless", protocol: Protocol::Legacy },
        DeviceProfile { pid: 0x0A42, name: "Virtuoso RGB Wireless", protocol: Protocol::Legacy },
        DeviceProfile { pid: 0x0A44, name: "Virtuoso RGB Wireless", protocol: Protocol::Legacy },
        DeviceProfile { pid: 0x0A5C, name: "Virtuoso RGB Wireless", protocol: Protocol::Legacy },
        DeviceProfile { pid: VIRTUOSO_XT_PID, name: "Virtuoso RGB Wireless XT", protocol: Protocol::Virtuoso },
    ]
}

/// The supported headsets.
pub fn profiles() -> (table: [DeviceProfile; 15])
    ensures
        table@ == profile_table(),
{
    let table = [
        DeviceProfile { pid: 0x0A38, name: "HS70 Wireless", protocol: Protocol::Legacy },
        DeviceProfile { pid: 0x0A4F, name: "HS70 PRO Wireless", protocol: Protocol::Legacy },
        DeviceProfile { pid: 0x1B27, name: "VOID Wireless", protocol: Protocol::Legacy },
        DeviceProfile { pid: 0x0A2B, name: "VOID Wireless", protocol: Protocol::Legacy },
        DeviceProfile { pid: 0x0A14, name: "VOID PRO Wireless", protocol: Protocol::Legacy },
        DeviceProfile { pid: 0x0A16, name: "VOID PRO Wireless", protocol: Protocol::Legacy },
        DeviceProfile { pid: 0x0A1A, name: "VOID PRO Wireless", protocol: Protocol::Legacy },
        DeviceProfile { pid: 0x0A55, name: "VOID ELITE Wireless", protocol: Protocol::Legacy },
        DeviceProfile { pid: 0x0A51, name: "VOID ELITE Wireless", protocol: Protocol::Legacy },
        DeviceProfile { pid: 0x0A3E, name: "Virtuoso RGB Wireless SE", protocol: Protocol::Virtuoso },
        DeviceProfile { pid: 0x0A40, name: "Virtuoso RGB Wireless", protocol: Protocol::Legacy },
        DeviceProfile { pid: 0x0A42, name: "Virtuoso RGB Wireless", protocol: Protocol::Legacy },
        DeviceProfile { pid: 0x0A44, name: "Virtuoso RGB Wireless", protocol: Protocol::Legacy },
        DeviceProfile { pid: 0x0A5C, name: "Virtuoso RGB Wireless", protocol: Protocol::Legacy },
        DeviceProfile { pid: VIRTUOSO_XT_PID, name: "Virtuoso RGB Wireless XT", protocol: Protocol::Virtuoso },
    ];
    assert(table@ =~= profile_table());
    table
}

/// The first profile in `table` with product id `pid`, if any.
pub open spec fn first_profile(table: Seq<DeviceProfile>, pid: u16) -> Option<DeviceProfile>
    decreases table.len(),
{
    if table.len() == 0 {
        None
    } else if table[0].pid == pid {
        Some(table[0])
    } else {
        first_profile(table.drop_first(), pid)
    }
}

/// The first profile of a table with a product id is one of the table's
/// entries and has that id, with no earlier entry of that id; there is none
/// exactly when no entry has the id.
pub proof fn lemma_first_profile(table: Seq<DeviceProfile>, pid: u16)
    ensures
        first_profile(table, pid) is None <==> (forall|i: int|
            0 <= i < table.len() ==> #[trigger] table[i].pid != pid),
        first_profile(table, pid) matches Some(p) ==> exists|i: int|
            0 <= i < table.len() && #[trigger] table[i] == p && p.pid == pid && (forall|j: int|
                0 <= j < i ==> #[trigger] table[j].pid != pid),
    decreases table.len(),
{
    if table.len() > 0 {
        lemma_first_profile(table.drop_first(), pid);
        if table[0].pid != pid {
            assert forall|i: int| 1 <= i < table.len() implies table[i] == #[trigger] table.drop_first()[i
                - 1] by {}
            if let Some(p) = first_profile(table, pid) {
                let k = choose|i: int|
                    0 <= i < table.drop_first().len() && #[trigger] table.drop_first()[i] == p
                        && p.pid == pid && (forall|j: int|
                        0 <= j < i ==> #[trigger] table.drop_first()[j].pid != pid);
                assert(table[k + 1] == p);
                assert forall|j: int| 0 <= j < k + 1 implies #[trigger] table[j].pid != pid by {
                    if j > 0 {
                        assert(table[j] == table.drop_first()[j - 1]);
                    }
                }
            } else {
                assert forall|i: int| 0 <= i < table.len() implies #[trigger] table[i].pid != pid by {
                    if i > 0 {
                        assert(table[i] == table.drop_first()[i - 1]);
                    }
                }
            }
        } else {
            assert(table[0] == table[0]);
        }
    }
}

/// Of the supported headsets, only the Virtuoso RGB Wireless SE (0x0A3E)
/// and XT (0x0A64) speak the Virtuoso protocol; every other listed product
/// id is legacy.
pub proof fn lemma_virtuoso_headsets(pid: u16)
    ensures
        first_profile(profile_table(), pid) matches Some(p) ==> (p.protocol == Protocol::Virtuoso
            <==> (pid == 0x0A3E || pid == 0x0A64)),
{
    reveal_with_fuel(first_profile, 16);
}

/// The first supported headset with product id `pid`.
pub fn find_profile(pid: u16) -> (profile: Option<DeviceProfile>)
    ensures
        profile == first_profile(profile_table(), pid),
{
    let table = profiles();
    let mut i: usize = 0;
    assert(profile_table().skip(0) =~= profile_table());
    while i < 15
        invariant
            0 <= i <= 15,
            table@ == profile_table(),
            first_profile(profile_table(), pid) == first_profile(profile_table().skip(i as int), pid),
        decreases 15 - i,
    {
        assert(profile_table().skip(i as int).drop_first() =~= profile_table().skip(i + 1));
        if table[i].pid == pid {
            return Some(table[i]);
        }
        i = i + 1;
    }
    assert(profile_table().skip(15) =~= Seq::<DeviceProfile>::empty());
    None
}

/// The profile under which a HID interface is queried: a Corsair headset
/// of the table, and for the Virtuoso protocol only its vendor-specific
/// interface; `None` for any other interface.
pub open spec fn accepted_profile(vendor_id: u16, product_id: u16, usage_page: u16, usage: u16) -> Option<
    DeviceProfile,
> {
    if vendor_id != CORSAIR_VID {
        None
    } else {
        match first_profile(profile_table(), product_id) {
            None => None,
            Some(profile) => if profile.protocol == Protocol::Virtuoso && (usage_page
                != VIRTUOSO_USAGE_PAGE || usage != VIRTUOSO_USAGE) {
                None
            } else {
                Some(profile)
            },
        }
    }
}

/// Decides whether a HID interface, given by its ids and usage, belongs to
/// a supported headset, and under which profile.
pub fn select_profile(vendor_id: u16, product_id: u16, usage_page: u16, usage: u16) -> (profile:
    Option<DeviceProfile>)
    ensures
        profile == accepted_profile(vendor_id, product_id, usage_page, usage),
{
    if vendor_id != CORSAIR_VID {
        return None;
    }
    let profile = match find_profile(product_id) {
        Some(profile) => profile,
        None => return None,
    };
    if profile.protocol == Protocol::Virtuoso && (usage_page != VIRTUOSO_USAGE_PAGE || usage
        != VIRTUOSO_USAGE) {
        return None;
    }
    Some(profile)
}

/// An accepted interface is a Corsair device whose product id the profile
/// carries; a Virtuoso-protocol profile is only accepted on the vendor
/// interface (usage page 0xFF42, usage 0x01). Conversely every Corsair
/// interface of a listed product is accepted when its protocol is legacy or
/// it is that vendor interface.
pub proof fn lemma_accepted_interface(vendor_id: u16, product_id: u16, usage_page: u16, usage: u16)
    ensures
        accepted_profile(vendor_id, product_id, usage_page, usage) matches Some(p) ==> {
            &&& vendor_id == 0x1B1C
            &&& p.pid == product_id
            &&& profile_table().contains(p)
            &&& p.protocol == Protocol::Virtuoso ==> usage_page == 0xFF42 && usage == 0x01
        },
        vendor_id == 0x1B1C && (exists|i: int|
            0 <= i < profile_table().len() && #[trigger] profile_table()[i].pid == product_id)
            && (first_profile(profile_table(), product_id)->0.protocol == Protocol::Legacy || (
        usage_page == 0xFF42 && usage == 0x01)) ==> accepted_profile(
            vendor_id,
            product_id,
            usage_page,
            usage,
        ) == first_profile(profile_table(), product_id),
        vendor_id != 0x1B1C ==> accepted_profile(vendor_id, product_id, usage_page, usage) is None,
{
    lemma_first_profile(profile_table(), product_id);
    if let Some(p) = first_profile(profile_table(), product_id) {
        let i = choose|i: int|
            0 <= i < profile_table().len() && #[trigger] profile_table()[i] == p && p.pid
                == product_id && (forall|j: int|
                0 <= j < i ==> #[trigger] profile_table()[j].pid != product_id);
        assert(profile_table()[i] == p);
    }
}

/// The name shown for a headset: the manufacturer that the device reports
/// (`Corsair` when it reports none), a space and the profile's name.
pub open spec fn device_name_text(manufacturer: Option<Seq<char>>, profile_name: Seq<char>) -> Seq<
    char,
> {
    match manufacturer {
        Some(m) => m + " "@ + profile_name,
        None => "Corsair"@ + " "@ + profile_name,
    }
}

/// A headset's name is its maker's name (`Corsair` when unreported), then
/// one space, then the profile's name.
pub proof fn lemma_device_name(manufacturer: Option<Seq<char>>, profile_name: Seq<char>)
    ensures
        ({
            let maker = match manufacturer {
                Some(m) => m,
                None => "Corsair"@,
            };
            let name = device_name_text(manufacturer, profile_name);
            &&& name.len() == maker.len() + 1 + profile_name.len()
            &&& name.subrange(0, maker.len() as int) == maker
            &&& name[maker.len() as int] == ' '
            &&& name.subrange(maker.len() as int + 1, name.len() as int) == profile_name
        }),
{
    reveal_strlit(" ");
    let maker = match manufacturer {
        Some(m) => m,
        None => "Corsair"@,
    };
    let name = device_name_text(manufacturer, profile_name);
    assert(name =~= maker + seq![' '] + profile_name);
    assert(name.subrange(0, maker.len() as int) =~= maker);
    assert(name.subrange(maker.len() as int + 1, name.len() as int) =~= profile_name);
}

/// The headset that answered, named after its reported manufacturer and its
/// profile.
pub fn connected_device(manufacturer: Option<&str>, profile: &DeviceProfile) -> (device:
    ConnectedDevice)
    ensures
        device.name@ == device_name_text(
            match manufacturer {
                Some(m) => Some(m@),
                None => None,
            },
            profile.name@,
        ),
{
    let mut name = match manufacturer {
        Some(m) => String::from_str(m),
        None => String::from_str("Corsair"),
    };
    name.append(" ");
    name.append(profile.name);
    ConnectedDevice { name }
}

} // verus!
