//! The device directory: resolving a requested device name against the
//! host's inventory. The literal name `"default"` (in any letter case)
//! resolves to the host's default input device; any other name must match a
//! device exactly, and a miss reports the names that were available.

use crate::host::{DeviceSnapshot, HostSnapshot};
use crate::text::{comma_joined, join_comma};
use vstd::prelude::*;
use vstd::string::{StrSliceExecFns, StringExecFns};

verus! {

/// One entry of the device list handed to the control surface. The host
/// gives no identity beyond the display name, so both fields carry it.
#[derive(Debug)]
pub struct DeviceInfo {
    pub device_id: String,
    pub label: String,
}

/// The mathematical shape of a `DeviceInfo`.
pub struct DeviceInfoModel {
    pub device_id: Seq<char>,
    pub label: Seq<char>,
}

impl View for DeviceInfo {
    type V = DeviceInfoModel;

    open spec fn view(&self) -> DeviceInfoModel {
        DeviceInfoModel { device_id: self.device_id@, label: self.label@ }
    }
}

impl DeepView for DeviceInfo {
    type V = DeviceInfoModel;

    open spec fn deep_view(&self) -> DeviceInfoModel {
        self.view()
    }
}

/// The display names of the given devices, in inventory order.
pub open spec fn device_names(devices: Seq<DeviceSnapshot>) -> Seq<Seq<char>> {
    devices.map_values(|d: DeviceSnapshot| d.name@)
}

/// Whether a requested name asks for the host's default input device:
/// the seven letters of `"default"`, each in either letter case.
pub open spec fn is_default_request(s: Seq<char>) -> bool {
    &&& s.len() == 7
    &&& (s[0] == 'd' || s[0] == 'D')
    &&& (s[1] == 'e' || s[1] == 'E')
    &&& (s[2] == 'f' || s[2] == 'F')
    &&& (s[3] == 'a' || s[3] == 'A')
    &&& (s[4] == 'u' || s[4] == 'U')
    &&& (s[5] == 'l' || s[5] == 'L')
    &&& (s[6] == 't' || s[6] == 'T')
}

/// Decides whether `s` asks for the default input device.
pub fn is_default_name(s: &String) -> (r: bool)
    ensures
        r == is_default_request(s@),
{
    let sl: &str = s.as_str();
    if sl.unicode_len() != 7 {
        return false;
    }
    let c0 = sl.get_char(0);
    let c1 = sl.get_char(1);
    let c2 = sl.get_char(2);
    let c3 = sl.get_char(3);
    let c4 = sl.get_char(4);
    let c5 = sl.get_char(5);
    let c6 = sl.get_char(6);
    (c0 == 'd' || c0 == 'D') && (c1 == 'e' || c1 == 'E') && (c2 == 'f' || c2 == 'F') && (c3 == 'a'
        || c3 == 'A') && (c4 == 'u' || c4 == 'U') && (c5 == 'l' || c5 == 'L') && (c6 == 't' || c6
        == 'T')
}

/// The first device carrying the requested display name, if any.
pub open spec fn first_device_named(devices: Seq<DeviceSnapshot>, name: Seq<char>) -> Option<
    DeviceSnapshot,
>
    decreases devices.len(),
{
    if devices.len() == 0 {
        None
    } else if devices[0].name@ == name {
        Some(devices[0])
    } else {
        first_device_named(devices.drop_first(), name)
    }
}

/// The diagnostic for a name that matched no device: it repeats the
/// requested name and lists every name that was available.
pub open spec fn spec_not_found_message(requested: Seq<char>, names: Seq<Seq<char>>) -> Seq<char> {
    "Device '"@ + requested + "' not found. Available devices: ["@ + comma_joined(names) + "]"@
}

/// How a requested name resolves against the host: the chosen device, or
/// the exact error text the worker reports.
pub open spec fn spec_find_device(host: HostSnapshot, requested: Seq<char>) -> Result<
    DeviceSnapshot,
    Seq<char>,
> {
    if is_default_request(requested) {
        match host.default_device {
            Some(d) => Ok(d),
            None => Err("No default input device available"@),
        }
    } else {
        match host.devices {
            Err(e) => Err(e@),
            Ok(devs) => if devs@.len() == 0 {
                Err("No recording devices available"@)
            } else {
                match first_device_named(devs@, requested) {
                    Some(d) => Ok(d),
                    None => Err(spec_not_found_message(requested, device_names(devs@))),
                }
            },
        }
    }
}

/// Clones the display names of the given devices, in order.
pub fn collect_device_names(devices: &Vec<DeviceSnapshot>) -> (r: Vec<String>)
    ensures
        r.deep_view() == device_names(devices@),
{
    let mut r: Vec<String> = Vec::new();
    let mut i: usize = 0;
    while i < devices.len()
        invariant
            i <= devices.len(),
            r.deep_view() =~= device_names(devices@).take(i as int),
        decreases devices.len() - i,
    {
        let ghost prev = r;
        r.push(devices[i].name.clone());
        proof {
            let names = device_names(devices@);
            assert(names.len() == devices@.len());
            assert(prev.deep_view() =~= names.take(i as int));
            assert(prev.deep_view().len() == i as int);
            assert(prev@.len() == i as int);
            assert(r@.len() == i as int + 1);
            assert forall|j: int| 0 <= j < i as int + 1 implies #[trigger] r.deep_view()[j]
                == names.take(i as int + 1)[j] by {
                assert(r.deep_view()[j] == r@[j]@);
                if j < i as int {
                    assert(r@[j] == prev@[j]);
                    assert(prev.deep_view()[j] == prev@[j]@);
                    assert(prev.deep_view()[j] == names.take(i as int)[j]);
                }
                assert(names[j] == devices@[j].name@);
            }
            assert(r.deep_view() =~= names.take(i as int + 1));
        }
        i += 1;
    }
    proof {
        assert(device_names(devices@).take(devices@.len() as int) =~= device_names(devices@));
    }
    r
}

/// Resolves a requested device name against the host's inventory.
pub fn find_device<'a>(host: &'a HostSnapshot, requested: &String) -> (r: Result<
    &'a DeviceSnapshot,
    String,
>)
    ensures
        match r {
            Ok(d) => spec_find_device(*host, requested@) == Ok::<DeviceSnapshot, Seq<char>>(*d),
            Err(e) => spec_find_device(*host, requested@) matches Err(m) && m == e@,
        },
{
    if is_default_name(requested) {
        match &host.default_device {
            Some(d) => Ok(d),
            None => Err(String::from_str("No default input device available")),
        }
    } else {
        match &host.devices {
            Err(e) => Err(e.clone()),
            Ok(devs) => {
                if devs.len() == 0 {
                    return Err(String::from_str("No recording devices available"));
                }
                let mut i: usize = 0;
                proof {
                    assert(devs@.skip(0) =~= devs@);
                }
                while i < devs.len()
                    invariant
                        i <= devs.len(),
                        !is_default_request(requested@),
                        host.devices matches Ok(dv) && dv@ == devs@,
                        devs@.len() > 0,
                        first_device_named(devs@.skip(i as int), requested@) == first_device_named(
                            devs@,
                            requested@,
                        ),
                    decreases devs.len() - i,
                {
                    if devs[i].name == *requested {
                        proof {
                            assert(devs@.skip(i as int)[0] == devs@[i as int]);
                            assert(first_device_named(devs@.skip(i as int), requested@) == Some(
                                devs@[i as int],
                            ));
                        }
                        return Ok(&devs[i]);
                    }
                    proof {
                        assert(devs@.skip(i as int).drop_first() =~= devs@.skip(i + 1));
                        assert(devs@.skip(i as int)[0] == devs@[i as int]);
                    }
                    i += 1;
                }
                proof {
                    assert(devs@.skip(devs@.len() as int) =~= Seq::<DeviceSnapshot>::empty());
                }
                let names = collect_device_names(devs);
                let joined = join_comma(&names);
                let mut msg = String::from_str("Device '");
                msg.append(requested.as_str());
                msg.append("' not found. Available devices: [");
                msg.append(joined.as_str());
                msg.append("]");
                proof {
                    assert(msg@ =~= spec_not_found_message(requested@, device_names(devs@)));
                }
                Err(msg)
            },
        }
    }
}

/// The display names of the host's current input devices, or the host's
/// enumeration error.
pub fn enumerate_audio_device_names(host: &HostSnapshot) -> (r: Result<Vec<String>, String>)
    ensures
        match r {
            Ok(v) => host.devices matches Ok(devs) && v.deep_view() == device_names(devs@),
            Err(e) => host.devices matches Err(m) && e@ == m@,
        },
{
    match &host.devices {
        Ok(devs) => Ok(collect_device_names(devs)),
        Err(e) => Err(e.clone()),
    }
}

} // verus!
