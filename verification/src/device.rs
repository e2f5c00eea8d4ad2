//! Audio device classification: which devices a list of device names
//! describes, and which of them look like virtual microphone devices.
//! Enumerating the devices themselves is left to the embedding.

use vstd::prelude::*;

use crate::state::str_eq;
use crate::text::lower_of;
use crate::text::lowercase;
use crate::text::spec_contains;
use crate::text::str_contains;

verus! {

/// Information about an audio output device.
#[derive(Debug, PartialEq)]
pub struct OutputDeviceInfo {
    pub id: String,
    pub name: String,
    pub is_default: bool,
}

/// Information about a virtual audio device.
#[derive(Debug, PartialEq)]
pub struct VirtualDeviceInfo {
    pub id: String,
    pub name: String,
    pub is_default: bool,
}

/// Mathematical model of a device description.
#[verifier::ext_equal]
pub ghost struct DeviceInfoV {
    pub id: Seq<char>,
    pub name: Seq<char>,
    pub is_default: bool,
}

impl View for OutputDeviceInfo {
    type V = DeviceInfoV;

    open spec fn view(&self) -> DeviceInfoV {
        DeviceInfoV { id: self.id@, name: self.name@, is_default: self.is_default }
    }
}

impl View for VirtualDeviceInfo {
    type V = DeviceInfoV;

    open spec fn view(&self) -> DeviceInfoV {
        DeviceInfoV { id: self.id@, name: self.name@, is_default: self.is_default }
    }
}

/// Whether a case-folded device name marks a virtual audio device.
pub open spec fn spec_is_virtual_name(folded: Seq<char>) -> bool {
    ||| spec_contains(folded, "cable"@)
    ||| spec_contains(folded, "virtual"@)
    ||| spec_contains(folded, "voicemeeter"@)
    ||| spec_contains(folded, "vb-audio"@)
    ||| spec_contains(folded, "aux"@)
}

/// Whether a device name marks a virtual audio device: its case folding
/// contains one of the known keywords.
pub fn is_virtual_device_name(name: &str) -> (r: bool)
    ensures
        r == spec_is_virtual_name(lower_of(name@)),
{
    let folded = lowercase(name);
    let f = folded.as_str();
    str_contains(f, "cable") || str_contains(f, "virtual") || str_contains(f, "voicemeeter")
        || str_contains(f, "vb-audio") || str_contains(f, "aux")
}

/// The description of an output device: the name doubles as the
/// identifier, and the device is the default one exactly when its name is
/// the default device's.
pub open spec fn spec_output_info(name: Seq<char>, default_name: Option<String>) -> DeviceInfoV {
    DeviceInfoV {
        id: name,
        name,
        is_default: match default_name {
            Some(d) => d@ == name,
            None => false,
        },
    }
}

/// Describe every output device, given the device names and the default
/// device's name.
pub fn find_all_output_devices(names: Vec<String>, default_name: Option<String>) -> (r: Vec<
    OutputDeviceInfo,
>)
    ensures
        r@.map_values(|d: OutputDeviceInfo| d@) == names@.map_values(
            |n: String| spec_output_info(n@, default_name),
        ),
{
    broadcast use vstd::prelude::Seq::lemma_push_map_commute;
    broadcast use vstd::prelude::Seq::lemma_map_take_succ;

    let mut r: Vec<OutputDeviceInfo> = Vec::new();
    let mut i: usize = 0;
    while i < names.len()
        invariant
            i <= names@.len(),
            r@.map_values(|d: OutputDeviceInfo| d@) =~= names@.take(i as int).map_values(
                |n: String| spec_output_info(n@, default_name),
            ),
        decreases names@.len() - i,
    {
        let name = names[i].clone();
        let is_default = match &default_name {
            Some(d) => str_eq(d.as_str(), name.as_str()),
            None => false,
        };
        let ghost r0 = r@;
        let info = OutputDeviceInfo { id: name.clone(), name, is_default };
        let ghost info0 = info;
        r.push(info);
        proof {
            assert(r@ =~= r0.push(info0));
            assert(info0@ == spec_output_info(names@[i as int]@, default_name));
            assert(names@.take(i as int + 1).map_values(
                |n: String| spec_output_info(n@, default_name),
            ) =~= names@.take(i as int).map_values(
                |n: String| spec_output_info(n@, default_name),
            ).push(spec_output_info(names@[i as int]@, default_name)));
            assert(r@.map_values(|d: OutputDeviceInfo| d@) =~= names@.take(i as int + 1).map_values(
                |n: String| spec_output_info(n@, default_name),
            ));
        }
        i = i + 1;
    }
    proof {
        assert(names@.take(names@.len() as int) =~= names@);
    }
    r
}

/// Select the virtual audio devices among the given device names, by the
/// keywords in their case-folded names.
pub fn find_virtual_devices(names: Vec<String>) -> (r: Vec<VirtualDeviceInfo>)
    ensures
        r@.map_values(|d: VirtualDeviceInfo| d@) == names@.filter(
            |n: String| spec_is_virtual_name(lower_of(n@)),
        ).map_values(|n: String| (DeviceInfoV { id: n@, name: n@, is_default: false })),
{
    broadcast use vstd::prelude::Seq::lemma_push_map_commute;

    let mut r: Vec<VirtualDeviceInfo> = Vec::new();
    let mut i: usize = 0;
    while i < names.len()
        invariant
            i <= names@.len(),
            r@.map_values(|d: VirtualDeviceInfo| d@) =~= names@.take(i as int).filter(
                |n: String| spec_is_virtual_name(lower_of(n@)),
            ).map_values(|n: String| (DeviceInfoV { id: n@, name: n@, is_default: false })),
        decreases names@.len() - i,
    {
        proof {
            assert(names@.take(i as int + 1).drop_last() =~= names@.take(i as int));
            assert(names@.take(i as int + 1).last() == names@[i as int]);
        }
        if is_virtual_device_name(names[i].as_str()) {
            let name = names[i].clone();
            let ghost r0 = r@;
            let info = VirtualDeviceInfo { id: name.clone(), name, is_default: false };
            let ghost info0 = info;
            r.push(info);
            proof {
                reveal_with_fuel(Seq::filter, 2);
                assert(names@.take(i as int + 1).filter(
                    |n: String| spec_is_virtual_name(lower_of(n@)),
                ) =~= names@.take(i as int).filter(
                    |n: String| spec_is_virtual_name(lower_of(n@)),
                ).push(names@[i as int]));
                assert(r@ =~= r0.push(info0));
                assert(info0@ == (DeviceInfoV {
                    id: names@[i as int]@,
                    name: names@[i as int]@,
                    is_default: false,
                }));
                assert(r@.map_values(|d: VirtualDeviceInfo| d@) =~= r0.map_values(
                    |d: VirtualDeviceInfo| d@,
                ).push(info0@));
                assert(names@.take(i as int).filter(
                    |n: String| spec_is_virtual_name(lower_of(n@)),
                ).push(names@[i as int]).map_values(
                    |n: String| (DeviceInfoV { id: n@, name: n@, is_default: false }),
                ) =~= names@.take(i as int).filter(
                    |n: String| spec_is_virtual_name(lower_of(n@)),
                ).map_values(
                    |n: String| (DeviceInfoV { id: n@, name: n@, is_default: false }),
                ).push((DeviceInfoV {
                    id: names@[i as int]@,
                    name: names@[i as int]@,
                    is_default: false,
                })));
                assert(r@.map_values(|d: VirtualDeviceInfo| d@) =~= names@.take(i as int + 1).filter(
                    |n: String| spec_is_virtual_name(lower_of(n@)),
                ).map_values(|n: String| (DeviceInfoV { id: n@, name: n@, is_default: false })));
            }
        } else {
            proof {
                reveal_with_fuel(Seq::filter, 2);
                assert(names@.take(i as int + 1).filter(
                    |n: String| spec_is_virtual_name(lower_of(n@)),
                ) =~= names@.take(i as int).filter(
                    |n: String| spec_is_virtual_name(lower_of(n@)),
                ));
                assert(r@.map_values(|d: VirtualDeviceInfo| d@) =~= names@.take(i as int + 1).filter(
                    |n: String| spec_is_virtual_name(lower_of(n@)),
                ).map_values(|n: String| (DeviceInfoV { id: n@, name: n@, is_default: false })));
            }
        }
        i = i + 1;
    }
    proof {
        assert(names@.take(names@.len() as int) =~= names@);
    }
    r
}

} // verus!
