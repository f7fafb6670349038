//! Editing the list of devices that layout changes are applied to.

use vstd::prelude::*;

use crate::state::Data;
use crate::state::StateModel;

verus! {

/// Why a configuration request was rejected.  Nothing is stored when a
/// request is rejected.
#[derive(Clone, Copy, Debug, PartialEq, Eq, Structural)]
pub enum ConfigError {
    /// The device name is not among the devices the compositor reports.
    UnknownDevice,
    /// The burst window lies outside the accepted range.
    InvalidDuration,
}

/// Whether `name` occurs in `list`.
pub fn contains_device(list: &Vec<String>, name: &String) -> (r: bool)
    ensures
        r == list.deep_view().contains(name@),
{
    let mut j: usize = 0;
    while j < list.len()
        invariant
            j <= list.len(),
            forall|k: int| 0 <= k < j ==> list.deep_view()[k] != name@,
        decreases list.len() - j,
    {
        if list[j] == *name {
            assert(list.deep_view()[j as int] == name@);
            return true;
        }
        j += 1;
    }
    false
}

/// Appends `device_name` to the device list, provided the compositor
/// knows it (it occurs in `available`); otherwise rejects it and leaves
/// the state untouched.  Duplicates are not prevented.
pub fn add_device(data: &mut Data, device_name: &String, available: &Vec<String>) -> (r: Result<
    (),
    ConfigError,
>)
    ensures
        r is Ok <==> available.deep_view().contains(device_name@),
        match r {
            Ok(()) => final(data)@ == (StateModel {
                devices: old(data)@.devices.push(device_name@),
                ..old(data)@
            }),
            Err(e) => final(data)@ == old(data)@ && e == ConfigError::UnknownDevice,
        },
        old(data)@.wf() ==> final(data)@.wf(),
{
    if !contains_device(available, device_name) {
        return Err(ConfigError::UnknownDevice);
    }
    data.devices.push(device_name.clone());
    proof {
        assert(data@ =~= (StateModel {
            devices: old(data)@.devices.push(device_name@),
            ..old(data)@
        }));
    }
    Ok(())
}

/// Removes the first entry equal to `device_name`, if any; an absent name
/// is a no-op, not an error.  Returns whether an entry was removed.
pub fn remove_device(data: &mut Data, device_name: &String) -> (removed: bool)
    ensures
        removed == old(data)@.devices.contains(device_name@),
        final(data)@ == (StateModel {
            devices: match old(data)@.devices.index_of_first(device_name@) {
                Some(i) => old(data)@.devices.remove(i),
                None => old(data)@.devices,
            },
            ..old(data)@
        }),
        old(data)@.wf() ==> final(data)@.wf(),
{
    let mut j: usize = 0;
    while j < data.devices.len()
        invariant
            j <= data.devices.len(),
            forall|k: int| 0 <= k < j ==> data.devices.deep_view()[k] != device_name@,
            data == old(data),
        decreases data.devices.len() - j,
    {
        if data.devices[j] == *device_name {
            proof {
                old(data)@.devices.index_of_first_ensures(device_name@);
                assert(data.devices.deep_view()[j as int] == device_name@);
                assert(old(data)@.devices.index_of_first(device_name@) == Some(j as int));
            }
            data.devices.remove(j);
            proof {
                assert(data@ =~= (StateModel {
                    devices: old(data)@.devices.remove(j as int),
                    ..old(data)@
                }));
            }
            return true;
        }
        j += 1;
    }
    proof {
        old(data)@.devices.index_of_first_ensures(device_name@);
        assert(!old(data)@.devices.contains(device_name@));
        assert(data@ =~= old(data)@);
    }
    false
}

/// A device-management request, as the command line hands it over.
pub enum DeviceCmd {
    /// Show the stored device names (reading them is the caller's part;
    /// the state is untouched).
    List,
    /// Add a device by name; rejected when the compositor does not know
    /// the name.
    Add { device_name: String },
    /// Remove the first stored entry of that name; an absent name is a
    /// no-op.
    Remove { device_name: String },
}

impl DeviceCmd {
    /// Applies the request to the state.  `available` is the device list
    /// the compositor reports, consulted only by [`DeviceCmd::Add`].
    pub fn handle(&self, data: &mut Data, available: &Vec<String>) -> (r: Result<(), ConfigError>)
        ensures
            match self {
                DeviceCmd::List => r is Ok && final(data)@ == old(data)@,
                DeviceCmd::Add { device_name } => {
                    &&& (r is Ok <==> available.deep_view().contains(device_name@))
                    &&& match r {
                        Ok(()) => final(data)@ == (StateModel {
                            devices: old(data)@.devices.push(device_name@),
                            ..old(data)@
                        }),
                        Err(e) => final(data)@ == old(data)@ && e == ConfigError::UnknownDevice,
                    }
                },
                DeviceCmd::Remove { device_name } => r is Ok && final(data)@ == (StateModel {
                    devices: match old(data)@.devices.index_of_first(device_name@) {
                        Some(i) => old(data)@.devices.remove(i),
                        None => old(data)@.devices,
                    },
                    ..old(data)@
                }),
            },
            old(data)@.wf() ==> final(data)@.wf(),
    {
        match self {
            DeviceCmd::List => Ok(()),
            DeviceCmd::Add { device_name } => add_device(data, device_name, available),
            DeviceCmd::Remove { device_name } => {
                remove_device(data, device_name);
                Ok(())
            },
        }
    }
}

} // verus!
