//! Cooling devices: their kind and how hard they are working.
use vstd::prelude::*;

use crate::device::{dir_views, DeviceDir, DirView};
use crate::utils::{
    device_name, get_device_name, is_thermal_sensor, outcome, parse_entry_file, parse_file_to_i32,
    required_int, required_text, AcpiClientError, Failure,
};

verus! {

/// State information on a cooling device's activity.
#[derive(Clone, Copy, Debug, PartialEq, Eq, Structural)]
pub struct CoolingStatus {
    /// The current level of the cooling device relative to the max_state.
    pub current_state: i32,
    /// The maximum level of activity of the cooling device.
    pub max_state: i32,
}

/// Information about cooling devices available to the system.
#[derive(Debug)]
pub struct CoolingDevice {
    /// The name used by ACPI to refer to the device.
    pub name: String,
    /// The activity state of the device; `None` when it reports a negative
    /// current level.
    pub state: Option<CoolingStatus>,
    /// The type of device the cooling device is attached to.
    pub device_type: String,
}

/// The abstract form of a `CoolingDevice`.
pub struct CoolingView {
    pub name: Seq<char>,
    pub state: Option<CoolingStatus>,
    pub device_type: Seq<char>,
}

impl View for CoolingDevice {
    type V = CoolingView;

    open spec fn view(&self) -> CoolingView {
        CoolingView { name: self.name@, state: self.state, device_type: self.device_type@ }
    }
}

/// A cooling device read from its name, `cur_state`, `max_state` and `type`.
pub open spec fn cooling_of(d: DirView) -> Result<CoolingView, Failure> {
    let name = device_name(d.path);
    let current = required_int(d, "cur_state"@, 1);
    let max = required_int(d, "max_state"@, 1);
    let kind = required_text(d, "type"@);
    if name is Err {
        Err(name->Err_0)
    } else if current is Err {
        Err(current->Err_0)
    } else if max is Err {
        Err(max->Err_0)
    } else if kind is Err {
        Err(kind->Err_0)
    } else {
        let state = if current->Ok_0 >= 0 {
            Some(CoolingStatus { current_state: current->Ok_0, max_state: max->Ok_0 })
        } else {
            None
        };
        Ok(CoolingView { name: name->Ok_0, state, device_type: kind->Ok_0 })
    }
}

/// The cooling devices among `ds`, in order: each directory without a `temp`
/// file that reads as a cooling device; the others are skipped.
pub open spec fn cooling_devices_in(ds: Seq<DirView>) -> Seq<CoolingView>
    decreases ds.len(),
{
    if ds.len() == 0 {
        Seq::empty()
    } else {
        let d = ds.last();
        let found = cooling_devices_in(ds.drop_last());
        if !d.files.contains_key("temp"@) && cooling_of(d) is Ok {
            found.push(cooling_of(d)->Ok_0)
        } else {
            found
        }
    }
}

impl CoolingDevice {
    /// Reads the cooling device in `device`.
    pub fn new(device: &DeviceDir) -> (r: Result<CoolingDevice, AcpiClientError>)
        ensures
            outcome(r) == cooling_of(device@),
    {
        let name = get_device_name(device.path())?;
        let current_state = parse_file_to_i32(device, "cur_state", 1)?;
        let max_state = parse_file_to_i32(device, "max_state", 1)?;
        let device_type = parse_entry_file(device, "type")?;
        let state = if current_state >= 0 {
            Some(CoolingStatus { current_state, max_state })
        } else {
            None
        };
        Ok(CoolingDevice { name, state, device_type })
    }
}

/// Reads every cooling device among the device directories.
pub fn get_cooling_device_info(devices: &Vec<DeviceDir>) -> (r: Vec<CoolingDevice>)
    ensures
        r@.map_values(|c: CoolingDevice| c@) == cooling_devices_in(dir_views(devices@)),
{
    let ghost ds = dir_views(devices@);
    let mut results: Vec<CoolingDevice> = Vec::new();
    let mut i: usize = 0;
    proof {
        assert(ds.take(0) =~= Seq::<DirView>::empty());
        assert(results@.map_values(|c: CoolingDevice| c@) =~= Seq::<CoolingView>::empty());
    }
    while i < devices.len()
        invariant
            i <= devices@.len(),
            ds == dir_views(devices@),
            cooling_devices_in(ds.take(i as int)) == results@.map_values(|c: CoolingDevice| c@),
        decreases devices@.len() - i,
    {
        let device = &devices[i];
        proof {
            assert(ds.take(i + 1).drop_last() =~= ds.take(i as int));
            assert(ds.take(i + 1).last() == device@);
        }
        if !is_thermal_sensor(device) {
            if let Ok(cooling) = CoolingDevice::new(device) {
                let ghost before = results@;
                results.push(cooling);
                proof {
                    assert(results@.map_values(|c: CoolingDevice| c@) =~= before.map_values(
                        |c: CoolingDevice| c@,
                    ).push(cooling@));
                }
            }
        }
        i = i + 1;
    }
    proof {
        assert(ds.take(i as int) =~= ds);
    }
    results
}

} // verus!
