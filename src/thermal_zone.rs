//! Thermal zones: the current temperature and the trip points, found by
//! index until the first one that is missing or unreadable.
use vstd::prelude::*;

use crate::device::{dir_views, DeviceDir, DirView};
use crate::text::{decimal_string, decimal_text};
use crate::utils::{
    device_name, get_device_name, is_thermal_sensor, outcome, parse_entry_file, parse_file_to_i32,
    required_int, required_text, AcpiClientError, Failure,
};

verus! {

/// The units in which temperatures are to be shown.
#[derive(Clone, Copy, Debug, PartialEq, Eq, Structural)]
pub enum Units {
    Fahrenheit,
    Celsius,
    Kelvin,
}

/// The temperature at which the system acts to cool a thermal zone.
#[derive(Debug)]
pub struct TripPoint {
    /// The index of the trip point.
    pub number: u8,
    /// The action the system takes at this temperature, as the zone names it.
    pub action_type: String,
    /// The threshold, in thousandths of a degree Celsius.
    pub millicelsius: i32,
    /// The units in which the temperature is to be shown.
    pub units: Units,
}

/// A zone monitored by a temperature sensor.
#[derive(Debug)]
pub struct ThermalSensor {
    /// The name used by ACPI to refer to the sensor.
    pub name: String,
    /// The current temperature, in thousandths of a degree Celsius.
    pub current_millicelsius: i32,
    /// The units in which temperatures are to be shown.
    pub units: Units,
    /// The trip points of the zone, by index from 0.
    pub trip_points: Vec<TripPoint>,
}

/// The abstract form of a `TripPoint`.
pub struct TripPointView {
    pub number: u8,
    pub action_type: Seq<char>,
    pub millicelsius: i32,
    pub units: Units,
}

/// The abstract form of a `ThermalSensor`.
pub struct SensorView {
    pub name: Seq<char>,
    pub current_millicelsius: i32,
    pub units: Units,
    pub trip_points: Seq<TripPointView>,
}

impl View for TripPoint {
    type V = TripPointView;

    open spec fn view(&self) -> TripPointView {
        TripPointView {
            number: self.number,
            action_type: self.action_type@,
            millicelsius: self.millicelsius,
            units: self.units,
        }
    }
}

impl View for ThermalSensor {
    type V = SensorView;

    open spec fn view(&self) -> SensorView {
        SensorView {
            name: self.name@,
            current_millicelsius: self.current_millicelsius,
            units: self.units,
            trip_points: self.trip_points@.map_values(|t: TripPoint| t@),
        }
    }
}

/// The name of a trip point's file: `trip_point_<index>_<suffix>`.
pub open spec fn trip_file(index: nat, suffix: Seq<char>) -> Seq<char> {
    "trip_point_"@ + decimal_text(index) + "_"@ + suffix
}

/// A trip point read from its `type` file, then its `temp` file.
pub open spec fn trip_point_of(d: DirView, number: u8, units: Units) -> Result<TripPointView, Failure> {
    let action = required_text(d, trip_file(number as nat, "type"@));
    let temp = required_int(d, trip_file(number as nat, "temp"@), 1);
    if action is Err {
        Err(action->Err_0)
    } else if temp is Err {
        Err(temp->Err_0)
    } else {
        Ok(TripPointView { number, action_type: action->Ok_0, millicelsius: temp->Ok_0, units })
    }
}

/// The trip points from index `i` on: each one whose `temp` file exists and
/// that reads is taken, up to the first that does not; indices end at 255.
pub open spec fn trip_points_from(d: DirView, i: int, units: Units) -> Seq<TripPointView>
    decreases 256 - i,
{
    if i < 0 || i > 255 || !d.files.contains_key(trip_file(i as nat, "temp"@)) {
        Seq::empty()
    } else {
        match trip_point_of(d, i as u8, units) {
            Ok(tp) => seq![tp] + trip_points_from(d, i + 1, units),
            Err(_) => Seq::empty(),
        }
    }
}

/// A sensor read from its name, then its `temp` file, then its trip points.
pub open spec fn sensor_of(d: DirView, units: Units) -> Result<SensorView, Failure> {
    let name = device_name(d.path);
    let temp = required_int(d, "temp"@, 1);
    if name is Err {
        Err(name->Err_0)
    } else if temp is Err {
        Err(temp->Err_0)
    } else {
        Ok(
            SensorView {
                name: name->Ok_0,
                current_millicelsius: temp->Ok_0,
                units,
                trip_points: trip_points_from(d, 0, units),
            },
        )
    }
}

/// The sensors among `ds`, in order: each directory with a `temp` file that
/// reads as a sensor; the others are skipped.
pub open spec fn sensors_in(ds: Seq<DirView>, units: Units) -> Seq<SensorView>
    decreases ds.len(),
{
    if ds.len() == 0 {
        Seq::empty()
    } else {
        let d = ds.last();
        let found = sensors_in(ds.drop_last(), units);
        if d.files.contains_key("temp"@) && sensor_of(d, units) is Ok {
            found.push(sensor_of(d, units)->Ok_0)
        } else {
            found
        }
    }
}

fn trip_point_file(number: u8, suffix: &str) -> (r: String)
    ensures
        r@ == trip_file(number as nat, suffix@),
{
    String::from_str("trip_point_").concat(decimal_string(number).as_str()).concat("_").concat(
        suffix,
    )
}

impl TripPoint {
    /// Reads trip point `number` of the zone in `device`.
    pub fn new(device: &DeviceDir, number: u8, units: Units) -> (r: Result<TripPoint, AcpiClientError>)
        ensures
            outcome(r) == trip_point_of(device@, number, units),
    {
        let action_type = parse_entry_file(device, trip_point_file(number, "type").as_str())?;
        let millicelsius = parse_file_to_i32(device, trip_point_file(number, "temp").as_str(), 1)?;
        Ok(TripPoint { number, action_type, millicelsius, units })
    }
}

impl ThermalSensor {
    /// Reads the thermal zone in `device` and its trip points.
    pub fn new(device: &DeviceDir, units: Units) -> (r: Result<ThermalSensor, AcpiClientError>)
        ensures
            outcome(r) == sensor_of(device@, units),
    {
        let name = get_device_name(device.path())?;
        let current_millicelsius = parse_file_to_i32(device, "temp", 1)?;
        let ghost d = device@;
        let mut trip_points: Vec<TripPoint> = Vec::new();
        let mut n: u16 = 0;
        proof {
            assert(trip_points@.map_values(|t: TripPoint| t@) + trip_points_from(d, 0, units)
                =~= trip_points_from(d, 0, units));
        }
        loop
            invariant
                n <= 256,
                d == device@,
                trip_points@.map_values(|t: TripPoint| t@) + trip_points_from(d, n as int, units)
                    == trip_points_from(d, 0, units),
            ensures
                trip_points@.map_values(|t: TripPoint| t@) == trip_points_from(d, 0, units),
            decreases 256 - n,
        {
            if n > 255 {
                proof {
                    assert(trip_points@.map_values(|t: TripPoint| t@) + trip_points_from(d, n as int, units)
                        =~= trip_points@.map_values(|t: TripPoint| t@));
                }
                break;
            }
            let temp_file = trip_point_file(n as u8, "temp");
            if !device.has_attribute(temp_file.as_str()) {
                proof {
                    assert(trip_points@.map_values(|t: TripPoint| t@) + trip_points_from(d, n as int, units)
                        =~= trip_points@.map_values(|t: TripPoint| t@));
                }
                break;
            }
            match TripPoint::new(device, n as u8, units) {
                Ok(tp) => {
                    let ghost before = trip_points@.map_values(|t: TripPoint| t@);
                    trip_points.push(tp);
                    proof {
                        assert(trip_points@.map_values(|t: TripPoint| t@) =~= before.push(tp@));
                        assert(before.push(tp@) + trip_points_from(d, n + 1, units) =~= before
                            + trip_points_from(d, n as int, units));
                    }
                    n = n + 1;
                },
                Err(_) => {
                    proof {
                        assert(trip_points@.map_values(|t: TripPoint| t@) + trip_points_from(d, n as int, units)
                            =~= trip_points@.map_values(|t: TripPoint| t@));
                    }
                    break;
                },
            }
        }
        Ok(ThermalSensor { name, current_millicelsius, units, trip_points })
    }
}

/// Reads every thermal zone among the device directories.
pub fn get_thermal_sensor_info(devices: &Vec<DeviceDir>, units: Units) -> (r: Vec<ThermalSensor>)
    ensures
        r@.map_values(|s: ThermalSensor| s@) == sensors_in(dir_views(devices@), units),
{
    let ghost ds = dir_views(devices@);
    let mut results: Vec<ThermalSensor> = Vec::new();
    let mut i: usize = 0;
    proof {
        assert(ds.take(0) =~= Seq::<DirView>::empty());
        assert(results@.map_values(|s: ThermalSensor| s@) =~= Seq::<SensorView>::empty());
    }
    while i < devices.len()
        invariant
            i <= devices@.len(),
            ds == dir_views(devices@),
            sensors_in(ds.take(i as int), units) == results@.map_values(|s: ThermalSensor| s@),
        decreases devices@.len() - i,
    {
        let device = &devices[i];
        proof {
            assert(ds.take(i + 1).drop_last() =~= ds.take(i as int));
            assert(ds.take(i + 1).last() == device@);
        }
        if is_thermal_sensor(device) {
            if let Ok(sensor) = ThermalSensor::new(device, units) {
                let ghost before = results@;
                results.push(sensor);
                proof {
                    assert(results@.map_values(|s: ThermalSensor| s@) =~= before.map_values(
                        |s: ThermalSensor| s@,
                    ).push(sensor@));
                }
            }
        }
        i = i + 1;
    }
    proof {
        assert(ds.take(i as int) =~= ds);
    }
    results
}

/// Trip point `i` is complete: its `type` file reads, and its `temp` file
/// reads as an integer.
pub open spec fn trip_point_complete(d: DirView, i: nat) -> bool {
    &&& required_text(d, trip_file(i, "type"@)) is Ok
    &&& required_int(d, trip_file(i, "temp"@), 1) is Ok
}

proof fn lemma_trip_points_between(d: DirView, units: Units, k: nat, n: nat)
    requires
        k <= n <= 255,
        forall|i: nat| i < n ==> trip_point_complete(d, i),
        !d.files.contains_key(trip_file(n, "temp"@)),
    ensures
        trip_points_from(d, k as int, units).len() == n - k,
        forall|j: int|
            0 <= j < n - k ==> #[trigger] trip_points_from(d, k as int, units)[j] == trip_point_of(
                d,
                (k + j) as u8,
                units,
            )->Ok_0,
    decreases n - k,
{
    if k < n {
        lemma_trip_points_between(d, units, (k + 1) as nat, n);
        assert(trip_point_complete(d, k));
        let rest = trip_points_from(d, k + 1 as int, units);
        assert(trip_points_from(d, k as int, units) == seq![trip_point_of(d, k as u8, units)->Ok_0] + rest);
        assert forall|j: int| 0 <= j < n - k implies #[trigger] trip_points_from(d, k as int, units)[j]
            == trip_point_of(d, (k + j) as u8, units)->Ok_0 by {
            if j > 0 {
                assert(trip_points_from(d, k as int, units)[j] == rest[j - 1]);
                assert((k + 1 + (j - 1)) as u8 == (k + j) as u8);
            }
        }
    }
}

/// When trip points 0 to n - 1 are complete and trip point n has no `temp`
/// file, the scan yields exactly n trip points, numbered 0 to n - 1 in order.
pub proof fn lemma_trip_points_up_to(d: DirView, units: Units, n: nat)
    requires
        n <= 255,
        forall|i: nat| i < n ==> trip_point_complete(d, i),
        !d.files.contains_key(trip_file(n, "temp"@)),
    ensures
        trip_points_from(d, 0, units).len() == n,
        forall|j: int|
            0 <= j < n ==> (#[trigger] trip_points_from(d, 0, units)[j]).number == j
                && trip_points_from(d, 0, units)[j] == trip_point_of(d, j as u8, units)->Ok_0,
{
    lemma_trip_points_between(d, units, 0, n);
    assert forall|j: int| 0 <= j < n implies (#[trigger] trip_points_from(d, 0, units)[j]).number == j
        && trip_points_from(d, 0, units)[j] == trip_point_of(d, j as u8, units)->Ok_0 by {
        assert(trip_points_from(d, 0, units)[j] == trip_point_of(d, (0 + j) as u8, units)->Ok_0);
        assert(trip_point_complete(d, j as nat));
    }
}

} // verus!
