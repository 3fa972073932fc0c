//! Batteries: reporting convention, normalization to mAh, mA and mV, and the
//! time until the battery is full or empty.
use vstd::prelude::*;

use crate::device::{dir_views, DeviceDir, DirView};
use crate::text::{lowercase_of, to_lowercase};
use crate::utils::{
    determine_is_battery, device_name, get_device_name, outcome, parse_entry_file,
    parse_file_to_i32, required_int, required_text, AcpiClientError, Failure,
};

verus! {

/// Different possible battery charging states.
#[derive(Clone, Copy, Debug, PartialEq, Eq, Structural)]
pub enum ChargingState {
    Charging,
    Discharging,
    Full,
}

/// The units in which a battery reports its capacity.
#[derive(Clone, Copy, Debug, PartialEq, Eq, Structural)]
pub enum ReportType {
    /// Charge, in µAh: `charge_now`, `charge_full`, `charge_full_design`.
    Capacity,
    /// Energy, in µWh: `energy_now`, `energy_full`, `energy_full_design`.
    Energy,
}

/// Metadata pertaining to a battery.
#[derive(Debug)]
pub struct BatteryInfo {
    /// The name used by ACPI to refer to the device.
    pub name: String,
    /// The charge remaining in the battery in units of mAh.
    pub remaining_capacity: u32,
    /// The rate at which the charge of the battery is changing in mA.
    pub present_rate: u32,
    /// The current voltage of the battery in mV.
    pub voltage: u32,
    /// The charge available in the battery at the time of manufacture in mAh.
    pub design_capacity: u32,
    /// The charge available in the battery the last time it was full, in mAh.
    pub last_capacity: u32,
    /// The seconds remaining until the battery is full or empty.
    pub time_remaining: u64,
    /// The state of the battery's charging.
    pub state: ChargingState,
}

/// The abstract form of a `BatteryInfo`.
pub struct BatteryView {
    pub name: Seq<char>,
    pub remaining_capacity: u32,
    pub present_rate: u32,
    pub voltage: u32,
    pub design_capacity: u32,
    pub last_capacity: u32,
    pub time_remaining: u64,
    pub state: ChargingState,
}

impl View for BatteryInfo {
    type V = BatteryView;

    open spec fn view(&self) -> BatteryView {
        BatteryView {
            name: self.name@,
            remaining_capacity: self.remaining_capacity,
            present_rate: self.present_rate,
            voltage: self.voltage,
            design_capacity: self.design_capacity,
            last_capacity: self.last_capacity,
            time_remaining: self.time_remaining,
            state: self.state,
        }
    }
}

/// The charging state a lowercased `status` text names.
pub open spec fn charging_state_of(s: Seq<char>) -> Option<ChargingState> {
    if s == "charging"@ {
        Some(ChargingState::Charging)
    } else if s == "discharging"@ {
        Some(ChargingState::Discharging)
    } else if s == "full"@ {
        Some(ChargingState::Full)
    } else {
        None
    }
}

/// Seconds until a change of state: until full while charging, until empty
/// while discharging. One is added to the rate so that a rate of zero does
/// not divide by zero. A charging battery that already holds more than its
/// full capacity has no time left.
pub open spec fn time_to_state_change(remaining: u32, full: u32, rate: u32, state: ChargingState) -> int {
    match state {
        ChargingState::Charging => if remaining <= full {
            (full - remaining) * 3600 / (rate + 1)
        } else {
            0
        },
        ChargingState::Discharging => remaining * 3600 / (rate + 1),
        ChargingState::Full => 0,
    }
}

pub open spec fn battery_view(
    name: Seq<char>,
    remaining: u32,
    rate: u32,
    voltage: u32,
    design: u32,
    last: u32,
    state: ChargingState,
) -> BatteryView {
    BatteryView {
        name,
        remaining_capacity: remaining,
        present_rate: rate,
        voltage,
        design_capacity: design,
        last_capacity: last,
        time_remaining: time_to_state_change(remaining, last, rate, state) as u64,
        state,
    }
}

/// Whether all three charge files are present.
pub open spec fn reports_capacity(d: DirView) -> bool {
    &&& d.files.contains_key("charge_now"@)
    &&& d.files.contains_key("charge_full"@)
    &&& d.files.contains_key("charge_full_design"@)
}

/// Whether all three energy files are present.
pub open spec fn reports_energy(d: DirView) -> bool {
    &&& d.files.contains_key("energy_now"@)
    &&& d.files.contains_key("energy_full"@)
    &&& d.files.contains_key("energy_full_design"@)
}

/// The reporting convention of a battery: charge when its three files are
/// all there, else energy when its three files are all there, else none.
pub open spec fn reporting_type_of(d: DirView) -> Result<ReportType, Failure> {
    if reports_capacity(d) {
        Ok(ReportType::Capacity)
    } else if reports_energy(d) {
        Ok(ReportType::Energy)
    } else {
        Err(Failure::InvalidInput(d.path))
    }
}

/// The charging state named by the `status` file, in any case.
pub open spec fn required_state(d: DirView) -> Result<ChargingState, Failure> {
    match required_text(d, "status"@) {
        Ok(t) => match charging_state_of(lowercase_of(t)) {
            Some(c) => Ok(c),
            None => Err(Failure::InvalidInput(lowercase_of(t))),
        },
        Err(e) => Err(e),
    }
}

/// A battery that reports charge, read in the order voltage, charge now,
/// current, design charge, full charge, status, name; the first failure is
/// the result.
pub open spec fn capacity_battery(d: DirView) -> Result<BatteryView, Failure> {
    let voltage = required_int(d, "voltage_now"@, 1000);
    let remaining = required_int(d, "charge_now"@, 1000);
    let rate = required_int(d, "current_now"@, 1000);
    let design = required_int(d, "charge_full_design"@, 1000);
    let last = required_int(d, "charge_full"@, 1000);
    let state = required_state(d);
    let name = device_name(d.path);
    if voltage is Err {
        Err(voltage->Err_0)
    } else if remaining is Err {
        Err(remaining->Err_0)
    } else if rate is Err {
        Err(rate->Err_0)
    } else if design is Err {
        Err(design->Err_0)
    } else if last is Err {
        Err(last->Err_0)
    } else if state is Err {
        Err(state->Err_0)
    } else if name is Err {
        Err(name->Err_0)
    } else {
        Ok(
            battery_view(
                name->Ok_0,
                remaining->Ok_0 as u32,
                rate->Ok_0 as u32,
                voltage->Ok_0 as u32,
                design->Ok_0 as u32,
                last->Ok_0 as u32,
                state->Ok_0,
            ),
        )
    }
}

/// A battery that reports energy: each energy is divided by the voltage to
/// give a charge. A voltage of zero is invalid input. The rate is taken from
/// `power_now` where that reads as an integer, else from `current_now`.
pub open spec fn energy_battery(d: DirView) -> Result<BatteryView, Failure> {
    let voltage = required_int(d, "voltage_now"@, 1000);
    let energy = required_int(d, "energy_now"@, 1000);
    let power = required_int(d, "power_now"@, 1000);
    let current = required_int(d, "current_now"@, 1000);
    let design = required_int(d, "energy_full_design"@, 1000);
    let last = required_int(d, "energy_full"@, 1000);
    let state = required_state(d);
    let name = device_name(d.path);
    if voltage is Err {
        Err(voltage->Err_0)
    } else if voltage->Ok_0 as u32 == 0 {
        Err(Failure::InvalidInput("voltage_now"@))
    } else if energy is Err {
        Err(energy->Err_0)
    } else if power is Err && current is Err {
        Err(current->Err_0)
    } else if design is Err {
        Err(design->Err_0)
    } else if last is Err {
        Err(last->Err_0)
    } else if state is Err {
        Err(state->Err_0)
    } else if name is Err {
        Err(name->Err_0)
    } else {
        let v = voltage->Ok_0 as u32;
        let rate = if power is Ok {
            power->Ok_0 as u32
        } else {
            current->Ok_0 as u32
        };
        Ok(
            battery_view(
                name->Ok_0,
                (energy->Ok_0 as u32) / v,
                rate,
                v,
                (design->Ok_0 as u32) / v,
                (last->Ok_0 as u32) / v,
                state->Ok_0,
            ),
        )
    }
}

/// A battery read by the convention it reports in.
pub open spec fn battery_of(d: DirView) -> Result<BatteryView, Failure> {
    match reporting_type_of(d) {
        Ok(ReportType::Capacity) => capacity_battery(d),
        Ok(ReportType::Energy) => energy_battery(d),
        Err(e) => Err(e),
    }
}

/// Parses a charging state from a trimmed, lowercased `status` text.
pub fn parse_state_from_str(state_str: String) -> (r: Result<ChargingState, AcpiClientError>)
    ensures
        match r {
            Ok(c) => charging_state_of(state_str@) == Some(c),
            Err(e) => charging_state_of(state_str@) is None && e@ == Failure::InvalidInput(state_str@),
        },
{
    if state_str == String::from_str("charging") {
        Ok(ChargingState::Charging)
    } else if state_str == String::from_str("discharging") {
        Ok(ChargingState::Discharging)
    } else if state_str == String::from_str("full") {
        Ok(ChargingState::Full)
    } else {
        Err(AcpiClientError::InvalidInput(state_str))
    }
}

/// The seconds until the battery is full (charging) or empty (discharging).
pub fn determine_time_to_state_change(
    remaining_capacity: u32,
    full_capacity: u32,
    present_rate: u32,
    state: ChargingState,
) -> (r: u64)
    ensures
        r == time_to_state_change(remaining_capacity, full_capacity, present_rate, state),
{
    let divisor = present_rate as u64 + 1;
    match state {
        ChargingState::Charging => {
            if remaining_capacity <= full_capacity {
                3600 * ((full_capacity - remaining_capacity) as u64) / divisor
            } else {
                0
            }
        },
        ChargingState::Discharging => 3600 * (remaining_capacity as u64) / divisor,
        ChargingState::Full => 0,
    }
}

/// Decides whether the battery reports charge or energy.
pub fn determine_reporting_type(device: &DeviceDir) -> (r: Result<ReportType, AcpiClientError>)
    ensures
        match r {
            Ok(t) => reporting_type_of(device@) == Ok::<ReportType, Failure>(t),
            Err(e) => reporting_type_of(device@) == Err::<ReportType, Failure>(e@),
        },
{
    if device.has_attribute("charge_now") && device.has_attribute("charge_full")
        && device.has_attribute("charge_full_design") {
        Ok(ReportType::Capacity)
    } else if device.has_attribute("energy_now") && device.has_attribute("energy_full")
        && device.has_attribute("energy_full_design") {
        Ok(ReportType::Energy)
    } else {
        Err(AcpiClientError::InvalidInput(String::from_str(device.path())))
    }
}

fn read_state(device: &DeviceDir) -> (r: Result<ChargingState, AcpiClientError>)
    ensures
        match r {
            Ok(c) => required_state(device@) == Ok::<ChargingState, Failure>(c),
            Err(e) => required_state(device@) == Err::<ChargingState, Failure>(e@),
        },
{
    let text = parse_entry_file(device, "status")?;
    let lowered = to_lowercase(text.as_str());
    parse_state_from_str(lowered)
}

fn parse_capacity_supply(device: &DeviceDir) -> (r: Result<BatteryInfo, AcpiClientError>)
    ensures
        outcome(r) == capacity_battery(device@),
{
    let voltage = parse_file_to_i32(device, "voltage_now", 1000)? as u32;
    let remaining_capacity = parse_file_to_i32(device, "charge_now", 1000)? as u32;
    let present_rate = parse_file_to_i32(device, "current_now", 1000)? as u32;
    let design_capacity = parse_file_to_i32(device, "charge_full_design", 1000)? as u32;
    let last_capacity = parse_file_to_i32(device, "charge_full", 1000)? as u32;
    let state = read_state(device)?;
    let time_remaining = determine_time_to_state_change(
        remaining_capacity,
        last_capacity,
        present_rate,
        state,
    );
    let name = get_device_name(device.path())?;
    Ok(BatteryInfo {
        name,
        remaining_capacity,
        present_rate,
        voltage,
        design_capacity,
        last_capacity,
        time_remaining,
        state,
    })
}

fn parse_energy_supply(device: &DeviceDir) -> (r: Result<BatteryInfo, AcpiClientError>)
    ensures
        outcome(r) == energy_battery(device@),
{
    let voltage = parse_file_to_i32(device, "voltage_now", 1000)? as u32;
    if voltage == 0 {
        return Err(AcpiClientError::InvalidInput(String::from_str("voltage_now")));
    }
    let remaining_capacity = (parse_file_to_i32(device, "energy_now", 1000)? as u32) / voltage;
    let present_rate = match parse_file_to_i32(device, "power_now", 1000) {
        Ok(power) => power as u32,
        Err(_) => parse_file_to_i32(device, "current_now", 1000)? as u32,
    };
    let design_capacity = (parse_file_to_i32(device, "energy_full_design", 1000)? as u32) / voltage;
    let last_capacity = (parse_file_to_i32(device, "energy_full", 1000)? as u32) / voltage;
    let state = read_state(device)?;
    let time_remaining = determine_time_to_state_change(
        remaining_capacity,
        last_capacity,
        present_rate,
        state,
    );
    let name = get_device_name(device.path())?;
    Ok(BatteryInfo {
        name,
        remaining_capacity,
        present_rate,
        voltage,
        design_capacity,
        last_capacity,
        time_remaining,
        state,
    })
}

impl BatteryInfo {
    /// Reads the battery in `device` by the convention it reports in.
    pub fn new(device: &DeviceDir) -> (r: Result<BatteryInfo, AcpiClientError>)
        ensures
            outcome(r) == battery_of(device@),
    {
        match determine_reporting_type(device)? {
            ReportType::Capacity => parse_capacity_supply(device),
            ReportType::Energy => parse_energy_supply(device),
        }
    }
}

/// The batteries among `ds`, in order: every directory must have a readable
/// `type`, or the whole query fails with the first such failure; a directory
/// whose `type` is "battery" in any case and that reads as a battery gives
/// one record, and one that does not read is skipped.
pub open spec fn batteries_in(ds: Seq<DirView>) -> Result<Seq<BatteryView>, Failure>
    decreases ds.len(),
{
    if ds.len() == 0 {
        Ok(Seq::empty())
    } else {
        let d = ds.last();
        match batteries_in(ds.drop_last()) {
            Err(e) => Err(e),
            Ok(found) => match required_text(d, "type"@) {
                Err(e) => Err(e),
                Ok(t) => if lowercase_of(t) == "battery"@ {
                    match battery_of(d) {
                        Ok(b) => Ok(found.push(b)),
                        Err(_) => Ok(found),
                    }
                } else {
                    Ok(found)
                },
            },
        }
    }
}

pub(crate) proof fn lemma_batteries_failure_stays(ds: Seq<DirView>, i: int)
    requires
        0 <= i <= ds.len(),
        batteries_in(ds.take(i)) is Err,
    ensures
        batteries_in(ds) == batteries_in(ds.take(i)),
    decreases ds.len() - i,
{
    if i < ds.len() {
        assert(ds.take(i + 1).drop_last() =~= ds.take(i));
        lemma_batteries_failure_stays(ds, i + 1);
    } else {
        assert(ds.take(i) =~= ds);
    }
}

/// Reads every battery among the device directories.
pub fn get_battery_info(devices: &Vec<DeviceDir>) -> (r: Result<Vec<BatteryInfo>, AcpiClientError>)
    ensures
        match r {
            Ok(v) => batteries_in(dir_views(devices@)) == Ok::<Seq<BatteryView>, Failure>(
                v@.map_values(|b: BatteryInfo| b@),
            ),
            Err(e) => batteries_in(dir_views(devices@)) == Err::<Seq<BatteryView>, Failure>(e@),
        },
{
    let ghost ds = dir_views(devices@);
    let mut results: Vec<BatteryInfo> = Vec::new();
    let mut i: usize = 0;
    proof {
        assert(ds.take(0) =~= Seq::<DirView>::empty());
        assert(results@.map_values(|b: BatteryInfo| b@) =~= Seq::<BatteryView>::empty());
    }
    while i < devices.len()
        invariant
            i <= devices@.len(),
            ds == dir_views(devices@),
            batteries_in(ds.take(i as int)) == Ok::<Seq<BatteryView>, Failure>(
                results@.map_values(|b: BatteryInfo| b@),
            ),
        decreases devices@.len() - i,
    {
        let device = &devices[i];
        proof {
            assert(ds.take(i + 1).drop_last() =~= ds.take(i as int));
            assert(ds.take(i + 1).last() == device@);
        }
        let kind = match parse_entry_file(device, "type") {
            Ok(t) => t,
            Err(e) => {
                proof {
                    lemma_batteries_failure_stays(ds, i + 1);
                }
                return Err(e);
            },
        };
        if determine_is_battery(kind) {
            if let Ok(battery) = BatteryInfo::new(device) {
                let ghost before = results@;
                results.push(battery);
                proof {
                    assert(results@.map_values(|b: BatteryInfo| b@) =~= before.map_values(
                        |b: BatteryInfo| b@,
                    ).push(battery@));
                }
            }
        }
        i = i + 1;
    }
    proof {
        assert(ds.take(i as int) =~= ds);
    }
    Ok(results)
}

/// The reporting convention is total and its two outcomes exclude each
/// other: a battery with all six charge and energy files reports charge, one
/// with only the energy set reports energy, and one with neither set
/// complete has no convention.
pub proof fn lemma_reporting_type_decided(d: DirView)
    ensures
        reports_capacity(d) ==> reporting_type_of(d) == Ok::<ReportType, Failure>(ReportType::Capacity),
        !reports_capacity(d) && reports_energy(d) ==> reporting_type_of(d) == Ok::<ReportType, Failure>(
            ReportType::Energy,
        ),
        !reports_capacity(d) && !reports_energy(d) ==> reporting_type_of(d) is Err,
{
}

/// A directory whose `type` is "battery", that has the three charge files
/// and whose status is "discharging" gives one record in the battery query
/// when it reads, and that record is discharging with
/// `remaining * 3600 / (rate + 1)` seconds left.
pub proof fn lemma_discharging_time(d: DirView)
    requires
        required_text(d, "type"@) is Ok,
        lowercase_of(required_text(d, "type"@)->Ok_0) == "battery"@,
        reports_capacity(d),
        required_state(d) == Ok::<ChargingState, Failure>(ChargingState::Discharging),
    ensures
        batteries_in(seq![d]) is Ok,
        battery_of(d) is Ok ==> {
            let b = battery_of(d)->Ok_0;
            &&& batteries_in(seq![d]) == Ok::<Seq<BatteryView>, Failure>(seq![b])
            &&& b.state == ChargingState::Discharging
            &&& b.time_remaining as int == b.remaining_capacity as int * 3600 / (b.present_rate as int + 1)
        },
{
    assert(seq![d].drop_last() =~= Seq::<DirView>::empty());
    assert(seq![d].last() == d);
    assert(batteries_in(Seq::<DirView>::empty()) == Ok::<Seq<BatteryView>, Failure>(Seq::empty()));
    if battery_of(d) is Ok {
        let b = battery_of(d)->Ok_0;
        let rem = b.remaining_capacity as int;
        let rate = b.present_rate as int;
        assert(rem * 3600 / (rate + 1) <= rem * 3600) by (nonlinear_arith)
            requires
                0 <= rem,
                0 <= rate,
        ;
        assert(0 <= rem * 3600 / (rate + 1)) by (nonlinear_arith)
            requires
                0 <= rem,
                0 <= rate,
        ;
        assert(Seq::<BatteryView>::empty().push(b) =~= seq![b]);
    }
}

} // verus!
