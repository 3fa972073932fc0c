//! AC adapters: whether each is online.
use vstd::prelude::*;

use crate::battery::{batteries_in, lemma_batteries_failure_stays};
use crate::device::{dir_views, DeviceDir, DirView};
use crate::text::{lowercase_of, same_text, to_lowercase};
use crate::utils::{
    determine_is_battery, device_name, get_device_name, outcome, parse_entry_file, required_text,
    AcpiClientError, Failure,
};

verus! {

/// An enumeration of the states that the AC adapter system can be in.
#[derive(Clone, Copy, Debug, PartialEq, Eq, Structural)]
pub enum Status {
    /// AC adapter is connected and charging.
    Online,
    /// AC adapter is not connected or charging.
    Offline,
}

/// Information about AC adapters plugged into the system.
#[derive(Debug)]
pub struct ACAdapterInfo {
    /// The name used by ACPI to refer to the adapter.
    pub name: String,
    /// Whether the adapter is plugged in and charging or not.
    pub status: Status,
}

/// The abstract form of an `ACAdapterInfo`.
pub struct AdapterView {
    pub name: Seq<char>,
    pub status: Status,
}

impl View for ACAdapterInfo {
    type V = AdapterView;

    open spec fn view(&self) -> AdapterView {
        AdapterView { name: self.name@, status: self.status }
    }
}

/// The status a lowercased `online` text names: "1" online, "0" offline.
pub open spec fn online_status_of(s: Seq<char>) -> Option<Status> {
    if s == "1"@ {
        Some(Status::Online)
    } else if s == "0"@ {
        Some(Status::Offline)
    } else {
        None
    }
}

/// An adapter read from its name, then its `online` file.
pub open spec fn adapter_of(d: DirView) -> Result<AdapterView, Failure> {
    let name = device_name(d.path);
    let online = required_text(d, "online"@);
    if name is Err {
        Err(name->Err_0)
    } else if online is Err {
        Err(online->Err_0)
    } else {
        let t = lowercase_of(online->Ok_0);
        match online_status_of(t) {
            Some(s) => Ok(AdapterView { name: name->Ok_0, status: s }),
            None => Err(Failure::InvalidInput(t)),
        }
    }
}

/// The adapters among `ds`, in order: every directory must have a readable
/// `type`, or the whole query fails with the first such failure; a directory
/// whose `type` is not "battery" in any case and that reads as an adapter
/// gives one record, and one that does not read is skipped.
pub open spec fn adapters_in(ds: Seq<DirView>) -> Result<Seq<AdapterView>, Failure>
    decreases ds.len(),
{
    if ds.len() == 0 {
        Ok(Seq::empty())
    } else {
        let d = ds.last();
        match adapters_in(ds.drop_last()) {
            Err(e) => Err(e),
            Ok(found) => match required_text(d, "type"@) {
                Err(e) => Err(e),
                Ok(t) => if lowercase_of(t) != "battery"@ {
                    match adapter_of(d) {
                        Ok(a) => Ok(found.push(a)),
                        Err(_) => Ok(found),
                    }
                } else {
                    Ok(found)
                },
            },
        }
    }
}

/// Parses the status from a trimmed, lowercased `online` text.
pub fn parse_online_status(lowered: &str) -> (r: Result<Status, AcpiClientError>)
    ensures
        match r {
            Ok(s) => online_status_of(lowered@) == Some(s),
            Err(e) => online_status_of(lowered@) is None && e@ == Failure::InvalidInput(lowered@),
        },
{
    if same_text(lowered, "1") {
        Ok(Status::Online)
    } else if same_text(lowered, "0") {
        Ok(Status::Offline)
    } else {
        Err(AcpiClientError::InvalidInput(String::from_str(lowered)))
    }
}

impl ACAdapterInfo {
    /// Reads the AC adapter in `device`.
    pub fn new(device: &DeviceDir) -> (r: Result<ACAdapterInfo, AcpiClientError>)
        ensures
            outcome(r) == adapter_of(device@),
    {
        let name = get_device_name(device.path())?;
        let online = parse_entry_file(device, "online")?;
        let status = parse_online_status(to_lowercase(online.as_str()).as_str())?;
        Ok(ACAdapterInfo { name, status })
    }
}

proof fn lemma_adapters_failure_stays(ds: Seq<DirView>, i: int)
    requires
        0 <= i <= ds.len(),
        adapters_in(ds.take(i)) is Err,
    ensures
        adapters_in(ds) == adapters_in(ds.take(i)),
    decreases ds.len() - i,
{
    if i < ds.len() {
        assert(ds.take(i + 1).drop_last() =~= ds.take(i));
        lemma_adapters_failure_stays(ds, i + 1);
    } else {
        assert(ds.take(i) =~= ds);
    }
}

/// Reads every AC adapter among the device directories.
pub fn get_ac_adapter_info(devices: &Vec<DeviceDir>) -> (r: Result<Vec<ACAdapterInfo>, AcpiClientError>)
    ensures
        match r {
            Ok(v) => adapters_in(dir_views(devices@)) == Ok::<Seq<AdapterView>, Failure>(
                v@.map_values(|a: ACAdapterInfo| a@),
            ),
            Err(e) => adapters_in(dir_views(devices@)) == Err::<Seq<AdapterView>, Failure>(e@),
        },
{
    let ghost ds = dir_views(devices@);
    let mut results: Vec<ACAdapterInfo> = Vec::new();
    let mut i: usize = 0;
    proof {
        assert(ds.take(0) =~= Seq::<DirView>::empty());
        assert(results@.map_values(|a: ACAdapterInfo| a@) =~= Seq::<AdapterView>::empty());
    }
    while i < devices.len()
        invariant
            i <= devices@.len(),
            ds == dir_views(devices@),
            adapters_in(ds.take(i as int)) == Ok::<Seq<AdapterView>, Failure>(
                results@.map_values(|a: ACAdapterInfo| a@),
            ),
        decreases devices@.len() - i,
    {
        let device = &devices[i];
        proof {
            assert(ds.take(i + 1).drop_last() =~= ds.take(i as int));
            assert(ds.take(i + 1).last() == device@);
        }
        let kind = match parse_entry_file(device, "type") {
            Ok(t) => t,
            Err(e) => {
                proof {
                    lemma_adapters_failure_stays(ds, i + 1);
                }
                return Err(e);
            },
        };
        if !determine_is_battery(kind) {
            if let Ok(adapter) = ACAdapterInfo::new(device) {
                let ghost before = results@;
                results.push(adapter);
                proof {
                    assert(results@.map_values(|a: ACAdapterInfo| a@) =~= before.map_values(
                        |a: ACAdapterInfo| a@,
                    ).push(adapter@));
                }
            }
        }
        i = i + 1;
    }
    proof {
        assert(ds.take(i as int) =~= ds);
    }
    Ok(results)
}

/// A directory whose `type` file is missing or unreadable is never taken
/// for a battery or for an adapter: the battery query and the adapter query
/// over any sequence of directories that holds it fail.
pub proof fn lemma_untyped_device_fails(ds: Seq<DirView>, i: int)
    requires
        0 <= i < ds.len(),
        required_text(ds[i], "type"@) is Err,
    ensures
        batteries_in(ds) is Err,
        adapters_in(ds) is Err,
{
    assert(ds.take(i + 1).drop_last() =~= ds.take(i));
    assert(ds.take(i + 1).last() == ds[i]);
    lemma_batteries_failure_stays(ds, i + 1);
    lemma_adapters_failure_stays(ds, i + 1);
}

} // verus!
