//! Errors, device classification and required attribute reads.
use vstd::prelude::*;

use crate::device::{attribute_text, DeviceDir, DirView};
use crate::text::{decimal_i32, file_name, file_name_of, lowercase_of, parse_i32, same_text, to_lowercase};

verus! {

/// Why a device could not be read.
#[derive(Debug, PartialEq, Eq)]
pub enum AcpiClientError {
    /// An attribute's text is not a valid value; holds that text.
    Parse(String),
    /// A required file is missing or unreadable, or a path has no name;
    /// holds the attribute name or the path.
    Io(String),
    /// A device reports something this library does not recognize; holds
    /// the offending text, or the device path.
    InvalidInput(String),
}

/// The abstract form of an `AcpiClientError`.
pub enum Failure {
    Parse(Seq<char>),
    Io(Seq<char>),
    InvalidInput(Seq<char>),
}

impl View for AcpiClientError {
    type V = Failure;

    open spec fn view(&self) -> Failure {
        match self {
            AcpiClientError::Parse(t) => Failure::Parse(t@),
            AcpiClientError::Io(t) => Failure::Io(t@),
            AcpiClientError::InvalidInput(t) => Failure::InvalidInput(t@),
        }
    }
}

/// The abstract form of a result of this library.
pub open spec fn outcome<T: View>(r: Result<T, AcpiClientError>) -> Result<T::V, Failure> {
    match r {
        Ok(v) => Ok(v@),
        Err(e) => Err(e@),
    }
}

pub open spec fn failure_message(f: Failure) -> Seq<char> {
    match f {
        Failure::Parse(t) => "Parse error: "@ + t,
        Failure::Io(t) => "IO error: "@ + t,
        Failure::InvalidInput(t) => "Invalid input: "@ + t,
    }
}

impl AcpiClientError {
    /// A line that describes the error to a person.
    pub fn message(&self) -> (r: String)
        ensures
            r@ == failure_message(self@),
    {
        match self {
            AcpiClientError::Parse(t) => String::from_str("Parse error: ").concat(t.as_str()),
            AcpiClientError::Io(t) => String::from_str("IO error: ").concat(t.as_str()),
            AcpiClientError::InvalidInput(t) => String::from_str("Invalid input: ").concat(t.as_str()),
        }
    }
}

/// Whether an already lowercased `type` text names a battery.
pub fn is_battery_text(lowered: &str) -> (r: bool)
    ensures
        r == (lowered@ == "battery"@),
{
    same_text(lowered, "battery")
}

/// Whether the text of a `type` attribute names a battery, whatever its case.
pub fn determine_is_battery(data: String) -> (r: bool)
    ensures
        r == (lowercase_of(data@) == "battery"@),
{
    let lowered = to_lowercase(data.as_str());
    is_battery_text(lowered.as_str())
}

/// Whether the device is a thermal sensor: it has a `temp` file.
pub fn is_thermal_sensor(device: &DeviceDir) -> (r: bool)
    ensures
        r == device@.files.contains_key("temp"@),
{
    device.has_attribute("temp")
}

/// The name of the device at `path`: the last component of the path.
pub open spec fn device_name(path: Seq<char>) -> Result<Seq<char>, Failure> {
    match file_name_of(path) {
        Some(n) => Ok(n),
        None => Err(Failure::Io(path)),
    }
}

/// The name of a device: the last component of its path.
pub fn get_device_name(path: &str) -> (r: Result<String, AcpiClientError>)
    ensures
        outcome(r) == device_name(path@),
{
    match file_name(path) {
        Some(n) => Ok(n),
        None => Err(AcpiClientError::Io(String::from_str(path))),
    }
}

/// The trimmed text of a required attribute; a missing or unreadable file is
/// an I/O failure.
pub open spec fn required_text(d: DirView, name: Seq<char>) -> Result<Seq<char>, Failure> {
    match attribute_text(d, name) {
        Ok(Some(t)) => Ok(t),
        Ok(None) => Err(Failure::Io(name)),
        Err(e) => Err(e),
    }
}

/// Integer division that rounds toward zero, as Rust's `/` does.
pub open spec fn quotient(v: int, scalar: int) -> int {
    if v >= 0 {
        v / scalar
    } else {
        -((-v) / scalar)
    }
}

/// A text read as a decimal `i32` and divided by `scalar`.
pub open spec fn scaled_int(t: Seq<char>, scalar: i32) -> Result<i32, Failure> {
    match decimal_i32(t) {
        Some(v) => Ok(quotient(v as int, scalar as int) as i32),
        None => Err(Failure::Parse(t)),
    }
}

/// A required attribute read as a decimal `i32` and divided by `scalar`.
pub open spec fn required_int(d: DirView, name: Seq<char>, scalar: i32) -> Result<i32, Failure> {
    match required_text(d, name) {
        Ok(t) => scaled_int(t, scalar),
        Err(e) => Err(e),
    }
}

/// Reads the required attribute `name` of a device, trimmed.
pub fn parse_entry_file(device: &DeviceDir, name: &str) -> (r: Result<String, AcpiClientError>)
    ensures
        outcome(r) == required_text(device@, name@),
{
    match device.read_attribute(name) {
        Ok(Some(t)) => Ok(t),
        Ok(None) => Err(AcpiClientError::Io(String::from_str(name))),
        Err(e) => Err(e),
    }
}

/// Reads the required attribute `name` as an integer and divides it by
/// `scalar`, rounding toward zero.
pub fn parse_file_to_i32(device: &DeviceDir, name: &str, scalar: i32) -> (r: Result<i32, AcpiClientError>)
    requires
        scalar > 0,
    ensures
        outcome(r) == required_int(device@, name@, scalar),
{
    let t = parse_entry_file(device, name)?;
    parse_scaled_integer(t, scalar)
}

/// Reads a trimmed attribute text as a decimal integer and divides it by
/// `scalar`, rounding toward zero; text that is not an `i32` is a parse error.
pub fn parse_scaled_integer(text: String, scalar: i32) -> (r: Result<i32, AcpiClientError>)
    requires
        scalar > 0,
    ensures
        outcome(r) == scaled_int(text@, scalar),
{
    match parse_i32(text.as_str()) {
        Some(v) => Ok(v / scalar),
        None => Err(AcpiClientError::Parse(text)),
    }
}

} // verus!
