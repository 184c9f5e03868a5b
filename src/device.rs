//! Device preferences and their resolution to a compute backend.

use vstd::prelude::*;
use crate::error::StudyNestError;
use crate::text::{decimal, decimal_text, lower_of, lowercase, parse_usize, parsed_usize, same_text};

verus! {

#[verifier::external_type_specification]
#[verifier::external_body]
pub struct ExDevice(candle_core::Device);

/// Where inference should run.
#[derive(Debug, Clone, Copy, PartialEq, Eq, Structural)]
pub enum DeviceType {
    /// CPU inference
    Cpu,
    /// CUDA GPU inference, on the GPU with this index
    Cuda(usize),
    /// Metal GPU inference (macOS only)
    Metal,
    /// The best device available
    Auto,
}

impl Default for DeviceType {
    fn default() -> (r: DeviceType)
        ensures
            r == DeviceType::Auto,
    {
        DeviceType::Auto
    }
}

/// The display name of a device preference.
pub open spec fn device_label(d: DeviceType) -> Seq<char> {
    match d {
        DeviceType::Cpu => "CPU"@,
        DeviceType::Cuda(id) => "CUDA:"@ + decimal_text(id as nat),
        DeviceType::Metal => "Metal"@,
        DeviceType::Auto => "Auto"@,
    }
}

/// The device preference that a lower-case device name asks for: `cpu`, `metal`,
/// `auto`, or `cuda:` and a GPU index (index 0 when none can be read).
/// Any other name means `Auto`.
pub open spec fn device_of(t: Seq<char>) -> DeviceType {
    if t == "cpu"@ {
        DeviceType::Cpu
    } else if t == "metal"@ {
        DeviceType::Metal
    } else if t == "auto"@ {
        DeviceType::Auto
    } else if t.len() >= 5 && t.subrange(0, 5) == "cuda:"@ {
        DeviceType::Cuda(
            match parsed_usize(t.subrange(5, t.len() as int)) {
                Some(n) => n,
                None => 0,
            },
        )
    } else {
        DeviceType::Auto
    }
}

impl DeviceType {
    /// The display name: `CPU`, `CUDA:<index>`, `Metal` or `Auto`.
    pub fn label(&self) -> (r: String)
        ensures
            r@ == device_label(*self),
    {
        match self {
            DeviceType::Cpu => String::from_str("CPU"),
            DeviceType::Cuda(id) => String::from_str("CUDA:").concat(decimal(*id).as_str()),
            DeviceType::Metal => String::from_str("Metal"),
            DeviceType::Auto => String::from_str("Auto"),
        }
    }
}

/// Relies on `candle_core::Device::Cpu`: the CPU backend, which needs no setup.
#[verifier::external_body]
fn cpu_device() -> candle_core::Device {
    candle_core::Device::Cpu
}

/// Resolves a device preference to a backend. This build has no GPU backend:
/// CUDA is not compiled in, Metal is not available off macOS, and `Auto` picks the CPU.
pub fn get_device(device_type: DeviceType) -> (r: Result<candle_core::Device, StudyNestError>)
    ensures
        r is Ok <==> (device_type == DeviceType::Cpu || device_type == DeviceType::Auto),
        device_type is Cuda ==> (r matches Err(StudyNestError::FeatureNotEnabled(m))
            && m@ == "CUDA feature not enabled. Compile with --features cuda"@),
        device_type is Metal ==> (r matches Err(StudyNestError::DeviceError(m))
            && m@ == "Metal is only available on macOS"@),
{
    match device_type {
        DeviceType::Cpu => Ok(cpu_device()),
        DeviceType::Cuda(_) => Err(
            StudyNestError::FeatureNotEnabled(
                String::from_str("CUDA feature not enabled. Compile with --features cuda"),
            ),
        ),
        DeviceType::Metal => Err(StudyNestError::DeviceError(String::from_str("Metal is only available on macOS"))),
        DeviceType::Auto => Ok(cpu_device()),
    }
}

/// The device preference named by an already lower-cased device name.
pub fn device_from_lower(t: &str) -> (r: DeviceType)
    ensures
        r == device_of(t@),
{
    if same_text(t, "cpu") {
        DeviceType::Cpu
    } else if same_text(t, "metal") {
        DeviceType::Metal
    } else if same_text(t, "auto") {
        DeviceType::Auto
    } else {
        let n = t.unicode_len();
        if n >= 5 && same_text(t.substring_char(0, 5), "cuda:") {
            let index = match parse_usize(t.substring_char(5, n)) {
                Some(i) => i,
                None => 0,
            };
            DeviceType::Cuda(index)
        } else {
            DeviceType::Auto
        }
    }
}

/// The device preference named by `name`, in any letter case.
pub fn parse_device(name: &str) -> (r: DeviceType)
    ensures
        r == device_of(lower_of(name@)),
{
    let lower = lowercase(name);
    device_from_lower(lower.as_str())
}

} // verus!
