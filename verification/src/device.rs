//! What is known of the device that inference runs on.
//!
//! The inference server decides between GPU and CPU and does not say which it
//! chose. What can be reported is whether a GPU was found, by asking the
//! vendor's tool for the names of its devices.

use crate::text::{
    before_first, chars_of, first_index, owned, push_all, string_of, trim_chars, trim_of,
};
use vstd::prelude::*;

verus! {

/// Whether a GPU was found, and its name.
#[derive(Debug, PartialEq, Eq)]
pub struct GpuInfo {
    pub detected: bool,
    pub name: String,
}

/// The device that the inference server runs on, as far as it is known.
#[derive(Debug, PartialEq, Eq)]
pub struct OllamaDeviceInfo {
    pub active_device: String,
}

/// Whether a GPU was found, for the caller's display.
#[derive(Debug, PartialEq, Eq)]
pub struct GpuInfoDto {
    pub detected: bool,
    pub name: String,
}

/// What the caller shows of the device in use.
#[derive(Debug, PartialEq, Eq)]
pub struct PerformanceStatusDto {
    pub gpu_detected: bool,
    pub gpu_name: String,
    pub active_device: String,
}

/// The name that the vendor's tool reports first: the first line of its
/// output, trimmed.
pub open spec fn first_device(output: Seq<char>) -> Seq<char> {
    trim_of(output.take(first_index(output, '\n')))
}

/// Whether the query found a GPU: the tool ran, ended well, and named a
/// device.
pub open spec fn gpu_found(ran: bool, succeeded: bool, output: Seq<char>) -> bool {
    ran && succeeded && first_device(output).len() > 0
}

/// Reads the answer of the vendor's tool to the query for the names of its
/// devices. `ran` says whether the tool could be started, `succeeded`
/// whether it ended well; `output` is what it wrote.
pub fn detect_gpu(ran: bool, succeeded: bool, output: &str) -> (r: GpuInfo)
    ensures
        r.detected == gpu_found(ran, succeeded, output@),
        r.name@ == if gpu_found(ran, succeeded, output@) {
            "NVIDIA "@ + first_device(output@)
        } else {
            Seq::<char>::empty()
        },
{
    let text = chars_of(output);
    let line = before_first(&text, '\n');
    let name = trim_chars(&line);
    if ran && succeeded && name.len() > 0 {
        let mut full = chars_of("NVIDIA ");
        push_all(&mut full, &name);
        GpuInfo { detected: true, name: string_of(&full) }
    } else {
        proof {
            reveal_strlit("");
            assert(""@ =~= Seq::<char>::empty());
        }
        GpuInfo { detected: false, name: owned("") }
    }
}

/// The device that the inference server runs on: always `unknown`, whether
/// or not a GPU was found, since the server does not report it.
pub fn get_ollama_device_info(_gpu_detected: bool) -> (r: OllamaDeviceInfo)
    ensures
        r.active_device@ == "unknown"@,
{
    OllamaDeviceInfo { active_device: owned("unknown") }
}

/// What is shown of the GPU.
pub fn get_gpu_info(info: GpuInfo) -> (r: GpuInfoDto)
    ensures
        r.detected == info.detected,
        r.name == info.name,
{
    GpuInfoDto { detected: info.detected, name: info.name }
}

/// What is shown of the device in use.
pub fn get_performance_status(info: GpuInfo) -> (r: PerformanceStatusDto)
    ensures
        r.gpu_detected == info.detected,
        r.gpu_name == info.name,
        r.active_device@ == "unknown"@,
{
    let device = get_ollama_device_info(info.detected);
    PerformanceStatusDto {
        gpu_detected: info.detected,
        gpu_name: info.name,
        active_device: device.active_device,
    }
}

} // verus!
