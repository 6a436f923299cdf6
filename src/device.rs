use crate::error::StartupError;
use vstd::prelude::*;

verus! {

/// The compute device the models run on.
#[derive(Debug, Clone, Copy, PartialEq, Eq)]
pub enum DeviceKind {
    Cpu,
    /// The first CUDA accelerator.
    Cuda,
    /// The first Metal accelerator.
    Metal,
}

/// The numeric precision the language model runs at.
#[derive(Debug, Clone, Copy, PartialEq, Eq)]
pub enum Precision {
    /// Reduced (bfloat16) precision.
    BF16,
    /// Full (32-bit float) precision.
    F32,
}

/// Priority order: a CPU override, then CUDA, then Metal, then the CPU.
pub open spec fn device_choice(force_cpu: bool, cuda_available: bool, metal_available: bool) -> DeviceKind {
    if force_cpu {
        DeviceKind::Cpu
    } else if cuda_available {
        DeviceKind::Cuda
    } else if metal_available {
        DeviceKind::Metal
    } else {
        DeviceKind::Cpu
    }
}

/// Reduced precision on CUDA only; full precision everywhere else.
pub open spec fn precision_of(kind: DeviceKind) -> Precision {
    match kind {
        DeviceKind::Cuda => Precision::BF16,
        _ => Precision::F32,
    }
}

/// Picks the device from the CPU override and what the runtimes report.
pub fn select_device(force_cpu: bool, cuda_available: bool, metal_available: bool) -> (r: DeviceKind)
    ensures
        r == device_choice(force_cpu, cuda_available, metal_available),
{
    if force_cpu {
        DeviceKind::Cpu
    } else if cuda_available {
        DeviceKind::Cuda
    } else if metal_available {
        DeviceKind::Metal
    } else {
        DeviceKind::Cpu
    }
}

/// The precision that goes with a device.
pub fn precision_for(kind: DeviceKind) -> (r: Precision)
    ensures
        r == precision_of(kind),
{
    match kind {
        DeviceKind::Cuda => Precision::BF16,
        _ => Precision::F32,
    }
}

/// The device the audio codec runs on: the CPU when the configuration asks for
/// it, else the device that was selected.
pub fn codec_device(selected: DeviceKind, use_cpu_for_codec: bool) -> (r: DeviceKind)
    ensures
        r == (if use_cpu_for_codec { DeviceKind::Cpu } else { selected }),
{
    if use_cpu_for_codec {
        DeviceKind::Cpu
    } else {
        selected
    }
}

#[verifier::external_type_specification]
#[verifier::external_body]
pub struct ExDevice(candle_core::Device);

#[verifier::external_type_specification]
#[verifier::external_body]
pub struct ExCandleError(candle_core::Error);

/// Relies on candle_core::utils::cuda_is_available, which reports whether the
/// CUDA runtime can be used; nothing is promised of its answer.
pub assume_specification[ candle_core::utils::cuda_is_available ]() -> bool;

/// Relies on candle_core::utils::metal_is_available, which reports whether the
/// Metal runtime can be used; nothing is promised of its answer.
pub assume_specification[ candle_core::utils::metal_is_available ]() -> bool;

/// Relies on candle_core::Device::new_cuda, which opens the CUDA device of the
/// given ordinal and may fail with a driver or runtime error.
pub assume_specification[ candle_core::Device::new_cuda ](ordinal: usize) -> Result<
    candle_core::Device,
    candle_core::Error,
>;

/// Relies on candle_core::Device::new_metal, which opens the Metal device of the
/// given ordinal and may fail with a driver or runtime error.
pub assume_specification[ candle_core::Device::new_metal ](ordinal: usize) -> Result<
    candle_core::Device,
    candle_core::Error,
>;

/// Relies on candle_core::Device::Cpu, the host device, which needs no setup.
#[verifier::external_body]
fn cpu_device() -> candle_core::Device {
    candle_core::Device::Cpu
}

/// The device chosen for this process, with the precision that goes with it.
pub struct SelectedDevice {
    pub kind: DeviceKind,
    pub precision: Precision,
    pub device: candle_core::Device,
}

/// Opens the device that the priority order picks, asking the runtimes which
/// accelerators are available. Opening an accelerator may fail; that failure
/// is reported as `DeviceInit` and never retried.
pub fn device(force_cpu: bool) -> (r: Result<SelectedDevice, StartupError>)
    ensures
        force_cpu ==> r is Ok,
        r matches Ok(s) ==> s.precision == precision_of(s.kind) && (exists|cuda: bool, metal: bool|
            s.kind == device_choice(force_cpu, cuda, metal)),
        r matches Ok(s) ==> (force_cpu ==> s.kind == DeviceKind::Cpu),
        r matches Err(e) ==> e == StartupError::DeviceInit && !force_cpu,
{
    let (cuda, metal) = if force_cpu {
        (false, false)
    } else {
        let cuda = candle_core::utils::cuda_is_available();
        let metal = if cuda {
            false
        } else {
            candle_core::utils::metal_is_available()
        };
        (cuda, metal)
    };
    let kind = select_device(force_cpu, cuda, metal);
    let opened = match kind {
        DeviceKind::Cpu => Ok(cpu_device()),
        DeviceKind::Cuda => candle_core::Device::new_cuda(0),
        DeviceKind::Metal => candle_core::Device::new_metal(0),
    };
    match opened {
        Ok(device) => Ok(SelectedDevice { kind, precision: precision_for(kind), device }),
        Err(_) => Err(StartupError::DeviceInit),
    }
}

/// Selection is determined by its three inputs alone, always yields one of the
/// three devices, and follows the priority order.
pub proof fn lemma_selection_priority(force_cpu: bool, cuda_available: bool, metal_available: bool)
    ensures
        force_cpu ==> device_choice(force_cpu, cuda_available, metal_available) == DeviceKind::Cpu,
        !force_cpu && cuda_available ==> device_choice(force_cpu, cuda_available, metal_available)
            == DeviceKind::Cuda,
        !force_cpu && !cuda_available && metal_available ==> device_choice(
            force_cpu,
            cuda_available,
            metal_available,
        ) == DeviceKind::Metal,
        !force_cpu && !cuda_available && !metal_available ==> device_choice(
            force_cpu,
            cuda_available,
            metal_available,
        ) == DeviceKind::Cpu,
        device_choice(force_cpu, cuda_available, metal_available) == DeviceKind::Cuda ==> precision_of(
            device_choice(force_cpu, cuda_available, metal_available),
        ) == Precision::BF16,
        device_choice(force_cpu, cuda_available, metal_available) != DeviceKind::Cuda ==> precision_of(
            device_choice(force_cpu, cuda_available, metal_available),
        ) == Precision::F32,
{
}

} // verus!
