//! GPU backend identity.
use vstd::prelude::*;

verus! {

/// Active GPU backend for inference.
#[derive(Debug, Clone, Copy, PartialEq, Eq, Structural)]
pub enum GpuBackend {
    Cpu,
    Metal,
    Cuda,
    Vulkan,
}

/// The display name of each backend.
pub open spec fn backend_name(b: GpuBackend) -> Seq<char> {
    match b {
        GpuBackend::Cpu => "CPU"@,
        GpuBackend::Metal => "Metal"@,
        GpuBackend::Cuda => "CUDA"@,
        GpuBackend::Vulkan => "Vulkan"@,
    }
}

impl GpuBackend {
    /// The name shown to the user and in logs.
    pub fn name(&self) -> (res: String)
        ensures
            res@ == backend_name(*self),
    {
        match self {
            GpuBackend::Cpu => String::from_str("CPU"),
            GpuBackend::Metal => String::from_str("Metal"),
            GpuBackend::Cuda => String::from_str("CUDA"),
            GpuBackend::Vulkan => String::from_str("Vulkan"),
        }
    }
}

/// The backend a build with these GPU features compiles for: Metal before
/// CUDA before Vulkan, the CPU when none is enabled.
pub open spec fn feature_backend(metal: bool, cuda: bool, vulkan: bool) -> GpuBackend {
    if metal {
        GpuBackend::Metal
    } else if cuda {
        GpuBackend::Cuda
    } else if vulkan {
        GpuBackend::Vulkan
    } else {
        GpuBackend::Cpu
    }
}

/// The backend a build with these GPU features compiles for.
pub fn backend_for_features(metal: bool, cuda: bool, vulkan: bool) -> (res: GpuBackend)
    ensures
        res == feature_backend(metal, cuda, vulkan),
{
    if metal {
        GpuBackend::Metal
    } else if cuda {
        GpuBackend::Cuda
    } else if vulkan {
        GpuBackend::Vulkan
    } else {
        GpuBackend::Cpu
    }
}

/// The backend this build was compiled for, which is not necessarily what
/// is available at run time (sd.cpp falls back itself). This crate is built
/// without any of the Metal, CUDA and Vulkan features, so it is the CPU.
pub fn compiled_backend() -> (res: GpuBackend)
    ensures
        res == feature_backend(false, false, false),
        res == GpuBackend::Cpu,
{
    backend_for_features(false, false, false)
}

} // verus!
