//! The lines that the diagnostic probes leave in their result file.
use vstd::prelude::*;
use crate::handoff::{one_line, push_one_line};
use crate::selection::ProbeKind;
use crate::text::{decimal, hexadecimal, push_decimal, push_hex};

verus! {

/// The adapter that a probe found.
pub struct ProbedGpu {
    pub luid: u64,
    pub name: String,
    pub vendor_id: u32,
    pub device_id: u32,
    pub api_version: String,
    pub queue_family_index: u32,
    pub queue_flags: String,
}

/// What a probe of the compute queue measured.
pub struct GlslProbe {
    pub spirv_words: u64,
    pub verified_values: u64,
    pub checksum: u64,
}

/// What a probe of the storage image measured.
pub struct ImageProbe {
    pub spirv_words: u64,
    pub verified_pixels: u64,
    pub checksum: u64,
    pub expected_checksum: u64,
}

pub open spec fn probe_name(kind: ProbeKind) -> Seq<char> {
    match kind {
        ProbeKind::Gpu => "vulkan-gpu-probe"@,
        ProbeKind::Glsl => "vulkan-glsl-probe"@,
        ProbeKind::Image => "vulkan-image-probe"@,
    }
}

fn name_of(kind: ProbeKind) -> (name: &'static str)
    ensures
        name@ == probe_name(kind),
{
    match kind {
        ProbeKind::Gpu => "vulkan-gpu-probe",
        ProbeKind::Glsl => "vulkan-glsl-probe",
        ProbeKind::Image => "vulkan-image-probe",
    }
}

/// The line of a probe that had no adapter to go to.
pub fn probe_skipped_line(kind: ProbeKind) -> (line: String)
    ensures
        line@ == probe_name(kind) + ": result=skipped reason=no-dxgi-luid fallback=OpenGL-unchanged"@,
{
    let mut line = String::from_str(name_of(kind));
    line.append(": result=skipped reason=no-dxgi-luid fallback=OpenGL-unchanged");
    line
}

/// The line of a probe that failed.
pub fn probe_unavailable_line(kind: ProbeKind, target: u64, error: &str) -> (line: String)
    ensures
        line@ == probe_name(kind) + ": result=unavailable requested_luid="@ + hexadecimal(target as nat, 16, false)
            + " error="@ + error@ + " fallback=OpenGL-unchanged"@,
{
    let mut line = String::from_str(name_of(kind));
    line.append(": result=unavailable requested_luid=");
    push_hex(&mut line, target, 16, false);
    line.append(" error=");
    line.append(error);
    line.append(" fallback=OpenGL-unchanged");
    line
}

/// What every successful probe says of the adapter.
pub open spec fn ready_head(kind: ProbeKind, target: u64, gpu: ProbedGpu) -> Seq<char> {
    probe_name(kind) + ": result=ready requested_luid="@ + hexadecimal(target as nat, 16, false) + " matched_luid="@
        + hexadecimal(gpu.luid as nat, 16, false) + " name='"@ + gpu.name@ + "' vendor="@ + hexadecimal(
        gpu.vendor_id as nat,
        4,
        false,
    ) + " device="@ + hexadecimal(gpu.device_id as nat, 4, false) + " api="@ + gpu.api_version@ + " queue_family="@
        + decimal(gpu.queue_family_index as nat) + " queue_flags="@ + gpu.queue_flags@
}

fn ready_line(kind: ProbeKind, target: u64, gpu: &ProbedGpu) -> (line: String)
    ensures
        line@ == ready_head(kind, target, *gpu),
{
    let mut line = String::from_str(name_of(kind));
    line.append(": result=ready requested_luid=");
    push_hex(&mut line, target, 16, false);
    line.append(" matched_luid=");
    push_hex(&mut line, gpu.luid, 16, false);
    line.append(" name='");
    line.append(gpu.name.as_str());
    line.append("' vendor=");
    push_hex(&mut line, gpu.vendor_id as u64, 4, false);
    line.append(" device=");
    push_hex(&mut line, gpu.device_id as u64, 4, false);
    line.append(" api=");
    line.append(gpu.api_version.as_str());
    line.append(" queue_family=");
    push_decimal(&mut line, gpu.queue_family_index as u64);
    line.append(" queue_flags=");
    line.append(gpu.queue_flags.as_str());
    line
}

/// The line of a successful probe of the adapter.
pub fn gpu_probe_line(target: u64, gpu: &ProbedGpu) -> (line: String)
    ensures
        line@ == ready_head(ProbeKind::Gpu, target, *gpu) + " path=diagnostic-only glsl_backend=OpenGL-unchanged"@,
{
    let mut line = ready_line(ProbeKind::Gpu, target, gpu);
    line.append(" path=diagnostic-only glsl_backend=OpenGL-unchanged");
    line
}

/// The line of a successful probe of the compute queue.
pub fn glsl_probe_line(target: u64, gpu: &ProbedGpu, probe: &GlslProbe) -> (line: String)
    ensures
        line@ == ready_head(ProbeKind::Glsl, target, *gpu) + " compiler=naga glsl=450 spirv_words="@ + decimal(
            probe.spirv_words as nat,
        ) + " workload=u32x64 verified="@ + decimal(probe.verified_values as nat) + "/64 checksum="@ + decimal(
            probe.checksum as nat,
        ) + " expected_checksum=4096 path=diagnostic-only user_glsl_backend=OpenGL-unchanged"@,
{
    let mut line = ready_line(ProbeKind::Glsl, target, gpu);
    line.append(" compiler=naga glsl=450 spirv_words=");
    push_decimal(&mut line, probe.spirv_words);
    line.append(" workload=u32x64 verified=");
    push_decimal(&mut line, probe.verified_values);
    line.append("/64 checksum=");
    push_decimal(&mut line, probe.checksum);
    line.append(" expected_checksum=4096 path=diagnostic-only user_glsl_backend=OpenGL-unchanged");
    line
}

/// The line of a successful probe of the storage image.
pub fn image_probe_line(target: u64, gpu: &ProbedGpu, probe: &ImageProbe) -> (line: String)
    ensures
        line@ == ready_head(ProbeKind::Image, target, *gpu) + " compiler=naga glsl=450 spirv_words="@ + decimal(
            probe.spirv_words as nat,
        ) + " format=R8G8B8A8_UNORM image=8x8 transform=bgra-swap verified="@ + decimal(probe.verified_pixels as nat)
            + "/64 checksum="@ + hexadecimal(probe.checksum as nat, 16, false) + " expected_checksum="@ + hexadecimal(
            probe.expected_checksum as nat,
            16,
            false,
        ) + " path=diagnostic-only user_glsl_backend=OpenGL-unchanged"@,
{
    let mut line = ready_line(ProbeKind::Image, target, gpu);
    line.append(" compiler=naga glsl=450 spirv_words=");
    push_decimal(&mut line, probe.spirv_words);
    line.append(" format=R8G8B8A8_UNORM image=8x8 transform=bgra-swap verified=");
    push_decimal(&mut line, probe.verified_pixels);
    line.append("/64 checksum=");
    push_hex(&mut line, probe.checksum, 16, false);
    line.append(" expected_checksum=");
    push_hex(&mut line, probe.expected_checksum, 16, false);
    line.append(" path=diagnostic-only user_glsl_backend=OpenGL-unchanged");
    line
}

pub open spec fn luid_or(luid: Option<u64>, other: Seq<char>) -> Seq<char> {
    match luid {
        Some(luid) => hexadecimal(luid as nat, 16, false),
        None => other,
    }
}

fn push_luid_or(out: &mut String, luid: Option<u64>, other: &str)
    ensures
        final(out)@ == old(out)@ + luid_or(luid, other@),
{
    match luid {
        Some(luid) => push_hex(out, luid, 16, false),
        None => out.append(other),
    }
}

/// The line that records, before any capture, that the Vulkan route was asked for.
pub fn breadcrumb_line(
    build: &str,
    result_sink: bool,
    requested: Option<u64>,
    actual: Option<u64>,
    renderer: &str,
) -> (line: String)
    ensures
        line@ == "vulkan-production-glsl: phase=process-start build="@ + build@ + " env=enabled result_sink="@ + (
        if result_sink {
            "true"@
        } else {
            "false"@
        }) + " requested_luid="@ + luid_or(requested, "Auto"@) + " actual_gl_luid="@ + luid_or(
            actual,
            "unavailable"@,
        ) + " renderer='"@ + one_line(renderer@) + "' vulkan_init=false next=session-start"@,
{
    let mut line = String::from_str("vulkan-production-glsl: phase=process-start build=");
    line.append(build);
    line.append(" env=enabled result_sink=");
    if result_sink {
        line.append("true");
    } else {
        line.append("false");
    }
    line.append(" requested_luid=");
    push_luid_or(&mut line, requested, "Auto");
    line.append(" actual_gl_luid=");
    push_luid_or(&mut line, actual, "unavailable");
    line.append(" renderer='");
    push_one_line(&mut line, renderer);
    line.append("' vulkan_init=false next=session-start");
    line
}

/// The line of a successful probe begins with the probe's own name and the adapter that was asked
/// for; the adapter that was found comes behind it.
pub proof fn a_probe_says_what_was_asked_for(kind: ProbeKind, target: u64, gpu: ProbedGpu)
    ensures
        ({
            let own = match kind {
                ProbeKind::Gpu => "vulkan-gpu-probe"@,
                ProbeKind::Glsl => "vulkan-glsl-probe"@,
                ProbeKind::Image => "vulkan-image-probe"@,
            };
            let asked = own + ": result=ready requested_luid="@ + hexadecimal(target as nat, 16, false);
            let found = asked + " matched_luid="@ + hexadecimal(gpu.luid as nat, 16, false) + " name='"@ + gpu.name@
                + "' vendor="@ + hexadecimal(gpu.vendor_id as nat, 4, false) + " device="@ + hexadecimal(
                gpu.device_id as nat,
                4,
                false,
            );
            &&& own.is_prefix_of(ready_head(kind, target, gpu))
            &&& asked.is_prefix_of(ready_head(kind, target, gpu))
            &&& found.is_prefix_of(ready_head(kind, target, gpu))
        }),
        forall|other: Seq<char>| #[trigger] luid_or(Some(target), other) == hexadecimal(target as nat, 16, false),
        forall|other: Seq<char>| #[trigger] luid_or(None, other) == other,
{
}

} // verus!
