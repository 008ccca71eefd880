//! The callback bridge: the three entry points the vendor runtime invokes
//! asynchronously after registration.
//!
//! The runtime delivers each bundle as a borrowed byte buffer that is valid
//! only until the callback returns; the embedding application reinterprets
//! the raw pointer/length pair it received and hands the borrowed bytes
//! here, together with its process id. Each entry point turns the delivery
//! into a fully determined result — a persistence request, or recorded
//! description pairs — without retaining any reference to the buffer.

use vstd::prelude::*;
use vstd::slice::slice_to_vec;
use crate::description::CrashDumpDescription;
use crate::sink::{DumpKind, WriteRequest, dump_file_name, spec_dump_file_name};

verus! {

/// A GPU crash dump was delivered: persist exactly the delivered bytes
/// under the crash-dump identifier for this process, with no added framing.
pub fn on_gpu_crash_dump(buffer: &[u8], pid: u32) -> (r: WriteRequest)
    ensures
        r.file_name@ == spec_dump_file_name(DumpKind::CrashDump, pid),
        r.contents@ == buffer@,
{
    WriteRequest {
        file_name: dump_file_name(DumpKind::CrashDump, pid),
        contents: slice_to_vec(buffer),
    }
}

/// Shader debug information was delivered: persist exactly the delivered
/// bytes under the shader-debug-info identifier for this process.
pub fn on_shader_debug_info(buffer: &[u8], pid: u32) -> (r: WriteRequest)
    ensures
        r.file_name@ == spec_dump_file_name(DumpKind::ShaderDebugInfo, pid),
        r.contents@ == buffer@,
{
    WriteRequest {
        file_name: dump_file_name(DumpKind::ShaderDebugInfo, pid),
        contents: slice_to_vec(buffer),
    }
}

/// The runtime requested a crash-dump description. This base design
/// contributes no key/value pairs: the record is returned exactly as it
/// was handed in. Callers wanting to attach metadata add their pairs to the
/// record before the callback returns.
pub fn on_crash_dump_description(description: &mut CrashDumpDescription)
    ensures
        final(description)@ == old(description)@,
{
}

} // verus!
