//! The dump sink: deterministic identifiers for persisted artifacts, and
//! fully determined persistence requests.
//!
//! The sink itself does no I/O. It fixes, for each delivery, the exact file
//! name and the exact bytes to write; the embedding application performs the
//! write and must treat any filesystem failure as unrecoverable for that
//! delivery.

use vstd::prelude::*;
use vstd::string::StringExecFns;
use crate::decimal::{spec_decimal, u32_to_decimal};

verus! {

/// Which artifact a delivery carries. The two kinds are persisted under
/// distinct identifiers.
#[derive(Clone, Copy, PartialEq, Eq, Structural, Debug)]
pub enum DumpKind {
    /// The vendor-produced binary snapshot of GPU state.
    CrashDump,
    /// Auxiliary data for later symbolication of shader code.
    ShaderDebugInfo,
}

/// The fixed per-kind file-name prefix.
pub open spec fn spec_name_prefix(k: DumpKind) -> Seq<char> {
    match k {
        DumpKind::CrashDump => "Nvidia_Aftermath_GPU_CrashDump_"@,
        DumpKind::ShaderDebugInfo => "Nvidia_Aftermath_GPU_Shader_DebugInfo_"@,
    }
}

/// The fixed per-kind file-name extension, dot included.
pub open spec fn spec_name_extension(k: DumpKind) -> Seq<char> {
    match k {
        DumpKind::CrashDump => ".nv-gpudmp"@,
        DumpKind::ShaderDebugInfo => ".nvdbg"@,
    }
}

/// The identifier under which an artifact of kind `k` produced by process
/// `pid` is persisted. It is a function of the kind and the process id
/// alone — in particular it does not depend on the delivered bytes.
pub open spec fn spec_dump_file_name(k: DumpKind, pid: u32) -> Seq<char> {
    spec_name_prefix(k) + spec_decimal(pid as nat) + spec_name_extension(k)
}

fn name_prefix(k: DumpKind) -> (r: &'static str)
    ensures
        r@ == spec_name_prefix(k),
{
    match k {
        DumpKind::CrashDump => "Nvidia_Aftermath_GPU_CrashDump_",
        DumpKind::ShaderDebugInfo => "Nvidia_Aftermath_GPU_Shader_DebugInfo_",
    }
}

fn name_extension(k: DumpKind) -> (r: &'static str)
    ensures
        r@ == spec_name_extension(k),
{
    match k {
        DumpKind::CrashDump => ".nv-gpudmp",
        DumpKind::ShaderDebugInfo => ".nvdbg",
    }
}

/// Builds the file name an artifact of kind `k` from process `pid` is
/// persisted under.
pub fn dump_file_name(k: DumpKind, pid: u32) -> (s: String)
    ensures
        s@ == spec_dump_file_name(k, pid),
{
    let mut s = String::from_str(name_prefix(k));
    let digits = u32_to_decimal(pid);
    s.append(digits.as_str());
    s.append(name_extension(k));
    proof {
        assert(s@ =~= spec_dump_file_name(k, pid));
    }
    s
}

/// A fully determined persistence request: write exactly `contents` under
/// `file_name`, byte for byte, with no added framing. Either the whole
/// sequence is written or the write fails; a failure must not be reported
/// as success.
pub struct WriteRequest {
    pub file_name: String,
    pub contents: Vec<u8>,
}

/// The two artifact kinds are persisted under distinct identifiers for the
/// same process: a crash dump never overwrites shader debug info, nor the
/// other way round.
pub proof fn lemma_kinds_use_distinct_identifiers(pid: u32)
    ensures
        spec_dump_file_name(DumpKind::CrashDump, pid) != spec_dump_file_name(
            DumpKind::ShaderDebugInfo,
            pid,
        ),
{
    reveal_strlit("Nvidia_Aftermath_GPU_CrashDump_");
    reveal_strlit("Nvidia_Aftermath_GPU_Shader_DebugInfo_");
    reveal_strlit(".nv-gpudmp");
    reveal_strlit(".nvdbg");
    assert(spec_dump_file_name(DumpKind::CrashDump, pid).len() != spec_dump_file_name(
        DumpKind::ShaderDebugInfo,
        pid,
    ).len());
}

/// Known limitation of the naming policy: two deliveries of the same kind
/// within the same process are persisted under identical identifiers, no
/// matter which bytes each carried — the second write overwrites the first.
pub proof fn lemma_same_process_identifier_collision(
    k: DumpKind,
    pid: u32,
    first: WriteRequest,
    second: WriteRequest,
)
    requires
        first.file_name@ == spec_dump_file_name(k, pid),
        second.file_name@ == spec_dump_file_name(k, pid),
    ensures
        first.file_name@ == second.file_name@,
{
}

} // verus!
