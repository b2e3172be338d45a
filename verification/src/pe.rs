//! Checking that the vendor DLL matches this executable's architecture, by
//! the machine field of its PE header.
use vstd::prelude::*;

verus! {

pub const IMAGE_FILE_MACHINE_I386: u16 = 0x014c;
pub const IMAGE_FILE_MACHINE_AMD64: u16 = 0x8664;
pub const IMAGE_FILE_MACHINE_ARM64: u16 = 0xaa64;

/// The architecture this executable was built for.
#[derive(Clone, Copy, Debug, PartialEq, Eq)]
pub enum ProcessArch {
    X86,
    X86_64,
    Aarch64,
    Other,
}

/// The little-endian unsigned integer in `d[at..at + 2]`.
pub open spec fn le_u16_at(d: Seq<u8>, at: int) -> int {
    d[at] + 256 * d[at + 1]
}

/// The little-endian unsigned integer in `d[at..at + 4]`.
pub open spec fn le_u32_at(d: Seq<u8>, at: int) -> int {
    d[at] + 256 * d[at + 1] + 65536 * d[at + 2] + 16777216 * d[at + 3]
}

/// The file is at least as long as a DOS header and starts with `MZ`.
pub open spec fn has_dos_header(d: Seq<u8>) -> bool {
    d.len() >= 0x40 && d[0] == 0x4d && d[1] == 0x5a
}

/// Where the DOS header says the PE header starts.
pub open spec fn pe_header_offset(d: Seq<u8>) -> int {
    le_u32_at(d, 0x3c)
}

/// At the PE header offset stand `PE\0\0` and the two bytes of the machine
/// field.
pub open spec fn has_pe_signature(d: Seq<u8>) -> bool {
    let o = pe_header_offset(d);
    &&& d.len() >= o + 6
    &&& d[o] == 0x50 && d[o + 1] == 0x45 && d[o + 2] == 0 && d[o + 3] == 0
}

/// The machine field of the PE header.
pub open spec fn pe_machine(d: Seq<u8>) -> int {
    le_u16_at(d, pe_header_offset(d) + 4)
}

/// Reads the machine field from the PE file `data`, read from `path`.
pub fn read_pe_machine(path: &str, data: &[u8]) -> (r: Result<u16, String>)
    ensures
        !has_dos_header(data@) ==> (r matches Err(e) && e@ == path@ + " is not a Windows PE DLL"@),
        has_dos_header(data@) && !has_pe_signature(data@) ==> (r matches Err(e) && e@ == path@ + " is not a valid PE DLL"@),
        has_dos_header(data@) && has_pe_signature(data@) ==> (r matches Ok(m) && m == pe_machine(data@)),
{
    if data.len() < 0x40 || data[0] != 0x4d || data[1] != 0x5a {
        let mut e = String::from_str(path);
        e.append(" is not a Windows PE DLL");
        return Err(e);
    }
    let pe_offset: u32 = data[0x3c] as u32 + 256 * (data[0x3d] as u32) + 65536 * (data[0x3e] as u32)
        + 16777216 * (data[0x3f] as u32);
    let o = pe_offset as usize;
    if data.len() < 6 || o > data.len() - 6 || data[o] != 0x50 || data[o + 1] != 0x45 || data[o + 2] != 0
        || data[o + 3] != 0 {
        let mut e = String::from_str(path);
        e.append(" is not a valid PE DLL");
        return Err(e);
    }
    Ok(data[o + 4] as u16 + 256 * (data[o + 5] as u16))
}

/// Whether a DLL built for `machine` suits an executable built for `arch`.
pub open spec fn expected_machine_matches_spec(machine: u16, arch: ProcessArch) -> bool {
    match arch {
        ProcessArch::X86 => machine == IMAGE_FILE_MACHINE_I386,
        ProcessArch::X86_64 => machine == IMAGE_FILE_MACHINE_AMD64,
        ProcessArch::Aarch64 => machine == IMAGE_FILE_MACHINE_ARM64,
        ProcessArch::Other => false,
    }
}

/// Each architecture accepts exactly one PE machine value, its own: `0x014c`
/// for 32-bit x86, `0x8664` for x86-64, `0xaa64` for ARM64; an unknown
/// architecture accepts none. In particular a DLL of one bitness never
/// passes for an executable of another.
pub proof fn lemma_one_machine_per_architecture(machine: u16, arch: ProcessArch)
    ensures
        expected_machine_matches_spec(machine, arch) <==> match arch {
            ProcessArch::X86 => machine == 0x014c,
            ProcessArch::X86_64 => machine == 0x8664,
            ProcessArch::Aarch64 => machine == 0xaa64,
            ProcessArch::Other => false,
        },
        forall|other: u16| expected_machine_matches_spec(machine, arch) && #[trigger] expected_machine_matches_spec(other, arch)
            ==> other == machine,
{
}

/// Whether a DLL built for `machine` can be loaded by an executable built
/// for `arch`.
pub fn expected_machine_matches(machine: u16, arch: ProcessArch) -> (b: bool)
    ensures
        b == expected_machine_matches_spec(machine, arch),
{
    match arch {
        ProcessArch::X86 => machine == IMAGE_FILE_MACHINE_I386,
        ProcessArch::X86_64 => machine == IMAGE_FILE_MACHINE_AMD64,
        ProcessArch::Aarch64 => machine == IMAGE_FILE_MACHINE_ARM64,
        ProcessArch::Other => false,
    }
}

pub open spec fn machine_arch_text(machine: u16) -> Seq<char> {
    if machine == IMAGE_FILE_MACHINE_I386 {
        "32-bit (x86)"@
    } else if machine == IMAGE_FILE_MACHINE_AMD64 {
        "64-bit (x64)"@
    } else if machine == IMAGE_FILE_MACHINE_ARM64 {
        "64-bit (ARM64)"@
    } else {
        "unknown"@
    }
}

/// A readable name of the architecture of a PE machine field.
pub fn machine_arch_name(machine: u16) -> (s: &'static str)
    ensures
        s@ == machine_arch_text(machine),
{
    if machine == IMAGE_FILE_MACHINE_I386 {
        "32-bit (x86)"
    } else if machine == IMAGE_FILE_MACHINE_AMD64 {
        "64-bit (x64)"
    } else if machine == IMAGE_FILE_MACHINE_ARM64 {
        "64-bit (ARM64)"
    } else {
        "unknown"
    }
}

pub open spec fn process_arch_text(arch: ProcessArch) -> Seq<char> {
    match arch {
        ProcessArch::X86 => "32-bit (x86)"@,
        ProcessArch::X86_64 => "64-bit (x64)"@,
        ProcessArch::Aarch64 => "64-bit (ARM64)"@,
        ProcessArch::Other => "this architecture"@,
    }
}

/// A readable name of the architecture this executable was built for.
pub fn process_arch_name(arch: ProcessArch) -> (s: &'static str)
    ensures
        s@ == process_arch_text(arch),
{
    match arch {
        ProcessArch::X86 => "32-bit (x86)",
        ProcessArch::X86_64 => "64-bit (x64)",
        ProcessArch::Aarch64 => "64-bit (ARM64)",
        ProcessArch::Other => "this architecture",
    }
}

pub open spec fn arch_mismatch_text(path: Seq<char>, machine: u16, arch: ProcessArch) -> Seq<char> {
    path + " is "@ + machine_arch_text(machine) + ", but this executable is "@ + process_arch_text(arch)
        + ". Use matching bitness."@
}

/// Checks that the DLL file `data`, read from `path`, is a PE file built
/// for the architecture `arch` of this executable.
pub fn validate_dll_architecture(path: &str, data: &[u8], arch: ProcessArch) -> (r: Result<(), String>)
    ensures
        !has_dos_header(data@) ==> (r matches Err(e) && e@ == path@ + " is not a Windows PE DLL"@),
        has_dos_header(data@) && !has_pe_signature(data@) ==> (r matches Err(e) && e@ == path@ + " is not a valid PE DLL"@),
        has_dos_header(data@) && has_pe_signature(data@) ==> {
            let m = pe_machine(data@) as u16;
            if expected_machine_matches_spec(m, arch) {
                r is Ok
            } else {
                r matches Err(e) && e@ == arch_mismatch_text(path@, m, arch)
            }
        },
{
    let machine = match read_pe_machine(path, data) {
        Ok(m) => m,
        Err(e) => return Err(e),
    };
    if expected_machine_matches(machine, arch) {
        return Ok(());
    }
    let mut e = String::from_str(path);
    e.append(" is ");
    e.append(machine_arch_name(machine));
    e.append(", but this executable is ");
    e.append(process_arch_name(arch));
    e.append(". Use matching bitness.");
    Err(e)
}

} // verus!
