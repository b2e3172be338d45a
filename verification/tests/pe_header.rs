use lcard_dac_signal_generator::pe::{
    expected_machine_matches, machine_arch_name, process_arch_name, read_pe_machine,
    validate_dll_architecture, ProcessArch, IMAGE_FILE_MACHINE_AMD64, IMAGE_FILE_MACHINE_ARM64,
    IMAGE_FILE_MACHINE_I386,
};

fn pe_image(offset: u32, machine: u16) -> Vec<u8> {
    let mut data = vec![0u8; offset as usize + 24];
    data[0] = b'M';
    data[1] = b'Z';
    data[0x3c..0x40].copy_from_slice(&offset.to_le_bytes());
    let o = offset as usize;
    data[o..o + 4].copy_from_slice(b"PE\0\0");
    data[o + 4..o + 6].copy_from_slice(&machine.to_le_bytes());
    data
}

#[test]
fn reads_machine_field() {
    assert_eq!(read_pe_machine("a.dll", &pe_image(0x80, 0x8664)), Ok(0x8664));
    assert_eq!(read_pe_machine("a.dll", &pe_image(0x100, 0x014c)), Ok(0x014c));
}

#[test]
fn rejects_file_without_dos_header() {
    assert_eq!(read_pe_machine("x.dll", b"MZ"), Err("x.dll is not a Windows PE DLL".to_string()));
    let mut data = pe_image(0x80, 0x8664);
    data[0] = b'N';
    assert_eq!(read_pe_machine("x.dll", &data), Err("x.dll is not a Windows PE DLL".to_string()));
}

#[test]
fn rejects_missing_or_truncated_pe_signature() {
    let mut data = pe_image(0x80, 0x8664);
    data[0x81] = b'X';
    assert_eq!(read_pe_machine("y.dll", &data), Err("y.dll is not a valid PE DLL".to_string()));
    let data = pe_image(0x80, 0x8664);
    assert_eq!(read_pe_machine("y.dll", &data[..0x85]), Err("y.dll is not a valid PE DLL".to_string()));
    assert_eq!(read_pe_machine("y.dll", &data[..0x86]), Ok(0x8664));
    let mut far = vec![0u8; 0x40];
    far[0] = b'M';
    far[1] = b'Z';
    far[0x3c..0x40].copy_from_slice(&u32::MAX.to_le_bytes());
    assert_eq!(read_pe_machine("z.dll", &far), Err("z.dll is not a valid PE DLL".to_string()));
}

#[test]
fn machine_matches_only_own_architecture() {
    assert!(expected_machine_matches(IMAGE_FILE_MACHINE_I386, ProcessArch::X86));
    assert!(expected_machine_matches(IMAGE_FILE_MACHINE_AMD64, ProcessArch::X86_64));
    assert!(expected_machine_matches(IMAGE_FILE_MACHINE_ARM64, ProcessArch::Aarch64));
    assert!(!expected_machine_matches(IMAGE_FILE_MACHINE_I386, ProcessArch::X86_64));
    assert!(!expected_machine_matches(IMAGE_FILE_MACHINE_AMD64, ProcessArch::Other));
}

#[test]
fn architecture_names() {
    assert_eq!(machine_arch_name(0x014c), "32-bit (x86)");
    assert_eq!(machine_arch_name(0x8664), "64-bit (x64)");
    assert_eq!(machine_arch_name(0xaa64), "64-bit (ARM64)");
    assert_eq!(machine_arch_name(0x1234), "unknown");
    assert_eq!(process_arch_name(ProcessArch::X86), "32-bit (x86)");
    assert_eq!(process_arch_name(ProcessArch::Other), "this architecture");
}

#[test]
fn validate_reports_bitness_mismatch() {
    let data = pe_image(0x80, IMAGE_FILE_MACHINE_I386);
    assert_eq!(validate_dll_architecture("Lusbapi.dll", &data, ProcessArch::X86), Ok(()));
    assert_eq!(
        validate_dll_architecture("Lusbapi.dll", &data, ProcessArch::X86_64),
        Err("Lusbapi.dll is 32-bit (x86), but this executable is 64-bit (x64). Use matching bitness.".to_string())
    );
    assert_eq!(
        validate_dll_architecture("Lusbapi.dll", b"not a dll", ProcessArch::X86_64),
        Err("Lusbapi.dll is not a Windows PE DLL".to_string())
    );
}
