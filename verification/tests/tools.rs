use no_graphics::spirv::{read_spirv, SpirvError, SPIRV_MAGIC};
use no_graphics::version::{check_tool_version, parse_version, ToolVersion};

#[test]
fn versions_are_found_in_text() {
    assert_eq!(parse_version("slangc 2025.10.1"), Some(vec![2025, 10, 1]));
    assert_eq!(parse_version("v2026.8-dirty"), Some(vec![2026, 8]));
    assert_eq!(parse_version("SPIR-V Tools 5 at .1.2. now"), Some(vec![1, 2]));
    assert_eq!(parse_version("1..2 then 3.4"), Some(vec![3, 4]));
    assert_eq!(parse_version("4294967295.0"), Some(vec![u32::MAX, 0]));
    assert_eq!(parse_version("4294967296.0 0.1"), Some(vec![0, 1]));
    assert_eq!(parse_version("007.08"), Some(vec![7, 8]));
}

#[test]
fn single_numbers_are_no_versions() {
    assert_eq!(parse_version(""), None);
    assert_eq!(parse_version("version 12"), None);
    assert_eq!(parse_version("..."), None);
    assert_eq!(parse_version("12."), None);
    assert_eq!(parse_version(".12"), None);
}

#[test]
fn tools_must_be_new_enough() {
    let minimum = [2026, 8];
    assert_eq!(check_tool_version("none", true, &minimum), ToolVersion::Unreadable);
    assert_eq!(check_tool_version("none", false, &minimum), ToolVersion::Unreadable);
    assert_eq!(check_tool_version("2026.8", true, &minimum), ToolVersion::Sufficient);
    assert_eq!(check_tool_version("2026.8.0", true, &minimum), ToolVersion::Sufficient);
    assert_eq!(check_tool_version("2027.0", true, &minimum), ToolVersion::Sufficient);
    assert_eq!(check_tool_version("2026.7.9", true, &minimum), ToolVersion::Insufficient);
    assert_eq!(check_tool_version("2025.99", true, &minimum), ToolVersion::Insufficient);
    assert_eq!(check_tool_version("2026.8", false, &minimum), ToolVersion::Insufficient);
    // A version that goes on is newer.
    assert_eq!(check_tool_version("1.2", true, &[1, 2, 0]), ToolVersion::Insufficient);
}

#[test]
fn modules_start_with_the_magic_word() {
    let mut bytes = vec![0x03, 0x02, 0x23, 0x07, 0x00, 0x06, 0x01, 0x00];
    bytes.extend([0; 12]);
    let module = read_spirv(&bytes).unwrap();
    assert_eq!(module, vec![SPIRV_MAGIC, 0x0001_0600, 0, 0, 0]);
    assert_eq!(read_spirv(&bytes[..16]), Err(SpirvError::Size));
    assert_eq!(read_spirv(&bytes[..19]), Err(SpirvError::Size));
    assert_eq!(read_spirv(&[]), Err(SpirvError::Size));
    bytes.push(1);
    assert_eq!(read_spirv(&bytes), Err(SpirvError::Size));
    bytes.pop();
    bytes.reverse();
    assert_eq!(read_spirv(&bytes), Err(SpirvError::Magic));
}
