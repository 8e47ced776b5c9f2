use rudeauth::fingerprint::{label, linux, macos, other, push, windows};

#[test]
fn push_skips_empty_values() {
    let mut out = Vec::new();
    push(&mut out, "cpu", "  Intel(R) Xeon  \n".to_string());
    push(&mut out, "bios", "   ".to_string());
    push(&mut out, "board", String::new());
    push(&mut out, "disk", "abc".to_string());
    assert_eq!(out, vec!["cpu:Intel(R) Xeon".to_string(), "disk:abc".to_string()]);
}

#[test]
fn linux_components() {
    assert_eq!(linux::read_first_line(Some("  abc123  \nsecond\n".to_string())), "abc123");
    assert_eq!(linux::read_first_line(Some("no newline".to_string())), "no newline");
    assert_eq!(linux::read_first_line(Some("win\r\nnext".to_string())), "win");
    assert_eq!(linux::read_first_line(Some(String::new())), "");
    assert_eq!(linux::read_first_line(None), "");

    let cpuinfo = "processor\t: 0\nvendor_id\t: GenuineIntel\nmodel\t\t: 85\nmodel name\t: Intel(R) Xeon(R) Gold 6148 CPU @ 2.40GHz\nstepping\t: 4\nmodel name\t: second\n";
    assert_eq!(linux::cpu_model(Some(cpuinfo.to_string())), "Intel(R) Xeon(R) Gold 6148 CPU @ 2.40GHz");
    assert_eq!(linux::cpu_model(Some("model name without colon\nmodel name: x".to_string())), "x");
    assert_eq!(linux::cpu_model(Some("processor: 0\n".to_string())), "");
    assert_eq!(linux::cpu_model(None), "");

    let out = linux::collect(
        Some("mid\n".to_string()),
        None,
        Some("   \n".to_string()),
        Some("PS-1".to_string()),
        Some(cpuinfo.to_string()),
    );
    assert_eq!(
        out,
        vec![
            "machine-id:mid".to_string(),
            "product-serial:PS-1".to_string(),
            "cpu:Intel(R) Xeon(R) Gold 6148 CPU @ 2.40GHz".to_string(),
        ]
    );
}

#[test]
fn macos_components() {
    let ioreg = "+-o J314sAP  <class IOPlatformExpertDevice>\n    {\n      \"IOPlatformSerialNumber\" = \"C02XL0GQJGH5\"\n      \"IOPlatformUUID\" = \"3C6B7F8E-1111-2222-3333-444455556666\"\n    }\n";
    assert_eq!(macos::ioreg_value(Some(ioreg.to_string()), "IOPlatformUUID"), "3C6B7F8E-1111-2222-3333-444455556666");
    assert_eq!(macos::ioreg_value(Some(ioreg.to_string()), "IOPlatformSerialNumber"), "C02XL0GQJGH5");
    assert_eq!(macos::ioreg_value(Some(ioreg.to_string()), "Missing"), "");
    assert_eq!(macos::ioreg_value(None, "IOPlatformUUID"), "");
    assert_eq!(macos::sysctl(Some("MacBookPro18,3\n".to_string())), "MacBookPro18,3");
    let out = macos::collect(Some(ioreg.to_string()), Some(ioreg.to_string()), Some("Mac14,2\n".to_string()));
    assert_eq!(
        out,
        vec![
            "platform-uuid:3C6B7F8E-1111-2222-3333-444455556666".to_string(),
            "serial:C02XL0GQJGH5".to_string(),
            "model:Mac14,2".to_string(),
        ]
    );
}

#[test]
fn windows_components() {
    assert_eq!(windows::reg_string(Some("Intel(R) Core(TM) i7   \0".to_string())), "Intel(R) Core(TM) i7");
    assert_eq!(windows::reg_string(None), "");
    assert_eq!(windows::volume_serial(Some(0x1a2b3c)), "001A2B3C");
    assert_eq!(windows::volume_serial(Some(0)), "");
    assert_eq!(windows::volume_serial(None), "");
    let out = windows::collect(
        Some("b7e1-guid".to_string()),
        Some(0xDEADBEEF),
        Some("CPU Name  ".to_string()),
        None,
        Some(" \0".to_string()),
    );
    assert_eq!(
        out,
        vec!["machine-guid:b7e1-guid".to_string(), "volume:DEADBEEF".to_string(), "cpu:CPU Name".to_string()]
    );
    assert!(other::collect().is_empty());
}

#[test]
fn label_prefers_env_then_file_then_command() {
    assert_eq!(label(Some("host-a".to_string()), Some("file-b".to_string()), None), "host-a");
    assert_eq!(label(Some(String::new()), Some("  file-b \n".to_string()), Some("cmd".to_string())), "file-b");
    assert_eq!(label(None, Some("   ".to_string()), Some(" cmd-c\n".to_string())), "cmd-c");
    assert_eq!(label(None, None, Some("\n".to_string())), "unknown");
    assert_eq!(label(None, None, None), "unknown");
    // The environment's name is used as is, not trimmed.
    assert_eq!(label(Some(" spaced ".to_string()), None, None), " spaced ");
}
