use akispace::ipc::frame::{FrameError, NONCE_LEN};
use akispace::ipc::nonce::{
    generate_nonce, is_nonce_file_name, latest_nonce_entry, new_nonce_file_name, nonce_from_bytes,
    resolve_nonce_target, sweep_targets, NonceDirEntry,
};

#[test]
fn nonce_path_carries_guid_filename() {
    let name = new_nonce_file_name();
    assert!(name.starts_with("nonce_") && name.ends_with(".bin"), "{name}");
    assert_eq!(name.len(), "nonce_".len() + ".bin".len() + 32, "Guid:N 简写 32 位十六进制");
}

fn entry(name: &str, t: Option<i128>) -> NonceDirEntry {
    NonceDirEntry { name: name.to_string(), path: format!("D\\{name}"), modified: t }
}

#[test]
fn names_and_fresh_names() {
    assert!(is_nonce_file_name("nonce_abc.bin"));
    assert!(!is_nonce_file_name("nonce_abc.txt"));
    assert!(!is_nonce_file_name("other.bin"));
    let a = new_nonce_file_name();
    assert!(is_nonce_file_name(&a));
    assert!(a[6..38].chars().all(|c| c.is_ascii_hexdigit() && !c.is_ascii_uppercase()));
    assert_eq!(generate_nonce().len(), NONCE_LEN);
}

#[test]
fn newest_nonce_file_is_chosen() {
    let entries = vec![
        entry("nonce_a.bin", Some(10)),
        entry("unrelated.txt", Some(99)),
        entry("nonce_b.bin", Some(30)),
        entry("nonce_c.bin", None),
        entry("nonce_d.bin", Some(30)),
        entry("other.bin", Some(50)),
    ];
    assert_eq!(latest_nonce_entry(&entries), Some(2));
    assert_eq!(resolve_nonce_target("D", true, &entries), Some("D\\nonce_b.bin".to_string()));
    assert_eq!(resolve_nonce_target("D\\x.bin", false, &entries), Some("D\\x.bin".to_string()));
    assert_eq!(resolve_nonce_target("D", true, &entries[1..2]), None);
}

#[test]
fn sweep_picks_only_nonce_files() {
    let names: Vec<String> =
        ["nonce_stale.bin", "settings.json", "nonce_x.bin"].iter().map(|s| s.to_string()).collect();
    assert_eq!(sweep_targets(&names), vec![0, 2]);
}

#[test]
fn nonce_bytes_must_be_32() {
    assert_eq!(nonce_from_bytes(&[7u8; NONCE_LEN]).unwrap(), [7u8; NONCE_LEN]);
    assert_eq!(nonce_from_bytes(&[0u8; 5]).unwrap_err(), FrameError::NonceLength);
}
