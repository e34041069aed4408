use akispace::ipc::acl::{
    allowed_sids, build_pipe_dacl_sddl, check_client_sid, tight_file_dacl, valid_sid_string, AclError,
};

#[test]
fn build_pipe_dacl_sd_rejects_empty_whitelist() {
    assert!(build_pipe_dacl_sddl(&[]).is_err());
}

#[test]
fn build_pipe_dacl_sd_rejects_malformed_sid() {
    assert!(build_pipe_dacl_sddl(&[b"D:P(A;;GA;;;WD)fake".to_vec()]).is_err());
}

#[test]
fn dacl_text_for_whitelist() {
    let sids = allowed_sids(b"S-1-5-21-1-2-3-1001".to_vec(), b"S-1-5-18".to_vec(), None);
    assert_eq!(
        build_pipe_dacl_sddl(&sids).unwrap(),
        "D:P(A;;GA;;;S-1-5-21-1-2-3-1001)(A;;GA;;;S-1-5-18)"
    );
    let with_clone = allowed_sids(b"S-1-5-1".to_vec(), b"S-1-5-18".to_vec(), Some(b"S-1-5-2".to_vec()));
    assert_eq!(with_clone.len(), 3);
    assert_eq!(
        tight_file_dacl(b"S-1-5-1", b"S-1-5-18", &[b"S-1-5-2".to_vec()]).unwrap(),
        "D:P(A;;GA;;;S-1-5-1)(A;;GA;;;S-1-5-18)(A;;GA;;;S-1-5-2)"
    );
}

#[test]
fn dacl_errors() {
    match build_pipe_dacl_sddl(&[vec![0xff, 0xfe]]) {
        Err(e) => {
            assert!(matches!(e, AclError::NotUtf8));
            assert_eq!(e.message(), "SID 非合法 UTF-8");
        }
        Ok(_) => panic!("not UTF-8"),
    }
    match build_pipe_dacl_sddl(&[b"S-1-5-18".to_vec(), b"S-1-5-18)(A;;GA;;;WD".to_vec()]) {
        Err(e) => assert_eq!(e.message(), "SID 字符串形态非法: S-1-5-18)(A;;GA;;;WD"),
        Ok(_) => panic!("malformed"),
    }
    match build_pipe_dacl_sddl(&[]) {
        Err(e) => assert_eq!(e.message(), "ACL 白名单 SID 列表为空"),
        Ok(_) => panic!("empty"),
    }
}

#[test]
fn sid_strings_and_client_check() {
    assert!(valid_sid_string("S-1-5-18"));
    assert!(valid_sid_string("s-1-5-18"[..].to_uppercase().as_str()));
    assert!(!valid_sid_string(""));
    assert!(!valid_sid_string("X-1-5"));
    assert!(!valid_sid_string("S-1-5-18 "));
    assert!(!valid_sid_string(&format!("S-{}", "1".repeat(183))));
    assert!(valid_sid_string(&format!("S-{}", "1".repeat(182))));
    let allowed = vec![b"S-1-5-18".to_vec()];
    assert!(check_client_sid(b"S-1-5-18", &allowed));
    assert!(!check_client_sid(b"S-1-5-19", &allowed));
    assert!(!check_client_sid(b"S-1-5-18", &[]));
}
