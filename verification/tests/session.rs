use akispace::session::{
    get_configured_rdp_port, is_rdp_wrapper_installed, is_wrapper_service_dll, names_wrapper_dll,
    truncate_version, DEFAULT_RDP_PORT,
};

#[test]
fn port_falls_back_to_default() {
    assert_eq!(get_configured_rdp_port(Some(3390)), 3390);
    assert_eq!(get_configured_rdp_port(Some(0)), DEFAULT_RDP_PORT);
    assert_eq!(get_configured_rdp_port(Some(70000)), 3389);
    assert_eq!(get_configured_rdp_port(None), 3389);
    assert_eq!(get_configured_rdp_port(Some(65535)), 65535);
}

#[test]
fn wrapper_detection_ignores_case() {
    assert!(names_wrapper_dll("c:\\rdpwrap.dll"));
    assert!(!names_wrapper_dll("c:\\RDPWRAP.dll"));
    assert!(is_wrapper_service_dll("C:\\Program Files\\RDPWrap.DLL"));
    assert!(is_wrapper_service_dll("C:\\TermWrap.dll"));
    assert!(!is_wrapper_service_dll("%SystemRoot%\\System32\\termsrv.dll"));
    assert!(is_rdp_wrapper_installed(Some("x\\rdpwrap.dll")));
    assert!(!is_rdp_wrapper_installed(None));
}

#[test]
fn version_keeps_three_fields() {
    assert_eq!(truncate_version("10.0.19041.1"), "10.0.19041");
    assert_eq!(truncate_version("10.0.19041.1.5"), "10.0.19041");
    assert_eq!(truncate_version("10.0"), "10.0");
    assert_eq!(truncate_version(""), "");
}
