use oxide_motive::uds::{DiagnosticSession, UdsServer};

#[test]
fn session_control_switches_session() {
    let mut server = UdsServer::new();
    assert_eq!(server.current_session(), DiagnosticSession::Default);
    assert_eq!(server.handle_request(&[0x10, 0x03]), vec![0x50, 0x03]);
    assert_eq!(server.current_session(), DiagnosticSession::Extended);
    assert_eq!(server.handle_request(&[0x10, 0x02]), vec![0x50, 0x02]);
    assert_eq!(server.current_session(), DiagnosticSession::Programming);
    assert_eq!(server.handle_request(&[0x10, 0x01]), vec![0x50, 0x01]);
    assert_eq!(server.current_session(), DiagnosticSession::Default);
}

#[test]
fn session_control_rejects_unknown_sub_function() {
    let mut server = UdsServer::new();
    server.handle_request(&[0x10, 0x03]);
    assert_eq!(server.handle_request(&[0x10, 0x04]), vec![0x7F, 0x10, 0x12]);
    assert_eq!(server.handle_request(&[0x10]), vec![0x7F, 0x10, 0x12]);
    assert_eq!(server.current_session(), DiagnosticSession::Extended);
}

#[test]
fn read_vin_by_identifier() {
    let mut server = UdsServer::new();
    assert_eq!(
        server.handle_request(&[0x22, 0xF1, 0x90]),
        vec![0x62, 0xF1, 0x90, b'V', b'I', b'N', b'1', b'2', b'3']
    );
    assert_eq!(server.handle_request(&[0x22, 0xF1, 0x91]), vec![0x7F, 0x22, 0x31]);
    assert_eq!(server.handle_request(&[0x22, 0xF1]), vec![0x7F, 0x22, 0x13]);
}

#[test]
fn dtc_services_and_unknown_service() {
    let mut server = UdsServer::new();
    assert_eq!(server.handle_request(&[0x19, 0x02, 0xFF]), vec![0x59, 0x02, 0xFF]);
    assert_eq!(server.handle_request(&[0x14, 0xFF, 0xFF, 0xFF]), vec![0x54]);
    assert_eq!(server.handle_request(&[0x27, 0x01]), vec![0x7F, 0x27, 0x11]);
    assert_eq!(server.current_session(), DiagnosticSession::Default);
}
