use epos_rs::status::{PrinterStatus, Response};

#[test]
fn test_status_bitmask() {
    let example = 251658262;
    let status = Response { status: example, ..Default::default() };
    let res: PrinterStatus = status.status.into();
    let codes = PrinterStatus {
        success: true,
        drawer_kick_out_connector: true,
        battery_offline_status: true,
        buzzer_on: true,
        label_wait_removal: true,
        ..Default::default()
    };
    println!("status: {}", res.to_json());
    assert_eq!(codes, res);
}

#[test]
fn test_status_to_string() {
    let example = 251658262;
    let status = Response { status: example, ..Default::default() };
    let out: PrinterStatus = status.status.into();
    assert_eq!(
        r#"{"success":true,"drawer_kick_out_connector":true,"battery_offline_status":true,"buzzer_on":true,"label_wait_removal":true}"#,
        out.to_json()
    );
}

#[test]
fn test_status_shared_bits() {
    // One mask bit feeds two names in each shared pair; both must be
    // reported, never deduplicated.
    let res = PrinterStatus::from(0x0F020004);
    assert!(res.drawer_kick_out_connector);
    assert!(res.battery_offline_status);
    assert!(res.no_paper_roll_near_end_sensor);
    assert!(res.buzzer_on);
    assert!(res.label_wait_removal);
    assert!(!res.success);
    assert!(!res.offline);
}

#[test]
fn test_status_zero_decodes_empty() {
    let res = PrinterStatus::from(0);
    assert_eq!(res, PrinterStatus::default());
    assert_eq!(res.to_json(), String::from("{}"));
}

#[test]
fn test_response_summary() {
    let resp = Response {
        ns: String::new(),
        success: false,
        code: String::from("EPTR_REC_EMPTY"),
        status: 6,
        battery: 0,
    };
    assert_eq!(
        resp.summary(),
        String::from(
            r#"status: 'EPTR_REC_EMPTY' codes: {"success":true,"drawer_kick_out_connector":true,"battery_offline_status":true}"#
        )
    );
}
