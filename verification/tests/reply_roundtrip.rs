use epos_rs::error::EPOSError;
use epos_rs::formatters::{Align, Style};
use epos_rs::soap::{handle_reply, render_reply};
use epos_rs::status::Response;

#[test]
fn test_render_then_parse_reply() {
    let resp = Response {
        ns: String::from("http://www.epson-pos.com/schemas/2011/03/epos-print"),
        success: true,
        code: String::from(""),
        status: 251658262,
        battery: 0,
    };
    let wire = render_reply("http://schemas.xmlsoap.org/soap/envelope/", &resp);
    let back = handle_reply(&wire).unwrap();
    assert_eq!(back.ns, resp.ns);
    assert_eq!(back.success, resp.success);
    assert_eq!(back.code, resp.code);
    assert_eq!(back.status, resp.status);
    assert_eq!(back.battery, resp.battery);
}

#[test]
fn test_render_then_parse_failed_reply() {
    let resp = Response {
        ns: String::from("ns"),
        success: false,
        code: String::from("EPTR_COVER_OPEN"),
        status: 4294967295,
        battery: 7,
    };
    let wire = render_reply("env", &resp);
    match handle_reply(&wire) {
        Err(EPOSError::ResponseError { status }) => {
            assert_eq!(status.code, resp.code);
            assert_eq!(status.status, resp.status);
            assert_eq!(status.battery, resp.battery);
        }
        _ => panic!("a failed reply must round-trip into a response error"),
    }
}

#[test]
fn test_catalog_decode_errors() {
    match Align::decode("sideways") {
        Err(EPOSError::UnknownCatalogValue { token }) => assert_eq!(token, "sideways"),
        _ => panic!("an unknown token must be reported with the token itself"),
    }
    assert!(matches!(Style::decode("medium"), Ok(Style::Medium)));
    assert!(matches!(
        epos_rs::barcodes::HRI::decode("sometimes"),
        Err(EPOSError::UnknownCatalogValue { .. })
    ));
}
