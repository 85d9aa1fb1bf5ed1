use epos_rs::error::EPOSError;
use epos_rs::formatters::{CutType, Style};
use epos_rs::normal::Cut;
use epos_rs::page::Rectangle;
use epos_rs::printer::{Command, Document, Mode};
use epos_rs::soap::handle_reply;
use epos_rs::universal::{Barcode, Text};
use epos_rs::barcodes::BarcodeType;

fn plain_text(s: &str) -> Text {
    Text {
        text: String::from(s),
        font: None,
        smoothing: None,
        double_width: None,
        double_height: None,
        width: None,
        height: None,
        underline: None,
        emph: None,
        color: None,
        lang: None,
        align: None,
    }
}

#[test]
fn test_page_command_rejected_in_normal_mode() {
    let mut doc = Document::new(Mode::Normal);
    let cmd = Command::Rectangle(Rectangle { x1: 0, y1: 1, x2: 2, y2: 3, style: None });
    match doc.append(&cmd) {
        Err(EPOSError::IllegalForMode) => {}
        _ => panic!("a page-only command must be rejected at append time"),
    }
}

#[test]
fn test_normal_command_rejected_in_page_mode() {
    let mut doc = Document::new(Mode::Page);
    let cmd = Command::Cut(Cut { cut_type: CutType::Feed });
    match doc.append(&cmd) {
        Err(EPOSError::IllegalForMode) => {}
        _ => panic!("a normal-only command must be rejected at append time"),
    }
}

#[test]
fn test_invalid_payload_rejected() {
    let mut doc = Document::new(Mode::Normal);
    let cmd = Command::Barcode(Barcode {
        text: String::from("not digits"),
        barcode_type: BarcodeType::UpcA,
        hri: None,
        font: None,
        width: None,
        height: None,
        align: None,
        rotate: None,
    });
    match doc.append(&cmd) {
        Err(EPOSError::InvalidPayload { .. }) => {}
        _ => panic!("a payload outside the symbology rules must be rejected"),
    }
}

#[test]
fn test_text_width_range_enforced() {
    let mut doc = Document::new(Mode::Normal);
    let mut t = plain_text("hello\n");
    t.width = Some(9);
    match doc.append(&Command::Text(t)) {
        Err(EPOSError::InvalidPayload { .. }) => {}
        _ => panic!("a text width above 8 must be rejected"),
    }
    let mut ok = plain_text("hello\n");
    ok.width = Some(8);
    assert!(doc.append(&Command::Text(ok)).is_ok());
}

#[test]
fn test_document_request_bytes() {
    let mut doc = Document::new(Mode::Normal);
    doc.append(&Command::Text(plain_text("hi\n"))).unwrap();
    doc.append(&Command::Cut(Cut { cut_type: CutType::Feed })).unwrap();
    let req = epos_rs::soap::build_request(doc);
    assert_eq!(
        req,
        String::from(
            "<s:Envelope xmlns:s=\"http://schemas.xmlsoap.org/soap/envelope/\"><s:Body xmlns=\"http://www.epson-pos.com/schemas/2011/03/epos-print\"><epos-print><text>hi\n</text>\n<cut type=\"feed\"/></epos-print></s:Body></s:Envelope>"
        )
    );
}

#[test]
fn test_page_request_wraps_body() {
    let mut doc = Document::new(Mode::Page);
    let rect = Rectangle { x1: 0, y1: 0, x2: 200, y2: 100, style: Some(Style::Thin) };
    doc.append(&Command::Rectangle(rect)).unwrap();
    let req = epos_rs::soap::build_request(doc);
    assert_eq!(
        req,
        String::from(
            "<s:Envelope xmlns:s=\"http://schemas.xmlsoap.org/soap/envelope/\"><s:Body xmlns=\"http://www.epson-pos.com/schemas/2011/03/epos-print\"><epos-print><page><rectangle x1=\"0\" y1=\"0\" x2=\"200\" y2=\"100\" style=\"thin\"/></page></epos-print></s:Body></s:Envelope>"
        )
    );
}

#[test]
fn test_brace_escapes_transmitted_verbatim_once() {
    let barcode = Barcode {
        text: String::from("{B12{1data{{x"),
        barcode_type: BarcodeType::Code128,
        hri: None,
        font: None,
        width: None,
        height: None,
        align: None,
        rotate: None,
    };
    let mut doc = Document::new(Mode::Normal);
    doc.append(&Command::Barcode(barcode)).unwrap();
    let req = epos_rs::soap::build_request(doc);
    assert_eq!(req.matches("{B12{1data{{x").count(), 1);
    assert!(!req.contains("&amp;"));
    assert!(!req.contains("&lt;"));
}

#[test]
fn test_builder_add_rejects_out_of_range() {
    let mut job = epos_rs::new(10000, "local_printer", "http://192.168.1.194").normal();
    let mut t = plain_text("hello\n");
    t.width = Some(9);
    match job.add(t) {
        Err(EPOSError::InvalidPayload { .. }) => {}
        _ => panic!("a text width above 8 must be rejected at append time"),
    }
    let bad_barcode = Barcode {
        text: String::from("01234567890"),
        barcode_type: BarcodeType::UpcA,
        hri: None,
        font: None,
        width: Some(7),
        height: None,
        align: None,
        rotate: None,
    };
    match job.add(bad_barcode) {
        Err(EPOSError::InvalidPayload { .. }) => {}
        _ => panic!("a barcode width outside 2 through 6 must be rejected"),
    }
    let bad_symbol = epos_rs::universal::Symbol {
        text: String::from("payload"),
        symbol_type: epos_rs::barcodes::SymbolType::PDF417,
        level: None,
        width: Some(9),
        height: None,
        size: None,
        align: None,
        rotate: None,
    };
    match job.add(bad_symbol) {
        Err(EPOSError::InvalidPayload { .. }) => {}
        _ => panic!("a symbol width outside its symbology range must be rejected"),
    }
    // Nothing was buffered: the request body is empty.
    let req = job.into_request();
    assert!(req.contains("<epos-print/>"));
}

#[test]
fn test_builder_add_accepts_in_range() {
    let mut job = epos_rs::new(10000, "local_printer", "http://192.168.1.194").normal();
    let mut t = plain_text("hello\n");
    t.width = Some(8);
    t.height = Some(1);
    assert!(job.add(t).is_ok());
    let barcode = Barcode {
        text: String::from("01234567890"),
        barcode_type: BarcodeType::UpcA,
        hri: None,
        font: None,
        width: Some(2),
        height: Some(64),
        align: None,
        rotate: None,
    };
    assert!(job.add(barcode).is_ok());
    let req = job.into_request();
    assert!(req.contains("<text width=\"8\" height=\"1\">hello\n</text>"));
    assert!(req.contains("width=\"2\" height=\"64\">01234567890</barcode>"));
}

#[test]
fn test_page_builder_add_validates() {
    let mut job = epos_rs::new(10000, "local_printer", "http://192.168.1.194").page();
    let mut t = plain_text("x\n");
    t.height = Some(0);
    match job.add(t) {
        Err(EPOSError::InvalidPayload { .. }) => {}
        _ => panic!("a text height below 1 must be rejected at append time"),
    }
    assert!(job.add(epos_rs::page::Area { x: 0, y: 0, width: 500, height: 500 }).is_ok());
    let req = job.into_request();
    assert!(req.contains("<page><area x=\"0\" y=\"0\" width=\"500\" height=\"500\"/></page>"));
}

#[test]
fn test_builder_flow_normal() {
    let handler = epos_rs::new(10000, "local_printer", "http://192.168.1.194");
    assert_eq!(handler.dev_id, String::from("local_printer"));
    assert_eq!(handler.timeout, 10000);
    let mut job = handler.normal();
    job.add(plain_text("I HATE XML\n\n")).unwrap();
    job.add(Cut { cut_type: CutType::Feed }).unwrap();
    let req = job.into_request();
    assert!(req.starts_with("<s:Envelope xmlns:s=\"http://schemas.xmlsoap.org/soap/envelope/\">"));
    assert!(req.contains("<text>I HATE XML\n\n</text>\n<cut type=\"feed\"/>"));
    assert!(req.ends_with("</s:Body></s:Envelope>"));
}

#[test]
fn test_reply_success_returns_response() {
    let reply = "<?xml version=\"1.0\" encoding=\"utf-8\"?><s:Envelope xmlns:s=\"http://schemas.xmlsoap.org/soap/envelope/\"><s:Body><response xmlns=\"http://www.epson-pos.com/schemas/2011/03/epos-print\" success=\"true\" code=\"\" status=\"252706821\" battery=\"0\"/></s:Body></s:Envelope>";
    let resp = handle_reply(reply).unwrap();
    assert!(resp.success);
    assert_eq!(resp.code, String::from(""));
    assert_eq!(resp.status, 252706821);
    assert_eq!(resp.battery, 0);
    assert_eq!(resp.ns, String::from("http://www.epson-pos.com/schemas/2011/03/epos-print"));
}

#[test]
fn test_reply_failure_surfaces_response_error() {
    let reply = "<s:Envelope xmlns:s=\"http://schemas.xmlsoap.org/soap/envelope/\"><s:Body><response xmlns=\"http://www.epson-pos.com/schemas/2011/03/epos-print\" success=\"false\" code=\"EPTR_REC_EMPTY\" status=\"134217730\" battery=\"0\"/></s:Body></s:Envelope>";
    match handle_reply(reply) {
        Err(EPOSError::ResponseError { status }) => {
            assert!(!status.success);
            assert_eq!(status.code, String::from("EPTR_REC_EMPTY"));
            assert_eq!(status.status, 134217730);
        }
        _ => panic!("a failed reply must surface a response error"),
    }
}

#[test]
fn test_unreadable_reply_is_serialize_error() {
    match handle_reply("this is not a reply") {
        Err(EPOSError::SerializeError { .. }) => {}
        _ => panic!("an unreadable reply must surface a serialize error"),
    }
    match handle_reply("<s:Envelope xmlns:s=\"ns\"><response xmlns=\"x\" success=\"maybe\" code=\"\" status=\"1\" battery=\"0\"/></s:Envelope>") {
        Err(EPOSError::SerializeError { .. }) => {}
        _ => panic!("a non-boolean success token must surface a serialize error"),
    }
}

#[test]
fn test_reply_attribute_order_is_free() {
    let reply = "<s:Envelope xmlns:s=\"ns\"><s:Body><response battery=\"6\" status=\"251658262\" code=\"X\" success=\"1\" xmlns=\"y\"/></s:Body></s:Envelope>";
    let resp = handle_reply(reply).unwrap();
    assert!(resp.success);
    assert_eq!(resp.status, 251658262);
    assert_eq!(resp.battery, 6);
    assert_eq!(resp.code, String::from("X"));
}
