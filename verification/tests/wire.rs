use epos_rs::barcodes::{BarcodeType, ErrorCorrectionLevel, SymbolType, HRI};
use epos_rs::codec::WireItem;
use epos_rs::formatters::{Align, CutType, Font, Lang, Style};
use epos_rs::normal::{Cut, Hline};
use epos_rs::page::{Area, Rectangle};
use epos_rs::universal::{Barcode, Feed, Image, Symbol, Text};
use epos_rs::formatters::PrintDirection;
use epos_rs::page::{Direction, Line, Position};

#[test]
fn test_hline() {
    let test = Hline { x1: 1, x2: 2, style: Some(Style::Medium) };
    let out = test.render();
    assert_eq!(out, String::from(r#"<hline x1="1" x2="2" style="medium"/>"#));
}

#[test]
fn test_cut() {
    let est = Cut { cut_type: CutType::Feed };
    let out = est.render();
    assert_eq!(out, String::from(r#"<cut type="feed"/>"#));
}

#[test]
fn test_rectangle() {
    let test = Rectangle { x1: 0, y1: 1, x2: 2, y2: 3, style: Some(Style::Medium) };
    let out = test.render();
    assert_eq!(out, String::from(r#"<rectangle x1="0" y1="1" x2="2" y2="3" style="medium"/>"#));
}

#[test]
fn test_area() {
    let test = Area { x: 100, y: 100, width: 200, height: 400 };
    let out = test.render();
    assert_eq!(out, String::from(r#"<area x="100" y="100" width="200" height="400"/>"#));
}

#[test]
fn test_text() {
    let test = Text {
        text: String::from("test"),
        font: Some(Font::FontA),
        smoothing: Some(true),
        double_width: Some(true),
        double_height: Some(true),
        width: Some(20),
        height: Some(20),
        underline: Some(true),
        emph: Some(true),
        color: Some(true),
        lang: Some(Lang::En),
        align: Some(Align::Center),
    };
    let out = test.render();
    assert_eq!(
        out,
        String::from(
            r#"<text font="font_a" smoothing="true" dw="true" dh="true" width="20" height="20" ul="true" em="true" color="true" lang="en" align="center">test</text>"#
        )
    );
}

#[test]
fn test_hline_thin_double() {
    let test = Hline { x1: 1, x2: 2, style: Some(Style::ThinDouble) };
    assert_eq!(test.render(), String::from(r#"<hline x1="1" x2="2" style="thin_double"/>"#));
}

#[test]
fn test_hline_no_style() {
    let test = Hline { x1: 10, x2: 650, style: None };
    assert_eq!(test.render(), String::from(r#"<hline x1="10" x2="650"/>"#));
}

#[test]
fn test_feed_empty_and_full() {
    let empty = Feed { unit: None, line: None, linespc: None, pos: None };
    assert_eq!(empty.render(), String::from(r#"<feed/>"#));
    let full = Feed {
        unit: Some(30),
        line: Some(5),
        linespc: Some(18),
        pos: Some(epos_rs::formatters::FeedPos::Cutting),
    };
    assert_eq!(
        full.render(),
        String::from(r#"<feed unit="30" line="5" linespc="18" pos="cutting"/>"#)
    );
}

#[test]
fn test_text_escapes_markup_once() {
    let t = Text {
        text: String::from("a<b&c\n"),
        font: None,
        smoothing: None,
        double_width: None,
        double_height: None,
        width: None,
        height: None,
        underline: None,
        emph: None,
        color: None,
        lang: None,
        align: None,
    };
    assert_eq!(t.render(), String::from("<text>a&lt;b&amp;c\n</text>"));
}

#[test]
fn test_barcode_render() {
    let b = Barcode {
        text: String::from("01234567890"),
        barcode_type: BarcodeType::UpcA,
        hri: Some(HRI::Below),
        font: None,
        width: Some(3),
        height: Some(64),
        align: Some(Align::Center),
        rotate: Some(false),
    };
    assert_eq!(
        b.render(),
        String::from(
            r#"<barcode type="upc_a" hri="below" width="3" height="64" align="center" rotate="false">01234567890</barcode>"#
        )
    );
}

#[test]
fn test_symbol_render() {
    let s = Symbol {
        text: String::from("HELP ME"),
        symbol_type: SymbolType::MaxiCodeMode4,
        level: Some(ErrorCorrectionLevel::LevelM),
        width: None,
        height: None,
        size: None,
        align: None,
        rotate: None,
    };
    assert_eq!(
        s.render(),
        String::from(r#"<symbol type="maxicode_mode_4" level="level_m">HELP ME</symbol>"#)
    );
}

#[test]
fn test_symbol_numeric_level() {
    let s = Symbol {
        text: String::from("aztec payload"),
        symbol_type: SymbolType::AztecCodeFullRange,
        level: Some(ErrorCorrectionLevel::Int(23)),
        width: None,
        height: None,
        size: None,
        align: None,
        rotate: None,
    };
    assert_eq!(
        s.render(),
        String::from(r#"<symbol type="azteccode_fullrange" level="23">aztec payload</symbol>"#)
    );
}

#[test]
fn test_catalog_token_roundtrips() {
    assert_eq!(Align::from_token(Align::Left.token()), Some(Align::Left));
    assert_eq!(Style::from_token(Style::ThinDouble.token()), Some(Style::ThinDouble));
    assert_eq!(Font::from_token(Font::FontE.token()), Some(Font::FontE));
    assert_eq!(CutType::from_token("reserve"), Some(CutType::Reserve));
    assert_eq!(Align::from_token("sideways"), None);
    assert_eq!(
        BarcodeType::from_token(BarcodeType::Gs1DatabarExpanded.token()),
        Some(BarcodeType::Gs1DatabarExpanded)
    );
    assert_eq!(
        SymbolType::from_token(SymbolType::DatamatrixRectangle16.token()),
        Some(SymbolType::DatamatrixRectangle16)
    );
    assert_eq!(HRI::from_token("none"), Some(HRI::NoHri));
}

#[test]
fn test_error_correction_fallback_roundtrip() {
    assert_eq!(
        ErrorCorrectionLevel::from_token("level_7"),
        Some(ErrorCorrectionLevel::Level7)
    );
    assert_eq!(
        ErrorCorrectionLevel::from_token("42"),
        Some(ErrorCorrectionLevel::Int(42))
    );
    assert_eq!(ErrorCorrectionLevel::from_token("fancy"), None);
    let tok = ErrorCorrectionLevel::Int(95).token();
    assert_eq!(tok, String::from("95"));
    assert_eq!(
        ErrorCorrectionLevel::from_token(tok.as_str()),
        Some(ErrorCorrectionLevel::Int(95))
    );
}

#[test]
fn test_lang_fallback_preserved() {
    let l = Lang::from_token("pt-br");
    match &l {
        Lang::Other(s) => assert_eq!(s, "pt-br"),
        _ => panic!("a token outside the catalog must fall back"),
    }
    assert_eq!(l.token(), String::from("pt-br"));
    match Lang::from_token("ja-jp") {
        Lang::JaJp => {}
        _ => panic!("a catalog token must decode to its variant"),
    }
}

#[test]
fn test_page_primitives_render() {
    let l = Line { x1: 1, y1: 2, x2: 3, y2: 4, style: None };
    assert_eq!(l.render(), String::from(r#"<line x1="1" y1="2" x2="3" y2="4"/>"#));
    let d = Direction { dir: PrintDirection::BottomToTop };
    assert_eq!(d.render(), String::from(r#"<direction dir="bottom_to_top"/>"#));
    let p = Position { x: 0, y: 65535 };
    assert_eq!(p.render(), String::from(r#"<position x="0" y="65535"/>"#));
}

#[test]
fn test_image_negative_dimensions_render() {
    let i = Image { text: String::from("AAEC"), width: -8, height: 2147483647 };
    assert_eq!(
        i.render(),
        String::from(r#"<image width="-8" height="2147483647">AAEC</image>"#)
    );
}

#[test]
fn test_symbol_width_rules() {
    // PDF417 reads widths 2 through 8; QR allows 1; MaxiCode ignores it.
    assert!(!SymbolType::PDF417.width_check(1));
    assert!(SymbolType::PDF417.width_check(8));
    assert!(SymbolType::QRCode2.width_check(1));
    assert!(!SymbolType::QRCode2.width_check(17));
    assert!(SymbolType::MaxiCodeMode4.width_check(255));
    assert!(!SymbolType::GS1DatabarExpandedStacked.size_check(105));
    assert!(SymbolType::GS1DatabarExpandedStacked.size_check(106));
}

#[test]
fn test_barcode_payload_rules() {
    assert!(BarcodeType::UpcA.payload_check("01234567890"));
    assert!(BarcodeType::UpcA.payload_check("012345678905"));
    assert!(!BarcodeType::UpcA.payload_check("0123456789"));
    assert!(!BarcodeType::UpcA.payload_check("0123456789a"));
    assert!(BarcodeType::UpcE.payload_check("01234567890"));
    assert!(!BarcodeType::UpcE.payload_check("11234567890"));
    assert!(BarcodeType::EAN8.payload_check("1234567"));
    assert!(!BarcodeType::EAN13.payload_check("12345678901"));
    assert!(BarcodeType::CodaBar.payload_check("A40156B"));
    assert!(!BarcodeType::CodaBar.payload_check("40156"));
    assert!(BarcodeType::Code128.payload_check("{B12{1data{{x"));
    assert!(!BarcodeType::Code128.payload_check("plain"));
    assert!(!BarcodeType::Code128.payload_check("{Bdangling{"));
    assert!(!BarcodeType::Code128.payload_check("{B12{zbad"));
    assert!(BarcodeType::GS1_128.payload_check("(01)1234{1rest"));
    assert!(BarcodeType::GS1DatabarLimited.payload_check("0123456789012"));
    assert!(!BarcodeType::GS1DatabarLimited.payload_check("01234567890123"));
}
