//! Catalog types for 1D barcodes and 2D symbols: the symbology
//! enumerations, HRI placement, error-correction levels, and the
//! symbology-specific payload rules the device dictates.

use vstd::prelude::*;

use crate::codec::{str_eq, all_digits, dec_val, parse_u32, check_digits};

verus! {

broadcast use vstd::string::group_string_axioms;


/// The available 1D barcode symbologies.
#[derive(Clone, Copy, Debug, PartialEq, Eq, Structural)]
pub enum BarcodeType {
    UpcA,
    UpcE,
    EAN13,
    JAN13,
    EAN8,
    JAN8,
    Code39,
    ITF,
    CodaBar,
    Code93,
    Code128,
    GS1_128,
    GS1DatabarOmnidirectional,
    GS1DatabarTruncated,
    GS1DatabarLimited,
    Gs1DatabarExpanded,
}

impl BarcodeType {
    /// The vendor wire token of the variant.
    pub open spec fn wire(self) -> Seq<char> {
        match self {
            BarcodeType::UpcA => "upc_a"@,
            BarcodeType::UpcE => "upc_e"@,
            BarcodeType::EAN13 => "ean13"@,
            BarcodeType::JAN13 => "jan13"@,
            BarcodeType::EAN8 => "EAN8"@,
            BarcodeType::JAN8 => "JAN8"@,
            BarcodeType::Code39 => "code39"@,
            BarcodeType::ITF => "itf"@,
            BarcodeType::CodaBar => "codabar"@,
            BarcodeType::Code93 => "code93"@,
            BarcodeType::Code128 => "code128"@,
            BarcodeType::GS1_128 => "gs1_128"@,
            BarcodeType::GS1DatabarOmnidirectional => "gs1_databar_omnidirectional"@,
            BarcodeType::GS1DatabarTruncated => "gs1_databar_truncated"@,
            BarcodeType::GS1DatabarLimited => "gs1_databar_limited"@,
            BarcodeType::Gs1DatabarExpanded => "gs1_databar_expanded"@,
        }
    }

    /// Renders the exact token spelled on the wire.
    pub fn token(&self) -> (r: &'static str)
        ensures
            r@ == self.wire(),
    {
        match self {
            BarcodeType::UpcA => "upc_a",
            BarcodeType::UpcE => "upc_e",
            BarcodeType::EAN13 => "ean13",
            BarcodeType::JAN13 => "jan13",
            BarcodeType::EAN8 => "EAN8",
            BarcodeType::JAN8 => "JAN8",
            BarcodeType::Code39 => "code39",
            BarcodeType::ITF => "itf",
            BarcodeType::CodaBar => "codabar",
            BarcodeType::Code93 => "code93",
            BarcodeType::Code128 => "code128",
            BarcodeType::GS1_128 => "gs1_128",
            BarcodeType::GS1DatabarOmnidirectional => "gs1_databar_omnidirectional",
            BarcodeType::GS1DatabarTruncated => "gs1_databar_truncated",
            BarcodeType::GS1DatabarLimited => "gs1_databar_limited",
            BarcodeType::Gs1DatabarExpanded => "gs1_databar_expanded",
        }
    }

    /// The variant a token decodes to, if any.
    pub open spec fn of_token(t: Seq<char>) -> Option<BarcodeType> {
        if t == "upc_a"@ { Some(BarcodeType::UpcA) }
        else if t == "upc_e"@ { Some(BarcodeType::UpcE) }
        else if t == "ean13"@ { Some(BarcodeType::EAN13) }
        else if t == "jan13"@ { Some(BarcodeType::JAN13) }
        else if t == "EAN8"@ { Some(BarcodeType::EAN8) }
        else if t == "JAN8"@ { Some(BarcodeType::JAN8) }
        else if t == "code39"@ { Some(BarcodeType::Code39) }
        else if t == "itf"@ { Some(BarcodeType::ITF) }
        else if t == "codabar"@ { Some(BarcodeType::CodaBar) }
        else if t == "code93"@ { Some(BarcodeType::Code93) }
        else if t == "code128"@ { Some(BarcodeType::Code128) }
        else if t == "gs1_128"@ { Some(BarcodeType::GS1_128) }
        else if t == "gs1_databar_omnidirectional"@ { Some(BarcodeType::GS1DatabarOmnidirectional) }
        else if t == "gs1_databar_truncated"@ { Some(BarcodeType::GS1DatabarTruncated) }
        else if t == "gs1_databar_limited"@ { Some(BarcodeType::GS1DatabarLimited) }
        else if t == "gs1_databar_expanded"@ { Some(BarcodeType::Gs1DatabarExpanded) }
        else { None }
    }

    /// Decodes a wire token; unknown tokens decode to nothing.
    pub fn from_token(t: &str) -> (r: Option<BarcodeType>)
        ensures
            r == BarcodeType::of_token(t@),
    {
        if str_eq(t, "upc_a") { Some(BarcodeType::UpcA) }
        else if str_eq(t, "upc_e") { Some(BarcodeType::UpcE) }
        else if str_eq(t, "ean13") { Some(BarcodeType::EAN13) }
        else if str_eq(t, "jan13") { Some(BarcodeType::JAN13) }
        else if str_eq(t, "EAN8") { Some(BarcodeType::EAN8) }
        else if str_eq(t, "JAN8") { Some(BarcodeType::JAN8) }
        else if str_eq(t, "code39") { Some(BarcodeType::Code39) }
        else if str_eq(t, "itf") { Some(BarcodeType::ITF) }
        else if str_eq(t, "codabar") { Some(BarcodeType::CodaBar) }
        else if str_eq(t, "code93") { Some(BarcodeType::Code93) }
        else if str_eq(t, "code128") { Some(BarcodeType::Code128) }
        else if str_eq(t, "gs1_128") { Some(BarcodeType::GS1_128) }
        else if str_eq(t, "gs1_databar_omnidirectional") { Some(BarcodeType::GS1DatabarOmnidirectional) }
        else if str_eq(t, "gs1_databar_truncated") { Some(BarcodeType::GS1DatabarTruncated) }
        else if str_eq(t, "gs1_databar_limited") { Some(BarcodeType::GS1DatabarLimited) }
        else if str_eq(t, "gs1_databar_expanded") { Some(BarcodeType::Gs1DatabarExpanded) }
        else { None }
    }
}


/// Every barcode-type token decodes back to the variant that produced it.
pub proof fn lemma_barcode_type_token_roundtrip(v: BarcodeType)
    ensures
        BarcodeType::of_token(v.wire()) == Some(v),
{
    reveal_strlit("upc_a");
    reveal_strlit("upc_e");
    reveal_strlit("ean13");
    reveal_strlit("jan13");
    reveal_strlit("EAN8");
    reveal_strlit("JAN8");
    reveal_strlit("code39");
    reveal_strlit("itf");
    reveal_strlit("codabar");
    reveal_strlit("code93");
    reveal_strlit("code128");
    reveal_strlit("gs1_128");
    reveal_strlit("gs1_databar_omnidirectional");
    reveal_strlit("gs1_databar_truncated");
    reveal_strlit("gs1_databar_limited");
    reveal_strlit("gs1_databar_expanded");
    assert("upc_a"@.len() == 5);
    assert("upc_e"@.len() == 5);
    assert("ean13"@.len() == 5);
    assert("jan13"@.len() == 5);
    assert("EAN8"@.len() == 4);
    assert("JAN8"@.len() == 4);
    assert("code39"@.len() == 6);
    assert("itf"@.len() == 3);
    assert("codabar"@.len() == 7);
    assert("code93"@.len() == 6);
    assert("code128"@.len() == 7);
    assert("gs1_128"@.len() == 7);
    assert("gs1_databar_omnidirectional"@.len() == 27);
    assert("gs1_databar_truncated"@.len() == 21);
    assert("gs1_databar_limited"@.len() == 19);
    assert("gs1_databar_expanded"@.len() == 20);
    assert("upc_a"@[0] == 'u');
    assert("upc_a"@[4] == 'a');
    assert("upc_e"@[0] == 'u');
    assert("upc_e"@[4] == 'e');
    assert("ean13"@[0] == 'e');
    assert("jan13"@[0] == 'j');
    assert("EAN8"@[0] == 'E');
    assert("JAN8"@[0] == 'J');
    assert("code39"@[4] == '3');
    assert("codabar"@[0] == 'c');
    assert("codabar"@[4] == 'b');
    assert("code93"@[4] == '9');
    assert("code128"@[0] == 'c');
    assert("code128"@[4] == '1');
    assert("gs1_128"@[0] == 'g');
}

/// The available 2D symbologies.
#[derive(Clone, Copy, Debug, PartialEq, Eq, Structural)]
pub enum SymbolType {
    PDF417,
    PDF415Trunc,
    QRCode1,
    QRCode2,
    MaxiCodeMode2,
    MaxiCodeMode3,
    MaxiCodeMode4,
    MaxiCodeMode5,
    MaxiCodeMode6,
    GS1DatabarStacked,
    GS1DatabarStackedOmnidirectional,
    GS1DatabarExpandedStacked,
    AztecCodeFullRange,
    AztecCodeCompact,
    DatamatrixSquare,
    DatamatrixRectangle8,
    DatamatrixRectangle12,
    DatamatrixRectangle16,
}

impl SymbolType {
    /// The vendor wire token of the variant.
    pub open spec fn wire(self) -> Seq<char> {
        match self {
            SymbolType::PDF417 => "pdf417_standard"@,
            SymbolType::PDF415Trunc => "pdf417_truncated"@,
            SymbolType::QRCode1 => "qrcode_model_1"@,
            SymbolType::QRCode2 => "qrcode_model_2"@,
            SymbolType::MaxiCodeMode2 => "maxicode_mode_2"@,
            SymbolType::MaxiCodeMode3 => "maxicode_mode_3"@,
            SymbolType::MaxiCodeMode4 => "maxicode_mode_4"@,
            SymbolType::MaxiCodeMode5 => "maxicode_mode_5"@,
            SymbolType::MaxiCodeMode6 => "maxicode_mode_6"@,
            SymbolType::GS1DatabarStacked => "gs1_databar_stacked"@,
            SymbolType::GS1DatabarStackedOmnidirectional => "gs1_databar_stacked_omnidirectional"@,
            SymbolType::GS1DatabarExpandedStacked => "gs1_databar_expanded_stacked"@,
            SymbolType::AztecCodeFullRange => "azteccode_fullrange"@,
            SymbolType::AztecCodeCompact => "azteccode_compact"@,
            SymbolType::DatamatrixSquare => "datamatrix_square"@,
            SymbolType::DatamatrixRectangle8 => "datamatrix_rectangle_8"@,
            SymbolType::DatamatrixRectangle12 => "datamatrix_rectangle_12"@,
            SymbolType::DatamatrixRectangle16 => "datamatrix_rectangle_16"@,
        }
    }

    /// Renders the exact token spelled on the wire.
    pub fn token(&self) -> (r: &'static str)
        ensures
            r@ == self.wire(),
    {
        match self {
            SymbolType::PDF417 => "pdf417_standard",
            SymbolType::PDF415Trunc => "pdf417_truncated",
            SymbolType::QRCode1 => "qrcode_model_1",
            SymbolType::QRCode2 => "qrcode_model_2",
            SymbolType::MaxiCodeMode2 => "maxicode_mode_2",
            SymbolType::MaxiCodeMode3 => "maxicode_mode_3",
            SymbolType::MaxiCodeMode4 => "maxicode_mode_4",
            SymbolType::MaxiCodeMode5 => "maxicode_mode_5",
            SymbolType::MaxiCodeMode6 => "maxicode_mode_6",
            SymbolType::GS1DatabarStacked => "gs1_databar_stacked",
            SymbolType::GS1DatabarStackedOmnidirectional => "gs1_databar_stacked_omnidirectional",
            SymbolType::GS1DatabarExpandedStacked => "gs1_databar_expanded_stacked",
            SymbolType::AztecCodeFullRange => "azteccode_fullrange",
            SymbolType::AztecCodeCompact => "azteccode_compact",
            SymbolType::DatamatrixSquare => "datamatrix_square",
            SymbolType::DatamatrixRectangle8 => "datamatrix_rectangle_8",
            SymbolType::DatamatrixRectangle12 => "datamatrix_rectangle_12",
            SymbolType::DatamatrixRectangle16 => "datamatrix_rectangle_16",
        }
    }

    /// The variant a token decodes to, if any.
    pub open spec fn of_token(t: Seq<char>) -> Option<SymbolType> {
        if t == "pdf417_standard"@ { Some(SymbolType::PDF417) }
        else if t == "pdf417_truncated"@ { Some(SymbolType::PDF415Trunc) }
        else if t == "qrcode_model_1"@ { Some(SymbolType::QRCode1) }
        else if t == "qrcode_model_2"@ { Some(SymbolType::QRCode2) }
        else if t == "maxicode_mode_2"@ { Some(SymbolType::MaxiCodeMode2) }
        else if t == "maxicode_mode_3"@ { Some(SymbolType::MaxiCodeMode3) }
        else if t == "maxicode_mode_4"@ { Some(SymbolType::MaxiCodeMode4) }
        else if t == "maxicode_mode_5"@ { Some(SymbolType::MaxiCodeMode5) }
        else if t == "maxicode_mode_6"@ { Some(SymbolType::MaxiCodeMode6) }
        else if t == "gs1_databar_stacked"@ { Some(SymbolType::GS1DatabarStacked) }
        else if t == "gs1_databar_stacked_omnidirectional"@ { Some(SymbolType::GS1DatabarStackedOmnidirectional) }
        else if t == "gs1_databar_expanded_stacked"@ { Some(SymbolType::GS1DatabarExpandedStacked) }
        else if t == "azteccode_fullrange"@ { Some(SymbolType::AztecCodeFullRange) }
        else if t == "azteccode_compact"@ { Some(SymbolType::AztecCodeCompact) }
        else if t == "datamatrix_square"@ { Some(SymbolType::DatamatrixSquare) }
        else if t == "datamatrix_rectangle_8"@ { Some(SymbolType::DatamatrixRectangle8) }
        else if t == "datamatrix_rectangle_12"@ { Some(SymbolType::DatamatrixRectangle12) }
        else if t == "datamatrix_rectangle_16"@ { Some(SymbolType::DatamatrixRectangle16) }
        else { None }
    }

    /// Decodes a wire token; unknown tokens decode to nothing.
    pub fn from_token(t: &str) -> (r: Option<SymbolType>)
        ensures
            r == SymbolType::of_token(t@),
    {
        if str_eq(t, "pdf417_standard") { Some(SymbolType::PDF417) }
        else if str_eq(t, "pdf417_truncated") { Some(SymbolType::PDF415Trunc) }
        else if str_eq(t, "qrcode_model_1") { Some(SymbolType::QRCode1) }
        else if str_eq(t, "qrcode_model_2") { Some(SymbolType::QRCode2) }
        else if str_eq(t, "maxicode_mode_2") { Some(SymbolType::MaxiCodeMode2) }
        else if str_eq(t, "maxicode_mode_3") { Some(SymbolType::MaxiCodeMode3) }
        else if str_eq(t, "maxicode_mode_4") { Some(SymbolType::MaxiCodeMode4) }
        else if str_eq(t, "maxicode_mode_5") { Some(SymbolType::MaxiCodeMode5) }
        else if str_eq(t, "maxicode_mode_6") { Some(SymbolType::MaxiCodeMode6) }
        else if str_eq(t, "gs1_databar_stacked") { Some(SymbolType::GS1DatabarStacked) }
        else if str_eq(t, "gs1_databar_stacked_omnidirectional") { Some(SymbolType::GS1DatabarStackedOmnidirectional) }
        else if str_eq(t, "gs1_databar_expanded_stacked") { Some(SymbolType::GS1DatabarExpandedStacked) }
        else if str_eq(t, "azteccode_fullrange") { Some(SymbolType::AztecCodeFullRange) }
        else if str_eq(t, "azteccode_compact") { Some(SymbolType::AztecCodeCompact) }
        else if str_eq(t, "datamatrix_square") { Some(SymbolType::DatamatrixSquare) }
        else if str_eq(t, "datamatrix_rectangle_8") { Some(SymbolType::DatamatrixRectangle8) }
        else if str_eq(t, "datamatrix_rectangle_12") { Some(SymbolType::DatamatrixRectangle12) }
        else if str_eq(t, "datamatrix_rectangle_16") { Some(SymbolType::DatamatrixRectangle16) }
        else { None }
    }
}


/// Every symbol-type token decodes back to the variant that produced it.
pub proof fn lemma_symbol_type_token_roundtrip(v: SymbolType)
    ensures
        SymbolType::of_token(v.wire()) == Some(v),
{
    reveal_strlit("pdf417_standard");
    reveal_strlit("pdf417_truncated");
    reveal_strlit("qrcode_model_1");
    reveal_strlit("qrcode_model_2");
    reveal_strlit("maxicode_mode_2");
    reveal_strlit("maxicode_mode_3");
    reveal_strlit("maxicode_mode_4");
    reveal_strlit("maxicode_mode_5");
    reveal_strlit("maxicode_mode_6");
    reveal_strlit("gs1_databar_stacked");
    reveal_strlit("gs1_databar_stacked_omnidirectional");
    reveal_strlit("gs1_databar_expanded_stacked");
    reveal_strlit("azteccode_fullrange");
    reveal_strlit("azteccode_compact");
    reveal_strlit("datamatrix_square");
    reveal_strlit("datamatrix_rectangle_8");
    reveal_strlit("datamatrix_rectangle_12");
    reveal_strlit("datamatrix_rectangle_16");
    assert("pdf417_standard"@.len() == 15);
    assert("pdf417_truncated"@.len() == 16);
    assert("qrcode_model_1"@.len() == 14);
    assert("qrcode_model_2"@.len() == 14);
    assert("maxicode_mode_2"@.len() == 15);
    assert("maxicode_mode_3"@.len() == 15);
    assert("maxicode_mode_4"@.len() == 15);
    assert("maxicode_mode_5"@.len() == 15);
    assert("maxicode_mode_6"@.len() == 15);
    assert("gs1_databar_stacked"@.len() == 19);
    assert("gs1_databar_stacked_omnidirectional"@.len() == 35);
    assert("gs1_databar_expanded_stacked"@.len() == 28);
    assert("azteccode_fullrange"@.len() == 19);
    assert("azteccode_compact"@.len() == 17);
    assert("datamatrix_square"@.len() == 17);
    assert("datamatrix_rectangle_8"@.len() == 22);
    assert("datamatrix_rectangle_12"@.len() == 23);
    assert("datamatrix_rectangle_16"@.len() == 23);
    assert("pdf417_standard"@[0] == 'p');
    assert("qrcode_model_1"@[13] == '1');
    assert("qrcode_model_2"@[13] == '2');
    assert("maxicode_mode_2"@[0] == 'm');
    assert("gs1_databar_stacked"@[0] == 'g');
    assert("azteccode_fullrange"@[0] == 'a');
    assert("maxicode_mode_2"@[14] == '2');
    assert("maxicode_mode_3"@[14] == '3');
    assert("maxicode_mode_4"@[14] == '4');
    assert("maxicode_mode_5"@[14] == '5');
    assert("maxicode_mode_6"@[14] == '6');
    assert("azteccode_compact"@[0] == 'a');
    assert("datamatrix_square"@[0] == 'd');
    assert("datamatrix_rectangle_12"@[22] == '2');
    assert("datamatrix_rectangle_16"@[22] == '6');
}

/// Placement of the Human-Readable Interpretation of a barcode.
#[derive(Clone, Copy, Debug, PartialEq, Eq, Structural)]
pub enum HRI {
    NoHri,
    Above,
    Below,
    Both,
}

impl HRI {
    /// The vendor wire token of the variant.
    pub open spec fn wire(self) -> Seq<char> {
        match self {
            HRI::NoHri => "none"@,
            HRI::Above => "above"@,
            HRI::Below => "below"@,
            HRI::Both => "both"@,
        }
    }

    /// Renders the exact token spelled on the wire.
    pub fn token(&self) -> (r: &'static str)
        ensures
            r@ == self.wire(),
    {
        match self {
            HRI::NoHri => "none",
            HRI::Above => "above",
            HRI::Below => "below",
            HRI::Both => "both",
        }
    }

    /// The variant a token decodes to, if any.
    pub open spec fn of_token(t: Seq<char>) -> Option<HRI> {
        if t == "none"@ { Some(HRI::NoHri) }
        else if t == "above"@ { Some(HRI::Above) }
        else if t == "below"@ { Some(HRI::Below) }
        else if t == "both"@ { Some(HRI::Both) }
        else { None }
    }

    /// Decodes a wire token; unknown tokens decode to nothing.
    pub fn from_token(t: &str) -> (r: Option<HRI>)
        ensures
            r == HRI::of_token(t@),
    {
        if str_eq(t, "none") { Some(HRI::NoHri) }
        else if str_eq(t, "above") { Some(HRI::Above) }
        else if str_eq(t, "below") { Some(HRI::Below) }
        else if str_eq(t, "both") { Some(HRI::Both) }
        else { None }
    }
}


/// Every HRI token decodes back to the variant that produced it.
pub proof fn lemma_hri_token_roundtrip(v: HRI)
    ensures
        HRI::of_token(v.wire()) == Some(v),
{
    reveal_strlit("none");
    reveal_strlit("above");
    reveal_strlit("below");
    reveal_strlit("both");
    assert("none"@.len() == 4);
    assert("above"@.len() == 5);
    assert("below"@.len() == 5);
    assert("both"@.len() == 4);
    assert("none"@[0] == 'n');
    assert("above"@[0] == 'a');
    assert("below"@[0] == 'b');
    assert("both"@[0] == 'b');
}


/// The error-correction level of a 2D symbol.  The named levels are
/// spelled as catalog tokens; `Int` carries a raw numeric level (used by
/// Aztec codes) and is rendered in decimal.
#[derive(Clone, Copy, Debug, PartialEq, Eq, Structural)]
pub enum ErrorCorrectionLevel {
    Level0,
    Level1,
    Level2,
    Level3,
    Level4,
    Level5,
    Level6,
    Level7,
    Level8,
    LevelL,
    LevelM,
    LevelQ,
    LevelH,
    Default,
    Int(u32),
}

impl ErrorCorrectionLevel {
    /// The vendor wire token of the variant; the numeric fallback is
    /// rendered in decimal.
    pub open spec fn wire(self) -> Seq<char> {
        match self {
            ErrorCorrectionLevel::Level0 => "level_0"@,
            ErrorCorrectionLevel::Level1 => "level_1"@,
            ErrorCorrectionLevel::Level2 => "level_2"@,
            ErrorCorrectionLevel::Level3 => "level_3"@,
            ErrorCorrectionLevel::Level4 => "level_4"@,
            ErrorCorrectionLevel::Level5 => "level_5"@,
            ErrorCorrectionLevel::Level6 => "level_6"@,
            ErrorCorrectionLevel::Level7 => "level_7"@,
            ErrorCorrectionLevel::Level8 => "level_8"@,
            ErrorCorrectionLevel::LevelL => "level_l"@,
            ErrorCorrectionLevel::LevelM => "level_m"@,
            ErrorCorrectionLevel::LevelQ => "level_q"@,
            ErrorCorrectionLevel::LevelH => "level_h"@,
            ErrorCorrectionLevel::Default => "default"@,
            ErrorCorrectionLevel::Int(n) => crate::codec::dec_seq(n as nat),
        }
    }

    /// Renders the exact token spelled on the wire.
    pub fn token(&self) -> (r: String)
        ensures
            r@ == self.wire(),
    {
        match self {
            ErrorCorrectionLevel::Level0 => String::from_str("level_0"),
            ErrorCorrectionLevel::Level1 => String::from_str("level_1"),
            ErrorCorrectionLevel::Level2 => String::from_str("level_2"),
            ErrorCorrectionLevel::Level3 => String::from_str("level_3"),
            ErrorCorrectionLevel::Level4 => String::from_str("level_4"),
            ErrorCorrectionLevel::Level5 => String::from_str("level_5"),
            ErrorCorrectionLevel::Level6 => String::from_str("level_6"),
            ErrorCorrectionLevel::Level7 => String::from_str("level_7"),
            ErrorCorrectionLevel::Level8 => String::from_str("level_8"),
            ErrorCorrectionLevel::LevelL => String::from_str("level_l"),
            ErrorCorrectionLevel::LevelM => String::from_str("level_m"),
            ErrorCorrectionLevel::LevelQ => String::from_str("level_q"),
            ErrorCorrectionLevel::LevelH => String::from_str("level_h"),
            ErrorCorrectionLevel::Default => String::from_str("default"),
            ErrorCorrectionLevel::Int(n) => crate::codec::u32_dec(*n),
        }
    }

    /// The value a token decodes to: a named level, a numeric fallback
    /// for a digit string, or nothing.
    pub open spec fn of_token(t: Seq<char>) -> Option<ErrorCorrectionLevel> {
        match ErrorCorrectionLevel::known_of_token(t) {
            Some(v) => Some(v),
            None => if t.len() > 0 && all_digits(t) && dec_val(t) <= u32::MAX {
                Some(ErrorCorrectionLevel::Int(dec_val(t) as u32))
            } else {
                None
            },
        }
    }

    /// The named level a token decodes to, if it names one.
    pub open spec fn known_of_token(t: Seq<char>) -> Option<ErrorCorrectionLevel> {
        if t == "level_0"@ { Some(ErrorCorrectionLevel::Level0) }
        else if t == "level_1"@ { Some(ErrorCorrectionLevel::Level1) }
        else if t == "level_2"@ { Some(ErrorCorrectionLevel::Level2) }
        else if t == "level_3"@ { Some(ErrorCorrectionLevel::Level3) }
        else if t == "level_4"@ { Some(ErrorCorrectionLevel::Level4) }
        else if t == "level_5"@ { Some(ErrorCorrectionLevel::Level5) }
        else if t == "level_6"@ { Some(ErrorCorrectionLevel::Level6) }
        else if t == "level_7"@ { Some(ErrorCorrectionLevel::Level7) }
        else if t == "level_8"@ { Some(ErrorCorrectionLevel::Level8) }
        else if t == "level_l"@ { Some(ErrorCorrectionLevel::LevelL) }
        else if t == "level_m"@ { Some(ErrorCorrectionLevel::LevelM) }
        else if t == "level_q"@ { Some(ErrorCorrectionLevel::LevelQ) }
        else if t == "level_h"@ { Some(ErrorCorrectionLevel::LevelH) }
        else if t == "default"@ { Some(ErrorCorrectionLevel::Default) }
        else { None }
    }

    /// Decodes a wire token; an unknown numeric token is preserved in the
    /// fallback variant, and anything else decodes to nothing.
    pub fn from_token(t: &str) -> (r: Option<ErrorCorrectionLevel>)
        ensures
            r == ErrorCorrectionLevel::of_token(t@),
    {
        if str_eq(t, "level_0") { Some(ErrorCorrectionLevel::Level0) }
        else if str_eq(t, "level_1") { Some(ErrorCorrectionLevel::Level1) }
        else if str_eq(t, "level_2") { Some(ErrorCorrectionLevel::Level2) }
        else if str_eq(t, "level_3") { Some(ErrorCorrectionLevel::Level3) }
        else if str_eq(t, "level_4") { Some(ErrorCorrectionLevel::Level4) }
        else if str_eq(t, "level_5") { Some(ErrorCorrectionLevel::Level5) }
        else if str_eq(t, "level_6") { Some(ErrorCorrectionLevel::Level6) }
        else if str_eq(t, "level_7") { Some(ErrorCorrectionLevel::Level7) }
        else if str_eq(t, "level_8") { Some(ErrorCorrectionLevel::Level8) }
        else if str_eq(t, "level_l") { Some(ErrorCorrectionLevel::LevelL) }
        else if str_eq(t, "level_m") { Some(ErrorCorrectionLevel::LevelM) }
        else if str_eq(t, "level_q") { Some(ErrorCorrectionLevel::LevelQ) }
        else if str_eq(t, "level_h") { Some(ErrorCorrectionLevel::LevelH) }
        else if str_eq(t, "default") { Some(ErrorCorrectionLevel::Default) }
        else {
            match parse_u32(t) {
                Some(n) => Some(ErrorCorrectionLevel::Int(n)),
                None => None,
            }
        }
    }
}

/// Every error-correction token decodes back to the variant that
/// produced it; the numeric fallback round-trips through its decimal
/// rendering.
pub proof fn lemma_error_correction_token_roundtrip(v: ErrorCorrectionLevel)
    ensures
        ErrorCorrectionLevel::of_token(v.wire()) == Some(v),
{
    reveal_strlit("level_0");
    reveal_strlit("level_1");
    reveal_strlit("level_2");
    reveal_strlit("level_3");
    reveal_strlit("level_4");
    reveal_strlit("level_5");
    reveal_strlit("level_6");
    reveal_strlit("level_7");
    reveal_strlit("level_8");
    reveal_strlit("level_l");
    reveal_strlit("level_m");
    reveal_strlit("level_q");
    reveal_strlit("level_h");
    reveal_strlit("default");
    assert("level_0"@.len() == 7);
    assert("level_1"@.len() == 7);
    assert("level_2"@.len() == 7);
    assert("level_3"@.len() == 7);
    assert("level_4"@.len() == 7);
    assert("level_5"@.len() == 7);
    assert("level_6"@.len() == 7);
    assert("level_7"@.len() == 7);
    assert("level_8"@.len() == 7);
    assert("level_l"@.len() == 7);
    assert("level_m"@.len() == 7);
    assert("level_q"@.len() == 7);
    assert("level_h"@.len() == 7);
    assert("default"@.len() == 7);
    assert("level_0"@[0] == 'l');
    assert("level_0"@[6] == '0');
    assert("level_1"@[0] == 'l');
    assert("level_1"@[6] == '1');
    assert("level_2"@[0] == 'l');
    assert("level_2"@[6] == '2');
    assert("level_3"@[0] == 'l');
    assert("level_3"@[6] == '3');
    assert("level_4"@[0] == 'l');
    assert("level_4"@[6] == '4');
    assert("level_5"@[0] == 'l');
    assert("level_5"@[6] == '5');
    assert("level_6"@[0] == 'l');
    assert("level_6"@[6] == '6');
    assert("level_7"@[0] == 'l');
    assert("level_7"@[6] == '7');
    assert("level_8"@[0] == 'l');
    assert("level_8"@[6] == '8');
    assert("level_l"@[0] == 'l');
    assert("level_l"@[6] == 'l');
    assert("level_m"@[0] == 'l');
    assert("level_m"@[6] == 'm');
    assert("level_q"@[0] == 'l');
    assert("level_q"@[6] == 'q');
    assert("level_h"@[0] == 'l');
    assert("level_h"@[6] == 'h');
    assert("default"@[0] == 'd');
    assert("default"@[6] == 't');
    match v {
        ErrorCorrectionLevel::Int(n) => {
            crate::codec::lemma_dec_seq_val(n as nat);
            assert(crate::codec::is_digit(v.wire()[0]));
        },
        _ => {},
    }
}


/// Whether `c` is a valid codabar start/stop character.
pub open spec fn codabar_edge(c: char) -> bool {
    c == 'A' || c == 'B' || c == 'C' || c == 'D' || c == 'a' || c == 'b' || c == 'c' || c == 'd'
}

/// Whether `c` may follow `{` in a two-character escape pair of the
/// symbology.
pub open spec fn escape_char_ok(bt: BarcodeType, c: char) -> bool {
    match bt {
        BarcodeType::Code128 => c == '1' || c == '2' || c == '3' || c == '4' || c == 'A' || c == 'B'
            || c == 'C' || c == 'S' || c == '{',
        BarcodeType::GS1_128 => c == '1' || c == '3' || c == '(' || c == ')' || c == '*' || c == '{',
        BarcodeType::Gs1DatabarExpanded => c == '1' || c == '(' || c == ')',
        _ => false,
    }
}

/// From position `i` on, every `{` begins a two-character escape pair
/// that the symbology accepts.
pub open spec fn braces_ok_from(bt: BarcodeType, t: Seq<char>, i: int) -> bool
    decreases t.len() - i when 0 <= i <= t.len()
{
    if i >= t.len() {
        true
    } else if t[i] == '{' {
        i + 1 < t.len() && escape_char_ok(bt, t[i + 1]) && braces_ok_from(bt, t, i + 2)
    } else {
        braces_ok_from(bt, t, i + 1)
    }
}

impl BarcodeType {
    /// The structural rule the symbology imposes on its payload text:
    /// digit counts with an optional caller-supplied check digit, GTIN
    /// length, start/stop characters, or well-formed `{`-escape pairs.
    pub open spec fn payload_ok(self, t: Seq<char>) -> bool {
        match self {
            BarcodeType::UpcA => all_digits(t) && (t.len() == 11 || t.len() == 12),
            BarcodeType::UpcE => all_digits(t) && (t.len() == 11 || t.len() == 12) && t[0]
                == '0',
            BarcodeType::EAN13 => all_digits(t) && (t.len() == 12 || t.len() == 13),
            BarcodeType::JAN13 => all_digits(t) && (t.len() == 12 || t.len() == 13),
            BarcodeType::EAN8 => all_digits(t) && (t.len() == 7 || t.len() == 8),
            BarcodeType::JAN8 => all_digits(t) && (t.len() == 7 || t.len() == 8),
            BarcodeType::CodaBar => t.len() >= 2 && codabar_edge(t[0]) && codabar_edge(t.last()),
            BarcodeType::Code128 => t.len() >= 2 && t[0] == '{' && (t[1] == 'A' || t[1] == 'B'
                || t[1] == 'C') && braces_ok_from(self, t, 0),
            BarcodeType::GS1_128 => braces_ok_from(self, t, 0),
            BarcodeType::Gs1DatabarExpanded => braces_ok_from(self, t, 0),
            BarcodeType::GS1DatabarOmnidirectional => all_digits(t) && t.len() == 13,
            BarcodeType::GS1DatabarTruncated => all_digits(t) && t.len() == 13,
            BarcodeType::GS1DatabarLimited => all_digits(t) && t.len() == 13,
            BarcodeType::Code39 => true,
            BarcodeType::ITF => true,
            BarcodeType::Code93 => true,
        }
    }

    /// Checks the `{`-escape pairs of the payload.
    fn check_braces(&self, t: &str) -> (r: bool)
        ensures
            r == braces_ok_from(*self, t@, 0),
    {
        let n = t.unicode_len();
        let mut i: usize = 0;
        while i < n
            invariant
                0 <= i <= n,
                n == t@.len(),
                braces_ok_from(*self, t@, 0) == braces_ok_from(*self, t@, i as int),
            decreases n - i,
        {
            let c = t.get_char(i);
            if c == '{' {
                if i + 1 >= n {
                    return false;
                }
                let c2 = t.get_char(i + 1);
                let ok2 = match self {
                    BarcodeType::Code128 => c2 == '1' || c2 == '2' || c2 == '3' || c2 == '4'
                        || c2 == 'A' || c2 == 'B' || c2 == 'C' || c2 == 'S' || c2 == '{',
                    BarcodeType::GS1_128 => c2 == '1' || c2 == '3' || c2 == '(' || c2 == ')'
                        || c2 == '*' || c2 == '{',
                    BarcodeType::Gs1DatabarExpanded => c2 == '1' || c2 == '(' || c2 == ')',
                    _ => false,
                };
                if !ok2 {
                    return false;
                }
                i += 2;
            } else {
                i += 1;
            }
        }
        true
    }

    /// Checks the payload text against the symbology's structural rule.
    pub fn payload_check(&self, t: &str) -> (r: bool)
        ensures
            r == self.payload_ok(t@),
    {
        let n = t.unicode_len();
        match self {
            BarcodeType::UpcA => check_digits(t) && (n == 11 || n == 12),
            BarcodeType::UpcE => {
                if check_digits(t) && (n == 11 || n == 12) {
                    t.get_char(0) == '0'
                } else {
                    false
                }
            },
            BarcodeType::EAN13 | BarcodeType::JAN13 => check_digits(t) && (n == 12 || n == 13),
            BarcodeType::EAN8 | BarcodeType::JAN8 => check_digits(t) && (n == 7 || n == 8),
            BarcodeType::CodaBar => {
                if n < 2 {
                    false
                } else {
                    let c0 = t.get_char(0);
                    let cl = t.get_char(n - 1);
                    let e0 = c0 == 'A' || c0 == 'B' || c0 == 'C' || c0 == 'D' || c0 == 'a'
                        || c0 == 'b' || c0 == 'c' || c0 == 'd';
                    let el = cl == 'A' || cl == 'B' || cl == 'C' || cl == 'D' || cl == 'a'
                        || cl == 'b' || cl == 'c' || cl == 'd';
                    e0 && el
                }
            },
            BarcodeType::Code128 => {
                if n < 2 {
                    false
                } else {
                    let c0 = t.get_char(0);
                    let c1 = t.get_char(1);
                    c0 == '{' && (c1 == 'A' || c1 == 'B' || c1 == 'C') && self.check_braces(t)
                }
            },
            BarcodeType::GS1_128 | BarcodeType::Gs1DatabarExpanded => self.check_braces(t),
            BarcodeType::GS1DatabarOmnidirectional | BarcodeType::GS1DatabarTruncated
                | BarcodeType::GS1DatabarLimited => check_digits(t) && n == 13,
            BarcodeType::Code39 | BarcodeType::ITF | BarcodeType::Code93 => true,
        }
    }
}

impl SymbolType {
    /// The acceptable symbol module width, where the symbology reads the
    /// attribute at all (MaxiCode ignores it).
    pub open spec fn width_ok(self, w: u8) -> bool {
        match self {
            SymbolType::PDF417 | SymbolType::PDF415Trunc => 2 <= w <= 8,
            SymbolType::QRCode1 | SymbolType::QRCode2 => 1 <= w <= 16,
            SymbolType::MaxiCodeMode2 | SymbolType::MaxiCodeMode3 | SymbolType::MaxiCodeMode4
                | SymbolType::MaxiCodeMode5 | SymbolType::MaxiCodeMode6 => true,
            SymbolType::GS1DatabarStacked | SymbolType::GS1DatabarStackedOmnidirectional
                | SymbolType::GS1DatabarExpandedStacked => 2 <= w <= 8,
            SymbolType::AztecCodeFullRange | SymbolType::AztecCodeCompact => 2 <= w <= 16,
            SymbolType::DatamatrixSquare | SymbolType::DatamatrixRectangle8
                | SymbolType::DatamatrixRectangle12 | SymbolType::DatamatrixRectangle16 => 2 <= w
                <= 16,
        }
    }

    /// The acceptable symbol row height; only PDF417 reads it.
    pub open spec fn height_ok(self, h: u8) -> bool {
        match self {
            SymbolType::PDF417 | SymbolType::PDF415Trunc => 2 <= h <= 8,
            _ => true,
        }
    }

    /// The acceptable `size` attribute; Expanded Stacked GS1 DataBar
    /// requires a maximum width of at least 106 dots.
    pub open spec fn size_ok(self, s: u8) -> bool {
        match self {
            SymbolType::GS1DatabarExpandedStacked => s >= 106,
            _ => true,
        }
    }

    /// Checks the symbol module width.
    pub fn width_check(&self, w: u8) -> (r: bool)
        ensures
            r == self.width_ok(w),
    {
        match self {
            SymbolType::PDF417 | SymbolType::PDF415Trunc => 2 <= w && w <= 8,
            SymbolType::QRCode1 | SymbolType::QRCode2 => 1 <= w && w <= 16,
            SymbolType::MaxiCodeMode2 | SymbolType::MaxiCodeMode3 | SymbolType::MaxiCodeMode4
                | SymbolType::MaxiCodeMode5 | SymbolType::MaxiCodeMode6 => true,
            SymbolType::GS1DatabarStacked | SymbolType::GS1DatabarStackedOmnidirectional
                | SymbolType::GS1DatabarExpandedStacked => 2 <= w && w <= 8,
            SymbolType::AztecCodeFullRange | SymbolType::AztecCodeCompact => 2 <= w && w <= 16,
            SymbolType::DatamatrixSquare | SymbolType::DatamatrixRectangle8
                | SymbolType::DatamatrixRectangle12 | SymbolType::DatamatrixRectangle16 => 2 <= w
                && w <= 16,
        }
    }

    /// Checks the symbol row height.
    pub fn height_check(&self, h: u8) -> (r: bool)
        ensures
            r == self.height_ok(h),
    {
        match self {
            SymbolType::PDF417 | SymbolType::PDF415Trunc => 2 <= h && h <= 8,
            _ => true,
        }
    }

    /// Checks the `size` attribute.
    pub fn size_check(&self, s: u8) -> (r: bool)
        ensures
            r == self.size_ok(s),
    {
        match self {
            SymbolType::GS1DatabarExpandedStacked => s >= 106,
            _ => true,
        }
    }
}


impl BarcodeType {
    /// Decodes a wire token, reporting a token outside the catalog as
    /// an `UnknownCatalogValue` carrying the token itself.
    pub fn decode(t: &str) -> (r: Result<BarcodeType, crate::error::EPOSError>)
        ensures
            BarcodeType::of_token(t@) matches Some(v) ==> r == Ok::<BarcodeType, crate::error::EPOSError>(
                v,
            ),
            BarcodeType::of_token(t@) is None ==> (r matches Err(e) && (e matches
                crate::error::EPOSError::UnknownCatalogValue { token } && token@ == t@)),
    {
        match BarcodeType::from_token(t) {
            Some(v) => Ok(v),
            None => Err(
                crate::error::EPOSError::UnknownCatalogValue { token: String::from_str(t) },
            ),
        }
    }
}

impl SymbolType {
    /// Decodes a wire token, reporting a token outside the catalog as
    /// an `UnknownCatalogValue` carrying the token itself.
    pub fn decode(t: &str) -> (r: Result<SymbolType, crate::error::EPOSError>)
        ensures
            SymbolType::of_token(t@) matches Some(v) ==> r == Ok::<SymbolType, crate::error::EPOSError>(
                v,
            ),
            SymbolType::of_token(t@) is None ==> (r matches Err(e) && (e matches
                crate::error::EPOSError::UnknownCatalogValue { token } && token@ == t@)),
    {
        match SymbolType::from_token(t) {
            Some(v) => Ok(v),
            None => Err(
                crate::error::EPOSError::UnknownCatalogValue { token: String::from_str(t) },
            ),
        }
    }
}

impl HRI {
    /// Decodes a wire token, reporting a token outside the catalog as
    /// an `UnknownCatalogValue` carrying the token itself.
    pub fn decode(t: &str) -> (r: Result<HRI, crate::error::EPOSError>)
        ensures
            HRI::of_token(t@) matches Some(v) ==> r == Ok::<HRI, crate::error::EPOSError>(
                v,
            ),
            HRI::of_token(t@) is None ==> (r matches Err(e) && (e matches
                crate::error::EPOSError::UnknownCatalogValue { token } && token@ == t@)),
    {
        match HRI::from_token(t) {
            Some(v) => Ok(v),
            None => Err(
                crate::error::EPOSError::UnknownCatalogValue { token: String::from_str(t) },
            ),
        }
    }
}

} // verus!

