//! Commands available in both normal mode and page mode.

use vstd::prelude::*;
use vstd::string::*;

use crate::barcodes::{BarcodeType, ErrorCorrectionLevel, SymbolType, HRI};
use crate::codec::{attr, bool_token, bool_wire, content_wire, esc, escape_text, push_attr, push_content, WireItem};
use crate::codec::{dec_seq, dec_seq_i};
use crate::codec::{i32_dec, u32_dec};
use crate::formatters::{Align, FeedPos, Font, Lang};
use crate::normal::NormalItem;
use crate::page::PageItem;

verus! {

/// Prints a text line.  The printer may hold back a trailing line with
/// no newline in it, so most payloads should end in `\n`.
#[derive(Clone, Debug)]
pub struct Text {
    /// The text to print, carried as element content.  XML-special
    /// characters are entity-escaped exactly once at render time;
    /// everything else, control sequences included, goes out verbatim.
    pub text: String,
    pub font: Option<Font>,
    /// Text smoothing.
    pub smoothing: Option<bool>,
    /// Double width; a `width` attribute takes precedence over it.
    pub double_width: Option<bool>,
    /// Double height; a `height` attribute takes precedence over it.
    pub double_height: Option<bool>,
    /// Text width scale, 1 through 8.
    pub width: Option<u8>,
    /// Text height scale, 1 through 8.
    pub height: Option<u8>,
    /// Underline.
    pub underline: Option<bool>,
    /// Emphasis.
    pub emph: Option<bool>,
    /// Text color.
    pub color: Option<bool>,
    pub lang: Option<Lang>,
    pub align: Option<Align>,
}

impl WireItem for Text {
    /// The numeric bounds the device dictates: width and height scales,
    /// where given, lie between 1 and 8.
    open spec fn valid(&self) -> bool {
        &&& (self.width matches Some(w) ==> 1 <= w <= 8)
        &&& (self.height matches Some(h) ==> 1 <= h <= 8)
    }

    fn validate(&self) -> (r: bool) {
        let w_ok = match self.width {
            Some(w) => 1 <= w && w <= 8,
            None => true,
        };
        let h_ok = match self.height {
            Some(h) => 1 <= h && h <= 8,
            None => true,
        };
        w_ok && h_ok
    }

    open spec fn wire(&self) -> Seq<char> {
        "<text"@ + (match self.font {
            Some(f) => attr("font"@, f.wire()),
            None => Seq::empty(),
        }) + (match self.smoothing {
            Some(b) => attr("smoothing"@, bool_wire(b)),
            None => Seq::empty(),
        }) + (match self.double_width {
            Some(b) => attr("dw"@, bool_wire(b)),
            None => Seq::empty(),
        }) + (match self.double_height {
            Some(b) => attr("dh"@, bool_wire(b)),
            None => Seq::empty(),
        }) + (match self.width {
            Some(w) => attr("width"@, dec_seq(w as nat)),
            None => Seq::empty(),
        }) + (match self.height {
            Some(h) => attr("height"@, dec_seq(h as nat)),
            None => Seq::empty(),
        }) + (match self.underline {
            Some(b) => attr("ul"@, bool_wire(b)),
            None => Seq::empty(),
        }) + (match self.emph {
            Some(b) => attr("em"@, bool_wire(b)),
            None => Seq::empty(),
        }) + (match self.color {
            Some(b) => attr("color"@, bool_wire(b)),
            None => Seq::empty(),
        }) + (match self.lang {
            Some(l) => attr("lang"@, esc(l.wire())),
            None => Seq::empty(),
        }) + (match self.align {
            Some(a) => attr("align"@, a.wire()),
            None => Seq::empty(),
        }) + content_wire(self.text@, "</text>"@)
    }

    fn render(&self) -> (r: String) {
        let mut out = String::from_str("<text");
        match &self.font {
            Some(f) => push_attr(&mut out, "font", f.token()),
            None => {},
        }
        match &self.smoothing {
            Some(b) => push_attr(&mut out, "smoothing", bool_token(*b)),
            None => {},
        }
        match &self.double_width {
            Some(b) => push_attr(&mut out, "dw", bool_token(*b)),
            None => {},
        }
        match &self.double_height {
            Some(b) => push_attr(&mut out, "dh", bool_token(*b)),
            None => {},
        }
        match &self.width {
            Some(w) => {
                let ws = u32_dec(*w as u32);
                push_attr(&mut out, "width", ws.as_str());
            },
            None => {},
        }
        match &self.height {
            Some(h) => {
                let hs = u32_dec(*h as u32);
                push_attr(&mut out, "height", hs.as_str());
            },
            None => {},
        }
        match &self.underline {
            Some(b) => push_attr(&mut out, "ul", bool_token(*b)),
            None => {},
        }
        match &self.emph {
            Some(b) => push_attr(&mut out, "em", bool_token(*b)),
            None => {},
        }
        match &self.color {
            Some(b) => push_attr(&mut out, "color", bool_token(*b)),
            None => {},
        }
        match &self.lang {
            Some(l) => {
                let tok = l.token();
                let et = escape_text(tok.as_str());
                push_attr(&mut out, "lang", et.as_str());
            },
            None => {},
        }
        match &self.align {
            Some(a) => push_attr(&mut out, "align", a.token()),
            None => {},
        }
        push_content(&mut out, self.text.as_str(), "</text>");
        proof {
            assert(out@ == self.wire());
        }
        out
    }
}

impl NormalItem for Text {

}

impl PageItem for Text {

}

/// Feeds paper, by dots, lines, or to a position of label paper.
#[derive(Clone, Copy, Debug)]
pub struct Feed {
    /// Paper feed amount in dots.
    pub unit: Option<u8>,
    /// Paper feed amount in lines.
    pub line: Option<u8>,
    /// Per-line paper feed amount in dots.
    pub linespc: Option<u8>,
    /// Feed position of label paper or black-mark paper.
    pub pos: Option<FeedPos>,
}

impl WireItem for Feed {
    open spec fn valid(&self) -> bool {
        true
    }

    fn validate(&self) -> (r: bool) {
        true
    }

    open spec fn wire(&self) -> Seq<char> {
        "<feed"@ + (match self.unit {
            Some(u) => attr("unit"@, dec_seq(u as nat)),
            None => Seq::empty(),
        }) + (match self.line {
            Some(l) => attr("line"@, dec_seq(l as nat)),
            None => Seq::empty(),
        }) + (match self.linespc {
            Some(l) => attr("linespc"@, dec_seq(l as nat)),
            None => Seq::empty(),
        }) + (match self.pos {
            Some(p) => attr("pos"@, p.wire()),
            None => Seq::empty(),
        }) + "/>"@
    }

    fn render(&self) -> (r: String) {
        let mut out = String::from_str("<feed");
        match &self.unit {
            Some(u) => {
                let us = u32_dec(*u as u32);
                push_attr(&mut out, "unit", us.as_str());
            },
            None => {},
        }
        match &self.line {
            Some(l) => {
                let ls = u32_dec(*l as u32);
                push_attr(&mut out, "line", ls.as_str());
            },
            None => {},
        }
        match &self.linespc {
            Some(l) => {
                let ls = u32_dec(*l as u32);
                push_attr(&mut out, "linespc", ls.as_str());
            },
            None => {},
        }
        match &self.pos {
            Some(p) => push_attr(&mut out, "pos", p.token()),
            None => {},
        }
        out.append("/>");
        proof {
            assert(out@ =~= self.wire());
        }
        out
    }
}

impl NormalItem for Feed {

}

impl PageItem for Feed {

}

/// Prints a 1D barcode.
#[derive(Clone, Debug)]
pub struct Barcode {
    /// The barcode payload, carried as element content.
    pub text: String,
    pub barcode_type: BarcodeType,
    /// Placement of the human-readable interpretation.
    pub hri: Option<HRI>,
    /// Font of the human-readable interpretation.
    pub font: Option<Font>,
    /// Module width, 2 through 6.
    pub width: Option<u8>,
    /// Bar height in dots.
    pub height: Option<u8>,
    pub align: Option<Align>,
    /// Rotates the barcode.
    pub rotate: Option<bool>,
}

impl WireItem for Barcode {
    /// The rules the device dictates: a module width, where given, lies
    /// between 2 and 6, and the payload satisfies the symbology's
    /// structural rule.
    open spec fn valid(&self) -> bool {
        &&& (self.width matches Some(w) ==> 2 <= w <= 6)
        &&& self.barcode_type.payload_ok(self.text@)
    }

    fn validate(&self) -> (r: bool) {
        let w_ok = match self.width {
            Some(w) => 2 <= w && w <= 6,
            None => true,
        };
        w_ok && self.barcode_type.payload_check(self.text.as_str())
    }

    open spec fn wire(&self) -> Seq<char> {
        "<barcode"@ + attr("type"@, self.barcode_type.wire()) + (match self.hri {
            Some(h) => attr("hri"@, h.wire()),
            None => Seq::empty(),
        }) + (match self.font {
            Some(f) => attr("font"@, f.wire()),
            None => Seq::empty(),
        }) + (match self.width {
            Some(w) => attr("width"@, dec_seq(w as nat)),
            None => Seq::empty(),
        }) + (match self.height {
            Some(h) => attr("height"@, dec_seq(h as nat)),
            None => Seq::empty(),
        }) + (match self.align {
            Some(a) => attr("align"@, a.wire()),
            None => Seq::empty(),
        }) + (match self.rotate {
            Some(b) => attr("rotate"@, bool_wire(b)),
            None => Seq::empty(),
        }) + content_wire(self.text@, "</barcode>"@)
    }

    fn render(&self) -> (r: String) {
        let mut out = String::from_str("<barcode");
        push_attr(&mut out, "type", self.barcode_type.token());
        match &self.hri {
            Some(h) => push_attr(&mut out, "hri", h.token()),
            None => {},
        }
        match &self.font {
            Some(f) => push_attr(&mut out, "font", f.token()),
            None => {},
        }
        match &self.width {
            Some(w) => {
                let ws = u32_dec(*w as u32);
                push_attr(&mut out, "width", ws.as_str());
            },
            None => {},
        }
        match &self.height {
            Some(h) => {
                let hs = u32_dec(*h as u32);
                push_attr(&mut out, "height", hs.as_str());
            },
            None => {},
        }
        match &self.align {
            Some(a) => push_attr(&mut out, "align", a.token()),
            None => {},
        }
        match &self.rotate {
            Some(b) => push_attr(&mut out, "rotate", bool_token(*b)),
            None => {},
        }
        push_content(&mut out, self.text.as_str(), "</barcode>");
        proof {
            assert(out@ == self.wire());
        }
        out
    }
}

impl NormalItem for Barcode {

}

impl PageItem for Barcode {

}

/// Prints a 2D symbol.
#[derive(Clone, Debug)]
pub struct Symbol {
    /// The symbol payload, carried as element content.
    pub text: String,
    pub symbol_type: SymbolType,
    /// Error-correction level.
    pub level: Option<ErrorCorrectionLevel>,
    /// Module width in dots; the acceptable range depends on the
    /// symbology, and MaxiCode ignores it.
    pub width: Option<u8>,
    /// Row height in dots; only PDF417 reads it.
    pub height: Option<u8>,
    /// Row code words for PDF417, or the maximum width of an Expanded
    /// Stacked GS1 DataBar.
    pub size: Option<u8>,
    pub align: Option<Align>,
    /// Rotates the symbol.
    pub rotate: Option<bool>,
}

impl WireItem for Symbol {
    /// The numeric bounds the device dictates per symbology, for each
    /// attribute that is given.
    open spec fn valid(&self) -> bool {
        &&& (self.width matches Some(w) ==> self.symbol_type.width_ok(w))
        &&& (self.height matches Some(h) ==> self.symbol_type.height_ok(h))
        &&& (self.size matches Some(s) ==> self.symbol_type.size_ok(s))
    }

    fn validate(&self) -> (r: bool) {
        let w_ok = match self.width {
            Some(w) => self.symbol_type.width_check(w),
            None => true,
        };
        let h_ok = match self.height {
            Some(h) => self.symbol_type.height_check(h),
            None => true,
        };
        let s_ok = match self.size {
            Some(s) => self.symbol_type.size_check(s),
            None => true,
        };
        w_ok && h_ok && s_ok
    }

    open spec fn wire(&self) -> Seq<char> {
        "<symbol"@ + attr("type"@, self.symbol_type.wire()) + (match self.level {
            Some(l) => attr("level"@, l.wire()),
            None => Seq::empty(),
        }) + (match self.width {
            Some(w) => attr("width"@, dec_seq(w as nat)),
            None => Seq::empty(),
        }) + (match self.height {
            Some(h) => attr("height"@, dec_seq(h as nat)),
            None => Seq::empty(),
        }) + (match self.size {
            Some(s) => attr("size"@, dec_seq(s as nat)),
            None => Seq::empty(),
        }) + (match self.align {
            Some(a) => attr("align"@, a.wire()),
            None => Seq::empty(),
        }) + (match self.rotate {
            Some(b) => attr("rotate"@, bool_wire(b)),
            None => Seq::empty(),
        }) + content_wire(self.text@, "</symbol>"@)
    }

    fn render(&self) -> (r: String) {
        let mut out = String::from_str("<symbol");
        push_attr(&mut out, "type", self.symbol_type.token());
        match &self.level {
            Some(l) => {
                let ls = l.token();
                push_attr(&mut out, "level", ls.as_str());
            },
            None => {},
        }
        match &self.width {
            Some(w) => {
                let ws = u32_dec(*w as u32);
                push_attr(&mut out, "width", ws.as_str());
            },
            None => {},
        }
        match &self.height {
            Some(h) => {
                let hs = u32_dec(*h as u32);
                push_attr(&mut out, "height", hs.as_str());
            },
            None => {},
        }
        match &self.size {
            Some(s) => {
                let ss = u32_dec(*s as u32);
                push_attr(&mut out, "size", ss.as_str());
            },
            None => {},
        }
        match &self.align {
            Some(a) => push_attr(&mut out, "align", a.token()),
            None => {},
        }
        match &self.rotate {
            Some(b) => push_attr(&mut out, "rotate", bool_token(*b)),
            None => {},
        }
        push_content(&mut out, self.text.as_str(), "</symbol>");
        proof {
            assert(out@ == self.wire());
        }
        out
    }
}

impl NormalItem for Symbol {

}

impl PageItem for Symbol {

}

/// Prints a bitmap raster image from a caller-supplied, pre-encoded
/// base-64 payload.
#[derive(Clone, Debug)]
pub struct Image {
    /// The base-64 encoded raster data, carried as element content.
    pub text: String,
    pub width: i32,
    pub height: i32,
}

impl WireItem for Image {
    open spec fn valid(&self) -> bool {
        true
    }

    fn validate(&self) -> (r: bool) {
        true
    }

    open spec fn wire(&self) -> Seq<char> {
        "<image"@ + attr("width"@, dec_seq_i(self.width as int)) + attr(
            "height"@,
            dec_seq_i(self.height as int),
        ) + content_wire(self.text@, "</image>"@)
    }

    fn render(&self) -> (r: String) {
        let mut out = String::from_str("<image");
        let ws = i32_dec(self.width);
        push_attr(&mut out, "width", ws.as_str());
        let hs = i32_dec(self.height);
        push_attr(&mut out, "height", hs.as_str());
        push_content(&mut out, self.text.as_str(), "</image>");
        proof {
            assert(out@ == self.wire());
        }
        out
    }
}

impl NormalItem for Image {

}

impl PageItem for Image {

}


/// A text payload without XML-special characters — in particular one
/// holding the literal `{`-escape pairs the device reads — appears in
/// the rendered fragment byte for byte, between a fixed opening and the
/// closing tag: escaping it changes nothing and nothing is lost.
#[verifier::rlimit(100)]
#[verifier::spinoff_prover]
pub proof fn lemma_text_payload_verbatim(t: Text)
    requires
        t.text@.len() > 0,
        forall|i: int| 0 <= i < t.text@.len() ==> !crate::codec::is_xml_special(
            #[trigger] t.text@[i],
        ),
    ensures
        exists|pre: Seq<char>, post: Seq<char>| t.wire() == #[trigger] (pre + t.text@ + post),
{
    crate::codec::lemma_esc_plain(t.text@);
    let prefix = "<text"@ + (match t.font {
        Some(f) => attr("font"@, f.wire()),
        None => Seq::<char>::empty(),
    }) + (match t.smoothing {
        Some(b) => attr("smoothing"@, bool_wire(b)),
        None => Seq::<char>::empty(),
    }) + (match t.double_width {
        Some(b) => attr("dw"@, bool_wire(b)),
        None => Seq::<char>::empty(),
    }) + (match t.double_height {
        Some(b) => attr("dh"@, bool_wire(b)),
        None => Seq::<char>::empty(),
    }) + (match t.width {
        Some(w) => attr("width"@, dec_seq(w as nat)),
        None => Seq::<char>::empty(),
    }) + (match t.height {
        Some(h) => attr("height"@, dec_seq(h as nat)),
        None => Seq::<char>::empty(),
    }) + (match t.underline {
        Some(b) => attr("ul"@, bool_wire(b)),
        None => Seq::<char>::empty(),
    }) + (match t.emph {
        Some(b) => attr("em"@, bool_wire(b)),
        None => Seq::<char>::empty(),
    }) + (match t.color {
        Some(b) => attr("color"@, bool_wire(b)),
        None => Seq::<char>::empty(),
    }) + (match t.lang {
        Some(l) => attr("lang"@, esc(l.wire())),
        None => Seq::<char>::empty(),
    }) + (match t.align {
        Some(a) => attr("align"@, a.wire()),
        None => Seq::<char>::empty(),
    });
    assert(t.wire() == prefix + (">"@ + t.text@ + "</text>"@));
    assert(prefix + (">"@ + t.text@ + "</text>"@) =~= (prefix + ">"@) + t.text@ + "</text>"@);
    assert(t.wire() == (prefix + ">"@) + t.text@ + "</text>"@);
}

} // verus!
