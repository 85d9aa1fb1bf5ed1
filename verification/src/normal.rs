//! Commands that are exclusive to normal mode.

use vstd::prelude::*;
use vstd::string::*;

use crate::codec::{attr, push_attr, WireItem};
use crate::codec::dec_seq;
use crate::codec::u32_dec;
use crate::formatters::{CutType, Style};

verus! {

/// A command legal in a normal-mode document.
pub trait NormalItem: WireItem {

}

/// Cuts the paper.
#[derive(Clone, Copy, Debug)]
pub struct Cut {
    pub cut_type: CutType,
}

impl WireItem for Cut {
    open spec fn wire(&self) -> Seq<char> {
        "<cut"@ + attr("type"@, self.cut_type.wire()) + "/>"@
    }

    open spec fn valid(&self) -> bool {
        true
    }

    fn validate(&self) -> (r: bool) {
        true
    }

    fn render(&self) -> (r: String) {
        let mut out = String::from_str("<cut");
        push_attr(&mut out, "type", self.cut_type.token());
        out.append("/>");
        proof {
            assert(out@ =~= self.wire());
        }
        out
    }
}

impl NormalItem for Cut {

}

/// Draws a horizontal rule across the paper.
#[derive(Clone, Copy, Debug)]
pub struct Hline {
    /// Horizontal draw start position, in dots.
    pub x1: u16,
    /// Horizontal draw end position, in dots.
    pub x2: u16,
    pub style: Option<Style>,
}

impl WireItem for Hline {
    open spec fn valid(&self) -> bool {
        true
    }

    fn validate(&self) -> (r: bool) {
        true
    }

    open spec fn wire(&self) -> Seq<char> {
        "<hline"@ + attr("x1"@, dec_seq(self.x1 as nat)) + attr("x2"@, dec_seq(self.x2 as nat))
            + (match self.style {
            Some(st) => attr("style"@, st.wire()),
            None => Seq::empty(),
        }) + "/>"@
    }

    fn render(&self) -> (r: String) {
        let mut out = String::from_str("<hline");
        let x1 = u32_dec(self.x1 as u32);
        push_attr(&mut out, "x1", x1.as_str());
        let x2 = u32_dec(self.x2 as u32);
        push_attr(&mut out, "x2", x2.as_str());
        match &self.style {
            Some(st) => push_attr(&mut out, "style", st.token()),
            None => {},
        }
        out.append("/>");
        proof {
            assert(out@ =~= self.wire());
        }
        out
    }
}

impl NormalItem for Hline {

}

} // verus!
