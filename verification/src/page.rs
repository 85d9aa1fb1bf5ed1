//! Commands that are exclusive to page mode: the print area, drawing
//! primitives, print direction and print position.

use vstd::prelude::*;
use vstd::string::*;

use crate::codec::{attr, push_attr, WireItem};
use crate::codec::dec_seq;
use crate::codec::u32_dec;
use crate::formatters::{PrintDirection, Style};

verus! {

/// A command legal in a page-mode document.
pub trait PageItem: WireItem {

}

/// The rectangular print area of a page.
#[derive(Clone, Copy, Debug)]
pub struct Area {
    /// Horizontal start of the print area, in dots.
    pub x: u16,
    /// Vertical start of the print area, in dots.
    pub y: u16,
    /// Total print area width, in dots.
    pub width: u16,
    /// Total print area height, in dots.
    pub height: u16,
}

impl WireItem for Area {
    open spec fn valid(&self) -> bool {
        true
    }

    fn validate(&self) -> (r: bool) {
        true
    }

    open spec fn wire(&self) -> Seq<char> {
        "<area"@ + attr("x"@, dec_seq(self.x as nat)) + attr("y"@, dec_seq(self.y as nat)) + attr(
            "width"@,
            dec_seq(self.width as nat),
        ) + attr("height"@, dec_seq(self.height as nat)) + "/>"@
    }

    fn render(&self) -> (r: String) {
        let mut out = String::from_str("<area");
        let x = u32_dec(self.x as u32);
        push_attr(&mut out, "x", x.as_str());
        let y = u32_dec(self.y as u32);
        push_attr(&mut out, "y", y.as_str());
        let w = u32_dec(self.width as u32);
        push_attr(&mut out, "width", w.as_str());
        let h = u32_dec(self.height as u32);
        push_attr(&mut out, "height", h.as_str());
        out.append("/>");
        proof {
            assert(out@ =~= self.wire());
        }
        out
    }
}

impl PageItem for Area {

}

/// Draws a rectangle between two corners.
#[derive(Clone, Copy, Debug)]
pub struct Rectangle {
    /// Horizontal draw start position, in dots.
    pub x1: u16,
    /// Vertical draw start position, in dots.
    pub y1: u16,
    /// Horizontal draw end position, in dots.
    pub x2: u16,
    /// Vertical draw end position, in dots.
    pub y2: u16,
    pub style: Option<Style>,
}

impl WireItem for Rectangle {
    open spec fn valid(&self) -> bool {
        true
    }

    fn validate(&self) -> (r: bool) {
        true
    }

    open spec fn wire(&self) -> Seq<char> {
        "<rectangle"@ + attr("x1"@, dec_seq(self.x1 as nat)) + attr(
            "y1"@,
            dec_seq(self.y1 as nat),
        ) + attr("x2"@, dec_seq(self.x2 as nat)) + attr("y2"@, dec_seq(self.y2 as nat)) + (
        match self.style {
            Some(st) => attr("style"@, st.wire()),
            None => Seq::empty(),
        }) + "/>"@
    }

    fn render(&self) -> (r: String) {
        let mut out = String::from_str("<rectangle");
        let x1 = u32_dec(self.x1 as u32);
        push_attr(&mut out, "x1", x1.as_str());
        let y1 = u32_dec(self.y1 as u32);
        push_attr(&mut out, "y1", y1.as_str());
        let x2 = u32_dec(self.x2 as u32);
        push_attr(&mut out, "x2", x2.as_str());
        let y2 = u32_dec(self.y2 as u32);
        push_attr(&mut out, "y2", y2.as_str());
        match &self.style {
            Some(st) => push_attr(&mut out, "style", st.token()),
            None => {},
        }
        out.append("/>");
        proof {
            assert(out@ =~= self.wire());
        }
        out
    }
}

impl PageItem for Rectangle {

}

/// Draws a line between two points.
#[derive(Clone, Copy, Debug)]
pub struct Line {
    /// Horizontal draw start position, in dots.
    pub x1: u16,
    /// Vertical draw start position, in dots.
    pub y1: u16,
    /// Horizontal draw end position, in dots.
    pub x2: u16,
    /// Vertical draw end position, in dots.
    pub y2: u16,
    pub style: Option<Style>,
}

impl WireItem for Line {
    open spec fn valid(&self) -> bool {
        true
    }

    fn validate(&self) -> (r: bool) {
        true
    }

    open spec fn wire(&self) -> Seq<char> {
        "<line"@ + attr("x1"@, dec_seq(self.x1 as nat)) + attr("y1"@, dec_seq(self.y1 as nat))
            + attr("x2"@, dec_seq(self.x2 as nat)) + attr("y2"@, dec_seq(self.y2 as nat)) + (
        match self.style {
            Some(st) => attr("style"@, st.wire()),
            None => Seq::empty(),
        }) + "/>"@
    }

    fn render(&self) -> (r: String) {
        let mut out = String::from_str("<line");
        let x1 = u32_dec(self.x1 as u32);
        push_attr(&mut out, "x1", x1.as_str());
        let y1 = u32_dec(self.y1 as u32);
        push_attr(&mut out, "y1", y1.as_str());
        let x2 = u32_dec(self.x2 as u32);
        push_attr(&mut out, "x2", x2.as_str());
        let y2 = u32_dec(self.y2 as u32);
        push_attr(&mut out, "y2", y2.as_str());
        match &self.style {
            Some(st) => push_attr(&mut out, "style", st.token()),
            None => {},
        }
        out.append("/>");
        proof {
            assert(out@ =~= self.wire());
        }
        out
    }
}

impl PageItem for Line {

}

/// Sets the print direction of the page.
#[derive(Clone, Copy, Debug)]
pub struct Direction {
    pub dir: PrintDirection,
}

impl WireItem for Direction {
    open spec fn valid(&self) -> bool {
        true
    }

    fn validate(&self) -> (r: bool) {
        true
    }

    open spec fn wire(&self) -> Seq<char> {
        "<direction"@ + attr("dir"@, self.dir.wire()) + "/>"@
    }

    fn render(&self) -> (r: String) {
        let mut out = String::from_str("<direction");
        push_attr(&mut out, "dir", self.dir.token());
        out.append("/>");
        proof {
            assert(out@ =~= self.wire());
        }
        out
    }
}

impl PageItem for Direction {

}

/// Sets the print position within the page's print area.
#[derive(Clone, Copy, Debug)]
pub struct Position {
    /// Horizontal print position, in dots.
    pub x: u16,
    /// Vertical print position, in dots.
    pub y: u16,
}

impl WireItem for Position {
    open spec fn valid(&self) -> bool {
        true
    }

    fn validate(&self) -> (r: bool) {
        true
    }

    open spec fn wire(&self) -> Seq<char> {
        "<position"@ + attr("x"@, dec_seq(self.x as nat)) + attr("y"@, dec_seq(self.y as nat))
            + "/>"@
    }

    fn render(&self) -> (r: String) {
        let mut out = String::from_str("<position");
        let x = u32_dec(self.x as u32);
        push_attr(&mut out, "x", x.as_str());
        let y = u32_dec(self.y as u32);
        push_attr(&mut out, "y", y.as_str());
        out.append("/>");
        proof {
            assert(out@ =~= self.wire());
        }
        out
    }
}

impl PageItem for Position {

}

} // verus!
