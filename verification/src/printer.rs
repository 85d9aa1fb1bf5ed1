//! The command set, the printing mode, and the document a print job
//! assembles before one dispatch.

use vstd::prelude::*;
use vstd::string::*;

use crate::codec::{join_fragments, join_nl, WireItem};
use crate::error::EPOSError;
use crate::normal::{Cut, Hline};
use crate::page::{Area, Direction, Line, Position, Rectangle};
use crate::universal::{Barcode, Feed, Image, Symbol, Text};

verus! {

/// The printing mode of a document.  Normal mode prints commands one
/// line at a time; page mode places them within a defined print area.
#[derive(Clone, Copy, Debug, PartialEq, Eq, Structural)]
pub enum Mode {
    Normal,
    Page,
}

/// One print command of any kind.  Which kinds a document accepts
/// depends on its mode.
#[derive(Clone, Debug)]
pub enum Command {
    Text(Text),
    Feed(Feed),
    Barcode(Barcode),
    Symbol(Symbol),
    Image(Image),
    Cut(Cut),
    Hline(Hline),
    Area(Area),
    Line(Line),
    Rectangle(Rectangle),
    Direction(Direction),
    Position(Position),
}

impl Command {
    /// The mode rule: text, feeds, barcodes, symbols and images are
    /// legal everywhere; cuts and horizontal rules only in normal mode;
    /// the layout primitives only in page mode.
    pub open spec fn legal_for(self, m: Mode) -> bool {
        match self {
            Command::Text(_) => true,
            Command::Feed(_) => true,
            Command::Barcode(_) => true,
            Command::Symbol(_) => true,
            Command::Image(_) => true,
            Command::Cut(_) => m is Normal,
            Command::Hline(_) => m is Normal,
            Command::Area(_) => m is Page,
            Command::Line(_) => m is Page,
            Command::Rectangle(_) => m is Page,
            Command::Direction(_) => m is Page,
            Command::Position(_) => m is Page,
        }
    }

    /// Checks the mode rule.
    pub fn check_mode(&self, m: Mode) -> (r: bool)
        ensures
            r == self.legal_for(m),
    {
        match self {
            Command::Text(_) | Command::Feed(_) | Command::Barcode(_) | Command::Symbol(_)
                | Command::Image(_) => true,
            Command::Cut(_) | Command::Hline(_) => matches!(m, Mode::Normal),
            Command::Area(_) | Command::Line(_) | Command::Rectangle(_) | Command::Direction(_)
                | Command::Position(_) => matches!(m, Mode::Page),
        }
    }

    /// The payload rules of the command, where its kind has any.
    pub open spec fn valid(self) -> bool {
        match self {
            Command::Text(t) => t.valid(),
            Command::Feed(f) => f.valid(),
            Command::Barcode(b) => b.valid(),
            Command::Symbol(s) => s.valid(),
            Command::Image(i) => i.valid(),
            Command::Cut(c) => c.valid(),
            Command::Hline(h) => h.valid(),
            Command::Area(a) => a.valid(),
            Command::Line(l) => l.valid(),
            Command::Rectangle(r) => r.valid(),
            Command::Direction(d) => d.valid(),
            Command::Position(p) => p.valid(),
        }
    }

    /// Checks the payload rules.
    pub fn validate(&self) -> (r: bool)
        ensures
            r == self.valid(),
    {
        match self {
            Command::Text(t) => t.validate(),
            Command::Feed(f) => f.validate(),
            Command::Barcode(b) => b.validate(),
            Command::Symbol(s) => s.validate(),
            Command::Image(i) => i.validate(),
            Command::Cut(c) => c.validate(),
            Command::Hline(h) => h.validate(),
            Command::Area(a) => a.validate(),
            Command::Line(l) => l.validate(),
            Command::Rectangle(r) => r.validate(),
            Command::Direction(d) => d.validate(),
            Command::Position(p) => p.validate(),
        }
    }

    /// The exact wire fragment the command renders to.
    pub open spec fn wire(self) -> Seq<char> {
        match self {
            Command::Text(t) => t.wire(),
            Command::Feed(f) => f.wire(),
            Command::Barcode(b) => b.wire(),
            Command::Symbol(s) => s.wire(),
            Command::Image(i) => i.wire(),
            Command::Cut(c) => c.wire(),
            Command::Hline(h) => h.wire(),
            Command::Area(a) => a.wire(),
            Command::Line(l) => l.wire(),
            Command::Rectangle(r) => r.wire(),
            Command::Direction(d) => d.wire(),
            Command::Position(p) => p.wire(),
        }
    }

    /// Renders the command to its wire fragment.
    pub fn render(&self) -> (r: String)
        ensures
            r@ == self.wire(),
    {
        match self {
            Command::Text(t) => t.render(),
            Command::Feed(f) => f.render(),
            Command::Barcode(b) => b.render(),
            Command::Symbol(s) => s.render(),
            Command::Image(i) => i.render(),
            Command::Cut(c) => c.render(),
            Command::Hline(h) => h.render(),
            Command::Area(a) => a.render(),
            Command::Line(l) => l.render(),
            Command::Rectangle(r) => r.render(),
            Command::Direction(d) => d.render(),
            Command::Position(p) => p.render(),
        }
    }
}

/// An ordered, append-only buffer of rendered commands with the mode
/// they were validated against.  A document is consumed by dispatch;
/// a fresh one is required for the next job, so nothing is ever resent
/// by accident.
#[derive(Clone, Debug)]
pub struct Document {
    mode: Mode,
    fragments: Vec<String>,
}

impl View for Document {
    type V = Seq<Seq<char>>;

    /// The rendered fragments, in append order.
    closed spec fn view(&self) -> Seq<Seq<char>> {
        self.fragments.deep_view()
    }
}

impl Document {
    /// The mode the document was created in.
    pub closed spec fn mode(self) -> Mode {
        self.mode
    }

    /// Creates an empty document in the given mode.
    pub fn new(mode: Mode) -> (d: Document)
        ensures
            d@ == Seq::<Seq<char>>::empty(),
            d.mode() == mode,
    {
        let d = Document { mode, fragments: Vec::new() };
        proof {
            assert(d@ =~= Seq::<Seq<char>>::empty());
        }
        d
    }

    /// The mode the document was created in.
    pub fn mode_of(&self) -> (m: Mode)
        ensures
            m == self.mode(),
    {
        self.mode
    }

    /// Appends one command: it is rendered and buffered exactly when it
    /// is legal in the document's mode and its payload satisfies the
    /// device's rules; otherwise the document is left untouched and the
    /// offending rule is reported.
    pub fn append(&mut self, cmd: &Command) -> (r: Result<(), EPOSError>)
        ensures
            r is Ok <==> cmd.legal_for(old(self).mode()) && cmd.valid(),
            r is Ok ==> final(self)@ == old(self)@.push(cmd.wire()),
            r is Err ==> *final(self) == *old(self),
            final(self).mode() == old(self).mode(),
            !cmd.legal_for(old(self).mode()) ==> r == Err::<(), EPOSError>(
                EPOSError::IllegalForMode,
            ),
            cmd.legal_for(old(self).mode()) && !cmd.valid() ==> (r matches Err(e)
                && e matches EPOSError::InvalidPayload { .. }),
    {
        if !cmd.check_mode(self.mode) {
            return Err(EPOSError::IllegalForMode);
        }
        if !cmd.validate() {
            return Err(
                EPOSError::InvalidPayload {
                    reason: String::from_str("payload violates a symbology or range rule"),
                },
            );
        }
        let frag = cmd.render();
        self.fragments.push(frag);
        proof {
            assert(final(self)@ =~= old(self)@.push(cmd.wire()));
        }
        Ok(())
    }

    /// Consumes the document and hands back its body: the rendered
    /// fragments joined by single newlines, in append order.
    pub fn into_body(self) -> (r: String)
        ensures
            r@ == join_nl(self@),
    {
        join_fragments(&self.fragments)
    }
}

} // verus!
