//! Client-side data model and wire codec for the XML print protocol
//! spoken by networked ePOS receipt printers.
//!
//! A caller assembles print commands (text, barcodes, 2D symbols,
//! images, feeds, cuts, page-layout primitives), the library validates
//! them against the printing mode and the device's payload rules,
//! renders them to the exact XML the device expects, wraps the payload
//! in the transport envelope, and decodes the device's status reply —
//! including the 32-bit hardware status bitmask — back into named
//! conditions.  The HTTP exchange itself is left to the caller's
//! transport; the library produces the request bytes and headers and
//! consumes the reply bytes.

use vstd::prelude::*;
use vstd::string::*;

use crate::codec::{join_fragments, join_nl, WireItem};
use crate::error::EPOSError;
use crate::normal::NormalItem;
use crate::page::PageItem;
use crate::printer::Mode;
use crate::soap::{request_for, request_wire};

pub mod barcodes;
pub mod codec;
pub mod error;
pub mod formatters;
pub mod normal;
pub mod page;
pub mod printer;
pub mod soap;
pub mod status;
pub mod universal;

verus! {

/// The connection settings of one printer: the base endpoint the
/// caller's transport will post to, the device identifier, and the
/// device-side parser timeout (not a network timeout; most devices are
/// happy with about 10000).
#[derive(Clone, Debug)]
pub struct Builder {
    pub endpoint: String,
    pub dev_id: String,
    pub timeout: i32,
}

/// Records the connection settings of a printer.  On most devices the
/// device identifier is `local_printer`.
pub fn new(timeout: i32, dev_id: &str, endpoint: &str) -> (b: Builder)
    ensures
        b.timeout == timeout,
        b.dev_id@ == dev_id@,
        b.endpoint@ == endpoint@,
{
    Builder {
        endpoint: String::from_str(endpoint),
        dev_id: String::from_str(dev_id),
        timeout,
    }
}

impl Builder {
    /// Starts a page-mode print job: commands are placed within a
    /// defined print area.
    pub fn page(&self) -> (b: PageBuilder)
        ensures
            b@ == Seq::<Seq<char>>::empty(),
            b.timeout == self.timeout,
            b.dev_id@ == self.dev_id@,
            b.endpoint@ == self.endpoint@,
    {
        let b = PageBuilder {
            build: Vec::new(),
            timeout: self.timeout,
            dev_id: self.dev_id.clone(),
            endpoint: self.endpoint.clone(),
        };
        proof {
            assert(b@ =~= Seq::<Seq<char>>::empty());
        }
        b
    }

    /// Starts a normal-mode print job: commands are printed in order,
    /// one line at a time.
    pub fn normal(&self) -> (b: NormalBuilder)
        ensures
            b@ == Seq::<Seq<char>>::empty(),
            b.timeout == self.timeout,
            b.dev_id@ == self.dev_id@,
            b.endpoint@ == self.endpoint@,
    {
        let b = NormalBuilder {
            build: Vec::new(),
            timeout: self.timeout,
            dev_id: self.dev_id.clone(),
            endpoint: self.endpoint.clone(),
        };
        proof {
            assert(b@ =~= Seq::<Seq<char>>::empty());
        }
        b
    }
}

/// A page-mode print job: an append-only buffer of rendered commands,
/// consumed whole by one dispatch.
#[derive(Clone, Debug)]
pub struct PageBuilder {
    pub build: Vec<String>,
    pub timeout: i32,
    pub dev_id: String,
    pub endpoint: String,
}

impl View for PageBuilder {
    type V = Seq<Seq<char>>;

    /// The rendered fragments, in append order.
    closed spec fn view(&self) -> Seq<Seq<char>> {
        self.build.deep_view()
    }
}

impl PageBuilder {
    /// Appends one page-mode command to the job: it is rendered and
    /// buffered exactly when its payload satisfies the device's numeric
    /// and symbology rules; otherwise the job is left untouched and the
    /// payload is rejected.  Mode legality is already settled by the
    /// `PageItem` bound.
    pub fn add<I: PageItem>(&mut self, item: I) -> (r: Result<(), EPOSError>)
        ensures
            r is Ok <==> item.valid(),
            r is Ok ==> final(self)@ == old(self)@.push(item.wire()),
            r is Err ==> *final(self) == *old(self),
            (r matches Err(e) ==> e matches EPOSError::InvalidPayload { .. }),
            final(self).timeout == old(self).timeout,
            final(self).dev_id == old(self).dev_id,
            final(self).endpoint == old(self).endpoint,
    {
        if !item.validate() {
            return Err(
                EPOSError::InvalidPayload {
                    reason: String::from_str("payload violates a symbology or range rule"),
                },
            );
        }
        let frag = item.render();
        self.build.push(frag);
        proof {
            assert(final(self)@ =~= old(self)@.push(item.wire()));
        }
        Ok(())
    }

    /// Consumes the job and renders the complete request to post: the
    /// buffered fragments joined by newlines, under a `page` element in
    /// the transport envelope.  Consuming the job here rules out
    /// resending it by accident.
    pub fn into_request(self) -> (r: String)
        ensures
            r@ == request_wire(Mode::Page, join_nl(self@)),
    {
        let body = join_fragments(&self.build);
        request_for(Mode::Page, body)
    }
}

/// A normal-mode print job: an append-only buffer of rendered
/// commands, consumed whole by one dispatch.
#[derive(Clone, Debug)]
pub struct NormalBuilder {
    pub build: Vec<String>,
    pub timeout: i32,
    pub dev_id: String,
    pub endpoint: String,
}

impl View for NormalBuilder {
    type V = Seq<Seq<char>>;

    /// The rendered fragments, in append order.
    closed spec fn view(&self) -> Seq<Seq<char>> {
        self.build.deep_view()
    }
}

impl NormalBuilder {
    /// Appends one normal-mode command to the job: it is rendered and
    /// buffered exactly when its payload satisfies the device's numeric
    /// and symbology rules; otherwise the job is left untouched and the
    /// payload is rejected.  Mode legality is already settled by the
    /// `NormalItem` bound.
    pub fn add<I: NormalItem>(&mut self, item: I) -> (r: Result<(), EPOSError>)
        ensures
            r is Ok <==> item.valid(),
            r is Ok ==> final(self)@ == old(self)@.push(item.wire()),
            r is Err ==> *final(self) == *old(self),
            (r matches Err(e) ==> e matches EPOSError::InvalidPayload { .. }),
            final(self).timeout == old(self).timeout,
            final(self).dev_id == old(self).dev_id,
            final(self).endpoint == old(self).endpoint,
    {
        if !item.validate() {
            return Err(
                EPOSError::InvalidPayload {
                    reason: String::from_str("payload violates a symbology or range rule"),
                },
            );
        }
        let frag = item.render();
        self.build.push(frag);
        proof {
            assert(final(self)@ =~= old(self)@.push(item.wire()));
        }
        Ok(())
    }

    /// Consumes the job and renders the complete request to post: the
    /// buffered fragments joined by newlines, directly in the transport
    /// envelope.  Consuming the job here rules out resending it by
    /// accident.
    pub fn into_request(self) -> (r: String)
        ensures
            r@ == request_wire(Mode::Normal, join_nl(self@)),
    {
        let body = join_fragments(&self.build);
        request_for(Mode::Normal, body)
    }
}

} // verus!
