//! The transport envelope: the outer wrapper around a print payload,
//! the request builder, and the parsing of the device's reply envelope.
//!
//! Rendered command fragments are already escaped; envelope assembly
//! inserts them verbatim, so each byte of payload text is escaped
//! exactly once on the way to the device.

use vstd::prelude::*;
use vstd::string::*;

use crate::codec::{all_digits, dec_val, join_nl, parse_u32, str_eq};
use crate::error::EPOSError;
use crate::printer::{Document, Mode};
use crate::status::Response;

verus! {

broadcast use vstd::string::group_string_axioms;

/// The fixed namespace of the outer transport envelope.
pub open spec fn soap_env_ns() -> Seq<char> {
    "http://schemas.xmlsoap.org/soap/envelope/"@
}

/// The fixed namespace of the inner print payload.
pub open spec fn epos_print_ns() -> Seq<char> {
    "http://www.epson-pos.com/schemas/2011/03/epos-print"@
}

/// The fixed namespace string of the outer transport envelope.
pub fn soap_env_ns_str() -> (r: &'static str)
    ensures
        r@ == soap_env_ns(),
{
    "http://schemas.xmlsoap.org/soap/envelope/"
}

/// The fixed namespace string of the inner print payload.
pub fn epos_print_ns_str() -> (r: &'static str)
    ensures
        r@ == epos_print_ns(),
{
    "http://www.epson-pos.com/schemas/2011/03/epos-print"
}

/// The path, under the device's base URL, that print jobs are posted
/// to.
pub fn endpoint_path() -> (r: &'static str)
    ensures
        r@ == "/cgi-bin/epos/service.cgi"@,
{
    "/cgi-bin/epos/service.cgi"
}

/// The required request content type.
pub fn content_type() -> (r: &'static str)
    ensures
        r@ == "text/xml; charset=utf-8"@,
{
    "text/xml; charset=utf-8"
}

/// The required `If-Modified-Since` value, which forces the device to
/// treat every request as uncached.
pub fn if_modified_since() -> (r: &'static str)
    ensures
        r@ == "Thu, 01 Jan 1970 00:00:00 GMT"@,
{
    "Thu, 01 Jan 1970 00:00:00 GMT"
}

/// A page body wrapper: the joined fragments under one `page` element.
pub open spec fn page_wire(body: Seq<char>) -> Seq<char> {
    if body.len() == 0 {
        "<page/>"@
    } else {
        "<page>"@ + body + "</page>"@
    }
}

/// The print payload element around a mode-tagged body: a normal-mode
/// body is emitted directly, a page-mode body under an extra `page`
/// element.
pub open spec fn payload_wire(m: Mode, body: Seq<char>) -> Seq<char> {
    match m {
        Mode::Normal => if body.len() == 0 {
            "<epos-print/>"@
        } else {
            "<epos-print>"@ + body + "</epos-print>"@
        },
        Mode::Page => "<epos-print>"@ + page_wire(body) + "</epos-print>"@,
    }
}

/// The SOAP body element around the print payload.
pub open spec fn body_tag_wire(ns: Seq<char>, inner: Seq<char>) -> Seq<char> {
    "<s:Body xmlns=\""@ + ns + "\">"@ + inner + "</s:Body>"@
}

/// The outer envelope element around the SOAP body.
pub open spec fn envelope_wire(ns: Seq<char>, inner: Seq<char>) -> Seq<char> {
    "<s:Envelope xmlns:s=\""@ + ns + "\""@ + ">"@ + inner + "</s:Envelope>"@
}

/// The complete request for a body dispatched in the given mode.
pub open spec fn request_wire(m: Mode, body: Seq<char>) -> Seq<char> {
    envelope_wire(soap_env_ns(), body_tag_wire(epos_print_ns(), payload_wire(m, body)))
}

/// The page-mode wrapper element and its body.
#[derive(Clone, Debug)]
pub struct PageWrapper {
    pub body: String,
}

impl PageWrapper {
    /// The exact wire form of the wrapper.
    pub open spec fn wire(self) -> Seq<char> {
        page_wire(self.body@)
    }

    /// Renders the wrapper.
    pub fn render(&self) -> (r: String)
        ensures
            r@ == self.wire(),
    {
        if self.body.as_str().is_empty() {
            String::from_str("<page/>")
        } else {
            let mut out = String::from_str("<page>");
            out.append(self.body.as_str());
            out.append("</page>");
            out
        }
    }
}

/// The mode-tagged body of the print payload: a flat concatenation of
/// rendered commands, or the same under a `page` element.
#[derive(Clone, Debug)]
pub enum EnumBody {
    NoPage { body: String },
    Page { body: PageWrapper },
}

impl EnumBody {
    /// The exact wire form of the payload element.
    pub open spec fn wire(self) -> Seq<char> {
        match self {
            EnumBody::NoPage { body } => payload_wire(Mode::Normal, body@),
            EnumBody::Page { body } => payload_wire(Mode::Page, body.body@),
        }
    }

    /// Renders the payload element.
    pub fn render(&self) -> (r: String)
        ensures
            r@ == self.wire(),
    {
        match self {
            EnumBody::NoPage { body } => {
                if body.as_str().is_empty() {
                    String::from_str("<epos-print/>")
                } else {
                    let mut out = String::from_str("<epos-print>");
                    out.append(body.as_str());
                    out.append("</epos-print>");
                    out
                }
            },
            EnumBody::Page { body } => {
                let mut out = String::from_str("<epos-print>");
                let inner = body.render();
                out.append(inner.as_str());
                out.append("</epos-print>");
                out
            },
        }
    }
}

/// The inner print-payload wrapper: its namespace and the mode-tagged
/// body.
#[derive(Clone, Debug)]
pub struct EposPrint {
    pub ns: String,
    pub body: EnumBody,
}

impl EposPrint {
    /// The exact wire form of the SOAP body element.
    pub open spec fn wire(self) -> Seq<char> {
        body_tag_wire(self.ns@, self.body.wire())
    }

    /// Renders the SOAP body element.
    pub fn render(&self) -> (r: String)
        ensures
            r@ == self.wire(),
    {
        let mut out = String::from_str("<s:Body xmlns=\"");
        out.append(self.ns.as_str());
        out.append("\">");
        let inner = self.body.render();
        out.append(inner.as_str());
        out.append("</s:Body>");
        out
    }
}

/// The outer transport envelope: a fixed namespace and an optional
/// body.
#[derive(Clone, Debug)]
pub struct SoapWrapper {
    pub ns: String,
    pub body: Option<EposPrint>,
}

impl SoapWrapper {
    /// The exact wire form of the envelope.
    pub open spec fn wire(self) -> Seq<char> {
        match self {
            SoapWrapper { ns, body: Some(p) } => envelope_wire(ns@, p.wire()),
            SoapWrapper { ns, body: None } => "<s:Envelope xmlns:s=\""@ + ns@ + "\"/>"@,
        }
    }

    /// Renders the envelope; an already-escaped body is inserted
    /// verbatim.
    pub fn render(&self) -> (r: String)
        ensures
            r@ == self.wire(),
    {
        let mut out = String::from_str("<s:Envelope xmlns:s=\"");
        out.append(self.ns.as_str());
        match &self.body {
            Some(p) => {
                out.append("\"");
                out.append(">");
                let inner = p.render();
                out.append(inner.as_str());
                out.append("</s:Envelope>");
            },
            None => {
                out.append("\"/>");
            },
        }
        out
    }
}

/// Consumes a document and renders the complete request to post to the
/// device: its joined fragments in the mode-tagged payload, inside the
/// fixed transport envelope.  Consuming the document here is what rules
/// out the accidental resend of an earlier job.
pub fn build_request(doc: Document) -> (r: String)
    ensures
        r@ == request_wire(doc.mode(), join_nl(doc@)),
{
    let mode = doc.mode_of();
    let body = doc.into_body();
    request_for(mode, body)
}

/// Renders the complete request for an already-joined body dispatched
/// in the given mode.
pub fn request_for(mode: Mode, body: String) -> (r: String)
    ensures
        r@ == request_wire(mode, body@),
{
    let payload = match mode {
        Mode::Normal => EnumBody::NoPage { body },
        Mode::Page => EnumBody::Page { body: PageWrapper { body } },
    };
    let envelope = SoapWrapper {
        ns: String::from_str(soap_env_ns_str()),
        body: Some(
            EposPrint { ns: String::from_str(epos_print_ns_str()), body: payload },
        ),
    };
    envelope.render()
}

/// A decoded reply: the `response` element inside the reply envelope.
#[derive(Clone, Debug)]
pub struct ResponseBody {
    pub response: Response,
}

/// The decoded reply envelope: the envelope's own namespace and the
/// response it carries.
#[derive(Clone, Debug)]
pub struct SoapRespWrapper {
    pub ns: String,
    pub body: ResponseBody,
}


/// Whether the character is XML whitespace.
pub open spec fn is_ws(c: char) -> bool {
    c == ' ' || c == '\t' || c == '\n' || c == '\r'
}

/// The first position at or after `i` that holds a non-whitespace
/// character, or the end of the input.
pub open spec fn skip_ws_from(s: Seq<char>, i: int) -> int
    decreases s.len() - i
        when 0 <= i <= s.len()
{
    if i < s.len() && is_ws(s[i]) {
        skip_ws_from(s, i + 1)
    } else {
        i
    }
}

proof fn lemma_skip_ws_bounds(s: Seq<char>, i: int)
    requires
        0 <= i <= s.len(),
    ensures
        i <= skip_ws_from(s, i) <= s.len(),
    decreases s.len() - i,
{
    if i < s.len() && is_ws(s[i]) {
        lemma_skip_ws_bounds(s, i + 1);
    }
}

/// Whether the character ends an attribute name.
pub open spec fn name_delim(c: char) -> bool {
    c == '=' || is_ws(c) || c == '/' || c == '>' || c == '"' || c == '<'
}

/// The first position at or after `i` that ends an attribute name.
pub open spec fn scan_name_end(s: Seq<char>, i: int) -> int
    decreases s.len() - i
        when 0 <= i <= s.len()
{
    if i < s.len() && !name_delim(s[i]) {
        scan_name_end(s, i + 1)
    } else {
        i
    }
}

proof fn lemma_scan_name_bounds(s: Seq<char>, i: int)
    requires
        0 <= i <= s.len(),
    ensures
        i <= scan_name_end(s, i) <= s.len(),
    decreases s.len() - i,
{
    if i < s.len() && !name_delim(s[i]) {
        lemma_scan_name_bounds(s, i + 1);
    }
}

/// The first position at or after `i` that holds the closing quote of
/// an attribute value, or the end of the input.
pub open spec fn scan_quote_end(s: Seq<char>, i: int) -> int
    decreases s.len() - i
        when 0 <= i <= s.len()
{
    if i < s.len() && s[i] != '"' {
        scan_quote_end(s, i + 1)
    } else {
        i
    }
}

proof fn lemma_scan_quote_bounds(s: Seq<char>, i: int)
    requires
        0 <= i <= s.len(),
    ensures
        i <= scan_quote_end(s, i) <= s.len(),
    decreases s.len() - i,
{
    if i < s.len() && s[i] != '"' {
        lemma_scan_quote_bounds(s, i + 1);
    }
}

/// Whether `pat` occurs in `s` at position `i`.
pub open spec fn match_at(s: Seq<char>, pat: Seq<char>, i: int) -> bool {
    0 <= i && i + pat.len() <= s.len() && s.subrange(i, i + pat.len()) == pat
}

/// The first position at or after `i` where `pat` occurs in `s`.
pub open spec fn find_from(s: Seq<char>, pat: Seq<char>, i: int) -> Option<int>
    decreases s.len() - i
        when 0 <= i <= s.len()
{
    if pat.len() == 0 {
        None
    } else if i + pat.len() > s.len() {
        None
    } else if match_at(s, pat, i) {
        Some(i)
    } else {
        find_from(s, pat, i + 1)
    }
}

/// One step of the attribute scan: everything from a name list to the
/// closing `>` or `/>` of the tag, as (name, value) pairs in document
/// order.  `None` is a malformed tag.
pub open spec fn parse_attrs(s: Seq<char>, i: int, fuel: nat) -> Option<
    (Seq<(Seq<char>, Seq<char>)>, int),
>
    decreases fuel,
{
    if fuel == 0 || !(0 <= i <= s.len()) {
        None
    } else {
        let j = skip_ws_from(s, i);
        if j >= s.len() {
            None
        } else if s[j] == '/' {
            if j + 1 < s.len() && s[j + 1] == '>' {
                Some((Seq::empty(), j + 2))
            } else {
                None
            }
        } else if s[j] == '>' {
            Some((Seq::empty(), j + 1))
        } else {
            let k = scan_name_end(s, j);
            if k == j || k >= s.len() || s[k] != '=' {
                None
            } else if k + 1 >= s.len() || s[k + 1] != '"' {
                None
            } else {
                let q = scan_quote_end(s, k + 2);
                if q >= s.len() {
                    None
                } else {
                    match parse_attrs(s, q + 1, (fuel - 1) as nat) {
                        Some((rest, end)) => Some(
                            (seq![(s.subrange(j, k), s.subrange(k + 2, q))] + rest, end),
                        ),
                        None => None,
                    }
                }
            }
        }
    }
}

/// The canonical fuel: one unit per remaining character is always
/// enough, since every parsed attribute consumes at least one.
pub open spec fn attrs_fuel(s: Seq<char>, i: int) -> nat {
    (s.len() + 1 - i) as nat
}

proof fn lemma_parse_attrs_fuel(s: Seq<char>, i: int, f1: nat, f2: nat)
    requires
        0 <= i <= s.len(),
        f1 >= attrs_fuel(s, i),
        f2 >= attrs_fuel(s, i),
    ensures
        parse_attrs(s, i, f1) == parse_attrs(s, i, f2),
    decreases f1 + f2,
{
    lemma_skip_ws_bounds(s, i);
    let j = skip_ws_from(s, i);
    if j < s.len() && s[j] != '/' && s[j] != '>' {
        lemma_scan_name_bounds(s, j);
        let k = scan_name_end(s, j);
        if k > j && k < s.len() && s[k] == '=' && k + 1 < s.len() && s[k + 1] == '"' {
            lemma_scan_quote_bounds(s, k + 2);
            let q = scan_quote_end(s, k + 2);
            if q < s.len() {
                lemma_parse_attrs_fuel(s, q + 1, (f1 - 1) as nat, (f2 - 1) as nat);
            }
        }
    }
}

/// The attribute list of the tag whose name ends at `i`.
pub open spec fn attrs_from(s: Seq<char>, i: int) -> Option<(Seq<(Seq<char>, Seq<char>)>, int)> {
    parse_attrs(s, i, attrs_fuel(s, i))
}

/// The value of the first attribute of the given name, scanning from
/// position `i` of the list.
pub open spec fn assoc_from(
    l: Seq<(Seq<char>, Seq<char>)>,
    name: Seq<char>,
    i: int,
) -> Option<Seq<char>>
    decreases l.len() - i
        when 0 <= i <= l.len()
{
    if i >= l.len() {
        None
    } else if l[i].0 == name {
        Some(l[i].1)
    } else {
        assoc_from(l, name, i + 1)
    }
}

/// The value of the first attribute of the given name.
pub open spec fn assoc(l: Seq<(Seq<char>, Seq<char>)>, name: Seq<char>) -> Option<Seq<char>> {
    assoc_from(l, name, 0)
}

/// The boolean an attribute token decodes to, if any.
pub open spec fn bool_of_token(t: Seq<char>) -> Option<bool> {
    if t == "true"@ || t == "1"@ {
        Some(true)
    } else if t == "false"@ || t == "0"@ {
        Some(false)
    } else {
        None
    }
}

/// The numeric value an attribute token decodes to, if it is a digit
/// string that fits in 32 bits.
pub open spec fn u32_of_token(t: Seq<char>) -> Option<u32> {
    if t.len() > 0 && all_digits(t) && dec_val(t) <= u32::MAX {
        Some(dec_val(t) as u32)
    } else {
        None
    }
}

/// Everything a well-formed reply determines: the envelope namespace,
/// and the response's namespace, success flag, code, status word and
/// battery code.  `None` is a reply this client cannot read.
pub open spec fn reply_fields(s: Seq<char>) -> Option<
    (Seq<char>, Seq<char>, bool, Seq<char>, u32, u32),
> {
    match find_from(s, "<s:Envelope"@, 0) {
        None => None,
        Some(e) => match attrs_from(s, e + 11) {
            None => None,
            Some((eattrs, _eend)) => match assoc(eattrs, "xmlns:s"@) {
                None => None,
                Some(env_ns) => match find_from(s, "<response"@, 0) {
                    None => None,
                    Some(p) => match attrs_from(s, p + 9) {
                        None => None,
                        Some((rattrs, _rend)) => match (
                            assoc(rattrs, "xmlns"@),
                            assoc(rattrs, "success"@),
                            assoc(rattrs, "code"@),
                            assoc(rattrs, "status"@),
                            assoc(rattrs, "battery"@),
                        ) {
                            (Some(ns), Some(su), Some(code), Some(st), Some(ba)) => match (
                                bool_of_token(su),
                                u32_of_token(st),
                                u32_of_token(ba),
                            ) {
                                (Some(sub), Some(stv), Some(bav)) => Some(
                                    (env_ns, ns, sub, code, stv, bav),
                                ),
                                _ => None,
                            },
                            _ => None,
                        },
                    },
                },
            },
        },
    }
}


fn skip_ws_exec(s: &str, i: usize) -> (j: usize)
    requires
        i <= s@.len(),
    ensures
        j == skip_ws_from(s@, i as int),
        i <= j <= s@.len(),
{
    let n = s.unicode_len();
    let mut j: usize = i;
    while j < n
        invariant
            i <= j <= n,
            n == s@.len(),
            skip_ws_from(s@, i as int) == skip_ws_from(s@, j as int),
        decreases n - j,
    {
        let c = s.get_char(j);
        if c == ' ' || c == '\t' || c == '\n' || c == '\r' {
            j += 1;
        } else {
            return j;
        }
    }
    j
}

fn scan_name_exec(s: &str, i: usize) -> (j: usize)
    requires
        i <= s@.len(),
    ensures
        j == scan_name_end(s@, i as int),
        i <= j <= s@.len(),
{
    let n = s.unicode_len();
    let mut j: usize = i;
    while j < n
        invariant
            i <= j <= n,
            n == s@.len(),
            scan_name_end(s@, i as int) == scan_name_end(s@, j as int),
        decreases n - j,
    {
        let c = s.get_char(j);
        if c == '=' || c == ' ' || c == '\t' || c == '\n' || c == '\r' || c == '/' || c == '>'
            || c == '"' || c == '<' {
            return j;
        } else {
            j += 1;
        }
    }
    j
}

fn scan_quote_exec(s: &str, i: usize) -> (j: usize)
    requires
        i <= s@.len(),
    ensures
        j == scan_quote_end(s@, i as int),
        i <= j <= s@.len(),
{
    let n = s.unicode_len();
    let mut j: usize = i;
    while j < n
        invariant
            i <= j <= n,
            n == s@.len(),
            scan_quote_end(s@, i as int) == scan_quote_end(s@, j as int),
        decreases n - j,
    {
        let c = s.get_char(j);
        if c == '"' {
            return j;
        } else {
            j += 1;
        }
    }
    j
}

fn match_at_exec(s: &str, pat: &str, i: usize) -> (r: bool)
    requires
        i + pat@.len() <= s@.len(),
    ensures
        r == match_at(s@, pat@, i as int),
{
    let n = s.unicode_len();
    let m = pat.unicode_len();
    let mut k: usize = 0;
    while k < m
        invariant
            0 <= k <= m,
            m == pat@.len(),
            i + m <= n,
            n == s@.len(),
            forall|t: int| 0 <= t < k ==> s@[i + t] == pat@[t],
        decreases m - k,
    {
        if s.get_char(i + k) != pat.get_char(k) {
            assert(s@.subrange(i as int, i + pat@.len()) != pat@) by {
                assert(s@.subrange(i as int, i + pat@.len())[k as int] != pat@[k as int]);
            }
            return false;
        }
        k += 1;
    }
    proof {
        assert(s@.subrange(i as int, i + pat@.len()) =~= pat@);
    }
    true
}

fn find_exec(s: &str, pat: &str) -> (r: Option<usize>)
    requires
        pat@.len() > 0,
    ensures
        r is Some <==> find_from(s@, pat@, 0) is Some,
        r matches Some(p) ==> find_from(s@, pat@, 0) == Some(p as int) && p + pat@.len()
            <= s@.len(),
{
    let n = s.unicode_len();
    let m = pat.unicode_len();
    if m > n {
        return None;
    }
    let mut i: usize = 0;
    while i <= n - m
        invariant
            0 <= i <= n - m + 1,
            n == s@.len(),
            m == pat@.len(),
            0 < m <= n,
            find_from(s@, pat@, 0) == find_from(s@, pat@, i as int),
        decreases n - i,
    {
        if match_at_exec(s, pat, i) {
            return Some(i);
        }
        i += 1;
    }
    None
}

fn parse_attrs_exec(s: &str, start: usize) -> (r: Option<(Vec<(String, String)>, usize)>)
    requires
        start <= s@.len(),
    ensures
        r is Some <==> attrs_from(s@, start as int) is Some,
        r matches Some(p) ==> attrs_from(s@, start as int) == Some(
            (p.0.deep_view(), p.1 as int),
        ),
{
    let n = s.unicode_len();
    let mut acc: Vec<(String, String)> = Vec::new();
    let mut i: usize = start;
    loop
        invariant
            start <= i <= n,
            n == s@.len(),
            attrs_from(s@, start as int) == (match attrs_from(s@, i as int) {
                Some((rest, end)) => Some((acc.deep_view() + rest, end)),
                None => None::<(Seq<(Seq<char>, Seq<char>)>, int)>,
            }),
        decreases n - i,
    {
        proof {
            lemma_skip_ws_bounds(s@, i as int);
        }
        let j = skip_ws_exec(s, i);
        if j >= n {
            return None;
        }
        let c = s.get_char(j);
        if c == '/' {
            if j + 1 < n && s.get_char(j + 1) == '>' {
                proof {
                    assert(acc.deep_view() + Seq::<(Seq<char>, Seq<char>)>::empty()
                        =~= acc.deep_view());
                }
                return Some((acc, j + 2));
            } else {
                return None;
            }
        }
        if c == '>' {
            proof {
                assert(acc.deep_view() + Seq::<(Seq<char>, Seq<char>)>::empty()
                    =~= acc.deep_view());
            }
            return Some((acc, j + 1));
        }
        proof {
            lemma_scan_name_bounds(s@, j as int);
        }
        let k = scan_name_exec(s, j);
        if k == j || k >= n {
            return None;
        }
        if s.get_char(k) != '=' {
            return None;
        }
        if k + 1 >= n {
            return None;
        }
        if s.get_char(k + 1) != '"' {
            return None;
        }
        proof {
            lemma_scan_quote_bounds(s@, k as int + 2);
        }
        let q = scan_quote_exec(s, k + 2);
        if q >= n {
            return None;
        }
        let name = String::from_str(s.substring_char(j, k));
        let val = String::from_str(s.substring_char(k + 2, q));
        let ghost acc_old = acc.deep_view();
        acc.push((name, val));
        proof {
            let pair = (s@.subrange(j as int, k as int), s@.subrange(k as int + 2, q as int));
            assert(acc.deep_view() =~= acc_old + seq![pair]);
            lemma_parse_attrs_fuel(
                s@,
                q as int + 1,
                (attrs_fuel(s@, i as int) - 1) as nat,
                attrs_fuel(s@, q as int + 1),
            );
            let next = attrs_from(s@, q as int + 1);
            if next is Some {
                let tup = next->0;
                let rest = tup.0;
                assert(acc_old + (seq![pair] + rest) =~= acc.deep_view() + rest);
            }
        }
        i = q + 1;
    }
}

fn assoc_exec(l: &Vec<(String, String)>, name: &str) -> (r: Option<String>)
    ensures
        r is Some <==> assoc(l.deep_view(), name@) is Some,
        r matches Some(v) ==> assoc(l.deep_view(), name@) == Some(v@),
{
    let mut idx: usize = 0;
    while idx < l.len()
        invariant
            0 <= idx <= l@.len(),
            assoc_from(l.deep_view(), name@, 0) == assoc_from(l.deep_view(), name@, idx as int),
        decreases l@.len() - idx,
    {
        if str_eq(l[idx].0.as_str(), name) {
            return Some(l[idx].1.clone());
        }
        idx += 1;
    }
    None
}

/// Parses the reply envelope: the envelope's namespace and the
/// `response` element's attributes, exactly as `reply_fields` reads
/// them.  A reply this client cannot read is a `SerializeError`.
pub fn parse_reply(s: &str) -> (r: Result<SoapRespWrapper, EPOSError>)
    ensures
        r is Ok <==> reply_fields(s@) is Some,
        r matches Ok(w) ==> reply_fields(s@) == Some(
            (
                w.ns@,
                w.body.response.ns@,
                w.body.response.success,
                w.body.response.code@,
                w.body.response.status,
                w.body.response.battery,
            ),
        ),
        r is Err ==> (r matches Err(e) && e matches EPOSError::SerializeError { .. }),
{
    proof {
        reveal_strlit("<s:Envelope");
        reveal_strlit("<response");
        assert("<s:Envelope"@.len() == 11);
        assert("<response"@.len() == 9);
    }
    let n = s.unicode_len();
    let e = match find_exec(s, "<s:Envelope") {
        Some(e) => e,
        None => {
            return Err(
                EPOSError::SerializeError {
                    reason: String::from_str("the reply holds no envelope element"),
                },
            );
        },
    };
    assert(e + 11 <= n);
    let eattrs = match parse_attrs_exec(s, e + 11) {
        Some(p) => p.0,
        None => {
            return Err(
                EPOSError::SerializeError {
                    reason: String::from_str("the reply envelope tag is malformed"),
                },
            );
        },
    };
    let env_ns = match assoc_exec(&eattrs, "xmlns:s") {
        Some(v) => v,
        None => {
            return Err(
                EPOSError::SerializeError {
                    reason: String::from_str("the reply envelope names no namespace"),
                },
            );
        },
    };
    let p = match find_exec(s, "<response") {
        Some(p) => p,
        None => {
            return Err(
                EPOSError::SerializeError {
                    reason: String::from_str("the reply holds no response element"),
                },
            );
        },
    };
    assert(p + 9 <= n);
    let rattrs = match parse_attrs_exec(s, p + 9) {
        Some(p) => p.0,
        None => {
            return Err(
                EPOSError::SerializeError {
                    reason: String::from_str("the reply response tag is malformed"),
                },
            );
        },
    };
    let ns = match assoc_exec(&rattrs, "xmlns") {
        Some(v) => v,
        None => {
            return Err(
                EPOSError::SerializeError {
                    reason: String::from_str("the response names no namespace"),
                },
            );
        },
    };
    let su = match assoc_exec(&rattrs, "success") {
        Some(v) => v,
        None => {
            return Err(
                EPOSError::SerializeError {
                    reason: String::from_str("the response carries no success attribute"),
                },
            );
        },
    };
    let code = match assoc_exec(&rattrs, "code") {
        Some(v) => v,
        None => {
            return Err(
                EPOSError::SerializeError {
                    reason: String::from_str("the response carries no code attribute"),
                },
            );
        },
    };
    let st = match assoc_exec(&rattrs, "status") {
        Some(v) => v,
        None => {
            return Err(
                EPOSError::SerializeError {
                    reason: String::from_str("the response carries no status attribute"),
                },
            );
        },
    };
    let ba = match assoc_exec(&rattrs, "battery") {
        Some(v) => v,
        None => {
            return Err(
                EPOSError::SerializeError {
                    reason: String::from_str("the response carries no battery attribute"),
                },
            );
        },
    };
    let success = if str_eq(su.as_str(), "true") || str_eq(su.as_str(), "1") {
        true
    } else if str_eq(su.as_str(), "false") || str_eq(su.as_str(), "0") {
        false
    } else {
        return Err(
            EPOSError::SerializeError {
                reason: String::from_str("the success attribute is not a boolean token"),
            },
        );
    };
    let status = match parse_u32(st.as_str()) {
        Some(v) => v,
        None => {
            return Err(
                EPOSError::SerializeError {
                    reason: String::from_str("the status attribute is not a 32-bit number"),
                },
            );
        },
    };
    let battery = match parse_u32(ba.as_str()) {
        Some(v) => v,
        None => {
            return Err(
                EPOSError::SerializeError {
                    reason: String::from_str("the battery attribute is not a 32-bit number"),
                },
            );
        },
    };
    Ok(
        SoapRespWrapper {
            ns: env_ns,
            body: ResponseBody {
                response: Response { ns, success, code, status, battery },
            },
        },
    )
}

impl Response {
    /// Turns the decoded reply into the dispatch outcome: a reply that
    /// reports success is returned as it is, one that reports failure
    /// becomes a `ResponseError` carrying the whole decoded reply.
    pub fn into_result(self) -> (r: Result<Response, EPOSError>)
        ensures
            self.success ==> r == Ok::<Response, EPOSError>(self),
            !self.success ==> r == Err::<Response, EPOSError>(
                EPOSError::ResponseError { status: self },
            ),
    {
        if self.success {
            Ok(self)
        } else {
            Err(EPOSError::ResponseError { status: self })
        }
    }
}

/// Parses the reply and judges it: an unreadable reply is a
/// `SerializeError`, a readable one that reports failure surfaces a
/// `ResponseError` carrying the decoded code and status, and a readable
/// success hands the decoded reply back.
pub fn handle_reply(s: &str) -> (r: Result<Response, EPOSError>)
    ensures
        reply_fields(s@) is None ==> (r matches Err(e) && e matches EPOSError::SerializeError {
            ..
        }),
        reply_fields(s@) matches Some(f) ==> (if f.2 {
            r matches Ok(resp) && resp.ns@ == f.1 && resp.success && resp.code@ == f.3
                && resp.status == f.4 && resp.battery == f.5
        } else {
            r matches Err(e) && (e matches EPOSError::ResponseError { status } && status.ns@
                == f.1 && !status.success && status.code@ == f.3 && status.status == f.4
                && status.battery == f.5)
        }),
{
    match parse_reply(s) {
        Ok(w) => w.body.response.into_result(),
        Err(e) => Err(e),
    }
}


/// Whether a sequence can stand inside a double-quoted attribute value
/// without altering the surrounding markup.
pub open spec fn attr_value_clean(v: Seq<char>) -> bool {
    forall|i: int| 0 <= i < v.len() ==> v[i] != '"' && v[i] != '<'
}

/// The canonical rendering of a reply envelope, as a device would send
/// it: the response element's attributes in catalog order, self-closed,
/// inside a bare SOAP body.
pub open spec fn reply_wire(
    env_ns: Seq<char>,
    ns: Seq<char>,
    success: bool,
    code: Seq<char>,
    status: u32,
    battery: u32,
) -> Seq<char> {
    "<s:Envelope"@ + crate::codec::attr("xmlns:s"@, env_ns) + ">"@ + "<s:Body>"@ + "<response"@
        + crate::codec::attr("xmlns"@, ns) + crate::codec::attr(
        "success"@,
        crate::codec::bool_wire(success),
    ) + crate::codec::attr("code"@, code) + crate::codec::attr(
        "status"@,
        crate::codec::dec_seq(status as nat),
    ) + crate::codec::attr("battery"@, crate::codec::dec_seq(battery as nat)) + "/>"@
        + "</s:Body></s:Envelope>"@
}

/// Renders a reply envelope for the given response, exactly as
/// `reply_wire` spells it.
pub fn render_reply(env_ns: &str, resp: &Response) -> (r: String)
    ensures
        r@ == reply_wire(env_ns@, resp.ns@, resp.success, resp.code@, resp.status, resp.battery),
{
    let mut out = String::from_str("<s:Envelope");
    crate::codec::push_attr(&mut out, "xmlns:s", env_ns);
    out.append(">");
    out.append("<s:Body>");
    out.append("<response");
    crate::codec::push_attr(&mut out, "xmlns", resp.ns.as_str());
    crate::codec::push_attr(&mut out, "success", crate::codec::bool_token(resp.success));
    crate::codec::push_attr(&mut out, "code", resp.code.as_str());
    let st = crate::codec::u32_dec(resp.status);
    crate::codec::push_attr(&mut out, "status", st.as_str());
    let ba = crate::codec::u32_dec(resp.battery);
    crate::codec::push_attr(&mut out, "battery", ba.as_str());
    out.append("/>");
    out.append("</s:Body></s:Envelope>");
    proof {
        assert(out@ =~= reply_wire(
            env_ns@,
            resp.ns@,
            resp.success,
            resp.code@,
            resp.status,
            resp.battery,
        ));
    }
    out
}

proof fn lemma_skip_ws_run(s: Seq<char>, i: int, k: int)
    requires
        0 <= i <= k <= s.len(),
        forall|t: int| i <= t < k ==> is_ws(#[trigger] s[t]),
        k == s.len() || !is_ws(s[k]),
    ensures
        skip_ws_from(s, i) == k,
    decreases k - i,
{
    if i < k {
        lemma_skip_ws_run(s, i + 1, k);
    }
}

proof fn lemma_scan_name_run(s: Seq<char>, i: int, k: int)
    requires
        0 <= i <= k <= s.len(),
        forall|t: int| i <= t < k ==> !name_delim(#[trigger] s[t]),
        k == s.len() || name_delim(s[k]),
    ensures
        scan_name_end(s, i) == k,
    decreases k - i,
{
    if i < k {
        lemma_scan_name_run(s, i + 1, k);
    }
}

proof fn lemma_scan_quote_run(s: Seq<char>, i: int, k: int)
    requires
        0 <= i <= k <= s.len(),
        forall|t: int| i <= t < k ==> #[trigger] s[t] != '"',
        k == s.len() || s[k] == '"',
    ensures
        scan_quote_end(s, i) == k,
    decreases k - i,
{
    if i < k {
        lemma_scan_quote_run(s, i + 1, k);
    }
}

proof fn lemma_find_skip(s: Seq<char>, pat: Seq<char>, a: int, b: int)
    requires
        0 <= a <= b <= s.len(),
        pat.len() > 0,
        forall|i: int| a <= i < b ==> !match_at(s, pat, i),
    ensures
        find_from(s, pat, a) == find_from(s, pat, b),
    decreases b - a,
{
    if a < b {
        lemma_find_skip(s, pat, a + 1, b);
    }
}

/// One attribute at position `i` of a tag: a single leading space, the
/// name, `="`, the value, `"`.  Parsing consumes it and goes on after
/// the closing quote.
proof fn lemma_parse_attr_step(s: Seq<char>, i: int, name: Seq<char>, val: Seq<char>)
    requires
        0 <= i,
        i + 4 + name.len() + val.len() <= s.len(),
        s[i] == ' ',
        name.len() > 0,
        s.subrange(i + 1, i + 1 + name.len()) == name,
        forall|t: int| 0 <= t < name.len() ==> !name_delim(#[trigger] name[t]) && !is_ws(name[t]),
        s[i + 1 + name.len()] == '=',
        s[i + 2 + name.len()] == '"',
        s.subrange(i + 3 + name.len(), i + 3 + name.len() + val.len()) == val,
        forall|t: int| 0 <= t < val.len() ==> #[trigger] val[t] != '"',
        s[i + 3 + name.len() + val.len()] == '"',
    ensures
        attrs_from(s, i) == (match attrs_from(s, i + 4 + name.len() + val.len()) {
            Some((rest, end)) => Some((seq![(name, val)] + rest, end)),
            None => None::<(Seq<(Seq<char>, Seq<char>)>, int)>,
        }),
{
    let j = i + 1;
    let k = i + 1 + name.len();
    let vstart = i + 3 + name.len();
    let q = vstart + val.len();
    let nxt = q + 1;
    assert(!is_ws(s[j])) by {
        assert(s[j] == name[0]);
    }
    lemma_skip_ws_run(s, i, j);
    assert forall|t: int| j <= t < k implies !name_delim(#[trigger] s[t]) by {
        assert(s[t] == s.subrange(i + 1, i + 1 + name.len())[t - (i + 1)]);
    }
    lemma_scan_name_run(s, j, k);
    assert forall|t: int| vstart <= t < q implies #[trigger] s[t] != '"' by {
        assert(s[t] == s.subrange(vstart, q)[t - vstart]);
    }
    lemma_scan_quote_run(s, vstart, q);
    assert(s[j] != '/' && s[j] != '>') by {
        assert(s[j] == name[0]);
    }
    assert(s.subrange(j, k) == name);
    assert(s.subrange(k + 2, q) == val);
    lemma_parse_attrs_fuel(s, nxt, (attrs_fuel(s, i) - 1) as nat, attrs_fuel(s, nxt));
}

/// A tag closed by `/>` right at `i` ends its attribute list there.
proof fn lemma_parse_attrs_close(s: Seq<char>, i: int)
    requires
        0 <= i,
        i + 2 <= s.len(),
        s[i] == '/',
        s[i + 1] == '>',
    ensures
        attrs_from(s, i) == Some((Seq::<(Seq<char>, Seq<char>)>::empty(), i + 2)),
{
    lemma_skip_ws_run(s, i, i);
}

/// A tag closed by `>` right at `i` ends its attribute list there.
proof fn lemma_parse_attrs_gt(s: Seq<char>, i: int)
    requires
        0 <= i,
        i < s.len(),
        s[i] == '>',
    ensures
        attrs_from(s, i) == Some((Seq::<(Seq<char>, Seq<char>)>::empty(), i + 1)),
{
    lemma_skip_ws_run(s, i, i);
}


/// Rendering a reply and parsing it back yields the same fields: the
/// round trip of the one direction in which parsing is defined.  The
/// free-form attribute values must be quotable (no `"` and no `<`),
/// which every reply a device renders satisfies.
#[verifier::rlimit(100)]
#[verifier::spinoff_prover]
pub proof fn lemma_reply_roundtrip(
    env_ns: Seq<char>,
    ns: Seq<char>,
    success: bool,
    code: Seq<char>,
    status: u32,
    battery: u32,
)
    requires
        attr_value_clean(env_ns),
        attr_value_clean(ns),
        attr_value_clean(code),
    ensures
        reply_fields(reply_wire(env_ns, ns, success, code, status, battery)) == Some(
            (env_ns, ns, success, code, status, battery),
        ),
{
    let s = reply_wire(env_ns, ns, success, code, status, battery);
    let e_len = env_ns.len() as int;
    let n_len = ns.len() as int;
    let c_len = code.len() as int;
    let bw = crate::codec::bool_wire(success);
    let st = crate::codec::dec_seq(status as nat);
    let ba = crate::codec::dec_seq(battery as nat);
    reveal_strlit("<s:Envelope");
    reveal_strlit("<response");
    reveal_strlit("<s:Body>");
    reveal_strlit("xmlns:s");
    reveal_strlit("xmlns");
    reveal_strlit("success");
    reveal_strlit("code");
    reveal_strlit("status");
    reveal_strlit("battery");
    reveal_strlit("true");
    reveal_strlit("false");
    reveal_strlit("1");
    reveal_strlit("0");
    reveal_strlit(" ");
    reveal_strlit("=\"");
    reveal_strlit("\"");
    reveal_strlit(">");
    reveal_strlit("/>");
    reveal_strlit("</s:Body></s:Envelope>");
    assert("<s:Envelope"@.len() == 11);
    assert("<response"@.len() == 9);
    assert("<s:Body>"@.len() == 8);
    assert("xmlns:s"@.len() == 7);
    assert("xmlns"@.len() == 5);
    assert("success"@.len() == 7);
    assert("code"@.len() == 4);
    assert("status"@.len() == 6);
    assert("battery"@.len() == 7);
    assert("true"@.len() == 4);
    assert("false"@.len() == 5);
    assert("1"@.len() == 1);
    assert("0"@.len() == 1);
    assert(" "@.len() == 1);
    assert("=\""@.len() == 2);
    assert("\""@.len() == 1);
    assert(">"@.len() == 1);
    assert("/>"@.len() == 2);
    assert("</s:Body></s:Envelope>"@.len() == 22);
    assert("success"@[0] == 's');
    assert("battery"@[0] == 'b');
    crate::codec::lemma_dec_seq_val(status as nat);
    crate::codec::lemma_dec_seq_val(battery as nat);
    let s_len = st.len() as int;
    let b_len = ba.len() as int;
    assert forall|t: int| 0 <= t < "xmlns:s"@.len() implies !name_delim(#[trigger] "xmlns:s"@[t])
        && !is_ws("xmlns:s"@[t]) by {
            if t == 0 {
                assert("xmlns:s"@[t] == 'x');
            } else if t == 1 {
                assert("xmlns:s"@[t] == 'm');
            } else if t == 2 {
                assert("xmlns:s"@[t] == 'l');
            } else if t == 3 {
                assert("xmlns:s"@[t] == 'n');
            } else if t == 4 {
                assert("xmlns:s"@[t] == 's');
            } else if t == 5 {
                assert("xmlns:s"@[t] == ':');
            } else if t == 6 {
                assert("xmlns:s"@[t] == 's');
            } else {
            }
    }
    assert forall|t: int| 0 <= t < "xmlns"@.len() implies !name_delim(#[trigger] "xmlns"@[t])
        && !is_ws("xmlns"@[t]) by {
            if t == 0 {
                assert("xmlns"@[t] == 'x');
            } else if t == 1 {
                assert("xmlns"@[t] == 'm');
            } else if t == 2 {
                assert("xmlns"@[t] == 'l');
            } else if t == 3 {
                assert("xmlns"@[t] == 'n');
            } else if t == 4 {
                assert("xmlns"@[t] == 's');
            } else {
            }
    }
    assert forall|t: int| 0 <= t < "success"@.len() implies !name_delim(#[trigger] "success"@[t])
        && !is_ws("success"@[t]) by {
            if t == 0 {
                assert("success"@[t] == 's');
            } else if t == 1 {
                assert("success"@[t] == 'u');
            } else if t == 2 {
                assert("success"@[t] == 'c');
            } else if t == 3 {
                assert("success"@[t] == 'c');
            } else if t == 4 {
                assert("success"@[t] == 'e');
            } else if t == 5 {
                assert("success"@[t] == 's');
            } else if t == 6 {
                assert("success"@[t] == 's');
            } else {
            }
    }
    assert forall|t: int| 0 <= t < "code"@.len() implies !name_delim(#[trigger] "code"@[t])
        && !is_ws("code"@[t]) by {
            if t == 0 {
                assert("code"@[t] == 'c');
            } else if t == 1 {
                assert("code"@[t] == 'o');
            } else if t == 2 {
                assert("code"@[t] == 'd');
            } else if t == 3 {
                assert("code"@[t] == 'e');
            } else {
            }
    }
    assert forall|t: int| 0 <= t < "status"@.len() implies !name_delim(#[trigger] "status"@[t])
        && !is_ws("status"@[t]) by {
            if t == 0 {
                assert("status"@[t] == 's');
            } else if t == 1 {
                assert("status"@[t] == 't');
            } else if t == 2 {
                assert("status"@[t] == 'a');
            } else if t == 3 {
                assert("status"@[t] == 't');
            } else if t == 4 {
                assert("status"@[t] == 'u');
            } else if t == 5 {
                assert("status"@[t] == 's');
            } else {
            }
    }
    assert forall|t: int| 0 <= t < "battery"@.len() implies !name_delim(#[trigger] "battery"@[t])
        && !is_ws("battery"@[t]) by {
            if t == 0 {
                assert("battery"@[t] == 'b');
            } else if t == 1 {
                assert("battery"@[t] == 'a');
            } else if t == 2 {
                assert("battery"@[t] == 't');
            } else if t == 3 {
                assert("battery"@[t] == 't');
            } else if t == 4 {
                assert("battery"@[t] == 'e');
            } else if t == 5 {
                assert("battery"@[t] == 'r');
            } else if t == 6 {
                assert("battery"@[t] == 'y');
            } else {
            }
    }

    assert forall|t: int| 0 <= t < bw.len() implies #[trigger] bw[t] != '"' by {
        if success {
            if t == 0 { assert(bw[t] == 't'); }
            else if t == 1 { assert(bw[t] == 'r'); }
            else if t == 2 { assert(bw[t] == 'u'); }
            else { assert(bw[t] == 'e'); }
        } else {
            if t == 0 { assert(bw[t] == 'f'); }
            else if t == 1 { assert(bw[t] == 'a'); }
            else if t == 2 { assert(bw[t] == 'l'); }
            else if t == 3 { assert(bw[t] == 's'); }
            else { assert(bw[t] == 'e'); }
        }
    }
    assert forall|t: int| 0 <= t < st.len() implies #[trigger] st[t] != '"' by {
        assert(crate::codec::is_digit(st[t]));
    }
    assert forall|t: int| 0 <= t < ba.len() implies #[trigger] ba[t] != '"' by {
        assert(crate::codec::is_digit(ba[t]));
    }
    // The fixed landmarks of the rendering.
    let a1 = 11;
    let p_gt = 22 + e_len;
    let rpos = 31 + e_len;
    let r_attrs = 40 + e_len;
    let i2 = r_attrs + 9 + n_len;
    let i3 = i2 + 11 + bw.len() as int;
    let i4 = i3 + 8 + c_len;
    let i5 = i4 + 10 + s_len;
    let i_close = i5 + 11 + b_len;
    assert(s.len() == i_close + 24);
    // The envelope element and its one attribute.
    assert(s.subrange(0, 11) =~= "<s:Envelope"@);
    assert(find_from(s, "<s:Envelope"@, 0) == Some(0int));
    assert(s[a1] == ' ');
    assert(s.subrange(a1 + 1, a1 + 8) =~= "xmlns:s"@);
    assert(s[a1 + 8] == '=');
    assert(s[a1 + 9] == '"');
    assert(s.subrange(a1 + 10, a1 + 10 + e_len) =~= env_ns);
    assert(s[a1 + 10 + e_len] == '"');
    lemma_parse_attr_step(s, a1, "xmlns:s"@, env_ns);
    assert(s[p_gt] == '>');
    lemma_parse_attrs_gt(s, p_gt);
    assert(seq![("xmlns:s"@, env_ns)] + Seq::<(Seq<char>, Seq<char>)>::empty()
        =~= seq![("xmlns:s"@, env_ns)]);
    assert(attrs_from(s, 11) == Some((seq![("xmlns:s"@, env_ns)], p_gt + 1)));
    assert(assoc(seq![("xmlns:s"@, env_ns)], "xmlns:s"@) == Some(env_ns));
    // No earlier occurrence of the response tag: every `<` before it is
    // followed by `s`.
    assert forall|i: int| 0 <= i < rpos && #[trigger] s[i] == '<' implies s[i + 1] == 's' by {
        if i < 11 {
            if i == 0 {
                assert(s[1] == 's');
            } else {
                if i == 1 {
                    assert(s[i] == 's');
                } else if i == 2 {
                    assert(s[i] == ':');
                } else if i == 3 {
                    assert(s[i] == 'E');
                } else if i == 4 {
                    assert(s[i] == 'n');
                } else if i == 5 {
                    assert(s[i] == 'v');
                } else if i == 6 {
                    assert(s[i] == 'e');
                } else if i == 7 {
                    assert(s[i] == 'l');
                } else if i == 8 {
                    assert(s[i] == 'o');
                } else if i == 9 {
                    assert(s[i] == 'p');
                } else if i == 10 {
                    assert(s[i] == 'e');
                }
                assert(s[i] != '<');
            }
        } else if i == 11 {
            assert(s[i] == ' ');
        } else if i < 19 {
            if i == 12 {
                assert(s[i] == 'x');
            } else if i == 13 {
                assert(s[i] == 'm');
            } else if i == 14 {
                assert(s[i] == 'l');
            } else if i == 15 {
                assert(s[i] == 'n');
            } else if i == 16 {
                assert(s[i] == 's');
            } else if i == 17 {
                assert(s[i] == ':');
            } else if i == 18 {
                assert(s[i] == 's');
            }
            assert(s[i] != '<');
        } else if i == 19 {
            assert(s[i] == '=');
        } else if i == 20 {
            assert(s[i] == '"');
        } else if i < 21 + e_len {
            assert(s[i] == env_ns[i - 21]);
            assert(s[i] != '<');
        } else if i == 21 + e_len {
            assert(s[i] == '"');
        } else if i == 22 + e_len {
            assert(s[i] == '>');
        } else {
            let o = i - (23 + e_len);
            if o == 0 {
                assert(s[i + 1] == "<s:Body>"@[1]);
            } else {
                if o == 1 {
                    assert(s[i] == 's');
                } else if o == 2 {
                    assert(s[i] == ':');
                } else if o == 3 {
                    assert(s[i] == 'B');
                } else if o == 4 {
                    assert(s[i] == 'o');
                } else if o == 5 {
                    assert(s[i] == 'd');
                } else if o == 6 {
                    assert(s[i] == 'y');
                } else if o == 7 {
                    assert(s[i] == '>');
                }
                assert(s[i] != '<');
            }
        }
    }
    assert("<response"@[0] == '<');
    assert("<response"@[1] == 'r');
    assert forall|i: int| 0 <= i < rpos implies !match_at(s, "<response"@, i) by {
        if match_at(s, "<response"@, i) {
            assert(s[i] == s.subrange(i, i + 9)[0]);
            assert(s[i + 1] == s.subrange(i, i + 9)[1]);
            assert(s[i] == '<' && s[i + 1] == 'r');
        }
    }
    lemma_find_skip(s, "<response"@, 0, rpos);
    assert(s.subrange(rpos, rpos + 9) =~= "<response"@);
    assert(find_from(s, "<response"@, rpos) == Some(rpos));
    // The five response attributes, in catalog order, then the
    // self-closing of the tag.
    assert(s[r_attrs] == ' ');
    assert(s.subrange(r_attrs + 1, r_attrs + 6) =~= "xmlns"@);
    assert(s[r_attrs + 6] == '=');
    assert(s[r_attrs + 7] == '"');
    assert(s.subrange(r_attrs + 8, r_attrs + 8 + n_len) =~= ns);
    assert(s[r_attrs + 8 + n_len] == '"');
    lemma_parse_attr_step(s, r_attrs, "xmlns"@, ns);
    assert(s[i2] == ' ');
    assert(s.subrange(i2 + 1, i2 + 8) =~= "success"@);
    assert(s[i2 + 8] == '=');
    assert(s[i2 + 9] == '"');
    assert(s.subrange(i2 + 10, i2 + 10 + bw.len()) =~= bw);
    assert(s[i2 + 10 + bw.len()] == '"');
    lemma_parse_attr_step(s, i2, "success"@, bw);
    assert(s[i3] == ' ');
    assert(s.subrange(i3 + 1, i3 + 5) =~= "code"@);
    assert(s[i3 + 5] == '=');
    assert(s[i3 + 6] == '"');
    assert(s.subrange(i3 + 7, i3 + 7 + c_len) =~= code);
    assert(s[i3 + 7 + c_len] == '"');
    lemma_parse_attr_step(s, i3, "code"@, code);
    assert(s[i4] == ' ');
    assert(s.subrange(i4 + 1, i4 + 7) =~= "status"@);
    assert(s[i4 + 7] == '=');
    assert(s[i4 + 8] == '"');
    assert(s.subrange(i4 + 9, i4 + 9 + s_len) =~= st);
    assert(s[i4 + 9 + s_len] == '"');
    lemma_parse_attr_step(s, i4, "status"@, st);
    assert(s[i5] == ' ');
    assert(s.subrange(i5 + 1, i5 + 8) =~= "battery"@);
    assert(s[i5 + 8] == '=');
    assert(s[i5 + 9] == '"');
    assert(s.subrange(i5 + 10, i5 + 10 + b_len) =~= ba);
    assert(s[i5 + 10 + b_len] == '"');
    lemma_parse_attr_step(s, i5, "battery"@, ba);
    assert(s[i_close] == '/');
    assert(s[i_close + 1] == '>');
    lemma_parse_attrs_close(s, i_close);
    let rattrs = seq![
        ("xmlns"@, ns),
        ("success"@, bw),
        ("code"@, code),
        ("status"@, st),
        ("battery"@, ba),
    ];
    assert(seq![("xmlns"@, ns)] + (seq![("success"@, bw)] + (seq![("code"@, code)] + (seq![
        ("status"@, st),
    ] + (seq![("battery"@, ba)] + Seq::<(Seq<char>, Seq<char>)>::empty())))) =~= rattrs);
    assert(attrs_from(s, r_attrs) == Some((rattrs, i_close + 2)));
    // Looking the five attributes up, in any order.
    assert(assoc_from(rattrs, "success"@, 1) == Some(bw));
    assert(assoc_from(rattrs, "success"@, 0) == assoc_from(rattrs, "success"@, 1));
    assert(assoc_from(rattrs, "code"@, 2) == Some(code));
    assert(assoc_from(rattrs, "code"@, 1) == assoc_from(rattrs, "code"@, 2));
    assert(assoc_from(rattrs, "code"@, 0) == assoc_from(rattrs, "code"@, 1));
    assert(assoc_from(rattrs, "status"@, 3) == Some(st));
    assert(assoc_from(rattrs, "status"@, 2) == assoc_from(rattrs, "status"@, 3));
    assert(assoc_from(rattrs, "status"@, 1) == assoc_from(rattrs, "status"@, 2));
    assert(assoc_from(rattrs, "status"@, 0) == assoc_from(rattrs, "status"@, 1));
    assert(assoc_from(rattrs, "battery"@, 4) == Some(ba));
    assert(assoc_from(rattrs, "battery"@, 3) == assoc_from(rattrs, "battery"@, 4));
    assert(assoc_from(rattrs, "battery"@, 2) == assoc_from(rattrs, "battery"@, 3));
    assert(assoc_from(rattrs, "battery"@, 1) == assoc_from(rattrs, "battery"@, 2));
    assert(assoc_from(rattrs, "battery"@, 0) == assoc_from(rattrs, "battery"@, 1));
    assert(assoc(rattrs, "xmlns"@) == Some(ns));
    assert(assoc(rattrs, "success"@) == Some(bw));
    assert(assoc(rattrs, "code"@) == Some(code));
    assert(assoc(rattrs, "status"@) == Some(st));
    assert(assoc(rattrs, "battery"@) == Some(ba));
    assert(bool_of_token(bw) == Some(success));
    assert(u32_of_token(st) == Some(status));
    assert(u32_of_token(ba) == Some(battery));
}


/// The envelope adds no escaping of its own: whatever body a document
/// hands over appears in the complete request byte for byte, inserted
/// exactly once between a fixed prefix and a fixed suffix.  Together
/// with `crate::codec::lemma_esc_plain`, a payload without XML-special
/// characters — the `{`-escape pairs of the barcode symbologies
/// included — reaches the device verbatim, escaped exactly once and
/// unescaped by nothing.
pub proof fn lemma_request_carries_body_verbatim(m: Mode, body: Seq<char>)
    requires
        body.len() > 0,
    ensures
        exists|pre: Seq<char>, post: Seq<char>|
            request_wire(m, body) == #[trigger] (pre + body + post),
{
    match m {
        Mode::Normal => {
            let pre = "<s:Envelope xmlns:s=\""@ + soap_env_ns() + "\""@ + ">"@
                + "<s:Body xmlns=\""@ + epos_print_ns() + "\">"@ + "<epos-print>"@;
            let post = "</epos-print>"@ + "</s:Body>"@ + "</s:Envelope>"@;
            assert(request_wire(m, body) =~= pre + body + post);
        },
        Mode::Page => {
            let pre = "<s:Envelope xmlns:s=\""@ + soap_env_ns() + "\""@ + ">"@
                + "<s:Body xmlns=\""@ + epos_print_ns() + "\">"@ + "<epos-print>"@
                + "<page>"@;
            let post = "</page>"@ + "</epos-print>"@ + "</s:Body>"@ + "</s:Envelope>"@;
            assert(request_wire(m, body) =~= pre + body + post);
        },
    }
}

} // verus!
