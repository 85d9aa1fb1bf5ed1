//! Low-level wire codec helpers: decimal rendering and parsing of numeric
//! attribute values, XML escaping of element text, and the attribute
//! syntax shared by every rendered command.
//!
//! Escaping happens exactly once, when a command is rendered; envelope
//! assembly inserts rendered fragments verbatim.  Characters that are not
//! structurally significant to XML (in particular the `{`-escape pairs of
//! the barcode symbologies and `\xNN` binary escapes) pass through
//! unchanged.

use vstd::prelude::*;
use vstd::string::*;

verus! {

broadcast use vstd::string::group_string_axioms;

/// The decimal digit character for a value below ten.
pub open spec fn dec_digit(d: nat) -> char {
    if d == 0 { '0' }
    else if d == 1 { '1' }
    else if d == 2 { '2' }
    else if d == 3 { '3' }
    else if d == 4 { '4' }
    else if d == 5 { '5' }
    else if d == 6 { '6' }
    else if d == 7 { '7' }
    else if d == 8 { '8' }
    else { '9' }
}

/// Canonical decimal rendering of a natural number: no sign, no leading
/// zeros (except the single digit of zero itself).
pub open spec fn dec_seq(n: nat) -> Seq<char>
    decreases n,
{
    if n < 10 {
        seq![dec_digit(n)]
    } else {
        dec_seq(n / 10).push(dec_digit(n % 10))
    }
}

/// Decimal rendering of a signed value: a leading minus for negatives.
pub open spec fn dec_seq_i(n: int) -> Seq<char> {
    if n < 0 {
        seq!['-'] + dec_seq((-n) as nat)
    } else {
        dec_seq(n as nat)
    }
}

fn digit_str(d: u32) -> (r: &'static str)
    requires
        d < 10,
    ensures
        r@ == seq![dec_digit(d as nat)],
{
    proof {
        reveal_strlit("0");
        reveal_strlit("1");
        reveal_strlit("2");
        reveal_strlit("3");
        reveal_strlit("4");
        reveal_strlit("5");
        reveal_strlit("6");
        reveal_strlit("7");
        reveal_strlit("8");
        reveal_strlit("9");
    }
    let r: &'static str = if d == 0 { "0" }
    else if d == 1 { "1" }
    else if d == 2 { "2" }
    else if d == 3 { "3" }
    else if d == 4 { "4" }
    else if d == 5 { "5" }
    else if d == 6 { "6" }
    else if d == 7 { "7" }
    else if d == 8 { "8" }
    else { "9" };
    proof {
        assert(r@ =~= seq![dec_digit(d as nat)]);
    }
    r
}

/// Renders an unsigned value in decimal.
pub fn u32_dec(n: u32) -> (r: String)
    ensures
        r@ == dec_seq(n as nat),
    decreases n,
{
    if n < 10 {
        String::from_str(digit_str(n))
    } else {
        let mut r = u32_dec(n / 10);
        r.append(digit_str(n % 10));
        proof {
            assert(r@ =~= dec_seq(n as nat));
        }
        r
    }
}

/// Renders a signed value in decimal.
pub fn i32_dec(n: i32) -> (r: String)
    ensures
        r@ == dec_seq_i(n as int),
{
    if n < 0 {
        let m: u32 = (-(n as i64)) as u32;
        let mut r = String::from_str("-");
        r.append(u32_dec(m).as_str());
        proof {
            reveal_strlit("-");
            assert(r@ =~= dec_seq_i(n as int));
        }
        r
    } else {
        u32_dec(n as u32)
    }
}

/// Whether the character is a decimal digit.
pub open spec fn is_digit(c: char) -> bool {
    48 <= c as int <= 57
}

/// The numeric value of a digit character.
pub open spec fn digit_val(c: char) -> nat {
    (c as int - 48) as nat
}

/// Whether every character of the sequence is a decimal digit.
pub open spec fn all_digits(s: Seq<char>) -> bool {
    forall|i: int| 0 <= i < s.len() ==> is_digit(#[trigger] s[i])
}

/// The numeric value of a digit string, most significant digit first.
pub open spec fn dec_val(s: Seq<char>) -> nat
    decreases s.len(),
{
    if s.len() == 0 {
        0
    } else {
        dec_val(s.drop_last()) * 10 + digit_val(s.last())
    }
}

proof fn lemma_dec_val_snoc(s: Seq<char>, i: int)
    requires
        0 <= i < s.len(),
    ensures
        dec_val(s.subrange(0, i + 1)) == dec_val(s.subrange(0, i)) * 10 + digit_val(s[i]),
{
    assert(s.subrange(0, i + 1).drop_last() =~= s.subrange(0, i));
    assert(s.subrange(0, i + 1).last() == s[i]);
}

proof fn lemma_dec_val_extend(s: Seq<char>, i: int)
    requires
        0 <= i <= s.len(),
    ensures
        dec_val(s) >= dec_val(s.subrange(0, i)),
    decreases s.len() - i,
{
    if i == s.len() {
        assert(s.subrange(0, i) =~= s);
    } else {
        lemma_dec_val_snoc(s, i);
        lemma_dec_val_extend(s, i + 1);
    }
}

/// The value rendered by `dec_seq` parses back to itself, and the
/// rendering consists of digits only.
pub proof fn lemma_dec_seq_val(n: nat)
    ensures
        all_digits(dec_seq(n)),
        dec_val(dec_seq(n)) == n,
        dec_seq(n).len() >= 1,
    decreases n,
{
    if n < 10 {
        assert(dec_seq(n).drop_last() =~= Seq::<char>::empty());
        assert(dec_seq(n)[0] == dec_digit(n));
        assert(dec_seq(n).last() == dec_digit(n));
        assert(dec_val(Seq::<char>::empty()) == 0);
    } else {
        lemma_dec_seq_val(n / 10);
        assert(dec_seq(n).drop_last() =~= dec_seq(n / 10));
        assert(dec_seq(n).last() == dec_digit(n % 10));
        assert forall|i: int| 0 <= i < dec_seq(n).len() implies is_digit(
            #[trigger] dec_seq(n)[i],
        ) by {
            if i < dec_seq(n / 10).len() {
                assert(dec_seq(n)[i] == dec_seq(n / 10)[i]);
            } else {
                assert(dec_seq(n)[i] == dec_digit(n % 10));
            }
        }
        assert(n / 10 * 10 + n % 10 == n) by {
            vstd::arithmetic::div_mod::lemma_fundamental_div_mod(n as int, 10);
        }
    }
}

/// Parses a non-empty all-digit string as a 32-bit value.  Returns the
/// value exactly when the string is a digit string whose value fits.
pub fn parse_u32(s: &str) -> (r: Option<u32>)
    ensures
        r is Some <==> s@.len() > 0 && all_digits(s@) && dec_val(s@) <= u32::MAX,
        r is Some ==> r->0 as nat == dec_val(s@),
{
    let n = s.unicode_len();
    if n == 0 {
        return None;
    }
    let mut acc: u32 = 0;
    let mut i: usize = 0;
    while i < n
        invariant
            0 <= i <= n,
            n == s@.len(),
            all_digits(s@.subrange(0, i as int)),
            acc as nat == dec_val(s@.subrange(0, i as int)),
        decreases n - i,
    {
        let c = s.get_char(i);
        let cv = c as u32;
        if cv < 48 || cv > 57 {
            assert(!is_digit(s@[i as int]));
            return None;
        }
        let d: u32 = cv - 48;
        proof {
            lemma_dec_val_snoc(s@, i as int);
        }
        if acc > (u32::MAX - d) / 10 {
            proof {
                assert(dec_val(s@.subrange(0, i as int + 1)) > u32::MAX);
                lemma_dec_val_extend(s@, i as int + 1);
            }
            return None;
        }
        acc = acc * 10 + d;
        i += 1;
    }
    proof {
        assert(s@.subrange(0, n as int) =~= s@);
    }
    Some(acc)
}

/// Whether the character is structurally significant to XML and must be
/// entity-escaped inside element text or an attribute value.
pub open spec fn is_xml_special(c: char) -> bool {
    c == '<' || c == '>' || c == '&' || c == '\'' || c == '"'
}

/// The escaped form of one character.
pub open spec fn esc_char(c: char) -> Seq<char> {
    if c == '<' { "&lt;"@ }
    else if c == '>' { "&gt;"@ }
    else if c == '&' { "&amp;"@ }
    else if c == '\'' { "&apos;"@ }
    else if c == '"' { "&quot;"@ }
    else { seq![c] }
}

/// XML entity escaping of a whole sequence, each character independently.
pub open spec fn esc(s: Seq<char>) -> Seq<char>
    decreases s.len(),
{
    if s.len() == 0 {
        Seq::empty()
    } else {
        esc_char(s[0]) + esc(s.drop_first())
    }
}

proof fn lemma_esc_snoc(s: Seq<char>, c: char)
    ensures
        esc(s.push(c)) == esc(s) + esc_char(c),
    decreases s.len(),
{
    if s.len() == 0 {
        assert(s.push(c).drop_first() =~= Seq::<char>::empty());
        assert(s.push(c)[0] == c);
        assert(esc(Seq::<char>::empty()) =~= Seq::<char>::empty());
        assert(esc(s.push(c)) =~= esc(s) + esc_char(c));
    } else {
        assert(s.push(c).drop_first() =~= s.drop_first().push(c));
        lemma_esc_snoc(s.drop_first(), c);
        assert(esc(s.push(c)) =~= esc(s) + esc_char(c));
    }
}

/// Escaping leaves a sequence without XML-special characters unchanged;
/// in particular the `{`-escape pairs of the barcode symbologies are
/// transmitted verbatim, exactly once.
pub proof fn lemma_esc_plain(s: Seq<char>)
    requires
        forall|i: int| 0 <= i < s.len() ==> !is_xml_special(#[trigger] s[i]),
    ensures
        esc(s) == s,
    decreases s.len(),
{
    if s.len() == 0 {
        assert(esc(s) =~= s);
    } else {
        lemma_esc_plain(s.drop_first());
        assert(esc(s) =~= s);
    }
}

/// Escapes the XML-special characters of `s`, leaving everything else
/// (control sequences included) exactly as given.
pub fn escape_text(s: &str) -> (r: String)
    ensures
        r@ == esc(s@),
{
    let n = s.unicode_len();
    let mut out = String::new();
    let mut i: usize = 0;
    while i < n
        invariant
            0 <= i <= n,
            n == s@.len(),
            out@ == esc(s@.subrange(0, i as int)),
        decreases n - i,
    {
        let c = s.get_char(i);
        if c == '<' {
            out.append("&lt;");
        } else if c == '>' {
            out.append("&gt;");
        } else if c == '&' {
            out.append("&amp;");
        } else if c == '\'' {
            out.append("&apos;");
        } else if c == '"' {
            out.append("&quot;");
        } else {
            out.append(s.substring_char(i, i + 1));
            proof {
                assert(s@.subrange(i as int, i as int + 1) =~= seq![s@[i as int]]);
            }
        }
        proof {
            lemma_esc_snoc(s@.subrange(0, i as int), s@[i as int]);
            assert(s@.subrange(0, i as int).push(s@[i as int]) =~= s@.subrange(
                0,
                i as int + 1,
            ));
        }
        i += 1;
    }
    proof {
        assert(s@.subrange(0, n as int) =~= s@);
    }
    out
}

/// Compares two string slices character by character.
pub fn str_eq(a: &str, b: &str) -> (r: bool)
    ensures
        r == (a@ == b@),
{
    let an = a.unicode_len();
    let bn = b.unicode_len();
    if an != bn {
        return false;
    }
    let mut i: usize = 0;
    while i < an
        invariant
            0 <= i <= an,
            an == a@.len(),
            bn == b@.len(),
            an == bn,
            forall|j: int| 0 <= j < i ==> a@[j] == b@[j],
        decreases an - i,
    {
        if a.get_char(i) != b.get_char(i) {
            return false;
        }
        i += 1;
    }
    proof {
        assert(a@ =~= b@);
    }
    true
}

/// One rendered XML attribute: a space, the name, `="`, the value, `"`.
pub open spec fn attr(name: Seq<char>, val: Seq<char>) -> Seq<char> {
    " "@ + name + "=\""@ + val + "\""@
}

/// Appends ` name="val"` to the output.
pub fn push_attr(out: &mut String, name: &str, val: &str)
    ensures
        final(out)@ == old(out)@ + attr(name@, val@),
{
    out.append(" ");
    out.append(name);
    out.append("=\"");
    out.append(val);
    out.append("\"");
    proof {
        assert(final(out)@ =~= old(out)@ + attr(name@, val@));
    }
}

/// A print command that renders to one self-delimiting XML wire
/// fragment.  A rendered fragment is immutable once produced; documents
/// concatenate fragments in append order.
pub trait WireItem {
    /// The exact wire fragment the command renders to.
    spec fn wire(&self) -> Seq<char>;

    /// The numeric and payload rules the device dictates for the
    /// command; `true` for a kind that has none.
    spec fn valid(&self) -> bool;

    /// Renders the command to its wire fragment.
    fn render(&self) -> (r: String)
        ensures
            r@ == self.wire(),
    ;

    /// Checks the command against the device's rules.
    fn validate(&self) -> (r: bool)
        ensures
            r == self.valid(),
    ;
}

/// The wire spelling of a boolean attribute value.
pub open spec fn bool_wire(b: bool) -> Seq<char> {
    if b { "true"@ } else { "false"@ }
}

/// Renders a boolean attribute value.
pub fn bool_token(b: bool) -> (r: &'static str)
    ensures
        r@ == bool_wire(b),
{
    if b { "true" } else { "false" }
}

/// Checks that every character of `t` is a decimal digit.
pub fn check_digits(t: &str) -> (r: bool)
    ensures
        r == all_digits(t@),
{
    let n = t.unicode_len();
    let mut i: usize = 0;
    while i < n
        invariant
            0 <= i <= n,
            n == t@.len(),
            forall|j: int| 0 <= j < i ==> is_digit(#[trigger] t@[j]),
        decreases n - i,
    {
        let c = t.get_char(i);
        let cv = c as u32;
        if cv < 48 || cv > 57 {
            assert(!is_digit(t@[i as int]));
            return false;
        }
        i += 1;
    }
    true
}

/// The rendered element content and closing of a command: an empty
/// payload closes the tag in place, anything else is escaped once and
/// followed by the closing tag.
pub open spec fn content_wire(t: Seq<char>, close: Seq<char>) -> Seq<char> {
    if t.len() == 0 {
        "/>"@
    } else {
        ">"@ + esc(t) + close
    }
}

/// Closes a command tag around its escaped text content.
pub fn push_content(out: &mut String, text: &str, close: &str)
    ensures
        final(out)@ == old(out)@ + content_wire(text@, close@),
{
    if text.is_empty() {
        out.append("/>");
    } else {
        out.append(">");
        let et = escape_text(text);
        out.append(et.as_str());
        out.append(close);
        proof {
            assert(final(out)@ =~= old(out)@ + content_wire(text@, close@));
        }
    }
}

/// Rendered fragments joined by single newlines, in order.
pub open spec fn join_nl(frags: Seq<Seq<char>>) -> Seq<char>
    decreases frags.len(),
{
    if frags.len() == 0 {
        Seq::empty()
    } else if frags.len() == 1 {
        frags[0]
    } else {
        join_nl(frags.drop_last()) + "\n"@ + frags.last()
    }
}

/// Joins already-rendered fragments with newline separators.
pub fn join_fragments(frags: &Vec<String>) -> (r: String)
    ensures
        r@ == join_nl(frags.deep_view()),
{
    let mut out = String::new();
    let mut i: usize = 0;
    while i < frags.len()
        invariant
            0 <= i <= frags@.len(),
            out@ == join_nl(frags.deep_view().subrange(0, i as int)),
        decreases frags@.len() - i,
    {
        if i > 0 {
            out.append("\n");
        }
        out.append(frags[i].as_str());
        proof {
            let dv = frags.deep_view();
            assert(dv.subrange(0, i as int + 1).drop_last() =~= dv.subrange(0, i as int));
            assert(dv.subrange(0, i as int + 1).last() == dv[i as int]);
            if i == 0 {
                assert(out@ =~= join_nl(dv.subrange(0, i as int + 1)));
            } else {
                assert(out@ =~= join_nl(dv.subrange(0, i as int + 1)));
            }
        }
        i += 1;
    }
    proof {
        assert(frags.deep_view().subrange(0, frags.deep_view().len() as int)
            =~= frags.deep_view());
    }
    out
}

} // verus!
