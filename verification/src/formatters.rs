//! Catalog types for formatting text and layout objects.  Each is a
//! closed enumeration with a fixed vendor wire spelling per variant;
//! `Lang` additionally admits a caller-supplied free-form token.

use vstd::prelude::*;

use crate::codec::str_eq;

verus! {

broadcast use vstd::string::group_string_axioms;

/// Alignment of an element.
#[derive(Clone, Copy, Debug, PartialEq, Eq, Structural)]
pub enum Align {
    Left,
    Center,
    Right,
}

impl Align {
    /// The vendor wire token of the variant.
    pub open spec fn wire(self) -> Seq<char> {
        match self {
            Align::Left => "left"@,
            Align::Center => "center"@,
            Align::Right => "right"@,
        }
    }

    /// Renders the exact token spelled on the wire.
    pub fn token(&self) -> (r: &'static str)
        ensures
            r@ == self.wire(),
    {
        match self {
            Align::Left => "left",
            Align::Center => "center",
            Align::Right => "right",
        }
    }

    /// The variant a token decodes to, if any.
    pub open spec fn of_token(t: Seq<char>) -> Option<Align> {
        if t == "left"@ { Some(Align::Left) }
        else if t == "center"@ { Some(Align::Center) }
        else if t == "right"@ { Some(Align::Right) }
        else { None }
    }

    /// Decodes a wire token; unknown tokens decode to nothing.
    pub fn from_token(t: &str) -> (r: Option<Align>)
        ensures
            r == Align::of_token(t@),
    {
        if str_eq(t, "left") { Some(Align::Left) }
        else if str_eq(t, "center") { Some(Align::Center) }
        else if str_eq(t, "right") { Some(Align::Right) }
        else { None }
    }
}

/// Every alignment token decodes back to the variant that produced it.
pub proof fn lemma_align_token_roundtrip(v: Align)
    ensures
        Align::of_token(v.wire()) == Some(v),
{
    reveal_strlit("left");
    reveal_strlit("center");
    reveal_strlit("right");
    assert("left"@.len() == 4);
    assert("center"@.len() == 6);
    assert("right"@.len() == 5);
}

/// Label-paper feed position settings.
#[derive(Clone, Copy, Debug, PartialEq, Eq, Structural)]
pub enum FeedPos {
    /// Feed to the peeling position.
    Peeling,
    /// Feed to the cutting position.
    Cutting,
    /// Feed to the head position of the current label.
    CurrentTof,
    /// Feed to the head position of the next label.
    NextTof,
}

impl FeedPos {
    /// The vendor wire token of the variant.
    pub open spec fn wire(self) -> Seq<char> {
        match self {
            FeedPos::Peeling => "peeling"@,
            FeedPos::Cutting => "cutting"@,
            FeedPos::CurrentTof => "current_tof"@,
            FeedPos::NextTof => "next_tof"@,
        }
    }

    /// Renders the exact token spelled on the wire.
    pub fn token(&self) -> (r: &'static str)
        ensures
            r@ == self.wire(),
    {
        match self {
            FeedPos::Peeling => "peeling",
            FeedPos::Cutting => "cutting",
            FeedPos::CurrentTof => "current_tof",
            FeedPos::NextTof => "next_tof",
        }
    }

    /// The variant a token decodes to, if any.
    pub open spec fn of_token(t: Seq<char>) -> Option<FeedPos> {
        if t == "peeling"@ { Some(FeedPos::Peeling) }
        else if t == "cutting"@ { Some(FeedPos::Cutting) }
        else if t == "current_tof"@ { Some(FeedPos::CurrentTof) }
        else if t == "next_tof"@ { Some(FeedPos::NextTof) }
        else { None }
    }

    /// Decodes a wire token; unknown tokens decode to nothing.
    pub fn from_token(t: &str) -> (r: Option<FeedPos>)
        ensures
            r == FeedPos::of_token(t@),
    {
        if str_eq(t, "peeling") { Some(FeedPos::Peeling) }
        else if str_eq(t, "cutting") { Some(FeedPos::Cutting) }
        else if str_eq(t, "current_tof") { Some(FeedPos::CurrentTof) }
        else if str_eq(t, "next_tof") { Some(FeedPos::NextTof) }
        else { None }
    }
}

/// Every feed-position token decodes back to the variant that produced it.
pub proof fn lemma_feed_pos_token_roundtrip(v: FeedPos)
    ensures
        FeedPos::of_token(v.wire()) == Some(v),
{
    reveal_strlit("peeling");
    reveal_strlit("cutting");
    reveal_strlit("current_tof");
    reveal_strlit("next_tof");
    assert("peeling"@.len() == 7);
    assert("cutting"@.len() == 7);
    assert("current_tof"@.len() == 11);
    assert("next_tof"@.len() == 8);
    assert("peeling"@[0] == 'p');
    assert("cutting"@[0] == 'c');
}

/// The kind of paper cut to perform.
#[derive(Clone, Copy, Debug, PartialEq, Eq, Structural)]
pub enum CutType {
    /// Cut without feeding.
    NoFeed,
    /// Feed, then cut.
    Feed,
    /// Print until the cut position.
    Reserve,
}

impl CutType {
    /// The vendor wire token of the variant.
    pub open spec fn wire(self) -> Seq<char> {
        match self {
            CutType::NoFeed => "no_feed"@,
            CutType::Feed => "feed"@,
            CutType::Reserve => "reserve"@,
        }
    }

    /// Renders the exact token spelled on the wire.
    pub fn token(&self) -> (r: &'static str)
        ensures
            r@ == self.wire(),
    {
        match self {
            CutType::NoFeed => "no_feed",
            CutType::Feed => "feed",
            CutType::Reserve => "reserve",
        }
    }

    /// The variant a token decodes to, if any.
    pub open spec fn of_token(t: Seq<char>) -> Option<CutType> {
        if t == "no_feed"@ { Some(CutType::NoFeed) }
        else if t == "feed"@ { Some(CutType::Feed) }
        else if t == "reserve"@ { Some(CutType::Reserve) }
        else { None }
    }

    /// Decodes a wire token; unknown tokens decode to nothing.
    pub fn from_token(t: &str) -> (r: Option<CutType>)
        ensures
            r == CutType::of_token(t@),
    {
        if str_eq(t, "no_feed") { Some(CutType::NoFeed) }
        else if str_eq(t, "feed") { Some(CutType::Feed) }
        else if str_eq(t, "reserve") { Some(CutType::Reserve) }
        else { None }
    }
}

/// Every cut-type token decodes back to the variant that produced it.
pub proof fn lemma_cut_type_token_roundtrip(v: CutType)
    ensures
        CutType::of_token(v.wire()) == Some(v),
{
    reveal_strlit("no_feed");
    reveal_strlit("feed");
    reveal_strlit("reserve");
    assert("no_feed"@.len() == 7);
    assert("feed"@.len() == 4);
    assert("reserve"@.len() == 7);
    assert("no_feed"@[0] == 'n');
    assert("reserve"@[0] == 'r');
}

/// The language of a text line.  `Other` carries a free-form token for
/// locales the catalog does not spell out; it is rendered as given.
#[derive(Clone, Debug)]
pub enum Lang {
    De,
    Fr,
    En,
    It,
    Es,
    Ja,
    JaJp,
    Ko,
    KoKr,
    ZhHans,
    ZhCn,
    ZhHant,
    ZhTw,
    Other(String),
}

impl Lang {
    /// The vendor wire token of the variant; the fallback renders its
    /// own token.
    pub open spec fn wire(self) -> Seq<char> {
        match self {
            Lang::De => "de"@,
            Lang::Fr => "fr"@,
            Lang::En => "en"@,
            Lang::It => "it"@,
            Lang::Es => "es"@,
            Lang::Ja => "ja"@,
            Lang::JaJp => "ja-jp"@,
            Lang::Ko => "ko"@,
            Lang::KoKr => "ko-kr"@,
            Lang::ZhHans => "zh-hans"@,
            Lang::ZhCn => "zh-cn"@,
            Lang::ZhHant => "zh-hant"@,
            Lang::ZhTw => "zh-tw"@,
            Lang::Other(s) => s@,
        }
    }

    /// Renders the exact token spelled on the wire.
    pub fn token(&self) -> (r: String)
        ensures
            r@ == self.wire(),
    {
        match self {
            Lang::De => String::from_str("de"),
            Lang::Fr => String::from_str("fr"),
            Lang::En => String::from_str("en"),
            Lang::It => String::from_str("it"),
            Lang::Es => String::from_str("es"),
            Lang::Ja => String::from_str("ja"),
            Lang::JaJp => String::from_str("ja-jp"),
            Lang::Ko => String::from_str("ko"),
            Lang::KoKr => String::from_str("ko-kr"),
            Lang::ZhHans => String::from_str("zh-hans"),
            Lang::ZhCn => String::from_str("zh-cn"),
            Lang::ZhHant => String::from_str("zh-hant"),
            Lang::ZhTw => String::from_str("zh-tw"),
            Lang::Other(s) => s.clone(),
        }
    }

    /// The closed variant a token decodes to, if it names one.
    pub open spec fn known_of_token(t: Seq<char>) -> Option<Lang> {
        if t == "de"@ { Some(Lang::De) }
        else if t == "fr"@ { Some(Lang::Fr) }
        else if t == "en"@ { Some(Lang::En) }
        else if t == "it"@ { Some(Lang::It) }
        else if t == "es"@ { Some(Lang::Es) }
        else if t == "ja"@ { Some(Lang::Ja) }
        else if t == "ja-jp"@ { Some(Lang::JaJp) }
        else if t == "ko"@ { Some(Lang::Ko) }
        else if t == "ko-kr"@ { Some(Lang::KoKr) }
        else if t == "zh-hans"@ { Some(Lang::ZhHans) }
        else if t == "zh-cn"@ { Some(Lang::ZhCn) }
        else if t == "zh-hant"@ { Some(Lang::ZhHant) }
        else if t == "zh-tw"@ { Some(Lang::ZhTw) }
        else { None }
    }

    /// Decodes a wire token.  A token outside the catalog is preserved in
    /// the fallback variant, never discarded; the decoded value always
    /// renders back to the given token.
    pub fn from_token(t: &str) -> (r: Lang)
        ensures
            Lang::known_of_token(t@) is Some ==> r == Lang::known_of_token(t@)->0,
            Lang::known_of_token(t@) is None ==> (r matches Lang::Other(s) && s@ == t@),
            r.wire() == t@,
    {
        if str_eq(t, "de") { Lang::De }
        else if str_eq(t, "fr") { Lang::Fr }
        else if str_eq(t, "en") { Lang::En }
        else if str_eq(t, "it") { Lang::It }
        else if str_eq(t, "es") { Lang::Es }
        else if str_eq(t, "ja") { Lang::Ja }
        else if str_eq(t, "ja-jp") { Lang::JaJp }
        else if str_eq(t, "ko") { Lang::Ko }
        else if str_eq(t, "ko-kr") { Lang::KoKr }
        else if str_eq(t, "zh-hans") { Lang::ZhHans }
        else if str_eq(t, "zh-cn") { Lang::ZhCn }
        else if str_eq(t, "zh-hant") { Lang::ZhHant }
        else if str_eq(t, "zh-tw") { Lang::ZhTw }
        else { Lang::Other(String::from_str(t)) }
    }
}

/// Every closed language token decodes back to the variant that produced
/// it; a fallback token outside the catalog decodes back to the fallback.
pub proof fn lemma_lang_token_roundtrip(v: Lang)
    requires
        (v matches Lang::Other(s) ==> Lang::known_of_token(s@) is None),
    ensures
        Lang::known_of_token(v.wire()) is Some ==> Lang::known_of_token(v.wire()) == Some(v),
        Lang::known_of_token(v.wire()) is None ==> v matches Lang::Other(_),
{
    reveal_strlit("de");
    reveal_strlit("fr");
    reveal_strlit("en");
    reveal_strlit("it");
    reveal_strlit("es");
    reveal_strlit("ja");
    reveal_strlit("ja-jp");
    reveal_strlit("ko");
    reveal_strlit("ko-kr");
    reveal_strlit("zh-hans");
    reveal_strlit("zh-cn");
    reveal_strlit("zh-hant");
    reveal_strlit("zh-tw");
    assert("de"@.len() == 2);
    assert("fr"@.len() == 2);
    assert("en"@.len() == 2);
    assert("it"@.len() == 2);
    assert("es"@.len() == 2);
    assert("ja"@.len() == 2);
    assert("ko"@.len() == 2);
    assert("ja-jp"@.len() == 5);
    assert("ko-kr"@.len() == 5);
    assert("zh-cn"@.len() == 5);
    assert("zh-tw"@.len() == 5);
    assert("zh-hans"@.len() == 7);
    assert("zh-hant"@.len() == 7);
    assert("de"@[0] == 'd');
    assert("fr"@[0] == 'f');
    assert("en"@[0] == 'e');
    assert("it"@[0] == 'i');
    assert("es"@[0] == 'e');
    assert("ja"@[0] == 'j');
    assert("ko"@[0] == 'k');
    assert("en"@[1] == 'n');
    assert("es"@[1] == 's');
    assert("ja-jp"@[0] == 'j');
    assert("ko-kr"@[0] == 'k');
    assert("zh-cn"@[0] == 'z');
    assert("zh-tw"@[0] == 'z');
    assert("zh-cn"@[3] == 'c');
    assert("zh-tw"@[3] == 't');
    assert("zh-hans"@[6] == 's');
    assert("zh-hant"@[6] == 't');
}

/// The device font of a text line or HRI print.
#[derive(Clone, Copy, Debug, PartialEq, Eq, Structural)]
pub enum Font {
    FontA,
    FontB,
    FontC,
    FontD,
    FontE,
}

impl Font {
    /// The vendor wire token of the variant.
    pub open spec fn wire(self) -> Seq<char> {
        match self {
            Font::FontA => "font_a"@,
            Font::FontB => "font_b"@,
            Font::FontC => "font_c"@,
            Font::FontD => "font_d"@,
            Font::FontE => "font_e"@,
        }
    }

    /// Renders the exact token spelled on the wire.
    pub fn token(&self) -> (r: &'static str)
        ensures
            r@ == self.wire(),
    {
        match self {
            Font::FontA => "font_a",
            Font::FontB => "font_b",
            Font::FontC => "font_c",
            Font::FontD => "font_d",
            Font::FontE => "font_e",
        }
    }

    /// The variant a token decodes to, if any.
    pub open spec fn of_token(t: Seq<char>) -> Option<Font> {
        if t == "font_a"@ { Some(Font::FontA) }
        else if t == "font_b"@ { Some(Font::FontB) }
        else if t == "font_c"@ { Some(Font::FontC) }
        else if t == "font_d"@ { Some(Font::FontD) }
        else if t == "font_e"@ { Some(Font::FontE) }
        else { None }
    }

    /// Decodes a wire token; unknown tokens decode to nothing.
    pub fn from_token(t: &str) -> (r: Option<Font>)
        ensures
            r == Font::of_token(t@),
    {
        if str_eq(t, "font_a") { Some(Font::FontA) }
        else if str_eq(t, "font_b") { Some(Font::FontB) }
        else if str_eq(t, "font_c") { Some(Font::FontC) }
        else if str_eq(t, "font_d") { Some(Font::FontD) }
        else if str_eq(t, "font_e") { Some(Font::FontE) }
        else { None }
    }
}

/// Every font token decodes back to the variant that produced it.
pub proof fn lemma_font_token_roundtrip(v: Font)
    ensures
        Font::of_token(v.wire()) == Some(v),
{
    reveal_strlit("font_a");
    reveal_strlit("font_b");
    reveal_strlit("font_c");
    reveal_strlit("font_d");
    reveal_strlit("font_e");
    assert("font_a"@.len() == 6);
    assert("font_b"@.len() == 6);
    assert("font_c"@.len() == 6);
    assert("font_d"@.len() == 6);
    assert("font_e"@.len() == 6);
    assert("font_a"@[5] == 'a');
    assert("font_b"@[5] == 'b');
    assert("font_c"@[5] == 'c');
    assert("font_d"@[5] == 'd');
    assert("font_e"@[5] == 'e');
}

/// The ink color of an element, on devices that have more than one.
#[derive(Clone, Copy, Debug, PartialEq, Eq, Structural)]
pub enum Color {
    NoColor,
    Color1,
    Color2,
    Color3,
    Color4,
}

impl Color {
    /// The vendor wire token of the variant.
    pub open spec fn wire(self) -> Seq<char> {
        match self {
            Color::NoColor => "none"@,
            Color::Color1 => "color_1"@,
            Color::Color2 => "color_2"@,
            Color::Color3 => "color_3"@,
            Color::Color4 => "color_4"@,
        }
    }

    /// Renders the exact token spelled on the wire.
    pub fn token(&self) -> (r: &'static str)
        ensures
            r@ == self.wire(),
    {
        match self {
            Color::NoColor => "none",
            Color::Color1 => "color_1",
            Color::Color2 => "color_2",
            Color::Color3 => "color_3",
            Color::Color4 => "color_4",
        }
    }

    /// The variant a token decodes to, if any.
    pub open spec fn of_token(t: Seq<char>) -> Option<Color> {
        if t == "none"@ { Some(Color::NoColor) }
        else if t == "color_1"@ { Some(Color::Color1) }
        else if t == "color_2"@ { Some(Color::Color2) }
        else if t == "color_3"@ { Some(Color::Color3) }
        else if t == "color_4"@ { Some(Color::Color4) }
        else { None }
    }

    /// Decodes a wire token; unknown tokens decode to nothing.
    pub fn from_token(t: &str) -> (r: Option<Color>)
        ensures
            r == Color::of_token(t@),
    {
        if str_eq(t, "none") { Some(Color::NoColor) }
        else if str_eq(t, "color_1") { Some(Color::Color1) }
        else if str_eq(t, "color_2") { Some(Color::Color2) }
        else if str_eq(t, "color_3") { Some(Color::Color3) }
        else if str_eq(t, "color_4") { Some(Color::Color4) }
        else { None }
    }
}

/// Every color token decodes back to the variant that produced it.
pub proof fn lemma_color_token_roundtrip(v: Color)
    ensures
        Color::of_token(v.wire()) == Some(v),
{
    reveal_strlit("none");
    reveal_strlit("color_1");
    reveal_strlit("color_2");
    reveal_strlit("color_3");
    reveal_strlit("color_4");
    assert("none"@.len() == 4);
    assert("color_1"@.len() == 7);
    assert("color_2"@.len() == 7);
    assert("color_3"@.len() == 7);
    assert("color_4"@.len() == 7);
    assert("color_1"@[6] == '1');
    assert("color_2"@[6] == '2');
    assert("color_3"@[6] == '3');
    assert("color_4"@[6] == '4');
}

/// The stroke style of a drawn line or rectangle.
#[derive(Clone, Copy, Debug, PartialEq, Eq, Structural)]
pub enum Style {
    Thin,
    Medium,
    Thick,
    ThinDouble,
    MediumDouble,
    ThickDouble,
}

impl Style {
    /// The vendor wire token of the variant.
    pub open spec fn wire(self) -> Seq<char> {
        match self {
            Style::Thin => "thin"@,
            Style::Medium => "medium"@,
            Style::Thick => "thick"@,
            Style::ThinDouble => "thin_double"@,
            Style::MediumDouble => "medium_double"@,
            Style::ThickDouble => "thick_double"@,
        }
    }

    /// Renders the exact token spelled on the wire.
    pub fn token(&self) -> (r: &'static str)
        ensures
            r@ == self.wire(),
    {
        match self {
            Style::Thin => "thin",
            Style::Medium => "medium",
            Style::Thick => "thick",
            Style::ThinDouble => "thin_double",
            Style::MediumDouble => "medium_double",
            Style::ThickDouble => "thick_double",
        }
    }

    /// The variant a token decodes to, if any.
    pub open spec fn of_token(t: Seq<char>) -> Option<Style> {
        if t == "thin"@ { Some(Style::Thin) }
        else if t == "medium"@ { Some(Style::Medium) }
        else if t == "thick"@ { Some(Style::Thick) }
        else if t == "thin_double"@ { Some(Style::ThinDouble) }
        else if t == "medium_double"@ { Some(Style::MediumDouble) }
        else if t == "thick_double"@ { Some(Style::ThickDouble) }
        else { None }
    }

    /// Decodes a wire token; unknown tokens decode to nothing.
    pub fn from_token(t: &str) -> (r: Option<Style>)
        ensures
            r == Style::of_token(t@),
    {
        if str_eq(t, "thin") { Some(Style::Thin) }
        else if str_eq(t, "medium") { Some(Style::Medium) }
        else if str_eq(t, "thick") { Some(Style::Thick) }
        else if str_eq(t, "thin_double") { Some(Style::ThinDouble) }
        else if str_eq(t, "medium_double") { Some(Style::MediumDouble) }
        else if str_eq(t, "thick_double") { Some(Style::ThickDouble) }
        else { None }
    }
}

/// Every style token decodes back to the variant that produced it.
pub proof fn lemma_style_token_roundtrip(v: Style)
    ensures
        Style::of_token(v.wire()) == Some(v),
{
    reveal_strlit("thin");
    reveal_strlit("medium");
    reveal_strlit("thick");
    reveal_strlit("thin_double");
    reveal_strlit("medium_double");
    reveal_strlit("thick_double");
    assert("thin"@.len() == 4);
    assert("medium"@.len() == 6);
    assert("thick"@.len() == 5);
    assert("thin_double"@.len() == 11);
    assert("medium_double"@.len() == 13);
    assert("thick_double"@.len() == 12);
}

/// The print direction of a page.
#[derive(Clone, Copy, Debug, PartialEq, Eq, Structural)]
pub enum PrintDirection {
    /// From the top left corner to the right.
    LeftToRight,
    /// Counterclockwise by 90 degrees, from the bottom left corner up.
    BottomToTop,
    /// Rotated 180 degrees, from the bottom right corner to the left.
    RightToLeft,
    /// From the top right corner down.
    TopToBottom,
}

impl PrintDirection {
    /// The vendor wire token of the variant.
    pub open spec fn wire(self) -> Seq<char> {
        match self {
            PrintDirection::LeftToRight => "left_to_right"@,
            PrintDirection::BottomToTop => "bottom_to_top"@,
            PrintDirection::RightToLeft => "right_to_left"@,
            PrintDirection::TopToBottom => "top_to_bottom"@,
        }
    }

    /// Renders the exact token spelled on the wire.
    pub fn token(&self) -> (r: &'static str)
        ensures
            r@ == self.wire(),
    {
        match self {
            PrintDirection::LeftToRight => "left_to_right",
            PrintDirection::BottomToTop => "bottom_to_top",
            PrintDirection::RightToLeft => "right_to_left",
            PrintDirection::TopToBottom => "top_to_bottom",
        }
    }

    /// The variant a token decodes to, if any.
    pub open spec fn of_token(t: Seq<char>) -> Option<PrintDirection> {
        if t == "left_to_right"@ { Some(PrintDirection::LeftToRight) }
        else if t == "bottom_to_top"@ { Some(PrintDirection::BottomToTop) }
        else if t == "right_to_left"@ { Some(PrintDirection::RightToLeft) }
        else if t == "top_to_bottom"@ { Some(PrintDirection::TopToBottom) }
        else { None }
    }

    /// Decodes a wire token; unknown tokens decode to nothing.
    pub fn from_token(t: &str) -> (r: Option<PrintDirection>)
        ensures
            r == PrintDirection::of_token(t@),
    {
        if str_eq(t, "left_to_right") { Some(PrintDirection::LeftToRight) }
        else if str_eq(t, "bottom_to_top") { Some(PrintDirection::BottomToTop) }
        else if str_eq(t, "right_to_left") { Some(PrintDirection::RightToLeft) }
        else if str_eq(t, "top_to_bottom") { Some(PrintDirection::TopToBottom) }
        else { None }
    }
}

/// Every print-direction token decodes back to the variant that produced
/// it.
pub proof fn lemma_print_direction_token_roundtrip(v: PrintDirection)
    ensures
        PrintDirection::of_token(v.wire()) == Some(v),
{
    reveal_strlit("left_to_right");
    reveal_strlit("bottom_to_top");
    reveal_strlit("right_to_left");
    reveal_strlit("top_to_bottom");
    assert("left_to_right"@.len() == 13);
    assert("bottom_to_top"@.len() == 13);
    assert("right_to_left"@.len() == 13);
    assert("top_to_bottom"@.len() == 13);
    assert("left_to_right"@[0] == 'l');
    assert("bottom_to_top"@[0] == 'b');
    assert("right_to_left"@[0] == 'r');
    assert("top_to_bottom"@[0] == 't');
}


impl Align {
    /// Decodes a wire token, reporting a token outside the catalog as
    /// an `UnknownCatalogValue` carrying the token itself.
    pub fn decode(t: &str) -> (r: Result<Align, crate::error::EPOSError>)
        ensures
            Align::of_token(t@) matches Some(v) ==> r == Ok::<Align, crate::error::EPOSError>(
                v,
            ),
            Align::of_token(t@) is None ==> (r matches Err(e) && (e matches
                crate::error::EPOSError::UnknownCatalogValue { token } && token@ == t@)),
    {
        match Align::from_token(t) {
            Some(v) => Ok(v),
            None => Err(
                crate::error::EPOSError::UnknownCatalogValue { token: String::from_str(t) },
            ),
        }
    }
}

impl FeedPos {
    /// Decodes a wire token, reporting a token outside the catalog as
    /// an `UnknownCatalogValue` carrying the token itself.
    pub fn decode(t: &str) -> (r: Result<FeedPos, crate::error::EPOSError>)
        ensures
            FeedPos::of_token(t@) matches Some(v) ==> r == Ok::<FeedPos, crate::error::EPOSError>(
                v,
            ),
            FeedPos::of_token(t@) is None ==> (r matches Err(e) && (e matches
                crate::error::EPOSError::UnknownCatalogValue { token } && token@ == t@)),
    {
        match FeedPos::from_token(t) {
            Some(v) => Ok(v),
            None => Err(
                crate::error::EPOSError::UnknownCatalogValue { token: String::from_str(t) },
            ),
        }
    }
}

impl CutType {
    /// Decodes a wire token, reporting a token outside the catalog as
    /// an `UnknownCatalogValue` carrying the token itself.
    pub fn decode(t: &str) -> (r: Result<CutType, crate::error::EPOSError>)
        ensures
            CutType::of_token(t@) matches Some(v) ==> r == Ok::<CutType, crate::error::EPOSError>(
                v,
            ),
            CutType::of_token(t@) is None ==> (r matches Err(e) && (e matches
                crate::error::EPOSError::UnknownCatalogValue { token } && token@ == t@)),
    {
        match CutType::from_token(t) {
            Some(v) => Ok(v),
            None => Err(
                crate::error::EPOSError::UnknownCatalogValue { token: String::from_str(t) },
            ),
        }
    }
}

impl Font {
    /// Decodes a wire token, reporting a token outside the catalog as
    /// an `UnknownCatalogValue` carrying the token itself.
    pub fn decode(t: &str) -> (r: Result<Font, crate::error::EPOSError>)
        ensures
            Font::of_token(t@) matches Some(v) ==> r == Ok::<Font, crate::error::EPOSError>(
                v,
            ),
            Font::of_token(t@) is None ==> (r matches Err(e) && (e matches
                crate::error::EPOSError::UnknownCatalogValue { token } && token@ == t@)),
    {
        match Font::from_token(t) {
            Some(v) => Ok(v),
            None => Err(
                crate::error::EPOSError::UnknownCatalogValue { token: String::from_str(t) },
            ),
        }
    }
}

impl Color {
    /// Decodes a wire token, reporting a token outside the catalog as
    /// an `UnknownCatalogValue` carrying the token itself.
    pub fn decode(t: &str) -> (r: Result<Color, crate::error::EPOSError>)
        ensures
            Color::of_token(t@) matches Some(v) ==> r == Ok::<Color, crate::error::EPOSError>(
                v,
            ),
            Color::of_token(t@) is None ==> (r matches Err(e) && (e matches
                crate::error::EPOSError::UnknownCatalogValue { token } && token@ == t@)),
    {
        match Color::from_token(t) {
            Some(v) => Ok(v),
            None => Err(
                crate::error::EPOSError::UnknownCatalogValue { token: String::from_str(t) },
            ),
        }
    }
}

impl Style {
    /// Decodes a wire token, reporting a token outside the catalog as
    /// an `UnknownCatalogValue` carrying the token itself.
    pub fn decode(t: &str) -> (r: Result<Style, crate::error::EPOSError>)
        ensures
            Style::of_token(t@) matches Some(v) ==> r == Ok::<Style, crate::error::EPOSError>(
                v,
            ),
            Style::of_token(t@) is None ==> (r matches Err(e) && (e matches
                crate::error::EPOSError::UnknownCatalogValue { token } && token@ == t@)),
    {
        match Style::from_token(t) {
            Some(v) => Ok(v),
            None => Err(
                crate::error::EPOSError::UnknownCatalogValue { token: String::from_str(t) },
            ),
        }
    }
}

impl PrintDirection {
    /// Decodes a wire token, reporting a token outside the catalog as
    /// an `UnknownCatalogValue` carrying the token itself.
    pub fn decode(t: &str) -> (r: Result<PrintDirection, crate::error::EPOSError>)
        ensures
            PrintDirection::of_token(t@) matches Some(v) ==> r == Ok::<PrintDirection, crate::error::EPOSError>(
                v,
            ),
            PrintDirection::of_token(t@) is None ==> (r matches Err(e) && (e matches
                crate::error::EPOSError::UnknownCatalogValue { token } && token@ == t@)),
    {
        match PrintDirection::from_token(t) {
            Some(v) => Ok(v),
            None => Err(
                crate::error::EPOSError::UnknownCatalogValue { token: String::from_str(t) },
            ),
        }
    }
}

} // verus!
