//! Rewriting the pitch colours in Cubase's `UserPreferences.xml`.
//!
//! The preferences file lists the twelve pitch colours inside a
//! `<member name="pitchColors">` element, in a `<list name="Set">`; each
//! `<item>` there holds a `<string name="Name" value="C#/Db"/>` naming the
//! pitch and an `<int name="Color" value="..."/>` holding its ARGB colour.
//! [`PitchColorRewriter`] follows the element stream and decides, tag by
//! tag, which `Color` values are replaced; reading and writing the XML is
//! left to the caller.

use vstd::prelude::*;

use crate::note::{flat_name, sharp_name};
use crate::text::{decimal, push_decimal};

verus! {

/// Whether the bytes `bytes` are the characters `text`, one byte per
/// character.
pub open spec fn bytes_are(bytes: Seq<u8>, text: Seq<char>) -> bool {
    &&& bytes.len() == text.len()
    &&& forall|i: int| 0 <= i < bytes.len() ==> bytes[i] as u32 == #[trigger] text[i] as u32
}

/// Whether `bytes` holds exactly the characters of the ASCII text `text`.
pub fn bytes_match(bytes: &[u8], text: &str) -> (r: bool)
    ensures
        r == bytes_are(bytes@, text@),
{
    let n = text.unicode_len();
    if bytes.len() != n {
        return false;
    }
    let mut i: usize = 0;
    while i < n
        invariant
            n == text@.len(),
            n == bytes@.len(),
            i <= n,
            forall|k: int| 0 <= k < i ==> bytes@[k] as u32 == #[trigger] text@[k] as u32,
        decreases n - i,
    {
        if bytes[i] as u32 != text.get_char(i) as u32 {
            return false;
        }
        i = i + 1;
    }
    true
}

/// The name Cubase gives pitch class `semitone` in its pitch-colour list.
pub open spec fn cubase_pitch_name(semitone: int) -> Seq<char> {
    if semitone == 0 {
        "C"@
    } else if semitone == 1 {
        "C#/Db"@
    } else if semitone == 2 {
        "D"@
    } else if semitone == 3 {
        "D#/Eb"@
    } else if semitone == 4 {
        "E"@
    } else if semitone == 5 {
        "F"@
    } else if semitone == 6 {
        "F#/Gb"@
    } else if semitone == 7 {
        "G"@
    } else if semitone == 8 {
        "G#/Ab"@
    } else if semitone == 9 {
        "A"@
    } else if semitone == 10 {
        "A#/Bb"@
    } else {
        "B"@
    }
}

/// The first pitch class at or above `from` whose Cubase name is `value`.
pub open spec fn cubase_semitone_from(value: Seq<u8>, from: int) -> Option<u8>
    decreases 12 - from,
{
    if from < 0 || from >= 12 {
        None
    } else if bytes_are(value, cubase_pitch_name(from)) {
        Some(from as u8)
    } else {
        cubase_semitone_from(value, from + 1)
    }
}

/// The pitch class a Cubase pitch name stands for, if it is one.
pub open spec fn cubase_semitone(value: Seq<u8>) -> Option<u8> {
    cubase_semitone_from(value, 0)
}

/// Reads a Cubase pitch name such as `C#/Db`.
pub fn parse_cubase_pitch_name(value: &[u8]) -> (r: Option<u8>)
    ensures
        r == cubase_semitone(value@),
{
    let mut s: u8 = 0;
    while s < 12
        invariant
            s <= 12,
            cubase_semitone(value@) == cubase_semitone_from(value@, s as int),
        decreases 12 - s,
    {
        let name = match s {
            0 => "C",
            1 => "C#/Db",
            2 => "D",
            3 => "D#/Eb",
            4 => "E",
            5 => "F",
            6 => "F#/Gb",
            7 => "G",
            8 => "G#/Ab",
            9 => "A",
            10 => "A#/Bb",
            _ => "B",
        };
        if bytes_match(value, name) {
            return Some(s);
        }
        s = s + 1;
    }
    None
}

/// The ARGB value Cubase stores for an opaque colour: alpha 255 above the
/// red, green and blue bytes.
pub open spec fn argb(r: u8, g: u8, b: u8) -> int {
    255 * 0x1000000 + r * 0x10000 + g * 0x100 + b
}

/// Packs an opaque RGB colour into Cubase's ARGB integer.
pub fn cubase_color(r: u8, g: u8, b: u8) -> (c: u32)
    ensures
        c as int == argb(r, g, b),
{
    let c: u32 = (255u32 << 24) | ((r as u32) << 16) | ((g as u32) << 8) | (b as u32);
    assert(c == 255u32 * 0x1000000u32 + (r as u32) * 0x10000u32 + (g as u32) * 0x100u32 + (b as u32)) by (bit_vector)
        requires
            c == (255u32 << 24) | ((r as u32) << 16) | ((g as u32) << 8) | (b as u32),
    ;
    c
}

/// The decimal text Cubase stores for a colour value.
pub fn color_value_text(color: u32) -> (r: String)
    ensures
        r@ == decimal(color as nat),
{
    let mut s = String::new();
    push_decimal(&mut s, color);
    assert(s@ =~= decimal(color as nat));
    s
}

/// Whether a folder name is that of a Cubase installation (`Cubase ...`).
pub fn is_cubase_folder(name: &str) -> (r: bool)
    ensures
        r == (name@.len() >= 7 && name@.subrange(0, 7) == "Cubase "@),
{
    let prefix = "Cubase ";
    proof {
        reveal_strlit("Cubase ");
    }
    if name.unicode_len() < 7 {
        return false;
    }
    let mut i: usize = 0;
    while i < 7
        invariant
            i <= 7,
            name@.len() >= 7,
            prefix@.len() == 7,
            prefix@ == "Cubase "@,
            forall|k: int| 0 <= k < i ==> name@[k] == prefix@[k],
        decreases 7 - i,
    {
        if name.get_char(i) != prefix.get_char(i) {
            assert(name@.subrange(0, 7)[i as int] != prefix@[i as int]);
            return false;
        }
        i = i + 1;
    }
    assert(name@.subrange(0, 7) =~= prefix@);
    true
}

/// What the caller found when it looked up an attribute of a tag.
pub enum AttributeLookup {
    /// The tag has no such attribute.
    Absent,
    /// The attribute's raw (unescaped) value.
    Present(Vec<u8>),
    /// The tag's attributes could not be read.
    Malformed,
}

/// The mathematical content of an [`AttributeLookup`].
pub enum LookupView {
    Absent,
    Present(Seq<u8>),
    Malformed,
}

impl View for AttributeLookup {
    type V = LookupView;

    open spec fn view(&self) -> LookupView {
        match self {
            AttributeLookup::Absent => LookupView::Absent,
            AttributeLookup::Present(v) => LookupView::Present(v@),
            AttributeLookup::Malformed => LookupView::Malformed,
        }
    }
}

/// The kind of an XML event.
#[derive(Clone, Copy, Debug, PartialEq, Eq, Structural)]
pub enum XmlTagKind {
    /// An opening tag `<name ...>`.
    Start,
    /// A self-closing tag `<name .../>`.
    Empty,
    /// A closing tag `</name>`.
    End,
    /// Anything else: text, comments, declarations, the end of input.
    Other,
}

/// One XML event, as far as the rewriting needs to see it.
pub struct XmlTag {
    /// The kind of event.
    pub kind: XmlTagKind,
    /// The element's qualified name (empty for [`XmlTagKind::Other`]).
    pub element: Vec<u8>,
    /// The tag's `name` attribute.
    pub name_attribute: AttributeLookup,
    /// The tag's `value` attribute.
    pub value_attribute: AttributeLookup,
}

/// The mathematical content of an [`XmlTag`].
pub struct XmlTagView {
    pub kind: XmlTagKind,
    pub element: Seq<u8>,
    pub name_attribute: LookupView,
    pub value_attribute: LookupView,
}

impl View for XmlTag {
    type V = XmlTagView;

    open spec fn view(&self) -> XmlTagView {
        XmlTagView {
            kind: self.kind,
            element: self.element@,
            name_attribute: self.name_attribute@,
            value_attribute: self.value_attribute@,
        }
    }
}

/// What to do with an event.
#[derive(Clone, Copy, Debug, PartialEq, Eq, Structural)]
pub enum RewriteAction {
    /// Write the event as it was read.
    Keep,
    /// Write `<int name="Color" value="..."/>` with the colour of this
    /// pitch class in place of the event.
    ReplaceColor(u8),
    /// Stop: the attribute the decision needs could not be read.
    Fail,
}

/// Where the rewriting stands in the element stream.
#[derive(Clone, Copy, Debug, PartialEq, Eq, Structural)]
pub struct PitchColorRewriter {
    /// Inside `<member name="pitchColors">`.
    pub in_pitch_colors: bool,
    /// Inside its `<list name="Set">`.
    pub in_set_list: bool,
    /// Pitch class named by the current item, once its `Name` is read.
    pub current_semitone: Option<u8>,
}

/// Whether a looked-up attribute holds exactly `text`.
pub open spec fn attribute_is(lookup: LookupView, text: Seq<char>) -> bool {
    lookup matches LookupView::Present(v) && bytes_are(v, text)
}

/// The state after an opening tag, and what to do with it.
pub open spec fn after_start(state: PitchColorRewriter, tag: XmlTagView) -> (
    PitchColorRewriter,
    RewriteAction,
) {
    if bytes_are(tag.element, "member"@) {
        if tag.name_attribute is Malformed {
            (state, RewriteAction::Fail)
        } else if attribute_is(tag.name_attribute, "pitchColors"@) {
            (PitchColorRewriter { in_pitch_colors: true, ..state }, RewriteAction::Keep)
        } else {
            (state, RewriteAction::Keep)
        }
    } else if state.in_pitch_colors && bytes_are(tag.element, "list"@) {
        if tag.name_attribute is Malformed {
            (state, RewriteAction::Fail)
        } else if attribute_is(tag.name_attribute, "Set"@) {
            (PitchColorRewriter { in_set_list: true, ..state }, RewriteAction::Keep)
        } else {
            (state, RewriteAction::Keep)
        }
    } else {
        (state, RewriteAction::Keep)
    }
}

/// The state after a self-closing tag, and what to do with it: inside the
/// set list a `Name` string selects the pitch class, and a `Color` int is
/// replaced once a pitch class is selected.
pub open spec fn after_empty(state: PitchColorRewriter, tag: XmlTagView) -> (
    PitchColorRewriter,
    RewriteAction,
) {
    if !state.in_set_list {
        (state, RewriteAction::Keep)
    } else if bytes_are(tag.element, "string"@) {
        if tag.name_attribute is Malformed {
            (state, RewriteAction::Fail)
        } else if attribute_is(tag.name_attribute, "Name"@) {
            match tag.value_attribute {
                LookupView::Malformed => (state, RewriteAction::Fail),
                LookupView::Present(v) => (
                    PitchColorRewriter { current_semitone: cubase_semitone(v), ..state },
                    RewriteAction::Keep,
                ),
                LookupView::Absent => (state, RewriteAction::Keep),
            }
        } else {
            (state, RewriteAction::Keep)
        }
    } else if bytes_are(tag.element, "int"@) {
        if tag.name_attribute is Malformed {
            (state, RewriteAction::Fail)
        } else if attribute_is(tag.name_attribute, "Color"@) && state.current_semitone is Some {
            (state, RewriteAction::ReplaceColor(state.current_semitone->0))
        } else {
            (state, RewriteAction::Keep)
        }
    } else {
        (state, RewriteAction::Keep)
    }
}

/// The state after a closing tag.
pub open spec fn after_end(state: PitchColorRewriter, tag: XmlTagView) -> PitchColorRewriter {
    if bytes_are(tag.element, "list"@) && state.in_set_list {
        PitchColorRewriter { in_set_list: false, ..state }
    } else if bytes_are(tag.element, "member"@) && state.in_pitch_colors && !state.in_set_list {
        PitchColorRewriter { in_pitch_colors: false, ..state }
    } else if bytes_are(tag.element, "item"@) {
        PitchColorRewriter { current_semitone: None, ..state }
    } else {
        state
    }
}

/// The state after an event, and what to do with the event.
pub open spec fn rewrite_step(state: PitchColorRewriter, tag: XmlTagView) -> (
    PitchColorRewriter,
    RewriteAction,
) {
    match tag.kind {
        XmlTagKind::Start => after_start(state, tag),
        XmlTagKind::Empty => after_empty(state, tag),
        XmlTagKind::End => (after_end(state, tag), RewriteAction::Keep),
        XmlTagKind::Other => (state, RewriteAction::Keep),
    }
}

impl PitchColorRewriter {
    /// The state at the start of a document: outside the pitch colours.
    pub fn new() -> (r: Self)
        ensures
            !r.in_pitch_colors,
            !r.in_set_list,
            r.current_semitone is None,
    {
        PitchColorRewriter { in_pitch_colors: false, in_set_list: false, current_semitone: None }
    }

    /// The set list lies inside the pitch-colour member, and a selected
    /// pitch class is one of the twelve.
    pub open spec fn wf(self) -> bool {
        &&& self.in_set_list ==> self.in_pitch_colors
        &&& self.current_semitone matches Some(s) ==> s < 12
    }

    /// Takes in one event and says what to write for it.
    pub fn step(&mut self, tag: &XmlTag) -> (action: RewriteAction)
        ensures
            (*final(self), action) == rewrite_step(*old(self), tag@),
    {
        match tag.kind {
            XmlTagKind::Start => {
                if bytes_match(tag.element.as_slice(), "member") {
                    match &tag.name_attribute {
                        AttributeLookup::Malformed => RewriteAction::Fail,
                        AttributeLookup::Present(v) => {
                            if bytes_match(v.as_slice(), "pitchColors") {
                                self.in_pitch_colors = true;
                            }
                            RewriteAction::Keep
                        },
                        AttributeLookup::Absent => RewriteAction::Keep,
                    }
                } else if self.in_pitch_colors && bytes_match(tag.element.as_slice(), "list") {
                    match &tag.name_attribute {
                        AttributeLookup::Malformed => RewriteAction::Fail,
                        AttributeLookup::Present(v) => {
                            if bytes_match(v.as_slice(), "Set") {
                                self.in_set_list = true;
                            }
                            RewriteAction::Keep
                        },
                        AttributeLookup::Absent => RewriteAction::Keep,
                    }
                } else {
                    RewriteAction::Keep
                }
            },
            XmlTagKind::Empty => {
                if !self.in_set_list {
                    RewriteAction::Keep
                } else if bytes_match(tag.element.as_slice(), "string") {
                    match &tag.name_attribute {
                        AttributeLookup::Malformed => RewriteAction::Fail,
                        AttributeLookup::Present(n) => {
                            if bytes_match(n.as_slice(), "Name") {
                                match &tag.value_attribute {
                                    AttributeLookup::Malformed => RewriteAction::Fail,
                                    AttributeLookup::Present(v) => {
                                        self.current_semitone = parse_cubase_pitch_name(v.as_slice());
                                        RewriteAction::Keep
                                    },
                                    AttributeLookup::Absent => RewriteAction::Keep,
                                }
                            } else {
                                RewriteAction::Keep
                            }
                        },
                        AttributeLookup::Absent => RewriteAction::Keep,
                    }
                } else if bytes_match(tag.element.as_slice(), "int") {
                    match &tag.name_attribute {
                        AttributeLookup::Malformed => RewriteAction::Fail,
                        AttributeLookup::Present(n) => {
                            if bytes_match(n.as_slice(), "Color") {
                                match self.current_semitone {
                                    Some(s) => RewriteAction::ReplaceColor(s),
                                    None => RewriteAction::Keep,
                                }
                            } else {
                                RewriteAction::Keep
                            }
                        },
                        AttributeLookup::Absent => RewriteAction::Keep,
                    }
                } else {
                    RewriteAction::Keep
                }
            },
            XmlTagKind::End => {
                let element = tag.element.as_slice();
                if bytes_match(element, "list") && self.in_set_list {
                    self.in_set_list = false;
                } else if bytes_match(element, "member") && self.in_pitch_colors
                    && !self.in_set_list {
                    self.in_pitch_colors = false;
                } else if bytes_match(element, "item") {
                    self.current_semitone = None;
                }
                RewriteAction::Keep
            },
            XmlTagKind::Other => RewriteAction::Keep,
        }
    }
}

proof fn lemma_cubase_semitone_from_range(value: Seq<u8>, from: int)
    ensures
        cubase_semitone_from(value, from) matches Some(s) ==> s < 12,
    decreases 12 - from,
{
    if 0 <= from < 12 {
        lemma_cubase_semitone_from_range(value, from + 1);
    }
}

/// A Cubase pitch name stands for one of the twelve pitch classes, if any.
pub proof fn lemma_cubase_semitone_in_octave(value: Seq<u8>)
    ensures
        cubase_semitone(value) matches Some(s) ==> s < 12,
{
    lemma_cubase_semitone_from_range(value, 0);
}

proof fn lemma_cubase_names_distinct(value: Seq<u8>, a: int, b: int)
    requires
        0 <= a < 12,
        0 <= b < 12,
        bytes_are(value, cubase_pitch_name(a)),
        bytes_are(value, cubase_pitch_name(b)),
    ensures
        a == b,
{
    reveal_strlit("C");
    reveal_strlit("C#/Db");
    reveal_strlit("D");
    reveal_strlit("D#/Eb");
    reveal_strlit("E");
    reveal_strlit("F");
    reveal_strlit("F#/Gb");
    reveal_strlit("G");
    reveal_strlit("G#/Ab");
    reveal_strlit("A");
    reveal_strlit("A#/Bb");
    reveal_strlit("B");
    assert(cubase_pitch_name(a).len() == cubase_pitch_name(b).len());
    assert(value[0] as u32 == cubase_pitch_name(a)[0] as u32);
    assert(value[0] as u32 == cubase_pitch_name(b)[0] as u32);
    if cubase_pitch_name(a).len() == 5 {
        assert(value[1] as u32 == cubase_pitch_name(a)[1] as u32);
        assert(value[1] as u32 == cubase_pitch_name(b)[1] as u32);
    }
}

proof fn lemma_cubase_semitone_from_finds(value: Seq<u8>, from: int, s: int)
    requires
        0 <= from <= s < 12,
        bytes_are(value, cubase_pitch_name(s)),
    ensures
        cubase_semitone_from(value, from) == Some(s as u8),
    decreases s - from,
{
    if from < s {
        if bytes_are(value, cubase_pitch_name(from)) {
            lemma_cubase_names_distinct(value, from, s);
        }
        lemma_cubase_semitone_from_finds(value, from + 1, s);
    }
}

/// Every pitch class is read back from its own Cubase name.
pub proof fn lemma_cubase_names_read_back(value: Seq<u8>, semitone: int)
    requires
        0 <= semitone < 12,
        bytes_are(value, cubase_pitch_name(semitone)),
    ensures
        cubase_semitone(value) == Some(semitone as u8),
{
    lemma_cubase_semitone_from_finds(value, 0, semitone);
}

/// Every event keeps the rewriting state well formed.
pub proof fn lemma_rewrite_step_keeps_wf(state: PitchColorRewriter, tag: XmlTagView)
    requires
        state.wf(),
    ensures
        rewrite_step(state, tag).0.wf(),
{
    if let LookupView::Present(v) = tag.value_attribute {
        lemma_cubase_semitone_in_octave(v);
    }
}

/// Only a `<int name="Color" .../>` inside the set list of the pitch-colour
/// member, after an item's pitch name was read, is ever replaced, and it is
/// replaced with the colour of that pitch; every other event is written as
/// it was read unless its attributes could not be read.
pub proof fn lemma_only_pitch_colors_replaced(state: PitchColorRewriter, tag: XmlTagView)
    requires
        state.wf(),
    ensures
        rewrite_step(state, tag).1 matches RewriteAction::ReplaceColor(s) ==> {
            &&& tag.kind == XmlTagKind::Empty
            &&& bytes_are(tag.element, "int"@)
            &&& attribute_is(tag.name_attribute, "Color"@)
            &&& state.in_pitch_colors
            &&& state.in_set_list
            &&& state.current_semitone == Some(s)
            &&& s < 12
        },
        rewrite_step(state, tag).1 == RewriteAction::Fail ==> tag.name_attribute is Malformed
            || tag.value_attribute is Malformed,
{
}

/// The ARGB value holds alpha 255 in its top byte and red, green and blue
/// in the three bytes below, in that order.
pub proof fn lemma_argb_bytes(r: u8, g: u8, b: u8)
    ensures
        argb(r, g, b) / 0x1000000 == 255,
        (argb(r, g, b) / 0x10000) % 0x100 == r,
        (argb(r, g, b) / 0x100) % 0x100 == g,
        argb(r, g, b) % 0x100 == b,
        0 <= argb(r, g, b) <= u32::MAX,
{
    assert(argb(r, g, b) / 0x1000000 == 255) by (nonlinear_arith)
        requires
            argb(r, g, b) == 255 * 0x1000000 + r * 0x10000 + g * 0x100 + b,
            r < 256,
            g < 256,
            b < 256,
    ;
    assert((argb(r, g, b) / 0x10000) % 0x100 == r) by (nonlinear_arith)
        requires
            argb(r, g, b) == 255 * 0x1000000 + r * 0x10000 + g * 0x100 + b,
            r < 256,
            g < 256,
            b < 256,
    ;
    assert((argb(r, g, b) / 0x100) % 0x100 == g) by (nonlinear_arith)
        requires
            argb(r, g, b) == 255 * 0x1000000 + r * 0x10000 + g * 0x100 + b,
            r < 256,
            g < 256,
            b < 256,
    ;
}

/// Cubase names a white key by its letter and a black key by its sharp and
/// its flat spelling joined by `/` (`C#/Db`).
pub proof fn lemma_cubase_names_join_spellings(semitone: int)
    requires
        0 <= semitone < 12,
    ensures
        sharp_name(semitone) == flat_name(semitone) ==> cubase_pitch_name(semitone) == sharp_name(
            semitone,
        ),
        sharp_name(semitone) != flat_name(semitone) ==> cubase_pitch_name(semitone) == sharp_name(
            semitone,
        ) + "/"@ + flat_name(semitone),
{
    reveal_strlit("/");
    reveal_strlit("C");
    reveal_strlit("D");
    reveal_strlit("E");
    reveal_strlit("F");
    reveal_strlit("G");
    reveal_strlit("A");
    reveal_strlit("B");
    reveal_strlit("C#");
    reveal_strlit("D#");
    reveal_strlit("F#");
    reveal_strlit("G#");
    reveal_strlit("A#");
    reveal_strlit("Db");
    reveal_strlit("Eb");
    reveal_strlit("Gb");
    reveal_strlit("Ab");
    reveal_strlit("Bb");
    reveal_strlit("C#/Db");
    reveal_strlit("D#/Eb");
    reveal_strlit("F#/Gb");
    reveal_strlit("G#/Ab");
    reveal_strlit("A#/Bb");
    if semitone == 0 {
        assert(sharp_name(0) == flat_name(0));
    } else if semitone == 1 {
        assert(sharp_name(1) != flat_name(1)) by { assert(sharp_name(1)[1] != flat_name(1)[1]); }
        assert(cubase_pitch_name(1) =~= sharp_name(1) + "/"@ + flat_name(1));
    } else if semitone == 2 {
        assert(sharp_name(2) == flat_name(2));
    } else if semitone == 3 {
        assert(sharp_name(3) != flat_name(3)) by { assert(sharp_name(3)[1] != flat_name(3)[1]); }
        assert(cubase_pitch_name(3) =~= sharp_name(3) + "/"@ + flat_name(3));
    } else if semitone == 4 {
        assert(sharp_name(4) == flat_name(4));
    } else if semitone == 5 {
        assert(sharp_name(5) == flat_name(5));
    } else if semitone == 6 {
        assert(sharp_name(6) != flat_name(6)) by { assert(sharp_name(6)[1] != flat_name(6)[1]); }
        assert(cubase_pitch_name(6) =~= sharp_name(6) + "/"@ + flat_name(6));
    } else if semitone == 7 {
        assert(sharp_name(7) == flat_name(7));
    } else if semitone == 8 {
        assert(sharp_name(8) != flat_name(8)) by { assert(sharp_name(8)[1] != flat_name(8)[1]); }
        assert(cubase_pitch_name(8) =~= sharp_name(8) + "/"@ + flat_name(8));
    } else if semitone == 9 {
        assert(sharp_name(9) == flat_name(9));
    } else if semitone == 10 {
        assert(sharp_name(10) != flat_name(10)) by { assert(sharp_name(10)[1] != flat_name(10)[1]); }
        assert(cubase_pitch_name(10) =~= sharp_name(10) + "/"@ + flat_name(10));
    } else if semitone == 11 {
        assert(sharp_name(11) == flat_name(11));
    }
}

/// The rewriting enters the pitch colours only at a `<member
/// name="pitchColors">` opening tag, enters the set list only at a `<list
/// name="Set">` opening tag inside them, and selects a pitch only at a
/// `<string name="Name" value="..."/>` inside the set list, whose value is
/// that pitch's Cubase name.
pub proof fn lemma_rewrite_state_changes(state: PitchColorRewriter, tag: XmlTagView)
    ensures
        ({
            let next = rewrite_step(state, tag).0;
            &&& (!state.in_pitch_colors && next.in_pitch_colors) ==> (tag.kind == XmlTagKind::Start
                && bytes_are(tag.element, "member"@) && attribute_is(
                tag.name_attribute,
                "pitchColors"@,
            ))
            &&& (!state.in_set_list && next.in_set_list) ==> (state.in_pitch_colors && tag.kind
                == XmlTagKind::Start && bytes_are(tag.element, "list"@) && attribute_is(
                tag.name_attribute,
                "Set"@,
            ))
            &&& (next.current_semitone is Some && next.current_semitone != state.current_semitone)
                ==> (state.in_set_list && tag.kind == XmlTagKind::Empty && bytes_are(
                tag.element,
                "string"@,
            ) && attribute_is(tag.name_attribute, "Name"@) && (tag.value_attribute matches LookupView::Present(
                v,
            ) && bytes_are(v, cubase_pitch_name(next.current_semitone->0 as int))))
        }),
{
    if let LookupView::Present(v) = tag.value_attribute {
        lemma_cubase_semitone_in_octave(v);
        lemma_cubase_semitone_names(v, 0);
    }
}

proof fn lemma_cubase_semitone_names(value: Seq<u8>, from: int)
    ensures
        cubase_semitone_from(value, from) matches Some(s) ==> bytes_are(value, cubase_pitch_name(s as int)),
    decreases 12 - from,
{
    if 0 <= from < 12 {
        lemma_cubase_semitone_names(value, from + 1);
    }
}

} // verus!
