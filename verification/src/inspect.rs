//! The `inspect` command's table: which stream items it shows, how it lays out the bytes of an
//! item in rows of hex, and the styles it writes them in.
use vstd::prelude::*;

use crate::commands::io::Encoding;
use crate::primitive::hex_digit;

verus! {

/// A color of the terminal.
#[derive(Debug, PartialEq, Eq, Clone, Copy, Structural)]
pub enum Color {
    Black,
    White,
    Yellow,
    Cyan,
    Green,
    Magenta,
    Rgb(u8, u8, u8),
}

/// How text is written to the terminal: its colors and attributes.
#[derive(Debug, PartialEq, Eq, Clone, Copy, Structural)]
pub struct Style {
    pub fg: Option<Color>,
    pub bg: Option<Color>,
    pub bold: bool,
    pub intense: bool,
    pub underline: bool,
    pub dimmed: bool,
}

/// The style without colors or attributes.
pub open spec fn plain() -> Style {
    Style { fg: None, bg: None, bold: false, intense: false, underline: false, dimmed: false }
}

pub fn plain_style() -> (r: Style)
    ensures
        r == plain(),
{
    Style { fg: None, bg: None, bold: false, intense: false, underline: false, dimmed: false }
}

/// The style of the table's header.
pub fn header_style() -> (r: Style)
    ensures
        r == (Style { bold: true, intense: true, ..plain() }),
{
    Style { bold: true, intense: true, ..plain_style() }
}

/// The style of e-expressions.
pub fn eexp_style() -> (r: Style)
    ensures
        r == (Style { fg: Some(Color::Green), bold: true, intense: true, ..plain() }),
{
    Style { fg: Some(Color::Green), bold: true, intense: true, ..plain_style() }
}

/// The style of the guides that mark the depth of a value.
pub fn indentation_style() -> (r: Style)
    ensures
        r == (Style { fg: Some(Color::Rgb(100, 100, 100)), bold: true, intense: true, ..plain() }),
{
    Style { fg: Some(Color::Rgb(100, 100, 100)), bold: true, intense: true, ..plain_style() }
}

/// The style of comments.
pub fn comment_style() -> (r: Style)
    ensures
        r == (Style { dimmed: true, ..plain() }),
{
    Style { dimmed: true, ..plain_style() }
}

/// The style of the bytes of values that macros produce.
pub fn ephemeral_bytes_style() -> (r: Style)
    ensures
        r == (Style { fg: Some(Color::Green), bold: true, intense: true, dimmed: true, ..plain() }),
{
    Style { dimmed: true, ..eexp_style() }
}

/// The style of values that macros produce.
pub fn ephemeral_value_style() -> (r: Style)
    ensures
        r == (Style { fg: Some(Color::White), ..plain() }),
{
    Style { fg: Some(Color::White), ..plain_style() }
}

/// The style of field names.
pub fn field_id_style() -> (r: Style)
    ensures
        r == (Style { fg: Some(Color::Cyan), intense: true, ..plain() }),
{
    Style { fg: Some(Color::Cyan), intense: true, ..plain_style() }
}

/// The style of field names that macros produce.
pub fn ephemeral_field_id_style() -> (r: Style)
    ensures
        r == (Style { fg: Some(Color::Cyan), intense: true, dimmed: true, ..plain() }),
{
    Style { dimmed: true, ..field_id_style() }
}

/// The style of text Ion.
pub fn text_ion_style() -> (r: Style)
    ensures
        r == (Style { fg: Some(Color::Rgb(255, 255, 255)), ..plain() }),
{
    Style { fg: Some(Color::Rgb(255, 255, 255)), ..plain_style() }
}

/// The style of annotations.
pub fn annotations_style() -> (r: Style)
    ensures
        r == (Style { fg: Some(Color::Magenta), ..plain() }),
{
    Style { fg: Some(Color::Magenta), ..plain_style() }
}

/// The style of annotations that macros produce.
pub fn ephemeral_annotations_style() -> (r: Style)
    ensures
        r == (Style { fg: Some(Color::Magenta), dimmed: true, ..plain() }),
{
    Style { dimmed: true, ..annotations_style() }
}

/// Kinds of encoding primitives found in a binary Ion stream.
#[derive(Debug, PartialEq, Eq, Clone, Copy, Structural)]
pub enum BytesKind {
    MacroId,
    FieldId,
    Opcode,
    TrailingLength,
    ValueBody,
    AnnotationsHeader,
    AnnotationsSequence,
    VersionMarker,
}

/// The style in which bytes of the kind `k` are printed.
pub open spec fn bytes_style(k: BytesKind) -> Style {
    match k {
        BytesKind::VersionMarker => Style { fg: Some(Color::Yellow), intense: true, ..plain() },
        BytesKind::FieldId => Style { fg: Some(Color::Cyan), intense: true, ..plain() },
        BytesKind::Opcode => Style {
            bold: true,
            fg: Some(Color::Rgb(0, 0, 0)),
            bg: Some(Color::Rgb(255, 255, 255)),
            ..plain()
        },
        BytesKind::MacroId => Style {
            bold: true,
            fg: Some(Color::Rgb(0, 0, 0)),
            bg: Some(Color::Green),
            intense: true,
            ..plain()
        },
        BytesKind::TrailingLength => Style {
            bold: true,
            underline: true,
            fg: Some(Color::White),
            intense: true,
            ..plain()
        },
        BytesKind::ValueBody => Style { bold: false, fg: Some(Color::White), intense: false, ..plain() },
        BytesKind::AnnotationsHeader => Style {
            bold: false,
            fg: Some(Color::Black),
            bg: Some(Color::Magenta),
            ..plain()
        },
        BytesKind::AnnotationsSequence => Style { bold: false, fg: Some(Color::Magenta), ..plain() },
    }
}

impl BytesKind {
    /// The style in which bytes of this kind are printed.
    pub fn style(&self) -> (r: Style)
        ensures
            r == bytes_style(*self),
    {
        let color = plain_style();
        match self {
            BytesKind::VersionMarker => Style { fg: Some(Color::Yellow), intense: true, ..color },
            BytesKind::FieldId => Style { fg: Some(Color::Cyan), intense: true, ..color },
            BytesKind::Opcode => Style {
                bold: true,
                fg: Some(Color::Rgb(0, 0, 0)),
                bg: Some(Color::Rgb(255, 255, 255)),
                ..color
            },
            BytesKind::MacroId => Style {
                bold: true,
                fg: Some(Color::Rgb(0, 0, 0)),
                bg: Some(Color::Green),
                intense: true,
                ..color
            },
            BytesKind::TrailingLength => Style {
                bold: true,
                underline: true,
                fg: Some(Color::White),
                intense: true,
                ..color
            },
            BytesKind::ValueBody => Style { bold: false, fg: Some(Color::White), intense: false, ..color },
            BytesKind::AnnotationsHeader => Style {
                bold: false,
                fg: Some(Color::Black),
                bg: Some(Color::Magenta),
                ..color
            },
            BytesKind::AnnotationsSequence => Style { bold: false, fg: Some(Color::Magenta), ..color },
        }
    }
}

/// A byte as two lower-case hexadecimal digits.
pub open spec fn hex_byte(b: u8) -> Seq<char> {
    seq![hex_digit(b as nat / 16), hex_digit(b as nat % 16)]
}

/// The bytes as hexadecimal pairs separated by spaces.
pub open spec fn hex_text(bytes: Seq<u8>) -> Seq<char>
    decreases bytes.len(),
{
    if bytes.len() == 0 {
        Seq::empty()
    } else if bytes.len() == 1 {
        hex_byte(bytes[0])
    } else {
        hex_text(bytes.drop_last()) + " "@ + hex_byte(bytes.last())
    }
}

fn hex_digit_char(d: u8) -> (r: char)
    requires
        d < 16,
    ensures
        r == hex_digit(d as nat),
{
    if d < 10 {
        ((48 + d) as u8) as char
    } else {
        ((97 + d - 10) as u8) as char
    }
}

/// The two hexadecimal digits of a byte, in lower case.
pub fn hex_digit_pair(b: u8) -> (r: (char, char))
    ensures
        seq![r.0, r.1] == hex_byte(b),
        (r.0 as u32) < 128,
        (r.1 as u32) < 128,
{
    (hex_digit_char(b / 16), hex_digit_char(b % 16))
}

/// Converts the bytes of `source` from `start` up to `end` to a string of hex-encoded bytes.
pub fn hex_contents(source: &Vec<u8>, start: usize, end: usize) -> (r: String)
    requires
        start <= end <= source@.len(),
    ensures
        r@ == hex_text(source@.subrange(start as int, end as int)),
{
    let mut out: Vec<char> = Vec::new();
    let mut i: usize = start;
    assert(source@.subrange(start as int, start as int) =~= Seq::<u8>::empty());
    while i < end
        invariant
            start <= i <= end <= source@.len(),
            out@ == hex_text(source@.subrange(start as int, i as int)),
        decreases end - i,
    {
        let ghost sub = source@.subrange(start as int, i + 1);
        assert(sub.drop_last() =~= source@.subrange(start as int, i as int));
        assert(sub.last() == source@[i as int]);
        assert(sub[0] == source@[start as int]);
        proof {
            reveal_strlit(" ");
        }
        if i > start {
            out.push(' ');
        }
        let b = source[i];
        out.push(hex_digit_char(b / 16));
        out.push(hex_digit_char(b % 16));
        i = i + 1;
        assert(out@ =~= hex_text(source@.subrange(start as int, i as int)));
    }
    crate::text::string_from_chars(&out)
}

/// A slice of Ion bytes to be printed in the `Binary Ion` column: what the bytes represent, and
/// how many of them have been printed so far.
#[derive(Debug, PartialEq)]
pub struct IonBytes {
    pub bytes: Vec<u8>,
    pub kind: BytesKind,
    pub bytes_written: usize,
}

impl IonBytes {
    /// Bytes of the kind `kind`, none of them printed yet.
    pub fn new(kind: BytesKind, bytes: Vec<u8>) -> (r: Self)
        ensures
            r.bytes == bytes,
            r.kind == kind,
            r.bytes_written == 0,
    {
        IonBytes { bytes, kind, bytes_written: 0 }
    }

    /// The number of bytes not printed yet.
    pub fn bytes_remaining(&self) -> (r: usize)
        requires
            self.bytes_written <= self.bytes@.len(),
        ensures
            r == self.bytes@.len() - self.bytes_written,
    {
        self.bytes.len() - self.bytes_written
    }
}

/// A piece of a row of the `Binary Ion` column: text in the style of a kind of bytes, or plain
/// text.
#[derive(Debug, PartialEq)]
pub struct Segment {
    pub kind: Option<BytesKind>,
    pub text: String,
}

/// The value of a [`Segment`].
pub struct SegmentSpec {
    pub kind: Option<BytesKind>,
    pub text: Seq<char>,
}

pub open spec fn segments_view(s: Seq<Segment>) -> Seq<SegmentSpec> {
    s.map_values(|x: Segment| SegmentSpec { kind: x.kind, text: x.text@ })
}

/// The bytes still to print: the unprinted part of each slice from the current one on.
pub open spec fn pending_view(slices: Seq<IonBytes>, from: int) -> Seq<(BytesKind, Seq<u8>)>
    recommends
        0 <= from <= slices.len(),
{
    Seq::new(
        (slices.len() - from) as nat,
        |i: int|
            (
                slices[from + i].kind,
                slices[from + i].bytes@.subrange(
                    slices[from + i].bytes_written as int,
                    slices[from + i].bytes@.len() as int,
                ),
            ),
    )
}

/// The segments that printing up to `num` of the `pending` bytes writes, and the bytes still
/// pending afterwards. Each slice's bytes are printed as one hex segment in the slice's style,
/// followed by a space when the slice is finished or `num` bytes were printed; a slice without
/// bytes is passed over.
pub open spec fn take_row(pending: Seq<(BytesKind, Seq<u8>)>, num: nat) -> (Seq<SegmentSpec>, Seq<
    (BytesKind, Seq<u8>),
>)
    decreases num, pending.len(),
{
    if num == 0 || pending.len() == 0 {
        (Seq::empty(), pending)
    } else {
        let (k, b) = pending[0];
        if b.len() == 0 {
            take_row(pending.drop_first(), num)
        } else {
            let w: nat = if num < b.len() {
                num
            } else {
                b.len()
            };
            let hex = seq![SegmentSpec { kind: Some(k), text: hex_text(b.subrange(0, w as int)) }];
            let seg = if w == b.len() || w == num {
                hex.push(SegmentSpec { kind: None, text: " "@ })
            } else {
                hex
            };
            let rest = if w == b.len() {
                pending.drop_first()
            } else {
                pending.update(0, (k, b.subrange(w as int, b.len() as int)))
            };
            let (segs, rest2) = take_row(rest, (num - w) as nat);
            (seg + segs, rest2)
        }
    }
}

/// All the bytes of `pending`, in order.
pub open spec fn flatten(pending: Seq<(BytesKind, Seq<u8>)>) -> Seq<u8>
    decreases pending.len(),
{
    if pending.len() == 0 {
        Seq::empty()
    } else {
        pending[0].1 + flatten(pending.drop_first())
    }
}

/// Prints bytes as hex-encoded rows of a given size: it holds the slices to display and, upon
/// request, gives the next row, remembering where to resume for the row after it.
#[derive(Debug)]
pub struct BytesFormatter {
    pub slices: Vec<IonBytes>,
    pub slices_written: usize,
    pub formatted_bytes_per_row: usize,
}

impl BytesFormatter {
    /// Whether the formatter's counters are consistent: the slices before the current one are
    /// fully printed, the later ones not at all, and the current one, if begun, is unfinished.
    pub open spec fn well_formed(&self) -> bool {
        &&& self.slices_written <= self.slices@.len()
        &&& forall|i: int|
            0 <= i < self.slices@.len() ==> #[trigger] self.slices@[i].bytes_written
                <= self.slices@[i].bytes@.len()
        &&& forall|i: int|
            self.slices_written < i < self.slices@.len() ==> #[trigger] self.slices@[i].bytes_written
                == 0
        &&& self.slices_written < self.slices@.len() ==> (self.slices@[self.slices_written as int].bytes_written
            > 0 ==> self.slices@[self.slices_written as int].bytes_written
            < self.slices@[self.slices_written as int].bytes@.len())
    }

    /// The bytes still to print.
    pub open spec fn pending(&self) -> Seq<(BytesKind, Seq<u8>)> {
        pending_view(self.slices@, self.slices_written as int)
    }

    /// A formatter of the slices `slices` in rows of `formatted_bytes_per_row` bytes.
    pub fn new(formatted_bytes_per_row: usize, slices: Vec<IonBytes>) -> (r: Self)
        requires
            forall|i: int| 0 <= i < slices@.len() ==> #[trigger] slices@[i].bytes_written == 0,
        ensures
            r.well_formed(),
            r.formatted_bytes_per_row == formatted_bytes_per_row,
            r.pending() == Seq::new(slices@.len(), |i: int| (slices@[i].kind, slices@[i].bytes@)),
    {
        let r = BytesFormatter { slices, slices_written: 0, formatted_bytes_per_row };
        assert forall|i: int| 0 <= i < r.slices@.len() implies #[trigger] r.slices@[i].bytes_written
            <= r.slices@[i].bytes@.len() by {}
        assert(r.pending() =~= Seq::new(r.slices@.len(), |i: int| (r.slices@[i].kind, r.slices@[i].bytes@))) by {
            assert forall|i: int| 0 <= i < r.slices@.len() implies r.slices@[i].bytes@.subrange(
                0,
                r.slices@[i].bytes@.len() as int,
            ) =~= r.slices@[i].bytes@ by {}
        }
        r
    }

    /// Returns `true` if all of the slices have been exhausted.
    pub fn is_empty(&self) -> (r: bool)
        ensures
            r == (self.slices_written == self.slices@.len()),
    {
        self.slices_written == self.slices.len()
    }
}

/// How many of the `pending` bytes a row of `num` bytes prints: `num`, or all of them if fewer
/// remain.
pub open spec fn consumed(pending: Seq<(BytesKind, Seq<u8>)>, num: nat) -> nat {
    if num < flatten(pending).len() {
        num
    } else {
        flatten(pending).len()
    }
}

/// `k` segments of plain padding, each as wide as a printed byte.
pub open spec fn padding(k: nat) -> Seq<SegmentSpec> {
    Seq::new(k, |i: int| SegmentSpec { kind: None, text: "   "@ })
}

/// The segments of a row of `num` bytes: the printed bytes, then padding for the bytes that
/// were missing to fill the row.
pub open spec fn row_segments(pending: Seq<(BytesKind, Seq<u8>)>, num: nat) -> Seq<SegmentSpec> {
    take_row(pending, num).0 + padding((num - consumed(pending, num)) as nat)
}

/// The segments that printing `w` bytes of the slice `b` of kind `k` writes, when `num` bytes
/// were requested.
pub open spec fn slice_segments(k: BytesKind, b: Seq<u8>, w: nat, num: nat) -> Seq<SegmentSpec> {
    let hex = seq![SegmentSpec { kind: Some(k), text: hex_text(b.subrange(0, w as int)) }];
    if w == b.len() || w == num {
        hex.push(SegmentSpec { kind: None, text: " "@ })
    } else {
        hex
    }
}

pub(crate) proof fn lemma_flatten_drop_first(p: Seq<(BytesKind, Seq<u8>)>)
    requires
        p.len() > 0,
    ensures
        flatten(p) == p[0].1 + flatten(p.drop_first()),
{
}

pub(crate) proof fn lemma_flatten_update_first(p: Seq<(BytesKind, Seq<u8>)>, x: (BytesKind, Seq<u8>))
    requires
        p.len() > 0,
    ensures
        flatten(p.update(0, x)) == x.1 + flatten(p.drop_first()),
{
    assert(p.update(0, x).drop_first() =~= p.drop_first());
}

/// Printing a row takes the next bytes in order: afterwards the pending bytes are those that
/// followed the printed ones, and a row prints as many bytes as it is wide unless fewer remain.
pub proof fn law_row_prints_next_bytes(pending: Seq<(BytesKind, Seq<u8>)>, num: nat)
    ensures
        flatten(take_row(pending, num).1) == flatten(pending).subrange(
            consumed(pending, num) as int,
            flatten(pending).len() as int,
        ),
    decreases num, pending.len(),
{
    let total = flatten(pending);
    if num == 0 || pending.len() == 0 {
        assert(total.subrange(0, total.len() as int) =~= total);
        if pending.len() == 0 {
            assert(total.len() == 0);
        }
    } else {
        let (k, b) = pending[0];
        lemma_flatten_drop_first(pending);
        if b.len() == 0 {
            law_row_prints_next_bytes(pending.drop_first(), num);
            assert(total =~= flatten(pending.drop_first()));
        } else {
            let w: nat = if num < b.len() {
                num
            } else {
                b.len()
            };
            let rest = if w == b.len() {
                pending.drop_first()
            } else {
                pending.update(0, (k, b.subrange(w as int, b.len() as int)))
            };
            if w < b.len() {
                lemma_flatten_update_first(pending, (k, b.subrange(w as int, b.len() as int)));
            }
            assert(flatten(rest) =~= total.subrange(w as int, total.len() as int));
            law_row_prints_next_bytes(rest, (num - w) as nat);
            let c = consumed(rest, (num - w) as nat);
            assert(consumed(pending, num) == w + c);
            assert(flatten(rest).subrange(c as int, flatten(rest).len() as int) =~= total.subrange(
                (w + c) as int,
                total.len() as int,
            ));
        }
    }
}

/// The number of characters that the segments `s` write, their styles aside.
pub open spec fn segments_text_len(s: Seq<SegmentSpec>) -> nat
    decreases s.len(),
{
    if s.len() == 0 {
        0
    } else {
        s[0].text.len() + segments_text_len(s.drop_first())
    }
}

proof fn lemma_segments_text_len_add(a: Seq<SegmentSpec>, b: Seq<SegmentSpec>)
    ensures
        segments_text_len(a + b) == segments_text_len(a) + segments_text_len(b),
    decreases a.len(),
{
    if a.len() == 0 {
        assert(a + b =~= b);
    } else {
        assert((a + b).drop_first() =~= a.drop_first() + b);
        lemma_segments_text_len_add(a.drop_first(), b);
    }
}

proof fn lemma_hex_text_len(bytes: Seq<u8>)
    requires
        bytes.len() > 0,
    ensures
        hex_text(bytes).len() == 3 * bytes.len() - 1,
    decreases bytes.len(),
{
    reveal_strlit(" ");
    if bytes.len() > 1 {
        lemma_hex_text_len(bytes.drop_last());
    }
}

proof fn lemma_padding_text_len(k: nat)
    ensures
        segments_text_len(padding(k)) == 3 * k,
    decreases k,
{
    reveal_strlit("   ");
    if k > 0 {
        assert(padding(k)[0].text.len() == 3);
        assert(padding(k).drop_first() =~= padding((k - 1) as nat));
        lemma_padding_text_len((k - 1) as nat);
    }
}

proof fn lemma_take_row_text_len(pending: Seq<(BytesKind, Seq<u8>)>, num: nat)
    ensures
        segments_text_len(take_row(pending, num).0) == 3 * consumed(pending, num),
    decreases num, pending.len(),
{
    if num == 0 || pending.len() == 0 {
        if pending.len() == 0 {
            assert(flatten(pending).len() == 0);
        }
    } else {
        let (k, b) = pending[0];
        lemma_flatten_drop_first(pending);
        if b.len() == 0 {
            lemma_take_row_text_len(pending.drop_first(), num);
            assert(flatten(pending) =~= flatten(pending.drop_first()));
        } else {
            let w: nat = if num < b.len() {
                num
            } else {
                b.len()
            };
            let rest = if w == b.len() {
                pending.drop_first()
            } else {
                pending.update(0, (k, b.subrange(w as int, b.len() as int)))
            };
            if w < b.len() {
                lemma_flatten_update_first(pending, (k, b.subrange(w as int, b.len() as int)));
            }
            assert(flatten(rest).len() == flatten(pending).len() - w);
            let seg = slice_segments(k, b, w, num);
            lemma_hex_text_len(b.subrange(0, w as int));
            assert(segments_text_len(seg) == 3 * w) by {
                reveal_strlit(" ");
                reveal_with_fuel(segments_text_len, 3);
                assert(seg.len() == 2);
                assert(seg.drop_first().drop_first().len() == 0);
            }
            lemma_take_row_text_len(rest, (num - w) as nat);
            lemma_segments_text_len_add(seg, take_row(rest, (num - w) as nat).0);
        }
    }
}

/// A row of `num` bytes always takes three characters per byte, colors aside: two hexadecimal
/// digits and a space for each byte printed, and three spaces for each byte missing to fill it.
pub proof fn law_row_is_three_characters_per_byte(pending: Seq<(BytesKind, Seq<u8>)>, num: nat)
    ensures
        segments_text_len(row_segments(pending, num)) == 3 * num,
{
    lemma_take_row_text_len(pending, num);
    lemma_padding_text_len((num - consumed(pending, num)) as nat);
    lemma_segments_text_len_add(take_row(pending, num).0, padding((num - consumed(pending, num)) as nat));
}

/// The text that the segments `s` write, their styles aside.
pub open spec fn segments_text(s: Seq<SegmentSpec>) -> Seq<char>
    decreases s.len(),
{
    if s.len() == 0 {
        Seq::empty()
    } else {
        s[0].text + segments_text(s.drop_first())
    }
}

/// Each byte as two hexadecimal digits followed by a space.
pub open spec fn spaced_hex(bytes: Seq<u8>) -> Seq<char>
    decreases bytes.len(),
{
    if bytes.len() == 0 {
        Seq::empty()
    } else {
        hex_byte(bytes[0]) + " "@ + spaced_hex(bytes.drop_first())
    }
}

/// `k` times three spaces.
pub open spec fn blanks(k: nat) -> Seq<char>
    decreases k,
{
    if k == 0 {
        Seq::empty()
    } else {
        "   "@ + blanks((k - 1) as nat)
    }
}

proof fn lemma_segments_text_add(a: Seq<SegmentSpec>, b: Seq<SegmentSpec>)
    ensures
        segments_text(a + b) == segments_text(a) + segments_text(b),
    decreases a.len(),
{
    if a.len() == 0 {
        assert(a + b =~= b);
        assert(segments_text(a) + segments_text(b) =~= segments_text(b));
    } else {
        assert((a + b).drop_first() =~= a.drop_first() + b);
        lemma_segments_text_add(a.drop_first(), b);
        assert(segments_text(a + b) =~= segments_text(a) + segments_text(b));
    }
}

proof fn lemma_padding_text(k: nat)
    ensures
        segments_text(padding(k)) == blanks(k),
    decreases k,
{
    if k > 0 {
        assert(padding(k).drop_first() =~= padding((k - 1) as nat));
        lemma_padding_text((k - 1) as nat);
    } else {
        assert(padding(0).len() == 0);
    }
}

proof fn lemma_spaced_hex_add(a: Seq<u8>, b: Seq<u8>)
    ensures
        spaced_hex(a + b) == spaced_hex(a) + spaced_hex(b),
    decreases a.len(),
{
    if a.len() == 0 {
        assert(a + b =~= b);
        assert(spaced_hex(a) + spaced_hex(b) =~= spaced_hex(b));
    } else {
        assert((a + b).drop_first() =~= a.drop_first() + b);
        assert((a + b)[0] == a[0]);
        lemma_spaced_hex_add(a.drop_first(), b);
        assert(spaced_hex(a + b) =~= spaced_hex(a) + spaced_hex(b));
    }
}

proof fn lemma_hex_text_spaced(bytes: Seq<u8>)
    requires
        bytes.len() > 0,
    ensures
        hex_text(bytes) + " "@ == spaced_hex(bytes),
    decreases bytes.len(),
{
    let last = seq![bytes.last()];
    assert(spaced_hex(last.drop_first()) == Seq::<char>::empty());
    assert(spaced_hex(last) =~= hex_byte(bytes.last()) + " "@);
    if bytes.len() == 1 {
        assert(bytes =~= last);
    } else {
        let dl = bytes.drop_last();
        lemma_hex_text_spaced(dl);
        assert(dl + last =~= bytes);
        lemma_spaced_hex_add(dl, last);
        assert(hex_text(bytes) + " "@ =~= (hex_text(dl) + " "@) + (hex_byte(bytes.last()) + " "@));
    }
}

proof fn lemma_take_row_text(pending: Seq<(BytesKind, Seq<u8>)>, num: nat)
    ensures
        segments_text(take_row(pending, num).0) == spaced_hex(
            flatten(pending).subrange(0, consumed(pending, num) as int),
        ),
    decreases num, pending.len(),
{
    let total = flatten(pending);
    if num == 0 || pending.len() == 0 {
        if pending.len() == 0 {
            assert(total.len() == 0);
        }
        assert(total.subrange(0, consumed(pending, num) as int) =~= Seq::<u8>::empty());
    } else {
        let (k, b) = pending[0];
        lemma_flatten_drop_first(pending);
        if b.len() == 0 {
            lemma_take_row_text(pending.drop_first(), num);
            assert(total =~= flatten(pending.drop_first()));
        } else {
            let w: nat = if num < b.len() {
                num
            } else {
                b.len()
            };
            let rest = if w == b.len() {
                pending.drop_first()
            } else {
                pending.update(0, (k, b.subrange(w as int, b.len() as int)))
            };
            if w < b.len() {
                lemma_flatten_update_first(pending, (k, b.subrange(w as int, b.len() as int)));
            }
            assert(flatten(rest) =~= total.subrange(w as int, total.len() as int));
            let seg = slice_segments(k, b, w, num);
            assert(seg.len() == 2);
            assert(segments_text(seg) == hex_text(b.subrange(0, w as int)) + " "@) by {
                reveal_with_fuel(segments_text, 3);
                assert(seg.drop_first().drop_first().len() == 0);
                assert(segments_text(seg) =~= hex_text(b.subrange(0, w as int)) + " "@);
            }
            lemma_hex_text_spaced(b.subrange(0, w as int));
            lemma_take_row_text(rest, (num - w) as nat);
            let c = consumed(rest, (num - w) as nat);
            assert(consumed(pending, num) == w + c);
            lemma_segments_text_add(seg, take_row(rest, (num - w) as nat).0);
            assert(total.subrange(0, (w + c) as int) =~= b.subrange(0, w as int) + flatten(rest).subrange(0, c as int));
            lemma_spaced_hex_add(b.subrange(0, w as int), flatten(rest).subrange(0, c as int));
        }
    }
}

/// A row writes the next bytes in order, each as two hexadecimal digits and a space, then three
/// spaces for each byte missing to fill it (colors aside).
pub proof fn law_row_text_is_next_bytes_in_hex(pending: Seq<(BytesKind, Seq<u8>)>, num: nat)
    ensures
        segments_text(row_segments(pending, num)) == spaced_hex(
            flatten(pending).subrange(0, consumed(pending, num) as int),
        ) + blanks((num - consumed(pending, num)) as nat),
{
    lemma_take_row_text(pending, num);
    lemma_padding_text((num - consumed(pending, num)) as nat);
    lemma_segments_text_add(take_row(pending, num).0, padding((num - consumed(pending, num)) as nat));
}

proof fn lemma_segments_text_len_agrees(s: Seq<SegmentSpec>)
    ensures
        segments_text(s).len() == segments_text_len(s),
    decreases s.len(),
{
    if s.len() > 0 {
        lemma_segments_text_len_agrees(s.drop_first());
    }
}

/// What one call of `BytesFormatter::write_row` does, for a row of `num` bytes with the bytes
/// `pending` still to print: it prints the next `min(num, remaining)` bytes in order, each as
/// two hexadecimal digits and a space, then three spaces for each byte missing to fill the row,
/// so `3 * num` characters in all (colors aside); exactly those bytes are no longer pending.
pub proof fn law_write_row(pending: Seq<(BytesKind, Seq<u8>)>, num: nat)
    ensures
        consumed(pending, num) == if num < flatten(pending).len() {
            num
        } else {
            flatten(pending).len()
        },
        segments_text(row_segments(pending, num)) == spaced_hex(
            flatten(pending).subrange(0, consumed(pending, num) as int),
        ) + blanks((num - consumed(pending, num)) as nat),
        segments_text(row_segments(pending, num)).len() == 3 * num,
        flatten(take_row(pending, num).1) == flatten(pending).subrange(
            consumed(pending, num) as int,
            flatten(pending).len() as int,
        ),
{
    law_row_text_is_next_bytes_in_hex(pending, num);
    law_row_is_three_characters_per_byte(pending, num);
    lemma_segments_text_len_agrees(row_segments(pending, num));
    law_row_prints_next_bytes(pending, num);
}

impl BytesFormatter {
    /// Prints up to `num_bytes` bytes from the current slice; returns how many it printed. A
    /// slice without bytes is passed over.
    fn write_bytes_from_current_slice(&mut self, num_bytes: usize, output: &mut Vec<Segment>) -> (r: usize)
        requires
            old(self).well_formed(),
            num_bytes > 0,
            old(self).slices_written < old(self).slices@.len(),
        ensures
            final(self).well_formed(),
            final(self).formatted_bytes_per_row == old(self).formatted_bytes_per_row,
            ({
                let p = old(self).pending();
                let k = p[0].0;
                let b = p[0].1;
                if b.len() == 0 {
                    &&& r == 0
                    &&& final(self).pending() == p.drop_first()
                    &&& segments_view(final(output)@) == segments_view(old(output)@)
                } else {
                    let w: nat = if num_bytes < b.len() {
                        num_bytes as nat
                    } else {
                        b.len()
                    };
                    &&& r == w
                    &&& final(self).pending() == if w == b.len() {
                        p.drop_first()
                    } else {
                        p.update(0, (k, b.subrange(w as int, b.len() as int)))
                    }
                    &&& segments_view(final(output)@) == segments_view(old(output)@) + slice_segments(
                        k,
                        b,
                        w,
                        num_bytes as nat,
                    )
                }
            }),
    {
        let ghost p = self.pending();
        let idx = self.slices_written;
        let count = self.slices.len();
        let ghost old_slices = self.slices@;
        if self.slices[idx].bytes.len() == 0 {
            self.slices_written = idx + 1;
            assert(self.pending() =~= p.drop_first());
            return 0;
        }
        let start = self.slices[idx].bytes_written;
        let len = self.slices[idx].bytes.len();
        let remaining = self.slices[idx].bytes_remaining();
        let bytes_to_write = if num_bytes < remaining {
            num_bytes
        } else {
            remaining
        };
        let kind = self.slices[idx].kind;
        let text = hex_contents(&self.slices[idx].bytes, start, start + bytes_to_write);
        let ghost before = segments_view(output@);
        output.push(Segment { kind: Some(kind), text });
        self.slices[idx].bytes_written = start + bytes_to_write;
        let ghost b = p[0].1;
        assert(b =~= old_slices[idx as int].bytes@.subrange(start as int, len as int));
        assert(b.subrange(0, bytes_to_write as int) =~= old_slices[idx as int].bytes@.subrange(
            start as int,
            start + bytes_to_write,
        ));
        let finished = start + bytes_to_write == len;
        if finished || num_bytes == bytes_to_write {
            output.push(Segment { kind: None, text: String::from_str(" ") });
        }
        if finished {
            self.slices_written = idx + 1;
            assert(self.pending() =~= p.drop_first());
        } else {
            let ghost q = p.update(0, (kind, b.subrange(bytes_to_write as int, b.len() as int)));
            assert forall|i: int| 0 <= i < q.len() implies #[trigger] self.pending()[i] == q[i] by {
                if i == 0 {
                    assert(self.slices@[idx as int].bytes@ == old_slices[idx as int].bytes@);
                    assert(b.subrange(bytes_to_write as int, b.len() as int) =~= old_slices[idx as int].bytes@.subrange(
                        start + bytes_to_write,
                        len as int,
                    ));
                } else {
                    assert(self.slices@[idx + i] == old_slices[idx + i]);
                }
            }
            assert(self.pending() =~= q);
        }
        assert(segments_view(output@) =~= before + slice_segments(kind, b, bytes_to_write as nat, num_bytes as nat));
        bytes_to_write
    }

    /// Prints the slices' bytes until `num_bytes` were printed or none remain; returns how many
    /// it printed.
    fn write_bytes(&mut self, num_bytes: usize, output: &mut Vec<Segment>) -> (r: usize)
        requires
            old(self).well_formed(),
        ensures
            final(self).well_formed(),
            final(self).formatted_bytes_per_row == old(self).formatted_bytes_per_row,
            segments_view(final(output)@) == segments_view(old(output)@) + take_row(
                old(self).pending(),
                num_bytes as nat,
            ).0,
            final(self).pending() == take_row(old(self).pending(), num_bytes as nat).1,
            r == consumed(old(self).pending(), num_bytes as nat),
    {
        let ghost initial = self.pending();
        let ghost out0 = segments_view(output@);
        let mut bytes_remaining = num_bytes;
        while bytes_remaining > 0 && !self.is_empty()
            invariant
                self.well_formed(),
                self.formatted_bytes_per_row == old(self).formatted_bytes_per_row,
                bytes_remaining <= num_bytes,
                initial == old(self).pending(),
                out0 == segments_view(old(output)@),
                segments_view(output@) + take_row(self.pending(), bytes_remaining as nat).0 == out0
                    + take_row(initial, num_bytes as nat).0,
                take_row(self.pending(), bytes_remaining as nat).1 == take_row(initial, num_bytes as nat).1,
                (num_bytes - bytes_remaining) + consumed(self.pending(), bytes_remaining as nat)
                    == consumed(initial, num_bytes as nat),
            decreases bytes_remaining, self.pending().len(),
        {
            let ghost p = self.pending();
            let ghost out_before = segments_view(output@);
            proof {
                lemma_flatten_drop_first(p);
            }
            let written = self.write_bytes_from_current_slice(bytes_remaining, output);
            proof {
                let k = p[0].0;
                let b = p[0].1;
                if b.len() > 0 && (written as nat) < b.len() {
                    lemma_flatten_update_first(p, (k, b.subrange(written as int, b.len() as int)));
                }
                assert(out_before + take_row(p, bytes_remaining as nat).0 =~= segments_view(output@)
                    + take_row(self.pending(), (bytes_remaining - written) as nat).0);
            }
            bytes_remaining = bytes_remaining - written;
        }
        proof {
            if self.slices_written == self.slices@.len() {
                assert(self.pending().len() == 0);
                assert(flatten(self.pending()).len() == 0);
            }
            assert(segments_view(output@) + Seq::<SegmentSpec>::empty() =~= segments_view(output@));
        }
        num_bytes - bytes_remaining
    }

    /// Prints the next row of hex-encoded bytes; when fewer bytes remain than make a row, the
    /// row is padded to keep the columns aligned (see `law_write_row`).
    pub fn write_row(&mut self, output: &mut Vec<Segment>)
        requires
            old(self).well_formed(),
        ensures
            final(self).well_formed(),
            final(self).formatted_bytes_per_row == old(self).formatted_bytes_per_row,
            segments_view(final(output)@) == segments_view(old(output)@) + row_segments(
                old(self).pending(),
                old(self).formatted_bytes_per_row as nat,
            ),
            final(self).pending() == take_row(old(self).pending(), old(self).formatted_bytes_per_row as nat).1,
    {
        let num_bytes = self.formatted_bytes_per_row;
        let ghost before = segments_view(output@);
        let ghost p = self.pending();
        let bytes_written = self.write_bytes(num_bytes, output);
        let bytes_remaining = num_bytes - bytes_written;
        let ghost mid = segments_view(output@);
        let mut i: usize = 0;
        while i < bytes_remaining
            invariant
                i <= bytes_remaining,
                segments_view(output@) == mid + padding(i as nat),
            decreases bytes_remaining - i,
        {
            let ghost prev = segments_view(output@);
            let pad = String::from_str("   ");
            output.push(Segment { kind: None, text: pad });
            assert(segments_view(output@) =~= prev.push(SegmentSpec { kind: None, text: "   "@ }));
            i = i + 1;
            assert(segments_view(output@) =~= mid + padding(i as nat));
        }
        assert(segments_view(output@) =~= before + row_segments(p, num_bytes as nat));
    }
}

/// What the inspector does with a stream item.
#[derive(Debug, PartialEq, Eq, Clone, Copy, Structural)]
pub enum InspectorAction {
    /// The item appears before the offset specified by `--skip-bytes`. Ignore it.
    Skip,
    /// The item appears after `--skip-bytes` and before `--limit-bytes`. Inspect it.
    Inspect,
    /// The item appears after `--limit-bytes`; stop inspecting.
    LimitReached,
}

/// A row that the inspector writes in place of items it does not show.
#[derive(Debug, PartialEq, Eq, Clone, Copy, Structural)]
pub enum Notice {
    /// The items before `--skip-bytes` are being skipped.
    Skipping,
    /// `--limit-bytes` was reached.
    LimitReached,
}

/// Which stream items the inspector shows: it skips the items that end within the first
/// `bytes_to_skip` bytes and stops at the first item that starts `limit_bytes` bytes after them.
#[derive(Debug, PartialEq, Eq, Clone, Copy)]
pub struct IonInspector {
    pub bytes_to_skip: usize,
    /// Whether an item was shown already, so that skipping is over.
    pub skip_complete: bool,
    pub limit_bytes: usize,
    /// Whether values that macros produce are hidden.
    pub hide_expansion: bool,
}

/// The offset at which inspection stops: `limit` bytes after the skipped ones, or the greatest
/// offset if that is beyond it.
pub open spec fn stop_offset(skip: usize, limit: usize) -> int {
    if skip + limit > usize::MAX {
        usize::MAX as int
    } else {
        skip + limit
    }
}

impl IonInspector {
    /// An inspector that skips `bytes_to_skip` bytes and shows `limit_bytes` bytes after them.
    pub fn new(bytes_to_skip: usize, limit_bytes: usize, hide_expansion: bool) -> (r: Self)
        ensures
            r == (IonInspector { bytes_to_skip, skip_complete: bytes_to_skip == 0, limit_bytes, hide_expansion }),
    {
        IonInspector { bytes_to_skip, skip_complete: bytes_to_skip == 0, limit_bytes, hide_expansion }
    }

    /// Whether to skip an item with the byte range `item` in the stream (`None` for an item
    /// that a macro produced): an item that ends within the bytes to skip is skipped, and an
    /// item without bytes is skipped until skipping is over.
    pub fn should_skip(&self, item: Option<(usize, usize)>) -> (r: bool)
        ensures
            r == match item {
                Some((_, end)) => end <= self.bytes_to_skip,
                None => !self.skip_complete,
            },
    {
        match item {
            Some((_, end)) => end <= self.bytes_to_skip,
            None => !self.skip_complete,
        }
    }

    /// Whether an item with the byte range `item` starts at or after the offset where
    /// inspection stops; an item without bytes never does.
    pub fn is_past_limit(&self, item: Option<(usize, usize)>) -> (r: bool)
        ensures
            r == match item {
                Some((start, _)) => start >= stop_offset(self.bytes_to_skip, self.limit_bytes),
                None => false,
            },
    {
        let limit = if self.bytes_to_skip > usize::MAX - self.limit_bytes {
            usize::MAX
        } else {
            self.bytes_to_skip + self.limit_bytes
        };
        match item {
            Some((start, _)) => start >= limit,
            None => false,
        }
    }

    /// Decides what to do with an item with the byte range `item`, and which notice to write:
    /// the first skipped item gets a notice that items are skipped; the first item not skipped
    /// ends skipping; an item past the limit gets a notice that the limit was reached.
    pub fn select_action(&mut self, has_printed_skip_message: &mut bool, item: Option<(usize, usize)>) -> (r: (
        InspectorAction,
        Option<Notice>,
    ))
        ensures
            final(self).bytes_to_skip == old(self).bytes_to_skip,
            final(self).limit_bytes == old(self).limit_bytes,
            final(self).hide_expansion == old(self).hide_expansion,
            ({
                let skip = match item {
                    Some((_, end)) => end <= old(self).bytes_to_skip,
                    None => !old(self).skip_complete,
                };
                let past = match item {
                    Some((start, _)) => start >= stop_offset(old(self).bytes_to_skip, old(self).limit_bytes),
                    None => false,
                };
                if skip {
                    &&& r == (InspectorAction::Skip, if *old(has_printed_skip_message) {
                        None
                    } else {
                        Some(Notice::Skipping)
                    })
                    &&& *final(has_printed_skip_message)
                    &&& final(self).skip_complete == old(self).skip_complete
                } else {
                    &&& final(self).skip_complete
                    &&& *final(has_printed_skip_message) == *old(has_printed_skip_message)
                    &&& r == if past {
                        (InspectorAction::LimitReached, Some(Notice::LimitReached))
                    } else {
                        (InspectorAction::Inspect, None)
                    }
                }
            }),
    {
        if self.should_skip(item) {
            let notice = if !*has_printed_skip_message {
                *has_printed_skip_message = true;
                Some(Notice::Skipping)
            } else {
                None
            };
            return (InspectorAction::Skip, notice);
        }
        self.skip_complete = true;
        if self.is_past_limit(item) {
            return (InspectorAction::LimitReached, Some(Notice::LimitReached));
        }
        (InspectorAction::Inspect, None)
    }
}

/// Whether `inspect` reads streams in the encoding `encoding`: it reads binary Ion only.
pub fn confirm_encoding_is_supported(encoding: Encoding) -> (r: Result<(), String>)
    ensures
        match encoding {
            Encoding::Binary10 | Encoding::Binary11 => r is Ok,
            _ => r matches Err(e) && e@ == "`inspect` does not support text Ion streams."@,
        },
{
    match encoding {
        Encoding::Binary10 | Encoding::Binary11 => Ok(()),
        _ => Err(String::from_str("`inspect` does not support text Ion streams.")),
    }
}

/// The unsigned value of `s` as `usize::from_str` reads it: an optional `+` followed by one or
/// more decimal digits, at most `usize::MAX`.
pub open spec fn usize_value(s: Seq<char>) -> Option<usize> {
    let digits = if s.len() > 0 && s[0] == '+' {
        s.drop_first()
    } else {
        s
    };
    if digits.len() == 0 {
        None
    } else {
        match crate::primitive::digits_value(digits, 10) {
            Some(v) => if v <= usize::MAX {
                Some(v as usize)
            } else {
                None
            },
            None => None,
        }
    }
}

/// Calls std's `usize::from_str` on `text`: the number that `text` denotes, or `None` where it
/// denotes none.
#[verifier::external_body]
fn usize_from_str(text: &str) -> (r: Option<usize>)
    ensures
        r == usize_value(text@),
{
    <usize as std::str::FromStr>::from_str(text).ok()
}

pub open spec fn invalid_value_text(flag: Seq<char>, value: Seq<char>) -> Seq<char> {
    "Invalid value for '"@ + flag + "': '"@ + value + "'"@
}

fn invalid_value(flag: &str, value: &str) -> (r: String)
    ensures
        r@ == invalid_value_text(flag@, value@),
{
    let mut s = String::from_str("Invalid value for '");
    s.append(flag);
    s.append("': '");
    s.append(value);
    s.append("'");
    s
}

/// The numbers of bytes to skip and to show, from the values of `--skip-bytes` and
/// `--limit-bytes`; a limit of zero means no limit.
pub fn inspect_limits(skip_bytes_arg: &str, limit_bytes_arg: &str) -> (r: Result<(usize, usize), String>)
    ensures
        match usize_value(skip_bytes_arg@) {
            None => r matches Err(e) && e@ == invalid_value_text("--skip-bytes"@, skip_bytes_arg@),
            Some(skip) => match usize_value(limit_bytes_arg@) {
                None => r matches Err(e) && e@ == invalid_value_text("--limit-bytes"@, limit_bytes_arg@),
                Some(limit) => r == Ok::<(usize, usize), String>(
                    (skip, if limit == 0 {
                        usize::MAX
                    } else {
                        limit
                    }),
                ),
            },
        },
{
    let bytes_to_skip = match usize_from_str(skip_bytes_arg) {
        Some(v) => v,
        None => return Err(invalid_value("--skip-bytes", skip_bytes_arg)),
    };
    let mut limit_bytes = match usize_from_str(limit_bytes_arg) {
        Some(v) => v,
        None => return Err(invalid_value("--limit-bytes", limit_bytes_arg)),
    };
    if limit_bytes == 0 {
        limit_bytes = usize::MAX;
    }
    Ok((bytes_to_skip, limit_bytes))
}

/// `text` right-aligned in a column of `width` characters (text that is wider is kept whole).
pub open spec fn right_aligned(text: Seq<char>, width: nat) -> Seq<char> {
    if text.len() >= width {
        text
    } else {
        Seq::new((width - text.len()) as nat, |i: int| ' ') + text
    }
}

pub(crate) fn push_all(out: &mut Vec<char>, s: &str)
    ensures
        final(out)@ == old(out)@ + s@,
{
    let n = s.unicode_len();
    let mut i: usize = 0;
    let ghost start = out@;
    while i < n
        invariant
            n == s@.len(),
            i <= n,
            out@ == start + s@.subrange(0, i as int),
        decreases n - i,
    {
        out.push(s.get_char(i));
        i = i + 1;
        assert(out@ =~= start + s@.subrange(0, i as int));
    }
    assert(s@.subrange(0, n as int) =~= s@);
}

pub(crate) fn push_right_aligned(out: &mut Vec<char>, text: &str, width: usize)
    ensures
        final(out)@ == old(out)@ + right_aligned(text@, width as nat),
{
    let n = text.unicode_len();
    let ghost start = out@;
    if n < width {
        let mut i: usize = 0;
        while i < width - n
            invariant
                n < width,
                i <= width - n,
                out@ == start + Seq::new(i as nat, |j: int| ' '),
            decreases width - n - i,
        {
            out.push(' ');
            i = i + 1;
            assert(out@ =~= start + Seq::new(i as nat, |j: int| ' '));
        }
    }
    push_all(out, text);
    assert(out@ =~= start + right_aligned(text@, width as nat));
}

/// The start of a table row: the offset and length columns, each twelve characters wide, and
/// the separators around them, before the `Binary Ion` column.
pub open spec fn row_prefix_text(offset: Seq<char>, length: Seq<char>) -> Seq<char> {
    "│ "@ + right_aligned(offset, 12) + " │ "@ + right_aligned(length, 12) + " │ "@
}

/// Lays out the offset and length columns of a table row.
pub fn row_prefix(offset: &str, length: &str) -> (r: String)
    ensures
        r@ == row_prefix_text(offset@, length@),
{
    let mut out: Vec<char> = Vec::new();
    push_all(&mut out, "│ ");
    push_right_aligned(&mut out, offset, 12);
    push_all(&mut out, " │ ");
    push_right_aligned(&mut out, length, 12);
    push_all(&mut out, " │ ");
    assert(out@ =~= row_prefix_text(offset@, length@));
    crate::text::string_from_chars(&out)
}

/// The guide that marks each level of depth in the `Text Ion` column.
pub open spec fn indentation_text(depth: nat) -> Seq<char>
    decreases depth,
{
    if depth == 0 {
        Seq::empty()
    } else {
        indentation_text((depth - 1) as nat) + "· "@
    }
}

/// The guide for `depth` levels.
pub fn indentation(depth: usize) -> (r: String)
    ensures
        r@ == indentation_text(depth as nat),
{
    let mut out: Vec<char> = Vec::new();
    let mut i: usize = 0;
    while i < depth
        invariant
            i <= depth,
            out@ == indentation_text(i as nat),
        decreases depth - i,
    {
        push_all(&mut out, "· ");
        i = i + 1;
    }
    crate::text::string_from_chars(&out)
}

/// The comment of a row that stands for skipped items.
pub open spec fn skipping_comment_text(name: Seq<char>) -> Seq<char> {
    "// ...skipping "@ + name + "..."@
}

/// The comment of a row that stands for skipped items named `name`.
pub fn skipping_comment(name: &str) -> (r: String)
    ensures
        r@ == skipping_comment_text(name@),
{
    let mut s = String::from_str("// ...skipping ");
    s.append(name);
    s.append("...");
    s
}

/// The comment of a row that tells that the limit of `limit` bytes was reached.
pub open spec fn limiting_comment_text(limit: nat, action: Seq<char>) -> Seq<char> {
    "// --limit-bytes "@ + crate::text::decimal(limit) + " reached, "@ + action + "."@
}

/// The comment of a row that tells that `--limit-bytes` was reached and what happens then.
pub fn limiting_comment(limit_bytes: usize, action: &str) -> (r: String)
    ensures
        r@ == limiting_comment_text(limit_bytes as nat, action@),
{
    let mut s = String::from_str("// --limit-bytes ");
    s.append(crate::text::usize_to_string(limit_bytes).as_str());
    s.append(" reached, ");
    s.append(action);
    s.append(".");
    s
}

} // verus!
