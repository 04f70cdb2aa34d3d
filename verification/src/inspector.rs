//! The table that the `inspect` command writes for a binary Ion stream: for each item of the
//! stream, rows with its offset, its length, its bytes in hexadecimal and its text Ion.
//!
//! The stream is given as plain values: what each item's bytes are, by kind, and how its parts
//! read as text. The table is a sequence of pieces of text, each with the style it is shown in.
use vstd::prelude::*;

use crate::inspect::{
    flatten, lemma_flatten_drop_first, lemma_flatten_update_first, push_right_aligned,
    bytes_style, comment_style, header_style, eexp_style, ephemeral_annotations_style, ephemeral_bytes_style,
    ephemeral_field_id_style, ephemeral_value_style, field_id_style, indentation,
    indentation_style, indentation_text, limiting_comment, limiting_comment_text, plain,
    plain_style, right_aligned, row_prefix, row_prefix_text, row_segments, segments_view,
    skipping_comment, skipping_comment_text, take_row, text_ion_style, annotations_style,
    BytesFormatter, BytesKind, Color, InspectorAction, IonBytes, IonInspector, Notice, Segment,
    SegmentSpec, Style,
};
use crate::text::{decimal, str_equals, usize_to_string};

verus! {

/// The number of bytes shown in each row of the `Binary Ion` column.
pub const BYTES_PER_ROW: usize = 8;

/// Text written in one style.
#[derive(Debug, PartialEq)]
pub struct Piece {
    pub style: Style,
    pub text: String,
}

/// The value of a [`Piece`].
pub struct PieceSpec {
    pub style: Style,
    pub text: Seq<char>,
}

pub open spec fn pieces_view(s: Seq<Piece>) -> Seq<PieceSpec> {
    s.map_values(|p: Piece| PieceSpec { style: p.style, text: p.text@ })
}

/// A single piece.
pub open spec fn piece(style: Style, text: Seq<char>) -> Seq<PieceSpec> {
    seq![PieceSpec { style, text }]
}

/// The end of a line.
pub open spec fn newline() -> Seq<PieceSpec> {
    piece(plain(), "\n"@)
}

pub open spec fn comment_tint() -> Style {
    Style { dimmed: true, ..plain() }
}

pub open spec fn indentation_tint() -> Style {
    Style { fg: Some(Color::Rgb(100, 100, 100)), bold: true, intense: true, ..plain() }
}

pub open spec fn text_ion_tint() -> Style {
    Style { fg: Some(Color::Rgb(255, 255, 255)), ..plain() }
}

pub open spec fn ephemeral_value_tint() -> Style {
    Style { fg: Some(Color::White), ..plain() }
}

pub open spec fn eexp_tint() -> Style {
    Style { fg: Some(Color::Green), bold: true, intense: true, ..plain() }
}

fn push_str(out: &mut Vec<Piece>, style: Style, text: &str)
    ensures
        pieces_view(final(out)@) == pieces_view(old(out)@) + piece(style, text@),
{
    let ghost before = pieces_view(out@);
    out.push(Piece { style, text: String::from_str(text) });
    assert(pieces_view(out@) =~= before + piece(style, text@));
}

fn push_string(out: &mut Vec<Piece>, style: Style, text: String)
    ensures
        pieces_view(final(out)@) == pieces_view(old(out)@) + piece(style, text@),
{
    let ghost before = pieces_view(out@);
    let ghost t = text@;
    out.push(Piece { style, text });
    assert(pieces_view(out@) =~= before + piece(style, t));
}

/// The pieces of the segments of a row of bytes: each in the style of its kind of bytes.
pub open spec fn segment_pieces(s: Seq<SegmentSpec>) -> Seq<PieceSpec> {
    s.map_values(
        |x: SegmentSpec|
            PieceSpec {
                style: match x.kind {
                    Some(k) => bytes_style(k),
                    None => plain(),
                },
                text: x.text,
            },
    )
}

/// A row of the table: the offset and length columns, the next row of the `pending` bytes, and
/// the guides for `depth` levels at the start of the `Text Ion` column.
pub open spec fn row(depth: nat, offset: Seq<char>, length: Seq<char>, pending: Seq<(BytesKind, Seq<u8>)>) -> Seq<
    PieceSpec,
> {
    piece(plain(), row_prefix_text(offset, length)) + segment_pieces(row_segments(pending, 8)) + piece(
        plain(),
        "│ "@,
    ) + piece(indentation_tint(), indentation_text(depth))
}

/// A row without offset, length or bytes.
pub open spec fn blank_row(depth: nat) -> Seq<PieceSpec> {
    row(depth, ""@, ""@, Seq::empty())
}

/// Writes a row of the table, printing the next row of the formatter's bytes.
fn write_row(out: &mut Vec<Piece>, depth: usize, offset: &str, length: &str, f: &mut BytesFormatter)
    requires
        old(f).well_formed(),
        old(f).formatted_bytes_per_row == BYTES_PER_ROW,
    ensures
        final(f).well_formed(),
        final(f).formatted_bytes_per_row == BYTES_PER_ROW,
        final(f).pending() == take_row(old(f).pending(), 8).1,
        pieces_view(final(out)@) == pieces_view(old(out)@) + row(depth as nat, offset@, length@, old(f).pending()),
{
    let ghost before = pieces_view(out@);
    let ghost p = f.pending();
    push_string(out, plain_style(), row_prefix(offset, length));
    let mut segs: Vec<Segment> = Vec::new();
    f.write_row(&mut segs);
    assert(segments_view(segs@) =~= row_segments(p, 8));
    let ghost mid = pieces_view(out@);
    let mut i: usize = 0;
    while i < segs.len()
        invariant
            i <= segs@.len(),
            pieces_view(out@) == mid + segment_pieces(segments_view(segs@).subrange(0, i as int)),
        decreases segs@.len() - i,
    {
        let ghost prev = pieces_view(out@);
        let style = match segs[i].kind {
            Some(k) => k.style(),
            None => plain_style(),
        };
        push_string(out, style, crate::text::copy_string(&segs[i].text));
        i = i + 1;
        assert(segment_pieces(segments_view(segs@).subrange(0, i as int)) =~= segment_pieces(
            segments_view(segs@).subrange(0, i - 1),
        ).push(PieceSpec { style, text: segs@[i - 1].text@ }));
    }
    assert(segments_view(segs@).subrange(0, segs@.len() as int) =~= segments_view(segs@));
    push_str(out, plain_style(), "│ ");
    push_string(out, indentation_style(), indentation(depth));
    assert(pieces_view(out@) =~= before + row(depth as nat, offset@, length@, p));
}

fn empty_formatter() -> (r: BytesFormatter)
    ensures
        r.well_formed(),
        r.formatted_bytes_per_row == BYTES_PER_ROW,
        r.pending() == Seq::<(BytesKind, Seq<u8>)>::empty(),
{
    let r = BytesFormatter::new(BYTES_PER_ROW, Vec::new());
    assert(r.pending() =~= Seq::<(BytesKind, Seq<u8>)>::empty());
    r
}

/// Writes a row without offset, length or bytes.
fn write_blank_row(out: &mut Vec<Piece>, depth: usize)
    ensures
        pieces_view(final(out)@) == pieces_view(old(out)@) + blank_row(depth as nat),
{
    let mut f = empty_formatter();
    write_row(out, depth, "", "", &mut f);
}

/// The beginning of a row whose first three columns hold an ellipsis.
pub open spec fn ellipsis_row() -> Seq<char> {
    "\n│          ... │          ... │ ...                     │ "@
}

/// The row written for a notice: items named `skipped` are skipped, or the limit of `limit`
/// bytes was reached and the inspector does `action`.
pub open spec fn notice_pieces(depth: nat, notice: Option<Notice>, skipped: Seq<char>, action: Seq<char>, limit: nat) -> Seq<
    PieceSpec,
> {
    match notice {
        None => Seq::empty(),
        Some(Notice::Skipping) => piece(plain(), ellipsis_row()) + piece(indentation_tint(), indentation_text(depth))
            + piece(comment_tint(), skipping_comment_text(skipped)),
        Some(Notice::LimitReached) => piece(plain(), ellipsis_row()) + piece(
            indentation_tint(),
            indentation_text(depth),
        ) + piece(comment_tint(), limiting_comment_text(limit, action)),
    }
}

/// What the inspector in state `ins` does with an item with the byte range `item` when the skip
/// notice was `printed` already: the action, the notice to write, and the inspector's state and
/// whether the skip notice was printed afterwards.
pub open spec fn selection(ins: IonInspector, printed: bool, item: Option<(usize, usize)>) -> (
    InspectorAction,
    Option<Notice>,
    IonInspector,
    bool,
) {
    let skip = match item {
        Some((_, end)) => end <= ins.bytes_to_skip,
        None => !ins.skip_complete,
    };
    let past = match item {
        Some((start, _)) => start >= crate::inspect::stop_offset(ins.bytes_to_skip, ins.limit_bytes),
        None => false,
    };
    if skip {
        (InspectorAction::Skip, if printed {
            None
        } else {
            Some(Notice::Skipping)
        }, ins, true)
    } else if past {
        (InspectorAction::LimitReached, Some(Notice::LimitReached), IonInspector { skip_complete: true, ..ins }, printed)
    } else {
        (InspectorAction::Inspect, None, IonInspector { skip_complete: true, ..ins }, printed)
    }
}

/// Decides what to do with an item, writing the notice that goes with the decision.
fn select(
    ins: &mut IonInspector,
    out: &mut Vec<Piece>,
    depth: usize,
    printed: &mut bool,
    item: Option<(usize, usize)>,
    skipped: &str,
    action: &str,
) -> (r: InspectorAction)
    ensures
        ({
            let (a, n, i2, p2) = selection(*old(ins), *old(printed), item);
            &&& r == a
            &&& *final(ins) == i2
            &&& *final(printed) == p2
            &&& pieces_view(final(out)@) == pieces_view(old(out)@) + notice_pieces(
                depth as nat,
                n,
                skipped@,
                action@,
                old(ins).limit_bytes as nat,
            )
        }),
{
    let ghost before = pieces_view(out@);
    let (a, n) = ins.select_action(printed, item);
    match n {
        None => {
            assert(pieces_view(out@) =~= before + Seq::<PieceSpec>::empty());
        },
        Some(Notice::Skipping) => {
            push_str(out, plain_style(), "\n│          ... │          ... │ ...                     │ ");
            push_string(out, indentation_style(), indentation(depth));
            push_string(out, comment_style(), skipping_comment(skipped));
            assert(pieces_view(out@) =~= before + notice_pieces(
                depth as nat,
                n,
                skipped@,
                action@,
                ins.limit_bytes as nat,
            ));
        },
        Some(Notice::LimitReached) => {
            push_str(out, plain_style(), "\n│          ... │          ... │ ...                     │ ");
            push_string(out, indentation_style(), indentation(depth));
            push_string(out, comment_style(), limiting_comment(ins.limit_bytes, action));
            assert(pieces_view(out@) =~= before + notice_pieces(
                depth as nat,
                n,
                skipped@,
                action@,
                ins.limit_bytes as nat,
            ));
        },
    }
    a
}

/// Bytes of the stream: where they start, how many there are, and their parts by kind.
#[derive(Debug, PartialEq)]
pub struct Encoded {
    pub offset: usize,
    pub length: usize,
    pub parts: Vec<(BytesKind, Vec<u8>)>,
}

pub open spec fn parts_view(p: Seq<(BytesKind, Vec<u8>)>) -> Seq<(BytesKind, Seq<u8>)> {
    p.map_values(|x: (BytesKind, Vec<u8>)| (x.0, x.1@))
}

/// The row of encoded bytes `e`: its offset, its length and the first row of its bytes.
pub open spec fn encoded_row(depth: nat, e: Encoded) -> Seq<PieceSpec> {
    row(depth, decimal(e.offset as nat), decimal(e.length as nat), parts_view(e.parts@))
}

fn copy_bytes(v: &Vec<u8>) -> (r: Vec<u8>)
    ensures
        r@ == v@,
{
    let mut out: Vec<u8> = Vec::new();
    let mut i: usize = 0;
    while i < v.len()
        invariant
            i <= v@.len(),
            out@ == v@.subrange(0, i as int),
        decreases v@.len() - i,
    {
        out.push(v[i]);
        i = i + 1;
        assert(out@ =~= v@.subrange(0, i as int));
    }
    assert(v@.subrange(0, v@.len() as int) =~= v@);
    out
}

/// A formatter of the parts of `e`, in rows of eight bytes.
fn formatter_of(e: &Encoded) -> (r: BytesFormatter)
    ensures
        r.well_formed(),
        r.formatted_bytes_per_row == BYTES_PER_ROW,
        r.pending() == parts_view(e.parts@),
{
    let mut slices: Vec<IonBytes> = Vec::new();
    let mut i: usize = 0;
    while i < e.parts.len()
        invariant
            i <= e.parts@.len(),
            slices@.len() == i,
            forall|j: int| 0 <= j < i ==> #[trigger] slices@[j].bytes_written == 0,
            forall|j: int| 0 <= j < i ==> (#[trigger] slices@[j]).kind == e.parts@[j].0 && slices@[j].bytes@ == e.parts@[j].1@,
        decreases e.parts@.len() - i,
    {
        let (kind, bytes) = &e.parts[i];
        slices.push(IonBytes::new(*kind, copy_bytes(bytes)));
        i = i + 1;
    }
    let ghost sl = slices@;
    let r = BytesFormatter::new(BYTES_PER_ROW, slices);
    assert(r.pending() =~= parts_view(e.parts@)) by {
        assert(Seq::new(sl.len(), |j: int| (sl[j].kind, sl[j].bytes@)) =~= parts_view(e.parts@));
    }
    r
}

/// Writes the row of the encoded bytes `e`.
fn write_encoded_row(out: &mut Vec<Piece>, depth: usize, e: &Encoded) -> (r: BytesFormatter)
    ensures
        pieces_view(final(out)@) == pieces_view(old(out)@) + encoded_row(depth as nat, *e),
        r.well_formed(),
        r.formatted_bytes_per_row == BYTES_PER_ROW,
        r.pending() == take_row(parts_view(e.parts@), 8).1,
{
    let mut f = formatter_of(e);
    let offset = usize_to_string(e.offset);
    let length = usize_to_string(e.length);
    write_row(out, depth, offset.as_str(), length.as_str(), &mut f);
    f
}

/// How a symbol is encoded: by its symbol ID, or as inline text.
#[derive(Debug, PartialEq, Eq, Clone, Copy, Structural)]
pub enum RawSymbol {
    Id(usize),
    Text,
}

/// The comment text for how a symbol is encoded: `$<id>` or `<text>`.
pub open spec fn raw_symbol_text(r: RawSymbol) -> Seq<char> {
    match r {
        RawSymbol::Id(sid) => "$"@ + decimal(sid as nat),
        RawSymbol::Text => "<text>"@,
    }
}

/// The comment texts of how symbols are encoded, separated by commas.
pub open spec fn raw_symbols_text(raw: Seq<RawSymbol>) -> Seq<char>
    decreases raw.len(),
{
    if raw.len() == 0 {
        Seq::empty()
    } else if raw.len() == 1 {
        raw_symbol_text(raw[0])
    } else {
        raw_symbols_text(raw.drop_last()) + ", "@ + raw_symbol_text(raw.last())
    }
}

/// The annotations of a value: encoded in the stream, with the text of each (`None` for a
/// symbol without text) and how each is encoded; or produced by a macro, as text.
#[derive(Debug, PartialEq)]
pub enum AnnotationsItem {
    Literal { encoded: Encoded, names: Vec<Option<String>>, raw: Vec<RawSymbol> },
    Ephemeral { text: String },
}

/// The annotations as text: each followed by `::`, a symbol without text as `$0`.
pub open spec fn annotation_names_text(names: Seq<Option<String>>) -> Seq<char>
    decreases names.len(),
{
    if names.len() == 0 {
        Seq::empty()
    } else {
        annotation_names_text(names.drop_last()) + match names.last() {
            Some(t) => t@,
            None => "$0"@,
        } + "::"@
    }
}

/// The row of a value's annotations: for encoded annotations, their bytes, their text and a
/// comment on how each is encoded; for annotations that a macro produced, their text.
pub open spec fn annotations_pieces(depth: nat, a: AnnotationsItem) -> Seq<PieceSpec> {
    match a {
        AnnotationsItem::Literal { encoded, names, raw } => encoded_row(depth, encoded) + piece(
            Style { fg: Some(Color::Magenta), ..plain() },
            annotation_names_text(names@),
        ) + piece(comment_tint(), " // "@ + raw_symbols_text(raw@)),
        AnnotationsItem::Ephemeral { text } => blank_row(depth) + piece(
            Style { fg: Some(Color::Magenta), dimmed: true, ..plain() },
            text@,
        ),
    }
}

fn raw_symbol_string(r: RawSymbol) -> (s: String)
    ensures
        s@ == raw_symbol_text(r),
{
    match r {
        RawSymbol::Id(sid) => {
            let mut s = String::from_str("$");
            s.append(usize_to_string(sid).as_str());
            s
        },
        RawSymbol::Text => String::from_str("<text>"),
    }
}

fn write_annotations(out: &mut Vec<Piece>, depth: usize, a: &AnnotationsItem)
    ensures
        pieces_view(final(out)@) == pieces_view(old(out)@) + annotations_pieces(depth as nat, *a),
{
    let ghost before = pieces_view(out@);
    match a {
        AnnotationsItem::Literal { encoded, names, raw } => {
            let _ = write_encoded_row(out, depth, encoded);
            let mut text = String::new();
            let mut i: usize = 0;
            while i < names.len()
                invariant
                    i <= names@.len(),
                    text@ == annotation_names_text(names@.subrange(0, i as int)),
                decreases names@.len() - i,
            {
                let ghost sub = names@.subrange(0, i + 1);
                assert(sub.drop_last() =~= names@.subrange(0, i as int));
                match &names[i] {
                    Some(t) => text.append(t.as_str()),
                    None => text.append("$0"),
                }
                text.append("::");
                i = i + 1;
            }
            assert(names@.subrange(0, names@.len() as int) =~= names@);
            push_string(out, annotations_style(), text);
            let mut comment = String::from_str(" // ");
            let mut j: usize = 0;
            while j < raw.len()
                invariant
                    j <= raw@.len(),
                    comment@ == " // "@ + raw_symbols_text(raw@.subrange(0, j as int)),
                decreases raw@.len() - j,
            {
                let ghost sub = raw@.subrange(0, j + 1);
                assert(sub.drop_last() =~= raw@.subrange(0, j as int));
                if j > 0 {
                    comment.append(", ");
                }
                comment.append(raw_symbol_string(raw[j]).as_str());
                j = j + 1;
                assert(comment@ =~= " // "@ + raw_symbols_text(raw@.subrange(0, j as int)));
            }
            assert(raw@.subrange(0, raw@.len() as int) =~= raw@);
            push_string(out, comment_style(), comment);
        },
        AnnotationsItem::Ephemeral { text } => {
            write_blank_row(out, depth);
            push_string(out, ephemeral_annotations_style(), crate::text::copy_string(text));
        },
    }
    assert(pieces_view(out@) =~= before + annotations_pieces(depth as nat, *a));
}

/// The name of a field: encoded in the stream, with how it is encoded, or produced by a macro;
/// its text as Ion writes it, and the symbol's own text if it has one.
#[derive(Debug, PartialEq)]
pub struct FieldName {
    pub literal: Option<(Encoded, RawSymbol)>,
    pub text: String,
    pub name: Option<String>,
}

/// The row of a field's name: its bytes, its text and a comment on how it is encoded, or, for a
/// name that a macro produced, its text only.
pub open spec fn field_name_pieces(depth: nat, f: FieldName) -> Seq<PieceSpec> {
    match f.literal {
        Some((e, raw)) => newline() + encoded_row(depth, e) + piece(
            Style { fg: Some(Color::Cyan), intense: true, ..plain() },
            f.text@,
        ) + piece(plain(), ": "@) + piece(comment_tint(), " // "@ + raw_symbol_text(raw)),
        None => newline() + blank_row(depth) + piece(
            Style { fg: Some(Color::Cyan), intense: true, dimmed: true, ..plain() },
            f.text@,
        ) + piece(plain(), ": "@),
    }
}

fn write_field_name(out: &mut Vec<Piece>, depth: usize, f: &FieldName)
    ensures
        pieces_view(final(out)@) == pieces_view(old(out)@) + field_name_pieces(depth as nat, *f),
{
    let ghost before = pieces_view(out@);
    push_str(out, plain_style(), "\n");
    match &f.literal {
        Some((e, raw)) => {
            let _ = write_encoded_row(out, depth, e);
            push_string(out, field_id_style(), crate::text::copy_string(&f.text));
            push_str(out, plain_style(), ": ");
            let mut c = String::from_str(" // ");
            c.append(raw_symbol_string(*raw).as_str());
            push_string(out, comment_style(), c);
        },
        None => {
            write_blank_row(out, depth);
            push_string(out, ephemeral_field_id_style(), crate::text::copy_string(&f.text));
            push_str(out, plain_style(), ": ");
        },
    }
    assert(pieces_view(out@) =~= before + field_name_pieces(depth as nat, *f));
}

/// How many bytes and slices remain to print.
pub open spec fn pending_measure(p: Seq<(BytesKind, Seq<u8>)>) -> nat {
    flatten(p).len() + p.len()
}

/// Printing a row never leaves more to print, and leaves less when anything remained.
pub proof fn lemma_take_row_progress(p: Seq<(BytesKind, Seq<u8>)>, num: nat)
    ensures
        pending_measure(take_row(p, num).1) <= pending_measure(p),
        num > 0 && p.len() > 0 ==> pending_measure(take_row(p, num).1) < pending_measure(p),
    decreases num, p.len(),
{
    if num == 0 || p.len() == 0 {
    } else {
        let (k, b) = p[0];
        lemma_flatten_drop_first(p);
        if b.len() == 0 {
            lemma_take_row_progress(p.drop_first(), num);
        } else {
            let w: nat = if num < b.len() {
                num
            } else {
                b.len()
            };
            let rest = if w == b.len() {
                p.drop_first()
            } else {
                p.update(0, (k, b.subrange(w as int, b.len() as int)))
            };
            if w < b.len() {
                lemma_flatten_update_first(p, (k, b.subrange(w as int, b.len() as int)));
            }
            lemma_take_row_progress(rest, (num - w) as nat);
        }
    }
}

/// The rows that print what remains of the `pending` bytes, each on a line of its own.
pub open spec fn remaining_rows(depth: nat, pending: Seq<(BytesKind, Seq<u8>)>) -> Seq<PieceSpec>
    decreases pending_measure(pending),
{
    if pending.len() == 0 {
        Seq::empty()
    } else {
        proof {
            lemma_take_row_progress(pending, 8);
        }
        newline() + row(depth, ""@, ""@, pending) + remaining_rows(depth, take_row(pending, 8).1)
    }
}

fn write_remaining_rows(out: &mut Vec<Piece>, depth: usize, f: &mut BytesFormatter)
    requires
        old(f).well_formed(),
        old(f).formatted_bytes_per_row == BYTES_PER_ROW,
    ensures
        pieces_view(final(out)@) == pieces_view(old(out)@) + remaining_rows(depth as nat, old(f).pending()),
{
    let ghost start = pieces_view(out@);
    let ghost p0 = f.pending();
    while !f.is_empty()
        invariant
            f.well_formed(),
            f.formatted_bytes_per_row == BYTES_PER_ROW,
            pieces_view(out@) + remaining_rows(depth as nat, f.pending()) == start + remaining_rows(depth as nat, p0),
        decreases pending_measure(f.pending()),
    {
        let ghost p = f.pending();
        let ghost before = pieces_view(out@);
        proof {
            lemma_take_row_progress(p, 8);
        }
        push_str(out, plain_style(), "\n");
        write_row(out, depth, "", "", f);
        assert(before + remaining_rows(depth as nat, p) =~= pieces_view(out@) + remaining_rows(
            depth as nat,
            f.pending(),
        ));
    }
    assert(f.pending().len() == 0);
    assert(pieces_view(out@) =~= pieces_view(out@) + remaining_rows(depth as nat, f.pending()));
}

/// Where a scalar comes from: encoded in the stream, with its symbol ID if it is a symbol
/// encoded as one; or produced by a macro, with the name of the macro's parameter it stands
/// for, if any.
#[derive(Debug, PartialEq)]
pub enum ScalarSource {
    Literal { encoded: Encoded, symbol_id: Option<usize> },
    Ephemeral { variable: Option<String> },
}

/// The kinds of containers.
#[derive(Debug, PartialEq, Eq, Clone, Copy, Structural)]
pub enum ContainerKind {
    List,
    SExp,
    Struct,
}

/// A value of the stream as the inspector shows it: where it stands in its container (its byte
/// range, `None` for a value that a macro produced, and its field name in a struct), its
/// annotations, and either a scalar's text Ion or a container with its values. A container
/// encoded in the stream has the bytes of its header; one that a macro produced has none.
#[derive(Debug, PartialEq)]
pub enum ValueItem {
    Scalar {
        range: Option<(usize, usize)>,
        name: Option<FieldName>,
        annotations: Option<AnnotationsItem>,
        text: String,
        is_string: bool,
        source: ScalarSource,
    },
    Container {
        range: Option<(usize, usize)>,
        name: Option<FieldName>,
        annotations: Option<AnnotationsItem>,
        kind: ContainerKind,
        header: Option<Encoded>,
        members: Vec<ValueItem>,
    },
}

impl ValueItem {
    pub open spec fn range_of(self) -> Option<(usize, usize)> {
        match self {
            ValueItem::Scalar { range, .. } => range,
            ValueItem::Container { range, .. } => range,
        }
    }

    pub open spec fn name_of(self) -> Option<FieldName> {
        match self {
            ValueItem::Scalar { name, .. } => name,
            ValueItem::Container { name, .. } => name,
        }
    }

    pub open spec fn annotations_of(self) -> Option<AnnotationsItem> {
        match self {
            ValueItem::Scalar { annotations, .. } => annotations,
            ValueItem::Container { annotations, .. } => annotations,
        }
    }
}

pub open spec fn opt_text(c: Option<&str>) -> Option<Seq<char>> {
    match c {
        Some(t) => Some(t@),
        None => None,
    }
}

/// The text of a comment, if there is one.
pub open spec fn comment_text(c: Option<Seq<char>>) -> Seq<char> {
    match c {
        Some(t) => t,
        None => Seq::empty(),
    }
}

/// The note on a symbol encoded by its ID: in parentheses after a comment, or as a comment.
pub open spec fn symbol_id_note(sid: Option<usize>, after_comment: bool) -> Seq<char> {
    match sid {
        Some(s) => if after_comment {
            " ($"@ + decimal(s as nat) + ")"@
        } else {
            " // $"@ + decimal(s as nat)
        },
        None => Seq::empty(),
    }
}

/// The rows of a scalar encoded in the stream: its bytes with its offset and length, its text
/// Ion followed by `delim`, the comment (and how a symbol is encoded), and the rows of the
/// bytes that did not fit in the first row.
pub open spec fn literal_scalar_pieces(
    depth: nat,
    delim: Seq<char>,
    text: Seq<char>,
    e: Encoded,
    sid: Option<usize>,
    comment: Option<Seq<char>>,
) -> Seq<PieceSpec> {
    encoded_row(depth, e) + piece(text_ion_tint(), text + delim) + piece(
        comment_tint(),
        comment_text(comment) + symbol_id_note(sid, comment is Some),
    ) + remaining_rows(depth, take_row(parts_view(e.parts@), 8).1)
}

/// The beginning of a row that names, in the bytes column, the parameter a value stands for.
pub open spec fn variable_row(depth: nat, name: Seq<char>) -> Seq<PieceSpec> {
    piece(plain(), row_prefix_text(""@, ""@)) + piece(
        Style { fg: Some(Color::Green), bold: true, intense: true, dimmed: true, ..plain() },
        right_aligned(name, 23),
    ) + piece(plain(), " │ "@) + piece(indentation_tint(), indentation_text(depth))
}

/// The row of a scalar that a macro produced: its text Ion (underlined if it stands for a
/// parameter, whose name is then shown), `delim`, and the comment.
pub open spec fn ephemeral_scalar_pieces(
    depth: nat,
    delim: Seq<char>,
    text: Seq<char>,
    variable: Option<String>,
    comment: Option<Seq<char>>,
) -> Seq<PieceSpec> {
    let style = if variable is Some {
        Style { underline: true, ..ephemeral_value_tint() }
    } else {
        ephemeral_value_tint()
    };
    blank_row(depth) + match variable {
        Some(v) => variable_row(depth, v@),
        None => Seq::empty(),
    } + piece(style, text) + piece(Style { underline: false, ..style }, delim) + piece(
        comment_tint(),
        comment_text(comment),
    )
}

fn write_literal_scalar(
    out: &mut Vec<Piece>,
    depth: usize,
    delim: &str,
    text: &String,
    e: &Encoded,
    sid: Option<usize>,
    comment: Option<&str>,
)
    ensures
        pieces_view(final(out)@) == pieces_view(old(out)@) + literal_scalar_pieces(
            depth as nat,
            delim@,
            text@,
            *e,
            sid,
            opt_text(comment),
        ),
{
    let ghost before = pieces_view(out@);
    let mut f = write_encoded_row(out, depth, e);
    let mut t = crate::text::copy_string(text);
    t.append(delim);
    push_string(out, text_ion_style(), t);
    let mut c = String::new();
    let wrote = match comment {
        Some(x) => {
            c.append(x);
            true
        },
        None => false,
    };
    match sid {
        Some(s) => {
            if wrote {
                c.append(" ($");
                c.append(usize_to_string(s).as_str());
                c.append(")");
            } else {
                c.append(" // $");
                c.append(usize_to_string(s).as_str());
            }
        },
        None => {},
    }
    assert(c@ == comment_text(opt_text(comment)) + symbol_id_note(sid, opt_text(comment) is Some));
    push_string(out, comment_style(), c);
    write_remaining_rows(out, depth, &mut f);
    assert(pieces_view(out@) =~= before + literal_scalar_pieces(
        depth as nat,
        delim@,
        text@,
        *e,
        sid,
        opt_text(comment),
    ));
}

fn write_ephemeral_scalar(
    out: &mut Vec<Piece>,
    depth: usize,
    delim: &str,
    text: &String,
    variable: &Option<String>,
    comment: Option<&str>,
)
    ensures
        pieces_view(final(out)@) == pieces_view(old(out)@) + ephemeral_scalar_pieces(
            depth as nat,
            delim@,
            text@,
            *variable,
            opt_text(comment),
        ),
{
    let ghost before = pieces_view(out@);
    write_blank_row(out, depth);
    let style = match variable {
        Some(v) => {
            push_string(out, plain_style(), row_prefix("", ""));
            let mut chars: Vec<char> = Vec::new();
            push_right_aligned(&mut chars, v.as_str(), 23);
            push_string(out, ephemeral_bytes_style(), crate::text::string_from_chars(&chars));
            push_str(out, plain_style(), " │ ");
            push_string(out, indentation_style(), indentation(depth));
            Style { underline: true, ..ephemeral_value_style() }
        },
        None => ephemeral_value_style(),
    };
    push_string(out, style, crate::text::copy_string(text));
    push_str(out, Style { underline: false, ..style }, delim);
    let c = match comment {
        Some(x) => String::from_str(x),
        None => String::new(),
    };
    push_string(out, comment_style(), c);
    assert(pieces_view(out@) =~= before + ephemeral_scalar_pieces(
        depth as nat,
        delim@,
        text@,
        *variable,
        opt_text(comment),
    ));
}

/// The depth of the values inside a container at depth `d`.
pub open spec fn deeper(d: usize) -> usize {
    if d < usize::MAX {
        (d + 1) as usize
    } else {
        d
    }
}

/// The opening delimiter of a container, the delimiter after each of its values, and its
/// closing delimiter.
pub open spec fn delimiters(kind: ContainerKind) -> (Seq<char>, Seq<char>, Seq<char>) {
    match kind {
        ContainerKind::List => ("["@, ","@, "]"@),
        ContainerKind::SExp => ("("@, ""@, ")"@),
        ContainerKind::Struct => ("{"@, ","@, "}"@),
    }
}

/// The rows of a value at `depth`, followed by `delim`, with `comment` on a scalar, as the
/// inspector in state `ins` writes them, and its state afterwards: on a new line, the value's
/// annotations on a row of their own, then a scalar's rows, or a container's header row, the
/// rows of its values one level deeper, and a row that closes it.
pub open spec fn value_pieces(
    ins: IonInspector,
    depth: usize,
    delim: Seq<char>,
    v: ValueItem,
    comment: Option<Seq<char>>,
) -> (Seq<PieceSpec>, IonInspector)
    decreases v, 0int,
{
    let ann = match v.annotations_of() {
        Some(a) => annotations_pieces(depth as nat, a) + newline(),
        None => Seq::empty(),
    };
    match v {
        ValueItem::Scalar { text, source, .. } => (newline() + ann + match source {
            ScalarSource::Literal { encoded, symbol_id } => literal_scalar_pieces(
                depth as nat,
                delim,
                text@,
                encoded,
                symbol_id,
                comment,
            ),
            ScalarSource::Ephemeral { variable } => ephemeral_scalar_pieces(
                depth as nat,
                delim,
                text@,
                variable,
                comment,
            ),
        }, ins),
        ValueItem::Container { kind, header, members, .. } => {
            let (open, vdelim, close) = delimiters(kind);
            let head = match header {
                Some(e) => encoded_row(depth as nat, e) + piece(text_ion_tint(), open),
                None => blank_row(depth as nat) + piece(ephemeral_value_tint(), open),
            };
            let tint = if header is Some {
                text_ion_tint()
            } else {
                ephemeral_value_tint()
            };
            let body = members_pieces(
                ins,
                deeper(depth),
                vdelim,
                members@,
                0,
                false,
                kind == ContainerKind::Struct,
            );
            (newline() + ann + head + body.0 + newline() + blank_row(depth as nat) + piece(tint, close + delim), body.1)
        },
    }
}

/// The rows of the values of a container from the `i`th on, at `depth`, as the inspector in
/// state `ins` writes them when the skip notice was `printed` already: each value that is not
/// skipped is shown (a struct's with its field name), and at the first value past the limit
/// the inspector stops.
#[verifier::opaque]
pub open spec fn members_pieces(
    ins: IonInspector,
    depth: usize,
    delim: Seq<char>,
    ms: Seq<ValueItem>,
    i: int,
    printed: bool,
    is_struct: bool,
) -> (Seq<PieceSpec>, IonInspector)
    decreases ms, ms.len() - i,
{
    if i < 0 || i >= ms.len() {
        (Seq::empty(), ins)
    } else {
        let m = ms[i];
        let (a, n, ins1, printed1) = selection(ins, printed, m.range_of());
        let note = notice_pieces(depth as nat, n, if is_struct {
            "fields"@
        } else {
            "values"@
        }, "stepping out"@, ins.limit_bytes as nat);
        match a {
            InspectorAction::Skip => {
                let rest = members_pieces(ins1, depth, delim, ms, i + 1, printed1, is_struct);
                (note + rest.0, rest.1)
            },
            InspectorAction::LimitReached => (note, ins1),
            InspectorAction::Inspect => {
                let name = if is_struct {
                    match m.name_of() {
                        Some(f) => field_name_pieces(depth as nat, f),
                        None => Seq::empty(),
                    }
                } else {
                    Seq::empty()
                };
                let vp = value_pieces(ins1, depth, delim, m, None);
                let rest = members_pieces(vp.1, depth, delim, ms, i + 1, printed1, is_struct);
                (note + name + vp.0 + rest.0, rest.1)
            },
        }
    }
}

/// The rows of a value, for a container.
proof fn lemma_value_container(ins: IonInspector, depth: usize, delim: Seq<char>, v: ValueItem, comment: Option<Seq<char>>)
    requires
        v is Container,
    ensures
        ({
            let ann = match v.annotations_of() {
                Some(a) => annotations_pieces(depth as nat, a) + newline(),
                None => Seq::empty(),
            };
            let kind = v->Container_kind;
            let header = v->Container_header;
            let (open, vdelim, close) = delimiters(kind);
            let head = match header {
                Some(e) => encoded_row(depth as nat, e) + piece(text_ion_tint(), open),
                None => blank_row(depth as nat) + piece(ephemeral_value_tint(), open),
            };
            let tint = if header is Some {
                text_ion_tint()
            } else {
                ephemeral_value_tint()
            };
            let body = members_pieces(ins, deeper(depth), vdelim, v->Container_members@, 0, false, kind == ContainerKind::Struct);
            value_pieces(ins, depth, delim, v, comment) == (
                newline() + ann + head + body.0 + newline() + blank_row(depth as nat) + piece(tint, close + delim),
                body.1,
            )
        }),
{
    reveal(members_pieces);
}

/// The rows of a value, for a scalar.
proof fn lemma_value_scalar(ins: IonInspector, depth: usize, delim: Seq<char>, v: ValueItem, comment: Option<Seq<char>>)
    requires
        v is Scalar,
    ensures
        ({
            let ann = match v.annotations_of() {
                Some(a) => annotations_pieces(depth as nat, a) + newline(),
                None => Seq::empty(),
            };
            let text = v->Scalar_text;
            value_pieces(ins, depth, delim, v, comment) == (newline() + ann + match v->Scalar_source {
                ScalarSource::Literal { encoded, symbol_id } => literal_scalar_pieces(
                    depth as nat,
                    delim,
                    text@,
                    encoded,
                    symbol_id,
                    comment,
                ),
                ScalarSource::Ephemeral { variable } => ephemeral_scalar_pieces(
                    depth as nat,
                    delim,
                    text@,
                    variable,
                    comment,
                ),
            }, ins)
        }),
{
    reveal(members_pieces);
}

/// Writes the rows of a value.
#[verifier::rlimit(100)]
fn write_value(
    ins: &mut IonInspector,
    out: &mut Vec<Piece>,
    depth: usize,
    delim: &str,
    v: &ValueItem,
    comment: Option<&str>,
)
    ensures
        ({
            let (p, i2) = value_pieces(*old(ins), depth, delim@, *v, opt_text(comment));
            &&& pieces_view(final(out)@) == pieces_view(old(out)@) + p
            &&& *final(ins) == i2
        }),
    decreases v,
{
    let ghost before = pieces_view(out@);
    let ghost ins0 = *ins;
    push_str(out, plain_style(), "\n");
    let ann = match v {
        ValueItem::Scalar { annotations, .. } => annotations,
        ValueItem::Container { annotations, .. } => annotations,
    };
    match ann {
        Some(a) => {
            write_annotations(out, depth, a);
            push_str(out, plain_style(), "\n");
        },
        None => {},
    }
    let ghost after_ann = pieces_view(out@);
    match v {
        ValueItem::Scalar { text, source, .. } => {
            match source {
                ScalarSource::Literal { encoded, symbol_id } => {
                    write_literal_scalar(out, depth, delim, text, encoded, *symbol_id, comment);
                },
                ScalarSource::Ephemeral { variable } => {
                    write_ephemeral_scalar(out, depth, delim, text, variable, comment);
                },
            }
            proof {
                lemma_value_scalar(ins0, depth, delim@, *v, opt_text(comment));
            }
            assert(pieces_view(out@) =~= before + value_pieces(ins0, depth, delim@, *v, opt_text(comment)).0);
        },
        ValueItem::Container { kind, header, members, .. } => {
            let (open, vdelim, close) = match kind {
                ContainerKind::List => ("[", ",", "]"),
                ContainerKind::SExp => ("(", "", ")"),
                ContainerKind::Struct => ("{", ",", "}"),
            };
            let tint = match header {
                Some(e) => {
                    let _ = write_encoded_row(out, depth, e);
                    push_str(out, text_ion_style(), open);
                    text_ion_style()
                },
                None => {
                    write_blank_row(out, depth);
                    push_str(out, ephemeral_value_style(), open);
                    ephemeral_value_style()
                },
            };
            let ghost after_head = pieces_view(out@);
            let ghost (sopen, svdelim, sclose) = delimiters(*kind);
            assert(open@ == sopen && vdelim@ == svdelim && close@ == sclose);
            assert(after_head =~= after_ann + match header {
                Some(e) => encoded_row(depth as nat, *e) + piece(text_ion_tint(), sopen),
                None => blank_row(depth as nat) + piece(ephemeral_value_tint(), sopen),
            });
            let d = if depth < usize::MAX {
                depth + 1
            } else {
                depth
            };
            let is_struct = match kind {
                ContainerKind::Struct => true,
                _ => false,
            };
            assert(d == deeper(depth));
            assert(is_struct == (*kind == ContainerKind::Struct));
            write_members(ins, out, d, vdelim, members, is_struct);
            let ghost after_body = pieces_view(out@);
            push_str(out, plain_style(), "\n");
            write_blank_row(out, depth);
            let mut t = String::from_str(close);
            t.append(delim);
            push_string(out, tint, t);
            let ghost tint_spec = if header is Some {
                text_ion_tint()
            } else {
                ephemeral_value_tint()
            };
            let ghost body = members_pieces(ins0, deeper(depth), svdelim, members@, 0, false, *kind == ContainerKind::Struct);
            assert(after_body == after_head + body.0);
            assert(*ins == body.1);
            assert(pieces_view(out@) =~= after_body + newline() + blank_row(depth as nat) + piece(tint_spec, sclose + delim@));
            let ghost ann_spec = match v.annotations_of() {
                Some(a) => annotations_pieces(depth as nat, a) + newline(),
                None => Seq::<PieceSpec>::empty(),
            };
            assert(after_ann =~= before + newline() + ann_spec);
            let ghost head_spec = match header {
                Some(e) => encoded_row(depth as nat, *e) + piece(text_ion_tint(), sopen),
                None => blank_row(depth as nat) + piece(ephemeral_value_tint(), sopen),
            };
            proof {
                lemma_value_container(ins0, depth, delim@, *v, opt_text(comment));
            }
            assert(pieces_view(out@) =~= before + value_pieces(ins0, depth, delim@, *v, opt_text(comment)).0);
        },
    }
}

/// The skipped name for a container's values.
pub open spec fn skipped_name(is_struct: bool) -> Seq<char> {
    if is_struct {
        "fields"@
    } else {
        "values"@
    }
}

/// The rows of the name of a member that is shown: a struct's field name.
pub open spec fn member_name_pieces(depth: usize, m: ValueItem, is_struct: bool) -> Seq<PieceSpec> {
    if is_struct {
        match m.name_of() {
            Some(f) => field_name_pieces(depth as nat, f),
            None => Seq::empty(),
        }
    } else {
        Seq::empty()
    }
}

proof fn lemma_members_step(
    ins: IonInspector,
    depth: usize,
    delim: Seq<char>,
    ms: Seq<ValueItem>,
    i: int,
    printed: bool,
    is_struct: bool,
)
    requires
        0 <= i < ms.len(),
    ensures
        ({
            let (a, n, ins1, printed1) = selection(ins, printed, ms[i].range_of());
            let note = notice_pieces(depth as nat, n, skipped_name(is_struct), "stepping out"@, ins.limit_bytes as nat);
            a == InspectorAction::Skip ==> members_pieces(ins, depth, delim, ms, i, printed, is_struct) == (
                note + members_pieces(ins1, depth, delim, ms, i + 1, printed1, is_struct).0,
                members_pieces(ins1, depth, delim, ms, i + 1, printed1, is_struct).1,
            )
        }),
        ({
            let (a, n, ins1, printed1) = selection(ins, printed, ms[i].range_of());
            let note = notice_pieces(depth as nat, n, skipped_name(is_struct), "stepping out"@, ins.limit_bytes as nat);
            a == InspectorAction::LimitReached ==> members_pieces(ins, depth, delim, ms, i, printed, is_struct) == (note, ins1)
        }),
        ({
            let (a, n, ins1, printed1) = selection(ins, printed, ms[i].range_of());
            let note = notice_pieces(depth as nat, n, skipped_name(is_struct), "stepping out"@, ins.limit_bytes as nat);
            let vp = value_pieces(ins1, depth, delim, ms[i], None);
            a == InspectorAction::Inspect ==> members_pieces(ins, depth, delim, ms, i, printed, is_struct) == (
                note + member_name_pieces(depth, ms[i], is_struct) + vp.0 + members_pieces(vp.1, depth, delim, ms, i + 1, printed1, is_struct).0,
                members_pieces(vp.1, depth, delim, ms, i + 1, printed1, is_struct).1,
            )
        }),
{
    reveal(members_pieces);
}

proof fn lemma_members_end(
    ins: IonInspector,
    depth: usize,
    delim: Seq<char>,
    ms: Seq<ValueItem>,
    printed: bool,
    is_struct: bool,
)
    ensures
        members_pieces(ins, depth, delim, ms, ms.len() as int, printed, is_struct) == (Seq::<PieceSpec>::empty(), ins),
{
    reveal(members_pieces);
}

/// Writes the rows of the values of a container.
#[verifier::rlimit(50)]
fn write_members(
    ins: &mut IonInspector,
    out: &mut Vec<Piece>,
    depth: usize,
    delim: &str,
    ms: &Vec<ValueItem>,
    is_struct: bool,
)
    ensures
        ({
            let (p, i2) = members_pieces(*old(ins), depth, delim@, ms@, 0, false, is_struct);
            &&& pieces_view(final(out)@) == pieces_view(old(out)@) + p
            &&& *final(ins) == i2
        }),
    decreases ms@,
{
    let ghost start = pieces_view(out@);
    let ghost total = members_pieces(*ins, depth, delim@, ms@, 0, false, is_struct);
    let mut printed = false;
    let skipped = if is_struct {
        "fields"
    } else {
        "values"
    };
    let mut i: usize = 0;
    while i < ms.len()
        invariant
            i <= ms@.len(),
            skipped@ == skipped_name(is_struct),
            ({
                let (rest, i2) = members_pieces(*ins, depth, delim@, ms@, i as int, printed, is_struct);
                &&& pieces_view(out@) + rest == start + total.0
                &&& i2 == total.1
            }),
        decreases ms@.len() - i,
    {
        let ghost ins_i = *ins;
        let ghost printed_i = printed;
        let ghost out_i = pieces_view(out@);
        let ghost idx = i as int;
        proof {
            lemma_members_step(ins_i, depth, delim@, ms@, idx, printed_i, is_struct);
        }
        let m = &ms[i];
        let range = match m {
            ValueItem::Scalar { range, .. } => *range,
            ValueItem::Container { range, .. } => *range,
        };
        let a = select(ins, out, depth, &mut printed, range, skipped, "stepping out");
        let ghost out_sel = pieces_view(out@);
        match a {
            InspectorAction::Skip => {
                i = i + 1;
                assert(out_i + members_pieces(ins_i, depth, delim@, ms@, idx, printed_i, is_struct).0
                    =~= pieces_view(out@) + members_pieces(*ins, depth, delim@, ms@, i as int, printed, is_struct).0);
            },
            InspectorAction::LimitReached => {
                i = ms.len();
                proof {
                    lemma_members_end(*ins, depth, delim@, ms@, printed, is_struct);
                }
                assert(out_i + members_pieces(ins_i, depth, delim@, ms@, idx, printed_i, is_struct).0
                    =~= pieces_view(out@) + members_pieces(*ins, depth, delim@, ms@, i as int, printed, is_struct).0);
            },
            InspectorAction::Inspect => {
                if is_struct {
                    match m {
                        ValueItem::Scalar { name: Some(f), .. } => write_field_name(out, depth, f),
                        ValueItem::Container { name: Some(f), .. } => write_field_name(out, depth, f),
                        _ => {},
                    }
                }
                assert(pieces_view(out@) =~= out_sel + member_name_pieces(depth, ms@[idx], is_struct));
                write_value(ins, out, depth, delim, m, None);
                i = i + 1;
                assert(out_i + members_pieces(ins_i, depth, delim@, ms@, idx, printed_i, is_struct).0
                    =~= pieces_view(out@) + members_pieces(*ins, depth, delim@, ms@, i as int, printed, is_struct).0);
            },
        }
    }
    proof {
        lemma_members_end(*ins, depth, delim@, ms@, printed, is_struct);
    }
    assert(pieces_view(out@) =~= start + total.0);
}

/// An e-expression of the stream, or an argument of one: an e-expression with its bytes, the
/// name of the macro it invokes and its arguments; or a value passed for a parameter, with the
/// parameter's name.
#[derive(Debug, PartialEq)]
pub enum MacroExpr {
    EExp { encoded: Encoded, id_text: String, args: Vec<MacroExpr> },
    Arg { parameter: String, value: ValueItem },
}

/// The rows of an e-expression at `depth`: its bytes and the macro it invokes, its arguments
/// one level deeper (each value with a comment naming its parameter), and a row that closes it;
/// or the rows of an argument's value.
pub open spec fn macro_pieces(ins: IonInspector, depth: usize, x: MacroExpr) -> (Seq<PieceSpec>, IonInspector)
    decreases x, 0int,
{
    match x {
        MacroExpr::EExp { encoded, id_text, args } => {
            let body = args_pieces(ins, deeper(depth), args@, 0);
            (newline() + encoded_row(depth as nat, encoded) + piece(eexp_tint(), "(:"@ + id_text@) + body.0 + newline()
                + blank_row(depth as nat) + piece(eexp_tint(), ")"@), body.1)
        },
        MacroExpr::Arg { parameter, value } => value_pieces(ins, depth, ""@, value, Some(" // "@ + parameter@)),
    }
}

/// The rows of the arguments of an e-expression from the `i`th on.
#[verifier::opaque]
pub open spec fn args_pieces(ins: IonInspector, depth: usize, xs: Seq<MacroExpr>, i: int) -> (Seq<PieceSpec>, IonInspector)
    decreases xs, xs.len() - i,
{
    if i < 0 || i >= xs.len() {
        (Seq::empty(), ins)
    } else {
        let p = macro_pieces(ins, depth, xs[i]);
        let rest = args_pieces(p.1, depth, xs, i + 1);
        (p.0 + rest.0, rest.1)
    }
}

proof fn lemma_args_step(ins: IonInspector, depth: usize, xs: Seq<MacroExpr>, i: int)
    ensures
        0 <= i < xs.len() ==> args_pieces(ins, depth, xs, i) == (
            macro_pieces(ins, depth, xs[i]).0 + args_pieces(macro_pieces(ins, depth, xs[i]).1, depth, xs, i + 1).0,
            args_pieces(macro_pieces(ins, depth, xs[i]).1, depth, xs, i + 1).1,
        ),
        i == xs.len() ==> args_pieces(ins, depth, xs, i) == (Seq::<PieceSpec>::empty(), ins),
{
    reveal(args_pieces);
}

proof fn lemma_macro_eexp(ins: IonInspector, depth: usize, x: MacroExpr)
    requires
        x is EExp,
    ensures
        ({
            let body = args_pieces(ins, deeper(depth), x->EExp_args@, 0);
            macro_pieces(ins, depth, x) == (
                newline() + encoded_row(depth as nat, x->EExp_encoded) + piece(eexp_tint(), "(:"@ + x->EExp_id_text@)
                    + body.0 + newline() + blank_row(depth as nat) + piece(eexp_tint(), ")"@),
                body.1,
            )
        }),
{
    reveal(args_pieces);
}

proof fn lemma_macro_arg(ins: IonInspector, depth: usize, x: MacroExpr)
    requires
        x is Arg,
    ensures
        macro_pieces(ins, depth, x) == value_pieces(ins, depth, ""@, x->Arg_value, Some(" // "@ + x->Arg_parameter@)),
{
    reveal(args_pieces);
}

/// Writes the rows of an e-expression or of an argument.
#[verifier::rlimit(50)]
fn write_macro(ins: &mut IonInspector, out: &mut Vec<Piece>, depth: usize, x: &MacroExpr)
    ensures
        ({
            let (p, i2) = macro_pieces(*old(ins), depth, *x);
            &&& pieces_view(final(out)@) == pieces_view(old(out)@) + p
            &&& *final(ins) == i2
        }),
    decreases x,
{
    let ghost before = pieces_view(out@);
    let ghost ins0 = *ins;
    match x {
        MacroExpr::EExp { encoded, id_text, args } => {
            proof {
                lemma_macro_eexp(ins0, depth, *x);
            }
            push_str(out, plain_style(), "\n");
            let _ = write_encoded_row(out, depth, encoded);
            let mut t = String::from_str("(:");
            t.append(id_text.as_str());
            push_string(out, eexp_style(), t);
            let d = if depth < usize::MAX {
                depth + 1
            } else {
                depth
            };
            write_args(ins, out, d, args);
            push_str(out, plain_style(), "\n");
            write_blank_row(out, depth);
            push_str(out, eexp_style(), ")");
            assert(pieces_view(out@) =~= before + macro_pieces(ins0, depth, *x).0);
        },
        MacroExpr::Arg { parameter, value } => {
            proof {
                lemma_macro_arg(ins0, depth, *x);
            }
            let mut c = String::from_str(" // ");
            c.append(parameter.as_str());
            write_value(ins, out, depth, "", value, Some(c.as_str()));
        },
    }
}

/// Writes the rows of the arguments of an e-expression.
#[verifier::rlimit(50)]
fn write_args(ins: &mut IonInspector, out: &mut Vec<Piece>, depth: usize, args: &Vec<MacroExpr>)
    ensures
        ({
            let (p, i2) = args_pieces(*old(ins), depth, args@, 0);
            &&& pieces_view(final(out)@) == pieces_view(old(out)@) + p
            &&& *final(ins) == i2
        }),
    decreases args@,
{
    let ghost start = pieces_view(out@);
    let ghost total = args_pieces(*ins, depth, args@, 0);
    let mut i: usize = 0;
    while i < args.len()
        invariant
            i <= args@.len(),
            pieces_view(out@) + args_pieces(*ins, depth, args@, i as int).0 == start + total.0,
            args_pieces(*ins, depth, args@, i as int).1 == total.1,
        decreases args@.len() - i,
    {
        let ghost ins_i = *ins;
        let ghost out_i = pieces_view(out@);
        proof {
            lemma_args_step(ins_i, depth, args@, i as int);
        }
        write_macro(ins, out, depth, &args[i]);
        i = i + 1;
        assert(out_i + args_pieces(ins_i, depth, args@, i - 1).0 =~= pieces_view(out@) + args_pieces(
            *ins,
            depth,
            args@,
            i as int,
        ).0);
    }
    proof {
        lemma_args_step(*ins, depth, args@, i as int);
    }
    assert(pieces_view(out@) =~= start + total.0);
}

/// A local symbol table of the stream: its annotations, the bytes of its header, its fields,
/// the length of the symbol table in effect and whether this table appends to it.
#[derive(Debug, PartialEq)]
pub struct SymbolTableItem {
    pub annotations: Option<AnnotationsItem>,
    pub header: Encoded,
    pub fields: Vec<ValueItem>,
    pub table_len: usize,
    pub is_append: bool,
}

/// The symbol ID of the first symbol that a symbol table defines: it follows the symbols in
/// effect if the table appends to them, and the system symbols otherwise.
pub open spec fn first_symbol_id(st: SymbolTableItem) -> usize {
    if st.is_append {
        st.table_len
    } else {
        10
    }
}

/// The symbol ID after `sid`.
pub open spec fn next_sid(sid: usize) -> usize {
    if sid < usize::MAX {
        (sid + 1) as usize
    } else {
        sid
    }
}

/// Whether a field is the `symbols` field of a symbol table.
pub open spec fn is_symbols_field(f: ValueItem) -> bool {
    f.name_of() matches Some(n) && n.name matches Some(t) && t@ == "symbols"@
}

/// The comment on a symbol that a symbol table defines with the ID `sid`.
pub open spec fn symbol_comment(sid: usize, is_string: bool) -> Seq<char> {
    if is_string {
        " // -> $"@ + decimal(sid as nat)
    } else {
        " // -> $"@ + decimal(sid as nat) + " (no text)"@
    }
}

/// The rows of the symbols of a symbol table from the `i`th on, the first with the ID `sid`:
/// each scalar shown with a comment on the ID it gets.
#[verifier::opaque]
pub open spec fn symbol_values_pieces(ins: IonInspector, ms: Seq<ValueItem>, i: int, printed: bool, sid: usize) -> (
    Seq<PieceSpec>,
    IonInspector,
)
    decreases ms.len() - i,
{
    if i < 0 || i >= ms.len() {
        (Seq::empty(), ins)
    } else {
        let m = ms[i];
        let (a, n, ins1, printed1) = selection(ins, printed, m.range_of());
        let note = notice_pieces(2, n, "values"@, "stepping out"@, ins.limit_bytes as nat);
        match a {
            InspectorAction::Skip => {
                let rest = symbol_values_pieces(ins1, ms, i + 1, printed1, sid);
                (note + rest.0, rest.1)
            },
            InspectorAction::LimitReached => (note, ins1),
            InspectorAction::Inspect => {
                let vp = value_pieces(ins1, 2, ","@, m, Some(symbol_comment(sid, m matches ValueItem::Scalar { is_string: true, .. })));
                let sid2 = if m is Scalar {
                    next_sid(sid)
                } else {
                    sid
                };
                let rest = symbol_values_pieces(vp.1, ms, i + 1, printed1, sid2);
                (note + vp.0 + rest.0, rest.1)
            },
        }
    }
}

proof fn lemma_symbol_values_step(ins: IonInspector, ms: Seq<ValueItem>, i: int, printed: bool, sid: usize)
    requires
        0 <= i < ms.len(),
    ensures
        ({
            let m = ms[i];
            let (a, n, ins1, printed1) = selection(ins, printed, m.range_of());
            let note = notice_pieces(2, n, "values"@, "stepping out"@, ins.limit_bytes as nat);
            let vp = value_pieces(ins1, 2, ","@, m, Some(symbol_comment(sid, m matches ValueItem::Scalar { is_string: true, .. })));
            let sid2 = if m is Scalar {
                next_sid(sid)
            } else {
                sid
            };
            &&& a == InspectorAction::Skip ==> symbol_values_pieces(ins, ms, i, printed, sid) == (
                note + symbol_values_pieces(ins1, ms, i + 1, printed1, sid).0,
                symbol_values_pieces(ins1, ms, i + 1, printed1, sid).1,
            )
            &&& a == InspectorAction::LimitReached ==> symbol_values_pieces(ins, ms, i, printed, sid) == (note, ins1)
            &&& a == InspectorAction::Inspect ==> symbol_values_pieces(ins, ms, i, printed, sid) == (
                note + vp.0 + symbol_values_pieces(vp.1, ms, i + 1, printed1, sid2).0,
                symbol_values_pieces(vp.1, ms, i + 1, printed1, sid2).1,
            )
        }),
{
    reveal(symbol_values_pieces);
}

proof fn lemma_symbol_values_end(ins: IonInspector, ms: Seq<ValueItem>, printed: bool, sid: usize)
    ensures
        symbol_values_pieces(ins, ms, ms.len() as int, printed, sid) == (Seq::<PieceSpec>::empty(), ins),
{
    reveal(symbol_values_pieces);
}

/// Writes the rows of the symbols of a symbol table.
#[verifier::rlimit(50)]
fn write_symbol_values(ins: &mut IonInspector, out: &mut Vec<Piece>, ms: &Vec<ValueItem>, sid0: usize)
    ensures
        ({
            let (p, i2) = symbol_values_pieces(*old(ins), ms@, 0, false, sid0);
            &&& pieces_view(final(out)@) == pieces_view(old(out)@) + p
            &&& *final(ins) == i2
        }),
{
    let ghost start = pieces_view(out@);
    let ghost total = symbol_values_pieces(*ins, ms@, 0, false, sid0);
    let mut printed = false;
    let mut sid = sid0;
    let mut i: usize = 0;
    while i < ms.len()
        invariant
            i <= ms@.len(),
            pieces_view(out@) + symbol_values_pieces(*ins, ms@, i as int, printed, sid).0 == start + total.0,
            symbol_values_pieces(*ins, ms@, i as int, printed, sid).1 == total.1,
        decreases ms@.len() - i,
    {
        let ghost ins_i = *ins;
        let ghost printed_i = printed;
        let ghost out_i = pieces_view(out@);
        let ghost sid_i = sid;
        let ghost idx = i as int;
        proof {
            lemma_symbol_values_step(ins_i, ms@, idx, printed_i, sid_i);
        }
        let m = &ms[i];
        let range = match m {
            ValueItem::Scalar { range, .. } => *range,
            ValueItem::Container { range, .. } => *range,
        };
        let a = select(ins, out, 2, &mut printed, range, "values", "stepping out");
        match a {
            InspectorAction::Skip => {
                i = i + 1;
                assert(out_i + symbol_values_pieces(ins_i, ms@, idx, printed_i, sid_i).0 =~= pieces_view(out@)
                    + symbol_values_pieces(*ins, ms@, i as int, printed, sid).0);
            },
            InspectorAction::LimitReached => {
                i = ms.len();
                proof {
                    lemma_symbol_values_end(*ins, ms@, printed, sid);
                }
                assert(out_i + symbol_values_pieces(ins_i, ms@, idx, printed_i, sid_i).0 =~= pieces_view(out@)
                    + symbol_values_pieces(*ins, ms@, i as int, printed, sid).0);
            },
            InspectorAction::Inspect => {
                let (is_scalar, is_string) = match m {
                    ValueItem::Scalar { is_string, .. } => (true, *is_string),
                    ValueItem::Container { .. } => (false, false),
                };
                let mut c = String::from_str(" // -> $");
                c.append(usize_to_string(sid).as_str());
                if !is_string {
                    c.append(" (no text)");
                }
                assert(c@ == symbol_comment(sid, ms@[idx] matches ValueItem::Scalar { is_string: true, .. }));
                write_value(ins, out, 2, ",", m, Some(c.as_str()));
                if is_scalar && sid < usize::MAX {
                    sid = sid + 1;
                }
                i = i + 1;
                assert(out_i + symbol_values_pieces(ins_i, ms@, idx, printed_i, sid_i).0 =~= pieces_view(out@)
                    + symbol_values_pieces(*ins, ms@, i as int, printed, sid).0);
            },
        }
    }
    proof {
        lemma_symbol_values_end(*ins, ms@, printed, sid);
    }
    assert(pieces_view(out@) =~= start + total.0);
}

/// The rows of a field at `depth`: its name, then its value followed by a comma.
pub open spec fn field_pieces(ins: IonInspector, depth: usize, f: ValueItem) -> (Seq<PieceSpec>, IonInspector) {
    let vp = value_pieces(ins, depth, ","@, f, None);
    (member_name_pieces(depth, f, true) + vp.0, vp.1)
}

/// The rows of the `symbols` field of a symbol table: for a list, its header and each symbol
/// with the ID it gets; for anything else, its value with a comment that it is ignored.
pub open spec fn symbols_field_pieces(ins: IonInspector, f: ValueItem, sid0: usize) -> (Seq<PieceSpec>, IonInspector) {
    let name = member_name_pieces(1, f, true);
    match f {
        ValueItem::Container { kind: ContainerKind::List, header: Some(h), members, .. } => {
            let body = symbol_values_pieces(ins, members@, 0, false, sid0);
            (name + newline() + encoded_row(1, h) + piece(text_ion_tint(), "["@) + body.0 + newline() + blank_row(1)
                + piece(text_ion_tint(), "],"@), body.1)
        },
        _ => {
            let vp = value_pieces(ins, 1, ","@, f, Some(" // Invalid, ignored"@));
            (name + vp.0, vp.1)
        },
    }
}

/// The rows of the fields of a symbol table from the `i`th on.
#[verifier::opaque]
pub open spec fn symtab_fields_pieces(ins: IonInspector, fs: Seq<ValueItem>, i: int, printed: bool, sid0: usize) -> (
    Seq<PieceSpec>,
    IonInspector,
)
    decreases fs.len() - i,
{
    if i < 0 || i >= fs.len() {
        (Seq::empty(), ins)
    } else {
        let f = fs[i];
        let (a, n, ins1, printed1) = selection(ins, printed, f.range_of());
        let note = notice_pieces(1, n, "fields"@, "stepping out"@, ins.limit_bytes as nat);
        match a {
            InspectorAction::Skip => {
                let rest = symtab_fields_pieces(ins1, fs, i + 1, printed1, sid0);
                (note + rest.0, rest.1)
            },
            InspectorAction::LimitReached => (note, ins1),
            InspectorAction::Inspect => {
                let fp = if is_symbols_field(f) {
                    symbols_field_pieces(ins1, f, sid0)
                } else {
                    field_pieces(ins1, 1, f)
                };
                let rest = symtab_fields_pieces(fp.1, fs, i + 1, printed1, sid0);
                (note + fp.0 + rest.0, rest.1)
            },
        }
    }
}

proof fn lemma_symtab_fields_step(ins: IonInspector, fs: Seq<ValueItem>, i: int, printed: bool, sid0: usize)
    requires
        0 <= i < fs.len(),
    ensures
        ({
            let f = fs[i];
            let (a, n, ins1, printed1) = selection(ins, printed, f.range_of());
            let note = notice_pieces(1, n, "fields"@, "stepping out"@, ins.limit_bytes as nat);
            let fp = if is_symbols_field(f) {
                symbols_field_pieces(ins1, f, sid0)
            } else {
                field_pieces(ins1, 1, f)
            };
            &&& a == InspectorAction::Skip ==> symtab_fields_pieces(ins, fs, i, printed, sid0) == (
                note + symtab_fields_pieces(ins1, fs, i + 1, printed1, sid0).0,
                symtab_fields_pieces(ins1, fs, i + 1, printed1, sid0).1,
            )
            &&& a == InspectorAction::LimitReached ==> symtab_fields_pieces(ins, fs, i, printed, sid0) == (note, ins1)
            &&& a == InspectorAction::Inspect ==> symtab_fields_pieces(ins, fs, i, printed, sid0) == (
                note + fp.0 + symtab_fields_pieces(fp.1, fs, i + 1, printed1, sid0).0,
                symtab_fields_pieces(fp.1, fs, i + 1, printed1, sid0).1,
            )
        }),
{
    reveal(symtab_fields_pieces);
}

proof fn lemma_symtab_fields_end(ins: IonInspector, fs: Seq<ValueItem>, printed: bool, sid0: usize)
    ensures
        symtab_fields_pieces(ins, fs, fs.len() as int, printed, sid0) == (Seq::<PieceSpec>::empty(), ins),
{
    reveal(symtab_fields_pieces);
}

/// The rows of a local symbol table: its annotations, its header, its fields (the `symbols`
/// field with the IDs that its symbols get) and a row that closes it.
pub open spec fn symbol_table_pieces(ins: IonInspector, st: SymbolTableItem) -> (Seq<PieceSpec>, IonInspector) {
    symbol_table_pieces_from(ins, st, first_symbol_id(st))
}

/// The rows of a local symbol table whose first symbol gets the ID `sid0`.
pub open spec fn symbol_table_pieces_from(ins: IonInspector, st: SymbolTableItem, sid0: usize) -> (
    Seq<PieceSpec>,
    IonInspector,
) {
    let ann = match st.annotations {
        Some(a) => newline() + annotations_pieces(0, a),
        None => Seq::empty(),
    };
    let body = symtab_fields_pieces(ins, st.fields@, 0, false, sid0);
    (ann + newline() + encoded_row(0, st.header) + piece(text_ion_tint(), "{"@) + body.0 + newline() + blank_row(0)
        + piece(text_ion_tint(), "}"@), body.1)
}

/// The symbols that a symbol table defines are numbered from the first ID that no symbol in
/// effect holds when the table appends to them (the length of the table in effect, at least
/// the ten system symbols), and from 10, right after the system symbols, when it replaces them.
pub proof fn law_symbol_ids_follow_symbols_in_effect(ins: IonInspector, st: SymbolTableItem)
    requires
        st.is_append ==> st.table_len >= 10,
    ensures
        symbol_table_pieces(ins, st) == symbol_table_pieces_from(
            ins,
            st,
            if st.is_append {
                st.table_len
            } else {
                10
            },
        ),
        st.is_append ==> first_symbol_id(st) >= st.table_len,
        first_symbol_id(st) >= 10,
{
}

fn write_member_name(out: &mut Vec<Piece>, depth: usize, f: &ValueItem)
    ensures
        pieces_view(final(out)@) == pieces_view(old(out)@) + member_name_pieces(depth, *f, true),
{
    match f {
        ValueItem::Scalar { name: Some(n), .. } => write_field_name(out, depth, n),
        ValueItem::Container { name: Some(n), .. } => write_field_name(out, depth, n),
        _ => {
            assert(pieces_view(out@) =~= pieces_view(out@) + Seq::<PieceSpec>::empty());
        },
    }
}

fn write_symbols_field(ins: &mut IonInspector, out: &mut Vec<Piece>, f: &ValueItem, sid0: usize)
    ensures
        ({
            let (p, i2) = symbols_field_pieces(*old(ins), *f, sid0);
            &&& pieces_view(final(out)@) == pieces_view(old(out)@) + p
            &&& *final(ins) == i2
        }),
{
    let ghost before = pieces_view(out@);
    let ghost ins0 = *ins;
    write_member_name(out, 1, f);
    match f {
        ValueItem::Container { kind: ContainerKind::List, header: Some(h), members, .. } => {
            push_str(out, plain_style(), "\n");
            let _ = write_encoded_row(out, 1, h);
            push_str(out, text_ion_style(), "[");
            write_symbol_values(ins, out, members, sid0);
            push_str(out, plain_style(), "\n");
            write_blank_row(out, 1);
            push_str(out, text_ion_style(), "],");
            assert(pieces_view(out@) =~= before + symbols_field_pieces(ins0, *f, sid0).0);
        },
        _ => {
            write_value(ins, out, 1, ",", f, Some(" // Invalid, ignored"));
            assert(pieces_view(out@) =~= before + symbols_field_pieces(ins0, *f, sid0).0);
        },
    }
}

#[verifier::rlimit(50)]
fn write_symtab_fields(ins: &mut IonInspector, out: &mut Vec<Piece>, fs: &Vec<ValueItem>, sid0: usize)
    ensures
        ({
            let (p, i2) = symtab_fields_pieces(*old(ins), fs@, 0, false, sid0);
            &&& pieces_view(final(out)@) == pieces_view(old(out)@) + p
            &&& *final(ins) == i2
        }),
{
    let ghost start = pieces_view(out@);
    let ghost total = symtab_fields_pieces(*ins, fs@, 0, false, sid0);
    let mut printed = false;
    let mut i: usize = 0;
    while i < fs.len()
        invariant
            i <= fs@.len(),
            pieces_view(out@) + symtab_fields_pieces(*ins, fs@, i as int, printed, sid0).0 == start + total.0,
            symtab_fields_pieces(*ins, fs@, i as int, printed, sid0).1 == total.1,
        decreases fs@.len() - i,
    {
        let ghost ins_i = *ins;
        let ghost printed_i = printed;
        let ghost out_i = pieces_view(out@);
        let ghost idx = i as int;
        proof {
            lemma_symtab_fields_step(ins_i, fs@, idx, printed_i, sid0);
        }
        let f = &fs[i];
        let range = match f {
            ValueItem::Scalar { range, .. } => *range,
            ValueItem::Container { range, .. } => *range,
        };
        let a = select(ins, out, 1, &mut printed, range, "fields", "stepping out");
        match a {
            InspectorAction::Skip => {
                i = i + 1;
            },
            InspectorAction::LimitReached => {
                i = fs.len();
                proof {
                    lemma_symtab_fields_end(*ins, fs@, printed, sid0);
                }
            },
            InspectorAction::Inspect => {
                let is_symbols = match f {
                    ValueItem::Scalar { name: Some(FieldName { name: Some(t), .. }), .. } => str_equals(t.as_str(), "symbols"),
                    ValueItem::Container { name: Some(FieldName { name: Some(t), .. }), .. } => str_equals(
                        t.as_str(),
                        "symbols",
                    ),
                    _ => false,
                };
                assert(is_symbols == is_symbols_field(fs@[idx]));
                if is_symbols {
                    write_symbols_field(ins, out, f, sid0);
                } else {
                    write_member_name(out, 1, f);
                    write_value(ins, out, 1, ",", f, None);
                }
                i = i + 1;
            },
        }
        assert(out_i + symtab_fields_pieces(ins_i, fs@, idx, printed_i, sid0).0 =~= pieces_view(out@)
            + symtab_fields_pieces(*ins, fs@, i as int, printed, sid0).0);
    }
    proof {
        lemma_symtab_fields_end(*ins, fs@, printed, sid0);
    }
    assert(pieces_view(out@) =~= start + total.0);
}

fn write_symbol_table(ins: &mut IonInspector, out: &mut Vec<Piece>, st: &SymbolTableItem)
    ensures
        ({
            let (p, i2) = symbol_table_pieces(*old(ins), *st);
            &&& pieces_view(final(out)@) == pieces_view(old(out)@) + p
            &&& *final(ins) == i2
        }),
{
    let ghost before = pieces_view(out@);
    match &st.annotations {
        Some(a) => {
            push_str(out, plain_style(), "\n");
            write_annotations(out, 0, a);
        },
        None => {},
    }
    push_str(out, plain_style(), "\n");
    let _ = write_encoded_row(out, 0, &st.header);
    push_str(out, text_ion_style(), "{");
    let sid0 = if st.is_append {
        st.table_len
    } else {
        10
    };
    write_symtab_fields(ins, out, &st.fields, sid0);
    push_str(out, plain_style(), "\n");
    write_blank_row(out, 0);
    push_str(out, text_ion_style(), "}");
    assert(pieces_view(out@) =~= before + symbol_table_pieces(*old(ins), *st).0);
}

/// An item of the stream.
#[derive(Debug, PartialEq)]
pub enum TopItem {
    /// An Ion version marker: its offset, its bytes and the version it names.
    VersionMarker { offset: usize, bytes: Vec<u8>, major: u8, minor: u8 },
    EExp(MacroExpr),
    SymbolTable(SymbolTableItem),
    EncodingDirective(ValueItem),
    Value(ValueItem),
    /// The end of the stream, at `position`.
    EndOfStream { position: usize },
}

/// An item of the stream with its byte range (`None` where a macro produced it) and whether a
/// macro produced it.
#[derive(Debug, PartialEq)]
pub struct TopEntry {
    pub range: Option<(usize, usize)>,
    pub ephemeral: bool,
    pub item: TopItem,
}

pub open spec fn header_tint() -> Style {
    Style { bold: true, intense: true, ..plain() }
}

/// The line between the rows of two items.
pub open spec fn row_separator() -> Seq<char> {
    "\n├──────────────┼──────────────┼─────────────────────────┤"@
}

/// The line that ends the table.
pub open spec fn end_of_table() -> Seq<char> {
    "\n└──────────────┴──────────────┴─────────────────────────┘"@
}

/// The header of the table: the names of its four columns, framed.
pub open spec fn table_header_pieces() -> Seq<PieceSpec> {
    piece(plain(), "┌──────────────┬──────────────┬─────────────────────────┬──────────────────────┐"@) + piece(
        plain(),
        "\n│"@,
    ) + piece(header_tint(), "    Offset    "@) + piece(plain(), "│"@) + piece(header_tint(), "    Length    "@) + piece(
        plain(),
        "│"@,
    ) + piece(header_tint(), "       Binary Ion        "@) + piece(plain(), "│"@) + piece(
        header_tint(),
        "       Text Ion       "@,
    ) + piece(plain(), "│\n"@) + piece(
        plain(),
        "├──────────────┼──────────────┼─────────────────────────┼──────────────────────┘"@,
    )
}

/// The rows of an item that is shown.
pub open spec fn item_pieces(ins: IonInspector, e: TopEntry) -> (Seq<PieceSpec>, IonInspector) {
    match e.item {
        TopItem::VersionMarker { offset, bytes, major, minor } => (newline() + row(
            0,
            decimal(offset as nat),
            "4"@,
            seq![(BytesKind::VersionMarker, bytes@)],
        ) + piece(
            bytes_style(BytesKind::VersionMarker),
            "$ion_"@ + decimal(major as nat) + "_"@ + decimal(minor as nat),
        ) + piece(comment_tint(), " // Version marker"@), ins),
        TopItem::EExp(x) => macro_pieces(ins, 0, x),
        TopItem::SymbolTable(st) => symbol_table_pieces(ins, st),
        TopItem::EncodingDirective(v) => value_pieces(ins, 0, ""@, v, None),
        TopItem::Value(v) => if e.ephemeral && ins.hide_expansion {
            (Seq::empty(), ins)
        } else {
            value_pieces(ins, 0, ""@, v, None)
        },
        TopItem::EndOfStream { position } => (newline() + row(0, decimal(position as nat), ""@, Seq::empty()) + piece(
            comment_tint(),
            "// End of stream"@,
        ), ins),
    }
}

/// What the inspector in state `ins` writes for the item `e` of the stream, when the skip
/// notice was `printed` already and `is_first` tells whether `e` is the first item: the
/// inspector's state and whether the skip notice was printed afterwards, and whether the
/// inspection stops there (at the end of the stream, or at an item past the limit). A skipped
/// item gets only the skip notice, once; an item past the limit only the limit notice; a shown
/// item that is neither the first nor the end of the stream, nor produced by a macro, is
/// separated from the one before by a line.
pub open spec fn item_step(ins: IonInspector, printed: bool, is_first: bool, e: TopEntry) -> (
    Seq<PieceSpec>,
    IonInspector,
    bool,
    bool,
) {
    let (a, n, ins1, printed1) = selection(ins, printed, e.range);
    let note = notice_pieces(0, n, "stream items"@, "ending"@, ins.limit_bytes as nat);
    match a {
        InspectorAction::Skip => (note, ins1, printed1, false),
        InspectorAction::LimitReached => (note, ins1, printed1, true),
        InspectorAction::Inspect => {
            let sep = if !is_first && !(e.item is EndOfStream) && !e.ephemeral {
                piece(plain(), row_separator())
            } else {
                Seq::empty()
            };
            let body = item_pieces(ins1, e);
            (note + sep + body.0, body.1, printed1, e.item is EndOfStream)
        },
    }
}

/// The header of the table.
pub fn table_header() -> (r: Vec<Piece>)
    ensures
        pieces_view(r@) == table_header_pieces(),
{
    let mut out: Vec<Piece> = Vec::new();
    push_str(&mut out, plain_style(), "┌──────────────┬──────────────┬─────────────────────────┬──────────────────────┐");
    push_str(&mut out, plain_style(), "\n│");
    push_str(&mut out, header_style(), "    Offset    ");
    push_str(&mut out, plain_style(), "│");
    push_str(&mut out, header_style(), "    Length    ");
    push_str(&mut out, plain_style(), "│");
    push_str(&mut out, header_style(), "       Binary Ion        ");
    push_str(&mut out, plain_style(), "│");
    push_str(&mut out, header_style(), "       Text Ion       ");
    push_str(&mut out, plain_style(), "│\n");
    push_str(&mut out, plain_style(), "├──────────────┼──────────────┼─────────────────────────┼──────────────────────┘");
    assert(pieces_view(out@) =~= table_header_pieces());
    out
}

/// The line that ends the table.
pub fn table_end() -> (r: Piece)
    ensures
        r.style == plain(),
        r.text@ == end_of_table(),
{
    Piece { style: plain_style(), text: String::from_str("\n└──────────────┴──────────────┴─────────────────────────┘") }
}

fn write_item(ins: &mut IonInspector, out: &mut Vec<Piece>, e: &TopEntry)
    ensures
        ({
            let (p, i2) = item_pieces(*old(ins), *e);
            &&& pieces_view(final(out)@) == pieces_view(old(out)@) + p
            &&& *final(ins) == i2
        }),
{
    let ghost before = pieces_view(out@);
    match &e.item {
        TopItem::VersionMarker { offset, bytes, major, minor } => {
            push_str(out, plain_style(), "\n");
            let mut parts: Vec<(BytesKind, Vec<u8>)> = Vec::new();
            parts.push((BytesKind::VersionMarker, copy_bytes(bytes)));
            let enc = Encoded { offset: *offset, length: 4, parts };
            assert(parts_view(enc.parts@) =~= seq![(BytesKind::VersionMarker, bytes@)]);
            let mut f = formatter_of(&enc);
            let off = usize_to_string(*offset);
            write_row(out, 0, off.as_str(), "4", &mut f);
            let mut t = String::from_str("$ion_");
            t.append(usize_to_string(*major as usize).as_str());
            t.append("_");
            t.append(usize_to_string(*minor as usize).as_str());
            push_string(out, BytesKind::VersionMarker.style(), t);
            push_str(out, comment_style(), " // Version marker");
            assert(pieces_view(out@) =~= before + item_pieces(*old(ins), *e).0);
        },
        TopItem::EExp(x) => {
            write_macro(ins, out, 0, x);
        },
        TopItem::SymbolTable(st) => {
            write_symbol_table(ins, out, st);
        },
        TopItem::EncodingDirective(v) => {
            write_value(ins, out, 0, "", v, None);
        },
        TopItem::Value(v) => {
            if e.ephemeral && ins.hide_expansion {
                assert(pieces_view(out@) =~= before + Seq::<PieceSpec>::empty());
            } else {
                write_value(ins, out, 0, "", v, None);
            }
        },
        TopItem::EndOfStream { position } => {
            push_str(out, plain_style(), "\n");
            let mut f = empty_formatter();
            let pos = usize_to_string(*position);
            write_row(out, 0, pos.as_str(), "", &mut f);
            push_str(out, comment_style(), "// End of stream");
            assert(pieces_view(out@) =~= before + item_pieces(*old(ins), *e).0);
        },
    }
}

/// Writes what the inspector shows of the item `e` of the stream to `out`, and tells whether
/// the inspection stops there.
pub fn inspect_item(ins: &mut IonInspector, out: &mut Vec<Piece>, printed: &mut bool, is_first: bool, e: &TopEntry) -> (stop: bool)
    ensures
        ({
            let (p, i2, p2, st) = item_step(*old(ins), *old(printed), is_first, *e);
            &&& pieces_view(final(out)@) == pieces_view(old(out)@) + p
            &&& *final(ins) == i2
            &&& *final(printed) == p2
            &&& stop == st
        }),
{
    let ghost before = pieces_view(out@);
    let a = select(ins, out, 0, printed, e.range, "stream items", "ending");
    let is_end = match e.item {
        TopItem::EndOfStream { .. } => true,
        _ => false,
    };
    match a {
        InspectorAction::Skip => false,
        InspectorAction::LimitReached => true,
        InspectorAction::Inspect => {
            if !is_first && !is_end && !e.ephemeral {
                push_str(out, plain_style(), "\n├──────────────┼──────────────┼─────────────────────────┤");
            }
            write_item(ins, out, e);
            assert(pieces_view(out@) =~= before + item_step(*old(ins), *old(printed), is_first, *e).0);
            is_end
        },
    }
}

/// Whether the inspector in state `b` has the settings of the one in state `a`, and has not
/// gone back to skipping once `a` was done with it.
pub open spec fn keeps_settings(a: IonInspector, b: IonInspector) -> bool {
    &&& b.bytes_to_skip == a.bytes_to_skip
    &&& b.limit_bytes == a.limit_bytes
    &&& b.hide_expansion == a.hide_expansion
    &&& a.skip_complete ==> b.skip_complete
}

proof fn lemma_selection_keeps(ins: IonInspector, printed: bool, item: Option<(usize, usize)>)
    ensures
        keeps_settings(ins, selection(ins, printed, item).2),
{
}

proof fn lemma_value_keeps(ins: IonInspector, depth: usize, delim: Seq<char>, v: ValueItem, comment: Option<Seq<char>>)
    ensures
        keeps_settings(ins, value_pieces(ins, depth, delim, v, comment).1),
    decreases v, 0int,
{
    match v {
        ValueItem::Scalar { .. } => {
            lemma_value_scalar(ins, depth, delim, v, comment);
        },
        ValueItem::Container { kind, members, .. } => {
            lemma_value_container(ins, depth, delim, v, comment);
            let (open, vdelim, close) = delimiters(kind);
            lemma_members_keeps(ins, deeper(depth), vdelim, members@, 0, false, kind == ContainerKind::Struct);
        },
    }
}

proof fn lemma_members_keeps(
    ins: IonInspector,
    depth: usize,
    delim: Seq<char>,
    ms: Seq<ValueItem>,
    i: int,
    printed: bool,
    is_struct: bool,
)
    ensures
        keeps_settings(ins, members_pieces(ins, depth, delim, ms, i, printed, is_struct).1),
    decreases ms, ms.len() - i,
{
    if i < 0 || i >= ms.len() {
        reveal(members_pieces);
    } else {
        lemma_members_step(ins, depth, delim, ms, i, printed, is_struct);
        let (a, n, ins1, printed1) = selection(ins, printed, ms[i].range_of());
        lemma_selection_keeps(ins, printed, ms[i].range_of());
        match a {
            InspectorAction::Skip => {
                lemma_members_keeps(ins1, depth, delim, ms, i + 1, printed1, is_struct);
            },
            InspectorAction::LimitReached => {},
            InspectorAction::Inspect => {
                lemma_value_keeps(ins1, depth, delim, ms[i], None);
                let vp = value_pieces(ins1, depth, delim, ms[i], None);
                lemma_members_keeps(vp.1, depth, delim, ms, i + 1, printed1, is_struct);
            },
        }
    }
}

proof fn lemma_macro_keeps(ins: IonInspector, depth: usize, x: MacroExpr)
    ensures
        keeps_settings(ins, macro_pieces(ins, depth, x).1),
    decreases x, 0int,
{
    match x {
        MacroExpr::EExp { args, .. } => {
            lemma_macro_eexp(ins, depth, x);
            lemma_args_keeps(ins, deeper(depth), args@, 0);
        },
        MacroExpr::Arg { parameter, value } => {
            lemma_macro_arg(ins, depth, x);
            lemma_value_keeps(ins, depth, ""@, value, Some(" // "@ + parameter@));
        },
    }
}

proof fn lemma_args_keeps(ins: IonInspector, depth: usize, xs: Seq<MacroExpr>, i: int)
    ensures
        keeps_settings(ins, args_pieces(ins, depth, xs, i).1),
    decreases xs, xs.len() - i,
{
    if i < 0 || i >= xs.len() {
        reveal(args_pieces);
    } else {
        lemma_args_step(ins, depth, xs, i);
        lemma_macro_keeps(ins, depth, xs[i]);
        lemma_args_keeps(macro_pieces(ins, depth, xs[i]).1, depth, xs, i + 1);
    }
}

proof fn lemma_symbol_values_keeps(ins: IonInspector, ms: Seq<ValueItem>, i: int, printed: bool, sid: usize)
    ensures
        keeps_settings(ins, symbol_values_pieces(ins, ms, i, printed, sid).1),
    decreases ms.len() - i,
{
    if i < 0 || i >= ms.len() {
        reveal(symbol_values_pieces);
    } else {
        lemma_symbol_values_step(ins, ms, i, printed, sid);
        let m = ms[i];
        let (a, n, ins1, printed1) = selection(ins, printed, m.range_of());
        lemma_selection_keeps(ins, printed, m.range_of());
        let c = symbol_comment(sid, m matches ValueItem::Scalar { is_string: true, .. });
        let sid2 = if m is Scalar {
            next_sid(sid)
        } else {
            sid
        };
        match a {
            InspectorAction::Skip => {
                lemma_symbol_values_keeps(ins1, ms, i + 1, printed1, sid);
            },
            InspectorAction::LimitReached => {},
            InspectorAction::Inspect => {
                lemma_value_keeps(ins1, 2, ","@, m, Some(c));
                let vp = value_pieces(ins1, 2, ","@, m, Some(c));
                lemma_symbol_values_keeps(vp.1, ms, i + 1, printed1, sid2);
            },
        }
    }
}

proof fn lemma_symtab_fields_keeps(ins: IonInspector, fs: Seq<ValueItem>, i: int, printed: bool, sid0: usize)
    ensures
        keeps_settings(ins, symtab_fields_pieces(ins, fs, i, printed, sid0).1),
    decreases fs.len() - i,
{
    if i < 0 || i >= fs.len() {
        reveal(symtab_fields_pieces);
    } else {
        lemma_symtab_fields_step(ins, fs, i, printed, sid0);
        let f = fs[i];
        let (a, n, ins1, printed1) = selection(ins, printed, f.range_of());
        lemma_selection_keeps(ins, printed, f.range_of());
        match a {
            InspectorAction::Skip => {
                lemma_symtab_fields_keeps(ins1, fs, i + 1, printed1, sid0);
            },
            InspectorAction::LimitReached => {},
            InspectorAction::Inspect => {
                let fp = if is_symbols_field(f) {
                    match f {
                        ValueItem::Container { kind: ContainerKind::List, header: Some(h), members, .. } => {
                            lemma_symbol_values_keeps(ins1, members@, 0, false, sid0);
                        },
                        _ => {
                            lemma_value_keeps(ins1, 1, ","@, f, Some(" // Invalid, ignored"@));
                        },
                    }
                    symbols_field_pieces(ins1, f, sid0)
                } else {
                    lemma_value_keeps(ins1, 1, ","@, f, None);
                    field_pieces(ins1, 1, f)
                };
                lemma_symtab_fields_keeps(fp.1, fs, i + 1, printed1, sid0);
            },
        }
    }
}

/// Inspecting an item of the stream never changes how many bytes the inspector skips or shows,
/// nor whether it hides what macros produce; once it has stopped skipping, it never starts
/// again; and once the skip notice was written, it is not written again.
pub proof fn law_inspection_keeps_settings(ins: IonInspector, printed: bool, is_first: bool, e: TopEntry)
    ensures
        keeps_settings(ins, item_step(ins, printed, is_first, e).1),
        printed ==> item_step(ins, printed, is_first, e).2,
        printed ==> selection(ins, printed, e.range).1 != Some(Notice::Skipping),
{
    let (a, n, ins1, printed1) = selection(ins, printed, e.range);
    lemma_selection_keeps(ins, printed, e.range);
    if a == InspectorAction::Inspect {
        match e.item {
            TopItem::EExp(x) => lemma_macro_keeps(ins1, 0, x),
            TopItem::SymbolTable(st) => lemma_symtab_fields_keeps(ins1, st.fields@, 0, false, first_symbol_id(st)),
            TopItem::EncodingDirective(v) => lemma_value_keeps(ins1, 0, ""@, v, None),
            TopItem::Value(v) => lemma_value_keeps(ins1, 0, ""@, v, None),
            _ => {},
        }
    }
}

} // verus!
