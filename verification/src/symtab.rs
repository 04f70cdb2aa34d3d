//! The `symtab` commands: what `symtab filter` keeps of a stream, and what `symtab count` and
//! `symtab symbol_count` count in it.
use vstd::prelude::*;

use crate::commands::IonCliCommand;

verus! {

/// Filters user data out of an Ion stream, leaving only the symbol tables.
pub struct SymtabFilterCommand;

impl IonCliCommand for SymtabFilterCommand {
    fn name(&self) -> (r: &'static str)
        ensures
            r@ == "filter"@,
    {
        "filter"
    }

    fn about(&self) -> (r: &'static str)
        ensures
            r@ == "Filters user data out of an Ion stream, leaving only the symbol table(s) behind."@,
    {
        "Filters user data out of an Ion stream, leaving only the symbol table(s) behind."
    }
}

/// Counts the local symbol tables of a stream.
pub struct SymbolTableCommand;

impl IonCliCommand for SymbolTableCommand {
    fn name(&self) -> (r: &'static str)
        ensures
            r@ == "count"@,
    {
        "count"
    }

    fn about(&self) -> (r: &'static str)
        ensures
            r@ == "Prints the number of local symbol tables."@,
    {
        "Prints the number of local symbol tables."
    }
}

/// Counts the symbols of a stream.
pub struct SymbolNumberCommand;

impl IonCliCommand for SymbolNumberCommand {
    fn name(&self) -> (r: &'static str)
        ensures
            r@ == "symbol_count"@,
    {
        "symbol_count"
    }

    fn about(&self) -> (r: &'static str)
        ensures
            r@ == "Prints the number of symbols."@,
    {
        "Prints the number of symbols."
    }
}

/// An item of a stream as the `symtab` commands see it: a version marker with its bytes; a
/// local symbol table with its bytes and those of its value without the annotation (`None` for
/// one that a macro produced); a value, with the length of the symbol table in effect; the end
/// of the stream.
#[derive(Debug, PartialEq)]
pub enum SystemItem {
    VersionMarker { bytes: Vec<u8> },
    SymbolTable { encoded: Option<(Vec<u8>, Vec<u8>)> },
    Value { table_len: usize },
    EndOfStream,
}

/// What `symtab filter` does with an item.
#[derive(Debug, PartialEq)]
pub enum FilterStep {
    /// Write these bytes.
    Write(Vec<u8>),
    /// Write nothing and go on.
    Skip,
    /// The stream has ended.
    Stop,
}

/// The bytes written for kept bytes `b`: followed by a newline in a text stream.
pub open spec fn kept(b: Seq<u8>, is_text: bool) -> Seq<u8> {
    if is_text {
        b.push(10u8)
    } else {
        b
    }
}

fn copy_with_newline(b: &Vec<u8>, is_text: bool) -> (r: Vec<u8>)
    ensures
        r@ == kept(b@, is_text),
{
    let mut out: Vec<u8> = Vec::new();
    let mut i: usize = 0;
    while i < b.len()
        invariant
            i <= b@.len(),
            out@ == b@.subrange(0, i as int),
        decreases b@.len() - i,
    {
        out.push(b[i]);
        i = i + 1;
        assert(out@ =~= b@.subrange(0, i as int));
    }
    assert(b@.subrange(0, b@.len() as int) =~= b@);
    if is_text {
        out.push(10u8);
    }
    out
}

/// What `symtab filter` does with `item`: version markers are kept, symbol tables are kept
/// whole, or without their annotation when they are lifted into user data, values are dropped,
/// and the end of the stream stops the filter. In a text stream each kept item is followed by
/// a newline. A symbol table that a macro produced is an error.
pub fn symtab_filter_step(item: &SystemItem, lift: bool, is_text: bool) -> (r: Result<FilterStep, String>)
    ensures
        match item {
            SystemItem::VersionMarker { bytes } => r matches Ok(FilterStep::Write(w)) && w@ == kept(bytes@, is_text),
            SystemItem::SymbolTable { encoded: Some((whole, value)) } => r matches Ok(FilterStep::Write(w)) && w@
                == kept(
                if lift {
                    value@
                } else {
                    whole@
                },
                is_text,
            ),
            SystemItem::SymbolTable { encoded: None } => r matches Err(e) && e@
                == "found an ephemeral symbol table, which is not yet supported"@,
            SystemItem::Value { .. } => r matches Ok(FilterStep::Skip),
            SystemItem::EndOfStream => r matches Ok(FilterStep::Stop),
        },
{
    match item {
        SystemItem::VersionMarker { bytes } => Ok(FilterStep::Write(copy_with_newline(bytes, is_text))),
        SystemItem::SymbolTable { encoded: Some((whole, value)) } => {
            if lift {
                Ok(FilterStep::Write(copy_with_newline(value, is_text)))
            } else {
                Ok(FilterStep::Write(copy_with_newline(whole, is_text)))
            }
        },
        SystemItem::SymbolTable { encoded: None } => Err(
            String::from_str("found an ephemeral symbol table, which is not yet supported"),
        ),
        SystemItem::Value { .. } => Ok(FilterStep::Skip),
        SystemItem::EndOfStream => Ok(FilterStep::Stop),
    }
}

/// The bytes that `symtab filter` writes for the stream `items`, or `None` where it meets a
/// symbol table that a macro produced: each item as `symtab_filter_step` treats it, up to the
/// end of the stream.
pub open spec fn filtered_stream(items: Seq<SystemItem>, lift: bool, is_text: bool) -> Option<Seq<u8>>
    decreases items.len(),
{
    if items.len() == 0 {
        Some(Seq::empty())
    } else {
        let rest = filtered_stream(items.drop_first(), lift, is_text);
        match items[0] {
            SystemItem::VersionMarker { bytes } => match rest {
                Some(r) => Some(kept(bytes@, is_text) + r),
                None => None,
            },
            SystemItem::SymbolTable { encoded: Some((whole, value)) } => match rest {
                Some(r) => Some(
                    kept(
                        if lift {
                            value@
                        } else {
                            whole@
                        },
                        is_text,
                    ) + r,
                ),
                None => None,
            },
            SystemItem::SymbolTable { encoded: None } => None,
            SystemItem::Value { .. } => rest,
            SystemItem::EndOfStream => Some(Seq::empty()),
        }
    }
}

/// Filters the user data out of the stream `items`: the bytes of its version markers and
/// symbol tables, in order, up to the end of the stream (see `symtab_filter_step`). A symbol
/// table that a macro produced is an error.
pub fn filter_out_user_data(items: &Vec<SystemItem>, lift: bool, is_text: bool) -> (r: Result<Vec<u8>, String>)
    ensures
        match filtered_stream(items@, lift, is_text) {
            Some(s) => r matches Ok(out) && out@ == s,
            None => r matches Err(e) && e@ == "found an ephemeral symbol table, which is not yet supported"@,
        },
{
    let mut out: Vec<u8> = Vec::new();
    let mut i: usize = 0;
    assert(items@.subrange(0, items@.len() as int) =~= items@);
    assert(out@ + Seq::<u8>::empty() =~= out@);
    while i < items.len()
        invariant
            i <= items@.len(),
            match filtered_stream(items@.subrange(i as int, items@.len() as int), lift, is_text) {
                Some(s) => filtered_stream(items@, lift, is_text) == Some(out@ + s),
                None => filtered_stream(items@, lift, is_text) is None,
            },
        decreases items@.len() - i,
    {
        let ghost rest = items@.subrange(i as int, items@.len() as int);
        assert(rest.drop_first() =~= items@.subrange(i + 1, items@.len() as int));
        assert(rest[0] == items@[i as int]);
        let step = symtab_filter_step(&items[i], lift, is_text);
        match step {
            Ok(FilterStep::Write(w)) => {
                let ghost before = out@;
                let mut w = w;
                proof {
                    let tail = filtered_stream(rest.drop_first(), lift, is_text);
                    if let Some(t) = tail {
                        assert(before + (w@ + t) =~= (before + w@) + t);
                    }
                }
                out.append(&mut w);
            },
            Ok(FilterStep::Skip) => {},
            Ok(FilterStep::Stop) => {
                assert(out@ + Seq::<u8>::empty() =~= out@);
                return Ok(out);
            },
            Err(e) => {
                return Err(e);
            },
        }
        i = i + 1;
    }
    assert(items@.subrange(i as int, items@.len() as int) =~= Seq::<SystemItem>::empty());
    assert(out@ + Seq::<u8>::empty() =~= out@);
    Ok(out)
}

/// The number of local symbol tables among `items` before the end of the stream.
pub open spec fn symbol_table_count(items: Seq<SystemItem>) -> nat
    decreases items.len(),
{
    if items.len() == 0 {
        0
    } else {
        match items[0] {
            SystemItem::EndOfStream => 0,
            SystemItem::SymbolTable { .. } => 1 + symbol_table_count(items.drop_first()),
            _ => symbol_table_count(items.drop_first()),
        }
    }
}

/// The number of local symbol tables that `symtab count` reports for a stream: those before
/// its end.
pub fn count_symbol_tables(items: &Vec<SystemItem>) -> (r: usize)
    ensures
        r == symbol_table_count(items@),
{
    let mut count: usize = 0;
    let mut i: usize = 0;
    assert(items@.subrange(0, items@.len() as int) =~= items@);
    while i < items.len()
        invariant
            i <= items@.len(),
            count <= i,
            count + symbol_table_count(items@.subrange(i as int, items@.len() as int)) == symbol_table_count(items@),
        decreases items@.len() - i,
    {
        let ghost rest = items@.subrange(i as int, items@.len() as int);
        assert(rest.drop_first() =~= items@.subrange(i + 1, items@.len() as int));
        match &items[i] {
            SystemItem::EndOfStream => {
                return count;
            },
            SystemItem::SymbolTable { .. } => {
                count = count + 1;
            },
            _ => {},
        }
        i = i + 1;
    }
    assert(items@.subrange(i as int, items@.len() as int).len() == 0);
    count
}

/// How far `symtab symbol_count` has counted: the symbols counted so far, and whether the
/// symbol table in effect has been counted yet.
#[derive(Debug, PartialEq, Eq, Clone, Copy, Structural)]
pub struct SymbolCount {
    pub count: usize,
    pub table_counted: bool,
}

impl SymbolCount {
    /// Nothing counted yet.
    pub fn new() -> (r: SymbolCount)
        ensures
            r.count == 0,
            !r.table_counted,
    {
        SymbolCount { count: 0, table_counted: false }
    }
}

/// The count that `symtab symbol_count` reaches after the item `item`: each symbol table is
/// counted once, at the first value read under it, by the number of symbols it holds beyond the
/// system symbols of Ion 1.0; a new symbol table or version marker puts a new table in effect;
/// the end of the stream stops the count (the second part of the result).
pub fn symbol_count_step(state: SymbolCount, item: &SystemItem) -> (r: (SymbolCount, bool))
    requires
        item matches SystemItem::Value { table_len } ==> (!state.table_counted ==> *table_len >= 10
            && state.count + *table_len - 10 <= usize::MAX),
    ensures
        r == match item {
            SystemItem::Value { table_len } => if state.table_counted {
                (state, false)
            } else {
                (SymbolCount { count: (state.count + *table_len - 10) as usize, table_counted: true }, false)
            },
            SystemItem::EndOfStream => (state, true),
            _ => (SymbolCount { count: state.count, table_counted: false }, false),
        },
{
    match item {
        SystemItem::Value { table_len } => {
            if state.table_counted {
                (state, false)
            } else {
                (SymbolCount { count: state.count + (*table_len - 10), table_counted: true }, false)
            }
        },
        SystemItem::EndOfStream => (state, true),
        _ => (SymbolCount { count: state.count, table_counted: false }, false),
    }
}

/// The number of symbols that `symtab symbol_count` reports for the rest `items` of a stream,
/// having counted `count` so far, `counted` telling whether the table in effect was counted
/// (see `symbol_count_step`).
pub open spec fn symbols_counted(count: nat, counted: bool, items: Seq<SystemItem>) -> nat
    decreases items.len(),
{
    if items.len() == 0 {
        count
    } else {
        let rest = items.subrange(1, items.len() as int);
        match items[0] {
            SystemItem::Value { table_len } => if counted {
                symbols_counted(count, true, rest)
            } else {
                symbols_counted((count + table_len - 10) as nat, true, rest)
            },
            SystemItem::EndOfStream => count,
            _ => symbols_counted(count, false, rest),
        }
    }
}

/// Whether counting the symbols of the rest `items` of a stream stays within the machine's
/// integers: each table counted holds at least the ten system symbols, and the count fits in a
/// `usize`.
pub open spec fn symbol_count_fits(count: nat, counted: bool, items: Seq<SystemItem>) -> bool
    decreases items.len(),
{
    if items.len() == 0 {
        count <= usize::MAX
    } else {
        let rest = items.subrange(1, items.len() as int);
        match items[0] {
            SystemItem::Value { table_len } => if counted {
                symbol_count_fits(count, true, rest)
            } else {
                table_len >= 10 && count + table_len - 10 <= usize::MAX && symbol_count_fits(
                    (count + table_len - 10) as nat,
                    true,
                    rest,
                )
            },
            SystemItem::EndOfStream => count <= usize::MAX,
            _ => symbol_count_fits(count, false, rest),
        }
    }
}

/// Whether `count_symbols` can count the symbols of `items`.
pub fn symbols_countable(items: &Vec<SystemItem>) -> (r: bool)
    ensures
        r == symbol_count_fits(0, false, items@),
{
    let mut state = SymbolCount::new();
    let mut i: usize = 0;
    assert(items@.subrange(0, items@.len() as int) =~= items@);
    while i < items.len()
        invariant
            i <= items@.len(),
            symbol_count_fits(0, false, items@) == symbol_count_fits(
                state.count as nat,
                state.table_counted,
                items@.subrange(i as int, items@.len() as int),
            ),
        decreases items@.len() - i,
    {
        let ghost rest = items@.subrange(i as int, items@.len() as int);
        assert(rest[0] == items@[i as int]);
        assert(rest.subrange(1, rest.len() as int) =~= items@.subrange(i + 1, items@.len() as int));
        match &items[i] {
            SystemItem::Value { table_len } => {
                if !state.table_counted {
                    if *table_len < 10 || state.count > usize::MAX - (*table_len - 10) {
                        return false;
                    }
                }
            },
            SystemItem::EndOfStream => {
                return true;
            },
            _ => {},
        }
        let (next, _) = symbol_count_step(state, &items[i]);
        state = next;
        i = i + 1;
    }
    assert(items@.subrange(i as int, items@.len() as int).len() == 0);
    true
}

/// The number of symbols that `symtab symbol_count` reports for the stream `items`: each
/// symbol table counted once, by its symbols beyond the system symbols, up to the end of the
/// stream.
pub fn count_symbols(items: &Vec<SystemItem>) -> (r: usize)
    requires
        symbol_count_fits(0, false, items@),
    ensures
        r == symbols_counted(0, false, items@),
{
    let mut state = SymbolCount::new();
    let mut i: usize = 0;
    assert(items@.subrange(0, items@.len() as int) =~= items@);
    while i < items.len()
        invariant
            i <= items@.len(),
            symbol_count_fits(state.count as nat, state.table_counted, items@.subrange(i as int, items@.len() as int)),
            symbols_counted(0, false, items@) == symbols_counted(
                state.count as nat,
                state.table_counted,
                items@.subrange(i as int, items@.len() as int),
            ),
        decreases items@.len() - i,
    {
        let ghost rest = items@.subrange(i as int, items@.len() as int);
        assert(rest[0] == items@[i as int]);
        assert(rest.subrange(1, rest.len() as int) =~= items@.subrange(i + 1, items@.len() as int));
        let (next, stop) = symbol_count_step(state, &items[i]);
        if stop {
            return state.count;
        }
        state = next;
        i = i + 1;
    }
    assert(items@.subrange(i as int, items@.len() as int).len() == 0);
    state.count
}

} // verus!
