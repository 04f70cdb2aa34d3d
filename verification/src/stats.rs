//! Statistics of an Ion stream: the sizes of its top-level values, its local symbol tables and
//! symbols, and how deeply its containers nest.
use vstd::prelude::*;

use crate::text::usize_to_string;

verus! {

/// The shape of an Ion value: a scalar, or a container (struct, list or s-expression) with its
/// child values in order.
#[derive(Debug, PartialEq)]
pub enum ValueShape {
    Scalar,
    Container(Vec<ValueShape>),
}

/// The value of a [`ValueShape`].
pub enum ShapeSpec {
    Scalar,
    Container(Seq<ShapeSpec>),
}

pub open spec fn shape_view(v: ValueShape) -> ShapeSpec
    decreases v,
{
    match v {
        ValueShape::Scalar => ShapeSpec::Scalar,
        ValueShape::Container(cs) => ShapeSpec::Container(shapes_view(cs@)),
    }
}

pub open spec fn shapes_view(cs: Seq<ValueShape>) -> Seq<ShapeSpec>
    decreases cs,
{
    Seq::new(cs.len(), |i: int| if 0 <= i < cs.len() { shape_view(cs[i]) } else { arbitrary() })
}

impl View for ValueShape {
    type V = ShapeSpec;

    open spec fn view(&self) -> ShapeSpec {
        shape_view(*self)
    }
}

/// The greatest number of containers around any value inside `s`, `s` itself not counted: zero
/// for a scalar or an empty container.
pub open spec fn max_depth(s: ShapeSpec) -> nat
    decreases s, 1nat,
{
    match s {
        ShapeSpec::Scalar => 0,
        ShapeSpec::Container(cs) => if cs.len() == 0 {
            0
        } else {
            1 + children_max_depth(cs)
        },
    }
}

/// The greatest [`max_depth`] of the values `cs` (zero for none).
pub open spec fn children_max_depth(cs: Seq<ShapeSpec>) -> nat
    decreases cs, 0nat,
{
    if cs.len() == 0 {
        0
    } else {
        let m = children_max_depth(cs.drop_last());
        let d = max_depth(cs.last());
        if m >= d {
            m
        } else {
            d
        }
    }
}

/// The number of values in `s`, `s` included.
pub open spec fn value_count(s: ShapeSpec) -> nat
    decreases s, 1nat,
{
    match s {
        ShapeSpec::Scalar => 1,
        ShapeSpec::Container(cs) => 1 + children_value_count(cs),
    }
}

pub open spec fn children_value_count(cs: Seq<ShapeSpec>) -> nat
    decreases cs, 0nat,
{
    if cs.len() == 0 {
        0
    } else {
        children_value_count(cs.drop_last()) + value_count(cs.last())
    }
}

proof fn lemma_children_max_depth(cs: Seq<ShapeSpec>, i: int)
    requires
        0 <= i < cs.len(),
    ensures
        max_depth(cs[i]) <= children_max_depth(cs),
    decreases cs.len(),
{
    if i < cs.len() - 1 {
        lemma_children_max_depth(cs.drop_last(), i);
        assert(cs.drop_last()[i] == cs[i]);
    }
}

/// The depth below `depth` of the deepest value inside `element`: `depth` for a scalar or an
/// empty container, otherwise the greatest such depth of its children, one level further down.
#[verifier::loop_isolation(false)]
pub fn calculate_depth(element: &ValueShape, depth: usize) -> (r: usize)
    requires
        depth + max_depth(element@) <= usize::MAX,
    ensures
        r == depth + max_depth(element@),
    decreases element,
{
    match element {
        ValueShape::Scalar => depth,
        ValueShape::Container(children) => {
            let ghost cs = shapes_view(children@);
            assert(element@ == ShapeSpec::Container(cs));
            if children.len() == 0 {
                return depth;
            }
            let mut best: usize = 0;
            let mut i: usize = 0;
            while i < children.len()
                invariant
                    cs == shapes_view(children@),
                    cs.len() == children@.len(),
                    cs.len() > 0,
                    depth + 1 + children_max_depth(cs) <= usize::MAX,
                    i <= cs.len(),
                    i > 0 ==> best == depth + 1 + children_max_depth(cs.subrange(0, i as int)),
                decreases cs.len() - i,
            {
                proof {
                    lemma_children_max_depth(cs, i as int);
                }
                assert(cs[i as int] == children@[i as int]@);
                let d = calculate_depth(&children[i], depth + 1);
                let ghost prefix = cs.subrange(0, i + 1);
                assert(prefix.drop_last() =~= cs.subrange(0, i as int));
                assert(prefix.last() == cs[i as int]);
                assert(children_max_depth(cs.subrange(0, 0)) == 0);
                if i == 0 || d > best {
                    best = d;
                }
                i = i + 1;
            }
            assert(cs.subrange(0, cs.len() as int) =~= cs);
            best
        },
    }
}

/// The greatest `d + max_depth(s)` over the entries `(s, d)` of a stack (zero for none).
pub open spec fn stack_max_depth(st: Seq<(ShapeSpec, nat)>) -> nat
    decreases st.len(),
{
    if st.len() == 0 {
        0
    } else {
        let m = stack_max_depth(st.drop_last());
        let d = st.last().1 + max_depth(st.last().0);
        if m >= d {
            m
        } else {
            d
        }
    }
}

/// The number of values in the entries of a stack.
pub open spec fn stack_value_count(st: Seq<(ShapeSpec, nat)>) -> nat
    decreases st.len(),
{
    if st.len() == 0 {
        0
    } else {
        stack_value_count(st.drop_last()) + value_count(st.last().0)
    }
}

pub open spec fn stack_view(st: Seq<(&ValueShape, usize)>) -> Seq<(ShapeSpec, nat)> {
    st.map_values(|e: (&ValueShape, usize)| (shape_view(*e.0), e.1 as nat))
}

/// The depth of the deepest value inside `value`, found without recursion: values wait on a
/// stack with their depth until they are visited, and a visited container puts its children on
/// the stack one level deeper.
pub fn top_level_max_depth(value: &ValueShape) -> (r: usize)
    requires
        max_depth(value@) <= usize::MAX,
    ensures
        r == max_depth(value@),
{
    let ghost root = max_depth(value@);
    let mut max_depth_seen: usize = 0;
    let mut stack: Vec<(&ValueShape, usize)> = Vec::new();
    stack.push((value, 0));
    assert(stack_view(stack@) =~= seq![(value@, 0nat)]);
    assert(stack_view(stack@).drop_last() =~= Seq::<(ShapeSpec, nat)>::empty());
    assert(stack_max_depth(Seq::<(ShapeSpec, nat)>::empty()) == 0);
    assert(stack_value_count(Seq::<(ShapeSpec, nat)>::empty()) == 0);
    while stack.len() > 0
        invariant
            root == max_depth(value@),
            root <= usize::MAX,
            max_depth_seen <= root,
            (if max_depth_seen >= stack_max_depth(stack_view(stack@)) {
                max_depth_seen as nat
            } else {
                stack_max_depth(stack_view(stack@))
            }) == root,
        decreases stack_value_count(stack_view(stack@)),
    {
        let ghost before = stack_view(stack@);
        let (current_value, depth) = stack.pop().unwrap();
        let ghost rest = stack_view(stack@);
        assert(before.drop_last() =~= rest);
        assert(before.last() == (current_value@, depth as nat));
        if depth > max_depth_seen {
            max_depth_seen = depth;
        }
        match current_value {
            ValueShape::Scalar => {},
            ValueShape::Container(children) => {
                let ghost cs = shapes_view(children@);
                assert(current_value@ == ShapeSpec::Container(cs));
                let mut i: usize = 0;
                while i < children.len()
                    invariant
                        cs == shapes_view(children@),
                        cs.len() == children@.len(),
                        cs.len() > 0 ==> depth + 1 + children_max_depth(cs) <= root,
                        root <= usize::MAX,
                        i <= cs.len(),
                        i == 0 ==> stack_view(stack@) == rest,
                        i > 0 ==> stack_max_depth(stack_view(stack@)) == (if stack_max_depth(rest)
                            >= depth + 1 + children_max_depth(cs.subrange(0, i as int)) {
                            stack_max_depth(rest)
                        } else {
                            (depth + 1 + children_max_depth(cs.subrange(0, i as int))) as nat
                        }),
                        stack_value_count(stack_view(stack@)) == stack_value_count(rest)
                            + children_value_count(cs.subrange(0, i as int)),
                    decreases cs.len() - i,
                {
                    proof {
                        lemma_children_max_depth(cs, i as int);
                    }
                    let ghost old_stack = stack_view(stack@);
                    stack.push((&children[i], depth + 1));
                    assert(stack_view(stack@).drop_last() =~= old_stack);
                    assert(stack_view(stack@).last() == (cs[i as int], (depth + 1) as nat));
                    let ghost prefix = cs.subrange(0, i + 1);
                    assert(prefix.drop_last() =~= cs.subrange(0, i as int));
                    assert(prefix.last() == cs[i as int]);
                    assert(children_max_depth(cs.subrange(0, 0)) == 0);
                    assert(children_value_count(cs.subrange(0, 0)) == 0);
                    i = i + 1;
                }
                assert(cs.subrange(0, cs.len() as int) =~= cs);
            },
        }
    }
    max_depth_seen
}

/// The depth of the deepest value inside `value`, if it fits in a `usize`.
#[verifier::loop_isolation(false)]
pub fn checked_max_depth(value: &ValueShape) -> (r: Option<usize>)
    ensures
        match r {
            Some(d) => d == max_depth(value@),
            None => max_depth(value@) > usize::MAX,
        },
    decreases value,
{
    match value {
        ValueShape::Scalar => Some(0),
        ValueShape::Container(children) => {
            let ghost cs = shapes_view(children@);
            assert(value@ == ShapeSpec::Container(cs));
            if children.len() == 0 {
                return Some(0);
            }
            let mut best: usize = 0;
            let mut i: usize = 0;
            assert(children_max_depth(cs.subrange(0, 0)) == 0);
            while i < children.len()
                invariant
                    cs == shapes_view(children@),
                    cs.len() == children@.len(),
                    i <= cs.len(),
                    best == children_max_depth(cs.subrange(0, i as int)),
                decreases cs.len() - i,
            {
                assert(cs[i as int] == children@[i as int]@);
                let ghost prefix = cs.subrange(0, i + 1);
                assert(prefix.drop_last() =~= cs.subrange(0, i as int));
                assert(prefix.last() == cs[i as int]);
                match checked_max_depth(&children[i]) {
                    Some(d) => {
                        if d > best {
                            best = d;
                        }
                    },
                    None => {
                        proof {
                            lemma_children_max_depth(cs, i as int);
                            assert(max_depth(value@) == 1 + children_max_depth(cs));
                        }
                        return None;
                    },
                }
                i = i + 1;
            }
            assert(cs.subrange(0, cs.len() as int) =~= cs);
            if best == usize::MAX {
                None
            } else {
                Some(best + 1)
            }
        },
    }
}

/// Whether the depth of each of `values` fits in a `usize`, as `get_depth` requires.
pub fn depths_fit(values: &Vec<ValueShape>) -> (r: bool)
    ensures
        r == forall|i: int| 0 <= i < values@.len() ==> max_depth(#[trigger] values@[i]@) <= usize::MAX,
{
    let mut i: usize = 0;
    while i < values.len()
        invariant
            i <= values@.len(),
            forall|j: int| 0 <= j < i ==> max_depth(#[trigger] values@[j]@) <= usize::MAX,
        decreases values@.len() - i,
    {
        if checked_max_depth(&values[i]).is_none() {
            return false;
        }
        i = i + 1;
    }
    true
}

/// The depth that the `analyze depth` command reports for a stream of `values`: the maximum
/// depth of any of its values (zero for an empty stream).
pub fn get_depth(values: &Vec<ValueShape>) -> (r: usize)
    requires
        forall|i: int| 0 <= i < values@.len() ==> max_depth(#[trigger] values@[i]@) <= usize::MAX,
    ensures
        r == children_max_depth(shapes_view(values@)),
{
    let ghost cs = shapes_view(values@);
    let mut depth: usize = 0;
    let mut i: usize = 0;
    assert(children_max_depth(cs.subrange(0, 0)) == 0);
    while i < values.len()
        invariant
            i <= values@.len(),
            cs == shapes_view(values@),
            cs.len() == values@.len(),
            forall|j: int| 0 <= j < values@.len() ==> max_depth(#[trigger] values@[j]@) <= usize::MAX,
            depth == children_max_depth(cs.subrange(0, i as int)),
        decreases values@.len() - i,
    {
        assert(cs[i as int] == values@[i as int]@);
        assert(max_depth(values@[i as int]@) <= usize::MAX);
        let d = calculate_depth(&values[i], 0);
        let ghost prefix = cs.subrange(0, i + 1);
        assert(prefix.drop_last() =~= cs.subrange(0, i as int));
        assert(prefix.last() == cs[i as int]);
        if d > depth {
            depth = d;
        }
        i = i + 1;
    }
    assert(cs.subrange(0, cs.len() as int) =~= cs);
    depth
}

/// What reading the next item of a stream gave.
#[derive(Debug, PartialEq, Eq, Clone, Copy)]
pub enum StreamItem {
    /// The stream could not be read; `incomplete` when it ended in the middle of a value.
    Error { incomplete: bool },
    /// The end of the stream.
    EndOfStream,
    /// An Ion version marker.
    VersionMarker,
    /// An encoding directive.
    EncodingDirective,
    /// A local symbol table.
    SymbolTable,
    /// A top-level value, with the number of bytes that encode it and the depth of its deepest
    /// value.
    Value { size: usize, depth: usize },
}

/// Whether analysis goes on after an item.
#[derive(Debug, PartialEq, Eq, Clone, Copy, Structural)]
pub enum Next {
    Continue,
    Stop,
}

/// The statistics of a stream.
#[derive(Debug, PartialEq)]
pub struct StreamStats {
    /// The size in bytes of each top-level value, in order.
    pub size_vec: Vec<usize>,
    /// The number of local symbol tables.
    pub symtab_count: usize,
    /// The number of symbols that the stream defines.
    pub symbols_count: usize,
    /// The depth of the deepest value.
    pub max_depth: usize,
    /// The number of items that could not be read.
    pub unparseable_count: usize,
}

impl StreamStats {
    /// The statistics of a stream before its first item.
    pub fn new() -> (r: Self)
        ensures
            r.size_vec@.len() == 0,
            r.symtab_count == 0,
            r.symbols_count == 0,
            r.max_depth == 0,
            r.unparseable_count == 0,
    {
        StreamStats { size_vec: Vec::new(), symtab_count: 0, symbols_count: 0, max_depth: 0, unparseable_count: 0 }
    }

    /// Takes the next item of the stream into account: an error counts as unparseable, and
    /// analysis stops at an incomplete value or the end of the stream; markers and directives
    /// are skipped; symbol tables are counted; a value's size is recorded and its depth kept if
    /// it is the deepest so far.
    pub fn record(&mut self, item: StreamItem) -> (r: Next)
        requires
            old(self).symtab_count < usize::MAX,
            old(self).unparseable_count < usize::MAX,
        ensures
            (r == Next::Stop) == ends_analysis(item),
            final(self).symbols_count == old(self).symbols_count,
            match item {
                StreamItem::Error { incomplete } => {
                    &&& final(self).unparseable_count == old(self).unparseable_count + 1
                    &&& final(self).size_vec@ == old(self).size_vec@
                    &&& final(self).symtab_count == old(self).symtab_count
                    &&& final(self).max_depth == old(self).max_depth
                    &&& r == if incomplete { Next::Stop } else { Next::Continue }
                },
                StreamItem::EndOfStream => {
                    &&& *final(self) == *old(self)
                    &&& r == Next::Stop
                },
                StreamItem::VersionMarker | StreamItem::EncodingDirective => {
                    &&& *final(self) == *old(self)
                    &&& r == Next::Continue
                },
                StreamItem::SymbolTable => {
                    &&& final(self).symtab_count == old(self).symtab_count + 1
                    &&& final(self).size_vec@ == old(self).size_vec@
                    &&& final(self).max_depth == old(self).max_depth
                    &&& final(self).unparseable_count == old(self).unparseable_count
                    &&& r == Next::Continue
                },
                StreamItem::Value { size, depth } => {
                    &&& final(self).size_vec@ == old(self).size_vec@.push(size)
                    &&& final(self).max_depth == if depth > old(self).max_depth {
                        depth
                    } else {
                        old(self).max_depth
                    }
                    &&& final(self).symtab_count == old(self).symtab_count
                    &&& final(self).unparseable_count == old(self).unparseable_count
                    &&& r == Next::Continue
                },
            },
    {
        match item {
            StreamItem::Error { incomplete } => {
                self.unparseable_count = self.unparseable_count + 1;
                if incomplete {
                    Next::Stop
                } else {
                    Next::Continue
                }
            },
            StreamItem::EndOfStream => Next::Stop,
            StreamItem::VersionMarker | StreamItem::EncodingDirective => Next::Continue,
            StreamItem::SymbolTable => {
                self.symtab_count = self.symtab_count + 1;
                Next::Continue
            },
            StreamItem::Value { size, depth } => {
                self.size_vec.push(size);
                if depth > self.max_depth {
                    self.max_depth = depth;
                }
                Next::Continue
            },
        }
    }

    /// Sets the number of symbols from the length of the symbol table at the end of the stream:
    /// in Ion 1.0 the system symbols, of which there are `system_symbols`, are not counted.
    pub fn set_symbols_count(&mut self, symbol_table_len: usize, is_ion_1_0: bool, system_symbols: usize)
        requires
            is_ion_1_0 ==> system_symbols <= symbol_table_len,
        ensures
            final(self).symbols_count == if is_ion_1_0 {
                symbol_table_len - system_symbols
            } else {
                symbol_table_len as int
            },
            final(self).size_vec@ == old(self).size_vec@,
            final(self).symtab_count == old(self).symtab_count,
            final(self).max_depth == old(self).max_depth,
            final(self).unparseable_count == old(self).unparseable_count,
    {
        let offset = if is_ion_1_0 {
            system_symbols
        } else {
            0
        };
        self.symbols_count = symbol_table_len - offset;
    }
}

/// Whether analysis stops after `item`: at the end of the stream or an incomplete value.
pub open spec fn ends_analysis(item: StreamItem) -> bool {
    item matches StreamItem::EndOfStream || item matches StreamItem::Error { incomplete: true }
}

/// Whether analysis goes on after `item`, as `StreamStats::record` decides it.
pub fn next_after(item: &StreamItem) -> (r: Next)
    ensures
        (r == Next::Stop) == ends_analysis(*item),
{
    match item {
        StreamItem::EndOfStream => Next::Stop,
        StreamItem::Error { incomplete } => if *incomplete {
            Next::Stop
        } else {
            Next::Continue
        },
        _ => Next::Continue,
    }
}

/// The statistics of a stream as values: the sizes of its values, the number of symbol tables,
/// the greatest depth and the number of items that could not be read.
pub struct StatsSpec {
    pub sizes: Seq<usize>,
    pub symtabs: nat,
    pub max_depth: nat,
    pub unparseable: nat,
}

/// The statistics after the rest `items` of a stream, from the statistics `st` gathered so far:
/// each item as `StreamStats::record` takes it, up to the end of the stream or an incomplete
/// value.
pub open spec fn analyzed(st: StatsSpec, items: Seq<StreamItem>) -> StatsSpec
    decreases items.len(),
{
    if items.len() == 0 {
        st
    } else {
        let rest = items.subrange(1, items.len() as int);
        match items[0] {
            StreamItem::Error { incomplete } => {
                let st1 = StatsSpec { unparseable: st.unparseable + 1, ..st };
                if incomplete {
                    st1
                } else {
                    analyzed(st1, rest)
                }
            },
            StreamItem::EndOfStream => st,
            StreamItem::VersionMarker | StreamItem::EncodingDirective => analyzed(st, rest),
            StreamItem::SymbolTable => analyzed(StatsSpec { symtabs: st.symtabs + 1, ..st }, rest),
            StreamItem::Value { size, depth } => analyzed(
                StatsSpec {
                    sizes: st.sizes.push(size),
                    max_depth: if depth > st.max_depth {
                        depth as nat
                    } else {
                        st.max_depth
                    },
                    ..st
                },
                rest,
            ),
        }
    }
}

/// The statistics before the first item.
pub open spec fn no_stats() -> StatsSpec {
    StatsSpec { sizes: Seq::empty(), symtabs: 0, max_depth: 0, unparseable: 0 }
}

pub open spec fn stats_view(s: StreamStats) -> StatsSpec {
    StatsSpec {
        sizes: s.size_vec@,
        symtabs: s.symtab_count as nat,
        max_depth: s.max_depth as nat,
        unparseable: s.unparseable_count as nat,
    }
}

/// The statistics of the stream `items`, whose symbol table at the end holds `symbol_table_len`
/// symbols, `system_symbols` of them system symbols that Ion 1.0 does not count.
pub fn analyze_items(items: &Vec<StreamItem>, symbol_table_len: usize, is_ion_1_0: bool, system_symbols: usize) -> (r:
    StreamStats)
    requires
        is_ion_1_0 ==> system_symbols <= symbol_table_len,
    ensures
        stats_view(r) == analyzed(no_stats(), items@),
        r.symbols_count == if is_ion_1_0 {
            symbol_table_len - system_symbols
        } else {
            symbol_table_len as int
        },
{
    let mut stats = StreamStats::new();
    let mut i: usize = 0;
    assert(items@.subrange(0, items@.len() as int) =~= items@);
    assert(stats_view(stats).sizes =~= no_stats().sizes);
    assert(stats_view(stats) == no_stats());
    while i < items.len()
        invariant
            i <= items@.len(),
            is_ion_1_0 ==> system_symbols <= symbol_table_len,
            stats.symtab_count <= i,
            stats.unparseable_count <= i,
            analyzed(no_stats(), items@) == analyzed(stats_view(stats), items@.subrange(i as int, items@.len() as int)),
        decreases items@.len() - i,
    {
        let ghost rest = items@.subrange(i as int, items@.len() as int);
        assert(rest[0] == items@[i as int]);
        assert(rest.subrange(1, rest.len() as int) =~= items@.subrange(i + 1, items@.len() as int));
        let next = stats.record(items[i]);
        if next == Next::Stop {
            stats.set_symbols_count(symbol_table_len, is_ion_1_0, system_symbols);
            return stats;
        }
        i = i + 1;
    }
    assert(items@.subrange(i as int, items@.len() as int).len() == 0);
    stats.set_symbols_count(symbol_table_len, is_ion_1_0, system_symbols);
    stats
}

/// The lines of the report that follow the size histogram.
pub open spec fn report_tail_text(
    symbols: Seq<char>,
    symtabs: Seq<char>,
    depth: Seq<char>,
    unparseable: Option<Seq<char>>,
) -> Seq<char> {
    "Symbols: "@ + symbols + " \n"@ + "Local symbol tables: "@ + symtabs + " \n"@
        + "Maximum container depth: "@ + depth + "\n"@ + match unparseable {
        Some(u) => "Unparseable values: "@ + u + "\n"@,
        None => Seq::empty(),
    }
}

impl StreamStats {
    /// The lines of the report after the size histogram: the number of symbols, of local symbol
    /// tables, the greatest container depth, and the number of unparseable values if there are
    /// any.
    pub fn report_tail(&self) -> (r: String)
        ensures
            r@ == report_tail_text(
                crate::text::decimal(self.symbols_count as nat),
                crate::text::decimal(self.symtab_count as nat),
                crate::text::decimal(self.max_depth as nat),
                if self.unparseable_count > 0 {
                    Some(crate::text::decimal(self.unparseable_count as nat))
                } else {
                    None
                },
            ),
    {
        let mut s = String::from_str("Symbols: ");
        s.append(usize_to_string(self.symbols_count).as_str());
        s.append(" \n");
        s.append("Local symbol tables: ");
        s.append(usize_to_string(self.symtab_count).as_str());
        s.append(" \n");
        s.append("Maximum container depth: ");
        s.append(usize_to_string(self.max_depth).as_str());
        s.append("\n");
        if self.unparseable_count > 0 {
            s.append("Unparseable values: ");
            s.append(usize_to_string(self.unparseable_count).as_str());
            s.append("\n");
        }
        s
    }
}

} // verus!
