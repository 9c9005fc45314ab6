//! The parameter-operation vocabulary: typed and untyped read and write
//! operations on named parameters, and their compilation to the wire map
//! that a request carries. Numeric values are carried as their JSON decimal
//! text; the caller formats them, the peer parses them, and the write path
//! demands that each text is one number token, so a value can never inject
//! members into the request object.

use vstd::prelude::*;
use vstd::string::StringSliceAdditionalSpecFns;
use vstd::utf8::encode_utf8;

use crate::json::check_number_text;
use crate::json::is_number_text;

verus! {

/// A read of one named parameter, optionally constrained to a type.
#[derive(Debug, PartialEq, Eq)]
pub enum RdOp {
    Default { p: String },
    WithType { p: String, t: String },
}

/// A write of one named parameter. `v` is the decimal text of the value as
/// it should appear on the wire, e.g. `242.0`; it must be a JSON number
/// token (`crate::json::check_number_text` decides that), which is the
/// caller's responsibility, as name uniqueness is.
#[derive(Debug, PartialEq, Eq)]
pub enum WrOp {
    Default { p: String, v: String },
    WithType { p: String, t: String, v: String },
}

/// A parameter address as callers name it: bare, or with a wire type.
#[derive(Eq, Hash, PartialEq)]
pub enum Parameter {
    Address(String),
    AddressAndType(String, String),
}

/// Wire shape of one read entry: `Default` travels as `null`, `Detailed`
/// as `{"t":<type>}`.
#[derive(Debug, PartialEq, Eq)]
pub enum RdValueDto {
    Default,
    Detailed { t: String },
}

/// Wire shape of one write entry: `Simple` travels as the bare number,
/// `Detailed` as `{"v":<value>,"t":<type>}`.
#[derive(Debug, PartialEq, Eq)]
pub enum WrValueDto {
    Simple(String),
    Detailed { v: String, t: String },
}

/// No two entries share a parameter name.
pub open spec fn keys_unique<V>(s: Seq<(String, V)>) -> bool {
    forall|i: int, j: int| 0 <= i < j < s.len() ==> s[i].0@ != s[j].0@
}

/// Insert-or-replace: a fresh name is appended, a known name keeps its
/// position and takes the new value. Later writes of one name win.
pub open spec fn upsert<V>(s: Seq<(String, V)>, k: String, v: V) -> Seq<(String, V)>
    decreases s.len(),
{
    if s.len() == 0 {
        seq![(k, v)]
    } else if s[0].0@ == k@ {
        seq![(k, v)] + s.drop_first()
    } else {
        seq![s[0]] + upsert(s.drop_first(), k, v)
    }
}

/// The ordered wire map a request carries: entry order is first-occurrence
/// order of the names, and no name repeats.
pub struct ParamMap<V> {
    entries: Vec<(String, V)>,
}

impl<V> ParamMap<V> {
    /// The entries, in wire order.
    pub closed spec fn view(&self) -> Seq<(String, V)> {
        self.entries@
    }

    /// Invariant: parameter names are unique.
    pub open spec fn wf(&self) -> bool {
        keys_unique(self@)
    }

    pub fn new() -> (r: Self)
        ensures
            r@ == Seq::<(String, V)>::empty(),
            r.wf(),
    {
        ParamMap { entries: Vec::new() }
    }

    pub fn len(&self) -> (r: usize)
        ensures
            r == self@.len(),
    {
        self.entries.len()
    }

    /// The entries as a slice, for emission and for callers that walk them.
    pub fn entries(&self) -> (r: &[(String, V)])
        ensures
            r@ == self@,
    {
        self.entries.as_slice()
    }

    /// Last write wins: a repeated name keeps its place and takes the new
    /// value.
    pub fn insert(&mut self, k: String, v: V)
        requires
            old(self).wf(),
        ensures
            final(self)@ == upsert(old(self)@, k, v),
            final(self).wf(),
    {
        let n = self.entries.len();
        let mut i: usize = 0;
        while i < n
            invariant
                0 <= i <= n,
                n == self.entries@.len(),
                self.entries@ == old(self)@,
                keys_unique(self.entries@),
                forall|j: int| 0 <= j < i ==> self.entries@[j].0@ != k@,
            decreases n - i,
        {
            if self.entries[i].0 == k {
                self.entries.remove(i);
                self.entries.insert(i, (k, v));
                proof {
                    lemma_upsert_at(old(self)@, k, v, i as int);
                    assert(self.entries@ =~= old(self)@.update(i as int, (k, v)));
                    assert(self.entries@[i as int].0@ == old(self)@[i as int].0@);
                    assert(forall|j: int|
                        0 <= j < self.entries@.len() && j != i ==> self.entries@[j]
                            == old(self)@[j]);
                    assert(keys_unique(self.entries@));
                }
                return ;
            }
            i = i + 1;
        }
        self.entries.push((k, v));
        proof {
            lemma_upsert_none(old(self)@, k, v);
            assert(keys_unique(self.entries@));
        }
    }
}

/// Where the scan finds the name at position `i`, upsert is an update there.
proof fn lemma_upsert_at<V>(s: Seq<(String, V)>, k: String, v: V, i: int)
    requires
        0 <= i < s.len(),
        forall|j: int| 0 <= j < i ==> s[j].0@ != k@,
        s[i].0@ == k@,
    ensures
        upsert(s, k, v) == s.update(i, (k, v)),
    decreases i,
{
    if i == 0 {
        assert(upsert(s, k, v) =~= s.update(0, (k, v)));
    } else {
        let rest = s.drop_first();
        assert(forall|j: int| 0 <= j < rest.len() ==> rest[j] == s[j + 1]);
        lemma_upsert_at(rest, k, v, i - 1);
        assert(upsert(s, k, v) =~= seq![s[0]] + rest.update(i - 1, (k, v)));
        assert(seq![s[0]] + rest.update(i - 1, (k, v)) =~= s.update(i, (k, v)));
    }
}

/// Where the name is fresh, upsert appends.
proof fn lemma_upsert_none<V>(s: Seq<(String, V)>, k: String, v: V)
    requires
        forall|j: int| 0 <= j < s.len() ==> s[j].0@ != k@,
    ensures
        upsert(s, k, v) == s.push((k, v)),
    decreases s.len(),
{
    if s.len() > 0 {
        let rest = s.drop_first();
        assert(forall|j: int| 0 <= j < rest.len() ==> rest[j] == s[j + 1]);
        lemma_upsert_none(rest, k, v);
        assert(upsert(s, k, v) =~= seq![s[0]] + rest.push((k, v)));
        assert(seq![s[0]] + rest.push((k, v)) =~= s.push((k, v)));
    }
}

/// Name a read operation addresses.
pub open spec fn rd_op_key(op: RdOp) -> String {
    match op {
        RdOp::Default { p } => p,
        RdOp::WithType { p, t } => p,
    }
}

/// Wire entry a read operation compiles to.
pub open spec fn rd_op_value(op: RdOp) -> RdValueDto {
    match op {
        RdOp::Default { p } => RdValueDto::Default,
        RdOp::WithType { p, t } => RdValueDto::Detailed { t },
    }
}

/// The value text a write operation carries.
pub open spec fn wr_op_num(op: WrOp) -> Seq<char> {
    match op {
        WrOp::Default { p, v } => v@,
        WrOp::WithType { p, t, v } => v@,
    }
}

/// Every value text in the list is one JSON number token.
pub open spec fn wr_ops_valid(ops: Seq<WrOp>) -> bool {
    forall|i: int| 0 <= i < ops.len() ==> is_number_text(encode_utf8(wr_op_num(#[trigger] ops[i])))
}

/// Decides `wr_ops_valid`: callers hold a write-operation list to this
/// before opening a write transaction.
pub fn check_write_ops(parameters: &[WrOp]) -> (r: bool)
    ensures
        r == wr_ops_valid(parameters@),
{
    let n = parameters.len();
    let mut i: usize = 0;
    while i < n
        invariant
            0 <= i <= n,
            n == parameters@.len(),
            forall|j: int|
                0 <= j < i ==> is_number_text(encode_utf8(wr_op_num(#[trigger] parameters@[j]))),
        decreases n - i,
    {
        let ok = match &parameters[i] {
            WrOp::Default { p, v } => check_number_text(v.as_str()),
            WrOp::WithType { p, t, v } => check_number_text(v.as_str()),
        };
        if !ok {
            proof {
                assert(!is_number_text(encode_utf8(wr_op_num(parameters@[i as int]))));
            }
            return false;
        }
        i = i + 1;
    }
    true
}

/// Name a write operation addresses.
pub open spec fn wr_op_key(op: WrOp) -> String {
    match op {
        WrOp::Default { p, v } => p,
        WrOp::WithType { p, t, v } => p,
    }
}

/// Wire entry a write operation compiles to.
pub open spec fn wr_op_value(op: WrOp) -> WrValueDto {
    match op {
        WrOp::Default { p, v } => WrValueDto::Simple(v),
        WrOp::WithType { p, t, v } => WrValueDto::Detailed { v, t },
    }
}

/// The wire map of a read-operation list, in order, later duplicates winning.
pub open spec fn compile_rd_ops(ops: Seq<RdOp>) -> Seq<(String, RdValueDto)>
    decreases ops.len(),
{
    if ops.len() == 0 {
        Seq::empty()
    } else {
        upsert(compile_rd_ops(ops.drop_last()), rd_op_key(ops.last()), rd_op_value(ops.last()))
    }
}

/// The wire map of a write-operation list, in order, later duplicates winning.
pub open spec fn compile_wr_ops(ops: Seq<WrOp>) -> Seq<(String, WrValueDto)>
    decreases ops.len(),
{
    if ops.len() == 0 {
        Seq::empty()
    } else {
        upsert(compile_wr_ops(ops.drop_last()), wr_op_key(ops.last()), wr_op_value(ops.last()))
    }
}

/// Compiles a read-operation list to its wire map.
pub fn build_read_map(parameters: &[RdOp]) -> (r: ParamMap<RdValueDto>)
    ensures
        r@ == compile_rd_ops(parameters@),
        r.wf(),
{
    let n = parameters.len();
    let mut m: ParamMap<RdValueDto> = ParamMap::new();
    let mut i: usize = 0;
    while i < n
        invariant
            0 <= i <= n,
            n == parameters@.len(),
            m@ == compile_rd_ops(parameters@.take(i as int)),
            m.wf(),
        decreases n - i,
    {
        proof {
            assert(parameters@.take(i as int + 1).drop_last() =~= parameters@.take(i as int));
            assert(parameters@.take(i as int + 1).last() == parameters@[i as int]);
        }
        match &parameters[i] {
            RdOp::Default { p } => m.insert(p.clone(), RdValueDto::Default),
            RdOp::WithType { p, t } => m.insert(p.clone(), RdValueDto::Detailed { t: t.clone() }),
        }
        i = i + 1;
    }
    proof {
        assert(parameters@.take(n as int) =~= parameters@);
    }
    m
}

/// Compiles a write-operation list to its wire map. The value texts must
/// already be number tokens: they are spliced into the request unquoted.
pub fn build_write_map(parameters: &[WrOp]) -> (r: ParamMap<WrValueDto>)
    requires
        wr_ops_valid(parameters@),
    ensures
        r@ == compile_wr_ops(parameters@),
        r.wf(),
{
    let n = parameters.len();
    let mut m: ParamMap<WrValueDto> = ParamMap::new();
    let mut i: usize = 0;
    while i < n
        invariant
            0 <= i <= n,
            n == parameters@.len(),
            m@ == compile_wr_ops(parameters@.take(i as int)),
            m.wf(),
        decreases n - i,
    {
        proof {
            assert(parameters@.take(i as int + 1).drop_last() =~= parameters@.take(i as int));
            assert(parameters@.take(i as int + 1).last() == parameters@[i as int]);
        }
        match &parameters[i] {
            WrOp::Default { p, v } => m.insert(p.clone(), WrValueDto::Simple(v.clone())),
            WrOp::WithType { p, t, v } => m.insert(
                p.clone(),
                WrValueDto::Detailed { v: v.clone(), t: t.clone() },
            ),
        }
        i = i + 1;
    }
    proof {
        assert(parameters@.take(n as int) =~= parameters@);
    }
    m
}

} // verus!
