//! The parameter mapping contract: a record type declares which of its
//! fields correspond to which device parameters, emits one read or write
//! operation per binding in binding order, and absorbs a result map back
//! into its fields. `ParamRecord` is the generic executor over an explicit,
//! externally constructed binding list; any type may implement the contract
//! itself instead.

use vstd::prelude::*;

use crate::dto::ResultMap;
use crate::dto::result_effective;
use crate::ops::RdOp;
use crate::ops::WrOp;

verus! {

/// The capability of synchronizing a record's fields with named device
/// parameters in one round trip. `param_bindings` is the record's ordered
/// list of (parameter name, current value text) pairs; it is fixed at
/// configuration time, only the value texts move.
pub trait NetcomSync {
    /// The bindings, in order: parameter name and current field value.
    spec fn param_bindings(&self) -> Seq<(Seq<char>, Seq<char>)>;

    /// The record's own field labels, in binding order; fixed for life.
    spec fn field_labels(&self) -> Seq<Seq<char>>;

    /// One untyped read per binding, in binding order.
    fn to_rdops(&self) -> (r: Vec<RdOp>)
        ensures
            r@.len() == self.param_bindings().len(),
            forall|i: int|
                0 <= i < r@.len() ==> (#[trigger] r@[i] matches RdOp::Default { p } && p@
                    == self.param_bindings()[i].0),
    ;

    /// One untyped write per binding carrying the field's value, in binding
    /// order.
    fn to_wrops(&self) -> (r: Vec<WrOp>)
        ensures
            r@.len() == self.param_bindings().len(),
            forall|i: int|
                0 <= i < r@.len() ==> (#[trigger] r@[i] matches WrOp::Default { p, v } && p@
                    == self.param_bindings()[i].0 && v@ == self.param_bindings()[i].1),
    ;

    /// Absorbs a result map: a binding whose name the map returns a value
    /// for takes that value; a binding whose name is absent, or present
    /// with null, keeps its value and its labels. Never an error, never a
    /// zeroed field.
    fn apply_result(&mut self, result: &ResultMap)
        ensures
            final(self).field_labels() == old(self).field_labels(),
            final(self).param_bindings().len() == old(self).param_bindings().len(),
            forall|i: int|
                0 <= i < old(self).param_bindings().len() ==> {
                    let pre = old(self).param_bindings()[i];
                    let post = #[trigger] final(self).param_bindings()[i];
                    post.0 == pre.0 && post.1 == (match result_effective(result@, pre.0) {
                        Some(v) => v,
                        None => pre.1,
                    })
                },
    ;
}

/// One field of a mapped record: the field's own name, the protocol
/// parameter it is bound to, and the field's current value as decimal text.
#[derive(Debug, Clone, PartialEq, Eq)]
pub struct FieldBinding {
    pub field: String,
    pub param: String,
    pub value: String,
}

pub open spec fn binding_view(b: FieldBinding) -> (Seq<char>, Seq<char>) {
    (b.param@, b.value@)
}

/// A record given as an explicit ordered binding list: the configuration
/// value that replaces generated per-type glue code.
#[derive(Debug, PartialEq, Eq)]
pub struct ParamRecord {
    pub fields: Vec<FieldBinding>,
}

impl NetcomSync for ParamRecord {
    open spec fn param_bindings(&self) -> Seq<(Seq<char>, Seq<char>)> {
        self.fields@.map_values(|b: FieldBinding| binding_view(b))
    }

    open spec fn field_labels(&self) -> Seq<Seq<char>> {
        self.fields@.map_values(|b: FieldBinding| b.field@)
    }

    fn to_rdops(&self) -> (r: Vec<RdOp>) {
        let n = self.fields.len();
        let mut r: Vec<RdOp> = Vec::new();
        let mut i: usize = 0;
        while i < n
            invariant
                0 <= i <= n,
                n == self.fields@.len(),
                r@.len() == i,
                forall|j: int|
                    0 <= j < i ==> (#[trigger] r@[j] matches RdOp::Default { p } && p@
                        == self.param_bindings()[j].0),
            decreases n - i,
        {
            proof {
                assert(self.param_bindings()[i as int] == binding_view(self.fields@[i as int]));
            }
            r.push(RdOp::Default { p: self.fields[i].param.clone() });
            i = i + 1;
        }
        r
    }

    fn to_wrops(&self) -> (r: Vec<WrOp>) {
        let n = self.fields.len();
        let mut r: Vec<WrOp> = Vec::new();
        let mut i: usize = 0;
        while i < n
            invariant
                0 <= i <= n,
                n == self.fields@.len(),
                r@.len() == i,
                forall|j: int|
                    0 <= j < i ==> (#[trigger] r@[j] matches WrOp::Default { p, v } && p@
                        == self.param_bindings()[j].0 && v@ == self.param_bindings()[j].1),
            decreases n - i,
        {
            proof {
                assert(self.param_bindings()[i as int] == binding_view(self.fields@[i as int]));
            }
            r.push(
                WrOp::Default {
                    p: self.fields[i].param.clone(),
                    v: self.fields[i].value.clone(),
                },
            );
            i = i + 1;
        }
        r
    }

    fn apply_result(&mut self, result: &ResultMap) {
        let ghost orig = old(self).fields@;
        let n = self.fields.len();
        let mut i: usize = 0;
        while i < n
            invariant
                0 <= i <= n,
                n == orig.len(),
                self.fields@.len() == n,
                forall|j: int| i <= j < n ==> self.fields@[j] == orig[j],
                forall|j: int|
                    0 <= j < i ==> {
                        let pre = orig[j];
                        let post = #[trigger] self.fields@[j];
                        post.field == pre.field && post.param == pre.param && post.value@ == (
                        match result_effective(result@, pre.param@) {
                            Some(v) => v,
                            None => pre.value@,
                        })
                    },
            decreases n - i,
        {
            match result.get(&self.fields[i].param) {
                Some(Some(v)) => {
                    let mut b = self.fields.remove(i);
                    b.value = v;
                    self.fields.insert(i, b);
                },
                _ => {},
            }
            i = i + 1;
        }
        proof {
            assert(forall|j: int|
                0 <= j < n ==> #[trigger] old(self).param_bindings()[j] == binding_view(orig[j]));
            assert(forall|j: int|
                0 <= j < n ==> #[trigger] self.param_bindings()[j] == binding_view(
                    self.fields@[j],
                ));
            assert(forall|j: int|
                0 <= j < n ==> #[trigger] old(self).field_labels()[j] == orig[j].field@);
            assert(forall|j: int|
                0 <= j < n ==> #[trigger] self.field_labels()[j] == self.fields@[j].field@);
            assert(self.field_labels() =~= old(self).field_labels());
        }
    }
}

} // verus!
