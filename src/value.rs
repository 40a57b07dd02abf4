//! Runtime-typed value-lists.
//!
//! A value-list is a flat `Vec<Value>`. Composite values are written in prefix
//! form: a group marker names its shape and the number of entries that follow
//! it and belong to it. `Either(arm, n)` heads one arm of an alternative and
//! `Tuple(n)` heads a tuple; both own the next `n` entries.
use vstd::prelude::*;

verus! {

/// Which arm of an alternative produced a value-list.
#[derive(Clone, Copy, Debug, PartialEq, Eq)]
pub enum Arm {
    A,
    B,
}

/// One entry of a value-list.
#[derive(Clone, Debug, PartialEq, Eq)]
pub enum Value {
    Num(u64),
    Text(String),
    Either(Arm, usize),
    Tuple(usize),
}

impl Value {
    /// A copy of this value.
    pub fn duplicate(&self) -> (r: Value)
        ensures
            r == *self,
    {
        match self {
            Value::Num(n) => Value::Num(*n),
            Value::Text(s) => Value::Text(s.clone()),
            Value::Either(Arm::A, n) => Value::Either(Arm::A, *n),
            Value::Either(Arm::B, n) => Value::Either(Arm::B, *n),
            Value::Tuple(n) => Value::Tuple(*n),
        }
    }
}

/// The value-list `x` tagged as produced by arm `arm` of an alternative.
pub open spec fn either_of(arm: Arm, x: Seq<Value>) -> Seq<Value> {
    seq![Value::Either(arm, x.len() as usize)] + x
}

/// The value-list holding the single tuple made of `x`.
pub open spec fn tuple_of(x: Seq<Value>) -> Seq<Value> {
    seq![Value::Tuple(x.len() as usize)] + x
}

/// `v` is exactly one alternative, whichever arm produced it.
pub open spec fn is_either(v: Seq<Value>) -> bool {
    v.len() >= 1 && v[0] is Either && v[0]->Either_1 == (v.len() - 1) as usize
}

/// `v` is exactly one tuple.
pub open spec fn is_tuple(v: Seq<Value>) -> bool {
    v.len() >= 1 && v[0] is Tuple && v[0]->Tuple_0 == (v.len() - 1) as usize
}

/// `v` holds exactly one value: a plain value, one alternative or one tuple.
pub open spec fn is_single(v: Seq<Value>) -> bool {
    v.len() == 1 || is_either(v) || is_tuple(v)
}

/// An alternative collapsed to the values of its arm; anything else unchanged.
pub open spec fn unified(v: Seq<Value>) -> Seq<Value> {
    if is_either(v) { v.drop_first() } else { v }
}

/// A single tuple opened into its members; anything else unchanged.
pub open spec fn untupled(v: Seq<Value>) -> Seq<Value> {
    if is_tuple(v) { v.drop_first() } else { v }
}

/// Tags `x` with the arm that produced it.
pub fn either(arm: Arm, x: Vec<Value>) -> (r: Vec<Value>)
    ensures
        r@ == either_of(arm, x@),
{
    let mut x = x;
    let mut r: Vec<Value> = Vec::new();
    r.push(Value::Either(arm, x.len()));
    r.append(&mut x);
    r
}

/// Packs `x` into a value-list holding one tuple.
pub fn tuple(x: Vec<Value>) -> (r: Vec<Value>)
    ensures
        r@ == tuple_of(x@),
{
    let mut x = x;
    let mut r: Vec<Value> = Vec::new();
    r.push(Value::Tuple(x.len()));
    r.append(&mut x);
    r
}

/// Collapses an alternative to the values of the arm that produced them.
pub fn unify_values(v: Vec<Value>) -> (r: Vec<Value>)
    ensures
        r@ == unified(v@),
{
    let ghost before = v@;
    let mut v = v;
    let n = v.len();
    if n >= 1 {
        let head_is_either = match &v[0] {
            Value::Either(_, k) => *k == n - 1,
            _ => false,
        };
        if head_is_either {
            v.remove(0);
            assert(v@ =~= before.drop_first());
        }
    }
    v
}

/// Opens a single tuple into its members.
pub fn untuple_values(v: Vec<Value>) -> (r: Vec<Value>)
    ensures
        r@ == untupled(v@),
{
    let ghost before = v@;
    let mut v = v;
    let n = v.len();
    if n >= 1 {
        let head_is_tuple = match &v[0] {
            Value::Tuple(k) => *k == n - 1,
            _ => false,
        };
        if head_is_tuple {
            v.remove(0);
            assert(v@ =~= before.drop_first());
        }
    }
    v
}

} // verus!
