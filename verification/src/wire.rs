//! Rendering typed data into [`Value`] trees and back. A type that implements
//! [`Wire`] says, as a spec function, which value shape stands for each of
//! its mathematical models; converting there and back loses nothing.

use vstd::prelude::*;
use vstd::slice::slice_to_vec;
use crate::value::{Value, ValueModel};

verus! {

/// A type with a deterministic value-tree rendering of its model.
pub trait Wire: DeepView + Sized {
    /// The value shape that stands for the model `m`.
    spec fn wire(m: <Self as DeepView>::V) -> ValueModel;

    /// Renders this datum as a value tree.
    fn to_value(&self) -> (v: Value)
        ensures
            v.deep_view() == Self::wire(self.deep_view()),
    ;

    /// Reads a datum back out of a value tree: whatever model the tree
    /// stands for is returned exactly.
    fn of_value(v: Value) -> (r: Option<Self>)
        ensures
            forall|m: <Self as DeepView>::V|
                v.deep_view() == #[trigger] Self::wire(m) ==> (r matches Some(x) && x.deep_view()
                    == m),
    ;
}

impl Wire for u64 {
    open spec fn wire(m: u64) -> ValueModel {
        ValueModel::Num(m)
    }

    fn to_value(&self) -> (v: Value) {
        Value::Num(*self)
    }

    fn of_value(v: Value) -> (r: Option<u64>) {
        match v {
            Value::Num(x) => Some(x),
            _ => None,
        }
    }
}

impl Wire for bool {
    open spec fn wire(m: bool) -> ValueModel {
        ValueModel::Num(if m { 1 } else { 0 })
    }

    fn to_value(&self) -> (v: Value) {
        Value::Num(if *self { 1 } else { 0 })
    }

    fn of_value(v: Value) -> (r: Option<bool>) {
        match v {
            Value::Num(x) => {
                if x == 0 {
                    Some(false)
                } else if x == 1 {
                    Some(true)
                } else {
                    None
                }
            },
            _ => None,
        }
    }
}

impl Wire for String {
    open spec fn wire(m: Seq<char>) -> ValueModel {
        ValueModel::Txt(m)
    }

    fn to_value(&self) -> (v: Value) {
        Value::Txt(self.clone())
    }

    fn of_value(v: Value) -> (r: Option<String>) {
        match v {
            Value::Txt(s) => Some(s),
            _ => None,
        }
    }
}

impl Wire for Vec<u8> {
    open spec fn wire(m: Seq<u8>) -> ValueModel {
        ValueModel::Bin(m)
    }

    fn to_value(&self) -> (v: Value) {
        let c = slice_to_vec(self.as_slice());
        proof {
            assert(c.deep_view() =~= self.deep_view());
        }
        Value::Bin(c)
    }

    fn of_value(v: Value) -> (r: Option<Vec<u8>>) {
        match v {
            Value::Bin(bs) => Some(bs),
            _ => None,
        }
    }
}

impl<T: Wire> Wire for Option<T> {
    open spec fn wire(m: Option<<T as DeepView>::V>) -> ValueModel {
        match m {
            Option::None => ValueModel::Unit,
            Option::Some(x) => ValueModel::Pair(
                Box::new(T::wire(x)),
                Box::new(ValueModel::Unit),
            ),
        }
    }

    fn to_value(&self) -> (v: Value) {
        match self {
            Option::None => Value::unit(),
            Option::Some(x) => Value::pair(x.to_value(), Value::unit()),
        }
    }

    fn of_value(v: Value) -> (r: Option<Option<T>>) {
        if v.is_unit() {
            return Some(None);
        }
        match v.into_pair() {
            Some((a, b)) => {
                if !b.is_unit() {
                    return None;
                }
                match T::of_value(a) {
                    Some(x) => Some(Some(x)),
                    None => None,
                }
            },
            None => None,
        }
    }
}

impl<V: Wire> Wire for (String, V) {
    open spec fn wire(m: (Seq<char>, <V as DeepView>::V)) -> ValueModel {
        ValueModel::Pair(Box::new(ValueModel::Txt(m.0)), Box::new(V::wire(m.1)))
    }

    fn to_value(&self) -> (v: Value) {
        Value::pair(Value::Txt(self.0.clone()), self.1.to_value())
    }

    fn of_value(v: Value) -> (r: Option<(String, V)>) {
        match v.into_pair() {
            Some((a, b)) => {
                match a.into_txt() {
                    Some(k) => {
                        match V::of_value(b) {
                            Some(x) => Some((k, x)),
                            None => None,
                        }
                    },
                    None => None,
                }
            },
            None => None,
        }
    }
}

/// The value shape of a sequence of models: nested pairs ending in `Unit`.
pub open spec fn wire_seq<T: Wire>(ms: Seq<<T as DeepView>::V>) -> ValueModel
    decreases ms.len(),
{
    if ms.len() == 0 {
        ValueModel::Unit
    } else {
        ValueModel::Pair(Box::new(T::wire(ms[0])), Box::new(wire_seq::<T>(ms.drop_first())))
    }
}

/// Renders `xs[i..]` as a chain of pairs.
pub fn vec_to_value_from<T: Wire>(xs: &Vec<T>, i: usize) -> (v: Value)
    requires
        i <= xs.len(),
    ensures
        v.deep_view() == wire_seq::<T>(xs.deep_view().skip(i as int)),
    decreases xs.len() - i,
{
    if i == xs.len() {
        proof {
            assert(xs.deep_view().skip(i as int).len() == 0);
        }
        Value::Unit
    } else {
        let head = xs[i].to_value();
        let tail = vec_to_value_from(xs, i + 1);
        let v = Value::Pair(Box::new(head), Box::new(tail));
        proof {
            let ms = xs.deep_view().skip(i as int);
            assert(ms[0] == xs.deep_view()[i as int]);
            assert(ms.drop_first() =~= xs.deep_view().skip(i as int + 1));
        }
        v
    }
}

/// Renders a vector as a chain of pairs.
pub fn vec_to_value<T: Wire>(xs: &Vec<T>) -> (v: Value)
    ensures
        v.deep_view() == wire_seq::<T>(xs.deep_view()),
{
    let v = vec_to_value_from(xs, 0);
    proof {
        assert(xs.deep_view().skip(0) =~= xs.deep_view());
    }
    v
}

/// Reads a chain of pairs back, appending the elements to `out`.
pub fn vec_of_value_into<T: Wire>(v: Value, out: &mut Vec<T>) -> (ok: bool)
    ensures
        forall|ms: Seq<<T as DeepView>::V>|
            v.deep_view() == #[trigger] wire_seq::<T>(ms) ==> (ok && final(out).deep_view() == old(
                out,
            ).deep_view() + ms),
    decreases v,
{
    match v {
        Value::Unit => {
            proof {
                assert forall|ms: Seq<<T as DeepView>::V>|
                    Value::Unit.deep_view() == #[trigger] wire_seq::<T>(ms) implies out.deep_view()
                    == old(out).deep_view() + ms by {
                    assert(ms.len() == 0);
                    assert(out.deep_view() + ms =~= out.deep_view());
                }
            }
            true
        },
        Value::Pair(a, b) => {
            let ghost adv = a.deep_view();
            let ghost bdv = b.deep_view();
            match T::of_value(*a) {
                Some(x) => {
                    let ghost mid = out.deep_view().push(x.deep_view());
                    out.push(x);
                    proof {
                        assert(out.deep_view() =~= mid);
                    }
                    let ok = vec_of_value_into(*b, out);
                    proof {
                        assert forall|ms: Seq<<T as DeepView>::V>|
                            ValueModel::Pair(Box::new(adv), Box::new(bdv)) == #[trigger] wire_seq::<
                            T,
                        >(ms) implies (ok && out.deep_view() == old(out).deep_view() + ms) by {
                            assert(ms.len() > 0);
                            assert(bdv == wire_seq::<T>(ms.drop_first()));
                            assert(old(out).deep_view() + ms =~= (old(out).deep_view().push(
                                ms[0],
                            )) + ms.drop_first());
                        }
                    }
                    ok
                },
                None => {
                    proof {
                        assert forall|ms: Seq<<T as DeepView>::V>|
                            ValueModel::Pair(Box::new(adv), Box::new(bdv)) == #[trigger] wire_seq::<
                            T,
                        >(ms) implies false by {
                            assert(ms.len() > 0);
                            assert(adv == T::wire(ms[0]));
                        }
                    }
                    false
                },
            }
        },
        _ => {
            false
        },
    }
}

/// Reads a chain of pairs back as a fresh vector.
pub fn vec_of_value<T: Wire>(v: Value) -> (r: Option<Vec<T>>)
    ensures
        forall|ms: Seq<<T as DeepView>::V>|
            v.deep_view() == #[trigger] wire_seq::<T>(ms) ==> (r matches Some(xs) && xs.deep_view()
                == ms),
{
    let mut out: Vec<T> = Vec::new();
    let ghost dv = v.deep_view();
    let ok = vec_of_value_into(v, &mut out);
    if ok {
        proof {
            assert forall|ms: Seq<<T as DeepView>::V>| dv == #[trigger] wire_seq::<T>(ms) implies
                out.deep_view() == ms by {
            assert(Seq::<<T as DeepView>::V>::empty() + ms =~= ms);
            }
        }
        Some(out)
    } else {
        None
    }
}

} // verus!
