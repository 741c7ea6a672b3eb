//! The tagged-value tree that the renderer produces: the cross-boundary
//! output format, able to carry every shape the projection needs (null,
//! booleans, signed and unsigned integers, strings, arrays, keyed records).

use vstd::prelude::*;

verus! {

/// Mathematical model of a tagged value: what contracts speak of.
pub ghost enum GValue {
    Null,
    Bool(bool),
    Int(int),
    Str(Seq<char>),
    Arr(Seq<GValue>),
    Obj(Seq<(Seq<char>, GValue)>),
}

/// A tagged value. Records (`Obj`) keep their entries in insertion order, so
/// a rendering is deterministic down to key order.
#[derive(Debug, PartialEq)]
pub enum Value {
    Null,
    Bool(bool),
    I64(i64),
    U64(u64),
    Str(String),
    Arr(Vec<Value>),
    Obj(Vec<(String, Value)>),
}

/// The model a `Value` stands for: both integer forms collapse into the one
/// mathematical integer, strings into their character sequences.
pub open spec fn gview(v: Value) -> GValue
    decreases v,
{
    match v {
        Value::Null => GValue::Null,
        Value::Bool(b) => GValue::Bool(b),
        Value::I64(n) => GValue::Int(n as int),
        Value::U64(n) => GValue::Int(n as int),
        Value::Str(s) => GValue::Str(s@),
        Value::Arr(vs) => GValue::Arr(gview_seq(vs@)),
        Value::Obj(es) => GValue::Obj(gview_entries(es@)),
    }
}

/// Element-wise model of a sequence of values.
pub open spec fn gview_seq(s: Seq<Value>) -> Seq<GValue>
    decreases s,
{
    if s.len() == 0 {
        Seq::empty()
    } else {
        gview_seq(s.drop_last()).push(gview(s.last()))
    }
}

/// Element-wise model of a sequence of record entries.
pub open spec fn gview_entries(s: Seq<(String, Value)>) -> Seq<(Seq<char>, GValue)>
    decreases s,
{
    if s.len() == 0 {
        Seq::empty()
    } else {
        gview_entries(s.drop_last()).push((s.last().0@, gview(s.last().1)))
    }
}

impl View for Value {
    type V = GValue;

    open spec fn view(&self) -> GValue {
        gview(*self)
    }
}

/// The model of a sequence of values is the sequence of their models.
pub proof fn lemma_gview_seq(s: Seq<Value>)
    ensures
        gview_seq(s).len() == s.len(),
        forall|i: int| 0 <= i < s.len() ==> gview_seq(s)[i] == gview(#[trigger] s[i]),
    decreases s.len(),
{
    if s.len() > 0 {
        lemma_gview_seq(s.drop_last());
        assert forall|i: int| 0 <= i < s.len() implies gview_seq(s)[i] == gview(
            #[trigger] s[i],
        ) by {
            if i < s.len() - 1 {
                assert(gview_seq(s)[i] == gview_seq(s.drop_last())[i]);
                assert(s.drop_last()[i] == s[i]);
            } else {
                assert(s.last() == s[i]);
            }
        }
    }
}

/// Structural equality of two tagged values, decided against their models:
/// the result is true exactly when the two values stand for the same tree
/// (so a signed and an unsigned integer of the same magnitude are equal).
#[verifier::loop_isolation(false)]
pub fn value_eq(a: &Value, b: &Value) -> (r: bool)
    ensures
        r == (a@ == b@),
    decreases *a,
{
    match (a, b) {
        (Value::Null, Value::Null) => true,
        (Value::Bool(x), Value::Bool(y)) => x == y,
        (Value::I64(x), Value::I64(y)) => x == y,
        (Value::U64(x), Value::U64(y)) => x == y,
        (Value::I64(x), Value::U64(y)) => *x >= 0 && (*x as u64) == *y,
        (Value::U64(x), Value::I64(y)) => *y >= 0 && (*y as u64) == *x,
        (Value::Str(x), Value::Str(y)) => *x == *y,
        (Value::Arr(xs), Value::Arr(ys)) => {
            proof {
                lemma_gview_seq(xs@);
                lemma_gview_seq(ys@);
            }
            if xs.len() != ys.len() {
                return false;
            }
            let mut i: usize = 0;
            while i < xs.len()
                invariant
                    0 <= i <= xs@.len(),
                    xs@.len() == ys@.len(),
                    forall|j: int| 0 <= j < i as int ==> gview(#[trigger] xs@[j]) == gview(ys@[j]),
                decreases xs@.len() - i,
            {
                proof {
                    assert(decreases_to!(*a => xs@[i as int]));
                }
                if !value_eq(&xs[i], &ys[i]) {
                    proof {
                        assert(gview_seq(xs@)[i as int] != gview_seq(ys@)[i as int]);
                    }
                    return false;
                }
                i += 1;
            }
            proof {
                assert forall|j: int| 0 <= j < xs@.len() implies gview_seq(xs@)[j] == gview_seq(
                    ys@,
                )[j] by {
                    assert(gview(xs@[j]) == gview(ys@[j]));
                }
                assert(gview_seq(xs@) =~= gview_seq(ys@));
            }
            true
        },
        (Value::Obj(xs), Value::Obj(ys)) => {
            proof {
                lemma_gview_entries(xs@);
                lemma_gview_entries(ys@);
            }
            if xs.len() != ys.len() {
                return false;
            }
            let mut i: usize = 0;
            while i < xs.len()
                invariant
                    0 <= i <= xs@.len(),
                    xs@.len() == ys@.len(),
                    forall|j: int|
                        0 <= j < i as int ==> (#[trigger] xs@[j]).0@ == ys@[j].0@ && gview(
                            xs@[j].1,
                        ) == gview(ys@[j].1),
                decreases xs@.len() - i,
            {
                if !(xs[i].0 == ys[i].0) {
                    proof {
                        assert(gview_entries(xs@)[i as int] != gview_entries(ys@)[i as int]);
                    }
                    return false;
                }
                proof {
                    assert(decreases_to!(*a => xs@[i as int].1));
                }
                if !value_eq(&xs[i].1, &ys[i].1) {
                    proof {
                        assert(gview_entries(xs@)[i as int] != gview_entries(ys@)[i as int]);
                    }
                    return false;
                }
                i += 1;
            }
            proof {
                assert forall|j: int| 0 <= j < xs@.len() implies gview_entries(xs@)[j]
                    == gview_entries(ys@)[j] by {
                    assert(xs@[j].0@ == ys@[j].0@ && gview(xs@[j].1) == gview(ys@[j].1));
                }
                assert(gview_entries(xs@) =~= gview_entries(ys@));
            }
            true
        },
        _ => false,
    }
}

/// The model of a sequence of entries is the sequence of entry models.
pub proof fn lemma_gview_entries(s: Seq<(String, Value)>)
    ensures
        gview_entries(s).len() == s.len(),
        forall|i: int| 0 <= i < s.len() ==> gview_entries(s)[i] == ((#[trigger] s[i]).0@, gview(
            s[i].1,
        )),
    decreases s.len(),
{
    if s.len() > 0 {
        lemma_gview_entries(s.drop_last());
        assert forall|i: int| 0 <= i < s.len() implies gview_entries(s)[i] == ((
        #[trigger] s[i]).0@, gview(s[i].1)) by {
            if i < s.len() - 1 {
                assert(gview_entries(s)[i] == gview_entries(s.drop_last())[i]);
                assert(s.drop_last()[i] == s[i]);
            } else {
                assert(s.last() == s[i]);
            }
        }
    }
}

} // verus!
