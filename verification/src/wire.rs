//! JSON-shaped structured values.
//!
//! A [`WireValue`] is the generic tree that crosses the boundary between the
//! plugin and the GUI runtime: the embedding converts it to and from whatever
//! concrete representation its transport uses.  Numbers are held in the
//! fixed-point form of [`Number`], which represents every normalized
//! parameter value exactly and carries application payload numbers through
//! unchanged.

use vstd::prelude::*;
use crate::strutil::str_eq;

verus! {

/// The fixed-point denominator of [`Number`]: one billion, so a number is a
/// count of nanounits.
pub const UNIT_NANOS: i64 = 1_000_000_000;

/// A decimal number, held as a count of nanounits (billionths).
///
/// The normalized parameter values the bridge works with all lie in
/// `[0, 1]`, which this form represents with nine decimal digits of
/// precision and without any rounding inside the library.
#[derive(Clone, Copy, Debug, PartialEq, Eq, Structural)]
pub struct Number {
    /// The number, scaled by [`UNIT_NANOS`]: `nanos == 500_000_000` is one half.
    pub nanos: i64,
}

impl Number {
    /// The number zero.
    pub fn zero() -> (r: Number)
        ensures
            r.nanos == 0,
    {
        Number { nanos: 0 }
    }

    /// The number one, the top of the normalized range.
    pub fn one() -> (r: Number)
        ensures
            r.nanos == UNIT_NANOS,
    {
        Number { nanos: UNIT_NANOS }
    }

    /// Whether the number lies in the normalized range `[0, 1]`.
    pub open spec fn in_unit_range(self) -> bool {
        0 <= self.nanos <= UNIT_NANOS
    }

    /// What clamping to the normalized range `[0, 1]` returns.
    pub open spec fn spec_clamp_unit(self) -> Number {
        if self.nanos < 0 {
            Number { nanos: 0 }
        } else if self.nanos > UNIT_NANOS {
            Number { nanos: UNIT_NANOS }
        } else {
            self
        }
    }

    /// Clamps the number to the normalized range `[0, 1]`.
    pub fn clamp_unit(self) -> (r: Number)
        ensures
            r == self.spec_clamp_unit(),
            r.in_unit_range(),
            self.in_unit_range() ==> r == self,
    {
        if self.nanos < 0 {
            Number { nanos: 0 }
        } else if self.nanos > UNIT_NANOS {
            Number { nanos: UNIT_NANOS }
        } else {
            self
        }
    }
}

/// The mathematical shape of a structured value: what the contracts speak of.
#[verifier::ext_equal]
pub enum ValueModel {
    Null,
    Bool(bool),
    Num(Number),
    Str(Seq<char>),
    Arr(Seq<ValueModel>),
    Obj(Seq<(Seq<char>, ValueModel)>),
}

/// A JSON-shaped structured value: the tree that crosses the GUI boundary.
///
/// Arrays and objects are held as linked lists so that the tree can nest to
/// any depth; their models are plain sequences.
#[derive(Debug, PartialEq, Eq)]
pub enum WireValue {
    Null,
    Bool(bool),
    Num(Number),
    Str(String),
    Arr(Box<WireList>),
    Obj(Box<WireObj>),
}

/// The elements of an array value, front first.
#[derive(Debug, PartialEq, Eq)]
pub enum WireList {
    Nil,
    Cons(WireValue, Box<WireList>),
}

/// The fields of an object value, front first.  A key may repeat; lookups
/// take the first occurrence.
#[derive(Debug, PartialEq, Eq)]
pub enum WireObj {
    Nil,
    Cons(String, WireValue, Box<WireObj>),
}

impl View for WireValue {
    type V = ValueModel;

    open spec fn view(&self) -> ValueModel
        decreases self,
    {
        match self {
            WireValue::Null => ValueModel::Null,
            WireValue::Bool(b) => ValueModel::Bool(*b),
            WireValue::Num(n) => ValueModel::Num(*n),
            WireValue::Str(s) => ValueModel::Str(s@),
            WireValue::Arr(l) => ValueModel::Arr(l.model_items()),
            WireValue::Obj(o) => ValueModel::Obj(o.model_fields()),
        }
    }
}

impl DeepView for WireValue {
    type V = ValueModel;

    open spec fn deep_view(&self) -> ValueModel {
        self.view()
    }
}

impl WireList {
    /// The sequence of element models, front first.
    pub open spec fn model_items(&self) -> Seq<ValueModel>
        decreases self,
    {
        match self {
            WireList::Nil => Seq::<ValueModel>::empty(),
            WireList::Cons(v, rest) => seq![v@] + rest.model_items(),
        }
    }

    /// The empty list of elements.
    pub fn empty() -> (r: WireList)
        ensures
            r.model_items() == Seq::<ValueModel>::empty(),
    {
        WireList::Nil
    }

    /// Puts one element in front of the list.
    pub fn prepend(self, v: WireValue) -> (r: WireList)
        ensures
            r.model_items() == seq![v@] + self.model_items(),
    {
        let ghost vm = v@;
        let ghost sm = self.model_items();
        let r = WireList::Cons(v, Box::new(self));
        proof {
            match &r {
                WireList::Cons(v2, rest2) => {
                    assert(r.model_items() == seq![v2@] + rest2.model_items());
                    assert(v2@ == vm);
                    assert(rest2.model_items() == sm);
                },
                WireList::Nil => {
                    assert(false);
                },
            }
        }
        r
    }
}

impl WireObj {
    /// The sequence of `(key, value)` models, front first.
    pub open spec fn model_fields(&self) -> Seq<(Seq<char>, ValueModel)>
        decreases self,
    {
        match self {
            WireObj::Nil => Seq::<(Seq<char>, ValueModel)>::empty(),
            WireObj::Cons(k, v, rest) => seq![(k@, v@)] + rest.model_fields(),
        }
    }

    /// The empty list of fields.
    pub fn empty() -> (r: WireObj)
        ensures
            r.model_fields() == Seq::<(Seq<char>, ValueModel)>::empty(),
    {
        WireObj::Nil
    }

    /// Puts one field in front of the list.
    pub fn prepend(self, k: String, v: WireValue) -> (r: WireObj)
        ensures
            r.model_fields() == seq![(k@, v@)] + self.model_fields(),
    {
        let ghost km = k@;
        let ghost vm = v@;
        let ghost sm = self.model_fields();
        let r = WireObj::Cons(k, v, Box::new(self));
        proof {
            match &r {
                WireObj::Cons(k2, v2, rest2) => {
                    assert(r.model_fields() == seq![(k2@, v2@)] + rest2.model_fields());
                    assert(k2@ == km);
                    assert(v2@ == vm);
                    assert(rest2.model_fields() == sm);
                },
                WireObj::Nil => {
                    assert(false);
                },
            }
        }
        r
    }

    /// Finds the first field named `key`.
    pub fn get<'a>(&'a self, key: &str) -> (r: Option<&'a WireValue>)
        ensures
            match r {
                Option::Some(v) => lookup_field(self.model_fields(), key@) == Some(v@),
                Option::None => lookup_field(self.model_fields(), key@) is None,
            },
        decreases self,
    {
        match self {
            WireObj::Nil => None,
            WireObj::Cons(k, v, rest) => {
                proof {
                    assert(self.model_fields() == seq![(k@, v@)] + rest.model_fields());
                    assert(self.model_fields()[0] == (k@, v@));
                    assert(self.model_fields().drop_first() =~= rest.model_fields());
                }
                if str_eq(k.as_str(), key) {
                    Some(v)
                } else {
                    rest.get(key)
                }
            },
        }
    }
}

/// The value of the first field named `key`, if any.
pub open spec fn lookup_field(fields: Seq<(Seq<char>, ValueModel)>, key: Seq<char>) -> Option<
    ValueModel,
>
    decreases fields.len(),
{
    if fields.len() == 0 {
        None
    } else if fields[0].0 == key {
        Some(fields[0].1)
    } else {
        lookup_field(fields.drop_first(), key)
    }
}

impl WireValue {
    /// An object value with the given fields.
    pub fn object(fields: WireObj) -> (r: WireValue)
        ensures
            r@ == ValueModel::Obj(fields.model_fields()),
    {
        let ghost fm = fields.model_fields();
        let r = WireValue::Obj(Box::new(fields));
        proof {
            match &r {
                WireValue::Obj(o) => {
                    assert(r@ == ValueModel::Obj(o.model_fields()));
                    assert(o.model_fields() == fm);
                },
                _ => {
                    assert(false);
                },
            }
        }
        r
    }

    /// An array value with the given elements.
    pub fn array(items: WireList) -> (r: WireValue)
        ensures
            r@ == ValueModel::Arr(items.model_items()),
    {
        let ghost im = items.model_items();
        let r = WireValue::Arr(Box::new(items));
        proof {
            match &r {
                WireValue::Arr(l) => {
                    assert(r@ == ValueModel::Arr(l.model_items()));
                    assert(l.model_items() == im);
                },
                _ => {
                    assert(false);
                },
            }
        }
        r
    }

    /// Copies a value; the copy has the same model.
    pub fn duplicate(&self) -> (r: WireValue)
        ensures
            r@ == self@,
        decreases self,
    {
        match self {
            WireValue::Null => WireValue::Null,
            WireValue::Bool(b) => WireValue::Bool(*b),
            WireValue::Num(n) => WireValue::Num(*n),
            WireValue::Str(s) => WireValue::Str(s.clone()),
            WireValue::Arr(l) => WireValue::Arr(Box::new(l.duplicate_items())),
            WireValue::Obj(o) => WireValue::Obj(Box::new(o.duplicate_fields())),
        }
    }
}

impl WireList {
    /// Copies a list of elements; the copy has the same models.
    pub fn duplicate_items(&self) -> (r: WireList)
        ensures
            r.model_items() == self.model_items(),
        decreases self,
    {
        match self {
            WireList::Nil => WireList::Nil,
            WireList::Cons(v, rest) => WireList::Cons(
                v.duplicate(),
                Box::new(rest.duplicate_items()),
            ),
        }
    }
}

impl WireObj {
    /// Copies a list of fields; the copy has the same models.
    pub fn duplicate_fields(&self) -> (r: WireObj)
        ensures
            r.model_fields() == self.model_fields(),
        decreases self,
    {
        match self {
            WireObj::Nil => WireObj::Nil,
            WireObj::Cons(k, v, rest) => WireObj::Cons(
                k.clone(),
                v.duplicate(),
                Box::new(rest.duplicate_fields()),
            ),
        }
    }
}

} // verus!
