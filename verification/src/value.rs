//! The JSON-like values that a node's configuration is made of.

use vstd::prelude::*;

verus! {

/// A JSON number: an unsigned integer, a negative integer, or a double held
/// by its IEEE-754 bit pattern.
#[derive(Clone, Copy, Debug, PartialEq, Eq, Structural)]
pub enum Number {
    PosInt(u64),
    NegInt(i64),
    Float(u64),
}

/// A JSON-like value. An object keeps its members in the order given.
#[derive(Debug, PartialEq, Eq)]
pub enum Value {
    Null,
    Bool(bool),
    Number(Number),
    String(String),
    Array(Vec<Value>),
    Object(Vec<(String, Value)>),
}

/// The mathematical content of a [`Value`].
pub enum Json {
    Null,
    Bool(bool),
    Number(Number),
    String(Seq<char>),
    Array(Seq<Json>),
    Object(Seq<(Seq<char>, Json)>),
}

impl View for Value {
    type V = Json;

    open spec fn view(&self) -> Json
        decreases self,
    {
        match self {
            Value::Null => Json::Null,
            Value::Bool(b) => Json::Bool(*b),
            Value::Number(n) => Json::Number(*n),
            Value::String(s) => Json::String(s@),
            Value::Array(items) => Json::Array(
                Seq::new(
                    items@.len(),
                    |i: int|
                        if 0 <= i < items@.len() {
                            items@[i]@
                        } else {
                            Json::Null
                        },
                ),
            ),
            Value::Object(members) => Json::Object(
                Seq::new(
                    members@.len(),
                    |i: int|
                        if 0 <= i < members@.len() {
                            (members@[i].0@, members@[i].1@)
                        } else {
                            (Seq::empty(), Json::Null)
                        },
                ),
            ),
        }
    }
}

/// Whether the bit pattern of a double stands for a finite number: JSON has
/// no way to write an infinity or a NaN.
pub open spec fn finite_bits(bits: u64) -> bool {
    (bits >> 52) & 0x7ff != 0x7ff
}

impl Number {
    /// A number as JSON can hold it: a `NegInt` is below zero and a `Float`
    /// is finite.
    pub open spec fn well_formed(self) -> bool {
        match self {
            Number::PosInt(_) => true,
            Number::NegInt(n) => n < 0,
            Number::Float(bits) => finite_bits(bits),
        }
    }

    /// Whether the number is one that JSON can hold.
    pub fn is_well_formed(&self) -> (ok: bool)
        ensures
            ok == self.well_formed(),
    {
        match self {
            Number::PosInt(_) => true,
            Number::NegInt(n) => *n < 0,
            Number::Float(bits) => (*bits >> 52) & 0x7ff != 0x7ff,
        }
    }
}

/// No key occurs twice among the members.
pub open spec fn distinct_keys<T>(members: Seq<(Seq<char>, T)>) -> bool {
    forall|i: int, j: int|
        0 <= i < j < members.len() ==> (#[trigger] members[i]).0 != (#[trigger] members[j]).0
}

/// The value of the first member called `key`.
pub open spec fn lookup(members: Seq<(Seq<char>, Json)>, key: Seq<char>) -> Option<Json>
    decreases members.len(),
{
    if members.len() == 0 {
        None
    } else if members[0].0 == key {
        Some(members[0].1)
    } else {
        lookup(members.drop_first(), key)
    }
}

impl Json {
    /// A value that JSON can hold: every number is well formed and no object
    /// has two members of one name.
    pub open spec fn well_formed(self) -> bool
        decreases self,
    {
        match self {
            Json::Number(n) => n.well_formed(),
            Json::Array(items) => forall|i: int|
                0 <= i < items.len() ==> (#[trigger] items[i]).well_formed(),
            Json::Object(members) => distinct_keys(members) && forall|i: int|
                0 <= i < members.len() ==> (#[trigger] members[i]).1.well_formed(),
            _ => true,
        }
    }

    /// What indexing by `key` finds: the member of that name if `self` is an
    /// object that has one.
    pub open spec fn member(self, key: Seq<char>) -> Option<Json> {
        match self {
            Json::Object(members) => lookup(members, key),
            _ => None,
        }
    }
}

/// What the view of an object holds, member by member.
pub proof fn lemma_object_view(v: Value)
    requires
        v is Object,
    ensures
        v@ is Object,
        v@->Object_0.len() == v->Object_0@.len(),
        forall|i: int|
            0 <= i < v->Object_0@.len() ==> #[trigger] v@->Object_0[i] == (
                v->Object_0@[i].0@,
                v->Object_0@[i].1@,
            ),
{
    reveal_with_fuel(<Value as View>::view, 2);
}

/// What the view of an array holds, item by item.
pub proof fn lemma_array_view(v: Value)
    requires
        v is Array,
    ensures
        v@ is Array,
        v@->Array_0.len() == v->Array_0@.len(),
        forall|i: int| 0 <= i < v->Array_0@.len() ==> #[trigger] v@->Array_0[i] == v->Array_0@[i]@,
{
    reveal_with_fuel(<Value as View>::view, 2);
}

/// An item of an array is structurally smaller than the array.
pub proof fn lemma_item_is_smaller(v: Value, i: int)
    requires
        v is Array,
        0 <= i < v->Array_0@.len(),
    ensures
        decreases_to!(v => v->Array_0@[i]),
{
    let items = v->Array_0;
    assert(decreases_to!(v => items));
    assert(decreases_to!(items => items@));
    assert(decreases_to!(items@ => items@[i]));
}

/// The value of a member is structurally smaller than the object.
pub proof fn lemma_member_is_smaller(v: Value, i: int)
    requires
        v is Object,
        0 <= i < v->Object_0@.len(),
    ensures
        decreases_to!(v => v->Object_0@[i].1),
{
    let members = v->Object_0;
    assert(decreases_to!(v => members));
    assert(decreases_to!(members => members@));
    assert(decreases_to!(members@ => members@[i]));
    assert(decreases_to!(members@[i] => members@[i].1));
}

/// Whether no two members share a key.
pub fn keys_are_distinct<T>(members: &Vec<(String, T)>) -> (ok: bool)
    ensures
        ok == forall|i: int, j: int|
            0 <= i < j < members@.len() ==> (#[trigger] members@[i]).0@ != (
            #[trigger] members@[j]).0@,
{
    let mut j: usize = 0;
    while j < members.len()
        invariant
            j <= members.len(),
            forall|a: int, b: int|
                0 <= a < b < j ==> (#[trigger] members@[a]).0@ != (#[trigger] members@[b]).0@,
        decreases members.len() - j,
    {
        let mut i: usize = 0;
        while i < j
            invariant
                i <= j < members.len(),
                forall|a: int| 0 <= a < i ==> (#[trigger] members@[a]).0@ != members@[j as int].0@,
            decreases j - i,
        {
            if members[i].0 == members[j].0 {
                return false;
            }
            i += 1;
        }
        j += 1;
    }
    true
}

impl Value {
    /// The text of a string value.
    pub fn as_str(&self) -> (text: Option<&str>)
        ensures
            match text {
                Some(t) => self@ == Json::String(t@),
                None => !(self@ is String),
            },
    {
        match self {
            Value::String(s) => Some(s.as_str()),
            _ => None,
        }
    }

    /// The member called `key`, where `self` is an object that has one; the
    /// first of them, should the object name it twice.
    pub fn get(&self, key: &str) -> (found: Option<&Value>)
        ensures
            match found {
                Some(v) => self@.member(key@) == Some(v@),
                None => self@.member(key@) is None,
            },
    {
        match self {
            Value::Object(members) => {
                let wanted = key.to_owned();
                let ghost all = self@->Object_0;
                proof {
                    lemma_object_view(*self);
                    assert(all.subrange(0, all.len() as int) =~= all);
                }
                let mut i: usize = 0;
                while i < members.len()
                    invariant
                        i <= members.len(),
                        wanted@ == key@,
                        self@ == Json::Object(all),
                        all.len() == members@.len(),
                        forall|k: int|
                            0 <= k < all.len() ==> (#[trigger] all[k]) == (
                                members@[k].0@,
                                members@[k].1@,
                            ),
                        lookup(all, key@) == lookup(all.subrange(i as int, all.len() as int), key@),
                    decreases members.len() - i,
                {
                    let ghost rest = all.subrange(i as int, all.len() as int);
                    assert(rest[0] == all[i as int]);
                    if members[i].0 == wanted {
                        return Some(&members[i].1);
                    }
                    assert(rest.drop_first() =~= all.subrange(i + 1, all.len() as int));
                    i += 1;
                }
                None
            },
            _ => None,
        }
    }

    /// Whether the value is one that JSON can hold.
    pub fn is_well_formed(&self) -> (ok: bool)
        ensures
            ok == self@.well_formed(),
        decreases self,
    {
        match self {
            Value::Number(n) => n.is_well_formed(),
            Value::Array(items) => {
                let ghost shown = self@->Array_0;
                proof {
                    lemma_array_view(*self);
                }
                let mut i: usize = 0;
                while i < items.len()
                    invariant
                        i <= items.len(),
                        self == Value::Array(*items),
                        self@ == Json::Array(shown),
                        shown.len() == items@.len(),
                        forall|k: int| 0 <= k < shown.len() ==> #[trigger] shown[k] == items@[k]@,
                        forall|k: int| 0 <= k < i ==> (#[trigger] shown[k]).well_formed(),
                    decreases items.len() - i,
                {
                    proof {
                        lemma_item_is_smaller(*self, i as int);
                    }
                    if !items[i].is_well_formed() {
                        assert(!Json::Array(shown)->Array_0[i as int].well_formed());
                        return false;
                    }
                    i += 1;
                }
                true
            },
            Value::Object(members) => {
                let ghost shown = self@->Object_0;
                proof {
                    lemma_object_view(*self);
                }
                if !keys_are_distinct(members) {
                    proof {
                        let (a, b) = choose|a: int, b: int|
                            0 <= a < b < members@.len() && (#[trigger] members@[a]).0@ == (
                            #[trigger] members@[b]).0@;
                        assert(shown[a].0 == shown[b].0);
                    }
                    return false;
                }
                assert(distinct_keys(shown)) by {
                    assert forall|a: int, b: int| 0 <= a < b < shown.len() implies (
                    #[trigger] shown[a]).0 != (#[trigger] shown[b]).0 by {
                        assert(members@[a].0@ != members@[b].0@);
                    }
                }
                let mut i: usize = 0;
                while i < members.len()
                    invariant
                        i <= members.len(),
                        self == Value::Object(*members),
                        self@ == Json::Object(shown),
                        distinct_keys(shown),
                        shown.len() == members@.len(),
                        forall|k: int|
                            0 <= k < shown.len() ==> (#[trigger] shown[k]).1 == members@[k].1@,
                        forall|k: int| 0 <= k < i ==> (#[trigger] shown[k]).1.well_formed(),
                    decreases members.len() - i,
                {
                    proof {
                        lemma_member_is_smaller(*self, i as int);
                    }
                    if !members[i].1.is_well_formed() {
                        assert(!shown[i as int].1.well_formed());
                        return false;
                    }
                    i += 1;
                }
                true
            },
            _ => true,
        }
    }

    /// An independent copy with the same content.
    pub fn duplicate(&self) -> (copy: Value)
        ensures
            copy@ == self@,
        decreases self,
    {
        match self {
            Value::Null => Value::Null,
            Value::Bool(b) => Value::Bool(*b),
            Value::Number(n) => Value::Number(*n),
            Value::String(s) => Value::String(s.clone()),
            Value::Array(items) => {
                let mut copies: Vec<Value> = Vec::new();
                let mut i: usize = 0;
                while i < items.len()
                    invariant
                        i <= items.len(),
                        copies.len() == i,
                        forall|k: int| 0 <= k < i ==> copies@[k]@ == items@[k]@,
                        self == Value::Array(*items),
                    decreases items.len() - i,
                {
                    proof {
                        lemma_item_is_smaller(*self, i as int);
                    }
                    copies.push(items[i].duplicate());
                    i += 1;
                }
                let copy = Value::Array(copies);
                assert(copy@->Array_0 =~= self@->Array_0);
                copy
            },
            Value::Object(members) => {
                let mut copies: Vec<(String, Value)> = Vec::new();
                let mut i: usize = 0;
                while i < members.len()
                    invariant
                        i <= members.len(),
                        copies.len() == i,
                        forall|k: int|
                            0 <= k < i ==> copies@[k].0@ == members@[k].0@ && copies@[k].1@
                                == members@[k].1@,
                        self == Value::Object(*members),
                    decreases members.len() - i,
                {
                    proof {
                        lemma_member_is_smaller(*self, i as int);
                    }
                    copies.push((members[i].0.clone(), members[i].1.duplicate()));
                    i += 1;
                }
                let copy = Value::Object(copies);
                assert(copy@->Object_0 =~= self@->Object_0);
                copy
            },
        }
    }
}

} // verus!
