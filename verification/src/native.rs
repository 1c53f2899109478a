//! Values in the interpreter's own form, and the two conversions between
//! them and JSON-like values.

use vstd::prelude::*;
use crate::error::{ErrorKind, HostError};
use crate::value::{
    finite_bits, keys_are_distinct, lemma_array_view, lemma_item_is_smaller,
    lemma_member_is_smaller, lemma_object_view, Json, Number, Value,
};

verus! {

/// A value as the interpreter holds it. An integer has no fixed width there,
/// a dictionary may be keyed by anything, and `Foreign` stands for every
/// object that is none of the others.
#[derive(Debug, PartialEq, Eq)]
pub enum Native {
    Nil,
    Bool(bool),
    Int(i128),
    Float(u64),
    Str(String),
    List(Vec<Native>),
    Dict(Vec<(Native, Native)>),
    Foreign,
}

/// The mathematical content of a [`Native`].
pub enum NativeView {
    Nil,
    Bool(bool),
    Int(int),
    Float(u64),
    Str(Seq<char>),
    List(Seq<NativeView>),
    Dict(Seq<(NativeView, NativeView)>),
    Foreign,
}

impl View for Native {
    type V = NativeView;

    open spec fn view(&self) -> NativeView
        decreases self,
    {
        match self {
            Native::Nil => NativeView::Nil,
            Native::Bool(b) => NativeView::Bool(*b),
            Native::Int(i) => NativeView::Int(*i as int),
            Native::Float(bits) => NativeView::Float(*bits),
            Native::Str(s) => NativeView::Str(s@),
            Native::List(items) => NativeView::List(
                Seq::new(
                    items@.len(),
                    |i: int|
                        if 0 <= i < items@.len() {
                            items@[i]@
                        } else {
                            NativeView::Nil
                        },
                ),
            ),
            Native::Dict(entries) => NativeView::Dict(
                Seq::new(
                    entries@.len(),
                    |i: int|
                        if 0 <= i < entries@.len() {
                            (entries@[i].0@, entries@[i].1@)
                        } else {
                            (NativeView::Nil, NativeView::Nil)
                        },
                ),
            ),
            Native::Foreign => NativeView::Foreign,
        }
    }
}

/// The interpreter's form of a JSON-like value: null is `Nil`, a number is
/// an integer or a double, an array a list, an object a dictionary keyed by
/// strings, in the order of its members.
pub open spec fn native_of(j: Json) -> NativeView
    decreases j,
{
    match j {
        Json::Null => NativeView::Nil,
        Json::Bool(b) => NativeView::Bool(b),
        Json::Number(Number::PosInt(n)) => NativeView::Int(n as int),
        Json::Number(Number::NegInt(n)) => NativeView::Int(n as int),
        Json::Number(Number::Float(bits)) => NativeView::Float(bits),
        Json::String(s) => NativeView::Str(s),
        Json::Array(items) => NativeView::List(
            Seq::new(
                items.len(),
                |i: int|
                    if 0 <= i < items.len() {
                        native_of(items[i])
                    } else {
                        NativeView::Nil
                    },
            ),
        ),
        Json::Object(members) => NativeView::Dict(
            Seq::new(
                members.len(),
                |i: int|
                    if 0 <= i < members.len() {
                        (NativeView::Str(members[i].0), native_of(members[i].1))
                    } else {
                        (NativeView::Nil, NativeView::Nil)
                    },
            ),
        ),
    }
}

/// No key occurs twice among the entries of a dictionary.
pub open spec fn distinct_entries(entries: Seq<(NativeView, NativeView)>) -> bool {
    forall|i: int, j: int|
        0 <= i < j < entries.len() ==> (#[trigger] entries[i]).0 != (#[trigger] entries[j]).0
}

/// The JSON-like value that an interpreter value stands for, if it stands
/// for one: an integer must fit `u64` or `i64`, a double must be finite, a
/// dictionary must be keyed by strings, each once, and nothing in it may be
/// foreign.
pub open spec fn json_of(n: NativeView) -> Option<Json>
    decreases n,
{
    match n {
        NativeView::Nil => Some(Json::Null),
        NativeView::Bool(b) => Some(Json::Bool(b)),
        NativeView::Int(i) => if 0 <= i <= u64::MAX {
            Some(Json::Number(Number::PosInt(i as u64)))
        } else if i64::MIN <= i < 0 {
            Some(Json::Number(Number::NegInt(i as i64)))
        } else {
            None
        },
        NativeView::Float(bits) => if finite_bits(bits) {
            Some(Json::Number(Number::Float(bits)))
        } else {
            None
        },
        NativeView::Str(s) => Some(Json::String(s)),
        NativeView::List(items) => if forall|i: int|
            0 <= i < items.len() ==> json_of(#[trigger] items[i]) is Some {
            Some(
                Json::Array(
                    Seq::new(
                        items.len(),
                        |i: int|
                            if 0 <= i < items.len() {
                                json_of(items[i])->0
                            } else {
                                Json::Null
                            },
                    ),
                ),
            )
        } else {
            None
        },
        NativeView::Dict(entries) => if distinct_entries(entries) && forall|i: int|
            0 <= i < entries.len() ==> (#[trigger] entries[i]).0 is Str && json_of(entries[i].1)
                is Some {
            Some(
                Json::Object(
                    Seq::new(
                        entries.len(),
                        |i: int|
                            if 0 <= i < entries.len() {
                                (entries[i].0->Str_0, json_of(entries[i].1)->0)
                            } else {
                                (Seq::empty(), Json::Null)
                            },
                    ),
                ),
            )
        } else {
            None
        },
        NativeView::Foreign => None,
    }
}

/// What the view of a list holds, item by item.
pub proof fn lemma_list_view(n: Native)
    requires
        n is List,
    ensures
        n@ is List,
        n@->List_0.len() == n->List_0@.len(),
        forall|i: int| 0 <= i < n->List_0@.len() ==> #[trigger] n@->List_0[i] == n->List_0@[i]@,
{
    reveal_with_fuel(<Native as View>::view, 2);
}

/// What the view of a dictionary holds, entry by entry.
pub proof fn lemma_dict_view(n: Native)
    requires
        n is Dict,
    ensures
        n@ is Dict,
        n@->Dict_0.len() == n->Dict_0@.len(),
        forall|i: int|
            0 <= i < n->Dict_0@.len() ==> #[trigger] n@->Dict_0[i] == (
                n->Dict_0@[i].0@,
                n->Dict_0@[i].1@,
            ),
{
    reveal_with_fuel(<Native as View>::view, 2);
}

/// An array becomes the list of what its items become.
pub proof fn lemma_native_of_array(items: Seq<Json>)
    ensures
        native_of(Json::Array(items)) is List,
        native_of(Json::Array(items))->List_0.len() == items.len(),
        forall|i: int|
            0 <= i < items.len() ==> #[trigger] native_of(Json::Array(items))->List_0[i]
                == native_of(items[i]),
{
    reveal_with_fuel(native_of, 2);
}

/// An object becomes the dictionary of its members, each under its name.
pub proof fn lemma_native_of_object(members: Seq<(Seq<char>, Json)>)
    ensures
        native_of(Json::Object(members)) is Dict,
        native_of(Json::Object(members))->Dict_0.len() == members.len(),
        forall|i: int|
            0 <= i < members.len() ==> #[trigger] native_of(Json::Object(members))->Dict_0[i] == (
                NativeView::Str(members[i].0),
                native_of(members[i].1),
            ),
{
    reveal_with_fuel(native_of, 2);
}

/// A list stands for an array exactly when each of its items stands for a
/// value; the array then holds those values.
pub proof fn lemma_json_of_list(items: Seq<NativeView>)
    ensures
        json_of(NativeView::List(items)) is Some <==> forall|i: int|
            0 <= i < items.len() ==> json_of(#[trigger] items[i]) is Some,
        json_of(NativeView::List(items)) matches Some(j) ==> j is Array && j->Array_0.len()
            == items.len() && forall|i: int|
            0 <= i < items.len() ==> #[trigger] j->Array_0[i] == json_of(items[i])->0,
{
    reveal_with_fuel(json_of, 2);
}

/// A dictionary stands for an object exactly when its keys are strings, no
/// two alike, and each of its values stands for a value.
pub proof fn lemma_json_of_dict(entries: Seq<(NativeView, NativeView)>)
    ensures
        json_of(NativeView::Dict(entries)) is Some <==> distinct_entries(entries) && forall|i: int|
            0 <= i < entries.len() ==> (#[trigger] entries[i]).0 is Str && json_of(entries[i].1)
                is Some,
        json_of(NativeView::Dict(entries)) matches Some(j) ==> j is Object && j->Object_0.len()
            == entries.len() && forall|i: int|
            0 <= i < entries.len() ==> #[trigger] j->Object_0[i] == (
                entries[i].0->Str_0,
                json_of(entries[i].1)->0,
            ),
{
    reveal_with_fuel(json_of, 2);
}

/// Going to the interpreter's form and back gives the same value: nothing
/// that JSON can hold is changed or lost on the way.
pub proof fn lemma_round_trip(j: Json)
    requires
        j.well_formed(),
    ensures
        json_of(native_of(j)) == Some(j),
    decreases j,
{
    match j {
        Json::Array(items) => {
            lemma_native_of_array(items);
            let list = native_of(j)->List_0;
            assert forall|i: int| 0 <= i < list.len() implies json_of(#[trigger] list[i]) == Some(
                items[i],
            ) by {
                lemma_round_trip(items[i]);
            }
            lemma_json_of_list(list);
            assert(json_of(native_of(j))->0->Array_0 =~= items);
        },
        Json::Object(members) => {
            lemma_native_of_object(members);
            let dict = native_of(j)->Dict_0;
            assert forall|i: int| 0 <= i < dict.len() implies (#[trigger] dict[i]).0 is Str
                && json_of(dict[i].1) == Some(members[i].1) by {
                lemma_round_trip(members[i].1);
            }
            assert(distinct_entries(dict)) by {
                assert forall|a: int, b: int| 0 <= a < b < dict.len() implies (
                #[trigger] dict[a]).0 != (#[trigger] dict[b]).0 by {
                    assert(members[a].0 != members[b].0);
                }
            }
            lemma_json_of_dict(dict);
            assert(json_of(native_of(j))->0->Object_0 =~= members);
        },
        _ => {},
    }
}

/// Whatever an interpreter value stands for is a value that JSON can hold,
/// and its own interpreter form is the value it came from.
pub proof fn lemma_json_of_is_exact(n: NativeView)
    requires
        json_of(n) is Some,
    ensures
        json_of(n)->0.well_formed(),
        native_of(json_of(n)->0) == n,
    decreases n,
{
    let j = json_of(n)->0;
    match n {
        NativeView::List(items) => {
            lemma_json_of_list(items);
            let array = j->Array_0;
            assert forall|i: int| 0 <= i < array.len() implies (#[trigger] array[i]).well_formed()
                && native_of(array[i]) == items[i] by {
                lemma_json_of_is_exact(items[i]);
            }
            lemma_native_of_array(array);
            assert(native_of(j)->List_0 =~= items);
        },
        NativeView::Dict(entries) => {
            lemma_json_of_dict(entries);
            let members = j->Object_0;
            assert forall|i: int| 0 <= i < members.len() implies (
            #[trigger] members[i]).1.well_formed() && native_of(members[i].1) == entries[i].1 by {
                lemma_json_of_is_exact(entries[i].1);
            }
            assert forall|a: int, b: int| 0 <= a < b < members.len() implies (
            #[trigger] members[a]).0 != (#[trigger] members[b]).0 by {
                assert(entries[a].0 != entries[b].0);
            }
            lemma_native_of_object(members);
            assert(native_of(j)->Dict_0 =~= entries);
        },
        _ => {},
    }
}

/// An item of a list is structurally smaller than the list.
pub proof fn lemma_list_item_is_smaller(n: Native, i: int)
    requires
        n is List,
        0 <= i < n->List_0@.len(),
    ensures
        decreases_to!(n => n->List_0@[i]),
{
    let items = n->List_0;
    assert(decreases_to!(n => items));
    assert(decreases_to!(items => items@));
    assert(decreases_to!(items@ => items@[i]));
}

/// The value of an entry is structurally smaller than the dictionary.
pub proof fn lemma_dict_value_is_smaller(n: Native, i: int)
    requires
        n is Dict,
        0 <= i < n->Dict_0@.len(),
    ensures
        decreases_to!(n => n->Dict_0@[i].1),
{
    let entries = n->Dict_0;
    assert(decreases_to!(n => entries));
    assert(decreases_to!(entries => entries@));
    assert(decreases_to!(entries@ => entries@[i]));
    assert(decreases_to!(entries@[i] => entries@[i].1));
}

/// What the error says when a value cannot cross the boundary.
pub const UNSUPPORTED: &'static str = "Unsupported value";

/// The error for a value that cannot cross the boundary.
pub fn unsupported() -> (error: HostError)
    ensures
        error.kind == ErrorKind::Conversion,
        error.description@ == UNSUPPORTED@,
{
    HostError::new(ErrorKind::Conversion, UNSUPPORTED)
}

/// Converts a JSON-like value to the interpreter's form. Every value has
/// one.
pub fn to_native(v: &Value) -> (n: Native)
    ensures
        n@ == native_of(v@),
    decreases v,
{
    match v {
        Value::Null => Native::Nil,
        Value::Bool(b) => Native::Bool(*b),
        Value::Number(Number::PosInt(p)) => Native::Int(*p as i128),
        Value::Number(Number::NegInt(m)) => Native::Int(*m as i128),
        Value::Number(Number::Float(bits)) => Native::Float(*bits),
        Value::String(s) => Native::Str(s.clone()),
        Value::Array(items) => {
            let ghost shown = v@->Array_0;
            proof {
                lemma_array_view(*v);
                lemma_native_of_array(shown);
            }
            let mut out: Vec<Native> = Vec::new();
            let mut i: usize = 0;
            while i < items.len()
                invariant
                    i <= items.len(),
                    v == Value::Array(*items),
                    out.len() == i,
                    shown.len() == items@.len(),
                    forall|k: int| 0 <= k < shown.len() ==> #[trigger] shown[k] == items@[k]@,
                    forall|k: int| 0 <= k < i ==> (#[trigger] out@[k])@ == native_of(shown[k]),
                decreases items.len() - i,
            {
                proof {
                    lemma_item_is_smaller(*v, i as int);
                }
                out.push(to_native(&items[i]));
                i += 1;
            }
            let n = Native::List(out);
            proof {
                lemma_list_view(n);
                assert(n@->List_0 =~= native_of(v@)->List_0);
            }
            n
        },
        Value::Object(members) => {
            let ghost shown = v@->Object_0;
            proof {
                lemma_object_view(*v);
                lemma_native_of_object(shown);
            }
            let mut out: Vec<(Native, Native)> = Vec::new();
            let mut i: usize = 0;
            while i < members.len()
                invariant
                    i <= members.len(),
                    v == Value::Object(*members),
                    out.len() == i,
                    shown.len() == members@.len(),
                    forall|k: int|
                        0 <= k < shown.len() ==> #[trigger] shown[k] == (
                            members@[k].0@,
                            members@[k].1@,
                        ),
                    forall|k: int|
                        0 <= k < i ==> (#[trigger] out@[k]).0@ == NativeView::Str(shown[k].0)
                            && out@[k].1@ == native_of(shown[k].1),
                decreases members.len() - i,
            {
                proof {
                    lemma_member_is_smaller(*v, i as int);
                }
                out.push((Native::Str(members[i].0.clone()), to_native(&members[i].1)));
                i += 1;
            }
            let n = Native::Dict(out);
            proof {
                lemma_dict_view(n);
                assert(n@->Dict_0 =~= native_of(v@)->Dict_0);
            }
            n
        },
    }
}

/// Converts an interpreter value back to a JSON-like value, or says that it
/// stands for none.
pub fn from_native(n: &Native) -> (converted: Result<Value, HostError>)
    ensures
        match converted {
            Ok(v) => json_of(n@) == Some(v@),
            Err(e) => json_of(n@) is None && e.kind == ErrorKind::Conversion && e.description@
                == UNSUPPORTED@,
        },
    decreases n,
{
    match n {
        Native::Nil => Ok(Value::Null),
        Native::Bool(b) => Ok(Value::Bool(*b)),
        Native::Int(i) => {
            if *i >= 0 {
                if *i <= u64::MAX as i128 {
                    Ok(Value::Number(Number::PosInt(*i as u64)))
                } else {
                    Err(unsupported())
                }
            } else if *i >= i64::MIN as i128 {
                Ok(Value::Number(Number::NegInt(*i as i64)))
            } else {
                Err(unsupported())
            }
        },
        Native::Float(bits) => {
            if (*bits >> 52) & 0x7ff != 0x7ff {
                Ok(Value::Number(Number::Float(*bits)))
            } else {
                Err(unsupported())
            }
        },
        Native::Str(s) => Ok(Value::String(s.clone())),
        Native::List(items) => {
            let ghost shown = n@->List_0;
            proof {
                lemma_list_view(*n);
                lemma_json_of_list(shown);
            }
            let mut out: Vec<Value> = Vec::new();
            let mut i: usize = 0;
            while i < items.len()
                invariant
                    i <= items.len(),
                    n == Native::List(*items),
                    out.len() == i,
                    shown.len() == items@.len(),
                    forall|k: int| 0 <= k < shown.len() ==> #[trigger] shown[k] == items@[k]@,
                    forall|k: int| 0 <= k < i ==> json_of(shown[k]) == Some((#[trigger] out@[k])@),
                    json_of(NativeView::List(shown)) is Some <==> forall|k: int|
                        0 <= k < shown.len() ==> json_of(#[trigger] shown[k]) is Some,
                    n@ == NativeView::List(shown),
                decreases items.len() - i,
            {
                proof {
                    lemma_list_item_is_smaller(*n, i as int);
                }
                match from_native(&items[i]) {
                    Ok(v) => {
                        out.push(v);
                    },
                    Err(e) => {
                        assert(json_of(shown[i as int]) is None);
                        return Err(e);
                    },
                }
                i += 1;
            }
            let v = Value::Array(out);
            proof {
                lemma_array_view(v);
                assert forall|k: int| 0 <= k < shown.len() implies json_of(#[trigger] shown[k])
                    == Some(out@[k]@) by {
                    assert(json_of(shown[k]) == Some(out@[k]@));
                }
                lemma_json_of_list(shown);
                assert(json_of(n@)->0->Array_0 =~= v@->Array_0);
            }
            Ok(v)
        },
        Native::Dict(entries) => {
            let ghost shown = n@->Dict_0;
            proof {
                lemma_dict_view(*n);
                lemma_json_of_dict(shown);
            }
            let mut out: Vec<(String, Value)> = Vec::new();
            let mut i: usize = 0;
            while i < entries.len()
                invariant
                    i <= entries.len(),
                    n == Native::Dict(*entries),
                    out.len() == i,
                    shown.len() == entries@.len(),
                    forall|k: int|
                        0 <= k < shown.len() ==> #[trigger] shown[k] == (
                            entries@[k].0@,
                            entries@[k].1@,
                        ),
                    forall|k: int|
                        0 <= k < i ==> shown[k].0 == NativeView::Str((#[trigger] out@[k]).0@)
                            && json_of(shown[k].1) == Some(out@[k].1@),
                    json_of(NativeView::Dict(shown)) is Some <==> distinct_entries(shown)
                        && forall|k: int|
                        0 <= k < shown.len() ==> (#[trigger] shown[k]).0 is Str && json_of(
                            shown[k].1,
                        ) is Some,
                    n@ == NativeView::Dict(shown),
                decreases entries.len() - i,
            {
                proof {
                    lemma_dict_value_is_smaller(*n, i as int);
                }
                let key = match &entries[i].0 {
                    Native::Str(k) => k.clone(),
                    _ => {
                        assert(!(shown[i as int].0 is Str));
                        return Err(unsupported());
                    },
                };
                match from_native(&entries[i].1) {
                    Ok(v) => {
                        out.push((key, v));
                    },
                    Err(e) => {
                        assert(json_of(shown[i as int].1) is None);
                        return Err(e);
                    },
                }
                i += 1;
            }
            if !keys_are_distinct(&out) {
                proof {
                    let (a, b) = choose|a: int, b: int|
                        0 <= a < b < out@.len() && (#[trigger] out@[a]).0@ == (
                        #[trigger] out@[b]).0@;
                    assert(shown[a].0 == shown[b].0);
                }
                return Err(unsupported());
            }
            assert(distinct_entries(shown)) by {
                assert forall|a: int, b: int| 0 <= a < b < shown.len() implies (
                #[trigger] shown[a]).0 != (#[trigger] shown[b]).0 by {
                    assert(out@[a].0@ != out@[b].0@);
                }
            }
            let v = Value::Object(out);
            proof {
                lemma_object_view(v);
                assert forall|k: int| 0 <= k < shown.len() implies (#[trigger] shown[k]).0
                    == NativeView::Str(out@[k].0@) && json_of(shown[k].1) == Some(out@[k].1@) by {
                    assert(json_of(shown[k].1) == Some(out@[k].1@));
                }
                lemma_json_of_dict(shown);
                assert(json_of(n@)->0->Object_0 =~= v@->Object_0);
            }
            Ok(v)
        },
        Native::Foreign => Err(unsupported()),
    }
}

} // verus!
