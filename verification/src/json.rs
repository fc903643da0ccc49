use vstd::prelude::*;

verus! {

broadcast use vstd::std_specs::vec::group_vec_axioms, vstd::seq::group_seq_axioms;

/// Mathematical model of a JSON document. Strings are character sequences;
/// an object is the ordered sequence of its key/value pairs.
#[verifier::ext_equal]
pub ghost enum JsonVal {
    Null,
    Bool(bool),
    UInt(u64),
    Str(Seq<char>),
    Arr(Seq<JsonVal>),
    Obj(Seq<(Seq<char>, JsonVal)>),
}

/// A JSON document as executable data. Response bodies and structured error
/// details are built from this type; the boundary that speaks HTTP converts
/// it to whatever wire encoder it uses.
#[derive(Debug, PartialEq, Eq)]
pub enum JsonValue {
    Null,
    Bool(bool),
    UInt(u64),
    Str(String),
    Arr(Vec<JsonValue>),
    Obj(Vec<(String, JsonValue)>),
}

/// The model a JSON value denotes.
pub open spec fn json_model(v: JsonValue) -> JsonVal
    decreases v,
{
    match v {
        JsonValue::Null => JsonVal::Null,
        JsonValue::Bool(b) => JsonVal::Bool(b),
        JsonValue::UInt(n) => JsonVal::UInt(n),
        JsonValue::Str(s) => JsonVal::Str(s@),
        JsonValue::Arr(items) => JsonVal::Arr(
            Seq::new(items@.len(), |i: int| if 0 <= i < items@.len() {
                json_model(items@[i])
            } else {
                JsonVal::Null
            }),
        ),
        JsonValue::Obj(entries) => JsonVal::Obj(
            Seq::new(entries@.len(), |i: int| if 0 <= i < entries@.len() {
                (entries@[i].0@, json_model(entries@[i].1))
            } else {
                (entries@[i].0@, JsonVal::Null)
            }),
        ),
    }
}

impl DeepView for JsonValue {
    type V = JsonVal;

    open spec fn deep_view(&self) -> JsonVal {
        json_model(*self)
    }
}

/// The value under `key` in an ordered key/value sequence, if any entry
/// carries the key; the first entry wins where a key repeats.
pub open spec fn get_entry(entries: Seq<(Seq<char>, JsonVal)>, key: Seq<char>) -> Option<JsonVal>
    decreases entries.len(),
{
    if entries.len() == 0 {
        Option::None
    } else if entries[0].0 == key {
        Option::Some(entries[0].1)
    } else {
        get_entry(entries.skip(1), key)
    }
}

/// The value under `key` in an object model; `None` for every other model.
pub open spec fn get_field(j: JsonVal, key: Seq<char>) -> Option<JsonVal> {
    match j {
        JsonVal::Obj(entries) => get_entry(entries, key),
        _ => Option::None,
    }
}

/// The set of keys of an object model; empty for every other model.
pub open spec fn obj_keys(j: JsonVal) -> Set<Seq<char>> {
    match j {
        JsonVal::Obj(entries) => Set::new(|k: Seq<char>| exists|i: int|
            0 <= i < entries.len() && entries[i].0 == k),
        _ => Set::empty(),
    }
}

impl Clone for JsonValue {
    /// A clone denotes the same JSON document as the original.
    fn clone(&self) -> (r: JsonValue)
        ensures
            r.deep_view() == self.deep_view(),
        decreases self,
    {
        match self {
            JsonValue::Null => JsonValue::Null,
            JsonValue::Bool(b) => JsonValue::Bool(*b),
            JsonValue::UInt(n) => JsonValue::UInt(*n),
            JsonValue::Str(s) => JsonValue::Str(s.clone()),
            JsonValue::Arr(items) => {
                let mut out: Vec<JsonValue> = Vec::new();
                let mut i: usize = 0;
                while i < items.len()
                    invariant
                        *self == JsonValue::Arr(*items),
                        0 <= i <= items@.len(),
                        out@.len() == i,
                        forall|j: int| 0 <= j < i ==>
                            #[trigger] out@[j].deep_view() == items@[j].deep_view(),
                    decreases items@.len() - i,
                {
                    proof {
                        let s0 = *self;
                        assert(s0->Arr_0 == *items);
                        assert(decreases_to!(s0 => s0->Arr_0));
                        assert(decreases_to!(s0->Arr_0 => s0->Arr_0@));
                        assert(decreases_to!(s0->Arr_0@ => s0->Arr_0@[i as int]));
                    }
                    out.push(items[i].clone());
                    i += 1;
                }
                let r = JsonValue::Arr(out);
                proof {
                    assert forall|k: int| 0 <= k < out@.len() implies
                        r.deep_view()->Arr_0[k] == self.deep_view()->Arr_0[k] by {
                        assert(out@[k].deep_view() == items@[k].deep_view());
                    }
                    assert(r.deep_view()->Arr_0 =~= self.deep_view()->Arr_0);
                    assert(r.deep_view() =~= self.deep_view());
                }
                r
            },
            JsonValue::Obj(entries) => {
                let mut out: Vec<(String, JsonValue)> = Vec::new();
                let mut i: usize = 0;
                while i < entries.len()
                    invariant
                        *self == JsonValue::Obj(*entries),
                        0 <= i <= entries@.len(),
                        out@.len() == i,
                        forall|j: int| 0 <= j < i ==>
                            #[trigger] out@[j].0@ == entries@[j].0@
                            && out@[j].1.deep_view() == entries@[j].1.deep_view(),
                    decreases entries@.len() - i,
                {
                    proof {
                        let s0 = *self;
                        assert(s0->Obj_0 == *entries);
                        assert(decreases_to!(s0 => s0->Obj_0));
                        assert(decreases_to!(s0->Obj_0 => s0->Obj_0@));
                        assert(decreases_to!(s0->Obj_0@ => s0->Obj_0@[i as int]));
                        assert(decreases_to!(s0->Obj_0@[i as int] => s0->Obj_0@[i as int].1));
                    }
                    let name = entries[i].0.clone();
                    let value = entries[i].1.clone();
                    out.push((name, value));
                    i += 1;
                }
                let r = JsonValue::Obj(out);
                proof {
                    assert forall|k: int| 0 <= k < out@.len() implies
                        r.deep_view()->Obj_0[k] == self.deep_view()->Obj_0[k] by {
                        assert(out@[k].0@ == entries@[k].0@);
                        assert(out@[k].1.deep_view() == entries@[k].1.deep_view());
                    }
                    assert(r.deep_view()->Obj_0 =~= self.deep_view()->Obj_0);
                    assert(r.deep_view() =~= self.deep_view());
                }
                r
            },
        }
    }
}

impl JsonValue {
    /// The empty JSON object.
    pub fn empty_object() -> (r: JsonValue)
        ensures
            r.deep_view() == JsonVal::Obj(Seq::<(Seq<char>, JsonVal)>::empty()),
    {
        let entries: Vec<(String, JsonValue)> = Vec::new();
        let r = JsonValue::Obj(entries);
        proof {
            assert(r.deep_view()->Obj_0 =~= Seq::<(Seq<char>, JsonVal)>::empty());
            assert(r.deep_view() =~= JsonVal::Obj(Seq::<(Seq<char>, JsonVal)>::empty()));
        }
        r
    }
}

} // verus!
