//! A small JSON document model: the shape that a post's metadata takes in its
//! JSON-typed storage column, together with its mathematical view.

use vstd::prelude::*;

verus! {

/// Mathematical shape of a JSON document.
#[verifier::ext_equal]
pub ghost enum JsonView {
    Null,
    Bool(bool),
    Int(int),
    Str(Seq<char>),
    Arr(Seq<JsonView>),
    Obj(Seq<(Seq<char>, JsonView)>),
}

/// A JSON document. Objects keep their fields in insertion order; the
/// documents this library writes never repeat a key.
pub enum JsonValue {
    Null,
    Bool(bool),
    Int(i64),
    Str(String),
    Arr(Vec<JsonValue>),
    Obj(Vec<(String, JsonValue)>),
}

/// View of an array's element list.
pub open spec fn arr_view(items: Seq<JsonValue>) -> Seq<JsonView>
    decreases items,
{
    Seq::new(
        items.len(),
        |i: int|
            if 0 <= i < items.len() {
                items[i]@
            } else {
                JsonView::Null
            },
    )
}

/// View of an object's field list.
pub open spec fn obj_view(pairs: Seq<(String, JsonValue)>) -> Seq<(Seq<char>, JsonView)>
    decreases pairs,
{
    Seq::new(
        pairs.len(),
        |i: int|
            if 0 <= i < pairs.len() {
                (pairs[i].0@, pairs[i].1@)
            } else {
                (Seq::<char>::empty(), JsonView::Null)
            },
    )
}

impl View for JsonValue {
    type V = JsonView;

    open spec fn view(&self) -> JsonView
        decreases self,
    {
        match self {
            JsonValue::Null => JsonView::Null,
            JsonValue::Bool(b) => JsonView::Bool(*b),
            JsonValue::Int(i) => JsonView::Int(*i as int),
            JsonValue::Str(s) => JsonView::Str(s@),
            JsonValue::Arr(items) => JsonView::Arr(arr_view(items@)),
            JsonValue::Obj(pairs) => JsonView::Obj(obj_view(pairs@)),
        }
    }
}

impl Clone for JsonValue {
    #[verifier::loop_isolation(false)]
    fn clone(&self) -> (r: Self)
        ensures
            r@ == self@,
        decreases self,
    {
        match self {
            JsonValue::Null => JsonValue::Null,
            JsonValue::Bool(b) => JsonValue::Bool(*b),
            JsonValue::Int(i) => JsonValue::Int(*i),
            JsonValue::Str(s) => JsonValue::Str(s.clone()),
            JsonValue::Arr(items) => {
                let mut out: Vec<JsonValue> = Vec::new();
                let n: usize = items.len();
                for i in 0..n
                    invariant
                        n == items.len(),
                        out.len() == i,
                        forall|j: int| 0 <= j < i ==> out@[j]@ == items@[j]@,
                {
                    out.push(items[i].clone());
                }
                let r = JsonValue::Arr(out);
                proof {
                    assert(arr_view(out@) =~= arr_view(items@));
                }
                r
            },
            JsonValue::Obj(pairs) => {
                let mut out: Vec<(String, JsonValue)> = Vec::new();
                let n: usize = pairs.len();
                for i in 0..n
                    invariant
                        n == pairs.len(),
                        out.len() == i,
                        forall|j: int|
                            0 <= j < i ==> out@[j].0@ == pairs@[j].0@ && out@[j].1@
                                == pairs@[j].1@,
                {
                    out.push((pairs[i].0.clone(), pairs[i].1.clone()));
                }
                let r = JsonValue::Obj(out);
                proof {
                    assert(obj_view(out@) =~= obj_view(pairs@));
                }
                r
            },
        }
    }
}

/// First value bound to `key` among `pairs`, if any.
pub open spec fn obj_get(pairs: Seq<(Seq<char>, JsonView)>, key: Seq<char>) -> Option<JsonView>
    decreases pairs.len(),
{
    if pairs.len() == 0 {
        None
    } else if pairs[0].0 == key {
        Some(pairs[0].1)
    } else {
        obj_get(pairs.subrange(1, pairs.len() as int), key)
    }
}

/// Looks `key` up in an object's field list, returning the first match.
pub fn obj_lookup<'a>(pairs: &'a Vec<(String, JsonValue)>, key: &String) -> (r: Option<
    &'a JsonValue,
>)
    ensures
        match r {
            Some(v) => obj_get(obj_view(pairs@), key@) == Some(v@),
            None => obj_get(obj_view(pairs@), key@) is None,
        },
{
    let ghost all = obj_view(pairs@);
    proof {
        assert(all.subrange(0, all.len() as int) =~= all);
    }
    let n: usize = pairs.len();
    for i in 0..n
        invariant
            n == pairs.len(),
            all == obj_view(pairs@),
            all.len() == pairs@.len(),
            obj_get(all, key@) == obj_get(all.subrange(i as int, all.len() as int), key@),
    {
        let ghost sub = all.subrange(i as int, all.len() as int);
        proof {
            assert(sub[0] == all[i as int]);
            assert(all[i as int] == (pairs@[i as int].0@, pairs@[i as int].1@));
        }
        if pairs[i].0 == *key {
            proof {
                assert(obj_get(sub, key@) == Some(sub[0].1));
            }
            return Some(&pairs[i].1);
        }
        proof {
            assert(obj_get(sub, key@) == obj_get(
                sub.subrange(1, sub.len() as int),
                key@,
            ));
            assert(sub.subrange(1, sub.len() as int) =~= all.subrange(i + 1, all.len() as int));
        }
    }
    proof {
        assert(all.subrange(n as int, all.len() as int).len() == 0);
    }
    None
}

} // verus!
