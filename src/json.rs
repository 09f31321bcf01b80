use vstd::prelude::*;

verus! {

/// A JSON document as a tree. Numbers are kept as their decimal text.
#[derive(Debug, PartialEq)]
pub enum Json {
    Null,
    Bool(bool),
    Number(String),
    Str(String),
    Array(Vec<Json>),
    Object(Vec<(String, Json)>),
}

/// The mathematical value of a [`Json`] tree.
pub enum JsonV {
    Null,
    Bool(bool),
    Number(Seq<char>),
    Str(Seq<char>),
    Array(Seq<JsonV>),
    /// The members' names, and their values, in order.
    Object(Seq<Seq<char>>, Seq<JsonV>),
}

impl View for Json {
    type V = JsonV;

    open spec fn view(&self) -> JsonV
        decreases self,
    {
        match self {
            Json::Null => JsonV::Null,
            Json::Bool(b) => JsonV::Bool(*b),
            Json::Number(n) => JsonV::Number(n@),
            Json::Str(s) => JsonV::Str(s@),
            Json::Array(items) => JsonV::Array(
                Seq::new(
                    items@.len(),
                    |i: int|
                        if 0 <= i < items@.len() {
                            items@[i].view()
                        } else {
                            JsonV::Null
                        },
                ),
            ),
            Json::Object(members) => JsonV::Object(
                Seq::new(members@.len(), |i: int| members@[i].0@),
                Seq::new(
                    members@.len(),
                    |i: int|
                        if 0 <= i < members@.len() {
                            members@[i].1.view()
                        } else {
                            JsonV::Null
                        },
                ),
            ),
        }
    }
}

/// The values of a sequence of trees.
pub open spec fn items_view(items: Seq<Json>) -> Seq<JsonV> {
    Seq::new(items.len(), |i: int| items[i]@)
}

/// The names of a sequence of object members.
pub open spec fn keys_view(members: Seq<(String, Json)>) -> Seq<Seq<char>> {
    Seq::new(members.len(), |i: int| members[i].0@)
}

/// The values of a sequence of object members.
pub open spec fn values_view(members: Seq<(String, Json)>) -> Seq<JsonV> {
    Seq::new(members.len(), |i: int| members[i].1@)
}

/// The texts of a sequence of strings.
pub open spec fn strings_view(v: Seq<String>) -> Seq<Seq<char>> {
    Seq::new(v.len(), |i: int| v[i]@)
}

/// The value of the first member named `key`, looking from index `i` on.
pub open spec fn lookup_from(keys: Seq<Seq<char>>, values: Seq<JsonV>, key: Seq<char>, i: int) -> Option<
    JsonV,
>
    decreases keys.len() - i,
{
    if i < 0 || i >= keys.len() || i >= values.len() {
        None
    } else if keys[i] == key {
        Some(values[i])
    } else {
        lookup_from(keys, values, key, i + 1)
    }
}

/// The value of the member `key` of an object; `None` when `j` is no object
/// or has no such member.
pub open spec fn field_of(j: JsonV, key: Seq<char>) -> Option<JsonV> {
    match j {
        JsonV::Object(keys, values) => lookup_from(keys, values, key, 0),
        _ => None,
    }
}

/// The text of a JSON string.
pub open spec fn str_of(j: JsonV) -> Option<Seq<char>> {
    match j {
        JsonV::Str(s) => Some(s),
        _ => None,
    }
}

/// The text of the string member `key`.
pub open spec fn str_field_of(j: JsonV, key: Seq<char>) -> Option<Seq<char>> {
    match field_of(j, key) {
        Some(v) => str_of(v),
        None => None,
    }
}

/// An optional string member: absent or `null` is `None`, a string is
/// `Some`; any other value does not fit.
pub open spec fn opt_str_field_of(j: JsonV, key: Seq<char>) -> Option<Option<Seq<char>>> {
    match field_of(j, key) {
        None => Some(None),
        Some(JsonV::Null) => Some(None),
        Some(JsonV::Str(s)) => Some(Some(s)),
        Some(_) => None,
    }
}

/// An array of strings, read as their texts.
pub open spec fn str_list_of(j: JsonV) -> Option<Seq<Seq<char>>> {
    match j {
        JsonV::Array(items) => if forall|i: int| 0 <= i < items.len() ==> (#[trigger] items[i]) is Str {
            Some(Seq::new(items.len(), |i: int| items[i]->Str_0))
        } else {
            None
        },
        _ => None,
    }
}

/// The JSON array of strings that holds `texts`.
pub open spec fn str_array_of(texts: Seq<Seq<char>>) -> JsonV {
    JsonV::Array(Seq::new(texts.len(), |i: int| JsonV::Str(texts[i])))
}

/// `null` for `None`, a string for `Some`.
pub open spec fn opt_str_value(o: Option<Seq<char>>) -> JsonV {
    match o {
        Some(s) => JsonV::Str(s),
        None => JsonV::Null,
    }
}

/// The view of an optional string.
pub open spec fn opt_view(o: Option<String>) -> Option<Seq<char>> {
    match o {
        Some(s) => Some(s@),
        None => None,
    }
}

/// An object made of `members`, in that order.
pub fn object(members: Vec<(String, Json)>) -> (r: Json)
    ensures
        r@ == JsonV::Object(keys_view(members@), values_view(members@)),
{
    let r = Json::Object(members);
    proof {
        if let JsonV::Object(ks, vs) = r@ {
            assert(ks =~= keys_view(members@));
            assert(vs =~= values_view(members@));
        }
    }
    r
}

/// An array made of `items`, in that order.
pub fn array(items: Vec<Json>) -> (r: Json)
    ensures
        r@ == JsonV::Array(items_view(items@)),
{
    let r = Json::Array(items);
    proof {
        if let JsonV::Array(vs) = r@ {
            assert(vs =~= items_view(items@));
        }
    }
    r
}

/// A JSON string holding `s`.
pub fn text(s: &String) -> (r: Json)
    ensures
        r@ == JsonV::Str(s@),
{
    Json::Str(s.clone())
}

/// `null` for `None`, a string for `Some`.
pub fn opt_text(o: &Option<String>) -> (r: Json)
    ensures
        r@ == opt_str_value(opt_view(*o)),
{
    match o {
        Some(s) => text(s),
        None => Json::Null,
    }
}

/// The array of strings that holds the texts of `v`.
pub fn string_array(v: &Vec<String>) -> (r: Json)
    ensures
        r@ == str_array_of(strings_view(v@)),
{
    let mut items: Vec<Json> = Vec::new();
    let mut i: usize = 0;
    while i < v.len()
        invariant
            i <= v@.len(),
            items@.len() == i,
            forall|k: int| 0 <= k < i ==> (#[trigger] items@[k])@ == JsonV::Str(v@[k]@),
        decreases v@.len() - i,
    {
        items.push(text(&v[i]));
        i = i + 1;
    }
    let r = array(items);
    assert(items_view(items@) =~= Seq::new(
        strings_view(v@).len(),
        |k: int| JsonV::Str(strings_view(v@)[k]),
    ));
    r
}

/// Whether `s` holds the text `lit`.
pub fn is_text(s: &String, lit: &str) -> (r: bool)
    ensures
        r == (s@ == lit@),
{
    *s == String::from_str(lit)
}

/// The member `key` of an object.
pub fn field<'a>(j: &'a Json, key: &str) -> (r: Option<&'a Json>)
    ensures
        match r {
            Some(v) => field_of(j@, key@) == Some(v@),
            None => field_of(j@, key@) is None,
        },
{
    match j {
        Json::Object(members) => {
            let ghost ks = keys_view(members@);
            let ghost vs = values_view(members@);
            assert(j@ == JsonV::Object(ks, vs)) by {
                if let JsonV::Object(k2, v2) = j@ {
                    assert(k2 =~= ks);
                    assert(v2 =~= vs);
                }
            }
            let mut i: usize = 0;
            while i < members.len()
                invariant
                    i <= members@.len(),
                    j@ == JsonV::Object(ks, vs),
                    ks == keys_view(members@),
                    vs == values_view(members@),
                    lookup_from(ks, vs, key@, 0) == lookup_from(ks, vs, key@, i as int),
                decreases members@.len() - i,
            {
                assert(ks[i as int] == members@[i as int].0@);
                assert(vs[i as int] == members@[i as int].1@);
                if is_text(&members[i].0, key) {
                    assert(lookup_from(ks, vs, key@, i as int) == Some(vs[i as int]));
                    assert(field_of(j@, key@) == Some(vs[i as int]));
                    assert(members[i as int].1@ == vs[i as int]);
                    return Some(&members[i].1);
                }
                i = i + 1;
            }
            None
        },
        _ => None,
    }
}

/// The text of the string member `key`.
pub fn str_field(j: &Json, key: &str) -> (r: Option<String>)
    ensures
        match r {
            Some(s) => str_field_of(j@, key@) == Some(s@),
            None => str_field_of(j@, key@) is None,
        },
{
    match field(j, key) {
        Some(Json::Str(s)) => Some(s.clone()),
        _ => None,
    }
}

/// The optional string member `key`: `Err(())` where it is present and
/// neither `null` nor a string.
pub fn opt_str_field(j: &Json, key: &str) -> (r: Result<Option<String>, ()>)
    ensures
        match r {
            Ok(o) => opt_str_field_of(j@, key@) == Some(opt_view(o)),
            Err(_) => opt_str_field_of(j@, key@) is None,
        },
{
    match field(j, key) {
        None => Ok(None),
        Some(Json::Null) => Ok(None),
        Some(Json::Str(s)) => Ok(Some(s.clone())),
        Some(_) => Err(()),
    }
}

/// An array of strings, read as their texts.
pub fn str_list(j: &Json) -> (r: Option<Vec<String>>)
    ensures
        match r {
            Some(v) => str_list_of(j@) == Some(strings_view(v@)),
            None => str_list_of(j@) is None,
        },
{
    match j {
        Json::Array(items) => {
            let ghost vs = j@->Array_0;
            assert(j@ == JsonV::Array(vs));
            assert(vs =~= items_view(items@));
            let mut out: Vec<String> = Vec::new();
            let mut i: usize = 0;
            while i < items.len()
                invariant
                    i <= items@.len(),
                    j@ == JsonV::Array(vs),
                    vs == items_view(items@),
                    out@.len() == i,
                    forall|k: int| 0 <= k < i ==> vs[k] == JsonV::Str((#[trigger] out@[k])@),
                decreases items@.len() - i,
            {
                assert(vs[i as int] == items@[i as int]@);
                match &items[i] {
                    Json::Str(s) => {
                        out.push(s.clone());
                        assert(out@[i as int]@ == s@);
                    },
                    _ => {
                        assert(!(vs[i as int] is Str));
                        return None;
                    },
                }
                i = i + 1;
            }
            assert forall|k: int| 0 <= k < vs.len() implies (#[trigger] vs[k]) is Str by {
                assert(vs[k] == JsonV::Str(out@[k]@));
            }
            assert(Seq::new(vs.len(), |k: int| vs[k]->Str_0) =~= strings_view(out@));
            Some(out)
        },
        _ => None,
    }
}

} // verus!
