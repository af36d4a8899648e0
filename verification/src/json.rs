//! Values of the daemon's wire format.
use vstd::prelude::*;

use crate::text::{opt_text, owned, same_text, texts};

verus! {

/// A JSON value. Objects keep the order in which they were written.
#[derive(Debug)]
pub enum Json {
    Null,
    Bool(bool),
    Number(u64),
    /// A whole number below zero.
    Negative(i64),
    /// The bits of a double.
    Double(u64),
    /// How many per cent the first is of the second; nothing of nothing is
    /// zero.
    Percent(u64, u64),
    Text(String),
    Array(Vec<Json>),
    Object(Vec<(String, Json)>),
}

/// The texts of a [`Json`].
pub enum JsonModel {
    Null,
    Bool(bool),
    Number(u64),
    Negative(i64),
    Double(u64),
    Percent(u64, u64),
    Text(Seq<char>),
    Array(Seq<JsonModel>),
    Object(Seq<(Seq<char>, JsonModel)>),
}

/// The model of a value.
pub open spec fn json_model(j: Json) -> JsonModel
    decreases j,
{
    match j {
        Json::Null => JsonModel::Null,
        Json::Bool(b) => JsonModel::Bool(b),
        Json::Number(n) => JsonModel::Number(n),
        Json::Negative(n) => JsonModel::Negative(n),
        Json::Double(bits) => JsonModel::Double(bits),
        Json::Percent(a, b) => JsonModel::Percent(a, b),
        Json::Text(s) => JsonModel::Text(s@),
        Json::Array(v) => JsonModel::Array(
            Seq::new(
                v@.len(),
                |i: int|
                    if 0 <= i < v@.len() {
                        json_model(v@[i])
                    } else {
                        JsonModel::Null
                    },
            ),
        ),
        Json::Object(v) => JsonModel::Object(
            Seq::new(
                v@.len(),
                |i: int|
                    if 0 <= i < v@.len() {
                        (v@[i].0@, json_model(v@[i].1))
                    } else {
                        (Seq::empty(), JsonModel::Null)
                    },
            ),
        ),
    }
}

impl View for Json {
    type V = JsonModel;

    open spec fn view(&self) -> JsonModel {
        json_model(*self)
    }
}

// ---------------------------------------------------------------------------
// Reading
// ---------------------------------------------------------------------------

/// The first entry of a name, from `from` on.
pub open spec fn entry_at(v: Seq<(Seq<char>, JsonModel)>, key: Seq<char>, from: int) -> int
    decreases v.len() - from,
{
    if from >= v.len() {
        v.len() as int
    } else if v[from].0 == key {
        from
    } else {
        entry_at(v, key, from + 1)
    }
}

impl JsonModel {
    /// The value under a name; null where there is none.
    pub open spec fn at(self, key: Seq<char>) -> JsonModel {
        match self {
            JsonModel::Object(v) => {
                let i = entry_at(v, key, 0);
                if 0 <= i < v.len() {
                    v[i].1
                } else {
                    JsonModel::Null
                }
            },
            _ => JsonModel::Null,
        }
    }

    pub open spec fn text(self) -> Option<Seq<char>> {
        match self {
            JsonModel::Text(s) => Some(s),
            _ => None,
        }
    }

    pub open spec fn number(self) -> Option<u64> {
        match self {
            JsonModel::Number(n) => Some(n),
            _ => None,
        }
    }

    pub open spec fn truth(self) -> Option<bool> {
        match self {
            JsonModel::Bool(b) => Some(b),
            _ => None,
        }
    }

    pub open spec fn list(self) -> Option<Seq<JsonModel>> {
        match self {
            JsonModel::Array(v) => Some(v),
            _ => None,
        }
    }
}

impl Json {
    /// The value under a name, if there is one.
    pub fn at(&self, key: &str) -> (r: Option<&Json>)
        ensures
            match r {
                Some(j) => j@ == self@.at(key@),
                None => self@.at(key@) == JsonModel::Null,
            },
    {
        match self {
            Json::Object(v) => {
                let n: usize = v.len();
                let mut i: usize = 0;
                let ghost all = self@->Object_0;
                while i < n
                    invariant
                        n == v@.len() == all.len(),
                        i <= n,
                        *self == Json::Object(*v),
                        self@ == JsonModel::Object(all),
                        entry_at(all, key@, 0) == entry_at(all, key@, i as int),
                    decreases n - i,
                {
                    assert(all[i as int] == (v@[i as int].0@, json_model(v@[i as int].1)));
                    if same_text(v[i].0.as_str(), key) {
                        return Some(&v[i].1);
                    }
                    i += 1;
                }
                None
            },
            _ => None,
        }
    }

    /// The text under a name, if there is one.
    pub fn text_at(&self, key: &str) -> (r: Option<&str>)
        ensures
            match r {
                Some(s) => self@.at(key@).text() == Some(s@),
                None => self@.at(key@).text() is None,
            },
    {
        match self.at(key) {
            Some(j) => j.as_text(),
            None => None,
        }
    }

    pub fn as_text(&self) -> (r: Option<&str>)
        ensures
            match r {
                Some(s) => self@.text() == Some(s@),
                None => self@.text() is None,
            },
    {
        match self {
            Json::Text(s) => Some(s.as_str()),
            _ => None,
        }
    }

    /// The number under a name, if there is one.
    pub fn number_at(&self, key: &str) -> (r: Option<u64>)
        ensures
            r == self@.at(key@).number(),
    {
        match self.at(key) {
            Some(Json::Number(n)) => Some(*n),
            _ => None,
        }
    }

    /// The truth value under a name, if there is one.
    pub fn truth_at(&self, key: &str) -> (r: Option<bool>)
        ensures
            r == self@.at(key@).truth(),
    {
        match self.at(key) {
            Some(Json::Bool(b)) => Some(*b),
            _ => None,
        }
    }

    /// The list under a name, if there is one.
    pub fn list_at(&self, key: &str) -> (r: Option<&Vec<Json>>)
        ensures
            match r {
                Some(v) => self@.at(key@).list() == Some(json_models(v@)),
                None => self@.at(key@).list() is None,
            },
    {
        match self.at(key) {
            Some(j) => match j {
                Json::Array(v) => {
                    assert(json_models(v@) =~= j@->Array_0);
                    Some(v)
                },
                _ => None,
            },
            None => None,
        }
    }
}

pub open spec fn json_models(v: Seq<Json>) -> Seq<JsonModel> {
    Seq::new(v.len(), |i: int| json_model(v[i]))
}

/// The texts among some values, in order.
pub open spec fn texts_in(v: Seq<JsonModel>) -> Seq<Seq<char>>
    decreases v.len(),
{
    if v.len() == 0 {
        Seq::empty()
    } else {
        match v.last().text() {
            Some(s) => texts_in(v.drop_last()).push(s),
            None => texts_in(v.drop_last()),
        }
    }
}

/// The texts among some values, in order.
pub fn collect_texts(v: &Vec<Json>) -> (r: Vec<String>)
    ensures
        texts(r@) == texts_in(json_models(v@)),
{
    let n: usize = v.len();
    let mut out: Vec<String> = Vec::new();
    let mut i: usize = 0;
    let ghost all = json_models(v@);
    assert(texts(out@) =~= texts_in(all.take(0)));
    while i < n
        invariant
            n == v@.len() == all.len(),
            i <= n,
            all == json_models(v@),
            texts(out@) == texts_in(all.take(i as int)),
        decreases n - i,
    {
        assert(all.take(i + 1).drop_last() =~= all.take(i as int));
        assert(all.take(i + 1).last() == v@[i as int]@);
        match v[i].as_text() {
            Some(s) => {
                let ghost was = out@;
                out.push(owned(s));
                assert(texts(out@) =~= texts(was).push(s@));
            },
            None => {},
        }
        i += 1;
    }
    assert(all.take(n as int) =~= all);
    out
}

// ---------------------------------------------------------------------------
// Writing
// ---------------------------------------------------------------------------

/// A text or null.
pub open spec fn text_or_null(o: Option<Seq<char>>) -> JsonModel {
    match o {
        Some(s) => JsonModel::Text(s),
        None => JsonModel::Null,
    }
}

/// A list of texts.
pub open spec fn text_list(v: Seq<Seq<char>>) -> JsonModel {
    JsonModel::Array(Seq::new(v.len(), |i: int| JsonModel::Text(v[i])))
}

pub fn json_text(s: &str) -> (r: Json)
    ensures
        r@ == JsonModel::Text(s@),
{
    Json::Text(owned(s))
}

pub fn json_opt(o: &Option<String>) -> (r: Json)
    ensures
        r@ == text_or_null(opt_text(*o)),
{
    match o {
        Some(s) => Json::Text(s.clone()),
        None => Json::Null,
    }
}

pub fn json_texts(v: &Vec<String>) -> (r: Json)
    ensures
        r@ == text_list(texts(v@)),
{
    let n: usize = v.len();
    let mut out: Vec<Json> = Vec::new();
    let mut i: usize = 0;
    while i < n
        invariant
            n == v@.len(),
            i <= n,
            out@.len() == i,
            forall|j: int|
                0 <= j < i ==> json_model(#[trigger] out@[j]) == JsonModel::Text(v@[j]@),
        decreases n - i,
    {
        out.push(Json::Text(v[i].clone()));
        i += 1;
    }
    let r: Json = Json::Array(out);
    assert(r@->Array_0 =~= text_list(texts(v@))->Array_0);
    r
}

/// An object that is being written.
pub struct Fields {
    entries: Vec<(String, Json)>,
}

impl Fields {
    /// The entries so far.
    pub closed spec fn model(self) -> Seq<(Seq<char>, JsonModel)> {
        Seq::new(
            self.entries@.len(),
            |i: int| (self.entries@[i].0@, json_model(self.entries@[i].1)),
        )
    }

    pub fn new() -> (r: Self)
        ensures
            r.model() == Seq::<(Seq<char>, JsonModel)>::empty(),
    {
        let r = Fields { entries: Vec::new() };
        assert(r.model() =~= Seq::empty());
        r
    }

    /// One more entry.
    pub fn put(self, key: &str, value: Json) -> (r: Self)
        ensures
            r.model() == self.model().push((key@, value@)),
    {
        let mut entries: Vec<(String, Json)> = self.entries;
        entries.push((owned(key), value));
        let r = Fields { entries };
        assert(r.model() =~= self.model().push((key@, value@)));
        r
    }

    /// The object.
    pub fn done(self) -> (r: Json)
        ensures
            r@ == JsonModel::Object(self.model()),
    {
        let r: Json = Json::Object(self.entries);
        assert(r@->Object_0 =~= self.model());
        r
    }
}

} // verus!
