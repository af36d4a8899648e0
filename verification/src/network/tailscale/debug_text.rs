//! Texts of configurations for logs, with the secrets left out.
use vstd::prelude::*;
use vstd::string::*;

use crate::text::{decimal, decimal_text, join2, join3, owned, texts};

verus! {

/// What `Debug` prints of a string.
pub uninterp spec fn quoted(s: Seq<char>) -> Seq<char>;

/// `format!("{:?}", s)` of a string, a function of its characters alone.
#[verifier::external_body]
pub(crate) fn quoted_text(s: &str) -> (r: String)
    ensures
        r@ == quoted(s@),
{
    format!("{:?}", s)
}

/// What stands for a secret.
pub open spec fn redacted() -> Seq<char> {
    "\"[REDACTED]\""@
}

/// A field and how its value prints.
pub struct FieldModel {
    pub name: Seq<char>,
    pub value: Seq<char>,
}

/// The fields so far, separated by commas.
pub open spec fn fields_text(fields: Seq<FieldModel>) -> Seq<char>
    decreases fields.len(),
{
    if fields.len() == 0 {
        seq![]
    } else {
        let f = fields.last();
        let one = f.name + ": "@ + f.value;
        if fields.len() == 1 {
            one
        } else {
            fields_text(fields.drop_last()) + ", "@ + one
        }
    }
}

/// The text of a struct with some fields.
pub open spec fn struct_text(name: Seq<char>, fields: Seq<FieldModel>) -> Seq<char> {
    name + " { "@ + fields_text(fields) + " }"@
}

/// Builds the text of a struct, field by field.
pub struct StructText {
    text: String,
    count: usize,
    fields: Ghost<Seq<FieldModel>>,
}

impl StructText {
    /// The fields so far.
    pub closed spec fn fields(self) -> Seq<FieldModel> {
        self.fields@
    }

    pub closed spec fn well_formed(self) -> bool {
        self.text@ == fields_text(self.fields@) && (self.count == 0) == (self.fields@.len() == 0)
    }

    pub fn new() -> (r: Self)
        ensures
            r.well_formed(),
            r.fields() == Seq::<FieldModel>::empty(),
    {
        StructText { text: String::new(), count: 0, fields: Ghost(Seq::empty()) }
    }

    /// Adds a field.
    pub fn field(self, name: &str, value: &str) -> (r: Self)
        requires
            self.well_formed(),
        ensures
            r.well_formed(),
            r.fields() == self.fields().push(FieldModel { name: name@, value: value@ }),
    {
        let one: String = join3(name, ": ", value);
        let ghost after = self.fields@.push(FieldModel { name: name@, value: value@ });
        proof {
            assert(after.drop_last() =~= self.fields@);
        }
        let text: String = if self.count == 0 {
            one
        } else {
            join3(self.text.as_str(), ", ", one.as_str())
        };
        StructText { text, count: 1, fields: Ghost(after) }
    }

    /// The text of the struct.
    pub fn finish(self, name: &str) -> (r: String)
        requires
            self.well_formed(),
        ensures
            r@ == struct_text(name@, self.fields()),
    {
        let head: String = join3(name, " { ", self.text.as_str());
        join2(head.as_str(), " }")
    }
}

/// How an optional secret prints: only that it is there.
pub open spec fn secret_text(present: bool) -> Seq<char> {
    if present {
        "Some("@ + redacted() + ")"@
    } else {
        "None"@
    }
}

pub fn show_secret(o: &Option<String>) -> (r: String)
    ensures
        r@ == secret_text(o is Some),
{
    match o {
        Some(_) => join3("Some(", "\"[REDACTED]\"", ")"),
        None => owned("None"),
    }
}

pub open spec fn bool_text(b: bool) -> Seq<char> {
    if b {
        "true"@
    } else {
        "false"@
    }
}

pub open spec fn opt_bool_text(o: Option<bool>) -> Seq<char> {
    match o {
        Some(b) => "Some("@ + bool_text(b) + ")"@,
        None => "None"@,
    }
}

pub fn show_opt_bool(o: Option<bool>) -> (r: String)
    ensures
        r@ == opt_bool_text(o),
{
    match o {
        Some(b) => join3(
            "Some(",
            if b {
                "true"
            } else {
                "false"
            },
            ")",
        ),
        None => owned("None"),
    }
}

pub open spec fn opt_number_text(o: Option<u64>) -> Seq<char> {
    match o {
        Some(n) => "Some("@ + decimal(n as nat) + ")"@,
        None => "None"@,
    }
}

pub fn show_opt_number(o: Option<u64>) -> (r: String)
    ensures
        r@ == opt_number_text(o),
{
    match o {
        Some(n) => {
            let d: String = decimal_text(n);
            join3("Some(", d.as_str(), ")")
        },
        None => owned("None"),
    }
}

/// Quoted texts, separated by commas.
pub open spec fn items_text(v: Seq<Seq<char>>) -> Seq<char>
    decreases v.len(),
{
    if v.len() == 0 {
        seq![]
    } else if v.len() == 1 {
        quoted(v[0])
    } else {
        items_text(v.drop_last()) + ", "@ + quoted(v.last())
    }
}

pub open spec fn list_text(v: Seq<Seq<char>>) -> Seq<char> {
    "["@ + items_text(v) + "]"@
}

pub fn show_list(v: &Vec<String>) -> (r: String)
    ensures
        r@ == list_text(texts(v@)),
{
    let ghost all = texts(v@);
    let mut items: String = String::new();
    let mut i: usize = 0;
    assert(all.take(0) =~= seq![]);
    while i < v.len()
        invariant
            all == texts(v@),
            i <= v@.len(),
            items@ == items_text(all.take(i as int)),
        decreases v@.len() - i,
    {
        let q: String = quoted_text(v[i].as_str());
        proof {
            assert(all.take(i + 1).drop_last() =~= all.take(i as int));
            assert(all.take(i + 1).last() == v@[i as int]@);
        }
        items = if i == 0 {
            q
        } else {
            join3(items.as_str(), ", ", q.as_str())
        };
        i += 1;
    }
    assert(all.take(v@.len() as int) =~= all);
    join3("[", items.as_str(), "]")
}

pub open spec fn opt_list_text(o: Option<Seq<Seq<char>>>) -> Seq<char> {
    match o {
        Some(v) => "Some("@ + list_text(v) + ")"@,
        None => "None"@,
    }
}

/// The texts of an optional list.
pub open spec fn opt_texts(o: Option<Vec<String>>) -> Option<Seq<Seq<char>>> {
    match o {
        Some(v) => Some(texts(v@)),
        None => None,
    }
}

pub fn show_opt_list(o: &Option<Vec<String>>) -> (r: String)
    ensures
        r@ == opt_list_text(opt_texts(*o)),
{
    match o {
        Some(v) => {
            let l: String = show_list(v);
            join3("Some(", l.as_str(), ")")
        },
        None => owned("None"),
    }
}

} // verus!
