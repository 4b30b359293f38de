//! The part of a JSON document that the APOD payloads are made of: a
//! top-level object or array whose members are objects of scalar fields.
use vstd::prelude::*;

verus! {

/// A field value. Arrays and objects below the second level are not
/// looked into and stand as `Nested`.
#[derive(Clone, Debug, PartialEq)]
pub enum JsonScalar {
    Null,
    Bool(bool),
    /// A number, with its value where it is a non-negative integer that fits in `u64`.
    Number(Option<u64>),
    Str(String),
    Nested,
}

pub enum ScalarView {
    Null,
    Bool(bool),
    Number(Option<u64>),
    Str(Seq<char>),
    Nested,
}

impl View for JsonScalar {
    type V = ScalarView;

    open spec fn view(&self) -> ScalarView {
        match self {
            JsonScalar::Null => ScalarView::Null,
            JsonScalar::Bool(b) => ScalarView::Bool(*b),
            JsonScalar::Number(n) => ScalarView::Number(*n),
            JsonScalar::Str(s) => ScalarView::Str(s@),
            JsonScalar::Nested => ScalarView::Nested,
        }
    }
}

/// A JSON object: its members in order. Lookups take the first member of a
/// name.
#[derive(Clone, Debug, PartialEq)]
pub struct JsonObject {
    pub fields: Vec<(String, JsonScalar)>,
}

pub type ObjectView = Seq<(Seq<char>, ScalarView)>;

impl View for JsonObject {
    type V = ObjectView;

    open spec fn view(&self) -> ObjectView {
        self.fields@.map_values(|f: (String, JsonScalar)| (f.0@, f.1@))
    }
}

/// A whole payload.
#[derive(Clone, Debug, PartialEq)]
pub enum JsonValue {
    Object(JsonObject),
    /// An array; an element that is not an object stands as `None`.
    Array(Vec<Option<JsonObject>>),
    /// Any other top-level value.
    Scalar(JsonScalar),
}

/// The value of the first member named `key`.
pub open spec fn field(o: ObjectView, key: Seq<char>) -> Option<ScalarView>
    decreases o.len(),
{
    if o.len() == 0 {
        None
    } else if o[0].0 == key {
        Some(o[0].1)
    } else {
        field(o.drop_first(), key)
    }
}

pub open spec fn str_field(o: ObjectView, key: Seq<char>) -> Option<Seq<char>> {
    match field(o, key) {
        Some(ScalarView::Str(s)) => Some(s),
        _ => None,
    }
}

/// The member is absent or null.
pub open spec fn is_absent(o: ObjectView, key: Seq<char>) -> bool {
    field(o, key) is None || field(o, key) == Some(ScalarView::Null)
}

pub fn str_eq(a: &str, b: &str) -> (r: bool)
    ensures
        r == (a@ == b@),
{
    let n = a.unicode_len();
    if n != b.unicode_len() {
        return false;
    }
    let mut i: usize = 0;
    while i < n
        invariant
            n == a@.len(),
            n == b@.len(),
            0 <= i <= n,
            a@.subrange(0, i as int) == b@.subrange(0, i as int),
        decreases n - i,
    {
        if a.get_char(i) != b.get_char(i) {
            return false;
        }
        assert(a@.subrange(0, i + 1) =~= a@.subrange(0, i as int).push(a@[i as int]));
        assert(b@.subrange(0, i + 1) =~= b@.subrange(0, i as int).push(b@[i as int]));
        i = i + 1;
    }
    assert(a@ =~= a@.subrange(0, n as int));
    assert(b@ =~= b@.subrange(0, n as int));
    true
}

impl JsonObject {
    /// The value of the first member named `key`.
    pub fn get(&self, key: &str) -> (r: Option<&JsonScalar>)
        ensures
            match r {
                Some(v) => field(self@, key@) == Some(v@),
                None => field(self@, key@) is None,
            },
    {
        let mut i: usize = 0;
        assert(self@.subrange(0, self@.len() as int) =~= self@);
        while i < self.fields.len()
            invariant
                0 <= i <= self.fields@.len(),
                field(self@, key@) == field(self@.subrange(i as int, self@.len() as int), key@),
            decreases self.fields@.len() - i,
        {
            let ghost rest = self@.subrange(i as int, self@.len() as int);
            assert(rest.drop_first() =~= self@.subrange(i + 1, self@.len() as int));
            assert(rest[0] == (self.fields@[i as int].0@, self.fields@[i as int].1@));
            if str_eq(self.fields[i].0.as_str(), key) {
                return Some(&self.fields[i].1);
            }
            i = i + 1;
        }
        None
    }
}

} // verus!
