use vstd::prelude::*;

verus! {

/// A number as it appeared in a JSON document, with the two readings of it
/// that the tools make.
#[derive(Debug, PartialEq)]
pub struct JsonNumber {
    /// The number written as JSON text (how it is echoed back in a reply).
    pub literal: String,
    /// The number read as a float and then converted to an unsigned integer,
    /// truncating and saturating at the bounds (the way viewport sizes are read).
    pub whole: u64,
    /// The fractional part of the number read as a float, in whole
    /// thousandths (truncated; 0 for negative numbers), so that time limits
    /// keep fractions of a second.
    pub milli_fraction: u64,
    /// The number read as a float and then written in Rust's `Display` form
    /// (the way scroll offsets are rendered).
    pub shown: String,
}

/// A JSON value. Objects keep their entries as a list; nothing here stops a
/// key from appearing twice, and lookups take the first entry with the key.
#[derive(Debug, PartialEq)]
pub enum Json {
    Null,
    Bool(bool),
    Number(JsonNumber),
    String(String),
    Array(Vec<Json>),
    Object(Vec<(String, Json)>),
}

/// The mathematical reading of a JSON number.
pub struct NumberV {
    pub literal: Seq<char>,
    pub whole: u64,
    pub milli_fraction: u64,
    pub shown: Seq<char>,
}

/// The mathematical reading of a JSON value: strings as character sequences.
pub enum JsonV {
    Null,
    Bool(bool),
    Number(NumberV),
    String(Seq<char>),
    Array(Seq<JsonV>),
    Object(Seq<(Seq<char>, JsonV)>),
}

/// The reading of a JSON value.
pub open spec fn json_view(j: Json) -> JsonV
    decreases j,
{
    match j {
        Json::Null => JsonV::Null,
        Json::Bool(b) => JsonV::Bool(b),
        Json::Number(n) => JsonV::Number(NumberV { literal: n.literal@, whole: n.whole, milli_fraction: n.milli_fraction, shown: n.shown@ }),
        Json::String(s) => JsonV::String(s@),
        Json::Array(items) => JsonV::Array(json_seq_view(items@)),
        Json::Object(entries) => JsonV::Object(entries_view(entries@)),
    }
}

/// The readings of a list of JSON values.
pub open spec fn json_seq_view(s: Seq<Json>) -> Seq<JsonV>
    decreases s,
{
    if s.len() == 0 {
        Seq::empty()
    } else {
        seq![json_view(s[0])] + json_seq_view(s.subrange(1, s.len() as int))
    }
}

/// The readings of the entries of a JSON object.
pub open spec fn entries_view(s: Seq<(String, Json)>) -> Seq<(Seq<char>, JsonV)>
    decreases s,
{
    if s.len() == 0 {
        Seq::empty()
    } else {
        seq![(s[0].0@, json_view(s[0].1))] + entries_view(s.subrange(1, s.len() as int))
    }
}

impl View for Json {
    type V = JsonV;

    open spec fn view(&self) -> JsonV {
        json_view(*self)
    }
}

/// The value stored under `key` among `entries`, the first such entry.
pub open spec fn entries_lookup(entries: Seq<(Seq<char>, JsonV)>, key: Seq<char>) -> Option<JsonV>
    decreases entries.len(),
{
    if entries.len() == 0 {
        None
    } else if entries[0].0 == key {
        Some(entries[0].1)
    } else {
        entries_lookup(entries.drop_first(), key)
    }
}

impl JsonV {
    /// The member `key` of an object; nothing for any other kind of value.
    pub open spec fn field(self, key: Seq<char>) -> Option<JsonV> {
        match self {
            JsonV::Object(entries) => entries_lookup(entries, key),
            _ => None,
        }
    }

    /// The member `key` when it is a string.
    pub open spec fn str_field(self, key: Seq<char>) -> Option<Seq<char>> {
        match self.field(key) {
            Some(JsonV::String(s)) => Some(s),
            _ => None,
        }
    }

    /// The member `key` when it is a number, read as a whole number; `default` otherwise.
    pub open spec fn whole_field(self, key: Seq<char>, default: u64) -> u64 {
        match self.field(key) {
            Some(JsonV::Number(n)) => n.whole,
            _ => default,
        }
    }

    /// The member `key` when it is a number: the thousandths of its
    /// fractional part (below a thousand); 0 otherwise.
    pub open spec fn fraction_field(self, key: Seq<char>) -> u64 {
        match self.field(key) {
            Some(JsonV::Number(n)) => (n.milli_fraction % 1000) as u64,
            _ => 0,
        }
    }

    /// The member `key` when it is a boolean; `default` otherwise.
    pub open spec fn bool_field(self, key: Seq<char>, default: bool) -> bool {
        match self.field(key) {
            Some(JsonV::Bool(b)) => b,
            _ => default,
        }
    }

    /// The member `key` when it is a number, in `Display` form; `default` otherwise.
    pub open spec fn shown_field(self, key: Seq<char>, default: Seq<char>) -> Seq<char> {
        match self.field(key) {
            Some(JsonV::Number(n)) => n.shown,
            _ => default,
        }
    }

    /// The member `key` when it is an array: the strings among its items, in order.
    pub open spec fn strings_field(self, key: Seq<char>) -> Option<Seq<Seq<char>>> {
        match self.field(key) {
            Some(JsonV::Array(items)) => Some(string_items(items)),
            _ => None,
        }
    }
}

/// A list of strings as JSON string values.
pub open spec fn strings_json(items: Seq<Seq<char>>) -> Seq<JsonV> {
    items.map_values(|s: Seq<char>| JsonV::String(s))
}

/// The string items of a list of JSON values, in order; other items are skipped.
pub open spec fn string_items(items: Seq<JsonV>) -> Seq<Seq<char>>
    decreases items.len(),
{
    if items.len() == 0 {
        Seq::empty()
    } else {
        let rest = string_items(items.drop_first());
        match items[0] {
            JsonV::String(s) => seq![s] + rest,
            _ => rest,
        }
    }
}

proof fn lemma_entries_view_skip(s: Seq<(String, Json)>, i: int)
    requires
        0 <= i < s.len(),
    ensures
        entries_view(s.skip(i)).len() > 0,
        entries_view(s.skip(i))[0] == (s[i].0@, json_view(s[i].1)),
        entries_view(s.skip(i)).drop_first() == entries_view(s.skip(i + 1)),
{
    let t = s.skip(i);
    assert(t[0] == s[i]);
    assert(t.subrange(1, t.len() as int) =~= s.skip(i + 1));
    assert(entries_view(t) == seq![(t[0].0@, json_view(t[0].1))] + entries_view(t.subrange(1, t.len() as int)));
    assert((seq![(t[0].0@, json_view(t[0].1))] + entries_view(s.skip(i + 1))).drop_first() =~= entries_view(s.skip(i + 1)));
}

proof fn lemma_json_seq_view_skip(s: Seq<Json>, i: int)
    requires
        0 <= i < s.len(),
    ensures
        json_seq_view(s.skip(i)).len() > 0,
        json_seq_view(s.skip(i))[0] == json_view(s[i]),
        json_seq_view(s.skip(i)).drop_first() == json_seq_view(s.skip(i + 1)),
{
    let t = s.skip(i);
    assert(t[0] == s[i]);
    assert(t.subrange(1, t.len() as int) =~= s.skip(i + 1));
    assert((seq![json_view(t[0])] + json_seq_view(s.skip(i + 1))).drop_first() =~= json_seq_view(s.skip(i + 1)));
}


proof fn lemma_entries_view_push(s: Seq<(String, Json)>, e: (String, Json))
    ensures
        entries_view(s.push(e)) == entries_view(s).push((e.0@, json_view(e.1))),
    decreases s.len(),
{
    let t = s.push(e);
    if s.len() == 0 {
        assert(t.subrange(1, t.len() as int) =~= Seq::<(String, Json)>::empty());
        assert(entries_view(Seq::<(String, Json)>::empty()) =~= Seq::empty());
        assert(t[0] == e);
        assert(entries_view(t) =~= seq![(e.0@, json_view(e.1))]);
    } else {
        assert(t.subrange(1, t.len() as int) =~= s.subrange(1, s.len() as int).push(e));
        lemma_entries_view_push(s.subrange(1, s.len() as int), e);
        assert(entries_view(t) =~= entries_view(s).push((e.0@, json_view(e.1))));
    }
}

proof fn lemma_json_seq_view_push(s: Seq<Json>, j: Json)
    ensures
        json_seq_view(s.push(j)) == json_seq_view(s).push(json_view(j)),
    decreases s.len(),
{
    let t = s.push(j);
    if s.len() == 0 {
        assert(t.subrange(1, t.len() as int) =~= Seq::<Json>::empty());
        assert(json_seq_view(Seq::<Json>::empty()) =~= Seq::empty());
        assert(t[0] == j);
        assert(json_seq_view(t) =~= seq![json_view(j)]);
    } else {
        assert(t.subrange(1, t.len() as int) =~= s.subrange(1, s.len() as int).push(j));
        lemma_json_seq_view_push(s.subrange(1, s.len() as int), j);
        assert(json_seq_view(t) =~= json_seq_view(s).push(json_view(j)));
    }
}

/// Adds the member `key` with `value` at the end of an object's entries.
pub fn put(entries: &mut Vec<(String, Json)>, key: &str, value: Json)
    ensures
        entries_view(final(entries)@) == entries_view(old(entries)@).push((key@, value@)),
{
    let k = String::from_str(key);
    proof {
        lemma_entries_view_push(entries@, (k, value));
    }
    entries.push((k, value));
}

/// Adds `value` at the end of an array's items.
pub fn push_item(items: &mut Vec<Json>, value: Json)
    ensures
        json_seq_view(final(items)@) == json_seq_view(old(items)@).push(value@),
{
    proof {
        lemma_json_seq_view_push(items@, value);
    }
    items.push(value);
}

/// A JSON string holding `s`.
pub fn text(s: &str) -> (r: Json)
    ensures
        r@ == JsonV::String(s@),
{
    Json::String(String::from_str(s))
}

/// An object with no members.
pub fn empty_object() -> (r: Json)
    ensures
        r@ == JsonV::Object(Seq::empty()),
{
    Json::Object(Vec::new())
}

/// An object with the single member `key`.
pub fn single(key: &str, value: Json) -> (r: Json)
    ensures
        r@ == JsonV::Object(seq![(key@, value@)]),
{
    let mut entries: Vec<(String, Json)> = Vec::new();
    put(&mut entries, key, value);
    assert(entries_view(Seq::<(String, Json)>::empty()) =~= Seq::empty());
    Json::Object(entries)
}

/// An array of the strings `items`.
pub fn string_array(items: &Vec<String>) -> (r: Json)
    ensures
        r@ == JsonV::Array(strings_json(crate::text::views(items@))),
{
    let mut out: Vec<Json> = Vec::new();
    let mut i: usize = 0;
    assert(json_seq_view(Seq::<Json>::empty()) =~= Seq::empty());
    assert(strings_json(crate::text::views(items@.take(0))) =~= Seq::empty());
    while i < items.len()
        invariant
            i <= items@.len(),
            json_seq_view(out@) == strings_json(crate::text::views(items@.take(i as int))),
        decreases items@.len() - i,
    {
        push_item(&mut out, Json::String(items[i].clone()));
        assert(strings_json(crate::text::views(items@.take(i + 1)))
            =~= strings_json(crate::text::views(items@.take(i as int))).push(JsonV::String(items@[i as int]@)));
        i = i + 1;
    }
    assert(items@.take(items@.len() as int) =~= items@);
    Json::Array(out)
}

impl Json {
    /// Looks up the member `key` of an object (`None` for non-objects).
    pub fn get(&self, key: &str) -> (r: Option<&Json>)
        ensures
            match r {
                Some(v) => self@.field(key@) == Some(v@),
                None => self@.field(key@) is None,
            },
    {
        match self {
            Json::Object(entries) => {
                let mut i: usize = 0;
                assert(entries@.skip(0) =~= entries@);
                while i < entries.len()
                    invariant
                        i <= entries@.len(),
                        self@.field(key@) == entries_lookup(entries_view(entries@), key@),
                        entries_lookup(entries_view(entries@), key@) == entries_lookup(
                            entries_view(entries@.skip(i as int)),
                            key@,
                        ),
                    decreases entries@.len() - i,
                {
                    proof {
                        lemma_entries_view_skip(entries@, i as int);
                    }
                    if str_eq(entries[i].0.as_str(), key) {
                        return Some(&entries[i].1);
                    }
                    i = i + 1;
                }
                assert(entries@.skip(i as int) =~= Seq::<(String, Json)>::empty());
                None
            },
            _ => None,
        }
    }

    /// The text of a string value.
    pub fn as_str(&self) -> (r: Option<&String>)
        ensures
            match r {
                Some(s) => self@ == JsonV::String(s@),
                None => !(self@ is String),
            },
    {
        match self {
            Json::String(s) => Some(s),
            _ => None,
        }
    }

    /// The member `key` when it is a string.
    pub fn str_field(&self, key: &str) -> (r: Option<&String>)
        ensures
            match r {
                Some(s) => self@.str_field(key@) == Some(s@),
                None => self@.str_field(key@) is None,
            },
    {
        match self.get(key) {
            Some(v) => v.as_str(),
            None => None,
        }
    }

    /// The member `key` when it is a number, read as a whole number; `default` otherwise.
    pub fn whole_field(&self, key: &str, default: u64) -> (r: u64)
        ensures
            r == self@.whole_field(key@, default),
    {
        match self.get(key) {
            Some(Json::Number(n)) => n.whole,
            _ => default,
        }
    }

    /// The member `key` when it is a number: the thousandths of its
    /// fractional part (below a thousand); 0 otherwise.
    pub fn fraction_field(&self, key: &str) -> (r: u64)
        ensures
            r == self@.fraction_field(key@),
    {
        match self.get(key) {
            Some(Json::Number(n)) => n.milli_fraction % 1000,
            _ => 0,
        }
    }

    /// The member `key` when it is a boolean; `default` otherwise.
    pub fn bool_field(&self, key: &str, default: bool) -> (r: bool)
        ensures
            r == self@.bool_field(key@, default),
    {
        match self.get(key) {
            Some(Json::Bool(b)) => *b,
            _ => default,
        }
    }

    /// The member `key` when it is a number, in `Display` form; `default` otherwise.
    pub fn shown_field(&self, key: &str, default: &str) -> (r: String)
        ensures
            r@ == self@.shown_field(key@, default@),
    {
        match self.get(key) {
            Some(Json::Number(n)) => n.shown.clone(),
            _ => String::from_str(default),
        }
    }

    /// The member `key` when it is an array: the strings among its items.
    pub fn strings_field(&self, key: &str) -> (r: Option<Vec<String>>)
        ensures
            match r {
                Some(v) => self@.strings_field(key@) == Some(v@.map_values(|s: String| s@)),
                None => self@.strings_field(key@) is None,
            },
    {
        match self.get(key) {
            Some(Json::Array(items)) => {
                let mut out: Vec<String> = Vec::new();
                let n: usize = items.len();
                let mut i: usize = n;
                assert(items@.skip(n as int) =~= Seq::<Json>::empty());
                while i > 0
                    invariant
                        i <= n == items@.len(),
                        out@.map_values(|s: String| s@) == string_items(json_seq_view(items@.skip(i as int))),
                    decreases i,
                {
                    proof {
                        lemma_json_seq_view_skip(items@, i - 1);
                    }
                    let ghost before = out@;
                    match &items[i - 1] {
                        Json::String(s) => {
                            out.insert(0, s.clone());
                            assert(out@.map_values(|s: String| s@) =~= seq![s@] + before.map_values(|s: String| s@));
                        },
                        _ => {},
                    }
                    i = i - 1;
                }
                assert(items@.skip(0) =~= items@);
                Some(out)
            },
            _ => None,
        }
    }
}

/// Compares two strings for equality.
pub fn str_eq(a: &str, b: &str) -> (r: bool)
    ensures
        r == (a@ == b@),
{
    let n: usize = a.unicode_len();
    let m: usize = b.unicode_len();
    if n != m {
        return false;
    }
    let mut i: usize = 0;
    while i < n
        invariant
            n == a@.len(),
            m == b@.len(),
            n == m,
            i <= n,
            forall|j: int| 0 <= j < i ==> a@[j] == b@[j],
        decreases n - i,
    {
        if a.get_char(i) != b.get_char(i) {
            return false;
        }
        i = i + 1;
    }
    assert(a@ =~= b@);
    true
}

} // verus!
