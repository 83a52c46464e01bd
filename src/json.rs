use vstd::prelude::*;

verus! {

/// The JSON string literal, quotes and escapes included, that stands for `s`.
pub uninterp spec fn json_string_of(s: Seq<char>) -> Seq<char>;

/// Relies on `serde_json::to_string` on a `str`: it writes the quoted,
/// escaped literal into a byte buffer, which cannot fail, so the result is
/// always `Some`.
#[verifier::external_body]
fn serde_json_quote(s: &str) -> (r: Option<String>)
    ensures
        r is Some,
        r matches Some(t) ==> t@ == json_string_of(s@),
{
    match serde_json::to_string(s) {
        Ok(t) => Some(t),
        Err(_) => None,
    }
}

/// Quotes and escapes `s` as a JSON string literal.
pub fn json_quote(s: &str) -> (r: String)
    ensures
        r@ == json_string_of(s@),
{
    serde_json_quote(s).unwrap()
}

/// The JSON literal of a boolean.
pub open spec fn json_bool(b: bool) -> Seq<char> {
    if b { seq!['t', 'r', 'u', 'e'] } else { seq!['f', 'a', 'l', 's', 'e'] }
}

/// `items`, separated by commas.
pub open spec fn join_comma(items: Seq<Seq<char>>) -> Seq<char>
    decreases items.len(),
{
    if items.len() == 0 {
        seq![]
    } else if items.len() == 1 {
        items[0]
    } else {
        join_comma(items.drop_last()) + seq![','] + items.last()
    }
}

/// One member of an object whose key needs no escaping: `"key":value`.
pub open spec fn member_text(field: (Seq<char>, Seq<char>)) -> Seq<char> {
    seq!['"'] + field.0 + seq!['"', ':'] + field.1
}

/// The member texts of `fields`, in order.
pub open spec fn member_texts(fields: Seq<(Seq<char>, Seq<char>)>) -> Seq<Seq<char>>
    decreases fields.len(),
{
    if fields.len() == 0 {
        seq![]
    } else {
        member_texts(fields.drop_last()).push(member_text(fields.last()))
    }
}

/// A JSON object with the given `(key, encoded value)` members, in order,
/// without whitespace.
pub open spec fn object_text(fields: Seq<(Seq<char>, Seq<char>)>) -> Seq<char> {
    seq!['{'] + join_comma(member_texts(fields)) + seq!['}']
}

/// The member `(key, literal of value)` where `value` is present, and none
/// where it is absent.
pub open spec fn opt_string_field(key: Seq<char>, value: Option<String>) -> Seq<(Seq<char>, Seq<char>)> {
    match value {
        Some(v) => seq![(key, json_string_of(v@))],
        None => seq![],
    }
}

/// As [`opt_string_field`], for a boolean.
pub open spec fn opt_bool_field(key: Seq<char>, value: Option<bool>) -> Seq<(Seq<char>, Seq<char>)> {
    match value {
        Some(b) => seq![(key, json_bool(b))],
        None => seq![],
    }
}

/// The member `(key, object of value)` where the map `value` is present, and
/// none where it is absent.
pub open spec fn opt_map_field(key: Seq<char>, value: Option<Vec<(String, String)>>) -> Seq<(Seq<char>, Seq<char>)> {
    match value {
        Some(v) => seq![(key, string_map_text(v@))],
        None => seq![],
    }
}

/// The string literals of `items`, in order.
pub open spec fn string_literals(items: Seq<String>) -> Seq<Seq<char>>
    decreases items.len(),
{
    if items.len() == 0 {
        seq![]
    } else {
        string_literals(items.drop_last()).push(json_string_of(items.last()@))
    }
}

/// A JSON array of the strings `items`.
pub open spec fn string_array_text(items: Seq<String>) -> Seq<char> {
    seq!['['] + join_comma(string_literals(items)) + seq![']']
}

/// The members `"key":"value"` of a string map, keys escaped, in order.
pub open spec fn pair_texts(pairs: Seq<(String, String)>) -> Seq<Seq<char>>
    decreases pairs.len(),
{
    if pairs.len() == 0 {
        seq![]
    } else {
        pair_texts(pairs.drop_last()).push(
            json_string_of(pairs.last().0@) + seq![':'] + json_string_of(pairs.last().1@),
        )
    }
}

/// A JSON object of string keys and string values, in the order given.
pub open spec fn string_map_text(pairs: Seq<(String, String)>) -> Seq<char> {
    seq!['{'] + join_comma(pair_texts(pairs)) + seq!['}']
}

proof fn lemma_join_push(items: Seq<Seq<char>>, item: Seq<char>)
    ensures
        join_comma(items.push(item)) == if items.len() == 0 {
            item
        } else {
            join_comma(items) + seq![','] + item
        },
{
    assert(items.push(item).drop_last() =~= items);
    if items.len() == 0 {
        assert(items.push(item)[0] == item);
    }
}

/// Appends `item` to a comma-separated list that `out` ends with.
fn append_item(out: &mut String, first: bool, Ghost(prefix): Ghost<Seq<char>>, Ghost(items): Ghost<Seq<Seq<char>>>, item: &str)
    requires
        old(out)@ == prefix + join_comma(items),
        first == (items.len() == 0),
    ensures
        final(out)@ == prefix + join_comma(items.push(item@)),
{
    proof {
        lemma_join_push(items, item@);
        reveal_strlit(",");
    }
    if !first {
        out.append(",");
    }
    out.append(item);
    assert(final(out)@ =~= prefix + join_comma(items.push(item@)));
}

/// Writes a JSON object member by member.
pub struct ObjectWriter {
    out: String,
    empty: bool,
    fields: Ghost<Seq<(Seq<char>, Seq<char>)>>,
}

impl ObjectWriter {
    /// The members written so far.
    pub closed spec fn fields(&self) -> Seq<(Seq<char>, Seq<char>)> {
        self.fields@
    }

    pub closed spec fn inv(&self) -> bool {
        &&& self.out@ == seq!['{'] + join_comma(member_texts(self.fields@))
        &&& self.empty == (self.fields@.len() == 0)
    }

    pub fn new() -> (r: ObjectWriter)
        ensures
            r.inv(),
            r.fields() == Seq::<(Seq<char>, Seq<char>)>::empty(),
    {
        proof {
            reveal_strlit("{");
        }
        let w = ObjectWriter { out: String::from_str("{"), empty: true, fields: Ghost(Seq::empty()) };
        assert(w.out@ =~= seq!['{'] + join_comma(member_texts(w.fields@)));
        w
    }

    /// Adds the member `"key":value`, where `value` is already JSON and
    /// `key` needs no escaping.
    pub fn raw_field(&mut self, key: &str, value: &str)
        requires
            old(self).inv(),
        ensures
            final(self).inv(),
            final(self).fields() == old(self).fields().push((key@, value@)),
    {
        proof {
            reveal_strlit("\"");
            reveal_strlit("\":");
        }
        let mut m = String::from_str("\"");
        m.append(key);
        m.append("\":");
        m.append(value);
        assert(m@ =~= member_text((key@, value@)));
        let ghost fs = self.fields@;
        let ghost new_fs = fs.push((key@, value@));
        assert(new_fs.drop_last() =~= fs);
        let ghost open = seq!['{'];
        append_item(&mut self.out, self.empty, Ghost(open), Ghost(member_texts(fs)), m.as_str());
        self.empty = false;
        self.fields = Ghost(new_fs);
    }

    /// Adds the member `"key":"value"`, `value` quoted and escaped.
    pub fn string_field(&mut self, key: &str, value: &str)
        requires
            old(self).inv(),
        ensures
            final(self).inv(),
            final(self).fields() == old(self).fields().push((key@, json_string_of(value@))),
    {
        let v = json_quote(value);
        self.raw_field(key, v.as_str());
    }

    /// Adds a string member where `value` is present, nothing where absent.
    pub fn opt_string_field(&mut self, key: &str, value: &Option<String>)
        requires
            old(self).inv(),
        ensures
            final(self).inv(),
            final(self).fields() == old(self).fields() + opt_string_field(key@, *value),
    {
        match value {
            Some(v) => self.string_field(key, v.as_str()),
            None => {},
        }
        assert(final(self).fields() =~= old(self).fields() + opt_string_field(key@, *value));
    }

    /// Adds a boolean member where `value` is present, nothing where absent.
    pub fn opt_bool_field(&mut self, key: &str, value: Option<bool>)
        requires
            old(self).inv(),
        ensures
            final(self).inv(),
            final(self).fields() == old(self).fields() + opt_bool_field(key@, value),
    {
        proof {
            reveal_strlit("true");
            reveal_strlit("false");
        }
        match value {
            Some(b) => {
                assert("true"@ =~= json_bool(true));
                assert("false"@ =~= json_bool(false));
                if b {
                    self.raw_field(key, "true");
                } else {
                    self.raw_field(key, "false");
                }
            },
            None => {},
        }
        assert(final(self).fields() =~= old(self).fields() + opt_bool_field(key@, value));
    }

    /// Adds a string-map member where `value` is present, nothing where absent.
    pub fn opt_map_field(&mut self, key: &str, value: &Option<Vec<(String, String)>>)
        requires
            old(self).inv(),
        ensures
            final(self).inv(),
            final(self).fields() == old(self).fields() + opt_map_field(key@, *value),
    {
        match value {
            Some(v) => {
                let m = string_map(v);
                self.raw_field(key, m.as_str());
            },
            None => {},
        }
        assert(final(self).fields() =~= old(self).fields() + opt_map_field(key@, *value));
    }

    /// Adds the member `"key":[...]`, the strings of `items` in order.
    pub fn string_array_field(&mut self, key: &str, items: &Vec<String>)
        requires
            old(self).inv(),
        ensures
            final(self).inv(),
            final(self).fields() == old(self).fields().push((key@, string_array_text(items@))),
    {
        let a = string_array(items);
        self.raw_field(key, a.as_str());
    }

    /// Closes the object and hands back its text.
    pub fn finish(self) -> (r: String)
        requires
            self.inv(),
        ensures
            r@ == object_text(self.fields()),
    {
        proof {
            reveal_strlit("}");
        }
        let mut out = self.out;
        out.append("}");
        assert(out@ =~= object_text(self.fields()));
        out
    }
}

/// Encodes `items` as a JSON array of strings.
pub fn string_array(items: &Vec<String>) -> (r: String)
    ensures
        r@ == string_array_text(items@),
{
    proof {
        reveal_strlit("[");
        reveal_strlit("]");
    }
    let mut out = String::from_str("[");
    let mut i: usize = 0;
    assert(items@.subrange(0, 0) =~= Seq::<String>::empty());
    while i < items.len()
        invariant
            i <= items@.len(),
            out@ == seq!['['] + join_comma(string_literals(items@.subrange(0, i as int))),
        decreases items@.len() - i,
    {
        let q = json_quote(items[i].as_str());
        let ghost done = items@.subrange(0, i as int);
        assert(items@.subrange(0, i + 1).drop_last() =~= done);
        let ghost open = seq!['['];
        append_item(&mut out, i == 0, Ghost(open), Ghost(string_literals(done)), q.as_str());
        i = i + 1;
    }
    assert(items@.subrange(0, items@.len() as int) =~= items@);
    out.append("]");
    assert(out@ =~= string_array_text(items@));
    out
}

/// Encodes `pairs` as a JSON object of strings, keys escaped, in order.
pub fn string_map(pairs: &Vec<(String, String)>) -> (r: String)
    ensures
        r@ == string_map_text(pairs@),
{
    proof {
        reveal_strlit("{");
        reveal_strlit("}");
        reveal_strlit(":");
    }
    let mut out = String::from_str("{");
    let mut i: usize = 0;
    assert(pairs@.subrange(0, 0) =~= Seq::<(String, String)>::empty());
    while i < pairs.len()
        invariant
            i <= pairs@.len(),
            out@ == seq!['{'] + join_comma(pair_texts(pairs@.subrange(0, i as int))),
        decreases pairs@.len() - i,
    {
        proof {
            reveal_strlit(":");
        }
        assert(":"@ =~= seq![':']);
        let mut m = json_quote(pairs[i].0.as_str());
        m.append(":");
        let v = json_quote(pairs[i].1.as_str());
        m.append(v.as_str());
        let ghost done = pairs@.subrange(0, i as int);
        assert(pairs@.subrange(0, i + 1).drop_last() =~= done);
        assert(m@ =~= json_string_of(pairs@[i as int].0@) + seq![':'] + json_string_of(pairs@[i as int].1@));
        let ghost open = seq!['{'];
        append_item(&mut out, i == 0, Ghost(open), Ghost(pair_texts(done)), m.as_str());
        i = i + 1;
    }
    assert(pairs@.subrange(0, pairs@.len() as int) =~= pairs@);
    out.append("}");
    assert(out@ =~= string_map_text(pairs@));
    out
}

} // verus!
