//! The schema-less structured value carried as an envelope payload and as a
//! plugin state snapshot.  The coordinator never interprets payloads; each
//! plugin decodes the actions it understands.  The host converts this type to
//! whatever on-disk representation it uses; the core only sees these values.

use vstd::prelude::*;

verus! {

/// A structured, schema-less value: the payload form of every envelope and
/// of every persisted plugin snapshot.
#[derive(Debug)]
pub enum StructValue {
    Null,
    Bool(bool),
    Int(i64),
    Text(String),
    List(Vec<StructValue>),
    Object(Vec<(String, StructValue)>),
}

/// The mathematical model of a `StructValue`.
#[verifier::ext_equal]
pub ghost enum SpecValue {
    Null,
    Bool(bool),
    Int(int),
    Text(Seq<char>),
    List(Seq<SpecValue>),
    Object(Seq<(Seq<char>, SpecValue)>),
}

impl View for StructValue {
    type V = SpecValue;

    open spec fn view(&self) -> SpecValue
        decreases self, 1int, 0int,
    {
        match self {
            StructValue::Null => SpecValue::Null,
            StructValue::Bool(b) => SpecValue::Bool(*b),
            StructValue::Int(i) => SpecValue::Int(*i as int),
            StructValue::Text(s) => SpecValue::Text(s@),
            StructValue::List(items) => {
                proof {
                    assert(decreases_to!(self => self->List_0));
                    assert(decreases_to!(self->List_0 => items@));
                }
                SpecValue::List(seq_view(items@))
            },
            StructValue::Object(fields) => {
                proof {
                    assert(decreases_to!(self => self->Object_0));
                    assert(decreases_to!(self->Object_0 => fields@));
                }
                SpecValue::Object(fields_view(fields@))
            },
        }
    }
}

/// The models of the elements of `items`, in order.
pub open spec fn seq_view(items: Seq<StructValue>) -> Seq<SpecValue>
    decreases items, 0int, items.len() + 1,
{
    seq_view_from(items, 0)
}

/// The models of `items[i..]`, in order.
pub open spec fn seq_view_from(items: Seq<StructValue>, i: int) -> Seq<SpecValue>
    decreases items, 0int, items.len() - i,
{
    if i < 0 || i >= items.len() {
        Seq::empty()
    } else {
        proof {
            assert(decreases_to!(items => items[i]));
        }
        seq![items[i]@] + seq_view_from(items, i + 1)
    }
}

/// The models of the bindings of `fields`, in order.
pub open spec fn fields_view(fields: Seq<(String, StructValue)>) -> Seq<(Seq<char>, SpecValue)>
    decreases fields, 0int, fields.len() + 1,
{
    fields_view_from(fields, 0)
}

/// The models of `fields[i..]`, in order.
pub open spec fn fields_view_from(fields: Seq<(String, StructValue)>, i: int) -> Seq<
    (Seq<char>, SpecValue),
>
    decreases fields, 0int, fields.len() - i,
{
    if i < 0 || i >= fields.len() {
        Seq::empty()
    } else {
        proof {
            assert(decreases_to!(fields => fields[i]));
            assert(decreases_to!(fields[i] => fields[i].1));
        }
        seq![(fields[i].0@, fields[i].1@)] + fields_view_from(fields, i + 1)
    }
}

proof fn lemma_seq_view_from(items: Seq<StructValue>, i: int)
    requires
        0 <= i <= items.len(),
    ensures
        seq_view_from(items, i).len() == items.len() - i,
        forall|k: int|
            0 <= k < items.len() - i ==> seq_view_from(items, i)[k] == items[i + k]@,
    decreases items.len() - i,
{
    if i < items.len() {
        lemma_seq_view_from(items, i + 1);
        let s = seq_view_from(items, i);
        let rest = seq_view_from(items, i + 1);
        assert(s == seq![items[i]@] + rest);
        assert(s.len() == items.len() - i);
        assert forall|k: int| 0 <= k < items.len() - i implies s[k] == items[i + k]@ by {
            if k == 0 {
                assert(s[0] == items[i]@);
            } else {
                assert(s[k] == rest[k - 1]);
            }
        }
    } else {
        assert(seq_view_from(items, i).len() == 0);
    }
}

/// `seq_view` maps each element to its model.
pub broadcast proof fn lemma_seq_view(items: Seq<StructValue>)
    ensures
        (#[trigger] seq_view(items)).len() == items.len(),
        forall|k: int| 0 <= k < items.len() ==> seq_view(items)[k] == items[k]@,
{
    lemma_seq_view_from(items, 0);
}

proof fn lemma_fields_view_from(fields: Seq<(String, StructValue)>, i: int)
    requires
        0 <= i <= fields.len(),
    ensures
        fields_view_from(fields, i).len() == fields.len() - i,
        forall|k: int|
            0 <= k < fields.len() - i ==> fields_view_from(fields, i)[k] == (
            fields[i + k].0@,
            fields[i + k].1@,
            ),
    decreases fields.len() - i,
{
    if i < fields.len() {
        lemma_fields_view_from(fields, i + 1);
        let s = fields_view_from(fields, i);
        let rest = fields_view_from(fields, i + 1);
        assert(s == seq![(fields[i].0@, fields[i].1@)] + rest);
        assert(s.len() == fields.len() - i);
        assert forall|k: int|
            0 <= k < fields.len() - i implies s[k] == (fields[i + k].0@, fields[i + k].1@) by {
            if k == 0 {
                assert(s[0] == (fields[i].0@, fields[i].1@));
            } else {
                assert(s[k] == rest[k - 1]);
            }
        }
    } else {
        assert(fields_view_from(fields, i).len() == 0);
    }
}

/// `fields_view` maps each binding to its model.
pub broadcast proof fn lemma_fields_view(fields: Seq<(String, StructValue)>)
    ensures
        (#[trigger] fields_view(fields)).len() == fields.len(),
        forall|k: int|
            0 <= k < fields.len() ==> fields_view(fields)[k] == (fields[k].0@, fields[k].1@),
{
    lemma_fields_view_from(fields, 0);
}

/// First value bound to `key` among `fields`, if any.
pub open spec fn spec_fields_get(fields: Seq<(Seq<char>, SpecValue)>, key: Seq<char>) -> Option<
    SpecValue,
>
    decreases fields.len(),
{
    if fields.len() == 0 {
        Option::None
    } else if fields[0].0 == key {
        Option::Some(fields[0].1)
    } else {
        spec_fields_get(fields.skip(1), key)
    }
}

/// Value bound to `key` if `v` is an object that has it, else nothing.
pub open spec fn spec_get(v: SpecValue, key: Seq<char>) -> Option<SpecValue> {
    match v {
        SpecValue::Object(fields) => spec_fields_get(fields, key),
        _ => Option::None,
    }
}

/// The model of an optional string.
pub open spec fn opt_text_view(o: Option<String>) -> Option<Seq<char>> {
    match o {
        Option::Some(s) => Option::Some(s@),
        Option::None => Option::None,
    }
}

/// The models of a list of strings, in order.
pub open spec fn texts_view(items: Seq<String>) -> Seq<Seq<char>> {
    Seq::new(items.len(), |i: int| items[i]@)
}

/// String equality, decided on the character sequences.
pub fn str_eq(a: &str, b: &str) -> (r: bool)
    ensures
        r == (a@ == b@),
{
    let sa: String = a.to_owned();
    let sb: String = b.to_owned();
    sa == sb
}

impl StructValue {
    /// Looks up `key` if this value is an object.
    pub fn get<'a>(&'a self, key: &str) -> (r: Option<&'a StructValue>)
        ensures
            match r {
                Option::Some(v) => spec_get(self@, key@) == Option::Some(v@),
                Option::None => spec_get(self@, key@) is None,
            },
    {
        match self {
            StructValue::Object(fields) => {
                proof {
                    lemma_fields_view(fields@);
                }
                let n = fields.len();
                let mut i: usize = 0;
                while i < n
                    invariant
                        n == fields@.len(),
                        i <= n,
                        forall|k: int|
                            0 <= k < i ==> #[trigger] fields_view(fields@)[k].0 != key@,
                        self@ == SpecValue::Object(fields_view(fields@)),
                        fields_view(fields@).len() == fields@.len(),
                        forall|k: int|
                            0 <= k < fields@.len() ==> #[trigger] fields_view(fields@)[k] == (
                            fields@[k].0@,
                            fields@[k].1@,
                            ),
                    decreases n - i,
                {
                    if str_eq(fields[i].0.as_str(), key) {
                        proof {
                            lemma_fields_get_found(fields_view(fields@), key@, i as int);
                        }
                        return Option::Some(&fields[i].1);
                    }
                    i = i + 1;
                }
                proof {
                    lemma_fields_get_missing(fields_view(fields@), key@);
                }
                Option::None
            },
            _ => Option::None,
        }
    }

    /// The text bound to `key`, if this value is an object that binds `key`
    /// to text.
    pub fn get_text<'a>(&'a self, key: &str) -> (r: Option<&'a String>)
        ensures
            match r {
                Option::Some(s) => spec_get(self@, key@) == Option::Some(SpecValue::Text(s@)),
                Option::None => !(spec_get(self@, key@) matches Option::Some(
                    SpecValue::Text(_),
                )),
            },
    {
        match self.get(key) {
            Option::Some(v) => v.as_text(),
            Option::None => Option::None,
        }
    }

    /// The text content, if this value is text.
    pub fn as_text<'a>(&'a self) -> (r: Option<&'a String>)
        ensures
            match r {
                Option::Some(s) => self@ == SpecValue::Text(s@),
                Option::None => !(self@ is Text),
            },
    {
        match self {
            StructValue::Text(s) => Option::Some(s),
            _ => Option::None,
        }
    }

    /// The integer content, if this value is an integer.
    pub fn as_int(&self) -> (r: Option<i64>)
        ensures
            match r {
                Option::Some(i) => self@ == SpecValue::Int(i as int),
                Option::None => !(self@ is Int),
            },
    {
        match self {
            StructValue::Int(i) => Option::Some(*i),
            _ => Option::None,
        }
    }

    /// The boolean content, if this value is a boolean.
    pub fn as_bool(&self) -> (r: Option<bool>)
        ensures
            match r {
                Option::Some(b) => self@ == SpecValue::Bool(b),
                Option::None => !(self@ is Bool),
            },
    {
        match self {
            StructValue::Bool(b) => Option::Some(*b),
            _ => Option::None,
        }
    }

    /// The element list, if this value is a list.
    pub fn as_list<'a>(&'a self) -> (r: Option<&'a Vec<StructValue>>)
        ensures
            match r {
                Option::Some(items) => self@ == SpecValue::List(seq_view(items@)),
                Option::None => !(self@ is List),
            },
    {
        match self {
            StructValue::List(items) => Option::Some(items),
            _ => Option::None,
        }
    }

    /// The field list, if this value is an object.
    pub fn as_object<'a>(&'a self) -> (r: Option<&'a Vec<(String, StructValue)>>)
        ensures
            match r {
                Option::Some(fields) => self@ == SpecValue::Object(fields_view(fields@)),
                Option::None => !(self@ is Object),
            },
    {
        match self {
            StructValue::Object(fields) => Option::Some(fields),
            _ => Option::None,
        }
    }

    /// A text value built from a string slice.
    pub fn text(s: &str) -> (r: StructValue)
        ensures
            r@ == SpecValue::Text(s@),
    {
        StructValue::Text(s.to_owned())
    }

    /// Structural equality of two values, decided on their models.
    pub fn same_as(&self, other: &StructValue) -> (r: bool)
        ensures
            r == (self@ == other@),
        decreases self,
    {
        match (self, other) {
            (StructValue::Null, StructValue::Null) => true,
            (StructValue::Bool(a), StructValue::Bool(b)) => a == b,
            (StructValue::Int(a), StructValue::Int(b)) => a == b,
            (StructValue::Text(a), StructValue::Text(b)) => str_eq(a.as_str(), b.as_str()),
            (StructValue::List(a), StructValue::List(b)) => {
                proof {
                    lemma_seq_view(a@);
                    lemma_seq_view(b@);
                }
                if a.len() != b.len() {
                    return false;
                }
                let n = a.len();
                let mut i: usize = 0;
                while i < n
                    invariant
                        n == a@.len(),
                        n == b@.len(),
                        i <= n,
                        self == StructValue::List(*a),
                        other == StructValue::List(*b),
                        forall|k: int| 0 <= k < i ==> #[trigger] a@[k]@ == b@[k]@,
                        seq_view(a@).len() == n,
                        seq_view(b@).len() == n,
                        forall|k: int| 0 <= k < n ==> #[trigger] seq_view(a@)[k] == a@[k]@,
                        forall|k: int| 0 <= k < n ==> #[trigger] seq_view(b@)[k] == b@[k]@,
                    decreases n - i,
                {
                    proof {
                        assert(decreases_to!(self => self->List_0));
                        vstd::std_specs::vec::axiom_vec_index_decreases(*a, i as int);
                    }
                    if !a[i].same_as(&b[i]) {
                        proof {
                            assert(seq_view(a@)[i as int] != seq_view(b@)[i as int]);
                        }
                        return false;
                    }
                    i = i + 1;
                }
                proof {
                    assert(seq_view(a@) =~= seq_view(b@));
                }
                true
            },
            (StructValue::Object(a), StructValue::Object(b)) => {
                proof {
                    lemma_fields_view(a@);
                    lemma_fields_view(b@);
                }
                if a.len() != b.len() {
                    return false;
                }
                let n = a.len();
                let mut i: usize = 0;
                while i < n
                    invariant
                        n == a@.len(),
                        n == b@.len(),
                        i <= n,
                        self == StructValue::Object(*a),
                        other == StructValue::Object(*b),
                        forall|k: int|
                            0 <= k < i ==> ((#[trigger] a@[k]).0@ == b@[k].0@ && a@[k].1@
                                == b@[k].1@),
                        fields_view(a@).len() == n,
                        fields_view(b@).len() == n,
                        forall|k: int|
                            0 <= k < n ==> #[trigger] fields_view(a@)[k] == (a@[k].0@, a@[k].1@),
                        forall|k: int|
                            0 <= k < n ==> #[trigger] fields_view(b@)[k] == (b@[k].0@, b@[k].1@),
                    decreases n - i,
                {
                    proof {
                        assert(decreases_to!(self => self->Object_0));
                        vstd::std_specs::vec::axiom_vec_index_decreases(*a, i as int);
                        assert(decreases_to!(a@[i as int] => a@[i as int].1));
                    }
                    if !str_eq(a[i].0.as_str(), b[i].0.as_str()) {
                        proof {
                            assert(fields_view(a@)[i as int] != fields_view(b@)[i as int]);
                        }
                        return false;
                    }
                    if !a[i].1.same_as(&b[i].1) {
                        proof {
                            assert(fields_view(a@)[i as int] != fields_view(b@)[i as int]);
                        }
                        return false;
                    }
                    i = i + 1;
                }
                proof {
                    assert(fields_view(a@) =~= fields_view(b@));
                }
                true
            },
            _ => false,
        }
    }

    /// A structurally equal copy of this value.
    pub fn duplicate(&self) -> (r: Self)
        ensures
            r@ == self@,
        decreases self,
    {
        match self {
            StructValue::Null => StructValue::Null,
            StructValue::Bool(b) => StructValue::Bool(*b),
            StructValue::Int(i) => StructValue::Int(*i),
            StructValue::Text(s) => StructValue::Text(s.clone()),
            StructValue::List(items) => {
                let n = items.len();
                let mut out: Vec<StructValue> = Vec::new();
                let mut i: usize = 0;
                while i < n
                    invariant
                        n == items@.len(),
                        i <= n,
                        out@.len() == i,
                        forall|k: int| 0 <= k < i ==> #[trigger] out@[k]@ == items@[k]@,
                        self == StructValue::List(*items),
                    decreases n - i,
                {
                    proof {
                        assert(decreases_to!(self => self->List_0));
                        vstd::std_specs::vec::axiom_vec_index_decreases(*items, i as int);
                    }
                    let copy = items[i].duplicate();
                    out.push(copy);
                    i = i + 1;
                }
                let r = StructValue::List(out);
                proof {
                    lemma_seq_view(out@);
                    lemma_seq_view(items@);
                    assert(r@->List_0 =~= self@->List_0);
                }
                r
            },
            StructValue::Object(fields) => {
                let n = fields.len();
                let mut out: Vec<(String, StructValue)> = Vec::new();
                let mut i: usize = 0;
                while i < n
                    invariant
                        n == fields@.len(),
                        i <= n,
                        out@.len() == i,
                        forall|k: int|
                            0 <= k < i ==> #[trigger] out@[k].0@ == fields@[k].0@ && out@[k].1@
                                == fields@[k].1@,
                        self == StructValue::Object(*fields),
                    decreases n - i,
                {
                    proof {
                        assert(decreases_to!(self => self->Object_0));
                        vstd::std_specs::vec::axiom_vec_index_decreases(*fields, i as int);
                        assert(decreases_to!(fields@[i as int] => fields@[i as int].1));
                    }
                    let key = fields[i].0.clone();
                    let copy = fields[i].1.duplicate();
                    out.push((key, copy));
                    i = i + 1;
                }
                let r = StructValue::Object(out);
                proof {
                    lemma_fields_view(out@);
                    lemma_fields_view(fields@);
                    assert(r@->Object_0 =~= self@->Object_0);
                }
                r
            },
        }
    }
}

/// If `fields[i]` is the first binding of `key`, the lookup returns its value.
pub proof fn lemma_fields_get_found(fields: Seq<(Seq<char>, SpecValue)>, key: Seq<char>, i: int)
    requires
        0 <= i < fields.len(),
        fields[i].0 == key,
        forall|k: int| 0 <= k < i ==> #[trigger] fields[k].0 != key,
    ensures
        spec_fields_get(fields, key) == Option::Some(fields[i].1),
    decreases i,
{
    if i > 0 {
        lemma_fields_get_found(fields.skip(1), key, i - 1);
    }
}

/// If no binding of `key` exists, the lookup returns nothing.
pub proof fn lemma_fields_get_missing(fields: Seq<(Seq<char>, SpecValue)>, key: Seq<char>)
    requires
        forall|k: int| 0 <= k < fields.len() ==> #[trigger] fields[k].0 != key,
    ensures
        spec_fields_get(fields, key) is None,
    decreases fields.len(),
{
    if fields.len() > 0 {
        lemma_fields_get_missing(fields.skip(1), key);
    }
}

} // verus!
