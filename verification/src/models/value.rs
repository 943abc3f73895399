//! Free-form metadata values, as they come out of a front-matter block or a
//! configuration file.

use vstd::prelude::*;

verus! {

/// A number of a metadata block.
#[derive(Clone, Copy, Debug, PartialEq, Eq)]
pub enum Number {
    /// A signed integer.
    Integer(i64),
    /// An integer above the signed range.
    Unsigned(u64),
    /// A real number, kept as its IEEE-754 bit pattern.
    Real(u64),
}

/// A value of a metadata block.
///
/// Mappings are keyed by text and hold their entries as a list; where a key
/// stands twice the first binding counts. The order of the entries is that
/// in which the mapping was built: the metadata of a front-matter block comes
/// out of a hash and has no fixed order.
#[derive(Debug)]
pub enum Value {
    Null,
    Bool(bool),
    Number(Number),
    String(String),
    Sequence(Vec<Value>),
    Mapping(Vec<(String, Value)>),
}

/// The first value bound to `key` in an association list, if any.
pub open spec fn lookup(entries: Seq<(String, Value)>, key: Seq<char>) -> Option<Value>
    decreases entries.len(),
{
    if entries.len() == 0 {
        None
    } else if entries[0].0@ == key {
        Some(entries[0].1)
    } else {
        lookup(entries.skip(1), key)
    }
}

/// Looks `key` up in an association list; the first binding wins.
pub fn find<'a>(entries: &'a Vec<(String, Value)>, key: &str) -> (r: Option<&'a Value>)
    ensures
        match r {
            Some(v) => lookup(entries@, key@) == Some(*v),
            None => lookup(entries@, key@).is_none(),
        },
{
    let mut i: usize = 0;
    assert(entries@.skip(0) == entries@);
    while i < entries.len()
        invariant
            i <= entries.len(),
            lookup(entries@, key@) == lookup(entries@.skip(i as int), key@),
        decreases entries.len() - i,
    {
        let ghost rest = entries@.skip(i as int);
        assert(rest[0] == entries@[i as int]);
        assert(rest.skip(1) == entries@.skip(i + 1));
        if crate::text::same_text(entries[i].0.as_str(), key) {
            return Some(&entries[i].1);
        }
        i = i + 1;
    }
    None
}

impl Value {
    /// Whether two values hold the same content: the same shape, with the
    /// same scalars and texts at the same places.
    pub open spec fn alike(self, other: Value) -> bool
        decreases self,
    {
        match (self, other) {
            (Value::Null, Value::Null) => true,
            (Value::Bool(a), Value::Bool(b)) => a == b,
            (Value::Number(a), Value::Number(b)) => a == b,
            (Value::String(a), Value::String(b)) => a@ == b@,
            (Value::Sequence(a), Value::Sequence(b)) => a@.len() == b@.len() && (forall|i: int|
                0 <= i < a@.len() ==> (#[trigger] a@[i]).alike(b@[i])),
            (Value::Mapping(a), Value::Mapping(b)) => a@.len() == b@.len() && (forall|i: int|
                0 <= i < a@.len() ==> (#[trigger] a@[i]).0@ == b@[i].0@ && a@[i].1.alike(
                    b@[i].1,
                )),
            _ => false,
        }
    }
}

/// What a value holds, as a plain value: texts as sequences of characters,
/// lists as sequences, and mappings as maps from key to value, so that the
/// order of the entries of a mapping does not show.
pub enum Plain {
    Null,
    Bool(bool),
    Number(Number),
    Text(Seq<char>),
    List(Seq<Plain>),
    Table(Map<Seq<char>, Plain>),
}

/// The position of the first entry that binds `key`, or `-1` where there is
/// none.
pub open spec fn first_binding(entries: Seq<(String, Value)>, key: Seq<char>) -> int
    decreases entries.len(),
{
    if entries.len() == 0 {
        -1
    } else if entries[0].0@ == key {
        0
    } else {
        let rest = first_binding(entries.skip(1), key);
        if rest < 0 {
            -1
        } else {
            rest + 1
        }
    }
}

/// `lookup` finds what the first binding binds.
pub proof fn lemma_first_binding(entries: Seq<(String, Value)>, key: Seq<char>)
    ensures
        -1 <= first_binding(entries, key) < entries.len(),
        first_binding(entries, key) >= 0 ==> entries[first_binding(entries, key)].0@ == key
            && lookup(entries, key) == Some(entries[first_binding(entries, key)].1),
        first_binding(entries, key) < 0 ==> lookup(entries, key) is None,
    decreases entries.len(),
{
    if entries.len() > 0 && entries[0].0@ != key {
        let rest = entries.skip(1);
        lemma_first_binding(rest, key);
        if first_binding(rest, key) >= 0 {
            assert(rest[first_binding(rest, key)] == entries[first_binding(rest, key) + 1]);
        }
    }
}

impl Value {
    /// What the value holds, as a plain value. In a mapping the first
    /// binding of a key is the one that counts.
    pub open spec fn plain(self) -> Plain
        decreases self,
    {
        match self {
            Value::Null => Plain::Null,
            Value::Bool(b) => Plain::Bool(b),
            Value::Number(n) => Plain::Number(n),
            Value::String(s) => Plain::Text(s@),
            Value::Sequence(items) => Plain::List(
                Seq::new(
                    items@.len(),
                    |i: int|
                        if 0 <= i < items@.len() {
                            items@[i].plain()
                        } else {
                            Plain::Null
                        },
                ),
            ),
            Value::Mapping(entries) => Plain::Table(
                Map::new(
                    |key: Seq<char>| first_binding(entries@, key) >= 0,
                    |key: Seq<char>|
                        {
                            let i = first_binding(entries@, key);
                            if 0 <= i < entries@.len() {
                                entries@[i].1.plain()
                            } else {
                                Plain::Null
                            }
                        },
                ),
            ),
        }
    }
}

/// What a mapping binds to a key, read off its plain value: the plain value
/// of what `lookup` finds.
pub proof fn lemma_plain_lookup(entries: Vec<(String, Value)>, key: Seq<char>)
    ensures
        Value::Mapping(entries).plain() matches Plain::Table(table) && (match lookup(
            entries@,
            key,
        ) {
            Some(value) => table.contains_key(key) && table[key] == value.plain(),
            None => !table.contains_key(key),
        }),
{
    lemma_first_binding(entries@, key);
}

/// Whether two association lists hold the same entries: the same keys with
/// values of the same content, in the same order.
pub open spec fn entries_alike(a: Seq<(String, Value)>, b: Seq<(String, Value)>) -> bool {
    a.len() == b.len() && (forall|i: int|
        0 <= i < a.len() ==> (#[trigger] a[i]).0@ == b[i].0@ && a[i].1.alike(b[i].1))
}

/// A deep copy of an association list.
pub fn copy_entries(entries: &Vec<(String, Value)>) -> (r: Vec<(String, Value)>)
    ensures
        entries_alike(entries@, r@),
{
    let mut out: Vec<(String, Value)> = Vec::new();
    let mut i: usize = 0;
    while i < entries.len()
        invariant
            i <= entries.len(),
            out@.len() == i,
            forall|k: int|
                0 <= k < i ==> (#[trigger] entries@[k]).0@ == out@[k].0@ && entries@[k].1.alike(
                    out@[k].1,
                ),
        decreases entries.len() - i,
    {
        out.push((entries[i].0.clone(), entries[i].1.duplicate()));
        i = i + 1;
    }
    out
}

impl Clone for Value {
    fn clone(&self) -> (r: Self)
        ensures
            self.alike(r),
    {
        self.duplicate()
    }
}

impl Value {
    /// A deep copy of the value.
    pub fn duplicate(&self) -> (r: Value)
        ensures
            self.alike(r),
        decreases self,
    {
        match self {
            Value::Null => Value::Null,
            Value::Bool(b) => Value::Bool(*b),
            Value::Number(n) => Value::Number(*n),
            Value::String(s) => Value::String(s.clone()),
            Value::Sequence(items) => {
                let mut out: Vec<Value> = Vec::new();
                let mut i: usize = 0;
                while i < items.len()
                    invariant
                        i <= items.len(),
                        self is Sequence,
                        self->Sequence_0 == *items,
                        out@.len() == i,
                        forall|k: int| 0 <= k < i ==> (#[trigger] items@[k]).alike(out@[k]),
                    decreases items.len() - i,
                {
                    let item = &items[i];
                    assert(decreases_to!(*self => *item)) by {
                        assert(decreases_to!(*self => items@[i as int]));
                    }
                    out.push(item.duplicate());
                    i = i + 1;
                }
                Value::Sequence(out)
            },
            Value::Mapping(entries) => {
                let mut out: Vec<(String, Value)> = Vec::new();
                let mut i: usize = 0;
                while i < entries.len()
                    invariant
                        i <= entries.len(),
                        self is Mapping,
                        self->Mapping_0 == *entries,
                        out@.len() == i,
                        forall|k: int|
                            0 <= k < i ==> (#[trigger] entries@[k]).0@ == out@[k].0@
                                && entries@[k].1.alike(out@[k].1),
                    decreases entries.len() - i,
                {
                    let entry = &entries[i];
                    assert(decreases_to!(*self => entry.1)) by {
                        assert(decreases_to!(*self => entries@[i as int]));
                    }
                    out.push((entry.0.clone(), entry.1.duplicate()));
                    i = i + 1;
                }
                Value::Mapping(out)
            },
        }
    }

    /// The text of a `String` value.
    pub fn as_str(&self) -> (r: Option<&str>)
        ensures
            match r {
                Some(s) => *self matches Value::String(t) && t@ == s@,
                None => !(*self is String),
            },
    {
        match self {
            Value::String(s) => Some(s.as_str()),
            _ => None,
        }
    }

    /// The value bound to `key` when `self` is a mapping.
    pub fn get(&self, key: &str) -> (r: Option<&Value>)
        ensures
            match r {
                Some(v) => *self matches Value::Mapping(m) && lookup(m@, key@) == Some(*v),
                None => *self matches Value::Mapping(m) ==> lookup(m@, key@).is_none(),
            },
    {
        match self {
            Value::Mapping(entries) => find(entries, key),
            _ => None,
        }
    }
}

/// The text bound to `key` in a mapping, if `value` is a mapping that binds
/// `key` to a text.
pub open spec fn text_at(value: Value, key: Seq<char>) -> Option<Seq<char>> {
    match value {
        Value::Mapping(entries) => match lookup(entries@, key) {
            Some(Value::String(s)) => Some(s@),
            _ => None,
        },
        _ => None,
    }
}

/// The flag bound to `key` in a mapping, if `value` is a mapping that binds
/// `key` to a flag.
pub open spec fn flag_at(value: Value, key: Seq<char>) -> Option<bool> {
    match value {
        Value::Mapping(entries) => match lookup(entries@, key) {
            Some(Value::Bool(b)) => Some(b),
            _ => None,
        },
        _ => None,
    }
}

/// The value bound to `key` in a mapping.
pub open spec fn value_at(value: Value, key: Seq<char>) -> Option<Value> {
    match value {
        Value::Mapping(entries) => lookup(entries@, key),
        _ => None,
    }
}

/// Reads the text bound to `key`.
pub fn read_text(value: &Value, key: &str) -> (r: Option<String>)
    ensures
        match r {
            Some(s) => text_at(*value, key@) == Some(s@),
            None => text_at(*value, key@).is_none(),
        },
{
    match value {
        Value::Mapping(entries) => match find(entries, key) {
            Some(Value::String(s)) => Some(s.clone()),
            _ => None,
        },
        _ => None,
    }
}

/// Reads the flag bound to `key`.
pub fn read_flag(value: &Value, key: &str) -> (r: Option<bool>)
    ensures
        r == flag_at(*value, key@),
{
    match value {
        Value::Mapping(entries) => match find(entries, key) {
            Some(Value::Bool(b)) => Some(*b),
            _ => None,
        },
        _ => None,
    }
}

/// Reads the value bound to `key`.
pub fn read_value<'a>(value: &'a Value, key: &str) -> (r: Option<&'a Value>)
    ensures
        match r {
            Some(v) => value_at(*value, key@) == Some(*v),
            None => value_at(*value, key@).is_none(),
        },
{
    match value {
        Value::Mapping(entries) => find(entries, key),
        _ => None,
    }
}

} // verus!
