//! JSON values: what a request carries and what a reply holds.

use vstd::prelude::*;

verus! {

/// The mathematical model of a JSON value.
pub enum Json {
    Null,
    Bool(bool),
    Int(u64),
    Str(Seq<char>),
    List(Seq<Json>),
    Object(Map<Seq<char>, Json>),
}

/// The mathematical model of the value in a reply: an object is told apart from any other value.
pub enum Reply {
    Object(Map<Seq<char>, Json>),
    Single(Json),
}

/// A JSON value.
#[derive(Debug)]
pub enum ParamsValue {
    /// A string
    String(String),
    /// A number without sign
    Int(u64),
    /// An array
    List(Vec<ParamsValue>),
    /// A truth value
    Bool(bool),
    /// An object
    Object(JsonObject),
    /// `null`
    Null,
}

/// A JSON object. No key occurs twice.
#[derive(Debug)]
pub struct JsonObject {
    entries: Vec<(String, ParamsValue)>,
}

/// The value in a reply.
#[derive(Debug)]
pub enum ResponseValue {
    /// An object
    Object(JsonObject),
    /// Any other value
    Singe(ParamsValue),
}

/// The model of each value of a list.
pub open spec fn json_list(items: Seq<ParamsValue>) -> Seq<Json>
    decreases items,
{
    Seq::new(
        items.len(),
        |i: int|
            if 0 <= i < items.len() {
                json(items[i])
            } else {
                Json::Null
            },
    )
}

/// The map that a row of entries stands for.
pub open spec fn json_map(entries: Seq<(String, ParamsValue)>) -> Map<Seq<char>, Json>
    decreases entries,
{
    if entries.len() == 0 {
        Map::empty()
    } else {
        json_map(entries.drop_last()).insert(entries.last().0@, json(entries.last().1))
    }
}

/// The model of a value.
pub open spec fn json(value: ParamsValue) -> Json
    decreases value,
{
    match value {
        ParamsValue::String(text) => Json::Str(text@),
        ParamsValue::Int(number) => Json::Int(number),
        ParamsValue::List(items) => Json::List(json_list(items@)),
        ParamsValue::Bool(flag) => Json::Bool(flag),
        ParamsValue::Object(object) => Json::Object(object.members()),
        ParamsValue::Null => Json::Null,
    }
}

/// No two entries have the same key.
pub open spec fn distinct_keys(entries: Seq<(String, ParamsValue)>) -> bool {
    forall|i: int, j: int|
        0 <= i < j < entries.len() ==> #[trigger] entries[i].0@ != #[trigger] entries[j].0@
}

impl View for ParamsValue {
    type V = Json;

    open spec fn view(&self) -> Json {
        json(*self)
    }
}

impl View for JsonObject {
    type V = Map<Seq<char>, Json>;

    open spec fn view(&self) -> Map<Seq<char>, Json> {
        self.members()
    }
}

impl View for ResponseValue {
    type V = Reply;

    open spec fn view(&self) -> Reply {
        match self {
            ResponseValue::Object(object) => Reply::Object(object@),
            ResponseValue::Singe(value) => Reply::Single(value@),
        }
    }
}

/// A key is in the map exactly where some entry has it.
pub(crate) proof fn lemma_json_map_domain(entries: Seq<(String, ParamsValue)>, key: Seq<char>)
    ensures
        json_map(entries).contains_key(key) <==> exists|i: int|
            0 <= i < entries.len() && #[trigger] entries[i].0@ == key,
    decreases entries.len(),
{
    if entries.len() > 0 {
        let front = entries.drop_last();
        lemma_json_map_domain(front, key);
        if json_map(front).contains_key(key) {
            let i = choose|i: int| 0 <= i < front.len() && #[trigger] front[i].0@ == key;
            assert(entries[i].0@ == key);
        }
        if entries.last().0@ == key {
            assert(entries[entries.len() - 1].0@ == key);
        }
        if exists|i: int| 0 <= i < entries.len() && #[trigger] entries[i].0@ == key {
            let i = choose|i: int| 0 <= i < entries.len() && #[trigger] entries[i].0@ == key;
            if i < front.len() {
                assert(front[i].0@ == key);
            }
        }
    }
}

/// With distinct keys, the map takes the key of each entry to the value of that entry.
pub(crate) proof fn lemma_json_map_index(entries: Seq<(String, ParamsValue)>, i: int)
    requires
        distinct_keys(entries),
        0 <= i < entries.len(),
    ensures
        json_map(entries).contains_key(entries[i].0@),
        json_map(entries)[entries[i].0@] == entries[i].1@,
    decreases entries.len(),
{
    let front = entries.drop_last();
    if i < front.len() {
        assert(distinct_keys(front)) by {
            assert forall|a: int, b: int| 0 <= a < b < front.len() implies #[trigger] front[a].0@
                != #[trigger] front[b].0@ by {
                assert(entries[a].0@ != entries[b].0@);
            }
        }
        lemma_json_map_index(front, i);
        assert(front[i] == entries[i]);
        assert(entries[i].0@ != entries[entries.len() - 1].0@);
    }
}

/// Giving the entry with some key another value inserts into the map.
proof fn lemma_json_map_update(entries: Seq<(String, ParamsValue)>, i: int, entry: (String, ParamsValue))
    requires
        distinct_keys(entries),
        0 <= i < entries.len(),
        entries[i].0@ == entry.0@,
    ensures
        json_map(entries.update(i, entry)) == json_map(entries).insert(entry.0@, entry.1@),
    decreases entries.len(),
{
    let front = entries.drop_last();
    let updated = entries.update(i, entry);
    if i == front.len() {
        assert(updated.drop_last() =~= front);
        assert(json_map(updated) =~= json_map(entries).insert(entry.0@, entry.1@));
    } else {
        assert(distinct_keys(front)) by {
            assert forall|a: int, b: int| 0 <= a < b < front.len() implies #[trigger] front[a].0@
                != #[trigger] front[b].0@ by {
                assert(entries[a].0@ != entries[b].0@);
            }
        }
        lemma_json_map_update(front, i, entry);
        assert(updated.drop_last() =~= front.update(i, entry));
        assert(updated.last() == entries.last());
        assert(entries[i].0@ != entries[entries.len() - 1].0@);
        assert(json_map(updated) =~= json_map(entries).insert(entry.0@, entry.1@));
    }
}

impl JsonObject {
    /// The map that the object stands for.
    pub closed spec fn members(self) -> Map<Seq<char>, Json>
        decreases self,
    {
        json_map(self.entries@)
    }

    #[verifier::type_invariant]
    spec fn well_formed(self) -> bool {
        distinct_keys(self.entries@)
    }

    /// The object without members.
    pub fn new() -> (res: JsonObject)
        ensures
            res@ == Map::<Seq<char>, Json>::empty(),
    {
        JsonObject { entries: Vec::new() }
    }

    /// The position of a key among the entries.
    fn position(&self, key: &String) -> (res: Option<usize>)
        ensures
            match res {
                Some(i) => i < self.entries@.len() && self.entries@[i as int].0@ == key@,
                None => forall|i: int| 0 <= i < self.entries@.len() ==> #[trigger] self.entries@[i].0@ != key@,
            },
    {
        let n: usize = self.entries.len();
        let mut i: usize = 0;
        while i < n
            invariant
                n == self.entries@.len(),
                i <= n,
                forall|j: int| 0 <= j < i ==> #[trigger] self.entries@[j].0@ != key@,
            decreases n - i,
        {
            if self.entries[i].0 == *key {
                return Some(i);
            }
            i = i + 1;
        }
        None
    }

    /// Gives `key` the value `value`, in place of the value that it had.
    pub fn insert(self, key: &str, value: ParamsValue) -> (res: JsonObject)
        ensures
            res@ == self@.insert(key@, value@),
    {
        proof {
            use_type_invariant(&self);
        }
        let key: String = key.to_string();
        let found = self.position(&key);
        let mut entries = self.entries;
        let ghost before = entries@;
        match found {
            Some(i) => {
                proof {
                    lemma_json_map_update(before, i as int, (key, value));
                }
                entries.set(i, (key, value));
            },
            None => {
                entries.push((key, value));
                assert(entries@.drop_last() =~= before);
            },
        }
        JsonObject { entries }
    }

    /// The value that `key` has.
    pub fn get(&self, key: &str) -> (res: Option<&ParamsValue>)
        ensures
            match res {
                Some(value) => self@.contains_key(key@) && self@[key@] == value@,
                None => !self@.contains_key(key@),
            },
    {
        proof {
            use_type_invariant(self);
            lemma_json_map_domain(self.entries@, key@);
        }
        match self.position(&key.to_string()) {
            Some(i) => {
                proof {
                    lemma_json_map_index(self.entries@, i as int);
                }
                Some(&self.entries[i].1)
            },
            None => None,
        }
    }

    /// The members as pairs of key and value.
    pub fn entries(&self) -> (res: &Vec<(String, ParamsValue)>)
        ensures
            distinct_keys(res@),
            json_map(res@) == self@,
    {
        proof {
            use_type_invariant(self);
        }
        &self.entries
    }
}

impl Clone for ParamsValue {
    fn clone(&self) -> (res: Self)
        ensures
            res@ == self@,
        decreases self,
    {
        match self {
            ParamsValue::String(text) => ParamsValue::String(text.clone()),
            ParamsValue::Int(number) => ParamsValue::Int(*number),
            ParamsValue::List(items) => {
                let mut copies: Vec<ParamsValue> = Vec::new();
                let n: usize = items.len();
                let mut i: usize = 0;
                while i < n
                    invariant
                        *self == ParamsValue::List(*items),
                        n == items@.len(),
                        i <= n,
                        copies@.len() == i,
                        forall|j: int| 0 <= j < i ==> (#[trigger] copies@[j])@ == items@[j]@,
                    decreases n - i,
                {
                    assert(decreases_to!(self => self->List_0@[i as int]));
                    copies.push(items[i].clone());
                    i = i + 1;
                }
                assert(json_list(copies@) =~= json_list(items@)) by {
                    assert forall|j: int| 0 <= j < n implies json_list(copies@)[j] == json_list(items@)[j] by {
                        assert(copies@[j]@ == items@[j]@);
                    }
                }
                ParamsValue::List(copies)
            },
            ParamsValue::Bool(flag) => ParamsValue::Bool(*flag),
            ParamsValue::Object(object) => ParamsValue::Object(object.clone()),
            ParamsValue::Null => ParamsValue::Null,
        }
    }
}

impl Clone for JsonObject {
    fn clone(&self) -> (res: Self)
        ensures
            res@ == self@,
        decreases self,
    {
        proof {
            use_type_invariant(self);
        }
        let mut copies: Vec<(String, ParamsValue)> = Vec::new();
        let n: usize = self.entries.len();
        let mut i: usize = 0;
        while i < n
            invariant
                n == self.entries@.len(),
                i <= n,
                copies@.len() == i,
                forall|j: int| 0 <= j < i ==> (#[trigger] copies@[j]).0@ == self.entries@[j].0@,
                json_map(copies@) == json_map(self.entries@.take(i as int)),
            decreases n - i,
        {
            let ghost before = copies@;
            assert(decreases_to!(self => self.entries@[i as int].1));
            copies.push((self.entries[i].0.clone(), self.entries[i].1.clone()));
            assert(copies@.drop_last() =~= before);
            assert(self.entries@.take(i + 1).drop_last() =~= self.entries@.take(i as int));
            i = i + 1;
        }
        assert(self.entries@.take(n as int) =~= self.entries@);
        assert(distinct_keys(copies@)) by {
            assert forall|a: int, b: int| 0 <= a < b < copies@.len() implies #[trigger] copies@[a].0@
                != #[trigger] copies@[b].0@ by {
                assert(self.entries@[a].0@ != self.entries@[b].0@);
            }
        }
        JsonObject { entries: copies }
    }
}

}
