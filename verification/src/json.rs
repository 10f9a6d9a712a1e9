//! JSON trees: the values that travel inside JSON-RPC envelopes.

use vstd::prelude::*;

verus! {

/// A JSON number.
///
/// Integers are held exactly. A number with a fraction or an exponent is held
/// as the bit pattern of its double, so that it can be handed on unchanged.
#[derive(Debug, Clone, Copy, PartialEq)]
pub enum JsonNumber {
    PosInt(u64),
    NegInt(i64),
    Float(u64),
}

/// The mathematical model of a [`JsonNumber`].
pub enum NumberV {
    Int(int),
    Float(u64),
}

impl View for JsonNumber {
    type V = NumberV;

    open spec fn view(&self) -> NumberV {
        match self {
            JsonNumber::PosInt(u) => NumberV::Int(*u as int),
            JsonNumber::NegInt(i) => NumberV::Int(*i as int),
            JsonNumber::Float(bits) => NumberV::Float(*bits),
        }
    }
}

/// A JSON value.
///
/// An object is a list of members in the order they were added. Where a key
/// occurs more than once the last occurrence is the one that counts.
#[derive(Debug, PartialEq)]
pub enum Json {
    Null,
    Bool(bool),
    Number(JsonNumber),
    String(String),
    Array(Vec<Json>),
    Object(Vec<(String, Json)>),
}

/// The mathematical model of a [`Json`] value.
pub enum JsonV {
    Null,
    Bool(bool),
    Number(NumberV),
    String(Seq<char>),
    Array(Seq<JsonV>),
    Object(Seq<(Seq<char>, JsonV)>),
}

/// The value that a member list gives to `key`: that of the last member
/// with this key.
pub open spec fn member_of(members: Seq<(Seq<char>, JsonV)>, key: Seq<char>) -> Option<JsonV>
    decreases members.len(),
{
    if members.len() == 0 {
        None
    } else if members.last().0 == key {
        Some(members.last().1)
    } else {
        member_of(members.drop_last(), key)
    }
}

/// A member added at the end decides its own key and leaves the others as
/// they were.
pub proof fn lemma_member_of_push(
    members: Seq<(Seq<char>, JsonV)>,
    key: Seq<char>,
    value: JsonV,
    wanted: Seq<char>,
)
    ensures
        member_of(members.push((key, value)), wanted) == if key == wanted {
            Some(value)
        } else {
            member_of(members, wanted)
        },
{
    assert(members.push((key, value)).drop_last() =~= members);
}

impl JsonV {
    /// The member `key` of an object; `None` for a missing key and for
    /// anything that is not an object.
    pub open spec fn get(self, key: Seq<char>) -> Option<JsonV> {
        match self {
            JsonV::Object(members) => member_of(members, key),
            _ => None,
        }
    }

    /// The text of a string value; `None` for anything else.
    pub open spec fn as_str(self) -> Option<Seq<char>> {
        match self {
            JsonV::String(s) => Some(s),
            _ => None,
        }
    }

    /// The item at position `i` of an array; `None` for a position outside
    /// the array and for anything that is not an array.
    pub open spec fn at(self, i: int) -> Option<JsonV> {
        match self {
            JsonV::Array(items) => if 0 <= i < items.len() {
                Some(items[i])
            } else {
                None
            },
            _ => None,
        }
    }

    /// The text of the string member `key`, if the value is an object that
    /// has such a member and the member is a string.
    pub open spec fn str_member(self, key: Seq<char>) -> Option<Seq<char>> {
        match self.get(key) {
            Some(v) => v.as_str(),
            None => None,
        }
    }

    /// The value as a 32-bit integer: `None` for anything but an integer
    /// in that range.
    pub open spec fn as_i32(self) -> Option<int> {
        match self {
            JsonV::Number(NumberV::Int(i)) => if i32::MIN <= i <= i32::MAX {
                Some(i)
            } else {
                None
            },
            _ => None,
        }
    }

    /// The JSON string with the given text.
    pub open spec fn text(s: Seq<char>) -> JsonV {
        JsonV::String(s)
    }

    /// The JSON integer `i`.
    pub open spec fn integer(i: int) -> JsonV {
        JsonV::Number(NumberV::Int(i))
    }

    /// The object without members.
    pub open spec fn empty_object() -> JsonV {
        JsonV::Object(Seq::empty())
    }
}

/// The model of a value.
pub open spec fn json_model(j: Json) -> JsonV
    decreases j,
{
    match j {
        Json::Null => JsonV::Null,
        Json::Bool(b) => JsonV::Bool(b),
        Json::Number(n) => JsonV::Number(n@),
        Json::String(s) => JsonV::String(s@),
        Json::Array(items) => JsonV::Array(items_model(items@, items@.len())),
        Json::Object(members) => JsonV::Object(members_model(members@, members@.len())),
    }
}

/// The models of the first `n` values of a list.
pub open spec fn items_model(items: Seq<Json>, n: nat) -> Seq<JsonV>
    decreases items, n,
{
    if n == 0 || n > items.len() {
        Seq::empty()
    } else {
        items_model(items, (n - 1) as nat).push(json_model(items[n - 1]))
    }
}

/// The models of the first `n` members of a list.
pub open spec fn members_model(members: Seq<(String, Json)>, n: nat) -> Seq<(Seq<char>, JsonV)>
    decreases members, n,
{
    if n == 0 || n > members.len() {
        Seq::empty()
    } else {
        members_model(members, (n - 1) as nat).push(
            (members[n - 1].0@, json_model(members[n - 1].1)),
        )
    }
}

impl View for Json {
    type V = JsonV;

    open spec fn view(&self) -> JsonV {
        json_model(*self)
    }
}

/// The models of a list of values.
pub open spec fn items_view(items: Seq<Json>) -> Seq<JsonV> {
    Seq::new(items.len(), |i: int| items[i]@)
}

/// The models of a list of members.
pub open spec fn members_view(members: Seq<(String, Json)>) -> Seq<(Seq<char>, JsonV)> {
    Seq::new(members.len(), |i: int| (members[i].0@, members[i].1@))
}

proof fn lemma_items_model(items: Seq<Json>, n: nat)
    requires
        n <= items.len(),
    ensures
        items_model(items, n) == items_view(items.subrange(0, n as int)),
    decreases n,
{
    if n > 0 {
        lemma_items_model(items, (n - 1) as nat);
        assert(items_view(items.subrange(0, n - 1)).push(items[n - 1]@) =~= items_view(
            items.subrange(0, n as int),
        ));
    } else {
        assert(items_model(items, n) =~= items_view(items.subrange(0, n as int)));
    }
}

proof fn lemma_members_model(members: Seq<(String, Json)>, n: nat)
    requires
        n <= members.len(),
    ensures
        members_model(members, n) == members_view(members.subrange(0, n as int)),
    decreases n,
{
    if n > 0 {
        lemma_members_model(members, (n - 1) as nat);
        assert(members_view(members.subrange(0, n - 1)).push(
            (members[n - 1].0@, members[n - 1].1@),
        ) =~= members_view(members.subrange(0, n as int)));
    } else {
        assert(members_model(members, n) =~= members_view(members.subrange(0, n as int)));
    }
}

/// The model of an array is the list of its items' models.
pub proof fn lemma_array_view(items: Vec<Json>)
    ensures
        Json::Array(items)@ == JsonV::Array(items_view(items@)),
{
    lemma_items_model(items@, items@.len());
    assert(items@.subrange(0, items@.len() as int) =~= items@);
}

/// The model of an object is the list of its members' models.
pub proof fn lemma_object_view(members: Vec<(String, Json)>)
    ensures
        Json::Object(members)@ == JsonV::Object(members_view(members@)),
{
    lemma_members_model(members@, members@.len());
    assert(members@.subrange(0, members@.len() as int) =~= members@);
}

impl Json {
    /// A copy of the whole tree.
    pub fn deep_clone(&self) -> (r: Json)
        ensures
            r@ == self@,
        decreases self,
    {
        match self {
            Json::Null => Json::Null,
            Json::Bool(b) => Json::Bool(*b),
            Json::Number(n) => Json::Number(*n),
            Json::String(s) => Json::String(s.clone()),
            Json::Array(items) => {
                let mut out: Vec<Json> = Vec::new();
                let mut i: usize = 0;
                while i < items.len()
                    invariant
                        i <= items.len(),
                        out@.len() == i,
                        self is Array,
                        self->Array_0 == *items,
                        forall|k: int| 0 <= k < i ==> (#[trigger] out@[k])@ == items@[k]@,
                    decreases items.len() - i,
                {
                    assert(decreases_to!(self => items[i as int]));
                    let item = items[i].deep_clone();
                    out.push(item);
                    i += 1;
                }
                proof {
                    lemma_array_view(out);
                    lemma_array_view(*items);
                    assert(items_view(out@) =~= items_view(items@));
                }
                Json::Array(out)
            },
            Json::Object(members) => {
                let mut out: Vec<(String, Json)> = Vec::new();
                let mut i: usize = 0;
                while i < members.len()
                    invariant
                        i <= members.len(),
                        out@.len() == i,
                        self is Object,
                        self->Object_0 == *members,
                        forall|k: int|
                            0 <= k < i ==> (#[trigger] out@[k]).0@ == members@[k].0@ && out@[k].1@
                                == members@[k].1@,
                    decreases members.len() - i,
                {
                    assert(decreases_to!(self => members[i as int].1));
                    let key = members[i].0.clone();
                    let value = members[i].1.deep_clone();
                    out.push((key, value));
                    i += 1;
                }
                proof {
                    lemma_object_view(out);
                    lemma_object_view(*members);
                    assert(members_view(out@) =~= members_view(members@));
                }
                Json::Object(out)
            },
        }
    }

    /// The JSON string with the text of `s`.
    pub fn string(s: &str) -> (r: Json)
        ensures
            r@ == JsonV::text(s@),
    {
        Json::String(s.to_owned())
    }

    /// The JSON integer `i`.
    pub fn integer(i: i64) -> (r: Json)
        ensures
            r@ == JsonV::integer(i as int),
    {
        if i < 0 {
            Json::Number(JsonNumber::NegInt(i))
        } else {
            Json::Number(JsonNumber::PosInt(i as u64))
        }
    }

    /// The object without members.
    pub fn empty_object() -> (r: Json)
        ensures
            r@ == JsonV::empty_object(),
    {
        let members: Vec<(String, Json)> = Vec::new();
        proof {
            lemma_object_view(members);
            assert(members_view(members@) =~= Seq::empty());
        }
        Json::Object(members)
    }

    /// The object with the given members, in the given order.
    pub fn object(members: Vec<(String, Json)>) -> (r: Json)
        ensures
            r@ == JsonV::Object(members_view(members@)),
    {
        proof {
            lemma_object_view(members);
        }
        Json::Object(members)
    }

    /// The array with the given items.
    pub fn array(items: Vec<Json>) -> (r: Json)
        ensures
            r@ == JsonV::Array(items_view(items@)),
    {
        proof {
            lemma_array_view(items);
        }
        Json::Array(items)
    }

    /// Looks up the member `key` of an object.
    ///
    /// Returns `None` when the value is not an object or has no such member.
    pub fn get(&self, key: &str) -> (r: Option<&Json>)
        ensures
            match r {
                Some(v) => self@.get(key@) == Some(v@),
                None => self@.get(key@) is None,
            },
    {
        match self {
            Json::Object(members) => {
                let wanted = key.to_owned();
                let ghost all = members_view(members@);
                proof {
                    lemma_object_view(*members);
                    assert(all.subrange(0, all.len() as int) =~= all);
                }
                let mut i: usize = members.len();
                while i > 0
                    invariant
                        i <= members.len(),
                        wanted@ == key@,
                        all == members_view(members@),
                        self@ == JsonV::Object(all),
                        member_of(all, key@) == member_of(all.subrange(0, i as int), key@),
                    decreases i,
                {
                    i -= 1;
                    let ghost prefix = all.subrange(0, i as int + 1);
                    assert(prefix.last() == all[i as int]);
                    assert(prefix.drop_last() =~= all.subrange(0, i as int));
                    assert(all[i as int] == (members@[i as int].0@, members@[i as int].1@));
                    if members[i].0 == wanted {
                        assert(member_of(prefix, key@) == Some(members@[i as int].1@));
                        return Some(&members[i].1);
                    }
                }
                None
            },
            _ => None,
        }
    }

    /// Looks up the item at position `i` of an array.
    ///
    /// Returns `None` when the value is not an array or has no such item.
    pub fn at(&self, i: usize) -> (r: Option<&Json>)
        ensures
            match r {
                Some(v) => self@.at(i as int) == Some(v@),
                None => self@.at(i as int) is None,
            },
    {
        match self {
            Json::Array(items) => {
                proof {
                    lemma_array_view(*items);
                }
                if i < items.len() {
                    Some(&items[i])
                } else {
                    None
                }
            },
            _ => None,
        }
    }

    /// The value as a 32-bit integer, if it is an integer in that range.
    pub fn as_i32(&self) -> (r: Option<i32>)
        ensures
            match r {
                Some(i) => self@.as_i32() == Some(i as int),
                None => self@.as_i32() is None,
            },
    {
        match self {
            Json::Number(JsonNumber::PosInt(u)) => {
                if *u <= 0x7fff_ffff {
                    Some(*u as i32)
                } else {
                    None
                }
            },
            Json::Number(JsonNumber::NegInt(i)) => {
                if -0x8000_0000 <= *i && *i <= 0x7fff_ffff {
                    Some(*i as i32)
                } else {
                    None
                }
            },
            _ => None,
        }
    }

    /// Whether the value is an object.
    pub fn is_object(&self) -> (r: bool)
        ensures
            r == (self@ is Object),
    {
        match self {
            Json::Object(_) => true,
            _ => false,
        }
    }

    /// The text of a string value.
    pub fn as_str(&self) -> (r: Option<&str>)
        ensures
            match r {
                Some(s) => self@.as_str() == Some(s@),
                None => self@.as_str() is None,
            },
    {
        match self {
            Json::String(s) => Some(s.as_str()),
            _ => None,
        }
    }
}

impl Clone for Json {
    fn clone(&self) -> (r: Json)
        ensures
            r@ == self@,
    {
        self.deep_clone()
    }
}

} // verus!
