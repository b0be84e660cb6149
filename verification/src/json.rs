//! JSON documents as plain values, and how they are looked into.

use vstd::prelude::*;

verus! {

/// A JSON number: an integer as such, any other number by the bit pattern of
/// its IEEE 754 binary64 value.
#[derive(Debug, Clone, Copy, PartialEq, Eq, Structural)]
pub enum JsonNumber {
    /// An integer from zero up.
    Unsigned(u64),
    /// A negative integer.
    Negative(i64),
    /// Any other number, as binary64 bits.
    Binary64(u64),
}

/// A JSON value. The members of an object keep the order in which they were
/// handed over; a lookup finds the first member of a name.
#[derive(Debug)]
pub enum JsonValue {
    Null,
    Bool(bool),
    Number(JsonNumber),
    Text(String),
    Array(Vec<JsonValue>),
    Object(Vec<(String, JsonValue)>),
}

/// What a JSON value says, with text as sequences of characters.
pub enum JsonView {
    Null,
    Bool(bool),
    Number(JsonNumber),
    Text(Seq<char>),
    Array(Seq<JsonView>),
    Object(Seq<(Seq<char>, JsonView)>),
}

/// The mathematical content of a JSON value.
pub open spec fn json_view(value: JsonValue) -> JsonView
    decreases value,
{
    match value {
        JsonValue::Null => JsonView::Null,
        JsonValue::Bool(b) => JsonView::Bool(b),
        JsonValue::Number(n) => JsonView::Number(n),
        JsonValue::Text(s) => JsonView::Text(s@),
        JsonValue::Array(items) => JsonView::Array(
            Seq::new(
                items@.len(),
                |i: int|
                    if 0 <= i < items@.len() {
                        json_view(items@[i])
                    } else {
                        JsonView::Null
                    },
            ),
        ),
        JsonValue::Object(members) => JsonView::Object(
            Seq::new(
                members@.len(),
                |i: int|
                    if 0 <= i < members@.len() {
                        (members@[i].0@, json_view(members@[i].1))
                    } else {
                        (Seq::<char>::empty(), JsonView::Null)
                    },
            ),
        ),
    }
}

impl View for JsonValue {
    type V = JsonView;

    open spec fn view(&self) -> JsonView {
        json_view(*self)
    }
}

/// The value of the first member called `key`, if there is one.
pub open spec fn member(members: Seq<(Seq<char>, JsonView)>, key: Seq<char>) -> Option<JsonView>
    decreases members.len(),
{
    if members.len() == 0 {
        None
    } else if members[0].0 == key {
        Some(members[0].1)
    } else {
        member(members.drop_first(), key)
    }
}

/// A member's value is structurally smaller than the list it was found in.
pub proof fn lemma_member_decreases(members: Seq<(Seq<char>, JsonView)>, key: Seq<char>)
    ensures
        member(members, key) matches Some(v) ==> decreases_to!(members => v),
    decreases members.len(),
{
    if members.len() != 0 && members[0].0 != key {
        lemma_member_decreases(members.drop_first(), key);
    } else if members.len() != 0 {
        assert(decreases_to!(members => members[0]));
        assert(decreases_to!(members[0] => members[0].1));
    }
}

impl JsonView {
    /// The member `key` of an object; nothing of any other value.
    pub open spec fn get(self, key: Seq<char>) -> Option<JsonView> {
        match self {
            JsonView::Object(members) => member(members, key),
            _ => None,
        }
    }

    /// The items of an array.
    pub open spec fn items(self) -> Option<Seq<JsonView>> {
        match self {
            JsonView::Array(items) => Some(items),
            _ => None,
        }
    }

    /// The characters of a string.
    pub open spec fn text(self) -> Option<Seq<char>> {
        match self {
            JsonView::Text(s) => Some(s),
            _ => None,
        }
    }

    /// The number, if the value is one.
    pub open spec fn number(self) -> Option<JsonNumber> {
        match self {
            JsonView::Number(n) => Some(n),
            _ => None,
        }
    }

    /// The truth value, if the value is one.
    pub open spec fn truth(self) -> Option<bool> {
        match self {
            JsonView::Bool(b) => Some(b),
            _ => None,
        }
    }
}

impl JsonNumber {
    /// The number as a 64-bit signed integer: an integer that fits, nothing
    /// else.
    pub open spec fn signed(self) -> Option<i64> {
        match self {
            JsonNumber::Unsigned(u) => if u <= i64::MAX {
                Some(u as i64)
            } else {
                None
            },
            JsonNumber::Negative(i) => Some(i),
            JsonNumber::Binary64(_) => None,
        }
    }

    /// The number as a 64-bit unsigned integer: an integer from zero up,
    /// nothing else.
    pub open spec fn unsigned(self) -> Option<u64> {
        match self {
            JsonNumber::Unsigned(u) => Some(u),
            _ => None,
        }
    }

    pub fn as_i64(&self) -> (r: Option<i64>)
        ensures
            r == self.signed(),
    {
        match *self {
            JsonNumber::Unsigned(u) => if u <= i64::MAX as u64 {
                Some(u as i64)
            } else {
                None
            },
            JsonNumber::Negative(i) => Some(i),
            JsonNumber::Binary64(_) => None,
        }
    }

    pub fn as_u64(&self) -> (r: Option<u64>)
        ensures
            r == self.unsigned(),
    {
        match *self {
            JsonNumber::Unsigned(u) => Some(u),
            _ => None,
        }
    }
}

impl JsonView {
    /// The value as a 64-bit signed integer.
    pub open spec fn signed(self) -> Option<i64> {
        match self {
            JsonView::Number(n) => n.signed(),
            _ => None,
        }
    }

    /// The value as a 64-bit unsigned integer.
    pub open spec fn unsigned(self) -> Option<u64> {
        match self {
            JsonView::Number(n) => n.unsigned(),
            _ => None,
        }
    }
}

impl JsonValue {
    /// Looks up a member of an object.
    pub fn get(&self, key: &str) -> (r: Option<&JsonValue>)
        ensures
            match r {
                Some(v) => self@.get(key@) == Some(v@),
                None => self@.get(key@) is None,
            },
    {
        match self {
            JsonValue::Object(members) => {
                let wanted = key.to_owned();
                let ghost all = self@->Object_0;
                assert(all.skip(0) == all);
                let mut i: usize = 0;
                while i < members.len()
                    invariant
                        i <= members@.len(),
                        *self == JsonValue::Object(*members),
                        all == self@->Object_0,
                        wanted@ == key@,
                        member(all, key@) == member(all.skip(i as int), key@),
                    decreases members@.len() - i,
                {
                    if members[i].0 == wanted {
                        assert(all.skip(i as int)[0] == all[i as int]);
                        return Some(&members[i].1);
                    }
                    assert(all.skip(i as int).drop_first() == all.skip(i + 1));
                    i += 1;
                }
                None
            },
            _ => None,
        }
    }

    /// The characters of a string.
    pub fn as_str(&self) -> (r: Option<&str>)
        ensures
            match r {
                Some(s) => self@.text() == Some(s@),
                None => self@.text() is None,
            },
    {
        match self {
            JsonValue::Text(s) => Some(s.as_str()),
            _ => None,
        }
    }

    /// The items of an array.
    pub fn as_array(&self) -> (r: Option<&Vec<JsonValue>>)
        ensures
            match r {
                Some(items) => self@.items() == Some(items@.map_values(|v: JsonValue| v@)),
                None => self@.items() is None,
            },
    {
        match self {
            JsonValue::Array(items) => {
                assert(self@.items()->0 =~= items@.map_values(|v: JsonValue| v@));
                Some(items)
            },
            _ => None,
        }
    }

    /// The value as a 64-bit signed integer.
    pub fn as_i64(&self) -> (r: Option<i64>)
        ensures
            r == self@.signed(),
    {
        match self {
            JsonValue::Number(n) => n.as_i64(),
            _ => None,
        }
    }

    /// The value as a 64-bit unsigned integer.
    pub fn as_u64(&self) -> (r: Option<u64>)
        ensures
            r == self@.unsigned(),
    {
        match self {
            JsonValue::Number(n) => n.as_u64(),
            _ => None,
        }
    }

    /// The number, if the value is one.
    pub fn as_number(&self) -> (r: Option<JsonNumber>)
        ensures
            r == self@.number(),
    {
        match self {
            JsonValue::Number(n) => Some(*n),
            _ => None,
        }
    }

    /// The truth value, if the value is one.
    pub fn as_bool(&self) -> (r: Option<bool>)
        ensures
            r == self@.truth(),
    {
        match self {
            JsonValue::Bool(b) => Some(*b),
            _ => None,
        }
    }
}

/// Whether an object's members give a name this value: some member does, and
/// none before it has the name.
pub open spec fn holds(members: Seq<(Seq<char>, JsonView)>, key: Seq<char>, value: JsonView) -> bool {
    exists|i: int|
        {
            &&& 0 <= i < members.len()
            &&& (#[trigger] members[i]).0 == key
            &&& members[i].1 == value
            &&& forall|j: int| 0 <= j < i ==> (#[trigger] members[j]).0 != key
        }
}

/// Whether no member of an object has this name.
pub open spec fn lacks(members: Seq<(Seq<char>, JsonView)>, key: Seq<char>) -> bool {
    forall|i: int| 0 <= i < members.len() ==> (#[trigger] members[i]).0 != key
}

proof fn lemma_member_place(members: Seq<(Seq<char>, JsonView)>, key: Seq<char>) -> (i: int)
    ensures
        member(members, key) is None <==> lacks(members, key),
        member(members, key) is Some ==> {
            &&& 0 <= i < members.len()
            &&& members[i].0 == key
            &&& members[i].1 == member(members, key)->0
            &&& forall|j: int| 0 <= j < i ==> (#[trigger] members[j]).0 != key
        },
    decreases members.len(),
{
    if members.len() == 0 {
        0
    } else if members[0].0 == key {
        0
    } else {
        let rest = members.drop_first();
        let k = lemma_member_place(rest, key);
        assert forall|j: int| 0 <= j < k + 1 && member(members, key) is Some implies (
        #[trigger] members[j]).0 != key by {
            if j > 0 {
                assert(rest[j - 1] == members[j]);
            }
        }
        assert forall|j: int| 0 <= j < members.len() && lacks(rest, key) implies (
        #[trigger] members[j]).0 != key by {
            if j > 0 {
                assert(rest[j - 1] == members[j]);
            }
        }
        assert(lacks(members, key) ==> lacks(rest, key)) by {
            if lacks(members, key) {
                assert forall|j: int| 0 <= j < rest.len() implies (#[trigger] rest[j]).0 != key by {
                    assert(rest[j] == members[j + 1]);
                }
            }
        }
        k + 1
    }
}

/// A lookup gives the value of the first member of the name, and nothing
/// exactly if no member has the name.
pub proof fn law_lookup_finds_the_first_member(
    members: Seq<(Seq<char>, JsonView)>,
    key: Seq<char>,
    value: JsonView,
)
    ensures
        JsonView::Object(members).get(key) == Some(value) <==> holds(members, key, value),
        JsonView::Object(members).get(key) is None <==> lacks(members, key),
{
    let i = lemma_member_place(members, key);
    if holds(members, key, value) {
        let k = choose|k: int|
            {
                &&& 0 <= k < members.len()
                &&& (#[trigger] members[k]).0 == key
                &&& members[k].1 == value
                &&& forall|j: int| 0 <= j < k ==> (#[trigger] members[j]).0 != key
            };
        assert(!lacks(members, key));
        if i < k {
            assert(members[i].0 != key);
        } else if k < i {
            assert(members[k].0 != key);
        }
    }
}

/// Each kind of value is read as what it is and as nothing else: only objects
/// have members, only arrays items, and so on.
pub proof fn law_values_are_read_as_what_they_are(
    value: JsonView,
    key: Seq<char>,
    items: Seq<JsonView>,
    chars: Seq<char>,
    number: JsonNumber,
    truth: bool,
)
    ensures
        !(value is Object) ==> value.get(key) is None,
        value.items() == Some(items) <==> value == JsonView::Array(items),
        value.text() == Some(chars) <==> value == JsonView::Text(chars),
        value.number() == Some(number) <==> value == JsonView::Number(number),
        value.truth() == Some(truth) <==> value == JsonView::Bool(truth),
        !(value is Number) ==> value.signed() is None && value.unsigned() is None,
{
}

/// An integer is read as itself wherever it fits, and no other number is read
/// as an integer.
pub proof fn law_integers_are_read_as_themselves(u: u64, i: i64, bits: u64)
    ensures
        JsonView::Number(JsonNumber::Unsigned(u)).unsigned() == Some(u),
        u <= 0x7fff_ffff_ffff_ffff ==> JsonView::Number(JsonNumber::Unsigned(u)).signed() == Some(
            u as i64,
        ),
        u > 0x7fff_ffff_ffff_ffff ==> JsonView::Number(JsonNumber::Unsigned(u)).signed() is None,
        JsonView::Number(JsonNumber::Negative(i)).signed() == Some(i),
        JsonView::Number(JsonNumber::Negative(i)).unsigned() is None,
        JsonView::Number(JsonNumber::Binary64(bits)).signed() is None,
        JsonView::Number(JsonNumber::Binary64(bits)).unsigned() is None,
{
}

/// A value says all that it holds: every item of an array and every member of
/// an object, in order.
pub proof fn law_views_leave_nothing_out(
    items: Vec<JsonValue>,
    members: Vec<(String, JsonValue)>,
    text: String,
    number: JsonNumber,
    truth: bool,
)
    ensures
        JsonValue::Null@ == JsonView::Null,
        JsonValue::Bool(truth)@ == JsonView::Bool(truth),
        JsonValue::Number(number)@ == JsonView::Number(number),
        JsonValue::Text(text)@ == JsonView::Text(text@),
        JsonValue::Array(items)@ == JsonView::Array(items@.map_values(|v: JsonValue| v@)),
        JsonValue::Object(members)@ == JsonView::Object(
            members@.map_values(|m: (String, JsonValue)| (m.0@, m.1@)),
        ),
{
    assert(JsonValue::Array(items)@->Array_0 =~= items@.map_values(|v: JsonValue| v@));
    assert(JsonValue::Object(members)@->Object_0 =~= members@.map_values(
        |m: (String, JsonValue)| (m.0@, m.1@),
    ));
}

/// Whether a value is an object that gives a name this value.
pub open spec fn has_member(object: JsonView, key: Seq<char>, value: JsonView) -> bool {
    object matches JsonView::Object(members) && holds(members, key, value)
}

/// A lookup in a value gives what the value has under the name, and nothing
/// if it has nothing there.
pub proof fn law_lookup_gives_the_member(object: JsonView, key: Seq<char>, value: JsonView)
    ensures
        object.get(key) == Some(value) <==> has_member(object, key, value),
        object.get(key) is None <==> forall|v: JsonView| !#[trigger] has_member(object, key, v),
{
    if let JsonView::Object(members) = object {
        law_lookup_finds_the_first_member(members, key, value);
        assert forall|v: JsonView| object.get(key) is None implies !#[trigger] has_member(
            object,
            key,
            v,
        ) by {
            law_lookup_finds_the_first_member(members, key, v);
        }
        if object.get(key) is Some {
            law_lookup_finds_the_first_member(members, key, object.get(key)->0);
            assert(has_member(object, key, object.get(key)->0));
        }
    }
}

/// Looking into a value gives what the value holds: the first member of a name,
/// the text, the items, the truth or the number that it is, and nothing where
/// it is something else.
pub proof fn law_looking_into_values<'a>(
    value: &'a JsonValue,
    key: &str,
    found: Option<&'a JsonValue>,
    text: Option<&'a str>,
    items: Option<&'a Vec<JsonValue>>,
    truth: Option<bool>,
    number: Option<JsonNumber>,
    any: JsonView,
)
    requires
        call_ensures(JsonValue::get, (value, key), found),
        call_ensures(JsonValue::as_str, (value,), text),
        call_ensures(JsonValue::as_array, (value,), items),
        call_ensures(JsonValue::as_bool, (value,), truth),
        call_ensures(JsonValue::as_number, (value,), number),
    ensures
        found matches Some(v) ==> has_member(value@, key@, v@),
        found is None ==> !has_member(value@, key@, any),
        text matches Some(s) ==> value@ == JsonView::Text(s@),
        text is None ==> !(value@ is Text),
        items matches Some(list) ==> value@ == JsonView::Array(
            list@.map_values(|v: JsonValue| v@),
        ),
        items is None ==> !(value@ is Array),
        truth matches Some(b) ==> value@ == JsonView::Bool(b),
        truth is None ==> !(value@ is Bool),
        number matches Some(n) ==> value@ == JsonView::Number(n),
        number is None ==> !(value@ is Number),
{
    law_lookup_gives_the_member(value@, key@, any);
    if let Some(v) = found {
        law_lookup_gives_the_member(value@, key@, v@);
    }
}

/// Looking for an integer in a value gives the integer that it is, wherever 64
/// bits hold it, and nothing otherwise.
pub proof fn law_looking_for_integers(
    value: JsonValue,
    signed: Option<i64>,
    unsigned: Option<u64>,
    n: int,
)
    requires
        call_ensures(JsonValue::as_i64, (&value,), signed),
        call_ensures(JsonValue::as_u64, (&value,), unsigned),
    ensures
        0 <= n <= 0xffff_ffff_ffff_ffff && value@ == JsonView::Number(
            JsonNumber::Unsigned(n as u64),
        ) ==> {
            &&& unsigned == Some(n as u64)
            &&& n <= 0x7fff_ffff_ffff_ffff ==> signed == Some(n as i64)
            &&& n > 0x7fff_ffff_ffff_ffff ==> signed is None
        },
        -0x8000_0000_0000_0000 <= n < 0 && value@ == JsonView::Number(
            JsonNumber::Negative(n as i64),
        ) ==> signed == Some(n as i64) && unsigned is None,
        !(value@ matches JsonView::Number(m) && !(m is Binary64)) ==> signed is None && unsigned
            is None,
{
}

} // verus!
