//! JSON values, as far as this crate reads them.
use vstd::prelude::*;

use crate::text::{opt_str_view, same};

verus! {

/// A member of a JSON object.
pub struct Member {
    pub name: String,
    pub value: Json,
}

/// A JSON value.
pub enum Json {
    Null,
    Bool(bool),
    /// A number that is a signed 64-bit integer.
    Integer(i64),
    /// Any other number.
    OtherNumber,
    Text(String),
    List(Vec<Json>),
    /// The members of an object, whose names are distinct.
    Object(Vec<Member>),
}

/// The value of the first member with the given name.
pub open spec fn find(members: Seq<Member>, name: Seq<char>) -> Option<Json>
    decreases members.len(),
{
    if members.len() == 0 {
        None
    } else if members[0].name@ == name {
        Some(members[0].value)
    } else {
        find(members.skip(1), name)
    }
}

/// The member of an object with the given name.
pub open spec fn member(v: Json, name: Seq<char>) -> Option<Json> {
    match v {
        Json::Object(members) => find(members@, name),
        _ => None,
    }
}

/// The text that a value is, if it is one.
pub open spec fn text_of(v: Option<Json>) -> Option<Seq<char>> {
    match v {
        Some(Json::Text(s)) => Some(s@),
        _ => None,
    }
}

/// The integer that a value is, if it is one.
pub open spec fn integer_of(v: Option<Json>) -> Option<i64> {
    match v {
        Some(Json::Integer(n)) => Some(n),
        _ => None,
    }
}

/// The first item of a list.
pub open spec fn first_of(v: Option<Json>) -> Option<Json> {
    match v {
        Some(Json::List(items)) => if items@.len() > 0 {
            Some(items@[0])
        } else {
            None
        },
        _ => None,
    }
}

/// The member of a value, if there is a value.
pub open spec fn member_of(v: Option<Json>, name: Seq<char>) -> Option<Json> {
    match v {
        Some(w) => member(w, name),
        None => None,
    }
}

/// The value that an optional reference points to.
pub open spec fn pointee(v: Option<&Json>) -> Option<Json> {
    match v {
        Some(w) => Some(*w),
        None => None,
    }
}

fn find_member<'a>(members: &'a Vec<Member>, name: &str) -> (r: Option<&'a Json>)
    ensures
        pointee(r) == find(members@, name@),
{
    let mut i: usize = 0;
    assert(members@.skip(0) =~= members@);
    while i < members.len()
        invariant
            i <= members@.len(),
            find(members@, name@) == find(members@.skip(i as int), name@),
        decreases members@.len() - i,
    {
        assert(members@.skip(i as int)[0] == members@[i as int]);
        if same(members[i].name.as_str(), name) {
            return Some(&members[i].value);
        }
        assert(members@.skip(i as int).skip(1) =~= members@.skip(i + 1));
        i = i + 1;
    }
    None
}

impl Json {
    /// The member with the given name, if the value is an object that has one.
    pub fn get(&self, name: &str) -> (r: Option<&Json>)
        ensures
            pointee(r) == member(*self, name@),
    {
        match self {
            Json::Object(members) => find_member(members, name),
            _ => None,
        }
    }

    /// The text, if the value is one.
    pub fn as_str(&self) -> (r: Option<&str>)
        ensures
            opt_str_view(r) == text_of(Some(*self)),
    {
        match self {
            Json::Text(s) => Some(s.as_str()),
            _ => None,
        }
    }

    /// The integer, if the value is one.
    pub fn as_i64(&self) -> (r: Option<i64>)
        ensures
            r == integer_of(Some(*self)),
    {
        match self {
            Json::Integer(n) => Some(*n),
            _ => None,
        }
    }

    /// The first item, if the value is a list that has one.
    pub fn first(&self) -> (r: Option<&Json>)
        ensures
            pointee(r) == first_of(Some(*self)),
    {
        match self {
            Json::List(items) => if items.len() > 0 {
                Some(&items[0])
            } else {
                None
            },
            _ => None,
        }
    }
}

/// A member of an object is the value of the first member that has the name; what is no object has
/// no members.
pub proof fn law_members_go_by_their_name(v: &Json, name: &str, r: Option<&Json>)
    requires
        call_ensures(Json::get, (v, name), r),
    ensures
        match *v {
            Json::Object(members) => match r {
                Some(value) => exists|i: int|
                    0 <= i < members@.len() && #[trigger] members@[i].value == *value
                        && members@[i].name@ == name@ && forall|j: int|
                        0 <= j < i ==> (#[trigger] members@[j]).name@ != name@,
                None => forall|i: int|
                    0 <= i < members@.len() ==> (#[trigger] members@[i]).name@ != name@,
            },
            _ => r is None,
        },
{
    if let Json::Object(members) = *v {
        lemma_find(members@, name@);
    }
}

proof fn lemma_find(members: Seq<Member>, name: Seq<char>)
    ensures
        match find(members, name) {
            Some(value) => exists|i: int|
                0 <= i < members.len() && #[trigger] members[i].value == value && members[i].name@
                    == name && forall|j: int| 0 <= j < i ==> (#[trigger] members[j]).name@ != name,
            None => forall|i: int| 0 <= i < members.len() ==> (#[trigger] members[i]).name@ != name,
        },
    decreases members.len(),
{
    if members.len() > 0 && members[0].name@ != name {
        let rest = members.skip(1);
        lemma_find(rest, name);
        match find(rest, name) {
            Some(value) => {
                let i = choose|i: int|
                    0 <= i < rest.len() && #[trigger] rest[i].value == value && rest[i].name@
                        == name && forall|j: int|
                        0 <= j < i ==> (#[trigger] rest[j]).name@ != name;
                assert(members[i + 1] == rest[i]);
                assert forall|j: int| 0 <= j < i + 1 implies (#[trigger] members[j]).name@
                    != name by {
                    if j > 0 {
                        assert(rest[j - 1] == members[j]);
                    }
                }
                assert(members[i + 1].value == value);
            },
            None => {
                assert forall|i: int| 0 <= i < members.len() implies (#[trigger] members[i]).name@
                    != name by {
                    if i > 0 {
                        assert(rest[i - 1] == members[i]);
                    }
                }
            },
        }
    } else if members.len() > 0 {
        assert(members[0].value == members[0].value);
    }
}

/// Texts, integers and lists are read as what they are, and nothing else is read as one.
pub proof fn law_values_are_read_as_they_are(
    v: &Json,
    text: Option<&str>,
    integer: Option<i64>,
    item: Option<&Json>,
)
    requires
        call_ensures(Json::as_str, (v,), text),
        call_ensures(Json::as_i64, (v,), integer),
        call_ensures(Json::first, (v,), item),
    ensures
        match *v {
            Json::Text(s) => text matches Some(t) && t@ == s@,
            _ => text is None,
        },
        match *v {
            Json::Integer(n) => integer == Some(n),
            _ => integer is None,
        },
        match *v {
            Json::List(items) if items@.len() > 0 => item matches Some(i) && *i == items@[0],
            _ => item is None,
        },
{
}

/// What is read of a value that may be missing is what is read of the value.
pub proof fn law_missing_values_hold_nothing(v: Json, name: Seq<char>)
    ensures
        member_of(Some(v), name) == member(v, name),
        member_of(None, name) is None,
        text_of(None) is None,
        integer_of(None) is None,
        first_of(None) is None,
        v matches Json::Text(s) ==> text_of(Some(v)) == Some(s@),
        v matches Json::Integer(n) ==> integer_of(Some(v)) == Some(n),
        v matches Json::List(items) ==> (items@.len() > 0 ==> first_of(Some(v)) == Some(items@[0])),
        v matches Json::Object(members) ==> (members@.len() > 0 ==> member(v, members@[0].name@)
            == Some(members@[0].value)),
{
}

} // verus!
