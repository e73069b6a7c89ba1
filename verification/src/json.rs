//! The parsed JSON body of a request, as far as the handlers read it: an object
//! whose members are texts or objects of texts.

use vstd::prelude::*;

verus! {

/// A member of an object: a name and what stands under it.
#[derive(Clone, Debug, PartialEq, Eq)]
pub struct Member<V> {
    pub name: String,
    pub value: V,
}

impl<V: View> View for Member<V> {
    type V = (Seq<char>, V::V);

    open spec fn view(&self) -> (Seq<char>, V::V) {
        (self.name@, self.value@)
    }
}

/// A value inside a nested object.
#[derive(Clone, Debug, PartialEq, Eq)]
pub enum JsonField {
    Text(String),
    /// Anything that is not a string.
    Other,
}

/// What a `JsonField` stands for.
pub enum JsonFieldView {
    Text(Seq<char>),
    Other,
}

impl View for JsonField {
    type V = JsonFieldView;

    open spec fn view(&self) -> JsonFieldView {
        match self {
            JsonField::Text(t) => JsonFieldView::Text(t@),
            JsonField::Other => JsonFieldView::Other,
        }
    }
}

/// A value directly under the body.
#[derive(Clone, Debug, PartialEq, Eq)]
pub enum JsonValue {
    Text(String),
    Object(Vec<Member<JsonField>>),
    /// Anything that is neither a string nor an object.
    Other,
}

/// What a `JsonValue` stands for.
pub enum JsonValueView {
    Text(Seq<char>),
    Object(Seq<(Seq<char>, JsonFieldView)>),
    Other,
}

impl View for JsonValue {
    type V = JsonValueView;

    open spec fn view(&self) -> JsonValueView {
        match self {
            JsonValue::Text(t) => JsonValueView::Text(t@),
            JsonValue::Object(members) => JsonValueView::Object(member_views(members@)),
            JsonValue::Other => JsonValueView::Other,
        }
    }
}

/// The body of a request after parsing.
#[derive(Clone, Debug, PartialEq, Eq)]
pub enum JsonBody {
    Object(Vec<Member<JsonValue>>),
    /// A document whose top level is not an object.
    Other,
}

/// What a `JsonBody` stands for.
pub enum JsonBodyView {
    Object(Seq<(Seq<char>, JsonValueView)>),
    Other,
}

impl View for JsonBody {
    type V = JsonBodyView;

    open spec fn view(&self) -> JsonBodyView {
        match self {
            JsonBody::Object(members) => JsonBodyView::Object(member_views(members@)),
            JsonBody::Other => JsonBodyView::Other,
        }
    }
}

/// The members of an object, each by what it stands for.
pub open spec fn member_views<V: View>(members: Seq<Member<V>>) -> Seq<(Seq<char>, V::V)> {
    Seq::new(members.len(), |i: int| members[i]@)
}

/// What stands under a name: the first member of that name, if there is one.
pub open spec fn lookup<T>(members: Seq<(Seq<char>, T)>, key: Seq<char>) -> Option<T>
    decreases members.len(),
{
    if members.len() == 0 {
        None
    } else if members[0].0 == key {
        Some(members[0].1)
    } else {
        lookup(members.subrange(1, members.len() as int), key)
    }
}

/// The text under a name of a nested object: none where the name is absent or
/// holds something else.
pub open spec fn field_text(members: Seq<(Seq<char>, JsonFieldView)>, key: Seq<char>) -> Option<
    Seq<char>,
> {
    match lookup(members, key) {
        Some(JsonFieldView::Text(t)) => Some(t),
        _ => None,
    }
}

/// The text under a name of the body: none where the body is no object, the
/// name is absent or it holds something else.
pub open spec fn body_text(body: JsonBodyView, key: Seq<char>) -> Option<Seq<char>> {
    match body {
        JsonBodyView::Object(members) => match lookup(members, key) {
            Some(JsonValueView::Text(t)) => Some(t),
            _ => None,
        },
        JsonBodyView::Other => None,
    }
}

/// The object under a name of the body: none where the body is no object, the
/// name is absent or it holds something else.
pub open spec fn body_object(body: JsonBodyView, key: Seq<char>) -> Option<
    Seq<(Seq<char>, JsonFieldView)>,
> {
    match body {
        JsonBodyView::Object(members) => match lookup(members, key) {
            Some(JsonValueView::Object(fields)) => Some(fields),
            _ => None,
        },
        JsonBodyView::Other => None,
    }
}

/// What stands under a name among the members from position `from` on.
pub open spec fn lookup_from<T>(members: Seq<(Seq<char>, T)>, from: int, key: Seq<char>) -> Option<
    T,
> {
    lookup(members.subrange(from, members.len() as int), key)
}

/// The first member of a given name.
pub fn find<'a, V: View>(members: &'a Vec<Member<V>>, key: &str) -> (found: Option<&'a V>)
    ensures
        found matches Some(v) ==> lookup(member_views(members@), key@) == Some(v@),
        found is None ==> lookup(member_views(members@), key@) is None,
{
    let wanted: String = key.to_owned();
    let ghost views = member_views(members@);
    let mut i: usize = 0;
    assert(views.subrange(0, views.len() as int) =~= views);
    while i < members.len()
        invariant
            0 <= i <= members.len(),
            views == member_views(members@),
            wanted@ == key@,
            lookup(views, key@) == lookup_from(views, i as int, key@),
        decreases members.len() - i,
    {
        let ghost rest = views.subrange(i as int, views.len() as int);
        proof {
            assert(rest[0] == members@[i as int]@);
            assert(rest.subrange(1, rest.len() as int) =~= views.subrange(
                i + 1,
                views.len() as int,
            ));
        }
        if members[i].name == wanted {
            return Some(&members[i].value);
        }
        i = i + 1;
    }
    None
}

/// The text under a name of a nested object.
pub fn text_field<'a>(members: &'a Vec<Member<JsonField>>, key: &str) -> (found: Option<
    &'a String,
>)
    ensures
        found matches Some(t) ==> field_text(member_views(members@), key@) == Some(t@),
        found is None ==> field_text(member_views(members@), key@) is None,
{
    match find(members, key) {
        Some(JsonField::Text(t)) => Some(t),
        _ => None,
    }
}

/// The text under a name of the body.
pub fn text_member<'a>(body: &'a JsonBody, key: &str) -> (found: Option<&'a String>)
    ensures
        found matches Some(t) ==> body_text(body@, key@) == Some(t@),
        found is None ==> body_text(body@, key@) is None,
{
    match body {
        JsonBody::Object(members) => match find(members, key) {
            Some(JsonValue::Text(t)) => Some(t),
            _ => None,
        },
        JsonBody::Other => None,
    }
}

/// The object under a name of the body.
pub fn object_member<'a>(body: &'a JsonBody, key: &str) -> (found: Option<
    &'a Vec<Member<JsonField>>,
>)
    ensures
        found matches Some(fields) ==> body_object(body@, key@) == Some(member_views(fields@)),
        found is None ==> body_object(body@, key@) is None,
{
    match body {
        JsonBody::Object(members) => match find(members, key) {
            Some(JsonValue::Object(fields)) => Some(fields),
            _ => None,
        },
        JsonBody::Other => None,
    }
}

} // verus!
