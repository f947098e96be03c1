//! JSON values, as event payloads carry them and as GitHub answers them.
use crate::text::same_text;
use vstd::prelude::*;

verus! {

/// A JSON value.
#[derive(Debug)]
pub enum Json {
    Null,
    Bool(bool),
    Int(i64),
    /// A number that no `i64` holds: one with a fraction, or out of range.
    Number,
    Text(String),
    List(Vec<Json>),
    Object(Vec<Member>),
}

/// A member of a JSON object.
#[derive(Debug)]
pub struct Member {
    pub name: String,
    pub value: Json,
}

/// What a JSON value is.
pub enum JsonView {
    Null,
    Bool(bool),
    Int(int),
    Number,
    Text(Seq<char>),
    List(Seq<JsonView>),
    Object(Seq<(Seq<char>, JsonView)>),
}

impl Json {
    pub open spec fn view(self) -> JsonView
        decreases self,
    {
        match self {
            Json::Null => JsonView::Null,
            Json::Bool(b) => JsonView::Bool(b),
            Json::Int(n) => JsonView::Int(n as int),
            Json::Number => JsonView::Number,
            Json::Text(s) => JsonView::Text(s@),
            Json::List(items) => JsonView::List(
                Seq::new(
                    items@.len(),
                    |i: int|
                        if 0 <= i < items@.len() {
                            items@[i].view()
                        } else {
                            JsonView::Null
                        },
                ),
            ),
            Json::Object(members) => JsonView::Object(
                Seq::new(
                    members@.len(),
                    |i: int|
                        if 0 <= i < members@.len() {
                            (members@[i].name@, members@[i].value.view())
                        } else {
                            (Seq::<char>::empty(), JsonView::Null)
                        },
                ),
            ),
        }
    }
}

/// The member that is named `name`.
pub open spec fn lookup(members: Seq<(Seq<char>, JsonView)>, name: Seq<char>) -> Option<JsonView>
    decreases members.len(),
{
    if members.len() == 0 {
        None
    } else if members[0].0 == name {
        Some(members[0].1)
    } else {
        lookup(members.drop_first(), name)
    }
}

impl JsonView {
    /// The member that is named `name`, where the value is an object with one.
    pub open spec fn member(self, name: Seq<char>) -> Option<JsonView> {
        match self {
            JsonView::Object(members) => lookup(members, name),
            _ => None,
        }
    }

    /// The text of the member that is named `name`, where that is a text.
    pub open spec fn text_member(self, name: Seq<char>) -> Option<Seq<char>> {
        match self.member(name) {
            Some(JsonView::Text(s)) => Some(s),
            _ => None,
        }
    }

    /// The member that is named `name`, where that is an integer.
    pub open spec fn int_member(self, name: Seq<char>) -> Option<int> {
        match self.member(name) {
            Some(JsonView::Int(n)) => Some(n),
            _ => None,
        }
    }

    /// The items of the member that is named `name`, where that is a list.
    pub open spec fn list_member(self, name: Seq<char>) -> Option<Seq<JsonView>> {
        match self.member(name) {
            Some(JsonView::List(items)) => Some(items),
            _ => None,
        }
    }
}

impl Json {
    /// The member that is named `name`.
    pub fn get(&self, name: &str) -> (r: Option<&Json>)
        ensures
            match r {
                Some(v) => self@.member(name@) == Some(v@),
                None => self@.member(name@) is None,
            },
    {
        match self {
            Json::Object(members) => {
                let ghost all = self@->Object_0;
                let mut i: usize = 0;
                assert(all.skip(0) =~= all);
                while i < members.len()
                    invariant
                        i <= members.len(),
                        *self == Json::Object(*members),
                        all == self@->Object_0,
                        lookup(all, name@) == lookup(all.skip(i as int), name@),
                    decreases members.len() - i,
                {
                    assert(all.skip(i as int)[0] == (members[i as int].name@, members[i as int].value@));
                    if same_text(members[i].name.as_str(), name) {
                        return Some(&members[i].value);
                    }
                    assert(all.skip(i as int).drop_first() =~= all.skip(i + 1));
                    i += 1;
                }
                None
            },
            _ => None,
        }
    }

    /// The text of the member that is named `name`.
    pub fn get_text(&self, name: &str) -> (r: Option<String>)
        ensures
            match r {
                Some(s) => self@.text_member(name@) == Some(s@),
                None => self@.text_member(name@) is None,
            },
    {
        match self.get(name) {
            Some(Json::Text(s)) => Some(s.clone()),
            _ => None,
        }
    }

    /// The integer that is named `name`.
    pub fn get_int(&self, name: &str) -> (r: Option<i64>)
        ensures
            match r {
                Some(n) => self@.int_member(name@) == Some(n as int),
                None => self@.int_member(name@) is None,
            },
    {
        match self.get(name) {
            Some(Json::Int(n)) => Some(*n),
            _ => None,
        }
    }
}

/// The members of an object, one after the other.
pub struct Fields {
    pub list: Seq<(Seq<char>, JsonView)>,
}

/// No members.
pub open spec fn fields() -> Fields {
    Fields { list: Seq::empty() }
}

impl Fields {
    /// With one more member.
    pub open spec fn with(self, name: &str, value: JsonView) -> Fields {
        Fields { list: self.list.push((name@, value)) }
    }

    /// With one more member, a text.
    pub open spec fn text(self, name: &str, value: Seq<char>) -> Fields {
        self.with(name, JsonView::Text(value))
    }

    /// With one more member, an integer.
    pub open spec fn number(self, name: &str, value: int) -> Fields {
        self.with(name, JsonView::Int(value))
    }

    /// The object with these members.
    pub open spec fn object(self) -> JsonView {
        JsonView::Object(self.list)
    }
}

/// The list of these texts.
pub open spec fn text_list(texts: Seq<String>) -> JsonView {
    JsonView::List(texts.map_values(|s: String| JsonView::Text(s@)))
}

/// The list of these texts.
pub fn json_texts(texts: &Vec<String>) -> (r: Json)
    ensures
        r@ == text_list(texts@),
{
    let mut items: Vec<Json> = Vec::new();
    let mut i: usize = 0;
    while i < texts.len()
        invariant
            i <= texts.len(),
            items.len() == i,
            forall|j: int| 0 <= j < i ==> (#[trigger] items[j])@ == JsonView::Text(texts[j]@),
        decreases texts.len() - i,
    {
        items.push(Json::Text(texts[i].clone()));
        i += 1;
    }
    let r = Json::List(items);
    assert(r@->List_0 =~= text_list(texts@)->List_0);
    r
}

/// An object under construction.
pub struct ObjectBuilder {
    members: Vec<Member>,
}

impl ObjectBuilder {
    /// The members written so far.
    pub closed spec fn view(&self) -> Fields {
        Fields { list: Json::Object(self.members)@->Object_0 }
    }

    pub fn new() -> (r: ObjectBuilder)
        ensures
            r@ == fields(),
    {
        let r = ObjectBuilder { members: Vec::new() };
        assert(r@.list =~= fields().list);
        r
    }

    /// Adds a member.
    pub fn put(self, name: &str, value: Json) -> (r: ObjectBuilder)
        ensures
            r@ == self@.with(name, value@),
    {
        let ghost before = self@;
        let mut members = self.members;
        members.push(Member { name: name.to_owned(), value });
        let r = ObjectBuilder { members };
        assert(r@.list =~= before.with(name, value@).list);
        r
    }

    /// Adds a member that is a text.
    pub fn put_text(self, name: &str, value: &String) -> (r: ObjectBuilder)
        ensures
            r@ == self@.text(name, value@),
    {
        self.put(name, Json::Text(value.clone()))
    }

    /// Adds a member that is an integer.
    pub fn put_int(self, name: &str, value: i64) -> (r: ObjectBuilder)
        ensures
            r@ == self@.number(name, value as int),
    {
        self.put(name, Json::Int(value))
    }

    /// The object.
    pub fn build(self) -> (r: Json)
        ensures
            r@ == self@.object(),
    {
        Json::Object(self.members)
    }
}

/// A value is of its own kind and holds what it holds: every item and every
/// member, in order.
pub proof fn law_value_holds_what_it_holds(v: Json)
    ensures
        v@ is Null <==> v is Null,
        v@ is Number <==> v is Number,
        v matches Json::Bool(b) ==> v@ == JsonView::Bool(b),
        v matches Json::Int(n) ==> v@ == JsonView::Int(n as int),
        v matches Json::Text(s) ==> v@ == JsonView::Text(s@),
        v matches Json::List(items) ==> {
            &&& v@ matches JsonView::List(views) && views.len() == items.len() && forall|i: int|
                0 <= i < items.len() ==> #[trigger] views[i] == items[i]@
        },
        v matches Json::Object(members) ==> {
            &&& v@ matches JsonView::Object(views) && views.len() == members.len() && forall|
                i: int,
            |
                0 <= i < members.len() ==> #[trigger] views[i] == (
                    members[i].name@,
                    members[i].value@,
                )
        },
{
}

/// The member of a name is the first one that has it; there is none where no
/// member has it, and none in a value that is no object.
pub proof fn law_member_is_the_first_of_its_name(
    members: Seq<(Seq<char>, JsonView)>,
    name: Seq<char>,
    k: int,
)
    requires
        0 <= k <= members.len(),
        forall|i: int| 0 <= i < k ==> (#[trigger] members[i]).0 != name,
    ensures
        k < members.len() && members[k].0 == name ==> JsonView::Object(members).member(name)
            == Some(members[k].1),
        k == members.len() ==> JsonView::Object(members).member(name) is None,
    decreases k,
{
    if k > 0 {
        let rest = members.drop_first();
        assert forall|i: int| 0 <= i < k - 1 implies (#[trigger] rest[i]).0 != name by {
            assert(members[i + 1].0 != name);
        }
        assert(members[0].0 != name);
        law_member_is_the_first_of_its_name(rest, name, k - 1);
    }
}

/// A member is read as what it is, and as nothing else.
pub proof fn law_member_is_read_as_what_it_is(v: JsonView, name: Seq<char>)
    ensures
        !(v is Object) ==> v.member(name) is None,
        match v.member(name) {
            Some(JsonView::Text(s)) => v.text_member(name) == Some(s),
            _ => v.text_member(name) is None,
        },
        match v.member(name) {
            Some(JsonView::Int(n)) => v.int_member(name) == Some(n),
            _ => v.int_member(name) is None,
        },
        match v.member(name) {
            Some(JsonView::List(items)) => v.list_member(name) == Some(items),
            _ => v.list_member(name) is None,
        },
{
}

/// An object has the members that were written, in that order, each under its
/// name and with its value.
pub proof fn law_object_has_what_was_written(
    f: Fields,
    name: &str,
    value: JsonView,
    text: Seq<char>,
    number: int,
    texts: Seq<String>,
)
    ensures
        fields().object() == JsonView::Object(Seq::empty()),
        f.object() == JsonView::Object(f.list),
        f.with(name, value).list == f.list.push((name@, value)),
        f.text(name, text).list == f.list.push((name@, JsonView::Text(text))),
        f.number(name, number).list == f.list.push((name@, JsonView::Int(number))),
        text_list(texts) matches JsonView::List(items) && items.len() == texts.len() && forall|
            i: int,
        |
            0 <= i < texts.len() ==> #[trigger] items[i] == JsonView::Text(texts[i]@),
{
}

} // verus!
