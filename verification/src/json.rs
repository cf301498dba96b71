use vstd::prelude::*;

verus! {

/// A binary64 number, held by its bit pattern. Two are equal where their bit
/// patterns are: zero and negative zero differ, and a NaN equals itself.
#[derive(Clone, Copy, Debug, PartialEq, Eq, Structural)]
pub struct Float {
    pub bits: u64,
}

impl Float {
    /// The bit pattern without its sign bit.
    pub open spec fn magnitude(self) -> int {
        if self.bits >= 0x8000_0000_0000_0000 {
            self.bits - 0x8000_0000_0000_0000
        } else {
            self.bits as int
        }
    }

    /// Whether the number is neither an infinity nor a NaN: its exponent
    /// bits are not all set.
    pub open spec fn finite(self) -> bool {
        self.magnitude() < 0x7FF0_0000_0000_0000
    }

    /// Tells whether the number is finite.
    pub fn is_finite(&self) -> (r: bool)
        ensures
            r == self.finite(),
    {
        let magnitude: u64 = if self.bits >= 0x8000_0000_0000_0000 {
            self.bits - 0x8000_0000_0000_0000
        } else {
            self.bits
        };
        magnitude < 0x7FF0_0000_0000_0000
    }
}

/// What a JSON number offers to a reader: its value as an unsigned integer,
/// as a signed integer and as a binary64 number, each where it has one.
#[derive(Clone, Copy, Debug, PartialEq, Eq)]
pub struct JsonNumber {
    pub unsigned: Option<u64>,
    pub signed: Option<i64>,
    pub float: Option<Float>,
}

/// A JSON document. An object holds its members in order; a name that
/// occurs twice is found at its first place.
#[derive(Debug, PartialEq, Eq)]
pub enum Json {
    Null,
    Bool(bool),
    Number(JsonNumber),
    Text(String),
    Array(Vec<Json>),
    Object(Vec<(String, Json)>),
}

/// The mathematical model of a JSON document.
pub enum JsonView {
    Null,
    Bool(bool),
    Number(JsonNumber),
    Text(Seq<char>),
    Array(Seq<JsonView>),
    Object(Seq<(Seq<char>, JsonView)>),
}

/// The model of a document: texts as sequences of characters, arrays and
/// objects as sequences of the models of what they hold.
pub open spec fn json_view(json: &Json) -> JsonView
    decreases json,
{
    match json {
        Json::Null => JsonView::Null,
        Json::Bool(b) => JsonView::Bool(*b),
        Json::Number(n) => JsonView::Number(*n),
        Json::Text(s) => JsonView::Text(s@),
        Json::Array(items) => JsonView::Array(
            Seq::new(
                items@.len(),
                |i: int|
                    if 0 <= i < items@.len() {
                        json_view(&items@[i])
                    } else {
                        JsonView::Null
                    },
            ),
        ),
        Json::Object(members) => JsonView::Object(
            Seq::new(
                members@.len(),
                |i: int|
                    if 0 <= i < members@.len() {
                        (members@[i].0@, json_view(&members@[i].1))
                    } else {
                        (Seq::empty(), JsonView::Null)
                    },
            ),
        ),
    }
}

impl View for Json {
    type V = JsonView;

    open spec fn view(&self) -> JsonView {
        json_view(self)
    }
}

impl DeepView for Json {
    type V = JsonView;

    open spec fn deep_view(&self) -> JsonView {
        self@
    }
}

/// The members of an object: names and values, in order.
pub type Members = Seq<(Seq<char>, JsonView)>;

/// The model of the members of an object.
pub open spec fn members_view(members: Seq<(String, Json)>) -> Members {
    Seq::new(members.len(), |i: int| (members[i].0@, members[i].1@))
}

/// The model of the elements of an array.
pub open spec fn items_view(items: Seq<Json>) -> Seq<JsonView> {
    Seq::new(items.len(), |i: int| items[i]@)
}

/// The model of an object is the object of its members' models.
pub proof fn lemma_object_view(object: Json)
    requires
        object is Object,
    ensures
        object@ == JsonView::Object(members_view(object->Object_0@)),
{
    match object {
        Json::Object(members) => {
            assert(object@->Object_0.len() == members@.len());
            assert(object@->Object_0 =~= members_view(members@));
        },
        _ => {},
    }
}

/// The model of an array is the array of its elements' models.
pub proof fn lemma_array_view(array: Json)
    requires
        array is Array,
    ensures
        array@ == JsonView::Array(items_view(array->Array_0@)),
{
    match array {
        Json::Array(items) => {
            assert(array@->Array_0.len() == items@.len());
            assert(array@->Array_0 =~= items_view(items@));
        },
        _ => {},
    }
}

/// The value of the first member named `key` from position `start` on.
pub open spec fn member_from(members: Members, key: Seq<char>, start: int) -> Option<JsonView>
    decreases members.len() - start,
{
    if start < 0 || start >= members.len() {
        None
    } else if members[start].0 == key {
        Some(members[start].1)
    } else {
        member_from(members, key, start + 1)
    }
}

/// The value of the first member named `key`.
pub open spec fn member_of(members: Members, key: Seq<char>) -> Option<JsonView> {
    member_from(members, key, 0)
}

/// Where no member before position `start` has the name, the search can
/// start there.
pub proof fn lemma_member_from(members: Members, key: Seq<char>, start: int)
    requires
        0 <= start <= members.len(),
        forall|j: int| 0 <= j < start ==> (#[trigger] members[j]).0 != key,
    ensures
        member_of(members, key) == member_from(members, key, start),
    decreases start,
{
    if start > 0 {
        lemma_member_from(members, key, start - 1);
    }
}

/// The member at position `at` is the one found under its name, where no
/// member before it has that name.
pub proof fn lemma_member_at(members: Members, key: Seq<char>, at: int)
    requires
        0 <= at < members.len(),
        members[at].0 == key,
        forall|j: int| 0 <= j < at ==> (#[trigger] members[j]).0 != key,
    ensures
        member_of(members, key) == Some(members[at].1),
{
    lemma_member_from(members, key, at);
}

/// Looks a member up by its name.
pub fn member<'a>(members: &'a Vec<(String, Json)>, key: &str) -> (r: Option<&'a Json>)
    ensures
        match r {
            Some(value) => member_of(members_view(members@), key@) == Some(value@),
            None => member_of(members_view(members@), key@) is None,
        },
{
    let wanted = key.to_owned();
    let mut i: usize = 0;
    while i < members.len()
        invariant
            i <= members.len(),
            wanted@ == key@,
            member_of(members_view(members@), key@) == member_from(
                members_view(members@),
                key@,
                i as int,
            ),
        decreases members.len() - i,
    {
        if members[i].0 == wanted {
            return Some(&members[i].1);
        }
        i += 1;
    }
    None
}

impl Json {
    /// A deep copy.
    #[verifier::loop_isolation(false)]
    pub fn duplicate(&self) -> (r: Json)
        ensures
            r@ == self@,
        decreases self,
    {
        match self {
            Json::Null => Json::Null,
            Json::Bool(b) => Json::Bool(*b),
            Json::Number(n) => Json::Number(*n),
            Json::Text(s) => Json::Text(s.clone()),
            Json::Array(items) => {
                let mut out: Vec<Json> = Vec::new();
                let mut i: usize = 0;
                while i < items.len()
                    invariant
                        i <= items.len(),
                        out@.len() == i,
                        forall|k: int| 0 <= k < i ==> out@[k]@ == items@[k]@,
                    decreases items.len() - i,
                {
                    out.push(items[i].duplicate());
                    i += 1;
                }
                let r = Json::Array(out);
                assert(r@->Array_0 =~= self@->Array_0);
                r
            },
            Json::Object(members) => {
                let mut out: Vec<(String, Json)> = Vec::new();
                let mut i: usize = 0;
                while i < members.len()
                    invariant
                        i <= members.len(),
                        out@.len() == i,
                        forall|k: int|
                            0 <= k < i ==> out@[k].0@ == members@[k].0@ && out@[k].1@
                                == members@[k].1@,
                    decreases members.len() - i,
                {
                    out.push((members[i].0.clone(), members[i].1.duplicate()));
                    i += 1;
                }
                let r = Json::Object(out);
                assert(r@->Object_0 =~= self@->Object_0);
                r
            },
        }
    }
}

} // verus!
