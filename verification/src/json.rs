use vstd::prelude::*;

verus! {

broadcast use {
    vstd::std_specs::vec::axiom_vec_decreases_to_view,
    vstd::seq::axiom_seq_index_decreases,
    vstd::seq::axiom_seq_subrange_decreases,
};

/// A JSON document as the library handles it.
///
/// Numbers are kept in their textual form, exactly as they appear in the
/// serialized document, so no precision is lost and no floating point is
/// involved. Object members keep their order and are looked up by their key.
#[derive(Debug, PartialEq, Eq)]
pub enum Json {
    Null,
    Bool(bool),
    Number(String),
    Str(String),
    Array(Vec<Json>),
    Object(Vec<(String, Json)>),
}

/// The mathematical value of a `Json` document.
pub enum JsonView {
    Null,
    Bool(bool),
    Number(Seq<char>),
    Str(Seq<char>),
    Array(Seq<JsonView>),
    Object(Seq<(Seq<char>, JsonView)>),
}

pub open spec fn json_view(j: Json) -> JsonView
    decreases j,
{
    match j {
        Json::Null => JsonView::Null,
        Json::Bool(b) => JsonView::Bool(b),
        Json::Number(n) => JsonView::Number(n@),
        Json::Str(s) => JsonView::Str(s@),
        Json::Array(items) => JsonView::Array(items_view(items@)),
        Json::Object(fields) => JsonView::Object(fields_view(fields@)),
    }
}

pub open spec fn items_view(items: Seq<Json>) -> Seq<JsonView>
    decreases items,
{
    if items.len() == 0 {
        Seq::empty()
    } else {
        items_view(items.drop_last()).push(json_view(items.last()))
    }
}

pub open spec fn fields_view(fields: Seq<(String, Json)>) -> Seq<(Seq<char>, JsonView)>
    decreases fields,
{
    if fields.len() == 0 {
        Seq::empty()
    } else {
        fields_view(fields.drop_last()).push((fields.last().0@, json_view(fields.last().1)))
    }
}

impl View for Json {
    type V = JsonView;

    open spec fn view(&self) -> JsonView {
        json_view(*self)
    }
}

} // verus!

verus! {

/// `i` is the first position of a member named `key`.
pub open spec fn is_first_key(fields: Seq<(Seq<char>, JsonView)>, key: Seq<char>, i: int) -> bool {
    &&& 0 <= i < fields.len()
    &&& fields[i].0 == key
    &&& forall|j: int| 0 <= j < i ==> fields[j].0 != key
}

/// Position of the member named `key`, as a JSON object lookup finds it.
pub open spec fn key_position(fields: Seq<(Seq<char>, JsonView)>, key: Seq<char>) -> Option<int> {
    if exists|i: int| #[trigger] is_first_key(fields, key, i) {
        Some(choose|i: int| #[trigger] is_first_key(fields, key, i))
    } else {
        None
    }
}

/// The value of the member named `key`, if there is one.
pub open spec fn member(fields: Seq<(Seq<char>, JsonView)>, key: Seq<char>) -> Option<JsonView> {
    match key_position(fields, key) {
        Some(i) => Some(fields[i].1),
        None => None,
    }
}

/// The members after setting `key` to `value`: an existing member keeps its
/// place, a new one goes last.
pub open spec fn with_member(
    fields: Seq<(Seq<char>, JsonView)>,
    key: Seq<char>,
    value: JsonView,
) -> Seq<(Seq<char>, JsonView)> {
    match key_position(fields, key) {
        Some(i) => fields.update(i, (key, value)),
        None => fields.push((key, value)),
    }
}

/// No two members of the object share a key.
pub open spec fn keys_distinct(fields: Seq<(Seq<char>, JsonView)>) -> bool {
    forall|i: int, j: int|
        0 <= i < fields.len() && 0 <= j < fields.len() && i != j ==> #[trigger] fields[i].0
            != #[trigger] fields[j].0
}

pub proof fn lemma_first_key_unique(fields: Seq<(Seq<char>, JsonView)>, key: Seq<char>, i: int, j: int)
    requires
        is_first_key(fields, key, i),
        is_first_key(fields, key, j),
    ensures
        i == j,
{
}

pub proof fn lemma_key_position_found(fields: Seq<(Seq<char>, JsonView)>, key: Seq<char>, i: int)
    requires
        is_first_key(fields, key, i),
    ensures
        key_position(fields, key) == Some(i),
{
    let k = choose|k: int| #[trigger] is_first_key(fields, key, k);
    lemma_first_key_unique(fields, key, i, k);
}

pub proof fn lemma_key_position_absent(fields: Seq<(Seq<char>, JsonView)>, key: Seq<char>)
    requires
        forall|j: int| 0 <= j < fields.len() ==> fields[j].0 != key,
    ensures
        key_position(fields, key) is None,
{
    if exists|i: int| #[trigger] is_first_key(fields, key, i) {
        let i = choose|i: int| #[trigger] is_first_key(fields, key, i);
        assert(fields[i].0 == key);
    }
}

/// Every member that is found is at a position holding that key.
pub proof fn lemma_key_position_valid(fields: Seq<(Seq<char>, JsonView)>, key: Seq<char>)
    ensures
        key_position(fields, key) matches Some(i) ==> is_first_key(fields, key, i),
{
}

pub proof fn lemma_items_view(items: Seq<Json>)
    ensures
        items_view(items).len() == items.len(),
        forall|i: int| 0 <= i < items.len() ==> #[trigger] items_view(items)[i] == json_view(items[i]),
    decreases items.len(),
{
    if items.len() > 0 {
        lemma_items_view(items.drop_last());
    }
}

pub proof fn lemma_fields_view(fields: Seq<(String, Json)>)
    ensures
        fields_view(fields).len() == fields.len(),
        forall|i: int|
            0 <= i < fields.len() ==> #[trigger] fields_view(fields)[i] == (
                fields[i].0@,
                json_view(fields[i].1),
            ),
    decreases fields.len(),
{
    if fields.len() > 0 {
        lemma_fields_view(fields.drop_last());
    }
}

/// Position of the first member named `key`.
pub fn find_member(fields: &Vec<(String, Json)>, key: &String) -> (res: Option<usize>)
    ensures
        res matches Some(i) ==> key_position(fields_view(fields@), key@) == Some(i as int),
        res is None ==> key_position(fields_view(fields@), key@) is None,
{
    proof {
        lemma_fields_view(fields@);
    }
    let mut i: usize = 0;
    while i < fields.len()
        invariant
            i <= fields.len(),
            fields_view(fields@).len() == fields.len(),
            forall|j: int| 0 <= j < fields.len() ==> #[trigger] fields_view(fields@)[j] == (
                fields@[j].0@,
                json_view(fields@[j].1),
            ),
            forall|j: int| 0 <= j < i ==> fields_view(fields@)[j].0 != key@,
        decreases fields.len() - i,
    {
        if fields[i].0 == *key {
            proof {
                lemma_key_position_found(fields_view(fields@), key@, i as int);
            }
            return Some(i);
        }
        i = i + 1;
    }
    proof {
        lemma_key_position_absent(fields_view(fields@), key@);
    }
    None
}

/// Sets the member `key` to `value`, in place when the object has it already.
pub fn set_member(fields: &mut Vec<(String, Json)>, key: String, value: Json)
    ensures
        fields_view(final(fields)@) == with_member(fields_view(old(fields)@), key@, value@),
{
    proof {
        lemma_fields_view(fields@);
    }
    let ghost old_view = fields_view(fields@);
    let ghost key_view = key@;
    let ghost value_view = value@;
    match find_member(fields, &key) {
        Some(i) => {
            let _ = fields.remove(i);
            fields.insert(i, (key, value));
            proof {
                lemma_fields_view(fields@);
                assert(fields_view(fields@) =~= old_view.update(i as int, (key_view, value_view)));
            }
        },
        None => {
            fields.push((key, value));
            proof {
                lemma_fields_view(fields@);
                assert(fields_view(fields@) =~= old_view.push((key_view, value_view)));
            }
        },
    }
}

/// A member named `key` at `j` means the lookup finds one at or before `j`.
pub proof fn lemma_first_key_exists(fields: Seq<(Seq<char>, JsonView)>, key: Seq<char>, j: int)
    requires
        0 <= j < fields.len(),
        fields[j].0 == key,
    ensures
        key_position(fields, key) matches Some(i) && i <= j,
    decreases j,
{
    if forall|m: int| 0 <= m < j ==> fields[m].0 != key {
        lemma_key_position_found(fields, key, j);
    } else {
        let m = choose|m: int| 0 <= m < j && fields[m].0 == key;
        lemma_first_key_exists(fields, key, m);
    }
}

/// When the lookup finds nothing, no member has the key.
pub proof fn lemma_key_position_none(fields: Seq<(Seq<char>, JsonView)>, key: Seq<char>)
    requires
        key_position(fields, key) is None,
    ensures
        forall|j: int| 0 <= j < fields.len() ==> fields[j].0 != key,
{
    assert forall|j: int| 0 <= j < fields.len() implies fields[j].0 != key by {
        if fields[j].0 == key {
            lemma_first_key_exists(fields, key, j);
        }
    }
}

/// Two member lists with the same keys find a key at the same position.
pub proof fn lemma_key_position_same_keys(
    a: Seq<(Seq<char>, JsonView)>,
    b: Seq<(Seq<char>, JsonView)>,
    key: Seq<char>,
)
    requires
        a.len() == b.len(),
        forall|j: int| 0 <= j < a.len() ==> a[j].0 == b[j].0,
    ensures
        key_position(a, key) == key_position(b, key),
{
    match key_position(a, key) {
        Some(i) => {
            lemma_key_position_valid(a, key);
            lemma_key_position_found(b, key, i);
        },
        None => {
            lemma_key_position_none(a, key);
            lemma_key_position_absent(b, key);
        },
    }
}

/// After setting a member, looking it up gives the value set.
pub proof fn lemma_member_set_same(fields: Seq<(Seq<char>, JsonView)>, key: Seq<char>, value: JsonView)
    ensures
        member(with_member(fields, key, value), key) == Some(value),
{
    let updated = with_member(fields, key, value);
    lemma_key_position_valid(fields, key);
    match key_position(fields, key) {
        Some(i) => {
            lemma_key_position_found(updated, key, i);
        },
        None => {
            lemma_key_position_none(fields, key);
            lemma_key_position_found(updated, key, fields.len() as int);
        },
    }
}

/// Setting a member leaves every other member as it was.
pub proof fn lemma_member_set_other(
    fields: Seq<(Seq<char>, JsonView)>,
    key: Seq<char>,
    other: Seq<char>,
    value: JsonView,
)
    requires
        key != other,
    ensures
        member(with_member(fields, key, value), other) == member(fields, other),
{
    let updated = with_member(fields, key, value);
    lemma_key_position_valid(fields, key);
    lemma_key_position_valid(fields, other);
    match key_position(fields, key) {
        Some(i) => {
            lemma_key_position_same_keys(fields, updated, other);
        },
        None => {
            match key_position(fields, other) {
                Some(p) => {
                    lemma_key_position_found(updated, other, p);
                },
                None => {
                    lemma_key_position_none(fields, other);
                    lemma_key_position_absent(updated, other);
                },
            }
        },
    }
}

/// Setting a member to the value it has changes nothing.
pub proof fn lemma_member_set_unchanged(
    fields: Seq<(Seq<char>, JsonView)>,
    key: Seq<char>,
    value: JsonView,
)
    requires
        member(fields, key) == Some(value),
    ensures
        with_member(fields, key, value) == fields,
{
    lemma_key_position_valid(fields, key);
    let i = key_position(fields, key)->0;
    assert(with_member(fields, key, value) =~= fields);
}

/// Setting a member keeps the keys of an object distinct.
pub proof fn lemma_member_set_distinct(
    fields: Seq<(Seq<char>, JsonView)>,
    key: Seq<char>,
    value: JsonView,
)
    requires
        keys_distinct(fields),
    ensures
        keys_distinct(with_member(fields, key, value)),
{
    lemma_key_position_valid(fields, key);
    if key_position(fields, key) is None {
        lemma_key_position_none(fields, key);
    }
}

/// In an object whose keys are distinct, the member named `key` is the one
/// at the position holding that key.
pub proof fn lemma_member_at(fields: Seq<(Seq<char>, JsonView)>, key: Seq<char>, i: int)
    requires
        keys_distinct(fields),
        0 <= i < fields.len(),
        fields[i].0 == key,
    ensures
        key_position(fields, key) == Some(i),
        member(fields, key) == Some(fields[i].1),
{
    assert(is_first_key(fields, key, i));
    lemma_key_position_found(fields, key, i);
}

} // verus!
