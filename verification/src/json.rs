//! JSON values as the library holds them, and the crossing to `serde_json`.

use vstd::prelude::*;

verus! {

/// `serde_json::Number`, carried along as it is.
#[verifier::external_type_specification]
#[verifier::external_body]
pub struct ExNumber(serde_json::Number);

/// `serde_json::Value`, read and made one layer at a time.
#[verifier::external_type_specification]
#[verifier::external_body]
pub struct ExValue(serde_json::Value);

/// `serde_json::Error`, which only signatures name.
#[verifier::external_type_specification]
#[verifier::external_body]
pub struct ExError(serde_json::Error);

/// What a JSON number is: a non-negative integer, a negative integer, or a
/// floating-point number given by its bit pattern.
pub enum NumberView {
    Unsigned(u64),
    Negative(i64),
    Float(u64),
}

/// What a JSON value is. The fields of an object have no order.
pub enum JsonView {
    Null,
    Bool(bool),
    Number(NumberView),
    String(Seq<char>),
    Array(Seq<JsonView>),
    Object(Map<Seq<char>, JsonView>),
}

impl JsonView {
    /// The value of an object's field `name`; nothing where there is no such
    /// field, or no object.
    pub open spec fn field(self, name: Seq<char>) -> Option<JsonView> {
        match self {
            JsonView::Object(fields) => if fields.contains_key(name) {
                Some(fields[name])
            } else {
                None
            },
            _ => None,
        }
    }
}

/// What a `serde_json::Number` is.
pub uninterp spec fn number_contents(number: serde_json::Number) -> NumberView;

/// What a `serde_json::Value` is.
pub uninterp spec fn json_contents(value: serde_json::Value) -> JsonView;

/// A JSON value.
#[derive(Debug)]
pub enum JsonValue {
    /// `null`.
    Null,
    /// `true` or `false`.
    Bool(bool),
    /// A number, kept as parsed.
    Number(serde_json::Number),
    /// A string.
    String(String),
    /// An array.
    Array(Vec<JsonValue>),
    /// An object, field by field; of two fields with one name the later counts.
    Object(Vec<(String, JsonValue)>),
}

impl JsonValue {
    /// What this value is.
    pub open spec fn model(self) -> JsonView
        decreases self,
    {
        match self {
            JsonValue::Null => JsonView::Null,
            JsonValue::Bool(b) => JsonView::Bool(b),
            JsonValue::Number(n) => JsonView::Number(number_contents(n)),
            JsonValue::String(s) => JsonView::String(s@),
            JsonValue::Array(items) => JsonView::Array(items_model(items@)),
            JsonValue::Object(fields) => JsonView::Object(fields_model(fields@)),
        }
    }

    /// Every object inside lists its fields by ascending name, each name once.
    pub open spec fn ordered(self) -> bool
        decreases self,
    {
        match self {
            JsonValue::Array(items) => forall|i: int|
                0 <= i < items@.len() ==> (#[trigger] items@[i]).ordered(),
            JsonValue::Object(fields) => ascending(field_names(fields@)) && forall|i: int|
                0 <= i < fields@.len() ==> (#[trigger] fields@[i]).1.ordered(),
            _ => true,
        }
    }
}

impl View for JsonValue {
    type V = JsonView;

    open spec fn view(&self) -> JsonView {
        self.model()
    }
}

/// What the items of an array are.
pub open spec fn items_model(items: Seq<JsonValue>) -> Seq<JsonView>
    decreases items,
{
    if items.len() == 0 {
        Seq::empty()
    } else {
        items_model(items.drop_last()).push(items.last().model())
    }
}

/// What the fields of an object are.
pub open spec fn fields_model(fields: Seq<(String, JsonValue)>) -> Map<Seq<char>, JsonView>
    decreases fields,
{
    if fields.len() == 0 {
        Map::empty()
    } else {
        fields_model(fields.drop_last()).insert(fields.last().0@, fields.last().1.model())
    }
}

/// An array has one item for each of the list's, in order.
pub proof fn lemma_items_model(items: Seq<JsonValue>)
    ensures
        items_model(items).len() == items.len(),
        forall|i: int| 0 <= i < items.len() ==> items_model(items)[i] == (#[trigger] items[i])@,
    decreases items.len(),
{
    if items.len() > 0 {
        let before = items.drop_last();
        lemma_items_model(before);
        assert forall|i: int| 0 <= i < items.len() implies items_model(items)[i] == (
        #[trigger] items[i])@ by {
            if i < before.len() {
                assert(before[i] == items[i]);
            }
        }
    }
}

/// The names of an object's fields, in order.
pub open spec fn field_names<T>(fields: Seq<(String, T)>) -> Seq<Seq<char>> {
    Seq::new(fields.len(), |i: int| fields[i].0@)
}

/// The order of strings: by their first differing character, and a proper
/// prefix before what it begins.
pub open spec fn precedes(a: Seq<char>, b: Seq<char>) -> bool
    decreases a.len(),
{
    if b.len() == 0 {
        false
    } else if a.len() == 0 {
        true
    } else if a[0] == b[0] {
        precedes(a.drop_first(), b.drop_first())
    } else {
        (a[0] as u32) < (b[0] as u32)
    }
}

/// Each name comes before all that follow it.
pub open spec fn ascending(names: Seq<Seq<char>>) -> bool {
    forall|i: int, j: int|
        0 <= i < j < names.len() ==> precedes(#[trigger] names[i], #[trigger] names[j])
}

/// No string comes before itself.
pub proof fn lemma_precedes_irreflexive(a: Seq<char>)
    ensures
        !precedes(a, a),
    decreases a.len(),
{
    if a.len() > 0 {
        lemma_precedes_irreflexive(a.drop_first());
    }
}

/// Of three strings in order, the first comes before the last.
pub proof fn lemma_precedes_transitive(a: Seq<char>, b: Seq<char>, c: Seq<char>)
    requires
        precedes(a, b),
        precedes(b, c),
    ensures
        precedes(a, c),
    decreases a.len(),
{
    if a.len() > 0 && a[0] == b[0] && b[0] == c[0] {
        lemma_precedes_transitive(a.drop_first(), b.drop_first(), c.drop_first());
    }
}

/// A list of an object's fields by ascending name, each field once.
pub open spec fn lists(
    entries: Seq<(Seq<char>, JsonView)>,
    fields: Map<Seq<char>, JsonView>,
) -> bool {
    &&& ascending(Seq::new(entries.len(), |i: int| entries[i].0))
    &&& forall|i: int|
        0 <= i < entries.len() ==> fields.contains_key((#[trigger] entries[i]).0)
            && fields[entries[i].0] == entries[i].1
    &&& forall|name: Seq<char>| #[trigger]
        fields.contains_key(name) ==> exists|i: int|
            0 <= i < entries.len() && (#[trigger] entries[i]).0 == name
}

/// An object's fields by ascending name.
pub open spec fn listing(fields: Map<Seq<char>, JsonView>) -> Seq<(Seq<char>, JsonView)> {
    choose|entries: Seq<(Seq<char>, JsonView)>| lists(entries, fields)
}

/// There is one way to list an object's fields by ascending name.
pub proof fn lemma_listing_is_unique(
    a: Seq<(Seq<char>, JsonView)>,
    b: Seq<(Seq<char>, JsonView)>,
    fields: Map<Seq<char>, JsonView>,
)
    requires
        lists(a, fields),
        lists(b, fields),
    ensures
        a == b,
    decreases a.len(),
{
    let names_a = Seq::new(a.len(), |i: int| a[i].0);
    let names_b = Seq::new(b.len(), |i: int| b[i].0);
    if a.len() == 0 {
        if b.len() > 0 {
            assert(fields.contains_key(b[0].0));
        }
        assert(a =~= b);
    } else {
        assert(fields.contains_key(a[0].0));
        let j = choose|j: int| 0 <= j < b.len() && (#[trigger] b[j]).0 == a[0].0;
        assert(fields.contains_key(b[0].0));
        let i = choose|i: int| 0 <= i < a.len() && (#[trigger] a[i]).0 == b[0].0;
        if j > 0 {
            assert(precedes(names_b[0], names_b[j]));
            if i > 0 {
                assert(precedes(names_a[0], names_a[i]));
                lemma_precedes_transitive(names_b[0], names_a[0], names_b[0]);
            }
            lemma_precedes_irreflexive(names_b[0]);
        }
        assert(a[0] == b[0]);
        let rest = fields.remove(a[0].0);
        lemma_listing_of_rest(a, fields);
        lemma_listing_of_rest(b, fields);
        lemma_listing_is_unique(a.drop_first(), b.drop_first(), rest);
        assert(a =~= seq![a[0]] + a.drop_first());
        assert(b =~= seq![b[0]] + b.drop_first());
    }
}

/// Without its first entry, a list lists the other fields.
pub proof fn lemma_listing_of_rest(
    entries: Seq<(Seq<char>, JsonView)>,
    fields: Map<Seq<char>, JsonView>,
)
    requires
        lists(entries, fields),
        entries.len() > 0,
    ensures
        lists(entries.drop_first(), fields.remove(entries[0].0)),
{
    let names = Seq::new(entries.len(), |i: int| entries[i].0);
    let rest = entries.drop_first();
    let left = fields.remove(entries[0].0);
    let rest_names = Seq::new(rest.len(), |i: int| rest[i].0);
    assert forall|i: int, j: int| 0 <= i < j < rest_names.len() implies precedes(
        #[trigger] rest_names[i],
        #[trigger] rest_names[j],
    ) by {
        assert(precedes(names[i + 1], names[j + 1]));
    }
    assert forall|i: int| 0 <= i < rest.len() implies left.contains_key((#[trigger] rest[i]).0)
        && left[rest[i].0] == rest[i].1 by {
        assert(rest[i] == entries[i + 1]);
        assert(precedes(names[0], names[i + 1]));
        lemma_precedes_irreflexive(names[0]);
    }
    assert forall|name: Seq<char>| #[trigger] left.contains_key(name) implies exists|i: int|
        0 <= i < rest.len() && (#[trigger] rest[i]).0 == name by {
        assert(fields.contains_key(name));
        let k = choose|k: int| 0 <= k < entries.len() && (#[trigger] entries[k]).0 == name;
        assert(rest[k - 1].0 == name);
    }
}

/// Fields as what they are, in the order in which they stand.
pub open spec fn entries_of(fields: Seq<(String, JsonValue)>) -> Seq<(Seq<char>, JsonView)> {
    Seq::new(fields.len(), |i: int| (fields[i].0@, fields[i].1@))
}

/// Fields that stand by ascending name are the listing of their object.
pub proof fn lemma_ordered_fields_are_listed(fields: Seq<(String, JsonValue)>)
    requires
        ascending(field_names(fields)),
    ensures
        entries_of(fields) == listing(fields_model(fields)),
{
    lemma_fields_are_listed(fields);
    lemma_listing_is_unique(
        entries_of(fields),
        listing(fields_model(fields)),
        fields_model(fields),
    );
}

proof fn lemma_fields_are_listed(fields: Seq<(String, JsonValue)>)
    requires
        ascending(field_names(fields)),
    ensures
        lists(entries_of(fields), fields_model(fields)),
    decreases fields.len(),
{
    let entries = entries_of(fields);
    let model = fields_model(fields);
    let names = field_names(fields);
    assert(Seq::new(entries.len(), |i: int| entries[i].0) =~= names);
    if fields.len() > 0 {
        let before = fields.drop_last();
        let last = fields.len() - 1;
        assert forall|i: int, j: int| 0 <= i < j < before.len() implies precedes(
            #[trigger] field_names(before)[i],
            #[trigger] field_names(before)[j],
        ) by {
            assert(precedes(names[i], names[j]));
        }
        lemma_fields_are_listed(before);
        assert forall|i: int| 0 <= i < entries.len() implies model.contains_key(
            (#[trigger] entries[i]).0,
        ) && model[entries[i].0] == entries[i].1 by {
            if i < last {
                assert(entries_of(before)[i] == entries[i]);
                assert(precedes(names[i], names[last]));
                lemma_precedes_irreflexive(names[i]);
            }
        }
        assert forall|name: Seq<char>| #[trigger] model.contains_key(name) implies exists|i: int|
            0 <= i < entries.len() && (#[trigger] entries[i]).0 == name by {
            if name == fields.last().0@ {
                assert(entries[last].0 == name);
            } else {
                assert(fields_model(before).contains_key(name));
                let k = choose|k: int|
                    0 <= k < before.len() && (#[trigger] entries_of(before)[k]).0 == name;
                assert(entries[k].0 == name);
            }
        }
    }
}

/// One layer of a JSON value: what lies inside is still `serde_json`'s.
pub enum JsonLayer {
    /// `null`.
    Null,
    /// `true` or `false`.
    Bool(bool),
    /// A number.
    Number(serde_json::Number),
    /// A string.
    String(String),
    /// An array's items.
    Array(Vec<serde_json::Value>),
    /// An object's fields.
    Object(Vec<(String, serde_json::Value)>),
}

impl JsonLayer {
    /// What the value is of which this is the outer layer.
    pub open spec fn model(self) -> JsonView {
        match self {
            JsonLayer::Null => JsonView::Null,
            JsonLayer::Bool(b) => JsonView::Bool(b),
            JsonLayer::Number(n) => JsonView::Number(number_contents(n)),
            JsonLayer::String(s) => JsonView::String(s@),
            JsonLayer::Array(items) => JsonView::Array(
                Seq::new(items@.len(), |i: int| json_contents(items@[i])),
            ),
            JsonLayer::Object(fields) => JsonView::Object(layer_fields(fields@)),
        }
    }
}

/// What the fields of an object are; of two with one name the later counts.
pub open spec fn layer_fields(fields: Seq<(String, serde_json::Value)>) -> Map<Seq<char>, JsonView>
    decreases fields.len(),
{
    if fields.len() == 0 {
        Map::empty()
    } else {
        layer_fields(fields.drop_last()).insert(
            fields.last().0@,
            json_contents(fields.last().1),
        )
    }
}

/// A name that comes once in a list of fields has the value that stands by it.
proof fn lemma_layer_fields(fields: Seq<(String, serde_json::Value)>, at: int)
    requires
        ascending(field_names(fields)),
        0 <= at < fields.len(),
    ensures
        layer_fields(fields).dom().finite(),
        layer_fields(fields).contains_key(fields[at].0@),
        layer_fields(fields)[fields[at].0@] == json_contents(fields[at].1),
    decreases fields.len(),
{
    let before = fields.drop_last();
    let names = field_names(fields);
    assert(ascending(field_names(before))) by {
        assert forall|i: int, j: int| 0 <= i < j < before.len() implies precedes(
            #[trigger] field_names(before)[i],
            #[trigger] field_names(before)[j],
        ) by {
            assert(precedes(names[i], names[j]));
        }
    }
    if at < before.len() {
        lemma_layer_fields(before, at);
        assert(precedes(names[at], names[fields.len() - 1]));
        lemma_precedes_irreflexive(names[at]);
    } else if before.len() > 0 {
        lemma_layer_fields(before, 0);
    } else {
        assert(layer_fields(before) == Map::<Seq<char>, JsonView>::empty());
    }
}

/// Takes the outer layer off a `serde_json::Value`, one variant for one. A
/// `serde_json::Map` is a `BTreeMap`, whose `into_iter` hands the fields out by
/// ascending name.
#[verifier::external_body]
fn open_layer(value: serde_json::Value) -> (r: JsonLayer)
    ensures
        r.model() == json_contents(value),
        r matches JsonLayer::Object(fields) ==> ascending(field_names(fields@)),
{
    match value {
        serde_json::Value::Null => JsonLayer::Null,
        serde_json::Value::Bool(b) => JsonLayer::Bool(b),
        serde_json::Value::Number(n) => JsonLayer::Number(n),
        serde_json::Value::String(s) => JsonLayer::String(s),
        serde_json::Value::Array(items) => JsonLayer::Array(items),
        serde_json::Value::Object(fields) => JsonLayer::Object(fields.into_iter().collect()),
    }
}

/// Builds a `serde_json::Value` from its outer layer, one variant for one. The
/// fields go into a `serde_json::Map` by `extend`, which replaces the value of
/// a name that is already there.
#[verifier::external_body]
fn close_layer(layer: JsonLayer) -> (r: serde_json::Value)
    ensures
        json_contents(r) == layer.model(),
{
    match layer {
        JsonLayer::Null => serde_json::Value::Null,
        JsonLayer::Bool(b) => serde_json::Value::Bool(b),
        JsonLayer::Number(n) => serde_json::Value::Number(n),
        JsonLayer::String(s) => serde_json::Value::String(s),
        JsonLayer::Array(items) => serde_json::Value::Array(items),
        JsonLayer::Object(fields) => {
            let mut map = serde_json::Map::new();
            map.extend(fields);
            serde_json::Value::Object(map)
        },
    }
}

/// `serde_json::Number::clone`: the copy is the number itself.
pub assume_specification[ <serde_json::Number as Clone>::clone ](
    number: &serde_json::Number,
) -> (r: serde_json::Number)
    ensures
        r == *number,
;

/// `serde_json::Number::from` of a `u64`: the integer itself.
#[verifier::external_body]
fn number_of(value: u64) -> (r: serde_json::Number)
    ensures
        number_contents(r) == NumberView::Unsigned(value),
{
    serde_json::Number::from(value)
}

impl JsonValue {
    /// The integer `value`.
    pub fn integer(value: u64) -> (r: JsonValue)
        ensures
            r@ == JsonView::Number(NumberView::Unsigned(value)),
    {
        JsonValue::Number(number_of(value))
    }

    /// The value a `serde_json::Value` holds.
    pub fn from_serde(value: serde_json::Value) -> (r: JsonValue)
        ensures
            r@ == json_contents(value),
            r.ordered(),
        decreases json_contents(value),
    {
        match open_layer(value) {
            JsonLayer::Null => JsonValue::Null,
            JsonLayer::Bool(b) => JsonValue::Bool(b),
            JsonLayer::Number(n) => JsonValue::Number(n),
            JsonLayer::String(s) => JsonValue::String(s),
            JsonLayer::Array(items) => {
                let ghost whole = items@;
                let mut taken: Vec<JsonValue> = Vec::new();
                for item in it: items
                    invariant
                        json_contents(value) == JsonView::Array(
                            Seq::new(whole.len(), |i: int| json_contents(whole[i])),
                        ),
                        it.seq() == whole,
                        taken@.len() == it.index(),
                        forall|i: int| 0 <= i < taken@.len() ==> (#[trigger] taken@[i]).ordered(),
                        items_model(taken@) == Seq::new(
                            it.index() as nat,
                            |i: int| json_contents(whole[i]),
                        ),
                {
                    let ghost before = taken@;
                    proof {
                        let inner = json_contents(value)->Array_0;
                        assert(inner[it.index()] == json_contents(item));
                        assert(decreases_to!(inner => inner[it.index()]));
                    }
                    let next = JsonValue::from_serde(item);
                    taken.push(next);
                    assert(taken@.drop_last() =~= before);
                    assert(items_model(taken@) =~= Seq::new(
                        (it.index() + 1) as nat,
                        |i: int| json_contents(whole[i]),
                    ));
                }
                assert(items_model(taken@) =~= Seq::new(
                    whole.len(),
                    |i: int| json_contents(whole[i]),
                ));
                JsonValue::Array(taken)
            },
            JsonLayer::Object(fields) => {
                let ghost whole = fields@;
                let mut taken: Vec<(String, JsonValue)> = Vec::new();
                for field in it: fields
                    invariant
                        json_contents(value) == JsonView::Object(layer_fields(whole)),
                        ascending(field_names(whole)),
                        it.seq() == whole,
                        taken@.len() == it.index(),
                        field_names(taken@) == field_names(whole.take(it.index())),
                        forall|i: int|
                            0 <= i < taken@.len() ==> (#[trigger] taken@[i]).1.ordered(),
                        fields_model(taken@) == layer_fields(whole.take(it.index())),
                {
                    let ghost before = taken@;
                    proof {
                        let inner = json_contents(value)->Object_0;
                        lemma_layer_fields(whole, it.index());
                        assert(decreases_to!(inner => inner[field.0@]));
                    }
                    let (name, inside) = field;
                    let next = JsonValue::from_serde(inside);
                    taken.push((name, next));
                    proof {
                        let seen = whole.take(it.index() + 1);
                        assert(taken@.drop_last() =~= before);
                        assert(seen.drop_last() =~= whole.take(it.index()));
                        assert(field_names(taken@) =~= field_names(seen)) by {
                            assert forall|i: int| 0 <= i < taken@.len() implies field_names(
                                taken@,
                            )[i] == field_names(seen)[i] by {
                                if i < before.len() {
                                    assert(field_names(before)[i] == field_names(
                                        whole.take(it.index()),
                                    )[i]);
                                }
                            }
                        }
                    }
                }
                assert(whole.take(whole.len() as int) =~= whole);
                JsonValue::Object(taken)
            },
        }
    }

    /// The `serde_json::Value` that holds this value.
    pub fn to_serde(&self) -> (r: serde_json::Value)
        ensures
            json_contents(r) == self@,
        decreases self,
    {
        match self {
            JsonValue::Null => close_layer(JsonLayer::Null),
            JsonValue::Bool(b) => close_layer(JsonLayer::Bool(*b)),
            JsonValue::Number(n) => close_layer(JsonLayer::Number(n.clone())),
            JsonValue::String(s) => close_layer(JsonLayer::String(s.clone())),
            JsonValue::Array(items) => {
                let mut made: Vec<serde_json::Value> = Vec::new();
                let mut i: usize = 0;
                while i < items.len()
                    invariant
                        *self == JsonValue::Array(*items),
                        i <= items@.len(),
                        made@.len() == i,
                        forall|k: int|
                            0 <= k < i ==> json_contents(#[trigger] made@[k]) == items@[k]@,
                    decreases items@.len() - i,
                {
                    assert(decreases_to!(self->Array_0 => self->Array_0[i as int]));
                    made.push(items[i].to_serde());
                    i = i + 1;
                }
                proof {
                    lemma_items_model(items@);
                    assert(items_model(items@) =~= Seq::new(
                        made@.len(),
                        |k: int| json_contents(made@[k]),
                    ));
                }
                close_layer(JsonLayer::Array(made))
            },
            JsonValue::Object(fields) => {
                let mut made: Vec<(String, serde_json::Value)> = Vec::new();
                let mut i: usize = 0;
                while i < fields.len()
                    invariant
                        *self == JsonValue::Object(*fields),
                        i <= fields@.len(),
                        layer_fields(made@) == fields_model(fields@.take(i as int)),
                    decreases fields@.len() - i,
                {
                    let ghost before = made@;
                    assert(decreases_to!(self->Object_0 => self->Object_0[i as int]));
                    made.push((fields[i].0.clone(), fields[i].1.to_serde()));
                    proof {
                        assert(made@.drop_last() =~= before);
                        assert(fields@.take(i + 1).drop_last() =~= fields@.take(i as int));
                    }
                    i = i + 1;
                }
                assert(fields@.take(fields@.len() as int) =~= fields@);
                close_layer(JsonLayer::Object(made))
            },
        }
    }

    /// A value that is the same.
    pub fn duplicate(&self) -> (r: JsonValue)
        ensures
            r@ == self@,
        decreases self,
    {
        match self {
            JsonValue::Null => JsonValue::Null,
            JsonValue::Bool(b) => JsonValue::Bool(*b),
            JsonValue::Number(n) => JsonValue::Number(n.clone()),
            JsonValue::String(s) => JsonValue::String(s.clone()),
            JsonValue::Array(items) => {
                let mut made: Vec<JsonValue> = Vec::new();
                let mut i: usize = 0;
                while i < items.len()
                    invariant
                        *self == JsonValue::Array(*items),
                        i <= items@.len(),
                        made@.len() == i,
                        forall|k: int| 0 <= k < i ==> (#[trigger] made@[k])@ == items@[k]@,
                    decreases items@.len() - i,
                {
                    assert(decreases_to!(self->Array_0 => self->Array_0[i as int]));
                    made.push(items[i].duplicate());
                    i = i + 1;
                }
                proof {
                    lemma_items_model(items@);
                    lemma_items_model(made@);
                    assert forall|k: int| 0 <= k < i implies items_model(made@)[k] == items_model(
                        items@,
                    )[k] by {
                        assert(made@[k]@ == items@[k]@);
                    }
                    assert(items_model(made@) =~= items_model(items@));
                }
                JsonValue::Array(made)
            },
            JsonValue::Object(fields) => {
                let mut made: Vec<(String, JsonValue)> = Vec::new();
                let mut i: usize = 0;
                while i < fields.len()
                    invariant
                        *self == JsonValue::Object(*fields),
                        i <= fields@.len(),
                        fields_model(made@) == fields_model(fields@.take(i as int)),
                    decreases fields@.len() - i,
                {
                    let ghost before = made@;
                    assert(decreases_to!(self->Object_0 => self->Object_0[i as int]));
                    made.push((fields[i].0.clone(), fields[i].1.duplicate()));
                    proof {
                        assert(made@.drop_last() =~= before);
                        assert(fields@.take(i + 1).drop_last() =~= fields@.take(i as int));
                    }
                    i = i + 1;
                }
                assert(fields@.take(fields@.len() as int) =~= fields@);
                JsonValue::Object(made)
            },
        }
    }

    /// The value of an object's field `name`; nothing where there is no such
    /// field, or no object.
    pub fn get(&self, name: &str) -> (r: Option<&JsonValue>)
        ensures
            r is Some <==> self@.field(name@) is Some,
            r matches Some(value) ==> self@.field(name@) == Some(value@),
            r matches Some(value) ==> self.ordered() ==> value.ordered(),
    {
        match self {
            JsonValue::Object(fields) => {
                let wanted: String = name.to_owned();
                let mut i: usize = fields.len();
                assert(fields@.take(fields@.len() as int) =~= fields@);
                while i > 0
                    invariant
                        *self == JsonValue::Object(*fields),
                        wanted@ == name@,
                        i <= fields@.len(),
                        fields_model(fields@.take(i as int)).contains_key(name@)
                            == fields_model(fields@).contains_key(name@),
                        fields_model(fields@).contains_key(name@) ==> fields_model(
                            fields@.take(i as int),
                        )[name@] == fields_model(fields@)[name@],
                    decreases i,
                {
                    assert(fields@.take(i as int).drop_last() =~= fields@.take(i - 1));
                    i = i - 1;
                    if fields[i].0 == wanted {
                        return Some(&fields[i].1);
                    }
                }
                None
            },
            _ => None,
        }
    }
}

/// Adds a field to those of an object.
pub fn push_field(fields: &mut Vec<(String, JsonValue)>, name: &str, value: JsonValue)
    ensures
        fields_model(final(fields)@) == fields_model(old(fields)@).insert(name@, value@),
{
    fields.push((name.to_owned(), value));
    assert(fields@.drop_last() =~= old(fields)@);
}

/// Fields that are the same, in the same order.
pub fn duplicate_fields(fields: &Vec<(String, JsonValue)>) -> (r: Vec<(String, JsonValue)>)
    ensures
        entries_of(r@) == entries_of(fields@),
{
    let mut made: Vec<(String, JsonValue)> = Vec::new();
    let mut i: usize = 0;
    while i < fields.len()
        invariant
            i <= fields@.len(),
            made@.len() == i,
            forall|k: int|
                0 <= k < i ==> (#[trigger] made@[k]).0@ == fields@[k].0@ && made@[k].1@
                    == fields@[k].1@,
        decreases fields@.len() - i,
    {
        made.push((fields[i].0.clone(), fields[i].1.duplicate()));
        i = i + 1;
    }
    assert(entries_of(made@) =~= entries_of(fields@)) by {
        assert forall|k: int| 0 <= k < made@.len() implies entries_of(made@)[k] == entries_of(
            fields@,
        )[k] by {
            assert(made@[k].0@ == fields@[k].0@);
        }
    }
    made
}

/// A JSON string.
pub fn json_text(text: &str) -> (r: JsonValue)
    ensures
        r@ == JsonView::String(text@),
{
    JsonValue::String(text.to_owned())
}

impl Clone for JsonValue {
    fn clone(&self) -> (r: JsonValue)
        ensures
            r@ == self@,
    {
        self.duplicate()
    }
}

} // verus!
