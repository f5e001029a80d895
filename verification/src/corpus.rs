//! Embedding corpora: stored as bytes, handed to scripts as JSON.

use crate::error::WorkflowError;
use crate::json::{json_contents, number_contents, push_field, JsonValue, JsonView, NumberView};
use crate::text::join3;
use vstd::prelude::*;

verus! {

/// What a corpus item is.
pub struct CorpusItemView {
    /// The item's name.
    pub id: Seq<char>,
    /// The item's vector; a component that is not finite is no JSON number.
    pub vector: Seq<Option<NumberView>>,
    /// What the item carries along.
    pub payload: Option<JsonView>,
}

/// One item of a corpus.
#[derive(Debug)]
pub struct CorpusItem {
    /// The item's name.
    pub id: String,
    /// The item's vector; a component that is not finite is no JSON number.
    pub vector: Vec<Option<serde_json::Number>>,
    /// What the item carries along.
    pub payload: Option<JsonValue>,
}

/// What the components of a vector are.
pub open spec fn vector_view(vector: Seq<Option<serde_json::Number>>) -> Seq<Option<NumberView>> {
    Seq::new(
        vector.len(),
        |k: int|
            match vector[k] {
                None => None,
                Some(number) => Some(number_contents(number)),
            },
    )
}

impl View for CorpusItem {
    type V = CorpusItemView;

    open spec fn view(&self) -> CorpusItemView {
        CorpusItemView {
            id: self.id@,
            vector: vector_view(self.vector@),
            payload: match self.payload {
                None => None,
                Some(value) => Some(value@),
            },
        }
    }
}

/// What the items of a corpus are.
pub open spec fn corpus_view(items: Seq<CorpusItem>) -> Seq<CorpusItemView> {
    Seq::new(items.len(), |i: int| items[i]@)
}

/// A corpus item as decoded, its payload still `serde_json`'s.
pub struct DecodedItem {
    /// The item's name.
    pub id: String,
    /// The item's vector; a component that is not finite is no JSON number.
    pub vector: Vec<Option<serde_json::Number>>,
    /// What the item carries along.
    pub payload: Option<serde_json::Value>,
}

impl View for DecodedItem {
    type V = CorpusItemView;

    open spec fn view(&self) -> CorpusItemView {
        CorpusItemView {
            id: self.id@,
            vector: vector_view(self.vector@),
            payload: match self.payload {
                None => None,
                Some(value) => Some(json_contents(value)),
            },
        }
    }
}

/// A decoding's outcome, as what it holds.
pub open spec fn decode_outcome(
    r: Result<Vec<DecodedItem>, String>,
) -> Result<Seq<CorpusItemView>, Seq<char>> {
    match r {
        Ok(items) => Ok(Seq::new(items@.len(), |i: int| items@[i]@)),
        Err(message) => Err(message@),
    }
}

/// What decoding some bytes as a corpus gives: the items, or the message of the
/// error.
pub uninterp spec fn corpus_decoded(bytes: Seq<u8>) -> Result<Seq<CorpusItemView>, Seq<char>>;

/// `philharmonic_policy::decode_corpus`: the items, or the error's message.
/// The outcome hangs on the bytes alone. Each component of a vector becomes the
/// JSON number that `serde_json::Number::from_f64` makes of it, which is none
/// for a component that is not finite.
#[verifier::external_body]
fn decode_items(bytes: &[u8]) -> (r: Result<Vec<DecodedItem>, String>)
    ensures
        decode_outcome(r) == corpus_decoded(bytes@),
{
    match philharmonic_policy::decode_corpus(bytes) {
        Ok(items) => Ok(items.into_iter().map(|item| DecodedItem {
            id: item.id,
            vector: item.vector.into_iter()
                .map(|x| serde_json::Number::from_f64(x.into())).collect(),
            payload: item.payload,
        }).collect()),
        Err(error) => Err(error.to_string()),
    }
}

/// Decodes a corpus.
pub fn decode_corpus(bytes: &[u8]) -> (r: Result<Vec<CorpusItem>, String>)
    ensures
        corpus_decoded(bytes@) matches Ok(items) ==> r is Ok && corpus_view(r->Ok_0@) == items,
        corpus_decoded(bytes@) matches Err(message) ==> r is Err && r->Err_0@ == message,
{
    match decode_items(bytes) {
        Err(message) => Err(message),
        Ok(decoded) => {
            let ghost whole = decoded@;
            let mut items: Vec<CorpusItem> = Vec::new();
            for item in it: decoded
                invariant
                    it.seq() == whole,
                    items@.len() == it.index(),
                    forall|i: int| 0 <= i < items@.len() ==> (#[trigger] items@[i])@ == whole[i]@,
            {
                let payload = match item.payload {
                    None => None,
                    Some(value) => Some(JsonValue::from_serde(value)),
                };
                items.push(CorpusItem { id: item.id, vector: item.vector, payload });
            }
            assert(corpus_view(items@) =~= Seq::new(whole.len(), |i: int| whole[i]@));
            Ok(items)
        },
    }
}

impl CorpusItemView {
    /// Every component of the vector is finite.
    pub open spec fn finite(self) -> bool {
        forall|k: int| 0 <= k < self.vector.len() ==> (#[trigger] self.vector[k]) is Some
    }

    /// The item as JSON: its name, its vector, and its payload where it has one.
    pub open spec fn json(self) -> JsonView {
        let named = map![
            "id"@ => JsonView::String(self.id),
            "vector"@ => JsonView::Array(
                Seq::new(self.vector.len(), |k: int| JsonView::Number(self.vector[k]->Some_0)),
            ),
        ];
        match self.payload {
            None => JsonView::Object(named),
            Some(payload) => JsonView::Object(named.insert("payload"@, payload)),
        }
    }
}

/// The first item of a corpus with a component that is not finite.
pub open spec fn first_infinite(items: Seq<CorpusItemView>) -> int {
    choose|i: int| #![trigger items[i]]
        0 <= i < items.len() && !items[i].finite() && forall|j: int|
            0 <= j < i ==> (#[trigger] items[j]).finite()
}

/// A corpus as JSON, an array of its items in order; where a component of a
/// vector is not finite, a message naming the first item that has one.
pub open spec fn corpus_json(items: Seq<CorpusItemView>) -> Result<JsonView, Seq<char>> {
    if forall|i: int| 0 <= i < items.len() ==> (#[trigger] items[i]).finite() {
        Ok(JsonView::Array(Seq::new(items.len(), |i: int| items[i].json())))
    } else {
        Err(
            "corpus item "@ + items[first_infinite(items)].id
                + " contains a non-finite vector value"@,
        )
    }
}

proof fn lemma_first_infinite(items: Seq<CorpusItemView>, at: int)
    requires
        0 <= at < items.len(),
        !items[at].finite(),
        forall|j: int| 0 <= j < at ==> (#[trigger] items[j]).finite(),
    ensures
        first_infinite(items) == at,
{
    let first = first_infinite(items);
    assert(0 <= first < items.len() && !items[first].finite());
    if first < at {
        assert(items[first].finite());
    } else if at < first {
        assert(items[at].finite());
    }
}

/// The components of a vector as JSON numbers, where all are finite.
fn vector_to_json(vector: &Vec<Option<serde_json::Number>>) -> (r: Option<Vec<JsonValue>>)
    ensures
        r is Some <==> forall|k: int| 0 <= k < vector@.len() ==> (#[trigger] vector@[k]) is Some,
        r matches Some(numbers) ==> JsonValue::Array(numbers)@ == JsonView::Array(
            Seq::new(
                vector@.len(),
                |k: int| JsonView::Number(vector_view(vector@)[k]->Some_0),
            ),
        ),
{
    let mut numbers: Vec<JsonValue> = Vec::new();
    let mut k: usize = 0;
    while k < vector.len()
        invariant
            k <= vector@.len(),
            numbers@.len() == k,
            forall|j: int| 0 <= j < k ==> (#[trigger] vector@[j]) is Some,
            forall|j: int|
                0 <= j < k ==> (#[trigger] numbers@[j])@ == JsonView::Number(
                    vector_view(vector@)[j]->Some_0,
                ),
        decreases vector@.len() - k,
    {
        match &vector[k] {
            None => {
                assert(vector@[k as int] is None);
                return None;
            },
            Some(number) => {
                numbers.push(JsonValue::Number(number.clone()));
            },
        }
        k = k + 1;
    }
    proof {
        crate::json::lemma_items_model(numbers@);
        assert(crate::json::items_model(numbers@) =~= Seq::new(
            vector@.len(),
            |j: int| JsonView::Number(vector_view(vector@)[j]->Some_0),
        )) by {
            assert forall|j: int| 0 <= j < numbers@.len() implies crate::json::items_model(
                numbers@,
            )[j] == JsonView::Number(vector_view(vector@)[j]->Some_0) by {
                assert(numbers@[j]@ == JsonView::Number(vector_view(vector@)[j]->Some_0));
            }
        }
    }
    Some(numbers)
}

/// A corpus as JSON.
pub fn corpus_items_to_json(items: &[CorpusItem]) -> (r: Result<JsonValue, WorkflowError>)
    ensures
        corpus_json(corpus_view(items@)) matches Ok(value) ==> r is Ok && r->Ok_0@ == value,
        corpus_json(corpus_view(items@)) matches Err(text) ==> r is Err
            && r->Err_0.is_data_config_error(text),
{
    let ghost view = corpus_view(items@);
    let mut values: Vec<JsonValue> = Vec::new();
    let mut i: usize = 0;
    while i < items.len()
        invariant
            view == corpus_view(items@),
            i <= items@.len(),
            values@.len() == i,
            forall|j: int| 0 <= j < i ==> (#[trigger] view[j]).finite(),
            forall|j: int| 0 <= j < i ==> (#[trigger] values@[j])@ == view[j].json(),
        decreases items@.len() - i,
    {
        let item = &items[i];
        assert(view[i as int] == item@);
        match vector_to_json(&item.vector) {
            None => {
                proof {
                    let k = choose|k: int|
                        0 <= k < item.vector@.len() && (#[trigger] item.vector@[k]) is None;
                    assert(view[i as int].vector[k] is None);
                    lemma_first_infinite(view, i as int);
                }
                return Err(
                    WorkflowError::DataConfigInvalid {
                        detail: join3(
                            "corpus item ",
                            item.id.as_str(),
                            " contains a non-finite vector value",
                        ),
                    },
                );
            },
            Some(vector) => {
                proof {
                    assert forall|k: int| 0 <= k < view[i as int].vector.len() implies (
                    #[trigger] view[i as int].vector[k]) is Some by {
                        assert(item.vector@[k] is Some);
                    }
                }
                let mut object: Vec<(String, JsonValue)> = Vec::new();
                push_field(&mut object, "id", JsonValue::String(item.id.clone()));
                push_field(&mut object, "vector", JsonValue::Array(vector));
                match &item.payload {
                    None => {},
                    Some(payload) => {
                        push_field(&mut object, "payload", payload.clone());
                    },
                }
                values.push(JsonValue::Object(object));
            },
        }
        i = i + 1;
    }
    proof {
        crate::json::lemma_items_model(values@);
        assert(crate::json::items_model(values@) =~= Seq::new(
            view.len(),
            |j: int| view[j].json(),
        )) by {
            assert forall|j: int| 0 <= j < values@.len() implies crate::json::items_model(
                values@,
            )[j] == view[j].json() by {
                assert(values@[j]@ == view[j].json());
            }
        }
    }
    Ok(JsonValue::Array(values))
}

} // verus!
