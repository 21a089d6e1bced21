//! Queries: which values of the elements that were found are written.

use vstd::prelude::*;
use vstd::string::*;

use crate::error::ExportError;

verus! {

/// An element of a document.
#[verifier::external_type_specification]
#[verifier::external_body]
pub struct ExContent(typst::foundations::Content);

/// A value of the document language.
#[verifier::external_type_specification]
#[verifier::external_body]
pub struct ExValue(typst::foundations::Value);

/// The values that are written.
#[derive(Debug, PartialEq, Eq)]
pub enum QueryOutput<T> {
    /// One value by itself.
    One(T),
    /// A list of values.
    Many(Vec<T>),
}

/// What a [`QueryOutput`] holds.
pub enum QueryOutputView<T> {
    One(T),
    Many(Seq<T>),
}

impl<T> View for QueryOutput<T> {
    type V = QueryOutputView<T>;

    open spec fn view(&self) -> QueryOutputView<T> {
        match self {
            QueryOutput::One(value) => QueryOutputView::One(*value),
            QueryOutput::Many(values) => QueryOutputView::Many(values@),
        }
    }
}

/// The value of a field of an element, if the element has it.
pub uninterp spec fn field_value(
    element: typst::foundations::Content,
    name: Seq<char>,
) -> Option<typst::foundations::Value>;

/// Calls `get_by_name` of `typst::foundations::Content`.
///
/// The result is a function of the element and the name. It does not tell why a field is missing.
#[verifier::external_body]
fn read_field(element: &typst::foundations::Content, name: &str) -> (value: Option<
    typst::foundations::Value,
>)
    ensures
        value == field_value(*element, name@),
{
    element.get_by_name(name).ok()
}

/// An element as a value.
pub uninterp spec fn whole_value(
    element: typst::foundations::Content,
) -> typst::foundations::Value;

/// Calls `into_value` of `typst::foundations::Content`.
///
/// The result is a function of the element.
#[verifier::external_body]
fn take_whole(element: typst::foundations::Content) -> (value: typst::foundations::Value)
    ensures
        value == whole_value(element),
{
    typst::foundations::IntoValue::into_value(element)
}

/// What an optional text says.
pub open spec fn field_view(field: Option<String>) -> Option<Seq<char>> {
    match field {
        Some(field) => Some(field@),
        None => None,
    }
}

/// The value of an element: that of the field where one is asked for, else the whole.
pub open spec fn element_value(
    element: typst::foundations::Content,
    field: Option<Seq<char>>,
) -> Option<typst::foundations::Value> {
    match field {
        Some(name) => field_value(element, name),
        None => Some(whole_value(element)),
    }
}

/// The values of elements.
pub open spec fn element_values(
    elements: Seq<typst::foundations::Content>,
    field: Option<Seq<char>>,
) -> Seq<Option<typst::foundations::Value>> {
    elements.map_values(|element: typst::foundations::Content| element_value(element, field))
}

/// Takes the values of elements.
pub fn map_elements(elements: Vec<typst::foundations::Content>, field: &Option<String>) -> (values:
    Vec<Option<typst::foundations::Value>>)
    ensures
        values@ == element_values(elements@, field_view(*field)),
{
    let mut values: Vec<Option<typst::foundations::Value>> = Vec::new();
    let ghost all = element_values(elements@, field_view(*field));
    let ghost list = elements@;
    for element in it: elements
        invariant
            it.seq() == list,
            all == element_values(list, field_view(*field)),
            values@ == all.take(it.index()),
    {
        let value = match field {
            Some(name) => read_field(&element, name.as_str()),
            None => Some(take_whole(element)),
        };
        assert(all[it.index()] == value);
        values.push(value);
    }
    values
}

/// The values that are there, in their order.
pub open spec fn present<T>(values: Seq<Option<T>>) -> Seq<T>
    decreases values.len(),
{
    if values.len() == 0 {
        Seq::empty()
    } else {
        match values.last() {
            Some(value) => present(values.drop_last()).push(value),
            None => present(values.drop_last()),
        }
    }
}

/// Keeps the values that are there, in their order.
fn keep_present<T>(values: Vec<Option<T>>) -> (kept: Vec<T>)
    ensures
        kept@ == present(values@),
{
    let mut kept: Vec<T> = Vec::new();
    let ghost all = values@;
    for value in it: values
        invariant
            it.seq() == all,
            kept@ == present(all.take(it.index())),
    {
        assert(all.take(it.index() + 1).drop_last() =~= all.take(it.index()));
        match value {
            Some(value) => {
                kept.push(value);
            },
            None => {},
        }
    }
    assert(all.take(all.len() as int) =~= all);
    kept
}

/// The values to write, given the value of each element. Where one is asked for, there must be
/// exactly one element, and it must have a value.
pub open spec fn select_spec<T>(values: Seq<Option<T>>, one: bool) -> Result<
    QueryOutputView<T>,
    ExportError,
> {
    if !one {
        Ok(QueryOutputView::Many(present(values)))
    } else if values.len() != 1 {
        Err(ExportError::NotExactlyOne(values.len() as usize))
    } else {
        match values[0] {
            Some(value) => Ok(QueryOutputView::One(value)),
            None => Err(ExportError::NoSuchField),
        }
    }
}

/// Selects the values to write, given the value of each element.
///
/// Where one is asked for, there must be exactly one element, and it must have a value.
pub fn select<T>(values: Vec<Option<T>>, one: bool) -> (output: Result<QueryOutput<T>, ExportError>)
    ensures
        match output {
            Ok(output) => select_spec(values@, one) == Ok::<QueryOutputView<T>, ExportError>(
                output@,
            ),
            Err(err) => select_spec(values@, one) == Err::<QueryOutputView<T>, ExportError>(err),
        },
{
    if one && values.len() != 1 {
        return Err(ExportError::NotExactlyOne(values.len()));
    }
    proof {
        reveal_with_fuel(present, 2);
    }
    let ghost all = values@;
    let mut kept = keep_present(values);
    if one {
        assert(all.drop_last() =~= Seq::empty());
        if kept.len() == 0 {
            return Err(ExportError::NoSuchField);
        }
        Ok(QueryOutput::One(kept.remove(0)))
    } else {
        Ok(QueryOutput::Many(kept))
    }
}

/// Where every element has a value, all of them are written, in the order of the elements. Where
/// some have none, fewer are.
pub proof fn lemma_present<T>(values: Seq<Option<T>>)
    ensures
        present(values).len() <= values.len(),
        (forall|i: int| 0 <= i < values.len() ==> #[trigger] values[i] is Some) ==> present(values)
            == values.map_values(|value: Option<T>| value.unwrap()),
        (exists|i: int| 0 <= i < values.len() && #[trigger] values[i] is None) ==> present(
            values,
        ).len() < values.len(),
    decreases values.len(),
{
    let wholes = values.map_values(|value: Option<T>| value.unwrap());
    if values.len() > 0 {
        let before = values.drop_last();
        lemma_present(before);
        assert(forall|i: int| 0 <= i < before.len() ==> before[i] == #[trigger] values[i]);
        if forall|i: int| 0 <= i < values.len() ==> #[trigger] values[i] is Some {
            assert(forall|i: int| 0 <= i < before.len() ==> #[trigger] before[i] is Some);
            assert(wholes =~= before.map_values(|value: Option<T>| value.unwrap()).push(
                values.last().unwrap(),
            ));
        } else if values.last() is Some {
            let i = choose|i: int| 0 <= i < values.len() && #[trigger] values[i] is None;
            assert(before[i] is None);
        }
    } else {
        assert(wholes =~= Seq::empty());
    }
}

/// Without a field, every element that was found is written.
pub proof fn lemma_all_elements(elements: Seq<typst::foundations::Content>)
    ensures
        select_spec(element_values(elements, None), false) == Ok::<
            QueryOutputView<typst::foundations::Value>,
            ExportError,
        >(
            QueryOutputView::Many(
                elements.map_values(|element: typst::foundations::Content| whole_value(element)),
            ),
        ),
{
    let values = element_values(elements, None);
    lemma_present(values);
    assert(values.map_values(|value: Option<typst::foundations::Value>| value.unwrap())
        =~= elements.map_values(|element: typst::foundations::Content| whole_value(element)));
}

/// The values that are there are those left when the missing ones are taken out.
pub proof fn lemma_present_filter<T>(values: Seq<Option<T>>)
    ensures
        present(values) == values.filter(|value: Option<T>| value is Some).map_values(
            |value: Option<T>| value.unwrap(),
        ),
    decreases values.len(),
{
    reveal(Seq::filter);
    let there = |value: Option<T>| value is Some;
    let held = |value: Option<T>| value.unwrap();
    if values.len() > 0 {
        let before = values.drop_last();
        lemma_present_filter(before);
        if values.last() is Some {
            assert(values.filter(there) == before.filter(there).push(values.last()));
            assert(values.filter(there).map_values(held) =~= before.filter(there).map_values(
                held,
            ).push(values.last().unwrap()));
        }
    } else {
        assert(values.filter(there).map_values(held) =~= Seq::empty());
    }
}

/// Where one value is asked for, there is that of the only element or an error, and never a list.
/// Where it is not, there is always the list of the values that are there, in their order.
pub proof fn lemma_select<T>(values: Seq<Option<T>>)
    ensures
        select_spec(values, false) == Ok::<QueryOutputView<T>, ExportError>(
            QueryOutputView::Many(
                values.filter(|value: Option<T>| value is Some).map_values(
                    |value: Option<T>| value.unwrap(),
                ),
            ),
        ),
        values.len() != 1 ==> select_spec(values, true) == Err::<QueryOutputView<T>, ExportError>(
            ExportError::NotExactlyOne(values.len() as usize),
        ),
        forall|value: T| #[trigger]
            select_spec(seq![Some(value)], true) == Ok::<QueryOutputView<T>, ExportError>(
                QueryOutputView::One(value),
            ),
        select_spec(seq![None::<T>], true) == Err::<QueryOutputView<T>, ExportError>(
            ExportError::NoSuchField,
        ),
{
    lemma_present_filter(values);
}

/// Every element gives one value or none: that of its field where one is asked for, else the
/// element itself.
pub proof fn lemma_element_values(elements: Seq<typst::foundations::Content>, name: Seq<char>)
    ensures
        element_values(elements, Some(name)) == elements.map_values(
            |element: typst::foundations::Content| field_value(element, name),
        ),
        element_values(elements, None) == elements.map_values(
            |element: typst::foundations::Content| Some(whole_value(element)),
        ),
{
    assert(element_values(elements, Some(name)) =~= elements.map_values(
        |element: typst::foundations::Content| field_value(element, name),
    ));
    assert(element_values(elements, None) =~= elements.map_values(
        |element: typst::foundations::Content| Some(whole_value(element)),
    ));
}

/// An output holds one value or a list of values, and a field is asked for by its name.
pub proof fn lemma_query_views<T>(output: QueryOutput<T>, field: Option<String>)
    ensures
        output@ == match output {
            QueryOutput::One(value) => QueryOutputView::One(value),
            QueryOutput::Many(values) => QueryOutputView::Many(values@),
        },
        field_view(field) == match field {
            Some(name) => Some(name@),
            None => None,
        },
{
}

} // verus!
