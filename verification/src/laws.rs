//! What holds of loading, reconciling, filtering and writing, whatever the documents are.

use crate::attribute::{ActionBehaviour, Attribute, AttributeView};
use crate::cfg::{current_values, with_action};
use crate::decode::{field_text, item_of, items_of, law_no_entry_is_dropped, Decode};
use crate::json::{json_records, json_value, FieldView, RecordView};
use crate::loader::{definitions_in, loading, Loading};
use crate::reconcile::{reconciled, undefined_keys, with_current};
use crate::schema::Schema;
use crate::values::{assigned, settled, without_key, Pair};
use vstd::prelude::*;

verus! {

/// Whether the record at `index` is the last one of `records` that stands under its key.
pub open spec fn is_last_under_key(records: Seq<RecordView>, index: int) -> bool {
    forall|later: int| index < later < records.len() ==> records[later].key != records[index].key
}

/// If every record of a document defines an item, the document defines a table. The keys of
/// the table are exactly the keys of the records, and under each key stands the item that
/// the last record with that key defines.
pub proof fn law_every_entry_is_loaded<T: Decode>(records: Seq<RecordView>)
    requires
        forall|i: int| 0 <= i < records.len() ==> item_of::<T>(#[trigger] records[i]) is Some,
    ensures
        items_of::<T>(records) matches Some(items) && {
            &&& forall|key: Seq<char>|
                items.dom().contains(key) <==> exists|i: int|
                    0 <= i < records.len() && (#[trigger] records[i]).key == key
            &&& forall|i: int|
                0 <= i < records.len() && is_last_under_key(records, i) ==> items[(
                #[trigger] records[i]).key] == item_of::<T>(records[i])->0
        },
    decreases records.len(),
{
    if records.len() > 0 {
        let earlier = records.drop_last();
        let last = records.last();
        law_every_entry_is_loaded::<T>(earlier);
        let before = items_of::<T>(earlier)->0;
        let items = items_of::<T>(records)->0;
        assert(items == before.insert(last.key, item_of::<T>(last)->0));
        assert forall|key: Seq<char>|
            items.dom().contains(key) <==> exists|i: int|
                0 <= i < records.len() && (#[trigger] records[i]).key == key by {
            if items.dom().contains(key) {
                if key == last.key {
                    assert(records[records.len() - 1].key == key);
                } else {
                    let i = choose|i: int| 0 <= i < earlier.len() && (#[trigger] earlier[i]).key == key;
                    assert(records[i].key == key);
                }
            }
            if exists|i: int| 0 <= i < records.len() && (#[trigger] records[i]).key == key {
                let i = choose|i: int| 0 <= i < records.len() && (#[trigger] records[i]).key == key;
                if i < earlier.len() {
                    assert(earlier[i].key == key);
                }
            }
        }
        assert forall|i: int|
            0 <= i < records.len() && is_last_under_key(records, i) implies items[(
            #[trigger] records[i]).key] == item_of::<T>(records[i])->0 by {
            if i < earlier.len() {
                assert(records[records.len() - 1].key != records[i].key);
                assert(earlier[i] == records[i]);
                assert(is_last_under_key(earlier, i)) by {
                    assert forall|later: int| i < later < earlier.len() implies earlier[later].key
                        != earlier[i].key by {
                        assert(earlier[later] == records[later]);
                    }
                }
            }
        }
    }
}

/// The names of the texts that an entry must have to define an attribute.
pub open spec fn is_attribute_field(name: Seq<char>) -> bool {
    ||| name == "prompt"@
    ||| name == "tooltip"@
    ||| name == "current"@
    ||| name == "default"@
    ||| name == "format"@
    ||| name == "action"@
}

/// An attribute that is decoded from an entry has the texts of the entry as its fields, each
/// exactly as it stands there.
pub proof fn law_attribute_fields_are_kept(fields: Seq<FieldView>)
    requires
        Attribute::decoded(fields) is Some,
    ensures
        ({
            let attribute = Attribute::decoded(fields)->0;
            &&& field_text(fields, "prompt"@) == Some(attribute.prompt)
            &&& field_text(fields, "tooltip"@) == Some(attribute.tooltip)
            &&& field_text(fields, "current"@) == Some(attribute.current)
            &&& field_text(fields, "default"@) == Some(attribute.default)
            &&& field_text(fields, "format"@) == Some(attribute.format)
            &&& field_text(fields, "action"@) matches Some(name)
            &&& ActionBehaviour::named(name) == Some(attribute.action)
        }),
{
}

/// A definition document in which an entry lacks one of the texts of an attribute, or has
/// something other than a text in its place, is not loaded, whatever the schema says of it.
pub proof fn law_incomplete_entry_fails(
    source: Result<Vec<u8>, std::io::Error>,
    schema: Option<Schema>,
    records: Seq<RecordView>,
    index: int,
    name: Seq<char>,
)
    requires
        source matches Ok(bytes) && json_value(bytes@) matches Some(document) && json_records(
            document,
        ) == Some(records),
        0 <= index < records.len(),
        is_attribute_field(name),
        records[index].fields matches Some(fields) ==> field_text(fields, name) is None,
    ensures
        !(loading::<Attribute>(source, schema) is Defined),
{
    law_no_entry_is_dropped::<Attribute>(records, index);
}

/// A definition document that is well-formed JSON, that the schema accepts and in which every
/// entry defines an attribute is loaded, with exactly the keys of its entries.
pub proof fn law_valid_document_is_loaded(
    source: Result<Vec<u8>, std::io::Error>,
    schema: Schema,
    records: Seq<RecordView>,
)
    requires
        source matches Ok(bytes) && json_value(bytes@) matches Some(document) && schema.accepts(
            document,
        ) && json_records(document) == Some(records),
        forall|i: int|
            0 <= i < records.len() ==> item_of::<Attribute>(#[trigger] records[i]) is Some,
    ensures
        loading::<Attribute>(source, Some(schema)) matches Loading::Defined(items) && {
            &&& items_of::<Attribute>(records) == Some(items)
            &&& forall|key: Seq<char>|
                items.dom().contains(key) <==> exists|i: int|
                    0 <= i < records.len() && (#[trigger] records[i]).key == key
        },
{
    law_every_entry_is_loaded::<Attribute>(records);
}

/// The value that a list of assignments gives to a key does not depend on assignments to
/// other keys.
pub proof fn lemma_assigned_ignores_other_keys(
    values: Seq<Pair>,
    position: int,
    pair: Pair,
    key: Seq<char>,
)
    requires
        0 <= position <= values.len(),
        pair.0 != key,
    ensures
        assigned(values.insert(position, pair), key) == assigned(values, key),
    decreases values.len() - position,
{
    let longer = values.insert(position, pair);
    if position == values.len() {
        assert(longer.drop_last() == values);
    } else {
        assert(longer.last() == values.last());
        assert(longer.drop_last() == values.drop_last().insert(position, pair));
        lemma_assigned_ignores_other_keys(values.drop_last(), position, pair, key);
    }
}

/// Reconciling is idempotent: laying the same values over the result once more changes
/// nothing.
pub proof fn law_reconcile_is_idempotent(
    definitions: Map<Seq<char>, AttributeView>,
    values: Seq<Pair>,
)
    ensures
        reconciled(reconciled(definitions, values), values) == reconciled(definitions, values),
{
    assert(reconciled(reconciled(definitions, values), values) =~= reconciled(
        definitions,
        values,
    ));
}

/// Reconciling keeps the keys of the definitions and changes nothing but current values:
/// an attribute to which the value store assigns gets the last value assigned to it, and an
/// attribute to which it does not assign stays as it is defined.
pub proof fn law_reconcile_overlays_values(
    definitions: Map<Seq<char>, AttributeView>,
    values: Seq<Pair>,
    key: Seq<char>,
)
    requires
        definitions.dom().contains(key),
    ensures
        reconciled(definitions, values).dom() == definitions.dom(),
        reconciled(definitions, values)[key].prompt == definitions[key].prompt,
        reconciled(definitions, values)[key].tooltip == definitions[key].tooltip,
        reconciled(definitions, values)[key].default == definitions[key].default,
        reconciled(definitions, values)[key].format == definitions[key].format,
        reconciled(definitions, values)[key].action == definitions[key].action,
        reconciled(definitions, values)[key].current == match assigned(values, key) {
            Some(value) => value,
            None => definitions[key].current,
        },
{
    assert(reconciled(definitions, values).dom() =~= definitions.dom());
}

/// An assignment to a key that is not defined is tolerated: wherever it stands in the value
/// store, the reconciled attributes are the same as without it, and its key is not among
/// their keys.
pub proof fn law_unknown_key_is_tolerated(
    definitions: Map<Seq<char>, AttributeView>,
    values: Seq<Pair>,
    position: int,
    pair: Pair,
)
    requires
        0 <= position <= values.len(),
        !definitions.dom().contains(pair.0),
    ensures
        reconciled(definitions, values.insert(position, pair)) == reconciled(definitions, values),
        !reconciled(definitions, values.insert(position, pair)).dom().contains(pair.0),
{
    let longer = values.insert(position, pair);
    assert forall|key: Seq<char>| definitions.dom().contains(key) implies assigned(longer, key)
        == assigned(values, key) by {
        lemma_assigned_ignores_other_keys(values, position, pair, key);
    }
    assert(reconciled(definitions, longer) =~= reconciled(definitions, values));
}

/// The key of an assignment without a definition is reported.
pub proof fn law_unknown_key_is_reported(
    defined: Set<Seq<char>>,
    values: Seq<Pair>,
    index: int,
)
    requires
        0 <= index < values.len(),
        !defined.contains(values[index].0),
    ensures
        undefined_keys(defined, values).contains(values[index].0),
    decreases values.len(),
{
    let reported = undefined_keys(defined, values);
    if index == values.len() - 1 {
        assert(reported[reported.len() - 1] == values[index].0);
    } else {
        assert(values.drop_last()[index] == values[index]);
        law_unknown_key_is_reported(defined, values.drop_last(), index);
        let earlier = undefined_keys(defined, values.drop_last());
        let place = choose|i: int| 0 <= i < earlier.len() && earlier[i] == values[index].0;
        assert(reported[place] == values[index].0);
    }
}

/// The value that the written assignments give to a key of `keys` is the current value of
/// the attribute under that key.
pub proof fn lemma_written_value(
    keys: Seq<Seq<char>>,
    attributes: Map<Seq<char>, AttributeView>,
    key: Seq<char>,
)
    ensures
        assigned(current_values(keys, attributes), key) == if keys.contains(key) {
            Some(attributes[key].current)
        } else {
            None
        },
    decreases keys.len(),
{
    let written = current_values(keys, attributes);
    if keys.len() > 0 {
        assert(written.drop_last() == current_values(keys.drop_last(), attributes));
        lemma_written_value(keys.drop_last(), attributes, key);
        if keys.last() == key {
            assert(keys[keys.len() - 1] == key);
        } else if keys.drop_last().contains(key) {
            let i = choose|i: int| 0 <= i < keys.drop_last().len() && keys.drop_last()[i] == key;
            assert(keys[i] == key);
        } else if keys.contains(key) {
            let i = choose|i: int| 0 <= i < keys.len() && keys[i] == key;
            assert(keys.drop_last()[i] == key);
        }
    }
}

/// Writing the current values and reading them back loses nothing.
///
/// Let the values of a value store be laid over the definitions, and let the current values
/// of the result be written as assignments, one for each key in some order of the keys. Then
/// the written assignments give each attribute to which the value store assigned the value
/// that was assigned, and each other attribute the current value of its definition; and
/// laying the written assignments over the definitions gives the same attributes again.
pub proof fn law_written_values_read_back(
    definitions: Map<Seq<char>, AttributeView>,
    values: Seq<Pair>,
    keys: Seq<Seq<char>>,
)
    requires
        keys.to_set() == definitions.dom(),
    ensures
        ({
            let written = current_values(keys, reconciled(definitions, values));
            &&& forall|key: Seq<char>|
                definitions.dom().contains(key) ==> #[trigger] assigned(written, key) == Some(
                    match assigned(values, key) {
                        Some(value) => value,
                        None => definitions[key].current,
                    },
                )
            &&& reconciled(definitions, written) == reconciled(definitions, values)
        }),
{
    let result = reconciled(definitions, values);
    let written = current_values(keys, result);
    assert forall|key: Seq<char>| definitions.dom().contains(key) implies #[trigger] assigned(
        written,
        key,
    ) == Some(
        match assigned(values, key) {
            Some(value) => value,
            None => definitions[key].current,
        },
    ) by {
        lemma_written_value(keys, result, key);
        assert(keys.to_set().contains(key));
    }
    assert(reconciled(definitions, written) =~= result);
}

/// Removing the assignments to a key from a list that has none leaves the list as it is.
pub proof fn lemma_without_absent_key(pairs: Seq<Pair>, key: Seq<char>)
    requires
        forall|i: int| 0 <= i < pairs.len() ==> (#[trigger] pairs[i]).0 != key,
    ensures
        without_key(pairs, key) == pairs,
    decreases pairs.len(),
{
    if pairs.len() > 0 {
        assert forall|i: int| 0 <= i < pairs.drop_last().len() implies (
        #[trigger] pairs.drop_last()[i]).0 != key by {
            assert(pairs.drop_last()[i] == pairs[i]);
        }
        lemma_without_absent_key(pairs.drop_last(), key);
        assert(pairs.drop_last().push(pairs.last()) == pairs);
    }
}

/// Each attribute is written once: where no key occurs twice in the order, the written
/// assignments stand in the file as they are, one for each key and in the order of the keys.
pub proof fn law_each_attribute_is_written_once(
    keys: Seq<Seq<char>>,
    attributes: Map<Seq<char>, AttributeView>,
)
    requires
        keys.no_duplicates(),
    ensures
        settled(current_values(keys, attributes)) == current_values(keys, attributes),
        current_values(keys, attributes).len() == keys.len(),
        forall|i: int|
            0 <= i < keys.len() ==> #[trigger] current_values(keys, attributes)[i] == (
                keys[i],
                attributes[keys[i]].current,
            ),
    decreases keys.len(),
{
    let written = current_values(keys, attributes);
    if keys.len() > 0 {
        let earlier = current_values(keys.drop_last(), attributes);
        assert(written.drop_last() == earlier);
        law_each_attribute_is_written_once(keys.drop_last(), attributes);
        assert forall|i: int| 0 <= i < earlier.len() implies (#[trigger] earlier[i]).0
            != keys.last() by {
            assert(keys[i] != keys[keys.len() - 1]);
        }
        lemma_without_absent_key(earlier, keys.last());
        assert(earlier.push(written.last()) == written);
    }
}

/// Filtering by behaviour gives a part of the attributes, each of them unchanged and each
/// presented as asked.
pub proof fn law_filter_selects(
    attributes: Map<Seq<char>, AttributeView>,
    action: ActionBehaviour,
    key: Seq<char>,
)
    ensures
        with_action(attributes, action).dom().contains(key) <==> attributes.dom().contains(key)
            && attributes[key].action == action,
        with_action(attributes, action).dom().contains(key) ==> with_action(attributes, action)[key]
            == attributes[key],
        with_action(attributes, action).dom().subset_of(attributes.dom()),
{
}

/// The three behaviours divide the attributes: every key is in the filter of exactly one
/// behaviour, so that the three filters together hold every key once.
pub proof fn law_filters_partition(attributes: Map<Seq<char>, AttributeView>)
    ensures
        with_action(attributes, ActionBehaviour::Edit).dom().union(
            with_action(attributes, ActionBehaviour::Display).dom(),
        ).union(with_action(attributes, ActionBehaviour::Hide).dom()) == attributes.dom(),
        with_action(attributes, ActionBehaviour::Edit).dom().disjoint(
            with_action(attributes, ActionBehaviour::Display).dom(),
        ),
        with_action(attributes, ActionBehaviour::Edit).dom().disjoint(
            with_action(attributes, ActionBehaviour::Hide).dom(),
        ),
        with_action(attributes, ActionBehaviour::Display).dom().disjoint(
            with_action(attributes, ActionBehaviour::Hide).dom(),
        ),
{
    let edit = with_action(attributes, ActionBehaviour::Edit).dom();
    let display = with_action(attributes, ActionBehaviour::Display).dom();
    let hide = with_action(attributes, ActionBehaviour::Hide).dom();
    assert forall|key: Seq<char>|
        edit.union(display).union(hide).contains(key) <==> attributes.dom().contains(key) by {
        if attributes.dom().contains(key) {
            match attributes[key].action {
                ActionBehaviour::Edit => {
                    assert(edit.contains(key));
                },
                ActionBehaviour::Display => {
                    assert(display.contains(key));
                },
                ActionBehaviour::Hide => {
                    assert(hide.contains(key));
                },
            }
        }
    }
    assert(edit.union(display).union(hide) =~= attributes.dom());
}

} // verus!
