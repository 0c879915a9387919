//! Laying the current values of a value store over a table of attribute definitions.

use crate::attribute::{Attribute, AttributeView};
use crate::table::Table;
use crate::values::{assigned, Pair, ValueStore};
use vstd::prelude::*;

verus! {

/// The attribute `attribute` with `value` as its current value and nothing else changed.
pub open spec fn with_current(attribute: AttributeView, value: Seq<char>) -> AttributeView {
    AttributeView {
        prompt: attribute.prompt,
        tooltip: attribute.tooltip,
        current: value,
        default: attribute.default,
        format: attribute.format,
        action: attribute.action,
    }
}

/// The definitions with the values of a value store laid over them.
///
/// The keys are those of the definitions. An attribute to which the value store assigns a
/// value has that value as its current value; where the store assigns to a key more than
/// once, the last assignment counts. Every other attribute, and every other field, is as in
/// the definitions.
pub open spec fn reconciled(
    definitions: Map<Seq<char>, AttributeView>,
    values: Seq<Pair>,
) -> Map<Seq<char>, AttributeView> {
    Map::new(
        |key: Seq<char>| definitions.dom().contains(key),
        |key: Seq<char>|
            match assigned(values, key) {
                Some(value) => with_current(definitions[key], value),
                None => definitions[key],
            },
    )
}

/// The keys to which a value store assigns although no attribute is defined under them, once
/// for each such assignment and in the order of the assignments.
pub open spec fn undefined_keys(defined: Set<Seq<char>>, values: Seq<Pair>) -> Seq<Seq<char>>
    decreases values.len(),
{
    if values.len() == 0 {
        Seq::empty()
    } else if defined.contains(values.last().0) {
        undefined_keys(defined, values.drop_last())
    } else {
        undefined_keys(defined, values.drop_last()).push(values.last().0)
    }
}

/// The mathematical value of a list of texts.
pub open spec fn texts_view(texts: Seq<String>) -> Seq<Seq<char>> {
    texts.map_values(|text: String| text@)
}

/// Lays the values of `values` over the attributes of `definitions`.
///
/// For each assignment whose key is defined, the attribute under that key gets the assigned
/// value as its current value and keeps its other fields. An assignment whose key is not
/// defined changes nothing; its key is handed back so that the caller can report it.
pub fn reconcile(definitions: &mut Table<Attribute>, values: &ValueStore) -> (unknown: Vec<String>)
    ensures
        final(definitions)@ == reconciled(old(definitions)@, values@),
        final(definitions).keys() == old(definitions).keys(),
        texts_view(unknown@) == undefined_keys(old(definitions)@.dom(), values@),
{
    let ghost before = definitions@;
    let ghost order = definitions.keys();
    let mut unknown: Vec<String> = Vec::new();
    let mut done: usize = 0;
    proof {
        assert(definitions@ =~= reconciled(before, values@.take(0)));
        assert(texts_view(unknown@) =~= undefined_keys(before.dom(), values@.take(0)));
    }
    while done < values.pairs.len()
        invariant
            done <= values.pairs.len(),
            definitions@ == reconciled(before, values@.take(done as int)),
            definitions.keys() == order,
            texts_view(unknown@) == undefined_keys(before.dom(), values@.take(done as int)),
        decreases values.pairs.len() - done,
    {
        let key = &values.pairs[done].0;
        let value = &values.pairs[done].1;
        proof {
            let next = values@.take(done as int + 1);
            assert(next.drop_last() == values@.take(done as int));
            assert(next.last() == (key@, value@));
        }
        let updated = match definitions.get(key.as_str()) {
            Some(attribute) => Some(
                Attribute {
                    prompt: attribute.prompt.clone(),
                    tooltip: attribute.tooltip.clone(),
                    current: value.clone(),
                    default: attribute.default.clone(),
                    format: attribute.format.clone(),
                    action: attribute.action,
                },
            ),
            None => None,
        };
        match updated {
            Some(attribute) => {
                definitions.insert(key.clone(), attribute);
                proof {
                    assert(definitions@ =~= reconciled(before, values@.take(done as int + 1)));
                }
            },
            None => {
                let ghost earlier = texts_view(unknown@);
                unknown.push(key.clone());
                proof {
                    assert(texts_view(unknown@) =~= earlier.push(key@));
                    assert(definitions@ =~= reconciled(before, values@.take(done as int + 1)));
                }
            },
        }
        done += 1;
    }
    proof {
        assert(values@.take(done as int) == values@);
    }
    unknown
}

} // verus!
