//! Decoding the records of a definition document into a table of items.

use crate::json::{fields_view, records_view, Field, FieldView, Record, RecordView};
use crate::table::Table;
use vstd::prelude::*;

verus! {

/// Whether two texts hold the same characters.
pub fn same_text(left: &str, right: &str) -> (same: bool)
    ensures
        same == (left@ == right@),
{
    let left_owned = left.to_owned();
    let right_owned = right.to_owned();
    left_owned == right_owned
}

/// The text of the first field called `name`; nothing where no field has that name, or
/// where the first that has it is no string.
pub open spec fn field_text(fields: Seq<FieldView>, name: Seq<char>) -> Option<Seq<char>>
    decreases fields.len(),
{
    if fields.len() == 0 {
        None
    } else if fields[0].name == name {
        fields[0].text
    } else {
        field_text(fields.drop_first(), name)
    }
}

/// Looks up the text of the first field called `name`.
pub fn find_text(fields: &Vec<Field>, name: &str) -> (found: Option<String>)
    ensures
        match found {
            Some(content) => field_text(fields_view(fields@), name@) == Some(content@),
            None => field_text(fields_view(fields@), name@) is None,
        },
{
    let ghost all = fields_view(fields@);
    let mut index: usize = 0;
    proof {
        assert(all.skip(0) == all);
    }
    while index < fields.len()
        invariant
            index <= fields.len(),
            all == fields_view(fields@),
            field_text(all, name@) == field_text(all.skip(index as int), name@),
        decreases fields.len() - index,
    {
        proof {
            let rest = all.skip(index as int);
            assert(rest[0] == fields[index as int]@);
            assert(rest.drop_first() == all.skip(index as int + 1));
        }
        if same_text(fields[index].name.as_str(), name) {
            return match &fields[index].text {
                Some(content) => Some(content.clone()),
                None => None,
            };
        }
        index += 1;
    }
    None
}

/// A kind of item that a definition document can define, one for each of its entries.
pub trait Decode: View + Sized {
    /// The item that the fields of one entry define, if they define one.
    spec fn decoded(fields: Seq<FieldView>) -> Option<Self::V>;

    /// Decodes the fields of one entry.
    fn decode(fields: &Vec<Field>) -> (item: Option<Self>)
        ensures
            match item {
                Some(made) => Self::decoded(fields_view(fields@)) == Some(made@),
                None => Self::decoded(fields_view(fields@)) is None,
            },
    ;
}

/// The item that one record defines, if it defines one; a record that is no JSON object
/// defines none.
pub open spec fn item_of<T: Decode>(record: RecordView) -> Option<T::V> {
    match record.fields {
        Some(fields) => T::decoded(fields),
        None => None,
    }
}

/// The table that a list of records defines, if every record defines an item. Where two
/// records have the same key, the later one counts.
pub open spec fn items_of<T: Decode>(records: Seq<RecordView>) -> Option<Map<Seq<char>, T::V>>
    decreases records.len(),
{
    if records.len() == 0 {
        Some(Map::empty())
    } else {
        match (items_of::<T>(records.drop_last()), item_of::<T>(records.last())) {
            (Some(items), Some(item)) => Some(items.insert(records.last().key, item)),
            _ => None,
        }
    }
}

/// Decodes a list of records into a table, one item for each record.
///
/// The table is made only if every record defines an item: no record is passed over.
pub fn decode_table<T: Decode>(records: &Vec<Record>) -> (table: Option<Table<T>>)
    ensures
        match table {
            Some(made) => items_of::<T>(records_view(records@)) == Some(made@),
            None => items_of::<T>(records_view(records@)) is None,
        },
{
    let ghost all = records_view(records@);
    let mut table: Table<T> = Table::new();
    let mut done: usize = 0;
    while done < records.len()
        invariant
            done <= records.len(),
            all == records_view(records@),
            items_of::<T>(all.take(done as int)) == Some(table@),
        decreases records.len() - done,
    {
        proof {
            let next = all.take(done as int + 1);
            assert(next.drop_last() == all.take(done as int));
            assert(next.last() == records[done as int]@);
        }
        let item = match &records[done].fields {
            Some(fields) => T::decode(fields),
            None => None,
        };
        match item {
            Some(made) => {
                table.insert(records[done].key.clone(), made);
            },
            None => {
                proof {
                    law_no_entry_is_dropped::<T>(all, done as int);
                }
                return None;
            },
        }
        done += 1;
    }
    proof {
        assert(all.take(done as int) == all);
    }
    Some(table)
}

/// A list with a record that defines no item defines no table: no entry is passed over.
pub proof fn law_no_entry_is_dropped<T: Decode>(records: Seq<RecordView>, index: int)
    requires
        0 <= index < records.len(),
        item_of::<T>(records[index]) is None,
    ensures
        items_of::<T>(records) is None,
    decreases records.len(),
{
    if index < records.len() - 1 {
        assert(records.drop_last()[index] == records[index]);
        law_no_entry_is_dropped::<T>(records.drop_last(), index);
    }
}

} // verus!
