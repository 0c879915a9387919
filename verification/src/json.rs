//! JSON documents: parsing by `serde_json`, and the plain records that the loaders decode.

use vstd::prelude::*;

verus! {

/// `serde_json::Value`: a JSON value. Nothing is known of such a value but what the
/// functions below say of it.
#[verifier::external_type_specification]
#[verifier::external_body]
pub struct ExJsonValue(serde_json::Value);

/// The value that `serde_json::from_slice` reads from the bytes of a JSON text, if the text
/// is well formed.
pub uninterp spec fn json_value(bytes: Seq<u8>) -> Option<serde_json::Value>;

/// The members of a JSON value that is an object, each with its name, in the order in which
/// `serde_json` walks them; nothing for a value that is no object.
pub uninterp spec fn json_members(value: serde_json::Value) -> Option<Seq<(Seq<char>, serde_json::Value)>>;

/// The content of a JSON value that is a string; nothing for a value that is no string.
pub uninterp spec fn json_text(value: serde_json::Value) -> Option<Seq<char>>;

/// Calls `serde_json::from_slice` to read one JSON value. The same bytes always give the
/// same value, or always fail.
#[verifier::external_body]
pub(crate) fn parse(bytes: &[u8]) -> (parsed: Result<serde_json::Value, serde_json::Error>)
    ensures
        match parsed {
            Ok(value) => json_value(bytes@) == Some(value),
            Err(_) => json_value(bytes@) is None,
        },
{
    serde_json::from_slice(bytes)
}

/// The mathematical value of a list of named members.
pub open spec fn members_view(members: Seq<(String, serde_json::Value)>) -> Seq<
    (Seq<char>, serde_json::Value),
> {
    members.map_values(|member: (String, serde_json::Value)| (member.0@, member.1))
}

/// Calls `Value::as_object` and hands out a copy of each member that `Map::iter` gives, with
/// its name, in the order of the iterator. A value that is no object has no members.
#[verifier::external_body]
fn members(value: &serde_json::Value) -> (found: Option<Vec<(String, serde_json::Value)>>)
    ensures
        match found {
            Some(list) => json_members(*value) == Some(members_view(list@)),
            None => json_members(*value) is None,
        },
{
    value.as_object().map(|object| object.iter().map(|(name, member)| (name.clone(), member.clone())).collect())
}

/// Calls `Value::as_str` and hands out a copy of the content. A value that is no string has
/// no content.
#[verifier::external_body]
fn text(value: &serde_json::Value) -> (found: Option<String>)
    ensures
        match found {
            Some(content) => json_text(*value) == Some(content@),
            None => json_text(*value) is None,
        },
{
    value.as_str().map(|content| content.to_string())
}

/// One member of a JSON object, as far as a loader reads it: its name, and its content if it
/// is a string.
#[derive(Debug)]
pub struct Field {
    /// The name of the member.
    pub name: String,
    /// The content of the member if it is a JSON string, nothing otherwise.
    pub text: Option<String>,
}

/// The mathematical value of a [`Field`].
pub struct FieldView {
    pub name: Seq<char>,
    pub text: Option<Seq<char>>,
}

impl View for Field {
    type V = FieldView;

    open spec fn view(&self) -> FieldView {
        FieldView {
            name: self.name@,
            text: match self.text {
                Some(content) => Some(content@),
                None => None,
            },
        }
    }
}

/// One entry of a definition document: the key under which it stands, and its members if it
/// is a JSON object.
#[derive(Debug)]
pub struct Record {
    /// The key of the entry.
    pub key: String,
    /// The members of the entry if it is a JSON object, nothing otherwise.
    pub fields: Option<Vec<Field>>,
}

/// The mathematical value of a [`Record`].
pub struct RecordView {
    pub key: Seq<char>,
    pub fields: Option<Seq<FieldView>>,
}

/// The mathematical value of a list of fields.
pub open spec fn fields_view(fields: Seq<Field>) -> Seq<FieldView> {
    fields.map_values(|field: Field| field@)
}

/// The mathematical value of a list of records.
pub open spec fn records_view(records: Seq<Record>) -> Seq<RecordView> {
    records.map_values(|record: Record| record@)
}

impl View for Record {
    type V = RecordView;

    open spec fn view(&self) -> RecordView {
        RecordView {
            key: self.key@,
            fields: match self.fields {
                Some(fields) => Some(fields_view(fields@)),
                None => None,
            },
        }
    }
}

/// The field that a member of a JSON object is read as.
pub open spec fn json_field(member: (Seq<char>, serde_json::Value)) -> FieldView {
    FieldView { name: member.0, text: json_text(member.1) }
}

/// The record that an entry of a JSON document is read as.
pub open spec fn json_record(member: (Seq<char>, serde_json::Value)) -> RecordView {
    RecordView {
        key: member.0,
        fields: match json_members(member.1) {
            Some(inner) => Some(inner.map_values(|m: (Seq<char>, serde_json::Value)| json_field(m))),
            None => None,
        },
    }
}

/// The records that a JSON document is read as, if the document is an object.
pub open spec fn json_records(document: serde_json::Value) -> Option<Seq<RecordView>> {
    match json_members(document) {
        Some(entries) => Some(
            entries.map_values(|m: (Seq<char>, serde_json::Value)| json_record(m)),
        ),
        None => None,
    }
}

/// Reads the members of one entry as fields.
pub fn fields(entry: &serde_json::Value) -> (found: Option<Vec<Field>>)
    ensures
        match found {
            Some(list) => json_members(*entry) matches Some(inner) && fields_view(list@)
                == inner.map_values(|m: (Seq<char>, serde_json::Value)| json_field(m)),
            None => json_members(*entry) is None,
        },
{
    match members(entry) {
        None => None,
        Some(inner) => {
            let mut list: Vec<Field> = Vec::new();
            let mut done: usize = 0;
            while done < inner.len()
                invariant
                    done <= inner.len(),
                    list.len() == done,
                    forall|i: int|
                        0 <= i < done ==> (#[trigger] list[i])@ == json_field(
                            members_view(inner@)[i],
                        ),
                decreases inner.len() - done,
            {
                let name = inner[done].0.clone();
                let content = text(&inner[done].1);
                list.push(Field { name, text: content });
                done += 1;
            }
            proof {
                assert(fields_view(list@) =~= members_view(inner@).map_values(
                    |m: (Seq<char>, serde_json::Value)| json_field(m),
                ));
            }
            Some(list)
        },
    }
}

/// Reads a JSON document as a list of records, one for each member of the document.
///
/// A document that is no JSON object has no records to give.
pub fn records(document: &serde_json::Value) -> (found: Option<Vec<Record>>)
    ensures
        match found {
            Some(list) => json_records(*document) == Some(records_view(list@)),
            None => json_records(*document) is None,
        },
{
    match members(document) {
        None => None,
        Some(entries) => {
            let mut list: Vec<Record> = Vec::new();
            let mut done: usize = 0;
            while done < entries.len()
                invariant
                    done <= entries.len(),
                    list.len() == done,
                    forall|i: int|
                        0 <= i < done ==> (#[trigger] list[i])@ == json_record(
                            members_view(entries@)[i],
                        ),
                decreases entries.len() - done,
            {
                let key = entries[done].0.clone();
                let inner = fields(&entries[done].1);
                list.push(Record { key, fields: inner });
                done += 1;
            }
            proof {
                assert(records_view(list@) =~= members_view(entries@).map_values(
                    |m: (Seq<char>, serde_json::Value)| json_record(m),
                ));
            }
            Some(list)
        },
    }
}

} // verus!
