//! The value store: a flat list of `key=value` assignments, read and written in INI format by
//! the `ini` crate.

use crate::error::CfgError;
use vstd::prelude::*;

verus! {

/// `ini::Ini`: sections of assignments. Nothing is known of such a collection but what the
/// functions below say of it.
#[verifier::external_type_specification]
#[verifier::external_body]
pub struct ExIni(ini::Ini);

/// One assignment of a value store: a key and its value.
pub type Pair = (Seq<char>, Seq<char>);

/// One section of an INI collection: its name, if it has one, and its assignments.
pub type Section = (Option<Seq<char>>, Seq<Pair>);

/// What an INI collection holds: its sections in the order in which it walks them, each with
/// its assignments in the order in which it walks them.
pub uninterp spec fn ini_sections(ini: ini::Ini) -> Seq<Section>;

/// The collection that `Ini::load_from_str` reads from a text, if the text parses.
pub uninterp spec fn ini_parsed(text: Seq<char>) -> Option<ini::Ini>;

/// The text that `Ini::write_to_opt` writes for the given sections, with lines that end in a
/// line feed and otherwise the default options.
pub uninterp spec fn ini_rendering(sections: Seq<Section>) -> Seq<char>;

/// The assignments of the first section without a name; none where there is no such section.
pub open spec fn unnamed_section(sections: Seq<Section>) -> Seq<Pair>
    decreases sections.len(),
{
    if sections.len() == 0 {
        Seq::empty()
    } else if sections[0].0 is None {
        sections[0].1
    } else {
        unnamed_section(sections.drop_first())
    }
}

/// The assignments of `pairs` whose key is not `key`, in their order.
pub open spec fn without_key(pairs: Seq<Pair>, key: Seq<char>) -> Seq<Pair>
    decreases pairs.len(),
{
    if pairs.len() == 0 {
        Seq::empty()
    } else if pairs.last().0 == key {
        without_key(pairs.drop_last(), key)
    } else {
        without_key(pairs.drop_last(), key).push(pairs.last())
    }
}

/// The assignments that are left when those of `pairs` are made one after the other, each
/// replacing an earlier assignment to the same key and going to the end.
pub open spec fn settled(pairs: Seq<Pair>) -> Seq<Pair>
    decreases pairs.len(),
{
    if pairs.len() == 0 {
        Seq::empty()
    } else {
        without_key(settled(pairs.drop_last()), pairs.last().0).push(pairs.last())
    }
}

/// The value that a list of assignments gives to `key`: that of the last assignment to it.
pub open spec fn assigned(pairs: Seq<Pair>, key: Seq<char>) -> Option<Seq<char>>
    decreases pairs.len(),
{
    if pairs.len() == 0 {
        None
    } else if pairs.last().0 == key {
        Some(pairs.last().1)
    } else {
        assigned(pairs.drop_last(), key)
    }
}

/// Calls `Ini::new`, which makes a collection that holds one section, without a name and
/// without assignments.
#[verifier::external_body]
fn ini_empty() -> (ini: ini::Ini)
    ensures
        ini_sections(ini) == seq![(None::<Seq<char>>, Seq::<Pair>::empty())],
{
    ini::Ini::new()
}

/// Calls `Ini::set_to` for the section without a name. Where that section stands first, the
/// call removes from it every assignment to `key` and puts the new assignment at its end;
/// the other sections stay as they are.
#[verifier::external_body]
fn ini_set(ini: &mut ini::Ini, key: String, value: String)
    requires
        ini_sections(*old(ini)).len() > 0,
        ini_sections(*old(ini))[0].0 is None,
    ensures
        ini_sections(*final(ini)) == ini_sections(*old(ini)).update(
            0,
            (None::<Seq<char>>, without_key(ini_sections(*old(ini))[0].1, key@).push((key@, value@))),
        ),
{
    ini.set_to(None::<String>, key, value)
}

/// Calls `Ini::load_from_str`, which fails only with a parse error; that error is handed on
/// as the `Parse` variant of `ini::Error`. The same text always gives the same collection, or
/// always fails.
#[verifier::external_body]
fn ini_load(text: &str) -> (loaded: Result<ini::Ini, ini::Error>)
    ensures
        match loaded {
            Ok(ini) => ini_parsed(text@) == Some(ini),
            Err(_) => ini_parsed(text@) is None,
        },
{
    ini::Ini::load_from_str(text).map_err(ini::Error::Parse)
}

/// Calls `Ini::section` for the section without a name and `Properties::iter` on what it
/// finds, and hands out the assignments in the order in which the iterator gives them.
#[verifier::external_body]
fn ini_unnamed(ini: &ini::Ini) -> (pairs: Vec<(String, String)>)
    ensures
        pairs_view(pairs@) == unnamed_section(ini_sections(*ini)),
{
    let section = ini.section(None::<String>);
    section.into_iter().flat_map(|found| found.iter()).map(|(key, value)| (key.to_string(), value.to_string())).collect()
}

/// Calls `Ini::write_to_opt` on a buffer in memory, with the default options but for the
/// line separator, which is a line feed on every platform. What is written depends on the
/// sections and their assignments alone.
#[verifier::external_body]
fn ini_render(ini: &ini::Ini) -> (text: String)
    ensures
        text@ == ini_rendering(ini_sections(*ini)),
{
    let mut buffer: Vec<u8> = Vec::new();
    let options = ini::WriteOption { line_separator: ini::LineSeparator::CR, ..Default::default() };
    let _ = ini.write_to_opt(&mut buffer, options);
    String::from_utf8(buffer).unwrap_or_default()
}

/// The mathematical value of a list of assignments.
pub open spec fn pairs_view(pairs: Seq<(String, String)>) -> Seq<Pair> {
    pairs.map_values(|pair: (String, String)| (pair.0@, pair.1@))
}

/// The assignments that a value-store text holds in its section without a name, if the text
/// parses.
pub open spec fn stored_values(text: Seq<char>) -> Option<Seq<Pair>> {
    match ini_parsed(text) {
        Some(ini) => Some(unnamed_section(ini_sections(ini))),
        None => None,
    }
}

/// The text of a value store that makes the given assignments one after the other.
pub open spec fn store_text(pairs: Seq<Pair>) -> Seq<char> {
    ini_rendering(seq![(None::<Seq<char>>, settled(pairs))])
}

/// The current values of a configuration: a flat list of assignments, without sections.
#[derive(Debug)]
pub struct ValueStore {
    /// The assignments, in the order in which they are made.
    pub pairs: Vec<(String, String)>,
}

impl View for ValueStore {
    type V = Seq<Pair>;

    open spec fn view(&self) -> Seq<Pair> {
        pairs_view(self.pairs@)
    }
}

impl ValueStore {
    /// Reads a value store from the text of an INI document, or from the failure to read one.
    ///
    /// Only the assignments that stand before the first section header are taken. A source
    /// that could not be read is an error, and so is a text that is not in INI format.
    pub fn parse(source: Result<String, std::io::Error>) -> (parsed: Result<ValueStore, CfgError>)
        ensures
            match parsed {
                Ok(store) => source matches Ok(text) && stored_values(text@) == Some(store@),
                Err(CfgError::Io(error)) => source == Err::<String, std::io::Error>(error),
                Err(CfgError::Ini(_)) => source matches Ok(text) && stored_values(text@) is None,
                Err(_) => false,
            },
    {
        match source {
            Err(error) => Err(CfgError::Io(error)),
            Ok(text) => match ini_load(text.as_str()) {
                Err(error) => Err(CfgError::Ini(error)),
                Ok(ini) => Ok(ValueStore { pairs: ini_unnamed(&ini) }),
            },
        }
    }

    /// The text of an INI document that makes these assignments, one line each.
    pub fn render(&self) -> (text: String)
        ensures
            text@ == store_text(self@),
    {
        let mut ini = ini_empty();
        let mut done: usize = 0;
        while done < self.pairs.len()
            invariant
                done <= self.pairs.len(),
                ini_sections(ini) == seq![(None::<Seq<char>>, settled(self@.take(done as int)))],
            decreases self.pairs.len() - done,
        {
            let key = self.pairs[done].0.clone();
            let value = self.pairs[done].1.clone();
            proof {
                let next = self@.take(done as int + 1);
                assert(next.drop_last() == self@.take(done as int));
                assert(next.last() == (key@, value@));
            }
            ini_set(&mut ini, key, value);
            done += 1;
        }
        proof {
            assert(self@.take(done as int) == self@);
        }
        ini_render(&ini)
    }
}

} // verus!
