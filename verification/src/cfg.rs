//! The configuration of one package: attribute definitions with their current values.

use crate::attribute::{ActionBehaviour, Attribute, AttributeView};
use crate::error::CfgError;
use crate::loader::{loading, read_definitions, Loading};
use crate::reconcile::{reconcile, reconciled, texts_view, undefined_keys};
use crate::schema::{attribute_schema, Schema};
use crate::table::Table;
use crate::values::{store_text, stored_values, Pair, ValueStore};
use vstd::prelude::*;

verus! {

/// The attribute definitions of a configuration, by key.
pub type ConfigHash = Table<Attribute>;

/// The attributes of `attributes` that are presented as `action` says.
pub open spec fn with_action(
    attributes: Map<Seq<char>, AttributeView>,
    action: ActionBehaviour,
) -> Map<Seq<char>, AttributeView> {
    Map::new(
        |key: Seq<char>| attributes.dom().contains(key) && attributes[key].action == action,
        |key: Seq<char>| attributes[key],
    )
}

/// The assignments that write the current value of each attribute, one for each key of
/// `keys` and in that order.
pub open spec fn current_values(
    keys: Seq<Seq<char>>,
    attributes: Map<Seq<char>, AttributeView>,
) -> Seq<Pair> {
    keys.map_values(|key: Seq<char>| (key, attributes[key].current))
}

/// What is to be done to save the current values.
#[derive(Debug)]
pub struct WritePlan {
    /// Whether the file that is there is to be moved aside before the new one is written.
    pub backup: bool,
    /// The text of the new file.
    pub text: String,
}

/// The structure that holds the definition of configuration items.
///
/// A configuration starts without attributes; `load_configuration` gives it its attributes.
pub struct Cfg {
    /// The schema against which attribute definitions are checked; nothing if the schema
    /// could not be compiled.
    pub schema: Option<Schema>,
    /// The attributes, once they have been loaded.
    pub cfg: Option<ConfigHash>,
}

impl Cfg {
    /// Creates a configuration without attributes, ready to load them.
    pub fn new() -> (made: Cfg)
        ensures
            made.cfg is None,
            match made.schema {
                Some(schema) => attribute_schema() == Some(schema.compiled()),
                None => attribute_schema() is None,
            },
    {
        let schema = match Cfg::create_defn_schema() {
            Ok(schema) => Some(schema),
            Err(_) => None,
        };
        Cfg { schema, cfg: None }
    }

    /// Compiles the schema for attribute definition documents.
    pub fn create_defn_schema() -> (made: Result<Schema, CfgError>)
        ensures
            match made {
                Ok(schema) => attribute_schema() == Some(schema.compiled()),
                Err(_) => attribute_schema() is None,
            },
    {
        Schema::for_attributes()
    }

    /// Whether `document` meets the schema for attribute definitions.
    pub fn validate_defn_file(&self, document: serde_json::Value) -> (valid: bool)
        ensures
            valid == (self.schema matches Some(schema) && schema.accepts(document)),
    {
        match &self.schema {
            Some(schema) => schema.is_valid(&document),
            None => false,
        }
    }

    /// Reads attribute definitions from the bytes of a JSON document, or from the failure to
    /// read them, and checks them against `schema` before decoding them.
    pub fn read_defn_file(
        source: Result<Vec<u8>, std::io::Error>,
        origin: &str,
        schema: &Schema,
    ) -> (loaded: Result<ConfigHash, CfgError>)
        ensures
            match loaded {
                Ok(table) => loading::<Attribute>(source, Some(*schema)) == Loading::Defined(
                    table@,
                ),
                Err(CfgError::Io(error)) => source == Err::<Vec<u8>, std::io::Error>(error),
                Err(CfgError::Json(_)) => loading::<Attribute>(source, Some(*schema))
                    == Loading::<Map<Seq<char>, AttributeView>>::Malformed,
                Err(CfgError::Schema(name)) => name@ == origin@ && loading::<Attribute>(
                    source,
                    Some(*schema),
                ) == Loading::<Map<Seq<char>, AttributeView>>::Rejected,
                Err(CfgError::Decode(name)) => name@ == origin@ && loading::<Attribute>(
                    source,
                    Some(*schema),
                ) == Loading::<Map<Seq<char>, AttributeView>>::Misshapen,
                Err(_) => false,
            },
    {
        read_definitions::<Attribute>(source, origin, Some(schema))
    }

    /// Takes `defn` as the attributes of this configuration, with the values of a value store
    /// laid over them.
    ///
    /// The value store comes as the text of an INI document, or as the failure to read one.
    /// The keys to which the store assigns without a definition are handed back. If the store
    /// cannot be read or parsed, the configuration stays as it was.
    pub fn update_cfg_from_defn(
        &mut self,
        defn: ConfigHash,
        source: Result<String, std::io::Error>,
    ) -> (updated: Result<Vec<String>, CfgError>)
        ensures
            final(self).schema == old(self).schema,
            match updated {
                Ok(unknown) => {
                    &&& source matches Ok(text)
                    &&& stored_values(text@) matches Some(values)
                    &&& final(self).cfg matches Some(store)
                    &&& store@ == reconciled(defn@, values)
                    &&& store.keys() == defn.keys()
                    &&& texts_view(unknown@) == undefined_keys(defn@.dom(), values)
                },
                Err(CfgError::Io(error)) => {
                    &&& source == Err::<String, std::io::Error>(error)
                    &&& final(self).cfg == old(self).cfg
                },
                Err(CfgError::Ini(_)) => {
                    &&& source matches Ok(text)
                    &&& stored_values(text@) is None
                    &&& final(self).cfg == old(self).cfg
                },
                Err(_) => false,
            },
    {
        let values = match ValueStore::parse(source) {
            Ok(values) => values,
            Err(error) => {
                return Err(error);
            },
        };
        let mut store = defn;
        let unknown = reconcile(&mut store, &values);
        self.cfg = Some(store);
        Ok(unknown)
    }

    /// Loads the attribute definitions and then lays the current values over them.
    ///
    /// The definitions come as the bytes of a JSON document and the values as the text of an
    /// INI document, each in place of the failure to read it where it could not be read;
    /// `def_origin` names the definition document in errors. The keys to which the value
    /// store assigns without a definition are handed back. On any error the configuration
    /// stays as it was.
    pub fn load_configuration(
        &mut self,
        cfg_source: Result<String, std::io::Error>,
        def_source: Result<Vec<u8>, std::io::Error>,
        def_origin: &str,
    ) -> (loaded: Result<Vec<String>, CfgError>)
        ensures
            final(self).schema == old(self).schema,
            match loaded {
                Ok(unknown) => {
                    &&& loading::<Attribute>(def_source, old(self).schema) matches Loading::Defined(
                        definitions,
                    )
                    &&& cfg_source matches Ok(text)
                    &&& stored_values(text@) matches Some(values)
                    &&& final(self).cfg matches Some(store)
                    &&& store@ == reconciled(definitions, values)
                    &&& texts_view(unknown@) == undefined_keys(definitions.dom(), values)
                },
                Err(error) => {
                    &&& final(self).cfg == old(self).cfg
                    &&& match error {
                        CfgError::Io(cause) => {
                            ||| def_source == Err::<Vec<u8>, std::io::Error>(cause)
                            ||| (loading::<Attribute>(def_source, old(self).schema) is Defined
                                && cfg_source == Err::<String, std::io::Error>(cause))
                        },
                        CfgError::Json(_) => loading::<Attribute>(def_source, old(self).schema)
                            == Loading::<Map<Seq<char>, AttributeView>>::Malformed,
                        CfgError::Schema(name) => name@ == def_origin@ && loading::<Attribute>(
                            def_source,
                            old(self).schema,
                        ) == Loading::<Map<Seq<char>, AttributeView>>::Rejected,
                        CfgError::Decode(name) => name@ == def_origin@ && loading::<Attribute>(
                            def_source,
                            old(self).schema,
                        ) == Loading::<Map<Seq<char>, AttributeView>>::Misshapen,
                        CfgError::Ini(_) => {
                            &&& loading::<Attribute>(def_source, old(self).schema) is Defined
                            &&& cfg_source matches Ok(text)
                            &&& stored_values(text@) is None
                        },
                        CfgError::Cfg() => false,
                    }
                },
            },
    {
        let defn = match read_definitions::<Attribute>(def_source, def_origin, self.schema.as_ref()) {
            Ok(defn) => defn,
            Err(error) => {
                return Err(error);
            },
        };
        self.update_cfg_from_defn(defn, cfg_source)
    }

    /// Gets the attribute definition for the configuration item defined by `key`.
    ///
    /// There is none if no attribute is defined under `key`, or if nothing has been loaded.
    pub fn read_attribute(&self, key: String) -> (found: Option<&Attribute>)
        ensures
            match found {
                Some(attribute) => {
                    &&& self.cfg matches Some(store)
                    &&& store@.dom().contains(key@)
                    &&& attribute@ == store@[key@]
                },
                None => self.cfg matches Some(store) ==> !store@.dom().contains(key@),
            },
    {
        match &self.cfg {
            Some(store) => store.get(key.as_str()),
            None => None,
        }
    }

    /// Stores an attribute definition under `key`, in place of the one that was there if
    /// there was one.
    ///
    /// This fails, and changes nothing, if no attributes have been loaded yet.
    pub fn write_attribute(&mut self, key: String, value: &Attribute) -> (written: Result<
        (),
        CfgError,
    >)
        ensures
            final(self).schema == old(self).schema,
            match old(self).cfg {
                Some(before) => {
                    &&& written is Ok
                    &&& final(self).cfg matches Some(after)
                    &&& after@ == before@.insert(key@, value@)
                    &&& after.keys() == if before@.dom().contains(key@) {
                        before.keys()
                    } else {
                        before.keys().push(key@)
                    }
                },
                None => written matches Err(CfgError::Cfg()) && final(self).cfg is None,
            },
    {
        match self.cfg.take() {
            Some(store) => {
                let mut store = store;
                store.insert(key, value.clone());
                self.cfg = Some(store);
                Ok(())
            },
            None => Err(CfgError::Cfg()),
        }
    }

    /// The attributes that are presented as `action` says, each as it is in the
    /// configuration. There are none if nothing has been loaded.
    pub fn attributes_with_action(&self, action: ActionBehaviour) -> (chosen: ConfigHash)
        ensures
            chosen@ == match self.cfg {
                Some(store) => with_action(store@, action),
                None => Map::<Seq<char>, AttributeView>::empty(),
            },
    {
        let mut chosen: ConfigHash = Table::new();
        match &self.cfg {
            None => {},
            Some(store) => {
                let count = store.len();
                let mut done: usize = 0;
                proof {
                    store.lemma_domain();
                }
                while done < count
                    invariant
                        done <= count,
                        count == store.keys().len(),
                        store@.dom() == store.keys().to_set(),
                        chosen@ == with_action_among(
                            store@,
                            action,
                            store.keys().take(done as int),
                        ),
                    decreases count - done,
                {
                    match store.entry(done) {
                        Some((key, attribute)) => {
                            proof {
                                let among = store.keys().take(done as int);
                                let next = store.keys().take(done as int + 1);
                                assert(next == among.push(key@));
                                assert forall|k: Seq<char>| next.contains(k) <==> (among.contains(k)
                                    || k == key@) by {
                                    if next.contains(k) {
                                        let i = choose|i: int| 0 <= i < next.len() && next[i] == k;
                                        if i < among.len() {
                                            assert(among[i] == k);
                                        }
                                    }
                                    if among.contains(k) {
                                        let i = choose|i: int|
                                            0 <= i < among.len() && among[i] == k;
                                        assert(next[i] == k);
                                    }
                                    if k == key@ {
                                        assert(next[done as int] == k);
                                    }
                                }
                            }
                            if attribute.action == action {
                                chosen.insert(key.clone(), attribute.clone());
                            }
                            proof {
                                assert(chosen@ =~= with_action_among(
                                    store@,
                                    action,
                                    store.keys().take(done as int + 1),
                                ));
                            }
                        },
                        None => {},
                    }
                    done += 1;
                }
                proof {
                    assert(store.keys().take(done as int) == store.keys());
                    assert(chosen@ =~= with_action(store@, action));
                }
            },
        }
        chosen
    }

    /// The current values of the attributes as a value store: one assignment for each
    /// attribute, in the order of the attributes.
    pub fn value_store(store: &ConfigHash) -> (values: ValueStore)
        ensures
            values@ == current_values(store.keys(), store@),
    {
        let mut pairs: Vec<(String, String)> = Vec::new();
        let count = store.len();
        let mut done: usize = 0;
        while done < count
            invariant
                done <= count,
                count == store.keys().len(),
                pairs.len() == done,
                forall|i: int|
                    0 <= i < done ==> (#[trigger] pairs[i]).0@ == store.keys()[i] && pairs[i].1@
                        == store@[store.keys()[i]].current,
            decreases count - done,
        {
            match store.entry(done) {
                Some((key, attribute)) => {
                    pairs.push((key.clone(), attribute.current.clone()));
                },
                None => {},
            }
            done += 1;
        }
        let values = ValueStore { pairs };
        proof {
            assert(values@ =~= current_values(store.keys(), store@));
        }
        values
    }

    /// Prepares the file that saves the current values: a value store in INI format that
    /// holds one assignment for each attribute and no section header.
    ///
    /// Only the key and the current value of an attribute are written. The plan asks for a
    /// backup of the file that is there if `make_backup` holds `true`. There is nothing to
    /// write, and no plan, if nothing has been loaded.
    pub fn write_cfg_file(&self, make_backup: Option<bool>) -> (plan: Option<WritePlan>)
        ensures
            match self.cfg {
                Some(store) => {
                    &&& plan matches Some(steps)
                    &&& steps.backup == (make_backup == Some(true))
                    &&& steps.text@ == store_text(current_values(store.keys(), store@))
                },
                None => plan is None,
            },
    {
        match &self.cfg {
            Some(store) => {
                let values = Cfg::value_store(store);
                let backup = match make_backup {
                    Some(wanted) => wanted,
                    None => false,
                };
                Some(WritePlan { backup, text: values.render() })
            },
            None => None,
        }
    }
}

/// The attributes of `attributes` whose key is among `keys` and that are presented as
/// `action` says.
pub open spec fn with_action_among(
    attributes: Map<Seq<char>, AttributeView>,
    action: ActionBehaviour,
    keys: Seq<Seq<char>>,
) -> Map<Seq<char>, AttributeView> {
    Map::new(
        |key: Seq<char>|
            keys.contains(key) && attributes.dom().contains(key) && attributes[key].action
                == action,
        |key: Seq<char>| attributes[key],
    )
}

} // verus!
