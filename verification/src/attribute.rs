//! The definition of one configuration attribute.

use crate::decode::{field_text, find_text, same_text, Decode};
use crate::json::{fields_view, Field, FieldView};
use vstd::prelude::*;

verus! {

/// How an attribute is presented to the user.
#[derive(Clone, Copy, Debug, PartialEq, Eq, Structural)]
pub enum ActionBehaviour {
    /// The user can change the current value.
    Edit,
    /// The user can see the current value but cannot change it.
    Display,
    /// The attribute is for internal use only.
    Hide,
}

impl ActionBehaviour {
    /// The behaviour that a definition document calls by the name `name`, if it is the name
    /// of one.
    pub open spec fn named(name: Seq<char>) -> Option<ActionBehaviour> {
        if name == "Edit"@ {
            Some(ActionBehaviour::Edit)
        } else if name == "Display"@ {
            Some(ActionBehaviour::Display)
        } else if name == "Hide"@ {
            Some(ActionBehaviour::Hide)
        } else {
            None
        }
    }

    /// Reads the name of a behaviour: `Edit`, `Display` or `Hide`, in exactly this spelling.
    pub fn from_name(name: &str) -> (found: Option<ActionBehaviour>)
        ensures
            found == Self::named(name@),
    {
        if same_text(name, "Edit") {
            Some(ActionBehaviour::Edit)
        } else if same_text(name, "Display") {
            Some(ActionBehaviour::Display)
        } else if same_text(name, "Hide") {
            Some(ActionBehaviour::Hide)
        } else {
            None
        }
    }
}

/// Definition of an attribute.
#[derive(Debug)]
pub struct Attribute {
    /// Text used to label the edit box on a form.
    pub prompt: String,
    /// Text displayed when the user hovers over the edit box.
    pub tooltip: String,
    /// Current value of the attribute; this is what the value store holds.
    pub current: String,
    /// Default value of the attribute.
    pub default: String,
    /// Regular expression that user input is expected to match.
    pub format: String,
    /// How the attribute is presented.
    pub action: ActionBehaviour,
}

/// The mathematical value of an [`Attribute`]: its texts as character sequences.
pub struct AttributeView {
    pub prompt: Seq<char>,
    pub tooltip: Seq<char>,
    pub current: Seq<char>,
    pub default: Seq<char>,
    pub format: Seq<char>,
    pub action: ActionBehaviour,
}

impl View for Attribute {
    type V = AttributeView;

    open spec fn view(&self) -> AttributeView {
        AttributeView {
            prompt: self.prompt@,
            tooltip: self.tooltip@,
            current: self.current@,
            default: self.default@,
            format: self.format@,
            action: self.action,
        }
    }
}

impl Clone for Attribute {
    fn clone(&self) -> (copy: Self)
        ensures
            copy == *self,
    {
        Attribute {
            prompt: self.prompt.clone(),
            tooltip: self.tooltip.clone(),
            current: self.current.clone(),
            default: self.default.clone(),
            format: self.format.clone(),
            action: self.action,
        }
    }
}

impl Decode for Attribute {
    /// An entry defines an attribute if it has the texts `prompt`, `tooltip`, `current`,
    /// `default` and `format`, and an `action` that names a behaviour. Other members of the
    /// entry are passed over.
    open spec fn decoded(fields: Seq<FieldView>) -> Option<AttributeView> {
        match (
            field_text(fields, "prompt"@),
            field_text(fields, "tooltip"@),
            field_text(fields, "current"@),
            field_text(fields, "default"@),
            field_text(fields, "format"@),
            field_text(fields, "action"@),
        ) {
            (Some(prompt), Some(tooltip), Some(current), Some(default), Some(format), Some(name)) => {
                match ActionBehaviour::named(name) {
                    Some(action) => Some(
                        AttributeView { prompt, tooltip, current, default, format, action },
                    ),
                    None => None,
                }
            },
            _ => None,
        }
    }

    fn decode(fields: &Vec<Field>) -> (item: Option<Attribute>) {
        let prompt = find_text(fields, "prompt");
        let tooltip = find_text(fields, "tooltip");
        let current = find_text(fields, "current");
        let default = find_text(fields, "default");
        let format = find_text(fields, "format");
        let name = find_text(fields, "action");
        match (prompt, tooltip, current, default, format, name) {
            (Some(prompt), Some(tooltip), Some(current), Some(default), Some(format), Some(name)) => {
                match ActionBehaviour::from_name(name.as_str()) {
                    Some(action) => Some(
                        Attribute { prompt, tooltip, current, default, format, action },
                    ),
                    None => None,
                }
            },
            _ => None,
        }
    }
}

} // verus!
