//! One row of the query-parameter table: a name/value pair plus the
//! cosmetic columns (kind, required flag, description) that never take
//! part in URL serialization.

use vstd::prelude::*;

verus! {

/// The kind column of a parameter row. It is cosmetic: it never alters
/// how a parameter is encoded. `Text` is rendered as "string" in the UI.
#[derive(Clone, Copy, Debug, PartialEq, Eq, Structural)]
pub enum ParamType {
    Text,
    Array,
    Number,
    Boolean,
}

impl ParamType {
    /// The UI name of this kind, as it appears in the kind selector.
    pub fn as_name(&self) -> (r: &'static str)
        ensures
            self is Text ==> r@ == "string"@,
            self is Array ==> r@ == "array"@,
            self is Number ==> r@ == "number"@,
            self is Boolean ==> r@ == "boolean"@,
    {
        match self {
            ParamType::Text => "string",
            ParamType::Array => "array",
            ParamType::Number => "number",
            ParamType::Boolean => "boolean",
        }
    }
}

/// One query-parameter row.
#[derive(Debug)]
pub struct Param {
    pub name: String,
    pub value: String,
    pub type_: ParamType,
    pub required: bool,
    pub description: String,
}

/// The mathematical content of a `Param`: the two strings as character
/// sequences plus the cosmetic fields.
pub struct ParamView {
    pub name: Seq<char>,
    pub value: Seq<char>,
    pub type_: ParamType,
    pub required: bool,
    pub description: Seq<char>,
}

impl View for Param {
    type V = ParamView;

    open spec fn view(&self) -> ParamView {
        ParamView {
            name: self.name@,
            value: self.value@,
            type_: self.type_,
            required: self.required,
            description: self.description@,
        }
    }
}

/// The rows of a parameter list, viewed one by one.
pub open spec fn views_of(ps: Seq<Param>) -> Seq<ParamView> {
    Seq::new(ps.len(), |i: int| ps[i]@)
}

/// The view of a freshly added, still empty row.
pub open spec fn empty_param() -> ParamView {
    ParamView {
        name: Seq::empty(),
        value: Seq::empty(),
        type_: ParamType::Text,
        required: false,
        description: Seq::empty(),
    }
}

/// The view of a row produced by parsing `name=value` out of a query
/// string: the cosmetic fields are always reset to their defaults.
pub open spec fn parsed_param(name: Seq<char>, value: Seq<char>) -> ParamView {
    ParamView { name, value, type_: ParamType::Text, required: false, description: Seq::empty() }
}

/// A copy of `p` with the cosmetic fields reset, i.e. what `p` comes back
/// as after a parse of the URL it was serialized into.
pub open spec fn reparsed(p: ParamView) -> ParamView {
    parsed_param(p.name, p.value)
}

impl Default for Param {
    /// A fresh row: empty name, value and description, kind `Text`,
    /// not required.
    fn default() -> (p: Param)
        ensures
            p@ == empty_param(),
    {
        Param {
            name: String::new(),
            value: String::new(),
            type_: ParamType::Text,
            required: false,
            description: String::new(),
        }
    }
}

impl Param {
    /// A row with the given name and value and default cosmetic fields,
    /// as a parse of `name=value` produces it.
    pub fn with_name_value(name: String, value: String) -> (p: Param)
        ensures
            p@ == parsed_param(name@, value@),
    {
        Param { name, value, type_: ParamType::Text, required: false, description: String::new() }
    }
}

} // verus!
