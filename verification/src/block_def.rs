//! Block definitions: the declarative description of a block's variables
//! and peripheral needs.
//!
//! The upstream compiler hands this core a description of each block -
//! its parameters, inputs, outputs, discrete states and peripheral
//! references - in a raw attribute form: one named entry whose
//! attributes are given either positionally (type first, then default)
//! or by key. This module turns that raw form into typed definitions,
//! rejecting malformed ones, and gives peripheral references their
//! accessor surface. No parsing of any surface syntax happens here; the
//! raw form is already structured data.

use vstd::prelude::*;

use crate::errors::DefinitionError;

verus! {

/// The closed set of value types a block's variables range over.
#[derive(Clone, Copy, Debug, PartialEq, Eq, Structural)]
pub enum FieldType {
    /// A 32-bit signed integer.
    Int,
    /// A single-precision real; its values live only on the device.
    Float,
    /// A boolean.
    Bool,
    /// A text value.
    Text,
}

/// The field type a type name denotes: `Int`, `Float`, `Bool` or
/// `String`; anything else denotes none.
pub open spec fn parse_field_type(name: Seq<char>) -> Option<FieldType> {
    if name == "Int"@ {
        Some(FieldType::Int)
    } else if name == "Float"@ {
        Some(FieldType::Float)
    } else if name == "Bool"@ {
        Some(FieldType::Bool)
    } else if name == "String"@ {
        Some(FieldType::Text)
    } else {
        None
    }
}

impl FieldType {
    /// Resolves a type name to the field type it denotes.
    pub fn from_name(name: &String) -> (r: Option<FieldType>)
        ensures
            r == parse_field_type(name@),
    {
        let lit_int: String = "Int".to_owned();
        if *name == lit_int {
            return Some(FieldType::Int);
        }
        let lit_float: String = "Float".to_owned();
        if *name == lit_float {
            return Some(FieldType::Float);
        }
        let lit_bool: String = "Bool".to_owned();
        if *name == lit_bool {
            return Some(FieldType::Bool);
        }
        let lit_text: String = "String".to_owned();
        if *name == lit_text {
            return Some(FieldType::Text);
        }
        None
    }
}

/// A scalar attribute value in a block description: an integer, a
/// boolean, or text. (Real-valued defaults are carried as text and
/// resolved on the device, where the numeric type lives.)
#[derive(Debug, PartialEq, Eq)]
pub enum FieldValue {
    Int(i64),
    Bool(bool),
    Text(String),
}

impl FieldValue {
    /// The text carried by a textual value; nothing for the other kinds.
    pub fn as_text(&self) -> (r: Option<&String>)
        ensures
            r is Some <==> self is Text,
            self is Text ==> r->0@ == self->Text_0@,
    {
        match self {
            FieldValue::Text(s) => Some(s),
            _ => None,
        }
    }
}

/// A field's attributes resolved to their three meaningful keys.
#[derive(Debug, PartialEq, Eq)]
pub struct AttrMap {
    /// The `type` attribute.
    pub tpe: Option<FieldValue>,
    /// The `default` attribute.
    pub default: Option<FieldValue>,
    /// The `initial` attribute.
    pub initial: Option<FieldValue>,
}

/// A field's attributes as the description supplies them: positional -
/// type first, then default - or already keyed.
#[derive(Debug, PartialEq, Eq)]
pub enum FieldAttrs {
    /// `[type, default]`, either possibly absent.
    Positional(Vec<FieldValue>),
    /// Attributes given by key.
    Named(AttrMap),
}

impl FieldAttrs {
    /// The keyed form of these attributes: positional attributes mean
    /// the type first and the default second; a keyed form means
    /// itself.
    pub open spec fn attr_map_spec(self) -> AttrMap {
        match self {
            FieldAttrs::Positional(values) => AttrMap {
                tpe: if values@.len() > 0 {
                    Some(values@[0])
                } else {
                    None
                },
                default: if values@.len() > 1 {
                    Some(values@[1])
                } else {
                    None
                },
                initial: None,
            },
            FieldAttrs::Named(m) => m,
        }
    }

    /// Resolves the attributes to their keyed form.
    pub fn into_attr_map(self) -> (m: AttrMap)
        ensures
            m == self.attr_map_spec(),
    {
        match self {
            FieldAttrs::Positional(values) => {
                let mut values = values;
                let tpe = if values.len() > 0 {
                    Some(values.remove(0))
                } else {
                    None
                };
                let default = if values.len() > 0 {
                    Some(values.remove(0))
                } else {
                    None
                };
                AttrMap { tpe, default, initial: None }
            },
            FieldAttrs::Named(m) => m,
        }
    }
}

/// One named entry of a raw field definition.
#[derive(Debug, PartialEq, Eq)]
pub struct FieldDefEntry {
    /// The field's name.
    pub name: String,
    /// The field's attributes.
    pub attrs: FieldAttrs,
}

/// A raw field definition: a map from field name to attributes, which
/// is well formed only when it holds exactly one entry.
#[derive(Debug, PartialEq, Eq)]
pub struct FieldDef {
    pub entries: Vec<FieldDefEntry>,
}

/// A parameter: named, typed, fixed at composition time, with a default.
#[derive(Debug, PartialEq, Eq)]
pub struct ParameterDefinition {
    pub name: String,
    pub tpe: FieldType,
    pub default: FieldValue,
}

impl ParameterDefinition {
    /// What a raw field definition denotes as a parameter: exactly one
    /// entry, a textual `type` attribute naming a known type, and a
    /// `default` value; the first missing piece names the error.
    pub open spec fn parse_spec(def: FieldDef) -> Result<ParameterDefinition, DefinitionError> {
        if def.entries@.len() != 1 {
            Err(DefinitionError::NotSingleEntry)
        } else {
            let entry = def.entries@[0];
            let attrs = entry.attrs.attr_map_spec();
            match attrs.tpe {
                Some(FieldValue::Text(tname)) => match parse_field_type(tname@) {
                    Some(tpe) => match attrs.default {
                        Some(value) => Ok(
                            ParameterDefinition { name: entry.name, tpe, default: value },
                        ),
                        None => Err(DefinitionError::MissingDefault),
                    },
                    None => Err(DefinitionError::UnknownType),
                },
                Some(_) => Err(DefinitionError::MissingType),
                None => Err(DefinitionError::MissingType),
            }
        }
    }

    /// Builds a parameter definition from its raw form.
    pub fn try_from(def: FieldDef) -> (r: Result<ParameterDefinition, DefinitionError>)
        ensures
            r == ParameterDefinition::parse_spec(def),
    {
        let mut entries = def.entries;
        if entries.len() != 1 {
            return Err(DefinitionError::NotSingleEntry);
        }
        let FieldDefEntry { name, attrs } = entries.remove(0);
        let m = attrs.into_attr_map();
        match m.tpe {
            Some(FieldValue::Text(tname)) => match FieldType::from_name(&tname) {
                Some(tpe) => match m.default {
                    Some(value) => Ok(ParameterDefinition { name, tpe, default: value }),
                    None => Err(DefinitionError::MissingDefault),
                },
                None => Err(DefinitionError::UnknownType),
            },
            Some(_) => Err(DefinitionError::MissingType),
            None => Err(DefinitionError::MissingType),
        }
    }
}

/// An input: named and typed; its value comes from an upstream output.
#[derive(Debug, PartialEq, Eq)]
pub struct InputDefinition {
    pub name: String,
    pub tpe: FieldType,
}

impl InputDefinition {
    /// What a raw field definition denotes as an input: exactly one
    /// entry and a textual `type` attribute naming a known type.
    pub open spec fn parse_spec(def: FieldDef) -> Result<InputDefinition, DefinitionError> {
        if def.entries@.len() != 1 {
            Err(DefinitionError::NotSingleEntry)
        } else {
            let entry = def.entries@[0];
            let attrs = entry.attrs.attr_map_spec();
            match attrs.tpe {
                Some(FieldValue::Text(tname)) => match parse_field_type(tname@) {
                    Some(tpe) => Ok(InputDefinition { name: entry.name, tpe }),
                    None => Err(DefinitionError::UnknownType),
                },
                Some(_) => Err(DefinitionError::MissingType),
                None => Err(DefinitionError::MissingType),
            }
        }
    }

    /// Builds an input definition from its raw form.
    pub fn try_from(def: FieldDef) -> (r: Result<InputDefinition, DefinitionError>)
        ensures
            r == InputDefinition::parse_spec(def),
    {
        let mut entries = def.entries;
        if entries.len() != 1 {
            return Err(DefinitionError::NotSingleEntry);
        }
        let FieldDefEntry { name, attrs } = entries.remove(0);
        let m = attrs.into_attr_map();
        match m.tpe {
            Some(FieldValue::Text(tname)) => match FieldType::from_name(&tname) {
                Some(tpe) => Ok(InputDefinition { name, tpe }),
                None => Err(DefinitionError::UnknownType),
            },
            Some(_) => Err(DefinitionError::MissingType),
            None => Err(DefinitionError::MissingType),
        }
    }
}

/// An output: named, typed, with the initial value `init` publishes.
#[derive(Debug, PartialEq, Eq)]
pub struct OutputDefinition {
    pub name: String,
    pub tpe: FieldType,
    pub default: FieldValue,
}

impl OutputDefinition {
    /// What a raw field definition denotes as an output: exactly one
    /// entry, a textual `type` attribute naming a known type, and a
    /// `default` value.
    pub open spec fn parse_spec(def: FieldDef) -> Result<OutputDefinition, DefinitionError> {
        if def.entries@.len() != 1 {
            Err(DefinitionError::NotSingleEntry)
        } else {
            let entry = def.entries@[0];
            let attrs = entry.attrs.attr_map_spec();
            match attrs.tpe {
                Some(FieldValue::Text(tname)) => match parse_field_type(tname@) {
                    Some(tpe) => match attrs.default {
                        Some(value) => Ok(OutputDefinition { name: entry.name, tpe, default: value }),
                        None => Err(DefinitionError::MissingDefault),
                    },
                    None => Err(DefinitionError::UnknownType),
                },
                Some(_) => Err(DefinitionError::MissingType),
                None => Err(DefinitionError::MissingType),
            }
        }
    }

    /// Builds an output definition from its raw form.
    pub fn try_from(def: FieldDef) -> (r: Result<OutputDefinition, DefinitionError>)
        ensures
            r == OutputDefinition::parse_spec(def),
    {
        let mut entries = def.entries;
        if entries.len() != 1 {
            return Err(DefinitionError::NotSingleEntry);
        }
        let FieldDefEntry { name, attrs } = entries.remove(0);
        let m = attrs.into_attr_map();
        match m.tpe {
            Some(FieldValue::Text(tname)) => match FieldType::from_name(&tname) {
                Some(tpe) => match m.default {
                    Some(value) => Ok(OutputDefinition { name, tpe, default: value }),
                    None => Err(DefinitionError::MissingDefault),
                },
                None => Err(DefinitionError::UnknownType),
            },
            Some(_) => Err(DefinitionError::MissingType),
            None => Err(DefinitionError::MissingType),
        }
    }
}

/// A discrete state: named, typed, with the value seeded at `init`.
#[derive(Debug, PartialEq, Eq)]
pub struct DiscreteStateDefinition {
    pub name: String,
    pub tpe: FieldType,
    pub initial: FieldValue,
}

impl DiscreteStateDefinition {
    /// What a raw field definition denotes as a discrete state: exactly
    /// one entry, a textual `type` attribute naming a known type, and
    /// an `initial` value - with `default` accepted in its stead.
    pub open spec fn parse_spec(def: FieldDef) -> Result<DiscreteStateDefinition, DefinitionError> {
        if def.entries@.len() != 1 {
            Err(DefinitionError::NotSingleEntry)
        } else {
            let entry = def.entries@[0];
            let attrs = entry.attrs.attr_map_spec();
            match attrs.tpe {
                Some(FieldValue::Text(tname)) => match parse_field_type(tname@) {
                    Some(tpe) => match attrs.initial {
                        Some(value) => Ok(
                            DiscreteStateDefinition { name: entry.name, tpe, initial: value },
                        ),
                        None => match attrs.default {
                            Some(value) => Ok(
                                DiscreteStateDefinition { name: entry.name, tpe, initial: value },
                            ),
                            None => Err(DefinitionError::MissingInitial),
                        },
                    },
                    None => Err(DefinitionError::UnknownType),
                },
                Some(_) => Err(DefinitionError::MissingType),
                None => Err(DefinitionError::MissingType),
            }
        }
    }

    /// Builds a discrete state definition from its raw form.
    pub fn try_from(def: FieldDef) -> (r: Result<DiscreteStateDefinition, DefinitionError>)
        ensures
            r == DiscreteStateDefinition::parse_spec(def),
    {
        let mut entries = def.entries;
        if entries.len() != 1 {
            return Err(DefinitionError::NotSingleEntry);
        }
        let FieldDefEntry { name, attrs } = entries.remove(0);
        let m = attrs.into_attr_map();
        match m.tpe {
            Some(FieldValue::Text(tname)) => match FieldType::from_name(&tname) {
                Some(tpe) => match m.initial {
                    Some(value) => Ok(DiscreteStateDefinition { name, tpe, initial: value }),
                    None => match m.default {
                        Some(value) => Ok(DiscreteStateDefinition { name, tpe, initial: value }),
                        None => Err(DefinitionError::MissingInitial),
                    },
                },
                None => Err(DefinitionError::UnknownType),
            },
            Some(_) => Err(DefinitionError::MissingType),
            None => Err(DefinitionError::MissingType),
        }
    }
}

/// A qualified path naming a driver type or a capability interface in
/// generated wiring code.
#[derive(Debug, PartialEq, Eq)]
pub struct QualifiedPath {
    /// The path's text, segments separated by `::`.
    pub text: String,
}

/// One generic associated type binding on a capability interface
/// reference.
#[derive(Debug, PartialEq, Eq)]
pub struct GatBinding {
    pub name: String,
    pub target: String,
}

/// A reference to a concrete driver type in generated wiring code.
#[derive(Debug, PartialEq, Eq)]
pub struct StructTypeRef {
    pub qpath: QualifiedPath,
    pub mutable: bool,
    pub lifetime: Option<String>,
}

/// A reference to a capability interface in generated wiring code.
#[derive(Debug, PartialEq, Eq)]
pub struct TraitTypeRef {
    pub qpath: QualifiedPath,
    pub mutable: bool,
    pub lifetime: Option<String>,
    pub gats: Vec<GatBinding>,
}

/// A type reference in generated wiring code: either a concrete driver
/// type or a capability interface.
#[derive(Debug, PartialEq, Eq)]
pub enum RustTypeRef {
    Struct(StructTypeRef),
    Trait(TraitTypeRef),
}

/// A peripheral slot identified by the concrete driver type it takes.
#[derive(Debug, PartialEq, Eq)]
pub struct PeripheralReferenceType {
    pub name: String,
    pub direction: String,
    pub qpath: QualifiedPath,
}

/// A peripheral slot identified by the capability interface it takes.
#[derive(Debug, PartialEq, Eq)]
pub struct PeripheralReferenceTrait {
    pub name: String,
    pub direction: String,
    pub qpath: QualifiedPath,
}

/// A named slot a block declares for a required hardware capability:
/// identified either by a concrete driver type or by a capability
/// interface, with a direction, and resolved to a concrete driver
/// instance at composition time. The two kinds share one accessor
/// surface.
#[derive(Debug, PartialEq, Eq)]
pub enum PeripheralReference {
    Type(PeripheralReferenceType),
    Trait(PeripheralReferenceTrait),
}

/// The view of an optional lifetime argument.
pub open spec fn lifetime_view(lifetime: Option<&str>) -> Option<Seq<char>> {
    match lifetime {
        Some(s) => Some(s@),
        None => None,
    }
}

/// The view of an optional owned lifetime.
pub open spec fn opt_string_view(lifetime: Option<String>) -> Option<Seq<char>> {
    match lifetime {
        Some(s) => Some(s@),
        None => None,
    }
}

impl PeripheralReference {
    /// The declared slot name, whichever kind the reference is.
    pub open spec fn name_spec(&self) -> Seq<char> {
        match self {
            PeripheralReference::Type(x) => x.name@,
            PeripheralReference::Trait(x) => x.name@,
        }
    }

    /// The declared direction, whichever kind the reference is.
    pub open spec fn direction_spec(&self) -> Seq<char> {
        match self {
            PeripheralReference::Type(x) => x.direction@,
            PeripheralReference::Trait(x) => x.direction@,
        }
    }

    /// The qualified path the reference resolves to.
    pub open spec fn qpath_spec(&self) -> Seq<char> {
        match self {
            PeripheralReference::Type(x) => x.qpath.text@,
            PeripheralReference::Trait(x) => x.qpath.text@,
        }
    }

    /// The declared slot name.
    pub fn name(&self) -> (r: &String)
        ensures
            r@ == self.name_spec(),
    {
        match self {
            PeripheralReference::Type(x) => &x.name,
            PeripheralReference::Trait(x) => &x.name,
        }
    }

    /// The declared direction.
    pub fn direction(&self) -> (r: &String)
        ensures
            r@ == self.direction_spec(),
    {
        match self {
            PeripheralReference::Type(x) => &x.direction,
            PeripheralReference::Trait(x) => &x.direction,
        }
    }

    /// The mutable type reference that wiring code takes the bound
    /// driver by: the declared path, mutable, with the given lifetime;
    /// a capability-interface reference carries no associated type
    /// bindings.
    pub fn mut_ref(&self, lifetime: Option<&str>) -> (r: RustTypeRef)
        ensures
            self is Type ==> (r matches RustTypeRef::Struct(sr) && {
                &&& sr.qpath.text@ == self.qpath_spec()
                &&& sr.mutable == true
                &&& opt_string_view(sr.lifetime) == lifetime_view(lifetime)
            }),
            self is Trait ==> (r matches RustTypeRef::Trait(tr) && {
                &&& tr.qpath.text@ == self.qpath_spec()
                &&& tr.mutable == true
                &&& opt_string_view(tr.lifetime) == lifetime_view(lifetime)
                &&& tr.gats@ == Seq::<GatBinding>::empty()
            }),
    {
        let owned_lifetime = match lifetime {
            Some(s) => Some(s.to_owned()),
            None => None,
        };
        match self {
            PeripheralReference::Type(x) => RustTypeRef::Struct(
                StructTypeRef {
                    qpath: QualifiedPath { text: x.qpath.text.clone() },
                    mutable: true,
                    lifetime: owned_lifetime,
                },
            ),
            PeripheralReference::Trait(x) => {
                let gats: Vec<GatBinding> = Vec::new();
                proof {
                    assert(gats@ =~= Seq::<GatBinding>::empty());
                }
                RustTypeRef::Trait(
                    TraitTypeRef {
                        qpath: QualifiedPath { text: x.qpath.text.clone() },
                        mutable: true,
                        lifetime: owned_lifetime,
                        gats,
                    },
                )
            },
        }
    }
}

/// A block's complete declarative description: its name and everything
/// it owns.
#[derive(Debug, PartialEq, Eq)]
pub struct BlockDefinition {
    pub name: String,
    pub parameters: Vec<ParameterDefinition>,
    pub inputs: Vec<InputDefinition>,
    pub outputs: Vec<OutputDefinition>,
    pub discrete_states: Vec<DiscreteStateDefinition>,
    pub peripherals: Vec<PeripheralReference>,
}

/// A module of block definitions, as one description unit hands them
/// over.
#[derive(Debug, PartialEq, Eq)]
pub struct BlockModule {
    pub blocks: Vec<BlockDefinition>,
}

} // verus!
