//! The `structure` section: layers, boundaries, planes, vias and rules.

use vstd::prelude::*;
use crate::outcome::{Outcome, SpecOutcome, bind};
use crate::parsable::{Parsable, spec_padded, parse_padded, spec_named, parse_named, spec_optional, parse_optional, spec_optional_named, parse_optional_named, spec_open, parse_open, spec_close, parse_close, spec_keyword_item, parse_keyword_item};
use crate::text::{ws_end, skip_ws};
use crate::atoms;
use crate::numeric;
use crate::shapes;
use crate::pcb::library;

verus! {

/// Written `(structure layers* boundaries* [planes*] keepouts* vias rules)`.
#[derive(Debug, Clone, PartialEq)]
pub struct StructureDescriptor {
    pub layers: Vec<LayerDescriptor>,
    pub boundaries: Vec<BoundaryDescriptor>,
    pub planes: Option<Vec<PlaneDescriptor>>,
    pub keepouts: Vec<library::KeepoutDescriptor>,
    pub vias: ViaDescriptor,
    pub rules: RuleDescriptor,
}

pub struct SpecStructureDescriptor {
    pub layers: Seq<SpecLayerDescriptor>,
    pub boundaries: Seq<SpecBoundaryDescriptor>,
    pub planes: Option<Seq<SpecPlaneDescriptor>>,
    pub keepouts: Seq<library::SpecKeepoutDescriptor>,
    pub vias: SpecViaDescriptor,
    pub rules: SpecRuleDescriptor,
}

impl DeepView for StructureDescriptor {
    type V = SpecStructureDescriptor;

    open spec fn deep_view(&self) -> SpecStructureDescriptor {
        SpecStructureDescriptor { layers: self.layers.deep_view(), boundaries: self.boundaries.deep_view(), planes: self.planes.deep_view(), keepouts: self.keepouts.deep_view(), vias: self.vias.deep_view(), rules: self.rules.deep_view() }
    }
}

impl Parsable for StructureDescriptor {
    open spec fn spec_parse(s: Seq<char>, p: int) -> SpecOutcome<SpecStructureDescriptor> {
        match spec_open(s, p, "structure"@) {
            None => SpecOutcome::Failed,
            Some(q0) => bind(spec_padded::<Vec<LayerDescriptor>>(s, q0), |layers: Seq<SpecLayerDescriptor>, q1: int|
                bind(spec_padded::<Vec<BoundaryDescriptor>>(s, q1), |boundaries: Seq<SpecBoundaryDescriptor>, q2: int|
                bind(spec_optional::<Vec<PlaneDescriptor>>(s, q2), |planes: Option<Seq<SpecPlaneDescriptor>>, q3: int|
                bind(spec_padded::<Vec<library::KeepoutDescriptor>>(s, q3), |keepouts: Seq<library::SpecKeepoutDescriptor>, q4: int|
                bind(spec_padded::<ViaDescriptor>(s, q4), |vias: SpecViaDescriptor, q5: int|
                bind(spec_padded::<RuleDescriptor>(s, q5), |rules: SpecRuleDescriptor, q6: int|
                match spec_close(s, q6) {
                    None => SpecOutcome::Failed,
                    Some(q) => SpecOutcome::Parsed(SpecStructureDescriptor { layers, boundaries, planes, keepouts, vias, rules }, q),
                })))))),
        }
    }

    fn parse_at(s: &Vec<char>, p: usize) -> (r: Outcome<StructureDescriptor>) {
        let q0 = match parse_open(s, p, "structure") {
            Some(q) => q,
            None => return Outcome::Failed,
        };
        let (v_layers, q1) = match parse_padded::<Vec<LayerDescriptor>>(s, q0) {
            Outcome::Parsed(v, q) => (v, q),
            Outcome::Failed => return Outcome::Failed,
            Outcome::Aborted => return Outcome::Aborted,
        };
        let (v_boundaries, q2) = match parse_padded::<Vec<BoundaryDescriptor>>(s, q1) {
            Outcome::Parsed(v, q) => (v, q),
            Outcome::Failed => return Outcome::Failed,
            Outcome::Aborted => return Outcome::Aborted,
        };
        let (v_planes, q3) = match parse_optional::<Vec<PlaneDescriptor>>(s, q2) {
            Outcome::Parsed(v, q) => (v, q),
            Outcome::Failed => return Outcome::Failed,
            Outcome::Aborted => return Outcome::Aborted,
        };
        let (v_keepouts, q4) = match parse_padded::<Vec<library::KeepoutDescriptor>>(s, q3) {
            Outcome::Parsed(v, q) => (v, q),
            Outcome::Failed => return Outcome::Failed,
            Outcome::Aborted => return Outcome::Aborted,
        };
        let (v_vias, q5) = match parse_padded::<ViaDescriptor>(s, q4) {
            Outcome::Parsed(v, q) => (v, q),
            Outcome::Failed => return Outcome::Failed,
            Outcome::Aborted => return Outcome::Aborted,
        };
        let (v_rules, q6) = match parse_padded::<RuleDescriptor>(s, q5) {
            Outcome::Parsed(v, q) => (v, q),
            Outcome::Failed => return Outcome::Failed,
            Outcome::Aborted => return Outcome::Aborted,
        };
        let q7 = match parse_close(s, q6) {
            Some(q) => q,
            None => return Outcome::Failed,
        };
        Outcome::Parsed(StructureDescriptor { layers: v_layers, boundaries: v_boundaries, planes: v_planes, keepouts: v_keepouts, vias: v_vias, rules: v_rules }, q7)
    }
}

/// Written `(layer name (type layer_type) properties* [(direction direction)])`.
#[derive(Debug, Clone, PartialEq)]
pub struct LayerDescriptor {
    pub name: atoms::Id,
    pub layer_type: LayerType,
    pub properties: Vec<UserPropertyDescriptor>,
    pub direction: Option<DirectionType>,
}

pub struct SpecLayerDescriptor {
    pub name: Seq<char>,
    pub layer_type: LayerType,
    pub properties: Seq<SpecUserPropertyDescriptor>,
    pub direction: Option<DirectionType>,
}

impl DeepView for LayerDescriptor {
    type V = SpecLayerDescriptor;

    open spec fn deep_view(&self) -> SpecLayerDescriptor {
        SpecLayerDescriptor { name: self.name.deep_view(), layer_type: self.layer_type.deep_view(), properties: self.properties.deep_view(), direction: self.direction.deep_view() }
    }
}

impl Parsable for LayerDescriptor {
    open spec fn spec_parse(s: Seq<char>, p: int) -> SpecOutcome<SpecLayerDescriptor> {
        match spec_open(s, p, "layer"@) {
            None => SpecOutcome::Failed,
            Some(q0) => bind(spec_padded::<atoms::Id>(s, q0), |name: Seq<char>, q1: int|
                bind(spec_named::<LayerType>(s, q1, "type"@), |layer_type: LayerType, q2: int|
                bind(spec_padded::<Vec<UserPropertyDescriptor>>(s, q2), |properties: Seq<SpecUserPropertyDescriptor>, q3: int|
                bind(spec_optional_named::<DirectionType>(s, q3, "direction"@), |direction: Option<DirectionType>, q4: int|
                match spec_close(s, q4) {
                    None => SpecOutcome::Failed,
                    Some(q) => SpecOutcome::Parsed(SpecLayerDescriptor { name, layer_type, properties, direction }, q),
                })))),
        }
    }

    fn parse_at(s: &Vec<char>, p: usize) -> (r: Outcome<LayerDescriptor>) {
        let q0 = match parse_open(s, p, "layer") {
            Some(q) => q,
            None => return Outcome::Failed,
        };
        let (v_name, q1) = match parse_padded::<atoms::Id>(s, q0) {
            Outcome::Parsed(v, q) => (v, q),
            Outcome::Failed => return Outcome::Failed,
            Outcome::Aborted => return Outcome::Aborted,
        };
        let (v_layer_type, q2) = match parse_named::<LayerType>(s, q1, "type") {
            Outcome::Parsed(v, q) => (v, q),
            Outcome::Failed => return Outcome::Failed,
            Outcome::Aborted => return Outcome::Aborted,
        };
        let (v_properties, q3) = match parse_padded::<Vec<UserPropertyDescriptor>>(s, q2) {
            Outcome::Parsed(v, q) => (v, q),
            Outcome::Failed => return Outcome::Failed,
            Outcome::Aborted => return Outcome::Aborted,
        };
        let (v_direction, q4) = match parse_optional_named::<DirectionType>(s, q3, "direction") {
            Outcome::Parsed(v, q) => (v, q),
            Outcome::Failed => return Outcome::Failed,
            Outcome::Aborted => return Outcome::Aborted,
        };
        let q5 = match parse_close(s, q4) {
            Some(q) => q,
            None => return Outcome::Failed,
        };
        Outcome::Parsed(LayerDescriptor { name: v_name, layer_type: v_layer_type, properties: v_properties, direction: v_direction }, q5)
    }
}

/// One of, tried in this order:
/// - `Signal`: `signal`
/// - `Power`: `power`
/// - `Mixed`: `mixed`
/// - `Jumper`: `jumper`
#[derive(Debug, Clone, Copy, PartialEq)]
pub enum LayerType {
    Signal,
    Power,
    Mixed,
    Jumper,
}

impl DeepView for LayerType {
    type V = LayerType;

    open spec fn deep_view(&self) -> LayerType {
        *self
    }
}

pub open spec fn spec_layer_type_signal(s: Seq<char>, p: int) -> SpecOutcome<LayerType> {
    match spec_keyword_item(s, p, "signal"@) {
        None => SpecOutcome::Failed,
        Some(q) => SpecOutcome::Parsed(LayerType::Signal, q),
    }
}

fn parse_layer_type_signal(s: &Vec<char>, p: usize) -> (r: Outcome<LayerType>)
    requires
        p <= s.len(),
    ensures
        r@ == spec_layer_type_signal(s@, p as int),
        r.within(p as int, s.len() as int),
{
    let q0 = match parse_keyword_item(s, p, "signal") {
        Some(q) => q,
        None => return Outcome::Failed,
    };
    Outcome::Parsed(LayerType::Signal, q0)
}

pub open spec fn spec_layer_type_power(s: Seq<char>, p: int) -> SpecOutcome<LayerType> {
    match spec_keyword_item(s, p, "power"@) {
        None => SpecOutcome::Failed,
        Some(q) => SpecOutcome::Parsed(LayerType::Power, q),
    }
}

fn parse_layer_type_power(s: &Vec<char>, p: usize) -> (r: Outcome<LayerType>)
    requires
        p <= s.len(),
    ensures
        r@ == spec_layer_type_power(s@, p as int),
        r.within(p as int, s.len() as int),
{
    let q0 = match parse_keyword_item(s, p, "power") {
        Some(q) => q,
        None => return Outcome::Failed,
    };
    Outcome::Parsed(LayerType::Power, q0)
}

pub open spec fn spec_layer_type_mixed(s: Seq<char>, p: int) -> SpecOutcome<LayerType> {
    match spec_keyword_item(s, p, "mixed"@) {
        None => SpecOutcome::Failed,
        Some(q) => SpecOutcome::Parsed(LayerType::Mixed, q),
    }
}

fn parse_layer_type_mixed(s: &Vec<char>, p: usize) -> (r: Outcome<LayerType>)
    requires
        p <= s.len(),
    ensures
        r@ == spec_layer_type_mixed(s@, p as int),
        r.within(p as int, s.len() as int),
{
    let q0 = match parse_keyword_item(s, p, "mixed") {
        Some(q) => q,
        None => return Outcome::Failed,
    };
    Outcome::Parsed(LayerType::Mixed, q0)
}

pub open spec fn spec_layer_type_jumper(s: Seq<char>, p: int) -> SpecOutcome<LayerType> {
    match spec_keyword_item(s, p, "jumper"@) {
        None => SpecOutcome::Failed,
        Some(q) => SpecOutcome::Parsed(LayerType::Jumper, q),
    }
}

fn parse_layer_type_jumper(s: &Vec<char>, p: usize) -> (r: Outcome<LayerType>)
    requires
        p <= s.len(),
    ensures
        r@ == spec_layer_type_jumper(s@, p as int),
        r.within(p as int, s.len() as int),
{
    let q0 = match parse_keyword_item(s, p, "jumper") {
        Some(q) => q,
        None => return Outcome::Failed,
    };
    Outcome::Parsed(LayerType::Jumper, q0)
}

impl Parsable for LayerType {
    open spec fn spec_parse(s: Seq<char>, p: int) -> SpecOutcome<LayerType> {
        match spec_layer_type_signal(s, p) {
            SpecOutcome::Failed => match spec_layer_type_power(s, p) {
                SpecOutcome::Failed => match spec_layer_type_mixed(s, p) {
                    SpecOutcome::Failed => spec_layer_type_jumper(s, p),
                    o => o,
                },
                o => o,
            },
            o => o,
        }
    }

    fn parse_at(s: &Vec<char>, p: usize) -> (r: Outcome<LayerType>) {
        match parse_layer_type_signal(s, p) {
            Outcome::Failed => {},
            o => return o,
        }
        match parse_layer_type_power(s, p) {
            Outcome::Failed => {},
            o => return o,
        }
        match parse_layer_type_mixed(s, p) {
            Outcome::Failed => {},
            o => return o,
        }
        parse_layer_type_jumper(s, p)
    }
}

/// Written `(property descriptors*)`.
#[derive(Debug, Clone, PartialEq)]
pub struct UserPropertyDescriptor {
    pub descriptors: Vec<PropertyValueDescriptor>,
}

pub struct SpecUserPropertyDescriptor {
    pub descriptors: Seq<SpecPropertyValueDescriptor>,
}

impl DeepView for UserPropertyDescriptor {
    type V = SpecUserPropertyDescriptor;

    open spec fn deep_view(&self) -> SpecUserPropertyDescriptor {
        SpecUserPropertyDescriptor { descriptors: self.descriptors.deep_view() }
    }
}

impl Parsable for UserPropertyDescriptor {
    open spec fn spec_parse(s: Seq<char>, p: int) -> SpecOutcome<SpecUserPropertyDescriptor> {
        match spec_open(s, p, "property"@) {
            None => SpecOutcome::Failed,
            Some(q0) => bind(spec_padded::<Vec<PropertyValueDescriptor>>(s, q0), |descriptors: Seq<SpecPropertyValueDescriptor>, q1: int|
                match spec_close(s, q1) {
                    None => SpecOutcome::Failed,
                    Some(q) => SpecOutcome::Parsed(SpecUserPropertyDescriptor { descriptors }, q),
                }),
        }
    }

    fn parse_at(s: &Vec<char>, p: usize) -> (r: Outcome<UserPropertyDescriptor>) {
        let q0 = match parse_open(s, p, "property") {
            Some(q) => q,
            None => return Outcome::Failed,
        };
        let (v_descriptors, q1) = match parse_padded::<Vec<PropertyValueDescriptor>>(s, q0) {
            Outcome::Parsed(v, q) => (v, q),
            Outcome::Failed => return Outcome::Failed,
            Outcome::Aborted => return Outcome::Aborted,
        };
        let q2 = match parse_close(s, q1) {
            Some(q) => q,
            None => return Outcome::Failed,
        };
        Outcome::Parsed(UserPropertyDescriptor { descriptors: v_descriptors }, q2)
    }
}

/// Written `( name value)`.
#[derive(Debug, Clone, PartialEq)]
pub struct PropertyValueDescriptor {
    pub name: atoms::Id,
    pub value: PropertyValue,
}

pub struct SpecPropertyValueDescriptor {
    pub name: Seq<char>,
    pub value: SpecPropertyValue,
}

impl DeepView for PropertyValueDescriptor {
    type V = SpecPropertyValueDescriptor;

    open spec fn deep_view(&self) -> SpecPropertyValueDescriptor {
        SpecPropertyValueDescriptor { name: self.name.deep_view(), value: self.value.deep_view() }
    }
}

impl Parsable for PropertyValueDescriptor {
    open spec fn spec_parse(s: Seq<char>, p: int) -> SpecOutcome<SpecPropertyValueDescriptor> {
        match spec_open(s, p, ""@) {
            None => SpecOutcome::Failed,
            Some(q0) => bind(spec_padded::<atoms::Id>(s, q0), |name: Seq<char>, q1: int|
                bind(spec_padded::<PropertyValue>(s, q1), |value: SpecPropertyValue, q2: int|
                match spec_close(s, q2) {
                    None => SpecOutcome::Failed,
                    Some(q) => SpecOutcome::Parsed(SpecPropertyValueDescriptor { name, value }, q),
                })),
        }
    }

    fn parse_at(s: &Vec<char>, p: usize) -> (r: Outcome<PropertyValueDescriptor>) {
        let q0 = match parse_open(s, p, "") {
            Some(q) => q,
            None => return Outcome::Failed,
        };
        let (v_name, q1) = match parse_padded::<atoms::Id>(s, q0) {
            Outcome::Parsed(v, q) => (v, q),
            Outcome::Failed => return Outcome::Failed,
            Outcome::Aborted => return Outcome::Aborted,
        };
        let (v_value, q2) = match parse_padded::<PropertyValue>(s, q1) {
            Outcome::Parsed(v, q) => (v, q),
            Outcome::Failed => return Outcome::Failed,
            Outcome::Aborted => return Outcome::Aborted,
        };
        let q3 = match parse_close(s, q2) {
            Some(q) => q,
            None => return Outcome::Failed,
        };
        Outcome::Parsed(PropertyValueDescriptor { name: v_name, value: v_value }, q3)
    }
}

/// One of, tried in this order:
/// - `Number`: `Number`
/// - `String`: `Id`
#[derive(Debug, Clone, PartialEq)]
pub enum PropertyValue {
    Number(numeric::Number),
    String(atoms::Id),
}

pub enum SpecPropertyValue {
    Number(numeric::Number),
    String(Seq<char>),
}

impl DeepView for PropertyValue {
    type V = SpecPropertyValue;

    open spec fn deep_view(&self) -> SpecPropertyValue {
        match self {
            PropertyValue::Number(v_0) => SpecPropertyValue::Number(v_0.deep_view()),
            PropertyValue::String(v_0) => SpecPropertyValue::String(v_0.deep_view()),
        }
    }
}

pub open spec fn spec_property_value_number(s: Seq<char>, p: int) -> SpecOutcome<SpecPropertyValue> {
    bind(spec_padded::<numeric::Number>(s, ws_end(s, p)), |v0: numeric::Number, q1: int|
    SpecOutcome::Parsed(SpecPropertyValue::Number(v0), ws_end(s, q1)))
}

fn parse_property_value_number(s: &Vec<char>, p: usize) -> (r: Outcome<PropertyValue>)
    requires
        p <= s.len(),
    ensures
        r@ == spec_property_value_number(s@, p as int),
        r.within(p as int, s.len() as int),
{
    let q0 = skip_ws(s, p);
    let (v_0, q1) = match parse_padded::<numeric::Number>(s, q0) {
        Outcome::Parsed(v, q) => (v, q),
        Outcome::Failed => return Outcome::Failed,
        Outcome::Aborted => return Outcome::Aborted,
    };
    let q2 = skip_ws(s, q1);
    Outcome::Parsed(PropertyValue::Number(v_0), q2)
}

pub open spec fn spec_property_value_string(s: Seq<char>, p: int) -> SpecOutcome<SpecPropertyValue> {
    bind(spec_padded::<atoms::Id>(s, ws_end(s, p)), |v0: Seq<char>, q1: int|
    SpecOutcome::Parsed(SpecPropertyValue::String(v0), ws_end(s, q1)))
}

fn parse_property_value_string(s: &Vec<char>, p: usize) -> (r: Outcome<PropertyValue>)
    requires
        p <= s.len(),
    ensures
        r@ == spec_property_value_string(s@, p as int),
        r.within(p as int, s.len() as int),
{
    let q0 = skip_ws(s, p);
    let (v_0, q1) = match parse_padded::<atoms::Id>(s, q0) {
        Outcome::Parsed(v, q) => (v, q),
        Outcome::Failed => return Outcome::Failed,
        Outcome::Aborted => return Outcome::Aborted,
    };
    let q2 = skip_ws(s, q1);
    Outcome::Parsed(PropertyValue::String(v_0), q2)
}

impl Parsable for PropertyValue {
    open spec fn spec_parse(s: Seq<char>, p: int) -> SpecOutcome<SpecPropertyValue> {
        match spec_property_value_number(s, p) {
            SpecOutcome::Failed => spec_property_value_string(s, p),
            o => o,
        }
    }

    fn parse_at(s: &Vec<char>, p: usize) -> (r: Outcome<PropertyValue>) {
        match parse_property_value_number(s, p) {
            Outcome::Failed => {},
            o => return o,
        }
        parse_property_value_string(s, p)
    }
}

/// One of, tried in this order:
/// - `Horizontal`: `horizontal`
/// - `Vertical`: `vertical`
/// - `Orthogonal`: `orthogonal`
/// - `PositiveDiagonal`: `positive_diagonal`
/// - `NegativeDiagonal`: `negative_diagonal`
/// - `Diagonal`: `diagonal`
/// - `Off`: `off`
#[derive(Debug, Clone, Copy, PartialEq)]
pub enum DirectionType {
    Horizontal,
    Vertical,
    Orthogonal,
    PositiveDiagonal,
    NegativeDiagonal,
    Diagonal,
    Off,
}

impl DeepView for DirectionType {
    type V = DirectionType;

    open spec fn deep_view(&self) -> DirectionType {
        *self
    }
}

pub open spec fn spec_direction_type_horizontal(s: Seq<char>, p: int) -> SpecOutcome<DirectionType> {
    match spec_keyword_item(s, p, "horizontal"@) {
        None => SpecOutcome::Failed,
        Some(q) => SpecOutcome::Parsed(DirectionType::Horizontal, q),
    }
}

fn parse_direction_type_horizontal(s: &Vec<char>, p: usize) -> (r: Outcome<DirectionType>)
    requires
        p <= s.len(),
    ensures
        r@ == spec_direction_type_horizontal(s@, p as int),
        r.within(p as int, s.len() as int),
{
    let q0 = match parse_keyword_item(s, p, "horizontal") {
        Some(q) => q,
        None => return Outcome::Failed,
    };
    Outcome::Parsed(DirectionType::Horizontal, q0)
}

pub open spec fn spec_direction_type_vertical(s: Seq<char>, p: int) -> SpecOutcome<DirectionType> {
    match spec_keyword_item(s, p, "vertical"@) {
        None => SpecOutcome::Failed,
        Some(q) => SpecOutcome::Parsed(DirectionType::Vertical, q),
    }
}

fn parse_direction_type_vertical(s: &Vec<char>, p: usize) -> (r: Outcome<DirectionType>)
    requires
        p <= s.len(),
    ensures
        r@ == spec_direction_type_vertical(s@, p as int),
        r.within(p as int, s.len() as int),
{
    let q0 = match parse_keyword_item(s, p, "vertical") {
        Some(q) => q,
        None => return Outcome::Failed,
    };
    Outcome::Parsed(DirectionType::Vertical, q0)
}

pub open spec fn spec_direction_type_orthogonal(s: Seq<char>, p: int) -> SpecOutcome<DirectionType> {
    match spec_keyword_item(s, p, "orthogonal"@) {
        None => SpecOutcome::Failed,
        Some(q) => SpecOutcome::Parsed(DirectionType::Orthogonal, q),
    }
}

fn parse_direction_type_orthogonal(s: &Vec<char>, p: usize) -> (r: Outcome<DirectionType>)
    requires
        p <= s.len(),
    ensures
        r@ == spec_direction_type_orthogonal(s@, p as int),
        r.within(p as int, s.len() as int),
{
    let q0 = match parse_keyword_item(s, p, "orthogonal") {
        Some(q) => q,
        None => return Outcome::Failed,
    };
    Outcome::Parsed(DirectionType::Orthogonal, q0)
}

pub open spec fn spec_direction_type_positive_diagonal(s: Seq<char>, p: int) -> SpecOutcome<DirectionType> {
    match spec_keyword_item(s, p, "positive_diagonal"@) {
        None => SpecOutcome::Failed,
        Some(q) => SpecOutcome::Parsed(DirectionType::PositiveDiagonal, q),
    }
}

fn parse_direction_type_positive_diagonal(s: &Vec<char>, p: usize) -> (r: Outcome<DirectionType>)
    requires
        p <= s.len(),
    ensures
        r@ == spec_direction_type_positive_diagonal(s@, p as int),
        r.within(p as int, s.len() as int),
{
    let q0 = match parse_keyword_item(s, p, "positive_diagonal") {
        Some(q) => q,
        None => return Outcome::Failed,
    };
    Outcome::Parsed(DirectionType::PositiveDiagonal, q0)
}

pub open spec fn spec_direction_type_negative_diagonal(s: Seq<char>, p: int) -> SpecOutcome<DirectionType> {
    match spec_keyword_item(s, p, "negative_diagonal"@) {
        None => SpecOutcome::Failed,
        Some(q) => SpecOutcome::Parsed(DirectionType::NegativeDiagonal, q),
    }
}

fn parse_direction_type_negative_diagonal(s: &Vec<char>, p: usize) -> (r: Outcome<DirectionType>)
    requires
        p <= s.len(),
    ensures
        r@ == spec_direction_type_negative_diagonal(s@, p as int),
        r.within(p as int, s.len() as int),
{
    let q0 = match parse_keyword_item(s, p, "negative_diagonal") {
        Some(q) => q,
        None => return Outcome::Failed,
    };
    Outcome::Parsed(DirectionType::NegativeDiagonal, q0)
}

pub open spec fn spec_direction_type_diagonal(s: Seq<char>, p: int) -> SpecOutcome<DirectionType> {
    match spec_keyword_item(s, p, "diagonal"@) {
        None => SpecOutcome::Failed,
        Some(q) => SpecOutcome::Parsed(DirectionType::Diagonal, q),
    }
}

fn parse_direction_type_diagonal(s: &Vec<char>, p: usize) -> (r: Outcome<DirectionType>)
    requires
        p <= s.len(),
    ensures
        r@ == spec_direction_type_diagonal(s@, p as int),
        r.within(p as int, s.len() as int),
{
    let q0 = match parse_keyword_item(s, p, "diagonal") {
        Some(q) => q,
        None => return Outcome::Failed,
    };
    Outcome::Parsed(DirectionType::Diagonal, q0)
}

pub open spec fn spec_direction_type_off(s: Seq<char>, p: int) -> SpecOutcome<DirectionType> {
    match spec_keyword_item(s, p, "off"@) {
        None => SpecOutcome::Failed,
        Some(q) => SpecOutcome::Parsed(DirectionType::Off, q),
    }
}

fn parse_direction_type_off(s: &Vec<char>, p: usize) -> (r: Outcome<DirectionType>)
    requires
        p <= s.len(),
    ensures
        r@ == spec_direction_type_off(s@, p as int),
        r.within(p as int, s.len() as int),
{
    let q0 = match parse_keyword_item(s, p, "off") {
        Some(q) => q,
        None => return Outcome::Failed,
    };
    Outcome::Parsed(DirectionType::Off, q0)
}

impl Parsable for DirectionType {
    open spec fn spec_parse(s: Seq<char>, p: int) -> SpecOutcome<DirectionType> {
        match spec_direction_type_horizontal(s, p) {
            SpecOutcome::Failed => match spec_direction_type_vertical(s, p) {
                SpecOutcome::Failed => match spec_direction_type_orthogonal(s, p) {
                    SpecOutcome::Failed => match spec_direction_type_positive_diagonal(s, p) {
                        SpecOutcome::Failed => match spec_direction_type_negative_diagonal(s, p) {
                            SpecOutcome::Failed => match spec_direction_type_diagonal(s, p) {
                                SpecOutcome::Failed => spec_direction_type_off(s, p),
                                o => o,
                            },
                            o => o,
                        },
                        o => o,
                    },
                    o => o,
                },
                o => o,
            },
            o => o,
        }
    }

    fn parse_at(s: &Vec<char>, p: usize) -> (r: Outcome<DirectionType>) {
        match parse_direction_type_horizontal(s, p) {
            Outcome::Failed => {},
            o => return o,
        }
        match parse_direction_type_vertical(s, p) {
            Outcome::Failed => {},
            o => return o,
        }
        match parse_direction_type_orthogonal(s, p) {
            Outcome::Failed => {},
            o => return o,
        }
        match parse_direction_type_positive_diagonal(s, p) {
            Outcome::Failed => {},
            o => return o,
        }
        match parse_direction_type_negative_diagonal(s, p) {
            Outcome::Failed => {},
            o => return o,
        }
        match parse_direction_type_diagonal(s, p) {
            Outcome::Failed => {},
            o => return o,
        }
        parse_direction_type_off(s, p)
    }
}

/// Written `(boundary boundary_type [rule_descriptor])`.
#[derive(Debug, Clone, PartialEq)]
pub struct BoundaryDescriptor {
    pub boundary_type: BoundaryDescriptorType,
    pub rule_descriptor: Option<RuleDescriptor>,
}

pub struct SpecBoundaryDescriptor {
    pub boundary_type: SpecBoundaryDescriptorType,
    pub rule_descriptor: Option<SpecRuleDescriptor>,
}

impl DeepView for BoundaryDescriptor {
    type V = SpecBoundaryDescriptor;

    open spec fn deep_view(&self) -> SpecBoundaryDescriptor {
        SpecBoundaryDescriptor { boundary_type: self.boundary_type.deep_view(), rule_descriptor: self.rule_descriptor.deep_view() }
    }
}

impl Parsable for BoundaryDescriptor {
    open spec fn spec_parse(s: Seq<char>, p: int) -> SpecOutcome<SpecBoundaryDescriptor> {
        match spec_open(s, p, "boundary"@) {
            None => SpecOutcome::Failed,
            Some(q0) => bind(spec_padded::<BoundaryDescriptorType>(s, q0), |boundary_type: SpecBoundaryDescriptorType, q1: int|
                bind(spec_optional::<RuleDescriptor>(s, q1), |rule_descriptor: Option<SpecRuleDescriptor>, q2: int|
                match spec_close(s, q2) {
                    None => SpecOutcome::Failed,
                    Some(q) => SpecOutcome::Parsed(SpecBoundaryDescriptor { boundary_type, rule_descriptor }, q),
                })),
        }
    }

    fn parse_at(s: &Vec<char>, p: usize) -> (r: Outcome<BoundaryDescriptor>) {
        let q0 = match parse_open(s, p, "boundary") {
            Some(q) => q,
            None => return Outcome::Failed,
        };
        let (v_boundary_type, q1) = match parse_padded::<BoundaryDescriptorType>(s, q0) {
            Outcome::Parsed(v, q) => (v, q),
            Outcome::Failed => return Outcome::Failed,
            Outcome::Aborted => return Outcome::Aborted,
        };
        let (v_rule_descriptor, q2) = match parse_optional::<RuleDescriptor>(s, q1) {
            Outcome::Parsed(v, q) => (v, q),
            Outcome::Failed => return Outcome::Failed,
            Outcome::Aborted => return Outcome::Aborted,
        };
        let q3 = match parse_close(s, q2) {
            Some(q) => q,
            None => return Outcome::Failed,
        };
        Outcome::Parsed(BoundaryDescriptor { boundary_type: v_boundary_type, rule_descriptor: v_rule_descriptor }, q3)
    }
}

/// One of, tried in this order:
/// - `Paths`: `PathDescriptor*`
/// - `Rectangle`: `RectangleDescriptor`
#[derive(Debug, Clone, PartialEq)]
pub enum BoundaryDescriptorType {
    Paths(Vec<shapes::PathDescriptor>),
    Rectangle(shapes::RectangleDescriptor),
}

pub enum SpecBoundaryDescriptorType {
    Paths(Seq<shapes::SpecPathDescriptor>),
    Rectangle(shapes::SpecRectangleDescriptor),
}

impl DeepView for BoundaryDescriptorType {
    type V = SpecBoundaryDescriptorType;

    open spec fn deep_view(&self) -> SpecBoundaryDescriptorType {
        match self {
            BoundaryDescriptorType::Paths(v_0) => SpecBoundaryDescriptorType::Paths(v_0.deep_view()),
            BoundaryDescriptorType::Rectangle(v_0) => SpecBoundaryDescriptorType::Rectangle(v_0.deep_view()),
        }
    }
}

pub open spec fn spec_boundary_descriptor_type_paths(s: Seq<char>, p: int) -> SpecOutcome<SpecBoundaryDescriptorType> {
    bind(spec_padded::<Vec<shapes::PathDescriptor>>(s, ws_end(s, p)), |v0: Seq<shapes::SpecPathDescriptor>, q1: int|
    SpecOutcome::Parsed(SpecBoundaryDescriptorType::Paths(v0), ws_end(s, q1)))
}

fn parse_boundary_descriptor_type_paths(s: &Vec<char>, p: usize) -> (r: Outcome<BoundaryDescriptorType>)
    requires
        p <= s.len(),
    ensures
        r@ == spec_boundary_descriptor_type_paths(s@, p as int),
        r.within(p as int, s.len() as int),
{
    let q0 = skip_ws(s, p);
    let (v_0, q1) = match parse_padded::<Vec<shapes::PathDescriptor>>(s, q0) {
        Outcome::Parsed(v, q) => (v, q),
        Outcome::Failed => return Outcome::Failed,
        Outcome::Aborted => return Outcome::Aborted,
    };
    let q2 = skip_ws(s, q1);
    Outcome::Parsed(BoundaryDescriptorType::Paths(v_0), q2)
}

pub open spec fn spec_boundary_descriptor_type_rectangle(s: Seq<char>, p: int) -> SpecOutcome<SpecBoundaryDescriptorType> {
    bind(spec_padded::<shapes::RectangleDescriptor>(s, ws_end(s, p)), |v0: shapes::SpecRectangleDescriptor, q1: int|
    SpecOutcome::Parsed(SpecBoundaryDescriptorType::Rectangle(v0), ws_end(s, q1)))
}

fn parse_boundary_descriptor_type_rectangle(s: &Vec<char>, p: usize) -> (r: Outcome<BoundaryDescriptorType>)
    requires
        p <= s.len(),
    ensures
        r@ == spec_boundary_descriptor_type_rectangle(s@, p as int),
        r.within(p as int, s.len() as int),
{
    let q0 = skip_ws(s, p);
    let (v_0, q1) = match parse_padded::<shapes::RectangleDescriptor>(s, q0) {
        Outcome::Parsed(v, q) => (v, q),
        Outcome::Failed => return Outcome::Failed,
        Outcome::Aborted => return Outcome::Aborted,
    };
    let q2 = skip_ws(s, q1);
    Outcome::Parsed(BoundaryDescriptorType::Rectangle(v_0), q2)
}

impl Parsable for BoundaryDescriptorType {
    open spec fn spec_parse(s: Seq<char>, p: int) -> SpecOutcome<SpecBoundaryDescriptorType> {
        match spec_boundary_descriptor_type_paths(s, p) {
            SpecOutcome::Failed => spec_boundary_descriptor_type_rectangle(s, p),
            o => o,
        }
    }

    fn parse_at(s: &Vec<char>, p: usize) -> (r: Outcome<BoundaryDescriptorType>) {
        match parse_boundary_descriptor_type_paths(s, p) {
            Outcome::Failed => {},
            o => return o,
        }
        parse_boundary_descriptor_type_rectangle(s, p)
    }
}

/// Written `(plane net_id shape [windows*])`.
#[derive(Debug, Clone, PartialEq)]
pub struct PlaneDescriptor {
    pub net_id: atoms::Id,
    pub shape: shapes::ShapeDescriptor,
    pub windows: Option<Vec<WindowDescriptor>>,
}

pub struct SpecPlaneDescriptor {
    pub net_id: Seq<char>,
    pub shape: shapes::SpecShapeDescriptor,
    pub windows: Option<Seq<SpecWindowDescriptor>>,
}

impl DeepView for PlaneDescriptor {
    type V = SpecPlaneDescriptor;

    open spec fn deep_view(&self) -> SpecPlaneDescriptor {
        SpecPlaneDescriptor { net_id: self.net_id.deep_view(), shape: self.shape.deep_view(), windows: self.windows.deep_view() }
    }
}

impl Parsable for PlaneDescriptor {
    open spec fn spec_parse(s: Seq<char>, p: int) -> SpecOutcome<SpecPlaneDescriptor> {
        match spec_open(s, p, "plane"@) {
            None => SpecOutcome::Failed,
            Some(q0) => bind(spec_padded::<atoms::Id>(s, q0), |net_id: Seq<char>, q1: int|
                bind(spec_padded::<shapes::ShapeDescriptor>(s, q1), |shape: shapes::SpecShapeDescriptor, q2: int|
                bind(spec_optional::<Vec<WindowDescriptor>>(s, q2), |windows: Option<Seq<SpecWindowDescriptor>>, q3: int|
                match spec_close(s, q3) {
                    None => SpecOutcome::Failed,
                    Some(q) => SpecOutcome::Parsed(SpecPlaneDescriptor { net_id, shape, windows }, q),
                }))),
        }
    }

    fn parse_at(s: &Vec<char>, p: usize) -> (r: Outcome<PlaneDescriptor>) {
        let q0 = match parse_open(s, p, "plane") {
            Some(q) => q,
            None => return Outcome::Failed,
        };
        let (v_net_id, q1) = match parse_padded::<atoms::Id>(s, q0) {
            Outcome::Parsed(v, q) => (v, q),
            Outcome::Failed => return Outcome::Failed,
            Outcome::Aborted => return Outcome::Aborted,
        };
        let (v_shape, q2) = match parse_padded::<shapes::ShapeDescriptor>(s, q1) {
            Outcome::Parsed(v, q) => (v, q),
            Outcome::Failed => return Outcome::Failed,
            Outcome::Aborted => return Outcome::Aborted,
        };
        let (v_windows, q3) = match parse_optional::<Vec<WindowDescriptor>>(s, q2) {
            Outcome::Parsed(v, q) => (v, q),
            Outcome::Failed => return Outcome::Failed,
            Outcome::Aborted => return Outcome::Aborted,
        };
        let q4 = match parse_close(s, q3) {
            Some(q) => q,
            None => return Outcome::Failed,
        };
        Outcome::Parsed(PlaneDescriptor { net_id: v_net_id, shape: v_shape, windows: v_windows }, q4)
    }
}

/// Written `(window shape)`.
#[derive(Debug, Clone, PartialEq)]
pub struct WindowDescriptor {
    pub shape: shapes::ShapeDescriptor,
}

pub struct SpecWindowDescriptor {
    pub shape: shapes::SpecShapeDescriptor,
}

impl DeepView for WindowDescriptor {
    type V = SpecWindowDescriptor;

    open spec fn deep_view(&self) -> SpecWindowDescriptor {
        SpecWindowDescriptor { shape: self.shape.deep_view() }
    }
}

impl Parsable for WindowDescriptor {
    open spec fn spec_parse(s: Seq<char>, p: int) -> SpecOutcome<SpecWindowDescriptor> {
        match spec_open(s, p, "window"@) {
            None => SpecOutcome::Failed,
            Some(q0) => bind(spec_padded::<shapes::ShapeDescriptor>(s, q0), |shape: shapes::SpecShapeDescriptor, q1: int|
                match spec_close(s, q1) {
                    None => SpecOutcome::Failed,
                    Some(q) => SpecOutcome::Parsed(SpecWindowDescriptor { shape }, q),
                }),
        }
    }

    fn parse_at(s: &Vec<char>, p: usize) -> (r: Outcome<WindowDescriptor>) {
        let q0 = match parse_open(s, p, "window") {
            Some(q) => q,
            None => return Outcome::Failed,
        };
        let (v_shape, q1) = match parse_padded::<shapes::ShapeDescriptor>(s, q0) {
            Outcome::Parsed(v, q) => (v, q),
            Outcome::Failed => return Outcome::Failed,
            Outcome::Aborted => return Outcome::Aborted,
        };
        let q2 = match parse_close(s, q1) {
            Some(q) => q,
            None => return Outcome::Failed,
        };
        Outcome::Parsed(WindowDescriptor { shape: v_shape }, q2)
    }
}

/// Written `(rule descriptors*)`.
#[derive(Debug, Clone, PartialEq)]
pub struct RuleDescriptor {
    pub descriptors: Vec<RuleDescriptorType>,
}

pub struct SpecRuleDescriptor {
    pub descriptors: Seq<SpecRuleDescriptorType>,
}

impl DeepView for RuleDescriptor {
    type V = SpecRuleDescriptor;

    open spec fn deep_view(&self) -> SpecRuleDescriptor {
        SpecRuleDescriptor { descriptors: self.descriptors.deep_view() }
    }
}

impl Parsable for RuleDescriptor {
    open spec fn spec_parse(s: Seq<char>, p: int) -> SpecOutcome<SpecRuleDescriptor> {
        match spec_open(s, p, "rule"@) {
            None => SpecOutcome::Failed,
            Some(q0) => bind(spec_padded::<Vec<RuleDescriptorType>>(s, q0), |descriptors: Seq<SpecRuleDescriptorType>, q1: int|
                match spec_close(s, q1) {
                    None => SpecOutcome::Failed,
                    Some(q) => SpecOutcome::Parsed(SpecRuleDescriptor { descriptors }, q),
                }),
        }
    }

    fn parse_at(s: &Vec<char>, p: usize) -> (r: Outcome<RuleDescriptor>) {
        let q0 = match parse_open(s, p, "rule") {
            Some(q) => q,
            None => return Outcome::Failed,
        };
        let (v_descriptors, q1) = match parse_padded::<Vec<RuleDescriptorType>>(s, q0) {
            Outcome::Parsed(v, q) => (v, q),
            Outcome::Failed => return Outcome::Failed,
            Outcome::Aborted => return Outcome::Aborted,
        };
        let q2 = match parse_close(s, q1) {
            Some(q) => q,
            None => return Outcome::Failed,
        };
        Outcome::Parsed(RuleDescriptor { descriptors: v_descriptors }, q2)
    }
}

/// One of, tried in this order:
/// - `Clearance`: `ClearanceDescriptor`
/// - `Width`: `(width PositiveDimension)`
#[derive(Debug, Clone, PartialEq)]
pub enum RuleDescriptorType {
    Clearance(ClearanceDescriptor),
    Width(numeric::PositiveDimension),
}

pub enum SpecRuleDescriptorType {
    Clearance(SpecClearanceDescriptor),
    Width(numeric::PositiveDimension),
}

impl DeepView for RuleDescriptorType {
    type V = SpecRuleDescriptorType;

    open spec fn deep_view(&self) -> SpecRuleDescriptorType {
        match self {
            RuleDescriptorType::Clearance(v_0) => SpecRuleDescriptorType::Clearance(v_0.deep_view()),
            RuleDescriptorType::Width(v_0) => SpecRuleDescriptorType::Width(v_0.deep_view()),
        }
    }
}

pub open spec fn spec_rule_descriptor_type_clearance(s: Seq<char>, p: int) -> SpecOutcome<SpecRuleDescriptorType> {
    bind(spec_padded::<ClearanceDescriptor>(s, ws_end(s, p)), |v0: SpecClearanceDescriptor, q1: int|
    SpecOutcome::Parsed(SpecRuleDescriptorType::Clearance(v0), ws_end(s, q1)))
}

fn parse_rule_descriptor_type_clearance(s: &Vec<char>, p: usize) -> (r: Outcome<RuleDescriptorType>)
    requires
        p <= s.len(),
    ensures
        r@ == spec_rule_descriptor_type_clearance(s@, p as int),
        r.within(p as int, s.len() as int),
{
    let q0 = skip_ws(s, p);
    let (v_0, q1) = match parse_padded::<ClearanceDescriptor>(s, q0) {
        Outcome::Parsed(v, q) => (v, q),
        Outcome::Failed => return Outcome::Failed,
        Outcome::Aborted => return Outcome::Aborted,
    };
    let q2 = skip_ws(s, q1);
    Outcome::Parsed(RuleDescriptorType::Clearance(v_0), q2)
}

pub open spec fn spec_rule_descriptor_type_width(s: Seq<char>, p: int) -> SpecOutcome<SpecRuleDescriptorType> {
    match spec_open(s, p, "width"@) {
        None => SpecOutcome::Failed,
        Some(q0) => bind(spec_padded::<numeric::PositiveDimension>(s, q0), |v0: numeric::PositiveDimension, q1: int|
            match spec_close(s, q1) {
                None => SpecOutcome::Failed,
                Some(q) => SpecOutcome::Parsed(SpecRuleDescriptorType::Width(v0), q),
            }),
    }
}

fn parse_rule_descriptor_type_width(s: &Vec<char>, p: usize) -> (r: Outcome<RuleDescriptorType>)
    requires
        p <= s.len(),
    ensures
        r@ == spec_rule_descriptor_type_width(s@, p as int),
        r.within(p as int, s.len() as int),
{
    let q0 = match parse_open(s, p, "width") {
        Some(q) => q,
        None => return Outcome::Failed,
    };
    let (v_0, q1) = match parse_padded::<numeric::PositiveDimension>(s, q0) {
        Outcome::Parsed(v, q) => (v, q),
        Outcome::Failed => return Outcome::Failed,
        Outcome::Aborted => return Outcome::Aborted,
    };
    let q2 = match parse_close(s, q1) {
        Some(q) => q,
        None => return Outcome::Failed,
    };
    Outcome::Parsed(RuleDescriptorType::Width(v_0), q2)
}

impl Parsable for RuleDescriptorType {
    open spec fn spec_parse(s: Seq<char>, p: int) -> SpecOutcome<SpecRuleDescriptorType> {
        match spec_rule_descriptor_type_clearance(s, p) {
            SpecOutcome::Failed => spec_rule_descriptor_type_width(s, p),
            o => o,
        }
    }

    fn parse_at(s: &Vec<char>, p: usize) -> (r: Outcome<RuleDescriptorType>) {
        match parse_rule_descriptor_type_clearance(s, p) {
            Outcome::Failed => {},
            o => return o,
        }
        parse_rule_descriptor_type_width(s, p)
    }
}

/// Written `(clearance value [(type types*)])`.
#[derive(Debug, Clone, PartialEq)]
pub struct ClearanceDescriptor {
    pub value: numeric::PositiveDimension,
    pub types: Option<Vec<ClearanceType>>,
}

pub struct SpecClearanceDescriptor {
    pub value: numeric::PositiveDimension,
    pub types: Option<Seq<ClearanceType>>,
}

impl DeepView for ClearanceDescriptor {
    type V = SpecClearanceDescriptor;

    open spec fn deep_view(&self) -> SpecClearanceDescriptor {
        SpecClearanceDescriptor { value: self.value.deep_view(), types: self.types.deep_view() }
    }
}

impl Parsable for ClearanceDescriptor {
    open spec fn spec_parse(s: Seq<char>, p: int) -> SpecOutcome<SpecClearanceDescriptor> {
        match spec_open(s, p, "clearance"@) {
            None => SpecOutcome::Failed,
            Some(q0) => bind(spec_padded::<numeric::PositiveDimension>(s, q0), |value: numeric::PositiveDimension, q1: int|
                bind(spec_optional_named::<Vec<ClearanceType>>(s, q1, "type"@), |types: Option<Seq<ClearanceType>>, q2: int|
                match spec_close(s, q2) {
                    None => SpecOutcome::Failed,
                    Some(q) => SpecOutcome::Parsed(SpecClearanceDescriptor { value, types }, q),
                })),
        }
    }

    fn parse_at(s: &Vec<char>, p: usize) -> (r: Outcome<ClearanceDescriptor>) {
        let q0 = match parse_open(s, p, "clearance") {
            Some(q) => q,
            None => return Outcome::Failed,
        };
        let (v_value, q1) = match parse_padded::<numeric::PositiveDimension>(s, q0) {
            Outcome::Parsed(v, q) => (v, q),
            Outcome::Failed => return Outcome::Failed,
            Outcome::Aborted => return Outcome::Aborted,
        };
        let (v_types, q2) = match parse_optional_named::<Vec<ClearanceType>>(s, q1, "type") {
            Outcome::Parsed(v, q) => (v, q),
            Outcome::Failed => return Outcome::Failed,
            Outcome::Aborted => return Outcome::Aborted,
        };
        let q3 = match parse_close(s, q2) {
            Some(q) => q,
            None => return Outcome::Failed,
        };
        Outcome::Parsed(ClearanceDescriptor { value: v_value, types: v_types }, q3)
    }
}

/// One of, tried in this order:
/// - `SmdViaSameNet`: `smd_via_same_net`
/// - `ViaViaSameNet`: `via_via_same_net`
/// - `BuriedViaGap`: `(buried_via_gap (layer_depth layer_depth))`
/// - `AntipadGap`: `antipad_gap`
/// - `PadToTurnGap`: `pad_to_turn_gap`
/// - `SmdToTurnGap`: `smd_to_turn_gap`
/// - `SmdSmd`: `smd_smd`
/// - `DefaultSmd`: `default_smd`
#[derive(Debug, Clone, Copy, PartialEq)]
pub enum ClearanceType {
    SmdViaSameNet(),
    ViaViaSameNet(),
    BuriedViaGap { layer_depth: numeric::PositiveInteger },
    AntipadGap(),
    PadToTurnGap(),
    SmdToTurnGap(),
    SmdSmd(),
    DefaultSmd(),
}

impl DeepView for ClearanceType {
    type V = ClearanceType;

    open spec fn deep_view(&self) -> ClearanceType {
        *self
    }
}

pub open spec fn spec_clearance_type_smd_via_same_net(s: Seq<char>, p: int) -> SpecOutcome<ClearanceType> {
    match spec_keyword_item(s, p, "smd_via_same_net"@) {
        None => SpecOutcome::Failed,
        Some(q) => SpecOutcome::Parsed(ClearanceType::SmdViaSameNet(), q),
    }
}

fn parse_clearance_type_smd_via_same_net(s: &Vec<char>, p: usize) -> (r: Outcome<ClearanceType>)
    requires
        p <= s.len(),
    ensures
        r@ == spec_clearance_type_smd_via_same_net(s@, p as int),
        r.within(p as int, s.len() as int),
{
    let q0 = match parse_keyword_item(s, p, "smd_via_same_net") {
        Some(q) => q,
        None => return Outcome::Failed,
    };
    Outcome::Parsed(ClearanceType::SmdViaSameNet(), q0)
}

pub open spec fn spec_clearance_type_via_via_same_net(s: Seq<char>, p: int) -> SpecOutcome<ClearanceType> {
    match spec_keyword_item(s, p, "via_via_same_net"@) {
        None => SpecOutcome::Failed,
        Some(q) => SpecOutcome::Parsed(ClearanceType::ViaViaSameNet(), q),
    }
}

fn parse_clearance_type_via_via_same_net(s: &Vec<char>, p: usize) -> (r: Outcome<ClearanceType>)
    requires
        p <= s.len(),
    ensures
        r@ == spec_clearance_type_via_via_same_net(s@, p as int),
        r.within(p as int, s.len() as int),
{
    let q0 = match parse_keyword_item(s, p, "via_via_same_net") {
        Some(q) => q,
        None => return Outcome::Failed,
    };
    Outcome::Parsed(ClearanceType::ViaViaSameNet(), q0)
}

pub open spec fn spec_clearance_type_buried_via_gap(s: Seq<char>, p: int) -> SpecOutcome<ClearanceType> {
    match spec_open(s, p, "buried_via_gap"@) {
        None => SpecOutcome::Failed,
        Some(q0) => bind(spec_named::<numeric::PositiveInteger>(s, q0, "layer_depth"@), |layer_depth: numeric::PositiveInteger, q1: int|
            match spec_close(s, q1) {
                None => SpecOutcome::Failed,
                Some(q) => SpecOutcome::Parsed(ClearanceType::BuriedViaGap { layer_depth }, q),
            }),
    }
}

fn parse_clearance_type_buried_via_gap(s: &Vec<char>, p: usize) -> (r: Outcome<ClearanceType>)
    requires
        p <= s.len(),
    ensures
        r@ == spec_clearance_type_buried_via_gap(s@, p as int),
        r.within(p as int, s.len() as int),
{
    let q0 = match parse_open(s, p, "buried_via_gap") {
        Some(q) => q,
        None => return Outcome::Failed,
    };
    let (v_layer_depth, q1) = match parse_named::<numeric::PositiveInteger>(s, q0, "layer_depth") {
        Outcome::Parsed(v, q) => (v, q),
        Outcome::Failed => return Outcome::Failed,
        Outcome::Aborted => return Outcome::Aborted,
    };
    let q2 = match parse_close(s, q1) {
        Some(q) => q,
        None => return Outcome::Failed,
    };
    Outcome::Parsed(ClearanceType::BuriedViaGap { layer_depth: v_layer_depth }, q2)
}

pub open spec fn spec_clearance_type_antipad_gap(s: Seq<char>, p: int) -> SpecOutcome<ClearanceType> {
    match spec_keyword_item(s, p, "antipad_gap"@) {
        None => SpecOutcome::Failed,
        Some(q) => SpecOutcome::Parsed(ClearanceType::AntipadGap(), q),
    }
}

fn parse_clearance_type_antipad_gap(s: &Vec<char>, p: usize) -> (r: Outcome<ClearanceType>)
    requires
        p <= s.len(),
    ensures
        r@ == spec_clearance_type_antipad_gap(s@, p as int),
        r.within(p as int, s.len() as int),
{
    let q0 = match parse_keyword_item(s, p, "antipad_gap") {
        Some(q) => q,
        None => return Outcome::Failed,
    };
    Outcome::Parsed(ClearanceType::AntipadGap(), q0)
}

pub open spec fn spec_clearance_type_pad_to_turn_gap(s: Seq<char>, p: int) -> SpecOutcome<ClearanceType> {
    match spec_keyword_item(s, p, "pad_to_turn_gap"@) {
        None => SpecOutcome::Failed,
        Some(q) => SpecOutcome::Parsed(ClearanceType::PadToTurnGap(), q),
    }
}

fn parse_clearance_type_pad_to_turn_gap(s: &Vec<char>, p: usize) -> (r: Outcome<ClearanceType>)
    requires
        p <= s.len(),
    ensures
        r@ == spec_clearance_type_pad_to_turn_gap(s@, p as int),
        r.within(p as int, s.len() as int),
{
    let q0 = match parse_keyword_item(s, p, "pad_to_turn_gap") {
        Some(q) => q,
        None => return Outcome::Failed,
    };
    Outcome::Parsed(ClearanceType::PadToTurnGap(), q0)
}

pub open spec fn spec_clearance_type_smd_to_turn_gap(s: Seq<char>, p: int) -> SpecOutcome<ClearanceType> {
    match spec_keyword_item(s, p, "smd_to_turn_gap"@) {
        None => SpecOutcome::Failed,
        Some(q) => SpecOutcome::Parsed(ClearanceType::SmdToTurnGap(), q),
    }
}

fn parse_clearance_type_smd_to_turn_gap(s: &Vec<char>, p: usize) -> (r: Outcome<ClearanceType>)
    requires
        p <= s.len(),
    ensures
        r@ == spec_clearance_type_smd_to_turn_gap(s@, p as int),
        r.within(p as int, s.len() as int),
{
    let q0 = match parse_keyword_item(s, p, "smd_to_turn_gap") {
        Some(q) => q,
        None => return Outcome::Failed,
    };
    Outcome::Parsed(ClearanceType::SmdToTurnGap(), q0)
}

pub open spec fn spec_clearance_type_smd_smd(s: Seq<char>, p: int) -> SpecOutcome<ClearanceType> {
    match spec_keyword_item(s, p, "smd_smd"@) {
        None => SpecOutcome::Failed,
        Some(q) => SpecOutcome::Parsed(ClearanceType::SmdSmd(), q),
    }
}

fn parse_clearance_type_smd_smd(s: &Vec<char>, p: usize) -> (r: Outcome<ClearanceType>)
    requires
        p <= s.len(),
    ensures
        r@ == spec_clearance_type_smd_smd(s@, p as int),
        r.within(p as int, s.len() as int),
{
    let q0 = match parse_keyword_item(s, p, "smd_smd") {
        Some(q) => q,
        None => return Outcome::Failed,
    };
    Outcome::Parsed(ClearanceType::SmdSmd(), q0)
}

pub open spec fn spec_clearance_type_default_smd(s: Seq<char>, p: int) -> SpecOutcome<ClearanceType> {
    match spec_keyword_item(s, p, "default_smd"@) {
        None => SpecOutcome::Failed,
        Some(q) => SpecOutcome::Parsed(ClearanceType::DefaultSmd(), q),
    }
}

fn parse_clearance_type_default_smd(s: &Vec<char>, p: usize) -> (r: Outcome<ClearanceType>)
    requires
        p <= s.len(),
    ensures
        r@ == spec_clearance_type_default_smd(s@, p as int),
        r.within(p as int, s.len() as int),
{
    let q0 = match parse_keyword_item(s, p, "default_smd") {
        Some(q) => q,
        None => return Outcome::Failed,
    };
    Outcome::Parsed(ClearanceType::DefaultSmd(), q0)
}

impl Parsable for ClearanceType {
    open spec fn spec_parse(s: Seq<char>, p: int) -> SpecOutcome<ClearanceType> {
        match spec_clearance_type_smd_via_same_net(s, p) {
            SpecOutcome::Failed => match spec_clearance_type_via_via_same_net(s, p) {
                SpecOutcome::Failed => match spec_clearance_type_buried_via_gap(s, p) {
                    SpecOutcome::Failed => match spec_clearance_type_antipad_gap(s, p) {
                        SpecOutcome::Failed => match spec_clearance_type_pad_to_turn_gap(s, p) {
                            SpecOutcome::Failed => match spec_clearance_type_smd_to_turn_gap(s, p) {
                                SpecOutcome::Failed => match spec_clearance_type_smd_smd(s, p) {
                                    SpecOutcome::Failed => spec_clearance_type_default_smd(s, p),
                                    o => o,
                                },
                                o => o,
                            },
                            o => o,
                        },
                        o => o,
                    },
                    o => o,
                },
                o => o,
            },
            o => o,
        }
    }

    fn parse_at(s: &Vec<char>, p: usize) -> (r: Outcome<ClearanceType>) {
        match parse_clearance_type_smd_via_same_net(s, p) {
            Outcome::Failed => {},
            o => return o,
        }
        match parse_clearance_type_via_via_same_net(s, p) {
            Outcome::Failed => {},
            o => return o,
        }
        match parse_clearance_type_buried_via_gap(s, p) {
            Outcome::Failed => {},
            o => return o,
        }
        match parse_clearance_type_antipad_gap(s, p) {
            Outcome::Failed => {},
            o => return o,
        }
        match parse_clearance_type_pad_to_turn_gap(s, p) {
            Outcome::Failed => {},
            o => return o,
        }
        match parse_clearance_type_smd_to_turn_gap(s, p) {
            Outcome::Failed => {},
            o => return o,
        }
        match parse_clearance_type_smd_smd(s, p) {
            Outcome::Failed => {},
            o => return o,
        }
        parse_clearance_type_default_smd(s, p)
    }
}

/// Written `(via padstack_ids* [spare_padstack_ids*])`.
#[derive(Debug, Clone, PartialEq)]
pub struct ViaDescriptor {
    pub padstack_ids: Vec<PadstackId>,
    pub spare_padstack_ids: Option<Vec<PadstackId>>,
}

pub struct SpecViaDescriptor {
    pub padstack_ids: Seq<Seq<char>>,
    pub spare_padstack_ids: Option<Seq<Seq<char>>>,
}

impl DeepView for ViaDescriptor {
    type V = SpecViaDescriptor;

    open spec fn deep_view(&self) -> SpecViaDescriptor {
        SpecViaDescriptor { padstack_ids: self.padstack_ids.deep_view(), spare_padstack_ids: self.spare_padstack_ids.deep_view() }
    }
}

impl Parsable for ViaDescriptor {
    open spec fn spec_parse(s: Seq<char>, p: int) -> SpecOutcome<SpecViaDescriptor> {
        match spec_open(s, p, "via"@) {
            None => SpecOutcome::Failed,
            Some(q0) => bind(spec_padded::<Vec<PadstackId>>(s, q0), |padstack_ids: Seq<Seq<char>>, q1: int|
                bind(spec_optional::<Vec<PadstackId>>(s, q1), |spare_padstack_ids: Option<Seq<Seq<char>>>, q2: int|
                match spec_close(s, q2) {
                    None => SpecOutcome::Failed,
                    Some(q) => SpecOutcome::Parsed(SpecViaDescriptor { padstack_ids, spare_padstack_ids }, q),
                })),
        }
    }

    fn parse_at(s: &Vec<char>, p: usize) -> (r: Outcome<ViaDescriptor>) {
        let q0 = match parse_open(s, p, "via") {
            Some(q) => q,
            None => return Outcome::Failed,
        };
        let (v_padstack_ids, q1) = match parse_padded::<Vec<PadstackId>>(s, q0) {
            Outcome::Parsed(v, q) => (v, q),
            Outcome::Failed => return Outcome::Failed,
            Outcome::Aborted => return Outcome::Aborted,
        };
        let (v_spare_padstack_ids, q2) = match parse_optional::<Vec<PadstackId>>(s, q1) {
            Outcome::Parsed(v, q) => (v, q),
            Outcome::Failed => return Outcome::Failed,
            Outcome::Aborted => return Outcome::Aborted,
        };
        let q3 = match parse_close(s, q2) {
            Some(q) => q,
            None => return Outcome::Failed,
        };
        Outcome::Parsed(ViaDescriptor { padstack_ids: v_padstack_ids, spare_padstack_ids: v_spare_padstack_ids }, q3)
    }
}

/// Written `Id`.
#[derive(Debug, Clone, PartialEq)]
pub struct PadstackId(pub atoms::Id);

impl DeepView for PadstackId {
    type V = Seq<char>;

    open spec fn deep_view(&self) -> Seq<char> {
        self.0.deep_view()
    }
}

impl Parsable for PadstackId {
    open spec fn spec_parse(s: Seq<char>, p: int) -> SpecOutcome<Seq<char>> {
        bind(spec_padded::<atoms::Id>(s, ws_end(s, p)), |v0: Seq<char>, q1: int|
        SpecOutcome::Parsed(v0, ws_end(s, q1)))
    }

    fn parse_at(s: &Vec<char>, p: usize) -> (r: Outcome<PadstackId>) {
        let q0 = skip_ws(s, p);
        let (v_0, q1) = match parse_padded::<atoms::Id>(s, q0) {
            Outcome::Parsed(v, q) => (v, q),
            Outcome::Failed => return Outcome::Failed,
            Outcome::Aborted => return Outcome::Aborted,
        };
        let q2 = skip_ws(s, q1);
        Outcome::Parsed(PadstackId(v_0), q2)
    }
}

/// The fields of `StructureDescriptor` come from the text in
/// declaration order: each is what its own rule reads where the previous one
/// ended.
pub proof fn lemma_structure_descriptor_fields_in_order(s: Seq<char>, p: int)
    ensures
        StructureDescriptor::spec_parse(s, p) matches SpecOutcome::Parsed(v, q) ==> {
            let q0 = spec_open(s, p, "structure"@).unwrap();
            let r0 = spec_padded::<Vec<LayerDescriptor>>(s, q0);
            let r1 = spec_padded::<Vec<BoundaryDescriptor>>(s, r0.end());
            let r2 = spec_optional::<Vec<PlaneDescriptor>>(s, r1.end());
            let r3 = spec_padded::<Vec<library::KeepoutDescriptor>>(s, r2.end());
            let r4 = spec_padded::<ViaDescriptor>(s, r3.end());
            let r5 = spec_padded::<RuleDescriptor>(s, r4.end());
            &&& spec_open(s, p, "structure"@) is Some
            &&& r0 == SpecOutcome::Parsed(v.layers, r0.end())
            &&& r1 == SpecOutcome::Parsed(v.boundaries, r1.end())
            &&& r2 == SpecOutcome::Parsed(v.planes, r2.end())
            &&& r3 == SpecOutcome::Parsed(v.keepouts, r3.end())
            &&& r4 == SpecOutcome::Parsed(v.vias, r4.end())
            &&& r5 == SpecOutcome::Parsed(v.rules, r5.end())
            &&& spec_close(s, r5.end()) == Some(q)
        },
{
}

/// The fields of `LayerDescriptor` come from the text in
/// declaration order: each is what its own rule reads where the previous one
/// ended.
pub proof fn lemma_layer_descriptor_fields_in_order(s: Seq<char>, p: int)
    ensures
        LayerDescriptor::spec_parse(s, p) matches SpecOutcome::Parsed(v, q) ==> {
            let q0 = spec_open(s, p, "layer"@).unwrap();
            let r0 = spec_padded::<atoms::Id>(s, q0);
            let r1 = spec_named::<LayerType>(s, r0.end(), "type"@);
            let r2 = spec_padded::<Vec<UserPropertyDescriptor>>(s, r1.end());
            let r3 = spec_optional_named::<DirectionType>(s, r2.end(), "direction"@);
            &&& spec_open(s, p, "layer"@) is Some
            &&& r0 == SpecOutcome::Parsed(v.name, r0.end())
            &&& r1 == SpecOutcome::Parsed(v.layer_type, r1.end())
            &&& r2 == SpecOutcome::Parsed(v.properties, r2.end())
            &&& r3 == SpecOutcome::Parsed(v.direction, r3.end())
            &&& spec_close(s, r3.end()) == Some(q)
        },
{
}

/// The fields of `UserPropertyDescriptor` come from the text in
/// declaration order: each is what its own rule reads where the previous one
/// ended.
pub proof fn lemma_user_property_descriptor_fields_in_order(s: Seq<char>, p: int)
    ensures
        UserPropertyDescriptor::spec_parse(s, p) matches SpecOutcome::Parsed(v, q) ==> {
            let q0 = spec_open(s, p, "property"@).unwrap();
            let r0 = spec_padded::<Vec<PropertyValueDescriptor>>(s, q0);
            &&& spec_open(s, p, "property"@) is Some
            &&& r0 == SpecOutcome::Parsed(v.descriptors, r0.end())
            &&& spec_close(s, r0.end()) == Some(q)
        },
{
}

/// The fields of `PropertyValueDescriptor` come from the text in
/// declaration order: each is what its own rule reads where the previous one
/// ended.
pub proof fn lemma_property_value_descriptor_fields_in_order(s: Seq<char>, p: int)
    ensures
        PropertyValueDescriptor::spec_parse(s, p) matches SpecOutcome::Parsed(v, q) ==> {
            let q0 = spec_open(s, p, ""@).unwrap();
            let r0 = spec_padded::<atoms::Id>(s, q0);
            let r1 = spec_padded::<PropertyValue>(s, r0.end());
            &&& spec_open(s, p, ""@) is Some
            &&& r0 == SpecOutcome::Parsed(v.name, r0.end())
            &&& r1 == SpecOutcome::Parsed(v.value, r1.end())
            &&& spec_close(s, r1.end()) == Some(q)
        },
{
}

/// The fields of `BoundaryDescriptor` come from the text in
/// declaration order: each is what its own rule reads where the previous one
/// ended.
pub proof fn lemma_boundary_descriptor_fields_in_order(s: Seq<char>, p: int)
    ensures
        BoundaryDescriptor::spec_parse(s, p) matches SpecOutcome::Parsed(v, q) ==> {
            let q0 = spec_open(s, p, "boundary"@).unwrap();
            let r0 = spec_padded::<BoundaryDescriptorType>(s, q0);
            let r1 = spec_optional::<RuleDescriptor>(s, r0.end());
            &&& spec_open(s, p, "boundary"@) is Some
            &&& r0 == SpecOutcome::Parsed(v.boundary_type, r0.end())
            &&& r1 == SpecOutcome::Parsed(v.rule_descriptor, r1.end())
            &&& spec_close(s, r1.end()) == Some(q)
        },
{
}

/// The fields of `PlaneDescriptor` come from the text in
/// declaration order: each is what its own rule reads where the previous one
/// ended.
pub proof fn lemma_plane_descriptor_fields_in_order(s: Seq<char>, p: int)
    ensures
        PlaneDescriptor::spec_parse(s, p) matches SpecOutcome::Parsed(v, q) ==> {
            let q0 = spec_open(s, p, "plane"@).unwrap();
            let r0 = spec_padded::<atoms::Id>(s, q0);
            let r1 = spec_padded::<shapes::ShapeDescriptor>(s, r0.end());
            let r2 = spec_optional::<Vec<WindowDescriptor>>(s, r1.end());
            &&& spec_open(s, p, "plane"@) is Some
            &&& r0 == SpecOutcome::Parsed(v.net_id, r0.end())
            &&& r1 == SpecOutcome::Parsed(v.shape, r1.end())
            &&& r2 == SpecOutcome::Parsed(v.windows, r2.end())
            &&& spec_close(s, r2.end()) == Some(q)
        },
{
}

/// The fields of `WindowDescriptor` come from the text in
/// declaration order: each is what its own rule reads where the previous one
/// ended.
pub proof fn lemma_window_descriptor_fields_in_order(s: Seq<char>, p: int)
    ensures
        WindowDescriptor::spec_parse(s, p) matches SpecOutcome::Parsed(v, q) ==> {
            let q0 = spec_open(s, p, "window"@).unwrap();
            let r0 = spec_padded::<shapes::ShapeDescriptor>(s, q0);
            &&& spec_open(s, p, "window"@) is Some
            &&& r0 == SpecOutcome::Parsed(v.shape, r0.end())
            &&& spec_close(s, r0.end()) == Some(q)
        },
{
}

/// The fields of `RuleDescriptor` come from the text in
/// declaration order: each is what its own rule reads where the previous one
/// ended.
pub proof fn lemma_rule_descriptor_fields_in_order(s: Seq<char>, p: int)
    ensures
        RuleDescriptor::spec_parse(s, p) matches SpecOutcome::Parsed(v, q) ==> {
            let q0 = spec_open(s, p, "rule"@).unwrap();
            let r0 = spec_padded::<Vec<RuleDescriptorType>>(s, q0);
            &&& spec_open(s, p, "rule"@) is Some
            &&& r0 == SpecOutcome::Parsed(v.descriptors, r0.end())
            &&& spec_close(s, r0.end()) == Some(q)
        },
{
}

/// The fields of `ClearanceDescriptor` come from the text in
/// declaration order: each is what its own rule reads where the previous one
/// ended.
pub proof fn lemma_clearance_descriptor_fields_in_order(s: Seq<char>, p: int)
    ensures
        ClearanceDescriptor::spec_parse(s, p) matches SpecOutcome::Parsed(v, q) ==> {
            let q0 = spec_open(s, p, "clearance"@).unwrap();
            let r0 = spec_padded::<numeric::PositiveDimension>(s, q0);
            let r1 = spec_optional_named::<Vec<ClearanceType>>(s, r0.end(), "type"@);
            &&& spec_open(s, p, "clearance"@) is Some
            &&& r0 == SpecOutcome::Parsed(v.value, r0.end())
            &&& r1 == SpecOutcome::Parsed(v.types, r1.end())
            &&& spec_close(s, r1.end()) == Some(q)
        },
{
}

/// The fields of `ViaDescriptor` come from the text in
/// declaration order: each is what its own rule reads where the previous one
/// ended.
pub proof fn lemma_via_descriptor_fields_in_order(s: Seq<char>, p: int)
    ensures
        ViaDescriptor::spec_parse(s, p) matches SpecOutcome::Parsed(v, q) ==> {
            let q0 = spec_open(s, p, "via"@).unwrap();
            let r0 = spec_padded::<Vec<PadstackId>>(s, q0);
            let r1 = spec_optional::<Vec<PadstackId>>(s, r0.end());
            &&& spec_open(s, p, "via"@) is Some
            &&& r0 == SpecOutcome::Parsed(v.padstack_ids, r0.end())
            &&& r1 == SpecOutcome::Parsed(v.spare_padstack_ids, r1.end())
            &&& spec_close(s, r1.end()) == Some(q)
        },
{
}

/// The fields of the `Number` form read by `spec_property_value_number` come from the text in
/// declaration order: each is what its own rule reads where the previous one
/// ended.
pub proof fn lemma_property_value_number_fields_in_order(s: Seq<char>, p: int)
    ensures
        spec_property_value_number(s, p) matches SpecOutcome::Parsed(v, q) ==> {
            let r0 = spec_padded::<numeric::Number>(s, ws_end(s, p));
            &&& v is Number
            &&& r0 == SpecOutcome::Parsed(v->Number_0, r0.end())
            &&& q == ws_end(s, r0.end())
        },
{
}

/// The fields of the `String` form read by `spec_property_value_string` come from the text in
/// declaration order: each is what its own rule reads where the previous one
/// ended.
pub proof fn lemma_property_value_string_fields_in_order(s: Seq<char>, p: int)
    ensures
        spec_property_value_string(s, p) matches SpecOutcome::Parsed(v, q) ==> {
            let r0 = spec_padded::<atoms::Id>(s, ws_end(s, p));
            &&& v is String
            &&& r0 == SpecOutcome::Parsed(v->String_0, r0.end())
            &&& q == ws_end(s, r0.end())
        },
{
}

/// The fields of the `Paths` form read by `spec_boundary_descriptor_type_paths` come from the text in
/// declaration order: each is what its own rule reads where the previous one
/// ended.
pub proof fn lemma_boundary_descriptor_type_paths_fields_in_order(s: Seq<char>, p: int)
    ensures
        spec_boundary_descriptor_type_paths(s, p) matches SpecOutcome::Parsed(v, q) ==> {
            let r0 = spec_padded::<Vec<shapes::PathDescriptor>>(s, ws_end(s, p));
            &&& v is Paths
            &&& r0 == SpecOutcome::Parsed(v->Paths_0, r0.end())
            &&& q == ws_end(s, r0.end())
        },
{
}

/// The fields of the `Rectangle` form read by `spec_boundary_descriptor_type_rectangle` come from the text in
/// declaration order: each is what its own rule reads where the previous one
/// ended.
pub proof fn lemma_boundary_descriptor_type_rectangle_fields_in_order(s: Seq<char>, p: int)
    ensures
        spec_boundary_descriptor_type_rectangle(s, p) matches SpecOutcome::Parsed(v, q) ==> {
            let r0 = spec_padded::<shapes::RectangleDescriptor>(s, ws_end(s, p));
            &&& v is Rectangle
            &&& r0 == SpecOutcome::Parsed(v->Rectangle_0, r0.end())
            &&& q == ws_end(s, r0.end())
        },
{
}

/// The fields of the `Clearance` form read by `spec_rule_descriptor_type_clearance` come from the text in
/// declaration order: each is what its own rule reads where the previous one
/// ended.
pub proof fn lemma_rule_descriptor_type_clearance_fields_in_order(s: Seq<char>, p: int)
    ensures
        spec_rule_descriptor_type_clearance(s, p) matches SpecOutcome::Parsed(v, q) ==> {
            let r0 = spec_padded::<ClearanceDescriptor>(s, ws_end(s, p));
            &&& v is Clearance
            &&& r0 == SpecOutcome::Parsed(v->Clearance_0, r0.end())
            &&& q == ws_end(s, r0.end())
        },
{
}

/// The fields of the `Width` form read by `spec_rule_descriptor_type_width` come from the text in
/// declaration order: each is what its own rule reads where the previous one
/// ended.
pub proof fn lemma_rule_descriptor_type_width_fields_in_order(s: Seq<char>, p: int)
    ensures
        spec_rule_descriptor_type_width(s, p) matches SpecOutcome::Parsed(v, q) ==> {
            let q0 = spec_open(s, p, "width"@).unwrap();
            let r0 = spec_padded::<numeric::PositiveDimension>(s, q0);
            &&& v is Width
            &&& spec_open(s, p, "width"@) is Some
            &&& r0 == SpecOutcome::Parsed(v->Width_0, r0.end())
            &&& spec_close(s, r0.end()) == Some(q)
        },
{
}

/// The fields of the `BuriedViaGap` form read by `spec_clearance_type_buried_via_gap` come from the text in
/// declaration order: each is what its own rule reads where the previous one
/// ended.
pub proof fn lemma_clearance_type_buried_via_gap_fields_in_order(s: Seq<char>, p: int)
    ensures
        spec_clearance_type_buried_via_gap(s, p) matches SpecOutcome::Parsed(v, q) ==> {
            let q0 = spec_open(s, p, "buried_via_gap"@).unwrap();
            let r0 = spec_named::<numeric::PositiveInteger>(s, q0, "layer_depth"@);
            &&& v is BuriedViaGap
            &&& spec_open(s, p, "buried_via_gap"@) is Some
            &&& r0 == SpecOutcome::Parsed(v->BuriedViaGap_layer_depth, r0.end())
            &&& spec_close(s, r0.end()) == Some(q)
        },
{
}

/// Each form of `RuleDescriptorType` is read only where its own head stands (its keyword,
/// or `(` and its keyword) and where no keyword of an earlier form stands:
/// the forms are tried in declaration order.
pub proof fn lemma_rule_descriptor_type_forms_by_head(s: Seq<char>, p: int)
    ensures
        RuleDescriptorType::spec_parse(s, p) matches SpecOutcome::Parsed(v, q) ==> {
            &&& v is Width ==> spec_open(s, p, "width"@) is Some
        },
{
}

/// Each form of `ClearanceType` is read only where its own head stands (its keyword,
/// or `(` and its keyword) and where no keyword of an earlier form stands:
/// the forms are tried in declaration order.
pub proof fn lemma_clearance_type_forms_by_head(s: Seq<char>, p: int)
    ensures
        ClearanceType::spec_parse(s, p) matches SpecOutcome::Parsed(v, q) ==> {
            &&& v is SmdViaSameNet ==> spec_keyword_item(s, p, "smd_via_same_net"@) == Some(q)
            &&& v is ViaViaSameNet ==> spec_keyword_item(s, p, "via_via_same_net"@) == Some(q) && spec_keyword_item(s, p, "smd_via_same_net"@) is None
            &&& v is BuriedViaGap ==> spec_open(s, p, "buried_via_gap"@) is Some && spec_keyword_item(s, p, "smd_via_same_net"@) is None && spec_keyword_item(s, p, "via_via_same_net"@) is None
            &&& v is AntipadGap ==> spec_keyword_item(s, p, "antipad_gap"@) == Some(q) && spec_keyword_item(s, p, "smd_via_same_net"@) is None && spec_keyword_item(s, p, "via_via_same_net"@) is None
            &&& v is PadToTurnGap ==> spec_keyword_item(s, p, "pad_to_turn_gap"@) == Some(q) && spec_keyword_item(s, p, "smd_via_same_net"@) is None && spec_keyword_item(s, p, "via_via_same_net"@) is None && spec_keyword_item(s, p, "antipad_gap"@) is None
            &&& v is SmdToTurnGap ==> spec_keyword_item(s, p, "smd_to_turn_gap"@) == Some(q) && spec_keyword_item(s, p, "smd_via_same_net"@) is None && spec_keyword_item(s, p, "via_via_same_net"@) is None && spec_keyword_item(s, p, "antipad_gap"@) is None && spec_keyword_item(s, p, "pad_to_turn_gap"@) is None
            &&& v is SmdSmd ==> spec_keyword_item(s, p, "smd_smd"@) == Some(q) && spec_keyword_item(s, p, "smd_via_same_net"@) is None && spec_keyword_item(s, p, "via_via_same_net"@) is None && spec_keyword_item(s, p, "antipad_gap"@) is None && spec_keyword_item(s, p, "pad_to_turn_gap"@) is None && spec_keyword_item(s, p, "smd_to_turn_gap"@) is None
            &&& v is DefaultSmd ==> spec_keyword_item(s, p, "default_smd"@) == Some(q) && spec_keyword_item(s, p, "smd_via_same_net"@) is None && spec_keyword_item(s, p, "via_via_same_net"@) is None && spec_keyword_item(s, p, "antipad_gap"@) is None && spec_keyword_item(s, p, "pad_to_turn_gap"@) is None && spec_keyword_item(s, p, "smd_to_turn_gap"@) is None && spec_keyword_item(s, p, "smd_smd"@) is None
        },
{
}

} // verus!
