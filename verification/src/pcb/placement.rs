//! The `placement` section: where component instances stand.

use vstd::prelude::*;
use crate::outcome::{Outcome, SpecOutcome, bind};
use crate::parsable::{Parsable, spec_padded, parse_padded, spec_optional, parse_optional, spec_optional_named, parse_optional_named, spec_open, parse_open, spec_close, parse_close, spec_keyword_item, parse_keyword_item};
use crate::text::{ws_end, skip_ws};
use crate::atoms;
use crate::numeric;
use crate::shapes;

verus! {

/// Written `(placement components*)`.
#[derive(Debug, Clone, PartialEq)]
pub struct PlacementDescriptor {
    pub components: Vec<ComponentInstance>,
}

pub struct SpecPlacementDescriptor {
    pub components: Seq<SpecComponentInstance>,
}

impl DeepView for PlacementDescriptor {
    type V = SpecPlacementDescriptor;

    open spec fn deep_view(&self) -> SpecPlacementDescriptor {
        SpecPlacementDescriptor { components: self.components.deep_view() }
    }
}

impl Parsable for PlacementDescriptor {
    open spec fn spec_parse(s: Seq<char>, p: int) -> SpecOutcome<SpecPlacementDescriptor> {
        match spec_open(s, p, "placement"@) {
            None => SpecOutcome::Failed,
            Some(q0) => bind(spec_padded::<Vec<ComponentInstance>>(s, q0), |components: Seq<SpecComponentInstance>, q1: int|
                match spec_close(s, q1) {
                    None => SpecOutcome::Failed,
                    Some(q) => SpecOutcome::Parsed(SpecPlacementDescriptor { components }, q),
                }),
        }
    }

    fn parse_at(s: &Vec<char>, p: usize) -> (r: Outcome<PlacementDescriptor>) {
        let q0 = match parse_open(s, p, "placement") {
            Some(q) => q,
            None => return Outcome::Failed,
        };
        let (v_components, q1) = match parse_padded::<Vec<ComponentInstance>>(s, q0) {
            Outcome::Parsed(v, q) => (v, q),
            Outcome::Failed => return Outcome::Failed,
            Outcome::Aborted => return Outcome::Aborted,
        };
        let q2 = match parse_close(s, q1) {
            Some(q) => q,
            None => return Outcome::Failed,
        };
        Outcome::Parsed(PlacementDescriptor { components: v_components }, q2)
    }
}

/// Written `(component image_id placement*)`.
#[derive(Debug, Clone, PartialEq)]
pub struct ComponentInstance {
    pub image_id: atoms::Id,
    pub placement: Vec<PlacementReference>,
}

pub struct SpecComponentInstance {
    pub image_id: Seq<char>,
    pub placement: Seq<SpecPlacementReference>,
}

impl DeepView for ComponentInstance {
    type V = SpecComponentInstance;

    open spec fn deep_view(&self) -> SpecComponentInstance {
        SpecComponentInstance { image_id: self.image_id.deep_view(), placement: self.placement.deep_view() }
    }
}

impl Parsable for ComponentInstance {
    open spec fn spec_parse(s: Seq<char>, p: int) -> SpecOutcome<SpecComponentInstance> {
        match spec_open(s, p, "component"@) {
            None => SpecOutcome::Failed,
            Some(q0) => bind(spec_padded::<atoms::Id>(s, q0), |image_id: Seq<char>, q1: int|
                bind(spec_padded::<Vec<PlacementReference>>(s, q1), |placement: Seq<SpecPlacementReference>, q2: int|
                match spec_close(s, q2) {
                    None => SpecOutcome::Failed,
                    Some(q) => SpecOutcome::Parsed(SpecComponentInstance { image_id, placement }, q),
                })),
        }
    }

    fn parse_at(s: &Vec<char>, p: usize) -> (r: Outcome<ComponentInstance>) {
        let q0 = match parse_open(s, p, "component") {
            Some(q) => q,
            None => return Outcome::Failed,
        };
        let (v_image_id, q1) = match parse_padded::<atoms::Id>(s, q0) {
            Outcome::Parsed(v, q) => (v, q),
            Outcome::Failed => return Outcome::Failed,
            Outcome::Aborted => return Outcome::Aborted,
        };
        let (v_placement, q2) = match parse_padded::<Vec<PlacementReference>>(s, q1) {
            Outcome::Parsed(v, q) => (v, q),
            Outcome::Failed => return Outcome::Failed,
            Outcome::Aborted => return Outcome::Aborted,
        };
        let q3 = match parse_close(s, q2) {
            Some(q) => q,
            None => return Outcome::Failed,
        };
        Outcome::Parsed(ComponentInstance { image_id: v_image_id, placement: v_placement }, q3)
    }
}

/// Written `(place component_id [location] [(PN part_number)])`.
#[derive(Debug, Clone, PartialEq)]
pub struct PlacementReference {
    pub component_id: atoms::Id,
    pub location: Option<PlacementReferenceLocation>,
    pub part_number: Option<atoms::Id>,
}

pub struct SpecPlacementReference {
    pub component_id: Seq<char>,
    pub location: Option<PlacementReferenceLocation>,
    pub part_number: Option<Seq<char>>,
}

impl DeepView for PlacementReference {
    type V = SpecPlacementReference;

    open spec fn deep_view(&self) -> SpecPlacementReference {
        SpecPlacementReference { component_id: self.component_id.deep_view(), location: self.location.deep_view(), part_number: self.part_number.deep_view() }
    }
}

impl Parsable for PlacementReference {
    open spec fn spec_parse(s: Seq<char>, p: int) -> SpecOutcome<SpecPlacementReference> {
        match spec_open(s, p, "place"@) {
            None => SpecOutcome::Failed,
            Some(q0) => bind(spec_padded::<atoms::Id>(s, q0), |component_id: Seq<char>, q1: int|
                bind(spec_optional::<PlacementReferenceLocation>(s, q1), |location: Option<PlacementReferenceLocation>, q2: int|
                bind(spec_optional_named::<atoms::Id>(s, q2, "PN"@), |part_number: Option<Seq<char>>, q3: int|
                match spec_close(s, q3) {
                    None => SpecOutcome::Failed,
                    Some(q) => SpecOutcome::Parsed(SpecPlacementReference { component_id, location, part_number }, q),
                }))),
        }
    }

    fn parse_at(s: &Vec<char>, p: usize) -> (r: Outcome<PlacementReference>) {
        let q0 = match parse_open(s, p, "place") {
            Some(q) => q,
            None => return Outcome::Failed,
        };
        let (v_component_id, q1) = match parse_padded::<atoms::Id>(s, q0) {
            Outcome::Parsed(v, q) => (v, q),
            Outcome::Failed => return Outcome::Failed,
            Outcome::Aborted => return Outcome::Aborted,
        };
        let (v_location, q2) = match parse_optional::<PlacementReferenceLocation>(s, q1) {
            Outcome::Parsed(v, q) => (v, q),
            Outcome::Failed => return Outcome::Failed,
            Outcome::Aborted => return Outcome::Aborted,
        };
        let (v_part_number, q3) = match parse_optional_named::<atoms::Id>(s, q2, "PN") {
            Outcome::Parsed(v, q) => (v, q),
            Outcome::Failed => return Outcome::Failed,
            Outcome::Aborted => return Outcome::Aborted,
        };
        let q4 = match parse_close(s, q3) {
            Some(q) => q,
            None => return Outcome::Failed,
        };
        Outcome::Parsed(PlacementReference { component_id: v_component_id, location: v_location, part_number: v_part_number }, q4)
    }
}

/// Written `vertex side rotation`.
#[derive(Debug, Clone, Copy, PartialEq)]
pub struct PlacementReferenceLocation {
    pub vertex: shapes::Vertex,
    pub side: Side,
    pub rotation: numeric::Number,
}

impl DeepView for PlacementReferenceLocation {
    type V = PlacementReferenceLocation;

    open spec fn deep_view(&self) -> PlacementReferenceLocation {
        *self
    }
}

impl Parsable for PlacementReferenceLocation {
    open spec fn spec_parse(s: Seq<char>, p: int) -> SpecOutcome<PlacementReferenceLocation> {
        bind(spec_padded::<shapes::Vertex>(s, ws_end(s, p)), |vertex: shapes::Vertex, q1: int|
        bind(spec_padded::<Side>(s, q1), |side: Side, q2: int|
        bind(spec_padded::<numeric::Number>(s, q2), |rotation: numeric::Number, q3: int|
        SpecOutcome::Parsed(PlacementReferenceLocation { vertex, side, rotation }, ws_end(s, q3)))))
    }

    fn parse_at(s: &Vec<char>, p: usize) -> (r: Outcome<PlacementReferenceLocation>) {
        let q0 = skip_ws(s, p);
        let (v_vertex, q1) = match parse_padded::<shapes::Vertex>(s, q0) {
            Outcome::Parsed(v, q) => (v, q),
            Outcome::Failed => return Outcome::Failed,
            Outcome::Aborted => return Outcome::Aborted,
        };
        let (v_side, q2) = match parse_padded::<Side>(s, q1) {
            Outcome::Parsed(v, q) => (v, q),
            Outcome::Failed => return Outcome::Failed,
            Outcome::Aborted => return Outcome::Aborted,
        };
        let (v_rotation, q3) = match parse_padded::<numeric::Number>(s, q2) {
            Outcome::Parsed(v, q) => (v, q),
            Outcome::Failed => return Outcome::Failed,
            Outcome::Aborted => return Outcome::Aborted,
        };
        let q4 = skip_ws(s, q3);
        Outcome::Parsed(PlacementReferenceLocation { vertex: v_vertex, side: v_side, rotation: v_rotation }, q4)
    }
}

/// One of, tried in this order:
/// - `Front`: `front`
/// - `Back`: `back`
#[derive(Debug, Clone, Copy, PartialEq)]
pub enum Side {
    Front,
    Back,
}

impl DeepView for Side {
    type V = Side;

    open spec fn deep_view(&self) -> Side {
        *self
    }
}

pub open spec fn spec_side_front(s: Seq<char>, p: int) -> SpecOutcome<Side> {
    match spec_keyword_item(s, p, "front"@) {
        None => SpecOutcome::Failed,
        Some(q) => SpecOutcome::Parsed(Side::Front, q),
    }
}

fn parse_side_front(s: &Vec<char>, p: usize) -> (r: Outcome<Side>)
    requires
        p <= s.len(),
    ensures
        r@ == spec_side_front(s@, p as int),
        r.within(p as int, s.len() as int),
{
    let q0 = match parse_keyword_item(s, p, "front") {
        Some(q) => q,
        None => return Outcome::Failed,
    };
    Outcome::Parsed(Side::Front, q0)
}

pub open spec fn spec_side_back(s: Seq<char>, p: int) -> SpecOutcome<Side> {
    match spec_keyword_item(s, p, "back"@) {
        None => SpecOutcome::Failed,
        Some(q) => SpecOutcome::Parsed(Side::Back, q),
    }
}

fn parse_side_back(s: &Vec<char>, p: usize) -> (r: Outcome<Side>)
    requires
        p <= s.len(),
    ensures
        r@ == spec_side_back(s@, p as int),
        r.within(p as int, s.len() as int),
{
    let q0 = match parse_keyword_item(s, p, "back") {
        Some(q) => q,
        None => return Outcome::Failed,
    };
    Outcome::Parsed(Side::Back, q0)
}

impl Parsable for Side {
    open spec fn spec_parse(s: Seq<char>, p: int) -> SpecOutcome<Side> {
        match spec_side_front(s, p) {
            SpecOutcome::Failed => spec_side_back(s, p),
            o => o,
        }
    }

    fn parse_at(s: &Vec<char>, p: usize) -> (r: Outcome<Side>) {
        match parse_side_front(s, p) {
            Outcome::Failed => {},
            o => return o,
        }
        parse_side_back(s, p)
    }
}

/// The fields of `PlacementDescriptor` come from the text in
/// declaration order: each is what its own rule reads where the previous one
/// ended.
pub proof fn lemma_placement_descriptor_fields_in_order(s: Seq<char>, p: int)
    ensures
        PlacementDescriptor::spec_parse(s, p) matches SpecOutcome::Parsed(v, q) ==> {
            let q0 = spec_open(s, p, "placement"@).unwrap();
            let r0 = spec_padded::<Vec<ComponentInstance>>(s, q0);
            &&& spec_open(s, p, "placement"@) is Some
            &&& r0 == SpecOutcome::Parsed(v.components, r0.end())
            &&& spec_close(s, r0.end()) == Some(q)
        },
{
}

/// The fields of `ComponentInstance` come from the text in
/// declaration order: each is what its own rule reads where the previous one
/// ended.
pub proof fn lemma_component_instance_fields_in_order(s: Seq<char>, p: int)
    ensures
        ComponentInstance::spec_parse(s, p) matches SpecOutcome::Parsed(v, q) ==> {
            let q0 = spec_open(s, p, "component"@).unwrap();
            let r0 = spec_padded::<atoms::Id>(s, q0);
            let r1 = spec_padded::<Vec<PlacementReference>>(s, r0.end());
            &&& spec_open(s, p, "component"@) is Some
            &&& r0 == SpecOutcome::Parsed(v.image_id, r0.end())
            &&& r1 == SpecOutcome::Parsed(v.placement, r1.end())
            &&& spec_close(s, r1.end()) == Some(q)
        },
{
}

/// The fields of `PlacementReference` come from the text in
/// declaration order: each is what its own rule reads where the previous one
/// ended.
pub proof fn lemma_placement_reference_fields_in_order(s: Seq<char>, p: int)
    ensures
        PlacementReference::spec_parse(s, p) matches SpecOutcome::Parsed(v, q) ==> {
            let q0 = spec_open(s, p, "place"@).unwrap();
            let r0 = spec_padded::<atoms::Id>(s, q0);
            let r1 = spec_optional::<PlacementReferenceLocation>(s, r0.end());
            let r2 = spec_optional_named::<atoms::Id>(s, r1.end(), "PN"@);
            &&& spec_open(s, p, "place"@) is Some
            &&& r0 == SpecOutcome::Parsed(v.component_id, r0.end())
            &&& r1 == SpecOutcome::Parsed(v.location, r1.end())
            &&& r2 == SpecOutcome::Parsed(v.part_number, r2.end())
            &&& spec_close(s, r2.end()) == Some(q)
        },
{
}

/// The fields of `PlacementReferenceLocation` come from the text in
/// declaration order: each is what its own rule reads where the previous one
/// ended.
pub proof fn lemma_placement_reference_location_fields_in_order(s: Seq<char>, p: int)
    ensures
        PlacementReferenceLocation::spec_parse(s, p) matches SpecOutcome::Parsed(v, q) ==> {
            let r0 = spec_padded::<shapes::Vertex>(s, ws_end(s, p));
            let r1 = spec_padded::<Side>(s, r0.end());
            let r2 = spec_padded::<numeric::Number>(s, r1.end());
            &&& r0 == SpecOutcome::Parsed(v.vertex, r0.end())
            &&& r1 == SpecOutcome::Parsed(v.side, r1.end())
            &&& r2 == SpecOutcome::Parsed(v.rotation, r2.end())
            &&& q == ws_end(s, r2.end())
        },
{
}

} // verus!
