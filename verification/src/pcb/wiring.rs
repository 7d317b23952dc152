//! The `wiring` section: wires and vias.

use vstd::prelude::*;
use crate::outcome::{Outcome, SpecOutcome, bind};
use crate::parsable::{Parsable, spec_padded, parse_padded, spec_optional_named, parse_optional_named, spec_open, parse_open, spec_close, parse_close, spec_keyword_item, parse_keyword_item};
use crate::text::{ws_end, skip_ws};
use crate::atoms;
use crate::numeric;
use crate::shapes;
use crate::pcb::structure;

verus! {

/// Written `(wiring wires*)`.
#[derive(Debug, Clone, PartialEq)]
pub struct WiringDescriptor {
    pub wires: Vec<WireDescriptor>,
}

pub struct SpecWiringDescriptor {
    pub wires: Seq<SpecWireDescriptor>,
}

impl DeepView for WiringDescriptor {
    type V = SpecWiringDescriptor;

    open spec fn deep_view(&self) -> SpecWiringDescriptor {
        SpecWiringDescriptor { wires: self.wires.deep_view() }
    }
}

impl Parsable for WiringDescriptor {
    open spec fn spec_parse(s: Seq<char>, p: int) -> SpecOutcome<SpecWiringDescriptor> {
        match spec_open(s, p, "wiring"@) {
            None => SpecOutcome::Failed,
            Some(q0) => bind(spec_padded::<Vec<WireDescriptor>>(s, q0), |wires: Seq<SpecWireDescriptor>, q1: int|
                match spec_close(s, q1) {
                    None => SpecOutcome::Failed,
                    Some(q) => SpecOutcome::Parsed(SpecWiringDescriptor { wires }, q),
                }),
        }
    }

    fn parse_at(s: &Vec<char>, p: usize) -> (r: Outcome<WiringDescriptor>) {
        let q0 = match parse_open(s, p, "wiring") {
            Some(q) => q,
            None => return Outcome::Failed,
        };
        let (v_wires, q1) = match parse_padded::<Vec<WireDescriptor>>(s, q0) {
            Outcome::Parsed(v, q) => (v, q),
            Outcome::Failed => return Outcome::Failed,
            Outcome::Aborted => return Outcome::Aborted,
        };
        let q2 = match parse_close(s, q1) {
            Some(q) => q,
            None => return Outcome::Failed,
        };
        Outcome::Parsed(WiringDescriptor { wires: v_wires }, q2)
    }
}

/// One of, tried in this order:
/// - `Shape`: `WireShapeDescriptor`
/// - `Via`: `WireViaDescriptor`
#[derive(Debug, Clone, PartialEq)]
pub enum WireDescriptor {
    Shape(WireShapeDescriptor),
    Via(WireViaDescriptor),
}

pub enum SpecWireDescriptor {
    Shape(SpecWireShapeDescriptor),
    Via(SpecWireViaDescriptor),
}

impl DeepView for WireDescriptor {
    type V = SpecWireDescriptor;

    open spec fn deep_view(&self) -> SpecWireDescriptor {
        match self {
            WireDescriptor::Shape(v_0) => SpecWireDescriptor::Shape(v_0.deep_view()),
            WireDescriptor::Via(v_0) => SpecWireDescriptor::Via(v_0.deep_view()),
        }
    }
}

pub open spec fn spec_wire_descriptor_shape(s: Seq<char>, p: int) -> SpecOutcome<SpecWireDescriptor> {
    bind(spec_padded::<WireShapeDescriptor>(s, ws_end(s, p)), |v0: SpecWireShapeDescriptor, q1: int|
    SpecOutcome::Parsed(SpecWireDescriptor::Shape(v0), ws_end(s, q1)))
}

fn parse_wire_descriptor_shape(s: &Vec<char>, p: usize) -> (r: Outcome<WireDescriptor>)
    requires
        p <= s.len(),
    ensures
        r@ == spec_wire_descriptor_shape(s@, p as int),
        r.within(p as int, s.len() as int),
{
    let q0 = skip_ws(s, p);
    let (v_0, q1) = match parse_padded::<WireShapeDescriptor>(s, q0) {
        Outcome::Parsed(v, q) => (v, q),
        Outcome::Failed => return Outcome::Failed,
        Outcome::Aborted => return Outcome::Aborted,
    };
    let q2 = skip_ws(s, q1);
    Outcome::Parsed(WireDescriptor::Shape(v_0), q2)
}

pub open spec fn spec_wire_descriptor_via(s: Seq<char>, p: int) -> SpecOutcome<SpecWireDescriptor> {
    bind(spec_padded::<WireViaDescriptor>(s, ws_end(s, p)), |v0: SpecWireViaDescriptor, q1: int|
    SpecOutcome::Parsed(SpecWireDescriptor::Via(v0), ws_end(s, q1)))
}

fn parse_wire_descriptor_via(s: &Vec<char>, p: usize) -> (r: Outcome<WireDescriptor>)
    requires
        p <= s.len(),
    ensures
        r@ == spec_wire_descriptor_via(s@, p as int),
        r.within(p as int, s.len() as int),
{
    let q0 = skip_ws(s, p);
    let (v_0, q1) = match parse_padded::<WireViaDescriptor>(s, q0) {
        Outcome::Parsed(v, q) => (v, q),
        Outcome::Failed => return Outcome::Failed,
        Outcome::Aborted => return Outcome::Aborted,
    };
    let q2 = skip_ws(s, q1);
    Outcome::Parsed(WireDescriptor::Via(v_0), q2)
}

impl Parsable for WireDescriptor {
    open spec fn spec_parse(s: Seq<char>, p: int) -> SpecOutcome<SpecWireDescriptor> {
        match spec_wire_descriptor_shape(s, p) {
            SpecOutcome::Failed => spec_wire_descriptor_via(s, p),
            o => o,
        }
    }

    fn parse_at(s: &Vec<char>, p: usize) -> (r: Outcome<WireDescriptor>) {
        match parse_wire_descriptor_shape(s, p) {
            Outcome::Failed => {},
            o => return o,
        }
        parse_wire_descriptor_via(s, p)
    }
}

/// Written `(wire shape [(net net_id)] [(type wire_type)])`.
#[derive(Debug, Clone, PartialEq)]
pub struct WireShapeDescriptor {
    pub shape: shapes::ShapeDescriptor,
    pub net_id: Option<atoms::Id>,
    pub wire_type: Option<WireType>,
}

pub struct SpecWireShapeDescriptor {
    pub shape: shapes::SpecShapeDescriptor,
    pub net_id: Option<Seq<char>>,
    pub wire_type: Option<WireType>,
}

impl DeepView for WireShapeDescriptor {
    type V = SpecWireShapeDescriptor;

    open spec fn deep_view(&self) -> SpecWireShapeDescriptor {
        SpecWireShapeDescriptor { shape: self.shape.deep_view(), net_id: self.net_id.deep_view(), wire_type: self.wire_type.deep_view() }
    }
}

impl Parsable for WireShapeDescriptor {
    open spec fn spec_parse(s: Seq<char>, p: int) -> SpecOutcome<SpecWireShapeDescriptor> {
        match spec_open(s, p, "wire"@) {
            None => SpecOutcome::Failed,
            Some(q0) => bind(spec_padded::<shapes::ShapeDescriptor>(s, q0), |shape: shapes::SpecShapeDescriptor, q1: int|
                bind(spec_optional_named::<atoms::Id>(s, q1, "net"@), |net_id: Option<Seq<char>>, q2: int|
                bind(spec_optional_named::<WireType>(s, q2, "type"@), |wire_type: Option<WireType>, q3: int|
                match spec_close(s, q3) {
                    None => SpecOutcome::Failed,
                    Some(q) => SpecOutcome::Parsed(SpecWireShapeDescriptor { shape, net_id, wire_type }, q),
                }))),
        }
    }

    fn parse_at(s: &Vec<char>, p: usize) -> (r: Outcome<WireShapeDescriptor>) {
        let q0 = match parse_open(s, p, "wire") {
            Some(q) => q,
            None => return Outcome::Failed,
        };
        let (v_shape, q1) = match parse_padded::<shapes::ShapeDescriptor>(s, q0) {
            Outcome::Parsed(v, q) => (v, q),
            Outcome::Failed => return Outcome::Failed,
            Outcome::Aborted => return Outcome::Aborted,
        };
        let (v_net_id, q2) = match parse_optional_named::<atoms::Id>(s, q1, "net") {
            Outcome::Parsed(v, q) => (v, q),
            Outcome::Failed => return Outcome::Failed,
            Outcome::Aborted => return Outcome::Aborted,
        };
        let (v_wire_type, q3) = match parse_optional_named::<WireType>(s, q2, "type") {
            Outcome::Parsed(v, q) => (v, q),
            Outcome::Failed => return Outcome::Failed,
            Outcome::Aborted => return Outcome::Aborted,
        };
        let q4 = match parse_close(s, q3) {
            Some(q) => q,
            None => return Outcome::Failed,
        };
        Outcome::Parsed(WireShapeDescriptor { shape: v_shape, net_id: v_net_id, wire_type: v_wire_type }, q4)
    }
}

/// One of, tried in this order:
/// - `Fix`: `fix`
/// - `Route`: `route`
/// - `Normal`: `normal`
/// - `Protect`: `protect`
#[derive(Debug, Clone, Copy, PartialEq)]
pub enum WireType {
    Fix,
    Route,
    Normal,
    Protect,
}

impl DeepView for WireType {
    type V = WireType;

    open spec fn deep_view(&self) -> WireType {
        *self
    }
}

pub open spec fn spec_wire_type_fix(s: Seq<char>, p: int) -> SpecOutcome<WireType> {
    match spec_keyword_item(s, p, "fix"@) {
        None => SpecOutcome::Failed,
        Some(q) => SpecOutcome::Parsed(WireType::Fix, q),
    }
}

fn parse_wire_type_fix(s: &Vec<char>, p: usize) -> (r: Outcome<WireType>)
    requires
        p <= s.len(),
    ensures
        r@ == spec_wire_type_fix(s@, p as int),
        r.within(p as int, s.len() as int),
{
    let q0 = match parse_keyword_item(s, p, "fix") {
        Some(q) => q,
        None => return Outcome::Failed,
    };
    Outcome::Parsed(WireType::Fix, q0)
}

pub open spec fn spec_wire_type_route(s: Seq<char>, p: int) -> SpecOutcome<WireType> {
    match spec_keyword_item(s, p, "route"@) {
        None => SpecOutcome::Failed,
        Some(q) => SpecOutcome::Parsed(WireType::Route, q),
    }
}

fn parse_wire_type_route(s: &Vec<char>, p: usize) -> (r: Outcome<WireType>)
    requires
        p <= s.len(),
    ensures
        r@ == spec_wire_type_route(s@, p as int),
        r.within(p as int, s.len() as int),
{
    let q0 = match parse_keyword_item(s, p, "route") {
        Some(q) => q,
        None => return Outcome::Failed,
    };
    Outcome::Parsed(WireType::Route, q0)
}

pub open spec fn spec_wire_type_normal(s: Seq<char>, p: int) -> SpecOutcome<WireType> {
    match spec_keyword_item(s, p, "normal"@) {
        None => SpecOutcome::Failed,
        Some(q) => SpecOutcome::Parsed(WireType::Normal, q),
    }
}

fn parse_wire_type_normal(s: &Vec<char>, p: usize) -> (r: Outcome<WireType>)
    requires
        p <= s.len(),
    ensures
        r@ == spec_wire_type_normal(s@, p as int),
        r.within(p as int, s.len() as int),
{
    let q0 = match parse_keyword_item(s, p, "normal") {
        Some(q) => q,
        None => return Outcome::Failed,
    };
    Outcome::Parsed(WireType::Normal, q0)
}

pub open spec fn spec_wire_type_protect(s: Seq<char>, p: int) -> SpecOutcome<WireType> {
    match spec_keyword_item(s, p, "protect"@) {
        None => SpecOutcome::Failed,
        Some(q) => SpecOutcome::Parsed(WireType::Protect, q),
    }
}

fn parse_wire_type_protect(s: &Vec<char>, p: usize) -> (r: Outcome<WireType>)
    requires
        p <= s.len(),
    ensures
        r@ == spec_wire_type_protect(s@, p as int),
        r.within(p as int, s.len() as int),
{
    let q0 = match parse_keyword_item(s, p, "protect") {
        Some(q) => q,
        None => return Outcome::Failed,
    };
    Outcome::Parsed(WireType::Protect, q0)
}

impl Parsable for WireType {
    open spec fn spec_parse(s: Seq<char>, p: int) -> SpecOutcome<WireType> {
        match spec_wire_type_fix(s, p) {
            SpecOutcome::Failed => match spec_wire_type_route(s, p) {
                SpecOutcome::Failed => match spec_wire_type_normal(s, p) {
                    SpecOutcome::Failed => spec_wire_type_protect(s, p),
                    o => o,
                },
                o => o,
            },
            o => o,
        }
    }

    fn parse_at(s: &Vec<char>, p: usize) -> (r: Outcome<WireType>) {
        match parse_wire_type_fix(s, p) {
            Outcome::Failed => {},
            o => return o,
        }
        match parse_wire_type_route(s, p) {
            Outcome::Failed => {},
            o => return o,
        }
        match parse_wire_type_normal(s, p) {
            Outcome::Failed => {},
            o => return o,
        }
        parse_wire_type_protect(s, p)
    }
}

/// Written `(via padstack_id vertices* [(net net)] [(via_number via_number)] [(type wire_type)])`.
#[derive(Debug, Clone, PartialEq)]
pub struct WireViaDescriptor {
    pub padstack_id: structure::PadstackId,
    pub vertices: Vec<shapes::Vertex>,
    pub net: Option<atoms::Id>,
    pub via_number: Option<numeric::PositiveInteger>,
    pub wire_type: Option<WireType>,
}

pub struct SpecWireViaDescriptor {
    pub padstack_id: Seq<char>,
    pub vertices: Seq<shapes::Vertex>,
    pub net: Option<Seq<char>>,
    pub via_number: Option<numeric::PositiveInteger>,
    pub wire_type: Option<WireType>,
}

impl DeepView for WireViaDescriptor {
    type V = SpecWireViaDescriptor;

    open spec fn deep_view(&self) -> SpecWireViaDescriptor {
        SpecWireViaDescriptor { padstack_id: self.padstack_id.deep_view(), vertices: self.vertices.deep_view(), net: self.net.deep_view(), via_number: self.via_number.deep_view(), wire_type: self.wire_type.deep_view() }
    }
}

impl Parsable for WireViaDescriptor {
    open spec fn spec_parse(s: Seq<char>, p: int) -> SpecOutcome<SpecWireViaDescriptor> {
        match spec_open(s, p, "via"@) {
            None => SpecOutcome::Failed,
            Some(q0) => bind(spec_padded::<structure::PadstackId>(s, q0), |padstack_id: Seq<char>, q1: int|
                bind(spec_padded::<Vec<shapes::Vertex>>(s, q1), |vertices: Seq<shapes::Vertex>, q2: int|
                bind(spec_optional_named::<atoms::Id>(s, q2, "net"@), |net: Option<Seq<char>>, q3: int|
                bind(spec_optional_named::<numeric::PositiveInteger>(s, q3, "via_number"@), |via_number: Option<numeric::PositiveInteger>, q4: int|
                bind(spec_optional_named::<WireType>(s, q4, "type"@), |wire_type: Option<WireType>, q5: int|
                match spec_close(s, q5) {
                    None => SpecOutcome::Failed,
                    Some(q) => SpecOutcome::Parsed(SpecWireViaDescriptor { padstack_id, vertices, net, via_number, wire_type }, q),
                }))))),
        }
    }

    fn parse_at(s: &Vec<char>, p: usize) -> (r: Outcome<WireViaDescriptor>) {
        let q0 = match parse_open(s, p, "via") {
            Some(q) => q,
            None => return Outcome::Failed,
        };
        let (v_padstack_id, q1) = match parse_padded::<structure::PadstackId>(s, q0) {
            Outcome::Parsed(v, q) => (v, q),
            Outcome::Failed => return Outcome::Failed,
            Outcome::Aborted => return Outcome::Aborted,
        };
        let (v_vertices, q2) = match parse_padded::<Vec<shapes::Vertex>>(s, q1) {
            Outcome::Parsed(v, q) => (v, q),
            Outcome::Failed => return Outcome::Failed,
            Outcome::Aborted => return Outcome::Aborted,
        };
        let (v_net, q3) = match parse_optional_named::<atoms::Id>(s, q2, "net") {
            Outcome::Parsed(v, q) => (v, q),
            Outcome::Failed => return Outcome::Failed,
            Outcome::Aborted => return Outcome::Aborted,
        };
        let (v_via_number, q4) = match parse_optional_named::<numeric::PositiveInteger>(s, q3, "via_number") {
            Outcome::Parsed(v, q) => (v, q),
            Outcome::Failed => return Outcome::Failed,
            Outcome::Aborted => return Outcome::Aborted,
        };
        let (v_wire_type, q5) = match parse_optional_named::<WireType>(s, q4, "type") {
            Outcome::Parsed(v, q) => (v, q),
            Outcome::Failed => return Outcome::Failed,
            Outcome::Aborted => return Outcome::Aborted,
        };
        let q6 = match parse_close(s, q5) {
            Some(q) => q,
            None => return Outcome::Failed,
        };
        Outcome::Parsed(WireViaDescriptor { padstack_id: v_padstack_id, vertices: v_vertices, net: v_net, via_number: v_via_number, wire_type: v_wire_type }, q6)
    }
}

/// The fields of `WiringDescriptor` come from the text in
/// declaration order: each is what its own rule reads where the previous one
/// ended.
pub proof fn lemma_wiring_descriptor_fields_in_order(s: Seq<char>, p: int)
    ensures
        WiringDescriptor::spec_parse(s, p) matches SpecOutcome::Parsed(v, q) ==> {
            let q0 = spec_open(s, p, "wiring"@).unwrap();
            let r0 = spec_padded::<Vec<WireDescriptor>>(s, q0);
            &&& spec_open(s, p, "wiring"@) is Some
            &&& r0 == SpecOutcome::Parsed(v.wires, r0.end())
            &&& spec_close(s, r0.end()) == Some(q)
        },
{
}

/// The fields of `WireShapeDescriptor` come from the text in
/// declaration order: each is what its own rule reads where the previous one
/// ended.
pub proof fn lemma_wire_shape_descriptor_fields_in_order(s: Seq<char>, p: int)
    ensures
        WireShapeDescriptor::spec_parse(s, p) matches SpecOutcome::Parsed(v, q) ==> {
            let q0 = spec_open(s, p, "wire"@).unwrap();
            let r0 = spec_padded::<shapes::ShapeDescriptor>(s, q0);
            let r1 = spec_optional_named::<atoms::Id>(s, r0.end(), "net"@);
            let r2 = spec_optional_named::<WireType>(s, r1.end(), "type"@);
            &&& spec_open(s, p, "wire"@) is Some
            &&& r0 == SpecOutcome::Parsed(v.shape, r0.end())
            &&& r1 == SpecOutcome::Parsed(v.net_id, r1.end())
            &&& r2 == SpecOutcome::Parsed(v.wire_type, r2.end())
            &&& spec_close(s, r2.end()) == Some(q)
        },
{
}

/// The fields of `WireViaDescriptor` come from the text in
/// declaration order: each is what its own rule reads where the previous one
/// ended.
pub proof fn lemma_wire_via_descriptor_fields_in_order(s: Seq<char>, p: int)
    ensures
        WireViaDescriptor::spec_parse(s, p) matches SpecOutcome::Parsed(v, q) ==> {
            let q0 = spec_open(s, p, "via"@).unwrap();
            let r0 = spec_padded::<structure::PadstackId>(s, q0);
            let r1 = spec_padded::<Vec<shapes::Vertex>>(s, r0.end());
            let r2 = spec_optional_named::<atoms::Id>(s, r1.end(), "net"@);
            let r3 = spec_optional_named::<numeric::PositiveInteger>(s, r2.end(), "via_number"@);
            let r4 = spec_optional_named::<WireType>(s, r3.end(), "type"@);
            &&& spec_open(s, p, "via"@) is Some
            &&& r0 == SpecOutcome::Parsed(v.padstack_id, r0.end())
            &&& r1 == SpecOutcome::Parsed(v.vertices, r1.end())
            &&& r2 == SpecOutcome::Parsed(v.net, r2.end())
            &&& r3 == SpecOutcome::Parsed(v.via_number, r3.end())
            &&& r4 == SpecOutcome::Parsed(v.wire_type, r4.end())
            &&& spec_close(s, r4.end()) == Some(q)
        },
{
}

/// The fields of the `Shape` form read by `spec_wire_descriptor_shape` come from the text in
/// declaration order: each is what its own rule reads where the previous one
/// ended.
pub proof fn lemma_wire_descriptor_shape_fields_in_order(s: Seq<char>, p: int)
    ensures
        spec_wire_descriptor_shape(s, p) matches SpecOutcome::Parsed(v, q) ==> {
            let r0 = spec_padded::<WireShapeDescriptor>(s, ws_end(s, p));
            &&& v is Shape
            &&& r0 == SpecOutcome::Parsed(v->Shape_0, r0.end())
            &&& q == ws_end(s, r0.end())
        },
{
}

/// The fields of the `Via` form read by `spec_wire_descriptor_via` come from the text in
/// declaration order: each is what its own rule reads where the previous one
/// ended.
pub proof fn lemma_wire_descriptor_via_fields_in_order(s: Seq<char>, p: int)
    ensures
        spec_wire_descriptor_via(s, p) matches SpecOutcome::Parsed(v, q) ==> {
            let r0 = spec_padded::<WireViaDescriptor>(s, ws_end(s, p));
            &&& v is Via
            &&& r0 == SpecOutcome::Parsed(v->Via_0, r0.end())
            &&& q == ws_end(s, r0.end())
        },
{
}

} // verus!
