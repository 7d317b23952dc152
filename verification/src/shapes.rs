//! Geometric shapes: paths, rectangles, circles and polygons.

use vstd::prelude::*;
use crate::outcome::{Outcome, SpecOutcome, bind};
use crate::parsable::{Parsable, spec_padded, parse_padded, spec_optional, parse_optional, spec_open, parse_open, spec_close, parse_close, spec_keyword_item, parse_keyword_item};
use crate::text::{ws_end, skip_ws};
use crate::atoms;
use crate::numeric;

verus! {

/// Written `(path layer_id aperature_width vertices* [aperature_type])`.
#[derive(Debug, Clone, PartialEq)]
pub struct PathDescriptor {
    pub layer_id: atoms::Id,
    pub aperature_width: numeric::PositiveDimension,
    pub vertices: Vec<Vertex>,
    pub aperature_type: Option<AperatureType>,
}

pub struct SpecPathDescriptor {
    pub layer_id: Seq<char>,
    pub aperature_width: numeric::PositiveDimension,
    pub vertices: Seq<Vertex>,
    pub aperature_type: Option<AperatureType>,
}

impl DeepView for PathDescriptor {
    type V = SpecPathDescriptor;

    open spec fn deep_view(&self) -> SpecPathDescriptor {
        SpecPathDescriptor { layer_id: self.layer_id.deep_view(), aperature_width: self.aperature_width.deep_view(), vertices: self.vertices.deep_view(), aperature_type: self.aperature_type.deep_view() }
    }
}

impl Parsable for PathDescriptor {
    open spec fn spec_parse(s: Seq<char>, p: int) -> SpecOutcome<SpecPathDescriptor> {
        match spec_open(s, p, "path"@) {
            None => SpecOutcome::Failed,
            Some(q0) => bind(spec_padded::<atoms::Id>(s, q0), |layer_id: Seq<char>, q1: int|
                bind(spec_padded::<numeric::PositiveDimension>(s, q1), |aperature_width: numeric::PositiveDimension, q2: int|
                bind(spec_padded::<Vec<Vertex>>(s, q2), |vertices: Seq<Vertex>, q3: int|
                bind(spec_optional::<AperatureType>(s, q3), |aperature_type: Option<AperatureType>, q4: int|
                match spec_close(s, q4) {
                    None => SpecOutcome::Failed,
                    Some(q) => SpecOutcome::Parsed(SpecPathDescriptor { layer_id, aperature_width, vertices, aperature_type }, q),
                })))),
        }
    }

    fn parse_at(s: &Vec<char>, p: usize) -> (r: Outcome<PathDescriptor>) {
        let q0 = match parse_open(s, p, "path") {
            Some(q) => q,
            None => return Outcome::Failed,
        };
        let (v_layer_id, q1) = match parse_padded::<atoms::Id>(s, q0) {
            Outcome::Parsed(v, q) => (v, q),
            Outcome::Failed => return Outcome::Failed,
            Outcome::Aborted => return Outcome::Aborted,
        };
        let (v_aperature_width, q2) = match parse_padded::<numeric::PositiveDimension>(s, q1) {
            Outcome::Parsed(v, q) => (v, q),
            Outcome::Failed => return Outcome::Failed,
            Outcome::Aborted => return Outcome::Aborted,
        };
        let (v_vertices, q3) = match parse_padded::<Vec<Vertex>>(s, q2) {
            Outcome::Parsed(v, q) => (v, q),
            Outcome::Failed => return Outcome::Failed,
            Outcome::Aborted => return Outcome::Aborted,
        };
        let (v_aperature_type, q4) = match parse_optional::<AperatureType>(s, q3) {
            Outcome::Parsed(v, q) => (v, q),
            Outcome::Failed => return Outcome::Failed,
            Outcome::Aborted => return Outcome::Aborted,
        };
        let q5 = match parse_close(s, q4) {
            Some(q) => q,
            None => return Outcome::Failed,
        };
        Outcome::Parsed(PathDescriptor { layer_id: v_layer_id, aperature_width: v_aperature_width, vertices: v_vertices, aperature_type: v_aperature_type }, q5)
    }
}

/// Written `(rect layer_id corners)`.
#[derive(Debug, PartialEq)]
pub struct RectangleDescriptor {
    pub layer_id: atoms::Id,
    pub corners: (Vertex, Vertex),
}

pub struct SpecRectangleDescriptor {
    pub layer_id: Seq<char>,
    pub corners: (Vertex, Vertex),
}

impl DeepView for RectangleDescriptor {
    type V = SpecRectangleDescriptor;

    open spec fn deep_view(&self) -> SpecRectangleDescriptor {
        SpecRectangleDescriptor { layer_id: self.layer_id.deep_view(), corners: self.corners.deep_view() }
    }
}

impl Clone for RectangleDescriptor {
    fn clone(&self) -> (r: Self) {
        RectangleDescriptor { layer_id: self.layer_id.clone(), corners: self.corners }
    }
}

impl Parsable for RectangleDescriptor {
    open spec fn spec_parse(s: Seq<char>, p: int) -> SpecOutcome<SpecRectangleDescriptor> {
        match spec_open(s, p, "rect"@) {
            None => SpecOutcome::Failed,
            Some(q0) => bind(spec_padded::<atoms::Id>(s, q0), |layer_id: Seq<char>, q1: int|
                bind(spec_padded::<(Vertex, Vertex)>(s, q1), |corners: (Vertex, Vertex), q2: int|
                match spec_close(s, q2) {
                    None => SpecOutcome::Failed,
                    Some(q) => SpecOutcome::Parsed(SpecRectangleDescriptor { layer_id, corners }, q),
                })),
        }
    }

    fn parse_at(s: &Vec<char>, p: usize) -> (r: Outcome<RectangleDescriptor>) {
        let q0 = match parse_open(s, p, "rect") {
            Some(q) => q,
            None => return Outcome::Failed,
        };
        let (v_layer_id, q1) = match parse_padded::<atoms::Id>(s, q0) {
            Outcome::Parsed(v, q) => (v, q),
            Outcome::Failed => return Outcome::Failed,
            Outcome::Aborted => return Outcome::Aborted,
        };
        let (v_corners, q2) = match parse_padded::<(Vertex, Vertex)>(s, q1) {
            Outcome::Parsed(v, q) => (v, q),
            Outcome::Failed => return Outcome::Failed,
            Outcome::Aborted => return Outcome::Aborted,
        };
        let q3 = match parse_close(s, q2) {
            Some(q) => q,
            None => return Outcome::Failed,
        };
        Outcome::Parsed(RectangleDescriptor { layer_id: v_layer_id, corners: v_corners }, q3)
    }
}

/// Written `Number Number`.
#[derive(Debug, Clone, Copy, PartialEq)]
pub struct Vertex(pub numeric::Number, pub numeric::Number);

impl DeepView for Vertex {
    type V = Vertex;

    open spec fn deep_view(&self) -> Vertex {
        *self
    }
}

impl Parsable for Vertex {
    open spec fn spec_parse(s: Seq<char>, p: int) -> SpecOutcome<Vertex> {
        bind(spec_padded::<numeric::Number>(s, ws_end(s, p)), |v0: numeric::Number, q1: int|
        bind(spec_padded::<numeric::Number>(s, q1), |v1: numeric::Number, q2: int|
        SpecOutcome::Parsed(Vertex(v0, v1), ws_end(s, q2))))
    }

    fn parse_at(s: &Vec<char>, p: usize) -> (r: Outcome<Vertex>) {
        let q0 = skip_ws(s, p);
        let (v_0, q1) = match parse_padded::<numeric::Number>(s, q0) {
            Outcome::Parsed(v, q) => (v, q),
            Outcome::Failed => return Outcome::Failed,
            Outcome::Aborted => return Outcome::Aborted,
        };
        let (v_1, q2) = match parse_padded::<numeric::Number>(s, q1) {
            Outcome::Parsed(v, q) => (v, q),
            Outcome::Failed => return Outcome::Failed,
            Outcome::Aborted => return Outcome::Aborted,
        };
        let q3 = skip_ws(s, q2);
        Outcome::Parsed(Vertex(v_0, v_1), q3)
    }
}

/// One of, tried in this order:
/// - `Round`: `round`
/// - `Square`: `square`
#[derive(Debug, Clone, Copy, PartialEq)]
pub enum AperatureType {
    Round,
    Square,
}

impl DeepView for AperatureType {
    type V = AperatureType;

    open spec fn deep_view(&self) -> AperatureType {
        *self
    }
}

pub open spec fn spec_aperature_type_round(s: Seq<char>, p: int) -> SpecOutcome<AperatureType> {
    match spec_keyword_item(s, p, "round"@) {
        None => SpecOutcome::Failed,
        Some(q) => SpecOutcome::Parsed(AperatureType::Round, q),
    }
}

fn parse_aperature_type_round(s: &Vec<char>, p: usize) -> (r: Outcome<AperatureType>)
    requires
        p <= s.len(),
    ensures
        r@ == spec_aperature_type_round(s@, p as int),
        r.within(p as int, s.len() as int),
{
    let q0 = match parse_keyword_item(s, p, "round") {
        Some(q) => q,
        None => return Outcome::Failed,
    };
    Outcome::Parsed(AperatureType::Round, q0)
}

pub open spec fn spec_aperature_type_square(s: Seq<char>, p: int) -> SpecOutcome<AperatureType> {
    match spec_keyword_item(s, p, "square"@) {
        None => SpecOutcome::Failed,
        Some(q) => SpecOutcome::Parsed(AperatureType::Square, q),
    }
}

fn parse_aperature_type_square(s: &Vec<char>, p: usize) -> (r: Outcome<AperatureType>)
    requires
        p <= s.len(),
    ensures
        r@ == spec_aperature_type_square(s@, p as int),
        r.within(p as int, s.len() as int),
{
    let q0 = match parse_keyword_item(s, p, "square") {
        Some(q) => q,
        None => return Outcome::Failed,
    };
    Outcome::Parsed(AperatureType::Square, q0)
}

impl Parsable for AperatureType {
    open spec fn spec_parse(s: Seq<char>, p: int) -> SpecOutcome<AperatureType> {
        match spec_aperature_type_round(s, p) {
            SpecOutcome::Failed => spec_aperature_type_square(s, p),
            o => o,
        }
    }

    fn parse_at(s: &Vec<char>, p: usize) -> (r: Outcome<AperatureType>) {
        match parse_aperature_type_round(s, p) {
            Outcome::Failed => {},
            o => return o,
        }
        parse_aperature_type_square(s, p)
    }
}

/// Written `(circle layer_id diameter [vertex])`.
#[derive(Debug, Clone, PartialEq)]
pub struct CircleDescriptor {
    pub layer_id: atoms::Id,
    pub diameter: numeric::PositiveDimension,
    pub vertex: Option<Vertex>,
}

pub struct SpecCircleDescriptor {
    pub layer_id: Seq<char>,
    pub diameter: numeric::PositiveDimension,
    pub vertex: Option<Vertex>,
}

impl DeepView for CircleDescriptor {
    type V = SpecCircleDescriptor;

    open spec fn deep_view(&self) -> SpecCircleDescriptor {
        SpecCircleDescriptor { layer_id: self.layer_id.deep_view(), diameter: self.diameter.deep_view(), vertex: self.vertex.deep_view() }
    }
}

impl Parsable for CircleDescriptor {
    open spec fn spec_parse(s: Seq<char>, p: int) -> SpecOutcome<SpecCircleDescriptor> {
        match spec_open(s, p, "circle"@) {
            None => SpecOutcome::Failed,
            Some(q0) => bind(spec_padded::<atoms::Id>(s, q0), |layer_id: Seq<char>, q1: int|
                bind(spec_padded::<numeric::PositiveDimension>(s, q1), |diameter: numeric::PositiveDimension, q2: int|
                bind(spec_optional::<Vertex>(s, q2), |vertex: Option<Vertex>, q3: int|
                match spec_close(s, q3) {
                    None => SpecOutcome::Failed,
                    Some(q) => SpecOutcome::Parsed(SpecCircleDescriptor { layer_id, diameter, vertex }, q),
                }))),
        }
    }

    fn parse_at(s: &Vec<char>, p: usize) -> (r: Outcome<CircleDescriptor>) {
        let q0 = match parse_open(s, p, "circle") {
            Some(q) => q,
            None => return Outcome::Failed,
        };
        let (v_layer_id, q1) = match parse_padded::<atoms::Id>(s, q0) {
            Outcome::Parsed(v, q) => (v, q),
            Outcome::Failed => return Outcome::Failed,
            Outcome::Aborted => return Outcome::Aborted,
        };
        let (v_diameter, q2) = match parse_padded::<numeric::PositiveDimension>(s, q1) {
            Outcome::Parsed(v, q) => (v, q),
            Outcome::Failed => return Outcome::Failed,
            Outcome::Aborted => return Outcome::Aborted,
        };
        let (v_vertex, q3) = match parse_optional::<Vertex>(s, q2) {
            Outcome::Parsed(v, q) => (v, q),
            Outcome::Failed => return Outcome::Failed,
            Outcome::Aborted => return Outcome::Aborted,
        };
        let q4 = match parse_close(s, q3) {
            Some(q) => q,
            None => return Outcome::Failed,
        };
        Outcome::Parsed(CircleDescriptor { layer_id: v_layer_id, diameter: v_diameter, vertex: v_vertex }, q4)
    }
}

/// Written `(polygon layer_id aperature_width vertices* [aperature_type])`.
#[derive(Debug, Clone, PartialEq)]
pub struct PolygonDescriptor {
    pub layer_id: atoms::Id,
    pub aperature_width: numeric::PositiveDimension,
    pub vertices: Vec<Vertex>,
    pub aperature_type: Option<AperatureType>,
}

pub struct SpecPolygonDescriptor {
    pub layer_id: Seq<char>,
    pub aperature_width: numeric::PositiveDimension,
    pub vertices: Seq<Vertex>,
    pub aperature_type: Option<AperatureType>,
}

impl DeepView for PolygonDescriptor {
    type V = SpecPolygonDescriptor;

    open spec fn deep_view(&self) -> SpecPolygonDescriptor {
        SpecPolygonDescriptor { layer_id: self.layer_id.deep_view(), aperature_width: self.aperature_width.deep_view(), vertices: self.vertices.deep_view(), aperature_type: self.aperature_type.deep_view() }
    }
}

impl Parsable for PolygonDescriptor {
    open spec fn spec_parse(s: Seq<char>, p: int) -> SpecOutcome<SpecPolygonDescriptor> {
        match spec_open(s, p, "polygon"@) {
            None => SpecOutcome::Failed,
            Some(q0) => bind(spec_padded::<atoms::Id>(s, q0), |layer_id: Seq<char>, q1: int|
                bind(spec_padded::<numeric::PositiveDimension>(s, q1), |aperature_width: numeric::PositiveDimension, q2: int|
                bind(spec_padded::<Vec<Vertex>>(s, q2), |vertices: Seq<Vertex>, q3: int|
                bind(spec_optional::<AperatureType>(s, q3), |aperature_type: Option<AperatureType>, q4: int|
                match spec_close(s, q4) {
                    None => SpecOutcome::Failed,
                    Some(q) => SpecOutcome::Parsed(SpecPolygonDescriptor { layer_id, aperature_width, vertices, aperature_type }, q),
                })))),
        }
    }

    fn parse_at(s: &Vec<char>, p: usize) -> (r: Outcome<PolygonDescriptor>) {
        let q0 = match parse_open(s, p, "polygon") {
            Some(q) => q,
            None => return Outcome::Failed,
        };
        let (v_layer_id, q1) = match parse_padded::<atoms::Id>(s, q0) {
            Outcome::Parsed(v, q) => (v, q),
            Outcome::Failed => return Outcome::Failed,
            Outcome::Aborted => return Outcome::Aborted,
        };
        let (v_aperature_width, q2) = match parse_padded::<numeric::PositiveDimension>(s, q1) {
            Outcome::Parsed(v, q) => (v, q),
            Outcome::Failed => return Outcome::Failed,
            Outcome::Aborted => return Outcome::Aborted,
        };
        let (v_vertices, q3) = match parse_padded::<Vec<Vertex>>(s, q2) {
            Outcome::Parsed(v, q) => (v, q),
            Outcome::Failed => return Outcome::Failed,
            Outcome::Aborted => return Outcome::Aborted,
        };
        let (v_aperature_type, q4) = match parse_optional::<AperatureType>(s, q3) {
            Outcome::Parsed(v, q) => (v, q),
            Outcome::Failed => return Outcome::Failed,
            Outcome::Aborted => return Outcome::Aborted,
        };
        let q5 = match parse_close(s, q4) {
            Some(q) => q,
            None => return Outcome::Failed,
        };
        Outcome::Parsed(PolygonDescriptor { layer_id: v_layer_id, aperature_width: v_aperature_width, vertices: v_vertices, aperature_type: v_aperature_type }, q5)
    }
}

/// One of, tried in this order:
/// - `Rectangle`: `RectangleDescriptor`
/// - `Circle`: `CircleDescriptor`
/// - `Polygon`: `PolygonDescriptor`
/// - `Path`: `PathDescriptor`
#[derive(Debug, Clone, PartialEq)]
pub enum ShapeDescriptor {
    Rectangle(RectangleDescriptor),
    Circle(CircleDescriptor),
    Polygon(PolygonDescriptor),
    Path(PathDescriptor),
}

pub enum SpecShapeDescriptor {
    Rectangle(SpecRectangleDescriptor),
    Circle(SpecCircleDescriptor),
    Polygon(SpecPolygonDescriptor),
    Path(SpecPathDescriptor),
}

impl DeepView for ShapeDescriptor {
    type V = SpecShapeDescriptor;

    open spec fn deep_view(&self) -> SpecShapeDescriptor {
        match self {
            ShapeDescriptor::Rectangle(v_0) => SpecShapeDescriptor::Rectangle(v_0.deep_view()),
            ShapeDescriptor::Circle(v_0) => SpecShapeDescriptor::Circle(v_0.deep_view()),
            ShapeDescriptor::Polygon(v_0) => SpecShapeDescriptor::Polygon(v_0.deep_view()),
            ShapeDescriptor::Path(v_0) => SpecShapeDescriptor::Path(v_0.deep_view()),
        }
    }
}

pub open spec fn spec_shape_descriptor_rectangle(s: Seq<char>, p: int) -> SpecOutcome<SpecShapeDescriptor> {
    bind(spec_padded::<RectangleDescriptor>(s, ws_end(s, p)), |v0: SpecRectangleDescriptor, q1: int|
    SpecOutcome::Parsed(SpecShapeDescriptor::Rectangle(v0), ws_end(s, q1)))
}

fn parse_shape_descriptor_rectangle(s: &Vec<char>, p: usize) -> (r: Outcome<ShapeDescriptor>)
    requires
        p <= s.len(),
    ensures
        r@ == spec_shape_descriptor_rectangle(s@, p as int),
        r.within(p as int, s.len() as int),
{
    let q0 = skip_ws(s, p);
    let (v_0, q1) = match parse_padded::<RectangleDescriptor>(s, q0) {
        Outcome::Parsed(v, q) => (v, q),
        Outcome::Failed => return Outcome::Failed,
        Outcome::Aborted => return Outcome::Aborted,
    };
    let q2 = skip_ws(s, q1);
    Outcome::Parsed(ShapeDescriptor::Rectangle(v_0), q2)
}

pub open spec fn spec_shape_descriptor_circle(s: Seq<char>, p: int) -> SpecOutcome<SpecShapeDescriptor> {
    bind(spec_padded::<CircleDescriptor>(s, ws_end(s, p)), |v0: SpecCircleDescriptor, q1: int|
    SpecOutcome::Parsed(SpecShapeDescriptor::Circle(v0), ws_end(s, q1)))
}

fn parse_shape_descriptor_circle(s: &Vec<char>, p: usize) -> (r: Outcome<ShapeDescriptor>)
    requires
        p <= s.len(),
    ensures
        r@ == spec_shape_descriptor_circle(s@, p as int),
        r.within(p as int, s.len() as int),
{
    let q0 = skip_ws(s, p);
    let (v_0, q1) = match parse_padded::<CircleDescriptor>(s, q0) {
        Outcome::Parsed(v, q) => (v, q),
        Outcome::Failed => return Outcome::Failed,
        Outcome::Aborted => return Outcome::Aborted,
    };
    let q2 = skip_ws(s, q1);
    Outcome::Parsed(ShapeDescriptor::Circle(v_0), q2)
}

pub open spec fn spec_shape_descriptor_polygon(s: Seq<char>, p: int) -> SpecOutcome<SpecShapeDescriptor> {
    bind(spec_padded::<PolygonDescriptor>(s, ws_end(s, p)), |v0: SpecPolygonDescriptor, q1: int|
    SpecOutcome::Parsed(SpecShapeDescriptor::Polygon(v0), ws_end(s, q1)))
}

fn parse_shape_descriptor_polygon(s: &Vec<char>, p: usize) -> (r: Outcome<ShapeDescriptor>)
    requires
        p <= s.len(),
    ensures
        r@ == spec_shape_descriptor_polygon(s@, p as int),
        r.within(p as int, s.len() as int),
{
    let q0 = skip_ws(s, p);
    let (v_0, q1) = match parse_padded::<PolygonDescriptor>(s, q0) {
        Outcome::Parsed(v, q) => (v, q),
        Outcome::Failed => return Outcome::Failed,
        Outcome::Aborted => return Outcome::Aborted,
    };
    let q2 = skip_ws(s, q1);
    Outcome::Parsed(ShapeDescriptor::Polygon(v_0), q2)
}

pub open spec fn spec_shape_descriptor_path(s: Seq<char>, p: int) -> SpecOutcome<SpecShapeDescriptor> {
    bind(spec_padded::<PathDescriptor>(s, ws_end(s, p)), |v0: SpecPathDescriptor, q1: int|
    SpecOutcome::Parsed(SpecShapeDescriptor::Path(v0), ws_end(s, q1)))
}

fn parse_shape_descriptor_path(s: &Vec<char>, p: usize) -> (r: Outcome<ShapeDescriptor>)
    requires
        p <= s.len(),
    ensures
        r@ == spec_shape_descriptor_path(s@, p as int),
        r.within(p as int, s.len() as int),
{
    let q0 = skip_ws(s, p);
    let (v_0, q1) = match parse_padded::<PathDescriptor>(s, q0) {
        Outcome::Parsed(v, q) => (v, q),
        Outcome::Failed => return Outcome::Failed,
        Outcome::Aborted => return Outcome::Aborted,
    };
    let q2 = skip_ws(s, q1);
    Outcome::Parsed(ShapeDescriptor::Path(v_0), q2)
}

impl Parsable for ShapeDescriptor {
    open spec fn spec_parse(s: Seq<char>, p: int) -> SpecOutcome<SpecShapeDescriptor> {
        match spec_shape_descriptor_rectangle(s, p) {
            SpecOutcome::Failed => match spec_shape_descriptor_circle(s, p) {
                SpecOutcome::Failed => match spec_shape_descriptor_polygon(s, p) {
                    SpecOutcome::Failed => spec_shape_descriptor_path(s, p),
                    o => o,
                },
                o => o,
            },
            o => o,
        }
    }

    fn parse_at(s: &Vec<char>, p: usize) -> (r: Outcome<ShapeDescriptor>) {
        match parse_shape_descriptor_rectangle(s, p) {
            Outcome::Failed => {},
            o => return o,
        }
        match parse_shape_descriptor_circle(s, p) {
            Outcome::Failed => {},
            o => return o,
        }
        match parse_shape_descriptor_polygon(s, p) {
            Outcome::Failed => {},
            o => return o,
        }
        parse_shape_descriptor_path(s, p)
    }
}

impl Default for AperatureType {
    fn default() -> (r: AperatureType)
        ensures
            r == AperatureType::Round,
    {
        AperatureType::Round
    }
}

/// The fields of `PathDescriptor` come from the text in
/// declaration order: each is what its own rule reads where the previous one
/// ended.
pub proof fn lemma_path_descriptor_fields_in_order(s: Seq<char>, p: int)
    ensures
        PathDescriptor::spec_parse(s, p) matches SpecOutcome::Parsed(v, q) ==> {
            let q0 = spec_open(s, p, "path"@).unwrap();
            let r0 = spec_padded::<atoms::Id>(s, q0);
            let r1 = spec_padded::<numeric::PositiveDimension>(s, r0.end());
            let r2 = spec_padded::<Vec<Vertex>>(s, r1.end());
            let r3 = spec_optional::<AperatureType>(s, r2.end());
            &&& spec_open(s, p, "path"@) is Some
            &&& r0 == SpecOutcome::Parsed(v.layer_id, r0.end())
            &&& r1 == SpecOutcome::Parsed(v.aperature_width, r1.end())
            &&& r2 == SpecOutcome::Parsed(v.vertices, r2.end())
            &&& r3 == SpecOutcome::Parsed(v.aperature_type, r3.end())
            &&& spec_close(s, r3.end()) == Some(q)
        },
{
}

/// The fields of `RectangleDescriptor` come from the text in
/// declaration order: each is what its own rule reads where the previous one
/// ended.
pub proof fn lemma_rectangle_descriptor_fields_in_order(s: Seq<char>, p: int)
    ensures
        RectangleDescriptor::spec_parse(s, p) matches SpecOutcome::Parsed(v, q) ==> {
            let q0 = spec_open(s, p, "rect"@).unwrap();
            let r0 = spec_padded::<atoms::Id>(s, q0);
            let r1 = spec_padded::<(Vertex, Vertex)>(s, r0.end());
            &&& spec_open(s, p, "rect"@) is Some
            &&& r0 == SpecOutcome::Parsed(v.layer_id, r0.end())
            &&& r1 == SpecOutcome::Parsed(v.corners, r1.end())
            &&& spec_close(s, r1.end()) == Some(q)
        },
{
}

/// The fields of `Vertex` come from the text in
/// declaration order: each is what its own rule reads where the previous one
/// ended.
pub proof fn lemma_vertex_fields_in_order(s: Seq<char>, p: int)
    ensures
        Vertex::spec_parse(s, p) matches SpecOutcome::Parsed(v, q) ==> {
            let r0 = spec_padded::<numeric::Number>(s, ws_end(s, p));
            let r1 = spec_padded::<numeric::Number>(s, r0.end());
            &&& r0 == SpecOutcome::Parsed(v.0, r0.end())
            &&& r1 == SpecOutcome::Parsed(v.1, r1.end())
            &&& q == ws_end(s, r1.end())
        },
{
}

/// The fields of `CircleDescriptor` come from the text in
/// declaration order: each is what its own rule reads where the previous one
/// ended.
pub proof fn lemma_circle_descriptor_fields_in_order(s: Seq<char>, p: int)
    ensures
        CircleDescriptor::spec_parse(s, p) matches SpecOutcome::Parsed(v, q) ==> {
            let q0 = spec_open(s, p, "circle"@).unwrap();
            let r0 = spec_padded::<atoms::Id>(s, q0);
            let r1 = spec_padded::<numeric::PositiveDimension>(s, r0.end());
            let r2 = spec_optional::<Vertex>(s, r1.end());
            &&& spec_open(s, p, "circle"@) is Some
            &&& r0 == SpecOutcome::Parsed(v.layer_id, r0.end())
            &&& r1 == SpecOutcome::Parsed(v.diameter, r1.end())
            &&& r2 == SpecOutcome::Parsed(v.vertex, r2.end())
            &&& spec_close(s, r2.end()) == Some(q)
        },
{
}

/// The fields of `PolygonDescriptor` come from the text in
/// declaration order: each is what its own rule reads where the previous one
/// ended.
pub proof fn lemma_polygon_descriptor_fields_in_order(s: Seq<char>, p: int)
    ensures
        PolygonDescriptor::spec_parse(s, p) matches SpecOutcome::Parsed(v, q) ==> {
            let q0 = spec_open(s, p, "polygon"@).unwrap();
            let r0 = spec_padded::<atoms::Id>(s, q0);
            let r1 = spec_padded::<numeric::PositiveDimension>(s, r0.end());
            let r2 = spec_padded::<Vec<Vertex>>(s, r1.end());
            let r3 = spec_optional::<AperatureType>(s, r2.end());
            &&& spec_open(s, p, "polygon"@) is Some
            &&& r0 == SpecOutcome::Parsed(v.layer_id, r0.end())
            &&& r1 == SpecOutcome::Parsed(v.aperature_width, r1.end())
            &&& r2 == SpecOutcome::Parsed(v.vertices, r2.end())
            &&& r3 == SpecOutcome::Parsed(v.aperature_type, r3.end())
            &&& spec_close(s, r3.end()) == Some(q)
        },
{
}

/// The fields of the `Rectangle` form read by `spec_shape_descriptor_rectangle` come from the text in
/// declaration order: each is what its own rule reads where the previous one
/// ended.
pub proof fn lemma_shape_descriptor_rectangle_fields_in_order(s: Seq<char>, p: int)
    ensures
        spec_shape_descriptor_rectangle(s, p) matches SpecOutcome::Parsed(v, q) ==> {
            let r0 = spec_padded::<RectangleDescriptor>(s, ws_end(s, p));
            &&& v is Rectangle
            &&& r0 == SpecOutcome::Parsed(v->Rectangle_0, r0.end())
            &&& q == ws_end(s, r0.end())
        },
{
}

/// The fields of the `Circle` form read by `spec_shape_descriptor_circle` come from the text in
/// declaration order: each is what its own rule reads where the previous one
/// ended.
pub proof fn lemma_shape_descriptor_circle_fields_in_order(s: Seq<char>, p: int)
    ensures
        spec_shape_descriptor_circle(s, p) matches SpecOutcome::Parsed(v, q) ==> {
            let r0 = spec_padded::<CircleDescriptor>(s, ws_end(s, p));
            &&& v is Circle
            &&& r0 == SpecOutcome::Parsed(v->Circle_0, r0.end())
            &&& q == ws_end(s, r0.end())
        },
{
}

/// The fields of the `Polygon` form read by `spec_shape_descriptor_polygon` come from the text in
/// declaration order: each is what its own rule reads where the previous one
/// ended.
pub proof fn lemma_shape_descriptor_polygon_fields_in_order(s: Seq<char>, p: int)
    ensures
        spec_shape_descriptor_polygon(s, p) matches SpecOutcome::Parsed(v, q) ==> {
            let r0 = spec_padded::<PolygonDescriptor>(s, ws_end(s, p));
            &&& v is Polygon
            &&& r0 == SpecOutcome::Parsed(v->Polygon_0, r0.end())
            &&& q == ws_end(s, r0.end())
        },
{
}

/// The fields of the `Path` form read by `spec_shape_descriptor_path` come from the text in
/// declaration order: each is what its own rule reads where the previous one
/// ended.
pub proof fn lemma_shape_descriptor_path_fields_in_order(s: Seq<char>, p: int)
    ensures
        spec_shape_descriptor_path(s, p) matches SpecOutcome::Parsed(v, q) ==> {
            let r0 = spec_padded::<PathDescriptor>(s, ws_end(s, p));
            &&& v is Path
            &&& r0 == SpecOutcome::Parsed(v->Path_0, r0.end())
            &&& q == ws_end(s, r0.end())
        },
{
}

} // verus!
