//! The `library` section: images, padstacks and keepouts.

use vstd::prelude::*;
use crate::outcome::{Outcome, SpecOutcome, bind};
use crate::parsable::{Parsable, spec_padded, parse_padded, spec_named, parse_named, spec_optional, parse_optional, spec_optional_named, parse_optional_named, spec_open, parse_open, spec_close, parse_close, spec_keyword_item, parse_keyword_item};
use crate::text::{ws_end, skip_ws};
use crate::atoms;
use crate::numeric;
use crate::shapes;
use crate::pcb;
use crate::pcb::structure;
use crate::pcb::placement;

verus! {

/// Written `(library [unit] images* [jumpers*] [padstacks*])`.
#[derive(Debug, Clone, PartialEq)]
pub struct LibraryDescriptor {
    pub unit: Option<pcb::UnitDescriptor>,
    pub images: Vec<ImageDescriptor>,
    pub jumpers: Option<Vec<JumperDescriptor>>,
    pub padstacks: Option<Vec<PadstackDescriptor>>,
}

pub struct SpecLibraryDescriptor {
    pub unit: Option<pcb::UnitDescriptor>,
    pub images: Seq<SpecImageDescriptor>,
    pub jumpers: Option<Seq<SpecJumperDescriptor>>,
    pub padstacks: Option<Seq<SpecPadstackDescriptor>>,
}

impl DeepView for LibraryDescriptor {
    type V = SpecLibraryDescriptor;

    open spec fn deep_view(&self) -> SpecLibraryDescriptor {
        SpecLibraryDescriptor { unit: self.unit.deep_view(), images: self.images.deep_view(), jumpers: self.jumpers.deep_view(), padstacks: self.padstacks.deep_view() }
    }
}

impl Parsable for LibraryDescriptor {
    open spec fn spec_parse(s: Seq<char>, p: int) -> SpecOutcome<SpecLibraryDescriptor> {
        match spec_open(s, p, "library"@) {
            None => SpecOutcome::Failed,
            Some(q0) => bind(spec_optional::<pcb::UnitDescriptor>(s, q0), |unit: Option<pcb::UnitDescriptor>, q1: int|
                bind(spec_padded::<Vec<ImageDescriptor>>(s, q1), |images: Seq<SpecImageDescriptor>, q2: int|
                bind(spec_optional::<Vec<JumperDescriptor>>(s, q2), |jumpers: Option<Seq<SpecJumperDescriptor>>, q3: int|
                bind(spec_optional::<Vec<PadstackDescriptor>>(s, q3), |padstacks: Option<Seq<SpecPadstackDescriptor>>, q4: int|
                match spec_close(s, q4) {
                    None => SpecOutcome::Failed,
                    Some(q) => SpecOutcome::Parsed(SpecLibraryDescriptor { unit, images, jumpers, padstacks }, q),
                })))),
        }
    }

    fn parse_at(s: &Vec<char>, p: usize) -> (r: Outcome<LibraryDescriptor>) {
        let q0 = match parse_open(s, p, "library") {
            Some(q) => q,
            None => return Outcome::Failed,
        };
        let (v_unit, q1) = match parse_optional::<pcb::UnitDescriptor>(s, q0) {
            Outcome::Parsed(v, q) => (v, q),
            Outcome::Failed => return Outcome::Failed,
            Outcome::Aborted => return Outcome::Aborted,
        };
        let (v_images, q2) = match parse_padded::<Vec<ImageDescriptor>>(s, q1) {
            Outcome::Parsed(v, q) => (v, q),
            Outcome::Failed => return Outcome::Failed,
            Outcome::Aborted => return Outcome::Aborted,
        };
        let (v_jumpers, q3) = match parse_optional::<Vec<JumperDescriptor>>(s, q2) {
            Outcome::Parsed(v, q) => (v, q),
            Outcome::Failed => return Outcome::Failed,
            Outcome::Aborted => return Outcome::Aborted,
        };
        let (v_padstacks, q4) = match parse_optional::<Vec<PadstackDescriptor>>(s, q3) {
            Outcome::Parsed(v, q) => (v, q),
            Outcome::Failed => return Outcome::Failed,
            Outcome::Aborted => return Outcome::Aborted,
        };
        let q5 = match parse_close(s, q4) {
            Some(q) => q,
            None => return Outcome::Failed,
        };
        Outcome::Parsed(LibraryDescriptor { unit: v_unit, images: v_images, jumpers: v_jumpers, padstacks: v_padstacks }, q5)
    }
}

/// Written `(image image_id [side] [unit] outlines* pins* [keepouts*])`.
#[derive(Debug, Clone, PartialEq)]
pub struct ImageDescriptor {
    pub image_id: atoms::Id,
    pub side: Option<Side>,
    pub unit: Option<pcb::UnitDescriptor>,
    pub outlines: Vec<OutlineDescriptor>,
    pub pins: Vec<PinDescriptor>,
    pub keepouts: Option<Vec<KeepoutDescriptor>>,
}

pub struct SpecImageDescriptor {
    pub image_id: Seq<char>,
    pub side: Option<Side>,
    pub unit: Option<pcb::UnitDescriptor>,
    pub outlines: Seq<SpecOutlineDescriptor>,
    pub pins: Seq<SpecPinDescriptor>,
    pub keepouts: Option<Seq<SpecKeepoutDescriptor>>,
}

impl DeepView for ImageDescriptor {
    type V = SpecImageDescriptor;

    open spec fn deep_view(&self) -> SpecImageDescriptor {
        SpecImageDescriptor { image_id: self.image_id.deep_view(), side: self.side.deep_view(), unit: self.unit.deep_view(), outlines: self.outlines.deep_view(), pins: self.pins.deep_view(), keepouts: self.keepouts.deep_view() }
    }
}

impl Parsable for ImageDescriptor {
    open spec fn spec_parse(s: Seq<char>, p: int) -> SpecOutcome<SpecImageDescriptor> {
        match spec_open(s, p, "image"@) {
            None => SpecOutcome::Failed,
            Some(q0) => bind(spec_padded::<atoms::Id>(s, q0), |image_id: Seq<char>, q1: int|
                bind(spec_optional::<Side>(s, q1), |side: Option<Side>, q2: int|
                bind(spec_optional::<pcb::UnitDescriptor>(s, q2), |unit: Option<pcb::UnitDescriptor>, q3: int|
                bind(spec_padded::<Vec<OutlineDescriptor>>(s, q3), |outlines: Seq<SpecOutlineDescriptor>, q4: int|
                bind(spec_padded::<Vec<PinDescriptor>>(s, q4), |pins: Seq<SpecPinDescriptor>, q5: int|
                bind(spec_optional::<Vec<KeepoutDescriptor>>(s, q5), |keepouts: Option<Seq<SpecKeepoutDescriptor>>, q6: int|
                match spec_close(s, q6) {
                    None => SpecOutcome::Failed,
                    Some(q) => SpecOutcome::Parsed(SpecImageDescriptor { image_id, side, unit, outlines, pins, keepouts }, q),
                })))))),
        }
    }

    fn parse_at(s: &Vec<char>, p: usize) -> (r: Outcome<ImageDescriptor>) {
        let q0 = match parse_open(s, p, "image") {
            Some(q) => q,
            None => return Outcome::Failed,
        };
        let (v_image_id, q1) = match parse_padded::<atoms::Id>(s, q0) {
            Outcome::Parsed(v, q) => (v, q),
            Outcome::Failed => return Outcome::Failed,
            Outcome::Aborted => return Outcome::Aborted,
        };
        let (v_side, q2) = match parse_optional::<Side>(s, q1) {
            Outcome::Parsed(v, q) => (v, q),
            Outcome::Failed => return Outcome::Failed,
            Outcome::Aborted => return Outcome::Aborted,
        };
        let (v_unit, q3) = match parse_optional::<pcb::UnitDescriptor>(s, q2) {
            Outcome::Parsed(v, q) => (v, q),
            Outcome::Failed => return Outcome::Failed,
            Outcome::Aborted => return Outcome::Aborted,
        };
        let (v_outlines, q4) = match parse_padded::<Vec<OutlineDescriptor>>(s, q3) {
            Outcome::Parsed(v, q) => (v, q),
            Outcome::Failed => return Outcome::Failed,
            Outcome::Aborted => return Outcome::Aborted,
        };
        let (v_pins, q5) = match parse_padded::<Vec<PinDescriptor>>(s, q4) {
            Outcome::Parsed(v, q) => (v, q),
            Outcome::Failed => return Outcome::Failed,
            Outcome::Aborted => return Outcome::Aborted,
        };
        let (v_keepouts, q6) = match parse_optional::<Vec<KeepoutDescriptor>>(s, q5) {
            Outcome::Parsed(v, q) => (v, q),
            Outcome::Failed => return Outcome::Failed,
            Outcome::Aborted => return Outcome::Aborted,
        };
        let q7 = match parse_close(s, q6) {
            Some(q) => q,
            None => return Outcome::Failed,
        };
        Outcome::Parsed(ImageDescriptor { image_id: v_image_id, side: v_side, unit: v_unit, outlines: v_outlines, pins: v_pins, keepouts: v_keepouts }, q7)
    }
}

/// One of, tried in this order:
/// - `Front`: `front`
/// - `Back`: `back`
/// - `Both`: `both`
#[derive(Debug, Clone, Copy, PartialEq)]
pub enum Side {
    Front,
    Back,
    Both,
}

impl DeepView for Side {
    type V = Side;

    open spec fn deep_view(&self) -> Side {
        *self
    }
}

pub open spec fn spec_side_front(s: Seq<char>, p: int) -> SpecOutcome<Side> {
    match spec_keyword_item(s, p, "front"@) {
        None => SpecOutcome::Failed,
        Some(q) => SpecOutcome::Parsed(Side::Front, q),
    }
}

fn parse_side_front(s: &Vec<char>, p: usize) -> (r: Outcome<Side>)
    requires
        p <= s.len(),
    ensures
        r@ == spec_side_front(s@, p as int),
        r.within(p as int, s.len() as int),
{
    let q0 = match parse_keyword_item(s, p, "front") {
        Some(q) => q,
        None => return Outcome::Failed,
    };
    Outcome::Parsed(Side::Front, q0)
}

pub open spec fn spec_side_back(s: Seq<char>, p: int) -> SpecOutcome<Side> {
    match spec_keyword_item(s, p, "back"@) {
        None => SpecOutcome::Failed,
        Some(q) => SpecOutcome::Parsed(Side::Back, q),
    }
}

fn parse_side_back(s: &Vec<char>, p: usize) -> (r: Outcome<Side>)
    requires
        p <= s.len(),
    ensures
        r@ == spec_side_back(s@, p as int),
        r.within(p as int, s.len() as int),
{
    let q0 = match parse_keyword_item(s, p, "back") {
        Some(q) => q,
        None => return Outcome::Failed,
    };
    Outcome::Parsed(Side::Back, q0)
}

pub open spec fn spec_side_both(s: Seq<char>, p: int) -> SpecOutcome<Side> {
    match spec_keyword_item(s, p, "both"@) {
        None => SpecOutcome::Failed,
        Some(q) => SpecOutcome::Parsed(Side::Both, q),
    }
}

fn parse_side_both(s: &Vec<char>, p: usize) -> (r: Outcome<Side>)
    requires
        p <= s.len(),
    ensures
        r@ == spec_side_both(s@, p as int),
        r.within(p as int, s.len() as int),
{
    let q0 = match parse_keyword_item(s, p, "both") {
        Some(q) => q,
        None => return Outcome::Failed,
    };
    Outcome::Parsed(Side::Both, q0)
}

impl Parsable for Side {
    open spec fn spec_parse(s: Seq<char>, p: int) -> SpecOutcome<Side> {
        match spec_side_front(s, p) {
            SpecOutcome::Failed => match spec_side_back(s, p) {
                SpecOutcome::Failed => spec_side_both(s, p),
                o => o,
            },
            o => o,
        }
    }

    fn parse_at(s: &Vec<char>, p: usize) -> (r: Outcome<Side>) {
        match parse_side_front(s, p) {
            Outcome::Failed => {},
            o => return o,
        }
        match parse_side_back(s, p) {
            Outcome::Failed => {},
            o => return o,
        }
        parse_side_both(s, p)
    }
}

/// Written `( keepout_type id [(sequence_number sequence_number)] shape [(rule rule)] [(place_rule place_rule)] [windows*])`.
#[derive(Debug, Clone, PartialEq)]
pub struct KeepoutDescriptor {
    pub keepout_type: KeepoutType,
    pub id: atoms::Id,
    pub sequence_number: Option<numeric::PositiveInteger>,
    pub shape: shapes::ShapeDescriptor,
    pub rule: Option<structure::ClearanceDescriptor>,
    pub place_rule: Option<SpacingDescriptor>,
    pub windows: Option<Vec<WindowDescriptor>>,
}

pub struct SpecKeepoutDescriptor {
    pub keepout_type: KeepoutType,
    pub id: Seq<char>,
    pub sequence_number: Option<numeric::PositiveInteger>,
    pub shape: shapes::SpecShapeDescriptor,
    pub rule: Option<structure::SpecClearanceDescriptor>,
    pub place_rule: Option<SpacingDescriptor>,
    pub windows: Option<Seq<SpecWindowDescriptor>>,
}

impl DeepView for KeepoutDescriptor {
    type V = SpecKeepoutDescriptor;

    open spec fn deep_view(&self) -> SpecKeepoutDescriptor {
        SpecKeepoutDescriptor { keepout_type: self.keepout_type.deep_view(), id: self.id.deep_view(), sequence_number: self.sequence_number.deep_view(), shape: self.shape.deep_view(), rule: self.rule.deep_view(), place_rule: self.place_rule.deep_view(), windows: self.windows.deep_view() }
    }
}

impl Parsable for KeepoutDescriptor {
    open spec fn spec_parse(s: Seq<char>, p: int) -> SpecOutcome<SpecKeepoutDescriptor> {
        match spec_open(s, p, ""@) {
            None => SpecOutcome::Failed,
            Some(q0) => bind(spec_padded::<KeepoutType>(s, q0), |keepout_type: KeepoutType, q1: int|
                bind(spec_padded::<atoms::Id>(s, q1), |id: Seq<char>, q2: int|
                bind(spec_optional_named::<numeric::PositiveInteger>(s, q2, "sequence_number"@), |sequence_number: Option<numeric::PositiveInteger>, q3: int|
                bind(spec_padded::<shapes::ShapeDescriptor>(s, q3), |shape: shapes::SpecShapeDescriptor, q4: int|
                bind(spec_optional_named::<structure::ClearanceDescriptor>(s, q4, "rule"@), |rule: Option<structure::SpecClearanceDescriptor>, q5: int|
                bind(spec_optional_named::<SpacingDescriptor>(s, q5, "place_rule"@), |place_rule: Option<SpacingDescriptor>, q6: int|
                bind(spec_optional::<Vec<WindowDescriptor>>(s, q6), |windows: Option<Seq<SpecWindowDescriptor>>, q7: int|
                match spec_close(s, q7) {
                    None => SpecOutcome::Failed,
                    Some(q) => SpecOutcome::Parsed(SpecKeepoutDescriptor { keepout_type, id, sequence_number, shape, rule, place_rule, windows }, q),
                }))))))),
        }
    }

    fn parse_at(s: &Vec<char>, p: usize) -> (r: Outcome<KeepoutDescriptor>) {
        let q0 = match parse_open(s, p, "") {
            Some(q) => q,
            None => return Outcome::Failed,
        };
        let (v_keepout_type, q1) = match parse_padded::<KeepoutType>(s, q0) {
            Outcome::Parsed(v, q) => (v, q),
            Outcome::Failed => return Outcome::Failed,
            Outcome::Aborted => return Outcome::Aborted,
        };
        let (v_id, q2) = match parse_padded::<atoms::Id>(s, q1) {
            Outcome::Parsed(v, q) => (v, q),
            Outcome::Failed => return Outcome::Failed,
            Outcome::Aborted => return Outcome::Aborted,
        };
        let (v_sequence_number, q3) = match parse_optional_named::<numeric::PositiveInteger>(s, q2, "sequence_number") {
            Outcome::Parsed(v, q) => (v, q),
            Outcome::Failed => return Outcome::Failed,
            Outcome::Aborted => return Outcome::Aborted,
        };
        let (v_shape, q4) = match parse_padded::<shapes::ShapeDescriptor>(s, q3) {
            Outcome::Parsed(v, q) => (v, q),
            Outcome::Failed => return Outcome::Failed,
            Outcome::Aborted => return Outcome::Aborted,
        };
        let (v_rule, q5) = match parse_optional_named::<structure::ClearanceDescriptor>(s, q4, "rule") {
            Outcome::Parsed(v, q) => (v, q),
            Outcome::Failed => return Outcome::Failed,
            Outcome::Aborted => return Outcome::Aborted,
        };
        let (v_place_rule, q6) = match parse_optional_named::<SpacingDescriptor>(s, q5, "place_rule") {
            Outcome::Parsed(v, q) => (v, q),
            Outcome::Failed => return Outcome::Failed,
            Outcome::Aborted => return Outcome::Aborted,
        };
        let (v_windows, q7) = match parse_optional::<Vec<WindowDescriptor>>(s, q6) {
            Outcome::Parsed(v, q) => (v, q),
            Outcome::Failed => return Outcome::Failed,
            Outcome::Aborted => return Outcome::Aborted,
        };
        let q8 = match parse_close(s, q7) {
            Some(q) => q,
            None => return Outcome::Failed,
        };
        Outcome::Parsed(KeepoutDescriptor { keepout_type: v_keepout_type, id: v_id, sequence_number: v_sequence_number, shape: v_shape, rule: v_rule, place_rule: v_place_rule, windows: v_windows }, q8)
    }
}

/// One of, tried in this order:
/// - `Keepout`: `keepout`
/// - `PlaceKeepout`: `place_keepout`
/// - `ViaKeepout`: `via_keepout`
/// - `WireKeepout`: `wire_keepout`
/// - `BendKeepout`: `bend_keepout`
/// - `ElongateKeepout`: `elongate_keepout`
#[derive(Debug, Clone, Copy, PartialEq)]
pub enum KeepoutType {
    Keepout,
    PlaceKeepout,
    ViaKeepout,
    WireKeepout,
    BendKeepout,
    ElongateKeepout,
}

impl DeepView for KeepoutType {
    type V = KeepoutType;

    open spec fn deep_view(&self) -> KeepoutType {
        *self
    }
}

pub open spec fn spec_keepout_type_keepout(s: Seq<char>, p: int) -> SpecOutcome<KeepoutType> {
    match spec_keyword_item(s, p, "keepout"@) {
        None => SpecOutcome::Failed,
        Some(q) => SpecOutcome::Parsed(KeepoutType::Keepout, q),
    }
}

fn parse_keepout_type_keepout(s: &Vec<char>, p: usize) -> (r: Outcome<KeepoutType>)
    requires
        p <= s.len(),
    ensures
        r@ == spec_keepout_type_keepout(s@, p as int),
        r.within(p as int, s.len() as int),
{
    let q0 = match parse_keyword_item(s, p, "keepout") {
        Some(q) => q,
        None => return Outcome::Failed,
    };
    Outcome::Parsed(KeepoutType::Keepout, q0)
}

pub open spec fn spec_keepout_type_place_keepout(s: Seq<char>, p: int) -> SpecOutcome<KeepoutType> {
    match spec_keyword_item(s, p, "place_keepout"@) {
        None => SpecOutcome::Failed,
        Some(q) => SpecOutcome::Parsed(KeepoutType::PlaceKeepout, q),
    }
}

fn parse_keepout_type_place_keepout(s: &Vec<char>, p: usize) -> (r: Outcome<KeepoutType>)
    requires
        p <= s.len(),
    ensures
        r@ == spec_keepout_type_place_keepout(s@, p as int),
        r.within(p as int, s.len() as int),
{
    let q0 = match parse_keyword_item(s, p, "place_keepout") {
        Some(q) => q,
        None => return Outcome::Failed,
    };
    Outcome::Parsed(KeepoutType::PlaceKeepout, q0)
}

pub open spec fn spec_keepout_type_via_keepout(s: Seq<char>, p: int) -> SpecOutcome<KeepoutType> {
    match spec_keyword_item(s, p, "via_keepout"@) {
        None => SpecOutcome::Failed,
        Some(q) => SpecOutcome::Parsed(KeepoutType::ViaKeepout, q),
    }
}

fn parse_keepout_type_via_keepout(s: &Vec<char>, p: usize) -> (r: Outcome<KeepoutType>)
    requires
        p <= s.len(),
    ensures
        r@ == spec_keepout_type_via_keepout(s@, p as int),
        r.within(p as int, s.len() as int),
{
    let q0 = match parse_keyword_item(s, p, "via_keepout") {
        Some(q) => q,
        None => return Outcome::Failed,
    };
    Outcome::Parsed(KeepoutType::ViaKeepout, q0)
}

pub open spec fn spec_keepout_type_wire_keepout(s: Seq<char>, p: int) -> SpecOutcome<KeepoutType> {
    match spec_keyword_item(s, p, "wire_keepout"@) {
        None => SpecOutcome::Failed,
        Some(q) => SpecOutcome::Parsed(KeepoutType::WireKeepout, q),
    }
}

fn parse_keepout_type_wire_keepout(s: &Vec<char>, p: usize) -> (r: Outcome<KeepoutType>)
    requires
        p <= s.len(),
    ensures
        r@ == spec_keepout_type_wire_keepout(s@, p as int),
        r.within(p as int, s.len() as int),
{
    let q0 = match parse_keyword_item(s, p, "wire_keepout") {
        Some(q) => q,
        None => return Outcome::Failed,
    };
    Outcome::Parsed(KeepoutType::WireKeepout, q0)
}

pub open spec fn spec_keepout_type_bend_keepout(s: Seq<char>, p: int) -> SpecOutcome<KeepoutType> {
    match spec_keyword_item(s, p, "bend_keepout"@) {
        None => SpecOutcome::Failed,
        Some(q) => SpecOutcome::Parsed(KeepoutType::BendKeepout, q),
    }
}

fn parse_keepout_type_bend_keepout(s: &Vec<char>, p: usize) -> (r: Outcome<KeepoutType>)
    requires
        p <= s.len(),
    ensures
        r@ == spec_keepout_type_bend_keepout(s@, p as int),
        r.within(p as int, s.len() as int),
{
    let q0 = match parse_keyword_item(s, p, "bend_keepout") {
        Some(q) => q,
        None => return Outcome::Failed,
    };
    Outcome::Parsed(KeepoutType::BendKeepout, q0)
}

pub open spec fn spec_keepout_type_elongate_keepout(s: Seq<char>, p: int) -> SpecOutcome<KeepoutType> {
    match spec_keyword_item(s, p, "elongate_keepout"@) {
        None => SpecOutcome::Failed,
        Some(q) => SpecOutcome::Parsed(KeepoutType::ElongateKeepout, q),
    }
}

fn parse_keepout_type_elongate_keepout(s: &Vec<char>, p: usize) -> (r: Outcome<KeepoutType>)
    requires
        p <= s.len(),
    ensures
        r@ == spec_keepout_type_elongate_keepout(s@, p as int),
        r.within(p as int, s.len() as int),
{
    let q0 = match parse_keyword_item(s, p, "elongate_keepout") {
        Some(q) => q,
        None => return Outcome::Failed,
    };
    Outcome::Parsed(KeepoutType::ElongateKeepout, q0)
}

impl Parsable for KeepoutType {
    open spec fn spec_parse(s: Seq<char>, p: int) -> SpecOutcome<KeepoutType> {
        match spec_keepout_type_keepout(s, p) {
            SpecOutcome::Failed => match spec_keepout_type_place_keepout(s, p) {
                SpecOutcome::Failed => match spec_keepout_type_via_keepout(s, p) {
                    SpecOutcome::Failed => match spec_keepout_type_wire_keepout(s, p) {
                        SpecOutcome::Failed => match spec_keepout_type_bend_keepout(s, p) {
                            SpecOutcome::Failed => spec_keepout_type_elongate_keepout(s, p),
                            o => o,
                        },
                        o => o,
                    },
                    o => o,
                },
                o => o,
            },
            o => o,
        }
    }

    fn parse_at(s: &Vec<char>, p: usize) -> (r: Outcome<KeepoutType>) {
        match parse_keepout_type_keepout(s, p) {
            Outcome::Failed => {},
            o => return o,
        }
        match parse_keepout_type_place_keepout(s, p) {
            Outcome::Failed => {},
            o => return o,
        }
        match parse_keepout_type_via_keepout(s, p) {
            Outcome::Failed => {},
            o => return o,
        }
        match parse_keepout_type_wire_keepout(s, p) {
            Outcome::Failed => {},
            o => return o,
        }
        match parse_keepout_type_bend_keepout(s, p) {
            Outcome::Failed => {},
            o => return o,
        }
        parse_keepout_type_elongate_keepout(s, p)
    }
}

/// One of, tried in this order:
/// - `PinPin`: `pin_pin`
/// - `PinSmd`: `pin_smd`
/// - `PinArea`: `pin_area`
/// - `SmdPin`: `smd_pin`
/// - `SmdSmd`: `smd_smd`
/// - `SmdArea`: `smd_area`
/// - `AreaPin`: `area_pin`
/// - `AreaSmd`: `area_smd`
/// - `AreaArea`: `area_area`
#[derive(Debug, Clone, Copy, PartialEq)]
pub enum SpacingType {
    PinPin,
    PinSmd,
    PinArea,
    SmdPin,
    SmdSmd,
    SmdArea,
    AreaPin,
    AreaSmd,
    AreaArea,
}

impl DeepView for SpacingType {
    type V = SpacingType;

    open spec fn deep_view(&self) -> SpacingType {
        *self
    }
}

pub open spec fn spec_spacing_type_pin_pin(s: Seq<char>, p: int) -> SpecOutcome<SpacingType> {
    match spec_keyword_item(s, p, "pin_pin"@) {
        None => SpecOutcome::Failed,
        Some(q) => SpecOutcome::Parsed(SpacingType::PinPin, q),
    }
}

fn parse_spacing_type_pin_pin(s: &Vec<char>, p: usize) -> (r: Outcome<SpacingType>)
    requires
        p <= s.len(),
    ensures
        r@ == spec_spacing_type_pin_pin(s@, p as int),
        r.within(p as int, s.len() as int),
{
    let q0 = match parse_keyword_item(s, p, "pin_pin") {
        Some(q) => q,
        None => return Outcome::Failed,
    };
    Outcome::Parsed(SpacingType::PinPin, q0)
}

pub open spec fn spec_spacing_type_pin_smd(s: Seq<char>, p: int) -> SpecOutcome<SpacingType> {
    match spec_keyword_item(s, p, "pin_smd"@) {
        None => SpecOutcome::Failed,
        Some(q) => SpecOutcome::Parsed(SpacingType::PinSmd, q),
    }
}

fn parse_spacing_type_pin_smd(s: &Vec<char>, p: usize) -> (r: Outcome<SpacingType>)
    requires
        p <= s.len(),
    ensures
        r@ == spec_spacing_type_pin_smd(s@, p as int),
        r.within(p as int, s.len() as int),
{
    let q0 = match parse_keyword_item(s, p, "pin_smd") {
        Some(q) => q,
        None => return Outcome::Failed,
    };
    Outcome::Parsed(SpacingType::PinSmd, q0)
}

pub open spec fn spec_spacing_type_pin_area(s: Seq<char>, p: int) -> SpecOutcome<SpacingType> {
    match spec_keyword_item(s, p, "pin_area"@) {
        None => SpecOutcome::Failed,
        Some(q) => SpecOutcome::Parsed(SpacingType::PinArea, q),
    }
}

fn parse_spacing_type_pin_area(s: &Vec<char>, p: usize) -> (r: Outcome<SpacingType>)
    requires
        p <= s.len(),
    ensures
        r@ == spec_spacing_type_pin_area(s@, p as int),
        r.within(p as int, s.len() as int),
{
    let q0 = match parse_keyword_item(s, p, "pin_area") {
        Some(q) => q,
        None => return Outcome::Failed,
    };
    Outcome::Parsed(SpacingType::PinArea, q0)
}

pub open spec fn spec_spacing_type_smd_pin(s: Seq<char>, p: int) -> SpecOutcome<SpacingType> {
    match spec_keyword_item(s, p, "smd_pin"@) {
        None => SpecOutcome::Failed,
        Some(q) => SpecOutcome::Parsed(SpacingType::SmdPin, q),
    }
}

fn parse_spacing_type_smd_pin(s: &Vec<char>, p: usize) -> (r: Outcome<SpacingType>)
    requires
        p <= s.len(),
    ensures
        r@ == spec_spacing_type_smd_pin(s@, p as int),
        r.within(p as int, s.len() as int),
{
    let q0 = match parse_keyword_item(s, p, "smd_pin") {
        Some(q) => q,
        None => return Outcome::Failed,
    };
    Outcome::Parsed(SpacingType::SmdPin, q0)
}

pub open spec fn spec_spacing_type_smd_smd(s: Seq<char>, p: int) -> SpecOutcome<SpacingType> {
    match spec_keyword_item(s, p, "smd_smd"@) {
        None => SpecOutcome::Failed,
        Some(q) => SpecOutcome::Parsed(SpacingType::SmdSmd, q),
    }
}

fn parse_spacing_type_smd_smd(s: &Vec<char>, p: usize) -> (r: Outcome<SpacingType>)
    requires
        p <= s.len(),
    ensures
        r@ == spec_spacing_type_smd_smd(s@, p as int),
        r.within(p as int, s.len() as int),
{
    let q0 = match parse_keyword_item(s, p, "smd_smd") {
        Some(q) => q,
        None => return Outcome::Failed,
    };
    Outcome::Parsed(SpacingType::SmdSmd, q0)
}

pub open spec fn spec_spacing_type_smd_area(s: Seq<char>, p: int) -> SpecOutcome<SpacingType> {
    match spec_keyword_item(s, p, "smd_area"@) {
        None => SpecOutcome::Failed,
        Some(q) => SpecOutcome::Parsed(SpacingType::SmdArea, q),
    }
}

fn parse_spacing_type_smd_area(s: &Vec<char>, p: usize) -> (r: Outcome<SpacingType>)
    requires
        p <= s.len(),
    ensures
        r@ == spec_spacing_type_smd_area(s@, p as int),
        r.within(p as int, s.len() as int),
{
    let q0 = match parse_keyword_item(s, p, "smd_area") {
        Some(q) => q,
        None => return Outcome::Failed,
    };
    Outcome::Parsed(SpacingType::SmdArea, q0)
}

pub open spec fn spec_spacing_type_area_pin(s: Seq<char>, p: int) -> SpecOutcome<SpacingType> {
    match spec_keyword_item(s, p, "area_pin"@) {
        None => SpecOutcome::Failed,
        Some(q) => SpecOutcome::Parsed(SpacingType::AreaPin, q),
    }
}

fn parse_spacing_type_area_pin(s: &Vec<char>, p: usize) -> (r: Outcome<SpacingType>)
    requires
        p <= s.len(),
    ensures
        r@ == spec_spacing_type_area_pin(s@, p as int),
        r.within(p as int, s.len() as int),
{
    let q0 = match parse_keyword_item(s, p, "area_pin") {
        Some(q) => q,
        None => return Outcome::Failed,
    };
    Outcome::Parsed(SpacingType::AreaPin, q0)
}

pub open spec fn spec_spacing_type_area_smd(s: Seq<char>, p: int) -> SpecOutcome<SpacingType> {
    match spec_keyword_item(s, p, "area_smd"@) {
        None => SpecOutcome::Failed,
        Some(q) => SpecOutcome::Parsed(SpacingType::AreaSmd, q),
    }
}

fn parse_spacing_type_area_smd(s: &Vec<char>, p: usize) -> (r: Outcome<SpacingType>)
    requires
        p <= s.len(),
    ensures
        r@ == spec_spacing_type_area_smd(s@, p as int),
        r.within(p as int, s.len() as int),
{
    let q0 = match parse_keyword_item(s, p, "area_smd") {
        Some(q) => q,
        None => return Outcome::Failed,
    };
    Outcome::Parsed(SpacingType::AreaSmd, q0)
}

pub open spec fn spec_spacing_type_area_area(s: Seq<char>, p: int) -> SpecOutcome<SpacingType> {
    match spec_keyword_item(s, p, "area_area"@) {
        None => SpecOutcome::Failed,
        Some(q) => SpecOutcome::Parsed(SpacingType::AreaArea, q),
    }
}

fn parse_spacing_type_area_area(s: &Vec<char>, p: usize) -> (r: Outcome<SpacingType>)
    requires
        p <= s.len(),
    ensures
        r@ == spec_spacing_type_area_area(s@, p as int),
        r.within(p as int, s.len() as int),
{
    let q0 = match parse_keyword_item(s, p, "area_area") {
        Some(q) => q,
        None => return Outcome::Failed,
    };
    Outcome::Parsed(SpacingType::AreaArea, q0)
}

impl Parsable for SpacingType {
    open spec fn spec_parse(s: Seq<char>, p: int) -> SpecOutcome<SpacingType> {
        match spec_spacing_type_pin_pin(s, p) {
            SpecOutcome::Failed => match spec_spacing_type_pin_smd(s, p) {
                SpecOutcome::Failed => match spec_spacing_type_pin_area(s, p) {
                    SpecOutcome::Failed => match spec_spacing_type_smd_pin(s, p) {
                        SpecOutcome::Failed => match spec_spacing_type_smd_smd(s, p) {
                            SpecOutcome::Failed => match spec_spacing_type_smd_area(s, p) {
                                SpecOutcome::Failed => match spec_spacing_type_area_pin(s, p) {
                                    SpecOutcome::Failed => match spec_spacing_type_area_smd(s, p) {
                                        SpecOutcome::Failed => spec_spacing_type_area_area(s, p),
                                        o => o,
                                    },
                                    o => o,
                                },
                                o => o,
                            },
                            o => o,
                        },
                        o => o,
                    },
                    o => o,
                },
                o => o,
            },
            o => o,
        }
    }

    fn parse_at(s: &Vec<char>, p: usize) -> (r: Outcome<SpacingType>) {
        match parse_spacing_type_pin_pin(s, p) {
            Outcome::Failed => {},
            o => return o,
        }
        match parse_spacing_type_pin_smd(s, p) {
            Outcome::Failed => {},
            o => return o,
        }
        match parse_spacing_type_pin_area(s, p) {
            Outcome::Failed => {},
            o => return o,
        }
        match parse_spacing_type_smd_pin(s, p) {
            Outcome::Failed => {},
            o => return o,
        }
        match parse_spacing_type_smd_smd(s, p) {
            Outcome::Failed => {},
            o => return o,
        }
        match parse_spacing_type_smd_area(s, p) {
            Outcome::Failed => {},
            o => return o,
        }
        match parse_spacing_type_area_pin(s, p) {
            Outcome::Failed => {},
            o => return o,
        }
        match parse_spacing_type_area_smd(s, p) {
            Outcome::Failed => {},
            o => return o,
        }
        parse_spacing_type_area_area(s, p)
    }
}

/// Written `(spacing value (spacing_type spacing_type) [side])`.
#[derive(Debug, Clone, Copy, PartialEq)]
pub struct SpacingDescriptor {
    pub value: numeric::Number,
    pub spacing_type: SpacingType,
    pub side: Option<placement::Side>,
}

impl DeepView for SpacingDescriptor {
    type V = SpacingDescriptor;

    open spec fn deep_view(&self) -> SpacingDescriptor {
        *self
    }
}

impl Parsable for SpacingDescriptor {
    open spec fn spec_parse(s: Seq<char>, p: int) -> SpecOutcome<SpacingDescriptor> {
        match spec_open(s, p, "spacing"@) {
            None => SpecOutcome::Failed,
            Some(q0) => bind(spec_padded::<numeric::Number>(s, q0), |value: numeric::Number, q1: int|
                bind(spec_named::<SpacingType>(s, q1, "spacing_type"@), |spacing_type: SpacingType, q2: int|
                bind(spec_optional::<placement::Side>(s, q2), |side: Option<placement::Side>, q3: int|
                match spec_close(s, q3) {
                    None => SpecOutcome::Failed,
                    Some(q) => SpecOutcome::Parsed(SpacingDescriptor { value, spacing_type, side }, q),
                }))),
        }
    }

    fn parse_at(s: &Vec<char>, p: usize) -> (r: Outcome<SpacingDescriptor>) {
        let q0 = match parse_open(s, p, "spacing") {
            Some(q) => q,
            None => return Outcome::Failed,
        };
        let (v_value, q1) = match parse_padded::<numeric::Number>(s, q0) {
            Outcome::Parsed(v, q) => (v, q),
            Outcome::Failed => return Outcome::Failed,
            Outcome::Aborted => return Outcome::Aborted,
        };
        let (v_spacing_type, q2) = match parse_named::<SpacingType>(s, q1, "spacing_type") {
            Outcome::Parsed(v, q) => (v, q),
            Outcome::Failed => return Outcome::Failed,
            Outcome::Aborted => return Outcome::Aborted,
        };
        let (v_side, q3) = match parse_optional::<placement::Side>(s, q2) {
            Outcome::Parsed(v, q) => (v, q),
            Outcome::Failed => return Outcome::Failed,
            Outcome::Aborted => return Outcome::Aborted,
        };
        let q4 = match parse_close(s, q3) {
            Some(q) => q,
            None => return Outcome::Failed,
        };
        Outcome::Parsed(SpacingDescriptor { value: v_value, spacing_type: v_spacing_type, side: v_side }, q4)
    }
}

/// Written `(outline shape)`.
#[derive(Debug, Clone, PartialEq)]
pub struct OutlineDescriptor {
    pub shape: shapes::ShapeDescriptor,
}

pub struct SpecOutlineDescriptor {
    pub shape: shapes::SpecShapeDescriptor,
}

impl DeepView for OutlineDescriptor {
    type V = SpecOutlineDescriptor;

    open spec fn deep_view(&self) -> SpecOutlineDescriptor {
        SpecOutlineDescriptor { shape: self.shape.deep_view() }
    }
}

impl Parsable for OutlineDescriptor {
    open spec fn spec_parse(s: Seq<char>, p: int) -> SpecOutcome<SpecOutlineDescriptor> {
        match spec_open(s, p, "outline"@) {
            None => SpecOutcome::Failed,
            Some(q0) => bind(spec_padded::<shapes::ShapeDescriptor>(s, q0), |shape: shapes::SpecShapeDescriptor, q1: int|
                match spec_close(s, q1) {
                    None => SpecOutcome::Failed,
                    Some(q) => SpecOutcome::Parsed(SpecOutlineDescriptor { shape }, q),
                }),
        }
    }

    fn parse_at(s: &Vec<char>, p: usize) -> (r: Outcome<OutlineDescriptor>) {
        let q0 = match parse_open(s, p, "outline") {
            Some(q) => q,
            None => return Outcome::Failed,
        };
        let (v_shape, q1) = match parse_padded::<shapes::ShapeDescriptor>(s, q0) {
            Outcome::Parsed(v, q) => (v, q),
            Outcome::Failed => return Outcome::Failed,
            Outcome::Aborted => return Outcome::Aborted,
        };
        let q2 = match parse_close(s, q1) {
            Some(q) => q,
            None => return Outcome::Failed,
        };
        Outcome::Parsed(OutlineDescriptor { shape: v_shape }, q2)
    }
}

/// Written `(pin padstack_id [(rotate rotate)] reference [property])`.
#[derive(Debug, Clone, PartialEq)]
pub struct PinDescriptor {
    pub padstack_id: structure::PadstackId,
    pub rotate: Option<numeric::Number>,
    pub reference: PinRefDescriptor,
    pub property: Option<structure::UserPropertyDescriptor>,
}

pub struct SpecPinDescriptor {
    pub padstack_id: Seq<char>,
    pub rotate: Option<numeric::Number>,
    pub reference: SpecPinRefDescriptor,
    pub property: Option<structure::SpecUserPropertyDescriptor>,
}

impl DeepView for PinDescriptor {
    type V = SpecPinDescriptor;

    open spec fn deep_view(&self) -> SpecPinDescriptor {
        SpecPinDescriptor { padstack_id: self.padstack_id.deep_view(), rotate: self.rotate.deep_view(), reference: self.reference.deep_view(), property: self.property.deep_view() }
    }
}

impl Parsable for PinDescriptor {
    open spec fn spec_parse(s: Seq<char>, p: int) -> SpecOutcome<SpecPinDescriptor> {
        match spec_open(s, p, "pin"@) {
            None => SpecOutcome::Failed,
            Some(q0) => bind(spec_padded::<structure::PadstackId>(s, q0), |padstack_id: Seq<char>, q1: int|
                bind(spec_optional_named::<numeric::Number>(s, q1, "rotate"@), |rotate: Option<numeric::Number>, q2: int|
                bind(spec_padded::<PinRefDescriptor>(s, q2), |reference: SpecPinRefDescriptor, q3: int|
                bind(spec_optional::<structure::UserPropertyDescriptor>(s, q3), |property: Option<structure::SpecUserPropertyDescriptor>, q4: int|
                match spec_close(s, q4) {
                    None => SpecOutcome::Failed,
                    Some(q) => SpecOutcome::Parsed(SpecPinDescriptor { padstack_id, rotate, reference, property }, q),
                })))),
        }
    }

    fn parse_at(s: &Vec<char>, p: usize) -> (r: Outcome<PinDescriptor>) {
        let q0 = match parse_open(s, p, "pin") {
            Some(q) => q,
            None => return Outcome::Failed,
        };
        let (v_padstack_id, q1) = match parse_padded::<structure::PadstackId>(s, q0) {
            Outcome::Parsed(v, q) => (v, q),
            Outcome::Failed => return Outcome::Failed,
            Outcome::Aborted => return Outcome::Aborted,
        };
        let (v_rotate, q2) = match parse_optional_named::<numeric::Number>(s, q1, "rotate") {
            Outcome::Parsed(v, q) => (v, q),
            Outcome::Failed => return Outcome::Failed,
            Outcome::Aborted => return Outcome::Aborted,
        };
        let (v_reference, q3) = match parse_padded::<PinRefDescriptor>(s, q2) {
            Outcome::Parsed(v, q) => (v, q),
            Outcome::Failed => return Outcome::Failed,
            Outcome::Aborted => return Outcome::Aborted,
        };
        let (v_property, q4) = match parse_optional::<structure::UserPropertyDescriptor>(s, q3) {
            Outcome::Parsed(v, q) => (v, q),
            Outcome::Failed => return Outcome::Failed,
            Outcome::Aborted => return Outcome::Aborted,
        };
        let q5 = match parse_close(s, q4) {
            Some(q) => q,
            None => return Outcome::Failed,
        };
        Outcome::Parsed(PinDescriptor { padstack_id: v_padstack_id, rotate: v_rotate, reference: v_reference, property: v_property }, q5)
    }
}

/// One of, tried in this order:
/// - `ReferenceDescriptor`: `pin_id vertex`
/// - `PinArrayDescriptor`: `(array begin_index end_index index_step x0 y0 xstep ystep [(prefix pin_prefix_id)] [(suffix pin_suffix_id)])`
#[derive(Debug, Clone, PartialEq)]
pub enum PinRefDescriptor {
    ReferenceDescriptor { pin_id: atoms::Id, vertex: shapes::Vertex },
    PinArrayDescriptor { begin_index: numeric::PositiveInteger, end_index: numeric::PositiveInteger, index_step: numeric::PositiveInteger, x0: numeric::Number, y0: numeric::Number, xstep: numeric::Number, ystep: numeric::Number, pin_prefix_id: Option<atoms::Id>, pin_suffix_id: Option<atoms::Id> },
}

pub enum SpecPinRefDescriptor {
    ReferenceDescriptor { pin_id: Seq<char>, vertex: shapes::Vertex },
    PinArrayDescriptor { begin_index: numeric::PositiveInteger, end_index: numeric::PositiveInteger, index_step: numeric::PositiveInteger, x0: numeric::Number, y0: numeric::Number, xstep: numeric::Number, ystep: numeric::Number, pin_prefix_id: Option<Seq<char>>, pin_suffix_id: Option<Seq<char>> },
}

impl DeepView for PinRefDescriptor {
    type V = SpecPinRefDescriptor;

    open spec fn deep_view(&self) -> SpecPinRefDescriptor {
        match self {
            PinRefDescriptor::ReferenceDescriptor { pin_id: v_pin_id, vertex: v_vertex } => SpecPinRefDescriptor::ReferenceDescriptor { pin_id: v_pin_id.deep_view(), vertex: v_vertex.deep_view() },
            PinRefDescriptor::PinArrayDescriptor { begin_index: v_begin_index, end_index: v_end_index, index_step: v_index_step, x0: v_x0, y0: v_y0, xstep: v_xstep, ystep: v_ystep, pin_prefix_id: v_pin_prefix_id, pin_suffix_id: v_pin_suffix_id } => SpecPinRefDescriptor::PinArrayDescriptor { begin_index: v_begin_index.deep_view(), end_index: v_end_index.deep_view(), index_step: v_index_step.deep_view(), x0: v_x0.deep_view(), y0: v_y0.deep_view(), xstep: v_xstep.deep_view(), ystep: v_ystep.deep_view(), pin_prefix_id: v_pin_prefix_id.deep_view(), pin_suffix_id: v_pin_suffix_id.deep_view() },
        }
    }
}

pub open spec fn spec_pin_ref_descriptor_reference_descriptor(s: Seq<char>, p: int) -> SpecOutcome<SpecPinRefDescriptor> {
    bind(spec_padded::<atoms::Id>(s, ws_end(s, p)), |pin_id: Seq<char>, q1: int|
    bind(spec_padded::<shapes::Vertex>(s, q1), |vertex: shapes::Vertex, q2: int|
    SpecOutcome::Parsed(SpecPinRefDescriptor::ReferenceDescriptor { pin_id, vertex }, ws_end(s, q2))))
}

fn parse_pin_ref_descriptor_reference_descriptor(s: &Vec<char>, p: usize) -> (r: Outcome<PinRefDescriptor>)
    requires
        p <= s.len(),
    ensures
        r@ == spec_pin_ref_descriptor_reference_descriptor(s@, p as int),
        r.within(p as int, s.len() as int),
{
    let q0 = skip_ws(s, p);
    let (v_pin_id, q1) = match parse_padded::<atoms::Id>(s, q0) {
        Outcome::Parsed(v, q) => (v, q),
        Outcome::Failed => return Outcome::Failed,
        Outcome::Aborted => return Outcome::Aborted,
    };
    let (v_vertex, q2) = match parse_padded::<shapes::Vertex>(s, q1) {
        Outcome::Parsed(v, q) => (v, q),
        Outcome::Failed => return Outcome::Failed,
        Outcome::Aborted => return Outcome::Aborted,
    };
    let q3 = skip_ws(s, q2);
    Outcome::Parsed(PinRefDescriptor::ReferenceDescriptor { pin_id: v_pin_id, vertex: v_vertex }, q3)
}

pub open spec fn spec_pin_ref_descriptor_pin_array_descriptor(s: Seq<char>, p: int) -> SpecOutcome<SpecPinRefDescriptor> {
    match spec_open(s, p, "array"@) {
        None => SpecOutcome::Failed,
        Some(q0) => bind(spec_padded::<numeric::PositiveInteger>(s, q0), |begin_index: numeric::PositiveInteger, q1: int|
            bind(spec_padded::<numeric::PositiveInteger>(s, q1), |end_index: numeric::PositiveInteger, q2: int|
            bind(spec_padded::<numeric::PositiveInteger>(s, q2), |index_step: numeric::PositiveInteger, q3: int|
            bind(spec_padded::<numeric::Number>(s, q3), |x0: numeric::Number, q4: int|
            bind(spec_padded::<numeric::Number>(s, q4), |y0: numeric::Number, q5: int|
            bind(spec_padded::<numeric::Number>(s, q5), |xstep: numeric::Number, q6: int|
            bind(spec_padded::<numeric::Number>(s, q6), |ystep: numeric::Number, q7: int|
            bind(spec_optional_named::<atoms::Id>(s, q7, "prefix"@), |pin_prefix_id: Option<Seq<char>>, q8: int|
            bind(spec_optional_named::<atoms::Id>(s, q8, "suffix"@), |pin_suffix_id: Option<Seq<char>>, q9: int|
            match spec_close(s, q9) {
                None => SpecOutcome::Failed,
                Some(q) => SpecOutcome::Parsed(SpecPinRefDescriptor::PinArrayDescriptor { begin_index, end_index, index_step, x0, y0, xstep, ystep, pin_prefix_id, pin_suffix_id }, q),
            }))))))))),
    }
}

fn parse_pin_ref_descriptor_pin_array_descriptor(s: &Vec<char>, p: usize) -> (r: Outcome<PinRefDescriptor>)
    requires
        p <= s.len(),
    ensures
        r@ == spec_pin_ref_descriptor_pin_array_descriptor(s@, p as int),
        r.within(p as int, s.len() as int),
{
    let q0 = match parse_open(s, p, "array") {
        Some(q) => q,
        None => return Outcome::Failed,
    };
    let (v_begin_index, q1) = match parse_padded::<numeric::PositiveInteger>(s, q0) {
        Outcome::Parsed(v, q) => (v, q),
        Outcome::Failed => return Outcome::Failed,
        Outcome::Aborted => return Outcome::Aborted,
    };
    let (v_end_index, q2) = match parse_padded::<numeric::PositiveInteger>(s, q1) {
        Outcome::Parsed(v, q) => (v, q),
        Outcome::Failed => return Outcome::Failed,
        Outcome::Aborted => return Outcome::Aborted,
    };
    let (v_index_step, q3) = match parse_padded::<numeric::PositiveInteger>(s, q2) {
        Outcome::Parsed(v, q) => (v, q),
        Outcome::Failed => return Outcome::Failed,
        Outcome::Aborted => return Outcome::Aborted,
    };
    let (v_x0, q4) = match parse_padded::<numeric::Number>(s, q3) {
        Outcome::Parsed(v, q) => (v, q),
        Outcome::Failed => return Outcome::Failed,
        Outcome::Aborted => return Outcome::Aborted,
    };
    let (v_y0, q5) = match parse_padded::<numeric::Number>(s, q4) {
        Outcome::Parsed(v, q) => (v, q),
        Outcome::Failed => return Outcome::Failed,
        Outcome::Aborted => return Outcome::Aborted,
    };
    let (v_xstep, q6) = match parse_padded::<numeric::Number>(s, q5) {
        Outcome::Parsed(v, q) => (v, q),
        Outcome::Failed => return Outcome::Failed,
        Outcome::Aborted => return Outcome::Aborted,
    };
    let (v_ystep, q7) = match parse_padded::<numeric::Number>(s, q6) {
        Outcome::Parsed(v, q) => (v, q),
        Outcome::Failed => return Outcome::Failed,
        Outcome::Aborted => return Outcome::Aborted,
    };
    let (v_pin_prefix_id, q8) = match parse_optional_named::<atoms::Id>(s, q7, "prefix") {
        Outcome::Parsed(v, q) => (v, q),
        Outcome::Failed => return Outcome::Failed,
        Outcome::Aborted => return Outcome::Aborted,
    };
    let (v_pin_suffix_id, q9) = match parse_optional_named::<atoms::Id>(s, q8, "suffix") {
        Outcome::Parsed(v, q) => (v, q),
        Outcome::Failed => return Outcome::Failed,
        Outcome::Aborted => return Outcome::Aborted,
    };
    let q10 = match parse_close(s, q9) {
        Some(q) => q,
        None => return Outcome::Failed,
    };
    Outcome::Parsed(PinRefDescriptor::PinArrayDescriptor { begin_index: v_begin_index, end_index: v_end_index, index_step: v_index_step, x0: v_x0, y0: v_y0, xstep: v_xstep, ystep: v_ystep, pin_prefix_id: v_pin_prefix_id, pin_suffix_id: v_pin_suffix_id }, q10)
}

impl Parsable for PinRefDescriptor {
    open spec fn spec_parse(s: Seq<char>, p: int) -> SpecOutcome<SpecPinRefDescriptor> {
        match spec_pin_ref_descriptor_reference_descriptor(s, p) {
            SpecOutcome::Failed => spec_pin_ref_descriptor_pin_array_descriptor(s, p),
            o => o,
        }
    }

    fn parse_at(s: &Vec<char>, p: usize) -> (r: Outcome<PinRefDescriptor>) {
        match parse_pin_ref_descriptor_reference_descriptor(s, p) {
            Outcome::Failed => {},
            o => return o,
        }
        parse_pin_ref_descriptor_pin_array_descriptor(s, p)
    }
}

/// Written `(jumper (length length) [(use_via use_via)] [(height height)])`.
#[derive(Debug, Clone, PartialEq)]
pub struct JumperDescriptor {
    pub length: numeric::PositiveDimension,
    pub use_via: Option<structure::PadstackId>,
    pub height: Option<numeric::Number>,
}

pub struct SpecJumperDescriptor {
    pub length: numeric::PositiveDimension,
    pub use_via: Option<Seq<char>>,
    pub height: Option<numeric::Number>,
}

impl DeepView for JumperDescriptor {
    type V = SpecJumperDescriptor;

    open spec fn deep_view(&self) -> SpecJumperDescriptor {
        SpecJumperDescriptor { length: self.length.deep_view(), use_via: self.use_via.deep_view(), height: self.height.deep_view() }
    }
}

impl Parsable for JumperDescriptor {
    open spec fn spec_parse(s: Seq<char>, p: int) -> SpecOutcome<SpecJumperDescriptor> {
        match spec_open(s, p, "jumper"@) {
            None => SpecOutcome::Failed,
            Some(q0) => bind(spec_named::<numeric::PositiveDimension>(s, q0, "length"@), |length: numeric::PositiveDimension, q1: int|
                bind(spec_optional_named::<structure::PadstackId>(s, q1, "use_via"@), |use_via: Option<Seq<char>>, q2: int|
                bind(spec_optional_named::<numeric::Number>(s, q2, "height"@), |height: Option<numeric::Number>, q3: int|
                match spec_close(s, q3) {
                    None => SpecOutcome::Failed,
                    Some(q) => SpecOutcome::Parsed(SpecJumperDescriptor { length, use_via, height }, q),
                }))),
        }
    }

    fn parse_at(s: &Vec<char>, p: usize) -> (r: Outcome<JumperDescriptor>) {
        let q0 = match parse_open(s, p, "jumper") {
            Some(q) => q,
            None => return Outcome::Failed,
        };
        let (v_length, q1) = match parse_named::<numeric::PositiveDimension>(s, q0, "length") {
            Outcome::Parsed(v, q) => (v, q),
            Outcome::Failed => return Outcome::Failed,
            Outcome::Aborted => return Outcome::Aborted,
        };
        let (v_use_via, q2) = match parse_optional_named::<structure::PadstackId>(s, q1, "use_via") {
            Outcome::Parsed(v, q) => (v, q),
            Outcome::Failed => return Outcome::Failed,
            Outcome::Aborted => return Outcome::Aborted,
        };
        let (v_height, q3) = match parse_optional_named::<numeric::Number>(s, q2, "height") {
            Outcome::Parsed(v, q) => (v, q),
            Outcome::Failed => return Outcome::Failed,
            Outcome::Aborted => return Outcome::Aborted,
        };
        let q4 = match parse_close(s, q3) {
            Some(q) => q,
            None => return Outcome::Failed,
        };
        Outcome::Parsed(JumperDescriptor { length: v_length, use_via: v_use_via, height: v_height }, q4)
    }
}

/// Written `(padstack padstack_id [unit] shapes* [(attach attach)] [pad_via_sites*] [(rotate rotate)] [(absolute absolute)] [rule])`.
#[derive(Debug, Clone, PartialEq)]
pub struct PadstackDescriptor {
    pub padstack_id: structure::PadstackId,
    pub unit: Option<pcb::UnitDescriptor>,
    pub shapes: Vec<PadstackShapeDescriptor>,
    pub attach: Option<AttachDescriptor>,
    pub pad_via_sites: Option<Vec<PadViaSiteDescriptor>>,
    pub rotate: Option<atoms::Bool>,
    pub absolute: Option<atoms::Bool>,
    pub rule: Option<structure::ClearanceDescriptor>,
}

pub struct SpecPadstackDescriptor {
    pub padstack_id: Seq<char>,
    pub unit: Option<pcb::UnitDescriptor>,
    pub shapes: Seq<SpecPadstackShapeDescriptor>,
    pub attach: Option<SpecAttachDescriptor>,
    pub pad_via_sites: Option<Seq<PadViaSiteDescriptor>>,
    pub rotate: Option<atoms::Bool>,
    pub absolute: Option<atoms::Bool>,
    pub rule: Option<structure::SpecClearanceDescriptor>,
}

impl DeepView for PadstackDescriptor {
    type V = SpecPadstackDescriptor;

    open spec fn deep_view(&self) -> SpecPadstackDescriptor {
        SpecPadstackDescriptor { padstack_id: self.padstack_id.deep_view(), unit: self.unit.deep_view(), shapes: self.shapes.deep_view(), attach: self.attach.deep_view(), pad_via_sites: self.pad_via_sites.deep_view(), rotate: self.rotate.deep_view(), absolute: self.absolute.deep_view(), rule: self.rule.deep_view() }
    }
}

impl Parsable for PadstackDescriptor {
    open spec fn spec_parse(s: Seq<char>, p: int) -> SpecOutcome<SpecPadstackDescriptor> {
        match spec_open(s, p, "padstack"@) {
            None => SpecOutcome::Failed,
            Some(q0) => bind(spec_padded::<structure::PadstackId>(s, q0), |padstack_id: Seq<char>, q1: int|
                bind(spec_optional::<pcb::UnitDescriptor>(s, q1), |unit: Option<pcb::UnitDescriptor>, q2: int|
                bind(spec_padded::<Vec<PadstackShapeDescriptor>>(s, q2), |shapes: Seq<SpecPadstackShapeDescriptor>, q3: int|
                bind(spec_optional_named::<AttachDescriptor>(s, q3, "attach"@), |attach: Option<SpecAttachDescriptor>, q4: int|
                bind(spec_optional::<Vec<PadViaSiteDescriptor>>(s, q4), |pad_via_sites: Option<Seq<PadViaSiteDescriptor>>, q5: int|
                bind(spec_optional_named::<atoms::Bool>(s, q5, "rotate"@), |rotate: Option<atoms::Bool>, q6: int|
                bind(spec_optional_named::<atoms::Bool>(s, q6, "absolute"@), |absolute: Option<atoms::Bool>, q7: int|
                bind(spec_optional::<structure::ClearanceDescriptor>(s, q7), |rule: Option<structure::SpecClearanceDescriptor>, q8: int|
                match spec_close(s, q8) {
                    None => SpecOutcome::Failed,
                    Some(q) => SpecOutcome::Parsed(SpecPadstackDescriptor { padstack_id, unit, shapes, attach, pad_via_sites, rotate, absolute, rule }, q),
                })))))))),
        }
    }

    fn parse_at(s: &Vec<char>, p: usize) -> (r: Outcome<PadstackDescriptor>) {
        let q0 = match parse_open(s, p, "padstack") {
            Some(q) => q,
            None => return Outcome::Failed,
        };
        let (v_padstack_id, q1) = match parse_padded::<structure::PadstackId>(s, q0) {
            Outcome::Parsed(v, q) => (v, q),
            Outcome::Failed => return Outcome::Failed,
            Outcome::Aborted => return Outcome::Aborted,
        };
        let (v_unit, q2) = match parse_optional::<pcb::UnitDescriptor>(s, q1) {
            Outcome::Parsed(v, q) => (v, q),
            Outcome::Failed => return Outcome::Failed,
            Outcome::Aborted => return Outcome::Aborted,
        };
        let (v_shapes, q3) = match parse_padded::<Vec<PadstackShapeDescriptor>>(s, q2) {
            Outcome::Parsed(v, q) => (v, q),
            Outcome::Failed => return Outcome::Failed,
            Outcome::Aborted => return Outcome::Aborted,
        };
        let (v_attach, q4) = match parse_optional_named::<AttachDescriptor>(s, q3, "attach") {
            Outcome::Parsed(v, q) => (v, q),
            Outcome::Failed => return Outcome::Failed,
            Outcome::Aborted => return Outcome::Aborted,
        };
        let (v_pad_via_sites, q5) = match parse_optional::<Vec<PadViaSiteDescriptor>>(s, q4) {
            Outcome::Parsed(v, q) => (v, q),
            Outcome::Failed => return Outcome::Failed,
            Outcome::Aborted => return Outcome::Aborted,
        };
        let (v_rotate, q6) = match parse_optional_named::<atoms::Bool>(s, q5, "rotate") {
            Outcome::Parsed(v, q) => (v, q),
            Outcome::Failed => return Outcome::Failed,
            Outcome::Aborted => return Outcome::Aborted,
        };
        let (v_absolute, q7) = match parse_optional_named::<atoms::Bool>(s, q6, "absolute") {
            Outcome::Parsed(v, q) => (v, q),
            Outcome::Failed => return Outcome::Failed,
            Outcome::Aborted => return Outcome::Aborted,
        };
        let (v_rule, q8) = match parse_optional::<structure::ClearanceDescriptor>(s, q7) {
            Outcome::Parsed(v, q) => (v, q),
            Outcome::Failed => return Outcome::Failed,
            Outcome::Aborted => return Outcome::Aborted,
        };
        let q9 = match parse_close(s, q8) {
            Some(q) => q,
            None => return Outcome::Failed,
        };
        Outcome::Parsed(PadstackDescriptor { padstack_id: v_padstack_id, unit: v_unit, shapes: v_shapes, attach: v_attach, pad_via_sites: v_pad_via_sites, rotate: v_rotate, absolute: v_absolute, rule: v_rule }, q9)
    }
}

/// Written `(shape shape [(reduced reduced_shape)] [connect] [windows*])`.
#[derive(Debug, Clone, PartialEq)]
pub struct PadstackShapeDescriptor {
    pub shape: shapes::ShapeDescriptor,
    pub reduced_shape: Option<shapes::ShapeDescriptor>,
    pub connect: Option<atoms::Bool>,
    pub windows: Option<Vec<WindowDescriptor>>,
}

pub struct SpecPadstackShapeDescriptor {
    pub shape: shapes::SpecShapeDescriptor,
    pub reduced_shape: Option<shapes::SpecShapeDescriptor>,
    pub connect: Option<atoms::Bool>,
    pub windows: Option<Seq<SpecWindowDescriptor>>,
}

impl DeepView for PadstackShapeDescriptor {
    type V = SpecPadstackShapeDescriptor;

    open spec fn deep_view(&self) -> SpecPadstackShapeDescriptor {
        SpecPadstackShapeDescriptor { shape: self.shape.deep_view(), reduced_shape: self.reduced_shape.deep_view(), connect: self.connect.deep_view(), windows: self.windows.deep_view() }
    }
}

impl Parsable for PadstackShapeDescriptor {
    open spec fn spec_parse(s: Seq<char>, p: int) -> SpecOutcome<SpecPadstackShapeDescriptor> {
        match spec_open(s, p, "shape"@) {
            None => SpecOutcome::Failed,
            Some(q0) => bind(spec_padded::<shapes::ShapeDescriptor>(s, q0), |shape: shapes::SpecShapeDescriptor, q1: int|
                bind(spec_optional_named::<shapes::ShapeDescriptor>(s, q1, "reduced"@), |reduced_shape: Option<shapes::SpecShapeDescriptor>, q2: int|
                bind(spec_optional::<atoms::Bool>(s, q2), |connect: Option<atoms::Bool>, q3: int|
                bind(spec_optional::<Vec<WindowDescriptor>>(s, q3), |windows: Option<Seq<SpecWindowDescriptor>>, q4: int|
                match spec_close(s, q4) {
                    None => SpecOutcome::Failed,
                    Some(q) => SpecOutcome::Parsed(SpecPadstackShapeDescriptor { shape, reduced_shape, connect, windows }, q),
                })))),
        }
    }

    fn parse_at(s: &Vec<char>, p: usize) -> (r: Outcome<PadstackShapeDescriptor>) {
        let q0 = match parse_open(s, p, "shape") {
            Some(q) => q,
            None => return Outcome::Failed,
        };
        let (v_shape, q1) = match parse_padded::<shapes::ShapeDescriptor>(s, q0) {
            Outcome::Parsed(v, q) => (v, q),
            Outcome::Failed => return Outcome::Failed,
            Outcome::Aborted => return Outcome::Aborted,
        };
        let (v_reduced_shape, q2) = match parse_optional_named::<shapes::ShapeDescriptor>(s, q1, "reduced") {
            Outcome::Parsed(v, q) => (v, q),
            Outcome::Failed => return Outcome::Failed,
            Outcome::Aborted => return Outcome::Aborted,
        };
        let (v_connect, q3) = match parse_optional::<atoms::Bool>(s, q2) {
            Outcome::Parsed(v, q) => (v, q),
            Outcome::Failed => return Outcome::Failed,
            Outcome::Aborted => return Outcome::Aborted,
        };
        let (v_windows, q4) = match parse_optional::<Vec<WindowDescriptor>>(s, q3) {
            Outcome::Parsed(v, q) => (v, q),
            Outcome::Failed => return Outcome::Failed,
            Outcome::Aborted => return Outcome::Aborted,
        };
        let q5 = match parse_close(s, q4) {
            Some(q) => q,
            None => return Outcome::Failed,
        };
        Outcome::Parsed(PadstackShapeDescriptor { shape: v_shape, reduced_shape: v_reduced_shape, connect: v_connect, windows: v_windows }, q5)
    }
}

/// Written `(window shape)`.
#[derive(Debug, Clone, PartialEq)]
pub struct WindowDescriptor {
    pub shape: shapes::ShapeDescriptor,
}

pub struct SpecWindowDescriptor {
    pub shape: shapes::SpecShapeDescriptor,
}

impl DeepView for WindowDescriptor {
    type V = SpecWindowDescriptor;

    open spec fn deep_view(&self) -> SpecWindowDescriptor {
        SpecWindowDescriptor { shape: self.shape.deep_view() }
    }
}

impl Parsable for WindowDescriptor {
    open spec fn spec_parse(s: Seq<char>, p: int) -> SpecOutcome<SpecWindowDescriptor> {
        match spec_open(s, p, "window"@) {
            None => SpecOutcome::Failed,
            Some(q0) => bind(spec_padded::<shapes::ShapeDescriptor>(s, q0), |shape: shapes::SpecShapeDescriptor, q1: int|
                match spec_close(s, q1) {
                    None => SpecOutcome::Failed,
                    Some(q) => SpecOutcome::Parsed(SpecWindowDescriptor { shape }, q),
                }),
        }
    }

    fn parse_at(s: &Vec<char>, p: usize) -> (r: Outcome<WindowDescriptor>) {
        let q0 = match parse_open(s, p, "window") {
            Some(q) => q,
            None => return Outcome::Failed,
        };
        let (v_shape, q1) = match parse_padded::<shapes::ShapeDescriptor>(s, q0) {
            Outcome::Parsed(v, q) => (v, q),
            Outcome::Failed => return Outcome::Failed,
            Outcome::Aborted => return Outcome::Aborted,
        };
        let q2 = match parse_close(s, q1) {
            Some(q) => q,
            None => return Outcome::Failed,
        };
        Outcome::Parsed(WindowDescriptor { shape: v_shape }, q2)
    }
}

/// One of, tried in this order:
/// - `Off`: `off`
/// - `On`: `(on [(use_via use_via)])`
/// - `Absent`: nothing at all
#[derive(Debug, Clone, PartialEq)]
pub enum AttachDescriptor {
    Off(),
    On { use_via: Option<atoms::Id> },
    Absent(),
}

pub enum SpecAttachDescriptor {
    Off(),
    On { use_via: Option<Seq<char>> },
    Absent(),
}

impl DeepView for AttachDescriptor {
    type V = SpecAttachDescriptor;

    open spec fn deep_view(&self) -> SpecAttachDescriptor {
        match self {
            AttachDescriptor::Off() => SpecAttachDescriptor::Off(),
            AttachDescriptor::On { use_via: v_use_via } => SpecAttachDescriptor::On { use_via: v_use_via.deep_view() },
            AttachDescriptor::Absent() => SpecAttachDescriptor::Absent(),
        }
    }
}

pub open spec fn spec_attach_descriptor_off(s: Seq<char>, p: int) -> SpecOutcome<SpecAttachDescriptor> {
    match spec_keyword_item(s, p, "off"@) {
        None => SpecOutcome::Failed,
        Some(q) => SpecOutcome::Parsed(SpecAttachDescriptor::Off(), q),
    }
}

fn parse_attach_descriptor_off(s: &Vec<char>, p: usize) -> (r: Outcome<AttachDescriptor>)
    requires
        p <= s.len(),
    ensures
        r@ == spec_attach_descriptor_off(s@, p as int),
        r.within(p as int, s.len() as int),
{
    let q0 = match parse_keyword_item(s, p, "off") {
        Some(q) => q,
        None => return Outcome::Failed,
    };
    Outcome::Parsed(AttachDescriptor::Off(), q0)
}

pub open spec fn spec_attach_descriptor_on(s: Seq<char>, p: int) -> SpecOutcome<SpecAttachDescriptor> {
    match spec_open(s, p, "on"@) {
        None => SpecOutcome::Failed,
        Some(q0) => bind(spec_optional_named::<atoms::Id>(s, q0, "use_via"@), |use_via: Option<Seq<char>>, q1: int|
            match spec_close(s, q1) {
                None => SpecOutcome::Failed,
                Some(q) => SpecOutcome::Parsed(SpecAttachDescriptor::On { use_via }, q),
            }),
    }
}

fn parse_attach_descriptor_on(s: &Vec<char>, p: usize) -> (r: Outcome<AttachDescriptor>)
    requires
        p <= s.len(),
    ensures
        r@ == spec_attach_descriptor_on(s@, p as int),
        r.within(p as int, s.len() as int),
{
    let q0 = match parse_open(s, p, "on") {
        Some(q) => q,
        None => return Outcome::Failed,
    };
    let (v_use_via, q1) = match parse_optional_named::<atoms::Id>(s, q0, "use_via") {
        Outcome::Parsed(v, q) => (v, q),
        Outcome::Failed => return Outcome::Failed,
        Outcome::Aborted => return Outcome::Aborted,
    };
    let q2 = match parse_close(s, q1) {
        Some(q) => q,
        None => return Outcome::Failed,
    };
    Outcome::Parsed(AttachDescriptor::On { use_via: v_use_via }, q2)
}

pub open spec fn spec_attach_descriptor_absent(s: Seq<char>, p: int) -> SpecOutcome<SpecAttachDescriptor> {
    SpecOutcome::Parsed(SpecAttachDescriptor::Absent(), ws_end(s, ws_end(s, p)))
}

fn parse_attach_descriptor_absent(s: &Vec<char>, p: usize) -> (r: Outcome<AttachDescriptor>)
    requires
        p <= s.len(),
    ensures
        r@ == spec_attach_descriptor_absent(s@, p as int),
        r.within(p as int, s.len() as int),
{
    let q0 = skip_ws(s, p);
    let q1 = skip_ws(s, q0);
    Outcome::Parsed(AttachDescriptor::Absent(), q1)
}

impl Parsable for AttachDescriptor {
    open spec fn spec_parse(s: Seq<char>, p: int) -> SpecOutcome<SpecAttachDescriptor> {
        match spec_attach_descriptor_off(s, p) {
            SpecOutcome::Failed => match spec_attach_descriptor_on(s, p) {
                SpecOutcome::Failed => spec_attach_descriptor_absent(s, p),
                o => o,
            },
            o => o,
        }
    }

    fn parse_at(s: &Vec<char>, p: usize) -> (r: Outcome<AttachDescriptor>) {
        match parse_attach_descriptor_off(s, p) {
            Outcome::Failed => {},
            o => return o,
        }
        match parse_attach_descriptor_on(s, p) {
            Outcome::Failed => {},
            o => return o,
        }
        parse_attach_descriptor_absent(s, p)
    }
}

/// One of, tried in this order:
/// - `Vertex`: `Vertex`
/// - `Off`: `off`
#[derive(Debug, Clone, Copy, PartialEq)]
pub enum PadViaSiteDescriptor {
    Vertex(shapes::Vertex),
    Off(),
}

impl DeepView for PadViaSiteDescriptor {
    type V = PadViaSiteDescriptor;

    open spec fn deep_view(&self) -> PadViaSiteDescriptor {
        *self
    }
}

pub open spec fn spec_pad_via_site_descriptor_vertex(s: Seq<char>, p: int) -> SpecOutcome<PadViaSiteDescriptor> {
    bind(spec_padded::<shapes::Vertex>(s, ws_end(s, p)), |v0: shapes::Vertex, q1: int|
    SpecOutcome::Parsed(PadViaSiteDescriptor::Vertex(v0), ws_end(s, q1)))
}

fn parse_pad_via_site_descriptor_vertex(s: &Vec<char>, p: usize) -> (r: Outcome<PadViaSiteDescriptor>)
    requires
        p <= s.len(),
    ensures
        r@ == spec_pad_via_site_descriptor_vertex(s@, p as int),
        r.within(p as int, s.len() as int),
{
    let q0 = skip_ws(s, p);
    let (v_0, q1) = match parse_padded::<shapes::Vertex>(s, q0) {
        Outcome::Parsed(v, q) => (v, q),
        Outcome::Failed => return Outcome::Failed,
        Outcome::Aborted => return Outcome::Aborted,
    };
    let q2 = skip_ws(s, q1);
    Outcome::Parsed(PadViaSiteDescriptor::Vertex(v_0), q2)
}

pub open spec fn spec_pad_via_site_descriptor_off(s: Seq<char>, p: int) -> SpecOutcome<PadViaSiteDescriptor> {
    match spec_keyword_item(s, p, "off"@) {
        None => SpecOutcome::Failed,
        Some(q) => SpecOutcome::Parsed(PadViaSiteDescriptor::Off(), q),
    }
}

fn parse_pad_via_site_descriptor_off(s: &Vec<char>, p: usize) -> (r: Outcome<PadViaSiteDescriptor>)
    requires
        p <= s.len(),
    ensures
        r@ == spec_pad_via_site_descriptor_off(s@, p as int),
        r.within(p as int, s.len() as int),
{
    let q0 = match parse_keyword_item(s, p, "off") {
        Some(q) => q,
        None => return Outcome::Failed,
    };
    Outcome::Parsed(PadViaSiteDescriptor::Off(), q0)
}

impl Parsable for PadViaSiteDescriptor {
    open spec fn spec_parse(s: Seq<char>, p: int) -> SpecOutcome<PadViaSiteDescriptor> {
        match spec_pad_via_site_descriptor_vertex(s, p) {
            SpecOutcome::Failed => spec_pad_via_site_descriptor_off(s, p),
            o => o,
        }
    }

    fn parse_at(s: &Vec<char>, p: usize) -> (r: Outcome<PadViaSiteDescriptor>) {
        match parse_pad_via_site_descriptor_vertex(s, p) {
            Outcome::Failed => {},
            o => return o,
        }
        parse_pad_via_site_descriptor_off(s, p)
    }
}

/// The fields of `LibraryDescriptor` come from the text in
/// declaration order: each is what its own rule reads where the previous one
/// ended.
pub proof fn lemma_library_descriptor_fields_in_order(s: Seq<char>, p: int)
    ensures
        LibraryDescriptor::spec_parse(s, p) matches SpecOutcome::Parsed(v, q) ==> {
            let q0 = spec_open(s, p, "library"@).unwrap();
            let r0 = spec_optional::<pcb::UnitDescriptor>(s, q0);
            let r1 = spec_padded::<Vec<ImageDescriptor>>(s, r0.end());
            let r2 = spec_optional::<Vec<JumperDescriptor>>(s, r1.end());
            let r3 = spec_optional::<Vec<PadstackDescriptor>>(s, r2.end());
            &&& spec_open(s, p, "library"@) is Some
            &&& r0 == SpecOutcome::Parsed(v.unit, r0.end())
            &&& r1 == SpecOutcome::Parsed(v.images, r1.end())
            &&& r2 == SpecOutcome::Parsed(v.jumpers, r2.end())
            &&& r3 == SpecOutcome::Parsed(v.padstacks, r3.end())
            &&& spec_close(s, r3.end()) == Some(q)
        },
{
}

/// The fields of `ImageDescriptor` come from the text in
/// declaration order: each is what its own rule reads where the previous one
/// ended.
pub proof fn lemma_image_descriptor_fields_in_order(s: Seq<char>, p: int)
    ensures
        ImageDescriptor::spec_parse(s, p) matches SpecOutcome::Parsed(v, q) ==> {
            let q0 = spec_open(s, p, "image"@).unwrap();
            let r0 = spec_padded::<atoms::Id>(s, q0);
            let r1 = spec_optional::<Side>(s, r0.end());
            let r2 = spec_optional::<pcb::UnitDescriptor>(s, r1.end());
            let r3 = spec_padded::<Vec<OutlineDescriptor>>(s, r2.end());
            let r4 = spec_padded::<Vec<PinDescriptor>>(s, r3.end());
            let r5 = spec_optional::<Vec<KeepoutDescriptor>>(s, r4.end());
            &&& spec_open(s, p, "image"@) is Some
            &&& r0 == SpecOutcome::Parsed(v.image_id, r0.end())
            &&& r1 == SpecOutcome::Parsed(v.side, r1.end())
            &&& r2 == SpecOutcome::Parsed(v.unit, r2.end())
            &&& r3 == SpecOutcome::Parsed(v.outlines, r3.end())
            &&& r4 == SpecOutcome::Parsed(v.pins, r4.end())
            &&& r5 == SpecOutcome::Parsed(v.keepouts, r5.end())
            &&& spec_close(s, r5.end()) == Some(q)
        },
{
}

/// The fields of `KeepoutDescriptor` come from the text in
/// declaration order: each is what its own rule reads where the previous one
/// ended.
pub proof fn lemma_keepout_descriptor_fields_in_order(s: Seq<char>, p: int)
    ensures
        KeepoutDescriptor::spec_parse(s, p) matches SpecOutcome::Parsed(v, q) ==> {
            let q0 = spec_open(s, p, ""@).unwrap();
            let r0 = spec_padded::<KeepoutType>(s, q0);
            let r1 = spec_padded::<atoms::Id>(s, r0.end());
            let r2 = spec_optional_named::<numeric::PositiveInteger>(s, r1.end(), "sequence_number"@);
            let r3 = spec_padded::<shapes::ShapeDescriptor>(s, r2.end());
            let r4 = spec_optional_named::<structure::ClearanceDescriptor>(s, r3.end(), "rule"@);
            let r5 = spec_optional_named::<SpacingDescriptor>(s, r4.end(), "place_rule"@);
            let r6 = spec_optional::<Vec<WindowDescriptor>>(s, r5.end());
            &&& spec_open(s, p, ""@) is Some
            &&& r0 == SpecOutcome::Parsed(v.keepout_type, r0.end())
            &&& r1 == SpecOutcome::Parsed(v.id, r1.end())
            &&& r2 == SpecOutcome::Parsed(v.sequence_number, r2.end())
            &&& r3 == SpecOutcome::Parsed(v.shape, r3.end())
            &&& r4 == SpecOutcome::Parsed(v.rule, r4.end())
            &&& r5 == SpecOutcome::Parsed(v.place_rule, r5.end())
            &&& r6 == SpecOutcome::Parsed(v.windows, r6.end())
            &&& spec_close(s, r6.end()) == Some(q)
        },
{
}

/// The fields of `SpacingDescriptor` come from the text in
/// declaration order: each is what its own rule reads where the previous one
/// ended.
pub proof fn lemma_spacing_descriptor_fields_in_order(s: Seq<char>, p: int)
    ensures
        SpacingDescriptor::spec_parse(s, p) matches SpecOutcome::Parsed(v, q) ==> {
            let q0 = spec_open(s, p, "spacing"@).unwrap();
            let r0 = spec_padded::<numeric::Number>(s, q0);
            let r1 = spec_named::<SpacingType>(s, r0.end(), "spacing_type"@);
            let r2 = spec_optional::<placement::Side>(s, r1.end());
            &&& spec_open(s, p, "spacing"@) is Some
            &&& r0 == SpecOutcome::Parsed(v.value, r0.end())
            &&& r1 == SpecOutcome::Parsed(v.spacing_type, r1.end())
            &&& r2 == SpecOutcome::Parsed(v.side, r2.end())
            &&& spec_close(s, r2.end()) == Some(q)
        },
{
}

/// The fields of `OutlineDescriptor` come from the text in
/// declaration order: each is what its own rule reads where the previous one
/// ended.
pub proof fn lemma_outline_descriptor_fields_in_order(s: Seq<char>, p: int)
    ensures
        OutlineDescriptor::spec_parse(s, p) matches SpecOutcome::Parsed(v, q) ==> {
            let q0 = spec_open(s, p, "outline"@).unwrap();
            let r0 = spec_padded::<shapes::ShapeDescriptor>(s, q0);
            &&& spec_open(s, p, "outline"@) is Some
            &&& r0 == SpecOutcome::Parsed(v.shape, r0.end())
            &&& spec_close(s, r0.end()) == Some(q)
        },
{
}

/// The fields of `PinDescriptor` come from the text in
/// declaration order: each is what its own rule reads where the previous one
/// ended.
pub proof fn lemma_pin_descriptor_fields_in_order(s: Seq<char>, p: int)
    ensures
        PinDescriptor::spec_parse(s, p) matches SpecOutcome::Parsed(v, q) ==> {
            let q0 = spec_open(s, p, "pin"@).unwrap();
            let r0 = spec_padded::<structure::PadstackId>(s, q0);
            let r1 = spec_optional_named::<numeric::Number>(s, r0.end(), "rotate"@);
            let r2 = spec_padded::<PinRefDescriptor>(s, r1.end());
            let r3 = spec_optional::<structure::UserPropertyDescriptor>(s, r2.end());
            &&& spec_open(s, p, "pin"@) is Some
            &&& r0 == SpecOutcome::Parsed(v.padstack_id, r0.end())
            &&& r1 == SpecOutcome::Parsed(v.rotate, r1.end())
            &&& r2 == SpecOutcome::Parsed(v.reference, r2.end())
            &&& r3 == SpecOutcome::Parsed(v.property, r3.end())
            &&& spec_close(s, r3.end()) == Some(q)
        },
{
}

/// The fields of `JumperDescriptor` come from the text in
/// declaration order: each is what its own rule reads where the previous one
/// ended.
pub proof fn lemma_jumper_descriptor_fields_in_order(s: Seq<char>, p: int)
    ensures
        JumperDescriptor::spec_parse(s, p) matches SpecOutcome::Parsed(v, q) ==> {
            let q0 = spec_open(s, p, "jumper"@).unwrap();
            let r0 = spec_named::<numeric::PositiveDimension>(s, q0, "length"@);
            let r1 = spec_optional_named::<structure::PadstackId>(s, r0.end(), "use_via"@);
            let r2 = spec_optional_named::<numeric::Number>(s, r1.end(), "height"@);
            &&& spec_open(s, p, "jumper"@) is Some
            &&& r0 == SpecOutcome::Parsed(v.length, r0.end())
            &&& r1 == SpecOutcome::Parsed(v.use_via, r1.end())
            &&& r2 == SpecOutcome::Parsed(v.height, r2.end())
            &&& spec_close(s, r2.end()) == Some(q)
        },
{
}

/// The fields of `PadstackDescriptor` come from the text in
/// declaration order: each is what its own rule reads where the previous one
/// ended.
pub proof fn lemma_padstack_descriptor_fields_in_order(s: Seq<char>, p: int)
    ensures
        PadstackDescriptor::spec_parse(s, p) matches SpecOutcome::Parsed(v, q) ==> {
            let q0 = spec_open(s, p, "padstack"@).unwrap();
            let r0 = spec_padded::<structure::PadstackId>(s, q0);
            let r1 = spec_optional::<pcb::UnitDescriptor>(s, r0.end());
            let r2 = spec_padded::<Vec<PadstackShapeDescriptor>>(s, r1.end());
            let r3 = spec_optional_named::<AttachDescriptor>(s, r2.end(), "attach"@);
            let r4 = spec_optional::<Vec<PadViaSiteDescriptor>>(s, r3.end());
            let r5 = spec_optional_named::<atoms::Bool>(s, r4.end(), "rotate"@);
            let r6 = spec_optional_named::<atoms::Bool>(s, r5.end(), "absolute"@);
            let r7 = spec_optional::<structure::ClearanceDescriptor>(s, r6.end());
            &&& spec_open(s, p, "padstack"@) is Some
            &&& r0 == SpecOutcome::Parsed(v.padstack_id, r0.end())
            &&& r1 == SpecOutcome::Parsed(v.unit, r1.end())
            &&& r2 == SpecOutcome::Parsed(v.shapes, r2.end())
            &&& r3 == SpecOutcome::Parsed(v.attach, r3.end())
            &&& r4 == SpecOutcome::Parsed(v.pad_via_sites, r4.end())
            &&& r5 == SpecOutcome::Parsed(v.rotate, r5.end())
            &&& r6 == SpecOutcome::Parsed(v.absolute, r6.end())
            &&& r7 == SpecOutcome::Parsed(v.rule, r7.end())
            &&& spec_close(s, r7.end()) == Some(q)
        },
{
}

/// The fields of `PadstackShapeDescriptor` come from the text in
/// declaration order: each is what its own rule reads where the previous one
/// ended.
pub proof fn lemma_padstack_shape_descriptor_fields_in_order(s: Seq<char>, p: int)
    ensures
        PadstackShapeDescriptor::spec_parse(s, p) matches SpecOutcome::Parsed(v, q) ==> {
            let q0 = spec_open(s, p, "shape"@).unwrap();
            let r0 = spec_padded::<shapes::ShapeDescriptor>(s, q0);
            let r1 = spec_optional_named::<shapes::ShapeDescriptor>(s, r0.end(), "reduced"@);
            let r2 = spec_optional::<atoms::Bool>(s, r1.end());
            let r3 = spec_optional::<Vec<WindowDescriptor>>(s, r2.end());
            &&& spec_open(s, p, "shape"@) is Some
            &&& r0 == SpecOutcome::Parsed(v.shape, r0.end())
            &&& r1 == SpecOutcome::Parsed(v.reduced_shape, r1.end())
            &&& r2 == SpecOutcome::Parsed(v.connect, r2.end())
            &&& r3 == SpecOutcome::Parsed(v.windows, r3.end())
            &&& spec_close(s, r3.end()) == Some(q)
        },
{
}

/// The fields of `WindowDescriptor` come from the text in
/// declaration order: each is what its own rule reads where the previous one
/// ended.
pub proof fn lemma_window_descriptor_fields_in_order(s: Seq<char>, p: int)
    ensures
        WindowDescriptor::spec_parse(s, p) matches SpecOutcome::Parsed(v, q) ==> {
            let q0 = spec_open(s, p, "window"@).unwrap();
            let r0 = spec_padded::<shapes::ShapeDescriptor>(s, q0);
            &&& spec_open(s, p, "window"@) is Some
            &&& r0 == SpecOutcome::Parsed(v.shape, r0.end())
            &&& spec_close(s, r0.end()) == Some(q)
        },
{
}

/// The fields of the `ReferenceDescriptor` form read by `spec_pin_ref_descriptor_reference_descriptor` come from the text in
/// declaration order: each is what its own rule reads where the previous one
/// ended.
pub proof fn lemma_pin_ref_descriptor_reference_descriptor_fields_in_order(s: Seq<char>, p: int)
    ensures
        spec_pin_ref_descriptor_reference_descriptor(s, p) matches SpecOutcome::Parsed(v, q) ==> {
            let r0 = spec_padded::<atoms::Id>(s, ws_end(s, p));
            let r1 = spec_padded::<shapes::Vertex>(s, r0.end());
            &&& v is ReferenceDescriptor
            &&& r0 == SpecOutcome::Parsed(v->ReferenceDescriptor_pin_id, r0.end())
            &&& r1 == SpecOutcome::Parsed(v->ReferenceDescriptor_vertex, r1.end())
            &&& q == ws_end(s, r1.end())
        },
{
}

/// The fields of the `PinArrayDescriptor` form read by `spec_pin_ref_descriptor_pin_array_descriptor` come from the text in
/// declaration order: each is what its own rule reads where the previous one
/// ended.
pub proof fn lemma_pin_ref_descriptor_pin_array_descriptor_fields_in_order(s: Seq<char>, p: int)
    ensures
        spec_pin_ref_descriptor_pin_array_descriptor(s, p) matches SpecOutcome::Parsed(v, q) ==> {
            let q0 = spec_open(s, p, "array"@).unwrap();
            let r0 = spec_padded::<numeric::PositiveInteger>(s, q0);
            let r1 = spec_padded::<numeric::PositiveInteger>(s, r0.end());
            let r2 = spec_padded::<numeric::PositiveInteger>(s, r1.end());
            let r3 = spec_padded::<numeric::Number>(s, r2.end());
            let r4 = spec_padded::<numeric::Number>(s, r3.end());
            let r5 = spec_padded::<numeric::Number>(s, r4.end());
            let r6 = spec_padded::<numeric::Number>(s, r5.end());
            let r7 = spec_optional_named::<atoms::Id>(s, r6.end(), "prefix"@);
            let r8 = spec_optional_named::<atoms::Id>(s, r7.end(), "suffix"@);
            &&& v is PinArrayDescriptor
            &&& spec_open(s, p, "array"@) is Some
            &&& r0 == SpecOutcome::Parsed(v->PinArrayDescriptor_begin_index, r0.end())
            &&& r1 == SpecOutcome::Parsed(v->PinArrayDescriptor_end_index, r1.end())
            &&& r2 == SpecOutcome::Parsed(v->PinArrayDescriptor_index_step, r2.end())
            &&& r3 == SpecOutcome::Parsed(v->PinArrayDescriptor_x0, r3.end())
            &&& r4 == SpecOutcome::Parsed(v->PinArrayDescriptor_y0, r4.end())
            &&& r5 == SpecOutcome::Parsed(v->PinArrayDescriptor_xstep, r5.end())
            &&& r6 == SpecOutcome::Parsed(v->PinArrayDescriptor_ystep, r6.end())
            &&& r7 == SpecOutcome::Parsed(v->PinArrayDescriptor_pin_prefix_id, r7.end())
            &&& r8 == SpecOutcome::Parsed(v->PinArrayDescriptor_pin_suffix_id, r8.end())
            &&& spec_close(s, r8.end()) == Some(q)
        },
{
}

/// The fields of the `On` form read by `spec_attach_descriptor_on` come from the text in
/// declaration order: each is what its own rule reads where the previous one
/// ended.
pub proof fn lemma_attach_descriptor_on_fields_in_order(s: Seq<char>, p: int)
    ensures
        spec_attach_descriptor_on(s, p) matches SpecOutcome::Parsed(v, q) ==> {
            let q0 = spec_open(s, p, "on"@).unwrap();
            let r0 = spec_optional_named::<atoms::Id>(s, q0, "use_via"@);
            &&& v is On
            &&& spec_open(s, p, "on"@) is Some
            &&& r0 == SpecOutcome::Parsed(v->On_use_via, r0.end())
            &&& spec_close(s, r0.end()) == Some(q)
        },
{
}

/// The fields of the `Vertex` form read by `spec_pad_via_site_descriptor_vertex` come from the text in
/// declaration order: each is what its own rule reads where the previous one
/// ended.
pub proof fn lemma_pad_via_site_descriptor_vertex_fields_in_order(s: Seq<char>, p: int)
    ensures
        spec_pad_via_site_descriptor_vertex(s, p) matches SpecOutcome::Parsed(v, q) ==> {
            let r0 = spec_padded::<shapes::Vertex>(s, ws_end(s, p));
            &&& v is Vertex
            &&& r0 == SpecOutcome::Parsed(v->Vertex_0, r0.end())
            &&& q == ws_end(s, r0.end())
        },
{
}

/// Each form of `PinRefDescriptor` is read only where its own head stands (its keyword,
/// or `(` and its keyword) and where no keyword of an earlier form stands:
/// the forms are tried in declaration order.
pub proof fn lemma_pin_ref_descriptor_forms_by_head(s: Seq<char>, p: int)
    ensures
        PinRefDescriptor::spec_parse(s, p) matches SpecOutcome::Parsed(v, q) ==> {
            &&& v is PinArrayDescriptor ==> spec_open(s, p, "array"@) is Some
        },
{
}

/// Each form of `AttachDescriptor` is read only where its own head stands (its keyword,
/// or `(` and its keyword) and where no keyword of an earlier form stands:
/// the forms are tried in declaration order.
pub proof fn lemma_attach_descriptor_forms_by_head(s: Seq<char>, p: int)
    ensures
        AttachDescriptor::spec_parse(s, p) matches SpecOutcome::Parsed(v, q) ==> {
            &&& v is Off ==> spec_keyword_item(s, p, "off"@) == Some(q)
            &&& v is On ==> spec_open(s, p, "on"@) is Some && spec_keyword_item(s, p, "off"@) is None
            &&& v is Absent ==> spec_keyword_item(s, p, "off"@) is None
        },
{
}

/// Each form of `PadViaSiteDescriptor` is read only where its own head stands (its keyword,
/// or `(` and its keyword) and where no keyword of an earlier form stands:
/// the forms are tried in declaration order.
pub proof fn lemma_pad_via_site_descriptor_forms_by_head(s: Seq<char>, p: int)
    ensures
        PadViaSiteDescriptor::spec_parse(s, p) matches SpecOutcome::Parsed(v, q) ==> {
            &&& v is Off ==> spec_keyword_item(s, p, "off"@) == Some(q)
        },
{
}

} // verus!
