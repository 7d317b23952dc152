//! Laws of the file's rules that tie what is read to the text it is read
//! from: which keyword gives which value, and which part of the text each
//! field of a value comes from.
use vstd::prelude::*;
use crate::outcome::SpecOutcome;
use crate::parsable::{Parsable, spec_padded, spec_keyword_item, lemma_keyword_items_exclusive};
use crate::numeric;
use crate::atoms;
use crate::text::{ws_end, lit_at, spec_char, lemma_ws_end_bounds};
use crate::shapes;
use crate::pcb;
use crate::pcb::{library, network, placement, structure, wiring};

verus! {

/// The keyword with which each `numeric::Sign` is written.
pub open spec fn sign_keyword(v: numeric::Sign) -> Seq<char> {
    match v {
        numeric::Sign::Plus => "+"@,
        numeric::Sign::Minus => "-"@,
    }
}

/// Each `numeric::Sign` is read exactly where its keyword stands: where the
/// keyword of `v` stands at `p` (after white space) the rule reads `v`, ending
/// where that keyword item ends; whatever the rule reads, that value's keyword
/// stands there; and the rule never aborts. Distinct values have distinct keywords.
pub proof fn lemma_sign_reads_its_keyword(s: Seq<char>, p: int, v: numeric::Sign, w: numeric::Sign)
    ensures
        spec_keyword_item(s, p, sign_keyword(v)) matches Some(q) ==> numeric::Sign::spec_parse(s, p) == SpecOutcome::Parsed(v, q),
        numeric::Sign::spec_parse(s, p) matches SpecOutcome::Parsed(u, q) ==> spec_keyword_item(s, p, sign_keyword(u)) == Some(q),
        !(numeric::Sign::spec_parse(s, p) is Aborted),
        v != w ==> sign_keyword(v) != sign_keyword(w),
{
    reveal_strlit("+");
    reveal_strlit("-");
    lemma_keyword_items_exclusive(s, p, "+"@, "-"@, 0);
    assert("+"@[0] != "-"@[0]);
}

/// The keyword with which each `numeric::DimensionUnit` is written.
pub open spec fn dimension_unit_keyword(v: numeric::DimensionUnit) -> Seq<char> {
    match v {
        numeric::DimensionUnit::Inch => "inch"@,
        numeric::DimensionUnit::Mil => "mil"@,
        numeric::DimensionUnit::Cm => "cm"@,
        numeric::DimensionUnit::Mm => "mm"@,
        numeric::DimensionUnit::Um => "um"@,
    }
}

/// Each `numeric::DimensionUnit` is read exactly where its keyword stands: where the
/// keyword of `v` stands at `p` (after white space) the rule reads `v`, ending
/// where that keyword item ends; whatever the rule reads, that value's keyword
/// stands there; and the rule never aborts. Distinct values have distinct keywords.
pub proof fn lemma_dimension_unit_reads_its_keyword(s: Seq<char>, p: int, v: numeric::DimensionUnit, w: numeric::DimensionUnit)
    ensures
        spec_keyword_item(s, p, dimension_unit_keyword(v)) matches Some(q) ==> numeric::DimensionUnit::spec_parse(s, p) == SpecOutcome::Parsed(v, q),
        numeric::DimensionUnit::spec_parse(s, p) matches SpecOutcome::Parsed(u, q) ==> spec_keyword_item(s, p, dimension_unit_keyword(u)) == Some(q),
        !(numeric::DimensionUnit::spec_parse(s, p) is Aborted),
        v != w ==> dimension_unit_keyword(v) != dimension_unit_keyword(w),
{
    reveal_strlit("inch");
    reveal_strlit("mil");
    reveal_strlit("cm");
    reveal_strlit("mm");
    reveal_strlit("um");
    lemma_keyword_items_exclusive(s, p, "inch"@, "mil"@, 0);
    assert("inch"@[0] != "mil"@[0]);
    lemma_keyword_items_exclusive(s, p, "inch"@, "cm"@, 0);
    assert("inch"@[0] != "cm"@[0]);
    lemma_keyword_items_exclusive(s, p, "inch"@, "mm"@, 0);
    assert("inch"@[0] != "mm"@[0]);
    lemma_keyword_items_exclusive(s, p, "inch"@, "um"@, 0);
    assert("inch"@[0] != "um"@[0]);
    lemma_keyword_items_exclusive(s, p, "mil"@, "cm"@, 0);
    assert("mil"@[0] != "cm"@[0]);
    lemma_keyword_items_exclusive(s, p, "mil"@, "mm"@, 1);
    assert("mil"@[1] != "mm"@[1]);
    lemma_keyword_items_exclusive(s, p, "mil"@, "um"@, 0);
    assert("mil"@[0] != "um"@[0]);
    lemma_keyword_items_exclusive(s, p, "cm"@, "mm"@, 0);
    assert("cm"@[0] != "mm"@[0]);
    lemma_keyword_items_exclusive(s, p, "cm"@, "um"@, 0);
    assert("cm"@[0] != "um"@[0]);
    lemma_keyword_items_exclusive(s, p, "mm"@, "um"@, 0);
    assert("mm"@[0] != "um"@[0]);
}

/// The keyword with which each `shapes::AperatureType` is written.
pub open spec fn aperature_type_keyword(v: shapes::AperatureType) -> Seq<char> {
    match v {
        shapes::AperatureType::Round => "round"@,
        shapes::AperatureType::Square => "square"@,
    }
}

/// Each `shapes::AperatureType` is read exactly where its keyword stands: where the
/// keyword of `v` stands at `p` (after white space) the rule reads `v`, ending
/// where that keyword item ends; whatever the rule reads, that value's keyword
/// stands there; and the rule never aborts. Distinct values have distinct keywords.
pub proof fn lemma_aperature_type_reads_its_keyword(s: Seq<char>, p: int, v: shapes::AperatureType, w: shapes::AperatureType)
    ensures
        spec_keyword_item(s, p, aperature_type_keyword(v)) matches Some(q) ==> shapes::AperatureType::spec_parse(s, p) == SpecOutcome::Parsed(v, q),
        shapes::AperatureType::spec_parse(s, p) matches SpecOutcome::Parsed(u, q) ==> spec_keyword_item(s, p, aperature_type_keyword(u)) == Some(q),
        !(shapes::AperatureType::spec_parse(s, p) is Aborted),
        v != w ==> aperature_type_keyword(v) != aperature_type_keyword(w),
{
    reveal_strlit("round");
    reveal_strlit("square");
    lemma_keyword_items_exclusive(s, p, "round"@, "square"@, 0);
    assert("round"@[0] != "square"@[0]);
}

/// The keyword with which each `library::Side` is written.
pub open spec fn library_side_keyword(v: library::Side) -> Seq<char> {
    match v {
        library::Side::Front => "front"@,
        library::Side::Back => "back"@,
        library::Side::Both => "both"@,
    }
}

/// Each `library::Side` is read exactly where its keyword stands: where the
/// keyword of `v` stands at `p` (after white space) the rule reads `v`, ending
/// where that keyword item ends; whatever the rule reads, that value's keyword
/// stands there; and the rule never aborts. Distinct values have distinct keywords.
pub proof fn lemma_library_side_reads_its_keyword(s: Seq<char>, p: int, v: library::Side, w: library::Side)
    ensures
        spec_keyword_item(s, p, library_side_keyword(v)) matches Some(q) ==> library::Side::spec_parse(s, p) == SpecOutcome::Parsed(v, q),
        library::Side::spec_parse(s, p) matches SpecOutcome::Parsed(u, q) ==> spec_keyword_item(s, p, library_side_keyword(u)) == Some(q),
        !(library::Side::spec_parse(s, p) is Aborted),
        v != w ==> library_side_keyword(v) != library_side_keyword(w),
{
    reveal_strlit("front");
    reveal_strlit("back");
    reveal_strlit("both");
    lemma_keyword_items_exclusive(s, p, "front"@, "back"@, 0);
    assert("front"@[0] != "back"@[0]);
    lemma_keyword_items_exclusive(s, p, "front"@, "both"@, 0);
    assert("front"@[0] != "both"@[0]);
    lemma_keyword_items_exclusive(s, p, "back"@, "both"@, 1);
    assert("back"@[1] != "both"@[1]);
}

/// The keyword with which each `library::KeepoutType` is written.
pub open spec fn keepout_type_keyword(v: library::KeepoutType) -> Seq<char> {
    match v {
        library::KeepoutType::Keepout => "keepout"@,
        library::KeepoutType::PlaceKeepout => "place_keepout"@,
        library::KeepoutType::ViaKeepout => "via_keepout"@,
        library::KeepoutType::WireKeepout => "wire_keepout"@,
        library::KeepoutType::BendKeepout => "bend_keepout"@,
        library::KeepoutType::ElongateKeepout => "elongate_keepout"@,
    }
}

/// Each `library::KeepoutType` is read exactly where its keyword stands: where the
/// keyword of `v` stands at `p` (after white space) the rule reads `v`, ending
/// where that keyword item ends; whatever the rule reads, that value's keyword
/// stands there; and the rule never aborts. Distinct values have distinct keywords.
pub proof fn lemma_keepout_type_reads_its_keyword(s: Seq<char>, p: int, v: library::KeepoutType, w: library::KeepoutType)
    ensures
        spec_keyword_item(s, p, keepout_type_keyword(v)) matches Some(q) ==> library::KeepoutType::spec_parse(s, p) == SpecOutcome::Parsed(v, q),
        library::KeepoutType::spec_parse(s, p) matches SpecOutcome::Parsed(u, q) ==> spec_keyword_item(s, p, keepout_type_keyword(u)) == Some(q),
        !(library::KeepoutType::spec_parse(s, p) is Aborted),
        v != w ==> keepout_type_keyword(v) != keepout_type_keyword(w),
{
    reveal_strlit("keepout");
    reveal_strlit("place_keepout");
    reveal_strlit("via_keepout");
    reveal_strlit("wire_keepout");
    reveal_strlit("bend_keepout");
    reveal_strlit("elongate_keepout");
    lemma_keyword_items_exclusive(s, p, "keepout"@, "place_keepout"@, 0);
    assert("keepout"@[0] != "place_keepout"@[0]);
    lemma_keyword_items_exclusive(s, p, "keepout"@, "via_keepout"@, 0);
    assert("keepout"@[0] != "via_keepout"@[0]);
    lemma_keyword_items_exclusive(s, p, "keepout"@, "wire_keepout"@, 0);
    assert("keepout"@[0] != "wire_keepout"@[0]);
    lemma_keyword_items_exclusive(s, p, "keepout"@, "bend_keepout"@, 0);
    assert("keepout"@[0] != "bend_keepout"@[0]);
    lemma_keyword_items_exclusive(s, p, "keepout"@, "elongate_keepout"@, 0);
    assert("keepout"@[0] != "elongate_keepout"@[0]);
    lemma_keyword_items_exclusive(s, p, "place_keepout"@, "via_keepout"@, 0);
    assert("place_keepout"@[0] != "via_keepout"@[0]);
    lemma_keyword_items_exclusive(s, p, "place_keepout"@, "wire_keepout"@, 0);
    assert("place_keepout"@[0] != "wire_keepout"@[0]);
    lemma_keyword_items_exclusive(s, p, "place_keepout"@, "bend_keepout"@, 0);
    assert("place_keepout"@[0] != "bend_keepout"@[0]);
    lemma_keyword_items_exclusive(s, p, "place_keepout"@, "elongate_keepout"@, 0);
    assert("place_keepout"@[0] != "elongate_keepout"@[0]);
    lemma_keyword_items_exclusive(s, p, "via_keepout"@, "wire_keepout"@, 0);
    assert("via_keepout"@[0] != "wire_keepout"@[0]);
    lemma_keyword_items_exclusive(s, p, "via_keepout"@, "bend_keepout"@, 0);
    assert("via_keepout"@[0] != "bend_keepout"@[0]);
    lemma_keyword_items_exclusive(s, p, "via_keepout"@, "elongate_keepout"@, 0);
    assert("via_keepout"@[0] != "elongate_keepout"@[0]);
    lemma_keyword_items_exclusive(s, p, "wire_keepout"@, "bend_keepout"@, 0);
    assert("wire_keepout"@[0] != "bend_keepout"@[0]);
    lemma_keyword_items_exclusive(s, p, "wire_keepout"@, "elongate_keepout"@, 0);
    assert("wire_keepout"@[0] != "elongate_keepout"@[0]);
    lemma_keyword_items_exclusive(s, p, "bend_keepout"@, "elongate_keepout"@, 0);
    assert("bend_keepout"@[0] != "elongate_keepout"@[0]);
}

/// The keyword with which each `library::SpacingType` is written.
pub open spec fn spacing_type_keyword(v: library::SpacingType) -> Seq<char> {
    match v {
        library::SpacingType::PinPin => "pin_pin"@,
        library::SpacingType::PinSmd => "pin_smd"@,
        library::SpacingType::PinArea => "pin_area"@,
        library::SpacingType::SmdPin => "smd_pin"@,
        library::SpacingType::SmdSmd => "smd_smd"@,
        library::SpacingType::SmdArea => "smd_area"@,
        library::SpacingType::AreaPin => "area_pin"@,
        library::SpacingType::AreaSmd => "area_smd"@,
        library::SpacingType::AreaArea => "area_area"@,
    }
}

/// Each `library::SpacingType` is read exactly where its keyword stands: where the
/// keyword of `v` stands at `p` (after white space) the rule reads `v`, ending
/// where that keyword item ends; whatever the rule reads, that value's keyword
/// stands there; and the rule never aborts. Distinct values have distinct keywords.
pub proof fn lemma_spacing_type_reads_its_keyword(s: Seq<char>, p: int, v: library::SpacingType, w: library::SpacingType)
    ensures
        spec_keyword_item(s, p, spacing_type_keyword(v)) matches Some(q) ==> library::SpacingType::spec_parse(s, p) == SpecOutcome::Parsed(v, q),
        library::SpacingType::spec_parse(s, p) matches SpecOutcome::Parsed(u, q) ==> spec_keyword_item(s, p, spacing_type_keyword(u)) == Some(q),
        !(library::SpacingType::spec_parse(s, p) is Aborted),
        v != w ==> spacing_type_keyword(v) != spacing_type_keyword(w),
{
    reveal_strlit("pin_pin");
    reveal_strlit("pin_smd");
    reveal_strlit("pin_area");
    reveal_strlit("smd_pin");
    reveal_strlit("smd_smd");
    reveal_strlit("smd_area");
    reveal_strlit("area_pin");
    reveal_strlit("area_smd");
    reveal_strlit("area_area");
    lemma_keyword_items_exclusive(s, p, "pin_pin"@, "pin_smd"@, 4);
    assert("pin_pin"@[4] != "pin_smd"@[4]);
    lemma_keyword_items_exclusive(s, p, "pin_pin"@, "pin_area"@, 4);
    assert("pin_pin"@[4] != "pin_area"@[4]);
    lemma_keyword_items_exclusive(s, p, "pin_pin"@, "smd_pin"@, 0);
    assert("pin_pin"@[0] != "smd_pin"@[0]);
    lemma_keyword_items_exclusive(s, p, "pin_pin"@, "smd_smd"@, 0);
    assert("pin_pin"@[0] != "smd_smd"@[0]);
    lemma_keyword_items_exclusive(s, p, "pin_pin"@, "smd_area"@, 0);
    assert("pin_pin"@[0] != "smd_area"@[0]);
    lemma_keyword_items_exclusive(s, p, "pin_pin"@, "area_pin"@, 0);
    assert("pin_pin"@[0] != "area_pin"@[0]);
    lemma_keyword_items_exclusive(s, p, "pin_pin"@, "area_smd"@, 0);
    assert("pin_pin"@[0] != "area_smd"@[0]);
    lemma_keyword_items_exclusive(s, p, "pin_pin"@, "area_area"@, 0);
    assert("pin_pin"@[0] != "area_area"@[0]);
    lemma_keyword_items_exclusive(s, p, "pin_smd"@, "pin_area"@, 4);
    assert("pin_smd"@[4] != "pin_area"@[4]);
    lemma_keyword_items_exclusive(s, p, "pin_smd"@, "smd_pin"@, 0);
    assert("pin_smd"@[0] != "smd_pin"@[0]);
    lemma_keyword_items_exclusive(s, p, "pin_smd"@, "smd_smd"@, 0);
    assert("pin_smd"@[0] != "smd_smd"@[0]);
    lemma_keyword_items_exclusive(s, p, "pin_smd"@, "smd_area"@, 0);
    assert("pin_smd"@[0] != "smd_area"@[0]);
    lemma_keyword_items_exclusive(s, p, "pin_smd"@, "area_pin"@, 0);
    assert("pin_smd"@[0] != "area_pin"@[0]);
    lemma_keyword_items_exclusive(s, p, "pin_smd"@, "area_smd"@, 0);
    assert("pin_smd"@[0] != "area_smd"@[0]);
    lemma_keyword_items_exclusive(s, p, "pin_smd"@, "area_area"@, 0);
    assert("pin_smd"@[0] != "area_area"@[0]);
    lemma_keyword_items_exclusive(s, p, "pin_area"@, "smd_pin"@, 0);
    assert("pin_area"@[0] != "smd_pin"@[0]);
    lemma_keyword_items_exclusive(s, p, "pin_area"@, "smd_smd"@, 0);
    assert("pin_area"@[0] != "smd_smd"@[0]);
    lemma_keyword_items_exclusive(s, p, "pin_area"@, "smd_area"@, 0);
    assert("pin_area"@[0] != "smd_area"@[0]);
    lemma_keyword_items_exclusive(s, p, "pin_area"@, "area_pin"@, 0);
    assert("pin_area"@[0] != "area_pin"@[0]);
    lemma_keyword_items_exclusive(s, p, "pin_area"@, "area_smd"@, 0);
    assert("pin_area"@[0] != "area_smd"@[0]);
    lemma_keyword_items_exclusive(s, p, "pin_area"@, "area_area"@, 0);
    assert("pin_area"@[0] != "area_area"@[0]);
    lemma_keyword_items_exclusive(s, p, "smd_pin"@, "smd_smd"@, 4);
    assert("smd_pin"@[4] != "smd_smd"@[4]);
    lemma_keyword_items_exclusive(s, p, "smd_pin"@, "smd_area"@, 4);
    assert("smd_pin"@[4] != "smd_area"@[4]);
    lemma_keyword_items_exclusive(s, p, "smd_pin"@, "area_pin"@, 0);
    assert("smd_pin"@[0] != "area_pin"@[0]);
    lemma_keyword_items_exclusive(s, p, "smd_pin"@, "area_smd"@, 0);
    assert("smd_pin"@[0] != "area_smd"@[0]);
    lemma_keyword_items_exclusive(s, p, "smd_pin"@, "area_area"@, 0);
    assert("smd_pin"@[0] != "area_area"@[0]);
    lemma_keyword_items_exclusive(s, p, "smd_smd"@, "smd_area"@, 4);
    assert("smd_smd"@[4] != "smd_area"@[4]);
    lemma_keyword_items_exclusive(s, p, "smd_smd"@, "area_pin"@, 0);
    assert("smd_smd"@[0] != "area_pin"@[0]);
    lemma_keyword_items_exclusive(s, p, "smd_smd"@, "area_smd"@, 0);
    assert("smd_smd"@[0] != "area_smd"@[0]);
    lemma_keyword_items_exclusive(s, p, "smd_smd"@, "area_area"@, 0);
    assert("smd_smd"@[0] != "area_area"@[0]);
    lemma_keyword_items_exclusive(s, p, "smd_area"@, "area_pin"@, 0);
    assert("smd_area"@[0] != "area_pin"@[0]);
    lemma_keyword_items_exclusive(s, p, "smd_area"@, "area_smd"@, 0);
    assert("smd_area"@[0] != "area_smd"@[0]);
    lemma_keyword_items_exclusive(s, p, "smd_area"@, "area_area"@, 0);
    assert("smd_area"@[0] != "area_area"@[0]);
    lemma_keyword_items_exclusive(s, p, "area_pin"@, "area_smd"@, 5);
    assert("area_pin"@[5] != "area_smd"@[5]);
    lemma_keyword_items_exclusive(s, p, "area_pin"@, "area_area"@, 5);
    assert("area_pin"@[5] != "area_area"@[5]);
    lemma_keyword_items_exclusive(s, p, "area_smd"@, "area_area"@, 5);
    assert("area_smd"@[5] != "area_area"@[5]);
}

/// The keyword with which each `pcb::QuoteChar` is written.
pub open spec fn quote_char_keyword(v: pcb::QuoteChar) -> Seq<char> {
    match v {
        pcb::QuoteChar::DoubleQuote => "\""@,
        pcb::QuoteChar::SingleQuote => "'"@,
        pcb::QuoteChar::DollarSign => "$"@,
    }
}

/// Each `pcb::QuoteChar` is read exactly where its keyword stands: where the
/// keyword of `v` stands at `p` (after white space) the rule reads `v`, ending
/// where that keyword item ends; whatever the rule reads, that value's keyword
/// stands there; and the rule never aborts. Distinct values have distinct keywords.
pub proof fn lemma_quote_char_reads_its_keyword(s: Seq<char>, p: int, v: pcb::QuoteChar, w: pcb::QuoteChar)
    ensures
        spec_keyword_item(s, p, quote_char_keyword(v)) matches Some(q) ==> pcb::QuoteChar::spec_parse(s, p) == SpecOutcome::Parsed(v, q),
        pcb::QuoteChar::spec_parse(s, p) matches SpecOutcome::Parsed(u, q) ==> spec_keyword_item(s, p, quote_char_keyword(u)) == Some(q),
        !(pcb::QuoteChar::spec_parse(s, p) is Aborted),
        v != w ==> quote_char_keyword(v) != quote_char_keyword(w),
{
    reveal_strlit("\"");
    reveal_strlit("'");
    reveal_strlit("$");
    lemma_keyword_items_exclusive(s, p, "\""@, "'"@, 0);
    assert("\""@[0] != "'"@[0]);
    lemma_keyword_items_exclusive(s, p, "\""@, "$"@, 0);
    assert("\""@[0] != "$"@[0]);
    lemma_keyword_items_exclusive(s, p, "'"@, "$"@, 0);
    assert("'"@[0] != "$"@[0]);
}

/// The keyword with which each `placement::Side` is written.
pub open spec fn placement_side_keyword(v: placement::Side) -> Seq<char> {
    match v {
        placement::Side::Front => "front"@,
        placement::Side::Back => "back"@,
    }
}

/// Each `placement::Side` is read exactly where its keyword stands: where the
/// keyword of `v` stands at `p` (after white space) the rule reads `v`, ending
/// where that keyword item ends; whatever the rule reads, that value's keyword
/// stands there; and the rule never aborts. Distinct values have distinct keywords.
pub proof fn lemma_placement_side_reads_its_keyword(s: Seq<char>, p: int, v: placement::Side, w: placement::Side)
    ensures
        spec_keyword_item(s, p, placement_side_keyword(v)) matches Some(q) ==> placement::Side::spec_parse(s, p) == SpecOutcome::Parsed(v, q),
        placement::Side::spec_parse(s, p) matches SpecOutcome::Parsed(u, q) ==> spec_keyword_item(s, p, placement_side_keyword(u)) == Some(q),
        !(placement::Side::spec_parse(s, p) is Aborted),
        v != w ==> placement_side_keyword(v) != placement_side_keyword(w),
{
    reveal_strlit("front");
    reveal_strlit("back");
    lemma_keyword_items_exclusive(s, p, "front"@, "back"@, 0);
    assert("front"@[0] != "back"@[0]);
}

/// The keyword with which each `structure::LayerType` is written.
pub open spec fn layer_type_keyword(v: structure::LayerType) -> Seq<char> {
    match v {
        structure::LayerType::Signal => "signal"@,
        structure::LayerType::Power => "power"@,
        structure::LayerType::Mixed => "mixed"@,
        structure::LayerType::Jumper => "jumper"@,
    }
}

/// Each `structure::LayerType` is read exactly where its keyword stands: where the
/// keyword of `v` stands at `p` (after white space) the rule reads `v`, ending
/// where that keyword item ends; whatever the rule reads, that value's keyword
/// stands there; and the rule never aborts. Distinct values have distinct keywords.
pub proof fn lemma_layer_type_reads_its_keyword(s: Seq<char>, p: int, v: structure::LayerType, w: structure::LayerType)
    ensures
        spec_keyword_item(s, p, layer_type_keyword(v)) matches Some(q) ==> structure::LayerType::spec_parse(s, p) == SpecOutcome::Parsed(v, q),
        structure::LayerType::spec_parse(s, p) matches SpecOutcome::Parsed(u, q) ==> spec_keyword_item(s, p, layer_type_keyword(u)) == Some(q),
        !(structure::LayerType::spec_parse(s, p) is Aborted),
        v != w ==> layer_type_keyword(v) != layer_type_keyword(w),
{
    reveal_strlit("signal");
    reveal_strlit("power");
    reveal_strlit("mixed");
    reveal_strlit("jumper");
    lemma_keyword_items_exclusive(s, p, "signal"@, "power"@, 0);
    assert("signal"@[0] != "power"@[0]);
    lemma_keyword_items_exclusive(s, p, "signal"@, "mixed"@, 0);
    assert("signal"@[0] != "mixed"@[0]);
    lemma_keyword_items_exclusive(s, p, "signal"@, "jumper"@, 0);
    assert("signal"@[0] != "jumper"@[0]);
    lemma_keyword_items_exclusive(s, p, "power"@, "mixed"@, 0);
    assert("power"@[0] != "mixed"@[0]);
    lemma_keyword_items_exclusive(s, p, "power"@, "jumper"@, 0);
    assert("power"@[0] != "jumper"@[0]);
    lemma_keyword_items_exclusive(s, p, "mixed"@, "jumper"@, 0);
    assert("mixed"@[0] != "jumper"@[0]);
}

/// The keyword with which each `structure::DirectionType` is written.
pub open spec fn direction_type_keyword(v: structure::DirectionType) -> Seq<char> {
    match v {
        structure::DirectionType::Horizontal => "horizontal"@,
        structure::DirectionType::Vertical => "vertical"@,
        structure::DirectionType::Orthogonal => "orthogonal"@,
        structure::DirectionType::PositiveDiagonal => "positive_diagonal"@,
        structure::DirectionType::NegativeDiagonal => "negative_diagonal"@,
        structure::DirectionType::Diagonal => "diagonal"@,
        structure::DirectionType::Off => "off"@,
    }
}

/// Each `structure::DirectionType` is read exactly where its keyword stands: where the
/// keyword of `v` stands at `p` (after white space) the rule reads `v`, ending
/// where that keyword item ends; whatever the rule reads, that value's keyword
/// stands there; and the rule never aborts. Distinct values have distinct keywords.
pub proof fn lemma_direction_type_reads_its_keyword(s: Seq<char>, p: int, v: structure::DirectionType, w: structure::DirectionType)
    ensures
        spec_keyword_item(s, p, direction_type_keyword(v)) matches Some(q) ==> structure::DirectionType::spec_parse(s, p) == SpecOutcome::Parsed(v, q),
        structure::DirectionType::spec_parse(s, p) matches SpecOutcome::Parsed(u, q) ==> spec_keyword_item(s, p, direction_type_keyword(u)) == Some(q),
        !(structure::DirectionType::spec_parse(s, p) is Aborted),
        v != w ==> direction_type_keyword(v) != direction_type_keyword(w),
{
    reveal_strlit("horizontal");
    reveal_strlit("vertical");
    reveal_strlit("orthogonal");
    reveal_strlit("positive_diagonal");
    reveal_strlit("negative_diagonal");
    reveal_strlit("diagonal");
    reveal_strlit("off");
    lemma_keyword_items_exclusive(s, p, "horizontal"@, "vertical"@, 0);
    assert("horizontal"@[0] != "vertical"@[0]);
    lemma_keyword_items_exclusive(s, p, "horizontal"@, "orthogonal"@, 0);
    assert("horizontal"@[0] != "orthogonal"@[0]);
    lemma_keyword_items_exclusive(s, p, "horizontal"@, "positive_diagonal"@, 0);
    assert("horizontal"@[0] != "positive_diagonal"@[0]);
    lemma_keyword_items_exclusive(s, p, "horizontal"@, "negative_diagonal"@, 0);
    assert("horizontal"@[0] != "negative_diagonal"@[0]);
    lemma_keyword_items_exclusive(s, p, "horizontal"@, "diagonal"@, 0);
    assert("horizontal"@[0] != "diagonal"@[0]);
    lemma_keyword_items_exclusive(s, p, "horizontal"@, "off"@, 0);
    assert("horizontal"@[0] != "off"@[0]);
    lemma_keyword_items_exclusive(s, p, "vertical"@, "orthogonal"@, 0);
    assert("vertical"@[0] != "orthogonal"@[0]);
    lemma_keyword_items_exclusive(s, p, "vertical"@, "positive_diagonal"@, 0);
    assert("vertical"@[0] != "positive_diagonal"@[0]);
    lemma_keyword_items_exclusive(s, p, "vertical"@, "negative_diagonal"@, 0);
    assert("vertical"@[0] != "negative_diagonal"@[0]);
    lemma_keyword_items_exclusive(s, p, "vertical"@, "diagonal"@, 0);
    assert("vertical"@[0] != "diagonal"@[0]);
    lemma_keyword_items_exclusive(s, p, "vertical"@, "off"@, 0);
    assert("vertical"@[0] != "off"@[0]);
    lemma_keyword_items_exclusive(s, p, "orthogonal"@, "positive_diagonal"@, 0);
    assert("orthogonal"@[0] != "positive_diagonal"@[0]);
    lemma_keyword_items_exclusive(s, p, "orthogonal"@, "negative_diagonal"@, 0);
    assert("orthogonal"@[0] != "negative_diagonal"@[0]);
    lemma_keyword_items_exclusive(s, p, "orthogonal"@, "diagonal"@, 0);
    assert("orthogonal"@[0] != "diagonal"@[0]);
    lemma_keyword_items_exclusive(s, p, "orthogonal"@, "off"@, 1);
    assert("orthogonal"@[1] != "off"@[1]);
    lemma_keyword_items_exclusive(s, p, "positive_diagonal"@, "negative_diagonal"@, 0);
    assert("positive_diagonal"@[0] != "negative_diagonal"@[0]);
    lemma_keyword_items_exclusive(s, p, "positive_diagonal"@, "diagonal"@, 0);
    assert("positive_diagonal"@[0] != "diagonal"@[0]);
    lemma_keyword_items_exclusive(s, p, "positive_diagonal"@, "off"@, 0);
    assert("positive_diagonal"@[0] != "off"@[0]);
    lemma_keyword_items_exclusive(s, p, "negative_diagonal"@, "diagonal"@, 0);
    assert("negative_diagonal"@[0] != "diagonal"@[0]);
    lemma_keyword_items_exclusive(s, p, "negative_diagonal"@, "off"@, 0);
    assert("negative_diagonal"@[0] != "off"@[0]);
    lemma_keyword_items_exclusive(s, p, "diagonal"@, "off"@, 0);
    assert("diagonal"@[0] != "off"@[0]);
}

/// The keyword with which each `wiring::WireType` is written.
pub open spec fn wire_type_keyword(v: wiring::WireType) -> Seq<char> {
    match v {
        wiring::WireType::Fix => "fix"@,
        wiring::WireType::Route => "route"@,
        wiring::WireType::Normal => "normal"@,
        wiring::WireType::Protect => "protect"@,
    }
}

/// Each `wiring::WireType` is read exactly where its keyword stands: where the
/// keyword of `v` stands at `p` (after white space) the rule reads `v`, ending
/// where that keyword item ends; whatever the rule reads, that value's keyword
/// stands there; and the rule never aborts. Distinct values have distinct keywords.
pub proof fn lemma_wire_type_reads_its_keyword(s: Seq<char>, p: int, v: wiring::WireType, w: wiring::WireType)
    ensures
        spec_keyword_item(s, p, wire_type_keyword(v)) matches Some(q) ==> wiring::WireType::spec_parse(s, p) == SpecOutcome::Parsed(v, q),
        wiring::WireType::spec_parse(s, p) matches SpecOutcome::Parsed(u, q) ==> spec_keyword_item(s, p, wire_type_keyword(u)) == Some(q),
        !(wiring::WireType::spec_parse(s, p) is Aborted),
        v != w ==> wire_type_keyword(v) != wire_type_keyword(w),
{
    reveal_strlit("fix");
    reveal_strlit("route");
    reveal_strlit("normal");
    reveal_strlit("protect");
    lemma_keyword_items_exclusive(s, p, "fix"@, "route"@, 0);
    assert("fix"@[0] != "route"@[0]);
    lemma_keyword_items_exclusive(s, p, "fix"@, "normal"@, 0);
    assert("fix"@[0] != "normal"@[0]);
    lemma_keyword_items_exclusive(s, p, "fix"@, "protect"@, 0);
    assert("fix"@[0] != "protect"@[0]);
    lemma_keyword_items_exclusive(s, p, "route"@, "normal"@, 0);
    assert("route"@[0] != "normal"@[0]);
    lemma_keyword_items_exclusive(s, p, "route"@, "protect"@, 0);
    assert("route"@[0] != "protect"@[0]);
    lemma_keyword_items_exclusive(s, p, "normal"@, "protect"@, 0);
    assert("normal"@[0] != "protect"@[0]);
}


/// A pin written `pin_id x y` reads its id with the identifier rule where it
/// starts, and its position with the vertex rule right after the id.
pub proof fn lemma_pin_reference_fields_in_order(s: Seq<char>, p: int)
    ensures
        library::PinRefDescriptor::spec_parse(s, p) matches SpecOutcome::Parsed(v, q) ==> (
        v is ReferenceDescriptor ==> {
            let r0 = spec_padded::<atoms::Id>(s, ws_end(s, p));
            let r1 = spec_padded::<shapes::Vertex>(s, r0.end());
            &&& r0 == SpecOutcome::Parsed(v->ReferenceDescriptor_pin_id, r0.end())
            &&& r1 == SpecOutcome::Parsed(v->ReferenceDescriptor_vertex, r1.end())
            &&& q == ws_end(s, r1.end())
        }),
{
}


/// A fraction `a/b` keeps `a` as its first number and `b` as its second: the
/// first is what the integer rule reads where the fraction starts, then `/`
/// stands, and the second is what the integer rule reads right after it.
pub proof fn lemma_rational_numerator_then_denominator(s: Seq<char>, p: int)
    ensures
        numeric::Rational::spec_parse(s, p) matches SpecOutcome::Parsed(r, q) ==> {
            let a = numeric::spec_positive_integer(s, p);
            &&& a == SpecOutcome::Parsed(numeric::PositiveInteger(r.0), a.end())
            &&& spec_char(s, a.end(), '/') == Some(a.end() + 1)
            &&& numeric::spec_positive_integer(s, a.end() + 1) == SpecOutcome::Parsed(numeric::PositiveInteger(r.1), q)
        },
{
}

/// A decimal `i.f` keeps the integer part first and the fraction second: the
/// integer part is what the integer rule reads where the decimal starts, then
/// `.` stands, and the fraction is what the integer rule reads right after it.
pub proof fn lemma_real_integer_then_fraction(s: Seq<char>, p: int)
    ensures
        numeric::Real::spec_parse(s, p) matches SpecOutcome::Parsed(r, q) ==> {
            let a = numeric::spec_positive_integer(s, p);
            &&& a == SpecOutcome::Parsed(r.integer, a.end())
            &&& spec_char(s, a.end(), '.') == Some(a.end() + 1)
            &&& numeric::spec_positive_integer(s, a.end() + 1) == SpecOutcome::Parsed(r.fraction, q)
        },
{
}

/// A flag reads `true` exactly where `on` stands and `false` exactly where
/// `off` stands (with no white space skipped), ending right after the word.
pub proof fn lemma_bool_on_is_true(s: Seq<char>, p: int)
    ensures
        lit_at(s, p, "on"@) ==> atoms::Bool::spec_parse(s, p) == SpecOutcome::Parsed(atoms::Bool(true), p + 2),
        lit_at(s, p, "off"@) ==> atoms::Bool::spec_parse(s, p) == SpecOutcome::Parsed(atoms::Bool(false), p + 3),
        atoms::Bool::spec_parse(s, p) matches SpecOutcome::Parsed(b, q) ==> if b.0 {
            lit_at(s, p, "on"@) && q == p + 2
        } else {
            lit_at(s, p, "off"@) && q == p + 3
        },
{
    reveal_strlit("on");
    reveal_strlit("off");
    if lit_at(s, p, "on"@) {
        assert(s.subrange(p, p + 2)[0] == 'o' && s.subrange(p, p + 2)[1] == 'n');
    }
    if lit_at(s, p, "off"@) {
        assert(s.subrange(p, p + 3)[0] == 'o');
        assert(s.subrange(p, p + 3)[1] == 'f');
        assert(s.subrange(p, p + 3)[2] == 'f');
        assert(s[p] == 'o' && s[p + 1] == 'f' && s[p + 2] == 'f');
    }
    if atoms::Bool::spec_parse(s, p) is Parsed {
        if s[p + 1] == 'n' && p + 2 <= s.len() && s[p] == 'o' && 0 <= p {
            assert(s.subrange(p, p + 2) =~= "on"@);
        } else {
            assert(s.subrange(p, p + 3) =~= "off"@);
        }
    }
}

proof fn lemma_ident_end_bounds(s: Seq<char>, p: int)
    requires
        0 <= p <= s.len(),
    ensures
        p <= network::ident_end(s, p) <= s.len(),
    decreases s.len() - p,
{
    if p < s.len() && network::is_ident_char(s[p]) {
        lemma_ident_end_bounds(s, p + 1);
    }
}

/// A pin reference `component-pin` keeps the name before `-` as its component
/// and the name after it as its pin: the text where it starts (after white
/// space) is the component's name, `-`, then the pin's name.
pub proof fn lemma_pin_reference_component_then_pin(s: Seq<char>, p: int)
    ensures
        network::PinReference::spec_parse(s, p) matches SpecOutcome::Parsed(v, q) ==> {
            let q0 = ws_end(s, p);
            let n = v.component_id.len() as int;
            let m = v.pin_id.len() as int;
            &&& s.subrange(q0, q0 + n) == v.component_id
            &&& s[q0 + n] == '-'
            &&& s.subrange(q0 + n + 1, q0 + n + 1 + m) == v.pin_id
            &&& q == ws_end(s, q0 + n + 1 + m)
        },
{
    if network::PinReference::spec_parse(s, p) is Parsed {
        let q0 = ws_end(s, p);
        let e1 = network::ident_end(s, q0);
        assert(spec_char(s, e1, '-') is Some);
        if 0 <= p {
            lemma_ws_end_bounds(s, p);
        }
        assert(0 <= q0) by {
            if p < 0 {
                assert(network::ident_end(s, q0) == q0);
            }
        }
        if q0 <= s.len() {
            lemma_ident_end_bounds(s, q0);
            if e1 + 1 <= s.len() {
                lemma_ident_end_bounds(s, e1 + 1);
            }
        }
    }
}


/// An identifier is the string that the string rule reads where it starts:
/// a quoted text or a bare word, with white space around.
pub proof fn lemma_id_is_the_string_read(s: Seq<char>, p: int)
    ensures
        atoms::Id::spec_parse(s, p) matches SpecOutcome::Parsed(v, q) ==> {
            let r0 = spec_padded::<String>(s, ws_end(s, p));
            &&& r0 == SpecOutcome::Parsed(v, r0.end())
            &&& q == ws_end(s, r0.end())
        },
        spec_padded::<String>(s, ws_end(s, p)) is Parsed ==> atoms::Id::spec_parse(s, p) is Parsed,
{
}

/// A padstack id is the identifier read where it starts.
pub proof fn lemma_padstack_id_is_the_id_read(s: Seq<char>, p: int)
    ensures
        structure::PadstackId::spec_parse(s, p) matches SpecOutcome::Parsed(v, q) ==> {
            let r0 = spec_padded::<atoms::Id>(s, ws_end(s, p));
            &&& r0 == SpecOutcome::Parsed(v, r0.end())
            &&& q == ws_end(s, r0.end())
        },
        spec_padded::<atoms::Id>(s, ws_end(s, p)) is Parsed ==> structure::PadstackId::spec_parse(s, p) is Parsed,
{
}

} // verus!
