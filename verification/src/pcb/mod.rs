//! The design file: header descriptors and the sections of a PCB.

pub mod structure;
pub mod placement;
pub mod library;
pub mod network;
pub mod wiring;

use vstd::prelude::*;
use crate::outcome::{Outcome, SpecOutcome, bind};
use crate::parsable::{Parsable, spec_padded, parse_padded, spec_named, parse_named, spec_optional, parse_optional, spec_optional_named, parse_optional_named, spec_open, parse_open, spec_close, parse_close, spec_keyword_item, parse_keyword_item};
use crate::atoms;
use crate::numeric;

verus! {

/// Written `(pcb pcb_id [parser] [resolution] [unit] [structure] [placement] [library] [network] [wiring])`.
#[derive(Debug, Clone, PartialEq)]
pub struct Pcb {
    pub pcb_id: atoms::Id,
    pub parser: Option<ParserDescriptor>,
    pub resolution: Option<ResolutionDescriptor>,
    pub unit: Option<UnitDescriptor>,
    pub structure: Option<structure::StructureDescriptor>,
    pub placement: Option<placement::PlacementDescriptor>,
    pub library: Option<library::LibraryDescriptor>,
    pub network: Option<network::NetworkDescriptor>,
    pub wiring: Option<wiring::WiringDescriptor>,
}

pub struct SpecPcb {
    pub pcb_id: Seq<char>,
    pub parser: Option<SpecParserDescriptor>,
    pub resolution: Option<ResolutionDescriptor>,
    pub unit: Option<UnitDescriptor>,
    pub structure: Option<structure::SpecStructureDescriptor>,
    pub placement: Option<placement::SpecPlacementDescriptor>,
    pub library: Option<library::SpecLibraryDescriptor>,
    pub network: Option<network::SpecNetworkDescriptor>,
    pub wiring: Option<wiring::SpecWiringDescriptor>,
}

impl DeepView for Pcb {
    type V = SpecPcb;

    open spec fn deep_view(&self) -> SpecPcb {
        SpecPcb { pcb_id: self.pcb_id.deep_view(), parser: self.parser.deep_view(), resolution: self.resolution.deep_view(), unit: self.unit.deep_view(), structure: self.structure.deep_view(), placement: self.placement.deep_view(), library: self.library.deep_view(), network: self.network.deep_view(), wiring: self.wiring.deep_view() }
    }
}

impl Parsable for Pcb {
    open spec fn spec_parse(s: Seq<char>, p: int) -> SpecOutcome<SpecPcb> {
        match spec_open(s, p, "pcb"@) {
            None => SpecOutcome::Failed,
            Some(q0) => bind(spec_padded::<atoms::Id>(s, q0), |pcb_id: Seq<char>, q1: int|
                bind(spec_optional::<ParserDescriptor>(s, q1), |parser: Option<SpecParserDescriptor>, q2: int|
                bind(spec_optional::<ResolutionDescriptor>(s, q2), |resolution: Option<ResolutionDescriptor>, q3: int|
                bind(spec_optional::<UnitDescriptor>(s, q3), |unit: Option<UnitDescriptor>, q4: int|
                bind(spec_optional::<structure::StructureDescriptor>(s, q4), |structure: Option<structure::SpecStructureDescriptor>, q5: int|
                bind(spec_optional::<placement::PlacementDescriptor>(s, q5), |placement: Option<placement::SpecPlacementDescriptor>, q6: int|
                bind(spec_optional::<library::LibraryDescriptor>(s, q6), |library: Option<library::SpecLibraryDescriptor>, q7: int|
                bind(spec_optional::<network::NetworkDescriptor>(s, q7), |network: Option<network::SpecNetworkDescriptor>, q8: int|
                bind(spec_optional::<wiring::WiringDescriptor>(s, q8), |wiring: Option<wiring::SpecWiringDescriptor>, q9: int|
                match spec_close(s, q9) {
                    None => SpecOutcome::Failed,
                    Some(q) => SpecOutcome::Parsed(SpecPcb { pcb_id, parser, resolution, unit, structure, placement, library, network, wiring }, q),
                }))))))))),
        }
    }

    fn parse_at(s: &Vec<char>, p: usize) -> (r: Outcome<Pcb>) {
        let q0 = match parse_open(s, p, "pcb") {
            Some(q) => q,
            None => return Outcome::Failed,
        };
        let (v_pcb_id, q1) = match parse_padded::<atoms::Id>(s, q0) {
            Outcome::Parsed(v, q) => (v, q),
            Outcome::Failed => return Outcome::Failed,
            Outcome::Aborted => return Outcome::Aborted,
        };
        let (v_parser, q2) = match parse_optional::<ParserDescriptor>(s, q1) {
            Outcome::Parsed(v, q) => (v, q),
            Outcome::Failed => return Outcome::Failed,
            Outcome::Aborted => return Outcome::Aborted,
        };
        let (v_resolution, q3) = match parse_optional::<ResolutionDescriptor>(s, q2) {
            Outcome::Parsed(v, q) => (v, q),
            Outcome::Failed => return Outcome::Failed,
            Outcome::Aborted => return Outcome::Aborted,
        };
        let (v_unit, q4) = match parse_optional::<UnitDescriptor>(s, q3) {
            Outcome::Parsed(v, q) => (v, q),
            Outcome::Failed => return Outcome::Failed,
            Outcome::Aborted => return Outcome::Aborted,
        };
        let (v_structure, q5) = match parse_optional::<structure::StructureDescriptor>(s, q4) {
            Outcome::Parsed(v, q) => (v, q),
            Outcome::Failed => return Outcome::Failed,
            Outcome::Aborted => return Outcome::Aborted,
        };
        let (v_placement, q6) = match parse_optional::<placement::PlacementDescriptor>(s, q5) {
            Outcome::Parsed(v, q) => (v, q),
            Outcome::Failed => return Outcome::Failed,
            Outcome::Aborted => return Outcome::Aborted,
        };
        let (v_library, q7) = match parse_optional::<library::LibraryDescriptor>(s, q6) {
            Outcome::Parsed(v, q) => (v, q),
            Outcome::Failed => return Outcome::Failed,
            Outcome::Aborted => return Outcome::Aborted,
        };
        let (v_network, q8) = match parse_optional::<network::NetworkDescriptor>(s, q7) {
            Outcome::Parsed(v, q) => (v, q),
            Outcome::Failed => return Outcome::Failed,
            Outcome::Aborted => return Outcome::Aborted,
        };
        let (v_wiring, q9) = match parse_optional::<wiring::WiringDescriptor>(s, q8) {
            Outcome::Parsed(v, q) => (v, q),
            Outcome::Failed => return Outcome::Failed,
            Outcome::Aborted => return Outcome::Aborted,
        };
        let q10 = match parse_close(s, q9) {
            Some(q) => q,
            None => return Outcome::Failed,
        };
        Outcome::Parsed(Pcb { pcb_id: v_pcb_id, parser: v_parser, resolution: v_resolution, unit: v_unit, structure: v_structure, placement: v_placement, library: v_library, network: v_network, wiring: v_wiring }, q10)
    }
}

/// Written `(parser [(string_quote string_quote)] (space_in_quoted_tokens space_in_quoted_tokens) [(host_cad host_cad)] [(host_version host_version)] constants*)`.
#[derive(Debug, Clone, PartialEq)]
pub struct ParserDescriptor {
    pub string_quote: Option<QuoteChar>,
    pub space_in_quoted_tokens: atoms::Bool,
    pub host_cad: Option<atoms::Id>,
    pub host_version: Option<atoms::Id>,
    pub constants: Vec<Constant>,
}

pub struct SpecParserDescriptor {
    pub string_quote: Option<QuoteChar>,
    pub space_in_quoted_tokens: atoms::Bool,
    pub host_cad: Option<Seq<char>>,
    pub host_version: Option<Seq<char>>,
    pub constants: Seq<SpecConstant>,
}

impl DeepView for ParserDescriptor {
    type V = SpecParserDescriptor;

    open spec fn deep_view(&self) -> SpecParserDescriptor {
        SpecParserDescriptor { string_quote: self.string_quote.deep_view(), space_in_quoted_tokens: self.space_in_quoted_tokens.deep_view(), host_cad: self.host_cad.deep_view(), host_version: self.host_version.deep_view(), constants: self.constants.deep_view() }
    }
}

impl Parsable for ParserDescriptor {
    open spec fn spec_parse(s: Seq<char>, p: int) -> SpecOutcome<SpecParserDescriptor> {
        match spec_open(s, p, "parser"@) {
            None => SpecOutcome::Failed,
            Some(q0) => bind(spec_optional_named::<QuoteChar>(s, q0, "string_quote"@), |string_quote: Option<QuoteChar>, q1: int|
                bind(spec_named::<atoms::Bool>(s, q1, "space_in_quoted_tokens"@), |space_in_quoted_tokens: atoms::Bool, q2: int|
                bind(spec_optional_named::<atoms::Id>(s, q2, "host_cad"@), |host_cad: Option<Seq<char>>, q3: int|
                bind(spec_optional_named::<atoms::Id>(s, q3, "host_version"@), |host_version: Option<Seq<char>>, q4: int|
                bind(spec_padded::<Vec<Constant>>(s, q4), |constants: Seq<SpecConstant>, q5: int|
                match spec_close(s, q5) {
                    None => SpecOutcome::Failed,
                    Some(q) => SpecOutcome::Parsed(SpecParserDescriptor { string_quote, space_in_quoted_tokens, host_cad, host_version, constants }, q),
                }))))),
        }
    }

    fn parse_at(s: &Vec<char>, p: usize) -> (r: Outcome<ParserDescriptor>) {
        let q0 = match parse_open(s, p, "parser") {
            Some(q) => q,
            None => return Outcome::Failed,
        };
        let (v_string_quote, q1) = match parse_optional_named::<QuoteChar>(s, q0, "string_quote") {
            Outcome::Parsed(v, q) => (v, q),
            Outcome::Failed => return Outcome::Failed,
            Outcome::Aborted => return Outcome::Aborted,
        };
        let (v_space_in_quoted_tokens, q2) = match parse_named::<atoms::Bool>(s, q1, "space_in_quoted_tokens") {
            Outcome::Parsed(v, q) => (v, q),
            Outcome::Failed => return Outcome::Failed,
            Outcome::Aborted => return Outcome::Aborted,
        };
        let (v_host_cad, q3) = match parse_optional_named::<atoms::Id>(s, q2, "host_cad") {
            Outcome::Parsed(v, q) => (v, q),
            Outcome::Failed => return Outcome::Failed,
            Outcome::Aborted => return Outcome::Aborted,
        };
        let (v_host_version, q4) = match parse_optional_named::<atoms::Id>(s, q3, "host_version") {
            Outcome::Parsed(v, q) => (v, q),
            Outcome::Failed => return Outcome::Failed,
            Outcome::Aborted => return Outcome::Aborted,
        };
        let (v_constants, q5) = match parse_padded::<Vec<Constant>>(s, q4) {
            Outcome::Parsed(v, q) => (v, q),
            Outcome::Failed => return Outcome::Failed,
            Outcome::Aborted => return Outcome::Aborted,
        };
        let q6 = match parse_close(s, q5) {
            Some(q) => q,
            None => return Outcome::Failed,
        };
        Outcome::Parsed(ParserDescriptor { string_quote: v_string_quote, space_in_quoted_tokens: v_space_in_quoted_tokens, host_cad: v_host_cad, host_version: v_host_version, constants: v_constants }, q6)
    }
}

/// Written `(resolution unit value)`.
#[derive(Debug, Clone, Copy, PartialEq)]
pub struct ResolutionDescriptor {
    pub unit: numeric::DimensionUnit,
    pub value: numeric::PositiveInteger,
}

impl DeepView for ResolutionDescriptor {
    type V = ResolutionDescriptor;

    open spec fn deep_view(&self) -> ResolutionDescriptor {
        *self
    }
}

impl Parsable for ResolutionDescriptor {
    open spec fn spec_parse(s: Seq<char>, p: int) -> SpecOutcome<ResolutionDescriptor> {
        match spec_open(s, p, "resolution"@) {
            None => SpecOutcome::Failed,
            Some(q0) => bind(spec_padded::<numeric::DimensionUnit>(s, q0), |unit: numeric::DimensionUnit, q1: int|
                bind(spec_padded::<numeric::PositiveInteger>(s, q1), |value: numeric::PositiveInteger, q2: int|
                match spec_close(s, q2) {
                    None => SpecOutcome::Failed,
                    Some(q) => SpecOutcome::Parsed(ResolutionDescriptor { unit, value }, q),
                })),
        }
    }

    fn parse_at(s: &Vec<char>, p: usize) -> (r: Outcome<ResolutionDescriptor>) {
        let q0 = match parse_open(s, p, "resolution") {
            Some(q) => q,
            None => return Outcome::Failed,
        };
        let (v_unit, q1) = match parse_padded::<numeric::DimensionUnit>(s, q0) {
            Outcome::Parsed(v, q) => (v, q),
            Outcome::Failed => return Outcome::Failed,
            Outcome::Aborted => return Outcome::Aborted,
        };
        let (v_value, q2) = match parse_padded::<numeric::PositiveInteger>(s, q1) {
            Outcome::Parsed(v, q) => (v, q),
            Outcome::Failed => return Outcome::Failed,
            Outcome::Aborted => return Outcome::Aborted,
        };
        let q3 = match parse_close(s, q2) {
            Some(q) => q,
            None => return Outcome::Failed,
        };
        Outcome::Parsed(ResolutionDescriptor { unit: v_unit, value: v_value }, q3)
    }
}

/// Written `(unit unit)`.
#[derive(Debug, Clone, Copy, PartialEq)]
pub struct UnitDescriptor {
    pub unit: numeric::DimensionUnit,
}

impl DeepView for UnitDescriptor {
    type V = UnitDescriptor;

    open spec fn deep_view(&self) -> UnitDescriptor {
        *self
    }
}

impl Parsable for UnitDescriptor {
    open spec fn spec_parse(s: Seq<char>, p: int) -> SpecOutcome<UnitDescriptor> {
        match spec_open(s, p, "unit"@) {
            None => SpecOutcome::Failed,
            Some(q0) => bind(spec_padded::<numeric::DimensionUnit>(s, q0), |unit: numeric::DimensionUnit, q1: int|
                match spec_close(s, q1) {
                    None => SpecOutcome::Failed,
                    Some(q) => SpecOutcome::Parsed(UnitDescriptor { unit }, q),
                }),
        }
    }

    fn parse_at(s: &Vec<char>, p: usize) -> (r: Outcome<UnitDescriptor>) {
        let q0 = match parse_open(s, p, "unit") {
            Some(q) => q,
            None => return Outcome::Failed,
        };
        let (v_unit, q1) = match parse_padded::<numeric::DimensionUnit>(s, q0) {
            Outcome::Parsed(v, q) => (v, q),
            Outcome::Failed => return Outcome::Failed,
            Outcome::Aborted => return Outcome::Aborted,
        };
        let q2 = match parse_close(s, q1) {
            Some(q) => q,
            None => return Outcome::Failed,
        };
        Outcome::Parsed(UnitDescriptor { unit: v_unit }, q2)
    }
}

/// Written `(constant Id Id)`.
#[derive(Debug, Clone, PartialEq)]
pub struct Constant(pub atoms::Id, pub atoms::Id);

pub struct SpecConstant(pub Seq<char>, pub Seq<char>);

impl DeepView for Constant {
    type V = SpecConstant;

    open spec fn deep_view(&self) -> SpecConstant {
        SpecConstant(self.0.deep_view(), self.1.deep_view())
    }
}

impl Parsable for Constant {
    open spec fn spec_parse(s: Seq<char>, p: int) -> SpecOutcome<SpecConstant> {
        match spec_open(s, p, "constant"@) {
            None => SpecOutcome::Failed,
            Some(q0) => bind(spec_padded::<atoms::Id>(s, q0), |v0: Seq<char>, q1: int|
                bind(spec_padded::<atoms::Id>(s, q1), |v1: Seq<char>, q2: int|
                match spec_close(s, q2) {
                    None => SpecOutcome::Failed,
                    Some(q) => SpecOutcome::Parsed(SpecConstant(v0, v1), q),
                })),
        }
    }

    fn parse_at(s: &Vec<char>, p: usize) -> (r: Outcome<Constant>) {
        let q0 = match parse_open(s, p, "constant") {
            Some(q) => q,
            None => return Outcome::Failed,
        };
        let (v_0, q1) = match parse_padded::<atoms::Id>(s, q0) {
            Outcome::Parsed(v, q) => (v, q),
            Outcome::Failed => return Outcome::Failed,
            Outcome::Aborted => return Outcome::Aborted,
        };
        let (v_1, q2) = match parse_padded::<atoms::Id>(s, q1) {
            Outcome::Parsed(v, q) => (v, q),
            Outcome::Failed => return Outcome::Failed,
            Outcome::Aborted => return Outcome::Aborted,
        };
        let q3 = match parse_close(s, q2) {
            Some(q) => q,
            None => return Outcome::Failed,
        };
        Outcome::Parsed(Constant(v_0, v_1), q3)
    }
}

/// One of, tried in this order:
/// - `DoubleQuote`: `"`
/// - `SingleQuote`: `'`
/// - `DollarSign`: `$`
#[derive(Debug, Clone, Copy, PartialEq)]
pub enum QuoteChar {
    DoubleQuote,
    SingleQuote,
    DollarSign,
}

impl DeepView for QuoteChar {
    type V = QuoteChar;

    open spec fn deep_view(&self) -> QuoteChar {
        *self
    }
}

pub open spec fn spec_quote_char_double_quote(s: Seq<char>, p: int) -> SpecOutcome<QuoteChar> {
    match spec_keyword_item(s, p, "\""@) {
        None => SpecOutcome::Failed,
        Some(q) => SpecOutcome::Parsed(QuoteChar::DoubleQuote, q),
    }
}

fn parse_quote_char_double_quote(s: &Vec<char>, p: usize) -> (r: Outcome<QuoteChar>)
    requires
        p <= s.len(),
    ensures
        r@ == spec_quote_char_double_quote(s@, p as int),
        r.within(p as int, s.len() as int),
{
    let q0 = match parse_keyword_item(s, p, "\"") {
        Some(q) => q,
        None => return Outcome::Failed,
    };
    Outcome::Parsed(QuoteChar::DoubleQuote, q0)
}

pub open spec fn spec_quote_char_single_quote(s: Seq<char>, p: int) -> SpecOutcome<QuoteChar> {
    match spec_keyword_item(s, p, "'"@) {
        None => SpecOutcome::Failed,
        Some(q) => SpecOutcome::Parsed(QuoteChar::SingleQuote, q),
    }
}

fn parse_quote_char_single_quote(s: &Vec<char>, p: usize) -> (r: Outcome<QuoteChar>)
    requires
        p <= s.len(),
    ensures
        r@ == spec_quote_char_single_quote(s@, p as int),
        r.within(p as int, s.len() as int),
{
    let q0 = match parse_keyword_item(s, p, "'") {
        Some(q) => q,
        None => return Outcome::Failed,
    };
    Outcome::Parsed(QuoteChar::SingleQuote, q0)
}

pub open spec fn spec_quote_char_dollar_sign(s: Seq<char>, p: int) -> SpecOutcome<QuoteChar> {
    match spec_keyword_item(s, p, "$"@) {
        None => SpecOutcome::Failed,
        Some(q) => SpecOutcome::Parsed(QuoteChar::DollarSign, q),
    }
}

fn parse_quote_char_dollar_sign(s: &Vec<char>, p: usize) -> (r: Outcome<QuoteChar>)
    requires
        p <= s.len(),
    ensures
        r@ == spec_quote_char_dollar_sign(s@, p as int),
        r.within(p as int, s.len() as int),
{
    let q0 = match parse_keyword_item(s, p, "$") {
        Some(q) => q,
        None => return Outcome::Failed,
    };
    Outcome::Parsed(QuoteChar::DollarSign, q0)
}

impl Parsable for QuoteChar {
    open spec fn spec_parse(s: Seq<char>, p: int) -> SpecOutcome<QuoteChar> {
        match spec_quote_char_double_quote(s, p) {
            SpecOutcome::Failed => match spec_quote_char_single_quote(s, p) {
                SpecOutcome::Failed => spec_quote_char_dollar_sign(s, p),
                o => o,
            },
            o => o,
        }
    }

    fn parse_at(s: &Vec<char>, p: usize) -> (r: Outcome<QuoteChar>) {
        match parse_quote_char_double_quote(s, p) {
            Outcome::Failed => {},
            o => return o,
        }
        match parse_quote_char_single_quote(s, p) {
            Outcome::Failed => {},
            o => return o,
        }
        parse_quote_char_dollar_sign(s, p)
    }
}

/// The fields of `Pcb` come from the text in
/// declaration order: each is what its own rule reads where the previous one
/// ended.
pub proof fn lemma_pcb_fields_in_order(s: Seq<char>, p: int)
    ensures
        Pcb::spec_parse(s, p) matches SpecOutcome::Parsed(v, q) ==> {
            let q0 = spec_open(s, p, "pcb"@).unwrap();
            let r0 = spec_padded::<atoms::Id>(s, q0);
            let r1 = spec_optional::<ParserDescriptor>(s, r0.end());
            let r2 = spec_optional::<ResolutionDescriptor>(s, r1.end());
            let r3 = spec_optional::<UnitDescriptor>(s, r2.end());
            let r4 = spec_optional::<structure::StructureDescriptor>(s, r3.end());
            let r5 = spec_optional::<placement::PlacementDescriptor>(s, r4.end());
            let r6 = spec_optional::<library::LibraryDescriptor>(s, r5.end());
            let r7 = spec_optional::<network::NetworkDescriptor>(s, r6.end());
            let r8 = spec_optional::<wiring::WiringDescriptor>(s, r7.end());
            &&& spec_open(s, p, "pcb"@) is Some
            &&& r0 == SpecOutcome::Parsed(v.pcb_id, r0.end())
            &&& r1 == SpecOutcome::Parsed(v.parser, r1.end())
            &&& r2 == SpecOutcome::Parsed(v.resolution, r2.end())
            &&& r3 == SpecOutcome::Parsed(v.unit, r3.end())
            &&& r4 == SpecOutcome::Parsed(v.structure, r4.end())
            &&& r5 == SpecOutcome::Parsed(v.placement, r5.end())
            &&& r6 == SpecOutcome::Parsed(v.library, r6.end())
            &&& r7 == SpecOutcome::Parsed(v.network, r7.end())
            &&& r8 == SpecOutcome::Parsed(v.wiring, r8.end())
            &&& spec_close(s, r8.end()) == Some(q)
        },
{
}

/// The fields of `ParserDescriptor` come from the text in
/// declaration order: each is what its own rule reads where the previous one
/// ended.
pub proof fn lemma_parser_descriptor_fields_in_order(s: Seq<char>, p: int)
    ensures
        ParserDescriptor::spec_parse(s, p) matches SpecOutcome::Parsed(v, q) ==> {
            let q0 = spec_open(s, p, "parser"@).unwrap();
            let r0 = spec_optional_named::<QuoteChar>(s, q0, "string_quote"@);
            let r1 = spec_named::<atoms::Bool>(s, r0.end(), "space_in_quoted_tokens"@);
            let r2 = spec_optional_named::<atoms::Id>(s, r1.end(), "host_cad"@);
            let r3 = spec_optional_named::<atoms::Id>(s, r2.end(), "host_version"@);
            let r4 = spec_padded::<Vec<Constant>>(s, r3.end());
            &&& spec_open(s, p, "parser"@) is Some
            &&& r0 == SpecOutcome::Parsed(v.string_quote, r0.end())
            &&& r1 == SpecOutcome::Parsed(v.space_in_quoted_tokens, r1.end())
            &&& r2 == SpecOutcome::Parsed(v.host_cad, r2.end())
            &&& r3 == SpecOutcome::Parsed(v.host_version, r3.end())
            &&& r4 == SpecOutcome::Parsed(v.constants, r4.end())
            &&& spec_close(s, r4.end()) == Some(q)
        },
{
}

/// The fields of `ResolutionDescriptor` come from the text in
/// declaration order: each is what its own rule reads where the previous one
/// ended.
pub proof fn lemma_resolution_descriptor_fields_in_order(s: Seq<char>, p: int)
    ensures
        ResolutionDescriptor::spec_parse(s, p) matches SpecOutcome::Parsed(v, q) ==> {
            let q0 = spec_open(s, p, "resolution"@).unwrap();
            let r0 = spec_padded::<numeric::DimensionUnit>(s, q0);
            let r1 = spec_padded::<numeric::PositiveInteger>(s, r0.end());
            &&& spec_open(s, p, "resolution"@) is Some
            &&& r0 == SpecOutcome::Parsed(v.unit, r0.end())
            &&& r1 == SpecOutcome::Parsed(v.value, r1.end())
            &&& spec_close(s, r1.end()) == Some(q)
        },
{
}

/// The fields of `UnitDescriptor` come from the text in
/// declaration order: each is what its own rule reads where the previous one
/// ended.
pub proof fn lemma_unit_descriptor_fields_in_order(s: Seq<char>, p: int)
    ensures
        UnitDescriptor::spec_parse(s, p) matches SpecOutcome::Parsed(v, q) ==> {
            let q0 = spec_open(s, p, "unit"@).unwrap();
            let r0 = spec_padded::<numeric::DimensionUnit>(s, q0);
            &&& spec_open(s, p, "unit"@) is Some
            &&& r0 == SpecOutcome::Parsed(v.unit, r0.end())
            &&& spec_close(s, r0.end()) == Some(q)
        },
{
}

/// The fields of `Constant` come from the text in
/// declaration order: each is what its own rule reads where the previous one
/// ended.
pub proof fn lemma_constant_fields_in_order(s: Seq<char>, p: int)
    ensures
        Constant::spec_parse(s, p) matches SpecOutcome::Parsed(v, q) ==> {
            let q0 = spec_open(s, p, "constant"@).unwrap();
            let r0 = spec_padded::<atoms::Id>(s, q0);
            let r1 = spec_padded::<atoms::Id>(s, r0.end());
            &&& spec_open(s, p, "constant"@) is Some
            &&& r0 == SpecOutcome::Parsed(v.0, r0.end())
            &&& r1 == SpecOutcome::Parsed(v.1, r1.end())
            &&& spec_close(s, r1.end()) == Some(q)
        },
{
}

} // verus!
