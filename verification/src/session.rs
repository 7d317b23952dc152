//! A routing session file, which refers to a base design.

use vstd::prelude::*;
use crate::outcome::{Outcome, SpecOutcome, bind};
use crate::parsable::{Parsable, spec_padded, parse_padded, spec_named, parse_named, spec_optional, parse_optional, spec_optional_named, parse_optional_named, spec_open, parse_open, spec_close, parse_close};
use crate::atoms;
use crate::numeric;
use crate::pcb;
use crate::pcb::structure;
use crate::pcb::library;
use crate::pcb::wiring;

verus! {

/// Written `(session session_id (base_design base_design) routes)`.
#[derive(Debug, Clone, PartialEq)]
pub struct Session {
    pub session_id: atoms::Id,
    pub base_design: atoms::Id,
    pub routes: RouteDescriptor,
}

pub struct SpecSession {
    pub session_id: Seq<char>,
    pub base_design: Seq<char>,
    pub routes: SpecRouteDescriptor,
}

impl DeepView for Session {
    type V = SpecSession;

    open spec fn deep_view(&self) -> SpecSession {
        SpecSession { session_id: self.session_id.deep_view(), base_design: self.base_design.deep_view(), routes: self.routes.deep_view() }
    }
}

impl Parsable for Session {
    open spec fn spec_parse(s: Seq<char>, p: int) -> SpecOutcome<SpecSession> {
        match spec_open(s, p, "session"@) {
            None => SpecOutcome::Failed,
            Some(q0) => bind(spec_padded::<atoms::Id>(s, q0), |session_id: Seq<char>, q1: int|
                bind(spec_named::<atoms::Id>(s, q1, "base_design"@), |base_design: Seq<char>, q2: int|
                bind(spec_padded::<RouteDescriptor>(s, q2), |routes: SpecRouteDescriptor, q3: int|
                match spec_close(s, q3) {
                    None => SpecOutcome::Failed,
                    Some(q) => SpecOutcome::Parsed(SpecSession { session_id, base_design, routes }, q),
                }))),
        }
    }

    fn parse_at(s: &Vec<char>, p: usize) -> (r: Outcome<Session>) {
        let q0 = match parse_open(s, p, "session") {
            Some(q) => q,
            None => return Outcome::Failed,
        };
        let (v_session_id, q1) = match parse_padded::<atoms::Id>(s, q0) {
            Outcome::Parsed(v, q) => (v, q),
            Outcome::Failed => return Outcome::Failed,
            Outcome::Aborted => return Outcome::Aborted,
        };
        let (v_base_design, q2) = match parse_named::<atoms::Id>(s, q1, "base_design") {
            Outcome::Parsed(v, q) => (v, q),
            Outcome::Failed => return Outcome::Failed,
            Outcome::Aborted => return Outcome::Aborted,
        };
        let (v_routes, q3) = match parse_padded::<RouteDescriptor>(s, q2) {
            Outcome::Parsed(v, q) => (v, q),
            Outcome::Failed => return Outcome::Failed,
            Outcome::Aborted => return Outcome::Aborted,
        };
        let q4 = match parse_close(s, q3) {
            Some(q) => q,
            None => return Outcome::Failed,
        };
        Outcome::Parsed(Session { session_id: v_session_id, base_design: v_base_design, routes: v_routes }, q4)
    }
}

/// Written `(routes resolution [parser] [structure_out] [library_out] [network_out])`.
#[derive(Debug, Clone, PartialEq)]
pub struct RouteDescriptor {
    pub resolution: pcb::ResolutionDescriptor,
    pub parser: Option<pcb::ParserDescriptor>,
    pub structure_out: Option<StructureOutDescriptor>,
    pub library_out: Option<LibraryOutDescriptor>,
    pub network_out: Option<NetworkOutDescriptor>,
}

pub struct SpecRouteDescriptor {
    pub resolution: pcb::ResolutionDescriptor,
    pub parser: Option<pcb::SpecParserDescriptor>,
    pub structure_out: Option<SpecStructureOutDescriptor>,
    pub library_out: Option<SpecLibraryOutDescriptor>,
    pub network_out: Option<SpecNetworkOutDescriptor>,
}

impl DeepView for RouteDescriptor {
    type V = SpecRouteDescriptor;

    open spec fn deep_view(&self) -> SpecRouteDescriptor {
        SpecRouteDescriptor { resolution: self.resolution.deep_view(), parser: self.parser.deep_view(), structure_out: self.structure_out.deep_view(), library_out: self.library_out.deep_view(), network_out: self.network_out.deep_view() }
    }
}

impl Parsable for RouteDescriptor {
    open spec fn spec_parse(s: Seq<char>, p: int) -> SpecOutcome<SpecRouteDescriptor> {
        match spec_open(s, p, "routes"@) {
            None => SpecOutcome::Failed,
            Some(q0) => bind(spec_padded::<pcb::ResolutionDescriptor>(s, q0), |resolution: pcb::ResolutionDescriptor, q1: int|
                bind(spec_optional::<pcb::ParserDescriptor>(s, q1), |parser: Option<pcb::SpecParserDescriptor>, q2: int|
                bind(spec_optional::<StructureOutDescriptor>(s, q2), |structure_out: Option<SpecStructureOutDescriptor>, q3: int|
                bind(spec_optional::<LibraryOutDescriptor>(s, q3), |library_out: Option<SpecLibraryOutDescriptor>, q4: int|
                bind(spec_optional::<NetworkOutDescriptor>(s, q4), |network_out: Option<SpecNetworkOutDescriptor>, q5: int|
                match spec_close(s, q5) {
                    None => SpecOutcome::Failed,
                    Some(q) => SpecOutcome::Parsed(SpecRouteDescriptor { resolution, parser, structure_out, library_out, network_out }, q),
                }))))),
        }
    }

    fn parse_at(s: &Vec<char>, p: usize) -> (r: Outcome<RouteDescriptor>) {
        let q0 = match parse_open(s, p, "routes") {
            Some(q) => q,
            None => return Outcome::Failed,
        };
        let (v_resolution, q1) = match parse_padded::<pcb::ResolutionDescriptor>(s, q0) {
            Outcome::Parsed(v, q) => (v, q),
            Outcome::Failed => return Outcome::Failed,
            Outcome::Aborted => return Outcome::Aborted,
        };
        let (v_parser, q2) = match parse_optional::<pcb::ParserDescriptor>(s, q1) {
            Outcome::Parsed(v, q) => (v, q),
            Outcome::Failed => return Outcome::Failed,
            Outcome::Aborted => return Outcome::Aborted,
        };
        let (v_structure_out, q3) = match parse_optional::<StructureOutDescriptor>(s, q2) {
            Outcome::Parsed(v, q) => (v, q),
            Outcome::Failed => return Outcome::Failed,
            Outcome::Aborted => return Outcome::Aborted,
        };
        let (v_library_out, q4) = match parse_optional::<LibraryOutDescriptor>(s, q3) {
            Outcome::Parsed(v, q) => (v, q),
            Outcome::Failed => return Outcome::Failed,
            Outcome::Aborted => return Outcome::Aborted,
        };
        let (v_network_out, q5) = match parse_optional::<NetworkOutDescriptor>(s, q4) {
            Outcome::Parsed(v, q) => (v, q),
            Outcome::Failed => return Outcome::Failed,
            Outcome::Aborted => return Outcome::Aborted,
        };
        let q6 = match parse_close(s, q5) {
            Some(q) => q,
            None => return Outcome::Failed,
        };
        Outcome::Parsed(RouteDescriptor { resolution: v_resolution, parser: v_parser, structure_out: v_structure_out, library_out: v_library_out, network_out: v_network_out }, q6)
    }
}

/// Written `(structure_out layers* [rule])`.
#[derive(Debug, Clone, PartialEq)]
pub struct StructureOutDescriptor {
    pub layers: Vec<structure::LayerDescriptor>,
    pub rule: Option<structure::RuleDescriptor>,
}

pub struct SpecStructureOutDescriptor {
    pub layers: Seq<structure::SpecLayerDescriptor>,
    pub rule: Option<structure::SpecRuleDescriptor>,
}

impl DeepView for StructureOutDescriptor {
    type V = SpecStructureOutDescriptor;

    open spec fn deep_view(&self) -> SpecStructureOutDescriptor {
        SpecStructureOutDescriptor { layers: self.layers.deep_view(), rule: self.rule.deep_view() }
    }
}

impl Parsable for StructureOutDescriptor {
    open spec fn spec_parse(s: Seq<char>, p: int) -> SpecOutcome<SpecStructureOutDescriptor> {
        match spec_open(s, p, "structure_out"@) {
            None => SpecOutcome::Failed,
            Some(q0) => bind(spec_padded::<Vec<structure::LayerDescriptor>>(s, q0), |layers: Seq<structure::SpecLayerDescriptor>, q1: int|
                bind(spec_optional::<structure::RuleDescriptor>(s, q1), |rule: Option<structure::SpecRuleDescriptor>, q2: int|
                match spec_close(s, q2) {
                    None => SpecOutcome::Failed,
                    Some(q) => SpecOutcome::Parsed(SpecStructureOutDescriptor { layers, rule }, q),
                })),
        }
    }

    fn parse_at(s: &Vec<char>, p: usize) -> (r: Outcome<StructureOutDescriptor>) {
        let q0 = match parse_open(s, p, "structure_out") {
            Some(q) => q,
            None => return Outcome::Failed,
        };
        let (v_layers, q1) = match parse_padded::<Vec<structure::LayerDescriptor>>(s, q0) {
            Outcome::Parsed(v, q) => (v, q),
            Outcome::Failed => return Outcome::Failed,
            Outcome::Aborted => return Outcome::Aborted,
        };
        let (v_rule, q2) = match parse_optional::<structure::RuleDescriptor>(s, q1) {
            Outcome::Parsed(v, q) => (v, q),
            Outcome::Failed => return Outcome::Failed,
            Outcome::Aborted => return Outcome::Aborted,
        };
        let q3 = match parse_close(s, q2) {
            Some(q) => q,
            None => return Outcome::Failed,
        };
        Outcome::Parsed(StructureOutDescriptor { layers: v_layers, rule: v_rule }, q3)
    }
}

/// Written `(library_out padstacks*)`.
#[derive(Debug, Clone, PartialEq)]
pub struct LibraryOutDescriptor {
    pub padstacks: Vec<library::PadstackDescriptor>,
}

pub struct SpecLibraryOutDescriptor {
    pub padstacks: Seq<library::SpecPadstackDescriptor>,
}

impl DeepView for LibraryOutDescriptor {
    type V = SpecLibraryOutDescriptor;

    open spec fn deep_view(&self) -> SpecLibraryOutDescriptor {
        SpecLibraryOutDescriptor { padstacks: self.padstacks.deep_view() }
    }
}

impl Parsable for LibraryOutDescriptor {
    open spec fn spec_parse(s: Seq<char>, p: int) -> SpecOutcome<SpecLibraryOutDescriptor> {
        match spec_open(s, p, "library_out"@) {
            None => SpecOutcome::Failed,
            Some(q0) => bind(spec_padded::<Vec<library::PadstackDescriptor>>(s, q0), |padstacks: Seq<library::SpecPadstackDescriptor>, q1: int|
                match spec_close(s, q1) {
                    None => SpecOutcome::Failed,
                    Some(q) => SpecOutcome::Parsed(SpecLibraryOutDescriptor { padstacks }, q),
                }),
        }
    }

    fn parse_at(s: &Vec<char>, p: usize) -> (r: Outcome<LibraryOutDescriptor>) {
        let q0 = match parse_open(s, p, "library_out") {
            Some(q) => q,
            None => return Outcome::Failed,
        };
        let (v_padstacks, q1) = match parse_padded::<Vec<library::PadstackDescriptor>>(s, q0) {
            Outcome::Parsed(v, q) => (v, q),
            Outcome::Failed => return Outcome::Failed,
            Outcome::Aborted => return Outcome::Aborted,
        };
        let q2 = match parse_close(s, q1) {
            Some(q) => q,
            None => return Outcome::Failed,
        };
        Outcome::Parsed(LibraryOutDescriptor { padstacks: v_padstacks }, q2)
    }
}

/// Written `(network_out nets*)`.
#[derive(Debug, Clone, PartialEq)]
pub struct NetworkOutDescriptor {
    pub nets: Vec<NetOutDescriptor>,
}

pub struct SpecNetworkOutDescriptor {
    pub nets: Seq<SpecNetOutDescriptor>,
}

impl DeepView for NetworkOutDescriptor {
    type V = SpecNetworkOutDescriptor;

    open spec fn deep_view(&self) -> SpecNetworkOutDescriptor {
        SpecNetworkOutDescriptor { nets: self.nets.deep_view() }
    }
}

impl Parsable for NetworkOutDescriptor {
    open spec fn spec_parse(s: Seq<char>, p: int) -> SpecOutcome<SpecNetworkOutDescriptor> {
        match spec_open(s, p, "network_out"@) {
            None => SpecOutcome::Failed,
            Some(q0) => bind(spec_padded::<Vec<NetOutDescriptor>>(s, q0), |nets: Seq<SpecNetOutDescriptor>, q1: int|
                match spec_close(s, q1) {
                    None => SpecOutcome::Failed,
                    Some(q) => SpecOutcome::Parsed(SpecNetworkOutDescriptor { nets }, q),
                }),
        }
    }

    fn parse_at(s: &Vec<char>, p: usize) -> (r: Outcome<NetworkOutDescriptor>) {
        let q0 = match parse_open(s, p, "network_out") {
            Some(q) => q,
            None => return Outcome::Failed,
        };
        let (v_nets, q1) = match parse_padded::<Vec<NetOutDescriptor>>(s, q0) {
            Outcome::Parsed(v, q) => (v, q),
            Outcome::Failed => return Outcome::Failed,
            Outcome::Aborted => return Outcome::Aborted,
        };
        let q2 = match parse_close(s, q1) {
            Some(q) => q,
            None => return Outcome::Failed,
        };
        Outcome::Parsed(NetworkOutDescriptor { nets: v_nets }, q2)
    }
}

/// Written `(net net_id [(net_number net_number)] [rule] wires*)`.
#[derive(Debug, Clone, PartialEq)]
pub struct NetOutDescriptor {
    pub net_id: atoms::Id,
    pub net_number: Option<numeric::Number>,
    pub rule: Option<structure::RuleDescriptor>,
    pub wires: Vec<wiring::WireDescriptor>,
}

pub struct SpecNetOutDescriptor {
    pub net_id: Seq<char>,
    pub net_number: Option<numeric::Number>,
    pub rule: Option<structure::SpecRuleDescriptor>,
    pub wires: Seq<wiring::SpecWireDescriptor>,
}

impl DeepView for NetOutDescriptor {
    type V = SpecNetOutDescriptor;

    open spec fn deep_view(&self) -> SpecNetOutDescriptor {
        SpecNetOutDescriptor { net_id: self.net_id.deep_view(), net_number: self.net_number.deep_view(), rule: self.rule.deep_view(), wires: self.wires.deep_view() }
    }
}

impl Parsable for NetOutDescriptor {
    open spec fn spec_parse(s: Seq<char>, p: int) -> SpecOutcome<SpecNetOutDescriptor> {
        match spec_open(s, p, "net"@) {
            None => SpecOutcome::Failed,
            Some(q0) => bind(spec_padded::<atoms::Id>(s, q0), |net_id: Seq<char>, q1: int|
                bind(spec_optional_named::<numeric::Number>(s, q1, "net_number"@), |net_number: Option<numeric::Number>, q2: int|
                bind(spec_optional::<structure::RuleDescriptor>(s, q2), |rule: Option<structure::SpecRuleDescriptor>, q3: int|
                bind(spec_padded::<Vec<wiring::WireDescriptor>>(s, q3), |wires: Seq<wiring::SpecWireDescriptor>, q4: int|
                match spec_close(s, q4) {
                    None => SpecOutcome::Failed,
                    Some(q) => SpecOutcome::Parsed(SpecNetOutDescriptor { net_id, net_number, rule, wires }, q),
                })))),
        }
    }

    fn parse_at(s: &Vec<char>, p: usize) -> (r: Outcome<NetOutDescriptor>) {
        let q0 = match parse_open(s, p, "net") {
            Some(q) => q,
            None => return Outcome::Failed,
        };
        let (v_net_id, q1) = match parse_padded::<atoms::Id>(s, q0) {
            Outcome::Parsed(v, q) => (v, q),
            Outcome::Failed => return Outcome::Failed,
            Outcome::Aborted => return Outcome::Aborted,
        };
        let (v_net_number, q2) = match parse_optional_named::<numeric::Number>(s, q1, "net_number") {
            Outcome::Parsed(v, q) => (v, q),
            Outcome::Failed => return Outcome::Failed,
            Outcome::Aborted => return Outcome::Aborted,
        };
        let (v_rule, q3) = match parse_optional::<structure::RuleDescriptor>(s, q2) {
            Outcome::Parsed(v, q) => (v, q),
            Outcome::Failed => return Outcome::Failed,
            Outcome::Aborted => return Outcome::Aborted,
        };
        let (v_wires, q4) = match parse_padded::<Vec<wiring::WireDescriptor>>(s, q3) {
            Outcome::Parsed(v, q) => (v, q),
            Outcome::Failed => return Outcome::Failed,
            Outcome::Aborted => return Outcome::Aborted,
        };
        let q5 = match parse_close(s, q4) {
            Some(q) => q,
            None => return Outcome::Failed,
        };
        Outcome::Parsed(NetOutDescriptor { net_id: v_net_id, net_number: v_net_number, rule: v_rule, wires: v_wires }, q5)
    }
}

/// The fields of `Session` come from the text in
/// declaration order: each is what its own rule reads where the previous one
/// ended.
pub proof fn lemma_session_fields_in_order(s: Seq<char>, p: int)
    ensures
        Session::spec_parse(s, p) matches SpecOutcome::Parsed(v, q) ==> {
            let q0 = spec_open(s, p, "session"@).unwrap();
            let r0 = spec_padded::<atoms::Id>(s, q0);
            let r1 = spec_named::<atoms::Id>(s, r0.end(), "base_design"@);
            let r2 = spec_padded::<RouteDescriptor>(s, r1.end());
            &&& spec_open(s, p, "session"@) is Some
            &&& r0 == SpecOutcome::Parsed(v.session_id, r0.end())
            &&& r1 == SpecOutcome::Parsed(v.base_design, r1.end())
            &&& r2 == SpecOutcome::Parsed(v.routes, r2.end())
            &&& spec_close(s, r2.end()) == Some(q)
        },
{
}

/// The fields of `RouteDescriptor` come from the text in
/// declaration order: each is what its own rule reads where the previous one
/// ended.
pub proof fn lemma_route_descriptor_fields_in_order(s: Seq<char>, p: int)
    ensures
        RouteDescriptor::spec_parse(s, p) matches SpecOutcome::Parsed(v, q) ==> {
            let q0 = spec_open(s, p, "routes"@).unwrap();
            let r0 = spec_padded::<pcb::ResolutionDescriptor>(s, q0);
            let r1 = spec_optional::<pcb::ParserDescriptor>(s, r0.end());
            let r2 = spec_optional::<StructureOutDescriptor>(s, r1.end());
            let r3 = spec_optional::<LibraryOutDescriptor>(s, r2.end());
            let r4 = spec_optional::<NetworkOutDescriptor>(s, r3.end());
            &&& spec_open(s, p, "routes"@) is Some
            &&& r0 == SpecOutcome::Parsed(v.resolution, r0.end())
            &&& r1 == SpecOutcome::Parsed(v.parser, r1.end())
            &&& r2 == SpecOutcome::Parsed(v.structure_out, r2.end())
            &&& r3 == SpecOutcome::Parsed(v.library_out, r3.end())
            &&& r4 == SpecOutcome::Parsed(v.network_out, r4.end())
            &&& spec_close(s, r4.end()) == Some(q)
        },
{
}

/// The fields of `StructureOutDescriptor` come from the text in
/// declaration order: each is what its own rule reads where the previous one
/// ended.
pub proof fn lemma_structure_out_descriptor_fields_in_order(s: Seq<char>, p: int)
    ensures
        StructureOutDescriptor::spec_parse(s, p) matches SpecOutcome::Parsed(v, q) ==> {
            let q0 = spec_open(s, p, "structure_out"@).unwrap();
            let r0 = spec_padded::<Vec<structure::LayerDescriptor>>(s, q0);
            let r1 = spec_optional::<structure::RuleDescriptor>(s, r0.end());
            &&& spec_open(s, p, "structure_out"@) is Some
            &&& r0 == SpecOutcome::Parsed(v.layers, r0.end())
            &&& r1 == SpecOutcome::Parsed(v.rule, r1.end())
            &&& spec_close(s, r1.end()) == Some(q)
        },
{
}

/// The fields of `LibraryOutDescriptor` come from the text in
/// declaration order: each is what its own rule reads where the previous one
/// ended.
pub proof fn lemma_library_out_descriptor_fields_in_order(s: Seq<char>, p: int)
    ensures
        LibraryOutDescriptor::spec_parse(s, p) matches SpecOutcome::Parsed(v, q) ==> {
            let q0 = spec_open(s, p, "library_out"@).unwrap();
            let r0 = spec_padded::<Vec<library::PadstackDescriptor>>(s, q0);
            &&& spec_open(s, p, "library_out"@) is Some
            &&& r0 == SpecOutcome::Parsed(v.padstacks, r0.end())
            &&& spec_close(s, r0.end()) == Some(q)
        },
{
}

/// The fields of `NetworkOutDescriptor` come from the text in
/// declaration order: each is what its own rule reads where the previous one
/// ended.
pub proof fn lemma_network_out_descriptor_fields_in_order(s: Seq<char>, p: int)
    ensures
        NetworkOutDescriptor::spec_parse(s, p) matches SpecOutcome::Parsed(v, q) ==> {
            let q0 = spec_open(s, p, "network_out"@).unwrap();
            let r0 = spec_padded::<Vec<NetOutDescriptor>>(s, q0);
            &&& spec_open(s, p, "network_out"@) is Some
            &&& r0 == SpecOutcome::Parsed(v.nets, r0.end())
            &&& spec_close(s, r0.end()) == Some(q)
        },
{
}

/// The fields of `NetOutDescriptor` come from the text in
/// declaration order: each is what its own rule reads where the previous one
/// ended.
pub proof fn lemma_net_out_descriptor_fields_in_order(s: Seq<char>, p: int)
    ensures
        NetOutDescriptor::spec_parse(s, p) matches SpecOutcome::Parsed(v, q) ==> {
            let q0 = spec_open(s, p, "net"@).unwrap();
            let r0 = spec_padded::<atoms::Id>(s, q0);
            let r1 = spec_optional_named::<numeric::Number>(s, r0.end(), "net_number"@);
            let r2 = spec_optional::<structure::RuleDescriptor>(s, r1.end());
            let r3 = spec_padded::<Vec<wiring::WireDescriptor>>(s, r2.end());
            &&& spec_open(s, p, "net"@) is Some
            &&& r0 == SpecOutcome::Parsed(v.net_id, r0.end())
            &&& r1 == SpecOutcome::Parsed(v.net_number, r1.end())
            &&& r2 == SpecOutcome::Parsed(v.rule, r2.end())
            &&& r3 == SpecOutcome::Parsed(v.wires, r3.end())
            &&& spec_close(s, r3.end()) == Some(q)
        },
{
}

} // verus!
