//! The `network` section: nets, classes and circuits.

use vstd::prelude::*;
use crate::outcome::{Outcome, SpecOutcome, bind};
use crate::parsable::{Parsable, spec_padded, parse_padded, spec_optional, parse_optional, spec_optional_named, parse_optional_named, spec_open, parse_open, spec_close, parse_close};
use crate::text::{ws_end, skip_ws, spec_char, copy_range, string_from_chars};
use crate::atoms;
use crate::numeric;
use crate::pcb::structure;

verus! {

/// A character of a component or pin name in a pin reference.
pub open spec fn is_ident_char(c: char) -> bool {
    ||| ('a' <= c && c <= 'z')
    ||| ('A' <= c && c <= 'Z')
    ||| ('0' <= c && c <= '9')
    ||| c == '_'
}

pub open spec fn ident_end(s: Seq<char>, p: int) -> int
    decreases s.len() - p,
{
    if 0 <= p < s.len() && is_ident_char(s[p]) {
        ident_end(s, p + 1)
    } else {
        p
    }
}

fn scan_ident(s: &Vec<char>, p: usize) -> (r: usize)
    requires
        p <= s.len(),
    ensures
        r == ident_end(s@, p as int),
        p <= r <= s.len(),
{
    let mut i = p;
    while i < s.len() && (('a' <= s[i] && s[i] <= 'z') || ('A' <= s[i] && s[i] <= 'Z') || ('0'
        <= s[i] && s[i] <= '9') || s[i] == '_')
        invariant
            p <= i <= s.len(),
            ident_end(s@, p as int) == ident_end(s@, i as int),
        decreases s.len() - i,
    {
        i = i + 1;
    }
    i
}

/// A pin of a component, written `component-pin`, where both names are runs
/// (possibly empty) of ASCII letters, digits and `_`; white space around.
#[derive(Debug, Clone, PartialEq)]
pub struct PinReference {
    pub component_id: atoms::Id,
    pub pin_id: atoms::Id,
}

pub struct SpecPinReference {
    pub component_id: Seq<char>,
    pub pin_id: Seq<char>,
}

impl DeepView for PinReference {
    type V = SpecPinReference;

    open spec fn deep_view(&self) -> SpecPinReference {
        SpecPinReference { component_id: self.component_id.deep_view(), pin_id: self.pin_id.deep_view() }
    }
}

impl Parsable for PinReference {
    open spec fn spec_parse(s: Seq<char>, p: int) -> SpecOutcome<SpecPinReference> {
        let q = ws_end(s, p);
        let e1 = ident_end(s, q);
        let e2 = ident_end(s, e1 + 1);
        if spec_char(s, e1, '-') is Some {
            SpecOutcome::Parsed(
                SpecPinReference { component_id: s.subrange(q, e1), pin_id: s.subrange(e1 + 1, e2) },
                ws_end(s, e2),
            )
        } else {
            SpecOutcome::Failed
        }
    }

    fn parse_at(s: &Vec<char>, p: usize) -> (r: Outcome<PinReference>) {
        let q = skip_ws(s, p);
        let e1 = scan_ident(s, q);
        if e1 < s.len() && s[e1] == '-' {
            let e2 = scan_ident(s, e1 + 1);
            let component_id = atoms::Id(string_from_chars(copy_range(s, q, e1)));
            let pin_id = atoms::Id(string_from_chars(copy_range(s, e1 + 1, e2)));
            Outcome::Parsed(PinReference { component_id, pin_id }, skip_ws(s, e2))
        } else {
            Outcome::Failed
        }
    }
}

/// Written `(network net* [classes*])`.
#[derive(Debug, Clone, PartialEq)]
pub struct NetworkDescriptor {
    pub net: Vec<NetDescriptor>,
    pub classes: Option<Vec<ClassDescriptor>>,
}

pub struct SpecNetworkDescriptor {
    pub net: Seq<SpecNetDescriptor>,
    pub classes: Option<Seq<SpecClassDescriptor>>,
}

impl DeepView for NetworkDescriptor {
    type V = SpecNetworkDescriptor;

    open spec fn deep_view(&self) -> SpecNetworkDescriptor {
        SpecNetworkDescriptor { net: self.net.deep_view(), classes: self.classes.deep_view() }
    }
}

impl Parsable for NetworkDescriptor {
    open spec fn spec_parse(s: Seq<char>, p: int) -> SpecOutcome<SpecNetworkDescriptor> {
        match spec_open(s, p, "network"@) {
            None => SpecOutcome::Failed,
            Some(q0) => bind(spec_padded::<Vec<NetDescriptor>>(s, q0), |net: Seq<SpecNetDescriptor>, q1: int|
                bind(spec_optional::<Vec<ClassDescriptor>>(s, q1), |classes: Option<Seq<SpecClassDescriptor>>, q2: int|
                match spec_close(s, q2) {
                    None => SpecOutcome::Failed,
                    Some(q) => SpecOutcome::Parsed(SpecNetworkDescriptor { net, classes }, q),
                })),
        }
    }

    fn parse_at(s: &Vec<char>, p: usize) -> (r: Outcome<NetworkDescriptor>) {
        let q0 = match parse_open(s, p, "network") {
            Some(q) => q,
            None => return Outcome::Failed,
        };
        let (v_net, q1) = match parse_padded::<Vec<NetDescriptor>>(s, q0) {
            Outcome::Parsed(v, q) => (v, q),
            Outcome::Failed => return Outcome::Failed,
            Outcome::Aborted => return Outcome::Aborted,
        };
        let (v_classes, q2) = match parse_optional::<Vec<ClassDescriptor>>(s, q1) {
            Outcome::Parsed(v, q) => (v, q),
            Outcome::Failed => return Outcome::Failed,
            Outcome::Aborted => return Outcome::Aborted,
        };
        let q3 = match parse_close(s, q2) {
            Some(q) => q,
            None => return Outcome::Failed,
        };
        Outcome::Parsed(NetworkDescriptor { net: v_net, classes: v_classes }, q3)
    }
}

/// Written `(net net_id [(unassigned unassigned)] [(net_number net_number)] [pins_or_order])`.
#[derive(Debug, Clone, PartialEq)]
pub struct NetDescriptor {
    pub net_id: atoms::Id,
    pub unassigned: Option<()>,
    pub net_number: Option<numeric::Number>,
    pub pins_or_order: Option<NetPinsOrOrder>,
}

pub struct SpecNetDescriptor {
    pub net_id: Seq<char>,
    pub unassigned: Option<()>,
    pub net_number: Option<numeric::Number>,
    pub pins_or_order: Option<SpecNetPinsOrOrder>,
}

impl DeepView for NetDescriptor {
    type V = SpecNetDescriptor;

    open spec fn deep_view(&self) -> SpecNetDescriptor {
        SpecNetDescriptor { net_id: self.net_id.deep_view(), unassigned: self.unassigned.deep_view(), net_number: self.net_number.deep_view(), pins_or_order: self.pins_or_order.deep_view() }
    }
}

impl Parsable for NetDescriptor {
    open spec fn spec_parse(s: Seq<char>, p: int) -> SpecOutcome<SpecNetDescriptor> {
        match spec_open(s, p, "net"@) {
            None => SpecOutcome::Failed,
            Some(q0) => bind(spec_padded::<atoms::Id>(s, q0), |net_id: Seq<char>, q1: int|
                bind(spec_optional_named::<()>(s, q1, "unassigned"@), |unassigned: Option<()>, q2: int|
                bind(spec_optional_named::<numeric::Number>(s, q2, "net_number"@), |net_number: Option<numeric::Number>, q3: int|
                bind(spec_optional::<NetPinsOrOrder>(s, q3), |pins_or_order: Option<SpecNetPinsOrOrder>, q4: int|
                match spec_close(s, q4) {
                    None => SpecOutcome::Failed,
                    Some(q) => SpecOutcome::Parsed(SpecNetDescriptor { net_id, unassigned, net_number, pins_or_order }, q),
                })))),
        }
    }

    fn parse_at(s: &Vec<char>, p: usize) -> (r: Outcome<NetDescriptor>) {
        let q0 = match parse_open(s, p, "net") {
            Some(q) => q,
            None => return Outcome::Failed,
        };
        let (v_net_id, q1) = match parse_padded::<atoms::Id>(s, q0) {
            Outcome::Parsed(v, q) => (v, q),
            Outcome::Failed => return Outcome::Failed,
            Outcome::Aborted => return Outcome::Aborted,
        };
        let (v_unassigned, q2) = match parse_optional_named::<()>(s, q1, "unassigned") {
            Outcome::Parsed(v, q) => (v, q),
            Outcome::Failed => return Outcome::Failed,
            Outcome::Aborted => return Outcome::Aborted,
        };
        let (v_net_number, q3) = match parse_optional_named::<numeric::Number>(s, q2, "net_number") {
            Outcome::Parsed(v, q) => (v, q),
            Outcome::Failed => return Outcome::Failed,
            Outcome::Aborted => return Outcome::Aborted,
        };
        let (v_pins_or_order, q4) = match parse_optional::<NetPinsOrOrder>(s, q3) {
            Outcome::Parsed(v, q) => (v, q),
            Outcome::Failed => return Outcome::Failed,
            Outcome::Aborted => return Outcome::Aborted,
        };
        let q5 = match parse_close(s, q4) {
            Some(q) => q,
            None => return Outcome::Failed,
        };
        Outcome::Parsed(NetDescriptor { net_id: v_net_id, unassigned: v_unassigned, net_number: v_net_number, pins_or_order: v_pins_or_order }, q5)
    }
}

/// One of, tried in this order:
/// - `Pins`: `(pins PinReference*)`
/// - `Order`: `(order PinReference*)`
#[derive(Debug, Clone, PartialEq)]
pub enum NetPinsOrOrder {
    Pins(Vec<PinReference>),
    Order(Vec<PinReference>),
}

pub enum SpecNetPinsOrOrder {
    Pins(Seq<SpecPinReference>),
    Order(Seq<SpecPinReference>),
}

impl DeepView for NetPinsOrOrder {
    type V = SpecNetPinsOrOrder;

    open spec fn deep_view(&self) -> SpecNetPinsOrOrder {
        match self {
            NetPinsOrOrder::Pins(v_0) => SpecNetPinsOrOrder::Pins(v_0.deep_view()),
            NetPinsOrOrder::Order(v_0) => SpecNetPinsOrOrder::Order(v_0.deep_view()),
        }
    }
}

pub open spec fn spec_net_pins_or_order_pins(s: Seq<char>, p: int) -> SpecOutcome<SpecNetPinsOrOrder> {
    match spec_open(s, p, "pins"@) {
        None => SpecOutcome::Failed,
        Some(q0) => bind(spec_padded::<Vec<PinReference>>(s, q0), |v0: Seq<SpecPinReference>, q1: int|
            match spec_close(s, q1) {
                None => SpecOutcome::Failed,
                Some(q) => SpecOutcome::Parsed(SpecNetPinsOrOrder::Pins(v0), q),
            }),
    }
}

fn parse_net_pins_or_order_pins(s: &Vec<char>, p: usize) -> (r: Outcome<NetPinsOrOrder>)
    requires
        p <= s.len(),
    ensures
        r@ == spec_net_pins_or_order_pins(s@, p as int),
        r.within(p as int, s.len() as int),
{
    let q0 = match parse_open(s, p, "pins") {
        Some(q) => q,
        None => return Outcome::Failed,
    };
    let (v_0, q1) = match parse_padded::<Vec<PinReference>>(s, q0) {
        Outcome::Parsed(v, q) => (v, q),
        Outcome::Failed => return Outcome::Failed,
        Outcome::Aborted => return Outcome::Aborted,
    };
    let q2 = match parse_close(s, q1) {
        Some(q) => q,
        None => return Outcome::Failed,
    };
    Outcome::Parsed(NetPinsOrOrder::Pins(v_0), q2)
}

pub open spec fn spec_net_pins_or_order_order(s: Seq<char>, p: int) -> SpecOutcome<SpecNetPinsOrOrder> {
    match spec_open(s, p, "order"@) {
        None => SpecOutcome::Failed,
        Some(q0) => bind(spec_padded::<Vec<PinReference>>(s, q0), |v0: Seq<SpecPinReference>, q1: int|
            match spec_close(s, q1) {
                None => SpecOutcome::Failed,
                Some(q) => SpecOutcome::Parsed(SpecNetPinsOrOrder::Order(v0), q),
            }),
    }
}

fn parse_net_pins_or_order_order(s: &Vec<char>, p: usize) -> (r: Outcome<NetPinsOrOrder>)
    requires
        p <= s.len(),
    ensures
        r@ == spec_net_pins_or_order_order(s@, p as int),
        r.within(p as int, s.len() as int),
{
    let q0 = match parse_open(s, p, "order") {
        Some(q) => q,
        None => return Outcome::Failed,
    };
    let (v_0, q1) = match parse_padded::<Vec<PinReference>>(s, q0) {
        Outcome::Parsed(v, q) => (v, q),
        Outcome::Failed => return Outcome::Failed,
        Outcome::Aborted => return Outcome::Aborted,
    };
    let q2 = match parse_close(s, q1) {
        Some(q) => q,
        None => return Outcome::Failed,
    };
    Outcome::Parsed(NetPinsOrOrder::Order(v_0), q2)
}

impl Parsable for NetPinsOrOrder {
    open spec fn spec_parse(s: Seq<char>, p: int) -> SpecOutcome<SpecNetPinsOrOrder> {
        match spec_net_pins_or_order_pins(s, p) {
            SpecOutcome::Failed => spec_net_pins_or_order_order(s, p),
            o => o,
        }
    }

    fn parse_at(s: &Vec<char>, p: usize) -> (r: Outcome<NetPinsOrOrder>) {
        match parse_net_pins_or_order_pins(s, p) {
            Outcome::Failed => {},
            o => return o,
        }
        parse_net_pins_or_order_order(s, p)
    }
}

/// Written `(class class_id net_or_composite* circuit [rules] [layer_rules*])`.
#[derive(Debug, Clone, PartialEq)]
pub struct ClassDescriptor {
    pub class_id: atoms::Id,
    pub net_or_composite: Vec<NetOrCompositeList>,
    pub circuit: CircuitDescriptor,
    pub rules: Option<structure::RuleDescriptor>,
    pub layer_rules: Option<Vec<LayerRuleDescriptor>>,
}

pub struct SpecClassDescriptor {
    pub class_id: Seq<char>,
    pub net_or_composite: Seq<SpecNetOrCompositeList>,
    pub circuit: SpecCircuitDescriptor,
    pub rules: Option<structure::SpecRuleDescriptor>,
    pub layer_rules: Option<Seq<SpecLayerRuleDescriptor>>,
}

impl DeepView for ClassDescriptor {
    type V = SpecClassDescriptor;

    open spec fn deep_view(&self) -> SpecClassDescriptor {
        SpecClassDescriptor { class_id: self.class_id.deep_view(), net_or_composite: self.net_or_composite.deep_view(), circuit: self.circuit.deep_view(), rules: self.rules.deep_view(), layer_rules: self.layer_rules.deep_view() }
    }
}

impl Parsable for ClassDescriptor {
    open spec fn spec_parse(s: Seq<char>, p: int) -> SpecOutcome<SpecClassDescriptor> {
        match spec_open(s, p, "class"@) {
            None => SpecOutcome::Failed,
            Some(q0) => bind(spec_padded::<atoms::Id>(s, q0), |class_id: Seq<char>, q1: int|
                bind(spec_padded::<Vec<NetOrCompositeList>>(s, q1), |net_or_composite: Seq<SpecNetOrCompositeList>, q2: int|
                bind(spec_padded::<CircuitDescriptor>(s, q2), |circuit: SpecCircuitDescriptor, q3: int|
                bind(spec_optional::<structure::RuleDescriptor>(s, q3), |rules: Option<structure::SpecRuleDescriptor>, q4: int|
                bind(spec_optional::<Vec<LayerRuleDescriptor>>(s, q4), |layer_rules: Option<Seq<SpecLayerRuleDescriptor>>, q5: int|
                match spec_close(s, q5) {
                    None => SpecOutcome::Failed,
                    Some(q) => SpecOutcome::Parsed(SpecClassDescriptor { class_id, net_or_composite, circuit, rules, layer_rules }, q),
                }))))),
        }
    }

    fn parse_at(s: &Vec<char>, p: usize) -> (r: Outcome<ClassDescriptor>) {
        let q0 = match parse_open(s, p, "class") {
            Some(q) => q,
            None => return Outcome::Failed,
        };
        let (v_class_id, q1) = match parse_padded::<atoms::Id>(s, q0) {
            Outcome::Parsed(v, q) => (v, q),
            Outcome::Failed => return Outcome::Failed,
            Outcome::Aborted => return Outcome::Aborted,
        };
        let (v_net_or_composite, q2) = match parse_padded::<Vec<NetOrCompositeList>>(s, q1) {
            Outcome::Parsed(v, q) => (v, q),
            Outcome::Failed => return Outcome::Failed,
            Outcome::Aborted => return Outcome::Aborted,
        };
        let (v_circuit, q3) = match parse_padded::<CircuitDescriptor>(s, q2) {
            Outcome::Parsed(v, q) => (v, q),
            Outcome::Failed => return Outcome::Failed,
            Outcome::Aborted => return Outcome::Aborted,
        };
        let (v_rules, q4) = match parse_optional::<structure::RuleDescriptor>(s, q3) {
            Outcome::Parsed(v, q) => (v, q),
            Outcome::Failed => return Outcome::Failed,
            Outcome::Aborted => return Outcome::Aborted,
        };
        let (v_layer_rules, q5) = match parse_optional::<Vec<LayerRuleDescriptor>>(s, q4) {
            Outcome::Parsed(v, q) => (v, q),
            Outcome::Failed => return Outcome::Failed,
            Outcome::Aborted => return Outcome::Aborted,
        };
        let q6 = match parse_close(s, q5) {
            Some(q) => q,
            None => return Outcome::Failed,
        };
        Outcome::Parsed(ClassDescriptor { class_id: v_class_id, net_or_composite: v_net_or_composite, circuit: v_circuit, rules: v_rules, layer_rules: v_layer_rules }, q6)
    }
}

/// One of, tried in this order:
/// - `NetId`: `Id`
/// - `CompositeNameList`: `CompositeNameList`
#[derive(Debug, Clone, PartialEq)]
pub enum NetOrCompositeList {
    NetId(atoms::Id),
    CompositeNameList(CompositeNameList),
}

pub enum SpecNetOrCompositeList {
    NetId(Seq<char>),
    CompositeNameList(SpecCompositeNameList),
}

impl DeepView for NetOrCompositeList {
    type V = SpecNetOrCompositeList;

    open spec fn deep_view(&self) -> SpecNetOrCompositeList {
        match self {
            NetOrCompositeList::NetId(v_0) => SpecNetOrCompositeList::NetId(v_0.deep_view()),
            NetOrCompositeList::CompositeNameList(v_0) => SpecNetOrCompositeList::CompositeNameList(v_0.deep_view()),
        }
    }
}

pub open spec fn spec_net_or_composite_list_net_id(s: Seq<char>, p: int) -> SpecOutcome<SpecNetOrCompositeList> {
    bind(spec_padded::<atoms::Id>(s, ws_end(s, p)), |v0: Seq<char>, q1: int|
    SpecOutcome::Parsed(SpecNetOrCompositeList::NetId(v0), ws_end(s, q1)))
}

fn parse_net_or_composite_list_net_id(s: &Vec<char>, p: usize) -> (r: Outcome<NetOrCompositeList>)
    requires
        p <= s.len(),
    ensures
        r@ == spec_net_or_composite_list_net_id(s@, p as int),
        r.within(p as int, s.len() as int),
{
    let q0 = skip_ws(s, p);
    let (v_0, q1) = match parse_padded::<atoms::Id>(s, q0) {
        Outcome::Parsed(v, q) => (v, q),
        Outcome::Failed => return Outcome::Failed,
        Outcome::Aborted => return Outcome::Aborted,
    };
    let q2 = skip_ws(s, q1);
    Outcome::Parsed(NetOrCompositeList::NetId(v_0), q2)
}

pub open spec fn spec_net_or_composite_list_composite_name_list(s: Seq<char>, p: int) -> SpecOutcome<SpecNetOrCompositeList> {
    bind(spec_padded::<CompositeNameList>(s, ws_end(s, p)), |v0: SpecCompositeNameList, q1: int|
    SpecOutcome::Parsed(SpecNetOrCompositeList::CompositeNameList(v0), ws_end(s, q1)))
}

fn parse_net_or_composite_list_composite_name_list(s: &Vec<char>, p: usize) -> (r: Outcome<NetOrCompositeList>)
    requires
        p <= s.len(),
    ensures
        r@ == spec_net_or_composite_list_composite_name_list(s@, p as int),
        r.within(p as int, s.len() as int),
{
    let q0 = skip_ws(s, p);
    let (v_0, q1) = match parse_padded::<CompositeNameList>(s, q0) {
        Outcome::Parsed(v, q) => (v, q),
        Outcome::Failed => return Outcome::Failed,
        Outcome::Aborted => return Outcome::Aborted,
    };
    let q2 = skip_ws(s, q1);
    Outcome::Parsed(NetOrCompositeList::CompositeNameList(v_0), q2)
}

impl Parsable for NetOrCompositeList {
    open spec fn spec_parse(s: Seq<char>, p: int) -> SpecOutcome<SpecNetOrCompositeList> {
        match spec_net_or_composite_list_net_id(s, p) {
            SpecOutcome::Failed => spec_net_or_composite_list_composite_name_list(s, p),
            o => o,
        }
    }

    fn parse_at(s: &Vec<char>, p: usize) -> (r: Outcome<NetOrCompositeList>) {
        match parse_net_or_composite_list_net_id(s, p) {
            Outcome::Failed => {},
            o => return o,
        }
        parse_net_or_composite_list_composite_name_list(s, p)
    }
}

/// Written `(composite [prefix] begin_index end_index step [suffix])`.
#[derive(Debug, Clone, PartialEq)]
pub struct CompositeNameList {
    pub prefix: Option<atoms::Id>,
    pub begin_index: numeric::PositiveInteger,
    pub end_index: numeric::PositiveInteger,
    pub step: numeric::PositiveInteger,
    pub suffix: Option<atoms::Id>,
}

pub struct SpecCompositeNameList {
    pub prefix: Option<Seq<char>>,
    pub begin_index: numeric::PositiveInteger,
    pub end_index: numeric::PositiveInteger,
    pub step: numeric::PositiveInteger,
    pub suffix: Option<Seq<char>>,
}

impl DeepView for CompositeNameList {
    type V = SpecCompositeNameList;

    open spec fn deep_view(&self) -> SpecCompositeNameList {
        SpecCompositeNameList { prefix: self.prefix.deep_view(), begin_index: self.begin_index.deep_view(), end_index: self.end_index.deep_view(), step: self.step.deep_view(), suffix: self.suffix.deep_view() }
    }
}

impl Parsable for CompositeNameList {
    open spec fn spec_parse(s: Seq<char>, p: int) -> SpecOutcome<SpecCompositeNameList> {
        match spec_open(s, p, "composite"@) {
            None => SpecOutcome::Failed,
            Some(q0) => bind(spec_optional::<atoms::Id>(s, q0), |prefix: Option<Seq<char>>, q1: int|
                bind(spec_padded::<numeric::PositiveInteger>(s, q1), |begin_index: numeric::PositiveInteger, q2: int|
                bind(spec_padded::<numeric::PositiveInteger>(s, q2), |end_index: numeric::PositiveInteger, q3: int|
                bind(spec_padded::<numeric::PositiveInteger>(s, q3), |step: numeric::PositiveInteger, q4: int|
                bind(spec_optional::<atoms::Id>(s, q4), |suffix: Option<Seq<char>>, q5: int|
                match spec_close(s, q5) {
                    None => SpecOutcome::Failed,
                    Some(q) => SpecOutcome::Parsed(SpecCompositeNameList { prefix, begin_index, end_index, step, suffix }, q),
                }))))),
        }
    }

    fn parse_at(s: &Vec<char>, p: usize) -> (r: Outcome<CompositeNameList>) {
        let q0 = match parse_open(s, p, "composite") {
            Some(q) => q,
            None => return Outcome::Failed,
        };
        let (v_prefix, q1) = match parse_optional::<atoms::Id>(s, q0) {
            Outcome::Parsed(v, q) => (v, q),
            Outcome::Failed => return Outcome::Failed,
            Outcome::Aborted => return Outcome::Aborted,
        };
        let (v_begin_index, q2) = match parse_padded::<numeric::PositiveInteger>(s, q1) {
            Outcome::Parsed(v, q) => (v, q),
            Outcome::Failed => return Outcome::Failed,
            Outcome::Aborted => return Outcome::Aborted,
        };
        let (v_end_index, q3) = match parse_padded::<numeric::PositiveInteger>(s, q2) {
            Outcome::Parsed(v, q) => (v, q),
            Outcome::Failed => return Outcome::Failed,
            Outcome::Aborted => return Outcome::Aborted,
        };
        let (v_step, q4) = match parse_padded::<numeric::PositiveInteger>(s, q3) {
            Outcome::Parsed(v, q) => (v, q),
            Outcome::Failed => return Outcome::Failed,
            Outcome::Aborted => return Outcome::Aborted,
        };
        let (v_suffix, q5) = match parse_optional::<atoms::Id>(s, q4) {
            Outcome::Parsed(v, q) => (v, q),
            Outcome::Failed => return Outcome::Failed,
            Outcome::Aborted => return Outcome::Aborted,
        };
        let q6 = match parse_close(s, q5) {
            Some(q) => q,
            None => return Outcome::Failed,
        };
        Outcome::Parsed(CompositeNameList { prefix: v_prefix, begin_index: v_begin_index, end_index: v_end_index, step: v_step, suffix: v_suffix }, q6)
    }
}

/// Written `(circuit descriptors*)`.
#[derive(Debug, Clone, PartialEq)]
pub struct CircuitDescriptor {
    pub descriptors: Vec<CircuitDescriptorType>,
}

pub struct SpecCircuitDescriptor {
    pub descriptors: Seq<SpecCircuitDescriptorType>,
}

impl DeepView for CircuitDescriptor {
    type V = SpecCircuitDescriptor;

    open spec fn deep_view(&self) -> SpecCircuitDescriptor {
        SpecCircuitDescriptor { descriptors: self.descriptors.deep_view() }
    }
}

impl Parsable for CircuitDescriptor {
    open spec fn spec_parse(s: Seq<char>, p: int) -> SpecOutcome<SpecCircuitDescriptor> {
        match spec_open(s, p, "circuit"@) {
            None => SpecOutcome::Failed,
            Some(q0) => bind(spec_padded::<Vec<CircuitDescriptorType>>(s, q0), |descriptors: Seq<SpecCircuitDescriptorType>, q1: int|
                match spec_close(s, q1) {
                    None => SpecOutcome::Failed,
                    Some(q) => SpecOutcome::Parsed(SpecCircuitDescriptor { descriptors }, q),
                }),
        }
    }

    fn parse_at(s: &Vec<char>, p: usize) -> (r: Outcome<CircuitDescriptor>) {
        let q0 = match parse_open(s, p, "circuit") {
            Some(q) => q,
            None => return Outcome::Failed,
        };
        let (v_descriptors, q1) = match parse_padded::<Vec<CircuitDescriptorType>>(s, q0) {
            Outcome::Parsed(v, q) => (v, q),
            Outcome::Failed => return Outcome::Failed,
            Outcome::Aborted => return Outcome::Aborted,
        };
        let q2 = match parse_close(s, q1) {
            Some(q) => q,
            None => return Outcome::Failed,
        };
        Outcome::Parsed(CircuitDescriptor { descriptors: v_descriptors }, q2)
    }
}

/// Written `(layer_rule layer_ids* rule)`.
#[derive(Debug, Clone, PartialEq)]
pub struct LayerRuleDescriptor {
    pub layer_ids: Vec<atoms::Id>,
    pub rule: structure::RuleDescriptor,
}

pub struct SpecLayerRuleDescriptor {
    pub layer_ids: Seq<Seq<char>>,
    pub rule: structure::SpecRuleDescriptor,
}

impl DeepView for LayerRuleDescriptor {
    type V = SpecLayerRuleDescriptor;

    open spec fn deep_view(&self) -> SpecLayerRuleDescriptor {
        SpecLayerRuleDescriptor { layer_ids: self.layer_ids.deep_view(), rule: self.rule.deep_view() }
    }
}

impl Parsable for LayerRuleDescriptor {
    open spec fn spec_parse(s: Seq<char>, p: int) -> SpecOutcome<SpecLayerRuleDescriptor> {
        match spec_open(s, p, "layer_rule"@) {
            None => SpecOutcome::Failed,
            Some(q0) => bind(spec_padded::<Vec<atoms::Id>>(s, q0), |layer_ids: Seq<Seq<char>>, q1: int|
                bind(spec_padded::<structure::RuleDescriptor>(s, q1), |rule: structure::SpecRuleDescriptor, q2: int|
                match spec_close(s, q2) {
                    None => SpecOutcome::Failed,
                    Some(q) => SpecOutcome::Parsed(SpecLayerRuleDescriptor { layer_ids, rule }, q),
                })),
        }
    }

    fn parse_at(s: &Vec<char>, p: usize) -> (r: Outcome<LayerRuleDescriptor>) {
        let q0 = match parse_open(s, p, "layer_rule") {
            Some(q) => q,
            None => return Outcome::Failed,
        };
        let (v_layer_ids, q1) = match parse_padded::<Vec<atoms::Id>>(s, q0) {
            Outcome::Parsed(v, q) => (v, q),
            Outcome::Failed => return Outcome::Failed,
            Outcome::Aborted => return Outcome::Aborted,
        };
        let (v_rule, q2) = match parse_padded::<structure::RuleDescriptor>(s, q1) {
            Outcome::Parsed(v, q) => (v, q),
            Outcome::Failed => return Outcome::Failed,
            Outcome::Aborted => return Outcome::Aborted,
        };
        let q3 = match parse_close(s, q2) {
            Some(q) => q,
            None => return Outcome::Failed,
        };
        Outcome::Parsed(LayerRuleDescriptor { layer_ids: v_layer_ids, rule: v_rule }, q3)
    }
}

/// One of, tried in this order:
/// - `UseVia`: `(use_via padstack_ids*)`
#[derive(Debug, Clone, PartialEq)]
pub enum CircuitDescriptorType {
    UseVia { padstack_ids: Vec<structure::PadstackId> },
}

pub enum SpecCircuitDescriptorType {
    UseVia { padstack_ids: Seq<Seq<char>> },
}

impl DeepView for CircuitDescriptorType {
    type V = SpecCircuitDescriptorType;

    open spec fn deep_view(&self) -> SpecCircuitDescriptorType {
        match self {
            CircuitDescriptorType::UseVia { padstack_ids: v_padstack_ids } => SpecCircuitDescriptorType::UseVia { padstack_ids: v_padstack_ids.deep_view() },
        }
    }
}

pub open spec fn spec_circuit_descriptor_type_use_via(s: Seq<char>, p: int) -> SpecOutcome<SpecCircuitDescriptorType> {
    match spec_open(s, p, "use_via"@) {
        None => SpecOutcome::Failed,
        Some(q0) => bind(spec_padded::<Vec<structure::PadstackId>>(s, q0), |padstack_ids: Seq<Seq<char>>, q1: int|
            match spec_close(s, q1) {
                None => SpecOutcome::Failed,
                Some(q) => SpecOutcome::Parsed(SpecCircuitDescriptorType::UseVia { padstack_ids }, q),
            }),
    }
}

fn parse_circuit_descriptor_type_use_via(s: &Vec<char>, p: usize) -> (r: Outcome<CircuitDescriptorType>)
    requires
        p <= s.len(),
    ensures
        r@ == spec_circuit_descriptor_type_use_via(s@, p as int),
        r.within(p as int, s.len() as int),
{
    let q0 = match parse_open(s, p, "use_via") {
        Some(q) => q,
        None => return Outcome::Failed,
    };
    let (v_padstack_ids, q1) = match parse_padded::<Vec<structure::PadstackId>>(s, q0) {
        Outcome::Parsed(v, q) => (v, q),
        Outcome::Failed => return Outcome::Failed,
        Outcome::Aborted => return Outcome::Aborted,
    };
    let q2 = match parse_close(s, q1) {
        Some(q) => q,
        None => return Outcome::Failed,
    };
    Outcome::Parsed(CircuitDescriptorType::UseVia { padstack_ids: v_padstack_ids }, q2)
}

impl Parsable for CircuitDescriptorType {
    open spec fn spec_parse(s: Seq<char>, p: int) -> SpecOutcome<SpecCircuitDescriptorType> {
        spec_circuit_descriptor_type_use_via(s, p)
    }

    fn parse_at(s: &Vec<char>, p: usize) -> (r: Outcome<CircuitDescriptorType>) {
        parse_circuit_descriptor_type_use_via(s, p)
    }
}

/// The fields of `NetworkDescriptor` come from the text in
/// declaration order: each is what its own rule reads where the previous one
/// ended.
pub proof fn lemma_network_descriptor_fields_in_order(s: Seq<char>, p: int)
    ensures
        NetworkDescriptor::spec_parse(s, p) matches SpecOutcome::Parsed(v, q) ==> {
            let q0 = spec_open(s, p, "network"@).unwrap();
            let r0 = spec_padded::<Vec<NetDescriptor>>(s, q0);
            let r1 = spec_optional::<Vec<ClassDescriptor>>(s, r0.end());
            &&& spec_open(s, p, "network"@) is Some
            &&& r0 == SpecOutcome::Parsed(v.net, r0.end())
            &&& r1 == SpecOutcome::Parsed(v.classes, r1.end())
            &&& spec_close(s, r1.end()) == Some(q)
        },
{
}

/// The fields of `NetDescriptor` come from the text in
/// declaration order: each is what its own rule reads where the previous one
/// ended.
pub proof fn lemma_net_descriptor_fields_in_order(s: Seq<char>, p: int)
    ensures
        NetDescriptor::spec_parse(s, p) matches SpecOutcome::Parsed(v, q) ==> {
            let q0 = spec_open(s, p, "net"@).unwrap();
            let r0 = spec_padded::<atoms::Id>(s, q0);
            let r1 = spec_optional_named::<()>(s, r0.end(), "unassigned"@);
            let r2 = spec_optional_named::<numeric::Number>(s, r1.end(), "net_number"@);
            let r3 = spec_optional::<NetPinsOrOrder>(s, r2.end());
            &&& spec_open(s, p, "net"@) is Some
            &&& r0 == SpecOutcome::Parsed(v.net_id, r0.end())
            &&& r1 == SpecOutcome::Parsed(v.unassigned, r1.end())
            &&& r2 == SpecOutcome::Parsed(v.net_number, r2.end())
            &&& r3 == SpecOutcome::Parsed(v.pins_or_order, r3.end())
            &&& spec_close(s, r3.end()) == Some(q)
        },
{
}

/// The fields of `ClassDescriptor` come from the text in
/// declaration order: each is what its own rule reads where the previous one
/// ended.
pub proof fn lemma_class_descriptor_fields_in_order(s: Seq<char>, p: int)
    ensures
        ClassDescriptor::spec_parse(s, p) matches SpecOutcome::Parsed(v, q) ==> {
            let q0 = spec_open(s, p, "class"@).unwrap();
            let r0 = spec_padded::<atoms::Id>(s, q0);
            let r1 = spec_padded::<Vec<NetOrCompositeList>>(s, r0.end());
            let r2 = spec_padded::<CircuitDescriptor>(s, r1.end());
            let r3 = spec_optional::<structure::RuleDescriptor>(s, r2.end());
            let r4 = spec_optional::<Vec<LayerRuleDescriptor>>(s, r3.end());
            &&& spec_open(s, p, "class"@) is Some
            &&& r0 == SpecOutcome::Parsed(v.class_id, r0.end())
            &&& r1 == SpecOutcome::Parsed(v.net_or_composite, r1.end())
            &&& r2 == SpecOutcome::Parsed(v.circuit, r2.end())
            &&& r3 == SpecOutcome::Parsed(v.rules, r3.end())
            &&& r4 == SpecOutcome::Parsed(v.layer_rules, r4.end())
            &&& spec_close(s, r4.end()) == Some(q)
        },
{
}

/// The fields of `CompositeNameList` come from the text in
/// declaration order: each is what its own rule reads where the previous one
/// ended.
pub proof fn lemma_composite_name_list_fields_in_order(s: Seq<char>, p: int)
    ensures
        CompositeNameList::spec_parse(s, p) matches SpecOutcome::Parsed(v, q) ==> {
            let q0 = spec_open(s, p, "composite"@).unwrap();
            let r0 = spec_optional::<atoms::Id>(s, q0);
            let r1 = spec_padded::<numeric::PositiveInteger>(s, r0.end());
            let r2 = spec_padded::<numeric::PositiveInteger>(s, r1.end());
            let r3 = spec_padded::<numeric::PositiveInteger>(s, r2.end());
            let r4 = spec_optional::<atoms::Id>(s, r3.end());
            &&& spec_open(s, p, "composite"@) is Some
            &&& r0 == SpecOutcome::Parsed(v.prefix, r0.end())
            &&& r1 == SpecOutcome::Parsed(v.begin_index, r1.end())
            &&& r2 == SpecOutcome::Parsed(v.end_index, r2.end())
            &&& r3 == SpecOutcome::Parsed(v.step, r3.end())
            &&& r4 == SpecOutcome::Parsed(v.suffix, r4.end())
            &&& spec_close(s, r4.end()) == Some(q)
        },
{
}

/// The fields of `CircuitDescriptor` come from the text in
/// declaration order: each is what its own rule reads where the previous one
/// ended.
pub proof fn lemma_circuit_descriptor_fields_in_order(s: Seq<char>, p: int)
    ensures
        CircuitDescriptor::spec_parse(s, p) matches SpecOutcome::Parsed(v, q) ==> {
            let q0 = spec_open(s, p, "circuit"@).unwrap();
            let r0 = spec_padded::<Vec<CircuitDescriptorType>>(s, q0);
            &&& spec_open(s, p, "circuit"@) is Some
            &&& r0 == SpecOutcome::Parsed(v.descriptors, r0.end())
            &&& spec_close(s, r0.end()) == Some(q)
        },
{
}

/// The fields of `LayerRuleDescriptor` come from the text in
/// declaration order: each is what its own rule reads where the previous one
/// ended.
pub proof fn lemma_layer_rule_descriptor_fields_in_order(s: Seq<char>, p: int)
    ensures
        LayerRuleDescriptor::spec_parse(s, p) matches SpecOutcome::Parsed(v, q) ==> {
            let q0 = spec_open(s, p, "layer_rule"@).unwrap();
            let r0 = spec_padded::<Vec<atoms::Id>>(s, q0);
            let r1 = spec_padded::<structure::RuleDescriptor>(s, r0.end());
            &&& spec_open(s, p, "layer_rule"@) is Some
            &&& r0 == SpecOutcome::Parsed(v.layer_ids, r0.end())
            &&& r1 == SpecOutcome::Parsed(v.rule, r1.end())
            &&& spec_close(s, r1.end()) == Some(q)
        },
{
}

/// The fields of the `Pins` form read by `spec_net_pins_or_order_pins` come from the text in
/// declaration order: each is what its own rule reads where the previous one
/// ended.
pub proof fn lemma_net_pins_or_order_pins_fields_in_order(s: Seq<char>, p: int)
    ensures
        spec_net_pins_or_order_pins(s, p) matches SpecOutcome::Parsed(v, q) ==> {
            let q0 = spec_open(s, p, "pins"@).unwrap();
            let r0 = spec_padded::<Vec<PinReference>>(s, q0);
            &&& v is Pins
            &&& spec_open(s, p, "pins"@) is Some
            &&& r0 == SpecOutcome::Parsed(v->Pins_0, r0.end())
            &&& spec_close(s, r0.end()) == Some(q)
        },
{
}

/// The fields of the `Order` form read by `spec_net_pins_or_order_order` come from the text in
/// declaration order: each is what its own rule reads where the previous one
/// ended.
pub proof fn lemma_net_pins_or_order_order_fields_in_order(s: Seq<char>, p: int)
    ensures
        spec_net_pins_or_order_order(s, p) matches SpecOutcome::Parsed(v, q) ==> {
            let q0 = spec_open(s, p, "order"@).unwrap();
            let r0 = spec_padded::<Vec<PinReference>>(s, q0);
            &&& v is Order
            &&& spec_open(s, p, "order"@) is Some
            &&& r0 == SpecOutcome::Parsed(v->Order_0, r0.end())
            &&& spec_close(s, r0.end()) == Some(q)
        },
{
}

/// The fields of the `NetId` form read by `spec_net_or_composite_list_net_id` come from the text in
/// declaration order: each is what its own rule reads where the previous one
/// ended.
pub proof fn lemma_net_or_composite_list_net_id_fields_in_order(s: Seq<char>, p: int)
    ensures
        spec_net_or_composite_list_net_id(s, p) matches SpecOutcome::Parsed(v, q) ==> {
            let r0 = spec_padded::<atoms::Id>(s, ws_end(s, p));
            &&& v is NetId
            &&& r0 == SpecOutcome::Parsed(v->NetId_0, r0.end())
            &&& q == ws_end(s, r0.end())
        },
{
}

/// The fields of the `CompositeNameList` form read by `spec_net_or_composite_list_composite_name_list` come from the text in
/// declaration order: each is what its own rule reads where the previous one
/// ended.
pub proof fn lemma_net_or_composite_list_composite_name_list_fields_in_order(s: Seq<char>, p: int)
    ensures
        spec_net_or_composite_list_composite_name_list(s, p) matches SpecOutcome::Parsed(v, q) ==> {
            let r0 = spec_padded::<CompositeNameList>(s, ws_end(s, p));
            &&& v is CompositeNameList
            &&& r0 == SpecOutcome::Parsed(v->CompositeNameList_0, r0.end())
            &&& q == ws_end(s, r0.end())
        },
{
}

/// The fields of the `UseVia` form read by `spec_circuit_descriptor_type_use_via` come from the text in
/// declaration order: each is what its own rule reads where the previous one
/// ended.
pub proof fn lemma_circuit_descriptor_type_use_via_fields_in_order(s: Seq<char>, p: int)
    ensures
        spec_circuit_descriptor_type_use_via(s, p) matches SpecOutcome::Parsed(v, q) ==> {
            let q0 = spec_open(s, p, "use_via"@).unwrap();
            let r0 = spec_padded::<Vec<structure::PadstackId>>(s, q0);
            &&& v is UseVia
            &&& spec_open(s, p, "use_via"@) is Some
            &&& r0 == SpecOutcome::Parsed(v->UseVia_padstack_ids, r0.end())
            &&& spec_close(s, r0.end()) == Some(q)
        },
{
}

/// Each form of `NetPinsOrOrder` is read only where its own head stands (its keyword,
/// or `(` and its keyword) and where no keyword of an earlier form stands:
/// the forms are tried in declaration order.
pub proof fn lemma_net_pins_or_order_forms_by_head(s: Seq<char>, p: int)
    ensures
        NetPinsOrOrder::spec_parse(s, p) matches SpecOutcome::Parsed(v, q) ==> {
            &&& v is Pins ==> spec_open(s, p, "pins"@) is Some
            &&& v is Order ==> spec_open(s, p, "order"@) is Some
        },
{
}

} // verus!
