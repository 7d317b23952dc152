use dsn::atoms::Id;
use dsn::numeric::{DimensionUnit, NumberType, PositiveInteger, Sign};
use dsn::outcome::Outcome;
use dsn::parsable::parse_str;
use dsn::pcb::library::{AttachDescriptor, PinRefDescriptor};
use dsn::pcb::network::NetPinsOrOrder;
use dsn::pcb::placement::Side;
use dsn::pcb::structure::{BoundaryDescriptorType, ClearanceType, LayerType, PropertyValue, RuleDescriptorType};
use dsn::pcb::wiring::{WireDescriptor, WireType};
use dsn::pcb::{Pcb, QuoteChar};
use dsn::shapes::ShapeDescriptor;

const BOARD: &str = r#"(pcb "board.dsn"
  (parser
    (string_quote ")
    (space_in_quoted_tokens on)
    (host_cad "KiCad's Pcbnew")
    (host_version "7.0.1")
  )
  (resolution um 10)
  (unit um)
  (structure
    (layer F.Cu
      (type signal)
      (property
        (index 0)
      )
    )
    (layer B.Cu
      (type signal)
      (property
        (index 1)
      )
    )
    (boundary
      (path pcb 0  0 0  100 0  100 100  0 100  0 0)
    )
    (via "Via[0-1]_600:300_um")
    (rule
      (width 250)
      (clearance 200.1)
      (clearance 200.1 (type default_smd))
      (clearance 50 (type smd_smd))
    )
  )
  (placement
    (component "Resistor_SMD:R_0805"
      (place R1 1000 2000 front 0 (PN 10k))
      (place R2 -1000.5 2000 back 180)
    )
  )
  (library
    (image "Resistor_SMD:R_0805"
      (outline (path signal 120  -100 0  100 0))
      (pin Rect[T]Pad_1000x1250_um 1 -950 0)
      (pin Rect[T]Pad_1000x1250_um 2 950 0)
    )
    (padstack Rect[T]Pad_1000x1250_um
      (shape (rect F.Cu -500 -625 500 625))
      (attach off)
    )
  )
  (network
    (net GND
      (pins R1-1 R2-2)
    )
    (class kicad_default "" GND
      (circuit
        (use_via Via[0-1]_600:300_um)
      )
      (rule
        (width 250)
        (clearance 200.1)
      )
    )
  )
  (wiring
    (wire (path F.Cu 250  1000 2000  3000 2000)(net GND)(type route))
    (via "Via[0-1]_600:300_um" 3000 2000 (net GND)(type route))
  )
)
"#;

fn id(s: &str) -> Id {
    Id::new(s.to_string())
}

#[test]
fn board_parses_whole() {
    let r = parse_str::<Pcb>(BOARD);
    let end = match &r {
        Outcome::Parsed(_, end) => *end,
        _ => panic!("failed to parse pcb: {:?}", r),
    };
    assert_eq!(end, BOARD.chars().count());
}

#[test]
fn board_header() {
    let pcb = parse_str::<Pcb>(BOARD).value().unwrap();
    assert_eq!(pcb.pcb_id, id("board.dsn"));
    let parser = pcb.parser.unwrap();
    assert_eq!(parser.string_quote, Some(QuoteChar::DoubleQuote));
    assert!(parser.space_in_quoted_tokens.value());
    assert_eq!(parser.host_cad, Some(id("KiCad's Pcbnew")));
    assert_eq!(parser.host_version, Some(id("7.0.1")));
    assert!(parser.constants.is_empty());
    let resolution = pcb.resolution.unwrap();
    assert_eq!(resolution.unit, DimensionUnit::Um);
    assert_eq!(resolution.value, PositiveInteger(10));
    assert_eq!(pcb.unit.unwrap().unit, DimensionUnit::Um);
}

#[test]
fn board_structure() {
    let pcb = parse_str::<Pcb>(BOARD).value().unwrap();
    let structure = pcb.structure.unwrap();
    assert_eq!(structure.layers.len(), 2);
    assert_eq!(structure.layers[1].name, id("B.Cu"));
    assert_eq!(structure.layers[1].layer_type, LayerType::Signal);
    let prop = &structure.layers[1].properties[0].descriptors[0];
    assert_eq!(prop.name, id("index"));
    match &prop.value {
        PropertyValue::Number(n) => assert_eq!(n.number_type, NumberType::PosInt(PositiveInteger(1))),
        other => panic!("unexpected {:?}", other),
    }
    match &structure.boundaries[0].boundary_type {
        BoundaryDescriptorType::Paths(paths) => {
            assert_eq!(paths.len(), 1);
            assert_eq!(paths[0].layer_id, id("pcb"));
            assert_eq!(paths[0].vertices.len(), 5);
        },
        other => panic!("unexpected {:?}", other),
    }
    // An optional list is always present, possibly empty.
    assert_eq!(structure.planes, Some(vec![]));
    assert_eq!(structure.vias.padstack_ids[0].0, id("Via[0-1]_600:300_um"));
    let rules = &structure.rules.descriptors;
    assert_eq!(rules.len(), 4);
    match &rules[3] {
        RuleDescriptorType::Clearance(c) => {
            assert_eq!(c.types.as_ref().unwrap(), &vec![ClearanceType::SmdSmd()])
        },
        other => panic!("unexpected {:?}", other),
    }
}

#[test]
fn board_placement_library_network_wiring() {
    let pcb = parse_str::<Pcb>(BOARD).value().unwrap();
    let placement = pcb.placement.unwrap();
    let places = &placement.components[0].placement;
    assert_eq!(places.len(), 2);
    assert_eq!(places[0].part_number, Some(id("10k")));
    let loc = places[1].location.unwrap();
    assert_eq!(loc.side, Side::Back);
    assert_eq!(loc.vertex.0.sign, Some(Sign::Minus));

    let library = pcb.library.unwrap();
    let image = &library.images[0];
    assert_eq!(image.pins.len(), 2);
    match &image.pins[1].reference {
        PinRefDescriptor::ReferenceDescriptor { pin_id, .. } => assert_eq!(pin_id, &id("2")),
        other => panic!("unexpected {:?}", other),
    }
    let padstack = &library.padstacks.as_ref().unwrap()[0];
    assert_eq!(padstack.attach, Some(AttachDescriptor::Off()));
    match &padstack.shapes[0].shape {
        ShapeDescriptor::Rectangle(r) => assert_eq!(r.layer_id, id("F.Cu")),
        other => panic!("unexpected {:?}", other),
    }

    let network = pcb.network.unwrap();
    match network.net[0].pins_or_order.as_ref().unwrap() {
        NetPinsOrOrder::Pins(pins) => {
            assert_eq!(pins[1].component_id, id("R2"));
            assert_eq!(pins[1].pin_id, id("2"));
        },
        other => panic!("unexpected {:?}", other),
    }
    let class = &network.classes.as_ref().unwrap()[0];
    assert_eq!(class.net_or_composite.len(), 2);

    let wiring = pcb.wiring.unwrap();
    assert_eq!(wiring.wires.len(), 2);
    match &wiring.wires[1] {
        WireDescriptor::Via(v) => {
            assert_eq!(v.net, Some(id("GND")));
            assert_eq!(v.wire_type, Some(WireType::Route));
        },
        other => panic!("unexpected {:?}", other),
    }
}

#[test]
fn boundary_rectangle_is_shadowed_by_empty_path_list() {
    // The list of paths is tried first and matches nothing, so a rectangle
    // boundary is never reached.
    let r = parse_str::<dsn::pcb::structure::BoundaryDescriptor>("(boundary (rect pcb 0 0 10 10))");
    assert_eq!(r, Outcome::Failed);
}

#[test]
fn missing_close_fails() {
    assert_eq!(parse_str::<Pcb>("(pcb x"), Outcome::Failed);
    assert_eq!(parse_str::<Pcb>("pcb x)"), Outcome::Failed);
}

#[test]
fn trailing_text_is_not_read() {
    match parse_str::<Pcb>("(pcb x) garbage") {
        Outcome::Parsed(p, end) => {
            assert_eq!(p.pcb_id, id("x"));
            assert_eq!(end, 8);
        },
        other => panic!("unexpected {:?}", other),
    }
}
