use dxf_entities::attribute::Attribute;
use dxf_entities::code_pair::{CodePair, DxfError, Point};
use dxf_entities::entity::{Entity, EntityType};
use dxf_entities::enums::MTextFlag;
use dxf_entities::points::{combine_points_2, combine_points_3};
use dxf_entities::stream::CodePairStream;

fn b(x: f64) -> u64 {
    x.to_bits()
}

fn s(code: i32, t: &str) -> CodePair {
    CodePair::new_str(code, String::from(t))
}

fn d(code: i32, x: f64) -> CodePair {
    CodePair::new_f64(code, b(x))
}

fn h(code: i32, v: i16) -> CodePair {
    CodePair::new_i16(code, v)
}

fn stream(pairs: Vec<CodePair>) -> CodePairStream {
    CodePairStream::new(pairs.into_iter().map(Ok).collect())
}

fn read_one(pairs: Vec<CodePair>) -> Result<Option<Entity>, DxfError> {
    let mut st = stream(pairs);
    Entity::read(&mut st)
}

#[test]
fn lw_polyline_second_vertex_bulge_defaults_to_zero() {
    let e = read_one(vec![
        s(0, "LWPOLYLINE"),
        d(10, 1.0),
        d(20, 2.0),
        d(42, 0.5),
        d(10, 3.0),
        d(20, 4.0),
        s(0, "ENDSEC"),
    ])
    .unwrap()
    .unwrap();
    match e.specific {
        EntityType::LwPolyline(p) => {
            assert_eq!(p.vertices.len(), 2);
            assert_eq!(p.vertices[0].x, b(1.0));
            assert_eq!(p.vertices[0].y, b(2.0));
            assert_eq!(p.vertices[0].bulge, b(0.5));
            assert_eq!(p.vertices[1].x, b(3.0));
            assert_eq!(p.vertices[1].y, b(4.0));
            assert_eq!(p.vertices[1].bulge, 0);
        }
        _ => panic!("expected a light polyline"),
    }
}

#[test]
fn lw_polyline_vertex_code_before_any_vertex_fails() {
    let r = read_one(vec![s(0, "LWPOLYLINE"), d(20, 1.0), s(0, "ENDSEC")]);
    assert_eq!(r, Err(DxfError::UnexpectedEmptySet));
}

#[test]
fn attribute_xrecord_flags_fill_in_order() {
    let e = read_one(vec![
        s(0, "ATTRIB"),
        s(100, "AcDbXrecord"),
        h(70, 4),
        h(70, 1),
        h(70, 5),
        s(0, "ENDSEC"),
    ])
    .unwrap()
    .unwrap();
    match e.specific {
        EntityType::Attribute(a) => {
            assert_eq!(a.m_text_flag, MTextFlag::ConstantMultilineAttributeDefinition);
            assert!(a.is_really_locked);
            assert_eq!(a.secondary_attribute_count, 5);
            assert_eq!(a.flags, 0);
        }
        _ => panic!("expected an attribute"),
    }
}

#[test]
fn attribute_fourth_xrecord_flag_fails() {
    let r = read_one(vec![
        s(0, "ATTRIB"),
        s(100, "AcDbXrecord"),
        h(70, 2),
        h(70, 0),
        h(70, 0),
        h(70, 9),
        s(0, "ENDSEC"),
    ]);
    assert_eq!(r, Err(DxfError::UnexpectedCodePair(h(70, 9))));
}

#[test]
fn attribute_codes_outside_xrecord_keep_plain_meaning() {
    let e = read_one(vec![
        s(0, "ATTRIB"),
        s(100, "AcDbText"),
        d(10, 1.5),
        s(2, "TAG"),
        h(70, 3),
        h(280, 0),
        h(280, 1),
        s(100, "AcDbXrecord"),
        d(10, 7.0),
        s(2, "XTAG"),
        h(280, 1),
        s(340, "1F"),
        s(-1, "a0"),
        s(0, "ENDSEC"),
    ])
    .unwrap()
    .unwrap();
    match e.specific {
        EntityType::Attribute(a) => {
            assert_eq!(a.location.x, b(1.5));
            assert_eq!(a.attribute_tag, "TAG");
            assert_eq!(a.flags, 3);
            assert!(a.is_locked_in_block);
            assert_eq!(a.alignment_point.x, b(7.0));
            assert_eq!(a.x_record_tag, "XTAG");
            assert!(a.keep_duplicate_records);
            assert_eq!(a.secondary_attributes, vec![0x1F]);
            assert_eq!(a.m_text, 0xA0);
        }
        _ => panic!("expected an attribute"),
    }
}

#[test]
fn mtext_rotation_before_column_type_then_columns() {
    let e = read_one(vec![
        s(0, "MTEXT"),
        d(50, 30.0),
        h(75, 1),
        d(50, 3.0),
        d(50, 10.0),
        d(50, 20.0),
        s(0, "ENDSEC"),
    ])
    .unwrap()
    .unwrap();
    match e.specific {
        EntityType::MText(m) => {
            assert_eq!(m.rotation_angle, b(30.0));
            assert_eq!(m.column_type, 1);
            assert_eq!(m.column_count, 3);
            assert_eq!(m.column_heights, vec![b(10.0), b(20.0)]);
        }
        _ => panic!("expected multi-line text"),
    }
}

#[test]
fn point_assembly_zips_axes_in_order() {
    let xs = vec![b(1.0), b(2.0)];
    let ys = vec![b(3.0), b(4.0)];
    let zs = vec![b(5.0), b(6.0)];
    let r = combine_points_3(&xs, &ys, &zs);
    assert_eq!(r, vec![Point::new(b(1.0), b(3.0), b(5.0)), Point::new(b(2.0), b(4.0), b(6.0))]);
}

#[test]
fn point_assembly_stops_at_shortest_run() {
    let xs = vec![b(1.0), b(2.0), b(9.0)];
    let ys = vec![b(3.0), b(4.0)];
    let r = combine_points_2(&xs, &ys);
    assert_eq!(r, vec![Point::new(b(1.0), b(3.0), 0), Point::new(b(2.0), b(4.0), 0)]);
}

#[test]
fn leader_vertices_assembled_from_runs() {
    let e = read_one(vec![
        s(0, "LEADER"),
        d(10, 1.0),
        d(20, 3.0),
        d(30, 5.0),
        d(10, 2.0),
        d(20, 4.0),
        d(30, 6.0),
        s(0, "ENDSEC"),
    ])
    .unwrap()
    .unwrap();
    match e.specific {
        EntityType::Leader(l) => {
            assert_eq!(
                l.vertices,
                vec![Point::new(b(1.0), b(3.0), b(5.0)), Point::new(b(2.0), b(4.0), b(6.0))]
            );
        }
        _ => panic!("expected a leader"),
    }
}

#[test]
fn unknown_entity_between_two_known_is_skipped() {
    let mut st = stream(vec![
        s(0, "LINE"),
        d(10, 1.0),
        s(0, "SOME_FUTURE_ENTITY"),
        s(1, "payload"),
        d(10, 9.0),
        s(0, "CIRCLE"),
        d(40, 2.0),
        s(0, "ENDSEC"),
    ]);
    let first = Entity::read(&mut st).unwrap().unwrap();
    let second = Entity::read(&mut st).unwrap().unwrap();
    let third = Entity::read(&mut st).unwrap();
    match first.specific {
        EntityType::Line(l) => assert_eq!(l.p1.x, b(1.0)),
        _ => panic!("expected a line"),
    }
    match second.specific {
        EntityType::Circle(c) => assert_eq!(c.radius, b(2.0)),
        _ => panic!("expected a circle"),
    }
    assert!(third.is_none());
}

#[test]
fn unresolved_dimension_is_dropped_and_reading_continues() {
    let mut st = stream(vec![
        s(0, "DIMENSION"),
        s(1, "text"),
        h(70, 1),
        s(100, "AcDbDimension"),
        s(0, "LINE"),
        d(11, 4.0),
        s(0, "ENDSEC"),
    ]);
    let first = Entity::read(&mut st).unwrap().unwrap();
    match first.specific {
        EntityType::Line(l) => assert_eq!(l.p2.x, b(4.0)),
        _ => panic!("expected a line"),
    }
    assert!(Entity::read(&mut st).unwrap().is_none());
}

#[test]
fn dimension_resolves_kind_from_marker() {
    let e = read_one(vec![
        s(0, "DIMENSION"),
        s(1, "txt"),
        h(70, 4 | 32),
        s(100, "AcDbRadialDimension"),
        d(15, 2.0),
        d(40, 7.5),
        s(8, "dims"),
        s(0, "ENDSEC"),
    ])
    .unwrap()
    .unwrap();
    assert_eq!(e.common.layer, "dims");
    match e.specific {
        EntityType::RadialDimension(r) => {
            assert_eq!(r.dimension_base.text, "txt");
            assert_eq!(r.dimension_base.get_dimension_type(), 36);
            assert!(r.dimension_base.is_block_reference_referenced_by_this_block_only);
            assert_eq!(r.definition_point_2.x, b(2.0));
            assert_eq!(r.leader_length, b(7.5));
        }
        _ => panic!("expected a radial dimension"),
    }
}

#[test]
fn section_end_yields_none_and_stays() {
    let mut st = stream(vec![s(0, "ENDSEC")]);
    assert_eq!(Entity::read(&mut st), Ok(None));
    assert_eq!(Entity::read(&mut st), Ok(None));
    let mut blk = stream(vec![s(0, "ENDBLK")]);
    assert_eq!(Entity::read(&mut blk), Ok(None));
}

#[test]
fn end_of_input_inside_entity_fails() {
    assert_eq!(read_one(vec![s(0, "LINE"), d(10, 1.0)]), Err(DxfError::UnexpectedEndOfInput));
    assert_eq!(read_one(vec![]), Err(DxfError::UnexpectedEndOfInput));
}

#[test]
fn pair_other_than_type_marker_first_fails() {
    assert_eq!(read_one(vec![d(10, 1.0)]), Err(DxfError::UnexpectedCodePair(d(10, 1.0))));
}

#[test]
fn wrong_value_shape_fails() {
    let r = read_one(vec![s(0, "LINE"), s(10, "oops"), s(0, "ENDSEC")]);
    assert_eq!(r, Err(DxfError::WrongValueType(10)));
}

#[test]
fn enumeration_value_out_of_domain_fails() {
    let r = read_one(vec![s(0, "MTEXT"), h(71, 42), s(0, "ENDSEC")]);
    assert_eq!(r, Err(DxfError::UnexpectedEnumValue(42)));
    let r = read_one(vec![s(0, "DIMENSION"), h(70, 9), s(0, "ENDSEC")]);
    assert_eq!(r, Err(DxfError::UnexpectedEnumValue(9)));
}

#[test]
fn bad_handle_text_fails() {
    let r = read_one(vec![s(0, "LINE"), s(5, "XYZ"), s(0, "ENDSEC")]);
    assert_eq!(r, Err(DxfError::ParseIntError(String::from("XYZ"))));
}

#[test]
fn source_failure_is_passed_on() {
    let mut st = CodePairStream::new(vec![
        Ok(s(0, "LINE")),
        Err(DxfError::ReadError(String::from("bad float"))),
    ]);
    assert_eq!(Entity::read(&mut st), Err(DxfError::ReadError(String::from("bad float"))));
}

#[test]
fn common_fields_read_for_any_kind() {
    let e = read_one(vec![s(0, "POINT"), s(5, "2A"), s(8, "L1"), s(6, "DASHED"), h(62, 3), s(0, "ENDSEC")])
        .unwrap()
        .unwrap();
    assert_eq!(e.common.handle, 0x2A);
    assert_eq!(e.common.layer, "L1");
    assert_eq!(e.common.line_type_name, "DASHED");
    assert_eq!(e.common.color.raw_value, 3);
}

#[test]
fn attribute_version_latch_then_lock() {
    let e = read_one(vec![s(0, "ATTRIB"), h(280, 0), h(280, 1), s(0, "ENDSEC")]).unwrap().unwrap();
    match e.specific {
        EntityType::Attribute(a) => {
            assert!(a.is_locked_in_block);
        }
        _ => panic!("expected an attribute"),
    }
    let r = read_one(vec![s(0, "ATTRIB"), h(280, 5), s(0, "ENDSEC")]);
    assert_eq!(r, Err(DxfError::UnexpectedEnumValue(5)));
}

#[test]
fn attribute_default_matches_fresh_value() {
    let e = read_one(vec![s(0, "ATTRIB"), s(0, "ENDSEC")]).unwrap().unwrap();
    assert_eq!(e.specific, EntityType::Attribute(Attribute::default_value()));
}
