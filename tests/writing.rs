use dxf_entities::attribute::{Attribute, AttributeDefinition};
use dxf_entities::code_pair::{CodePair, CodePairValue, Color, Point, Vector};
use dxf_entities::common::EntityCommon;
use dxf_entities::dimension::{
    AngularThreePointDimension, DiameterDimension, DimensionBase, OrdinateDimension,
    RadialDimension, RotatedDimension,
};
use dxf_entities::entity::{Entity, EntityType};
use dxf_entities::enums::{
    AcadVersion, AttachmentPoint, DimensionType, DrawingDirection, HorizontalTextJustification,
    MTextFlag, VerticalTextJustification,
};
use dxf_entities::float_bits::truncate_to_i32;
use dxf_entities::handle::{as_u32, handle_text};
use dxf_entities::lw_polyline::{LwPolyline, LwPolylineVertex};
use dxf_entities::m_text::MText;
use dxf_entities::simple::{
    Arc, Circle, Face3D, Leader, Line, ModelPoint, Polyline, ProxyEntity, Solid, Spline, Trace,
    Vertex, Wipeout,
};
use dxf_entities::stream::CodePairStream;

fn b(x: f64) -> u64 {
    x.to_bits()
}

fn p(x: f64, y: f64, z: f64) -> Point {
    Point::new(b(x), b(y), b(z))
}

fn write(e: &Entity, v: AcadVersion) -> Vec<CodePair> {
    let mut out = Vec::new();
    e.write(&v, true, &mut out);
    out
}

fn round_trip(e: Entity, v: AcadVersion) -> Entity {
    let mut pairs = write(&e, v);
    pairs.push(CodePair::new_str(0, String::from("ENDSEC")));
    let mut st = CodePairStream::new(pairs.into_iter().map(Ok).collect());
    let back = Entity::read(&mut st).unwrap().unwrap();
    assert_eq!(Entity::read(&mut st), Ok(None));
    back
}

fn with_common(specific: EntityType) -> Entity {
    let mut e = Entity::new(specific);
    e.common.handle = 0x1A2B;
    e.common.layer = String::from("walls");
    e.common.line_type_name = String::from("DASHED");
    e.common.color = Color::from_raw_value(5);
    e
}

fn check(e: Entity) {
    let back = round_trip(e.clone(), AcadVersion::R2018);
    assert_eq!(back, e);
}

fn base() -> DimensionBase {
    let mut d = DimensionBase::default_value();
    d.block_name = String::from("*D1");
    d.definition_point_1 = p(1.0, 2.0, 3.0);
    d.text_mid_point = p(4.0, 5.0, 6.0);
    d.set_dimension_type(1 | 64).unwrap();
    d.attachment_point = AttachmentPoint::BottomRight;
    d.text_line_spacing_factor = b(1.5);
    d.actual_measurement = b(12.25);
    d.text = String::from("dim <>");
    d.text_rotation_angle = b(15.0);
    d.horizontal_direction_angle = b(30.0);
    d.normal = Vector::new(0, 0, b(-1.0));
    d.dimension_style_name = String::from("ISO");
    d
}

#[test]
fn round_trip_simple_kinds() {
    let mut line = Line::new(p(1.0, 2.0, 3.0), p(4.0, 5.0, 6.0));
    line.thickness = b(0.25);
    check(with_common(EntityType::Line(line)));
    let mut circle = Circle::new(p(1.0, 1.0, 0.0), b(3.0));
    circle.normal = Vector::new(b(1.0), 0, 0);
    check(with_common(EntityType::Circle(circle)));
    check(with_common(EntityType::Arc(Arc::new(p(0.0, 1.0, 2.0), b(5.0), b(10.0), b(200.0)))));
    let mut pt = ModelPoint::new(p(7.0, 8.0, 9.0));
    pt.angle = b(45.0);
    check(with_common(EntityType::ModelPoint(pt)));
    let mut face = Face3D::new(p(0.0, 0.0, 0.0), p(1.0, 0.0, 0.0), p(1.0, 1.0, 0.0), p(0.0, 1.0, 0.0));
    face.edge_flags = 5;
    check(with_common(EntityType::Face3D(face)));
    check(with_common(EntityType::Solid(Solid::new(p(0.0, 0.0, 0.0), p(2.0, 0.0, 0.0), p(0.0, 2.0, 0.0), p(2.0, 2.0, 0.0)))));
    check(with_common(EntityType::Trace(Trace::new(p(0.0, 0.0, 0.0), p(3.0, 0.0, 0.0), p(0.0, 3.0, 0.0), p(3.0, 3.0, 0.0)))));
    let mut v = Vertex::new(p(1.0, 2.0, 0.0));
    v.bulge = b(0.5);
    v.flags = 32;
    check(with_common(EntityType::Vertex(v)));
    let mut proxy = ProxyEntity::default_value();
    proxy.object_drawing_format = 0x0001_0002;
    check(with_common(EntityType::ProxyEntity(proxy)));
}

#[test]
fn round_trip_point_list_kinds() {
    let mut leader = Leader::default_value();
    leader.dimension_style_name = String::from("ARROWS");
    leader.vertices = vec![p(1.0, 2.0, 3.0), p(4.0, 5.0, 6.0)];
    check(with_common(EntityType::Leader(leader)));
    let mut spline = Spline::default_value();
    spline.degree_of_curve = 3;
    spline.control_points = vec![p(0.0, 0.0, 0.0), p(1.0, 1.0, 0.0), p(2.0, 0.0, 0.0)];
    spline.fit_points = vec![p(0.5, 0.5, 0.0)];
    check(with_common(EntityType::Spline(spline)));
    let mut wipeout = Wipeout::default_value();
    wipeout.location = p(1.0, 1.0, 1.0);
    wipeout.clipping_vertices = vec![p(0.0, 0.0, 0.0), p(1.0, 0.0, 0.0), p(1.0, 1.0, 0.0)];
    check(with_common(EntityType::Wipeout(wipeout)));
}

#[test]
fn round_trip_context_sensitive_kinds() {
    let mut poly = LwPolyline::default_value();
    poly.flags = 1;
    poly.constant_width = b(0.1);
    let mut v1 = LwPolylineVertex::default_value();
    v1.x = b(1.0);
    v1.y = b(2.0);
    v1.id = 7;
    v1.bulge = b(0.5);
    let mut v2 = LwPolylineVertex::default_value();
    v2.x = b(3.0);
    v2.y = b(4.0);
    v2.starting_width = b(0.2);
    v2.ending_width = b(0.3);
    poly.vertices = vec![v1, v2];
    check(with_common(EntityType::LwPolyline(poly)));

    let mut text = MText::default_value();
    text.insertion_point = p(1.0, 2.0, 3.0);
    text.extended_text = vec![String::from("first "), String::from("second ")];
    text.text = String::from("last");
    text.attachment_point = AttachmentPoint::MiddleCenter;
    text.drawing_direction = DrawingDirection::TopToBottom;
    text.rotation_angle = b(90.0);
    text.background_color_name = String::from("teal");
    text.background_fill_color = Color::from_raw_value(4);
    text.column_type = 2;
    text.column_count = 3;
    text.is_column_auto_height = true;
    text.column_width = b(10.0);
    check(with_common(EntityType::MText(text)));

    let mut att = Attribute::default_value();
    att.value = String::from("42");
    att.attribute_tag = String::from("NUMBER");
    att.x_record_tag = String::from("XR");
    att.location = p(1.0, 2.0, 3.0);
    att.alignment_point = p(4.0, 5.0, 6.0);
    att.text_height = b(2.5);
    att.annotation_scale = b(0.5);
    att.flags = 8;
    att.m_text_flag = MTextFlag::ConstantMultilineAttributeDefinition;
    att.is_really_locked = true;
    att.secondary_attribute_count = 2;
    att.secondary_attributes = vec![0xAB, 0x10];
    att.horizontal_text_justification = HorizontalTextJustification::Fit;
    att.vertical_text_justification = VerticalTextJustification::Top;
    att.keep_duplicate_records = true;
    att.is_locked_in_block = true;
    check(with_common(EntityType::Attribute(att)));

    let mut def = AttributeDefinition::default_value();
    def.value = String::from("default");
    def.text_tag = String::from("TAG");
    def.prompt = String::from("Enter value");
    def.field_length = 12;
    check(with_common(EntityType::AttributeDefinition(def)));
}

#[test]
fn round_trip_dimension_kinds() {
    let mut rot = RotatedDimension::with_dimension_base(base());
    rot.insertion_point = p(1.0, 0.0, 0.0);
    rot.definition_point_2 = p(2.0, 0.0, 0.0);
    rot.definition_point_3 = p(3.0, 0.0, 0.0);
    rot.rotation_angle = b(12.0);
    rot.extension_line_angle = b(3.0);
    check(with_common(EntityType::RotatedDimension(rot)));
    let mut rad = RadialDimension::with_dimension_base(base());
    rad.definition_point_2 = p(5.0, 5.0, 0.0);
    rad.leader_length = b(2.0);
    check(with_common(EntityType::RadialDimension(rad)));
    let mut dia = DiameterDimension::with_dimension_base(base());
    dia.leader_length = b(4.0);
    check(with_common(EntityType::DiameterDimension(dia)));
    let mut ang = AngularThreePointDimension::with_dimension_base(base());
    ang.definition_point_5 = p(9.0, 9.0, 9.0);
    check(with_common(EntityType::AngularThreePointDimension(ang)));
    let mut ord = OrdinateDimension::with_dimension_base(base());
    ord.definition_point_3 = p(8.0, 8.0, 8.0);
    check(with_common(EntityType::OrdinateDimension(ord)));
}

#[test]
fn round_trip_at_early_release_drops_later_fields() {
    let mut text = MText::default_value();
    text.text = String::from("hello");
    text.background_color_name = String::from("teal");
    text.column_count = 2;
    let back = round_trip(with_common(EntityType::MText(text.clone())), AcadVersion::R13);
    let mut expected = text;
    expected.background_color_name = String::new();
    expected.column_count = 0;
    let mut e = with_common(EntityType::MText(expected));
    e.common.handle = 0x1A2B;
    assert_eq!(back, e);
}

#[test]
fn packed_dimension_type_round_trips() {
    for kind in 0..7i16 {
        for flags in 0..8i16 {
            let v = kind | (flags << 5);
            let mut d = DimensionBase::default_value();
            d.set_dimension_type(v).unwrap();
            assert_eq!(d.get_dimension_type(), v);
        }
    }
    let mut d = DimensionBase::default_value();
    d.set_dimension_type(6 | 16 | 128).unwrap();
    assert_eq!(d.dimension_type, DimensionType::Ordinate);
    assert!(d.is_at_user_defined_location);
    assert_eq!(d.get_dimension_type(), 6 | 128);
}

fn has_marker(pairs: &[CodePair], text: &str) -> bool {
    pairs.iter().any(|p| p.code == 100 && p.value == CodePairValue::Str(String::from(text)))
}

#[test]
fn rotated_dimension_markers_depend_on_release() {
    let e = with_common(EntityType::RotatedDimension(RotatedDimension::with_dimension_base(base())));
    let early = write(&e, AcadVersion::R12);
    assert!(!has_marker(&early, "AcDbAlignedDimension"));
    assert!(!has_marker(&early, "AcDbRotatedDimension"));
    assert!(early.iter().all(|p| p.code != 100));
    let late = write(&e, AcadVersion::R13);
    assert!(has_marker(&late, "AcDbAlignedDimension"));
    assert!(has_marker(&late, "AcDbRotatedDimension"));
    let radial = with_common(EntityType::RadialDimension(RadialDimension::with_dimension_base(base())));
    assert!(has_marker(&write(&radial, AcadVersion::R12), "AcDbRadialDimension"));
}

#[test]
fn kind_missing_from_release_is_not_written() {
    let e = with_common(EntityType::LwPolyline(LwPolyline::default_value()));
    assert!(write(&e, AcadVersion::R12).is_empty());
    assert!(!write(&e, AcadVersion::R14).is_empty());
}

#[test]
fn polyline_is_followed_by_vertices_and_terminator() {
    let mut poly = Polyline::default_value();
    poly.vertices = vec![Vertex::new(p(1.0, 0.0, 0.0)), Vertex::new(p(2.0, 0.0, 0.0))];
    let pairs = write(&Entity::new(EntityType::Polyline(poly)), AcadVersion::R12);
    let markers: Vec<String> = pairs
        .iter()
        .filter(|p| p.code == 0)
        .map(|p| match &p.value {
            CodePairValue::Str(s) => s.clone(),
            _ => String::new(),
        })
        .collect();
    assert_eq!(markers, vec!["POLYLINE", "VERTEX", "VERTEX", "SEQEND"]);
    let mut all = pairs;
    all.push(CodePair::new_str(0, String::from("ENDSEC")));
    let mut st = CodePairStream::new(all.into_iter().map(Ok).collect());
    let _poly = Entity::read(&mut st).unwrap().unwrap();
    match Entity::read(&mut st).unwrap().unwrap().specific {
        EntityType::Vertex(v) => assert_eq!(v.location.x, b(1.0)),
        _ => panic!("expected a vertex"),
    }
}

#[test]
fn common_fields_written_first() {
    let e = with_common(EntityType::Line(Line::new(p(0.0, 0.0, 0.0), p(1.0, 1.0, 1.0))));
    let pairs = write(&e, AcadVersion::R2000);
    assert_eq!(pairs[0], CodePair::new_str(0, String::from("LINE")));
    assert_eq!(pairs[1], CodePair::new_str(5, String::from("1A2B")));
    assert_eq!(pairs[2], CodePair::new_str(100, String::from("AcDbEntity")));
    assert_eq!(pairs[3], CodePair::new_str(8, String::from("walls")));
    let mut out = Vec::new();
    e.write(&AcadVersion::R12, false, &mut out);
    assert_eq!(out[1], CodePair::new_str(8, String::from("walls")));
}

#[test]
fn handles_as_hex_text() {
    assert_eq!(handle_text(255), "FF");
    assert_eq!(handle_text(0), "0");
    assert_eq!(as_u32(String::from("ff")), Ok(255));
    assert_eq!(as_u32(String::from("FFFFFFFF")), Ok(u32::MAX));
    assert!(as_u32(String::from("")).is_err());
    assert!(as_u32(String::from("1FFFFFFFF")).is_err());
    assert!(as_u32(String::from("12G")).is_err());
    let mut common = EntityCommon::new();
    common.apply_individual_pair(&CodePair::new_str(5, String::from("beef"))).unwrap();
    assert_eq!(common.handle, 0xBEEF);
}

#[test]
fn truncation_of_reals() {
    assert_eq!(truncate_to_i32(b(3.9)), 3);
    assert_eq!(truncate_to_i32(b(-3.9)), -3);
    assert_eq!(truncate_to_i32(b(0.5)), 0);
    assert_eq!(truncate_to_i32(b(f64::NAN)), 0);
    assert_eq!(truncate_to_i32(b(1e20)), i32::MAX);
    assert_eq!(truncate_to_i32(b(-1e20)), i32::MIN);
    assert_eq!(truncate_to_i32(b(2147483647.0)), i32::MAX);
    assert_eq!(truncate_to_i32(b(-2147483648.0)), i32::MIN);
    assert_eq!(truncate_to_i32(b(f64::INFINITY)), i32::MAX);
}

#[test]
fn proxy_entity_format_words() {
    let mut proxy = ProxyEntity::default_value();
    proxy.set_object_drawing_format_version(0x1234);
    assert_eq!(proxy.get_object_drawing_format_version(), 0x1234);
    proxy.set_object_mainenance_release_version(3);
    assert_eq!(proxy.object_drawing_format, (3 << 4) + 0x1234);
    assert_eq!(proxy.get_object_maintenance_release_version(), ((3 << 4) + 0x1234) >> 4);
    assert_eq!(proxy.proxy_entity_class_id, 498);
}

#[test]
fn constructors_fill_given_fields() {
    let c = Circle::new(p(1.0, 2.0, 3.0), b(4.0));
    assert_eq!(c.center, p(1.0, 2.0, 3.0));
    assert_eq!(c.radius, b(4.0));
    assert_eq!(c.normal, Vector::z_axis());
    let a = Arc::new(p(0.0, 0.0, 0.0), b(1.0), b(2.0), b(3.0));
    assert_eq!((a.start_angle, a.end_angle), (b(2.0), b(3.0)));
    let e = Entity::new(EntityType::Line(Line::new(p(1.0, 1.0, 1.0), p(2.0, 2.0, 2.0))));
    assert_eq!(e.common.layer, "0");
    assert_eq!(e.common.line_type_name, "BYLAYER");
    assert_eq!(e.common.color.raw_value, 256);
}
