//! Entities: the closed set of kinds, the read state machine that finds
//! entity boundaries in a stream, and the writer.

use vstd::prelude::*;
use crate::attribute::{
    Attribute, AttributeDefinition, AttributeDecoding, AttributeDecodingView, AttributeView,
    AttributeDefinitionView, attribute_decode_step, attribute_definition_decode_step,
    initial_attribute_decoding, attribute_pairs, attribute_definition_pairs,
};
use crate::code_pair::{CodePair, DxfError, PairView, pairs_view, emit, str_pair, f64_pair, xyz_pairs};
use crate::common::{
    CommonView, EntityCommon, claimed, common_pairs, common_step, default_common, fold_pairs,
    lemma_fold_err, lemma_fold_extend,
    with_common,
};
use crate::dimension::{RotatedDimension, RotatedDimensionView, rotated_dimension_pair_step, rotated_dimension_pairs, RadialDimension, RadialDimensionView, radial_dimension_pair_step, radial_dimension_pairs, DiameterDimension, DiameterDimensionView, diameter_dimension_pair_step, diameter_dimension_pairs, AngularThreePointDimension, AngularThreePointDimensionView, angular_three_point_dimension_pair_step, angular_three_point_dimension_pairs, OrdinateDimension, OrdinateDimensionView, ordinate_dimension_pair_step, ordinate_dimension_pairs, DimensionBase, DimensionBaseView, dimension_base_pair_step, dimension_base_pairs, dimension_base_pairs_1, dimension_base_pairs_2, dimension_base_pairs_3};
use crate::enums::AcadVersion;
use crate::lw_polyline::{LwPolyline, LwPolylineVertex, LwPolylineView, lw_polyline_pair_step, lw_polyline_pairs};
use crate::m_text::{MText, MTextColumnState, MTextView, m_text_decode_step, m_text_pairs};
use crate::float_bits::f64_bits_to_i32;
use crate::points::{combine_points_2, combine_points_3, zip_points_2, zip_points_3};
use crate::simple::{Line, LineView, line_pair_step, line_pairs, Circle, CircleView, circle_pair_step, circle_pairs, Arc, ArcView, arc_pair_step, arc_pairs, ModelPoint, ModelPointView, model_point_pair_step, model_point_pairs, Face3D, Face3DView, face3d_pair_step, face3d_pairs, Solid, SolidView, solid_pair_step, solid_pairs, Trace, TraceView, trace_pair_step, trace_pairs, Vertex, VertexView, vertex_pair_step, vertex_pairs, Seqend, SeqendView, seqend_pair_step, seqend_pairs, Polyline, PolylineView, polyline_pair_step, polyline_pairs, ProxyEntity, ProxyEntityView, proxy_entity_pair_step, proxy_entity_pairs, Leader, LeaderView, leader_pair_step, leader_pairs, Spline, SplineView, spline_pair_step, spline_pairs, Wipeout, WipeoutView, wipeout_pair_step, wipeout_pairs};
use crate::stream::{CodePairStream, StreamItem, pending};

verus! {

/// The specific part of an entity: exactly one of a closed set of kinds.
#[derive(Clone, Debug, PartialEq)]
pub enum EntityType {
    Line(Line),
    Circle(Circle),
    Arc(Arc),
    ModelPoint(ModelPoint),
    Face3D(Face3D),
    Solid(Solid),
    Trace(Trace),
    Vertex(Vertex),
    Seqend(Seqend),
    Polyline(Polyline),
    ProxyEntity(ProxyEntity),
    Leader(Leader),
    Spline(Spline),
    Wipeout(Wipeout),
    LwPolyline(LwPolyline),
    MText(MText),
    Attribute(Attribute),
    AttributeDefinition(AttributeDefinition),
    RotatedDimension(RotatedDimension),
    RadialDimension(RadialDimension),
    DiameterDimension(DiameterDimension),
    AngularThreePointDimension(AngularThreePointDimension),
    OrdinateDimension(OrdinateDimension),
}

pub enum EntityTypeView {
    Line(LineView),
    Circle(CircleView),
    Arc(ArcView),
    ModelPoint(ModelPointView),
    Face3D(Face3DView),
    Solid(SolidView),
    Trace(TraceView),
    Vertex(VertexView),
    Seqend(SeqendView),
    Polyline(PolylineView),
    ProxyEntity(ProxyEntityView),
    Leader(LeaderView),
    Spline(SplineView),
    Wipeout(WipeoutView),
    LwPolyline(LwPolylineView),
    MText(MTextView),
    Attribute(AttributeView),
    AttributeDefinition(AttributeDefinitionView),
    RotatedDimension(RotatedDimensionView),
    RadialDimension(RadialDimensionView),
    DiameterDimension(DiameterDimensionView),
    AngularThreePointDimension(AngularThreePointDimensionView),
    OrdinateDimension(OrdinateDimensionView),
}

impl View for EntityType {
    type V = EntityTypeView;

    open spec fn view(&self) -> EntityTypeView {
        match self {
            EntityType::Line(d) => EntityTypeView::Line(d@),
            EntityType::Circle(d) => EntityTypeView::Circle(d@),
            EntityType::Arc(d) => EntityTypeView::Arc(d@),
            EntityType::ModelPoint(d) => EntityTypeView::ModelPoint(d@),
            EntityType::Face3D(d) => EntityTypeView::Face3D(d@),
            EntityType::Solid(d) => EntityTypeView::Solid(d@),
            EntityType::Trace(d) => EntityTypeView::Trace(d@),
            EntityType::Vertex(d) => EntityTypeView::Vertex(d@),
            EntityType::Seqend(d) => EntityTypeView::Seqend(d@),
            EntityType::Polyline(d) => EntityTypeView::Polyline(d@),
            EntityType::ProxyEntity(d) => EntityTypeView::ProxyEntity(d@),
            EntityType::Leader(d) => EntityTypeView::Leader(d@),
            EntityType::Spline(d) => EntityTypeView::Spline(d@),
            EntityType::Wipeout(d) => EntityTypeView::Wipeout(d@),
            EntityType::LwPolyline(d) => EntityTypeView::LwPolyline(d@),
            EntityType::MText(d) => EntityTypeView::MText(d@),
            EntityType::Attribute(d) => EntityTypeView::Attribute(d@),
            EntityType::AttributeDefinition(d) => EntityTypeView::AttributeDefinition(d@),
            EntityType::RotatedDimension(d) => EntityTypeView::RotatedDimension(d@),
            EntityType::RadialDimension(d) => EntityTypeView::RadialDimension(d@),
            EntityType::DiameterDimension(d) => EntityTypeView::DiameterDimension(d@),
            EntityType::AngularThreePointDimension(d) => EntityTypeView::AngularThreePointDimension(d@),
            EntityType::OrdinateDimension(d) => EntityTypeView::OrdinateDimension(d@),
        }
    }
}

/// The type name that introduces an entity of this kind in the stream.
pub open spec fn type_string(e: EntityTypeView) -> Seq<char> {
    match e {
        EntityTypeView::Line(_) => "LINE"@,
        EntityTypeView::Circle(_) => "CIRCLE"@,
        EntityTypeView::Arc(_) => "ARC"@,
        EntityTypeView::ModelPoint(_) => "POINT"@,
        EntityTypeView::Face3D(_) => "3DFACE"@,
        EntityTypeView::Solid(_) => "SOLID"@,
        EntityTypeView::Trace(_) => "TRACE"@,
        EntityTypeView::Vertex(_) => "VERTEX"@,
        EntityTypeView::Seqend(_) => "SEQEND"@,
        EntityTypeView::Polyline(_) => "POLYLINE"@,
        EntityTypeView::ProxyEntity(_) => "ACAD_PROXY_ENTITY"@,
        EntityTypeView::Leader(_) => "LEADER"@,
        EntityTypeView::Spline(_) => "SPLINE"@,
        EntityTypeView::Wipeout(_) => "WIPEOUT"@,
        EntityTypeView::LwPolyline(_) => "LWPOLYLINE"@,
        EntityTypeView::MText(_) => "MTEXT"@,
        EntityTypeView::Attribute(_) => "ATTRIB"@,
        EntityTypeView::AttributeDefinition(_) => "ATTDEF"@,
        EntityTypeView::RotatedDimension(_) => "DIMENSION"@,
        EntityTypeView::RadialDimension(_) => "DIMENSION"@,
        EntityTypeView::DiameterDimension(_) => "DIMENSION"@,
        EntityTypeView::AngularThreePointDimension(_) => "DIMENSION"@,
        EntityTypeView::OrdinateDimension(_) => "DIMENSION"@,
    }
}

/// The kind, at its defaults, that a type name other than that of
/// dimensions introduces; `None` for a name this library does not know.
pub open spec fn type_from_string(s: Seq<char>) -> Option<EntityTypeView> {
    if s == "LINE"@ {
        Some(EntityTypeView::Line(Line::default_view()))
    } else if s == "CIRCLE"@ {
        Some(EntityTypeView::Circle(Circle::default_view()))
    } else if s == "ARC"@ {
        Some(EntityTypeView::Arc(Arc::default_view()))
    } else if s == "POINT"@ {
        Some(EntityTypeView::ModelPoint(ModelPoint::default_view()))
    } else if s == "3DFACE"@ {
        Some(EntityTypeView::Face3D(Face3D::default_view()))
    } else if s == "SOLID"@ {
        Some(EntityTypeView::Solid(Solid::default_view()))
    } else if s == "TRACE"@ {
        Some(EntityTypeView::Trace(Trace::default_view()))
    } else if s == "VERTEX"@ {
        Some(EntityTypeView::Vertex(Vertex::default_view()))
    } else if s == "SEQEND"@ {
        Some(EntityTypeView::Seqend(Seqend::default_view()))
    } else if s == "POLYLINE"@ {
        Some(EntityTypeView::Polyline(Polyline::default_view()))
    } else if s == "ACAD_PROXY_ENTITY"@ {
        Some(EntityTypeView::ProxyEntity(ProxyEntity::default_view()))
    } else if s == "LEADER"@ {
        Some(EntityTypeView::Leader(Leader::default_view()))
    } else if s == "SPLINE"@ {
        Some(EntityTypeView::Spline(Spline::default_view()))
    } else if s == "WIPEOUT"@ {
        Some(EntityTypeView::Wipeout(Wipeout::default_view()))
    } else if s == "LWPOLYLINE"@ {
        Some(EntityTypeView::LwPolyline(LwPolyline::default_view()))
    } else if s == "MTEXT"@ {
        Some(EntityTypeView::MText(MText::default_view()))
    } else if s == "ATTRIB"@ {
        Some(EntityTypeView::Attribute(Attribute::default_view()))
    } else if s == "ATTDEF"@ {
        Some(EntityTypeView::AttributeDefinition(AttributeDefinition::default_view()))
    } else {
        None
    }
}

/// Whether the kind exists in the given release; older releases lack some.
pub open spec fn is_supported_on_version(e: EntityTypeView, version: AcadVersion) -> bool {
    match e {
        EntityTypeView::LwPolyline(_) => version.rank() >= AcadVersion::R14.rank(),
        EntityTypeView::MText(_) => version.rank() >= AcadVersion::R13.rank(),
        EntityTypeView::Leader(_) => version.rank() >= AcadVersion::R13.rank(),
        EntityTypeView::Spline(_) => version.rank() >= AcadVersion::R13.rank(),
        EntityTypeView::Wipeout(_) => version.rank() >= AcadVersion::R2000.rank(),
        EntityTypeView::ProxyEntity(_) => version.rank() >= AcadVersion::R14.rank(),
        _ => true,
    }
}

/// Whether the kind is one of the five dimension kinds.
pub open spec fn is_dimension(e: EntityTypeView) -> bool {
    e is RotatedDimension || e is RadialDimension || e is DiameterDimension || e is AngularThreePointDimension || e is OrdinateDimension
}

impl EntityType {
    pub fn to_type_string(&self) -> (r: String)
        ensures
            r@ == type_string(self@),
    {
        match self {
            EntityType::Line(_) => String::from_str("LINE"),
            EntityType::Circle(_) => String::from_str("CIRCLE"),
            EntityType::Arc(_) => String::from_str("ARC"),
            EntityType::ModelPoint(_) => String::from_str("POINT"),
            EntityType::Face3D(_) => String::from_str("3DFACE"),
            EntityType::Solid(_) => String::from_str("SOLID"),
            EntityType::Trace(_) => String::from_str("TRACE"),
            EntityType::Vertex(_) => String::from_str("VERTEX"),
            EntityType::Seqend(_) => String::from_str("SEQEND"),
            EntityType::Polyline(_) => String::from_str("POLYLINE"),
            EntityType::ProxyEntity(_) => String::from_str("ACAD_PROXY_ENTITY"),
            EntityType::Leader(_) => String::from_str("LEADER"),
            EntityType::Spline(_) => String::from_str("SPLINE"),
            EntityType::Wipeout(_) => String::from_str("WIPEOUT"),
            EntityType::LwPolyline(_) => String::from_str("LWPOLYLINE"),
            EntityType::MText(_) => String::from_str("MTEXT"),
            EntityType::Attribute(_) => String::from_str("ATTRIB"),
            EntityType::AttributeDefinition(_) => String::from_str("ATTDEF"),
            EntityType::RotatedDimension(_) => String::from_str("DIMENSION"),
            EntityType::RadialDimension(_) => String::from_str("DIMENSION"),
            EntityType::DiameterDimension(_) => String::from_str("DIMENSION"),
            EntityType::AngularThreePointDimension(_) => String::from_str("DIMENSION"),
            EntityType::OrdinateDimension(_) => String::from_str("DIMENSION"),
        }
    }

    pub fn from_type_string(s: &String) -> (r: Option<EntityType>)
        ensures
            match r {
                Some(e) => type_from_string(s@) == Some(e@),
                None => type_from_string(s@).is_none(),
            },
    {
        if *s == String::from_str("LINE") {
            return Some(EntityType::Line(Line::default_value()));
        }
        if *s == String::from_str("CIRCLE") {
            return Some(EntityType::Circle(Circle::default_value()));
        }
        if *s == String::from_str("ARC") {
            return Some(EntityType::Arc(Arc::default_value()));
        }
        if *s == String::from_str("POINT") {
            return Some(EntityType::ModelPoint(ModelPoint::default_value()));
        }
        if *s == String::from_str("3DFACE") {
            return Some(EntityType::Face3D(Face3D::default_value()));
        }
        if *s == String::from_str("SOLID") {
            return Some(EntityType::Solid(Solid::default_value()));
        }
        if *s == String::from_str("TRACE") {
            return Some(EntityType::Trace(Trace::default_value()));
        }
        if *s == String::from_str("VERTEX") {
            return Some(EntityType::Vertex(Vertex::default_value()));
        }
        if *s == String::from_str("SEQEND") {
            return Some(EntityType::Seqend(Seqend::default_value()));
        }
        if *s == String::from_str("POLYLINE") {
            return Some(EntityType::Polyline(Polyline::default_value()));
        }
        if *s == String::from_str("ACAD_PROXY_ENTITY") {
            return Some(EntityType::ProxyEntity(ProxyEntity::default_value()));
        }
        if *s == String::from_str("LEADER") {
            return Some(EntityType::Leader(Leader::default_value()));
        }
        if *s == String::from_str("SPLINE") {
            return Some(EntityType::Spline(Spline::default_value()));
        }
        if *s == String::from_str("WIPEOUT") {
            return Some(EntityType::Wipeout(Wipeout::default_value()));
        }
        if *s == String::from_str("LWPOLYLINE") {
            return Some(EntityType::LwPolyline(LwPolyline::default_value()));
        }
        if *s == String::from_str("MTEXT") {
            return Some(EntityType::MText(MText::default_value()));
        }
        if *s == String::from_str("ATTRIB") {
            return Some(EntityType::Attribute(Attribute::default_value()));
        }
        if *s == String::from_str("ATTDEF") {
            return Some(EntityType::AttributeDefinition(AttributeDefinition::default_value()));
        }
        None
    }

    pub fn is_supported_on_version(&self, version: &AcadVersion) -> (r: bool)
        ensures
            r == is_supported_on_version(self@, *version),
    {
        match self {
            EntityType::LwPolyline(_) => version.at_least(AcadVersion::R14),
            EntityType::MText(_) => version.at_least(AcadVersion::R13),
            EntityType::Leader(_) => version.at_least(AcadVersion::R13),
            EntityType::Spline(_) => version.at_least(AcadVersion::R13),
            EntityType::Wipeout(_) => version.at_least(AcadVersion::R2000),
            EntityType::ProxyEntity(_) => version.at_least(AcadVersion::R14),
            _ => true,
        }
    }

    pub fn is_dimension(&self) -> (r: bool)
        ensures
            r == is_dimension(self@),
    {
        match self {
            EntityType::RotatedDimension(_) => true,
            EntityType::RadialDimension(_) => true,
            EntityType::DiameterDimension(_) => true,
            EntityType::AngularThreePointDimension(_) => true,
            EntityType::OrdinateDimension(_) => true,
            _ => false,
        }
    }
}

/// Per-axis runs of coordinates gathered while one entity is read: at most
/// two point lists, each with its x, y and z run. The kinds of this library
/// that carry such runs are leaders (vertices), splines (control and fit
/// points) and wipeouts (clipping vertices, x and y only); images, sections,
/// multi-lines and underlays are not among its kinds.
pub struct PointAccumulators {
    pub first_x: Vec<u64>,
    pub first_y: Vec<u64>,
    pub first_z: Vec<u64>,
    pub second_x: Vec<u64>,
    pub second_y: Vec<u64>,
    pub second_z: Vec<u64>,
}

pub struct AccumulatorsView {
    pub first_x: Seq<u64>,
    pub first_y: Seq<u64>,
    pub first_z: Seq<u64>,
    pub second_x: Seq<u64>,
    pub second_y: Seq<u64>,
    pub second_z: Seq<u64>,
}

impl View for PointAccumulators {
    type V = AccumulatorsView;

    open spec fn view(&self) -> AccumulatorsView {
        AccumulatorsView {
            first_x: self.first_x@,
            first_y: self.first_y@,
            first_z: self.first_z@,
            second_x: self.second_x@,
            second_y: self.second_y@,
            second_z: self.second_z@,
        }
    }
}

pub open spec fn empty_accumulators() -> AccumulatorsView {
    AccumulatorsView {
        first_x: Seq::empty(),
        first_y: Seq::empty(),
        first_z: Seq::empty(),
        second_x: Seq::empty(),
        second_y: Seq::empty(),
        second_z: Seq::empty(),
    }
}

/// Which run a code feeds for this kind (0 to 5: first x, y, z, second x,
/// y, z), or -1 when the code is not a run of this kind.
pub open spec fn accumulator_slot(e: EntityTypeView, code: int) -> int {
    match e {
        EntityTypeView::Leader(_) => if code == 10 {
            0
        } else if code == 20 {
            1
        } else if code == 30 {
            2
        } else {
            -1
        },
        EntityTypeView::Spline(_) => if code == 10 {
            0
        } else if code == 20 {
            1
        } else if code == 30 {
            2
        } else if code == 11 {
            3
        } else if code == 21 {
            4
        } else if code == 31 {
            5
        } else {
            -1
        },
        EntityTypeView::Wipeout(_) => if code == 14 {
            0
        } else if code == 24 {
            1
        } else {
            -1
        },
        _ => -1,
    }
}

/// The runs with `v` appended to run `slot`.
pub open spec fn accumulate(a: AccumulatorsView, slot: int, v: u64) -> AccumulatorsView {
    if slot == 0 {
        AccumulatorsView { first_x: a.first_x.push(v), ..a }
    } else if slot == 1 {
        AccumulatorsView { first_y: a.first_y.push(v), ..a }
    } else if slot == 2 {
        AccumulatorsView { first_z: a.first_z.push(v), ..a }
    } else if slot == 3 {
        AccumulatorsView { second_x: a.second_x.push(v), ..a }
    } else if slot == 4 {
        AccumulatorsView { second_y: a.second_y.push(v), ..a }
    } else {
        AccumulatorsView { second_z: a.second_z.push(v), ..a }
    }
}

impl PointAccumulators {
    pub fn new() -> (r: PointAccumulators)
        ensures
            r@ == empty_accumulators(),
    {
        PointAccumulators {
            first_x: Vec::new(),
            first_y: Vec::new(),
            first_z: Vec::new(),
            second_x: Vec::new(),
            second_y: Vec::new(),
            second_z: Vec::new(),
        }
    }

    fn push(&mut self, slot: i8, v: u64)
        requires
            0 <= slot < 6,
        ensures
            final(self)@ == accumulate(old(self)@, slot as int, v),
    {
        if slot == 0 {
            self.first_x.push(v);
        } else if slot == 1 {
            self.first_y.push(v);
        } else if slot == 2 {
            self.first_z.push(v);
        } else if slot == 3 {
            self.second_x.push(v);
        } else if slot == 4 {
            self.second_y.push(v);
        } else {
            self.second_z.push(v);
        }
    }
}

/// What a pair with a fixed meaning does to an entity of a kind without a
/// context-sensitive decoder.
pub open spec fn specific_pair_step(e: EntityTypeView, pair: CodePair) -> Result<Option<EntityTypeView>, DxfError> {
    match e {
        EntityTypeView::Line(d) => match line_pair_step(d, pair) {
            Ok(Some(d2)) => Ok(Some(EntityTypeView::Line(d2))),
            Ok(None) => Ok(None),
            Err(e) => Err(e),
        },
        EntityTypeView::Circle(d) => match circle_pair_step(d, pair) {
            Ok(Some(d2)) => Ok(Some(EntityTypeView::Circle(d2))),
            Ok(None) => Ok(None),
            Err(e) => Err(e),
        },
        EntityTypeView::Arc(d) => match arc_pair_step(d, pair) {
            Ok(Some(d2)) => Ok(Some(EntityTypeView::Arc(d2))),
            Ok(None) => Ok(None),
            Err(e) => Err(e),
        },
        EntityTypeView::ModelPoint(d) => match model_point_pair_step(d, pair) {
            Ok(Some(d2)) => Ok(Some(EntityTypeView::ModelPoint(d2))),
            Ok(None) => Ok(None),
            Err(e) => Err(e),
        },
        EntityTypeView::Face3D(d) => match face3d_pair_step(d, pair) {
            Ok(Some(d2)) => Ok(Some(EntityTypeView::Face3D(d2))),
            Ok(None) => Ok(None),
            Err(e) => Err(e),
        },
        EntityTypeView::Solid(d) => match solid_pair_step(d, pair) {
            Ok(Some(d2)) => Ok(Some(EntityTypeView::Solid(d2))),
            Ok(None) => Ok(None),
            Err(e) => Err(e),
        },
        EntityTypeView::Trace(d) => match trace_pair_step(d, pair) {
            Ok(Some(d2)) => Ok(Some(EntityTypeView::Trace(d2))),
            Ok(None) => Ok(None),
            Err(e) => Err(e),
        },
        EntityTypeView::Vertex(d) => match vertex_pair_step(d, pair) {
            Ok(Some(d2)) => Ok(Some(EntityTypeView::Vertex(d2))),
            Ok(None) => Ok(None),
            Err(e) => Err(e),
        },
        EntityTypeView::Seqend(d) => match seqend_pair_step(d, pair) {
            Ok(Some(d2)) => Ok(Some(EntityTypeView::Seqend(d2))),
            Ok(None) => Ok(None),
            Err(e) => Err(e),
        },
        EntityTypeView::Polyline(d) => match polyline_pair_step(d, pair) {
            Ok(Some(d2)) => Ok(Some(EntityTypeView::Polyline(d2))),
            Ok(None) => Ok(None),
            Err(e) => Err(e),
        },
        EntityTypeView::ProxyEntity(d) => match proxy_entity_pair_step(d, pair) {
            Ok(Some(d2)) => Ok(Some(EntityTypeView::ProxyEntity(d2))),
            Ok(None) => Ok(None),
            Err(e) => Err(e),
        },
        EntityTypeView::Leader(d) => match leader_pair_step(d, pair) {
            Ok(Some(d2)) => Ok(Some(EntityTypeView::Leader(d2))),
            Ok(None) => Ok(None),
            Err(e) => Err(e),
        },
        EntityTypeView::Spline(d) => match spline_pair_step(d, pair) {
            Ok(Some(d2)) => Ok(Some(EntityTypeView::Spline(d2))),
            Ok(None) => Ok(None),
            Err(e) => Err(e),
        },
        EntityTypeView::Wipeout(d) => match wipeout_pair_step(d, pair) {
            Ok(Some(d2)) => Ok(Some(EntityTypeView::Wipeout(d2))),
            Ok(None) => Ok(None),
            Err(e) => Err(e),
        },
        _ => Ok(None),
    }
}

/// What a pair does to an entity read through the fixed tables: a
/// coordinate run takes it if the kind has one for its code; otherwise the
/// kind's table.
pub open spec fn generic_pair_step(e: EntityTypeView, a: AccumulatorsView, pair: CodePair) -> Result<
    Option<(EntityTypeView, AccumulatorsView)>,
    DxfError,
> {
    let slot = accumulator_slot(e, pair.code as int);
    if slot >= 0 {
        match pair.f64_value() {
            Ok(v) => Ok(Some((e, accumulate(a, slot, v)))),
            Err(err) => Err(err),
        }
    } else {
        match specific_pair_step(e, pair) {
            Ok(Some(e2)) => Ok(Some((e2, a))),
            Ok(None) => Ok(None),
            Err(err) => Err(err),
        }
    }
}

/// The point lists of an entity, assembled from its coordinate runs.
pub open spec fn post_parse(e: EntityTypeView, a: AccumulatorsView) -> EntityTypeView {
    match e {
        EntityTypeView::Leader(d) => EntityTypeView::Leader(
            LeaderView { vertices: zip_points_3(a.first_x, a.first_y, a.first_z), ..d },
        ),
        EntityTypeView::Spline(d) => EntityTypeView::Spline(
            SplineView {
                control_points: zip_points_3(a.first_x, a.first_y, a.first_z),
                fit_points: zip_points_3(a.second_x, a.second_y, a.second_z),
                ..d
            },
        ),
        EntityTypeView::Wipeout(d) => EntityTypeView::Wipeout(
            WipeoutView { clipping_vertices: zip_points_2(a.first_x, a.first_y), ..d },
        ),
        _ => e,
    }
}

impl EntityType {
    fn accumulator_slot(&self, code: i32) -> (r: i8)
        ensures
            r as int == accumulator_slot(self@, code as int),
            -1 <= r < 6,
    {
        match self {
            EntityType::Leader(_) => if code == 10 {
                0
            } else if code == 20 {
                1
            } else if code == 30 {
                2
            } else {
                -1
            },
            EntityType::Spline(_) => if code == 10 {
                0
            } else if code == 20 {
                1
            } else if code == 30 {
                2
            } else if code == 11 {
                3
            } else if code == 21 {
                4
            } else if code == 31 {
                5
            } else {
                -1
            },
            EntityType::Wipeout(_) => if code == 14 {
                0
            } else if code == 24 {
                1
            } else {
                -1
            },
            _ => -1,
        }
    }

    /// Applies a pair through the fixed table of this kind.
    pub fn try_apply_code_pair(&mut self, pair: &CodePair) -> (r: Result<bool, DxfError>)
        ensures
            specific_pair_step(old(self)@, *pair) == claimed(r, final(self)@),
            r == Ok::<bool, DxfError>(false) ==> final(self)@ == old(self)@,
    {
        match self {
            EntityType::Line(d) => d.apply_code_pair(pair),
            EntityType::Circle(d) => d.apply_code_pair(pair),
            EntityType::Arc(d) => d.apply_code_pair(pair),
            EntityType::ModelPoint(d) => d.apply_code_pair(pair),
            EntityType::Face3D(d) => d.apply_code_pair(pair),
            EntityType::Solid(d) => d.apply_code_pair(pair),
            EntityType::Trace(d) => d.apply_code_pair(pair),
            EntityType::Vertex(d) => d.apply_code_pair(pair),
            EntityType::Seqend(d) => d.apply_code_pair(pair),
            EntityType::Polyline(d) => d.apply_code_pair(pair),
            EntityType::ProxyEntity(d) => d.apply_code_pair(pair),
            EntityType::Leader(d) => d.apply_code_pair(pair),
            EntityType::Spline(d) => d.apply_code_pair(pair),
            EntityType::Wipeout(d) => d.apply_code_pair(pair),
            _ => Ok(false),
        }
    }

    /// Applies a pair to a kind read through the fixed tables.
    fn apply_generic_pair(&mut self, acc: &mut PointAccumulators, pair: &CodePair) -> (r: Result<bool, DxfError>)
        ensures
            generic_pair_step(old(self)@, old(acc)@, *pair) == claimed(r, (final(self)@, final(acc)@)),
            r == Ok::<bool, DxfError>(false) ==> final(self)@ == old(self)@ && final(acc)@ == old(acc)@,
    {
        let slot = self.accumulator_slot(pair.code);
        if slot >= 0 {
            let v = pair.assert_f64()?;
            acc.push(slot, v);
            Ok(true)
        } else {
            self.try_apply_code_pair(pair)
        }
    }

    /// Assembles the point lists of this kind from the coordinate runs.
    fn post_parse(&mut self, acc: &PointAccumulators)
        ensures
            final(self)@ == post_parse(old(self)@, acc@),
    {
        match self {
            EntityType::Leader(d) => {
                d.vertices = combine_points_3(&acc.first_x, &acc.first_y, &acc.first_z);
            },
            EntityType::Spline(d) => {
                d.control_points = combine_points_3(&acc.first_x, &acc.first_y, &acc.first_z);
                d.fit_points = combine_points_3(&acc.second_x, &acc.second_y, &acc.second_z);
            },
            EntityType::Wipeout(d) => {
                d.clipping_vertices = combine_points_2(&acc.first_x, &acc.first_y);
            },
            _ => {},
        }
    }
}

/// An entity: common fields plus exactly one specific kind.
#[derive(Clone, Debug, PartialEq)]
pub struct Entity {
    pub common: EntityCommon,
    pub specific: EntityType,
}

pub struct EntityView {
    pub common: CommonView,
    pub specific: EntityTypeView,
}

impl View for Entity {
    type V = EntityView;

    open spec fn view(&self) -> EntityView {
        EntityView { common: self.common@, specific: self.specific@ }
    }
}

impl Entity {
    /// An entity of the given kind with the default common fields.
    pub fn new(specific: EntityType) -> (r: Entity)
        ensures
            r@ == (EntityView { common: default_common(), specific: specific@ }),
    {
        Entity { common: EntityCommon::new(), specific }
    }
}

// ---------------------------------------------------------------- folds

/// One pair for a light polyline being read.
pub open spec fn lw_polyline_steps() -> spec_fn((LwPolylineView, CommonView), CodePair) -> Result<
    (LwPolylineView, CommonView),
    DxfError,
> {
    |s: (LwPolylineView, CommonView), p: CodePair| with_common(lw_polyline_pair_step(s.0, p), s.0, s.1, p)
}

/// One pair for multi-line text being read.
pub open spec fn m_text_steps() -> spec_fn(((MTextView, MTextColumnState), CommonView), CodePair) -> Result<
    ((MTextView, MTextColumnState), CommonView),
    DxfError,
> {
    |s: ((MTextView, MTextColumnState), CommonView), p: CodePair|
        with_common(m_text_decode_step(s.0.0, s.0.1, p), s.0, s.1, p)
}

/// One pair for an attribute being read.
pub open spec fn attribute_steps() -> spec_fn(((AttributeView, AttributeDecodingView), CommonView), CodePair) -> Result<
    ((AttributeView, AttributeDecodingView), CommonView),
    DxfError,
> {
    |s: ((AttributeView, AttributeDecodingView), CommonView), p: CodePair|
        with_common(attribute_decode_step(s.0.0, s.0.1, p), s.0, s.1, p)
}

/// One pair for an attribute definition being read.
pub open spec fn attribute_definition_steps() -> spec_fn(((AttributeDefinitionView, AttributeDecodingView), CommonView), CodePair) -> Result<
    ((AttributeDefinitionView, AttributeDecodingView), CommonView),
    DxfError,
> {
    |s: ((AttributeDefinitionView, AttributeDecodingView), CommonView), p: CodePair|
        with_common(attribute_definition_decode_step(s.0.0, s.0.1, p), s.0, s.1, p)
}

/// One pair for an entity read through the fixed tables.
pub open spec fn generic_steps() -> spec_fn(((EntityTypeView, AccumulatorsView), CommonView), CodePair) -> Result<
    ((EntityTypeView, AccumulatorsView), CommonView),
    DxfError,
> {
    |s: ((EntityTypeView, AccumulatorsView), CommonView), p: CodePair|
        with_common(generic_pair_step(s.0.0, s.0.1, p), s.0, s.1, p)
}


fn decode_lw_polyline(body: &Vec<CodePair>) -> (r: Result<Entity, DxfError>)
    ensures
        match fold_pairs((LwPolyline::default_view(), default_common()), body@, lw_polyline_steps()) {
            Ok(s) => r is Ok && r->Ok_0@ == (EntityView { common: s.1, specific: EntityTypeView::LwPolyline(s.0) }),
            Err(e) => r == Err::<Entity, DxfError>(e),
        },
{
    let ghost init = (LwPolyline::default_view(), default_common());
    let mut poly = LwPolyline::default_value();
    let mut common = EntityCommon::new();
    let mut i: usize = 0;
    while i < body.len()
        invariant
            i <= body@.len(),
            init == (LwPolyline::default_view(), default_common()),
            fold_pairs(init, body@.take(i as int), lw_polyline_steps()) == Ok::<_, DxfError>((poly@, common@)),
        decreases body@.len() - i,
    {
        proof {
            lemma_fold_extend(init, body@, i as int, lw_polyline_steps());
        }
        let pair = &body[i];
        match poly.apply_code_pair(pair) {
            Err(e) => {
                proof {
                    lemma_fold_err(init, body@, i as int + 1, lw_polyline_steps());
                }
                return Err(e);
            },
            Ok(true) => {},
            Ok(false) => {
                match common.apply_individual_pair(pair) {
                    Err(e) => {
                        proof {
                            lemma_fold_err(init, body@, i as int + 1, lw_polyline_steps());
                        }
                        return Err(e);
                    },
                    Ok(()) => {},
                }
            },
        }
        i = i + 1;
    }
    assert(body@.take(i as int) == body@);
    Ok(Entity { common, specific: EntityType::LwPolyline(poly) })
}


fn decode_m_text(body: &Vec<CodePair>) -> (r: Result<Entity, DxfError>)
    ensures
        match fold_pairs(((MText::default_view(), MTextColumnState { reading_column_data: false, read_column_count: false }), default_common()), body@, m_text_steps()) {
            Ok(s) => r is Ok && r->Ok_0@ == (EntityView { common: s.1, specific: EntityTypeView::MText(s.0.0) }),
            Err(e) => r == Err::<Entity, DxfError>(e),
        },
{
    let ghost init = ((MText::default_view(), MTextColumnState { reading_column_data: false, read_column_count: false }), default_common());
    let mut text = MText::default_value();
    let mut st = MTextColumnState::new();
    let mut common = EntityCommon::new();
    let mut i: usize = 0;
    while i < body.len()
        invariant
            i <= body@.len(),
            init == ((MText::default_view(), MTextColumnState { reading_column_data: false, read_column_count: false }), default_common()),
            fold_pairs(init, body@.take(i as int), m_text_steps()) == Ok::<_, DxfError>(((text@, st), common@)),
        decreases body@.len() - i,
    {
        proof {
            lemma_fold_extend(init, body@, i as int, m_text_steps());
        }
        let pair = &body[i];
        match text.apply_decoding_pair(&mut st, pair) {
            Err(e) => {
                proof {
                    lemma_fold_err(init, body@, i as int + 1, m_text_steps());
                }
                return Err(e);
            },
            Ok(true) => {},
            Ok(false) => {
                match common.apply_individual_pair(pair) {
                    Err(e) => {
                        proof {
                            lemma_fold_err(init, body@, i as int + 1, m_text_steps());
                        }
                        return Err(e);
                    },
                    Ok(()) => {},
                }
            },
        }
        i = i + 1;
    }
    assert(body@.take(i as int) == body@);
    Ok(Entity { common, specific: EntityType::MText(text) })
}


fn decode_attribute(body: &Vec<CodePair>) -> (r: Result<Entity, DxfError>)
    ensures
        match fold_pairs(((Attribute::default_view(), initial_attribute_decoding()), default_common()), body@, attribute_steps()) {
            Ok(s) => r is Ok && r->Ok_0@ == (EntityView { common: s.1, specific: EntityTypeView::Attribute(s.0.0) }),
            Err(e) => r == Err::<Entity, DxfError>(e),
        },
{
    let ghost init = ((Attribute::default_view(), initial_attribute_decoding()), default_common());
    let mut att = Attribute::default_value();
    let mut st = AttributeDecoding::new();
    let mut common = EntityCommon::new();
    let mut i: usize = 0;
    while i < body.len()
        invariant
            i <= body@.len(),
            init == ((Attribute::default_view(), initial_attribute_decoding()), default_common()),
            fold_pairs(init, body@.take(i as int), attribute_steps()) == Ok::<_, DxfError>(((att@, st@), common@)),
        decreases body@.len() - i,
    {
        proof {
            lemma_fold_extend(init, body@, i as int, attribute_steps());
        }
        let pair = &body[i];
        match att.apply_decoding_pair(&mut st, pair) {
            Err(e) => {
                proof {
                    lemma_fold_err(init, body@, i as int + 1, attribute_steps());
                }
                return Err(e);
            },
            Ok(true) => {},
            Ok(false) => {
                match common.apply_individual_pair(pair) {
                    Err(e) => {
                        proof {
                            lemma_fold_err(init, body@, i as int + 1, attribute_steps());
                        }
                        return Err(e);
                    },
                    Ok(()) => {},
                }
            },
        }
        i = i + 1;
    }
    assert(body@.take(i as int) == body@);
    Ok(Entity { common, specific: EntityType::Attribute(att) })
}


fn decode_attribute_definition(body: &Vec<CodePair>) -> (r: Result<Entity, DxfError>)
    ensures
        match fold_pairs(((AttributeDefinition::default_view(), initial_attribute_decoding()), default_common()), body@, attribute_definition_steps()) {
            Ok(s) => r is Ok && r->Ok_0@ == (EntityView { common: s.1, specific: EntityTypeView::AttributeDefinition(s.0.0) }),
            Err(e) => r == Err::<Entity, DxfError>(e),
        },
{
    let ghost init = ((AttributeDefinition::default_view(), initial_attribute_decoding()), default_common());
    let mut att = AttributeDefinition::default_value();
    let mut st = AttributeDecoding::new();
    let mut common = EntityCommon::new();
    let mut i: usize = 0;
    while i < body.len()
        invariant
            i <= body@.len(),
            init == ((AttributeDefinition::default_view(), initial_attribute_decoding()), default_common()),
            fold_pairs(init, body@.take(i as int), attribute_definition_steps()) == Ok::<_, DxfError>(((att@, st@), common@)),
        decreases body@.len() - i,
    {
        proof {
            lemma_fold_extend(init, body@, i as int, attribute_definition_steps());
        }
        let pair = &body[i];
        match att.apply_decoding_pair(&mut st, pair) {
            Err(e) => {
                proof {
                    lemma_fold_err(init, body@, i as int + 1, attribute_definition_steps());
                }
                return Err(e);
            },
            Ok(true) => {},
            Ok(false) => {
                match common.apply_individual_pair(pair) {
                    Err(e) => {
                        proof {
                            lemma_fold_err(init, body@, i as int + 1, attribute_definition_steps());
                        }
                        return Err(e);
                    },
                    Ok(()) => {},
                }
            },
        }
        i = i + 1;
    }
    assert(body@.take(i as int) == body@);
    Ok(Entity { common, specific: EntityType::AttributeDefinition(att) })
}


fn decode_generic(kind: EntityType, body: &Vec<CodePair>) -> (r: Result<Entity, DxfError>)
    ensures
        match fold_pairs(((kind@, empty_accumulators()), default_common()), body@, generic_steps()) {
            Ok(s) => r is Ok && r->Ok_0@ == (EntityView { common: s.1, specific: post_parse(s.0.0, s.0.1) }),
            Err(e) => r == Err::<Entity, DxfError>(e),
        },
{
    let ghost init = ((kind@, empty_accumulators()), default_common());
    let mut e = kind;
    let mut acc = PointAccumulators::new();
    let mut common = EntityCommon::new();
    let mut i: usize = 0;
    while i < body.len()
        invariant
            i <= body@.len(),
            init == ((kind@, empty_accumulators()), default_common()),
            fold_pairs(init, body@.take(i as int), generic_steps()) == Ok::<_, DxfError>(((e@, acc@), common@)),
        decreases body@.len() - i,
    {
        proof {
            lemma_fold_extend(init, body@, i as int, generic_steps());
        }
        let pair = &body[i];
        match e.apply_generic_pair(&mut acc, pair) {
            Err(e) => {
                proof {
                    lemma_fold_err(init, body@, i as int + 1, generic_steps());
                }
                return Err(e);
            },
            Ok(true) => {},
            Ok(false) => {
                match common.apply_individual_pair(pair) {
                    Err(e) => {
                        proof {
                            lemma_fold_err(init, body@, i as int + 1, generic_steps());
                        }
                        return Err(e);
                    },
                    Ok(()) => {},
                }
            },
        }
        i = i + 1;
    }
    assert(body@.take(i as int) == body@);
    e.post_parse(&acc);
    Ok(Entity { common, specific: e })
}

/// How many pairs of a run start a new light-polyline vertex.
pub open spec fn vertex_starts(pairs: Seq<CodePair>) -> nat
    decreases pairs.len(),
{
    if pairs.len() == 0 {
        0
    } else {
        vertex_starts(pairs.drop_last()) + if pairs.last().code == 10 { 1nat } else { 0nat }
    }
}

/// Reading a light polyline, every prefix that reads without error holds one
/// vertex per start-vertex pair, and the pair that starts a vertex gives it
/// its x with every other field at its default: nothing, the bulge included,
/// is carried over from the vertex before.
pub proof fn lemma_lw_polyline_vertices(body: Seq<CodePair>, k: int)
    requires
        0 <= k <= body.len(),
    ensures
        fold_pairs((LwPolyline::default_view(), default_common()), body.take(k), lw_polyline_steps())
            matches Ok(s) ==> s.0.vertices.len() == vertex_starts(body.take(k)),
        0 < k ==> (fold_pairs(
            (LwPolyline::default_view(), default_common()),
            body.take(k),
            lw_polyline_steps(),
        ) matches Ok(s) ==> (body[k - 1].code == 10 ==> s.0.vertices.last() == (LwPolylineVertex {
            x: body[k - 1].f64_value()->Ok_0,
            ..LwPolylineVertex::default_view()
        }))),
    decreases k,
{
    let init = (LwPolyline::default_view(), default_common());
    if k == 0 {
        assert(body.take(0) =~= Seq::<CodePair>::empty());
    } else {
        lemma_lw_polyline_vertices(body, k - 1);
        lemma_fold_extend(init, body, k - 1, lw_polyline_steps());
        assert(body.take(k).drop_last() == body.take(k - 1));
        assert(body.take(k).last() == body[k - 1]);
    }
}

/// Whether a run holds a column-type pair.
pub open spec fn column_type_seen(pairs: Seq<CodePair>) -> bool
    decreases pairs.len(),
{
    if pairs.len() == 0 {
        false
    } else {
        column_type_seen(pairs.drop_last()) || pairs.last().code == 75
    }
}

/// The values of the rotation-code pairs that come after a column-type pair,
/// in arrival order.
pub open spec fn column_values(pairs: Seq<CodePair>) -> Seq<u64>
    decreases pairs.len(),
{
    if pairs.len() == 0 {
        Seq::empty()
    } else if pairs.last().code == 50 && column_type_seen(pairs.drop_last()) {
        column_values(pairs.drop_last()).push(pairs.last().f64_value()->Ok_0)
    } else {
        column_values(pairs.drop_last())
    }
}

/// Whether no pair of a run carries the column count directly.
pub open spec fn no_column_count_pair(pairs: Seq<CodePair>) -> bool {
    forall|i: int| 0 <= i < pairs.len() ==> (#[trigger] pairs[i]).code != 76
}

/// Reading multi-line text, every prefix that reads without error is in the
/// column state its pairs give: the column type switches code 50 for good;
/// the first code 50 after it is the column count (unless code 76 sets the
/// count), and each later one is appended to the column heights in order.
pub proof fn lemma_m_text_columns(body: Seq<CodePair>, k: int)
    requires
        0 <= k <= body.len(),
    ensures
        fold_pairs(
            ((MText::default_view(), MTextColumnState { reading_column_data: false, read_column_count: false }), default_common()),
            body.take(k),
            m_text_steps(),
        ) matches Ok(s) ==> {
            let vs = column_values(body.take(k));
            &&& s.0.1 == (MTextColumnState {
                reading_column_data: column_type_seen(body.take(k)),
                read_column_count: vs.len() > 0,
            })
            &&& s.0.0.column_heights == (if vs.len() > 0 { vs.drop_first() } else { Seq::empty() })
            &&& (no_column_count_pair(body.take(k)) && vs.len() > 0 ==> s.0.0.column_count
                == f64_bits_to_i32(vs[0]))
        },
    decreases k,
{
    let init = ((MText::default_view(), MTextColumnState { reading_column_data: false, read_column_count: false }), default_common());
    if k == 0 {
        assert(body.take(0) =~= Seq::<CodePair>::empty());
    } else {
        lemma_m_text_columns(body, k - 1);
        lemma_fold_extend(init, body, k - 1, m_text_steps());
        let p = body.take(k);
        let q = body.take(k - 1);
        assert(p.drop_last() == q);
        assert(p.last() == body[k - 1]);
        if no_column_count_pair(p) {
            assert forall|i: int| 0 <= i < q.len() implies (#[trigger] q[i]).code != 76 by {
                assert(q[i] == p[i]);
            }
            assert(p[k - 1].code != 76);
        }
        let vq = column_values(q);
        if vq.len() > 0 && body[k - 1].code == 50 && column_type_seen(q) {
            let v = body[k - 1].f64_value()->Ok_0;
            assert(vq.push(v).drop_first() =~= vq.drop_first().push(v));
            assert(vq.push(v)[0] == vq[0]);
        }
    }
}

/// The results of reading `n` times in a row: reading stops after a failure.
pub open spec fn reads(items: Seq<StreamItem>, n: nat) -> Seq<Result<Option<EntityView>, DxfError>>
    decreases n,
{
    if n == 0 {
        Seq::empty()
    } else {
        let (r, rest) = read_spec(items);
        if r is Err {
            seq![r]
        } else {
            seq![r] + reads(rest, (n - 1) as nat)
        }
    }
}

/// The stream items of whole entities, one after another: each a type
/// marker followed by pairs that hold no type marker.
pub open spec fn units_items(us: Seq<(CodePair, Seq<CodePair>)>) -> Seq<StreamItem>
    decreases us.len(),
{
    if us.len() == 0 {
        Seq::empty()
    } else {
        entity_items(us[0].0, us[0].1) + units_items(us.drop_first())
    }
}

/// Whether each unit is a type marker followed by pairs without one.
pub open spec fn well_formed_units(us: Seq<(CodePair, Seq<CodePair>)>) -> bool {
    forall|j: int|
        0 <= j < us.len() ==> (#[trigger] us[j]).0.code == 0 && forall|i: int|
            0 <= i < us[j].1.len() ==> (#[trigger] us[j].1[i]).code != 0
}

proof fn lemma_units_start(us: Seq<(CodePair, Seq<CodePair>)>, tail: Seq<StreamItem>)
    requires
        well_formed_units(us),
        starts_with_marker(tail),
    ensures
        starts_with_marker(units_items(us) + tail),
{
    if us.len() > 0 {
        assert((units_items(us) + tail)[0] == Ok::<CodePair, DxfError>(us[0].0));
    } else {
        assert(units_items(us) + tail =~= tail);
    }
}

/// An entity whose type name is not known, standing anywhere after whole
/// entities, changes nothing that repeated reads give: the same entities in
/// the same order, and no error of its own.
pub proof fn lemma_unknown_entity_is_invisible(
    us: Seq<(CodePair, Seq<CodePair>)>,
    marker: CodePair,
    body: Seq<CodePair>,
    rest: Seq<StreamItem>,
    n: nat,
)
    requires
        well_formed_units(us),
        marker.code == 0,
        marker.string_value() matches Ok(t) && type_from_string(t@).is_none() && t@ != "DIMENSION"@
            && t@ != "ENDSEC"@ && t@ != "ENDBLK"@,
        forall|i: int| 0 <= i < body.len() ==> (#[trigger] body[i]).code != 0,
        starts_with_marker(rest),
    ensures
        reads(units_items(us) + (entity_items(marker, body) + rest), n) == reads(units_items(us) + rest, n),
    decreases us.len(), n,
{
    let u = entity_items(marker, body);
    if n == 0 {
    } else if us.len() == 0 {
        assert(units_items(us) + (u + rest) =~= u + rest);
        assert(units_items(us) + rest =~= rest);
        lemma_unknown_entity_is_skipped(marker, body, rest);
    } else {
        let us2 = us.drop_first();
        assert(well_formed_units(us2)) by {
            assert forall|j: int| 0 <= j < us2.len() implies (#[trigger] us2[j]).0.code == 0 && forall|i: int|
                0 <= i < us2[j].1.len() ==> (#[trigger] us2[j].1[i]).code != 0 by {
                assert(us2[j] == us[j + 1]);
            }
        }
        let m0 = us[0].0;
        let b0 = us[0].1;
        assert(us[0].0.code == 0);
        let tx = units_items(us2) + (u + rest);
        let ty = units_items(us2) + rest;
        assert(starts_with_marker(u + rest)) by {
            assert((u + rest)[0] == Ok::<CodePair, DxfError>(marker));
        }
        lemma_units_start(us2, u + rest);
        lemma_units_start(us2, rest);
        let x = units_items(us) + (u + rest);
        let y = units_items(us) + rest;
        assert(x =~= entity_items(m0, b0) + tx);
        assert(y =~= entity_items(m0, b0) + ty);
        lemma_entity_items_body(m0, b0, tx);
        lemma_entity_items_body(m0, b0, ty);
        assert(x[0] == Ok::<CodePair, DxfError>(m0));
        assert(y[0] == Ok::<CodePair, DxfError>(m0));
        lemma_unknown_entity_is_invisible(us2, marker, body, rest, n);
        lemma_unknown_entity_is_invisible(us2, marker, body, rest, (n - 1) as nat);
        lemma_unknown_entity_is_invisible(us, marker, body, rest, (n - 1) as nat);
        assert(units_items(us2) + (u + rest) == tx);
    }
}

// ---------------------------------------------------------------- dimensions

/// The resolution of a dimension: its shared fields are buffered until a
/// subclass marker names the kind, after which the kind's own fields apply.
pub enum DimensionState {
    Buffering(DimensionBase),
    Committed(EntityType),
}

pub enum DimensionStateView {
    Buffering(DimensionBaseView),
    Committed(EntityTypeView),
}

impl View for DimensionState {
    type V = DimensionStateView;

    open spec fn view(&self) -> DimensionStateView {
        match self {
            DimensionState::Buffering(b) => DimensionStateView::Buffering(b@),
            DimensionState::Committed(e) => DimensionStateView::Committed(e@),
        }
    }
}

/// The kind that a subclass marker names, carrying the buffered base; `None`
/// for any string but the five markers.
pub open spec fn dimension_marker(m: Seq<char>, b: DimensionBaseView) -> Option<EntityTypeView> {
    if m == "AcDbAlignedDimension"@ {
        Some(EntityTypeView::RotatedDimension(RotatedDimension::default_view_with(b)))
    } else if m == "AcDbRadialDimension"@ {
        Some(EntityTypeView::RadialDimension(RadialDimension::default_view_with(b)))
    } else if m == "AcDbDiametricDimension"@ {
        Some(EntityTypeView::DiameterDimension(DiameterDimension::default_view_with(b)))
    } else if m == "AcDb3PointAngularDimension"@ {
        Some(EntityTypeView::AngularThreePointDimension(AngularThreePointDimension::default_view_with(b)))
    } else if m == "AcDbOrdinateDimension"@ {
        Some(EntityTypeView::OrdinateDimension(OrdinateDimension::default_view_with(b)))
    } else {
        None
    }
}

/// What a pair does to a dimension whose kind is known. Applied to a kind
/// that is not a dimension it fails, naming the pair's group code.
pub open spec fn dimension_variant_step(e: EntityTypeView, pair: CodePair) -> Result<Option<EntityTypeView>, DxfError> {
    match e {
        EntityTypeView::RotatedDimension(d) => match rotated_dimension_pair_step(d, pair) {
            Ok(Some(d2)) => Ok(Some(EntityTypeView::RotatedDimension(d2))),
            Ok(None) => Ok(None),
            Err(e) => Err(e),
        },
        EntityTypeView::RadialDimension(d) => match radial_dimension_pair_step(d, pair) {
            Ok(Some(d2)) => Ok(Some(EntityTypeView::RadialDimension(d2))),
            Ok(None) => Ok(None),
            Err(e) => Err(e),
        },
        EntityTypeView::DiameterDimension(d) => match diameter_dimension_pair_step(d, pair) {
            Ok(Some(d2)) => Ok(Some(EntityTypeView::DiameterDimension(d2))),
            Ok(None) => Ok(None),
            Err(e) => Err(e),
        },
        EntityTypeView::AngularThreePointDimension(d) => match angular_three_point_dimension_pair_step(d, pair) {
            Ok(Some(d2)) => Ok(Some(EntityTypeView::AngularThreePointDimension(d2))),
            Ok(None) => Ok(None),
            Err(e) => Err(e),
        },
        EntityTypeView::OrdinateDimension(d) => match ordinate_dimension_pair_step(d, pair) {
            Ok(Some(d2)) => Ok(Some(EntityTypeView::OrdinateDimension(d2))),
            Ok(None) => Ok(None),
            Err(e) => Err(e),
        },
        _ => Err(DxfError::UnexpectedEnumValue(pair.code)),
    }
}

/// One pair for a dimension being read. While buffering, a string under
/// code 100 either names the kind or is ignored; other pairs go to the base,
/// then to the common fields. Once committed, pairs go to the kind's own
/// fields, then to the common fields.
pub open spec fn dimension_step(s: (DimensionStateView, CommonView), pair: CodePair) -> Result<
    (DimensionStateView, CommonView),
    DxfError,
> {
    match s.0 {
        DimensionStateView::Committed(e) => match with_common(dimension_variant_step(e, pair), e, s.1, pair) {
            Ok((e2, c2)) => Ok((DimensionStateView::Committed(e2), c2)),
            Err(x) => Err(x),
        },
        DimensionStateView::Buffering(b) => if pair.code == 100 {
            match pair.string_value() {
                Ok(m) => match dimension_marker(m@, b) {
                    Some(e) => Ok((DimensionStateView::Committed(e), s.1)),
                    None => Ok(s),
                },
                Err(x) => Err(x),
            }
        } else {
            match with_common(dimension_base_pair_step(b, pair), b, s.1, pair) {
                Ok((b2, c2)) => Ok((DimensionStateView::Buffering(b2), c2)),
                Err(x) => Err(x),
            }
        },
    }
}

pub open spec fn dimension_steps() -> spec_fn((DimensionStateView, CommonView), CodePair) -> Result<
    (DimensionStateView, CommonView),
    DxfError,
> {
    |s: (DimensionStateView, CommonView), p: CodePair| dimension_step(s, p)
}

/// A dimension read from its pairs: `None` when no subclass marker named
/// its kind before the pairs ended.
pub open spec fn decode_dimension(body: Seq<CodePair>) -> Result<Option<EntityView>, DxfError> {
    match fold_pairs(
        (DimensionStateView::Buffering(DimensionBase::default_view()), default_common()),
        body,
        dimension_steps(),
    ) {
        Ok((DimensionStateView::Committed(e), c)) => Ok(Some(EntityView { common: c, specific: e })),
        Ok((DimensionStateView::Buffering(_), _)) => Ok(None),
        Err(e) => Err(e),
    }
}

impl EntityType {
    /// Applies a pair to the kind's own fields of a dimension.
    fn apply_dimension_code_pair(&mut self, pair: &CodePair) -> (r: Result<bool, DxfError>)
        ensures
            dimension_variant_step(old(self)@, *pair) == claimed(r, final(self)@),
            r == Ok::<bool, DxfError>(false) ==> final(self)@ == old(self)@,
    {
        match self {
            EntityType::RotatedDimension(d) => d.apply_code_pair(pair),
            EntityType::RadialDimension(d) => d.apply_code_pair(pair),
            EntityType::DiameterDimension(d) => d.apply_code_pair(pair),
            EntityType::AngularThreePointDimension(d) => d.apply_code_pair(pair),
            EntityType::OrdinateDimension(d) => d.apply_code_pair(pair),
            _ => Err(DxfError::UnexpectedEnumValue(pair.code)),
        }
    }
}

fn dimension_from_marker(m: &String, b: DimensionBase) -> (r: Result<EntityType, DimensionBase>)
    ensures
        match dimension_marker(m@, b@) {
            Some(e) => r is Ok && r->Ok_0@ == e,
            None => r is Err && r->Err_0@ == b@,
        },
{
    if *m == String::from_str("AcDbAlignedDimension") {
        return Ok(EntityType::RotatedDimension(RotatedDimension::with_dimension_base(b)));
    }
    if *m == String::from_str("AcDbRadialDimension") {
        return Ok(EntityType::RadialDimension(RadialDimension::with_dimension_base(b)));
    }
    if *m == String::from_str("AcDbDiametricDimension") {
        return Ok(EntityType::DiameterDimension(DiameterDimension::with_dimension_base(b)));
    }
    if *m == String::from_str("AcDb3PointAngularDimension") {
        return Ok(EntityType::AngularThreePointDimension(AngularThreePointDimension::with_dimension_base(b)));
    }
    if *m == String::from_str("AcDbOrdinateDimension") {
        return Ok(EntityType::OrdinateDimension(OrdinateDimension::with_dimension_base(b)));
    }
    Err(b)
}

fn apply_dimension_pair(state: DimensionState, common: &mut EntityCommon, pair: &CodePair) -> (r: Result<
    DimensionState,
    DxfError,
>)
    ensures
        match dimension_step((state@, old(common)@), *pair) {
            Ok((s2, c2)) => r is Ok && r->Ok_0@ == s2 && final(common)@ == c2,
            Err(e) => r == Err::<DimensionState, DxfError>(e),
        },
{
    match state {
        DimensionState::Committed(e) => {
            let mut e = e;
            let claimed = e.apply_dimension_code_pair(pair)?;
            if !claimed {
                common.apply_individual_pair(pair)?;
            }
            Ok(DimensionState::Committed(e))
        },
        DimensionState::Buffering(b) => {
            let mut b = b;
            if pair.code == 100 {
                let m = pair.assert_string()?;
                match dimension_from_marker(&m, b) {
                    Ok(e) => Ok(DimensionState::Committed(e)),
                    Err(b) => Ok(DimensionState::Buffering(b)),
                }
            } else {
                let claimed = b.apply_code_pair(pair)?;
                if !claimed {
                    common.apply_individual_pair(pair)?;
                }
                Ok(DimensionState::Buffering(b))
            }
        },
    }
}

fn read_dimension(body: &Vec<CodePair>) -> (r: Result<Option<Entity>, DxfError>)
    ensures
        entity_result_view(r) == decode_dimension(body@),
{
    let ghost init = (DimensionStateView::Buffering(DimensionBase::default_view()), default_common());
    let mut state = DimensionState::Buffering(DimensionBase::default_value());
    let mut common = EntityCommon::new();
    let mut i: usize = 0;
    while i < body.len()
        invariant
            i <= body@.len(),
            init == (DimensionStateView::Buffering(DimensionBase::default_view()), default_common()),
            fold_pairs(init, body@.take(i as int), dimension_steps()) == Ok::<_, DxfError>((state@, common@)),
        decreases body@.len() - i,
    {
        proof {
            lemma_fold_extend(init, body@, i as int, dimension_steps());
        }
        match apply_dimension_pair(state, &mut common, &body[i]) {
            Ok(s) => {
                state = s;
            },
            Err(e) => {
                proof {
                    lemma_fold_err(init, body@, i as int + 1, dimension_steps());
                }
                return Err(e);
            },
        }
        i = i + 1;
    }
    assert(body@.take(i as int) == body@);
    match state {
        DimensionState::Committed(e) => Ok(Some(Entity { common, specific: e })),
        DimensionState::Buffering(_) => Ok(None),
    }
}

// ---------------------------------------------------------------- reading

/// What a read produced, with entities seen through their views.
pub open spec fn entity_result_view(r: Result<Option<Entity>, DxfError>) -> Result<Option<EntityView>, DxfError> {
    match r {
        Ok(Some(e)) => Ok(Some(e@)),
        Ok(None) => Ok(None),
        Err(x) => Err(x),
    }
}

/// The entity that the pairs after a type name give: `None` for a type name
/// this library does not know, and for a dimension whose kind is never named.
pub open spec fn decode_entity(t: Seq<char>, body: Seq<CodePair>) -> Result<Option<EntityView>, DxfError> {
    if t == "DIMENSION"@ {
        decode_dimension(body)
    } else {
        match type_from_string(t) {
            None => Ok(None),
            Some(EntityTypeView::LwPolyline(d)) => match fold_pairs((d, default_common()), body, lw_polyline_steps()) {
                Ok(s) => Ok(Some(EntityView { common: s.1, specific: EntityTypeView::LwPolyline(s.0) })),
                Err(x) => Err(x),
            },
            Some(EntityTypeView::MText(d)) => match fold_pairs(
                ((d, MTextColumnState { reading_column_data: false, read_column_count: false }), default_common()),
                body,
                m_text_steps(),
            ) {
                Ok(s) => Ok(Some(EntityView { common: s.1, specific: EntityTypeView::MText(s.0.0) })),
                Err(x) => Err(x),
            },
            Some(EntityTypeView::Attribute(d)) => match fold_pairs(
                ((d, initial_attribute_decoding()), default_common()),
                body,
                attribute_steps(),
            ) {
                Ok(s) => Ok(Some(EntityView { common: s.1, specific: EntityTypeView::Attribute(s.0.0) })),
                Err(x) => Err(x),
            },
            Some(EntityTypeView::AttributeDefinition(d)) => match fold_pairs(
                ((d, initial_attribute_decoding()), default_common()),
                body,
                attribute_definition_steps(),
            ) {
                Ok(s) => Ok(
                    Some(EntityView { common: s.1, specific: EntityTypeView::AttributeDefinition(s.0.0) }),
                ),
                Err(x) => Err(x),
            },
            Some(e) => match fold_pairs(((e, empty_accumulators()), default_common()), body, generic_steps()) {
                Ok(s) => Ok(Some(EntityView { common: s.1, specific: post_parse(s.0.0, s.0.1) })),
                Err(x) => Err(x),
            },
        }
    }
}

/// Decodes the pairs that followed a type name.
pub fn decode_entity_pairs(t: &String, body: &Vec<CodePair>) -> (r: Result<Option<Entity>, DxfError>)
    ensures
        entity_result_view(r) == decode_entity(t@, body@),
{
    if *t == String::from_str("DIMENSION") {
        return read_dimension(body);
    }
    match EntityType::from_type_string(t) {
        None => Ok(None),
        Some(e) => {
            let r = match e {
                EntityType::LwPolyline(_) => decode_lw_polyline(body),
                EntityType::MText(_) => decode_m_text(body),
                EntityType::Attribute(_) => decode_attribute(body),
                EntityType::AttributeDefinition(_) => decode_attribute_definition(body),
                _ => decode_generic(e, body),
            };
            match r {
                Ok(x) => Ok(Some(x)),
                Err(x) => Err(x),
            }
        },
    }
}

/// Whether a stream item ends the pairs of an entity: a type-marker pair,
/// or a failure of the source.
pub open spec fn ends_body(it: StreamItem) -> bool {
    match it {
        Ok(p) => p.code == 0,
        Err(_) => true,
    }
}

/// How many items come before the first one that ends the entity.
pub open spec fn body_len(items: Seq<StreamItem>) -> nat
    decreases items.len(),
{
    if items.len() == 0 {
        0
    } else if ends_body(items[0]) {
        0
    } else {
        1 + body_len(items.drop_first())
    }
}

proof fn lemma_body_len(items: Seq<StreamItem>, i: int)
    requires
        0 <= i <= items.len(),
        forall|j: int| 0 <= j < i ==> !ends_body(#[trigger] items[j]),
        i == items.len() || ends_body(items[i]),
    ensures
        body_len(items) == i,
    decreases i,
{
    if i > 0 {
        let t = items.drop_first();
        assert forall|j: int| 0 <= j < i - 1 implies !ends_body(#[trigger] t[j]) by {
            assert(t[j] == items[j + 1]);
        }
        if i < items.len() {
            assert(t[i - 1] == items[i]);
        }
        lemma_body_len(t, i - 1);
    }
}

/// The pairs of an entity: the items before the one that ends it.
pub open spec fn body_pairs(items: Seq<StreamItem>) -> Seq<CodePair> {
    items.take(body_len(items) as int).map_values(|it: StreamItem| it->Ok_0)
}

/// Reading the pairs of an entity: the stream must go on to a type marker,
/// which stays in the stream.
pub open spec fn read_body_spec(items: Seq<StreamItem>) -> Result<Seq<CodePair>, DxfError> {
    let k = body_len(items);
    if k >= items.len() {
        Err(DxfError::UnexpectedEndOfInput)
    } else {
        match items[k as int] {
            Err(e) => Err(e),
            Ok(_) => Ok(body_pairs(items)),
        }
    }
}

/// Takes the pairs of one entity, up to and not including the next type marker.
fn read_body(iter: &mut CodePairStream) -> (r: Result<Vec<CodePair>, DxfError>)
    ensures
        match read_body_spec(pending(*old(iter))) {
            Ok(b) => r is Ok && r->Ok_0@ == b && pending(*final(iter)) == pending(*old(iter)).skip(
                body_len(pending(*old(iter))) as int,
            ),
            Err(e) => r == Err::<Vec<CodePair>, DxfError>(e),
        },
{
    let ghost items = pending(*iter);
    let mut body: Vec<CodePair> = Vec::new();
    loop
        invariant
            items == pending(*old(iter)),
            body@.len() <= items.len(),
            pending(*iter) == items.skip(body@.len() as int),
            forall|j: int|
                0 <= j < body@.len() ==> !ends_body(#[trigger] items[j]) && items[j] == Ok::<
                    CodePair,
                    DxfError,
                >(body@[j]),
        decreases items.len() - body@.len(),
    {
        let ghost n = body@.len() as int;
        match iter.next() {
            None => {
                proof {
                    lemma_body_len(items, n);
                }
                return Err(DxfError::UnexpectedEndOfInput);
            },
            Some(Err(e)) => {
                proof {
                    assert(items[n] == items.skip(n)[0]);
                    lemma_body_len(items, n);
                }
                return Err(e);
            },
            Some(Ok(pair)) => {
                proof {
                    assert(items[n] == items.skip(n)[0]);
                }
                if pair.code == 0 {
                    let ghost rest = pending(*iter);
                    iter.put_back(Ok(pair));
                    proof {
                        lemma_body_len(items, n);
                        assert(pending(*iter) =~= items.skip(n));
                        assert(body@ =~= body_pairs(items));
                    }
                    return Ok(body);
                }
                body.push(pair);
                proof {
                    assert(pending(*iter) =~= items.skip(n + 1));
                }
            },
        }
    }
}

/// What reading the next entity gives, and the items left after it. Type
/// names that are not known, and dimensions whose kind is never named, are
/// passed over; a section or block terminator yields `None` and stays.
pub open spec fn read_spec(items: Seq<StreamItem>) -> (Result<Option<EntityView>, DxfError>, Seq<StreamItem>)
    decreases items.len(),
{
    if items.len() == 0 {
        (Err(DxfError::UnexpectedEndOfInput), items)
    } else {
        match items[0] {
            Err(e) => (Err(e), items),
            Ok(p) => if p.code != 0 {
                (Err(DxfError::UnexpectedCodePair(p)), items)
            } else {
                match p.string_value() {
                    Err(e) => (Err(e), items),
                    Ok(t) => if t@ == "ENDSEC"@ || t@ == "ENDBLK"@ {
                        (Ok(None), items)
                    } else {
                        let rest = items.drop_first();
                        let k = body_len(rest);
                        if k >= rest.len() {
                            (Err(DxfError::UnexpectedEndOfInput), items)
                        } else {
                            match rest[k as int] {
                                Err(e) => (Err(e), items),
                                Ok(_) => match decode_entity(t@, body_pairs(rest)) {
                                    Err(e) => (Err(e), items),
                                    Ok(Some(ent)) => (Ok(Some(ent)), rest.skip(k as int)),
                                    Ok(None) => read_spec(rest.skip(k as int)),
                                },
                            }
                        }
                    },
                }
            },
        }
    }
}

impl Entity {
    /// Reads the next entity. `Ok(None)` means the section or block ended; its
    /// terminator stays in the stream.
    pub fn read(iter: &mut CodePairStream) -> (r: Result<Option<Entity>, DxfError>)
        ensures
            entity_result_view(r) == read_spec(pending(*old(iter))).0,
            r is Ok ==> pending(*final(iter)) == read_spec(pending(*old(iter))).1,
    {
        loop
            invariant
                read_spec(pending(*iter)) == read_spec(pending(*old(iter))),
            decreases pending(*iter).len(),
        {
            let ghost items = pending(*iter);
            match iter.next() {
                None => {
                    return Err(DxfError::UnexpectedEndOfInput);
                },
                Some(Err(e)) => {
                    return Err(e);
                },
                Some(Ok(pair)) => {
                    if pair.code != 0 {
                        return Err(DxfError::UnexpectedCodePair(pair));
                    }
                    let t = pair.assert_string()?;
                    if t == String::from_str("ENDSEC") || t == String::from_str("ENDBLK") {
                        iter.put_back(Ok(pair));
                        proof {
                            assert(pending(*iter) =~= items);
                        }
                        return Ok(None);
                    }
                    let ghost rest = pending(*iter);
                    proof {
                        assert(rest == items.drop_first());
                    }
                    let body = read_body(iter)?;
                    let ent = decode_entity_pairs(&t, &body)?;
                    match ent {
                        Some(e) => {
                            return Ok(Some(e));
                        },
                        None => {},
                    }
                },
            }
        }
    }
}

// ---------------------------------------------------------------- writing

/// The pairs of the specific fields of an entity.
pub open spec fn specific_pairs(e: EntityTypeView, version: AcadVersion) -> Seq<PairView> {
    match e {
        EntityTypeView::Line(d) => line_pairs(d, version),
        EntityTypeView::Circle(d) => circle_pairs(d, version),
        EntityTypeView::Arc(d) => arc_pairs(d, version),
        EntityTypeView::ModelPoint(d) => model_point_pairs(d, version),
        EntityTypeView::Face3D(d) => face3d_pairs(d, version),
        EntityTypeView::Solid(d) => solid_pairs(d, version),
        EntityTypeView::Trace(d) => trace_pairs(d, version),
        EntityTypeView::Vertex(d) => vertex_pairs(d, version),
        EntityTypeView::Seqend(d) => seqend_pairs(d, version),
        EntityTypeView::Polyline(d) => polyline_pairs(d, version),
        EntityTypeView::ProxyEntity(d) => proxy_entity_pairs(d, version),
        EntityTypeView::Leader(d) => leader_pairs(d, version),
        EntityTypeView::Spline(d) => spline_pairs(d, version),
        EntityTypeView::Wipeout(d) => wipeout_pairs(d, version),
        EntityTypeView::LwPolyline(d) => lw_polyline_pairs(d, version),
        EntityTypeView::MText(d) => m_text_pairs(d, version),
        EntityTypeView::Attribute(d) => attribute_pairs(d, version),
        EntityTypeView::AttributeDefinition(d) => attribute_definition_pairs(d, version),
        EntityTypeView::RotatedDimension(d) => rotated_dimension_pairs(d, version),
        EntityTypeView::RadialDimension(d) => radial_dimension_pairs(d, version),
        EntityTypeView::DiameterDimension(d) => diameter_dimension_pairs(d, version),
        EntityTypeView::AngularThreePointDimension(d) => angular_three_point_dimension_pairs(d, version),
        EntityTypeView::OrdinateDimension(d) => ordinate_dimension_pairs(d, version),
    }
}

/// A vertex written as an entity of its own, with default common fields.
pub open spec fn vertex_entity_pairs(v: Vertex, version: AcadVersion, write_handles: bool) -> Seq<PairView> {
    seq![str_pair(0, "VERTEX"@)] + common_pairs(default_common(), version, write_handles) + vertex_pairs(v@, version)
}

/// Each vertex in turn, written as an entity.
pub open spec fn vertices_entity_pairs(vs: Seq<Vertex>, version: AcadVersion, write_handles: bool) -> Seq<PairView>
    decreases vs.len(),
{
    if vs.len() == 0 {
        Seq::empty()
    } else {
        vertices_entity_pairs(vs.drop_last(), version, write_handles) + vertex_entity_pairs(vs.last(), version, write_handles)
    }
}

/// The terminator entity after the vertices of a polyline.
pub open spec fn seqend_entity_pairs(version: AcadVersion, write_handles: bool) -> Seq<PairView> {
    seq![str_pair(0, "SEQEND"@)] + common_pairs(default_common(), version, write_handles) + seqend_pairs(SeqendView {}, version)
}

/// Entities that follow an entity in the stream: for a polyline, its vertices
/// and a terminator.
pub open spec fn trailing_pairs(e: EntityTypeView, version: AcadVersion, write_handles: bool) -> Seq<PairView> {
    match e {
        EntityTypeView::Polyline(p) => vertices_entity_pairs(p.vertices, version, write_handles)
            + seqend_entity_pairs(version, write_handles),
        _ => Seq::empty(),
    }
}

/// The pairs that write an entity: nothing where its kind does not exist in
/// the release; else its type name, common fields, specific fields and the
/// entities that follow it.
pub open spec fn entity_pairs(e: EntityView, version: AcadVersion, write_handles: bool) -> Seq<PairView> {
    if is_supported_on_version(e.specific, version) {
        seq![str_pair(0, type_string(e.specific))] + common_pairs(e.common, version, write_handles)
            + specific_pairs(e.specific, version) + trailing_pairs(e.specific, version, write_handles)
    } else {
        Seq::empty()
    }
}

impl EntityType {
    /// Writes the fields of a kind that follows the fixed tables.
    fn write_specific(&self, version: AcadVersion, out: &mut Vec<CodePair>)
        requires
            !is_dimension(self@),
        ensures
            pairs_view(final(out)@) == pairs_view(old(out)@) + specific_pairs(self@, version),
    {
        match self {
            EntityType::Line(d) => d.write_fields(version, out),
            EntityType::Circle(d) => d.write_fields(version, out),
            EntityType::Arc(d) => d.write_fields(version, out),
            EntityType::ModelPoint(d) => d.write_fields(version, out),
            EntityType::Face3D(d) => d.write_fields(version, out),
            EntityType::Solid(d) => d.write_fields(version, out),
            EntityType::Trace(d) => d.write_fields(version, out),
            EntityType::Vertex(d) => d.write_fields(version, out),
            EntityType::Seqend(d) => d.write_fields(version, out),
            EntityType::Polyline(d) => d.write_fields(version, out),
            EntityType::ProxyEntity(d) => d.write_fields(version, out),
            EntityType::Leader(d) => d.write_fields(version, out),
            EntityType::Spline(d) => d.write_fields(version, out),
            EntityType::Wipeout(d) => d.write_fields(version, out),
            EntityType::LwPolyline(d) => d.write_fields(version, out),
            EntityType::MText(d) => d.write_fields(version, out),
            EntityType::Attribute(d) => d.write_fields(version, out),
            EntityType::AttributeDefinition(d) => d.write_fields(version, out),
            _ => {},
        }
    }
}

impl Entity {
    /// Writes the entity: nothing where its kind does not exist in `version`.
    pub fn write(&self, version: &AcadVersion, write_handles: bool, out: &mut Vec<CodePair>)
        ensures
            pairs_view(final(out)@) == pairs_view(old(out)@) + entity_pairs(self@, *version, write_handles),
    {
        let ghost start = pairs_view(out@);
        if self.specific.is_supported_on_version(version) {
            emit(out, CodePair::new_str(0, self.specific.to_type_string()));
            self.common.write(*version, write_handles, out);
            let ghost mid = pairs_view(out@);
            if !self.apply_custom_writer(*version, out) {
                self.specific.write_specific(*version, out);
                let ghost mid2 = pairs_view(out@);
                self.post_write(*version, write_handles, out);
                assert(pairs_view(out@) == mid2 + trailing_pairs(self.specific@, *version, write_handles));
            }
            assert(pairs_view(out@) =~= start + entity_pairs(self@, *version, write_handles));
        } else {
            assert(pairs_view(out@) =~= start + entity_pairs(self@, *version, write_handles));
        }
    }

    /// Writes the fields of the five dimension kinds, whose layout the fixed
    /// tables cannot express; reports whether the kind was one of them.
    fn apply_custom_writer(&self, version: AcadVersion, out: &mut Vec<CodePair>) -> (r: bool)
        ensures
            r == is_dimension(self.specific@),
            r ==> pairs_view(final(out)@) == pairs_view(old(out)@) + specific_pairs(self.specific@, version),
            !r ==> final(out)@ == old(out)@,
    {
        match &self.specific {
            EntityType::RotatedDimension(d) => {
                d.write_fields(version, out);
                true
            },
            EntityType::RadialDimension(d) => {
                d.write_fields(version, out);
                true
            },
            EntityType::DiameterDimension(d) => {
                d.write_fields(version, out);
                true
            },
            EntityType::AngularThreePointDimension(d) => {
                d.write_fields(version, out);
                true
            },
            EntityType::OrdinateDimension(d) => {
                d.write_fields(version, out);
                true
            },
            _ => false,
        }
    }

    /// Writes the entities that follow this one.
    fn post_write(&self, version: AcadVersion, write_handles: bool, out: &mut Vec<CodePair>)
        ensures
            pairs_view(final(out)@) == pairs_view(old(out)@) + trailing_pairs(self.specific@, version, write_handles),
    {
        match &self.specific {
            EntityType::Polyline(poly) => {
                let ghost start = pairs_view(out@);
                let mut i: usize = 0;
                while i < poly.vertices.len()
                    invariant
                        i <= poly.vertices@.len(),
                        pairs_view(out@) == start + vertices_entity_pairs(
                            poly.vertices@.take(i as int),
                            version,
                            write_handles,
                        ),
                    decreases poly.vertices@.len() - i,
                {
                    let v = poly.vertices[i];
                    let ghost before = pairs_view(out@);
                    emit(out, CodePair::new_str(0, String::from_str("VERTEX")));
                    EntityCommon::new().write(version, write_handles, out);
                    v.write_fields(version, out);
                    assert(pairs_view(out@) =~= before + vertex_entity_pairs(v, version, write_handles));
                    assert(poly.vertices@.take(i as int + 1).drop_last() == poly.vertices@.take(i as int));
                    i = i + 1;
                    assert(pairs_view(out@) =~= start + vertices_entity_pairs(
                        poly.vertices@.take(i as int),
                        version,
                        write_handles,
                    ));
                }
                assert(poly.vertices@.take(i as int) == poly.vertices@);
                let ghost mid = pairs_view(out@);
                emit(out, CodePair::new_str(0, String::from_str("SEQEND")));
                EntityCommon::new().write(version, write_handles, out);
                Seqend::default_value().write_fields(version, out);
                assert(pairs_view(out@) =~= mid + seqend_entity_pairs(version, write_handles));
                assert(pairs_view(out@) =~= start + trailing_pairs(self.specific@, version, write_handles));
            },
            _ => {
                assert(pairs_view(out@) =~= pairs_view(old(out)@) + trailing_pairs(self.specific@, version, write_handles));
            },
        }
    }
}

// ---------------------------------------------------------------- laws

/// Whether a string is one of the five subclass markers that name a dimension kind.
pub open spec fn is_dimension_marker(m: Seq<char>) -> bool {
    m == "AcDbAlignedDimension"@ || m == "AcDbRadialDimension"@ || m == "AcDbDiametricDimension"@
        || m == "AcDb3PointAngularDimension"@ || m == "AcDbOrdinateDimension"@
}

/// Whether a pair names a dimension kind.
pub open spec fn names_dimension_kind(p: CodePair) -> bool {
    p.code == 100 && (p.string_value() matches Ok(s) && is_dimension_marker(s@))
}

/// The stream items of a type marker followed by the pairs of its entity.
pub open spec fn entity_items(marker: CodePair, body: Seq<CodePair>) -> Seq<StreamItem> {
    seq![Ok::<CodePair, DxfError>(marker)] + body.map_values(|p: CodePair| Ok::<CodePair, DxfError>(p))
}

/// Whether the items start with a type-marker pair.
pub open spec fn starts_with_marker(rest: Seq<StreamItem>) -> bool {
    rest.len() > 0 && (rest[0] matches Ok(p) && p.code == 0)
}

pub proof fn lemma_entity_items_body(marker: CodePair, body: Seq<CodePair>, rest: Seq<StreamItem>)
    requires
        forall|i: int| 0 <= i < body.len() ==> (#[trigger] body[i]).code != 0,
        starts_with_marker(rest),
    ensures
        ({
            let r = (entity_items(marker, body) + rest).drop_first();
            &&& body_len(r) == body.len()
            &&& r.skip(body.len() as int) == rest
            &&& body_pairs(r) == body
            &&& r[body.len() as int] == rest[0]
        }),
{
    let items = entity_items(marker, body) + rest;
    let r = items.drop_first();
    let n = body.len() as int;
    assert forall|j: int| 0 <= j < n implies !ends_body(#[trigger] r[j]) by {
        assert(r[j] == Ok::<CodePair, DxfError>(body[j]));
    }
    assert(r[n] == rest[0]);
    lemma_body_len(r, n);
    assert(r.skip(n) =~= rest);
    assert(body_pairs(r) =~= body);
}

/// An entity whose type name is not known is passed over without error:
/// reading gives what reading from the next type marker gives.
pub proof fn lemma_unknown_entity_is_skipped(marker: CodePair, body: Seq<CodePair>, rest: Seq<StreamItem>)
    requires
        marker.code == 0,
        marker.string_value() matches Ok(t) && type_from_string(t@).is_none() && t@ != "DIMENSION"@
            && t@ != "ENDSEC"@ && t@ != "ENDBLK"@,
        forall|i: int| 0 <= i < body.len() ==> (#[trigger] body[i]).code != 0,
        starts_with_marker(rest),
    ensures
        read_spec(entity_items(marker, body) + rest) == read_spec(rest),
{
    lemma_entity_items_body(marker, body, rest);
    let items = entity_items(marker, body) + rest;
    assert(items[0] == Ok::<CodePair, DxfError>(marker));
}

proof fn lemma_unnamed_dimension_buffers(body: Seq<CodePair>, k: int)
    requires
        0 <= k <= body.len(),
        forall|i: int| 0 <= i < body.len() ==> !names_dimension_kind(#[trigger] body[i]),
    ensures
        fold_pairs(
            (DimensionStateView::Buffering(DimensionBase::default_view()), default_common()),
            body.take(k),
            dimension_steps(),
        ) matches Ok(s) ==> s.0 is Buffering,
    decreases k,
{
    let init = (DimensionStateView::Buffering(DimensionBase::default_view()), default_common());
    if k == 0 {
        assert(body.take(0) =~= Seq::<CodePair>::empty());
    } else {
        lemma_unnamed_dimension_buffers(body, k - 1);
        lemma_fold_extend(init, body, k - 1, dimension_steps());
        assert(!names_dimension_kind(body[k - 1]));
    }
}

/// A dimension whose pairs never name its kind yields no entity, and reading
/// goes on with the next type marker as if the dimension were not there.
pub proof fn lemma_unresolved_dimension_is_skipped(marker: CodePair, body: Seq<CodePair>, rest: Seq<StreamItem>)
    requires
        marker.code == 0,
        marker.string_value() matches Ok(t) && t@ == "DIMENSION"@,
        forall|i: int| 0 <= i < body.len() ==> (#[trigger] body[i]).code != 0,
        forall|i: int| 0 <= i < body.len() ==> !names_dimension_kind(#[trigger] body[i]),
        fold_pairs(
            (DimensionStateView::Buffering(DimensionBase::default_view()), default_common()),
            body,
            dimension_steps(),
        ) is Ok,
        starts_with_marker(rest),
    ensures
        decode_dimension(body) == Ok::<Option<EntityView>, DxfError>(None),
        read_spec(entity_items(marker, body) + rest) == read_spec(rest),
{
    reveal_strlit("DIMENSION");
    reveal_strlit("ENDSEC");
    reveal_strlit("ENDBLK");
    lemma_unnamed_dimension_buffers(body, body.len() as int);
    assert(body.take(body.len() as int) == body);
    lemma_entity_items_body(marker, body, rest);
    let items = entity_items(marker, body) + rest;
    assert(items[0] == Ok::<CodePair, DxfError>(marker));
    let t = marker.string_value()->Ok_0;
    assert(t@ != "ENDSEC"@) by {
        assert("DIMENSION"@.len() != "ENDSEC"@.len());
    }
    assert(t@ != "ENDBLK"@) by {
        assert("DIMENSION"@.len() != "ENDBLK"@.len());
    }
    assert(decode_entity(t@, body) == Ok::<Option<EntityView>, DxfError>(None));
}

/// Whether no pair of a run is a subclass marker.
pub open spec fn has_no_marker(s: Seq<PairView>) -> bool {
    forall|i: int| 0 <= i < s.len() ==> (#[trigger] s[i]).code != 100
}

proof fn lemma_no_marker_concat(a: Seq<PairView>, b: Seq<PairView>)
    requires
        has_no_marker(a),
        has_no_marker(b),
    ensures
        has_no_marker(a + b),
{
    assert forall|i: int| 0 <= i < (a + b).len() implies (#[trigger] (a + b)[i]).code != 100 by {
        if i < a.len() {
            assert((a + b)[i] == a[i]);
        } else {
            assert((a + b)[i] == b[i - a.len()]);
        }
    }
}

proof fn lemma_contains_concat(a: Seq<PairView>, b: Seq<PairView>, x: PairView)
    requires
        a.contains(x) || b.contains(x),
    ensures
        (a + b).contains(x),
{
    if a.contains(x) {
        let i = choose|i: int| 0 <= i < a.len() && a[i] == x;
        assert((a + b)[i] == x);
    } else {
        let i = choose|i: int| 0 <= i < b.len() && b[i] == x;
        assert((a + b)[a.len() + i] == x);
    }
}

/// A rotated dimension written before release R13 carries no subclass
/// marker at all; written at R13 or later it carries both of its own.
pub proof fn lemma_rotated_dimension_markers(
    e: EntityView,
    d: RotatedDimensionView,
    version: AcadVersion,
    write_handles: bool,
)
    requires
        e.specific == EntityTypeView::RotatedDimension(d),
    ensures
        version.rank() < AcadVersion::R13.rank() ==> has_no_marker(entity_pairs(e, version, write_handles)),
        version.rank() >= AcadVersion::R13.rank() ==> entity_pairs(e, version, write_handles).contains(
            str_pair(100, "AcDbAlignedDimension"@),
        ) && entity_pairs(e, version, write_handles).contains(str_pair(100, "AcDbRotatedDimension"@)),
{
    let c = common_pairs(e.common, version, write_handles);
    let b = dimension_base_pairs(d.dimension_base, version);
    let b1 = dimension_base_pairs_1(d.dimension_base, version);
    let b2 = dimension_base_pairs_2(d.dimension_base, version);
    let b3 = dimension_base_pairs_3(d.dimension_base, version);
    let head = seq![str_pair(0, "DIMENSION"@)];
    let own = rotated_dimension_pairs(d, version);
    let aligned = seq![str_pair(100, "AcDbAlignedDimension"@)];
    let rotated = seq![str_pair(100, "AcDbRotatedDimension"@)];
    let mid = xyz_pairs(12, d.insertion_point.x, d.insertion_point.y, d.insertion_point.z) + xyz_pairs(
        13,
        d.definition_point_2.x,
        d.definition_point_2.y,
        d.definition_point_2.z,
    ) + xyz_pairs(14, d.definition_point_3.x, d.definition_point_3.y, d.definition_point_3.z)
        + seq![f64_pair(50, d.rotation_angle)] + seq![f64_pair(52, d.extension_line_angle)];
    assert(entity_pairs(e, version, write_handles) == head + c + own + Seq::<PairView>::empty());
    if version.rank() < AcadVersion::R13.rank() {
        assert(has_no_marker(head));
        assert(has_no_marker(c));
        assert(has_no_marker(b1));
        assert(has_no_marker(b2));
        assert(has_no_marker(b3));
        lemma_no_marker_concat(b1, b2);
        lemma_no_marker_concat(b1 + b2, b3);
        assert(has_no_marker(mid));
        assert(own =~= b + mid);
        lemma_no_marker_concat(b, mid);
        lemma_no_marker_concat(head, c);
        lemma_no_marker_concat(head + c, own);
        lemma_no_marker_concat(head + c + own, Seq::<PairView>::empty());
    } else {
        assert(own =~= b + aligned + mid + rotated);
        assert(aligned.contains(str_pair(100, "AcDbAlignedDimension"@))) by {
            assert(aligned[0] == str_pair(100, "AcDbAlignedDimension"@));
        }
        assert(rotated.contains(str_pair(100, "AcDbRotatedDimension"@))) by {
            assert(rotated[0] == str_pair(100, "AcDbRotatedDimension"@));
        }
        lemma_contains_concat(b, aligned, str_pair(100, "AcDbAlignedDimension"@));
        lemma_contains_concat(b + aligned, mid, str_pair(100, "AcDbAlignedDimension"@));
        lemma_contains_concat(b + aligned + mid, rotated, str_pair(100, "AcDbAlignedDimension"@));
        lemma_contains_concat(b + aligned + mid, rotated, str_pair(100, "AcDbRotatedDimension"@));
        lemma_contains_concat(head + c, own, str_pair(100, "AcDbAlignedDimension"@));
        lemma_contains_concat(head + c, own, str_pair(100, "AcDbRotatedDimension"@));
        lemma_contains_concat(head + c + own, Seq::<PairView>::empty(), str_pair(100, "AcDbAlignedDimension"@));
        lemma_contains_concat(head + c + own, Seq::<PairView>::empty(), str_pair(100, "AcDbRotatedDimension"@));
    }
}

} // verus!
