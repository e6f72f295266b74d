//! Entity kinds whose codes keep one meaning: their fields follow a fixed
//! table of group codes.

use vstd::prelude::*;
use crate::code_pair::{
    CodePair, DxfError, PairView, Point, Vector, ONE_BITS, pairs_view, emit, emit_xyz, emit_points,
    emit_points2, str_pair, f64_pair, i16_pair, i32_pair, xyz_pairs, point_pairs, point2_pairs,
};
use crate::common::claimed;
use crate::enums::AcadVersion;

verus! {

/// A straight segment.
#[derive(Clone, Copy, Debug, PartialEq, Eq)]
pub struct Line {
    pub p1: Point,
    pub p2: Point,
    pub thickness: u64,
    pub extrusion_direction: Vector,
}

pub struct LineView {
    pub p1: Point,
    pub p2: Point,
    pub thickness: u64,
    pub extrusion_direction: Vector,
}

impl View for Line {
    type V = LineView;

    open spec fn view(&self) -> LineView {
        LineView {
            p1: self.p1,
            p2: self.p2,
            thickness: self.thickness,
            extrusion_direction: self.extrusion_direction,
        }
    }
}

impl Line {
    /// Every field at its default.
    pub open spec fn default_view() -> LineView {
        LineView {
            p1: Point { x: 0, y: 0, z: 0 },
            p2: Point { x: 0, y: 0, z: 0 },
            thickness: 0,
            extrusion_direction: Vector { x: 0, y: 0, z: ONE_BITS },
        }
    }

    pub fn default_value() -> (r: Line)
        ensures
            r@ == Line::default_view(),
    {
        let r = Line {
            p1: Point::new(0, 0, 0),
            p2: Point::new(0, 0, 0),
            thickness: 0,
            extrusion_direction: Vector::z_axis(),
        };
        r
    }
}

/// What a pair does to a line.
pub open spec fn line_pair_step(d: LineView, pair: CodePair) -> Result<Option<LineView>, DxfError> {
    match pair.code {
        10 => match pair.f64_value() {
            Ok(v) => Ok(Some(LineView { p1: Point { x: v, ..d.p1 }, ..d })),
            Err(e) => Err(e),
        },
        20 => match pair.f64_value() {
            Ok(v) => Ok(Some(LineView { p1: Point { y: v, ..d.p1 }, ..d })),
            Err(e) => Err(e),
        },
        30 => match pair.f64_value() {
            Ok(v) => Ok(Some(LineView { p1: Point { z: v, ..d.p1 }, ..d })),
            Err(e) => Err(e),
        },
        11 => match pair.f64_value() {
            Ok(v) => Ok(Some(LineView { p2: Point { x: v, ..d.p2 }, ..d })),
            Err(e) => Err(e),
        },
        21 => match pair.f64_value() {
            Ok(v) => Ok(Some(LineView { p2: Point { y: v, ..d.p2 }, ..d })),
            Err(e) => Err(e),
        },
        31 => match pair.f64_value() {
            Ok(v) => Ok(Some(LineView { p2: Point { z: v, ..d.p2 }, ..d })),
            Err(e) => Err(e),
        },
        39 => match pair.f64_value() {
            Ok(v) => Ok(Some(LineView { thickness: v, ..d })),
            Err(e) => Err(e),
        },
        210 => match pair.f64_value() {
            Ok(v) => Ok(Some(LineView { extrusion_direction: Vector { x: v, ..d.extrusion_direction }, ..d })),
            Err(e) => Err(e),
        },
        220 => match pair.f64_value() {
            Ok(v) => Ok(Some(LineView { extrusion_direction: Vector { y: v, ..d.extrusion_direction }, ..d })),
            Err(e) => Err(e),
        },
        230 => match pair.f64_value() {
            Ok(v) => Ok(Some(LineView { extrusion_direction: Vector { z: v, ..d.extrusion_direction }, ..d })),
            Err(e) => Err(e),
        },
        _ => Ok(None),
    }
}

impl Line {
    /// Applies a pair that carries a field of this entity kind; reports whether it did.
    pub fn apply_code_pair(&mut self, pair: &CodePair) -> (r: Result<bool, DxfError>)
        ensures
            line_pair_step(old(self)@, *pair) == claimed(r, final(self)@),
            r == Ok::<bool, DxfError>(false) ==> final(self)@ == old(self)@,
    {
        match pair.code {
            10 => {
                self.p1.x = pair.assert_f64()?;
            },
            20 => {
                self.p1.y = pair.assert_f64()?;
            },
            30 => {
                self.p1.z = pair.assert_f64()?;
            },
            11 => {
                self.p2.x = pair.assert_f64()?;
            },
            21 => {
                self.p2.y = pair.assert_f64()?;
            },
            31 => {
                self.p2.z = pair.assert_f64()?;
            },
            39 => {
                self.thickness = pair.assert_f64()?;
            },
            210 => {
                self.extrusion_direction.x = pair.assert_f64()?;
            },
            220 => {
                self.extrusion_direction.y = pair.assert_f64()?;
            },
            230 => {
                self.extrusion_direction.z = pair.assert_f64()?;
            },
            _ => {
                return Ok(false);
            },
        }
        Ok(true)
    }
}

/// The pairs of a line.
pub open spec fn line_pairs(d: LineView, version: AcadVersion) -> Seq<PairView> {
    (if version.rank() >= AcadVersion::R13.rank() {
        seq![str_pair(100, "AcDbLine"@)]
    } else {
        Seq::empty()
    })
    + seq![f64_pair(39, d.thickness)]
    + xyz_pairs(10, d.p1.x, d.p1.y, d.p1.z)
    + xyz_pairs(11, d.p2.x, d.p2.y, d.p2.z)
    + xyz_pairs(210, d.extrusion_direction.x, d.extrusion_direction.y, d.extrusion_direction.z)
}

impl Line {
    /// Writes the fields of `line_pairs`.
    pub fn write_fields(&self, version: AcadVersion, out: &mut Vec<CodePair>)
        ensures
            pairs_view(final(out)@) == pairs_view(old(out)@) + line_pairs(self@, version),
    {
        let ghost start = pairs_view(out@);
        let ghost mut acc: Seq<PairView> = Seq::empty();
        if version.at_least(AcadVersion::R13) {
            emit(out, CodePair::new_str(100, String::from_str("AcDbLine")));
        }
        proof {
            acc = (if version.rank() >= AcadVersion::R13.rank() {
                seq![str_pair(100, "AcDbLine"@)]
            } else {
                Seq::empty()
            });
        }
        assert(pairs_view(out@) =~= start + acc);
        emit(out, CodePair::new_f64(39, self.thickness));
        proof {
            acc = acc + seq![f64_pair(39, self@.thickness)];
        }
        assert(pairs_view(out@) =~= start + acc);
        emit_xyz(out, 10, self.p1.x, self.p1.y, self.p1.z);
        proof {
            acc = acc + xyz_pairs(10, self@.p1.x, self@.p1.y, self@.p1.z);
        }
        assert(pairs_view(out@) =~= start + acc);
        emit_xyz(out, 11, self.p2.x, self.p2.y, self.p2.z);
        proof {
            acc = acc + xyz_pairs(11, self@.p2.x, self@.p2.y, self@.p2.z);
        }
        assert(pairs_view(out@) =~= start + acc);
        emit_xyz(out, 210, self.extrusion_direction.x, self.extrusion_direction.y, self.extrusion_direction.z);
        proof {
            acc = acc + xyz_pairs(210, self@.extrusion_direction.x, self@.extrusion_direction.y, self@.extrusion_direction.z);
        }
        assert(pairs_view(out@) =~= start + acc);
        assert(acc == line_pairs(self@, version));
    }
}

/// A circle.
#[derive(Clone, Copy, Debug, PartialEq, Eq)]
pub struct Circle {
    pub center: Point,
    pub radius: u64,
    pub thickness: u64,
    pub normal: Vector,
}

pub struct CircleView {
    pub center: Point,
    pub radius: u64,
    pub thickness: u64,
    pub normal: Vector,
}

impl View for Circle {
    type V = CircleView;

    open spec fn view(&self) -> CircleView {
        CircleView {
            center: self.center,
            radius: self.radius,
            thickness: self.thickness,
            normal: self.normal,
        }
    }
}

impl Circle {
    /// Every field at its default.
    pub open spec fn default_view() -> CircleView {
        CircleView {
            center: Point { x: 0, y: 0, z: 0 },
            radius: 0,
            thickness: 0,
            normal: Vector { x: 0, y: 0, z: ONE_BITS },
        }
    }

    pub fn default_value() -> (r: Circle)
        ensures
            r@ == Circle::default_view(),
    {
        let r = Circle {
            center: Point::new(0, 0, 0),
            radius: 0,
            thickness: 0,
            normal: Vector::z_axis(),
        };
        r
    }
}

/// What a pair does to a circle.
pub open spec fn circle_pair_step(d: CircleView, pair: CodePair) -> Result<Option<CircleView>, DxfError> {
    match pair.code {
        10 => match pair.f64_value() {
            Ok(v) => Ok(Some(CircleView { center: Point { x: v, ..d.center }, ..d })),
            Err(e) => Err(e),
        },
        20 => match pair.f64_value() {
            Ok(v) => Ok(Some(CircleView { center: Point { y: v, ..d.center }, ..d })),
            Err(e) => Err(e),
        },
        30 => match pair.f64_value() {
            Ok(v) => Ok(Some(CircleView { center: Point { z: v, ..d.center }, ..d })),
            Err(e) => Err(e),
        },
        40 => match pair.f64_value() {
            Ok(v) => Ok(Some(CircleView { radius: v, ..d })),
            Err(e) => Err(e),
        },
        39 => match pair.f64_value() {
            Ok(v) => Ok(Some(CircleView { thickness: v, ..d })),
            Err(e) => Err(e),
        },
        210 => match pair.f64_value() {
            Ok(v) => Ok(Some(CircleView { normal: Vector { x: v, ..d.normal }, ..d })),
            Err(e) => Err(e),
        },
        220 => match pair.f64_value() {
            Ok(v) => Ok(Some(CircleView { normal: Vector { y: v, ..d.normal }, ..d })),
            Err(e) => Err(e),
        },
        230 => match pair.f64_value() {
            Ok(v) => Ok(Some(CircleView { normal: Vector { z: v, ..d.normal }, ..d })),
            Err(e) => Err(e),
        },
        _ => Ok(None),
    }
}

impl Circle {
    /// Applies a pair that carries a field of this entity kind; reports whether it did.
    pub fn apply_code_pair(&mut self, pair: &CodePair) -> (r: Result<bool, DxfError>)
        ensures
            circle_pair_step(old(self)@, *pair) == claimed(r, final(self)@),
            r == Ok::<bool, DxfError>(false) ==> final(self)@ == old(self)@,
    {
        match pair.code {
            10 => {
                self.center.x = pair.assert_f64()?;
            },
            20 => {
                self.center.y = pair.assert_f64()?;
            },
            30 => {
                self.center.z = pair.assert_f64()?;
            },
            40 => {
                self.radius = pair.assert_f64()?;
            },
            39 => {
                self.thickness = pair.assert_f64()?;
            },
            210 => {
                self.normal.x = pair.assert_f64()?;
            },
            220 => {
                self.normal.y = pair.assert_f64()?;
            },
            230 => {
                self.normal.z = pair.assert_f64()?;
            },
            _ => {
                return Ok(false);
            },
        }
        Ok(true)
    }
}

/// The pairs of a circle.
pub open spec fn circle_pairs(d: CircleView, version: AcadVersion) -> Seq<PairView> {
    (if version.rank() >= AcadVersion::R13.rank() {
        seq![str_pair(100, "AcDbCircle"@)]
    } else {
        Seq::empty()
    })
    + seq![f64_pair(39, d.thickness)]
    + xyz_pairs(10, d.center.x, d.center.y, d.center.z)
    + seq![f64_pair(40, d.radius)]
    + xyz_pairs(210, d.normal.x, d.normal.y, d.normal.z)
}

impl Circle {
    /// Writes the fields of `circle_pairs`.
    pub fn write_fields(&self, version: AcadVersion, out: &mut Vec<CodePair>)
        ensures
            pairs_view(final(out)@) == pairs_view(old(out)@) + circle_pairs(self@, version),
    {
        let ghost start = pairs_view(out@);
        let ghost mut acc: Seq<PairView> = Seq::empty();
        if version.at_least(AcadVersion::R13) {
            emit(out, CodePair::new_str(100, String::from_str("AcDbCircle")));
        }
        proof {
            acc = (if version.rank() >= AcadVersion::R13.rank() {
                seq![str_pair(100, "AcDbCircle"@)]
            } else {
                Seq::empty()
            });
        }
        assert(pairs_view(out@) =~= start + acc);
        emit(out, CodePair::new_f64(39, self.thickness));
        proof {
            acc = acc + seq![f64_pair(39, self@.thickness)];
        }
        assert(pairs_view(out@) =~= start + acc);
        emit_xyz(out, 10, self.center.x, self.center.y, self.center.z);
        proof {
            acc = acc + xyz_pairs(10, self@.center.x, self@.center.y, self@.center.z);
        }
        assert(pairs_view(out@) =~= start + acc);
        emit(out, CodePair::new_f64(40, self.radius));
        proof {
            acc = acc + seq![f64_pair(40, self@.radius)];
        }
        assert(pairs_view(out@) =~= start + acc);
        emit_xyz(out, 210, self.normal.x, self.normal.y, self.normal.z);
        proof {
            acc = acc + xyz_pairs(210, self@.normal.x, self@.normal.y, self@.normal.z);
        }
        assert(pairs_view(out@) =~= start + acc);
        assert(acc == circle_pairs(self@, version));
    }
}

/// A circular arc; angles in degrees.
#[derive(Clone, Copy, Debug, PartialEq, Eq)]
pub struct Arc {
    pub center: Point,
    pub radius: u64,
    pub start_angle: u64,
    pub end_angle: u64,
    pub thickness: u64,
    pub normal: Vector,
}

pub struct ArcView {
    pub center: Point,
    pub radius: u64,
    pub start_angle: u64,
    pub end_angle: u64,
    pub thickness: u64,
    pub normal: Vector,
}

impl View for Arc {
    type V = ArcView;

    open spec fn view(&self) -> ArcView {
        ArcView {
            center: self.center,
            radius: self.radius,
            start_angle: self.start_angle,
            end_angle: self.end_angle,
            thickness: self.thickness,
            normal: self.normal,
        }
    }
}

impl Arc {
    /// Every field at its default.
    pub open spec fn default_view() -> ArcView {
        ArcView {
            center: Point { x: 0, y: 0, z: 0 },
            radius: 0,
            start_angle: 0,
            end_angle: 0,
            thickness: 0,
            normal: Vector { x: 0, y: 0, z: ONE_BITS },
        }
    }

    pub fn default_value() -> (r: Arc)
        ensures
            r@ == Arc::default_view(),
    {
        let r = Arc {
            center: Point::new(0, 0, 0),
            radius: 0,
            start_angle: 0,
            end_angle: 0,
            thickness: 0,
            normal: Vector::z_axis(),
        };
        r
    }
}

/// What a pair does to a arc.
pub open spec fn arc_pair_step(d: ArcView, pair: CodePair) -> Result<Option<ArcView>, DxfError> {
    match pair.code {
        10 => match pair.f64_value() {
            Ok(v) => Ok(Some(ArcView { center: Point { x: v, ..d.center }, ..d })),
            Err(e) => Err(e),
        },
        20 => match pair.f64_value() {
            Ok(v) => Ok(Some(ArcView { center: Point { y: v, ..d.center }, ..d })),
            Err(e) => Err(e),
        },
        30 => match pair.f64_value() {
            Ok(v) => Ok(Some(ArcView { center: Point { z: v, ..d.center }, ..d })),
            Err(e) => Err(e),
        },
        40 => match pair.f64_value() {
            Ok(v) => Ok(Some(ArcView { radius: v, ..d })),
            Err(e) => Err(e),
        },
        50 => match pair.f64_value() {
            Ok(v) => Ok(Some(ArcView { start_angle: v, ..d })),
            Err(e) => Err(e),
        },
        51 => match pair.f64_value() {
            Ok(v) => Ok(Some(ArcView { end_angle: v, ..d })),
            Err(e) => Err(e),
        },
        39 => match pair.f64_value() {
            Ok(v) => Ok(Some(ArcView { thickness: v, ..d })),
            Err(e) => Err(e),
        },
        210 => match pair.f64_value() {
            Ok(v) => Ok(Some(ArcView { normal: Vector { x: v, ..d.normal }, ..d })),
            Err(e) => Err(e),
        },
        220 => match pair.f64_value() {
            Ok(v) => Ok(Some(ArcView { normal: Vector { y: v, ..d.normal }, ..d })),
            Err(e) => Err(e),
        },
        230 => match pair.f64_value() {
            Ok(v) => Ok(Some(ArcView { normal: Vector { z: v, ..d.normal }, ..d })),
            Err(e) => Err(e),
        },
        _ => Ok(None),
    }
}

impl Arc {
    /// Applies a pair that carries a field of this entity kind; reports whether it did.
    pub fn apply_code_pair(&mut self, pair: &CodePair) -> (r: Result<bool, DxfError>)
        ensures
            arc_pair_step(old(self)@, *pair) == claimed(r, final(self)@),
            r == Ok::<bool, DxfError>(false) ==> final(self)@ == old(self)@,
    {
        match pair.code {
            10 => {
                self.center.x = pair.assert_f64()?;
            },
            20 => {
                self.center.y = pair.assert_f64()?;
            },
            30 => {
                self.center.z = pair.assert_f64()?;
            },
            40 => {
                self.radius = pair.assert_f64()?;
            },
            50 => {
                self.start_angle = pair.assert_f64()?;
            },
            51 => {
                self.end_angle = pair.assert_f64()?;
            },
            39 => {
                self.thickness = pair.assert_f64()?;
            },
            210 => {
                self.normal.x = pair.assert_f64()?;
            },
            220 => {
                self.normal.y = pair.assert_f64()?;
            },
            230 => {
                self.normal.z = pair.assert_f64()?;
            },
            _ => {
                return Ok(false);
            },
        }
        Ok(true)
    }
}

/// The pairs of a arc.
pub open spec fn arc_pairs(d: ArcView, version: AcadVersion) -> Seq<PairView> {
    (if version.rank() >= AcadVersion::R13.rank() {
        seq![str_pair(100, "AcDbCircle"@)]
    } else {
        Seq::empty()
    })
    + seq![f64_pair(39, d.thickness)]
    + xyz_pairs(10, d.center.x, d.center.y, d.center.z)
    + seq![f64_pair(40, d.radius)]
    + xyz_pairs(210, d.normal.x, d.normal.y, d.normal.z)
    + (if version.rank() >= AcadVersion::R13.rank() {
        seq![str_pair(100, "AcDbArc"@)]
    } else {
        Seq::empty()
    })
    + seq![f64_pair(50, d.start_angle)]
    + seq![f64_pair(51, d.end_angle)]
}

impl Arc {
    /// Writes the fields of `arc_pairs`.
    pub fn write_fields(&self, version: AcadVersion, out: &mut Vec<CodePair>)
        ensures
            pairs_view(final(out)@) == pairs_view(old(out)@) + arc_pairs(self@, version),
    {
        let ghost start = pairs_view(out@);
        let ghost mut acc: Seq<PairView> = Seq::empty();
        if version.at_least(AcadVersion::R13) {
            emit(out, CodePair::new_str(100, String::from_str("AcDbCircle")));
        }
        proof {
            acc = (if version.rank() >= AcadVersion::R13.rank() {
                seq![str_pair(100, "AcDbCircle"@)]
            } else {
                Seq::empty()
            });
        }
        assert(pairs_view(out@) =~= start + acc);
        emit(out, CodePair::new_f64(39, self.thickness));
        proof {
            acc = acc + seq![f64_pair(39, self@.thickness)];
        }
        assert(pairs_view(out@) =~= start + acc);
        emit_xyz(out, 10, self.center.x, self.center.y, self.center.z);
        proof {
            acc = acc + xyz_pairs(10, self@.center.x, self@.center.y, self@.center.z);
        }
        assert(pairs_view(out@) =~= start + acc);
        emit(out, CodePair::new_f64(40, self.radius));
        proof {
            acc = acc + seq![f64_pair(40, self@.radius)];
        }
        assert(pairs_view(out@) =~= start + acc);
        emit_xyz(out, 210, self.normal.x, self.normal.y, self.normal.z);
        proof {
            acc = acc + xyz_pairs(210, self@.normal.x, self@.normal.y, self@.normal.z);
        }
        assert(pairs_view(out@) =~= start + acc);
        if version.at_least(AcadVersion::R13) {
            emit(out, CodePair::new_str(100, String::from_str("AcDbArc")));
        }
        proof {
            acc = acc + (if version.rank() >= AcadVersion::R13.rank() {
                seq![str_pair(100, "AcDbArc"@)]
            } else {
                Seq::empty()
            });
        }
        assert(pairs_view(out@) =~= start + acc);
        emit(out, CodePair::new_f64(50, self.start_angle));
        proof {
            acc = acc + seq![f64_pair(50, self@.start_angle)];
        }
        assert(pairs_view(out@) =~= start + acc);
        emit(out, CodePair::new_f64(51, self.end_angle));
        proof {
            acc = acc + seq![f64_pair(51, self@.end_angle)];
        }
        assert(pairs_view(out@) =~= start + acc);
        assert(acc == arc_pairs(self@, version));
    }
}

/// A point entity.
#[derive(Clone, Copy, Debug, PartialEq, Eq)]
pub struct ModelPoint {
    pub location: Point,
    pub thickness: u64,
    pub extrusion_direction: Vector,
    pub angle: u64,
}

pub struct ModelPointView {
    pub location: Point,
    pub thickness: u64,
    pub extrusion_direction: Vector,
    pub angle: u64,
}

impl View for ModelPoint {
    type V = ModelPointView;

    open spec fn view(&self) -> ModelPointView {
        ModelPointView {
            location: self.location,
            thickness: self.thickness,
            extrusion_direction: self.extrusion_direction,
            angle: self.angle,
        }
    }
}

impl ModelPoint {
    /// Every field at its default.
    pub open spec fn default_view() -> ModelPointView {
        ModelPointView {
            location: Point { x: 0, y: 0, z: 0 },
            thickness: 0,
            extrusion_direction: Vector { x: 0, y: 0, z: ONE_BITS },
            angle: 0,
        }
    }

    pub fn default_value() -> (r: ModelPoint)
        ensures
            r@ == ModelPoint::default_view(),
    {
        let r = ModelPoint {
            location: Point::new(0, 0, 0),
            thickness: 0,
            extrusion_direction: Vector::z_axis(),
            angle: 0,
        };
        r
    }
}

/// What a pair does to a model point.
pub open spec fn model_point_pair_step(d: ModelPointView, pair: CodePair) -> Result<Option<ModelPointView>, DxfError> {
    match pair.code {
        10 => match pair.f64_value() {
            Ok(v) => Ok(Some(ModelPointView { location: Point { x: v, ..d.location }, ..d })),
            Err(e) => Err(e),
        },
        20 => match pair.f64_value() {
            Ok(v) => Ok(Some(ModelPointView { location: Point { y: v, ..d.location }, ..d })),
            Err(e) => Err(e),
        },
        30 => match pair.f64_value() {
            Ok(v) => Ok(Some(ModelPointView { location: Point { z: v, ..d.location }, ..d })),
            Err(e) => Err(e),
        },
        39 => match pair.f64_value() {
            Ok(v) => Ok(Some(ModelPointView { thickness: v, ..d })),
            Err(e) => Err(e),
        },
        50 => match pair.f64_value() {
            Ok(v) => Ok(Some(ModelPointView { angle: v, ..d })),
            Err(e) => Err(e),
        },
        210 => match pair.f64_value() {
            Ok(v) => Ok(Some(ModelPointView { extrusion_direction: Vector { x: v, ..d.extrusion_direction }, ..d })),
            Err(e) => Err(e),
        },
        220 => match pair.f64_value() {
            Ok(v) => Ok(Some(ModelPointView { extrusion_direction: Vector { y: v, ..d.extrusion_direction }, ..d })),
            Err(e) => Err(e),
        },
        230 => match pair.f64_value() {
            Ok(v) => Ok(Some(ModelPointView { extrusion_direction: Vector { z: v, ..d.extrusion_direction }, ..d })),
            Err(e) => Err(e),
        },
        _ => Ok(None),
    }
}

impl ModelPoint {
    /// Applies a pair that carries a field of this entity kind; reports whether it did.
    pub fn apply_code_pair(&mut self, pair: &CodePair) -> (r: Result<bool, DxfError>)
        ensures
            model_point_pair_step(old(self)@, *pair) == claimed(r, final(self)@),
            r == Ok::<bool, DxfError>(false) ==> final(self)@ == old(self)@,
    {
        match pair.code {
            10 => {
                self.location.x = pair.assert_f64()?;
            },
            20 => {
                self.location.y = pair.assert_f64()?;
            },
            30 => {
                self.location.z = pair.assert_f64()?;
            },
            39 => {
                self.thickness = pair.assert_f64()?;
            },
            50 => {
                self.angle = pair.assert_f64()?;
            },
            210 => {
                self.extrusion_direction.x = pair.assert_f64()?;
            },
            220 => {
                self.extrusion_direction.y = pair.assert_f64()?;
            },
            230 => {
                self.extrusion_direction.z = pair.assert_f64()?;
            },
            _ => {
                return Ok(false);
            },
        }
        Ok(true)
    }
}

/// The pairs of a model point.
pub open spec fn model_point_pairs(d: ModelPointView, version: AcadVersion) -> Seq<PairView> {
    (if version.rank() >= AcadVersion::R13.rank() {
        seq![str_pair(100, "AcDbPoint"@)]
    } else {
        Seq::empty()
    })
    + xyz_pairs(10, d.location.x, d.location.y, d.location.z)
    + seq![f64_pair(39, d.thickness)]
    + xyz_pairs(210, d.extrusion_direction.x, d.extrusion_direction.y, d.extrusion_direction.z)
    + seq![f64_pair(50, d.angle)]
}

impl ModelPoint {
    /// Writes the fields of `model_point_pairs`.
    pub fn write_fields(&self, version: AcadVersion, out: &mut Vec<CodePair>)
        ensures
            pairs_view(final(out)@) == pairs_view(old(out)@) + model_point_pairs(self@, version),
    {
        let ghost start = pairs_view(out@);
        let ghost mut acc: Seq<PairView> = Seq::empty();
        if version.at_least(AcadVersion::R13) {
            emit(out, CodePair::new_str(100, String::from_str("AcDbPoint")));
        }
        proof {
            acc = (if version.rank() >= AcadVersion::R13.rank() {
                seq![str_pair(100, "AcDbPoint"@)]
            } else {
                Seq::empty()
            });
        }
        assert(pairs_view(out@) =~= start + acc);
        emit_xyz(out, 10, self.location.x, self.location.y, self.location.z);
        proof {
            acc = acc + xyz_pairs(10, self@.location.x, self@.location.y, self@.location.z);
        }
        assert(pairs_view(out@) =~= start + acc);
        emit(out, CodePair::new_f64(39, self.thickness));
        proof {
            acc = acc + seq![f64_pair(39, self@.thickness)];
        }
        assert(pairs_view(out@) =~= start + acc);
        emit_xyz(out, 210, self.extrusion_direction.x, self.extrusion_direction.y, self.extrusion_direction.z);
        proof {
            acc = acc + xyz_pairs(210, self@.extrusion_direction.x, self@.extrusion_direction.y, self@.extrusion_direction.z);
        }
        assert(pairs_view(out@) =~= start + acc);
        emit(out, CodePair::new_f64(50, self.angle));
        proof {
            acc = acc + seq![f64_pair(50, self@.angle)];
        }
        assert(pairs_view(out@) =~= start + acc);
        assert(acc == model_point_pairs(self@, version));
    }
}

/// A three- or four-sided face.
#[derive(Clone, Copy, Debug, PartialEq, Eq)]
pub struct Face3D {
    pub first_corner: Point,
    pub second_corner: Point,
    pub third_corner: Point,
    pub fourth_corner: Point,
    pub edge_flags: i32,
}

pub struct Face3DView {
    pub first_corner: Point,
    pub second_corner: Point,
    pub third_corner: Point,
    pub fourth_corner: Point,
    pub edge_flags: i32,
}

impl View for Face3D {
    type V = Face3DView;

    open spec fn view(&self) -> Face3DView {
        Face3DView {
            first_corner: self.first_corner,
            second_corner: self.second_corner,
            third_corner: self.third_corner,
            fourth_corner: self.fourth_corner,
            edge_flags: self.edge_flags,
        }
    }
}

impl Face3D {
    /// Every field at its default.
    pub open spec fn default_view() -> Face3DView {
        Face3DView {
            first_corner: Point { x: 0, y: 0, z: 0 },
            second_corner: Point { x: 0, y: 0, z: 0 },
            third_corner: Point { x: 0, y: 0, z: 0 },
            fourth_corner: Point { x: 0, y: 0, z: 0 },
            edge_flags: 0,
        }
    }

    pub fn default_value() -> (r: Face3D)
        ensures
            r@ == Face3D::default_view(),
    {
        let r = Face3D {
            first_corner: Point::new(0, 0, 0),
            second_corner: Point::new(0, 0, 0),
            third_corner: Point::new(0, 0, 0),
            fourth_corner: Point::new(0, 0, 0),
            edge_flags: 0,
        };
        r
    }
}

/// What a pair does to a face3d.
pub open spec fn face3d_pair_step(d: Face3DView, pair: CodePair) -> Result<Option<Face3DView>, DxfError> {
    match pair.code {
        10 => match pair.f64_value() {
            Ok(v) => Ok(Some(Face3DView { first_corner: Point { x: v, ..d.first_corner }, ..d })),
            Err(e) => Err(e),
        },
        20 => match pair.f64_value() {
            Ok(v) => Ok(Some(Face3DView { first_corner: Point { y: v, ..d.first_corner }, ..d })),
            Err(e) => Err(e),
        },
        30 => match pair.f64_value() {
            Ok(v) => Ok(Some(Face3DView { first_corner: Point { z: v, ..d.first_corner }, ..d })),
            Err(e) => Err(e),
        },
        11 => match pair.f64_value() {
            Ok(v) => Ok(Some(Face3DView { second_corner: Point { x: v, ..d.second_corner }, ..d })),
            Err(e) => Err(e),
        },
        21 => match pair.f64_value() {
            Ok(v) => Ok(Some(Face3DView { second_corner: Point { y: v, ..d.second_corner }, ..d })),
            Err(e) => Err(e),
        },
        31 => match pair.f64_value() {
            Ok(v) => Ok(Some(Face3DView { second_corner: Point { z: v, ..d.second_corner }, ..d })),
            Err(e) => Err(e),
        },
        12 => match pair.f64_value() {
            Ok(v) => Ok(Some(Face3DView { third_corner: Point { x: v, ..d.third_corner }, ..d })),
            Err(e) => Err(e),
        },
        22 => match pair.f64_value() {
            Ok(v) => Ok(Some(Face3DView { third_corner: Point { y: v, ..d.third_corner }, ..d })),
            Err(e) => Err(e),
        },
        32 => match pair.f64_value() {
            Ok(v) => Ok(Some(Face3DView { third_corner: Point { z: v, ..d.third_corner }, ..d })),
            Err(e) => Err(e),
        },
        13 => match pair.f64_value() {
            Ok(v) => Ok(Some(Face3DView { fourth_corner: Point { x: v, ..d.fourth_corner }, ..d })),
            Err(e) => Err(e),
        },
        23 => match pair.f64_value() {
            Ok(v) => Ok(Some(Face3DView { fourth_corner: Point { y: v, ..d.fourth_corner }, ..d })),
            Err(e) => Err(e),
        },
        33 => match pair.f64_value() {
            Ok(v) => Ok(Some(Face3DView { fourth_corner: Point { z: v, ..d.fourth_corner }, ..d })),
            Err(e) => Err(e),
        },
        70 => match pair.i16_value() {
            Ok(v) => Ok(Some(Face3DView { edge_flags: v as i32, ..d })),
            Err(e) => Err(e),
        },
        _ => Ok(None),
    }
}

impl Face3D {
    /// Applies a pair that carries a field of this entity kind; reports whether it did.
    pub fn apply_code_pair(&mut self, pair: &CodePair) -> (r: Result<bool, DxfError>)
        ensures
            face3d_pair_step(old(self)@, *pair) == claimed(r, final(self)@),
            r == Ok::<bool, DxfError>(false) ==> final(self)@ == old(self)@,
    {
        match pair.code {
            10 => {
                self.first_corner.x = pair.assert_f64()?;
            },
            20 => {
                self.first_corner.y = pair.assert_f64()?;
            },
            30 => {
                self.first_corner.z = pair.assert_f64()?;
            },
            11 => {
                self.second_corner.x = pair.assert_f64()?;
            },
            21 => {
                self.second_corner.y = pair.assert_f64()?;
            },
            31 => {
                self.second_corner.z = pair.assert_f64()?;
            },
            12 => {
                self.third_corner.x = pair.assert_f64()?;
            },
            22 => {
                self.third_corner.y = pair.assert_f64()?;
            },
            32 => {
                self.third_corner.z = pair.assert_f64()?;
            },
            13 => {
                self.fourth_corner.x = pair.assert_f64()?;
            },
            23 => {
                self.fourth_corner.y = pair.assert_f64()?;
            },
            33 => {
                self.fourth_corner.z = pair.assert_f64()?;
            },
            70 => {
                self.edge_flags = pair.assert_i16()? as i32;
            },
            _ => {
                return Ok(false);
            },
        }
        Ok(true)
    }
}

/// The pairs of a face3d.
pub open spec fn face3d_pairs(d: Face3DView, version: AcadVersion) -> Seq<PairView> {
    (if version.rank() >= AcadVersion::R13.rank() {
        seq![str_pair(100, "AcDbFace"@)]
    } else {
        Seq::empty()
    })
    + xyz_pairs(10, d.first_corner.x, d.first_corner.y, d.first_corner.z)
    + xyz_pairs(11, d.second_corner.x, d.second_corner.y, d.second_corner.z)
    + xyz_pairs(12, d.third_corner.x, d.third_corner.y, d.third_corner.z)
    + xyz_pairs(13, d.fourth_corner.x, d.fourth_corner.y, d.fourth_corner.z)
    + seq![i16_pair(70, d.edge_flags as i16)]
}

impl Face3D {
    /// Writes the fields of `face3d_pairs`.
    pub fn write_fields(&self, version: AcadVersion, out: &mut Vec<CodePair>)
        ensures
            pairs_view(final(out)@) == pairs_view(old(out)@) + face3d_pairs(self@, version),
    {
        let ghost start = pairs_view(out@);
        let ghost mut acc: Seq<PairView> = Seq::empty();
        if version.at_least(AcadVersion::R13) {
            emit(out, CodePair::new_str(100, String::from_str("AcDbFace")));
        }
        proof {
            acc = (if version.rank() >= AcadVersion::R13.rank() {
                seq![str_pair(100, "AcDbFace"@)]
            } else {
                Seq::empty()
            });
        }
        assert(pairs_view(out@) =~= start + acc);
        emit_xyz(out, 10, self.first_corner.x, self.first_corner.y, self.first_corner.z);
        proof {
            acc = acc + xyz_pairs(10, self@.first_corner.x, self@.first_corner.y, self@.first_corner.z);
        }
        assert(pairs_view(out@) =~= start + acc);
        emit_xyz(out, 11, self.second_corner.x, self.second_corner.y, self.second_corner.z);
        proof {
            acc = acc + xyz_pairs(11, self@.second_corner.x, self@.second_corner.y, self@.second_corner.z);
        }
        assert(pairs_view(out@) =~= start + acc);
        emit_xyz(out, 12, self.third_corner.x, self.third_corner.y, self.third_corner.z);
        proof {
            acc = acc + xyz_pairs(12, self@.third_corner.x, self@.third_corner.y, self@.third_corner.z);
        }
        assert(pairs_view(out@) =~= start + acc);
        emit_xyz(out, 13, self.fourth_corner.x, self.fourth_corner.y, self.fourth_corner.z);
        proof {
            acc = acc + xyz_pairs(13, self@.fourth_corner.x, self@.fourth_corner.y, self@.fourth_corner.z);
        }
        assert(pairs_view(out@) =~= start + acc);
        emit(out, CodePair::new_i16(70, self.edge_flags as i16));
        proof {
            acc = acc + seq![i16_pair(70, self@.edge_flags as i16)];
        }
        assert(pairs_view(out@) =~= start + acc);
        assert(acc == face3d_pairs(self@, version));
    }
}

/// A filled quadrilateral.
#[derive(Clone, Copy, Debug, PartialEq, Eq)]
pub struct Solid {
    pub first_corner: Point,
    pub second_corner: Point,
    pub third_corner: Point,
    pub fourth_corner: Point,
    pub thickness: u64,
    pub extrusion_direction: Vector,
}

pub struct SolidView {
    pub first_corner: Point,
    pub second_corner: Point,
    pub third_corner: Point,
    pub fourth_corner: Point,
    pub thickness: u64,
    pub extrusion_direction: Vector,
}

impl View for Solid {
    type V = SolidView;

    open spec fn view(&self) -> SolidView {
        SolidView {
            first_corner: self.first_corner,
            second_corner: self.second_corner,
            third_corner: self.third_corner,
            fourth_corner: self.fourth_corner,
            thickness: self.thickness,
            extrusion_direction: self.extrusion_direction,
        }
    }
}

impl Solid {
    /// Every field at its default.
    pub open spec fn default_view() -> SolidView {
        SolidView {
            first_corner: Point { x: 0, y: 0, z: 0 },
            second_corner: Point { x: 0, y: 0, z: 0 },
            third_corner: Point { x: 0, y: 0, z: 0 },
            fourth_corner: Point { x: 0, y: 0, z: 0 },
            thickness: 0,
            extrusion_direction: Vector { x: 0, y: 0, z: ONE_BITS },
        }
    }

    pub fn default_value() -> (r: Solid)
        ensures
            r@ == Solid::default_view(),
    {
        let r = Solid {
            first_corner: Point::new(0, 0, 0),
            second_corner: Point::new(0, 0, 0),
            third_corner: Point::new(0, 0, 0),
            fourth_corner: Point::new(0, 0, 0),
            thickness: 0,
            extrusion_direction: Vector::z_axis(),
        };
        r
    }
}

/// What a pair does to a solid.
pub open spec fn solid_pair_step(d: SolidView, pair: CodePair) -> Result<Option<SolidView>, DxfError> {
    match pair.code {
        10 => match pair.f64_value() {
            Ok(v) => Ok(Some(SolidView { first_corner: Point { x: v, ..d.first_corner }, ..d })),
            Err(e) => Err(e),
        },
        20 => match pair.f64_value() {
            Ok(v) => Ok(Some(SolidView { first_corner: Point { y: v, ..d.first_corner }, ..d })),
            Err(e) => Err(e),
        },
        30 => match pair.f64_value() {
            Ok(v) => Ok(Some(SolidView { first_corner: Point { z: v, ..d.first_corner }, ..d })),
            Err(e) => Err(e),
        },
        11 => match pair.f64_value() {
            Ok(v) => Ok(Some(SolidView { second_corner: Point { x: v, ..d.second_corner }, ..d })),
            Err(e) => Err(e),
        },
        21 => match pair.f64_value() {
            Ok(v) => Ok(Some(SolidView { second_corner: Point { y: v, ..d.second_corner }, ..d })),
            Err(e) => Err(e),
        },
        31 => match pair.f64_value() {
            Ok(v) => Ok(Some(SolidView { second_corner: Point { z: v, ..d.second_corner }, ..d })),
            Err(e) => Err(e),
        },
        12 => match pair.f64_value() {
            Ok(v) => Ok(Some(SolidView { third_corner: Point { x: v, ..d.third_corner }, ..d })),
            Err(e) => Err(e),
        },
        22 => match pair.f64_value() {
            Ok(v) => Ok(Some(SolidView { third_corner: Point { y: v, ..d.third_corner }, ..d })),
            Err(e) => Err(e),
        },
        32 => match pair.f64_value() {
            Ok(v) => Ok(Some(SolidView { third_corner: Point { z: v, ..d.third_corner }, ..d })),
            Err(e) => Err(e),
        },
        13 => match pair.f64_value() {
            Ok(v) => Ok(Some(SolidView { fourth_corner: Point { x: v, ..d.fourth_corner }, ..d })),
            Err(e) => Err(e),
        },
        23 => match pair.f64_value() {
            Ok(v) => Ok(Some(SolidView { fourth_corner: Point { y: v, ..d.fourth_corner }, ..d })),
            Err(e) => Err(e),
        },
        33 => match pair.f64_value() {
            Ok(v) => Ok(Some(SolidView { fourth_corner: Point { z: v, ..d.fourth_corner }, ..d })),
            Err(e) => Err(e),
        },
        39 => match pair.f64_value() {
            Ok(v) => Ok(Some(SolidView { thickness: v, ..d })),
            Err(e) => Err(e),
        },
        210 => match pair.f64_value() {
            Ok(v) => Ok(Some(SolidView { extrusion_direction: Vector { x: v, ..d.extrusion_direction }, ..d })),
            Err(e) => Err(e),
        },
        220 => match pair.f64_value() {
            Ok(v) => Ok(Some(SolidView { extrusion_direction: Vector { y: v, ..d.extrusion_direction }, ..d })),
            Err(e) => Err(e),
        },
        230 => match pair.f64_value() {
            Ok(v) => Ok(Some(SolidView { extrusion_direction: Vector { z: v, ..d.extrusion_direction }, ..d })),
            Err(e) => Err(e),
        },
        _ => Ok(None),
    }
}

impl Solid {
    /// Applies a pair that carries a field of this entity kind; reports whether it did.
    pub fn apply_code_pair(&mut self, pair: &CodePair) -> (r: Result<bool, DxfError>)
        ensures
            solid_pair_step(old(self)@, *pair) == claimed(r, final(self)@),
            r == Ok::<bool, DxfError>(false) ==> final(self)@ == old(self)@,
    {
        match pair.code {
            10 => {
                self.first_corner.x = pair.assert_f64()?;
            },
            20 => {
                self.first_corner.y = pair.assert_f64()?;
            },
            30 => {
                self.first_corner.z = pair.assert_f64()?;
            },
            11 => {
                self.second_corner.x = pair.assert_f64()?;
            },
            21 => {
                self.second_corner.y = pair.assert_f64()?;
            },
            31 => {
                self.second_corner.z = pair.assert_f64()?;
            },
            12 => {
                self.third_corner.x = pair.assert_f64()?;
            },
            22 => {
                self.third_corner.y = pair.assert_f64()?;
            },
            32 => {
                self.third_corner.z = pair.assert_f64()?;
            },
            13 => {
                self.fourth_corner.x = pair.assert_f64()?;
            },
            23 => {
                self.fourth_corner.y = pair.assert_f64()?;
            },
            33 => {
                self.fourth_corner.z = pair.assert_f64()?;
            },
            39 => {
                self.thickness = pair.assert_f64()?;
            },
            210 => {
                self.extrusion_direction.x = pair.assert_f64()?;
            },
            220 => {
                self.extrusion_direction.y = pair.assert_f64()?;
            },
            230 => {
                self.extrusion_direction.z = pair.assert_f64()?;
            },
            _ => {
                return Ok(false);
            },
        }
        Ok(true)
    }
}

/// The pairs of a solid.
pub open spec fn solid_pairs(d: SolidView, version: AcadVersion) -> Seq<PairView> {
    (if version.rank() >= AcadVersion::R13.rank() {
        seq![str_pair(100, "AcDbTrace"@)]
    } else {
        Seq::empty()
    })
    + xyz_pairs(10, d.first_corner.x, d.first_corner.y, d.first_corner.z)
    + xyz_pairs(11, d.second_corner.x, d.second_corner.y, d.second_corner.z)
    + xyz_pairs(12, d.third_corner.x, d.third_corner.y, d.third_corner.z)
    + xyz_pairs(13, d.fourth_corner.x, d.fourth_corner.y, d.fourth_corner.z)
    + seq![f64_pair(39, d.thickness)]
    + xyz_pairs(210, d.extrusion_direction.x, d.extrusion_direction.y, d.extrusion_direction.z)
}

impl Solid {
    /// Writes the fields of `solid_pairs`.
    pub fn write_fields(&self, version: AcadVersion, out: &mut Vec<CodePair>)
        ensures
            pairs_view(final(out)@) == pairs_view(old(out)@) + solid_pairs(self@, version),
    {
        let ghost start = pairs_view(out@);
        let ghost mut acc: Seq<PairView> = Seq::empty();
        if version.at_least(AcadVersion::R13) {
            emit(out, CodePair::new_str(100, String::from_str("AcDbTrace")));
        }
        proof {
            acc = (if version.rank() >= AcadVersion::R13.rank() {
                seq![str_pair(100, "AcDbTrace"@)]
            } else {
                Seq::empty()
            });
        }
        assert(pairs_view(out@) =~= start + acc);
        emit_xyz(out, 10, self.first_corner.x, self.first_corner.y, self.first_corner.z);
        proof {
            acc = acc + xyz_pairs(10, self@.first_corner.x, self@.first_corner.y, self@.first_corner.z);
        }
        assert(pairs_view(out@) =~= start + acc);
        emit_xyz(out, 11, self.second_corner.x, self.second_corner.y, self.second_corner.z);
        proof {
            acc = acc + xyz_pairs(11, self@.second_corner.x, self@.second_corner.y, self@.second_corner.z);
        }
        assert(pairs_view(out@) =~= start + acc);
        emit_xyz(out, 12, self.third_corner.x, self.third_corner.y, self.third_corner.z);
        proof {
            acc = acc + xyz_pairs(12, self@.third_corner.x, self@.third_corner.y, self@.third_corner.z);
        }
        assert(pairs_view(out@) =~= start + acc);
        emit_xyz(out, 13, self.fourth_corner.x, self.fourth_corner.y, self.fourth_corner.z);
        proof {
            acc = acc + xyz_pairs(13, self@.fourth_corner.x, self@.fourth_corner.y, self@.fourth_corner.z);
        }
        assert(pairs_view(out@) =~= start + acc);
        emit(out, CodePair::new_f64(39, self.thickness));
        proof {
            acc = acc + seq![f64_pair(39, self@.thickness)];
        }
        assert(pairs_view(out@) =~= start + acc);
        emit_xyz(out, 210, self.extrusion_direction.x, self.extrusion_direction.y, self.extrusion_direction.z);
        proof {
            acc = acc + xyz_pairs(210, self@.extrusion_direction.x, self@.extrusion_direction.y, self@.extrusion_direction.z);
        }
        assert(pairs_view(out@) =~= start + acc);
        assert(acc == solid_pairs(self@, version));
    }
}

/// A wide line segment.
#[derive(Clone, Copy, Debug, PartialEq, Eq)]
pub struct Trace {
    pub first_corner: Point,
    pub second_corner: Point,
    pub third_corner: Point,
    pub fourth_corner: Point,
    pub thickness: u64,
    pub extrusion_direction: Vector,
}

pub struct TraceView {
    pub first_corner: Point,
    pub second_corner: Point,
    pub third_corner: Point,
    pub fourth_corner: Point,
    pub thickness: u64,
    pub extrusion_direction: Vector,
}

impl View for Trace {
    type V = TraceView;

    open spec fn view(&self) -> TraceView {
        TraceView {
            first_corner: self.first_corner,
            second_corner: self.second_corner,
            third_corner: self.third_corner,
            fourth_corner: self.fourth_corner,
            thickness: self.thickness,
            extrusion_direction: self.extrusion_direction,
        }
    }
}

impl Trace {
    /// Every field at its default.
    pub open spec fn default_view() -> TraceView {
        TraceView {
            first_corner: Point { x: 0, y: 0, z: 0 },
            second_corner: Point { x: 0, y: 0, z: 0 },
            third_corner: Point { x: 0, y: 0, z: 0 },
            fourth_corner: Point { x: 0, y: 0, z: 0 },
            thickness: 0,
            extrusion_direction: Vector { x: 0, y: 0, z: ONE_BITS },
        }
    }

    pub fn default_value() -> (r: Trace)
        ensures
            r@ == Trace::default_view(),
    {
        let r = Trace {
            first_corner: Point::new(0, 0, 0),
            second_corner: Point::new(0, 0, 0),
            third_corner: Point::new(0, 0, 0),
            fourth_corner: Point::new(0, 0, 0),
            thickness: 0,
            extrusion_direction: Vector::z_axis(),
        };
        r
    }
}

/// What a pair does to a trace.
pub open spec fn trace_pair_step(d: TraceView, pair: CodePair) -> Result<Option<TraceView>, DxfError> {
    match pair.code {
        10 => match pair.f64_value() {
            Ok(v) => Ok(Some(TraceView { first_corner: Point { x: v, ..d.first_corner }, ..d })),
            Err(e) => Err(e),
        },
        20 => match pair.f64_value() {
            Ok(v) => Ok(Some(TraceView { first_corner: Point { y: v, ..d.first_corner }, ..d })),
            Err(e) => Err(e),
        },
        30 => match pair.f64_value() {
            Ok(v) => Ok(Some(TraceView { first_corner: Point { z: v, ..d.first_corner }, ..d })),
            Err(e) => Err(e),
        },
        11 => match pair.f64_value() {
            Ok(v) => Ok(Some(TraceView { second_corner: Point { x: v, ..d.second_corner }, ..d })),
            Err(e) => Err(e),
        },
        21 => match pair.f64_value() {
            Ok(v) => Ok(Some(TraceView { second_corner: Point { y: v, ..d.second_corner }, ..d })),
            Err(e) => Err(e),
        },
        31 => match pair.f64_value() {
            Ok(v) => Ok(Some(TraceView { second_corner: Point { z: v, ..d.second_corner }, ..d })),
            Err(e) => Err(e),
        },
        12 => match pair.f64_value() {
            Ok(v) => Ok(Some(TraceView { third_corner: Point { x: v, ..d.third_corner }, ..d })),
            Err(e) => Err(e),
        },
        22 => match pair.f64_value() {
            Ok(v) => Ok(Some(TraceView { third_corner: Point { y: v, ..d.third_corner }, ..d })),
            Err(e) => Err(e),
        },
        32 => match pair.f64_value() {
            Ok(v) => Ok(Some(TraceView { third_corner: Point { z: v, ..d.third_corner }, ..d })),
            Err(e) => Err(e),
        },
        13 => match pair.f64_value() {
            Ok(v) => Ok(Some(TraceView { fourth_corner: Point { x: v, ..d.fourth_corner }, ..d })),
            Err(e) => Err(e),
        },
        23 => match pair.f64_value() {
            Ok(v) => Ok(Some(TraceView { fourth_corner: Point { y: v, ..d.fourth_corner }, ..d })),
            Err(e) => Err(e),
        },
        33 => match pair.f64_value() {
            Ok(v) => Ok(Some(TraceView { fourth_corner: Point { z: v, ..d.fourth_corner }, ..d })),
            Err(e) => Err(e),
        },
        39 => match pair.f64_value() {
            Ok(v) => Ok(Some(TraceView { thickness: v, ..d })),
            Err(e) => Err(e),
        },
        210 => match pair.f64_value() {
            Ok(v) => Ok(Some(TraceView { extrusion_direction: Vector { x: v, ..d.extrusion_direction }, ..d })),
            Err(e) => Err(e),
        },
        220 => match pair.f64_value() {
            Ok(v) => Ok(Some(TraceView { extrusion_direction: Vector { y: v, ..d.extrusion_direction }, ..d })),
            Err(e) => Err(e),
        },
        230 => match pair.f64_value() {
            Ok(v) => Ok(Some(TraceView { extrusion_direction: Vector { z: v, ..d.extrusion_direction }, ..d })),
            Err(e) => Err(e),
        },
        _ => Ok(None),
    }
}

impl Trace {
    /// Applies a pair that carries a field of this entity kind; reports whether it did.
    pub fn apply_code_pair(&mut self, pair: &CodePair) -> (r: Result<bool, DxfError>)
        ensures
            trace_pair_step(old(self)@, *pair) == claimed(r, final(self)@),
            r == Ok::<bool, DxfError>(false) ==> final(self)@ == old(self)@,
    {
        match pair.code {
            10 => {
                self.first_corner.x = pair.assert_f64()?;
            },
            20 => {
                self.first_corner.y = pair.assert_f64()?;
            },
            30 => {
                self.first_corner.z = pair.assert_f64()?;
            },
            11 => {
                self.second_corner.x = pair.assert_f64()?;
            },
            21 => {
                self.second_corner.y = pair.assert_f64()?;
            },
            31 => {
                self.second_corner.z = pair.assert_f64()?;
            },
            12 => {
                self.third_corner.x = pair.assert_f64()?;
            },
            22 => {
                self.third_corner.y = pair.assert_f64()?;
            },
            32 => {
                self.third_corner.z = pair.assert_f64()?;
            },
            13 => {
                self.fourth_corner.x = pair.assert_f64()?;
            },
            23 => {
                self.fourth_corner.y = pair.assert_f64()?;
            },
            33 => {
                self.fourth_corner.z = pair.assert_f64()?;
            },
            39 => {
                self.thickness = pair.assert_f64()?;
            },
            210 => {
                self.extrusion_direction.x = pair.assert_f64()?;
            },
            220 => {
                self.extrusion_direction.y = pair.assert_f64()?;
            },
            230 => {
                self.extrusion_direction.z = pair.assert_f64()?;
            },
            _ => {
                return Ok(false);
            },
        }
        Ok(true)
    }
}

/// The pairs of a trace.
pub open spec fn trace_pairs(d: TraceView, version: AcadVersion) -> Seq<PairView> {
    (if version.rank() >= AcadVersion::R13.rank() {
        seq![str_pair(100, "AcDbTrace"@)]
    } else {
        Seq::empty()
    })
    + xyz_pairs(10, d.first_corner.x, d.first_corner.y, d.first_corner.z)
    + xyz_pairs(11, d.second_corner.x, d.second_corner.y, d.second_corner.z)
    + xyz_pairs(12, d.third_corner.x, d.third_corner.y, d.third_corner.z)
    + xyz_pairs(13, d.fourth_corner.x, d.fourth_corner.y, d.fourth_corner.z)
    + seq![f64_pair(39, d.thickness)]
    + xyz_pairs(210, d.extrusion_direction.x, d.extrusion_direction.y, d.extrusion_direction.z)
}

impl Trace {
    /// Writes the fields of `trace_pairs`.
    pub fn write_fields(&self, version: AcadVersion, out: &mut Vec<CodePair>)
        ensures
            pairs_view(final(out)@) == pairs_view(old(out)@) + trace_pairs(self@, version),
    {
        let ghost start = pairs_view(out@);
        let ghost mut acc: Seq<PairView> = Seq::empty();
        if version.at_least(AcadVersion::R13) {
            emit(out, CodePair::new_str(100, String::from_str("AcDbTrace")));
        }
        proof {
            acc = (if version.rank() >= AcadVersion::R13.rank() {
                seq![str_pair(100, "AcDbTrace"@)]
            } else {
                Seq::empty()
            });
        }
        assert(pairs_view(out@) =~= start + acc);
        emit_xyz(out, 10, self.first_corner.x, self.first_corner.y, self.first_corner.z);
        proof {
            acc = acc + xyz_pairs(10, self@.first_corner.x, self@.first_corner.y, self@.first_corner.z);
        }
        assert(pairs_view(out@) =~= start + acc);
        emit_xyz(out, 11, self.second_corner.x, self.second_corner.y, self.second_corner.z);
        proof {
            acc = acc + xyz_pairs(11, self@.second_corner.x, self@.second_corner.y, self@.second_corner.z);
        }
        assert(pairs_view(out@) =~= start + acc);
        emit_xyz(out, 12, self.third_corner.x, self.third_corner.y, self.third_corner.z);
        proof {
            acc = acc + xyz_pairs(12, self@.third_corner.x, self@.third_corner.y, self@.third_corner.z);
        }
        assert(pairs_view(out@) =~= start + acc);
        emit_xyz(out, 13, self.fourth_corner.x, self.fourth_corner.y, self.fourth_corner.z);
        proof {
            acc = acc + xyz_pairs(13, self@.fourth_corner.x, self@.fourth_corner.y, self@.fourth_corner.z);
        }
        assert(pairs_view(out@) =~= start + acc);
        emit(out, CodePair::new_f64(39, self.thickness));
        proof {
            acc = acc + seq![f64_pair(39, self@.thickness)];
        }
        assert(pairs_view(out@) =~= start + acc);
        emit_xyz(out, 210, self.extrusion_direction.x, self.extrusion_direction.y, self.extrusion_direction.z);
        proof {
            acc = acc + xyz_pairs(210, self@.extrusion_direction.x, self@.extrusion_direction.y, self@.extrusion_direction.z);
        }
        assert(pairs_view(out@) =~= start + acc);
        assert(acc == trace_pairs(self@, version));
    }
}

/// A vertex of a polyline, written as an entity of its own.
#[derive(Clone, Copy, Debug, PartialEq, Eq)]
pub struct Vertex {
    pub location: Point,
    pub starting_width: u64,
    pub ending_width: u64,
    pub bulge: u64,
    pub flags: i32,
}

pub struct VertexView {
    pub location: Point,
    pub starting_width: u64,
    pub ending_width: u64,
    pub bulge: u64,
    pub flags: i32,
}

impl View for Vertex {
    type V = VertexView;

    open spec fn view(&self) -> VertexView {
        VertexView {
            location: self.location,
            starting_width: self.starting_width,
            ending_width: self.ending_width,
            bulge: self.bulge,
            flags: self.flags,
        }
    }
}

impl Vertex {
    /// Every field at its default.
    pub open spec fn default_view() -> VertexView {
        VertexView {
            location: Point { x: 0, y: 0, z: 0 },
            starting_width: 0,
            ending_width: 0,
            bulge: 0,
            flags: 0,
        }
    }

    pub fn default_value() -> (r: Vertex)
        ensures
            r@ == Vertex::default_view(),
    {
        let r = Vertex {
            location: Point::new(0, 0, 0),
            starting_width: 0,
            ending_width: 0,
            bulge: 0,
            flags: 0,
        };
        r
    }
}

/// What a pair does to a vertex.
pub open spec fn vertex_pair_step(d: VertexView, pair: CodePair) -> Result<Option<VertexView>, DxfError> {
    match pair.code {
        10 => match pair.f64_value() {
            Ok(v) => Ok(Some(VertexView { location: Point { x: v, ..d.location }, ..d })),
            Err(e) => Err(e),
        },
        20 => match pair.f64_value() {
            Ok(v) => Ok(Some(VertexView { location: Point { y: v, ..d.location }, ..d })),
            Err(e) => Err(e),
        },
        30 => match pair.f64_value() {
            Ok(v) => Ok(Some(VertexView { location: Point { z: v, ..d.location }, ..d })),
            Err(e) => Err(e),
        },
        40 => match pair.f64_value() {
            Ok(v) => Ok(Some(VertexView { starting_width: v, ..d })),
            Err(e) => Err(e),
        },
        41 => match pair.f64_value() {
            Ok(v) => Ok(Some(VertexView { ending_width: v, ..d })),
            Err(e) => Err(e),
        },
        42 => match pair.f64_value() {
            Ok(v) => Ok(Some(VertexView { bulge: v, ..d })),
            Err(e) => Err(e),
        },
        70 => match pair.i16_value() {
            Ok(v) => Ok(Some(VertexView { flags: v as i32, ..d })),
            Err(e) => Err(e),
        },
        _ => Ok(None),
    }
}

impl Vertex {
    /// Applies a pair that carries a field of this entity kind; reports whether it did.
    pub fn apply_code_pair(&mut self, pair: &CodePair) -> (r: Result<bool, DxfError>)
        ensures
            vertex_pair_step(old(self)@, *pair) == claimed(r, final(self)@),
            r == Ok::<bool, DxfError>(false) ==> final(self)@ == old(self)@,
    {
        match pair.code {
            10 => {
                self.location.x = pair.assert_f64()?;
            },
            20 => {
                self.location.y = pair.assert_f64()?;
            },
            30 => {
                self.location.z = pair.assert_f64()?;
            },
            40 => {
                self.starting_width = pair.assert_f64()?;
            },
            41 => {
                self.ending_width = pair.assert_f64()?;
            },
            42 => {
                self.bulge = pair.assert_f64()?;
            },
            70 => {
                self.flags = pair.assert_i16()? as i32;
            },
            _ => {
                return Ok(false);
            },
        }
        Ok(true)
    }
}

/// The pairs of a vertex.
pub open spec fn vertex_pairs(d: VertexView, version: AcadVersion) -> Seq<PairView> {
    (if version.rank() >= AcadVersion::R13.rank() {
        seq![str_pair(100, "AcDbVertex"@)]
    } else {
        Seq::empty()
    })
    + (if version.rank() >= AcadVersion::R13.rank() {
        seq![str_pair(100, "AcDb2dVertex"@)]
    } else {
        Seq::empty()
    })
    + xyz_pairs(10, d.location.x, d.location.y, d.location.z)
    + seq![f64_pair(40, d.starting_width)]
    + seq![f64_pair(41, d.ending_width)]
    + seq![f64_pair(42, d.bulge)]
    + seq![i16_pair(70, d.flags as i16)]
}

impl Vertex {
    /// Writes the fields of `vertex_pairs`.
    pub fn write_fields(&self, version: AcadVersion, out: &mut Vec<CodePair>)
        ensures
            pairs_view(final(out)@) == pairs_view(old(out)@) + vertex_pairs(self@, version),
    {
        let ghost start = pairs_view(out@);
        let ghost mut acc: Seq<PairView> = Seq::empty();
        if version.at_least(AcadVersion::R13) {
            emit(out, CodePair::new_str(100, String::from_str("AcDbVertex")));
        }
        proof {
            acc = (if version.rank() >= AcadVersion::R13.rank() {
                seq![str_pair(100, "AcDbVertex"@)]
            } else {
                Seq::empty()
            });
        }
        assert(pairs_view(out@) =~= start + acc);
        if version.at_least(AcadVersion::R13) {
            emit(out, CodePair::new_str(100, String::from_str("AcDb2dVertex")));
        }
        proof {
            acc = acc + (if version.rank() >= AcadVersion::R13.rank() {
                seq![str_pair(100, "AcDb2dVertex"@)]
            } else {
                Seq::empty()
            });
        }
        assert(pairs_view(out@) =~= start + acc);
        emit_xyz(out, 10, self.location.x, self.location.y, self.location.z);
        proof {
            acc = acc + xyz_pairs(10, self@.location.x, self@.location.y, self@.location.z);
        }
        assert(pairs_view(out@) =~= start + acc);
        emit(out, CodePair::new_f64(40, self.starting_width));
        proof {
            acc = acc + seq![f64_pair(40, self@.starting_width)];
        }
        assert(pairs_view(out@) =~= start + acc);
        emit(out, CodePair::new_f64(41, self.ending_width));
        proof {
            acc = acc + seq![f64_pair(41, self@.ending_width)];
        }
        assert(pairs_view(out@) =~= start + acc);
        emit(out, CodePair::new_f64(42, self.bulge));
        proof {
            acc = acc + seq![f64_pair(42, self@.bulge)];
        }
        assert(pairs_view(out@) =~= start + acc);
        emit(out, CodePair::new_i16(70, self.flags as i16));
        proof {
            acc = acc + seq![i16_pair(70, self@.flags as i16)];
        }
        assert(pairs_view(out@) =~= start + acc);
        assert(acc == vertex_pairs(self@, version));
    }
}

/// The end of the vertices of a polyline.
#[derive(Clone, Copy, Debug, PartialEq, Eq)]
pub struct Seqend {
}

pub struct SeqendView {
}

impl View for Seqend {
    type V = SeqendView;

    open spec fn view(&self) -> SeqendView {
        SeqendView {
        }
    }
}

impl Seqend {
    /// Every field at its default.
    pub open spec fn default_view() -> SeqendView {
        SeqendView {
        }
    }

    pub fn default_value() -> (r: Seqend)
        ensures
            r@ == Seqend::default_view(),
    {
        let r = Seqend {
        };
        r
    }
}

/// What a pair does to a seqend.
pub open spec fn seqend_pair_step(d: SeqendView, pair: CodePair) -> Result<Option<SeqendView>, DxfError> {
    match pair.code {
        _ => Ok(None),
    }
}

impl Seqend {
    /// Applies a pair that carries a field of this entity kind; reports whether it did.
    pub fn apply_code_pair(&mut self, pair: &CodePair) -> (r: Result<bool, DxfError>)
        ensures
            seqend_pair_step(old(self)@, *pair) == claimed(r, final(self)@),
            r == Ok::<bool, DxfError>(false) ==> final(self)@ == old(self)@,
    {
        match pair.code {
            _ => {
                return Ok(false);
            },
        }
        Ok(true)
    }
}

/// The pairs of a seqend.
pub open spec fn seqend_pairs(d: SeqendView, version: AcadVersion) -> Seq<PairView> {
    Seq::empty()
}

impl Seqend {
    /// Writes the fields of `seqend_pairs`.
    pub fn write_fields(&self, version: AcadVersion, out: &mut Vec<CodePair>)
        ensures
            pairs_view(final(out)@) == pairs_view(old(out)@) + seqend_pairs(self@, version),
    {
        let ghost start = pairs_view(out@);
        let ghost mut acc: Seq<PairView> = Seq::empty();
        assert(acc == seqend_pairs(self@, version));
    }
}

/// A polyline; its vertices follow it as entities of their own.
#[derive(Clone, Debug, PartialEq)]
pub struct Polyline {
    pub flags: i32,
    pub default_starting_width: u64,
    pub default_ending_width: u64,
    pub normal: Vector,
    /// The vertices, written after the polyline.
    pub vertices: Vec<Vertex>,
}

pub struct PolylineView {
    pub flags: i32,
    pub default_starting_width: u64,
    pub default_ending_width: u64,
    pub normal: Vector,
    pub vertices: Seq<Vertex>,
}

impl View for Polyline {
    type V = PolylineView;

    open spec fn view(&self) -> PolylineView {
        PolylineView {
            flags: self.flags,
            default_starting_width: self.default_starting_width,
            default_ending_width: self.default_ending_width,
            normal: self.normal,
            vertices: self.vertices@,
        }
    }
}

impl Polyline {
    /// Every field at its default.
    pub open spec fn default_view() -> PolylineView {
        PolylineView {
            flags: 0,
            default_starting_width: 0,
            default_ending_width: 0,
            normal: Vector { x: 0, y: 0, z: ONE_BITS },
            vertices: Seq::<Vertex>::empty(),
        }
    }

    pub fn default_value() -> (r: Polyline)
        ensures
            r@ == Polyline::default_view(),
    {
        let r = Polyline {
            flags: 0,
            default_starting_width: 0,
            default_ending_width: 0,
            normal: Vector::z_axis(),
            vertices: Vec::new(),
        };
        r
    }
}

/// What a pair does to a polyline.
pub open spec fn polyline_pair_step(d: PolylineView, pair: CodePair) -> Result<Option<PolylineView>, DxfError> {
    match pair.code {
        70 => match pair.i16_value() {
            Ok(v) => Ok(Some(PolylineView { flags: v as i32, ..d })),
            Err(e) => Err(e),
        },
        40 => match pair.f64_value() {
            Ok(v) => Ok(Some(PolylineView { default_starting_width: v, ..d })),
            Err(e) => Err(e),
        },
        41 => match pair.f64_value() {
            Ok(v) => Ok(Some(PolylineView { default_ending_width: v, ..d })),
            Err(e) => Err(e),
        },
        210 => match pair.f64_value() {
            Ok(v) => Ok(Some(PolylineView { normal: Vector { x: v, ..d.normal }, ..d })),
            Err(e) => Err(e),
        },
        220 => match pair.f64_value() {
            Ok(v) => Ok(Some(PolylineView { normal: Vector { y: v, ..d.normal }, ..d })),
            Err(e) => Err(e),
        },
        230 => match pair.f64_value() {
            Ok(v) => Ok(Some(PolylineView { normal: Vector { z: v, ..d.normal }, ..d })),
            Err(e) => Err(e),
        },
        _ => Ok(None),
    }
}

impl Polyline {
    /// Applies a pair that carries a field of this entity kind; reports whether it did.
    pub fn apply_code_pair(&mut self, pair: &CodePair) -> (r: Result<bool, DxfError>)
        ensures
            polyline_pair_step(old(self)@, *pair) == claimed(r, final(self)@),
            r == Ok::<bool, DxfError>(false) ==> final(self)@ == old(self)@,
    {
        match pair.code {
            70 => {
                self.flags = pair.assert_i16()? as i32;
            },
            40 => {
                self.default_starting_width = pair.assert_f64()?;
            },
            41 => {
                self.default_ending_width = pair.assert_f64()?;
            },
            210 => {
                self.normal.x = pair.assert_f64()?;
            },
            220 => {
                self.normal.y = pair.assert_f64()?;
            },
            230 => {
                self.normal.z = pair.assert_f64()?;
            },
            _ => {
                return Ok(false);
            },
        }
        Ok(true)
    }
}

/// The pairs of a polyline.
pub open spec fn polyline_pairs(d: PolylineView, version: AcadVersion) -> Seq<PairView> {
    (if version.rank() >= AcadVersion::R13.rank() {
        seq![str_pair(100, "AcDb2dPolyline"@)]
    } else {
        Seq::empty()
    })
    + seq![i16_pair(70, d.flags as i16)]
    + seq![f64_pair(40, d.default_starting_width)]
    + seq![f64_pair(41, d.default_ending_width)]
    + xyz_pairs(210, d.normal.x, d.normal.y, d.normal.z)
}

impl Polyline {
    /// Writes the fields of `polyline_pairs`.
    pub fn write_fields(&self, version: AcadVersion, out: &mut Vec<CodePair>)
        ensures
            pairs_view(final(out)@) == pairs_view(old(out)@) + polyline_pairs(self@, version),
    {
        let ghost start = pairs_view(out@);
        let ghost mut acc: Seq<PairView> = Seq::empty();
        if version.at_least(AcadVersion::R13) {
            emit(out, CodePair::new_str(100, String::from_str("AcDb2dPolyline")));
        }
        proof {
            acc = (if version.rank() >= AcadVersion::R13.rank() {
                seq![str_pair(100, "AcDb2dPolyline"@)]
            } else {
                Seq::empty()
            });
        }
        assert(pairs_view(out@) =~= start + acc);
        emit(out, CodePair::new_i16(70, self.flags as i16));
        proof {
            acc = acc + seq![i16_pair(70, self@.flags as i16)];
        }
        assert(pairs_view(out@) =~= start + acc);
        emit(out, CodePair::new_f64(40, self.default_starting_width));
        proof {
            acc = acc + seq![f64_pair(40, self@.default_starting_width)];
        }
        assert(pairs_view(out@) =~= start + acc);
        emit(out, CodePair::new_f64(41, self.default_ending_width));
        proof {
            acc = acc + seq![f64_pair(41, self@.default_ending_width)];
        }
        assert(pairs_view(out@) =~= start + acc);
        emit_xyz(out, 210, self.normal.x, self.normal.y, self.normal.z);
        proof {
            acc = acc + xyz_pairs(210, self@.normal.x, self@.normal.y, self@.normal.z);
        }
        assert(pairs_view(out@) =~= start + acc);
        assert(acc == polyline_pairs(self@, version));
    }
}

/// An entity whose class the reader does not know, kept as proxy data.
#[derive(Clone, Copy, Debug, PartialEq, Eq)]
pub struct ProxyEntity {
    pub proxy_entity_class_id: i32,
    pub application_entity_class_id: i32,
    /// Drawing format version in the lower word, maintenance release above.
    pub object_drawing_format: u32,
}

pub struct ProxyEntityView {
    pub proxy_entity_class_id: i32,
    pub application_entity_class_id: i32,
    pub object_drawing_format: u32,
}

impl View for ProxyEntity {
    type V = ProxyEntityView;

    open spec fn view(&self) -> ProxyEntityView {
        ProxyEntityView {
            proxy_entity_class_id: self.proxy_entity_class_id,
            application_entity_class_id: self.application_entity_class_id,
            object_drawing_format: self.object_drawing_format,
        }
    }
}

impl ProxyEntity {
    /// Every field at its default.
    pub open spec fn default_view() -> ProxyEntityView {
        ProxyEntityView {
            proxy_entity_class_id: 498,
            application_entity_class_id: 499,
            object_drawing_format: 0,
        }
    }

    pub fn default_value() -> (r: ProxyEntity)
        ensures
            r@ == ProxyEntity::default_view(),
    {
        let r = ProxyEntity {
            proxy_entity_class_id: 498,
            application_entity_class_id: 499,
            object_drawing_format: 0,
        };
        r
    }
}

/// What a pair does to a proxy entity.
pub open spec fn proxy_entity_pair_step(d: ProxyEntityView, pair: CodePair) -> Result<Option<ProxyEntityView>, DxfError> {
    match pair.code {
        90 => match pair.i32_value() {
            Ok(v) => Ok(Some(ProxyEntityView { proxy_entity_class_id: v, ..d })),
            Err(e) => Err(e),
        },
        91 => match pair.i32_value() {
            Ok(v) => Ok(Some(ProxyEntityView { application_entity_class_id: v, ..d })),
            Err(e) => Err(e),
        },
        95 => match pair.i32_value() {
            Ok(v) => Ok(Some(ProxyEntityView { object_drawing_format: v as u32, ..d })),
            Err(e) => Err(e),
        },
        _ => Ok(None),
    }
}

impl ProxyEntity {
    /// Applies a pair that carries a field of this entity kind; reports whether it did.
    pub fn apply_code_pair(&mut self, pair: &CodePair) -> (r: Result<bool, DxfError>)
        ensures
            proxy_entity_pair_step(old(self)@, *pair) == claimed(r, final(self)@),
            r == Ok::<bool, DxfError>(false) ==> final(self)@ == old(self)@,
    {
        match pair.code {
            90 => {
                self.proxy_entity_class_id = pair.assert_i32()?;
            },
            91 => {
                self.application_entity_class_id = pair.assert_i32()?;
            },
            95 => {
                self.object_drawing_format = pair.assert_i32()? as u32;
            },
            _ => {
                return Ok(false);
            },
        }
        Ok(true)
    }
}

/// The pairs of a proxy entity.
pub open spec fn proxy_entity_pairs(d: ProxyEntityView, version: AcadVersion) -> Seq<PairView> {
    (if version.rank() >= AcadVersion::R13.rank() {
        seq![str_pair(100, "AcDbProxyEntity"@)]
    } else {
        Seq::empty()
    })
    + seq![i32_pair(90, d.proxy_entity_class_id)]
    + seq![i32_pair(91, d.application_entity_class_id)]
    + seq![i32_pair(95, d.object_drawing_format as i32)]
}

impl ProxyEntity {
    /// Writes the fields of `proxy_entity_pairs`.
    pub fn write_fields(&self, version: AcadVersion, out: &mut Vec<CodePair>)
        ensures
            pairs_view(final(out)@) == pairs_view(old(out)@) + proxy_entity_pairs(self@, version),
    {
        let ghost start = pairs_view(out@);
        let ghost mut acc: Seq<PairView> = Seq::empty();
        if version.at_least(AcadVersion::R13) {
            emit(out, CodePair::new_str(100, String::from_str("AcDbProxyEntity")));
        }
        proof {
            acc = (if version.rank() >= AcadVersion::R13.rank() {
                seq![str_pair(100, "AcDbProxyEntity"@)]
            } else {
                Seq::empty()
            });
        }
        assert(pairs_view(out@) =~= start + acc);
        emit(out, CodePair::new_i32(90, self.proxy_entity_class_id));
        proof {
            acc = acc + seq![i32_pair(90, self@.proxy_entity_class_id)];
        }
        assert(pairs_view(out@) =~= start + acc);
        emit(out, CodePair::new_i32(91, self.application_entity_class_id));
        proof {
            acc = acc + seq![i32_pair(91, self@.application_entity_class_id)];
        }
        assert(pairs_view(out@) =~= start + acc);
        emit(out, CodePair::new_i32(95, self.object_drawing_format as i32));
        proof {
            acc = acc + seq![i32_pair(95, self@.object_drawing_format as i32)];
        }
        assert(pairs_view(out@) =~= start + acc);
        assert(acc == proxy_entity_pairs(self@, version));
    }
}

/// A leader line; its vertices arrive as separate runs of x, y and z.
#[derive(Clone, Debug, PartialEq)]
pub struct Leader {
    pub dimension_style_name: String,
    pub vertices: Vec<Point>,
}

pub struct LeaderView {
    pub dimension_style_name: Seq<char>,
    pub vertices: Seq<Point>,
}

impl View for Leader {
    type V = LeaderView;

    open spec fn view(&self) -> LeaderView {
        LeaderView {
            dimension_style_name: self.dimension_style_name@,
            vertices: self.vertices@,
        }
    }
}

impl Leader {
    /// Every field at its default.
    pub open spec fn default_view() -> LeaderView {
        LeaderView {
            dimension_style_name: "STANDARD"@,
            vertices: Seq::<Point>::empty(),
        }
    }

    pub fn default_value() -> (r: Leader)
        ensures
            r@ == Leader::default_view(),
    {
        let r = Leader {
            dimension_style_name: String::from_str("STANDARD"),
            vertices: Vec::new(),
        };
        r
    }
}

/// What a pair does to a leader.
pub open spec fn leader_pair_step(d: LeaderView, pair: CodePair) -> Result<Option<LeaderView>, DxfError> {
    match pair.code {
        3 => match pair.string_value() {
            Ok(s) => Ok(Some(LeaderView { dimension_style_name: s@, ..d })),
            Err(e) => Err(e),
        },
        _ => Ok(None),
    }
}

impl Leader {
    /// Applies a pair that carries a field of this entity kind; reports whether it did.
    pub fn apply_code_pair(&mut self, pair: &CodePair) -> (r: Result<bool, DxfError>)
        ensures
            leader_pair_step(old(self)@, *pair) == claimed(r, final(self)@),
            r == Ok::<bool, DxfError>(false) ==> final(self)@ == old(self)@,
    {
        match pair.code {
            3 => {
                self.dimension_style_name = pair.assert_string()?;
            },
            _ => {
                return Ok(false);
            },
        }
        Ok(true)
    }
}

/// The pairs of a leader.
pub open spec fn leader_pairs(d: LeaderView, version: AcadVersion) -> Seq<PairView> {
    (if version.rank() >= AcadVersion::R13.rank() {
        seq![str_pair(100, "AcDbLeader"@)]
    } else {
        Seq::empty()
    })
    + seq![str_pair(3, d.dimension_style_name)]
    + point_pairs(10, d.vertices)
}

impl Leader {
    /// Writes the fields of `leader_pairs`.
    pub fn write_fields(&self, version: AcadVersion, out: &mut Vec<CodePair>)
        ensures
            pairs_view(final(out)@) == pairs_view(old(out)@) + leader_pairs(self@, version),
    {
        let ghost start = pairs_view(out@);
        let ghost mut acc: Seq<PairView> = Seq::empty();
        if version.at_least(AcadVersion::R13) {
            emit(out, CodePair::new_str(100, String::from_str("AcDbLeader")));
        }
        proof {
            acc = (if version.rank() >= AcadVersion::R13.rank() {
                seq![str_pair(100, "AcDbLeader"@)]
            } else {
                Seq::empty()
            });
        }
        assert(pairs_view(out@) =~= start + acc);
        emit(out, CodePair::new_str(3, self.dimension_style_name.clone()));
        proof {
            acc = acc + seq![str_pair(3, self@.dimension_style_name)];
        }
        assert(pairs_view(out@) =~= start + acc);
        emit_points(out, 10, &self.vertices);
        proof {
            acc = acc + point_pairs(10, self@.vertices);
        }
        assert(pairs_view(out@) =~= start + acc);
        assert(acc == leader_pairs(self@, version));
    }
}

/// A spline; control and fit points arrive as separate runs of x, y and z.
#[derive(Clone, Debug, PartialEq)]
pub struct Spline {
    pub degree_of_curve: i32,
    pub control_points: Vec<Point>,
    pub fit_points: Vec<Point>,
}

pub struct SplineView {
    pub degree_of_curve: i32,
    pub control_points: Seq<Point>,
    pub fit_points: Seq<Point>,
}

impl View for Spline {
    type V = SplineView;

    open spec fn view(&self) -> SplineView {
        SplineView {
            degree_of_curve: self.degree_of_curve,
            control_points: self.control_points@,
            fit_points: self.fit_points@,
        }
    }
}

impl Spline {
    /// Every field at its default.
    pub open spec fn default_view() -> SplineView {
        SplineView {
            degree_of_curve: 1,
            control_points: Seq::<Point>::empty(),
            fit_points: Seq::<Point>::empty(),
        }
    }

    pub fn default_value() -> (r: Spline)
        ensures
            r@ == Spline::default_view(),
    {
        let r = Spline {
            degree_of_curve: 1,
            control_points: Vec::new(),
            fit_points: Vec::new(),
        };
        r
    }
}

/// What a pair does to a spline.
pub open spec fn spline_pair_step(d: SplineView, pair: CodePair) -> Result<Option<SplineView>, DxfError> {
    match pair.code {
        71 => match pair.i16_value() {
            Ok(v) => Ok(Some(SplineView { degree_of_curve: v as i32, ..d })),
            Err(e) => Err(e),
        },
        _ => Ok(None),
    }
}

impl Spline {
    /// Applies a pair that carries a field of this entity kind; reports whether it did.
    pub fn apply_code_pair(&mut self, pair: &CodePair) -> (r: Result<bool, DxfError>)
        ensures
            spline_pair_step(old(self)@, *pair) == claimed(r, final(self)@),
            r == Ok::<bool, DxfError>(false) ==> final(self)@ == old(self)@,
    {
        match pair.code {
            71 => {
                self.degree_of_curve = pair.assert_i16()? as i32;
            },
            _ => {
                return Ok(false);
            },
        }
        Ok(true)
    }
}

/// The pairs of a spline.
pub open spec fn spline_pairs(d: SplineView, version: AcadVersion) -> Seq<PairView> {
    (if version.rank() >= AcadVersion::R13.rank() {
        seq![str_pair(100, "AcDbSpline"@)]
    } else {
        Seq::empty()
    })
    + seq![i16_pair(71, d.degree_of_curve as i16)]
    + point_pairs(10, d.control_points)
    + point_pairs(11, d.fit_points)
}

impl Spline {
    /// Writes the fields of `spline_pairs`.
    pub fn write_fields(&self, version: AcadVersion, out: &mut Vec<CodePair>)
        ensures
            pairs_view(final(out)@) == pairs_view(old(out)@) + spline_pairs(self@, version),
    {
        let ghost start = pairs_view(out@);
        let ghost mut acc: Seq<PairView> = Seq::empty();
        if version.at_least(AcadVersion::R13) {
            emit(out, CodePair::new_str(100, String::from_str("AcDbSpline")));
        }
        proof {
            acc = (if version.rank() >= AcadVersion::R13.rank() {
                seq![str_pair(100, "AcDbSpline"@)]
            } else {
                Seq::empty()
            });
        }
        assert(pairs_view(out@) =~= start + acc);
        emit(out, CodePair::new_i16(71, self.degree_of_curve as i16));
        proof {
            acc = acc + seq![i16_pair(71, self@.degree_of_curve as i16)];
        }
        assert(pairs_view(out@) =~= start + acc);
        emit_points(out, 10, &self.control_points);
        proof {
            acc = acc + point_pairs(10, self@.control_points);
        }
        assert(pairs_view(out@) =~= start + acc);
        emit_points(out, 11, &self.fit_points);
        proof {
            acc = acc + point_pairs(11, self@.fit_points);
        }
        assert(pairs_view(out@) =~= start + acc);
        assert(acc == spline_pairs(self@, version));
    }
}

/// A masking region; its clipping vertices arrive as separate runs of x and y.
#[derive(Clone, Debug, PartialEq)]
pub struct Wipeout {
    pub location: Point,
    pub clipping_vertices: Vec<Point>,
}

pub struct WipeoutView {
    pub location: Point,
    pub clipping_vertices: Seq<Point>,
}

impl View for Wipeout {
    type V = WipeoutView;

    open spec fn view(&self) -> WipeoutView {
        WipeoutView {
            location: self.location,
            clipping_vertices: self.clipping_vertices@,
        }
    }
}

impl Wipeout {
    /// Every field at its default.
    pub open spec fn default_view() -> WipeoutView {
        WipeoutView {
            location: Point { x: 0, y: 0, z: 0 },
            clipping_vertices: Seq::<Point>::empty(),
        }
    }

    pub fn default_value() -> (r: Wipeout)
        ensures
            r@ == Wipeout::default_view(),
    {
        let r = Wipeout {
            location: Point::new(0, 0, 0),
            clipping_vertices: Vec::new(),
        };
        r
    }
}

/// What a pair does to a wipeout.
pub open spec fn wipeout_pair_step(d: WipeoutView, pair: CodePair) -> Result<Option<WipeoutView>, DxfError> {
    match pair.code {
        10 => match pair.f64_value() {
            Ok(v) => Ok(Some(WipeoutView { location: Point { x: v, ..d.location }, ..d })),
            Err(e) => Err(e),
        },
        20 => match pair.f64_value() {
            Ok(v) => Ok(Some(WipeoutView { location: Point { y: v, ..d.location }, ..d })),
            Err(e) => Err(e),
        },
        30 => match pair.f64_value() {
            Ok(v) => Ok(Some(WipeoutView { location: Point { z: v, ..d.location }, ..d })),
            Err(e) => Err(e),
        },
        _ => Ok(None),
    }
}

impl Wipeout {
    /// Applies a pair that carries a field of this entity kind; reports whether it did.
    pub fn apply_code_pair(&mut self, pair: &CodePair) -> (r: Result<bool, DxfError>)
        ensures
            wipeout_pair_step(old(self)@, *pair) == claimed(r, final(self)@),
            r == Ok::<bool, DxfError>(false) ==> final(self)@ == old(self)@,
    {
        match pair.code {
            10 => {
                self.location.x = pair.assert_f64()?;
            },
            20 => {
                self.location.y = pair.assert_f64()?;
            },
            30 => {
                self.location.z = pair.assert_f64()?;
            },
            _ => {
                return Ok(false);
            },
        }
        Ok(true)
    }
}

/// The pairs of a wipeout.
pub open spec fn wipeout_pairs(d: WipeoutView, version: AcadVersion) -> Seq<PairView> {
    (if version.rank() >= AcadVersion::R13.rank() {
        seq![str_pair(100, "AcDbWipeout"@)]
    } else {
        Seq::empty()
    })
    + xyz_pairs(10, d.location.x, d.location.y, d.location.z)
    + point2_pairs(14, d.clipping_vertices)
}

impl Wipeout {
    /// Writes the fields of `wipeout_pairs`.
    pub fn write_fields(&self, version: AcadVersion, out: &mut Vec<CodePair>)
        ensures
            pairs_view(final(out)@) == pairs_view(old(out)@) + wipeout_pairs(self@, version),
    {
        let ghost start = pairs_view(out@);
        let ghost mut acc: Seq<PairView> = Seq::empty();
        if version.at_least(AcadVersion::R13) {
            emit(out, CodePair::new_str(100, String::from_str("AcDbWipeout")));
        }
        proof {
            acc = (if version.rank() >= AcadVersion::R13.rank() {
                seq![str_pair(100, "AcDbWipeout"@)]
            } else {
                Seq::empty()
            });
        }
        assert(pairs_view(out@) =~= start + acc);
        emit_xyz(out, 10, self.location.x, self.location.y, self.location.z);
        proof {
            acc = acc + xyz_pairs(10, self@.location.x, self@.location.y, self@.location.z);
        }
        assert(pairs_view(out@) =~= start + acc);
        emit_points2(out, 14, &self.clipping_vertices);
        proof {
            acc = acc + point2_pairs(14, self@.clipping_vertices);
        }
        assert(pairs_view(out@) =~= start + acc);
        assert(acc == wipeout_pairs(self@, version));
    }
}

impl Arc {
    pub fn new(center: Point, radius: u64, start: u64, end: u64) -> (r: Arc)
        ensures
            r@ == (ArcView { center, radius, start_angle: start, end_angle: end, ..Arc::default_view() }),
    {
        Arc { center, radius, start_angle: start, end_angle: end, ..Arc::default_value() }
    }
}

impl Circle {
    pub fn new(center: Point, radius: u64) -> (r: Circle)
        ensures
            r@ == (CircleView { center, radius, ..Circle::default_view() }),
    {
        Circle { center, radius, ..Circle::default_value() }
    }
}

impl Face3D {
    pub fn new(first_corner: Point, second_corner: Point, third_corner: Point, fourth_corner: Point) -> (r: Face3D)
        ensures
            r@ == (Face3DView { first_corner, second_corner, third_corner, fourth_corner, ..Face3D::default_view() }),
    {
        Face3D { first_corner, second_corner, third_corner, fourth_corner, ..Face3D::default_value() }
    }
}

impl Line {
    pub fn new(p1: Point, p2: Point) -> (r: Line)
        ensures
            r@ == (LineView { p1, p2, ..Line::default_view() }),
    {
        Line { p1, p2, ..Line::default_value() }
    }
}

impl ModelPoint {
    pub fn new(p: Point) -> (r: ModelPoint)
        ensures
            r@ == (ModelPointView { location: p, ..ModelPoint::default_view() }),
    {
        ModelPoint { location: p, ..ModelPoint::default_value() }
    }
}

impl Solid {
    pub fn new(first_corner: Point, second_corner: Point, third_corner: Point, fourth_corner: Point) -> (r: Solid)
        ensures
            r@ == (SolidView { first_corner, second_corner, third_corner, fourth_corner, ..Solid::default_view() }),
    {
        Solid { first_corner, second_corner, third_corner, fourth_corner, ..Solid::default_value() }
    }
}

impl Trace {
    pub fn new(first_corner: Point, second_corner: Point, third_corner: Point, fourth_corner: Point) -> (r: Trace)
        ensures
            r@ == (TraceView { first_corner, second_corner, third_corner, fourth_corner, ..Trace::default_view() }),
    {
        Trace { first_corner, second_corner, third_corner, fourth_corner, ..Trace::default_value() }
    }
}

impl Vertex {
    pub fn new(location: Point) -> (r: Vertex)
        ensures
            r@ == (VertexView { location, ..Vertex::default_view() }),
    {
        Vertex { location, ..Vertex::default_value() }
    }
}

impl ProxyEntity {
    /// The drawing format version: the lower word of the packed field.
    pub fn get_object_drawing_format_version(&self) -> (r: i32)
        ensures
            r == (self.object_drawing_format & 0xFFFF) as i32,
    {
        (self.object_drawing_format & 0xFFFF) as i32
    }

    /// Sets bits of the lower word: the version's lower word is or-ed in, and
    /// bits already set stay set.
    pub fn set_object_drawing_format_version(&mut self, version: i32)
        ensures
            final(self).object_drawing_format == old(self).object_drawing_format | (version as u32
                & 0xFFFF),
            final(self).proxy_entity_class_id == old(self).proxy_entity_class_id,
            final(self).application_entity_class_id == old(self).application_entity_class_id,
    {
        self.object_drawing_format = self.object_drawing_format | (version as u32 & 0xFFFF);
    }

    /// The maintenance release: the packed field, read as signed, shifted
    /// right by four bits.
    pub fn get_object_maintenance_release_version(&self) -> (r: i32)
        ensures
            r == (self.object_drawing_format as i32) >> 4u32,
    {
        (self.object_drawing_format as i32) >> 4u32
    }

    /// Replaces the packed field by the release shifted left by four bits plus
    /// the current lower word.
    pub fn set_object_mainenance_release_version(&mut self, version: i32)
        requires
            ((version << 4u32) as u32) as int + (old(self).object_drawing_format & 0xFFFF) as int
                <= u32::MAX,
        ensures
            final(self).object_drawing_format == ((version << 4u32) as u32) + (
            old(self).object_drawing_format & 0xFFFF),
            final(self).proxy_entity_class_id == old(self).proxy_entity_class_id,
            final(self).application_entity_class_id == old(self).application_entity_class_id,
    {
        self.object_drawing_format = ((version << 4u32) as u32) + (self.object_drawing_format & 0xFFFF);
    }
}

} // verus!
