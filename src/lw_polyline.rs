//! Light polylines: vertices that begin at each "start vertex" pair.

use vstd::prelude::*;
use crate::code_pair::{
    CodePair, DxfError, PairView, Vector, ONE_BITS, pairs_view, emit, emit_xyz, str_pair,
    f64_pair, i16_pair, i32_pair, xyz_pairs,
};
use crate::common::claimed;
use crate::enums::AcadVersion;

verus! {

/// One vertex of a light polyline.
#[derive(Clone, Copy, Debug, PartialEq, Eq, Structural)]
pub struct LwPolylineVertex {
    pub x: u64,
    pub y: u64,
    pub id: i32,
    pub starting_width: u64,
    pub ending_width: u64,
    /// Zero unless the stream gives one for this vertex.
    pub bulge: u64,
}

impl LwPolylineVertex {
    pub open spec fn default_view() -> LwPolylineVertex {
        LwPolylineVertex { x: 0, y: 0, id: 0, starting_width: 0, ending_width: 0, bulge: 0 }
    }

    pub fn default_value() -> (r: LwPolylineVertex)
        ensures
            r == LwPolylineVertex::default_view(),
    {
        LwPolylineVertex { x: 0, y: 0, id: 0, starting_width: 0, ending_width: 0, bulge: 0 }
    }
}

/// A light polyline: flags, widths and an ordered list of vertices.
#[derive(Clone, Debug, PartialEq)]
pub struct LwPolyline {
    pub flags: i32,
    pub constant_width: u64,
    pub thickness: u64,
    pub extrusion_direction: Vector,
    pub vertices: Vec<LwPolylineVertex>,
}

pub struct LwPolylineView {
    pub flags: i32,
    pub constant_width: u64,
    pub thickness: u64,
    pub extrusion_direction: Vector,
    pub vertices: Seq<LwPolylineVertex>,
}

impl View for LwPolyline {
    type V = LwPolylineView;

    open spec fn view(&self) -> LwPolylineView {
        LwPolylineView {
            flags: self.flags,
            constant_width: self.constant_width,
            thickness: self.thickness,
            extrusion_direction: self.extrusion_direction,
            vertices: self.vertices@,
        }
    }
}

impl LwPolyline {
    /// Every field at its default.
    pub open spec fn default_view() -> LwPolylineView {
        LwPolylineView {
            flags: 0,
            constant_width: 0,
            thickness: 0,
            extrusion_direction: Vector { x: 0, y: 0, z: ONE_BITS },
            vertices: Seq::<LwPolylineVertex>::empty(),
        }
    }

    pub fn default_value() -> (r: LwPolyline)
        ensures
            r@ == LwPolyline::default_view(),
    {
        let r = LwPolyline {
            flags: 0,
            constant_width: 0,
            thickness: 0,
            extrusion_direction: Vector::z_axis(),
            vertices: Vec::new(),
        };
        r
    }
}

/// A value for the last vertex: fails on a bad value, then on an empty list.
pub open spec fn with_last_vertex<T>(
    d: LwPolylineView,
    value: Result<T, DxfError>,
    f: spec_fn(LwPolylineVertex, T) -> LwPolylineVertex,
) -> Result<Option<LwPolylineView>, DxfError> {
    match value {
        Ok(v) => if d.vertices.len() == 0 {
            Err(DxfError::UnexpectedEmptySet)
        } else {
            Ok(
                Some(
                    LwPolylineView {
                        vertices: d.vertices.update(
                            d.vertices.len() - 1,
                            f(d.vertices.last(), v),
                        ),
                        ..d
                    },
                ),
            )
        },
        Err(e) => Err(e),
    }
}

/// What a pair does to a light polyline: code 10 starts a new vertex; the other vertex codes change the last vertex and fail while there is none.
pub open spec fn lw_polyline_pair_step(d: LwPolylineView, pair: CodePair) -> Result<Option<LwPolylineView>, DxfError> {
    match pair.code {
        10 => match pair.f64_value() {
            Ok(v) => Ok(
                Some(
                    LwPolylineView {
                        vertices: d.vertices.push(LwPolylineVertex { x: v, ..LwPolylineVertex::default_view() }),
                        ..d
                    },
                ),
            ),
            Err(e) => Err(e),
        },
        20 => with_last_vertex(d, pair.f64_value(), |vx: LwPolylineVertex, v: u64| LwPolylineVertex { y: v, ..vx }),
        40 => with_last_vertex(d, pair.f64_value(), |vx: LwPolylineVertex, v: u64| LwPolylineVertex { starting_width: v, ..vx }),
        41 => with_last_vertex(d, pair.f64_value(), |vx: LwPolylineVertex, v: u64| LwPolylineVertex { ending_width: v, ..vx }),
        42 => with_last_vertex(d, pair.f64_value(), |vx: LwPolylineVertex, v: u64| LwPolylineVertex { bulge: v, ..vx }),
        91 => with_last_vertex(d, pair.i32_value(), |vx: LwPolylineVertex, v: i32| LwPolylineVertex { id: v, ..vx }),
        39 => match pair.f64_value() {
            Ok(v) => Ok(Some(LwPolylineView { thickness: v, ..d })),
            Err(e) => Err(e),
        },
        43 => match pair.f64_value() {
            Ok(v) => Ok(Some(LwPolylineView { constant_width: v, ..d })),
            Err(e) => Err(e),
        },
        70 => match pair.i16_value() {
            Ok(v) => Ok(Some(LwPolylineView { flags: v as i32, ..d })),
            Err(e) => Err(e),
        },
        210 => match pair.f64_value() {
            Ok(v) => Ok(Some(LwPolylineView { extrusion_direction: Vector { x: v, ..d.extrusion_direction }, ..d })),
            Err(e) => Err(e),
        },
        220 => match pair.f64_value() {
            Ok(v) => Ok(Some(LwPolylineView { extrusion_direction: Vector { y: v, ..d.extrusion_direction }, ..d })),
            Err(e) => Err(e),
        },
        230 => match pair.f64_value() {
            Ok(v) => Ok(Some(LwPolylineView { extrusion_direction: Vector { z: v, ..d.extrusion_direction }, ..d })),
            Err(e) => Err(e),
        },
        _ => Ok(None),
    }
}

impl LwPolyline {
    /// Applies a pair that carries a field of this entity kind; reports whether it did.
    pub fn apply_code_pair(&mut self, pair: &CodePair) -> (r: Result<bool, DxfError>)
        ensures
            lw_polyline_pair_step(old(self)@, *pair) == claimed(r, final(self)@),
            r == Ok::<bool, DxfError>(false) ==> final(self)@ == old(self)@,
    {
        match pair.code {
            10 => {
                let v = pair.assert_f64()?;
                let mut vx = LwPolylineVertex::default_value();
                vx.x = v;
                self.vertices.push(vx);
            },
            20 => {
                let v = pair.assert_f64()?;
                let n = self.vertices.len();
                if n == 0 {
                    return Err(DxfError::UnexpectedEmptySet);
                }
                let mut vx = self.vertices[n - 1];
                vx.y = v;
                self.vertices.set(n - 1, vx);
            },
            40 => {
                let v = pair.assert_f64()?;
                let n = self.vertices.len();
                if n == 0 {
                    return Err(DxfError::UnexpectedEmptySet);
                }
                let mut vx = self.vertices[n - 1];
                vx.starting_width = v;
                self.vertices.set(n - 1, vx);
            },
            41 => {
                let v = pair.assert_f64()?;
                let n = self.vertices.len();
                if n == 0 {
                    return Err(DxfError::UnexpectedEmptySet);
                }
                let mut vx = self.vertices[n - 1];
                vx.ending_width = v;
                self.vertices.set(n - 1, vx);
            },
            42 => {
                let v = pair.assert_f64()?;
                let n = self.vertices.len();
                if n == 0 {
                    return Err(DxfError::UnexpectedEmptySet);
                }
                let mut vx = self.vertices[n - 1];
                vx.bulge = v;
                self.vertices.set(n - 1, vx);
            },
            91 => {
                let v = pair.assert_i32()?;
                let n = self.vertices.len();
                if n == 0 {
                    return Err(DxfError::UnexpectedEmptySet);
                }
                let mut vx = self.vertices[n - 1];
                vx.id = v;
                self.vertices.set(n - 1, vx);
            },
            39 => {
                self.thickness = pair.assert_f64()?;
            },
            43 => {
                self.constant_width = pair.assert_f64()?;
            },
            70 => {
                self.flags = pair.assert_i16()? as i32;
            },
            210 => {
                self.extrusion_direction.x = pair.assert_f64()?;
            },
            220 => {
                self.extrusion_direction.y = pair.assert_f64()?;
            },
            230 => {
                self.extrusion_direction.z = pair.assert_f64()?;
            },
            _ => {
                return Ok(false);
            },
        }
        Ok(true)
    }
}

/// The pairs of one vertex; its identifier exists from release R2013 on.
pub open spec fn lw_vertex_pairs(v: LwPolylineVertex, version: AcadVersion) -> Seq<PairView> {
    seq![f64_pair(10, v.x), f64_pair(20, v.y)] + (if version.rank() >= AcadVersion::R2013.rank() {
        seq![i32_pair(91, v.id)]
    } else {
        Seq::empty()
    }) + seq![f64_pair(40, v.starting_width), f64_pair(41, v.ending_width), f64_pair(42, v.bulge)]
}

/// The pairs of each vertex in turn.
pub open spec fn lw_vertices_pairs(vs: Seq<LwPolylineVertex>, version: AcadVersion) -> Seq<PairView>
    decreases vs.len(),
{
    if vs.len() == 0 {
        Seq::empty()
    } else {
        lw_vertices_pairs(vs.drop_last(), version) + lw_vertex_pairs(vs.last(), version)
    }
}

fn emit_lw_vertices(out: &mut Vec<CodePair>, vs: &Vec<LwPolylineVertex>, version: AcadVersion)
    ensures
        pairs_view(final(out)@) == pairs_view(old(out)@) + lw_vertices_pairs(vs@, version),
{
    let ghost start = pairs_view(out@);
    let mut i: usize = 0;
    while i < vs.len()
        invariant
            i <= vs@.len(),
            pairs_view(out@) == start + lw_vertices_pairs(vs@.take(i as int), version),
        decreases vs@.len() - i,
    {
        let v = vs[i];
        let ghost before = pairs_view(out@);
        emit(out, CodePair::new_f64(10, v.x));
        emit(out, CodePair::new_f64(20, v.y));
        if version.at_least(AcadVersion::R2013) {
            emit(out, CodePair::new_i32(91, v.id));
        }
        emit(out, CodePair::new_f64(40, v.starting_width));
        emit(out, CodePair::new_f64(41, v.ending_width));
        emit(out, CodePair::new_f64(42, v.bulge));
        assert(pairs_view(out@) =~= before + lw_vertex_pairs(v, version));
        assert(vs@.take(i as int + 1).drop_last() == vs@.take(i as int));
        i = i + 1;
        assert(pairs_view(out@) =~= start + lw_vertices_pairs(vs@.take(i as int), version));
    }
    assert(vs@.take(i as int) == vs@);
}

/// The pairs of a light polyline, with each vertex written in place.
pub open spec fn lw_polyline_pairs(d: LwPolylineView, version: AcadVersion) -> Seq<PairView> {
    (if version.rank() >= AcadVersion::R13.rank() {
        seq![str_pair(100, "AcDbPolyline"@)]
    } else {
        Seq::empty()
    })
    + seq![i32_pair(90, d.vertices.len() as i32)]
    + seq![i16_pair(70, d.flags as i16)]
    + seq![f64_pair(43, d.constant_width)]
    + seq![f64_pair(39, d.thickness)]
    + lw_vertices_pairs(d.vertices, version)
    + xyz_pairs(210, d.extrusion_direction.x, d.extrusion_direction.y, d.extrusion_direction.z)
}

impl LwPolyline {
    /// Writes the fields of `lw_polyline_pairs`.
    pub fn write_fields(&self, version: AcadVersion, out: &mut Vec<CodePair>)
        ensures
            pairs_view(final(out)@) == pairs_view(old(out)@) + lw_polyline_pairs(self@, version),
    {
        let ghost start = pairs_view(out@);
        let ghost mut acc: Seq<PairView> = Seq::empty();
        if version.at_least(AcadVersion::R13) {
            emit(out, CodePair::new_str(100, String::from_str("AcDbPolyline")));
        }
        proof {
            acc = (if version.rank() >= AcadVersion::R13.rank() {
                seq![str_pair(100, "AcDbPolyline"@)]
            } else {
                Seq::empty()
            });
        }
        assert(pairs_view(out@) =~= start + acc);
        emit(out, CodePair::new_i32(90, self.vertices.len() as i32));
        proof {
            acc = acc + seq![i32_pair(90, self@.vertices.len() as i32)];
        }
        assert(pairs_view(out@) =~= start + acc);
        emit(out, CodePair::new_i16(70, self.flags as i16));
        proof {
            acc = acc + seq![i16_pair(70, self@.flags as i16)];
        }
        assert(pairs_view(out@) =~= start + acc);
        emit(out, CodePair::new_f64(43, self.constant_width));
        proof {
            acc = acc + seq![f64_pair(43, self@.constant_width)];
        }
        assert(pairs_view(out@) =~= start + acc);
        emit(out, CodePair::new_f64(39, self.thickness));
        proof {
            acc = acc + seq![f64_pair(39, self@.thickness)];
        }
        assert(pairs_view(out@) =~= start + acc);
        emit_lw_vertices(out, &self.vertices, version);
        proof {
            acc = acc + lw_vertices_pairs(self@.vertices, version);
        }
        assert(pairs_view(out@) =~= start + acc);
        emit_xyz(out, 210, self.extrusion_direction.x, self.extrusion_direction.y, self.extrusion_direction.z);
        proof {
            acc = acc + xyz_pairs(210, self@.extrusion_direction.x, self@.extrusion_direction.y, self@.extrusion_direction.z);
        }
        assert(pairs_view(out@) =~= start + acc);
        assert(acc == lw_polyline_pairs(self@, version));
    }
}

} // verus!
