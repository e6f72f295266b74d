//! Code pairs, the values they carry, and the error type of the codec.
//!
//! Real numbers are carried as IEEE 754 binary64 bit patterns (`u64`): the
//! codec moves them between the stream and the entities and never computes
//! with them, so their exact bits survive a round trip.

use vstd::prelude::*;

verus! {

/// A location in model space; each coordinate is a binary64 bit pattern.
#[derive(Clone, Copy, Debug, PartialEq, Eq, Structural)]
pub struct Point {
    pub x: u64,
    pub y: u64,
    pub z: u64,
}

/// A direction in model space; each component is a binary64 bit pattern.
#[derive(Clone, Copy, Debug, PartialEq, Eq, Structural)]
pub struct Vector {
    pub x: u64,
    pub y: u64,
    pub z: u64,
}

/// Bit pattern of the binary64 value 1.0.
pub const ONE_BITS: u64 = 0x3FF0_0000_0000_0000;

impl Point {
    pub fn new(x: u64, y: u64, z: u64) -> (r: Point)
        ensures
            r == (Point { x, y, z }),
    {
        Point { x, y, z }
    }

    pub fn origin() -> (r: Point)
        ensures
            r == (Point { x: 0, y: 0, z: 0 }),
    {
        Point { x: 0, y: 0, z: 0 }
    }
}

impl Vector {
    pub fn new(x: u64, y: u64, z: u64) -> (r: Vector)
        ensures
            r == (Vector { x, y, z }),
    {
        Vector { x, y, z }
    }

    pub fn zero() -> (r: Vector)
        ensures
            r == (Vector { x: 0, y: 0, z: 0 }),
    {
        Vector { x: 0, y: 0, z: 0 }
    }

    /// The unit vector along z, the default normal of planar entities.
    pub fn z_axis() -> (r: Vector)
        ensures
            r == (Vector { x: 0, y: 0, z: ONE_BITS }),
    {
        Vector { x: 0, y: 0, z: ONE_BITS }
    }
}

/// A color index; 256 means "by layer".
#[derive(Clone, Copy, Debug, PartialEq, Eq, Structural)]
pub struct Color {
    pub raw_value: i16,
}

impl Color {
    pub fn from_raw_value(raw_value: i16) -> (r: Color)
        ensures
            r.raw_value == raw_value,
    {
        Color { raw_value }
    }

    pub fn by_layer() -> (r: Color)
        ensures
            r.raw_value == 256,
    {
        Color { raw_value: 256 }
    }

    pub fn get_raw_value(&self) -> (r: i16)
        ensures
            r == self.raw_value,
    {
        self.raw_value
    }
}

/// The typed value of a code pair.
#[derive(Clone, Debug, PartialEq)]
pub enum CodePairValue {
    Str(String),
    Double(u64),
    Short(i16),
    Integer(i32),
    Boolean(bool),
}

/// What a value holds, with text as characters.
pub enum ValueView {
    Str(Seq<char>),
    Double(u64),
    Short(i16),
    Integer(i32),
    Boolean(bool),
}

/// What a code pair holds.
pub struct PairView {
    pub code: int,
    pub value: ValueView,
}

impl View for CodePairValue {
    type V = ValueView;

    open spec fn view(&self) -> ValueView {
        match self {
            CodePairValue::Str(s) => ValueView::Str(s@),
            CodePairValue::Double(d) => ValueView::Double(*d),
            CodePairValue::Short(v) => ValueView::Short(*v),
            CodePairValue::Integer(v) => ValueView::Integer(*v),
            CodePairValue::Boolean(b) => ValueView::Boolean(*b),
        }
    }
}

impl View for CodePair {
    type V = PairView;

    open spec fn view(&self) -> PairView {
        PairView { code: self.code as int, value: self.value@ }
    }
}

/// The contents of a run of pairs.
pub open spec fn pairs_view(s: Seq<CodePair>) -> Seq<PairView> {
    s.map_values(|p: CodePair| p@)
}

pub open spec fn str_pair(code: int, s: Seq<char>) -> PairView {
    PairView { code, value: ValueView::Str(s) }
}

pub open spec fn f64_pair(code: int, bits: u64) -> PairView {
    PairView { code, value: ValueView::Double(bits) }
}

pub open spec fn i16_pair(code: int, v: i16) -> PairView {
    PairView { code, value: ValueView::Short(v) }
}

pub open spec fn i32_pair(code: int, v: i32) -> PairView {
    PairView { code, value: ValueView::Integer(v) }
}

/// The three pairs of a point or vector whose x code is `code`.
pub open spec fn xyz_pairs(code: int, x: u64, y: u64, z: u64) -> Seq<PairView> {
    seq![f64_pair(code, x), f64_pair(code + 10, y), f64_pair(code + 20, z)]
}

/// Appends one pair to the output.
pub fn emit(out: &mut Vec<CodePair>, pair: CodePair)
    ensures
        pairs_view(final(out)@) == pairs_view(old(out)@).push(pair@),
{
    let ghost p = pair@;
    out.push(pair);
    assert(pairs_view(out@) =~= pairs_view(old(out)@).push(p));
}

/// Appends the three pairs of a coordinate triple.
pub fn emit_xyz(out: &mut Vec<CodePair>, code: i32, x: u64, y: u64, z: u64)
    requires
        code <= i32::MAX - 20,
    ensures
        pairs_view(final(out)@) == pairs_view(old(out)@) + xyz_pairs(code as int, x, y, z),
{
    emit(out, CodePair::new_f64(code, x));
    emit(out, CodePair::new_f64(code + 10, y));
    emit(out, CodePair::new_f64(code + 20, z));
    assert(pairs_view(out@) =~= pairs_view(old(out)@) + xyz_pairs(code as int, x, y, z));
}

/// One string pair with the same code for each text, in order.
pub open spec fn str_pairs(code: int, texts: Seq<Seq<char>>) -> Seq<PairView>
    decreases texts.len(),
{
    if texts.len() == 0 {
        Seq::empty()
    } else {
        str_pairs(code, texts.drop_last()).push(str_pair(code, texts.last()))
    }
}

/// The pairs of each point in turn, its x under `code`.
pub open spec fn point_pairs(code: int, points: Seq<Point>) -> Seq<PairView>
    decreases points.len(),
{
    if points.len() == 0 {
        Seq::empty()
    } else {
        point_pairs(code, points.drop_last()) + xyz_pairs(
            code,
            points.last().x,
            points.last().y,
            points.last().z,
        )
    }
}

/// The x and y pairs of each point in turn, its x under `code`.
pub open spec fn point2_pairs(code: int, points: Seq<Point>) -> Seq<PairView>
    decreases points.len(),
{
    if points.len() == 0 {
        Seq::empty()
    } else {
        point2_pairs(code, points.drop_last()) + seq![
            f64_pair(code, points.last().x),
            f64_pair(code + 10, points.last().y),
        ]
    }
}

/// Appends the x and y pairs of each point in turn.
pub fn emit_points2(out: &mut Vec<CodePair>, code: i32, points: &Vec<Point>)
    requires
        code <= i32::MAX - 20,
    ensures
        pairs_view(final(out)@) == pairs_view(old(out)@) + point2_pairs(code as int, points@),
{
    let ghost start = pairs_view(out@);
    let mut i: usize = 0;
    while i < points.len()
        invariant
            code <= i32::MAX - 20,
            i <= points@.len(),
            pairs_view(out@) == start + point2_pairs(code as int, points@.take(i as int)),
        decreases points@.len() - i,
    {
        let p = points[i];
        emit(out, CodePair::new_f64(code, p.x));
        emit(out, CodePair::new_f64(code + 10, p.y));
        assert(points@.take(i as int + 1).drop_last() == points@.take(i as int));
        i = i + 1;
        assert(pairs_view(out@) =~= start + point2_pairs(code as int, points@.take(i as int)));
    }
    assert(points@.take(i as int) == points@);
}

/// Appends one string pair for each text.
pub fn emit_strs(out: &mut Vec<CodePair>, code: i32, texts: &Vec<String>)
    ensures
        pairs_view(final(out)@) == pairs_view(old(out)@) + str_pairs(
            code as int,
            texts@.map_values(|s: String| s@),
        ),
{
    let ghost start = pairs_view(out@);
    let ghost all = texts@.map_values(|s: String| s@);
    let mut i: usize = 0;
    while i < texts.len()
        invariant
            i <= texts@.len(),
            all == texts@.map_values(|s: String| s@),
            pairs_view(out@) == start + str_pairs(code as int, all.take(i as int)),
        decreases texts@.len() - i,
    {
        emit(out, CodePair::new_str(code, texts[i].clone()));
        assert(all.take(i as int + 1).drop_last() == all.take(i as int));
        i = i + 1;
        assert(pairs_view(out@) =~= start + str_pairs(code as int, all.take(i as int)));
    }
    assert(all.take(i as int) == all);
}

/// Appends the pairs of each point in turn.
pub fn emit_points(out: &mut Vec<CodePair>, code: i32, points: &Vec<Point>)
    requires
        code <= i32::MAX - 20,
    ensures
        pairs_view(final(out)@) == pairs_view(old(out)@) + point_pairs(code as int, points@),
{
    let ghost start = pairs_view(out@);
    let mut i: usize = 0;
    while i < points.len()
        invariant
            code <= i32::MAX - 20,
            i <= points@.len(),
            pairs_view(out@) == start + point_pairs(code as int, points@.take(i as int)),
        decreases points@.len() - i,
    {
        let p = points[i];
        emit_xyz(out, code, p.x, p.y, p.z);
        assert(points@.take(i as int + 1).drop_last() == points@.take(i as int));
        i = i + 1;
        assert(pairs_view(out@) =~= start + point_pairs(code as int, points@.take(i as int)));
    }
    assert(points@.take(i as int) == points@);
}

/// A group code with its value: the smallest unit of the stream.
#[derive(Clone, Debug, PartialEq)]
pub struct CodePair {
    pub code: i32,
    pub value: CodePairValue,
}

/// Why a read or a write failed.
#[derive(Clone, Debug, PartialEq)]
pub enum DxfError {
    /// The stream ended before the current entity did.
    UnexpectedEndOfInput,
    /// A pair stood where the structure allows none of its kind.
    UnexpectedCodePair(CodePair),
    /// A per-vertex value came before any vertex was started.
    UnexpectedEmptySet,
    /// The value of the pair with this group code has the wrong shape.
    WrongValueType(i32),
    /// This number names no member of the enumeration it was read for; a
    /// dimension field applied to a kind that is no dimension gives the
    /// pair's group code here.
    UnexpectedEnumValue(i32),
    /// This text is not a hexadecimal handle.
    ParseIntError(String),
    /// The code-pair source failed; its message is passed on unchanged.
    ReadError(String),
}

impl CodePair {
    /// A copy of this pair, equal to it.
    pub fn duplicate(&self) -> (r: CodePair)
        ensures
            r == *self,
    {
        let value = match &self.value {
            CodePairValue::Str(s) => CodePairValue::Str(s.clone()),
            CodePairValue::Double(d) => CodePairValue::Double(*d),
            CodePairValue::Short(v) => CodePairValue::Short(*v),
            CodePairValue::Integer(v) => CodePairValue::Integer(*v),
            CodePairValue::Boolean(b) => CodePairValue::Boolean(*b),
        };
        CodePair { code: self.code, value }
    }

    pub fn new_str(code: i32, s: String) -> (r: CodePair)
        ensures
            r == (CodePair { code, value: CodePairValue::Str(s) }),
    {
        CodePair { code, value: CodePairValue::Str(s) }
    }

    pub fn new_f64(code: i32, bits: u64) -> (r: CodePair)
        ensures
            r == (CodePair { code, value: CodePairValue::Double(bits) }),
    {
        CodePair { code, value: CodePairValue::Double(bits) }
    }

    pub fn new_i16(code: i32, v: i16) -> (r: CodePair)
        ensures
            r == (CodePair { code, value: CodePairValue::Short(v) }),
    {
        CodePair { code, value: CodePairValue::Short(v) }
    }

    pub fn new_i32(code: i32, v: i32) -> (r: CodePair)
        ensures
            r == (CodePair { code, value: CodePairValue::Integer(v) }),
    {
        CodePair { code, value: CodePairValue::Integer(v) }
    }

    pub open spec fn string_value(self) -> Result<String, DxfError> {
        match self.value {
            CodePairValue::Str(s) => Ok(s),
            _ => Err(DxfError::WrongValueType(self.code)),
        }
    }

    pub open spec fn f64_value(self) -> Result<u64, DxfError> {
        match self.value {
            CodePairValue::Double(d) => Ok(d),
            _ => Err(DxfError::WrongValueType(self.code)),
        }
    }

    pub open spec fn i16_value(self) -> Result<i16, DxfError> {
        match self.value {
            CodePairValue::Short(v) => Ok(v),
            _ => Err(DxfError::WrongValueType(self.code)),
        }
    }

    pub open spec fn i32_value(self) -> Result<i32, DxfError> {
        match self.value {
            CodePairValue::Integer(v) => Ok(v),
            _ => Err(DxfError::WrongValueType(self.code)),
        }
    }

    /// The text of a string-valued pair.
    pub fn assert_string(&self) -> (r: Result<String, DxfError>)
        ensures
            r == self.string_value(),
    {
        match &self.value {
            CodePairValue::Str(s) => Ok(s.clone()),
            _ => Err(DxfError::WrongValueType(self.code)),
        }
    }

    /// The bits of a real-valued pair.
    pub fn assert_f64(&self) -> (r: Result<u64, DxfError>)
        ensures
            r == self.f64_value(),
    {
        match &self.value {
            CodePairValue::Double(d) => Ok(*d),
            _ => Err(DxfError::WrongValueType(self.code)),
        }
    }

    /// The number of a 16-bit-valued pair.
    pub fn assert_i16(&self) -> (r: Result<i16, DxfError>)
        ensures
            r == self.i16_value(),
    {
        match &self.value {
            CodePairValue::Short(v) => Ok(*v),
            _ => Err(DxfError::WrongValueType(self.code)),
        }
    }

    /// The number of a 32-bit-valued pair.
    pub fn assert_i32(&self) -> (r: Result<i32, DxfError>)
        ensures
            r == self.i32_value(),
    {
        match &self.value {
            CodePairValue::Integer(v) => Ok(*v),
            _ => Err(DxfError::WrongValueType(self.code)),
        }
    }
}

/// A flag stored as a 16-bit number: set exactly when the number is 1.
pub fn as_bool(v: i16) -> (r: bool)
    ensures
        r == (v == 1),
{
    v == 1
}

/// The 16-bit number that stores a flag.
pub fn as_i16(b: bool) -> (r: i16)
    ensures
        r == (if b { 1i16 } else { 0i16 }),
{
    if b { 1 } else { 0 }
}

} // verus!
