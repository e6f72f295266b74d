//! Dimensions: the shared base block, its packed type field, the five
//! concrete kinds, and how each is written.

use vstd::prelude::*;
use crate::code_pair::{
    CodePair, DxfError, PairView, Point, Vector, ONE_BITS, pairs_view, emit, emit_xyz, str_pair,
    f64_pair, i16_pair, xyz_pairs,
};
use crate::common::{claimed, outcome};
use crate::enums::{AcadVersion, AttachmentPoint, DimensionType, TextLineSpacingStyle, Version};

verus! {

/// Fields that all five dimension kinds share.
#[derive(Clone, Debug, PartialEq)]
pub struct DimensionBase {
    pub version: Version,
    pub block_name: String,
    pub definition_point_1: Point,
    pub text_mid_point: Point,
    /// Base kind, the low four bits of the packed type field.
    pub dimension_type: DimensionType,
    /// Bit 5 of the packed type field.
    pub is_block_reference_referenced_by_this_block_only: bool,
    /// Bit 6 of the packed type field.
    pub is_ordinate_x_type: bool,
    /// Bit 7 of the packed type field.
    pub is_at_user_defined_location: bool,
    pub attachment_point: AttachmentPoint,
    pub text_line_spacing_style: TextLineSpacingStyle,
    pub text_line_spacing_factor: u64,
    pub actual_measurement: u64,
    pub text: String,
    pub text_rotation_angle: u64,
    pub horizontal_direction_angle: u64,
    pub normal: Vector,
    pub dimension_style_name: String,
}

pub struct DimensionBaseView {
    pub version: Version,
    pub block_name: Seq<char>,
    pub definition_point_1: Point,
    pub text_mid_point: Point,
    pub dimension_type: DimensionType,
    pub is_block_reference_referenced_by_this_block_only: bool,
    pub is_ordinate_x_type: bool,
    pub is_at_user_defined_location: bool,
    pub attachment_point: AttachmentPoint,
    pub text_line_spacing_style: TextLineSpacingStyle,
    pub text_line_spacing_factor: u64,
    pub actual_measurement: u64,
    pub text: Seq<char>,
    pub text_rotation_angle: u64,
    pub horizontal_direction_angle: u64,
    pub normal: Vector,
    pub dimension_style_name: Seq<char>,
}

impl View for DimensionBase {
    type V = DimensionBaseView;

    open spec fn view(&self) -> DimensionBaseView {
        DimensionBaseView {
            version: self.version,
            block_name: self.block_name@,
            definition_point_1: self.definition_point_1,
            text_mid_point: self.text_mid_point,
            dimension_type: self.dimension_type,
            is_block_reference_referenced_by_this_block_only: self.is_block_reference_referenced_by_this_block_only,
            is_ordinate_x_type: self.is_ordinate_x_type,
            is_at_user_defined_location: self.is_at_user_defined_location,
            attachment_point: self.attachment_point,
            text_line_spacing_style: self.text_line_spacing_style,
            text_line_spacing_factor: self.text_line_spacing_factor,
            actual_measurement: self.actual_measurement,
            text: self.text@,
            text_rotation_angle: self.text_rotation_angle,
            horizontal_direction_angle: self.horizontal_direction_angle,
            normal: self.normal,
            dimension_style_name: self.dimension_style_name@,
        }
    }
}

impl DimensionBase {
    /// Every field at its default.
    pub open spec fn default_view() -> DimensionBaseView {
        DimensionBaseView {
            version: Version::R2010,
            block_name: Seq::<char>::empty(),
            definition_point_1: Point { x: 0, y: 0, z: 0 },
            text_mid_point: Point { x: 0, y: 0, z: 0 },
            dimension_type: DimensionType::RotatedHorizontalOrVertical,
            is_block_reference_referenced_by_this_block_only: false,
            is_ordinate_x_type: false,
            is_at_user_defined_location: false,
            attachment_point: AttachmentPoint::TopLeft,
            text_line_spacing_style: TextLineSpacingStyle::AtLeast,
            text_line_spacing_factor: ONE_BITS,
            actual_measurement: 0,
            text: "<>"@,
            text_rotation_angle: 0,
            horizontal_direction_angle: 0,
            normal: Vector { x: 0, y: 0, z: ONE_BITS },
            dimension_style_name: "STANDARD"@,
        }
    }

    pub fn default_value() -> (r: DimensionBase)
        ensures
            r@ == DimensionBase::default_view(),
    {
        let r = DimensionBase {
            version: Version::R2010,
            block_name: String::new(),
            definition_point_1: Point::new(0, 0, 0),
            text_mid_point: Point::new(0, 0, 0),
            dimension_type: DimensionType::RotatedHorizontalOrVertical,
            is_block_reference_referenced_by_this_block_only: false,
            is_ordinate_x_type: false,
            is_at_user_defined_location: false,
            attachment_point: AttachmentPoint::TopLeft,
            text_line_spacing_style: TextLineSpacingStyle::AtLeast,
            text_line_spacing_factor: ONE_BITS,
            actual_measurement: 0,
            text: String::from_str("<>"),
            text_rotation_angle: 0,
            horizontal_direction_angle: 0,
            normal: Vector::z_axis(),
            dimension_style_name: String::from_str("STANDARD"),
        };
        r
    }
}

/// The packed type field of a dimension: the base kind in the low four bits
/// and three flags in bits 5, 6 and 7.
pub open spec fn packed_dimension_type(kind: DimensionType, a: bool, b: bool, c: bool) -> i16 {
    (kind.code() + (if a { 32int } else { 0 }) + (if b { 64int } else { 0 }) + (if c { 128int } else { 0 })) as i16
}

/// The packed type field of a dimension base.
pub open spec fn dimension_type_code(d: DimensionBaseView) -> i16 {
    packed_dimension_type(
        d.dimension_type,
        d.is_block_reference_referenced_by_this_block_only,
        d.is_ordinate_x_type,
        d.is_at_user_defined_location,
    )
}

/// Decoding a packed type field into a base: bit 4 and the bits above 7 are
/// ignored; a base kind outside the enumeration fails.
pub open spec fn set_type_step(d: DimensionBaseView, val: i16) -> Result<DimensionBaseView, DxfError> {
    match DimensionType::from_code((val & 0x0F) as int) {
        Some(k) => Ok(
            DimensionBaseView {
                dimension_type: k,
                is_block_reference_referenced_by_this_block_only: (val & 32) == 32,
                is_ordinate_x_type: (val & 64) == 64,
                is_at_user_defined_location: (val & 128) == 128,
                ..d
            },
        ),
        None => Err(DxfError::UnexpectedEnumValue((val & 0x0F) as i32)),
    }
}

proof fn lemma_packed_bits(k: i16, a: i16, b: i16, c: i16)
    requires
        0 <= k < 16,
        a == 0 || a == 32,
        b == 0 || b == 64,
        c == 0 || c == 128,
    ensures
        ((k + a + b + c) as i16 & 0x0F) == k,
        (((k + a + b + c) as i16 & 32) == 32) == (a == 32),
        (((k + a + b + c) as i16 & 64) == 64) == (b == 64),
        (((k + a + b + c) as i16 & 128) == 128) == (c == 128),
        ((k + a + b + c) as i16 & 16) == 0,
{
    assert(((k + a + b + c) as i16 & 0x0F) == k) by (bit_vector)
        requires
            0 <= k < 16,
            a == 0 || a == 32,
            b == 0 || b == 64,
            c == 0 || c == 128,
    ;
    assert((((k + a + b + c) as i16 & 32) == 32) == (a == 32)) by (bit_vector)
        requires
            0 <= k < 16,
            a == 0 || a == 32,
            b == 0 || b == 64,
            c == 0 || c == 128,
    ;
    assert((((k + a + b + c) as i16 & 64) == 64) == (b == 64)) by (bit_vector)
        requires
            0 <= k < 16,
            a == 0 || a == 32,
            b == 0 || b == 64,
            c == 0 || c == 128,
    ;
    assert((((k + a + b + c) as i16 & 128) == 128) == (c == 128)) by (bit_vector)
        requires
            0 <= k < 16,
            a == 0 || a == 32,
            b == 0 || b == 64,
            c == 0 || c == 128,
    ;
    assert(((k + a + b + c) as i16 & 16) == 0) by (bit_vector)
        requires
            0 <= k < 16,
            a == 0 || a == 32,
            b == 0 || b == 64,
            c == 0 || c == 128,
    ;
}

/// For every base kind and every choice of the three flags, decoding the
/// packed value and encoding it again gives back exactly that value; the
/// value sets no bit but the four low bits and bits 5, 6 and 7.
pub proof fn lemma_packed_type_round_trip(
    d: DimensionBaseView,
    kind: DimensionType,
    a: bool,
    b: bool,
    c: bool,
)
    ensures
        set_type_step(d, packed_dimension_type(kind, a, b, c)) matches Ok(d2) && dimension_type_code(
            d2,
        ) == packed_dimension_type(kind, a, b, c) && d2.dimension_type == kind
            && d2.is_block_reference_referenced_by_this_block_only == a && d2.is_ordinate_x_type == b
            && d2.is_at_user_defined_location == c,
        0 <= packed_dimension_type(kind, a, b, c) < 256,
        packed_dimension_type(kind, a, b, c) & 16 == 0,
{
    let k = kind.code() as i16;
    let ai: i16 = if a { 32 } else { 0 };
    let bi: i16 = if b { 64 } else { 0 };
    let ci: i16 = if c { 128 } else { 0 };
    lemma_packed_bits(k, ai, bi, ci);
    assert(packed_dimension_type(kind, a, b, c) == (k + ai + bi + ci) as i16);
}

impl DimensionBase {
    /// The packed type field: base kind plus the three flag bits.
    pub fn get_dimension_type(&self) -> (r: i16)
        ensures
            r == dimension_type_code(self@),
    {
        let mut val = self.dimension_type.to_i16();
        if self.is_block_reference_referenced_by_this_block_only {
            val = val + 32;
        }
        if self.is_ordinate_x_type {
            val = val + 64;
        }
        if self.is_at_user_defined_location {
            val = val + 128;
        }
        val
    }

    /// Sets the base kind and the three flags from a packed type field.
    pub fn set_dimension_type(&mut self, val: i16) -> (r: Result<(), DxfError>)
        ensures
            set_type_step(old(self)@, val) == outcome(r, final(self)@),
            r is Err ==> final(self)@ == old(self)@,
    {
        match DimensionType::from_i16(val & 0x0F) {
            Some(k) => {
                self.dimension_type = k;
                self.is_block_reference_referenced_by_this_block_only = (val & 32) == 32;
                self.is_ordinate_x_type = (val & 64) == 64;
                self.is_at_user_defined_location = (val & 128) == 128;
                Ok(())
            },
            None => Err(DxfError::UnexpectedEnumValue((val & 0x0F) as i32)),
        }
    }
}

/// What a pair does to a dimension base while the kind is not yet known; the packed type field is decoded, and code 100 is left to the caller.
pub open spec fn dimension_base_pair_step(d: DimensionBaseView, pair: CodePair) -> Result<Option<DimensionBaseView>, DxfError> {
    match pair.code {
        1 => match pair.string_value() {
            Ok(s) => Ok(Some(DimensionBaseView { text: s@, ..d })),
            Err(e) => Err(e),
        },
        2 => match pair.string_value() {
            Ok(s) => Ok(Some(DimensionBaseView { block_name: s@, ..d })),
            Err(e) => Err(e),
        },
        3 => match pair.string_value() {
            Ok(s) => Ok(Some(DimensionBaseView { dimension_style_name: s@, ..d })),
            Err(e) => Err(e),
        },
        10 => match pair.f64_value() {
            Ok(v) => Ok(Some(DimensionBaseView { definition_point_1: Point { x: v, ..d.definition_point_1 }, ..d })),
            Err(e) => Err(e),
        },
        20 => match pair.f64_value() {
            Ok(v) => Ok(Some(DimensionBaseView { definition_point_1: Point { y: v, ..d.definition_point_1 }, ..d })),
            Err(e) => Err(e),
        },
        30 => match pair.f64_value() {
            Ok(v) => Ok(Some(DimensionBaseView { definition_point_1: Point { z: v, ..d.definition_point_1 }, ..d })),
            Err(e) => Err(e),
        },
        11 => match pair.f64_value() {
            Ok(v) => Ok(Some(DimensionBaseView { text_mid_point: Point { x: v, ..d.text_mid_point }, ..d })),
            Err(e) => Err(e),
        },
        21 => match pair.f64_value() {
            Ok(v) => Ok(Some(DimensionBaseView { text_mid_point: Point { y: v, ..d.text_mid_point }, ..d })),
            Err(e) => Err(e),
        },
        31 => match pair.f64_value() {
            Ok(v) => Ok(Some(DimensionBaseView { text_mid_point: Point { z: v, ..d.text_mid_point }, ..d })),
            Err(e) => Err(e),
        },
        41 => match pair.f64_value() {
            Ok(v) => Ok(Some(DimensionBaseView { text_line_spacing_factor: v, ..d })),
            Err(e) => Err(e),
        },
        42 => match pair.f64_value() {
            Ok(v) => Ok(Some(DimensionBaseView { actual_measurement: v, ..d })),
            Err(e) => Err(e),
        },
        51 => match pair.f64_value() {
            Ok(v) => Ok(Some(DimensionBaseView { horizontal_direction_angle: v, ..d })),
            Err(e) => Err(e),
        },
        53 => match pair.f64_value() {
            Ok(v) => Ok(Some(DimensionBaseView { text_rotation_angle: v, ..d })),
            Err(e) => Err(e),
        },
        71 => match pair.i16_value() {
            Ok(v) => match AttachmentPoint::from_code(v as int) {
                Some(m) => Ok(Some(DimensionBaseView { attachment_point: m, ..d })),
                None => Err(DxfError::UnexpectedEnumValue(v as i32)),
            },
            Err(e) => Err(e),
        },
        72 => match pair.i16_value() {
            Ok(v) => match TextLineSpacingStyle::from_code(v as int) {
                Some(m) => Ok(Some(DimensionBaseView { text_line_spacing_style: m, ..d })),
                None => Err(DxfError::UnexpectedEnumValue(v as i32)),
            },
            Err(e) => Err(e),
        },
        210 => match pair.f64_value() {
            Ok(v) => Ok(Some(DimensionBaseView { normal: Vector { x: v, ..d.normal }, ..d })),
            Err(e) => Err(e),
        },
        220 => match pair.f64_value() {
            Ok(v) => Ok(Some(DimensionBaseView { normal: Vector { y: v, ..d.normal }, ..d })),
            Err(e) => Err(e),
        },
        230 => match pair.f64_value() {
            Ok(v) => Ok(Some(DimensionBaseView { normal: Vector { z: v, ..d.normal }, ..d })),
            Err(e) => Err(e),
        },
        280 => match pair.i16_value() {
            Ok(v) => match Version::from_code(v as int) {
                Some(m) => Ok(Some(DimensionBaseView { version: m, ..d })),
                None => Err(DxfError::UnexpectedEnumValue(v as i32)),
            },
            Err(e) => Err(e),
        },
        70 => match pair.i16_value() {
            Ok(v) => match set_type_step(d, v) {
                Ok(d2) => Ok(Some(d2)),
                Err(e) => Err(e),
            },
            Err(e) => Err(e),
        },
        _ => Ok(None),
    }
}

impl DimensionBase {
    /// Applies a pair that carries a field of this entity kind; reports whether it did.
    pub fn apply_code_pair(&mut self, pair: &CodePair) -> (r: Result<bool, DxfError>)
        ensures
            dimension_base_pair_step(old(self)@, *pair) == claimed(r, final(self)@),
            r == Ok::<bool, DxfError>(false) ==> final(self)@ == old(self)@,
    {
        match pair.code {
            1 => {
                self.text = pair.assert_string()?;
            },
            2 => {
                self.block_name = pair.assert_string()?;
            },
            3 => {
                self.dimension_style_name = pair.assert_string()?;
            },
            10 => {
                self.definition_point_1.x = pair.assert_f64()?;
            },
            20 => {
                self.definition_point_1.y = pair.assert_f64()?;
            },
            30 => {
                self.definition_point_1.z = pair.assert_f64()?;
            },
            11 => {
                self.text_mid_point.x = pair.assert_f64()?;
            },
            21 => {
                self.text_mid_point.y = pair.assert_f64()?;
            },
            31 => {
                self.text_mid_point.z = pair.assert_f64()?;
            },
            41 => {
                self.text_line_spacing_factor = pair.assert_f64()?;
            },
            42 => {
                self.actual_measurement = pair.assert_f64()?;
            },
            51 => {
                self.horizontal_direction_angle = pair.assert_f64()?;
            },
            53 => {
                self.text_rotation_angle = pair.assert_f64()?;
            },
            71 => {
                let v = pair.assert_i16()?;
                match AttachmentPoint::from_i16(v) {
                    Some(m) => {
                        self.attachment_point = m;
                    },
                    None => {
                        return Err(DxfError::UnexpectedEnumValue(v as i32));
                    },
                }
            },
            72 => {
                let v = pair.assert_i16()?;
                match TextLineSpacingStyle::from_i16(v) {
                    Some(m) => {
                        self.text_line_spacing_style = m;
                    },
                    None => {
                        return Err(DxfError::UnexpectedEnumValue(v as i32));
                    },
                }
            },
            210 => {
                self.normal.x = pair.assert_f64()?;
            },
            220 => {
                self.normal.y = pair.assert_f64()?;
            },
            230 => {
                self.normal.z = pair.assert_f64()?;
            },
            280 => {
                let v = pair.assert_i16()?;
                match Version::from_i16(v) {
                    Some(m) => {
                        self.version = m;
                    },
                    None => {
                        return Err(DxfError::UnexpectedEnumValue(v as i32));
                    },
                }
            },
            70 => {
                let v = pair.assert_i16()?;
                self.set_dimension_type(v)?;
            },
            _ => {
                return Ok(false);
            },
        }
        Ok(true)
    }
}

/// A linear dimension, rotated or aligned.
#[derive(Clone, Debug, PartialEq)]
pub struct RotatedDimension {
    pub dimension_base: DimensionBase,
    pub insertion_point: Point,
    pub definition_point_2: Point,
    pub definition_point_3: Point,
    pub rotation_angle: u64,
    pub extension_line_angle: u64,
}

pub struct RotatedDimensionView {
    pub dimension_base: DimensionBaseView,
    pub insertion_point: Point,
    pub definition_point_2: Point,
    pub definition_point_3: Point,
    pub rotation_angle: u64,
    pub extension_line_angle: u64,
}

impl View for RotatedDimension {
    type V = RotatedDimensionView;

    open spec fn view(&self) -> RotatedDimensionView {
        RotatedDimensionView {
            dimension_base: self.dimension_base@,
            insertion_point: self.insertion_point,
            definition_point_2: self.definition_point_2,
            definition_point_3: self.definition_point_3,
            rotation_angle: self.rotation_angle,
            extension_line_angle: self.extension_line_angle,
        }
    }
}

impl RotatedDimension {
    /// A value with the given `dimension_base` and every other field at its default.
    pub open spec fn default_view_with(b: DimensionBaseView) -> RotatedDimensionView {
        RotatedDimensionView {
            dimension_base: b,
            insertion_point: Point { x: 0, y: 0, z: 0 },
            definition_point_2: Point { x: 0, y: 0, z: 0 },
            definition_point_3: Point { x: 0, y: 0, z: 0 },
            rotation_angle: 0,
            extension_line_angle: 0,
        }
    }

    pub fn with_dimension_base(b: DimensionBase) -> (r: RotatedDimension)
        ensures
            r@ == RotatedDimension::default_view_with(b@),
    {
        let r = RotatedDimension {
            dimension_base: b,
            insertion_point: Point::new(0, 0, 0),
            definition_point_2: Point::new(0, 0, 0),
            definition_point_3: Point::new(0, 0, 0),
            rotation_angle: 0,
            extension_line_angle: 0,
        };
        r
    }
}

/// What a pair does to a rotated dimension once its kind is known.
pub open spec fn rotated_dimension_pair_step(d: RotatedDimensionView, pair: CodePair) -> Result<Option<RotatedDimensionView>, DxfError> {
    match pair.code {
        12 => match pair.f64_value() {
            Ok(v) => Ok(Some(RotatedDimensionView { insertion_point: Point { x: v, ..d.insertion_point }, ..d })),
            Err(e) => Err(e),
        },
        22 => match pair.f64_value() {
            Ok(v) => Ok(Some(RotatedDimensionView { insertion_point: Point { y: v, ..d.insertion_point }, ..d })),
            Err(e) => Err(e),
        },
        32 => match pair.f64_value() {
            Ok(v) => Ok(Some(RotatedDimensionView { insertion_point: Point { z: v, ..d.insertion_point }, ..d })),
            Err(e) => Err(e),
        },
        13 => match pair.f64_value() {
            Ok(v) => Ok(Some(RotatedDimensionView { definition_point_2: Point { x: v, ..d.definition_point_2 }, ..d })),
            Err(e) => Err(e),
        },
        23 => match pair.f64_value() {
            Ok(v) => Ok(Some(RotatedDimensionView { definition_point_2: Point { y: v, ..d.definition_point_2 }, ..d })),
            Err(e) => Err(e),
        },
        33 => match pair.f64_value() {
            Ok(v) => Ok(Some(RotatedDimensionView { definition_point_2: Point { z: v, ..d.definition_point_2 }, ..d })),
            Err(e) => Err(e),
        },
        14 => match pair.f64_value() {
            Ok(v) => Ok(Some(RotatedDimensionView { definition_point_3: Point { x: v, ..d.definition_point_3 }, ..d })),
            Err(e) => Err(e),
        },
        24 => match pair.f64_value() {
            Ok(v) => Ok(Some(RotatedDimensionView { definition_point_3: Point { y: v, ..d.definition_point_3 }, ..d })),
            Err(e) => Err(e),
        },
        34 => match pair.f64_value() {
            Ok(v) => Ok(Some(RotatedDimensionView { definition_point_3: Point { z: v, ..d.definition_point_3 }, ..d })),
            Err(e) => Err(e),
        },
        50 => match pair.f64_value() {
            Ok(v) => Ok(Some(RotatedDimensionView { rotation_angle: v, ..d })),
            Err(e) => Err(e),
        },
        52 => match pair.f64_value() {
            Ok(v) => Ok(Some(RotatedDimensionView { extension_line_angle: v, ..d })),
            Err(e) => Err(e),
        },
        _ => Ok(None),
    }
}

impl RotatedDimension {
    /// Applies a pair that carries a field of this entity kind; reports whether it did.
    pub fn apply_code_pair(&mut self, pair: &CodePair) -> (r: Result<bool, DxfError>)
        ensures
            rotated_dimension_pair_step(old(self)@, *pair) == claimed(r, final(self)@),
            r == Ok::<bool, DxfError>(false) ==> final(self)@ == old(self)@,
    {
        match pair.code {
            12 => {
                self.insertion_point.x = pair.assert_f64()?;
            },
            22 => {
                self.insertion_point.y = pair.assert_f64()?;
            },
            32 => {
                self.insertion_point.z = pair.assert_f64()?;
            },
            13 => {
                self.definition_point_2.x = pair.assert_f64()?;
            },
            23 => {
                self.definition_point_2.y = pair.assert_f64()?;
            },
            33 => {
                self.definition_point_2.z = pair.assert_f64()?;
            },
            14 => {
                self.definition_point_3.x = pair.assert_f64()?;
            },
            24 => {
                self.definition_point_3.y = pair.assert_f64()?;
            },
            34 => {
                self.definition_point_3.z = pair.assert_f64()?;
            },
            50 => {
                self.rotation_angle = pair.assert_f64()?;
            },
            52 => {
                self.extension_line_angle = pair.assert_f64()?;
            },
            _ => {
                return Ok(false);
            },
        }
        Ok(true)
    }
}

/// A radius dimension.
#[derive(Clone, Debug, PartialEq)]
pub struct RadialDimension {
    pub dimension_base: DimensionBase,
    pub definition_point_2: Point,
    pub leader_length: u64,
}

pub struct RadialDimensionView {
    pub dimension_base: DimensionBaseView,
    pub definition_point_2: Point,
    pub leader_length: u64,
}

impl View for RadialDimension {
    type V = RadialDimensionView;

    open spec fn view(&self) -> RadialDimensionView {
        RadialDimensionView {
            dimension_base: self.dimension_base@,
            definition_point_2: self.definition_point_2,
            leader_length: self.leader_length,
        }
    }
}

impl RadialDimension {
    /// A value with the given `dimension_base` and every other field at its default.
    pub open spec fn default_view_with(b: DimensionBaseView) -> RadialDimensionView {
        RadialDimensionView {
            dimension_base: b,
            definition_point_2: Point { x: 0, y: 0, z: 0 },
            leader_length: 0,
        }
    }

    pub fn with_dimension_base(b: DimensionBase) -> (r: RadialDimension)
        ensures
            r@ == RadialDimension::default_view_with(b@),
    {
        let r = RadialDimension {
            dimension_base: b,
            definition_point_2: Point::new(0, 0, 0),
            leader_length: 0,
        };
        r
    }
}

/// What a pair does to a radial dimension once its kind is known.
pub open spec fn radial_dimension_pair_step(d: RadialDimensionView, pair: CodePair) -> Result<Option<RadialDimensionView>, DxfError> {
    match pair.code {
        15 => match pair.f64_value() {
            Ok(v) => Ok(Some(RadialDimensionView { definition_point_2: Point { x: v, ..d.definition_point_2 }, ..d })),
            Err(e) => Err(e),
        },
        25 => match pair.f64_value() {
            Ok(v) => Ok(Some(RadialDimensionView { definition_point_2: Point { y: v, ..d.definition_point_2 }, ..d })),
            Err(e) => Err(e),
        },
        35 => match pair.f64_value() {
            Ok(v) => Ok(Some(RadialDimensionView { definition_point_2: Point { z: v, ..d.definition_point_2 }, ..d })),
            Err(e) => Err(e),
        },
        40 => match pair.f64_value() {
            Ok(v) => Ok(Some(RadialDimensionView { leader_length: v, ..d })),
            Err(e) => Err(e),
        },
        _ => Ok(None),
    }
}

impl RadialDimension {
    /// Applies a pair that carries a field of this entity kind; reports whether it did.
    pub fn apply_code_pair(&mut self, pair: &CodePair) -> (r: Result<bool, DxfError>)
        ensures
            radial_dimension_pair_step(old(self)@, *pair) == claimed(r, final(self)@),
            r == Ok::<bool, DxfError>(false) ==> final(self)@ == old(self)@,
    {
        match pair.code {
            15 => {
                self.definition_point_2.x = pair.assert_f64()?;
            },
            25 => {
                self.definition_point_2.y = pair.assert_f64()?;
            },
            35 => {
                self.definition_point_2.z = pair.assert_f64()?;
            },
            40 => {
                self.leader_length = pair.assert_f64()?;
            },
            _ => {
                return Ok(false);
            },
        }
        Ok(true)
    }
}

/// A diameter dimension.
#[derive(Clone, Debug, PartialEq)]
pub struct DiameterDimension {
    pub dimension_base: DimensionBase,
    pub definition_point_2: Point,
    pub leader_length: u64,
}

pub struct DiameterDimensionView {
    pub dimension_base: DimensionBaseView,
    pub definition_point_2: Point,
    pub leader_length: u64,
}

impl View for DiameterDimension {
    type V = DiameterDimensionView;

    open spec fn view(&self) -> DiameterDimensionView {
        DiameterDimensionView {
            dimension_base: self.dimension_base@,
            definition_point_2: self.definition_point_2,
            leader_length: self.leader_length,
        }
    }
}

impl DiameterDimension {
    /// A value with the given `dimension_base` and every other field at its default.
    pub open spec fn default_view_with(b: DimensionBaseView) -> DiameterDimensionView {
        DiameterDimensionView {
            dimension_base: b,
            definition_point_2: Point { x: 0, y: 0, z: 0 },
            leader_length: 0,
        }
    }

    pub fn with_dimension_base(b: DimensionBase) -> (r: DiameterDimension)
        ensures
            r@ == DiameterDimension::default_view_with(b@),
    {
        let r = DiameterDimension {
            dimension_base: b,
            definition_point_2: Point::new(0, 0, 0),
            leader_length: 0,
        };
        r
    }
}

/// What a pair does to a diameter dimension once its kind is known.
pub open spec fn diameter_dimension_pair_step(d: DiameterDimensionView, pair: CodePair) -> Result<Option<DiameterDimensionView>, DxfError> {
    match pair.code {
        15 => match pair.f64_value() {
            Ok(v) => Ok(Some(DiameterDimensionView { definition_point_2: Point { x: v, ..d.definition_point_2 }, ..d })),
            Err(e) => Err(e),
        },
        25 => match pair.f64_value() {
            Ok(v) => Ok(Some(DiameterDimensionView { definition_point_2: Point { y: v, ..d.definition_point_2 }, ..d })),
            Err(e) => Err(e),
        },
        35 => match pair.f64_value() {
            Ok(v) => Ok(Some(DiameterDimensionView { definition_point_2: Point { z: v, ..d.definition_point_2 }, ..d })),
            Err(e) => Err(e),
        },
        40 => match pair.f64_value() {
            Ok(v) => Ok(Some(DiameterDimensionView { leader_length: v, ..d })),
            Err(e) => Err(e),
        },
        _ => Ok(None),
    }
}

impl DiameterDimension {
    /// Applies a pair that carries a field of this entity kind; reports whether it did.
    pub fn apply_code_pair(&mut self, pair: &CodePair) -> (r: Result<bool, DxfError>)
        ensures
            diameter_dimension_pair_step(old(self)@, *pair) == claimed(r, final(self)@),
            r == Ok::<bool, DxfError>(false) ==> final(self)@ == old(self)@,
    {
        match pair.code {
            15 => {
                self.definition_point_2.x = pair.assert_f64()?;
            },
            25 => {
                self.definition_point_2.y = pair.assert_f64()?;
            },
            35 => {
                self.definition_point_2.z = pair.assert_f64()?;
            },
            40 => {
                self.leader_length = pair.assert_f64()?;
            },
            _ => {
                return Ok(false);
            },
        }
        Ok(true)
    }
}

/// An angular dimension given by three points.
#[derive(Clone, Debug, PartialEq)]
pub struct AngularThreePointDimension {
    pub dimension_base: DimensionBase,
    pub definition_point_2: Point,
    pub definition_point_3: Point,
    pub definition_point_4: Point,
    pub definition_point_5: Point,
}

pub struct AngularThreePointDimensionView {
    pub dimension_base: DimensionBaseView,
    pub definition_point_2: Point,
    pub definition_point_3: Point,
    pub definition_point_4: Point,
    pub definition_point_5: Point,
}

impl View for AngularThreePointDimension {
    type V = AngularThreePointDimensionView;

    open spec fn view(&self) -> AngularThreePointDimensionView {
        AngularThreePointDimensionView {
            dimension_base: self.dimension_base@,
            definition_point_2: self.definition_point_2,
            definition_point_3: self.definition_point_3,
            definition_point_4: self.definition_point_4,
            definition_point_5: self.definition_point_5,
        }
    }
}

impl AngularThreePointDimension {
    /// A value with the given `dimension_base` and every other field at its default.
    pub open spec fn default_view_with(b: DimensionBaseView) -> AngularThreePointDimensionView {
        AngularThreePointDimensionView {
            dimension_base: b,
            definition_point_2: Point { x: 0, y: 0, z: 0 },
            definition_point_3: Point { x: 0, y: 0, z: 0 },
            definition_point_4: Point { x: 0, y: 0, z: 0 },
            definition_point_5: Point { x: 0, y: 0, z: 0 },
        }
    }

    pub fn with_dimension_base(b: DimensionBase) -> (r: AngularThreePointDimension)
        ensures
            r@ == AngularThreePointDimension::default_view_with(b@),
    {
        let r = AngularThreePointDimension {
            dimension_base: b,
            definition_point_2: Point::new(0, 0, 0),
            definition_point_3: Point::new(0, 0, 0),
            definition_point_4: Point::new(0, 0, 0),
            definition_point_5: Point::new(0, 0, 0),
        };
        r
    }
}

/// What a pair does to a angular three point dimension once its kind is known.
pub open spec fn angular_three_point_dimension_pair_step(d: AngularThreePointDimensionView, pair: CodePair) -> Result<Option<AngularThreePointDimensionView>, DxfError> {
    match pair.code {
        13 => match pair.f64_value() {
            Ok(v) => Ok(Some(AngularThreePointDimensionView { definition_point_2: Point { x: v, ..d.definition_point_2 }, ..d })),
            Err(e) => Err(e),
        },
        23 => match pair.f64_value() {
            Ok(v) => Ok(Some(AngularThreePointDimensionView { definition_point_2: Point { y: v, ..d.definition_point_2 }, ..d })),
            Err(e) => Err(e),
        },
        33 => match pair.f64_value() {
            Ok(v) => Ok(Some(AngularThreePointDimensionView { definition_point_2: Point { z: v, ..d.definition_point_2 }, ..d })),
            Err(e) => Err(e),
        },
        14 => match pair.f64_value() {
            Ok(v) => Ok(Some(AngularThreePointDimensionView { definition_point_3: Point { x: v, ..d.definition_point_3 }, ..d })),
            Err(e) => Err(e),
        },
        24 => match pair.f64_value() {
            Ok(v) => Ok(Some(AngularThreePointDimensionView { definition_point_3: Point { y: v, ..d.definition_point_3 }, ..d })),
            Err(e) => Err(e),
        },
        34 => match pair.f64_value() {
            Ok(v) => Ok(Some(AngularThreePointDimensionView { definition_point_3: Point { z: v, ..d.definition_point_3 }, ..d })),
            Err(e) => Err(e),
        },
        15 => match pair.f64_value() {
            Ok(v) => Ok(Some(AngularThreePointDimensionView { definition_point_4: Point { x: v, ..d.definition_point_4 }, ..d })),
            Err(e) => Err(e),
        },
        25 => match pair.f64_value() {
            Ok(v) => Ok(Some(AngularThreePointDimensionView { definition_point_4: Point { y: v, ..d.definition_point_4 }, ..d })),
            Err(e) => Err(e),
        },
        35 => match pair.f64_value() {
            Ok(v) => Ok(Some(AngularThreePointDimensionView { definition_point_4: Point { z: v, ..d.definition_point_4 }, ..d })),
            Err(e) => Err(e),
        },
        16 => match pair.f64_value() {
            Ok(v) => Ok(Some(AngularThreePointDimensionView { definition_point_5: Point { x: v, ..d.definition_point_5 }, ..d })),
            Err(e) => Err(e),
        },
        26 => match pair.f64_value() {
            Ok(v) => Ok(Some(AngularThreePointDimensionView { definition_point_5: Point { y: v, ..d.definition_point_5 }, ..d })),
            Err(e) => Err(e),
        },
        36 => match pair.f64_value() {
            Ok(v) => Ok(Some(AngularThreePointDimensionView { definition_point_5: Point { z: v, ..d.definition_point_5 }, ..d })),
            Err(e) => Err(e),
        },
        _ => Ok(None),
    }
}

impl AngularThreePointDimension {
    /// Applies a pair that carries a field of this entity kind; reports whether it did.
    pub fn apply_code_pair(&mut self, pair: &CodePair) -> (r: Result<bool, DxfError>)
        ensures
            angular_three_point_dimension_pair_step(old(self)@, *pair) == claimed(r, final(self)@),
            r == Ok::<bool, DxfError>(false) ==> final(self)@ == old(self)@,
    {
        match pair.code {
            13 => {
                self.definition_point_2.x = pair.assert_f64()?;
            },
            23 => {
                self.definition_point_2.y = pair.assert_f64()?;
            },
            33 => {
                self.definition_point_2.z = pair.assert_f64()?;
            },
            14 => {
                self.definition_point_3.x = pair.assert_f64()?;
            },
            24 => {
                self.definition_point_3.y = pair.assert_f64()?;
            },
            34 => {
                self.definition_point_3.z = pair.assert_f64()?;
            },
            15 => {
                self.definition_point_4.x = pair.assert_f64()?;
            },
            25 => {
                self.definition_point_4.y = pair.assert_f64()?;
            },
            35 => {
                self.definition_point_4.z = pair.assert_f64()?;
            },
            16 => {
                self.definition_point_5.x = pair.assert_f64()?;
            },
            26 => {
                self.definition_point_5.y = pair.assert_f64()?;
            },
            36 => {
                self.definition_point_5.z = pair.assert_f64()?;
            },
            _ => {
                return Ok(false);
            },
        }
        Ok(true)
    }
}

/// An ordinate dimension.
#[derive(Clone, Debug, PartialEq)]
pub struct OrdinateDimension {
    pub dimension_base: DimensionBase,
    pub definition_point_2: Point,
    pub definition_point_3: Point,
}

pub struct OrdinateDimensionView {
    pub dimension_base: DimensionBaseView,
    pub definition_point_2: Point,
    pub definition_point_3: Point,
}

impl View for OrdinateDimension {
    type V = OrdinateDimensionView;

    open spec fn view(&self) -> OrdinateDimensionView {
        OrdinateDimensionView {
            dimension_base: self.dimension_base@,
            definition_point_2: self.definition_point_2,
            definition_point_3: self.definition_point_3,
        }
    }
}

impl OrdinateDimension {
    /// A value with the given `dimension_base` and every other field at its default.
    pub open spec fn default_view_with(b: DimensionBaseView) -> OrdinateDimensionView {
        OrdinateDimensionView {
            dimension_base: b,
            definition_point_2: Point { x: 0, y: 0, z: 0 },
            definition_point_3: Point { x: 0, y: 0, z: 0 },
        }
    }

    pub fn with_dimension_base(b: DimensionBase) -> (r: OrdinateDimension)
        ensures
            r@ == OrdinateDimension::default_view_with(b@),
    {
        let r = OrdinateDimension {
            dimension_base: b,
            definition_point_2: Point::new(0, 0, 0),
            definition_point_3: Point::new(0, 0, 0),
        };
        r
    }
}

/// What a pair does to a ordinate dimension once its kind is known.
pub open spec fn ordinate_dimension_pair_step(d: OrdinateDimensionView, pair: CodePair) -> Result<Option<OrdinateDimensionView>, DxfError> {
    match pair.code {
        13 => match pair.f64_value() {
            Ok(v) => Ok(Some(OrdinateDimensionView { definition_point_2: Point { x: v, ..d.definition_point_2 }, ..d })),
            Err(e) => Err(e),
        },
        23 => match pair.f64_value() {
            Ok(v) => Ok(Some(OrdinateDimensionView { definition_point_2: Point { y: v, ..d.definition_point_2 }, ..d })),
            Err(e) => Err(e),
        },
        33 => match pair.f64_value() {
            Ok(v) => Ok(Some(OrdinateDimensionView { definition_point_2: Point { z: v, ..d.definition_point_2 }, ..d })),
            Err(e) => Err(e),
        },
        14 => match pair.f64_value() {
            Ok(v) => Ok(Some(OrdinateDimensionView { definition_point_3: Point { x: v, ..d.definition_point_3 }, ..d })),
            Err(e) => Err(e),
        },
        24 => match pair.f64_value() {
            Ok(v) => Ok(Some(OrdinateDimensionView { definition_point_3: Point { y: v, ..d.definition_point_3 }, ..d })),
            Err(e) => Err(e),
        },
        34 => match pair.f64_value() {
            Ok(v) => Ok(Some(OrdinateDimensionView { definition_point_3: Point { z: v, ..d.definition_point_3 }, ..d })),
            Err(e) => Err(e),
        },
        _ => Ok(None),
    }
}

impl OrdinateDimension {
    /// Applies a pair that carries a field of this entity kind; reports whether it did.
    pub fn apply_code_pair(&mut self, pair: &CodePair) -> (r: Result<bool, DxfError>)
        ensures
            ordinate_dimension_pair_step(old(self)@, *pair) == claimed(r, final(self)@),
            r == Ok::<bool, DxfError>(false) ==> final(self)@ == old(self)@,
    {
        match pair.code {
            13 => {
                self.definition_point_2.x = pair.assert_f64()?;
            },
            23 => {
                self.definition_point_2.y = pair.assert_f64()?;
            },
            33 => {
                self.definition_point_2.z = pair.assert_f64()?;
            },
            14 => {
                self.definition_point_3.x = pair.assert_f64()?;
            },
            24 => {
                self.definition_point_3.y = pair.assert_f64()?;
            },
            34 => {
                self.definition_point_3.z = pair.assert_f64()?;
            },
            _ => {
                return Ok(false);
            },
        }
        Ok(true)
    }
}

/// Part 1 of the pairs of `dimension_base_pairs`.
pub open spec fn dimension_base_pairs_1(d: DimensionBaseView, version: AcadVersion) -> Seq<PairView> {
    (if version.rank() >= AcadVersion::R13.rank() {
        seq![str_pair(100, "AcDbDimension"@)]
    } else {
        Seq::empty()
    })
    + (if version.rank() >= AcadVersion::R2010.rank() {
        seq![i16_pair(280, d.version.code() as i16)]
    } else {
        Seq::empty()
    })
    + seq![str_pair(2, d.block_name)]
    + xyz_pairs(10, d.definition_point_1.x, d.definition_point_1.y, d.definition_point_1.z)
    + xyz_pairs(11, d.text_mid_point.x, d.text_mid_point.y, d.text_mid_point.z)
    + seq![i16_pair(70, dimension_type_code(d))]
    + (if version.rank() >= AcadVersion::R2000.rank() {
        seq![i16_pair(71, d.attachment_point.code() as i16)]
    } else {
        Seq::empty()
    })
}

impl DimensionBase {
    /// Writes the fields of `dimension_base_pairs_1`.
    fn write_fields_1(&self, version: AcadVersion, out: &mut Vec<CodePair>)
        ensures
            pairs_view(final(out)@) == pairs_view(old(out)@) + dimension_base_pairs_1(self@, version),
    {
        let ghost start = pairs_view(out@);
        let ghost mut acc: Seq<PairView> = Seq::empty();
        if version.at_least(AcadVersion::R13) {
            emit(out, CodePair::new_str(100, String::from_str("AcDbDimension")));
        }
        proof {
            acc = (if version.rank() >= AcadVersion::R13.rank() {
                seq![str_pair(100, "AcDbDimension"@)]
            } else {
                Seq::empty()
            });
        }
        assert(pairs_view(out@) =~= start + acc);
        if version.at_least(AcadVersion::R2010) {
            emit(out, CodePair::new_i16(280, self.version.to_i16()));
        }
        proof {
            acc = acc + (if version.rank() >= AcadVersion::R2010.rank() {
                seq![i16_pair(280, self@.version.code() as i16)]
            } else {
                Seq::empty()
            });
        }
        assert(pairs_view(out@) =~= start + acc);
        emit(out, CodePair::new_str(2, self.block_name.clone()));
        proof {
            acc = acc + seq![str_pair(2, self@.block_name)];
        }
        assert(pairs_view(out@) =~= start + acc);
        emit_xyz(out, 10, self.definition_point_1.x, self.definition_point_1.y, self.definition_point_1.z);
        proof {
            acc = acc + xyz_pairs(10, self@.definition_point_1.x, self@.definition_point_1.y, self@.definition_point_1.z);
        }
        assert(pairs_view(out@) =~= start + acc);
        emit_xyz(out, 11, self.text_mid_point.x, self.text_mid_point.y, self.text_mid_point.z);
        proof {
            acc = acc + xyz_pairs(11, self@.text_mid_point.x, self@.text_mid_point.y, self@.text_mid_point.z);
        }
        assert(pairs_view(out@) =~= start + acc);
        emit(out, CodePair::new_i16(70, self.get_dimension_type()));
        proof {
            acc = acc + seq![i16_pair(70, dimension_type_code(self@))];
        }
        assert(pairs_view(out@) =~= start + acc);
        if version.at_least(AcadVersion::R2000) {
            emit(out, CodePair::new_i16(71, self.attachment_point.to_i16()));
        }
        proof {
            acc = acc + (if version.rank() >= AcadVersion::R2000.rank() {
                seq![i16_pair(71, self@.attachment_point.code() as i16)]
            } else {
                Seq::empty()
            });
        }
        assert(pairs_view(out@) =~= start + acc);
        assert(acc == dimension_base_pairs_1(self@, version));
    }
}

/// Part 2 of the pairs of `dimension_base_pairs`.
pub open spec fn dimension_base_pairs_2(d: DimensionBaseView, version: AcadVersion) -> Seq<PairView> {
    (if version.rank() >= AcadVersion::R2000.rank() {
        seq![i16_pair(72, d.text_line_spacing_style.code() as i16)]
    } else {
        Seq::empty()
    })
    + (if version.rank() >= AcadVersion::R2000.rank() {
        seq![f64_pair(41, d.text_line_spacing_factor)]
    } else {
        Seq::empty()
    })
    + (if version.rank() >= AcadVersion::R2000.rank() {
        seq![f64_pair(42, d.actual_measurement)]
    } else {
        Seq::empty()
    })
    + seq![str_pair(1, d.text)]
    + seq![f64_pair(53, d.text_rotation_angle)]
    + seq![f64_pair(51, d.horizontal_direction_angle)]
    + xyz_pairs(210, d.normal.x, d.normal.y, d.normal.z)
}

impl DimensionBase {
    /// Writes the fields of `dimension_base_pairs_2`.
    fn write_fields_2(&self, version: AcadVersion, out: &mut Vec<CodePair>)
        ensures
            pairs_view(final(out)@) == pairs_view(old(out)@) + dimension_base_pairs_2(self@, version),
    {
        let ghost start = pairs_view(out@);
        let ghost mut acc: Seq<PairView> = Seq::empty();
        if version.at_least(AcadVersion::R2000) {
            emit(out, CodePair::new_i16(72, self.text_line_spacing_style.to_i16()));
        }
        proof {
            acc = (if version.rank() >= AcadVersion::R2000.rank() {
                seq![i16_pair(72, self@.text_line_spacing_style.code() as i16)]
            } else {
                Seq::empty()
            });
        }
        assert(pairs_view(out@) =~= start + acc);
        if version.at_least(AcadVersion::R2000) {
            emit(out, CodePair::new_f64(41, self.text_line_spacing_factor));
        }
        proof {
            acc = acc + (if version.rank() >= AcadVersion::R2000.rank() {
                seq![f64_pair(41, self@.text_line_spacing_factor)]
            } else {
                Seq::empty()
            });
        }
        assert(pairs_view(out@) =~= start + acc);
        if version.at_least(AcadVersion::R2000) {
            emit(out, CodePair::new_f64(42, self.actual_measurement));
        }
        proof {
            acc = acc + (if version.rank() >= AcadVersion::R2000.rank() {
                seq![f64_pair(42, self@.actual_measurement)]
            } else {
                Seq::empty()
            });
        }
        assert(pairs_view(out@) =~= start + acc);
        emit(out, CodePair::new_str(1, self.text.clone()));
        proof {
            acc = acc + seq![str_pair(1, self@.text)];
        }
        assert(pairs_view(out@) =~= start + acc);
        emit(out, CodePair::new_f64(53, self.text_rotation_angle));
        proof {
            acc = acc + seq![f64_pair(53, self@.text_rotation_angle)];
        }
        assert(pairs_view(out@) =~= start + acc);
        emit(out, CodePair::new_f64(51, self.horizontal_direction_angle));
        proof {
            acc = acc + seq![f64_pair(51, self@.horizontal_direction_angle)];
        }
        assert(pairs_view(out@) =~= start + acc);
        emit_xyz(out, 210, self.normal.x, self.normal.y, self.normal.z);
        proof {
            acc = acc + xyz_pairs(210, self@.normal.x, self@.normal.y, self@.normal.z);
        }
        assert(pairs_view(out@) =~= start + acc);
        assert(acc == dimension_base_pairs_2(self@, version));
    }
}

/// Part 3 of the pairs of `dimension_base_pairs`.
pub open spec fn dimension_base_pairs_3(d: DimensionBaseView, version: AcadVersion) -> Seq<PairView> {
    seq![str_pair(3, d.dimension_style_name)]
}

impl DimensionBase {
    /// Writes the fields of `dimension_base_pairs_3`.
    fn write_fields_3(&self, version: AcadVersion, out: &mut Vec<CodePair>)
        ensures
            pairs_view(final(out)@) == pairs_view(old(out)@) + dimension_base_pairs_3(self@, version),
    {
        let ghost start = pairs_view(out@);
        let ghost mut acc: Seq<PairView> = Seq::empty();
        emit(out, CodePair::new_str(3, self.dimension_style_name.clone()));
        proof {
            acc = seq![str_pair(3, self@.dimension_style_name)];
        }
        assert(pairs_view(out@) =~= start + acc);
        assert(acc == dimension_base_pairs_3(self@, version));
    }
}

/// The pairs of a dimension base; some fields exist only from a given release on.
pub open spec fn dimension_base_pairs(d: DimensionBaseView, version: AcadVersion) -> Seq<PairView> {
    dimension_base_pairs_1(d, version)
    + dimension_base_pairs_2(d, version)
    + dimension_base_pairs_3(d, version)
}

impl DimensionBase {
    /// Writes the fields of this entity kind.
    pub fn write_fields(&self, version: AcadVersion, out: &mut Vec<CodePair>)
        ensures
            pairs_view(final(out)@) == pairs_view(old(out)@) + dimension_base_pairs(self@, version),
    {
        let ghost start = pairs_view(out@);
        self.write_fields_1(version, out);
        self.write_fields_2(version, out);
        self.write_fields_3(version, out);
        assert(pairs_view(out@) =~= start + (dimension_base_pairs_1(self@, version) + dimension_base_pairs_2(self@, version) + dimension_base_pairs_3(self@, version)));
    }
}

/// The pairs of a rotated dimension: base block, subclass marker, own fields.
pub open spec fn rotated_dimension_pairs(d: RotatedDimensionView, version: AcadVersion) -> Seq<PairView> {
    dimension_base_pairs(d.dimension_base, version)
    + (if version.rank() >= AcadVersion::R13.rank() {
        seq![str_pair(100, "AcDbAlignedDimension"@)]
    } else {
        Seq::empty()
    })
    + xyz_pairs(12, d.insertion_point.x, d.insertion_point.y, d.insertion_point.z)
    + xyz_pairs(13, d.definition_point_2.x, d.definition_point_2.y, d.definition_point_2.z)
    + xyz_pairs(14, d.definition_point_3.x, d.definition_point_3.y, d.definition_point_3.z)
    + seq![f64_pair(50, d.rotation_angle)]
    + seq![f64_pair(52, d.extension_line_angle)]
    + (if version.rank() >= AcadVersion::R13.rank() {
        seq![str_pair(100, "AcDbRotatedDimension"@)]
    } else {
        Seq::empty()
    })
}

impl RotatedDimension {
    /// Writes the fields of `rotated_dimension_pairs`.
    pub fn write_fields(&self, version: AcadVersion, out: &mut Vec<CodePair>)
        ensures
            pairs_view(final(out)@) == pairs_view(old(out)@) + rotated_dimension_pairs(self@, version),
    {
        let ghost start = pairs_view(out@);
        let ghost mut acc: Seq<PairView> = Seq::empty();
        self.dimension_base.write_fields(version, out);
        proof {
            acc = dimension_base_pairs(self@.dimension_base, version);
        }
        assert(pairs_view(out@) =~= start + acc);
        if version.at_least(AcadVersion::R13) {
            emit(out, CodePair::new_str(100, String::from_str("AcDbAlignedDimension")));
        }
        proof {
            acc = acc + (if version.rank() >= AcadVersion::R13.rank() {
                seq![str_pair(100, "AcDbAlignedDimension"@)]
            } else {
                Seq::empty()
            });
        }
        assert(pairs_view(out@) =~= start + acc);
        emit_xyz(out, 12, self.insertion_point.x, self.insertion_point.y, self.insertion_point.z);
        proof {
            acc = acc + xyz_pairs(12, self@.insertion_point.x, self@.insertion_point.y, self@.insertion_point.z);
        }
        assert(pairs_view(out@) =~= start + acc);
        emit_xyz(out, 13, self.definition_point_2.x, self.definition_point_2.y, self.definition_point_2.z);
        proof {
            acc = acc + xyz_pairs(13, self@.definition_point_2.x, self@.definition_point_2.y, self@.definition_point_2.z);
        }
        assert(pairs_view(out@) =~= start + acc);
        emit_xyz(out, 14, self.definition_point_3.x, self.definition_point_3.y, self.definition_point_3.z);
        proof {
            acc = acc + xyz_pairs(14, self@.definition_point_3.x, self@.definition_point_3.y, self@.definition_point_3.z);
        }
        assert(pairs_view(out@) =~= start + acc);
        emit(out, CodePair::new_f64(50, self.rotation_angle));
        proof {
            acc = acc + seq![f64_pair(50, self@.rotation_angle)];
        }
        assert(pairs_view(out@) =~= start + acc);
        emit(out, CodePair::new_f64(52, self.extension_line_angle));
        proof {
            acc = acc + seq![f64_pair(52, self@.extension_line_angle)];
        }
        assert(pairs_view(out@) =~= start + acc);
        if version.at_least(AcadVersion::R13) {
            emit(out, CodePair::new_str(100, String::from_str("AcDbRotatedDimension")));
        }
        proof {
            acc = acc + (if version.rank() >= AcadVersion::R13.rank() {
                seq![str_pair(100, "AcDbRotatedDimension"@)]
            } else {
                Seq::empty()
            });
        }
        assert(pairs_view(out@) =~= start + acc);
        assert(acc == rotated_dimension_pairs(self@, version));
    }
}

/// The pairs of a radial dimension: base block, subclass marker, own fields.
pub open spec fn radial_dimension_pairs(d: RadialDimensionView, version: AcadVersion) -> Seq<PairView> {
    dimension_base_pairs(d.dimension_base, version)
    + seq![str_pair(100, "AcDbRadialDimension"@)]
    + xyz_pairs(15, d.definition_point_2.x, d.definition_point_2.y, d.definition_point_2.z)
    + seq![f64_pair(40, d.leader_length)]
}

impl RadialDimension {
    /// Writes the fields of `radial_dimension_pairs`.
    pub fn write_fields(&self, version: AcadVersion, out: &mut Vec<CodePair>)
        ensures
            pairs_view(final(out)@) == pairs_view(old(out)@) + radial_dimension_pairs(self@, version),
    {
        let ghost start = pairs_view(out@);
        let ghost mut acc: Seq<PairView> = Seq::empty();
        self.dimension_base.write_fields(version, out);
        proof {
            acc = dimension_base_pairs(self@.dimension_base, version);
        }
        assert(pairs_view(out@) =~= start + acc);
        emit(out, CodePair::new_str(100, String::from_str("AcDbRadialDimension")));
        proof {
            acc = acc + seq![str_pair(100, "AcDbRadialDimension"@)];
        }
        assert(pairs_view(out@) =~= start + acc);
        emit_xyz(out, 15, self.definition_point_2.x, self.definition_point_2.y, self.definition_point_2.z);
        proof {
            acc = acc + xyz_pairs(15, self@.definition_point_2.x, self@.definition_point_2.y, self@.definition_point_2.z);
        }
        assert(pairs_view(out@) =~= start + acc);
        emit(out, CodePair::new_f64(40, self.leader_length));
        proof {
            acc = acc + seq![f64_pair(40, self@.leader_length)];
        }
        assert(pairs_view(out@) =~= start + acc);
        assert(acc == radial_dimension_pairs(self@, version));
    }
}

/// The pairs of a diameter dimension: base block, subclass marker, own fields.
pub open spec fn diameter_dimension_pairs(d: DiameterDimensionView, version: AcadVersion) -> Seq<PairView> {
    dimension_base_pairs(d.dimension_base, version)
    + seq![str_pair(100, "AcDbDiametricDimension"@)]
    + xyz_pairs(15, d.definition_point_2.x, d.definition_point_2.y, d.definition_point_2.z)
    + seq![f64_pair(40, d.leader_length)]
}

impl DiameterDimension {
    /// Writes the fields of `diameter_dimension_pairs`.
    pub fn write_fields(&self, version: AcadVersion, out: &mut Vec<CodePair>)
        ensures
            pairs_view(final(out)@) == pairs_view(old(out)@) + diameter_dimension_pairs(self@, version),
    {
        let ghost start = pairs_view(out@);
        let ghost mut acc: Seq<PairView> = Seq::empty();
        self.dimension_base.write_fields(version, out);
        proof {
            acc = dimension_base_pairs(self@.dimension_base, version);
        }
        assert(pairs_view(out@) =~= start + acc);
        emit(out, CodePair::new_str(100, String::from_str("AcDbDiametricDimension")));
        proof {
            acc = acc + seq![str_pair(100, "AcDbDiametricDimension"@)];
        }
        assert(pairs_view(out@) =~= start + acc);
        emit_xyz(out, 15, self.definition_point_2.x, self.definition_point_2.y, self.definition_point_2.z);
        proof {
            acc = acc + xyz_pairs(15, self@.definition_point_2.x, self@.definition_point_2.y, self@.definition_point_2.z);
        }
        assert(pairs_view(out@) =~= start + acc);
        emit(out, CodePair::new_f64(40, self.leader_length));
        proof {
            acc = acc + seq![f64_pair(40, self@.leader_length)];
        }
        assert(pairs_view(out@) =~= start + acc);
        assert(acc == diameter_dimension_pairs(self@, version));
    }
}

/// The pairs of a angular three point dimension: base block, subclass marker, own fields.
pub open spec fn angular_three_point_dimension_pairs(d: AngularThreePointDimensionView, version: AcadVersion) -> Seq<PairView> {
    dimension_base_pairs(d.dimension_base, version)
    + seq![str_pair(100, "AcDb3PointAngularDimension"@)]
    + xyz_pairs(13, d.definition_point_2.x, d.definition_point_2.y, d.definition_point_2.z)
    + xyz_pairs(14, d.definition_point_3.x, d.definition_point_3.y, d.definition_point_3.z)
    + xyz_pairs(15, d.definition_point_4.x, d.definition_point_4.y, d.definition_point_4.z)
    + xyz_pairs(16, d.definition_point_5.x, d.definition_point_5.y, d.definition_point_5.z)
}

impl AngularThreePointDimension {
    /// Writes the fields of `angular_three_point_dimension_pairs`.
    pub fn write_fields(&self, version: AcadVersion, out: &mut Vec<CodePair>)
        ensures
            pairs_view(final(out)@) == pairs_view(old(out)@) + angular_three_point_dimension_pairs(self@, version),
    {
        let ghost start = pairs_view(out@);
        let ghost mut acc: Seq<PairView> = Seq::empty();
        self.dimension_base.write_fields(version, out);
        proof {
            acc = dimension_base_pairs(self@.dimension_base, version);
        }
        assert(pairs_view(out@) =~= start + acc);
        emit(out, CodePair::new_str(100, String::from_str("AcDb3PointAngularDimension")));
        proof {
            acc = acc + seq![str_pair(100, "AcDb3PointAngularDimension"@)];
        }
        assert(pairs_view(out@) =~= start + acc);
        emit_xyz(out, 13, self.definition_point_2.x, self.definition_point_2.y, self.definition_point_2.z);
        proof {
            acc = acc + xyz_pairs(13, self@.definition_point_2.x, self@.definition_point_2.y, self@.definition_point_2.z);
        }
        assert(pairs_view(out@) =~= start + acc);
        emit_xyz(out, 14, self.definition_point_3.x, self.definition_point_3.y, self.definition_point_3.z);
        proof {
            acc = acc + xyz_pairs(14, self@.definition_point_3.x, self@.definition_point_3.y, self@.definition_point_3.z);
        }
        assert(pairs_view(out@) =~= start + acc);
        emit_xyz(out, 15, self.definition_point_4.x, self.definition_point_4.y, self.definition_point_4.z);
        proof {
            acc = acc + xyz_pairs(15, self@.definition_point_4.x, self@.definition_point_4.y, self@.definition_point_4.z);
        }
        assert(pairs_view(out@) =~= start + acc);
        emit_xyz(out, 16, self.definition_point_5.x, self.definition_point_5.y, self.definition_point_5.z);
        proof {
            acc = acc + xyz_pairs(16, self@.definition_point_5.x, self@.definition_point_5.y, self@.definition_point_5.z);
        }
        assert(pairs_view(out@) =~= start + acc);
        assert(acc == angular_three_point_dimension_pairs(self@, version));
    }
}

/// The pairs of a ordinate dimension: base block, subclass marker, own fields.
pub open spec fn ordinate_dimension_pairs(d: OrdinateDimensionView, version: AcadVersion) -> Seq<PairView> {
    dimension_base_pairs(d.dimension_base, version)
    + seq![str_pair(100, "AcDbOrdinateDimension"@)]
    + xyz_pairs(13, d.definition_point_2.x, d.definition_point_2.y, d.definition_point_2.z)
    + xyz_pairs(14, d.definition_point_3.x, d.definition_point_3.y, d.definition_point_3.z)
}

impl OrdinateDimension {
    /// Writes the fields of `ordinate_dimension_pairs`.
    pub fn write_fields(&self, version: AcadVersion, out: &mut Vec<CodePair>)
        ensures
            pairs_view(final(out)@) == pairs_view(old(out)@) + ordinate_dimension_pairs(self@, version),
    {
        let ghost start = pairs_view(out@);
        let ghost mut acc: Seq<PairView> = Seq::empty();
        self.dimension_base.write_fields(version, out);
        proof {
            acc = dimension_base_pairs(self@.dimension_base, version);
        }
        assert(pairs_view(out@) =~= start + acc);
        emit(out, CodePair::new_str(100, String::from_str("AcDbOrdinateDimension")));
        proof {
            acc = acc + seq![str_pair(100, "AcDbOrdinateDimension"@)];
        }
        assert(pairs_view(out@) =~= start + acc);
        emit_xyz(out, 13, self.definition_point_2.x, self.definition_point_2.y, self.definition_point_2.z);
        proof {
            acc = acc + xyz_pairs(13, self@.definition_point_2.x, self@.definition_point_2.y, self@.definition_point_2.z);
        }
        assert(pairs_view(out@) =~= start + acc);
        emit_xyz(out, 14, self.definition_point_3.x, self.definition_point_3.y, self.definition_point_3.z);
        proof {
            acc = acc + xyz_pairs(14, self@.definition_point_3.x, self@.definition_point_3.y, self@.definition_point_3.z);
        }
        assert(pairs_view(out@) =~= start + acc);
        assert(acc == ordinate_dimension_pairs(self@, version));
    }
}

} // verus!
