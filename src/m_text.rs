//! Multi-line text, whose rotation code changes meaning once the column
//! type has been seen.

use vstd::prelude::*;
use crate::code_pair::{
    CodePair, Color, DxfError, PairView, Point, Vector, ONE_BITS, pairs_view, emit, emit_xyz,
    emit_strs, str_pair, str_pairs, f64_pair, i16_pair, i32_pair, xyz_pairs, as_bool, as_i16,
};
use crate::common::claimed;
use crate::enums::{AcadVersion, AttachmentPoint, BackgroundFillSetting, DrawingDirection, TextLineSpacingStyle};
use crate::float_bits::{f64_bits_to_i32, truncate_to_i32};

verus! {

/// Multi-line text.
#[derive(Clone, Debug, PartialEq)]
pub struct MText {
    pub insertion_point: Point,
    pub initial_text_height: u64,
    pub reference_rectangle_width: u64,
    pub attachment_point: AttachmentPoint,
    pub drawing_direction: DrawingDirection,
    /// Text that precedes `text`, in order.
    pub extended_text: Vec<String>,
    pub text: String,
    pub text_style_name: String,
    pub extrusion_direction: Vector,
    pub x_axis_direction: Vector,
    pub horizontal_width: u64,
    pub vertical_height: u64,
    pub rotation_angle: u64,
    pub line_spacing_style: TextLineSpacingStyle,
    pub line_spacing_factor: u64,
    pub background_fill_setting: BackgroundFillSetting,
    pub background_color_rgb: i32,
    pub background_color_name: String,
    pub fill_box_scale: u64,
    pub background_fill_color: Color,
    pub background_fill_color_transparency: i32,
    pub column_type: i16,
    pub column_count: i32,
    pub is_column_flow_reversed: bool,
    pub is_column_auto_height: bool,
    pub column_width: u64,
    pub column_gutter: u64,
    /// Heights of the columns, in the order the stream gives them.
    pub column_heights: Vec<u64>,
}

pub struct MTextView {
    pub insertion_point: Point,
    pub initial_text_height: u64,
    pub reference_rectangle_width: u64,
    pub attachment_point: AttachmentPoint,
    pub drawing_direction: DrawingDirection,
    pub extended_text: Seq<Seq<char>>,
    pub text: Seq<char>,
    pub text_style_name: Seq<char>,
    pub extrusion_direction: Vector,
    pub x_axis_direction: Vector,
    pub horizontal_width: u64,
    pub vertical_height: u64,
    pub rotation_angle: u64,
    pub line_spacing_style: TextLineSpacingStyle,
    pub line_spacing_factor: u64,
    pub background_fill_setting: BackgroundFillSetting,
    pub background_color_rgb: i32,
    pub background_color_name: Seq<char>,
    pub fill_box_scale: u64,
    pub background_fill_color: Color,
    pub background_fill_color_transparency: i32,
    pub column_type: i16,
    pub column_count: i32,
    pub is_column_flow_reversed: bool,
    pub is_column_auto_height: bool,
    pub column_width: u64,
    pub column_gutter: u64,
    pub column_heights: Seq<u64>,
}

impl View for MText {
    type V = MTextView;

    open spec fn view(&self) -> MTextView {
        MTextView {
            insertion_point: self.insertion_point,
            initial_text_height: self.initial_text_height,
            reference_rectangle_width: self.reference_rectangle_width,
            attachment_point: self.attachment_point,
            drawing_direction: self.drawing_direction,
            extended_text: self.extended_text@.map_values(|s: String| s@),
            text: self.text@,
            text_style_name: self.text_style_name@,
            extrusion_direction: self.extrusion_direction,
            x_axis_direction: self.x_axis_direction,
            horizontal_width: self.horizontal_width,
            vertical_height: self.vertical_height,
            rotation_angle: self.rotation_angle,
            line_spacing_style: self.line_spacing_style,
            line_spacing_factor: self.line_spacing_factor,
            background_fill_setting: self.background_fill_setting,
            background_color_rgb: self.background_color_rgb,
            background_color_name: self.background_color_name@,
            fill_box_scale: self.fill_box_scale,
            background_fill_color: self.background_fill_color,
            background_fill_color_transparency: self.background_fill_color_transparency,
            column_type: self.column_type,
            column_count: self.column_count,
            is_column_flow_reversed: self.is_column_flow_reversed,
            is_column_auto_height: self.is_column_auto_height,
            column_width: self.column_width,
            column_gutter: self.column_gutter,
            column_heights: self.column_heights@,
        }
    }
}

impl MText {
    /// Every field at its default.
    pub open spec fn default_view() -> MTextView {
        MTextView {
            insertion_point: Point { x: 0, y: 0, z: 0 },
            initial_text_height: ONE_BITS,
            reference_rectangle_width: 0,
            attachment_point: AttachmentPoint::TopLeft,
            drawing_direction: DrawingDirection::LeftToRight,
            extended_text: Seq::<Seq<char>>::empty(),
            text: Seq::<char>::empty(),
            text_style_name: "STANDARD"@,
            extrusion_direction: Vector { x: 0, y: 0, z: ONE_BITS },
            x_axis_direction: Vector { x: ONE_BITS, y: 0, z: 0 },
            horizontal_width: 0,
            vertical_height: 0,
            rotation_angle: 0,
            line_spacing_style: TextLineSpacingStyle::AtLeast,
            line_spacing_factor: ONE_BITS,
            background_fill_setting: BackgroundFillSetting::Off,
            background_color_rgb: 0,
            background_color_name: Seq::<char>::empty(),
            fill_box_scale: ONE_BITS,
            background_fill_color: Color { raw_value: 256 },
            background_fill_color_transparency: 0,
            column_type: 0,
            column_count: 0,
            is_column_flow_reversed: false,
            is_column_auto_height: false,
            column_width: 0,
            column_gutter: 0,
            column_heights: Seq::<u64>::empty(),
        }
    }

    pub fn default_value() -> (r: MText)
        ensures
            r@ == MText::default_view(),
    {
        let r = MText {
            insertion_point: Point::new(0, 0, 0),
            initial_text_height: ONE_BITS,
            reference_rectangle_width: 0,
            attachment_point: AttachmentPoint::TopLeft,
            drawing_direction: DrawingDirection::LeftToRight,
            extended_text: Vec::new(),
            text: String::new(),
            text_style_name: String::from_str("STANDARD"),
            extrusion_direction: Vector::z_axis(),
            x_axis_direction: Vector::new(ONE_BITS, 0, 0),
            horizontal_width: 0,
            vertical_height: 0,
            rotation_angle: 0,
            line_spacing_style: TextLineSpacingStyle::AtLeast,
            line_spacing_factor: ONE_BITS,
            background_fill_setting: BackgroundFillSetting::Off,
            background_color_rgb: 0,
            background_color_name: String::new(),
            fill_box_scale: ONE_BITS,
            background_fill_color: Color::from_raw_value(256),
            background_fill_color_transparency: 0,
            column_type: 0,
            column_count: 0,
            is_column_flow_reversed: false,
            is_column_auto_height: false,
            column_width: 0,
            column_gutter: 0,
            column_heights: Vec::new(),
        };
        assert(r.extended_text@.map_values(|s: String| s@) =~= Seq::<Seq<char>>::empty());
        r
    }
}

/// What a pair with a fixed meaning does to multi-line text.
pub open spec fn m_text_pair_step(d: MTextView, pair: CodePair) -> Result<Option<MTextView>, DxfError> {
    match pair.code {
        10 => match pair.f64_value() {
            Ok(v) => Ok(Some(MTextView { insertion_point: Point { x: v, ..d.insertion_point }, ..d })),
            Err(e) => Err(e),
        },
        20 => match pair.f64_value() {
            Ok(v) => Ok(Some(MTextView { insertion_point: Point { y: v, ..d.insertion_point }, ..d })),
            Err(e) => Err(e),
        },
        30 => match pair.f64_value() {
            Ok(v) => Ok(Some(MTextView { insertion_point: Point { z: v, ..d.insertion_point }, ..d })),
            Err(e) => Err(e),
        },
        40 => match pair.f64_value() {
            Ok(v) => Ok(Some(MTextView { initial_text_height: v, ..d })),
            Err(e) => Err(e),
        },
        41 => match pair.f64_value() {
            Ok(v) => Ok(Some(MTextView { reference_rectangle_width: v, ..d })),
            Err(e) => Err(e),
        },
        71 => match pair.i16_value() {
            Ok(v) => match AttachmentPoint::from_code(v as int) {
                Some(m) => Ok(Some(MTextView { attachment_point: m, ..d })),
                None => Err(DxfError::UnexpectedEnumValue(v as i32)),
            },
            Err(e) => Err(e),
        },
        72 => match pair.i16_value() {
            Ok(v) => match DrawingDirection::from_code(v as int) {
                Some(m) => Ok(Some(MTextView { drawing_direction: m, ..d })),
                None => Err(DxfError::UnexpectedEnumValue(v as i32)),
            },
            Err(e) => Err(e),
        },
        3 => match pair.string_value() {
            Ok(s) => Ok(Some(MTextView { extended_text: d.extended_text.push(s@), ..d })),
            Err(e) => Err(e),
        },
        1 => match pair.string_value() {
            Ok(s) => Ok(Some(MTextView { text: s@, ..d })),
            Err(e) => Err(e),
        },
        7 => match pair.string_value() {
            Ok(s) => Ok(Some(MTextView { text_style_name: s@, ..d })),
            Err(e) => Err(e),
        },
        210 => match pair.f64_value() {
            Ok(v) => Ok(Some(MTextView { extrusion_direction: Vector { x: v, ..d.extrusion_direction }, ..d })),
            Err(e) => Err(e),
        },
        220 => match pair.f64_value() {
            Ok(v) => Ok(Some(MTextView { extrusion_direction: Vector { y: v, ..d.extrusion_direction }, ..d })),
            Err(e) => Err(e),
        },
        230 => match pair.f64_value() {
            Ok(v) => Ok(Some(MTextView { extrusion_direction: Vector { z: v, ..d.extrusion_direction }, ..d })),
            Err(e) => Err(e),
        },
        11 => match pair.f64_value() {
            Ok(v) => Ok(Some(MTextView { x_axis_direction: Vector { x: v, ..d.x_axis_direction }, ..d })),
            Err(e) => Err(e),
        },
        21 => match pair.f64_value() {
            Ok(v) => Ok(Some(MTextView { x_axis_direction: Vector { y: v, ..d.x_axis_direction }, ..d })),
            Err(e) => Err(e),
        },
        31 => match pair.f64_value() {
            Ok(v) => Ok(Some(MTextView { x_axis_direction: Vector { z: v, ..d.x_axis_direction }, ..d })),
            Err(e) => Err(e),
        },
        42 => match pair.f64_value() {
            Ok(v) => Ok(Some(MTextView { horizontal_width: v, ..d })),
            Err(e) => Err(e),
        },
        43 => match pair.f64_value() {
            Ok(v) => Ok(Some(MTextView { vertical_height: v, ..d })),
            Err(e) => Err(e),
        },
        73 => match pair.i16_value() {
            Ok(v) => match TextLineSpacingStyle::from_code(v as int) {
                Some(m) => Ok(Some(MTextView { line_spacing_style: m, ..d })),
                None => Err(DxfError::UnexpectedEnumValue(v as i32)),
            },
            Err(e) => Err(e),
        },
        44 => match pair.f64_value() {
            Ok(v) => Ok(Some(MTextView { line_spacing_factor: v, ..d })),
            Err(e) => Err(e),
        },
        90 => match pair.i32_value() {
            Ok(v) => match BackgroundFillSetting::from_code(v as int) {
                Some(m) => Ok(Some(MTextView { background_fill_setting: m, ..d })),
                None => Err(DxfError::UnexpectedEnumValue(v as i32)),
            },
            Err(e) => Err(e),
        },
        420 => match pair.i32_value() {
            Ok(v) => Ok(Some(MTextView { background_color_rgb: v, ..d })),
            Err(e) => Err(e),
        },
        430 => match pair.string_value() {
            Ok(s) => Ok(Some(MTextView { background_color_name: s@, ..d })),
            Err(e) => Err(e),
        },
        45 => match pair.f64_value() {
            Ok(v) => Ok(Some(MTextView { fill_box_scale: v, ..d })),
            Err(e) => Err(e),
        },
        63 => match pair.i16_value() {
            Ok(v) => Ok(Some(MTextView { background_fill_color: Color { raw_value: v }, ..d })),
            Err(e) => Err(e),
        },
        441 => match pair.i32_value() {
            Ok(v) => Ok(Some(MTextView { background_fill_color_transparency: v, ..d })),
            Err(e) => Err(e),
        },
        76 => match pair.i16_value() {
            Ok(v) => Ok(Some(MTextView { column_count: v as i32, ..d })),
            Err(e) => Err(e),
        },
        78 => match pair.i16_value() {
            Ok(v) => Ok(Some(MTextView { is_column_flow_reversed: v == 1, ..d })),
            Err(e) => Err(e),
        },
        79 => match pair.i16_value() {
            Ok(v) => Ok(Some(MTextView { is_column_auto_height: v == 1, ..d })),
            Err(e) => Err(e),
        },
        48 => match pair.f64_value() {
            Ok(v) => Ok(Some(MTextView { column_width: v, ..d })),
            Err(e) => Err(e),
        },
        49 => match pair.f64_value() {
            Ok(v) => Ok(Some(MTextView { column_gutter: v, ..d })),
            Err(e) => Err(e),
        },
        _ => Ok(None),
    }
}

impl MText {
    /// Applies a pair that carries a field of this entity kind; reports whether it did.
    pub fn apply_code_pair(&mut self, pair: &CodePair) -> (r: Result<bool, DxfError>)
        ensures
            m_text_pair_step(old(self)@, *pair) == claimed(r, final(self)@),
            r == Ok::<bool, DxfError>(false) ==> final(self)@ == old(self)@,
    {
        match pair.code {
            10 => {
                self.insertion_point.x = pair.assert_f64()?;
            },
            20 => {
                self.insertion_point.y = pair.assert_f64()?;
            },
            30 => {
                self.insertion_point.z = pair.assert_f64()?;
            },
            40 => {
                self.initial_text_height = pair.assert_f64()?;
            },
            41 => {
                self.reference_rectangle_width = pair.assert_f64()?;
            },
            71 => {
                let v = pair.assert_i16()?;
                match AttachmentPoint::from_i16(v) {
                    Some(m) => {
                        self.attachment_point = m;
                    },
                    None => {
                        return Err(DxfError::UnexpectedEnumValue(v as i32));
                    },
                }
            },
            72 => {
                let v = pair.assert_i16()?;
                match DrawingDirection::from_i16(v) {
                    Some(m) => {
                        self.drawing_direction = m;
                    },
                    None => {
                        return Err(DxfError::UnexpectedEnumValue(v as i32));
                    },
                }
            },
            3 => {
                let s = pair.assert_string()?;
                let ghost before = self.extended_text@;
                let ghost sv = s@;
                self.extended_text.push(s);
                assert(self.extended_text@.map_values(|t: String| t@) =~= before.map_values(|t: String| t@).push(sv));
            },
            1 => {
                self.text = pair.assert_string()?;
            },
            7 => {
                self.text_style_name = pair.assert_string()?;
            },
            210 => {
                self.extrusion_direction.x = pair.assert_f64()?;
            },
            220 => {
                self.extrusion_direction.y = pair.assert_f64()?;
            },
            230 => {
                self.extrusion_direction.z = pair.assert_f64()?;
            },
            11 => {
                self.x_axis_direction.x = pair.assert_f64()?;
            },
            21 => {
                self.x_axis_direction.y = pair.assert_f64()?;
            },
            31 => {
                self.x_axis_direction.z = pair.assert_f64()?;
            },
            42 => {
                self.horizontal_width = pair.assert_f64()?;
            },
            43 => {
                self.vertical_height = pair.assert_f64()?;
            },
            73 => {
                let v = pair.assert_i16()?;
                match TextLineSpacingStyle::from_i16(v) {
                    Some(m) => {
                        self.line_spacing_style = m;
                    },
                    None => {
                        return Err(DxfError::UnexpectedEnumValue(v as i32));
                    },
                }
            },
            44 => {
                self.line_spacing_factor = pair.assert_f64()?;
            },
            90 => {
                let v = pair.assert_i32()?;
                match BackgroundFillSetting::from_i32(v) {
                    Some(m) => {
                        self.background_fill_setting = m;
                    },
                    None => {
                        return Err(DxfError::UnexpectedEnumValue(v as i32));
                    },
                }
            },
            420 => {
                self.background_color_rgb = pair.assert_i32()?;
            },
            430 => {
                self.background_color_name = pair.assert_string()?;
            },
            45 => {
                self.fill_box_scale = pair.assert_f64()?;
            },
            63 => {
                self.background_fill_color = Color::from_raw_value(pair.assert_i16()?);
            },
            441 => {
                self.background_fill_color_transparency = pair.assert_i32()?;
            },
            76 => {
                self.column_count = pair.assert_i16()? as i32;
            },
            78 => {
                self.is_column_flow_reversed = as_bool(pair.assert_i16()?);
            },
            79 => {
                self.is_column_auto_height = as_bool(pair.assert_i16()?);
            },
            48 => {
                self.column_width = pair.assert_f64()?;
            },
            49 => {
                self.column_gutter = pair.assert_f64()?;
            },
            _ => {
                return Ok(false);
            },
        }
        Ok(true)
    }
}

/// Parse-local state of one multi-line text: whether the column type has
/// been seen, and whether the column count has been taken from code 50 since.
#[derive(Clone, Copy, Debug, PartialEq, Eq, Structural)]
pub struct MTextColumnState {
    pub reading_column_data: bool,
    pub read_column_count: bool,
}

impl MTextColumnState {
    pub fn new() -> (r: MTextColumnState)
        ensures
            r == (MTextColumnState { reading_column_data: false, read_column_count: false }),
    {
        MTextColumnState { reading_column_data: false, read_column_count: false }
    }
}

/// What a pair does to multi-line text in a given column state. Code 75 sets
/// the column type and switches the meaning of code 50 for good: before, it
/// is the rotation angle; after, its first occurrence is the column count and
/// each later one appends a column height.
pub open spec fn m_text_decode_step(d: MTextView, st: MTextColumnState, pair: CodePair) -> Result<
    Option<(MTextView, MTextColumnState)>,
    DxfError,
> {
    match pair.code {
        50 => match pair.f64_value() {
            Ok(v) => if !st.reading_column_data {
                Ok(Some((MTextView { rotation_angle: v, ..d }, st)))
            } else if !st.read_column_count {
                Ok(
                    Some(
                        (
                            MTextView { column_count: f64_bits_to_i32(v), ..d },
                            MTextColumnState { read_column_count: true, ..st },
                        ),
                    ),
                )
            } else {
                Ok(Some((MTextView { column_heights: d.column_heights.push(v), ..d }, st)))
            },
            Err(e) => Err(e),
        },
        75 => match pair.i16_value() {
            Ok(v) => Ok(
                Some(
                    (
                        MTextView { column_type: v, ..d },
                        MTextColumnState { reading_column_data: true, ..st },
                    ),
                ),
            ),
            Err(e) => Err(e),
        },
        _ => match m_text_pair_step(d, pair) {
            Ok(Some(d2)) => Ok(Some((d2, st))),
            Ok(None) => Ok(None),
            Err(e) => Err(e),
        },
    }
}

impl MText {
    /// Applies one pair in the given column state; reports whether it was claimed.
    pub fn apply_decoding_pair(&mut self, st: &mut MTextColumnState, pair: &CodePair) -> (r: Result<
        bool,
        DxfError,
    >)
        ensures
            m_text_decode_step(old(self)@, *old(st), *pair) == claimed(r, (final(self)@, *final(st))),
            r == Ok::<bool, DxfError>(false) ==> final(self)@ == old(self)@ && *final(st) == *old(st),
    {
        if pair.code == 50 {
            let v = pair.assert_f64()?;
            if !st.reading_column_data {
                self.rotation_angle = v;
            } else if !st.read_column_count {
                self.column_count = truncate_to_i32(v);
                st.read_column_count = true;
            } else {
                self.column_heights.push(v);
            }
            Ok(true)
        } else if pair.code == 75 {
            self.column_type = pair.assert_i16()?;
            st.reading_column_data = true;
            Ok(true)
        } else {
            self.apply_code_pair(pair)
        }
    }
}

/// Part 1 of the pairs of `m_text_pairs`.
pub open spec fn m_text_pairs_1(d: MTextView, version: AcadVersion) -> Seq<PairView> {
    (if version.rank() >= AcadVersion::R13.rank() {
        seq![str_pair(100, "AcDbMText"@)]
    } else {
        Seq::empty()
    })
    + xyz_pairs(10, d.insertion_point.x, d.insertion_point.y, d.insertion_point.z)
    + seq![f64_pair(40, d.initial_text_height)]
    + seq![f64_pair(41, d.reference_rectangle_width)]
    + seq![i16_pair(71, d.attachment_point.code() as i16)]
    + seq![i16_pair(72, d.drawing_direction.code() as i16)]
    + str_pairs(3, d.extended_text)
}

impl MText {
    /// Writes the fields of `m_text_pairs_1`.
    fn write_fields_1(&self, version: AcadVersion, out: &mut Vec<CodePair>)
        ensures
            pairs_view(final(out)@) == pairs_view(old(out)@) + m_text_pairs_1(self@, version),
    {
        let ghost start = pairs_view(out@);
        let ghost mut acc: Seq<PairView> = Seq::empty();
        if version.at_least(AcadVersion::R13) {
            emit(out, CodePair::new_str(100, String::from_str("AcDbMText")));
        }
        proof {
            acc = (if version.rank() >= AcadVersion::R13.rank() {
                seq![str_pair(100, "AcDbMText"@)]
            } else {
                Seq::empty()
            });
        }
        assert(pairs_view(out@) =~= start + acc);
        emit_xyz(out, 10, self.insertion_point.x, self.insertion_point.y, self.insertion_point.z);
        proof {
            acc = acc + xyz_pairs(10, self@.insertion_point.x, self@.insertion_point.y, self@.insertion_point.z);
        }
        assert(pairs_view(out@) =~= start + acc);
        emit(out, CodePair::new_f64(40, self.initial_text_height));
        proof {
            acc = acc + seq![f64_pair(40, self@.initial_text_height)];
        }
        assert(pairs_view(out@) =~= start + acc);
        emit(out, CodePair::new_f64(41, self.reference_rectangle_width));
        proof {
            acc = acc + seq![f64_pair(41, self@.reference_rectangle_width)];
        }
        assert(pairs_view(out@) =~= start + acc);
        emit(out, CodePair::new_i16(71, self.attachment_point.to_i16()));
        proof {
            acc = acc + seq![i16_pair(71, self@.attachment_point.code() as i16)];
        }
        assert(pairs_view(out@) =~= start + acc);
        emit(out, CodePair::new_i16(72, self.drawing_direction.to_i16()));
        proof {
            acc = acc + seq![i16_pair(72, self@.drawing_direction.code() as i16)];
        }
        assert(pairs_view(out@) =~= start + acc);
        emit_strs(out, 3, &self.extended_text);
        proof {
            acc = acc + str_pairs(3, self@.extended_text);
        }
        assert(pairs_view(out@) =~= start + acc);
        assert(acc == m_text_pairs_1(self@, version));
    }
}

/// Part 2 of the pairs of `m_text_pairs`.
pub open spec fn m_text_pairs_2(d: MTextView, version: AcadVersion) -> Seq<PairView> {
    seq![str_pair(1, d.text)]
    + seq![str_pair(7, d.text_style_name)]
    + xyz_pairs(210, d.extrusion_direction.x, d.extrusion_direction.y, d.extrusion_direction.z)
    + xyz_pairs(11, d.x_axis_direction.x, d.x_axis_direction.y, d.x_axis_direction.z)
    + seq![f64_pair(42, d.horizontal_width)]
    + seq![f64_pair(43, d.vertical_height)]
    + seq![f64_pair(50, d.rotation_angle)]
}

impl MText {
    /// Writes the fields of `m_text_pairs_2`.
    fn write_fields_2(&self, version: AcadVersion, out: &mut Vec<CodePair>)
        ensures
            pairs_view(final(out)@) == pairs_view(old(out)@) + m_text_pairs_2(self@, version),
    {
        let ghost start = pairs_view(out@);
        let ghost mut acc: Seq<PairView> = Seq::empty();
        emit(out, CodePair::new_str(1, self.text.clone()));
        proof {
            acc = seq![str_pair(1, self@.text)];
        }
        assert(pairs_view(out@) =~= start + acc);
        emit(out, CodePair::new_str(7, self.text_style_name.clone()));
        proof {
            acc = acc + seq![str_pair(7, self@.text_style_name)];
        }
        assert(pairs_view(out@) =~= start + acc);
        emit_xyz(out, 210, self.extrusion_direction.x, self.extrusion_direction.y, self.extrusion_direction.z);
        proof {
            acc = acc + xyz_pairs(210, self@.extrusion_direction.x, self@.extrusion_direction.y, self@.extrusion_direction.z);
        }
        assert(pairs_view(out@) =~= start + acc);
        emit_xyz(out, 11, self.x_axis_direction.x, self.x_axis_direction.y, self.x_axis_direction.z);
        proof {
            acc = acc + xyz_pairs(11, self@.x_axis_direction.x, self@.x_axis_direction.y, self@.x_axis_direction.z);
        }
        assert(pairs_view(out@) =~= start + acc);
        emit(out, CodePair::new_f64(42, self.horizontal_width));
        proof {
            acc = acc + seq![f64_pair(42, self@.horizontal_width)];
        }
        assert(pairs_view(out@) =~= start + acc);
        emit(out, CodePair::new_f64(43, self.vertical_height));
        proof {
            acc = acc + seq![f64_pair(43, self@.vertical_height)];
        }
        assert(pairs_view(out@) =~= start + acc);
        emit(out, CodePair::new_f64(50, self.rotation_angle));
        proof {
            acc = acc + seq![f64_pair(50, self@.rotation_angle)];
        }
        assert(pairs_view(out@) =~= start + acc);
        assert(acc == m_text_pairs_2(self@, version));
    }
}

/// Part 3 of the pairs of `m_text_pairs`.
pub open spec fn m_text_pairs_3(d: MTextView, version: AcadVersion) -> Seq<PairView> {
    seq![i16_pair(73, d.line_spacing_style.code() as i16)]
    + seq![f64_pair(44, d.line_spacing_factor)]
    + (if version.rank() >= AcadVersion::R2004.rank() {
        seq![i32_pair(90, d.background_fill_setting.code() as i32)]
    } else {
        Seq::empty()
    })
    + (if version.rank() >= AcadVersion::R2004.rank() {
        seq![i32_pair(420, d.background_color_rgb)]
    } else {
        Seq::empty()
    })
    + (if version.rank() >= AcadVersion::R2004.rank() {
        seq![str_pair(430, d.background_color_name)]
    } else {
        Seq::empty()
    })
    + (if version.rank() >= AcadVersion::R2004.rank() {
        seq![f64_pair(45, d.fill_box_scale)]
    } else {
        Seq::empty()
    })
    + (if version.rank() >= AcadVersion::R2004.rank() {
        seq![i16_pair(63, d.background_fill_color.raw_value)]
    } else {
        Seq::empty()
    })
}

impl MText {
    /// Writes the fields of `m_text_pairs_3`.
    fn write_fields_3(&self, version: AcadVersion, out: &mut Vec<CodePair>)
        ensures
            pairs_view(final(out)@) == pairs_view(old(out)@) + m_text_pairs_3(self@, version),
    {
        let ghost start = pairs_view(out@);
        let ghost mut acc: Seq<PairView> = Seq::empty();
        emit(out, CodePair::new_i16(73, self.line_spacing_style.to_i16()));
        proof {
            acc = seq![i16_pair(73, self@.line_spacing_style.code() as i16)];
        }
        assert(pairs_view(out@) =~= start + acc);
        emit(out, CodePair::new_f64(44, self.line_spacing_factor));
        proof {
            acc = acc + seq![f64_pair(44, self@.line_spacing_factor)];
        }
        assert(pairs_view(out@) =~= start + acc);
        if version.at_least(AcadVersion::R2004) {
            emit(out, CodePair::new_i32(90, self.background_fill_setting.to_i32()));
        }
        proof {
            acc = acc + (if version.rank() >= AcadVersion::R2004.rank() {
                seq![i32_pair(90, self@.background_fill_setting.code() as i32)]
            } else {
                Seq::empty()
            });
        }
        assert(pairs_view(out@) =~= start + acc);
        if version.at_least(AcadVersion::R2004) {
            emit(out, CodePair::new_i32(420, self.background_color_rgb));
        }
        proof {
            acc = acc + (if version.rank() >= AcadVersion::R2004.rank() {
                seq![i32_pair(420, self@.background_color_rgb)]
            } else {
                Seq::empty()
            });
        }
        assert(pairs_view(out@) =~= start + acc);
        if version.at_least(AcadVersion::R2004) {
            emit(out, CodePair::new_str(430, self.background_color_name.clone()));
        }
        proof {
            acc = acc + (if version.rank() >= AcadVersion::R2004.rank() {
                seq![str_pair(430, self@.background_color_name)]
            } else {
                Seq::empty()
            });
        }
        assert(pairs_view(out@) =~= start + acc);
        if version.at_least(AcadVersion::R2004) {
            emit(out, CodePair::new_f64(45, self.fill_box_scale));
        }
        proof {
            acc = acc + (if version.rank() >= AcadVersion::R2004.rank() {
                seq![f64_pair(45, self@.fill_box_scale)]
            } else {
                Seq::empty()
            });
        }
        assert(pairs_view(out@) =~= start + acc);
        if version.at_least(AcadVersion::R2004) {
            emit(out, CodePair::new_i16(63, self.background_fill_color.raw_value));
        }
        proof {
            acc = acc + (if version.rank() >= AcadVersion::R2004.rank() {
                seq![i16_pair(63, self@.background_fill_color.raw_value)]
            } else {
                Seq::empty()
            });
        }
        assert(pairs_view(out@) =~= start + acc);
        assert(acc == m_text_pairs_3(self@, version));
    }
}

/// Part 4 of the pairs of `m_text_pairs`.
pub open spec fn m_text_pairs_4(d: MTextView, version: AcadVersion) -> Seq<PairView> {
    (if version.rank() >= AcadVersion::R2004.rank() {
        seq![i32_pair(441, d.background_fill_color_transparency)]
    } else {
        Seq::empty()
    })
    + (if version.rank() >= AcadVersion::R2018.rank() {
        seq![i16_pair(75, d.column_type)]
    } else {
        Seq::empty()
    })
    + (if version.rank() >= AcadVersion::R2018.rank() {
        seq![i16_pair(76, d.column_count as i16)]
    } else {
        Seq::empty()
    })
    + (if version.rank() >= AcadVersion::R2018.rank() {
        seq![i16_pair(78, if d.is_column_flow_reversed { 1i16 } else { 0i16 })]
    } else {
        Seq::empty()
    })
    + (if version.rank() >= AcadVersion::R2018.rank() {
        seq![i16_pair(79, if d.is_column_auto_height { 1i16 } else { 0i16 })]
    } else {
        Seq::empty()
    })
    + (if version.rank() >= AcadVersion::R2018.rank() {
        seq![f64_pair(48, d.column_width)]
    } else {
        Seq::empty()
    })
    + (if version.rank() >= AcadVersion::R2018.rank() {
        seq![f64_pair(49, d.column_gutter)]
    } else {
        Seq::empty()
    })
}

impl MText {
    /// Writes the fields of `m_text_pairs_4`.
    fn write_fields_4(&self, version: AcadVersion, out: &mut Vec<CodePair>)
        ensures
            pairs_view(final(out)@) == pairs_view(old(out)@) + m_text_pairs_4(self@, version),
    {
        let ghost start = pairs_view(out@);
        let ghost mut acc: Seq<PairView> = Seq::empty();
        if version.at_least(AcadVersion::R2004) {
            emit(out, CodePair::new_i32(441, self.background_fill_color_transparency));
        }
        proof {
            acc = (if version.rank() >= AcadVersion::R2004.rank() {
                seq![i32_pair(441, self@.background_fill_color_transparency)]
            } else {
                Seq::empty()
            });
        }
        assert(pairs_view(out@) =~= start + acc);
        if version.at_least(AcadVersion::R2018) {
            emit(out, CodePair::new_i16(75, self.column_type));
        }
        proof {
            acc = acc + (if version.rank() >= AcadVersion::R2018.rank() {
                seq![i16_pair(75, self@.column_type)]
            } else {
                Seq::empty()
            });
        }
        assert(pairs_view(out@) =~= start + acc);
        if version.at_least(AcadVersion::R2018) {
            emit(out, CodePair::new_i16(76, self.column_count as i16));
        }
        proof {
            acc = acc + (if version.rank() >= AcadVersion::R2018.rank() {
                seq![i16_pair(76, self@.column_count as i16)]
            } else {
                Seq::empty()
            });
        }
        assert(pairs_view(out@) =~= start + acc);
        if version.at_least(AcadVersion::R2018) {
            emit(out, CodePair::new_i16(78, as_i16(self.is_column_flow_reversed)));
        }
        proof {
            acc = acc + (if version.rank() >= AcadVersion::R2018.rank() {
                seq![i16_pair(78, if self@.is_column_flow_reversed { 1i16 } else { 0i16 })]
            } else {
                Seq::empty()
            });
        }
        assert(pairs_view(out@) =~= start + acc);
        if version.at_least(AcadVersion::R2018) {
            emit(out, CodePair::new_i16(79, as_i16(self.is_column_auto_height)));
        }
        proof {
            acc = acc + (if version.rank() >= AcadVersion::R2018.rank() {
                seq![i16_pair(79, if self@.is_column_auto_height { 1i16 } else { 0i16 })]
            } else {
                Seq::empty()
            });
        }
        assert(pairs_view(out@) =~= start + acc);
        if version.at_least(AcadVersion::R2018) {
            emit(out, CodePair::new_f64(48, self.column_width));
        }
        proof {
            acc = acc + (if version.rank() >= AcadVersion::R2018.rank() {
                seq![f64_pair(48, self@.column_width)]
            } else {
                Seq::empty()
            });
        }
        assert(pairs_view(out@) =~= start + acc);
        if version.at_least(AcadVersion::R2018) {
            emit(out, CodePair::new_f64(49, self.column_gutter));
        }
        proof {
            acc = acc + (if version.rank() >= AcadVersion::R2018.rank() {
                seq![f64_pair(49, self@.column_gutter)]
            } else {
                Seq::empty()
            });
        }
        assert(pairs_view(out@) =~= start + acc);
        assert(acc == m_text_pairs_4(self@, version));
    }
}

/// The pairs of multi-line text. The rotation comes before the column type, so that it reads back as the rotation; column heights are not written.
pub open spec fn m_text_pairs(d: MTextView, version: AcadVersion) -> Seq<PairView> {
    m_text_pairs_1(d, version)
    + m_text_pairs_2(d, version)
    + m_text_pairs_3(d, version)
    + m_text_pairs_4(d, version)
}

impl MText {
    /// Writes the fields of this entity kind.
    pub fn write_fields(&self, version: AcadVersion, out: &mut Vec<CodePair>)
        ensures
            pairs_view(final(out)@) == pairs_view(old(out)@) + m_text_pairs(self@, version),
    {
        let ghost start = pairs_view(out@);
        self.write_fields_1(version, out);
        self.write_fields_2(version, out);
        self.write_fields_3(version, out);
        self.write_fields_4(version, out);
        assert(pairs_view(out@) =~= start + (m_text_pairs_1(self@, version) + m_text_pairs_2(self@, version) + m_text_pairs_3(self@, version) + m_text_pairs_4(self@, version)));
    }
}

} // verus!
