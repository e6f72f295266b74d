//! Attributes and attribute definitions, whose codes change meaning under
//! the extension-record subclass.

use vstd::prelude::*;
use crate::code_pair::{
    CodePair, DxfError, PairView, Point, Vector, ONE_BITS, pairs_view, emit, emit_xyz, str_pair,
    f64_pair, i16_pair, xyz_pairs, as_bool, as_i16,
};
use crate::common::claimed;
use crate::enums::{
    AcadVersion, HorizontalTextJustification, MTextFlag, Version, VerticalTextJustification,
};
use crate::handle::{as_u32, emit_handles, handle_pairs, hex_value, is_handle_text};

verus! {

/// Parse-local state of one attribute: the last subclass marker, whether the
/// version has been taken, and how many code-70 pairs the extension record
/// has had.
pub struct AttributeDecoding {
    pub last_subclass_marker: String,
    pub is_version_set: bool,
    pub xrec_code_70_count: u8,
}

pub struct AttributeDecodingView {
    pub last_subclass_marker: Seq<char>,
    pub is_version_set: bool,
    pub xrec_code_70_count: u8,
}

impl View for AttributeDecoding {
    type V = AttributeDecodingView;

    open spec fn view(&self) -> AttributeDecodingView {
        AttributeDecodingView {
            last_subclass_marker: self.last_subclass_marker@,
            is_version_set: self.is_version_set,
            xrec_code_70_count: self.xrec_code_70_count,
        }
    }
}

/// The state before the first pair.
pub open spec fn initial_attribute_decoding() -> AttributeDecodingView {
    AttributeDecodingView {
        last_subclass_marker: Seq::empty(),
        is_version_set: false,
        xrec_code_70_count: 0,
    }
}

/// Whether the pairs now read belong to the extension record.
pub open spec fn in_xrecord(st: AttributeDecodingView) -> bool {
    st.last_subclass_marker == "AcDbXrecord"@
}

impl AttributeDecoding {
    pub fn new() -> (r: AttributeDecoding)
        ensures
            r@ == initial_attribute_decoding(),
    {
        AttributeDecoding { last_subclass_marker: String::new(), is_version_set: false, xrec_code_70_count: 0 }
    }

    pub fn in_xrecord(&self) -> (r: bool)
        ensures
            r == in_xrecord(self@),
    {
        self.last_subclass_marker == String::from_str("AcDbXrecord")
    }
}

/// A tagged value attached to a block insertion.
#[derive(Clone, Debug, PartialEq)]
pub struct Attribute {
    pub value: String,
    pub attribute_tag: String,
    pub x_record_tag: String,
    pub text_style_name: String,
    pub location: Point,
    pub alignment_point: Point,
    pub second_alignment_point: Point,
    pub thickness: u64,
    pub text_height: u64,
    pub annotation_scale: u64,
    pub relative_x_scale_factor: u64,
    pub rotation: u64,
    pub oblique_angle: u64,
    pub flags: i32,
    pub m_text_flag: MTextFlag,
    pub is_really_locked: bool,
    pub secondary_attribute_count: i32,
    pub text_generation_flags: i32,
    pub horizontal_text_justification: HorizontalTextJustification,
    pub field_length: i16,
    pub vertical_text_justification: VerticalTextJustification,
    pub normal: Vector,
    pub version: Version,
    pub keep_duplicate_records: bool,
    pub is_locked_in_block: bool,
    /// Handles of secondary attributes.
    pub secondary_attributes: Vec<u32>,
    /// Handle of the associated multi-line text record.
    pub m_text: u32,
}

pub struct AttributeView {
    pub value: Seq<char>,
    pub attribute_tag: Seq<char>,
    pub x_record_tag: Seq<char>,
    pub text_style_name: Seq<char>,
    pub location: Point,
    pub alignment_point: Point,
    pub second_alignment_point: Point,
    pub thickness: u64,
    pub text_height: u64,
    pub annotation_scale: u64,
    pub relative_x_scale_factor: u64,
    pub rotation: u64,
    pub oblique_angle: u64,
    pub flags: i32,
    pub m_text_flag: MTextFlag,
    pub is_really_locked: bool,
    pub secondary_attribute_count: i32,
    pub text_generation_flags: i32,
    pub horizontal_text_justification: HorizontalTextJustification,
    pub field_length: i16,
    pub vertical_text_justification: VerticalTextJustification,
    pub normal: Vector,
    pub version: Version,
    pub keep_duplicate_records: bool,
    pub is_locked_in_block: bool,
    pub secondary_attributes: Seq<u32>,
    pub m_text: u32,
}

impl View for Attribute {
    type V = AttributeView;

    open spec fn view(&self) -> AttributeView {
        AttributeView {
            value: self.value@,
            attribute_tag: self.attribute_tag@,
            x_record_tag: self.x_record_tag@,
            text_style_name: self.text_style_name@,
            location: self.location,
            alignment_point: self.alignment_point,
            second_alignment_point: self.second_alignment_point,
            thickness: self.thickness,
            text_height: self.text_height,
            annotation_scale: self.annotation_scale,
            relative_x_scale_factor: self.relative_x_scale_factor,
            rotation: self.rotation,
            oblique_angle: self.oblique_angle,
            flags: self.flags,
            m_text_flag: self.m_text_flag,
            is_really_locked: self.is_really_locked,
            secondary_attribute_count: self.secondary_attribute_count,
            text_generation_flags: self.text_generation_flags,
            horizontal_text_justification: self.horizontal_text_justification,
            field_length: self.field_length,
            vertical_text_justification: self.vertical_text_justification,
            normal: self.normal,
            version: self.version,
            keep_duplicate_records: self.keep_duplicate_records,
            is_locked_in_block: self.is_locked_in_block,
            secondary_attributes: self.secondary_attributes@,
            m_text: self.m_text,
        }
    }
}

impl Attribute {
    /// Every field at its default.
    pub open spec fn default_view() -> AttributeView {
        AttributeView {
            value: Seq::<char>::empty(),
            attribute_tag: Seq::<char>::empty(),
            x_record_tag: Seq::<char>::empty(),
            text_style_name: "STANDARD"@,
            location: Point { x: 0, y: 0, z: 0 },
            alignment_point: Point { x: 0, y: 0, z: 0 },
            second_alignment_point: Point { x: 0, y: 0, z: 0 },
            thickness: 0,
            text_height: ONE_BITS,
            annotation_scale: ONE_BITS,
            relative_x_scale_factor: ONE_BITS,
            rotation: 0,
            oblique_angle: 0,
            flags: 0,
            m_text_flag: MTextFlag::MultilineAttribute,
            is_really_locked: false,
            secondary_attribute_count: 0,
            text_generation_flags: 0,
            horizontal_text_justification: HorizontalTextJustification::Left,
            field_length: 0,
            vertical_text_justification: VerticalTextJustification::Baseline,
            normal: Vector { x: 0, y: 0, z: ONE_BITS },
            version: Version::R2010,
            keep_duplicate_records: false,
            is_locked_in_block: false,
            secondary_attributes: Seq::<u32>::empty(),
            m_text: 0,
        }
    }

    pub fn default_value() -> (r: Attribute)
        ensures
            r@ == Attribute::default_view(),
    {
        let r = Attribute {
            value: String::new(),
            attribute_tag: String::new(),
            x_record_tag: String::new(),
            text_style_name: String::from_str("STANDARD"),
            location: Point::new(0, 0, 0),
            alignment_point: Point::new(0, 0, 0),
            second_alignment_point: Point::new(0, 0, 0),
            thickness: 0,
            text_height: ONE_BITS,
            annotation_scale: ONE_BITS,
            relative_x_scale_factor: ONE_BITS,
            rotation: 0,
            oblique_angle: 0,
            flags: 0,
            m_text_flag: MTextFlag::MultilineAttribute,
            is_really_locked: false,
            secondary_attribute_count: 0,
            text_generation_flags: 0,
            horizontal_text_justification: HorizontalTextJustification::Left,
            field_length: 0,
            vertical_text_justification: VerticalTextJustification::Baseline,
            normal: Vector::z_axis(),
            version: Version::R2010,
            keep_duplicate_records: false,
            is_locked_in_block: false,
            secondary_attributes: Vec::new(),
            m_text: 0,
        };
        r
    }
}

/// What a pair with a fixed meaning does to an attribute.
pub open spec fn attribute_pair_step(d: AttributeView, pair: CodePair) -> Result<Option<AttributeView>, DxfError> {
    match pair.code {
        1 => match pair.string_value() {
            Ok(s) => Ok(Some(AttributeView { value: s@, ..d })),
            Err(e) => Err(e),
        },
        7 => match pair.string_value() {
            Ok(s) => Ok(Some(AttributeView { text_style_name: s@, ..d })),
            Err(e) => Err(e),
        },
        11 => match pair.f64_value() {
            Ok(v) => Ok(Some(AttributeView { second_alignment_point: Point { x: v, ..d.second_alignment_point }, ..d })),
            Err(e) => Err(e),
        },
        21 => match pair.f64_value() {
            Ok(v) => Ok(Some(AttributeView { second_alignment_point: Point { y: v, ..d.second_alignment_point }, ..d })),
            Err(e) => Err(e),
        },
        31 => match pair.f64_value() {
            Ok(v) => Ok(Some(AttributeView { second_alignment_point: Point { z: v, ..d.second_alignment_point }, ..d })),
            Err(e) => Err(e),
        },
        39 => match pair.f64_value() {
            Ok(v) => Ok(Some(AttributeView { thickness: v, ..d })),
            Err(e) => Err(e),
        },
        41 => match pair.f64_value() {
            Ok(v) => Ok(Some(AttributeView { relative_x_scale_factor: v, ..d })),
            Err(e) => Err(e),
        },
        50 => match pair.f64_value() {
            Ok(v) => Ok(Some(AttributeView { rotation: v, ..d })),
            Err(e) => Err(e),
        },
        51 => match pair.f64_value() {
            Ok(v) => Ok(Some(AttributeView { oblique_angle: v, ..d })),
            Err(e) => Err(e),
        },
        71 => match pair.i16_value() {
            Ok(v) => Ok(Some(AttributeView { text_generation_flags: v as i32, ..d })),
            Err(e) => Err(e),
        },
        72 => match pair.i16_value() {
            Ok(v) => match HorizontalTextJustification::from_code(v as int) {
                Some(m) => Ok(Some(AttributeView { horizontal_text_justification: m, ..d })),
                None => Err(DxfError::UnexpectedEnumValue(v as i32)),
            },
            Err(e) => Err(e),
        },
        73 => match pair.i16_value() {
            Ok(v) => Ok(Some(AttributeView { field_length: v, ..d })),
            Err(e) => Err(e),
        },
        74 => match pair.i16_value() {
            Ok(v) => match VerticalTextJustification::from_code(v as int) {
                Some(m) => Ok(Some(AttributeView { vertical_text_justification: m, ..d })),
                None => Err(DxfError::UnexpectedEnumValue(v as i32)),
            },
            Err(e) => Err(e),
        },
        210 => match pair.f64_value() {
            Ok(v) => Ok(Some(AttributeView { normal: Vector { x: v, ..d.normal }, ..d })),
            Err(e) => Err(e),
        },
        220 => match pair.f64_value() {
            Ok(v) => Ok(Some(AttributeView { normal: Vector { y: v, ..d.normal }, ..d })),
            Err(e) => Err(e),
        },
        230 => match pair.f64_value() {
            Ok(v) => Ok(Some(AttributeView { normal: Vector { z: v, ..d.normal }, ..d })),
            Err(e) => Err(e),
        },
        _ => Ok(None),
    }
}

impl Attribute {
    /// Applies a pair that carries a field of this entity kind; reports whether it did.
    pub fn apply_code_pair(&mut self, pair: &CodePair) -> (r: Result<bool, DxfError>)
        ensures
            attribute_pair_step(old(self)@, *pair) == claimed(r, final(self)@),
            r == Ok::<bool, DxfError>(false) ==> final(self)@ == old(self)@,
    {
        match pair.code {
            1 => {
                self.value = pair.assert_string()?;
            },
            7 => {
                self.text_style_name = pair.assert_string()?;
            },
            11 => {
                self.second_alignment_point.x = pair.assert_f64()?;
            },
            21 => {
                self.second_alignment_point.y = pair.assert_f64()?;
            },
            31 => {
                self.second_alignment_point.z = pair.assert_f64()?;
            },
            39 => {
                self.thickness = pair.assert_f64()?;
            },
            41 => {
                self.relative_x_scale_factor = pair.assert_f64()?;
            },
            50 => {
                self.rotation = pair.assert_f64()?;
            },
            51 => {
                self.oblique_angle = pair.assert_f64()?;
            },
            71 => {
                self.text_generation_flags = pair.assert_i16()? as i32;
            },
            72 => {
                let v = pair.assert_i16()?;
                match HorizontalTextJustification::from_i16(v) {
                    Some(m) => {
                        self.horizontal_text_justification = m;
                    },
                    None => {
                        return Err(DxfError::UnexpectedEnumValue(v as i32));
                    },
                }
            },
            73 => {
                self.field_length = pair.assert_i16()?;
            },
            74 => {
                let v = pair.assert_i16()?;
                match VerticalTextJustification::from_i16(v) {
                    Some(m) => {
                        self.vertical_text_justification = m;
                    },
                    None => {
                        return Err(DxfError::UnexpectedEnumValue(v as i32));
                    },
                }
            },
            210 => {
                self.normal.x = pair.assert_f64()?;
            },
            220 => {
                self.normal.y = pair.assert_f64()?;
            },
            230 => {
                self.normal.z = pair.assert_f64()?;
            },
            _ => {
                return Ok(false);
            },
        }
        Ok(true)
    }
}

/// What a pair does to an attribute in a given parse state. Under the
/// extension-record subclass, codes 2, 10/20/30 and 40 name the extension
/// fields, and code 70 fills in turn the text flag, the locked flag and the
/// secondary-attribute count, a fourth occurrence failing. Outside it, the
/// first code 280 is the version and later ones the block lock.
pub open spec fn attribute_decode_step(d: AttributeView, st: AttributeDecodingView, pair: CodePair) -> Result<
    Option<(AttributeView, AttributeDecodingView)>,
    DxfError,
> {
    let x = in_xrecord(st);
    match pair.code {
        100 => match pair.string_value() {
            Ok(s) => Ok(Some((d, AttributeDecodingView { last_subclass_marker: s@, ..st }))),
            Err(e) => Err(e),
        },
        2 => match pair.string_value() {
            Ok(s) => if x {
                Ok(Some((AttributeView { x_record_tag: s@, ..d }, st)))
            } else {
                Ok(Some((AttributeView { attribute_tag: s@, ..d }, st)))
            },
            Err(e) => Err(e),
        },
        10 => match pair.f64_value() {
            Ok(v) => if x {
                Ok(Some((AttributeView { alignment_point: Point { x: v, ..d.alignment_point }, ..d }, st)))
            } else {
                Ok(Some((AttributeView { location: Point { x: v, ..d.location }, ..d }, st)))
            },
            Err(e) => Err(e),
        },
        20 => match pair.f64_value() {
            Ok(v) => if x {
                Ok(Some((AttributeView { alignment_point: Point { y: v, ..d.alignment_point }, ..d }, st)))
            } else {
                Ok(Some((AttributeView { location: Point { y: v, ..d.location }, ..d }, st)))
            },
            Err(e) => Err(e),
        },
        30 => match pair.f64_value() {
            Ok(v) => if x {
                Ok(Some((AttributeView { alignment_point: Point { z: v, ..d.alignment_point }, ..d }, st)))
            } else {
                Ok(Some((AttributeView { location: Point { z: v, ..d.location }, ..d }, st)))
            },
            Err(e) => Err(e),
        },
        40 => match pair.f64_value() {
            Ok(v) => if x {
                Ok(Some((AttributeView { annotation_scale: v, ..d }, st)))
            } else {
                Ok(Some((AttributeView { text_height: v, ..d }, st)))
            },
            Err(e) => Err(e),
        },
        70 => if x {
            let next = AttributeDecodingView { xrec_code_70_count: (st.xrec_code_70_count + 1) as u8, ..st };
            if st.xrec_code_70_count >= 3 {
                Err(DxfError::UnexpectedCodePair(pair))
            } else {
                match pair.i16_value() {
                    Ok(v) => if st.xrec_code_70_count == 0 {
                        match MTextFlag::from_code(v as int) {
                            Some(m) => Ok(Some((AttributeView { m_text_flag: m, ..d }, next))),
                            None => Err(DxfError::UnexpectedEnumValue(v as i32)),
                        }
                    } else if st.xrec_code_70_count == 1 {
                        Ok(Some((AttributeView { is_really_locked: v == 1, ..d }, next)))
                    } else {
                        Ok(Some((AttributeView { secondary_attribute_count: v as i32, ..d }, next)))
                    },
                    Err(e) => Err(e),
                }
            }
        } else {
            match pair.i16_value() {
                Ok(v) => Ok(Some((AttributeView { flags: v as i32, ..d }, st))),
                Err(e) => Err(e),
            }
        },
        280 => match pair.i16_value() {
            Ok(v) => if x {
                Ok(Some((AttributeView { keep_duplicate_records: v == 1, ..d }, st)))
            } else if !st.is_version_set {
                match Version::from_code(v as int) {
                    Some(m) => Ok(
                        Some((AttributeView { version: m, ..d }, AttributeDecodingView { is_version_set: true, ..st })),
                    ),
                    None => Err(DxfError::UnexpectedEnumValue(v as i32)),
                }
            } else {
                Ok(Some((AttributeView { is_locked_in_block: v == 1, ..d }, st)))
            },
            Err(e) => Err(e),
        },
        340 => match pair.string_value() {
            Ok(s) => if is_handle_text(s@) {
                Ok(Some((AttributeView { secondary_attributes: d.secondary_attributes.push(hex_value(s@) as u32), ..d }, st)))
            } else {
                Err(DxfError::ParseIntError(s))
            },
            Err(e) => Err(e),
        },
        -1 => match pair.string_value() {
            Ok(s) => if is_handle_text(s@) {
                Ok(Some((AttributeView { m_text: hex_value(s@) as u32, ..d }, st)))
            } else {
                Err(DxfError::ParseIntError(s))
            },
            Err(e) => Err(e),
        },
        _ => match attribute_pair_step(d, pair) {
            Ok(Some(d2)) => Ok(Some((d2, st))),
            Ok(None) => Ok(None),
            Err(e) => Err(e),
        },
    }
}

impl Attribute {
    /// Applies one pair in the given parse state; reports whether it was claimed.
    pub fn apply_decoding_pair(&mut self, st: &mut AttributeDecoding, pair: &CodePair) -> (r: Result<
        bool,
        DxfError,
    >)
        ensures
            attribute_decode_step(old(self)@, old(st)@, *pair) == claimed(r, (final(self)@, final(st)@)),
            r == Ok::<bool, DxfError>(false) ==> final(self)@ == old(self)@ && final(st)@ == old(st)@,
    {
        let x = st.in_xrecord();
        match pair.code {
            100 => {
                st.last_subclass_marker = pair.assert_string()?;
            },
            2 => {
                let s = pair.assert_string()?;
                if x {
                    self.x_record_tag = s;
                } else {
                    self.attribute_tag = s;
                }
            },
            10 => {
                let v = pair.assert_f64()?;
                if x {
                    self.alignment_point.x = v;
                } else {
                    self.location.x = v;
                }
            },
            20 => {
                let v = pair.assert_f64()?;
                if x {
                    self.alignment_point.y = v;
                } else {
                    self.location.y = v;
                }
            },
            30 => {
                let v = pair.assert_f64()?;
                if x {
                    self.alignment_point.z = v;
                } else {
                    self.location.z = v;
                }
            },
            40 => {
                let v = pair.assert_f64()?;
                if x {
                    self.annotation_scale = v;
                } else {
                    self.text_height = v;
                }
            },
            70 => {
                if x {
                    if st.xrec_code_70_count >= 3 {
                        return Err(DxfError::UnexpectedCodePair(pair.duplicate()));
                    }
                    let v = pair.assert_i16()?;
                    if st.xrec_code_70_count == 0 {
                        match MTextFlag::from_i16(v) {
                            Some(m) => {
                                self.m_text_flag = m;
                            },
                            None => {
                                return Err(DxfError::UnexpectedEnumValue(v as i32));
                            },
                        }
                    } else if st.xrec_code_70_count == 1 {
                        self.is_really_locked = as_bool(v);
                    } else {
                        self.secondary_attribute_count = v as i32;
                    }
                    st.xrec_code_70_count = st.xrec_code_70_count + 1;
                } else {
                    self.flags = pair.assert_i16()? as i32;
                }
            },
            280 => {
                let v = pair.assert_i16()?;
                if x {
                    self.keep_duplicate_records = as_bool(v);
                } else if !st.is_version_set {
                    match Version::from_i16(v) {
                        Some(m) => {
                            self.version = m;
                            st.is_version_set = true;
                        },
                        None => {
                            return Err(DxfError::UnexpectedEnumValue(v as i32));
                        },
                    }
                } else {
                    self.is_locked_in_block = as_bool(v);
                }
            },
            340 => {
                let h = as_u32(pair.assert_string()?)?;
                self.secondary_attributes.push(h);
            },
            -1 => {
                self.m_text = as_u32(pair.assert_string()?)?;
            },
            _ => {
                return self.apply_code_pair(pair);
            },
        }
        Ok(true)
    }
}

/// Part 1 of the pairs of `attribute_pairs`.
pub open spec fn attribute_pairs_1(d: AttributeView, version: AcadVersion) -> Seq<PairView> {
    (if version.rank() >= AcadVersion::R13.rank() {
        seq![str_pair(100, "AcDbText"@)]
    } else {
        Seq::empty()
    })
    + seq![f64_pair(39, d.thickness)]
    + xyz_pairs(10, d.location.x, d.location.y, d.location.z)
    + seq![f64_pair(40, d.text_height)]
    + seq![str_pair(1, d.value)]
    + seq![f64_pair(50, d.rotation)]
    + seq![f64_pair(41, d.relative_x_scale_factor)]
}

impl Attribute {
    /// Writes the fields of `attribute_pairs_1`.
    fn write_fields_1(&self, version: AcadVersion, out: &mut Vec<CodePair>)
        ensures
            pairs_view(final(out)@) == pairs_view(old(out)@) + attribute_pairs_1(self@, version),
    {
        let ghost start = pairs_view(out@);
        let ghost mut acc: Seq<PairView> = Seq::empty();
        if version.at_least(AcadVersion::R13) {
            emit(out, CodePair::new_str(100, String::from_str("AcDbText")));
        }
        proof {
            acc = (if version.rank() >= AcadVersion::R13.rank() {
                seq![str_pair(100, "AcDbText"@)]
            } else {
                Seq::empty()
            });
        }
        assert(pairs_view(out@) =~= start + acc);
        emit(out, CodePair::new_f64(39, self.thickness));
        proof {
            acc = acc + seq![f64_pair(39, self@.thickness)];
        }
        assert(pairs_view(out@) =~= start + acc);
        emit_xyz(out, 10, self.location.x, self.location.y, self.location.z);
        proof {
            acc = acc + xyz_pairs(10, self@.location.x, self@.location.y, self@.location.z);
        }
        assert(pairs_view(out@) =~= start + acc);
        emit(out, CodePair::new_f64(40, self.text_height));
        proof {
            acc = acc + seq![f64_pair(40, self@.text_height)];
        }
        assert(pairs_view(out@) =~= start + acc);
        emit(out, CodePair::new_str(1, self.value.clone()));
        proof {
            acc = acc + seq![str_pair(1, self@.value)];
        }
        assert(pairs_view(out@) =~= start + acc);
        emit(out, CodePair::new_f64(50, self.rotation));
        proof {
            acc = acc + seq![f64_pair(50, self@.rotation)];
        }
        assert(pairs_view(out@) =~= start + acc);
        emit(out, CodePair::new_f64(41, self.relative_x_scale_factor));
        proof {
            acc = acc + seq![f64_pair(41, self@.relative_x_scale_factor)];
        }
        assert(pairs_view(out@) =~= start + acc);
        assert(acc == attribute_pairs_1(self@, version));
    }
}

/// Part 2 of the pairs of `attribute_pairs`.
pub open spec fn attribute_pairs_2(d: AttributeView, version: AcadVersion) -> Seq<PairView> {
    seq![f64_pair(51, d.oblique_angle)]
    + seq![str_pair(7, d.text_style_name)]
    + seq![i16_pair(71, d.text_generation_flags as i16)]
    + seq![i16_pair(72, d.horizontal_text_justification.code() as i16)]
    + xyz_pairs(11, d.second_alignment_point.x, d.second_alignment_point.y, d.second_alignment_point.z)
    + xyz_pairs(210, d.normal.x, d.normal.y, d.normal.z)
    + (if version.rank() >= AcadVersion::R13.rank() {
        seq![str_pair(100, "AcDbAttribute"@)]
    } else {
        Seq::empty()
    })
}

impl Attribute {
    /// Writes the fields of `attribute_pairs_2`.
    fn write_fields_2(&self, version: AcadVersion, out: &mut Vec<CodePair>)
        ensures
            pairs_view(final(out)@) == pairs_view(old(out)@) + attribute_pairs_2(self@, version),
    {
        let ghost start = pairs_view(out@);
        let ghost mut acc: Seq<PairView> = Seq::empty();
        emit(out, CodePair::new_f64(51, self.oblique_angle));
        proof {
            acc = seq![f64_pair(51, self@.oblique_angle)];
        }
        assert(pairs_view(out@) =~= start + acc);
        emit(out, CodePair::new_str(7, self.text_style_name.clone()));
        proof {
            acc = acc + seq![str_pair(7, self@.text_style_name)];
        }
        assert(pairs_view(out@) =~= start + acc);
        emit(out, CodePair::new_i16(71, self.text_generation_flags as i16));
        proof {
            acc = acc + seq![i16_pair(71, self@.text_generation_flags as i16)];
        }
        assert(pairs_view(out@) =~= start + acc);
        emit(out, CodePair::new_i16(72, self.horizontal_text_justification.to_i16()));
        proof {
            acc = acc + seq![i16_pair(72, self@.horizontal_text_justification.code() as i16)];
        }
        assert(pairs_view(out@) =~= start + acc);
        emit_xyz(out, 11, self.second_alignment_point.x, self.second_alignment_point.y, self.second_alignment_point.z);
        proof {
            acc = acc + xyz_pairs(11, self@.second_alignment_point.x, self@.second_alignment_point.y, self@.second_alignment_point.z);
        }
        assert(pairs_view(out@) =~= start + acc);
        emit_xyz(out, 210, self.normal.x, self.normal.y, self.normal.z);
        proof {
            acc = acc + xyz_pairs(210, self@.normal.x, self@.normal.y, self@.normal.z);
        }
        assert(pairs_view(out@) =~= start + acc);
        if version.at_least(AcadVersion::R13) {
            emit(out, CodePair::new_str(100, String::from_str("AcDbAttribute")));
        }
        proof {
            acc = acc + (if version.rank() >= AcadVersion::R13.rank() {
                seq![str_pair(100, "AcDbAttribute"@)]
            } else {
                Seq::empty()
            });
        }
        assert(pairs_view(out@) =~= start + acc);
        assert(acc == attribute_pairs_2(self@, version));
    }
}

/// Part 3 of the pairs of `attribute_pairs`.
pub open spec fn attribute_pairs_3(d: AttributeView, version: AcadVersion) -> Seq<PairView> {
    (if version.rank() >= AcadVersion::R2010.rank() {
        seq![i16_pair(280, d.version.code() as i16)]
    } else {
        Seq::empty()
    })
    + seq![str_pair(2, d.attribute_tag)]
    + seq![i16_pair(70, d.flags as i16)]
    + seq![i16_pair(73, d.field_length)]
    + seq![i16_pair(74, d.vertical_text_justification.code() as i16)]
    + (if version.rank() >= AcadVersion::R2010.rank() {
        seq![i16_pair(280, if d.is_locked_in_block { 1i16 } else { 0i16 })]
    } else {
        Seq::empty()
    })
    + (if version.rank() >= AcadVersion::R2018.rank() {
        seq![str_pair(100, "AcDbXrecord"@)]
    } else {
        Seq::empty()
    })
}

impl Attribute {
    /// Writes the fields of `attribute_pairs_3`.
    fn write_fields_3(&self, version: AcadVersion, out: &mut Vec<CodePair>)
        ensures
            pairs_view(final(out)@) == pairs_view(old(out)@) + attribute_pairs_3(self@, version),
    {
        let ghost start = pairs_view(out@);
        let ghost mut acc: Seq<PairView> = Seq::empty();
        if version.at_least(AcadVersion::R2010) {
            emit(out, CodePair::new_i16(280, self.version.to_i16()));
        }
        proof {
            acc = (if version.rank() >= AcadVersion::R2010.rank() {
                seq![i16_pair(280, self@.version.code() as i16)]
            } else {
                Seq::empty()
            });
        }
        assert(pairs_view(out@) =~= start + acc);
        emit(out, CodePair::new_str(2, self.attribute_tag.clone()));
        proof {
            acc = acc + seq![str_pair(2, self@.attribute_tag)];
        }
        assert(pairs_view(out@) =~= start + acc);
        emit(out, CodePair::new_i16(70, self.flags as i16));
        proof {
            acc = acc + seq![i16_pair(70, self@.flags as i16)];
        }
        assert(pairs_view(out@) =~= start + acc);
        emit(out, CodePair::new_i16(73, self.field_length));
        proof {
            acc = acc + seq![i16_pair(73, self@.field_length)];
        }
        assert(pairs_view(out@) =~= start + acc);
        emit(out, CodePair::new_i16(74, self.vertical_text_justification.to_i16()));
        proof {
            acc = acc + seq![i16_pair(74, self@.vertical_text_justification.code() as i16)];
        }
        assert(pairs_view(out@) =~= start + acc);
        if version.at_least(AcadVersion::R2010) {
            emit(out, CodePair::new_i16(280, as_i16(self.is_locked_in_block)));
        }
        proof {
            acc = acc + (if version.rank() >= AcadVersion::R2010.rank() {
                seq![i16_pair(280, if self@.is_locked_in_block { 1i16 } else { 0i16 })]
            } else {
                Seq::empty()
            });
        }
        assert(pairs_view(out@) =~= start + acc);
        if version.at_least(AcadVersion::R2018) {
            emit(out, CodePair::new_str(100, String::from_str("AcDbXrecord")));
        }
        proof {
            acc = acc + (if version.rank() >= AcadVersion::R2018.rank() {
                seq![str_pair(100, "AcDbXrecord"@)]
            } else {
                Seq::empty()
            });
        }
        assert(pairs_view(out@) =~= start + acc);
        assert(acc == attribute_pairs_3(self@, version));
    }
}

/// Part 4 of the pairs of `attribute_pairs`.
pub open spec fn attribute_pairs_4(d: AttributeView, version: AcadVersion) -> Seq<PairView> {
    (if version.rank() >= AcadVersion::R2018.rank() {
        seq![i16_pair(280, if d.keep_duplicate_records { 1i16 } else { 0i16 })]
    } else {
        Seq::empty()
    })
    + (if version.rank() >= AcadVersion::R2018.rank() {
        seq![i16_pair(70, d.m_text_flag.code() as i16)]
    } else {
        Seq::empty()
    })
    + (if version.rank() >= AcadVersion::R2018.rank() {
        seq![i16_pair(70, if d.is_really_locked { 1i16 } else { 0i16 })]
    } else {
        Seq::empty()
    })
    + (if version.rank() >= AcadVersion::R2018.rank() {
        seq![i16_pair(70, d.secondary_attribute_count as i16)]
    } else {
        Seq::empty()
    })
    + (if version.rank() >= AcadVersion::R2018.rank() {
        handle_pairs(340, d.secondary_attributes)
    } else {
        Seq::empty()
    })
    + (if version.rank() >= AcadVersion::R2018.rank() {
        xyz_pairs(10, d.alignment_point.x, d.alignment_point.y, d.alignment_point.z)
    } else {
        Seq::empty()
    })
    + (if version.rank() >= AcadVersion::R2018.rank() {
        seq![f64_pair(40, d.annotation_scale)]
    } else {
        Seq::empty()
    })
}

impl Attribute {
    /// Writes the fields of `attribute_pairs_4`.
    fn write_fields_4(&self, version: AcadVersion, out: &mut Vec<CodePair>)
        ensures
            pairs_view(final(out)@) == pairs_view(old(out)@) + attribute_pairs_4(self@, version),
    {
        let ghost start = pairs_view(out@);
        let ghost mut acc: Seq<PairView> = Seq::empty();
        if version.at_least(AcadVersion::R2018) {
            emit(out, CodePair::new_i16(280, as_i16(self.keep_duplicate_records)));
        }
        proof {
            acc = (if version.rank() >= AcadVersion::R2018.rank() {
                seq![i16_pair(280, if self@.keep_duplicate_records { 1i16 } else { 0i16 })]
            } else {
                Seq::empty()
            });
        }
        assert(pairs_view(out@) =~= start + acc);
        if version.at_least(AcadVersion::R2018) {
            emit(out, CodePair::new_i16(70, self.m_text_flag.to_i16()));
        }
        proof {
            acc = acc + (if version.rank() >= AcadVersion::R2018.rank() {
                seq![i16_pair(70, self@.m_text_flag.code() as i16)]
            } else {
                Seq::empty()
            });
        }
        assert(pairs_view(out@) =~= start + acc);
        if version.at_least(AcadVersion::R2018) {
            emit(out, CodePair::new_i16(70, as_i16(self.is_really_locked)));
        }
        proof {
            acc = acc + (if version.rank() >= AcadVersion::R2018.rank() {
                seq![i16_pair(70, if self@.is_really_locked { 1i16 } else { 0i16 })]
            } else {
                Seq::empty()
            });
        }
        assert(pairs_view(out@) =~= start + acc);
        if version.at_least(AcadVersion::R2018) {
            emit(out, CodePair::new_i16(70, self.secondary_attribute_count as i16));
        }
        proof {
            acc = acc + (if version.rank() >= AcadVersion::R2018.rank() {
                seq![i16_pair(70, self@.secondary_attribute_count as i16)]
            } else {
                Seq::empty()
            });
        }
        assert(pairs_view(out@) =~= start + acc);
        if version.at_least(AcadVersion::R2018) {
            emit_handles(out, 340, &self.secondary_attributes);
        }
        proof {
            acc = acc + (if version.rank() >= AcadVersion::R2018.rank() {
                handle_pairs(340, self@.secondary_attributes)
            } else {
                Seq::empty()
            });
        }
        assert(pairs_view(out@) =~= start + acc);
        if version.at_least(AcadVersion::R2018) {
            emit_xyz(out, 10, self.alignment_point.x, self.alignment_point.y, self.alignment_point.z);
        }
        proof {
            acc = acc + (if version.rank() >= AcadVersion::R2018.rank() {
                xyz_pairs(10, self@.alignment_point.x, self@.alignment_point.y, self@.alignment_point.z)
            } else {
                Seq::empty()
            });
        }
        assert(pairs_view(out@) =~= start + acc);
        if version.at_least(AcadVersion::R2018) {
            emit(out, CodePair::new_f64(40, self.annotation_scale));
        }
        proof {
            acc = acc + (if version.rank() >= AcadVersion::R2018.rank() {
                seq![f64_pair(40, self@.annotation_scale)]
            } else {
                Seq::empty()
            });
        }
        assert(pairs_view(out@) =~= start + acc);
        assert(acc == attribute_pairs_4(self@, version));
    }
}

/// Part 5 of the pairs of `attribute_pairs`.
pub open spec fn attribute_pairs_5(d: AttributeView, version: AcadVersion) -> Seq<PairView> {
    (if version.rank() >= AcadVersion::R2018.rank() {
        seq![str_pair(2, d.x_record_tag)]
    } else {
        Seq::empty()
    })
}

impl Attribute {
    /// Writes the fields of `attribute_pairs_5`.
    fn write_fields_5(&self, version: AcadVersion, out: &mut Vec<CodePair>)
        ensures
            pairs_view(final(out)@) == pairs_view(old(out)@) + attribute_pairs_5(self@, version),
    {
        let ghost start = pairs_view(out@);
        let ghost mut acc: Seq<PairView> = Seq::empty();
        if version.at_least(AcadVersion::R2018) {
            emit(out, CodePair::new_str(2, self.x_record_tag.clone()));
        }
        proof {
            acc = (if version.rank() >= AcadVersion::R2018.rank() {
                seq![str_pair(2, self@.x_record_tag)]
            } else {
                Seq::empty()
            });
        }
        assert(pairs_view(out@) =~= start + acc);
        assert(acc == attribute_pairs_5(self@, version));
    }
}

/// The pairs of an attribute: text block, own block, then the extension record from release R2018 on.
pub open spec fn attribute_pairs(d: AttributeView, version: AcadVersion) -> Seq<PairView> {
    attribute_pairs_1(d, version)
    + attribute_pairs_2(d, version)
    + attribute_pairs_3(d, version)
    + attribute_pairs_4(d, version)
    + attribute_pairs_5(d, version)
}

impl Attribute {
    /// Writes the fields of this entity kind.
    pub fn write_fields(&self, version: AcadVersion, out: &mut Vec<CodePair>)
        ensures
            pairs_view(final(out)@) == pairs_view(old(out)@) + attribute_pairs(self@, version),
    {
        let ghost start = pairs_view(out@);
        self.write_fields_1(version, out);
        self.write_fields_2(version, out);
        self.write_fields_3(version, out);
        self.write_fields_4(version, out);
        self.write_fields_5(version, out);
        assert(pairs_view(out@) =~= start + (attribute_pairs_1(self@, version) + attribute_pairs_2(self@, version) + attribute_pairs_3(self@, version) + attribute_pairs_4(self@, version) + attribute_pairs_5(self@, version)));
    }
}

/// The template of an attribute in a block.
#[derive(Clone, Debug, PartialEq)]
pub struct AttributeDefinition {
    pub value: String,
    pub text_tag: String,
    pub x_record_tag: String,
    pub prompt: String,
    pub text_style_name: String,
    pub location: Point,
    pub alignment_point: Point,
    pub second_alignment_point: Point,
    pub thickness: u64,
    pub text_height: u64,
    pub annotation_scale: u64,
    pub relative_x_scale_factor: u64,
    pub rotation: u64,
    pub oblique_angle: u64,
    pub flags: i32,
    pub m_text_flag: MTextFlag,
    pub is_really_locked: bool,
    pub secondary_attribute_count: i32,
    pub text_generation_flags: i32,
    pub horizontal_text_justification: HorizontalTextJustification,
    pub field_length: i16,
    pub vertical_text_justification: VerticalTextJustification,
    pub normal: Vector,
    pub version: Version,
    pub keep_duplicate_records: bool,
    pub is_locked_in_block: bool,
    /// Handles of secondary attributes.
    pub secondary_attributes: Vec<u32>,
    /// Handle of the associated multi-line text record.
    pub m_text: u32,
}

pub struct AttributeDefinitionView {
    pub value: Seq<char>,
    pub text_tag: Seq<char>,
    pub x_record_tag: Seq<char>,
    pub prompt: Seq<char>,
    pub text_style_name: Seq<char>,
    pub location: Point,
    pub alignment_point: Point,
    pub second_alignment_point: Point,
    pub thickness: u64,
    pub text_height: u64,
    pub annotation_scale: u64,
    pub relative_x_scale_factor: u64,
    pub rotation: u64,
    pub oblique_angle: u64,
    pub flags: i32,
    pub m_text_flag: MTextFlag,
    pub is_really_locked: bool,
    pub secondary_attribute_count: i32,
    pub text_generation_flags: i32,
    pub horizontal_text_justification: HorizontalTextJustification,
    pub field_length: i16,
    pub vertical_text_justification: VerticalTextJustification,
    pub normal: Vector,
    pub version: Version,
    pub keep_duplicate_records: bool,
    pub is_locked_in_block: bool,
    pub secondary_attributes: Seq<u32>,
    pub m_text: u32,
}

impl View for AttributeDefinition {
    type V = AttributeDefinitionView;

    open spec fn view(&self) -> AttributeDefinitionView {
        AttributeDefinitionView {
            value: self.value@,
            text_tag: self.text_tag@,
            x_record_tag: self.x_record_tag@,
            prompt: self.prompt@,
            text_style_name: self.text_style_name@,
            location: self.location,
            alignment_point: self.alignment_point,
            second_alignment_point: self.second_alignment_point,
            thickness: self.thickness,
            text_height: self.text_height,
            annotation_scale: self.annotation_scale,
            relative_x_scale_factor: self.relative_x_scale_factor,
            rotation: self.rotation,
            oblique_angle: self.oblique_angle,
            flags: self.flags,
            m_text_flag: self.m_text_flag,
            is_really_locked: self.is_really_locked,
            secondary_attribute_count: self.secondary_attribute_count,
            text_generation_flags: self.text_generation_flags,
            horizontal_text_justification: self.horizontal_text_justification,
            field_length: self.field_length,
            vertical_text_justification: self.vertical_text_justification,
            normal: self.normal,
            version: self.version,
            keep_duplicate_records: self.keep_duplicate_records,
            is_locked_in_block: self.is_locked_in_block,
            secondary_attributes: self.secondary_attributes@,
            m_text: self.m_text,
        }
    }
}

impl AttributeDefinition {
    /// Every field at its default.
    pub open spec fn default_view() -> AttributeDefinitionView {
        AttributeDefinitionView {
            value: Seq::<char>::empty(),
            text_tag: Seq::<char>::empty(),
            x_record_tag: Seq::<char>::empty(),
            prompt: Seq::<char>::empty(),
            text_style_name: "STANDARD"@,
            location: Point { x: 0, y: 0, z: 0 },
            alignment_point: Point { x: 0, y: 0, z: 0 },
            second_alignment_point: Point { x: 0, y: 0, z: 0 },
            thickness: 0,
            text_height: ONE_BITS,
            annotation_scale: ONE_BITS,
            relative_x_scale_factor: ONE_BITS,
            rotation: 0,
            oblique_angle: 0,
            flags: 0,
            m_text_flag: MTextFlag::MultilineAttribute,
            is_really_locked: false,
            secondary_attribute_count: 0,
            text_generation_flags: 0,
            horizontal_text_justification: HorizontalTextJustification::Left,
            field_length: 0,
            vertical_text_justification: VerticalTextJustification::Baseline,
            normal: Vector { x: 0, y: 0, z: ONE_BITS },
            version: Version::R2010,
            keep_duplicate_records: false,
            is_locked_in_block: false,
            secondary_attributes: Seq::<u32>::empty(),
            m_text: 0,
        }
    }

    pub fn default_value() -> (r: AttributeDefinition)
        ensures
            r@ == AttributeDefinition::default_view(),
    {
        let r = AttributeDefinition {
            value: String::new(),
            text_tag: String::new(),
            x_record_tag: String::new(),
            prompt: String::new(),
            text_style_name: String::from_str("STANDARD"),
            location: Point::new(0, 0, 0),
            alignment_point: Point::new(0, 0, 0),
            second_alignment_point: Point::new(0, 0, 0),
            thickness: 0,
            text_height: ONE_BITS,
            annotation_scale: ONE_BITS,
            relative_x_scale_factor: ONE_BITS,
            rotation: 0,
            oblique_angle: 0,
            flags: 0,
            m_text_flag: MTextFlag::MultilineAttribute,
            is_really_locked: false,
            secondary_attribute_count: 0,
            text_generation_flags: 0,
            horizontal_text_justification: HorizontalTextJustification::Left,
            field_length: 0,
            vertical_text_justification: VerticalTextJustification::Baseline,
            normal: Vector::z_axis(),
            version: Version::R2010,
            keep_duplicate_records: false,
            is_locked_in_block: false,
            secondary_attributes: Vec::new(),
            m_text: 0,
        };
        r
    }
}

/// What a pair with a fixed meaning does to an attribute definition.
pub open spec fn attribute_definition_pair_step(d: AttributeDefinitionView, pair: CodePair) -> Result<Option<AttributeDefinitionView>, DxfError> {
    match pair.code {
        1 => match pair.string_value() {
            Ok(s) => Ok(Some(AttributeDefinitionView { value: s@, ..d })),
            Err(e) => Err(e),
        },
        7 => match pair.string_value() {
            Ok(s) => Ok(Some(AttributeDefinitionView { text_style_name: s@, ..d })),
            Err(e) => Err(e),
        },
        11 => match pair.f64_value() {
            Ok(v) => Ok(Some(AttributeDefinitionView { second_alignment_point: Point { x: v, ..d.second_alignment_point }, ..d })),
            Err(e) => Err(e),
        },
        21 => match pair.f64_value() {
            Ok(v) => Ok(Some(AttributeDefinitionView { second_alignment_point: Point { y: v, ..d.second_alignment_point }, ..d })),
            Err(e) => Err(e),
        },
        31 => match pair.f64_value() {
            Ok(v) => Ok(Some(AttributeDefinitionView { second_alignment_point: Point { z: v, ..d.second_alignment_point }, ..d })),
            Err(e) => Err(e),
        },
        39 => match pair.f64_value() {
            Ok(v) => Ok(Some(AttributeDefinitionView { thickness: v, ..d })),
            Err(e) => Err(e),
        },
        41 => match pair.f64_value() {
            Ok(v) => Ok(Some(AttributeDefinitionView { relative_x_scale_factor: v, ..d })),
            Err(e) => Err(e),
        },
        50 => match pair.f64_value() {
            Ok(v) => Ok(Some(AttributeDefinitionView { rotation: v, ..d })),
            Err(e) => Err(e),
        },
        51 => match pair.f64_value() {
            Ok(v) => Ok(Some(AttributeDefinitionView { oblique_angle: v, ..d })),
            Err(e) => Err(e),
        },
        71 => match pair.i16_value() {
            Ok(v) => Ok(Some(AttributeDefinitionView { text_generation_flags: v as i32, ..d })),
            Err(e) => Err(e),
        },
        72 => match pair.i16_value() {
            Ok(v) => match HorizontalTextJustification::from_code(v as int) {
                Some(m) => Ok(Some(AttributeDefinitionView { horizontal_text_justification: m, ..d })),
                None => Err(DxfError::UnexpectedEnumValue(v as i32)),
            },
            Err(e) => Err(e),
        },
        73 => match pair.i16_value() {
            Ok(v) => Ok(Some(AttributeDefinitionView { field_length: v, ..d })),
            Err(e) => Err(e),
        },
        74 => match pair.i16_value() {
            Ok(v) => match VerticalTextJustification::from_code(v as int) {
                Some(m) => Ok(Some(AttributeDefinitionView { vertical_text_justification: m, ..d })),
                None => Err(DxfError::UnexpectedEnumValue(v as i32)),
            },
            Err(e) => Err(e),
        },
        210 => match pair.f64_value() {
            Ok(v) => Ok(Some(AttributeDefinitionView { normal: Vector { x: v, ..d.normal }, ..d })),
            Err(e) => Err(e),
        },
        220 => match pair.f64_value() {
            Ok(v) => Ok(Some(AttributeDefinitionView { normal: Vector { y: v, ..d.normal }, ..d })),
            Err(e) => Err(e),
        },
        230 => match pair.f64_value() {
            Ok(v) => Ok(Some(AttributeDefinitionView { normal: Vector { z: v, ..d.normal }, ..d })),
            Err(e) => Err(e),
        },
        3 => match pair.string_value() {
            Ok(s) => Ok(Some(AttributeDefinitionView { prompt: s@, ..d })),
            Err(e) => Err(e),
        },
        _ => Ok(None),
    }
}

impl AttributeDefinition {
    /// Applies a pair that carries a field of this entity kind; reports whether it did.
    pub fn apply_code_pair(&mut self, pair: &CodePair) -> (r: Result<bool, DxfError>)
        ensures
            attribute_definition_pair_step(old(self)@, *pair) == claimed(r, final(self)@),
            r == Ok::<bool, DxfError>(false) ==> final(self)@ == old(self)@,
    {
        match pair.code {
            1 => {
                self.value = pair.assert_string()?;
            },
            7 => {
                self.text_style_name = pair.assert_string()?;
            },
            11 => {
                self.second_alignment_point.x = pair.assert_f64()?;
            },
            21 => {
                self.second_alignment_point.y = pair.assert_f64()?;
            },
            31 => {
                self.second_alignment_point.z = pair.assert_f64()?;
            },
            39 => {
                self.thickness = pair.assert_f64()?;
            },
            41 => {
                self.relative_x_scale_factor = pair.assert_f64()?;
            },
            50 => {
                self.rotation = pair.assert_f64()?;
            },
            51 => {
                self.oblique_angle = pair.assert_f64()?;
            },
            71 => {
                self.text_generation_flags = pair.assert_i16()? as i32;
            },
            72 => {
                let v = pair.assert_i16()?;
                match HorizontalTextJustification::from_i16(v) {
                    Some(m) => {
                        self.horizontal_text_justification = m;
                    },
                    None => {
                        return Err(DxfError::UnexpectedEnumValue(v as i32));
                    },
                }
            },
            73 => {
                self.field_length = pair.assert_i16()?;
            },
            74 => {
                let v = pair.assert_i16()?;
                match VerticalTextJustification::from_i16(v) {
                    Some(m) => {
                        self.vertical_text_justification = m;
                    },
                    None => {
                        return Err(DxfError::UnexpectedEnumValue(v as i32));
                    },
                }
            },
            210 => {
                self.normal.x = pair.assert_f64()?;
            },
            220 => {
                self.normal.y = pair.assert_f64()?;
            },
            230 => {
                self.normal.z = pair.assert_f64()?;
            },
            3 => {
                self.prompt = pair.assert_string()?;
            },
            _ => {
                return Ok(false);
            },
        }
        Ok(true)
    }
}

/// What a pair does to an attribute_definition in a given parse state. Under the
/// extension-record subclass, codes 2, 10/20/30 and 40 name the extension
/// fields, and code 70 fills in turn the text flag, the locked flag and the
/// secondary-attribute count, a fourth occurrence failing. Outside it, the
/// first code 280 is the version and later ones the block lock.
pub open spec fn attribute_definition_decode_step(d: AttributeDefinitionView, st: AttributeDecodingView, pair: CodePair) -> Result<
    Option<(AttributeDefinitionView, AttributeDecodingView)>,
    DxfError,
> {
    let x = in_xrecord(st);
    match pair.code {
        100 => match pair.string_value() {
            Ok(s) => Ok(Some((d, AttributeDecodingView { last_subclass_marker: s@, ..st }))),
            Err(e) => Err(e),
        },
        2 => match pair.string_value() {
            Ok(s) => if x {
                Ok(Some((AttributeDefinitionView { x_record_tag: s@, ..d }, st)))
            } else {
                Ok(Some((AttributeDefinitionView { text_tag: s@, ..d }, st)))
            },
            Err(e) => Err(e),
        },
        10 => match pair.f64_value() {
            Ok(v) => if x {
                Ok(Some((AttributeDefinitionView { alignment_point: Point { x: v, ..d.alignment_point }, ..d }, st)))
            } else {
                Ok(Some((AttributeDefinitionView { location: Point { x: v, ..d.location }, ..d }, st)))
            },
            Err(e) => Err(e),
        },
        20 => match pair.f64_value() {
            Ok(v) => if x {
                Ok(Some((AttributeDefinitionView { alignment_point: Point { y: v, ..d.alignment_point }, ..d }, st)))
            } else {
                Ok(Some((AttributeDefinitionView { location: Point { y: v, ..d.location }, ..d }, st)))
            },
            Err(e) => Err(e),
        },
        30 => match pair.f64_value() {
            Ok(v) => if x {
                Ok(Some((AttributeDefinitionView { alignment_point: Point { z: v, ..d.alignment_point }, ..d }, st)))
            } else {
                Ok(Some((AttributeDefinitionView { location: Point { z: v, ..d.location }, ..d }, st)))
            },
            Err(e) => Err(e),
        },
        40 => match pair.f64_value() {
            Ok(v) => if x {
                Ok(Some((AttributeDefinitionView { annotation_scale: v, ..d }, st)))
            } else {
                Ok(Some((AttributeDefinitionView { text_height: v, ..d }, st)))
            },
            Err(e) => Err(e),
        },
        70 => if x {
            let next = AttributeDecodingView { xrec_code_70_count: (st.xrec_code_70_count + 1) as u8, ..st };
            if st.xrec_code_70_count >= 3 {
                Err(DxfError::UnexpectedCodePair(pair))
            } else {
                match pair.i16_value() {
                    Ok(v) => if st.xrec_code_70_count == 0 {
                        match MTextFlag::from_code(v as int) {
                            Some(m) => Ok(Some((AttributeDefinitionView { m_text_flag: m, ..d }, next))),
                            None => Err(DxfError::UnexpectedEnumValue(v as i32)),
                        }
                    } else if st.xrec_code_70_count == 1 {
                        Ok(Some((AttributeDefinitionView { is_really_locked: v == 1, ..d }, next)))
                    } else {
                        Ok(Some((AttributeDefinitionView { secondary_attribute_count: v as i32, ..d }, next)))
                    },
                    Err(e) => Err(e),
                }
            }
        } else {
            match pair.i16_value() {
                Ok(v) => Ok(Some((AttributeDefinitionView { flags: v as i32, ..d }, st))),
                Err(e) => Err(e),
            }
        },
        280 => match pair.i16_value() {
            Ok(v) => if x {
                Ok(Some((AttributeDefinitionView { keep_duplicate_records: v == 1, ..d }, st)))
            } else if !st.is_version_set {
                match Version::from_code(v as int) {
                    Some(m) => Ok(
                        Some((AttributeDefinitionView { version: m, ..d }, AttributeDecodingView { is_version_set: true, ..st })),
                    ),
                    None => Err(DxfError::UnexpectedEnumValue(v as i32)),
                }
            } else {
                Ok(Some((AttributeDefinitionView { is_locked_in_block: v == 1, ..d }, st)))
            },
            Err(e) => Err(e),
        },
        340 => match pair.string_value() {
            Ok(s) => if is_handle_text(s@) {
                Ok(Some((AttributeDefinitionView { secondary_attributes: d.secondary_attributes.push(hex_value(s@) as u32), ..d }, st)))
            } else {
                Err(DxfError::ParseIntError(s))
            },
            Err(e) => Err(e),
        },
        -1 => match pair.string_value() {
            Ok(s) => if is_handle_text(s@) {
                Ok(Some((AttributeDefinitionView { m_text: hex_value(s@) as u32, ..d }, st)))
            } else {
                Err(DxfError::ParseIntError(s))
            },
            Err(e) => Err(e),
        },
        _ => match attribute_definition_pair_step(d, pair) {
            Ok(Some(d2)) => Ok(Some((d2, st))),
            Ok(None) => Ok(None),
            Err(e) => Err(e),
        },
    }
}

impl AttributeDefinition {
    /// Applies one pair in the given parse state; reports whether it was claimed.
    pub fn apply_decoding_pair(&mut self, st: &mut AttributeDecoding, pair: &CodePair) -> (r: Result<
        bool,
        DxfError,
    >)
        ensures
            attribute_definition_decode_step(old(self)@, old(st)@, *pair) == claimed(r, (final(self)@, final(st)@)),
            r == Ok::<bool, DxfError>(false) ==> final(self)@ == old(self)@ && final(st)@ == old(st)@,
    {
        let x = st.in_xrecord();
        match pair.code {
            100 => {
                st.last_subclass_marker = pair.assert_string()?;
            },
            2 => {
                let s = pair.assert_string()?;
                if x {
                    self.x_record_tag = s;
                } else {
                    self.text_tag = s;
                }
            },
            10 => {
                let v = pair.assert_f64()?;
                if x {
                    self.alignment_point.x = v;
                } else {
                    self.location.x = v;
                }
            },
            20 => {
                let v = pair.assert_f64()?;
                if x {
                    self.alignment_point.y = v;
                } else {
                    self.location.y = v;
                }
            },
            30 => {
                let v = pair.assert_f64()?;
                if x {
                    self.alignment_point.z = v;
                } else {
                    self.location.z = v;
                }
            },
            40 => {
                let v = pair.assert_f64()?;
                if x {
                    self.annotation_scale = v;
                } else {
                    self.text_height = v;
                }
            },
            70 => {
                if x {
                    if st.xrec_code_70_count >= 3 {
                        return Err(DxfError::UnexpectedCodePair(pair.duplicate()));
                    }
                    let v = pair.assert_i16()?;
                    if st.xrec_code_70_count == 0 {
                        match MTextFlag::from_i16(v) {
                            Some(m) => {
                                self.m_text_flag = m;
                            },
                            None => {
                                return Err(DxfError::UnexpectedEnumValue(v as i32));
                            },
                        }
                    } else if st.xrec_code_70_count == 1 {
                        self.is_really_locked = as_bool(v);
                    } else {
                        self.secondary_attribute_count = v as i32;
                    }
                    st.xrec_code_70_count = st.xrec_code_70_count + 1;
                } else {
                    self.flags = pair.assert_i16()? as i32;
                }
            },
            280 => {
                let v = pair.assert_i16()?;
                if x {
                    self.keep_duplicate_records = as_bool(v);
                } else if !st.is_version_set {
                    match Version::from_i16(v) {
                        Some(m) => {
                            self.version = m;
                            st.is_version_set = true;
                        },
                        None => {
                            return Err(DxfError::UnexpectedEnumValue(v as i32));
                        },
                    }
                } else {
                    self.is_locked_in_block = as_bool(v);
                }
            },
            340 => {
                let h = as_u32(pair.assert_string()?)?;
                self.secondary_attributes.push(h);
            },
            -1 => {
                self.m_text = as_u32(pair.assert_string()?)?;
            },
            _ => {
                return self.apply_code_pair(pair);
            },
        }
        Ok(true)
    }
}

/// Part 1 of the pairs of `attribute_definition_pairs`.
pub open spec fn attribute_definition_pairs_1(d: AttributeDefinitionView, version: AcadVersion) -> Seq<PairView> {
    (if version.rank() >= AcadVersion::R13.rank() {
        seq![str_pair(100, "AcDbText"@)]
    } else {
        Seq::empty()
    })
    + seq![f64_pair(39, d.thickness)]
    + xyz_pairs(10, d.location.x, d.location.y, d.location.z)
    + seq![f64_pair(40, d.text_height)]
    + seq![str_pair(1, d.value)]
    + seq![f64_pair(50, d.rotation)]
    + seq![f64_pair(41, d.relative_x_scale_factor)]
}

impl AttributeDefinition {
    /// Writes the fields of `attribute_definition_pairs_1`.
    fn write_fields_1(&self, version: AcadVersion, out: &mut Vec<CodePair>)
        ensures
            pairs_view(final(out)@) == pairs_view(old(out)@) + attribute_definition_pairs_1(self@, version),
    {
        let ghost start = pairs_view(out@);
        let ghost mut acc: Seq<PairView> = Seq::empty();
        if version.at_least(AcadVersion::R13) {
            emit(out, CodePair::new_str(100, String::from_str("AcDbText")));
        }
        proof {
            acc = (if version.rank() >= AcadVersion::R13.rank() {
                seq![str_pair(100, "AcDbText"@)]
            } else {
                Seq::empty()
            });
        }
        assert(pairs_view(out@) =~= start + acc);
        emit(out, CodePair::new_f64(39, self.thickness));
        proof {
            acc = acc + seq![f64_pair(39, self@.thickness)];
        }
        assert(pairs_view(out@) =~= start + acc);
        emit_xyz(out, 10, self.location.x, self.location.y, self.location.z);
        proof {
            acc = acc + xyz_pairs(10, self@.location.x, self@.location.y, self@.location.z);
        }
        assert(pairs_view(out@) =~= start + acc);
        emit(out, CodePair::new_f64(40, self.text_height));
        proof {
            acc = acc + seq![f64_pair(40, self@.text_height)];
        }
        assert(pairs_view(out@) =~= start + acc);
        emit(out, CodePair::new_str(1, self.value.clone()));
        proof {
            acc = acc + seq![str_pair(1, self@.value)];
        }
        assert(pairs_view(out@) =~= start + acc);
        emit(out, CodePair::new_f64(50, self.rotation));
        proof {
            acc = acc + seq![f64_pair(50, self@.rotation)];
        }
        assert(pairs_view(out@) =~= start + acc);
        emit(out, CodePair::new_f64(41, self.relative_x_scale_factor));
        proof {
            acc = acc + seq![f64_pair(41, self@.relative_x_scale_factor)];
        }
        assert(pairs_view(out@) =~= start + acc);
        assert(acc == attribute_definition_pairs_1(self@, version));
    }
}

/// Part 2 of the pairs of `attribute_definition_pairs`.
pub open spec fn attribute_definition_pairs_2(d: AttributeDefinitionView, version: AcadVersion) -> Seq<PairView> {
    seq![f64_pair(51, d.oblique_angle)]
    + seq![str_pair(7, d.text_style_name)]
    + seq![i16_pair(71, d.text_generation_flags as i16)]
    + seq![i16_pair(72, d.horizontal_text_justification.code() as i16)]
    + xyz_pairs(11, d.second_alignment_point.x, d.second_alignment_point.y, d.second_alignment_point.z)
    + xyz_pairs(210, d.normal.x, d.normal.y, d.normal.z)
    + (if version.rank() >= AcadVersion::R13.rank() {
        seq![str_pair(100, "AcDbAttributeDefinition"@)]
    } else {
        Seq::empty()
    })
}

impl AttributeDefinition {
    /// Writes the fields of `attribute_definition_pairs_2`.
    fn write_fields_2(&self, version: AcadVersion, out: &mut Vec<CodePair>)
        ensures
            pairs_view(final(out)@) == pairs_view(old(out)@) + attribute_definition_pairs_2(self@, version),
    {
        let ghost start = pairs_view(out@);
        let ghost mut acc: Seq<PairView> = Seq::empty();
        emit(out, CodePair::new_f64(51, self.oblique_angle));
        proof {
            acc = seq![f64_pair(51, self@.oblique_angle)];
        }
        assert(pairs_view(out@) =~= start + acc);
        emit(out, CodePair::new_str(7, self.text_style_name.clone()));
        proof {
            acc = acc + seq![str_pair(7, self@.text_style_name)];
        }
        assert(pairs_view(out@) =~= start + acc);
        emit(out, CodePair::new_i16(71, self.text_generation_flags as i16));
        proof {
            acc = acc + seq![i16_pair(71, self@.text_generation_flags as i16)];
        }
        assert(pairs_view(out@) =~= start + acc);
        emit(out, CodePair::new_i16(72, self.horizontal_text_justification.to_i16()));
        proof {
            acc = acc + seq![i16_pair(72, self@.horizontal_text_justification.code() as i16)];
        }
        assert(pairs_view(out@) =~= start + acc);
        emit_xyz(out, 11, self.second_alignment_point.x, self.second_alignment_point.y, self.second_alignment_point.z);
        proof {
            acc = acc + xyz_pairs(11, self@.second_alignment_point.x, self@.second_alignment_point.y, self@.second_alignment_point.z);
        }
        assert(pairs_view(out@) =~= start + acc);
        emit_xyz(out, 210, self.normal.x, self.normal.y, self.normal.z);
        proof {
            acc = acc + xyz_pairs(210, self@.normal.x, self@.normal.y, self@.normal.z);
        }
        assert(pairs_view(out@) =~= start + acc);
        if version.at_least(AcadVersion::R13) {
            emit(out, CodePair::new_str(100, String::from_str("AcDbAttributeDefinition")));
        }
        proof {
            acc = acc + (if version.rank() >= AcadVersion::R13.rank() {
                seq![str_pair(100, "AcDbAttributeDefinition"@)]
            } else {
                Seq::empty()
            });
        }
        assert(pairs_view(out@) =~= start + acc);
        assert(acc == attribute_definition_pairs_2(self@, version));
    }
}

/// Part 3 of the pairs of `attribute_definition_pairs`.
pub open spec fn attribute_definition_pairs_3(d: AttributeDefinitionView, version: AcadVersion) -> Seq<PairView> {
    (if version.rank() >= AcadVersion::R2010.rank() {
        seq![i16_pair(280, d.version.code() as i16)]
    } else {
        Seq::empty()
    })
    + seq![str_pair(3, d.prompt)]
    + seq![str_pair(2, d.text_tag)]
    + seq![i16_pair(70, d.flags as i16)]
    + seq![i16_pair(73, d.field_length)]
    + seq![i16_pair(74, d.vertical_text_justification.code() as i16)]
    + (if version.rank() >= AcadVersion::R2010.rank() {
        seq![i16_pair(280, if d.is_locked_in_block { 1i16 } else { 0i16 })]
    } else {
        Seq::empty()
    })
}

impl AttributeDefinition {
    /// Writes the fields of `attribute_definition_pairs_3`.
    fn write_fields_3(&self, version: AcadVersion, out: &mut Vec<CodePair>)
        ensures
            pairs_view(final(out)@) == pairs_view(old(out)@) + attribute_definition_pairs_3(self@, version),
    {
        let ghost start = pairs_view(out@);
        let ghost mut acc: Seq<PairView> = Seq::empty();
        if version.at_least(AcadVersion::R2010) {
            emit(out, CodePair::new_i16(280, self.version.to_i16()));
        }
        proof {
            acc = (if version.rank() >= AcadVersion::R2010.rank() {
                seq![i16_pair(280, self@.version.code() as i16)]
            } else {
                Seq::empty()
            });
        }
        assert(pairs_view(out@) =~= start + acc);
        emit(out, CodePair::new_str(3, self.prompt.clone()));
        proof {
            acc = acc + seq![str_pair(3, self@.prompt)];
        }
        assert(pairs_view(out@) =~= start + acc);
        emit(out, CodePair::new_str(2, self.text_tag.clone()));
        proof {
            acc = acc + seq![str_pair(2, self@.text_tag)];
        }
        assert(pairs_view(out@) =~= start + acc);
        emit(out, CodePair::new_i16(70, self.flags as i16));
        proof {
            acc = acc + seq![i16_pair(70, self@.flags as i16)];
        }
        assert(pairs_view(out@) =~= start + acc);
        emit(out, CodePair::new_i16(73, self.field_length));
        proof {
            acc = acc + seq![i16_pair(73, self@.field_length)];
        }
        assert(pairs_view(out@) =~= start + acc);
        emit(out, CodePair::new_i16(74, self.vertical_text_justification.to_i16()));
        proof {
            acc = acc + seq![i16_pair(74, self@.vertical_text_justification.code() as i16)];
        }
        assert(pairs_view(out@) =~= start + acc);
        if version.at_least(AcadVersion::R2010) {
            emit(out, CodePair::new_i16(280, as_i16(self.is_locked_in_block)));
        }
        proof {
            acc = acc + (if version.rank() >= AcadVersion::R2010.rank() {
                seq![i16_pair(280, if self@.is_locked_in_block { 1i16 } else { 0i16 })]
            } else {
                Seq::empty()
            });
        }
        assert(pairs_view(out@) =~= start + acc);
        assert(acc == attribute_definition_pairs_3(self@, version));
    }
}

/// Part 4 of the pairs of `attribute_definition_pairs`.
pub open spec fn attribute_definition_pairs_4(d: AttributeDefinitionView, version: AcadVersion) -> Seq<PairView> {
    (if version.rank() >= AcadVersion::R2018.rank() {
        seq![str_pair(100, "AcDbXrecord"@)]
    } else {
        Seq::empty()
    })
    + (if version.rank() >= AcadVersion::R2018.rank() {
        seq![i16_pair(280, if d.keep_duplicate_records { 1i16 } else { 0i16 })]
    } else {
        Seq::empty()
    })
    + (if version.rank() >= AcadVersion::R2018.rank() {
        seq![i16_pair(70, d.m_text_flag.code() as i16)]
    } else {
        Seq::empty()
    })
    + (if version.rank() >= AcadVersion::R2018.rank() {
        seq![i16_pair(70, if d.is_really_locked { 1i16 } else { 0i16 })]
    } else {
        Seq::empty()
    })
    + (if version.rank() >= AcadVersion::R2018.rank() {
        seq![i16_pair(70, d.secondary_attribute_count as i16)]
    } else {
        Seq::empty()
    })
    + (if version.rank() >= AcadVersion::R2018.rank() {
        handle_pairs(340, d.secondary_attributes)
    } else {
        Seq::empty()
    })
    + (if version.rank() >= AcadVersion::R2018.rank() {
        xyz_pairs(10, d.alignment_point.x, d.alignment_point.y, d.alignment_point.z)
    } else {
        Seq::empty()
    })
}

impl AttributeDefinition {
    /// Writes the fields of `attribute_definition_pairs_4`.
    fn write_fields_4(&self, version: AcadVersion, out: &mut Vec<CodePair>)
        ensures
            pairs_view(final(out)@) == pairs_view(old(out)@) + attribute_definition_pairs_4(self@, version),
    {
        let ghost start = pairs_view(out@);
        let ghost mut acc: Seq<PairView> = Seq::empty();
        if version.at_least(AcadVersion::R2018) {
            emit(out, CodePair::new_str(100, String::from_str("AcDbXrecord")));
        }
        proof {
            acc = (if version.rank() >= AcadVersion::R2018.rank() {
                seq![str_pair(100, "AcDbXrecord"@)]
            } else {
                Seq::empty()
            });
        }
        assert(pairs_view(out@) =~= start + acc);
        if version.at_least(AcadVersion::R2018) {
            emit(out, CodePair::new_i16(280, as_i16(self.keep_duplicate_records)));
        }
        proof {
            acc = acc + (if version.rank() >= AcadVersion::R2018.rank() {
                seq![i16_pair(280, if self@.keep_duplicate_records { 1i16 } else { 0i16 })]
            } else {
                Seq::empty()
            });
        }
        assert(pairs_view(out@) =~= start + acc);
        if version.at_least(AcadVersion::R2018) {
            emit(out, CodePair::new_i16(70, self.m_text_flag.to_i16()));
        }
        proof {
            acc = acc + (if version.rank() >= AcadVersion::R2018.rank() {
                seq![i16_pair(70, self@.m_text_flag.code() as i16)]
            } else {
                Seq::empty()
            });
        }
        assert(pairs_view(out@) =~= start + acc);
        if version.at_least(AcadVersion::R2018) {
            emit(out, CodePair::new_i16(70, as_i16(self.is_really_locked)));
        }
        proof {
            acc = acc + (if version.rank() >= AcadVersion::R2018.rank() {
                seq![i16_pair(70, if self@.is_really_locked { 1i16 } else { 0i16 })]
            } else {
                Seq::empty()
            });
        }
        assert(pairs_view(out@) =~= start + acc);
        if version.at_least(AcadVersion::R2018) {
            emit(out, CodePair::new_i16(70, self.secondary_attribute_count as i16));
        }
        proof {
            acc = acc + (if version.rank() >= AcadVersion::R2018.rank() {
                seq![i16_pair(70, self@.secondary_attribute_count as i16)]
            } else {
                Seq::empty()
            });
        }
        assert(pairs_view(out@) =~= start + acc);
        if version.at_least(AcadVersion::R2018) {
            emit_handles(out, 340, &self.secondary_attributes);
        }
        proof {
            acc = acc + (if version.rank() >= AcadVersion::R2018.rank() {
                handle_pairs(340, self@.secondary_attributes)
            } else {
                Seq::empty()
            });
        }
        assert(pairs_view(out@) =~= start + acc);
        if version.at_least(AcadVersion::R2018) {
            emit_xyz(out, 10, self.alignment_point.x, self.alignment_point.y, self.alignment_point.z);
        }
        proof {
            acc = acc + (if version.rank() >= AcadVersion::R2018.rank() {
                xyz_pairs(10, self@.alignment_point.x, self@.alignment_point.y, self@.alignment_point.z)
            } else {
                Seq::empty()
            });
        }
        assert(pairs_view(out@) =~= start + acc);
        assert(acc == attribute_definition_pairs_4(self@, version));
    }
}

/// Part 5 of the pairs of `attribute_definition_pairs`.
pub open spec fn attribute_definition_pairs_5(d: AttributeDefinitionView, version: AcadVersion) -> Seq<PairView> {
    (if version.rank() >= AcadVersion::R2018.rank() {
        seq![f64_pair(40, d.annotation_scale)]
    } else {
        Seq::empty()
    })
    + (if version.rank() >= AcadVersion::R2018.rank() {
        seq![str_pair(2, d.x_record_tag)]
    } else {
        Seq::empty()
    })
}

impl AttributeDefinition {
    /// Writes the fields of `attribute_definition_pairs_5`.
    fn write_fields_5(&self, version: AcadVersion, out: &mut Vec<CodePair>)
        ensures
            pairs_view(final(out)@) == pairs_view(old(out)@) + attribute_definition_pairs_5(self@, version),
    {
        let ghost start = pairs_view(out@);
        let ghost mut acc: Seq<PairView> = Seq::empty();
        if version.at_least(AcadVersion::R2018) {
            emit(out, CodePair::new_f64(40, self.annotation_scale));
        }
        proof {
            acc = (if version.rank() >= AcadVersion::R2018.rank() {
                seq![f64_pair(40, self@.annotation_scale)]
            } else {
                Seq::empty()
            });
        }
        assert(pairs_view(out@) =~= start + acc);
        if version.at_least(AcadVersion::R2018) {
            emit(out, CodePair::new_str(2, self.x_record_tag.clone()));
        }
        proof {
            acc = acc + (if version.rank() >= AcadVersion::R2018.rank() {
                seq![str_pair(2, self@.x_record_tag)]
            } else {
                Seq::empty()
            });
        }
        assert(pairs_view(out@) =~= start + acc);
        assert(acc == attribute_definition_pairs_5(self@, version));
    }
}

/// The pairs of an attribute definition: text block, own block, then the extension record from release R2018 on.
pub open spec fn attribute_definition_pairs(d: AttributeDefinitionView, version: AcadVersion) -> Seq<PairView> {
    attribute_definition_pairs_1(d, version)
    + attribute_definition_pairs_2(d, version)
    + attribute_definition_pairs_3(d, version)
    + attribute_definition_pairs_4(d, version)
    + attribute_definition_pairs_5(d, version)
}

impl AttributeDefinition {
    /// Writes the fields of this entity kind.
    pub fn write_fields(&self, version: AcadVersion, out: &mut Vec<CodePair>)
        ensures
            pairs_view(final(out)@) == pairs_view(old(out)@) + attribute_definition_pairs(self@, version),
    {
        let ghost start = pairs_view(out@);
        self.write_fields_1(version, out);
        self.write_fields_2(version, out);
        self.write_fields_3(version, out);
        self.write_fields_4(version, out);
        self.write_fields_5(version, out);
        assert(pairs_view(out@) =~= start + (attribute_definition_pairs_1(self@, version) + attribute_definition_pairs_2(self@, version) + attribute_definition_pairs_3(self@, version) + attribute_definition_pairs_4(self@, version) + attribute_definition_pairs_5(self@, version)));
    }
}

} // verus!
