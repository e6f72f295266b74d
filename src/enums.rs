//! Enumerations of the format, each with its numeric encoding.

use vstd::prelude::*;

verus! {

/// A release of the drawing format. Releases are totally ordered; `rank` gives the order.
#[derive(Clone, Copy, Debug, PartialEq, Eq, Structural)]
pub enum AcadVersion {
    R10,
    R11,
    R12,
    R13,
    R14,
    R2000,
    R2004,
    R2007,
    R2010,
    R2013,
    R2018,
}

impl AcadVersion {
    /// The number that encodes this member.
    pub open spec fn code(self) -> int {
        match self {
            AcadVersion::R10 => 0,
            AcadVersion::R11 => 1,
            AcadVersion::R12 => 2,
            AcadVersion::R13 => 3,
            AcadVersion::R14 => 4,
            AcadVersion::R2000 => 5,
            AcadVersion::R2004 => 6,
            AcadVersion::R2007 => 7,
            AcadVersion::R2010 => 8,
            AcadVersion::R2013 => 9,
            AcadVersion::R2018 => 10,
        }
    }

    /// The member that a number encodes, if any.
    pub open spec fn from_code(v: int) -> Option<Self> {
        if v == 0 {
            Some(AcadVersion::R10)
        } else if v == 1 {
            Some(AcadVersion::R11)
        } else if v == 2 {
            Some(AcadVersion::R12)
        } else if v == 3 {
            Some(AcadVersion::R13)
        } else if v == 4 {
            Some(AcadVersion::R14)
        } else if v == 5 {
            Some(AcadVersion::R2000)
        } else if v == 6 {
            Some(AcadVersion::R2004)
        } else if v == 7 {
            Some(AcadVersion::R2007)
        } else if v == 8 {
            Some(AcadVersion::R2010)
        } else if v == 9 {
            Some(AcadVersion::R2013)
        } else if v == 10 {
            Some(AcadVersion::R2018)
        } else {
            None
        }
    }

    pub fn from_i16(v: i16) -> (r: Option<Self>)
        ensures
            r == Self::from_code(v as int),
    {
        match v {
            0 => Some(AcadVersion::R10),
            1 => Some(AcadVersion::R11),
            2 => Some(AcadVersion::R12),
            3 => Some(AcadVersion::R13),
            4 => Some(AcadVersion::R14),
            5 => Some(AcadVersion::R2000),
            6 => Some(AcadVersion::R2004),
            7 => Some(AcadVersion::R2007),
            8 => Some(AcadVersion::R2010),
            9 => Some(AcadVersion::R2013),
            10 => Some(AcadVersion::R2018),
            _ => None,
        }
    }

    pub fn to_i16(self) -> (r: i16)
        ensures
            r as int == self.code(),
    {
        match self {
            AcadVersion::R10 => 0,
            AcadVersion::R11 => 1,
            AcadVersion::R12 => 2,
            AcadVersion::R13 => 3,
            AcadVersion::R14 => 4,
            AcadVersion::R2000 => 5,
            AcadVersion::R2004 => 6,
            AcadVersion::R2007 => 7,
            AcadVersion::R2010 => 8,
            AcadVersion::R2013 => 9,
            AcadVersion::R2018 => 10,
        }
    }
}

/// The base kind of a dimension, the low four bits of its packed type field.
#[derive(Clone, Copy, Debug, PartialEq, Eq, Structural)]
pub enum DimensionType {
    RotatedHorizontalOrVertical,
    Aligned,
    Angular,
    Diameter,
    Radius,
    AngularThreePoint,
    Ordinate,
}

impl DimensionType {
    /// The number that encodes this member.
    pub open spec fn code(self) -> int {
        match self {
            DimensionType::RotatedHorizontalOrVertical => 0,
            DimensionType::Aligned => 1,
            DimensionType::Angular => 2,
            DimensionType::Diameter => 3,
            DimensionType::Radius => 4,
            DimensionType::AngularThreePoint => 5,
            DimensionType::Ordinate => 6,
        }
    }

    /// The member that a number encodes, if any.
    pub open spec fn from_code(v: int) -> Option<Self> {
        if v == 0 {
            Some(DimensionType::RotatedHorizontalOrVertical)
        } else if v == 1 {
            Some(DimensionType::Aligned)
        } else if v == 2 {
            Some(DimensionType::Angular)
        } else if v == 3 {
            Some(DimensionType::Diameter)
        } else if v == 4 {
            Some(DimensionType::Radius)
        } else if v == 5 {
            Some(DimensionType::AngularThreePoint)
        } else if v == 6 {
            Some(DimensionType::Ordinate)
        } else {
            None
        }
    }

    pub fn from_i16(v: i16) -> (r: Option<Self>)
        ensures
            r == Self::from_code(v as int),
    {
        match v {
            0 => Some(DimensionType::RotatedHorizontalOrVertical),
            1 => Some(DimensionType::Aligned),
            2 => Some(DimensionType::Angular),
            3 => Some(DimensionType::Diameter),
            4 => Some(DimensionType::Radius),
            5 => Some(DimensionType::AngularThreePoint),
            6 => Some(DimensionType::Ordinate),
            _ => None,
        }
    }

    pub fn to_i16(self) -> (r: i16)
        ensures
            r as int == self.code(),
    {
        match self {
            DimensionType::RotatedHorizontalOrVertical => 0,
            DimensionType::Aligned => 1,
            DimensionType::Angular => 2,
            DimensionType::Diameter => 3,
            DimensionType::Radius => 4,
            DimensionType::AngularThreePoint => 5,
            DimensionType::Ordinate => 6,
        }
    }
}

/// Where text is anchored relative to its insertion point.
#[derive(Clone, Copy, Debug, PartialEq, Eq, Structural)]
pub enum AttachmentPoint {
    TopLeft,
    TopCenter,
    TopRight,
    MiddleLeft,
    MiddleCenter,
    MiddleRight,
    BottomLeft,
    BottomCenter,
    BottomRight,
}

impl AttachmentPoint {
    /// The number that encodes this member.
    pub open spec fn code(self) -> int {
        match self {
            AttachmentPoint::TopLeft => 1,
            AttachmentPoint::TopCenter => 2,
            AttachmentPoint::TopRight => 3,
            AttachmentPoint::MiddleLeft => 4,
            AttachmentPoint::MiddleCenter => 5,
            AttachmentPoint::MiddleRight => 6,
            AttachmentPoint::BottomLeft => 7,
            AttachmentPoint::BottomCenter => 8,
            AttachmentPoint::BottomRight => 9,
        }
    }

    /// The member that a number encodes, if any.
    pub open spec fn from_code(v: int) -> Option<Self> {
        if v == 1 {
            Some(AttachmentPoint::TopLeft)
        } else if v == 2 {
            Some(AttachmentPoint::TopCenter)
        } else if v == 3 {
            Some(AttachmentPoint::TopRight)
        } else if v == 4 {
            Some(AttachmentPoint::MiddleLeft)
        } else if v == 5 {
            Some(AttachmentPoint::MiddleCenter)
        } else if v == 6 {
            Some(AttachmentPoint::MiddleRight)
        } else if v == 7 {
            Some(AttachmentPoint::BottomLeft)
        } else if v == 8 {
            Some(AttachmentPoint::BottomCenter)
        } else if v == 9 {
            Some(AttachmentPoint::BottomRight)
        } else {
            None
        }
    }

    pub fn from_i16(v: i16) -> (r: Option<Self>)
        ensures
            r == Self::from_code(v as int),
    {
        match v {
            1 => Some(AttachmentPoint::TopLeft),
            2 => Some(AttachmentPoint::TopCenter),
            3 => Some(AttachmentPoint::TopRight),
            4 => Some(AttachmentPoint::MiddleLeft),
            5 => Some(AttachmentPoint::MiddleCenter),
            6 => Some(AttachmentPoint::MiddleRight),
            7 => Some(AttachmentPoint::BottomLeft),
            8 => Some(AttachmentPoint::BottomCenter),
            9 => Some(AttachmentPoint::BottomRight),
            _ => None,
        }
    }

    pub fn to_i16(self) -> (r: i16)
        ensures
            r as int == self.code(),
    {
        match self {
            AttachmentPoint::TopLeft => 1,
            AttachmentPoint::TopCenter => 2,
            AttachmentPoint::TopRight => 3,
            AttachmentPoint::MiddleLeft => 4,
            AttachmentPoint::MiddleCenter => 5,
            AttachmentPoint::MiddleRight => 6,
            AttachmentPoint::BottomLeft => 7,
            AttachmentPoint::BottomCenter => 8,
            AttachmentPoint::BottomRight => 9,
        }
    }
}

/// How the line spacing of multi-line text is applied.
#[derive(Clone, Copy, Debug, PartialEq, Eq, Structural)]
pub enum TextLineSpacingStyle {
    AtLeast,
    Exact,
}

impl TextLineSpacingStyle {
    /// The number that encodes this member.
    pub open spec fn code(self) -> int {
        match self {
            TextLineSpacingStyle::AtLeast => 1,
            TextLineSpacingStyle::Exact => 2,
        }
    }

    /// The member that a number encodes, if any.
    pub open spec fn from_code(v: int) -> Option<Self> {
        if v == 1 {
            Some(TextLineSpacingStyle::AtLeast)
        } else if v == 2 {
            Some(TextLineSpacingStyle::Exact)
        } else {
            None
        }
    }

    pub fn from_i16(v: i16) -> (r: Option<Self>)
        ensures
            r == Self::from_code(v as int),
    {
        match v {
            1 => Some(TextLineSpacingStyle::AtLeast),
            2 => Some(TextLineSpacingStyle::Exact),
            _ => None,
        }
    }

    pub fn to_i16(self) -> (r: i16)
        ensures
            r as int == self.code(),
    {
        match self {
            TextLineSpacingStyle::AtLeast => 1,
            TextLineSpacingStyle::Exact => 2,
        }
    }
}

/// The object version stored by entities that carry one.
#[derive(Clone, Copy, Debug, PartialEq, Eq, Structural)]
pub enum Version {
    R2010,
}

impl Version {
    /// The number that encodes this member.
    pub open spec fn code(self) -> int {
        match self {
            Version::R2010 => 0,
        }
    }

    /// The member that a number encodes, if any.
    pub open spec fn from_code(v: int) -> Option<Self> {
        if v == 0 {
            Some(Version::R2010)
        } else {
            None
        }
    }

    pub fn from_i16(v: i16) -> (r: Option<Self>)
        ensures
            r == Self::from_code(v as int),
    {
        match v {
            0 => Some(Version::R2010),
            _ => None,
        }
    }

    pub fn to_i16(self) -> (r: i16)
        ensures
            r as int == self.code(),
    {
        match self {
            Version::R2010 => 0,
        }
    }
}

/// The multi-line text flag of an attribute.
#[derive(Clone, Copy, Debug, PartialEq, Eq, Structural)]
pub enum MTextFlag {
    MultilineAttribute,
    ConstantMultilineAttributeDefinition,
}

impl MTextFlag {
    /// The number that encodes this member.
    pub open spec fn code(self) -> int {
        match self {
            MTextFlag::MultilineAttribute => 2,
            MTextFlag::ConstantMultilineAttributeDefinition => 4,
        }
    }

    /// The member that a number encodes, if any.
    pub open spec fn from_code(v: int) -> Option<Self> {
        if v == 2 {
            Some(MTextFlag::MultilineAttribute)
        } else if v == 4 {
            Some(MTextFlag::ConstantMultilineAttributeDefinition)
        } else {
            None
        }
    }

    pub fn from_i16(v: i16) -> (r: Option<Self>)
        ensures
            r == Self::from_code(v as int),
    {
        match v {
            2 => Some(MTextFlag::MultilineAttribute),
            4 => Some(MTextFlag::ConstantMultilineAttributeDefinition),
            _ => None,
        }
    }

    pub fn to_i16(self) -> (r: i16)
        ensures
            r as int == self.code(),
    {
        match self {
            MTextFlag::MultilineAttribute => 2,
            MTextFlag::ConstantMultilineAttributeDefinition => 4,
        }
    }
}

/// Horizontal justification of single-line text.
#[derive(Clone, Copy, Debug, PartialEq, Eq, Structural)]
pub enum HorizontalTextJustification {
    Left,
    Center,
    Right,
    Aligned,
    Middle,
    Fit,
}

impl HorizontalTextJustification {
    /// The number that encodes this member.
    pub open spec fn code(self) -> int {
        match self {
            HorizontalTextJustification::Left => 0,
            HorizontalTextJustification::Center => 1,
            HorizontalTextJustification::Right => 2,
            HorizontalTextJustification::Aligned => 3,
            HorizontalTextJustification::Middle => 4,
            HorizontalTextJustification::Fit => 5,
        }
    }

    /// The member that a number encodes, if any.
    pub open spec fn from_code(v: int) -> Option<Self> {
        if v == 0 {
            Some(HorizontalTextJustification::Left)
        } else if v == 1 {
            Some(HorizontalTextJustification::Center)
        } else if v == 2 {
            Some(HorizontalTextJustification::Right)
        } else if v == 3 {
            Some(HorizontalTextJustification::Aligned)
        } else if v == 4 {
            Some(HorizontalTextJustification::Middle)
        } else if v == 5 {
            Some(HorizontalTextJustification::Fit)
        } else {
            None
        }
    }

    pub fn from_i16(v: i16) -> (r: Option<Self>)
        ensures
            r == Self::from_code(v as int),
    {
        match v {
            0 => Some(HorizontalTextJustification::Left),
            1 => Some(HorizontalTextJustification::Center),
            2 => Some(HorizontalTextJustification::Right),
            3 => Some(HorizontalTextJustification::Aligned),
            4 => Some(HorizontalTextJustification::Middle),
            5 => Some(HorizontalTextJustification::Fit),
            _ => None,
        }
    }

    pub fn to_i16(self) -> (r: i16)
        ensures
            r as int == self.code(),
    {
        match self {
            HorizontalTextJustification::Left => 0,
            HorizontalTextJustification::Center => 1,
            HorizontalTextJustification::Right => 2,
            HorizontalTextJustification::Aligned => 3,
            HorizontalTextJustification::Middle => 4,
            HorizontalTextJustification::Fit => 5,
        }
    }
}

/// Vertical justification of single-line text.
#[derive(Clone, Copy, Debug, PartialEq, Eq, Structural)]
pub enum VerticalTextJustification {
    Baseline,
    Bottom,
    Middle,
    Top,
}

impl VerticalTextJustification {
    /// The number that encodes this member.
    pub open spec fn code(self) -> int {
        match self {
            VerticalTextJustification::Baseline => 0,
            VerticalTextJustification::Bottom => 1,
            VerticalTextJustification::Middle => 2,
            VerticalTextJustification::Top => 3,
        }
    }

    /// The member that a number encodes, if any.
    pub open spec fn from_code(v: int) -> Option<Self> {
        if v == 0 {
            Some(VerticalTextJustification::Baseline)
        } else if v == 1 {
            Some(VerticalTextJustification::Bottom)
        } else if v == 2 {
            Some(VerticalTextJustification::Middle)
        } else if v == 3 {
            Some(VerticalTextJustification::Top)
        } else {
            None
        }
    }

    pub fn from_i16(v: i16) -> (r: Option<Self>)
        ensures
            r == Self::from_code(v as int),
    {
        match v {
            0 => Some(VerticalTextJustification::Baseline),
            1 => Some(VerticalTextJustification::Bottom),
            2 => Some(VerticalTextJustification::Middle),
            3 => Some(VerticalTextJustification::Top),
            _ => None,
        }
    }

    pub fn to_i16(self) -> (r: i16)
        ensures
            r as int == self.code(),
    {
        match self {
            VerticalTextJustification::Baseline => 0,
            VerticalTextJustification::Bottom => 1,
            VerticalTextJustification::Middle => 2,
            VerticalTextJustification::Top => 3,
        }
    }
}

/// The direction in which multi-line text runs.
#[derive(Clone, Copy, Debug, PartialEq, Eq, Structural)]
pub enum DrawingDirection {
    LeftToRight,
    TopToBottom,
    ByStyle,
}

impl DrawingDirection {
    /// The number that encodes this member.
    pub open spec fn code(self) -> int {
        match self {
            DrawingDirection::LeftToRight => 1,
            DrawingDirection::TopToBottom => 3,
            DrawingDirection::ByStyle => 5,
        }
    }

    /// The member that a number encodes, if any.
    pub open spec fn from_code(v: int) -> Option<Self> {
        if v == 1 {
            Some(DrawingDirection::LeftToRight)
        } else if v == 3 {
            Some(DrawingDirection::TopToBottom)
        } else if v == 5 {
            Some(DrawingDirection::ByStyle)
        } else {
            None
        }
    }

    pub fn from_i16(v: i16) -> (r: Option<Self>)
        ensures
            r == Self::from_code(v as int),
    {
        match v {
            1 => Some(DrawingDirection::LeftToRight),
            3 => Some(DrawingDirection::TopToBottom),
            5 => Some(DrawingDirection::ByStyle),
            _ => None,
        }
    }

    pub fn to_i16(self) -> (r: i16)
        ensures
            r as int == self.code(),
    {
        match self {
            DrawingDirection::LeftToRight => 1,
            DrawingDirection::TopToBottom => 3,
            DrawingDirection::ByStyle => 5,
        }
    }
}

/// The background fill of multi-line text.
#[derive(Clone, Copy, Debug, PartialEq, Eq, Structural)]
pub enum BackgroundFillSetting {
    Off,
    UseBackgroundFillColor,
    UseDrawingWindowColor,
}

impl BackgroundFillSetting {
    /// The number that encodes this member.
    pub open spec fn code(self) -> int {
        match self {
            BackgroundFillSetting::Off => 0,
            BackgroundFillSetting::UseBackgroundFillColor => 1,
            BackgroundFillSetting::UseDrawingWindowColor => 2,
        }
    }

    /// The member that a number encodes, if any.
    pub open spec fn from_code(v: int) -> Option<Self> {
        if v == 0 {
            Some(BackgroundFillSetting::Off)
        } else if v == 1 {
            Some(BackgroundFillSetting::UseBackgroundFillColor)
        } else if v == 2 {
            Some(BackgroundFillSetting::UseDrawingWindowColor)
        } else {
            None
        }
    }

    pub fn from_i32(v: i32) -> (r: Option<Self>)
        ensures
            r == Self::from_code(v as int),
    {
        match v {
            0 => Some(BackgroundFillSetting::Off),
            1 => Some(BackgroundFillSetting::UseBackgroundFillColor),
            2 => Some(BackgroundFillSetting::UseDrawingWindowColor),
            _ => None,
        }
    }

    pub fn to_i32(self) -> (r: i32)
        ensures
            r as int == self.code(),
    {
        match self {
            BackgroundFillSetting::Off => 0,
            BackgroundFillSetting::UseBackgroundFillColor => 1,
            BackgroundFillSetting::UseDrawingWindowColor => 2,
        }
    }
}

impl AcadVersion {
    /// Position of the release in the order of releases.
    pub open spec fn rank(self) -> int {
        self.code()
    }

    /// Whether this release is `other` or a later one.
    pub fn at_least(self, other: AcadVersion) -> (r: bool)
        ensures
            r == (self.rank() >= other.rank()),
    {
        self.to_i16() >= other.to_i16()
    }
}

} // verus!
