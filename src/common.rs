//! Fields shared by every entity, and the way pairs are folded into state.

use vstd::prelude::*;
use crate::code_pair::{CodePair, Color, DxfError, PairView, pairs_view, str_pair, i16_pair, emit};
use crate::enums::AcadVersion;
use crate::handle::{as_u32, handle_text, hex_value, is_handle_text, hex_text};

verus! {

/// Folds the pairs of one entity, in order, into a state; the first failing
/// step decides the result.
pub open spec fn fold_pairs<S>(
    init: S,
    pairs: Seq<CodePair>,
    step: spec_fn(S, CodePair) -> Result<S, DxfError>,
) -> Result<S, DxfError>
    decreases pairs.len(),
{
    if pairs.len() == 0 {
        Ok(init)
    } else {
        match fold_pairs(init, pairs.drop_last(), step) {
            Ok(s) => step(s, pairs.last()),
            Err(e) => Err(e),
        }
    }
}

/// Folding one more pair continues from the fold of the pairs before it.
pub proof fn lemma_fold_extend<S>(
    init: S,
    s: Seq<CodePair>,
    i: int,
    step: spec_fn(S, CodePair) -> Result<S, DxfError>,
)
    requires
        0 <= i < s.len(),
    ensures
        fold_pairs(init, s.take(i + 1), step) == match fold_pairs(init, s.take(i), step) {
            Ok(t) => step(t, s[i]),
            Err(e) => Err(e),
        },
{
    assert(s.take(i + 1).drop_last() == s.take(i));
    assert(s.take(i + 1).last() == s[i]);
}

/// Once a prefix fails, the whole fold fails with the same error.
pub proof fn lemma_fold_err<S>(
    init: S,
    s: Seq<CodePair>,
    i: int,
    step: spec_fn(S, CodePair) -> Result<S, DxfError>,
)
    requires
        0 <= i <= s.len(),
        fold_pairs(init, s.take(i), step) is Err,
    ensures
        fold_pairs(init, s, step) == fold_pairs(init, s.take(i), step),
    decreases s.len() - i,
{
    if i < s.len() {
        lemma_fold_extend(init, s, i, step);
        lemma_fold_err(init, s, i + 1, step);
    } else {
        assert(s.take(i) == s);
    }
}

/// A step that succeeded with state `s`, or the error it ended with.
pub open spec fn outcome<S>(r: Result<(), DxfError>, s: S) -> Result<S, DxfError> {
    match r {
        Ok(_) => Ok(s),
        Err(e) => Err(e),
    }
}

/// A step that claimed its pair (`Ok(true)`, with state `s`), left it to
/// the common fields (`Ok(false)`), or failed.
pub open spec fn claimed<S>(r: Result<bool, DxfError>, s: S) -> Result<Option<S>, DxfError> {
    match r {
        Ok(true) => Ok(Some(s)),
        Ok(false) => Ok(None),
        Err(e) => Err(e),
    }
}

/// One pair offered first to an entity kind's own step, then, when that step
/// does not claim it, to the common fields.
pub open spec fn with_common<S>(
    own: Result<Option<S>, DxfError>,
    s: S,
    c: CommonView,
    pair: CodePair,
) -> Result<(S, CommonView), DxfError> {
    match own {
        Ok(Some(t)) => Ok((t, c)),
        Ok(None) => match common_step(c, pair) {
            Ok(c2) => Ok((s, c2)),
            Err(e) => Err(e),
        },
        Err(e) => Err(e),
    }
}

/// Attributes that every entity has.
#[derive(Clone, Debug, PartialEq)]
pub struct EntityCommon {
    pub handle: u32,
    pub layer: String,
    pub line_type_name: String,
    pub color: Color,
}

pub struct CommonView {
    pub handle: u32,
    pub layer: Seq<char>,
    pub line_type_name: Seq<char>,
    pub color: Color,
}

impl View for EntityCommon {
    type V = CommonView;

    open spec fn view(&self) -> CommonView {
        CommonView {
            handle: self.handle,
            layer: self.layer@,
            line_type_name: self.line_type_name@,
            color: self.color,
        }
    }
}

/// Common fields of a fresh entity: layer "0", line type and color by layer.
pub open spec fn default_common() -> CommonView {
    CommonView {
        handle: 0,
        layer: "0"@,
        line_type_name: "BYLAYER"@,
        color: Color { raw_value: 256 },
    }
}

/// What the common-field applier does with one pair; codes it does not know
/// leave the fields as they are.
pub open spec fn common_step(c: CommonView, pair: CodePair) -> Result<CommonView, DxfError> {
    match pair.code {
        5 => match pair.string_value() {
            Ok(s) => if is_handle_text(s@) {
                Ok(CommonView { handle: hex_value(s@) as u32, ..c })
            } else {
                Err(DxfError::ParseIntError(s))
            },
            Err(e) => Err(e),
        },
        8 => match pair.string_value() {
            Ok(s) => Ok(CommonView { layer: s@, ..c }),
            Err(e) => Err(e),
        },
        6 => match pair.string_value() {
            Ok(s) => Ok(CommonView { line_type_name: s@, ..c }),
            Err(e) => Err(e),
        },
        62 => match pair.i16_value() {
            Ok(v) => Ok(CommonView { color: Color { raw_value: v }, ..c }),
            Err(e) => Err(e),
        },
        _ => Ok(c),
    }
}

/// The pairs that carry the common fields.
pub open spec fn common_pairs(c: CommonView, version: AcadVersion, write_handles: bool) -> Seq<
    PairView,
> {
    (if write_handles {
        seq![str_pair(5, hex_text(c.handle as nat))]
    } else {
        Seq::empty()
    }) + (if version.rank() >= AcadVersion::R13.rank() {
        seq![str_pair(100, "AcDbEntity"@)]
    } else {
        Seq::empty()
    }) + seq![str_pair(8, c.layer), str_pair(6, c.line_type_name), i16_pair(62, c.color.raw_value)]
}

impl EntityCommon {
    pub fn new() -> (r: EntityCommon)
        ensures
            r@ == default_common(),
    {
        EntityCommon {
            handle: 0,
            layer: String::from_str("0"),
            line_type_name: String::from_str("BYLAYER"),
            color: Color::by_layer(),
        }
    }

    /// Applies one pair that the entity's own decoder did not claim.
    pub fn apply_individual_pair(&mut self, pair: &CodePair) -> (r: Result<(), DxfError>)
        ensures
            common_step(old(self)@, *pair) == outcome(r, final(self)@),
    {
        match pair.code {
            5 => {
                let s = pair.assert_string()?;
                self.handle = as_u32(s)?;
            },
            8 => {
                self.layer = pair.assert_string()?;
            },
            6 => {
                self.line_type_name = pair.assert_string()?;
            },
            62 => {
                self.color = Color::from_raw_value(pair.assert_i16()?);
            },
            _ => {},
        }
        Ok(())
    }

    /// Writes the common fields.
    pub fn write(&self, version: AcadVersion, write_handles: bool, out: &mut Vec<CodePair>)
        ensures
            pairs_view(final(out)@) == pairs_view(old(out)@) + common_pairs(
                self@,
                version,
                write_handles,
            ),
    {
        let ghost start = pairs_view(out@);
        if write_handles {
            emit(out, CodePair::new_str(5, handle_text(self.handle)));
        }
        if version.at_least(AcadVersion::R13) {
            emit(out, CodePair::new_str(100, String::from_str("AcDbEntity")));
        }
        emit(out, CodePair::new_str(8, self.layer.clone()));
        emit(out, CodePair::new_str(6, self.line_type_name.clone()));
        emit(out, CodePair::new_i16(62, self.color.raw_value));
        assert(pairs_view(out@) =~= start + common_pairs(self@, version, write_handles));
    }
}

} // verus!
