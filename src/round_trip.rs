//! What is written reads back: proofs over the writer's and the reader's
//! specifications.

use vstd::prelude::*;
use crate::code_pair::{CodePair, DxfError, Point, Vector, pairs_view, str_pair, f64_pair, i16_pair};
use crate::common::{CommonView, common_pairs, default_common, fold_pairs, lemma_fold_extend};
use crate::entity::{
    EntityTypeView, EntityView, decode_entity, empty_accumulators, entity_items, entity_pairs,
    generic_steps, lemma_entity_items_body, read_spec, starts_with_marker, type_from_string,
};
use crate::enums::AcadVersion;
use crate::handle::{hex_text, lemma_handle_text_round_trip};
use crate::simple::{Line, LineView, line_pairs};
use crate::stream::StreamItem;

verus! {

proof fn lemma_line_pairs(c: CommonView, d: LineView)
    ensures
        common_pairs(c, AcadVersion::R2018, true) + line_pairs(d, AcadVersion::R2018) == seq![
        str_pair(5, hex_text(c.handle as nat)),
        str_pair(100, "AcDbEntity"@),
        str_pair(8, c.layer),
        str_pair(6, c.line_type_name),
        i16_pair(62, c.color.raw_value),
        str_pair(100, "AcDbLine"@),
        f64_pair(39, d.thickness),
        f64_pair(10, d.p1.x),
        f64_pair(20, d.p1.y),
        f64_pair(30, d.p1.z),
        f64_pair(11, d.p2.x),
        f64_pair(21, d.p2.y),
        f64_pair(31, d.p2.z),
        f64_pair(210, d.extrusion_direction.x),
        f64_pair(220, d.extrusion_direction.y),
        f64_pair(230, d.extrusion_direction.z),
    ],
{
    assert(common_pairs(c, AcadVersion::R2018, true) + line_pairs(d, AcadVersion::R2018) =~= seq![
        str_pair(5, hex_text(c.handle as nat)),
        str_pair(100, "AcDbEntity"@),
        str_pair(8, c.layer),
        str_pair(6, c.line_type_name),
        i16_pair(62, c.color.raw_value),
        str_pair(100, "AcDbLine"@),
        f64_pair(39, d.thickness),
        f64_pair(10, d.p1.x),
        f64_pair(20, d.p1.y),
        f64_pair(30, d.p1.z),
        f64_pair(11, d.p2.x),
        f64_pair(21, d.p2.y),
        f64_pair(31, d.p2.z),
        f64_pair(210, d.extrusion_direction.x),
        f64_pair(220, d.extrusion_direction.y),
        f64_pair(230, d.extrusion_direction.z),
    ]);
}

/// A line written at release R2018, with its handle, reads back as the same
/// line with the same common fields.
#[verifier::spinoff_prover]
#[verifier::rlimit(100)]
pub proof fn lemma_line_round_trip(c: CommonView, d: LineView, body: Seq<CodePair>)
    requires
        pairs_view(body) == common_pairs(c, AcadVersion::R2018, true) + line_pairs(d, AcadVersion::R2018),
    ensures
        decode_entity("LINE"@, body) == Ok::<Option<EntityView>, DxfError>(
            Some(EntityView { common: c, specific: EntityTypeView::Line(d) }),
        ),
{
    reveal_strlit("LINE");
    reveal_strlit("DIMENSION");
    lemma_handle_text_round_trip(c.handle as nat);
    lemma_line_pairs(c, d);
    let w = seq![
        str_pair(5, hex_text(c.handle as nat)),
        str_pair(100, "AcDbEntity"@),
        str_pair(8, c.layer),
        str_pair(6, c.line_type_name),
        i16_pair(62, c.color.raw_value),
        str_pair(100, "AcDbLine"@),
        f64_pair(39, d.thickness),
        f64_pair(10, d.p1.x),
        f64_pair(20, d.p1.y),
        f64_pair(30, d.p1.z),
        f64_pair(11, d.p2.x),
        f64_pair(21, d.p2.y),
        f64_pair(31, d.p2.z),
        f64_pair(210, d.extrusion_direction.x),
        f64_pair(220, d.extrusion_direction.y),
        f64_pair(230, d.extrusion_direction.z),
    ];
    assert(w.len() == 16);
    assert(body.len() == 16);
    assert forall|i: int| 0 <= i < 16 implies #[trigger] body[i]@ == w[i] by {
        assert(pairs_view(body)[i] == body[i]@);
    }
    let a = empty_accumulators();
    let l0 = Line::default_view();
    let c0 = default_common();
    let init = ((EntityTypeView::Line(l0), a), c0);
    assert(body.take(0) =~= Seq::<CodePair>::empty());
    let c1 = CommonView { handle: c.handle, ..c0 };
    assert(fold_pairs(init, body.take(1), generic_steps()) == Ok::<_, DxfError>(((EntityTypeView::Line(l0), a), c1))) by {
        lemma_fold_extend(init, body, 0, generic_steps());
        assert(body[0]@ == w[0]);
    }
    assert(fold_pairs(init, body.take(2), generic_steps()) == Ok::<_, DxfError>(((EntityTypeView::Line(l0), a), c1))) by {
        lemma_fold_extend(init, body, 1, generic_steps());
        assert(body[1]@ == w[1]);
    }
    let c3 = CommonView { layer: c.layer, ..c1 };
    assert(fold_pairs(init, body.take(3), generic_steps()) == Ok::<_, DxfError>(((EntityTypeView::Line(l0), a), c3))) by {
        lemma_fold_extend(init, body, 2, generic_steps());
        assert(body[2]@ == w[2]);
    }
    let c4 = CommonView { line_type_name: c.line_type_name, ..c3 };
    assert(fold_pairs(init, body.take(4), generic_steps()) == Ok::<_, DxfError>(((EntityTypeView::Line(l0), a), c4))) by {
        lemma_fold_extend(init, body, 3, generic_steps());
        assert(body[3]@ == w[3]);
    }
    let c5 = CommonView { color: c.color, ..c4 };
    assert(fold_pairs(init, body.take(5), generic_steps()) == Ok::<_, DxfError>(((EntityTypeView::Line(l0), a), c5))) by {
        lemma_fold_extend(init, body, 4, generic_steps());
        assert(body[4]@ == w[4]);
    }
    assert(fold_pairs(init, body.take(6), generic_steps()) == Ok::<_, DxfError>(((EntityTypeView::Line(l0), a), c5))) by {
        lemma_fold_extend(init, body, 5, generic_steps());
        assert(body[5]@ == w[5]);
    }
    let l7 = LineView { thickness: d.thickness, ..l0 };
    assert(fold_pairs(init, body.take(7), generic_steps()) == Ok::<_, DxfError>(((EntityTypeView::Line(l7), a), c5))) by {
        lemma_fold_extend(init, body, 6, generic_steps());
        assert(body[6]@ == w[6]);
    }
    let l8 = LineView { p1: Point { x: d.p1.x, ..l7.p1 }, ..l7 };
    assert(fold_pairs(init, body.take(8), generic_steps()) == Ok::<_, DxfError>(((EntityTypeView::Line(l8), a), c5))) by {
        lemma_fold_extend(init, body, 7, generic_steps());
        assert(body[7]@ == w[7]);
    }
    let l9 = LineView { p1: Point { y: d.p1.y, ..l8.p1 }, ..l8 };
    assert(fold_pairs(init, body.take(9), generic_steps()) == Ok::<_, DxfError>(((EntityTypeView::Line(l9), a), c5))) by {
        lemma_fold_extend(init, body, 8, generic_steps());
        assert(body[8]@ == w[8]);
    }
    let l10 = LineView { p1: Point { z: d.p1.z, ..l9.p1 }, ..l9 };
    assert(fold_pairs(init, body.take(10), generic_steps()) == Ok::<_, DxfError>(((EntityTypeView::Line(l10), a), c5))) by {
        lemma_fold_extend(init, body, 9, generic_steps());
        assert(body[9]@ == w[9]);
    }
    let l11 = LineView { p2: Point { x: d.p2.x, ..l10.p2 }, ..l10 };
    assert(fold_pairs(init, body.take(11), generic_steps()) == Ok::<_, DxfError>(((EntityTypeView::Line(l11), a), c5))) by {
        lemma_fold_extend(init, body, 10, generic_steps());
        assert(body[10]@ == w[10]);
    }
    let l12 = LineView { p2: Point { y: d.p2.y, ..l11.p2 }, ..l11 };
    assert(fold_pairs(init, body.take(12), generic_steps()) == Ok::<_, DxfError>(((EntityTypeView::Line(l12), a), c5))) by {
        lemma_fold_extend(init, body, 11, generic_steps());
        assert(body[11]@ == w[11]);
    }
    let l13 = LineView { p2: Point { z: d.p2.z, ..l12.p2 }, ..l12 };
    assert(fold_pairs(init, body.take(13), generic_steps()) == Ok::<_, DxfError>(((EntityTypeView::Line(l13), a), c5))) by {
        lemma_fold_extend(init, body, 12, generic_steps());
        assert(body[12]@ == w[12]);
    }
    let l14 = LineView { extrusion_direction: Vector { x: d.extrusion_direction.x, ..l13.extrusion_direction }, ..l13 };
    assert(fold_pairs(init, body.take(14), generic_steps()) == Ok::<_, DxfError>(((EntityTypeView::Line(l14), a), c5))) by {
        lemma_fold_extend(init, body, 13, generic_steps());
        assert(body[13]@ == w[13]);
    }
    let l15 = LineView { extrusion_direction: Vector { y: d.extrusion_direction.y, ..l14.extrusion_direction }, ..l14 };
    assert(fold_pairs(init, body.take(15), generic_steps()) == Ok::<_, DxfError>(((EntityTypeView::Line(l15), a), c5))) by {
        lemma_fold_extend(init, body, 14, generic_steps());
        assert(body[14]@ == w[14]);
    }
    let l16 = LineView { extrusion_direction: Vector { z: d.extrusion_direction.z, ..l15.extrusion_direction }, ..l15 };
    assert(fold_pairs(init, body.take(16), generic_steps()) == Ok::<_, DxfError>(((EntityTypeView::Line(l16), a), c5))) by {
        lemma_fold_extend(init, body, 15, generic_steps());
        assert(body[15]@ == w[15]);
    }
    assert(l16 == d);
    assert(c5 == c);
    assert(body.take(16) == body);
    assert(fold_pairs(init, body, generic_steps()) == Ok::<_, DxfError>(((EntityTypeView::Line(d), a), c)));
    assert("LINE"@ != "DIMENSION"@) by {
        assert("LINE"@.len() != "DIMENSION"@.len());
    }
    assert(type_from_string("LINE"@) == Some(EntityTypeView::Line(Line::default_view())));
}

/// Written as its type marker and the pairs after it, a line at release
/// R2018 reads back from a stream as the same entity, and the stream is left
/// at the next type marker.
pub proof fn lemma_line_written_reads_back(
    c: CommonView,
    d: LineView,
    marker: CodePair,
    body: Seq<CodePair>,
    rest: Seq<StreamItem>,
)
    requires
        pairs_view(seq![marker] + body) == entity_pairs(
            EntityView { common: c, specific: EntityTypeView::Line(d) },
            AcadVersion::R2018,
            true,
        ),
        starts_with_marker(rest),
    ensures
        read_spec(entity_items(marker, body) + rest) == (
            Ok::<Option<EntityView>, DxfError>(
                Some(EntityView { common: c, specific: EntityTypeView::Line(d) }),
            ),
            rest,
        ),
{
    let e = EntityView { common: c, specific: EntityTypeView::Line(d) };
    let all = seq![marker] + body;
    assert(all[0] == marker);
    assert(pairs_view(all)[0] == marker@);
    assert(entity_pairs(e, AcadVersion::R2018, true) =~= seq![str_pair(0, "LINE"@)] + (common_pairs(
        c,
        AcadVersion::R2018,
        true,
    ) + line_pairs(d, AcadVersion::R2018)));
    let w = common_pairs(c, AcadVersion::R2018, true) + line_pairs(d, AcadVersion::R2018);
    assert(pairs_view(body) =~= pairs_view(all).drop_first());
    assert((seq![str_pair(0, "LINE"@)] + w).drop_first() =~= w);
    assert(pairs_view(body) == w);
    assert(marker@ == str_pair(0, "LINE"@));
    lemma_line_round_trip(c, d, body);
    lemma_line_pairs(c, d);
    assert forall|i: int| 0 <= i < body.len() implies (#[trigger] body[i]).code != 0 by {
        assert(pairs_view(body)[i] == body[i]@);
    }
    reveal_strlit("LINE");
    reveal_strlit("ENDSEC");
    reveal_strlit("ENDBLK");
    let t = marker.string_value()->Ok_0;
    assert(t@ == "LINE"@);
    lemma_read_entity(marker, body, rest, e);
}

/// Reading a stream that holds a type marker, pairs without a type marker,
/// then another type marker: the entity that the pairs decode to, and the
/// stream left at that second marker.
pub proof fn lemma_read_entity(marker: CodePair, body: Seq<CodePair>, rest: Seq<StreamItem>, e: EntityView)
    requires
        marker.code == 0,
        marker.string_value() matches Ok(t) && t@ != "ENDSEC"@ && t@ != "ENDBLK"@ && decode_entity(
            t@,
            body,
        ) == Ok::<Option<EntityView>, DxfError>(Some(e)),
        forall|i: int| 0 <= i < body.len() ==> (#[trigger] body[i]).code != 0,
        starts_with_marker(rest),
    ensures
        read_spec(entity_items(marker, body) + rest) == (Ok::<Option<EntityView>, DxfError>(Some(e)), rest),
{
    lemma_entity_items_body(marker, body, rest);
    let items = entity_items(marker, body) + rest;
    assert(items[0] == Ok::<CodePair, DxfError>(marker));
}

} // verus!
