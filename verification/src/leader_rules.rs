//! The rules for leaders, multileaders and multilines.

use crate::agree::{lists_agree, Agree};
use crate::entities::{
    Leader, LeaderContentType, LeaderCreationType, LeaderLine, LeaderRoot, MLine, MLineSegment,
    MLineVertex, MultiLeader, MultiLeaderContext,
};
use crate::geometry::{
    finite_fault, finite_vector, is_non_negative, is_proper, non_negative, normal_fault,
    positive_size, proper, size_fault, solid_normal, provided, Vector3,
};
use crate::hatch_rules::{all_finite, are_finite};
use crate::text::{
    blank, check, decimal, earliest, fault, first, is_blank, join, join3, number, unless, Fault,
};
use vstd::prelude::*;
use vstd::string::*;

verus! {

/// The numbers of a multileader's content must be finite.
pub open spec fn leader_context_fault(context: MultiLeaderContext) -> Fault {
    first(
        unless(
            proper(context.scale_factor),
            "MultiLeader.context.scale_factor must be finite and greater than zero"@,
        ),
        first(
            unless(context.text_height.finite(), "MultiLeader.context.text_height must be finite"@),
            first(
                unless(
                    context.text_width.finite(),
                    "MultiLeader.context.text_width must be finite"@,
                ),
                first(
                    unless(
                        context.text_rotation.finite(),
                        "MultiLeader.context.text_rotation must be finite"@,
                    ),
                    first(
                        unless(
                            context.landing_gap.finite(),
                            "MultiLeader.context.landing_gap must be finite"@,
                        ),
                        first(
                            unless(
                                context.arrowhead_size.finite(),
                                "MultiLeader.context.arrowhead_size must be finite"@,
                            ),
                            first(
                                finite_fault(
                                    "MultiLeader.context.content_base_point"@,
                                    context.content_base_point,
                                ),
                                first(
                                    finite_fault(
                                        "MultiLeader.context.text_location"@,
                                        context.text_location,
                                    ),
                                    first(
                                        finite_fault(
                                            "MultiLeader.context.block_content_location"@,
                                            context.block_content_location,
                                        ),
                                        first(
                                            finite_fault(
                                                "MultiLeader.context.base_point"@,
                                                context.base_point,
                                            ),
                                            first(
                                                unless(
                                                    all_finite(context.transform_matrix@),
                                                    "MultiLeader.context.transform_matrix must be finite"@,
                                                ),
                                                earliest(
                                                    0,
                                                    context.leader_roots.len() as int,
                                                    root_checks(context.leader_roots@),
                                                ),
                                            ),
                                        ),
                                    ),
                                ),
                            ),
                        ),
                    ),
                ),
            ),
        ),
    )
}

fn check_leader_context(context: &MultiLeaderContext) -> (result: Result<(), String>)
    ensures
        fault(result) == leader_context_fault(*context),
{
    check(
        is_proper(context.scale_factor),
        "MultiLeader.context.scale_factor must be finite and greater than zero",
    )?;
    check(context.text_height.is_finite(), "MultiLeader.context.text_height must be finite")?;
    check(context.text_width.is_finite(), "MultiLeader.context.text_width must be finite")?;
    check(context.text_rotation.is_finite(), "MultiLeader.context.text_rotation must be finite")?;
    check(context.landing_gap.is_finite(), "MultiLeader.context.landing_gap must be finite")?;
    check(context.arrowhead_size.is_finite(), "MultiLeader.context.arrowhead_size must be finite")?;
    finite_vector("MultiLeader.context.content_base_point", &context.content_base_point)?;
    finite_vector("MultiLeader.context.text_location", &context.text_location)?;
    finite_vector("MultiLeader.context.block_content_location", &context.block_content_location)?;
    finite_vector("MultiLeader.context.base_point", &context.base_point)?;
    check(
        are_finite(&context.transform_matrix),
        "MultiLeader.context.transform_matrix must be finite",
    )?;
    check_roots(&context.leader_roots)
}

/// The rules for a multileader.
pub open spec fn multileader_fault(new: MultiLeader) -> Fault {
    first(
        unless(
            non_negative(new.dogleg_length),
            "MultiLeader.dogleg_length must be finite and non-negative"@,
        ),
        first(
            unless(
                non_negative(new.arrowhead_size),
                "MultiLeader.arrowhead_size must be finite and non-negative"@,
            ),
            first(
                unless(
                    proper(new.text_height),
                    "MultiLeader.text_height must be finite and greater than zero"@,
                ),
                first(
                    unless(
                        proper(new.scale_factor),
                        "MultiLeader.scale_factor must be finite and greater than zero"@,
                    ),
                    first(
                        unless(
                            new.block_rotation.finite(),
                            "MultiLeader.block_rotation must be finite"@,
                        ),
                        first(
                            finite_fault("MultiLeader.block_scale"@, new.block_scale),
                            first(
                                leader_context_fault(new.context),
                                leader_content_fault(new),
                            ),
                        ),
                    ),
                ),
            ),
        ),
    )
}

pub fn validate_multileader(new: &MultiLeader) -> (result: Result<(), String>)
    ensures
        fault(result) == multileader_fault(*new),
{
    check(
        is_non_negative(new.dogleg_length),
        "MultiLeader.dogleg_length must be finite and non-negative",
    )?;
    check(
        is_non_negative(new.arrowhead_size),
        "MultiLeader.arrowhead_size must be finite and non-negative",
    )?;
    check(
        is_proper(new.text_height),
        "MultiLeader.text_height must be finite and greater than zero",
    )?;
    check(
        is_proper(new.scale_factor),
        "MultiLeader.scale_factor must be finite and greater than zero",
    )?;
    check(new.block_rotation.is_finite(), "MultiLeader.block_rotation must be finite")?;
    finite_vector("MultiLeader.block_scale", &new.block_scale)?;
    check_leader_context(&new.context)?;
    check_leader_content(new)
}

/// For each numbered point, that its coordinates are finite.
pub open spec fn point_checks(points: Seq<Vector3>, name: Seq<char>) -> spec_fn(int) -> Fault {
    |i: int| finite_fault(name + decimal(i as nat) + "]"@, points[i])
}

fn check_points(points: &Vec<Vector3>, name: &str) -> (result: Result<(), String>)
    ensures
        fault(result) == earliest(0, points.len() as int, point_checks(points@, name@)),
{
    let mut i: usize = 0;
    while i < points.len()
        invariant
            i <= points.len(),
            earliest(0, points.len() as int, point_checks(points@, name@)) == earliest(
                i as int,
                points.len() as int,
                point_checks(points@, name@),
            ),
        decreases points.len() - i,
    {
        finite_vector(&join3(name, &number(i as u64), "]"), &points[i])?;
        i = i + 1;
    }
    Ok(())
}

/// For each line, that it has points and all are finite.
pub open spec fn line_checks(lines: Seq<LeaderLine>, name: Seq<char>) -> spec_fn(int) -> Fault {
    |i: int| {
        let line = name + decimal(i as nat) + "]"@;
        first(
            unless(lines[i].points.len() > 0, line + " has no points"@),
            earliest(
                0,
                lines[i].points.len() as int,
                point_checks(lines[i].points@, line + ".points["@),
            ),
        )
    }
}

fn check_lines(lines: &Vec<LeaderLine>, name: &str) -> (result: Result<(), String>)
    ensures
        fault(result) == earliest(0, lines.len() as int, line_checks(lines@, name@)),
{
    let mut i: usize = 0;
    while i < lines.len()
        invariant
            i <= lines.len(),
            earliest(0, lines.len() as int, line_checks(lines@, name@)) == earliest(
                i as int,
                lines.len() as int,
                line_checks(lines@, name@),
            ),
        decreases lines.len() - i,
    {
        let line = join3(name, &number(i as u64), "]");
        check(lines[i].points.len() > 0, &join(&line, " has no points"))?;
        check_points(&lines[i].points, &join(&line, ".points["))?;
        i = i + 1;
    }
    Ok(())
}

/// For each landing, that it and its lines are finite.
pub open spec fn root_checks(roots: Seq<LeaderRoot>) -> spec_fn(int) -> Fault {
    |i: int| {
        let root = "MultiLeader.context.leader_roots["@ + decimal(i as nat) + "]"@;
        first(
            finite_fault(root + ".connection_point"@, roots[i].connection_point),
            first(
                finite_fault(root + ".direction"@, roots[i].direction),
                first(
                    unless(
                        roots[i].landing_distance.finite(),
                        root + ".landing_distance must be finite"@,
                    ),
                    earliest(
                        0,
                        roots[i].lines.len() as int,
                        line_checks(roots[i].lines@, root + ".lines["@),
                    ),
                ),
            ),
        )
    }
}

fn check_roots(roots: &Vec<LeaderRoot>) -> (result: Result<(), String>)
    ensures
        fault(result) == earliest(0, roots.len() as int, root_checks(roots@)),
{
    let mut i: usize = 0;
    while i < roots.len()
        invariant
            i <= roots.len(),
            earliest(0, roots.len() as int, root_checks(roots@)) == earliest(
                i as int,
                roots.len() as int,
                root_checks(roots@),
            ),
        decreases roots.len() - i,
    {
        let root = join3("MultiLeader.context.leader_roots[", &number(i as u64), "]");
        finite_vector(&join(&root, ".connection_point"), &roots[i].connection_point)?;
        finite_vector(&join(&root, ".direction"), &roots[i].direction)?;
        check(
            roots[i].landing_distance.is_finite(),
            &join(&root, ".landing_distance must be finite"),
        )?;
        check_lines(&roots[i].lines, &join(&root, ".lines["))?;
        i = i + 1;
    }
    Ok(())
}

/// The content must be what the type of the multileader says.
pub open spec fn leader_content_fault(new: MultiLeader) -> Fault {
    match new.content_type {
        LeaderContentType::MText => unless(
            new.context.has_text_contents,
            "MText MultiLeader requires context.has_text_contents"@,
        ),
        LeaderContentType::Block => unless(
            new.context.has_block_contents,
            "Block MultiLeader requires context.has_block_contents"@,
        ),
        LeaderContentType::Empty => unless(
            !new.context.has_text_contents && !new.context.has_block_contents,
            "MultiLeader without content cannot carry text or block contents"@,
        ),
        LeaderContentType::Tolerance => None,
    }
}

fn check_leader_content(new: &MultiLeader) -> (result: Result<(), String>)
    ensures
        fault(result) == leader_content_fault(*new),
{
    match new.content_type {
        LeaderContentType::MText => check(
            new.context.has_text_contents,
            "MText MultiLeader requires context.has_text_contents",
        ),
        LeaderContentType::Block => check(
            new.context.has_block_contents,
            "Block MultiLeader requires context.has_block_contents",
        ),
        LeaderContentType::Empty => check(
            !new.context.has_text_contents && !new.context.has_block_contents,
            "MultiLeader without content cannot carry text or block contents",
        ),
        LeaderContentType::Tolerance => Ok(()),
    }
}

/// A part of an edited entity that the rules look at: all of a new entity, and
/// what an edit touched of an old one.
pub open spec fn touched<T>(old: Option<T>, differs: spec_fn(T) -> bool) -> bool {
    match old {
        Some(value) => differs(value),
        None => true,
    }
}

/// All points of a chain fall together.
pub open spec fn collapsed(points: Seq<Vector3>) -> bool {
    forall|i: int| 0 < i < points.len() ==> (#[trigger] points[i]).coincident(points[i - 1])
}

fn is_collapsed(points: &Vec<Vector3>) -> (result: bool)
    ensures
        result == collapsed(points@),
{
    let mut i: usize = 1;
    while i < points.len()
        invariant
            1 <= i,
            i <= points.len() || points.len() == 0,
            forall|j: int| 0 < j < i && j < points.len() ==> (#[trigger] points@[j]).coincident(
                points@[j - 1],
            ),
        decreases points.len() - i,
    {
        if !points[i].coincides(points[i - 1]) {
            assert(!points@[i as int].coincident(points@[i - 1]));
            return false;
        }
        i = i + 1;
    }
    true
}

pub open spec fn leader_vertices_fault(vertices: Seq<Vector3>) -> Fault {
    first(
        unless(vertices.len() >= 2, "Leader.vertices requires at least 2 points"@),
        first(
            earliest(0, vertices.len() as int, point_checks(vertices, "Leader.vertices["@)),
            unless(!collapsed(vertices), "Leader.vertices must not all coincide"@),
        ),
    )
}

fn check_leader_vertices(vertices: &Vec<Vector3>) -> (result: Result<(), String>)
    ensures
        fault(result) == leader_vertices_fault(vertices@),
{
    check(vertices.len() >= 2, "Leader.vertices requires at least 2 points")?;
    check_points(vertices, "Leader.vertices[")?;
    check(!is_collapsed(vertices), "Leader.vertices must not all coincide")
}

/// A leader without annotation has nothing to point its handle at.
pub open spec fn leader_annotation_fault(new: Leader) -> Fault {
    unless(
        new.creation_type != LeaderCreationType::NoAnnotation || new.annotation_handle.null(),
        "Leader with no annotation cannot carry an annotation handle"@,
    )
}

/// The rules for a leader. Of an edited leader only what the edit touched is
/// held to them.
pub open spec fn leader_fault(old: Option<Leader>, new: Leader) -> Fault {
    first(
        provided(
            touched(old, |o: Leader| !lists_agree(o.vertices@, new.vertices@)),
            leader_vertices_fault(new.vertices@),
        ),
        first(
            provided(
                touched(old, |o: Leader| !o.normal.identical(new.normal)),
                normal_fault("Leader.normal"@, new.normal),
            ),
            first(
                provided(
                    touched(
                        old,
                        |o: Leader| !o.horizontal_direction.identical(new.horizontal_direction),
                    ),
                    normal_fault("Leader.horizontal_direction"@, new.horizontal_direction),
                ),
                first(
                    provided(
                        touched(old, |o: Leader| !o.block_offset.identical(new.block_offset)),
                        finite_fault("Leader.block_offset"@, new.block_offset),
                    ),
                    first(
                        provided(
                            touched(
                                old,
                                |o: Leader| !o.annotation_offset.identical(new.annotation_offset),
                            ),
                            finite_fault("Leader.annotation_offset"@, new.annotation_offset),
                        ),
                        first(
                            provided(
                                touched(old, |o: Leader| o.text_height != new.text_height),
                                size_fault("Leader.text_height"@, new.text_height),
                            ),
                            first(
                                provided(
                                    touched(old, |o: Leader| o.text_width != new.text_width),
                                    unless(
                                        non_negative(new.text_width),
                                        "Leader.text_width must be finite and non-negative"@,
                                    ),
                                ),
                                first(
                                    provided(
                                        touched(
                                            old,
                                            |o: Leader| o.dimension_style@ != new.dimension_style@,
                                        ),
                                        unless(
                                            !blank(new.dimension_style@),
                                            "Leader.dimension_style is empty"@,
                                        ),
                                    ),
                                    provided(
                                        touched(
                                            old,
                                            |o: Leader|
                                                o.creation_type != new.creation_type
                                                    || o.annotation_handle
                                                    != new.annotation_handle,
                                        ),
                                        leader_annotation_fault(new),
                                    ),
                                ),
                            ),
                        ),
                    ),
                ),
            ),
        ),
    )
}

/// Checks a new leader, or what an edit touched of an old one.
pub fn validate_leader(old: Option<&Leader>, new: &Leader) -> (result: Result<(), String>)
    ensures
        fault(result) == leader_fault(
            match old {
                Some(o) => Some(*o),
                None => None,
            },
            *new,
        ),
{
    if old.is_none() || !old.unwrap().vertices.agree(&new.vertices) {
        check_leader_vertices(&new.vertices)?;
    }
    if old.is_none() || !old.unwrap().normal.is_identical(new.normal) {
        solid_normal("Leader.normal", &new.normal)?;
    }
    if old.is_none() || !old.unwrap().horizontal_direction.is_identical(new.horizontal_direction) {
        solid_normal("Leader.horizontal_direction", &new.horizontal_direction)?;
    }
    if old.is_none() || !old.unwrap().block_offset.is_identical(new.block_offset) {
        finite_vector("Leader.block_offset", &new.block_offset)?;
    }
    if old.is_none() || !old.unwrap().annotation_offset.is_identical(new.annotation_offset) {
        finite_vector("Leader.annotation_offset", &new.annotation_offset)?;
    }
    if old.is_none() || old.unwrap().text_height != new.text_height {
        positive_size("Leader.text_height", new.text_height)?;
    }
    if old.is_none() || old.unwrap().text_width != new.text_width {
        check(
            is_non_negative(new.text_width),
            "Leader.text_width must be finite and non-negative",
        )?;
    }
    if old.is_none() || !old.unwrap().dimension_style.agree(&new.dimension_style) {
        check(!is_blank(&new.dimension_style), "Leader.dimension_style is empty")?;
    }
    if old.is_none() || old.unwrap().creation_type != new.creation_type
        || old.unwrap().annotation_handle != new.annotation_handle {
        check(
            new.creation_type != LeaderCreationType::NoAnnotation
                || new.annotation_handle.is_null(),
            "Leader with no annotation cannot carry an annotation handle",
        )?;
    }
    Ok(())
}

/// For each segment, that its cuts are finite.
pub open spec fn segment_checks(segments: Seq<MLineSegment>, name: Seq<char>) -> spec_fn(
    int,
) -> Fault {
    |i: int|
        unless(
            all_finite(segments[i].parameters@) && all_finite(segments[i].area_fill_parameters@),
            name + ".segments["@ + decimal(i as nat) + "] contains non-finite parameters"@,
        )
}

fn check_segments(segments: &Vec<MLineSegment>, name: &str) -> (result: Result<(), String>)
    ensures
        fault(result) == earliest(0, segments.len() as int, segment_checks(segments@, name@)),
{
    let mut i: usize = 0;
    while i < segments.len()
        invariant
            i <= segments.len(),
            earliest(0, segments.len() as int, segment_checks(segments@, name@)) == earliest(
                i as int,
                segments.len() as int,
                segment_checks(segments@, name@),
            ),
        decreases segments.len() - i,
    {
        check(
            are_finite(&segments[i].parameters) && are_finite(&segments[i].area_fill_parameters),
            &join3(
                &join(name, ".segments["),
                &number(i as u64),
                "] contains non-finite parameters",
            ),
        )?;
        i = i + 1;
    }
    Ok(())
}

/// For each vertex of a multiline, that it is finite. Its directions and cuts
/// belong to the host, so nothing more is asked of them.
pub open spec fn mline_vertex_checks(vertices: Seq<MLineVertex>) -> spec_fn(int) -> Fault {
    |i: int|
        {
            let name = "MLine.vertices["@ + decimal(i as nat) + "]"@;
            first(
                finite_fault(name + ".position"@, vertices[i].position),
                first(
                    finite_fault(name + ".direction"@, vertices[i].direction),
                    first(
                        finite_fault(name + ".miter"@, vertices[i].miter),
                        earliest(
                            0,
                            vertices[i].segments.len() as int,
                            segment_checks(vertices[i].segments@, name),
                        ),
                    ),
                ),
            )
        }
}

/// All vertices of a multiline fall together.
pub open spec fn mline_collapsed(vertices: Seq<MLineVertex>) -> bool {
    forall|i: int|
        0 < i < vertices.len() ==> (#[trigger] vertices[i]).position.coincident(
            vertices[i - 1].position,
        )
}

fn is_mline_collapsed(vertices: &Vec<MLineVertex>) -> (result: bool)
    ensures
        result == mline_collapsed(vertices@),
{
    let mut i: usize = 1;
    while i < vertices.len()
        invariant
            1 <= i,
            forall|j: int|
                0 < j < i && j < vertices.len() ==> (#[trigger] vertices@[j]).position.coincident(
                    vertices@[j - 1].position,
                ),
        decreases vertices.len() - i,
    {
        if !vertices[i].position.coincides(vertices[i - 1].position) {
            assert(!vertices@[i as int].position.coincident(vertices@[i - 1].position));
            return false;
        }
        i = i + 1;
    }
    true
}

pub open spec fn mline_vertices_fault(vertices: Seq<MLineVertex>) -> Fault {
    first(
        unless(vertices.len() >= 2, "MLine.vertices requires at least 2 points"@),
        first(
            earliest(0, vertices.len() as int, mline_vertex_checks(vertices)),
            unless(!mline_collapsed(vertices), "MLine.vertices must not all coincide"@),
        ),
    )
}

#[verifier::loop_isolation(false)]
fn check_mline_vertices(vertices: &Vec<MLineVertex>) -> (result: Result<(), String>)
    ensures
        fault(result) == mline_vertices_fault(vertices@),
{
    check(vertices.len() >= 2, "MLine.vertices requires at least 2 points")?;
    let mut i: usize = 0;
    while i < vertices.len()
        invariant
            i <= vertices.len(),
            earliest(0, vertices.len() as int, mline_vertex_checks(vertices@)) == earliest(
                i as int,
                vertices.len() as int,
                mline_vertex_checks(vertices@),
            ),
        decreases vertices.len() - i,
    {
        let name = join3("MLine.vertices[", &number(i as u64), "]");
        finite_vector(&join(&name, ".position"), &vertices[i].position)?;
        finite_vector(&join(&name, ".direction"), &vertices[i].direction)?;
        finite_vector(&join(&name, ".miter"), &vertices[i].miter)?;
        check_segments(&vertices[i].segments, &name)?;
        i = i + 1;
    }
    check(!is_mline_collapsed(vertices), "MLine.vertices must not all coincide")
}

/// The flag of a closed multiline.
pub open spec fn mline_closed(flags: u16) -> bool {
    flags / 2 % 2 == 1
}

/// The rules for a multiline. Of an edited multiline only what the edit touched
/// is held to them.
pub open spec fn mline_fault(old: Option<MLine>, new: MLine) -> Fault {
    first(
        provided(
            touched(old, |o: MLine| o.flags != new.flags),
            unless(new.flags <= 0x0f, "MLine.flags has unknown bits"@),
        ),
        first(
            provided(
                touched(old, |o: MLine| o.scale_factor != new.scale_factor),
                unless(
                    new.scale_factor.finite() && !new.scale_factor.zero(),
                    "MLine.scale_factor must be finite and nonzero"@,
                ),
            ),
            first(
                provided(
                    touched(old, |o: MLine| !o.normal.same(new.normal)),
                    normal_fault("MLine.normal"@, new.normal),
                ),
                first(
                    provided(
                        touched(old, |o: MLine| o.style_name@ != new.style_name@),
                        unless(!blank(new.style_name@), "MLine.style_name is empty"@),
                    ),
                    first(
                        provided(
                            touched(old, |o: MLine| !lists_agree(o.vertices@, new.vertices@)),
                            mline_vertices_fault(new.vertices@),
                        ),
                        provided(
                            touched(
                                old,
                                |o: MLine|
                                    o.flags != new.flags || !lists_agree(
                                        o.vertices@,
                                        new.vertices@,
                                    ),
                            ),
                            unless(
                                !mline_closed(new.flags) || new.vertices@.len() >= 3,
                                "closed MLine requires at least 3 vertices"@,
                            ),
                        ),
                    ),
                ),
            ),
        ),
    )
}

/// Checks a new multiline, or what an edit touched of an old one.
pub fn validate_mline(old: Option<&MLine>, new: &MLine) -> (result: Result<(), String>)
    ensures
        fault(result) == mline_fault(
            match old {
                Some(o) => Some(*o),
                None => None,
            },
            *new,
        ),
{
    let flags_touched = old.is_none() || old.unwrap().flags != new.flags;
    let vertices_touched = old.is_none() || !old.unwrap().vertices.agree(&new.vertices);
    if flags_touched {
        check(new.flags <= 0x0f, "MLine.flags has unknown bits")?;
    }
    if old.is_none() || old.unwrap().scale_factor != new.scale_factor {
        check(
            new.scale_factor.is_finite() && !new.scale_factor.is_zero(),
            "MLine.scale_factor must be finite and nonzero",
        )?;
    }
    if old.is_none() || !old.unwrap().normal.unchanged(new.normal) {
        solid_normal("MLine.normal", &new.normal)?;
    }
    if old.is_none() || !old.unwrap().style_name.agree(&new.style_name) {
        check(!is_blank(&new.style_name), "MLine.style_name is empty")?;
    }
    if vertices_touched {
        check_mline_vertices(&new.vertices)?;
    }
    if flags_touched || vertices_touched {
        check(
            new.flags / 2 % 2 != 1 || new.vertices.len() >= 3,
            "closed MLine requires at least 3 vertices",
        )?;
    }
    Ok(())
}

} // verus!
