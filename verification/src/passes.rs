use vstd::prelude::*;

use crate::ir::{
    body_structurally_valid, body_valid_at_phase, is_lone_unreachable, no_promotable_markers,
    no_subtype_placeholders, stmt_is_promotable, stmt_is_subtype_placeholder,
    terminator_targets_ok, BasicBlock, BlockModel, Body, BodyModel, Local, Statement, Terminator,
};

verus! {

/// The effect written where a subtyping-projection placeholder stood.
pub const SUBTYPE_PROJECTION_EFFECT: u64 = 1;

/// The effect initializing the return place of a promoted constant body.
pub const PROMOTED_INIT_EFFECT: u64 = 2;

/// The name of a transformation pass. One variant per named pass; an ordered
/// list of descriptors carrying these names is a pipeline definition.
#[derive(Clone, Copy, Debug, PartialEq, Eq, Structural)]
pub enum PassName {
    // Structural lints (diagnostics-only).
    CheckPackedRef,
    CheckConstItemMutation,
    FunctionItemReferences,
    CheckUndefinedTransmutes,
    SanityCheck,
    CheckLiveDrops,
    KnownPanicsLint,
    // Shared cleanup passes.
    SimplifyCfg,
    RemoveNoopLandingPads,
    // Promotion stage.
    PromoteTemps,
    InstrumentCoverage,
    // Analysis cleanup.
    CleanupPostBorrowck,
    Derefer,
    RemoveUninitDrops,
    // Runtime lowering.
    AddCallGuards,
    RevealAll,
    Subtyper,
    ElaborateDrops,
    AbortUnwindingCalls,
    AddMovesForPackedDrops,
    AddRetag,
    ElaborateBoxDerefs,
    StateTransform,
    // Runtime cleanup.
    LowerIntrinsics,
    RemovePlaceMention,
    // Compile-time evaluation.
    CtfeLimit,
    // Optimization stage.
    CheckAlignment,
    LowerSliceLenCalls,
    InstSimplify,
    Inline,
    RemoveStorageMarkers,
    RemoveZsts,
    RemoveUnneededDrops,
    UnreachableEnumBranching,
    UnreachablePropagation,
    ReferencePropagation,
    ScalarReplacementOfAggregates,
    MatchBranchSimplification,
    MultipleReturnTerminators,
    SimplifyLocals,
    DeadStoreElimination,
    Gvn,
    DataflowConstProp,
    SingleUseConsts,
    SimplifyConstCondition,
    JumpThreading,
    EarlyOtherwiseBranch,
    SimplifyComparisonIntegral,
    DestinationPropagation,
    CopyProp,
    RenameReturnPlace,
    DeduplicateBlocks,
    EnumSizeOpt,
    ReorderBasicBlocks,
    ReorderLocals,
    ParReEmit,
    MentionedItems,
}

/// An immutable pass descriptor: a name, the minimum global optimization
/// level at which the pass runs, whether it is enabled when no override and
/// no global disable says otherwise, and whether it is a diagnostics-only
/// lint rather than a mutating transformation.
#[derive(Clone, Copy, Debug)]
pub struct PassDescriptor {
    pub name: PassName,
    pub min_level: u8,
    pub default_enabled: bool,
    pub is_lint: bool,
}

// ---------------------------------------------------------------------------
// CFG simplification
// ---------------------------------------------------------------------------

pub open spec fn stmt_is_nop(s: Statement) -> bool {
    s matches Statement::Nop
}

/// The statements of a block with every `Nop` removed, order kept.
pub open spec fn strip_nops(s: Seq<Statement>) -> Seq<Statement>
    decreases s.len(),
{
    if s.len() == 0 {
        Seq::empty()
    } else {
        let prev = strip_nops(s.drop_last());
        if stmt_is_nop(s.last()) {
            prev
        } else {
            prev.push(s.last())
        }
    }
}

pub proof fn lemma_strip_nops_clean(s: Seq<Statement>)
    ensures
        forall|i: int| 0 <= i < strip_nops(s).len() ==> !stmt_is_nop(#[trigger] strip_nops(s)[i]),
    decreases s.len(),
{
    if s.len() > 0 {
        lemma_strip_nops_clean(s.drop_last());
        let prev = strip_nops(s.drop_last());
        assert forall|i: int| 0 <= i < strip_nops(s).len() implies !stmt_is_nop(
            #[trigger] strip_nops(s)[i],
        ) by {
            if i < prev.len() {
                assert(strip_nops(s)[i] == prev[i]);
            } else {
                assert(strip_nops(s)[i] == s.last());
            }
        }
    }
}

pub proof fn lemma_strip_nops_of_clean(s: Seq<Statement>)
    requires
        forall|i: int| 0 <= i < s.len() ==> !stmt_is_nop(#[trigger] s[i]),
    ensures
        strip_nops(s) == s,
    decreases s.len(),
{
    if s.len() == 0 {
        assert(strip_nops(s) =~= s);
    } else {
        lemma_strip_nops_of_clean(s.drop_last());
        assert(strip_nops(s) =~= s);
    }
}

/// A conditional branch whose two targets coincide is a plain goto.
pub open spec fn simplify_terminator(t: Terminator) -> Terminator {
    match t {
        Terminator::Branch { condition, then_target, else_target } => if then_target
            == else_target {
            Terminator::Goto { target: then_target }
        } else {
            t
        },
        _ => t,
    }
}

pub open spec fn simplify_block_model(b: BlockModel) -> BlockModel {
    BlockModel {
        statements: strip_nops(b.statements),
        terminator: simplify_terminator(b.terminator),
    }
}

/// CFG simplification: drop no-op statements and collapse degenerate
/// conditional branches, block by block.
pub open spec fn simplify_cfg_model(b: BodyModel) -> BodyModel {
    BodyModel { blocks: b.blocks.map_values(|bl: BlockModel| simplify_block_model(bl)), ..b }
}

/// Running CFG simplification twice in a row changes nothing beyond the
/// first run: the transformation is idempotent.
pub proof fn lemma_simplify_cfg_idempotent(b: BodyModel)
    ensures
        simplify_cfg_model(simplify_cfg_model(b)) == simplify_cfg_model(b),
{
    let once = simplify_cfg_model(b);
    let twice = simplify_cfg_model(once);
    assert forall|i: int| 0 <= i < once.blocks.len() implies #[trigger] twice.blocks[i]
        == once.blocks[i] by {
        let bl = b.blocks[i];
        lemma_strip_nops_clean(bl.statements);
        lemma_strip_nops_of_clean(strip_nops(bl.statements));
    }
    assert(twice.blocks =~= once.blocks);
    assert(twice =~= once);
}

// ---------------------------------------------------------------------------
// Promotion
// ---------------------------------------------------------------------------

/// Replacement applied to each statement by the promotion pass: an extracted
/// promotable marker leaves a no-op behind.
pub open spec fn promote_stmt(s: Statement) -> Statement {
    if stmt_is_promotable(s) {
        Statement::Nop
    } else {
        s
    }
}

pub open spec fn promote_block_model(b: BlockModel) -> BlockModel {
    BlockModel { statements: b.statements.map_values(|s: Statement| promote_stmt(s)), ..b }
}

/// The types of the promotable markers of one block, in order.
pub open spec fn promoted_tys_of_stmts(s: Seq<Statement>) -> Seq<u64>
    decreases s.len(),
{
    if s.len() == 0 {
        Seq::empty()
    } else {
        let prev = promoted_tys_of_stmts(s.drop_last());
        match s.last() {
            Statement::Promotable { ty } => prev.push(ty),
            _ => prev,
        }
    }
}

/// The types of all promotable markers of a body, block-major, in order.
pub open spec fn promoted_tys(blocks: Seq<BlockModel>) -> Seq<u64>
    decreases blocks.len(),
{
    if blocks.len() == 0 {
        Seq::empty()
    } else {
        promoted_tys(blocks.drop_last()) + promoted_tys_of_stmts(blocks.last().statements)
    }
}

/// An extracted promoted body: an independent constant body of one block
/// that initializes and returns its only local, entering the pipeline as a
/// sibling at phase `AnalysisInitial`.
pub open spec fn promoted_body_model(ty: u64, source: usize, span: u64) -> BodyModel {
    BodyModel {
        blocks: seq![
            BlockModel {
                statements: seq![Statement::Assign { dest: 0, effect: PROMOTED_INIT_EFFECT }],
                terminator: Terminator::Return,
            },
        ],
        locals: seq![Local { ty, debug_info: None }],
        arg_count: 0,
        phase: crate::phase::Phase::AnalysisInitial,
        tainted_by_errors: None,
        source,
        span,
    }
}

/// The promotion pass: every promotable marker is replaced by a no-op and
/// yields one promoted sibling body.
pub open spec fn promote_model(b: BodyModel) -> (BodyModel, Seq<BodyModel>) {
    (
        BodyModel { blocks: b.blocks.map_values(|bl: BlockModel| promote_block_model(bl)), ..b },
        promoted_tys(b.blocks).map_values(|ty: u64| promoted_body_model(ty, b.source, b.span)),
    )
}

pub proof fn lemma_promote_removes_markers(b: BodyModel)
    ensures
        no_promotable_markers(promote_model(b).0),
{
    let r = promote_model(b).0;
    assert forall|i: int, j: int|
        0 <= i < r.blocks.len() && 0 <= j < r.blocks[i].statements.len() implies !stmt_is_promotable(
        #[trigger] r.blocks[i].statements[j],
    ) by {
        assert(r.blocks[i].statements[j] == promote_stmt(b.blocks[i].statements[j]));
    }
}

/// Every promoted sibling body is well formed for its entry phase.
pub proof fn lemma_promoted_body_valid(ty: u64, source: usize, span: u64)
    ensures
        body_valid_at_phase(promoted_body_model(ty, source, span)),
        promoted_body_model(ty, source, span).phase == crate::phase::Phase::AnalysisInitial,
{
}

// ---------------------------------------------------------------------------
// Statement rewrites of the lowering and cleanup stages
// ---------------------------------------------------------------------------

/// Replacement applied by the subtyping pass: each placeholder becomes an
/// explicit projection assignment to the same local.
pub open spec fn subtype_stmt(s: Statement) -> Statement {
    match s {
        Statement::SubtypePlaceholder { local } => Statement::Assign {
            dest: local,
            effect: SUBTYPE_PROJECTION_EFFECT,
        },
        _ => s,
    }
}

pub open spec fn subtyper_model(b: BodyModel) -> BodyModel {
    BodyModel {
        blocks: b.blocks.map_values(
            |bl: BlockModel| BlockModel {
                statements: bl.statements.map_values(|s: Statement| subtype_stmt(s)),
                ..bl
            },
        ),
        ..b
    }
}

pub proof fn lemma_subtyper_removes_placeholders(b: BodyModel)
    ensures
        no_subtype_placeholders(subtyper_model(b)),
{
    let r = subtyper_model(b);
    assert forall|i: int, j: int|
        0 <= i < r.blocks.len() && 0 <= j
            < r.blocks[i].statements.len() implies !stmt_is_subtype_placeholder(
        #[trigger] r.blocks[i].statements[j],
    ) by {
        assert(r.blocks[i].statements[j] == subtype_stmt(b.blocks[i].statements[j]));
    }
}

pub open spec fn stmt_is_storage_marker(s: Statement) -> bool {
    ||| s matches Statement::StorageLive { .. }
    ||| s matches Statement::StorageDead { .. }
}

pub open spec fn stmt_is_place_mention(s: Statement) -> bool {
    s matches Statement::PlaceMention { .. }
}

/// The statements of a block with every storage marker removed.
pub open spec fn strip_storage(s: Seq<Statement>) -> Seq<Statement>
    decreases s.len(),
{
    if s.len() == 0 {
        Seq::empty()
    } else {
        let prev = strip_storage(s.drop_last());
        if stmt_is_storage_marker(s.last()) {
            prev
        } else {
            prev.push(s.last())
        }
    }
}

/// The statements of a block with every place mention removed.
pub open spec fn strip_place_mentions(s: Seq<Statement>) -> Seq<Statement>
    decreases s.len(),
{
    if s.len() == 0 {
        Seq::empty()
    } else {
        let prev = strip_place_mentions(s.drop_last());
        if stmt_is_place_mention(s.last()) {
            prev
        } else {
            prev.push(s.last())
        }
    }
}

pub open spec fn remove_storage_markers_model(b: BodyModel) -> BodyModel {
    BodyModel {
        blocks: b.blocks.map_values(
            |bl: BlockModel| BlockModel { statements: strip_storage(bl.statements), ..bl },
        ),
        ..b
    }
}

pub open spec fn remove_place_mention_model(b: BodyModel) -> BodyModel {
    BodyModel {
        blocks: b.blocks.map_values(
            |bl: BlockModel| BlockModel { statements: strip_place_mentions(bl.statements), ..bl },
        ),
        ..b
    }
}

// ---------------------------------------------------------------------------
// Dispatch
// ---------------------------------------------------------------------------

/// What one invocation of the named pass does to a body, and which promoted
/// sibling bodies it yields. Diagnostics-only lints and the passes whose
/// internal algorithms are external collaborators leave the body unchanged;
/// the structural passes of the pipeline are carried out exactly.
pub open spec fn apply_pass(b: BodyModel, name: PassName) -> (BodyModel, Seq<BodyModel>) {
    match name {
        PassName::SimplifyCfg => (simplify_cfg_model(b), Seq::empty()),
        PassName::PromoteTemps => promote_model(b),
        PassName::Subtyper => (subtyper_model(b), Seq::empty()),
        PassName::RemoveStorageMarkers => (remove_storage_markers_model(b), Seq::empty()),
        PassName::RemovePlaceMention => (remove_place_mention_model(b), Seq::empty()),
        _ => (b, Seq::empty()),
    }
}

/// No pass moves the phase tag: phase transitions belong to the manager.
pub proof fn lemma_apply_pass_keeps_phase(b: BodyModel, name: PassName)
    ensures
        apply_pass(b, name).0.phase == b.phase,
        apply_pass(b, name).0.arg_count == b.arg_count,
        apply_pass(b, name).0.locals == b.locals,
        apply_pass(b, name).0.source == b.source,
        apply_pass(b, name).0.span == b.span,
        apply_pass(b, name).0.tainted_by_errors == b.tainted_by_errors,
        apply_pass(b, name).0.blocks.len() == b.blocks.len(),
{
}

/// Every pass preserves the validator judgment at the body's current phase,
/// and introduces no marker that a later phase forbids.
pub proof fn lemma_apply_pass_preserves_validity(b: BodyModel, name: PassName)
    ensures
        body_structurally_valid(b) ==> body_structurally_valid(apply_pass(b, name).0),
        no_promotable_markers(b) ==> no_promotable_markers(apply_pass(b, name).0),
        no_subtype_placeholders(b) ==> no_subtype_placeholders(apply_pass(b, name).0),
        body_valid_at_phase(b) ==> body_valid_at_phase(apply_pass(b, name).0),
{
    let r = apply_pass(b, name).0;
    lemma_apply_pass_keeps_phase(b, name);
    if body_structurally_valid(b) {
        assert forall|i: int| 0 <= i < r.blocks.len() implies terminator_targets_ok(
            (#[trigger] r.blocks[i]).terminator,
            r.blocks.len() as int,
        ) by {
            assert(terminator_targets_ok(b.blocks[i].terminator, b.blocks.len() as int));
        }
    }
    if no_promotable_markers(b) {
        assert forall|i: int, j: int|
            0 <= i < r.blocks.len() && 0 <= j
                < r.blocks[i].statements.len() implies !stmt_is_promotable(
            #[trigger] r.blocks[i].statements[j],
        ) by {
            lemma_stmt_origin(b, name, i, j);
        }
    }
    if no_subtype_placeholders(b) && !(name matches PassName::Subtyper) {
        assert forall|i: int, j: int|
            0 <= i < r.blocks.len() && 0 <= j
                < r.blocks[i].statements.len() implies !stmt_is_subtype_placeholder(
            #[trigger] r.blocks[i].statements[j],
        ) by {
            lemma_stmt_origin(b, name, i, j);
        }
    }
    if (name matches PassName::Subtyper) {
        lemma_subtyper_removes_placeholders(b);
    }
}

/// Every statement of a pass's output is either a statement of the input
/// block rewritten pointwise, or a `Nop`: no pass invents a promotable
/// marker or a subtyping placeholder.
proof fn lemma_stmt_origin(b: BodyModel, name: PassName, i: int, j: int)
    requires
        0 <= i < apply_pass(b, name).0.blocks.len(),
        0 <= j < apply_pass(b, name).0.blocks[i].statements.len(),
    ensures
        !stmt_is_promotable(apply_pass(b, name).0.blocks[i].statements[j]) || exists|q: int|
            0 <= q < b.blocks[i].statements.len() && stmt_is_promotable(
                #[trigger] b.blocks[i].statements[q],
            ),
        !stmt_is_subtype_placeholder(apply_pass(b, name).0.blocks[i].statements[j]) || (!(
        name matches PassName::Subtyper) && exists|q: int|
            0 <= q < b.blocks[i].statements.len() && stmt_is_subtype_placeholder(
                #[trigger] b.blocks[i].statements[q],
            )),
{
    let s = apply_pass(b, name).0.blocks[i].statements[j];
    match name {
        PassName::SimplifyCfg => {
            lemma_strip_membership(b.blocks[i].statements, 0, j);
        },
        PassName::PromoteTemps => {
            assert(s == promote_stmt(b.blocks[i].statements[j]));
        },
        PassName::Subtyper => {
            assert(s == subtype_stmt(b.blocks[i].statements[j]));
        },
        PassName::RemoveStorageMarkers => {
            lemma_strip_membership(b.blocks[i].statements, 1, j);
        },
        PassName::RemovePlaceMention => {
            lemma_strip_membership(b.blocks[i].statements, 2, j);
        },
        _ => {},
    }
}

/// Every element of a stripped statement sequence occurs in the original
/// sequence. `which` selects the strip: 0 no-ops, 1 storage markers, 2 place
/// mentions.
proof fn lemma_strip_membership(s: Seq<Statement>, which: int, j: int)
    requires
        0 <= j < strip_of(s, which).len(),
    ensures
        exists|q: int| 0 <= q < s.len() && #[trigger] s[q] == strip_of(s, which)[j],
    decreases s.len(),
{
    if s.len() > 0 {
        let prev = strip_of(s.drop_last(), which);
        if j < prev.len() {
            lemma_strip_membership(s.drop_last(), which, j);
            let q = choose|q: int| 0 <= q < s.drop_last().len() && #[trigger] s.drop_last()[q]
                == prev[j];
            assert(s[q] == strip_of(s, which)[j]);
        } else {
            assert(s[s.len() - 1] == strip_of(s, which)[j]);
        }
    }
}

/// The strip selected by `which`; a helper for stating facts of all three
/// strips at once.
pub open spec fn strip_of(s: Seq<Statement>, which: int) -> Seq<Statement> {
    if which == 0 {
        strip_nops(s)
    } else if which == 1 {
        strip_storage(s)
    } else {
        strip_place_mentions(s)
    }
}

/// On a body that is already a lone `Unreachable` block, every pass is a
/// no-op and yields no promoted bodies.
pub proof fn lemma_apply_pass_lone_unreachable(b: BodyModel, name: PassName)
    requires
        is_lone_unreachable(b),
    ensures
        apply_pass(b, name) == (b, Seq::<BodyModel>::empty()),
{
    let (r, p) = apply_pass(b, name);
    assert(b.blocks[0].statements =~= Seq::<Statement>::empty());
    match name {
        PassName::SimplifyCfg => {
            assert(simplify_block_model(b.blocks[0]) =~= b.blocks[0]);
            assert(r.blocks =~= b.blocks);
        },
        PassName::PromoteTemps => {
            assert(promote_block_model(b.blocks[0]) =~= b.blocks[0]);
            assert(r.blocks =~= b.blocks);
            assert(promoted_tys(b.blocks) =~= promoted_tys(b.blocks.drop_last())
                + promoted_tys_of_stmts(b.blocks[0].statements));
            assert(b.blocks.drop_last() =~= Seq::<BlockModel>::empty());
            assert(promoted_tys(b.blocks) =~= Seq::<u64>::empty());
        },
        PassName::Subtyper => {
            assert(r.blocks[0] =~= b.blocks[0]);
            assert(r.blocks =~= b.blocks);
        },
        PassName::RemoveStorageMarkers => {
            assert(r.blocks[0] =~= b.blocks[0]);
            assert(r.blocks =~= b.blocks);
        },
        PassName::RemovePlaceMention => {
            assert(r.blocks[0] =~= b.blocks[0]);
            assert(r.blocks =~= b.blocks);
        },
        _ => {},
    }
    assert(r =~~= b);
    assert(p =~~= Seq::<BodyModel>::empty());
}

// ---------------------------------------------------------------------------
// Executable transformations
// ---------------------------------------------------------------------------

/// The view of a vector of bodies.
pub open spec fn bodies_view(v: Seq<Body>) -> Seq<BodyModel> {
    v.map_values(|b: Body| b@)
}

/// Rewrite one block for the simplification pass.
fn simplify_block(b: &BasicBlock) -> (r: BasicBlock)
    ensures
        r@ == simplify_block_model(b@),
{
    let m = b.statements.len();
    let mut statements: Vec<Statement> = Vec::new();
    let mut j: usize = 0;
    while j < m
        invariant
            m == b.statements@.len(),
            j <= m,
            statements@ == strip_nops(b.statements@.take(j as int)),
        decreases m - j,
    {
        let s = b.statements[j];
        proof {
            assert(b.statements@.take(j + 1 as int).drop_last() =~= b.statements@.take(j as int));
            assert(b.statements@.take(j + 1 as int).last() == b.statements@[j as int]);
        }
        match s {
            Statement::Nop => {},
            _ => {
                statements.push(s);
            },
        }
        j = j + 1;
    }
    assert(b.statements@.take(m as int) =~= b.statements@);
    let terminator = match b.terminator {
        Terminator::Branch { condition, then_target, else_target } => {
            if then_target == else_target {
                Terminator::Goto { target: then_target }
            } else {
                Terminator::Branch { condition, then_target, else_target }
            }
        },
        t => t,
    };
    BasicBlock { statements, terminator }
}

/// Rewrite one block for a statement strip or map selected by the pass name;
/// used by the storage-marker, place-mention, subtyping and promotion
/// passes. Promotion also appends the extracted types to `tys`.
fn rewrite_block(b: &BasicBlock, name: PassName, tys: &mut Vec<u64>) -> (r: BasicBlock)
    requires
        name matches PassName::RemoveStorageMarkers || name matches PassName::RemovePlaceMention
            || name matches PassName::Subtyper || name matches PassName::PromoteTemps,
    ensures
        name matches PassName::RemoveStorageMarkers ==> r@ == (BlockModel {
            statements: strip_storage(b@.statements),
            ..b@
        }) && final(tys)@ == old(tys)@,
        name matches PassName::RemovePlaceMention ==> r@ == (BlockModel {
            statements: strip_place_mentions(b@.statements),
            ..b@
        }) && final(tys)@ == old(tys)@,
        name matches PassName::Subtyper ==> r@ == (BlockModel {
            statements: b@.statements.map_values(|s: Statement| subtype_stmt(s)),
            ..b@
        }) && final(tys)@ == old(tys)@,
        name matches PassName::PromoteTemps ==> r@ == promote_block_model(b@) && final(tys)@ == old(
            tys,
        )@ + promoted_tys_of_stmts(b@.statements),
{
    let m = b.statements.len();
    let mut statements: Vec<Statement> = Vec::new();
    let mut j: usize = 0;
    while j < m
        invariant
            m == b.statements@.len(),
            j <= m,
            name matches PassName::RemoveStorageMarkers || name
                matches PassName::RemovePlaceMention || name matches PassName::Subtyper || name
                matches PassName::PromoteTemps,
            name matches PassName::RemoveStorageMarkers ==> statements@ == strip_storage(
                b.statements@.take(j as int),
            ) && tys@ == old(tys)@,
            name matches PassName::RemovePlaceMention ==> statements@ == strip_place_mentions(
                b.statements@.take(j as int),
            ) && tys@ == old(tys)@,
            name matches PassName::Subtyper ==> statements@ == b.statements@.take(
                j as int,
            ).map_values(|s: Statement| subtype_stmt(s)) && tys@ == old(tys)@,
            name matches PassName::PromoteTemps ==> statements@ == b.statements@.take(
                j as int,
            ).map_values(|s: Statement| promote_stmt(s)) && tys@ == old(tys)@
                + promoted_tys_of_stmts(b.statements@.take(j as int)),
        decreases m - j,
    {
        let s = b.statements[j];
        proof {
            assert(b.statements@.take(j + 1 as int).drop_last() =~= b.statements@.take(j as int));
            assert(b.statements@.take(j + 1 as int).last() == b.statements@[j as int]);
        }
        match name {
            PassName::RemoveStorageMarkers => {
                match s {
                    Statement::StorageLive { .. } | Statement::StorageDead { .. } => {},
                    _ => {
                        statements.push(s);
                    },
                }
            },
            PassName::RemovePlaceMention => {
                match s {
                    Statement::PlaceMention { .. } => {},
                    _ => {
                        statements.push(s);
                    },
                }
            },
            PassName::Subtyper => {
                match s {
                    Statement::SubtypePlaceholder { local } => {
                        statements.push(
                            Statement::Assign { dest: local, effect: SUBTYPE_PROJECTION_EFFECT },
                        );
                    },
                    _ => {
                        statements.push(s);
                    },
                }
                assert(statements@ =~= b.statements@.take(j + 1 as int).map_values(
                    |s: Statement| subtype_stmt(s),
                ));
            },
            PassName::PromoteTemps => {
                match s {
                    Statement::Promotable { ty } => {
                        statements.push(Statement::Nop);
                        tys.push(ty);
                    },
                    _ => {
                        statements.push(s);
                    },
                }
                assert(statements@ =~= b.statements@.take(j + 1 as int).map_values(
                    |s: Statement| promote_stmt(s),
                ));
            },
            _ => {},
        }
        j = j + 1;
    }
    assert(b.statements@.take(m as int) =~= b.statements@);
    BasicBlock { statements, terminator: b.terminator }
}

/// Build the promoted sibling body for one extracted type.
fn build_promoted_body(ty: u64, source: usize, span: u64) -> (r: Body)
    ensures
        r@ == promoted_body_model(ty, source, span),
{
    let mut statements: Vec<Statement> = Vec::new();
    statements.push(Statement::Assign { dest: 0, effect: PROMOTED_INIT_EFFECT });
    let mut blocks: Vec<BasicBlock> = Vec::new();
    blocks.push(BasicBlock { statements, terminator: Terminator::Return });
    let mut locals: Vec<Local> = Vec::new();
    locals.push(Local { ty, debug_info: None });
    let r = Body {
        blocks,
        locals,
        arg_count: 0,
        phase: crate::phase::Phase::AnalysisInitial,
        tainted_by_errors: None,
        source,
        span,
    };
    assert(r@.blocks =~~= promoted_body_model(ty, source, span).blocks);
    assert(r@ =~~= promoted_body_model(ty, source, span));
    r
}

/// Run one invocation of the named pass against the body in place,
/// appending any extracted promoted bodies to `promoted`.
pub fn run_single_pass(body: &mut Body, name: PassName, promoted: &mut Vec<Body>)
    ensures
        final(body)@ == apply_pass(old(body)@, name).0,
        bodies_view(final(promoted)@) == bodies_view(old(promoted)@) + apply_pass(
            old(body)@,
            name,
        ).1,
{
    match name {
        PassName::SimplifyCfg => {
            let n = body.blocks.len();
            let mut blocks: Vec<BasicBlock> = Vec::new();
            let mut i: usize = 0;
            while i < n
                invariant
                    n == body.blocks@.len(),
                    i <= n,
                    blocks@.len() == i,
                    forall|p: int|
                        0 <= p < i ==> (#[trigger] blocks@[p])@ == simplify_block_model(
                            body.blocks@[p]@,
                        ),
                decreases n - i,
            {
                blocks.push(simplify_block(&body.blocks[i]));
                i = i + 1;
            }
            body.blocks = blocks;
            assert(body@.blocks =~~= simplify_cfg_model(old(body)@).blocks);
            assert(body@ =~~= simplify_cfg_model(old(body)@));
            assert(bodies_view(promoted@) =~= bodies_view(old(promoted)@) + Seq::<
                BodyModel,
            >::empty());
        },
        PassName::PromoteTemps => {
            let ghost pre = body@;
            let n = body.blocks.len();
            let mut blocks: Vec<BasicBlock> = Vec::new();
            let mut tys: Vec<u64> = Vec::new();
            let mut i: usize = 0;
            while i < n
                invariant
                    n == body.blocks@.len(),
                    i <= n,
                    blocks@.len() == i,
                    forall|p: int|
                        0 <= p < i ==> (#[trigger] blocks@[p])@ == promote_block_model(
                            body.blocks@[p]@,
                        ),
                    tys@ == promoted_tys(body@.blocks.take(i as int)),
                decreases n - i,
            {
                proof {
                    assert(body@.blocks.take(i + 1 as int).drop_last() =~= body@.blocks.take(
                        i as int,
                    ));
                    assert(body@.blocks.take(i + 1 as int).last() == body@.blocks[i as int]);
                }
                let nb = rewrite_block(&body.blocks[i], PassName::PromoteTemps, &mut tys);
                blocks.push(nb);
                i = i + 1;
            }
            assert(body@.blocks.take(n as int) =~= body@.blocks);
            body.blocks = blocks;
            assert(body@.blocks =~~= promote_model(pre).0.blocks);
            assert(body@ =~~= promote_model(pre).0);
            // Emit one promoted sibling per extracted type, in order.
            let k = tys.len();
            let mut t: usize = 0;
            while t < k
                invariant
                    k == tys@.len(),
                    t <= k,
                    tys@ == promoted_tys(pre.blocks),
                    body@.source == pre.source,
                    body@.span == pre.span,
                    bodies_view(promoted@) =~= bodies_view(old(promoted)@) + tys@.take(
                        t as int,
                    ).map_values(|ty: u64| promoted_body_model(ty, pre.source, pre.span)),
                decreases k - t,
            {
                let pb = build_promoted_body(tys[t], body.source, body.span);
                let ghost before = promoted@;
                promoted.push(pb);
                assert(bodies_view(promoted@) =~= bodies_view(before).push(pb@));
                assert(tys@.take(t + 1 as int).map_values(
                    |ty: u64| promoted_body_model(ty, pre.source, pre.span),
                ) =~= tys@.take(t as int).map_values(
                    |ty: u64| promoted_body_model(ty, pre.source, pre.span),
                ).push(promoted_body_model(tys@[t as int], pre.source, pre.span)));
                t = t + 1;
            }
            assert(tys@.take(k as int) =~= tys@);
            assert(bodies_view(promoted@) =~= bodies_view(old(promoted)@) + promote_model(
                pre,
            ).1);
        },
        PassName::Subtyper | PassName::RemoveStorageMarkers | PassName::RemovePlaceMention => {
            let ghost pre = body@;
            let n = body.blocks.len();
            let mut blocks: Vec<BasicBlock> = Vec::new();
            let mut tys: Vec<u64> = Vec::new();
            let mut i: usize = 0;
            while i < n
                invariant
                    n == body.blocks@.len(),
                    i <= n,
                    blocks@.len() == i,
                    name matches PassName::Subtyper || name matches PassName::RemoveStorageMarkers
                        || name matches PassName::RemovePlaceMention,
                    forall|p: int|
                        0 <= p < i ==> (#[trigger] blocks@[p])@ == apply_pass(
                            pre,
                            name,
                        ).0.blocks[p],
                    pre == body@,
                decreases n - i,
            {
                let nb = rewrite_block(&body.blocks[i], name, &mut tys);
                blocks.push(nb);
                i = i + 1;
            }
            body.blocks = blocks;
            assert(body@.blocks =~~= apply_pass(pre, name).0.blocks);
            assert(body@ =~~= apply_pass(pre, name).0);
            assert(bodies_view(promoted@) =~= bodies_view(old(promoted)@) + Seq::<
                BodyModel,
            >::empty());
        },
        _ => {
            assert(bodies_view(promoted@) =~= bodies_view(old(promoted)@) + Seq::<
                BodyModel,
            >::empty());
        },
    }
}

} // verus!
