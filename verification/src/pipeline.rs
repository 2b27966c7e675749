use vstd::prelude::*;

use crate::ir::{
    body_valid_at_phase, no_promotable_markers, no_subtype_placeholders, Body, BodyModel, Local,
};
use crate::pass_manager::{
    batch_states_valid, enabled_names, pass_enabled, run_list, run_passes, run_succeeds,
    with_target, ConfigModel, FatalError, PassConfig,
};
use crate::passes::{
    apply_pass, lemma_apply_pass_keeps_phase, lemma_apply_pass_preserves_validity, PassDescriptor,
    PassName,
};
use crate::phase::{phase_index, phase_le, phase_lt, Phase};

verus! {

/// Shorthand for a pass descriptor.
pub open spec fn descr(name: PassName, min_level: u8, default_enabled: bool, is_lint: bool) -> PassDescriptor {
    PassDescriptor { name, min_level, default_enabled, is_lint }
}

/// Build-cleanup stage: structural lints, then an initial CFG
/// simplification. No phase change; its output feeds constant qualification.
pub open spec fn build_cleanup_list() -> Seq<PassDescriptor> {
    seq![
        descr(PassName::CheckPackedRef, 0, true, true),
        descr(PassName::CheckConstItemMutation, 0, true, true),
        descr(PassName::FunctionItemReferences, 0, true, true),
        descr(PassName::CheckUndefinedTransmutes, 0, true, true),
        descr(PassName::SimplifyCfg, 0, true, false),
        descr(PassName::SanityCheck, 0, true, true),
    ]
}

/// Promotion stage: extract promotable constants into sibling bodies, then
/// simplify the CFG and instrument coverage. Transitions to
/// `AnalysisInitial`.
pub open spec fn promotion_list() -> Seq<PassDescriptor> {
    seq![
        descr(PassName::PromoteTemps, 0, true, false),
        descr(PassName::SimplifyCfg, 0, true, false),
        descr(PassName::InstrumentCoverage, 0, false, false),
    ]
}

/// Analysis cleanup: after these, no lifetime analysis based on borrowing
/// can be done. Transitions to `AnalysisPostCleanup`.
pub open spec fn analysis_cleanup_list() -> Seq<PassDescriptor> {
    seq![
        descr(PassName::CleanupPostBorrowck, 0, true, false),
        descr(PassName::RemoveNoopLandingPads, 0, true, false),
        descr(PassName::SimplifyCfg, 0, true, false),
        descr(PassName::Derefer, 0, true, false),
    ]
}

/// The live-drop precision pre-batch, run before runtime lowering when the
/// configuration asks for precise checking of live drops in constants.
pub open spec fn precise_live_drops_list() -> Seq<PassDescriptor> {
    seq![
        descr(PassName::RemoveUninitDrops, 0, true, false),
        descr(PassName::SimplifyCfg, 0, true, false),
        descr(PassName::CheckLiveDrops, 0, true, true),
    ]
}

/// Runtime lowering: these passes must execute together and in this order,
/// since each later pass assumes constructs inserted or removed by the one
/// before it; intermediate states may transiently break invariants, so
/// per-pass validation stays off. Transitions to `RuntimeInitial`.
pub open spec fn runtime_lowering_list() -> Seq<PassDescriptor> {
    seq![
        descr(PassName::AddCallGuards, 0, true, false),
        descr(PassName::RevealAll, 0, true, false),
        descr(PassName::Subtyper, 0, true, false),
        descr(PassName::ElaborateDrops, 0, true, false),
        descr(PassName::AbortUnwindingCalls, 0, true, false),
        descr(PassName::AddMovesForPackedDrops, 0, true, false),
        descr(PassName::AddRetag, 0, false, false),
        descr(PassName::ElaborateBoxDerefs, 0, true, false),
        descr(PassName::StateTransform, 0, true, false),
        descr(PassName::KnownPanicsLint, 0, true, true),
    ]
}

/// Runtime cleanup: initial cleanup of runtime IR. Transitions to
/// `RuntimePostCleanup`; afterwards the per-local debug side tables are
/// cleared, since optimizations have no reason to look at them.
pub open spec fn runtime_cleanup_list() -> Seq<PassDescriptor> {
    seq![
        descr(PassName::LowerIntrinsics, 0, true, false),
        descr(PassName::RemovePlaceMention, 0, true, false),
        descr(PassName::SimplifyCfg, 0, true, false),
    ]
}

/// The pass appended for bodies that terminate at the compile-time
/// evaluation variant.
pub open spec fn ctfe_list() -> Seq<PassDescriptor> {
    seq![descr(PassName::CtfeLimit, 0, true, false)]
}

/// Optimization stage: the ordered catalog of optimizations, run only for
/// non-constant, non-constructor functions. Transitions to
/// `RuntimeOptimized`.
pub open spec fn optimization_list() -> Seq<PassDescriptor> {
    seq![
        descr(PassName::CheckAlignment, 0, true, false),
        descr(PassName::LowerSliceLenCalls, 0, true, false),
        descr(PassName::InstSimplify, 0, true, false),
        descr(PassName::Inline, 2, true, false),
        descr(PassName::RemoveStorageMarkers, 0, true, false),
        descr(PassName::RemoveZsts, 0, true, false),
        descr(PassName::RemoveUnneededDrops, 0, true, false),
        descr(PassName::UnreachableEnumBranching, 0, true, false),
        descr(PassName::UnreachablePropagation, 0, true, false),
        descr(PassName::SimplifyCfg, 1, true, false),
        descr(PassName::ReferencePropagation, 0, true, false),
        descr(PassName::ScalarReplacementOfAggregates, 0, true, false),
        descr(PassName::MatchBranchSimplification, 0, true, false),
        descr(PassName::MultipleReturnTerminators, 0, true, false),
        descr(PassName::InstSimplify, 0, true, false),
        descr(PassName::SimplifyLocals, 0, true, false),
        descr(PassName::DeadStoreElimination, 0, true, false),
        descr(PassName::Gvn, 2, true, false),
        descr(PassName::SimplifyLocals, 0, true, false),
        descr(PassName::DataflowConstProp, 0, true, false),
        descr(PassName::SingleUseConsts, 0, true, false),
        descr(PassName::SimplifyConstCondition, 1, true, false),
        descr(PassName::JumpThreading, 0, true, false),
        descr(PassName::EarlyOtherwiseBranch, 0, true, false),
        descr(PassName::SimplifyComparisonIntegral, 0, true, false),
        descr(PassName::DestinationPropagation, 3, true, false),
        descr(PassName::SimplifyConstCondition, 1, true, false),
        descr(PassName::RemoveNoopLandingPads, 1, true, false),
        descr(PassName::SimplifyCfg, 1, true, false),
        descr(PassName::CopyProp, 0, true, false),
        descr(PassName::DeadStoreElimination, 0, true, false),
        descr(PassName::RenameReturnPlace, 0, true, false),
        descr(PassName::SimplifyLocals, 0, true, false),
        descr(PassName::MultipleReturnTerminators, 0, true, false),
        descr(PassName::DeduplicateBlocks, 0, true, false),
        descr(PassName::EnumSizeOpt, 0, true, false),
        descr(PassName::AddCallGuards, 0, true, false),
        descr(PassName::ReorderBasicBlocks, 0, false, false),
        descr(PassName::ReorderLocals, 0, false, false),
        descr(PassName::ParReEmit, 0, true, false),
    ]
}

/// Executable descriptor constructor.
pub fn mk_descr(name: PassName, min_level: u8, default_enabled: bool, is_lint: bool) -> (r:
    PassDescriptor)
    ensures
        r == descr(name, min_level, default_enabled, is_lint),
{
    PassDescriptor { name, min_level, default_enabled, is_lint }
}

pub fn build_cleanup_passes() -> (r: Vec<PassDescriptor>)
    ensures
        r@ == build_cleanup_list(),
{
    let mut v: Vec<PassDescriptor> = Vec::new();
    v.push(mk_descr(PassName::CheckPackedRef, 0, true, true));
    v.push(mk_descr(PassName::CheckConstItemMutation, 0, true, true));
    v.push(mk_descr(PassName::FunctionItemReferences, 0, true, true));
    v.push(mk_descr(PassName::CheckUndefinedTransmutes, 0, true, true));
    v.push(mk_descr(PassName::SimplifyCfg, 0, true, false));
    v.push(mk_descr(PassName::SanityCheck, 0, true, true));
    assert(v@ =~= build_cleanup_list());
    v
}

pub fn promotion_passes() -> (r: Vec<PassDescriptor>)
    ensures
        r@ == promotion_list(),
{
    let mut v: Vec<PassDescriptor> = Vec::new();
    v.push(mk_descr(PassName::PromoteTemps, 0, true, false));
    v.push(mk_descr(PassName::SimplifyCfg, 0, true, false));
    v.push(mk_descr(PassName::InstrumentCoverage, 0, false, false));
    assert(v@ =~= promotion_list());
    v
}

pub fn analysis_cleanup_passes() -> (r: Vec<PassDescriptor>)
    ensures
        r@ == analysis_cleanup_list(),
{
    let mut v: Vec<PassDescriptor> = Vec::new();
    v.push(mk_descr(PassName::CleanupPostBorrowck, 0, true, false));
    v.push(mk_descr(PassName::RemoveNoopLandingPads, 0, true, false));
    v.push(mk_descr(PassName::SimplifyCfg, 0, true, false));
    v.push(mk_descr(PassName::Derefer, 0, true, false));
    assert(v@ =~= analysis_cleanup_list());
    v
}

pub fn precise_live_drops_passes() -> (r: Vec<PassDescriptor>)
    ensures
        r@ == precise_live_drops_list(),
{
    let mut v: Vec<PassDescriptor> = Vec::new();
    v.push(mk_descr(PassName::RemoveUninitDrops, 0, true, false));
    v.push(mk_descr(PassName::SimplifyCfg, 0, true, false));
    v.push(mk_descr(PassName::CheckLiveDrops, 0, true, true));
    assert(v@ =~= precise_live_drops_list());
    v
}

pub fn runtime_lowering_passes() -> (r: Vec<PassDescriptor>)
    ensures
        r@ == runtime_lowering_list(),
{
    let mut v: Vec<PassDescriptor> = Vec::new();
    v.push(mk_descr(PassName::AddCallGuards, 0, true, false));
    v.push(mk_descr(PassName::RevealAll, 0, true, false));
    v.push(mk_descr(PassName::Subtyper, 0, true, false));
    v.push(mk_descr(PassName::ElaborateDrops, 0, true, false));
    v.push(mk_descr(PassName::AbortUnwindingCalls, 0, true, false));
    v.push(mk_descr(PassName::AddMovesForPackedDrops, 0, true, false));
    v.push(mk_descr(PassName::AddRetag, 0, false, false));
    v.push(mk_descr(PassName::ElaborateBoxDerefs, 0, true, false));
    v.push(mk_descr(PassName::StateTransform, 0, true, false));
    v.push(mk_descr(PassName::KnownPanicsLint, 0, true, true));
    assert(v@ =~= runtime_lowering_list());
    v
}

pub fn runtime_cleanup_passes() -> (r: Vec<PassDescriptor>)
    ensures
        r@ == runtime_cleanup_list(),
{
    let mut v: Vec<PassDescriptor> = Vec::new();
    v.push(mk_descr(PassName::LowerIntrinsics, 0, true, false));
    v.push(mk_descr(PassName::RemovePlaceMention, 0, true, false));
    v.push(mk_descr(PassName::SimplifyCfg, 0, true, false));
    assert(v@ =~= runtime_cleanup_list());
    v
}

pub fn ctfe_passes() -> (r: Vec<PassDescriptor>)
    ensures
        r@ == ctfe_list(),
{
    let mut v: Vec<PassDescriptor> = Vec::new();
    v.push(mk_descr(PassName::CtfeLimit, 0, true, false));
    assert(v@ =~= ctfe_list());
    v
}

pub fn optimization_passes() -> (r: Vec<PassDescriptor>)
    ensures
        r@ == optimization_list(),
{
    let mut v: Vec<PassDescriptor> = Vec::new();
    v.push(mk_descr(PassName::CheckAlignment, 0, true, false));
    v.push(mk_descr(PassName::LowerSliceLenCalls, 0, true, false));
    v.push(mk_descr(PassName::InstSimplify, 0, true, false));
    v.push(mk_descr(PassName::Inline, 2, true, false));
    v.push(mk_descr(PassName::RemoveStorageMarkers, 0, true, false));
    v.push(mk_descr(PassName::RemoveZsts, 0, true, false));
    v.push(mk_descr(PassName::RemoveUnneededDrops, 0, true, false));
    v.push(mk_descr(PassName::UnreachableEnumBranching, 0, true, false));
    v.push(mk_descr(PassName::UnreachablePropagation, 0, true, false));
    v.push(mk_descr(PassName::SimplifyCfg, 1, true, false));
    v.push(mk_descr(PassName::ReferencePropagation, 0, true, false));
    v.push(mk_descr(PassName::ScalarReplacementOfAggregates, 0, true, false));
    v.push(mk_descr(PassName::MatchBranchSimplification, 0, true, false));
    v.push(mk_descr(PassName::MultipleReturnTerminators, 0, true, false));
    v.push(mk_descr(PassName::InstSimplify, 0, true, false));
    v.push(mk_descr(PassName::SimplifyLocals, 0, true, false));
    v.push(mk_descr(PassName::DeadStoreElimination, 0, true, false));
    v.push(mk_descr(PassName::Gvn, 2, true, false));
    v.push(mk_descr(PassName::SimplifyLocals, 0, true, false));
    v.push(mk_descr(PassName::DataflowConstProp, 0, true, false));
    v.push(mk_descr(PassName::SingleUseConsts, 0, true, false));
    v.push(mk_descr(PassName::SimplifyConstCondition, 1, true, false));
    v.push(mk_descr(PassName::JumpThreading, 0, true, false));
    v.push(mk_descr(PassName::EarlyOtherwiseBranch, 0, true, false));
    v.push(mk_descr(PassName::SimplifyComparisonIntegral, 0, true, false));
    v.push(mk_descr(PassName::DestinationPropagation, 3, true, false));
    v.push(mk_descr(PassName::SimplifyConstCondition, 1, true, false));
    v.push(mk_descr(PassName::RemoveNoopLandingPads, 1, true, false));
    v.push(mk_descr(PassName::SimplifyCfg, 1, true, false));
    v.push(mk_descr(PassName::CopyProp, 0, true, false));
    v.push(mk_descr(PassName::DeadStoreElimination, 0, true, false));
    v.push(mk_descr(PassName::RenameReturnPlace, 0, true, false));
    v.push(mk_descr(PassName::SimplifyLocals, 0, true, false));
    v.push(mk_descr(PassName::MultipleReturnTerminators, 0, true, false));
    v.push(mk_descr(PassName::DeduplicateBlocks, 0, true, false));
    v.push(mk_descr(PassName::EnumSizeOpt, 0, true, false));
    v.push(mk_descr(PassName::AddCallGuards, 0, true, false));
    v.push(mk_descr(PassName::ReorderBasicBlocks, 0, false, false));
    v.push(mk_descr(PassName::ReorderLocals, 0, false, false));
    v.push(mk_descr(PassName::ParReEmit, 0, true, false));
    assert(v@ =~= optimization_list());
    v
}

// ---------------------------------------------------------------------------
// Stage results as specifications
// ---------------------------------------------------------------------------

/// A valid body makes every intermediate state of any batch valid, since
/// every pass preserves the validator judgment and leaves the phase alone.
pub proof fn lemma_batch_valid_from_input(b: BodyModel, list: Seq<PassDescriptor>, c: ConfigModel)
    requires
        body_valid_at_phase(b),
    ensures
        batch_states_valid(b, list, c),
        body_valid_at_phase(run_list(b, list, c).0),
        run_list(b, list, c).0.phase == b.phase,
        no_promotable_markers(b) ==> no_promotable_markers(run_list(b, list, c).0),
        no_subtype_placeholders(b) ==> no_subtype_placeholders(run_list(b, list, c).0),
    decreases list.len(),
{
    if list.len() > 0 {
        lemma_batch_valid_from_input(b, list.drop_last(), c);
        let prev = run_list(b, list.drop_last(), c).0;
        if pass_enabled(list.last(), c) {
            lemma_apply_pass_preserves_validity(prev, list.last().name);
            lemma_apply_pass_keeps_phase(prev, list.last().name);
        }
    }
}

/// The body after the analysis-cleanup stage.
pub open spec fn analysis_cleanup_spec(b: BodyModel, c: ConfigModel) -> BodyModel {
    with_target(run_list(b, analysis_cleanup_list(), c).0, Some(Phase::AnalysisPostCleanup))
}

/// The body after the optional live-drop precision pre-batch.
pub open spec fn precise_live_drops_spec(b: BodyModel, c: ConfigModel) -> BodyModel {
    if c.precise_live_drops {
        run_list(b, precise_live_drops_list(), c).0
    } else {
        b
    }
}

/// The body after the runtime-lowering stage.
pub open spec fn runtime_lowering_spec(b: BodyModel, c: ConfigModel) -> BodyModel {
    with_target(run_list(b, runtime_lowering_list(), c).0, Some(Phase::RuntimeInitial))
}

/// Whether runtime lowering validates: no subtyping-projection placeholder
/// may survive the stage.
pub open spec fn runtime_lowering_ok(b: BodyModel, c: ConfigModel) -> bool {
    no_subtype_placeholders(run_list(b, runtime_lowering_list(), c).0)
}

/// A body with the per-local debug side data cleared.
pub open spec fn clear_debug_model(b: BodyModel) -> BodyModel {
    BodyModel {
        locals: b.locals.map_values(|l: Local| Local { debug_info: None, ..l }),
        ..b
    }
}

/// The body after the runtime-cleanup stage, debug side tables cleared.
pub open spec fn runtime_cleanup_spec(b: BodyModel, c: ConfigModel) -> BodyModel {
    clear_debug_model(
        with_target(run_list(b, runtime_cleanup_list(), c).0, Some(Phase::RuntimePostCleanup)),
    )
}

/// The composed analysis-to-runtime lowering: analysis cleanup, the optional
/// live-drop precision pre-batch, runtime lowering, runtime cleanup.
pub open spec fn analysis_to_runtime_spec(b: BodyModel, c: ConfigModel) -> BodyModel {
    runtime_cleanup_spec(
        runtime_lowering_spec(precise_live_drops_spec(analysis_cleanup_spec(b, c), c), c),
        c,
    )
}

/// Whether the composed lowering validates throughout.
pub open spec fn analysis_to_runtime_ok(b: BodyModel, c: ConfigModel) -> bool {
    runtime_lowering_ok(precise_live_drops_spec(analysis_cleanup_spec(b, c), c), c)
}

/// The pass-invocation trace of the composed lowering.
pub open spec fn analysis_to_runtime_names(c: ConfigModel) -> Seq<PassName> {
    enabled_names(analysis_cleanup_list(), c) + (if c.precise_live_drops {
        enabled_names(precise_live_drops_list(), c)
    } else {
        Seq::empty()
    }) + enabled_names(runtime_lowering_list(), c) + enabled_names(runtime_cleanup_list(), c)
}

/// The body after the optimization stage.
pub open spec fn optimization_spec(b: BodyModel, c: ConfigModel) -> BodyModel {
    with_target(run_list(b, optimization_list(), c).0, Some(Phase::RuntimeOptimized))
}

/// Applying a target phase and clearing debug data both leave the blocks —
/// and with them every statement-level judgment — untouched.
pub proof fn lemma_wrappers_keep_blocks(b: BodyModel, target: Option<Phase>)
    ensures
        with_target(b, target).blocks == b.blocks,
        clear_debug_model(b).blocks == b.blocks,
{
}

/// Spec-level counterpart of the composed lowering driver: a valid body at
/// `AnalysisInitial` comes out valid at `RuntimePostCleanup`, provided the
/// composed run validates; markers absent on entry stay absent.
pub proof fn lemma_analysis_to_runtime_valid(b: BodyModel, c: ConfigModel)
    requires
        body_valid_at_phase(b),
        b.phase == Phase::AnalysisInitial,
        analysis_to_runtime_ok(b, c),
    ensures
        body_valid_at_phase(analysis_to_runtime_spec(b, c)),
        analysis_to_runtime_spec(b, c).phase == Phase::RuntimePostCleanup,
{
    let b1 = analysis_cleanup_spec(b, c);
    lemma_batch_valid_from_input(b, analysis_cleanup_list(), c);
    assert(body_valid_at_phase(b1));
    let b2 = precise_live_drops_spec(b1, c);
    if c.precise_live_drops {
        lemma_batch_valid_from_input(b1, precise_live_drops_list(), c);
    }
    assert(body_valid_at_phase(b2));
    let lowered = run_list(b2, runtime_lowering_list(), c).0;
    lemma_batch_valid_from_input(b2, runtime_lowering_list(), c);
    let b3 = runtime_lowering_spec(b2, c);
    assert(no_subtype_placeholders(lowered));
    assert(body_valid_at_phase(b3));
    lemma_batch_valid_from_input(b3, runtime_cleanup_list(), c);
    let b4 = with_target(run_list(b3, runtime_cleanup_list(), c).0, Some(Phase::RuntimePostCleanup));
    assert(body_valid_at_phase(b4));
    let b5 = clear_debug_model(b4);
    assert(b5.locals.len() == b4.locals.len());
    assert(body_valid_at_phase(b5));
}

/// A body without subtyping placeholders cannot make the composed lowering
/// fail: the placeholders the validator would reject never appear.
pub proof fn lemma_no_placeholders_lowering_ok(b: BodyModel, c: ConfigModel)
    requires
        body_valid_at_phase(b),
        b.phase == Phase::AnalysisInitial,
        no_subtype_placeholders(b),
    ensures
        analysis_to_runtime_ok(b, c),
{
    let b1 = analysis_cleanup_spec(b, c);
    lemma_batch_valid_from_input(b, analysis_cleanup_list(), c);
    lemma_wrappers_keep_blocks(run_list(b, analysis_cleanup_list(), c).0, Some(Phase::AnalysisPostCleanup));
    assert(no_subtype_placeholders(b1));
    assert(body_valid_at_phase(b1));
    let b2 = precise_live_drops_spec(b1, c);
    if c.precise_live_drops {
        lemma_batch_valid_from_input(b1, precise_live_drops_list(), c);
    }
    assert(no_subtype_placeholders(b2));
    assert(body_valid_at_phase(b2));
    lemma_batch_valid_from_input(b2, runtime_lowering_list(), c);
}

/// On a lone-`Unreachable` body every pass list is a no-op that yields no
/// promoted bodies.
pub proof fn lemma_run_list_lone(b: BodyModel, list: Seq<PassDescriptor>, c: ConfigModel)
    requires
        crate::ir::is_lone_unreachable(b),
    ensures
        run_list(b, list, c).0 == b,
        run_list(b, list, c).1 == Seq::<BodyModel>::empty(),
    decreases list.len(),
{
    if list.len() > 0 {
        lemma_run_list_lone(b, list.drop_last(), c);
        if pass_enabled(list.last(), c) {
            crate::passes::lemma_apply_pass_lone_unreachable(b, list.last().name);
        }
        assert(run_list(b, list, c).1 =~= Seq::<BodyModel>::empty());
    }
}

/// The lone-`Unreachable` shape survives the whole composed lowering: every
/// later stage is a no-op on the blocks of such a body, and the composed run
/// validates.
pub proof fn lemma_lone_analysis_to_runtime(b: BodyModel, c: ConfigModel)
    requires
        body_valid_at_phase(b),
        b.phase == Phase::AnalysisInitial,
        crate::ir::is_lone_unreachable(b),
    ensures
        analysis_to_runtime_ok(b, c),
        crate::ir::is_lone_unreachable(analysis_to_runtime_spec(b, c)),
{
    assert(b.blocks[0].statements =~= Seq::<crate::ir::Statement>::empty());
    assert(no_subtype_placeholders(b));
    lemma_no_placeholders_lowering_ok(b, c);
    let b1 = analysis_cleanup_spec(b, c);
    lemma_run_list_lone(b, analysis_cleanup_list(), c);
    lemma_wrappers_keep_blocks(run_list(b, analysis_cleanup_list(), c).0, Some(Phase::AnalysisPostCleanup));
    assert(crate::ir::is_lone_unreachable(b1));
    let b2 = precise_live_drops_spec(b1, c);
    if c.precise_live_drops {
        lemma_run_list_lone(b1, precise_live_drops_list(), c);
    }
    assert(crate::ir::is_lone_unreachable(b2));
    let b3 = runtime_lowering_spec(b2, c);
    lemma_run_list_lone(b2, runtime_lowering_list(), c);
    lemma_wrappers_keep_blocks(run_list(b2, runtime_lowering_list(), c).0, Some(Phase::RuntimeInitial));
    assert(crate::ir::is_lone_unreachable(b3));
    lemma_run_list_lone(b3, runtime_cleanup_list(), c);
    let b4 = with_target(run_list(b3, runtime_cleanup_list(), c).0, Some(Phase::RuntimePostCleanup));
    lemma_wrappers_keep_blocks(run_list(b3, runtime_cleanup_list(), c).0, Some(Phase::RuntimePostCleanup));
    lemma_wrappers_keep_blocks(b4, None);
    assert(crate::ir::is_lone_unreachable(analysis_to_runtime_spec(b, c)));
}

/// Every promoted body yielded by a run is a well-formed sibling entering
/// the pipeline at `AnalysisInitial`, free of markers and placeholders.
pub proof fn lemma_run_list_promoted_wf(
    b: BodyModel,
    list: Seq<PassDescriptor>,
    c: ConfigModel,
    i: int,
)
    requires
        0 <= i < run_list(b, list, c).1.len(),
    ensures
        body_valid_at_phase(run_list(b, list, c).1[i]),
        run_list(b, list, c).1[i].phase == Phase::AnalysisInitial,
        no_subtype_placeholders(run_list(b, list, c).1[i]),
        no_promotable_markers(run_list(b, list, c).1[i]),
    decreases list.len(),
{
    if list.len() > 0 {
        let (b1, p1) = run_list(b, list.drop_last(), c);
        if pass_enabled(list.last(), c) {
            let (b2, p2) = crate::passes::apply_pass(b1, list.last().name);
            if i < p1.len() {
                lemma_run_list_promoted_wf(b, list.drop_last(), c, i);
                assert(run_list(b, list, c).1[i] == p1[i]);
            } else {
                let j = i - p1.len();
                assert(run_list(b, list, c).1[i] == p2[j]);
                match list.last().name {
                    PassName::PromoteTemps => {
                        let tys = crate::passes::promoted_tys(b1.blocks);
                        let pb = crate::passes::promoted_body_model(tys[j], b1.source, b1.span);
                        assert(p2[j] == pb);
                        crate::passes::lemma_promoted_body_valid(tys[j], b1.source, b1.span);
                        assert(no_subtype_placeholders(pb));
                        assert(no_promotable_markers(pb));
                    },
                    _ => {
                        assert(p2.len() == 0);
                    },
                }
            }
        } else {
            lemma_run_list_promoted_wf(b, list.drop_last(), c, i);
        }
    }
}

// ---------------------------------------------------------------------------
// Stage drivers
// ---------------------------------------------------------------------------

/// Clear the per-local debug side tables; optimizations and runtime IR have
/// no reason to look at them.
fn clear_local_debug_info(body: &mut Body)
    ensures
        final(body)@ == clear_debug_model(old(body)@),
{
    let n = body.locals.len();
    let mut locals: Vec<Local> = Vec::new();
    let mut i: usize = 0;
    while i < n
        invariant
            n == body.locals@.len(),
            i <= n,
            locals@.len() == i,
            forall|p: int|
                0 <= p < i ==> #[trigger] locals@[p] == (Local {
                    debug_info: None,
                    ..body.locals@[p]
                }),
        decreases n - i,
    {
        let l = body.locals[i];
        locals.push(Local { ty: l.ty, debug_info: None });
        i = i + 1;
    }
    body.locals = locals;
    assert(body@.locals =~= clear_debug_model(old(body)@).locals);
    assert(body@ =~~= clear_debug_model(old(body)@));
}

/// Run the analysis-cleanup stage; after it, no lifetime analysis based on
/// borrowing can be done.
pub fn run_analysis_cleanup_passes(body: &mut Body, config: &PassConfig, trace: &mut Vec<PassName>)
    requires
        body_valid_at_phase(old(body)@),
        old(body)@.phase == Phase::AnalysisInitial,
    ensures
        final(body)@ == analysis_cleanup_spec(old(body)@, config@),
        final(body)@.phase == Phase::AnalysisPostCleanup,
        body_valid_at_phase(final(body)@),
        phase_lt(old(body)@.phase, final(body)@.phase),
        final(trace)@ == old(trace)@ + enabled_names(analysis_cleanup_list(), config@),
{
    let passes = analysis_cleanup_passes();
    let mut sink: Vec<Body> = Vec::new();
    proof {
        lemma_batch_valid_from_input(body@, analysis_cleanup_list(), config@);
    }
    let r = run_passes(
        body,
        &passes,
        Some(Phase::AnalysisPostCleanup),
        true,
        config,
        &mut sink,
        trace,
    );
    match r {
        Ok(_) => {},
        Err(_) => vstd::pervasive::unreached(),
    }
}

/// Run the runtime-lowering stage. Fails exactly when a
/// subtyping-projection placeholder survives the stage, which the validator
/// reports as a fatal internal error.
pub fn run_runtime_lowering_passes(
    body: &mut Body,
    config: &PassConfig,
    trace: &mut Vec<PassName>,
) -> (r: Result<(), FatalError>)
    requires
        body_valid_at_phase(old(body)@),
        old(body)@.phase == Phase::AnalysisPostCleanup,
    ensures
        r.is_ok() == runtime_lowering_ok(old(body)@, config@),
        r.is_ok() ==> final(body)@ == runtime_lowering_spec(old(body)@, config@),
        r.is_ok() ==> final(body)@.phase == Phase::RuntimeInitial,
        r.is_ok() ==> body_valid_at_phase(final(body)@),
        r.is_ok() ==> final(trace)@ == old(trace)@ + enabled_names(
            runtime_lowering_list(),
            config@,
        ),
        phase_le(old(body)@.phase, final(body)@.phase),
{
    let passes = runtime_lowering_passes();
    let mut sink: Vec<Body> = Vec::new();
    proof {
        lemma_batch_valid_from_input(body@, runtime_lowering_list(), config@);
    }
    run_passes(body, &passes, Some(Phase::RuntimeInitial), false, config, &mut sink, trace)
}

/// Run the runtime-cleanup stage, then clear the per-local debug side
/// tables.
pub fn run_runtime_cleanup_passes(body: &mut Body, config: &PassConfig, trace: &mut Vec<PassName>)
    requires
        body_valid_at_phase(old(body)@),
        old(body)@.phase == Phase::RuntimeInitial,
    ensures
        final(body)@ == runtime_cleanup_spec(old(body)@, config@),
        final(body)@.phase == Phase::RuntimePostCleanup,
        body_valid_at_phase(final(body)@),
        phase_lt(old(body)@.phase, final(body)@.phase),
        final(trace)@ == old(trace)@ + enabled_names(runtime_cleanup_list(), config@),
{
    let passes = runtime_cleanup_passes();
    let mut sink: Vec<Body> = Vec::new();
    proof {
        lemma_batch_valid_from_input(body@, runtime_cleanup_list(), config@);
    }
    let r = run_passes(
        body,
        &passes,
        Some(Phase::RuntimePostCleanup),
        true,
        config,
        &mut sink,
        trace,
    );
    match r {
        Ok(_) => {},
        Err(_) => vstd::pervasive::unreached(),
    }
    clear_local_debug_info(body);
    proof {
        let cleared = body@;
        assert(body_valid_at_phase(cleared));
    }
}

/// Drive a body from the start of analysis to runtime-ready form: analysis
/// cleanup, the optional live-drop precision pre-batch, runtime lowering,
/// runtime cleanup. The phase advances strictly through
/// `AnalysisPostCleanup` and `RuntimeInitial` to `RuntimePostCleanup`.
pub fn run_analysis_to_runtime_passes(
    body: &mut Body,
    config: &PassConfig,
    trace: &mut Vec<PassName>,
) -> (r: Result<(), FatalError>)
    requires
        body_valid_at_phase(old(body)@),
        old(body)@.phase == Phase::AnalysisInitial,
    ensures
        r.is_ok() == analysis_to_runtime_ok(old(body)@, config@),
        r.is_ok() ==> final(body)@ == analysis_to_runtime_spec(old(body)@, config@),
        r.is_ok() ==> final(body)@.phase == Phase::RuntimePostCleanup,
        r.is_ok() ==> body_valid_at_phase(final(body)@),
        r.is_ok() ==> final(trace)@ == old(trace)@ + analysis_to_runtime_names(config@),
        phase_le(old(body)@.phase, final(body)@.phase),
{
    run_analysis_cleanup_passes(body, config, trace);
    if config.precise_live_drops {
        let passes = precise_live_drops_passes();
        let mut sink: Vec<Body> = Vec::new();
        proof {
            lemma_batch_valid_from_input(body@, precise_live_drops_list(), config@);
        }
        let r = run_passes(body, &passes, None, true, config, &mut sink, trace);
        match r {
            Ok(_) => {},
            Err(_) => vstd::pervasive::unreached(),
        }
    }
    let r = run_runtime_lowering_passes(body, config, trace);
    match r {
        Ok(_) => {},
        Err(e) => {
            return Err(e);
        },
    }
    run_runtime_cleanup_passes(body, config, trace);
    Ok(())
}

/// Run the optimization stage, reaching the terminal `RuntimeOptimized`
/// phase.
pub fn run_optimization_passes(body: &mut Body, config: &PassConfig, trace: &mut Vec<PassName>)
    requires
        body_valid_at_phase(old(body)@),
        old(body)@.phase == Phase::RuntimePostCleanup,
    ensures
        final(body)@ == optimization_spec(old(body)@, config@),
        final(body)@.phase == Phase::RuntimeOptimized,
        body_valid_at_phase(final(body)@),
        phase_lt(old(body)@.phase, final(body)@.phase),
        final(trace)@ == old(trace)@ + enabled_names(optimization_list(), config@),
{
    let passes = optimization_passes();
    let mut sink: Vec<Body> = Vec::new();
    proof {
        lemma_batch_valid_from_input(body@, optimization_list(), config@);
    }
    let r = run_passes(
        body,
        &passes,
        Some(Phase::RuntimeOptimized),
        true,
        config,
        &mut sink,
        trace,
    );
    match r {
        Ok(_) => {},
        Err(_) => vstd::pervasive::unreached(),
    }
}

} // verus!
