use vstd::prelude::*;

use crate::inline::{
    all_false_markers, compute_inline_legal, compute_reachable, inline_legal_spec,
    lemma_count_all_false, reachable_spec,
};
use crate::ir::{
    body_valid_at_phase, check_lone_unreachable, clone_body, is_lone_unreachable, truncate_body,
    truncated_model, validate_body, Body, BodyModel,
};
use crate::pass_manager::{
    run_list, run_passes, run_succeeds, with_target, ConfigModel, FatalError, PassConfig,
};
use crate::passes::{apply_pass, bodies_view, run_single_pass, PassName};
use crate::phase::Phase;
use crate::pipeline::{
    analysis_to_runtime_ok, analysis_to_runtime_spec, build_cleanup_list, build_cleanup_passes,
    ctfe_list, ctfe_passes, lemma_analysis_to_runtime_valid, lemma_batch_valid_from_input,
    lemma_lone_analysis_to_runtime, lemma_no_placeholders_lowering_ok,
    lemma_run_list_promoted_wf, mk_descr, optimization_spec, promotion_list, promotion_passes,
    run_analysis_to_runtime_passes, run_optimization_passes,
};
use crate::shim::{build_adt_ctor, ctor_body_model};
use crate::steal::Steal;

verus! {

/// What kind of body a function owns, as the front end reports it; the kind
/// decides which terminal variants exist for it.
#[derive(Clone, Copy, Debug, PartialEq, Eq, Structural)]
pub enum FnKind {
    /// A synthesized data-constructor body: bypasses the pipeline entirely.
    Constructor,
    /// A constant item: terminates at the compile-time evaluation variant.
    Const,
    /// A static item: terminates at the compile-time evaluation variant.
    Static,
    /// A function callable at compile time: owns both terminal variants.
    ConstFn,
    /// An ordinary runtime function.
    Fn,
}

/// The constant-qualification verdict for one function, as the constant
/// checker (an external collaborator) reports it.
#[derive(Clone, Copy, Debug, PartialEq, Eq, Structural)]
pub struct ConstQualifs {
    pub has_mut_interior: bool,
    pub needs_non_const_drop: bool,
    /// Set when the checker already reported an error for this function.
    pub tainted_by_errors: Option<u64>,
}

/// Everything the collaborators hand the pipeline for one function: the
/// initial body fresh from type checking (phase `Built`), the function's
/// kind, the ownership/borrow-check verdict (a taint with the reported
/// diagnostic's identifier), the constant-qualification verdict, whether the
/// function's generic bounds are statically unsatisfiable (the trait
/// solver's verdict), and whether the function is a candidate for inlining
/// into its callers.
pub struct FnInput {
    pub body: Body,
    pub kind: FnKind,
    pub borrowck_tainted: Option<u64>,
    pub qualifs: ConstQualifs,
    pub unsatisfiable_bounds: bool,
    pub inline_candidate: bool,
}

/// The whole crate as the front end hands it over: one input per function,
/// indexed by function identity.
pub struct CrateInput {
    pub fns: Vec<FnInput>,
}

#[verifier::ext_equal]
pub struct FnModel {
    pub body: BodyModel,
    pub kind: FnKind,
    pub borrowck_tainted: Option<u64>,
    pub qualifs: ConstQualifs,
    pub unsatisfiable_bounds: bool,
    pub inline_candidate: bool,
}

#[verifier::ext_equal]
pub struct CrateModel {
    pub fns: Seq<FnModel>,
}

impl View for FnInput {
    type V = FnModel;

    open spec fn view(&self) -> FnModel {
        FnModel {
            body: self.body@,
            kind: self.kind,
            borrowck_tainted: self.borrowck_tainted,
            qualifs: self.qualifs,
            unsatisfiable_bounds: self.unsatisfiable_bounds,
            inline_candidate: self.inline_candidate,
        }
    }
}

impl View for CrateInput {
    type V = CrateModel;

    open spec fn view(&self) -> CrateModel {
        CrateModel { fns: self.fns@.map_values(|f: FnInput| f@) }
    }
}

/// A well-formed crate input: every function's body is valid at phase
/// `Built`, records its own identity as its source, and stands at the start
/// of the pipeline.
pub open spec fn crate_input_wf(cm: CrateModel) -> bool {
    forall|f: int|
        0 <= f < cm.fns.len() ==> {
            let b = (#[trigger] cm.fns[f]).body;
            &&& body_valid_at_phase(b)
            &&& b.phase == Phase::Built
            &&& b.source == f
        }
}

/// Executable check of `crate_input_wf`.
pub fn check_crate_input(input: &CrateInput) -> (r: bool)
    ensures
        r == crate_input_wf(input@),
{
    let n = input.fns.len();
    let mut f: usize = 0;
    while f < n
        invariant
            n == input.fns@.len(),
            f <= n,
            forall|p: int|
                0 <= p < f ==> {
                    let b = (#[trigger] input@.fns[p]).body;
                    &&& body_valid_at_phase(b)
                    &&& b.phase == Phase::Built
                    &&& b.source == p
                },
        decreases n - f,
    {
        let body = &input.fns[f].body;
        let valid = validate_body(body);
        let phase_ok = match body.phase {
            Phase::Built => true,
            _ => false,
        };
        if !valid || !phase_ok || body.source != f {
            proof {
                let b = input@.fns[f as int].body;
                assert(b == body@);
                assert(!(body_valid_at_phase(b) && b.phase == Phase::Built && b.source == f as int));
                assert(!crate_input_wf(input@));
            }
            return false;
        }
        f = f + 1;
    }
    true
}

// ---------------------------------------------------------------------------
// The results of the memoized computations, as specifications
// ---------------------------------------------------------------------------

/// Which kinds the constant checker qualifies.
pub open spec fn kind_needs_qualif(k: FnKind) -> bool {
    match k {
        FnKind::Const | FnKind::Static | FnKind::ConstFn => true,
        _ => false,
    }
}

/// A body with a taint folded in, when there is one to fold.
pub open spec fn with_taint(b: BodyModel, t: Option<u64>) -> BodyModel {
    match t {
        Some(e) => BodyModel { tainted_by_errors: Some(e), ..b },
        None => b,
    }
}

/// The built body: the input body after the build-cleanup stage (still at
/// phase `Built`).
pub open spec fn built_spec(cm: CrateModel, c: ConfigModel, f: usize) -> BodyModel {
    run_list(cm.fns[f as int].body, build_cleanup_list(), c).0
}

/// What the promotion stage starts from: the stolen built body, with the
/// constant checker's taint folded in for qualified kinds.
pub open spec fn promotion_input(cm: CrateModel, c: ConfigModel, f: usize) -> BodyModel {
    let b = built_spec(cm, c, f);
    if kind_needs_qualif(cm.fns[f as int].kind) {
        with_taint(b, cm.fns[f as int].qualifs.tainted_by_errors)
    } else {
        b
    }
}

/// The promotion stage's output: the main body at `AnalysisInitial` and the
/// extracted promoted sibling bodies.
pub open spec fn promotion_result(cm: CrateModel, c: ConfigModel, f: usize) -> (
    BodyModel,
    Seq<BodyModel>,
) {
    let r = run_list(promotion_input(cm, c, f), promotion_list(), c);
    (with_target(r.0, Some(Phase::AnalysisInitial)), r.1)
}

/// Whether the promotion stage validates.
pub open spec fn promotion_ok(cm: CrateModel, c: ConfigModel, f: usize) -> bool {
    run_succeeds(promotion_input(cm, c, f), promotion_list(), Some(Phase::AnalysisInitial), true, c)
}

/// What drop elaboration starts from: the stolen promotion output with the
/// borrow-check taint folded in, collapsed to a lone `Unreachable` block
/// when the function's generic bounds are statically unsatisfiable.
pub open spec fn drops_input(cm: CrateModel, c: ConfigModel, f: usize) -> BodyModel {
    let b = with_taint(promotion_result(cm, c, f).0, cm.fns[f as int].borrowck_tainted);
    if cm.fns[f as int].unsatisfiable_bounds {
        truncated_model(b)
    } else {
        b
    }
}

/// The drops-elaborated body: the composed analysis-to-runtime lowering.
pub open spec fn drops_result(cm: CrateModel, c: ConfigModel, f: usize) -> BodyModel {
    analysis_to_runtime_spec(drops_input(cm, c, f), c)
}

/// Whether the whole chain up to the drops-elaborated body validates.
pub open spec fn drops_ok(cm: CrateModel, c: ConfigModel, f: usize) -> bool {
    promotion_ok(cm, c, f) && analysis_to_runtime_ok(drops_input(cm, c, f), c)
}

/// The compile-time-evaluation terminal body: a constructor's shim, or the
/// drops-elaborated body with the evaluation-limit pass appended.
pub open spec fn ctfe_result(cm: CrateModel, c: ConfigModel, f: usize) -> BodyModel {
    if cm.fns[f as int].kind == FnKind::Constructor {
        ctor_body_model(cm.fns[f as int].body, f)
    } else {
        run_list(drops_result(cm, c, f), ctfe_list(), c).0
    }
}

pub open spec fn ctfe_ok(cm: CrateModel, c: ConfigModel, f: usize) -> bool {
    cm.fns[f as int].kind == FnKind::Constructor || drops_ok(cm, c, f)
}

/// The optimized terminal body: a constructor's shim; a tainted body handed
/// back untouched; a lone-`Unreachable` body handed back after the
/// mentioned-items sweep; otherwise the full optimization stage's output.
pub open spec fn optimized_result(cm: CrateModel, c: ConfigModel, f: usize) -> BodyModel {
    if cm.fns[f as int].kind == FnKind::Constructor {
        ctor_body_model(cm.fns[f as int].body, f)
    } else {
        let b = drops_result(cm, c, f);
        if b.tainted_by_errors is Some {
            b
        } else {
            let b1 = apply_pass(b, PassName::MentionedItems).0;
            if is_lone_unreachable(b1) {
                b1
            } else {
                optimization_spec(b1, c)
            }
        }
    }
}

pub open spec fn optimized_ok(cm: CrateModel, c: ConfigModel, f: usize) -> bool {
    cm.fns[f as int].kind == FnKind::Constructor || drops_ok(cm, c, f)
}

/// The promoted siblings' terminal bodies: each runs its own
/// analysis-to-runtime pipeline.
pub open spec fn promoted_mir_result(cm: CrateModel, c: ConfigModel, f: usize) -> Seq<BodyModel> {
    if cm.fns[f as int].kind == FnKind::Constructor {
        Seq::empty()
    } else {
        promotion_result(cm, c, f).1.map_values(|pb: BodyModel| analysis_to_runtime_spec(pb, c))
    }
}

pub open spec fn promoted_mir_ok(cm: CrateModel, c: ConfigModel, f: usize) -> bool {
    cm.fns[f as int].kind == FnKind::Constructor || promotion_ok(cm, c, f)
}

/// The memoized inlining-legality fact: computed with a fresh in-progress
/// marker set.
pub open spec fn legal_fact(cm: CrateModel, f: usize) -> bool {
    inline_legal_spec(cm, f as int, crate::inline::all_false_markers(cm.fns.len()))
}

// ---------------------------------------------------------------------------
// Derived facts of the specification chain
// ---------------------------------------------------------------------------

/// The built stage starts from a valid input body and cannot fail; its
/// output is still valid at `Built`.
pub proof fn lemma_built_props(cm: CrateModel, c: ConfigModel, f: usize)
    requires
        crate_input_wf(cm),
        f < cm.fns.len(),
    ensures
        run_succeeds(cm.fns[f as int].body, build_cleanup_list(), None, true, c),
        body_valid_at_phase(built_spec(cm, c, f)),
        built_spec(cm, c, f).phase == Phase::Built,
        body_valid_at_phase(promotion_input(cm, c, f)),
        promotion_input(cm, c, f).phase == Phase::Built,
{
    lemma_batch_valid_from_input(cm.fns[f as int].body, build_cleanup_list(), c);
}

/// What a validated promotion stage guarantees of its output.
pub proof fn lemma_promotion_props(cm: CrateModel, c: ConfigModel, f: usize)
    requires
        crate_input_wf(cm),
        f < cm.fns.len(),
        promotion_ok(cm, c, f),
    ensures
        body_valid_at_phase(promotion_result(cm, c, f).0),
        promotion_result(cm, c, f).0.phase == Phase::AnalysisInitial,
        body_valid_at_phase(drops_input(cm, c, f)),
        drops_input(cm, c, f).phase == Phase::AnalysisInitial,
        cm.fns[f as int].unsatisfiable_bounds ==> is_lone_unreachable(drops_input(cm, c, f)),
{
    lemma_built_props(cm, c, f);
    let b0 = promotion_result(cm, c, f).0;
    assert(body_valid_at_phase(b0));
    let b1 = with_taint(b0, cm.fns[f as int].borrowck_tainted);
    assert(b1.blocks == b0.blocks);
    assert(body_valid_at_phase(b1));
    if cm.fns[f as int].unsatisfiable_bounds {
        let t = truncated_model(b1);
        assert(t.blocks[0].statements.len() == 0);
        assert(body_valid_at_phase(t));
    }
}

/// The deliberate truncation of an unsatisfiable function survives to its
/// drops-elaborated body: exactly one block, no statement, an `Unreachable`
/// terminator — and every later stage leaves it alone.
pub proof fn lemma_unsat_drops_lone(cm: CrateModel, c: ConfigModel, f: usize)
    requires
        crate_input_wf(cm),
        f < cm.fns.len(),
        promotion_ok(cm, c, f),
        cm.fns[f as int].unsatisfiable_bounds,
    ensures
        drops_ok(cm, c, f),
        is_lone_unreachable(drops_result(cm, c, f)),
{
    lemma_promotion_props(cm, c, f);
    lemma_lone_analysis_to_runtime(drops_input(cm, c, f), c);
}

/// What a validated drops-elaboration chain guarantees of its output.
pub proof fn lemma_drops_props(cm: CrateModel, c: ConfigModel, f: usize)
    requires
        crate_input_wf(cm),
        f < cm.fns.len(),
        drops_ok(cm, c, f),
    ensures
        body_valid_at_phase(drops_result(cm, c, f)),
        drops_result(cm, c, f).phase == Phase::RuntimePostCleanup,
{
    lemma_promotion_props(cm, c, f);
    lemma_analysis_to_runtime_valid(drops_input(cm, c, f), c);
}

// ---------------------------------------------------------------------------
// The cache
// ---------------------------------------------------------------------------

/// The promotion stage publishes two steal cells at once: the main body,
/// consumed by drop elaboration, and the promoted siblings, consumed by
/// their own terminal computation.
pub struct PromotedEntry {
    pub body: Steal<Body>,
    pub fragments: Steal<Vec<Body>>,
}

/// Which computation consumes a function's drops-elaborated steal cell, and
/// whether that consumer has already run: for constant items the
/// compile-time-evaluation body steals it, for functions the optimized body
/// does, and a constructor's terminal bodies never touch it.
pub open spec fn drops_consumed(kind: FnKind, ctfe: Option<Body>, optimized: Option<Body>) -> bool {
    match kind {
        FnKind::Const | FnKind::Static => ctfe is Some,
        FnKind::Constructor => false,
        FnKind::ConstFn | FnKind::Fn => optimized is Some,
    }
}

/// Coherence of one function's cache entries with the specification chain.
/// Published values are immutable and equal to their computation's
/// specified result; a steal cell still holds its value as long as its
/// unique consumer has not run.
pub open spec fn entry_ok(
    cm: CrateModel,
    c: ConfigModel,
    f: usize,
    built: Option<Steal<Body>>,
    qualifs: Option<ConstQualifs>,
    promoted: Option<PromotedEntry>,
    drops: Option<Steal<Body>>,
    ctfe: Option<Body>,
    optimized: Option<Body>,
    promoted_mir: Option<Vec<Body>>,
    inline_legal: Option<bool>,
) -> bool {
    &&& (promoted is None ==> (built matches Some(cell) ==> !cell.is_stolen()
        && cell.spec_value()@ == built_spec(cm, c, f)))
    &&& (kind_needs_qualif(cm.fns[f as int].kind) && promoted is Some ==> qualifs is Some)
    &&& (qualifs matches Some(q) ==> q == cm.fns[f as int].qualifs)
    &&& (promoted matches Some(e) ==> {
        &&& promotion_ok(cm, c, f)
        &&& (drops is None ==> !e.body.is_stolen() && e.body.spec_value()@ == promotion_result(
            cm,
            c,
            f,
        ).0)
        &&& (promoted_mir is None ==> !e.fragments.is_stolen() && bodies_view(
            e.fragments.spec_value()@,
        ) == promotion_result(cm, c, f).1)
    })
    &&& (drops matches Some(cell) ==> {
        &&& drops_ok(cm, c, f)
        &&& (!drops_consumed(cm.fns[f as int].kind, ctfe, optimized) ==> !cell.is_stolen()
            && cell.spec_value()@ == drops_result(cm, c, f))
    })
    &&& (cm.fns[f as int].kind == FnKind::ConstFn && optimized is Some ==> ctfe is Some)
    &&& (ctfe matches Some(b) ==> ctfe_ok(cm, c, f) && b@ == ctfe_result(cm, c, f))
    &&& (optimized matches Some(b) ==> optimized_ok(cm, c, f) && b@ == optimized_result(cm, c, f))
    &&& (promoted_mir matches Some(v) ==> promoted_mir_ok(cm, c, f) && bodies_view(v@)
        == promoted_mir_result(cm, c, f))
    &&& (inline_legal matches Some(x) ==> x == legal_fact(cm, f))
}

/// The trace only grows: `b` extends `a` without rewriting history.
pub open spec fn trace_extended(a: Seq<PassName>, b: Seq<PassName>) -> bool {
    &&& a.len() <= b.len()
    &&& forall|i: int| 0 <= i < a.len() ==> a[i] == b[i]
}

/// The memoized query layer: each named per-function computation is
/// computed on first demand and its published result answers every later
/// demand. Steal cells are the sole mutable handoff between stages; the
/// trace records every pass invocation of the session, in order.
pub struct Queries {
    input: CrateInput,
    config: PassConfig,
    built: Vec<Option<Steal<Body>>>,
    qualifs: Vec<Option<ConstQualifs>>,
    promoted: Vec<Option<PromotedEntry>>,
    drops: Vec<Option<Steal<Body>>>,
    ctfe: Vec<Option<Body>>,
    optimized: Vec<Option<Body>>,
    promoted_mir: Vec<Option<Vec<Body>>>,
    inline_legal: Vec<Option<bool>>,
    trace: Vec<PassName>,
}

impl Queries {
    pub closed spec fn input_model(&self) -> CrateModel {
        self.input@
    }

    pub closed spec fn config_model(&self) -> ConfigModel {
        self.config@
    }

    pub closed spec fn trace_model(&self) -> Seq<PassName> {
        self.trace@
    }

    pub closed spec fn built_entries(&self) -> Seq<Option<Steal<Body>>> {
        self.built@
    }

    pub closed spec fn qualifs_entries(&self) -> Seq<Option<ConstQualifs>> {
        self.qualifs@
    }

    pub closed spec fn promoted_entries(&self) -> Seq<Option<PromotedEntry>> {
        self.promoted@
    }

    pub closed spec fn drops_entries(&self) -> Seq<Option<Steal<Body>>> {
        self.drops@
    }

    pub closed spec fn ctfe_entries(&self) -> Seq<Option<Body>> {
        self.ctfe@
    }

    pub closed spec fn optimized_entries(&self) -> Seq<Option<Body>> {
        self.optimized@
    }

    pub closed spec fn promoted_mir_entries(&self) -> Seq<Option<Vec<Body>>> {
        self.promoted_mir@
    }

    pub closed spec fn inline_legal_entries(&self) -> Seq<Option<bool>> {
        self.inline_legal@
    }

    pub open spec fn n_fns(&self) -> nat {
        self.input_model().fns.len()
    }

    /// One function's cache entries are coherent.
    pub closed spec fn entry_at(&self, f: usize) -> bool {
        entry_ok(
            self.input@,
            self.config@,
            f,
            self.built@[f as int],
            self.qualifs@[f as int],
            self.promoted@[f as int],
            self.drops@[f as int],
            self.ctfe@[f as int],
            self.optimized@[f as int],
            self.promoted_mir@[f as int],
            self.inline_legal@[f as int],
        )
    }

    /// The session invariant: a well-formed input, one entry slot per
    /// function and computation, and coherent entries throughout. A fatal
    /// error abandons the session.
    pub closed spec fn inv(&self) -> bool {
        &&& crate_input_wf(self.input@)
        &&& self.built@.len() == self.n_fns()
        &&& self.qualifs@.len() == self.n_fns()
        &&& self.promoted@.len() == self.n_fns()
        &&& self.drops@.len() == self.n_fns()
        &&& self.ctfe@.len() == self.n_fns()
        &&& self.optimized@.len() == self.n_fns()
        &&& self.promoted_mir@.len() == self.n_fns()
        &&& self.inline_legal@.len() == self.n_fns()
        &&& forall|f: usize| f < self.n_fns() ==> #[trigger] self.entry_at(f)
    }

    /// Open a session over a crate's inputs. Yields the query layer exactly
    /// when every input body satisfies the structural invariants at phase
    /// `Built`.
    pub fn new(input: CrateInput, config: PassConfig) -> (r: Option<Queries>)
        ensures
            r is Some <==> crate_input_wf(input@),
            r matches Some(q) ==> {
                &&& q.inv()
                &&& q.input_model() == input@
                &&& q.config_model() == config@
                &&& q.trace_model() == Seq::<PassName>::empty()
            },
    {
        if !check_crate_input(&input) {
            return None;
        }
        let n = input.fns.len();
        let mut built: Vec<Option<Steal<Body>>> = Vec::new();
        let mut qualifs: Vec<Option<ConstQualifs>> = Vec::new();
        let mut promoted: Vec<Option<PromotedEntry>> = Vec::new();
        let mut drops: Vec<Option<Steal<Body>>> = Vec::new();
        let mut ctfe: Vec<Option<Body>> = Vec::new();
        let mut optimized: Vec<Option<Body>> = Vec::new();
        let mut promoted_mir: Vec<Option<Vec<Body>>> = Vec::new();
        let mut inline_legal: Vec<Option<bool>> = Vec::new();
        let mut i: usize = 0;
        while i < n
            invariant
                i <= n,
                built@.len() == i,
                qualifs@.len() == i,
                promoted@.len() == i,
                drops@.len() == i,
                ctfe@.len() == i,
                optimized@.len() == i,
                promoted_mir@.len() == i,
                inline_legal@.len() == i,
                forall|p: int| 0 <= p < i ==> (#[trigger] built@[p]) is None,
                forall|p: int| 0 <= p < i ==> (#[trigger] qualifs@[p]) is None,
                forall|p: int| 0 <= p < i ==> (#[trigger] promoted@[p]) is None,
                forall|p: int| 0 <= p < i ==> (#[trigger] drops@[p]) is None,
                forall|p: int| 0 <= p < i ==> (#[trigger] ctfe@[p]) is None,
                forall|p: int| 0 <= p < i ==> (#[trigger] optimized@[p]) is None,
                forall|p: int| 0 <= p < i ==> (#[trigger] promoted_mir@[p]) is None,
                forall|p: int| 0 <= p < i ==> (#[trigger] inline_legal@[p]) is None,
            decreases n - i,
        {
            built.push(None);
            qualifs.push(None);
            promoted.push(None);
            drops.push(None);
            ctfe.push(None);
            optimized.push(None);
            promoted_mir.push(None);
            inline_legal.push(None);
            i = i + 1;
        }
        let q = Queries {
            input,
            config,
            built,
            qualifs,
            promoted,
            drops,
            ctfe,
            optimized,
            promoted_mir,
            inline_legal,
            trace: Vec::new(),
        };
        proof {
            assert forall|f: usize| f < q.n_fns() implies #[trigger] q.entry_at(f) by {
                assert(q.built@[f as int] is None);
                assert(q.qualifs@[f as int] is None);
                assert(q.promoted@[f as int] is None);
                assert(q.drops@[f as int] is None);
                assert(q.ctfe@[f as int] is None);
                assert(q.optimized@[f as int] is None);
                assert(q.promoted_mir@[f as int] is None);
                assert(q.inline_legal@[f as int] is None);
            }
        }
        Some(q)
    }

    /// Whether a function identity owns IR at all.
    pub fn is_mir_available(&self, f: usize) -> (r: bool)
        ensures
            r == (f < self.n_fns()),
    {
        f < self.input.fns.len()
    }

    /// The full set of function identities that own IR.
    pub fn mir_keys(&self) -> (r: Vec<usize>)
        ensures
            r@.len() == self.n_fns(),
            forall|i: int| 0 <= i < r@.len() ==> #[trigger] r@[i] == i,
    {
        let n = self.input.fns.len();
        let mut r: Vec<usize> = Vec::new();
        let mut i: usize = 0;
        while i < n
            invariant
                i <= n,
                r@.len() == i,
                forall|p: int| 0 <= p < i ==> #[trigger] r@[p] == p,
            decreases n - i,
        {
            r.push(i);
            i = i + 1;
        }
        r
    }

    /// The pass-invocation trace of the session so far.
    pub fn trace(&self) -> (r: &Vec<PassName>)
        ensures
            r@ == self.trace_model(),
    {
        &self.trace
    }

    /// The kind the front end reported for a function.
    pub fn input_kind(&self, f: usize) -> (r: FnKind)
        requires
            f < self.n_fns(),
        ensures
            r == self.input_model().fns[f as int].kind,
    {
        self.input.fns[f].kind
    }

    /// Compute and publish the built body on first demand.
    fn ensure_built(&mut self, f: usize)
        requires
            old(self).inv(),
            f < old(self).n_fns(),
        ensures
            final(self).inv(),
            final(self).input_model() == old(self).input_model(),
            final(self).config_model() == old(self).config_model(),
            trace_extended(old(self).trace_model(), final(self).trace_model()),
            final(self).built@[f as int] is Some,
            final(self).qualifs@ == old(self).qualifs@,
            final(self).promoted@ == old(self).promoted@,
            final(self).drops@ == old(self).drops@,
            final(self).ctfe@ == old(self).ctfe@,
            final(self).optimized@ == old(self).optimized@,
            final(self).promoted_mir@ == old(self).promoted_mir@,
            final(self).inline_legal@ == old(self).inline_legal@,
            forall|g: int|
                0 <= g < old(self).built@.len() && g != f ==> final(self).built@[g] == old(
                    self,
                ).built@[g],
    {
        if self.built[f].is_some() {
            return ;
        }
        let ghost cm = self.input@;
        let ghost c = self.config@;
        proof {
            assert(self.entry_at(f));
            assert(crate_input_wf(cm));
            lemma_built_props(cm, c, f);
        }
        let mut body = clone_body(&self.input.fns[f].body);
        let passes = build_cleanup_passes();
        let mut sink: Vec<Body> = Vec::new();
        let r = run_passes(&mut body, &passes, None, true, &self.config, &mut sink, &mut self.trace);
        match r {
            Ok(_) => {},
            Err(_) => vstd::pervasive::unreached(),
        }
        assert(body@ == built_spec(cm, c, f));
        self.built[f] = Some(Steal::new(body));
        proof {
            assert forall|g: usize| g < self.n_fns() implies #[trigger] self.entry_at(g) by {
                assert(old(self).entry_at(g));
                if g != f {
                    assert(self.built@[g as int] == old(self).built@[g as int]);
                }
            }
        }
    }

    /// The constant-qualification verdict of a qualified function; the
    /// built body is demanded (and thus computed and retained) first, so
    /// that the verdict is on record before promotion steals that body.
    pub fn mir_const_qualif(&mut self, f: usize) -> (r: ConstQualifs)
        requires
            old(self).inv(),
            f < old(self).n_fns(),
            kind_needs_qualif(old(self).input_model().fns[f as int].kind),
        ensures
            final(self).inv(),
            final(self).input_model() == old(self).input_model(),
            final(self).config_model() == old(self).config_model(),
            trace_extended(old(self).trace_model(), final(self).trace_model()),
            r == old(self).input_model().fns[f as int].qualifs,
            final(self).built_entries()[f as int] is Some,
            final(self).qualifs_entries()[f as int] is Some,
            final(self).promoted_entries() == old(self).promoted_entries(),
            final(self).drops_entries() == old(self).drops_entries(),
            final(self).ctfe_entries() == old(self).ctfe_entries(),
            final(self).optimized_entries() == old(self).optimized_entries(),
            final(self).promoted_mir_entries() == old(self).promoted_mir_entries(),
            final(self).inline_legal_entries() == old(self).inline_legal_entries(),
    {
        match self.qualifs[f] {
            Some(q) => {
                proof {
                    assert(self.entry_at(f));
                }
                if self.built[f].is_none() {
                    self.ensure_built(f);
                }
                q
            },
            None => {
                self.ensure_built(f);
                let ghost mid = *self;
                let q = self.input.fns[f].qualifs;
                self.qualifs[f] = Some(q);
                proof {
                    assert(mid.inv());
                    assert forall|g: usize| g < self.n_fns() implies #[trigger] self.entry_at(
                        g,
                    ) by {
                        assert(mid.entry_at(g));
                        if g != f {
                            assert(self.qualifs@[g as int] == mid.qualifs@[g as int]);
                        }
                    }
                }
                q
            },
        }
    }

    /// Compute and publish the promotion stage's two steal cells on first
    /// demand: the main body headed for drop elaboration, and the promoted
    /// siblings. Constant qualification is demanded first, so that its
    /// verdict is on record before the built body is stolen.
    fn ensure_promoted(&mut self, f: usize) -> (r: Result<(), FatalError>)
        requires
            old(self).inv(),
            f < old(self).n_fns(),
        ensures
            r.is_ok() == promotion_ok(old(self).input_model(), old(self).config_model(), f),
            r.is_ok() ==> {
                &&& final(self).inv()
                &&& final(self).input_model() == old(self).input_model()
                &&& final(self).config_model() == old(self).config_model()
                &&& trace_extended(old(self).trace_model(), final(self).trace_model())
                &&& final(self).promoted@[f as int] is Some
                &&& final(self).drops@ == old(self).drops@
                &&& final(self).ctfe@ == old(self).ctfe@
                &&& final(self).optimized@ == old(self).optimized@
                &&& final(self).promoted_mir@ == old(self).promoted_mir@
                &&& final(self).inline_legal@ == old(self).inline_legal@
            },
    {
        if self.promoted[f].is_some() {
            proof {
                assert(self.entry_at(f));
            }
            return Ok(());
        }
        let ghost cm = self.input@;
        let ghost c = self.config@;
        let needs = match self.input.fns[f].kind {
            FnKind::Const | FnKind::Static | FnKind::ConstFn => true,
            _ => false,
        };
        assert(needs == kind_needs_qualif(cm.fns[f as int].kind));
        let qualifs = if needs {
            self.mir_const_qualif(f)
        } else {
            self.ensure_built(f);
            ConstQualifs { has_mut_interior: false, needs_non_const_drop: false, tainted_by_errors: None }
        };
        let ghost mid1 = *self;
        proof {
            assert(mid1.entry_at(f));
        }
        // Steal the built body; promotion is its unique consumer.
        let mut taken: Option<Steal<Body>> = None;
        core::mem::swap(&mut self.built[f], &mut taken);
        let mut cell = match taken {
            Some(cl) => cl,
            None => vstd::pervasive::unreached(),
        };
        let mut body = cell.steal();
        let mut back: Option<Steal<Body>> = Some(cell);
        core::mem::swap(&mut self.built[f], &mut back);
        assert(body@ == built_spec(cm, c, f));
        // Fold the constant checker's taint in for qualified kinds.
        if needs {
            match qualifs.tainted_by_errors {
                Some(e) => {
                    body.tainted_by_errors = Some(e);
                },
                None => {},
            }
        }
        assert(body@ =~~= promotion_input(cm, c, f));
        proof {
            lemma_built_props(cm, c, f);
        }
        let passes = promotion_passes();
        let mut fragments: Vec<Body> = Vec::new();
        let r = run_passes(
            &mut body,
            &passes,
            Some(Phase::AnalysisInitial),
            true,
            &self.config,
            &mut fragments,
            &mut self.trace,
        );
        match r {
            Ok(_) => {},
            Err(e) => {
                return Err(e);
            },
        }
        assert(body@ == promotion_result(cm, c, f).0);
        assert(bodies_view(fragments@) =~= promotion_result(cm, c, f).1);
        let entry = PromotedEntry { body: Steal::new(body), fragments: Steal::new(fragments) };
        let ghost mid2 = *self;
        self.promoted[f] = Some(entry);
        proof {
            assert forall|g: usize| g < self.n_fns() implies #[trigger] self.entry_at(g) by {
                assert(mid1.entry_at(g));
                if g != f {
                    assert(self.built@[g as int] == mid1.built@[g as int]);
                    assert(self.promoted@[g as int] == mid1.promoted@[g as int]);
                }
            }
        }
        Ok(())
    }

    /// Compute and publish the drops-elaborated body on first demand: steal
    /// the promotion output, fold the borrow checker's verdict in, collapse
    /// the body when its bounds are unsatisfiable, then run the composed
    /// analysis-to-runtime lowering. When the inline pass is gated on, the
    /// function's inlining-legality fact is demanded up front, so the call
    /// graph is only consulted when it will actually be used.
    fn ensure_drops(&mut self, f: usize) -> (r: Result<(), FatalError>)
        requires
            old(self).inv(),
            f < old(self).n_fns(),
        ensures
            r.is_ok() == drops_ok(old(self).input_model(), old(self).config_model(), f),
            r.is_ok() ==> {
                &&& final(self).inv()
                &&& final(self).input_model() == old(self).input_model()
                &&& final(self).config_model() == old(self).config_model()
                &&& trace_extended(old(self).trace_model(), final(self).trace_model())
                &&& final(self).drops@[f as int] is Some
                &&& final(self).ctfe@ == old(self).ctfe@
                &&& final(self).optimized@ == old(self).optimized@
                &&& final(self).promoted_mir@ == old(self).promoted_mir@
            },
    {
        if self.drops[f].is_some() {
            proof {
                assert(self.entry_at(f));
            }
            return Ok(());
        }
        let ghost cm = self.input@;
        let ghost c = self.config@;
        let r0 = self.ensure_promoted(f);
        match r0 {
            Ok(_) => {},
            Err(e) => {
                return Err(e);
            },
        }
        let inline_descr = mk_descr(PassName::Inline, 2, true, false);
        if crate::pass_manager::pass_is_enabled(&inline_descr, &self.config) {
            let _ = self.inlining_legal(f);
        }
        let ghost mid1 = *self;
        proof {
            assert(mid1.entry_at(f));
        }
        // Steal the promotion output; drop elaboration is its unique consumer.
        let mut taken: Option<PromotedEntry> = None;
        core::mem::swap(&mut self.promoted[f], &mut taken);
        let mut entry = match taken {
            Some(e) => e,
            None => vstd::pervasive::unreached(),
        };
        let mut body = entry.body.steal();
        let mut back: Option<PromotedEntry> = Some(entry);
        core::mem::swap(&mut self.promoted[f], &mut back);
        assert(body@ == promotion_result(cm, c, f).0);
        // Fold the borrow checker's verdict in; it taints, never aborts.
        match self.input.fns[f].borrowck_tainted {
            Some(e) => {
                body.tainted_by_errors = Some(e);
            },
            None => {},
        }
        proof {
            lemma_promotion_props(cm, c, f);
        }
        assert(body@ =~~= with_taint(promotion_result(cm, c, f).0, cm.fns[f as int].borrowck_tainted));
        // Deliberate truncation: statically unsatisfiable bounds leave a
        // single unreachable block and no temporaries.
        if self.input.fns[f].unsatisfiable_bounds {
            truncate_body(&mut body);
        }
        assert(body@ == drops_input(cm, c, f));
        let r2 = run_analysis_to_runtime_passes(&mut body, &self.config, &mut self.trace);
        match r2 {
            Ok(_) => {},
            Err(e) => {
                return Err(e);
            },
        }
        assert(body@ == drops_result(cm, c, f));
        let ghost mid2 = *self;
        self.drops[f] = Some(Steal::new(body));
        proof {
            assert forall|g: usize| g < self.n_fns() implies #[trigger] self.entry_at(g) by {
                assert(mid1.entry_at(g));
                if g != f {
                    assert(self.promoted@[g as int] == mid1.promoted@[g as int]);
                    assert(self.drops@[g as int] == mid1.drops@[g as int]);
                }
            }
        }
        Ok(())
    }

    /// The memoized inlining-legality fact of one function, computed with a
    /// fresh in-progress marker set on first demand.
    pub fn inlining_legal(&mut self, f: usize) -> (r: bool)
        requires
            old(self).inv(),
            f < old(self).n_fns(),
        ensures
            final(self).inv(),
            final(self).input_model() == old(self).input_model(),
            final(self).config_model() == old(self).config_model(),
            final(self).trace_model() == old(self).trace_model(),
            r == legal_fact(old(self).input_model(), f),
            final(self).built_entries() == old(self).built_entries(),
            final(self).qualifs_entries() == old(self).qualifs_entries(),
            final(self).promoted_entries() == old(self).promoted_entries(),
            final(self).drops_entries() == old(self).drops_entries(),
            final(self).ctfe_entries() == old(self).ctfe_entries(),
            final(self).optimized_entries() == old(self).optimized_entries(),
            final(self).promoted_mir_entries() == old(self).promoted_mir_entries(),
    {
        match self.inline_legal[f] {
            Some(b) => {
                proof {
                    assert(self.entry_at(f));
                }
                b
            },
            None => {
                let n = self.input.fns.len();
                let mut marked = crate::inline::make_markers(n);
                proof {
                    lemma_count_all_false(n as nat);
                }
                let legal = compute_inline_legal(&self.input, f, &mut marked, n);
                let ghost mid = *self;
                self.inline_legal[f] = Some(legal);
                proof {
                    assert forall|g: usize| g < self.n_fns() implies #[trigger] self.entry_at(
                        g,
                    ) by {
                        assert(mid.entry_at(g));
                        if g != f {
                            assert(self.inline_legal@[g as int] == mid.inline_legal@[g as int]);
                        }
                    }
                }
                legal
            },
        }
    }

    /// The cycle-safe call-graph query behind inlining decisions: can a
    /// call chain from `root`'s callees reach `target`?
    pub fn mir_callgraph_reachable(&self, root: usize, target: usize) -> (r: bool)
        requires
            self.inv(),
        ensures
            r == reachable_spec(
                self.input_model(),
                root as int,
                target,
                all_false_markers(self.n_fns()),
            ),
    {
        let n = self.input.fns.len();
        let mut marked = crate::inline::make_markers(n);
        proof {
            lemma_count_all_false(n as nat);
        }
        compute_reachable(&self.input, root, target, &mut marked, n)
    }

    /// The body used during compile-time evaluation, with no optimization
    /// run on it: a constructor's shim, or the drops-elaborated body with
    /// the evaluation-limit pass appended. Constants and statics consume
    /// their drops-elaborated steal cell here; a compile-time function's
    /// cell is left for its optimized body, which is computed from a copy.
    pub fn mir_for_ctfe(&mut self, f: usize) -> (r: Result<Body, FatalError>)
        requires
            old(self).inv(),
            f < old(self).n_fns(),
            old(self).input_model().fns[f as int].kind != FnKind::Fn,
        ensures
            r.is_ok() == ctfe_ok(old(self).input_model(), old(self).config_model(), f),
            r matches Ok(b) ==> b@ == ctfe_result(
                old(self).input_model(),
                old(self).config_model(),
                f,
            ),
            r.is_ok() ==> {
                &&& final(self).inv()
                &&& final(self).input_model() == old(self).input_model()
                &&& final(self).config_model() == old(self).config_model()
                &&& trace_extended(old(self).trace_model(), final(self).trace_model())
                &&& final(self).ctfe_entries()[f as int] is Some
                &&& final(self).optimized_entries() == old(self).optimized_entries()
                &&& final(self).promoted_mir_entries() == old(self).promoted_mir_entries()
            },
    {
        if self.ctfe[f].is_some() {
            proof {
                assert(self.entry_at(f));
            }
            let b = match &self.ctfe[f] {
                Some(b) => clone_body(b),
                None => vstd::pervasive::unreached(),
            };
            return Ok(b);
        }
        let ghost cm = self.input@;
        let ghost c = self.config@;
        match self.input.fns[f].kind {
            FnKind::Constructor => {
                let b = build_adt_ctor(&self.input, f);
                let ghost mid = *self;
                self.ctfe[f] = Some(clone_body(&b));
                proof {
                    assert forall|g: usize| g < self.n_fns() implies #[trigger] self.entry_at(
                        g,
                    ) by {
                        assert(mid.entry_at(g));
                        if g != f {
                            assert(self.ctfe@[g as int] == mid.ctfe@[g as int]);
                        }
                    }
                }
                Ok(b)
            },
            FnKind::Fn => vstd::pervasive::unreached(),
            _ => {
                let r0 = self.ensure_drops(f);
                match r0 {
                    Ok(_) => {},
                    Err(e) => {
                        return Err(e);
                    },
                }
                let ghost mid1 = *self;
                proof {
                    assert(mid1.entry_at(f));
                }
                let is_const_fn = match self.input.fns[f].kind {
                    FnKind::ConstFn => true,
                    _ => false,
                };
                let mut body: Body;
                if is_const_fn {
                    // A compile-time function also owns an optimized body:
                    // borrow the cell and work on a copy.
                    body = match &self.drops[f] {
                        Some(cell) => clone_body(cell.borrow()),
                        None => vstd::pervasive::unreached(),
                    };
                } else {
                    // Constants and statics have no optimized body: steal.
                    let mut taken: Option<Steal<Body>> = None;
                    core::mem::swap(&mut self.drops[f], &mut taken);
                    let mut cell = match taken {
                        Some(cl) => cl,
                        None => vstd::pervasive::unreached(),
                    };
                    body = cell.steal();
                    let mut back: Option<Steal<Body>> = Some(cell);
                    core::mem::swap(&mut self.drops[f], &mut back);
                }
                assert(body@ == drops_result(cm, c, f));
                proof {
                    lemma_drops_props(cm, c, f);
                    lemma_batch_valid_from_input(body@, ctfe_list(), c);
                }
                let passes = ctfe_passes();
                let mut sink: Vec<Body> = Vec::new();
                let r1 = run_passes(
                    &mut body,
                    &passes,
                    None,
                    true,
                    &self.config,
                    &mut sink,
                    &mut self.trace,
                );
                match r1 {
                    Ok(_) => {},
                    Err(_) => vstd::pervasive::unreached(),
                }
                assert(body@ == ctfe_result(cm, c, f));
                let ghost mid2 = *self;
                self.ctfe[f] = Some(clone_body(&body));
                proof {
                    assert forall|g: usize| g < self.n_fns() implies #[trigger] self.entry_at(
                        g,
                    ) by {
                        assert(mid1.entry_at(g));
                        if g != f {
                            assert(self.drops@[g as int] == mid1.drops@[g as int]);
                            assert(self.ctfe@[g as int] == mid1.ctfe@[g as int]);
                        }
                    }
                }
                Ok(body)
            },
        }
    }

    /// The terminal, code-generation-ready body. Constructors get their
    /// shim directly, with no pass of any stage invoked; a tainted body is
    /// handed back as it stands, never optimized; a body already collapsed
    /// to a lone `Unreachable` block skips the optimization stage; every
    /// other body runs the full optimization catalog to `RuntimeOptimized`.
    pub fn optimized_mir(&mut self, f: usize) -> (r: Result<Body, FatalError>)
        requires
            old(self).inv(),
            f < old(self).n_fns(),
            old(self).input_model().fns[f as int].kind != FnKind::Const,
            old(self).input_model().fns[f as int].kind != FnKind::Static,
        ensures
            r.is_ok() == optimized_ok(old(self).input_model(), old(self).config_model(), f),
            r matches Ok(b) ==> b@ == optimized_result(
                old(self).input_model(),
                old(self).config_model(),
                f,
            ),
            r.is_ok() ==> {
                &&& final(self).inv()
                &&& final(self).input_model() == old(self).input_model()
                &&& final(self).config_model() == old(self).config_model()
                &&& trace_extended(old(self).trace_model(), final(self).trace_model())
            },
            old(self).input_model().fns[f as int].kind == FnKind::Constructor ==> r.is_ok()
                && final(self).trace_model() == old(self).trace_model(),
    {
        if self.optimized[f].is_some() {
            proof {
                assert(self.entry_at(f));
            }
            let b = match &self.optimized[f] {
                Some(b) => clone_body(b),
                None => vstd::pervasive::unreached(),
            };
            return Ok(b);
        }
        let ghost cm = self.input@;
        let ghost c = self.config@;
        match self.input.fns[f].kind {
            FnKind::Constructor => {
                let b = build_adt_ctor(&self.input, f);
                let ghost mid = *self;
                self.optimized[f] = Some(clone_body(&b));
                proof {
                    assert forall|g: usize| g < self.n_fns() implies #[trigger] self.entry_at(
                        g,
                    ) by {
                        assert(mid.entry_at(g));
                        if g != f {
                            assert(self.optimized@[g as int] == mid.optimized@[g as int]);
                        }
                    }
                }
                return Ok(b);
            },
            FnKind::Const | FnKind::Static => vstd::pervasive::unreached(),
            FnKind::ConstFn => {
                // The compile-time body depends on the cell this
                // computation is about to steal: demand it first.
                let rc = self.mir_for_ctfe(f);
                match rc {
                    Ok(_) => {},
                    Err(e) => {
                        return Err(e);
                    },
                }
            },
            FnKind::Fn => {},
        }
        let r0 = self.ensure_drops(f);
        match r0 {
            Ok(_) => {},
            Err(e) => {
                return Err(e);
            },
        }
        let ghost mid1 = *self;
        proof {
            assert(mid1.entry_at(f));
        }
        // Steal the drops-elaborated body; the optimized body consumes it.
        let mut taken: Option<Steal<Body>> = None;
        core::mem::swap(&mut self.drops[f], &mut taken);
        let mut cell = match taken {
            Some(cl) => cl,
            None => vstd::pervasive::unreached(),
        };
        let mut body = cell.steal();
        let mut back: Option<Steal<Body>> = Some(cell);
        core::mem::swap(&mut self.drops[f], &mut back);
        assert(body@ == drops_result(cm, c, f));
        let tainted = match body.tainted_by_errors {
            Some(_) => true,
            None => false,
        };
        if tainted {
            // A tainted terminal body exists for best-effort tooling only;
            // it is never optimized and never handed to real codegen.
            let ghost mid2 = *self;
            self.optimized[f] = Some(clone_body(&body));
            proof {
                assert forall|g: usize| g < self.n_fns() implies #[trigger] self.entry_at(g) by {
                    assert(mid1.entry_at(g));
                    if g != f {
                        assert(self.drops@[g as int] == mid1.drops@[g as int]);
                        assert(self.optimized@[g as int] == mid1.optimized@[g as int]);
                    }
                }
            }
            return Ok(body);
        }
        // Record the mentioned items before any optimization level can
        // change what the body names: invoked directly, never gated.
        self.trace.push(PassName::MentionedItems);
        let mut sink: Vec<Body> = Vec::new();
        run_single_pass(&mut body, PassName::MentionedItems, &mut sink);
        assert(body@ == apply_pass(drops_result(cm, c, f), PassName::MentionedItems).0);
        if check_lone_unreachable(&body) {
            // Nothing to optimize in a lone unreachable block.
            let ghost mid2 = *self;
            self.optimized[f] = Some(clone_body(&body));
            proof {
                assert forall|g: usize| g < self.n_fns() implies #[trigger] self.entry_at(g) by {
                    assert(mid1.entry_at(g));
                    if g != f {
                        assert(self.drops@[g as int] == mid1.drops@[g as int]);
                        assert(self.optimized@[g as int] == mid1.optimized@[g as int]);
                    }
                }
            }
            return Ok(body);
        }
        proof {
            lemma_drops_props(cm, c, f);
        }
        assert(body@ == drops_result(cm, c, f));
        run_optimization_passes(&mut body, &self.config, &mut self.trace);
        assert(body@ == optimized_result(cm, c, f));
        let ghost mid2 = *self;
        self.optimized[f] = Some(clone_body(&body));
        proof {
            assert forall|g: usize| g < self.n_fns() implies #[trigger] self.entry_at(g) by {
                assert(mid1.entry_at(g));
                if g != f {
                    assert(self.drops@[g as int] == mid1.drops@[g as int]);
                    assert(self.optimized@[g as int] == mid1.optimized@[g as int]);
                }
            }
        }
        Ok(body)
    }

    /// The promoted siblings' terminal bodies, each driven through its own
    /// analysis-to-runtime pipeline; a constructor has none.
    pub fn promoted_mir(&mut self, f: usize) -> (r: Result<Vec<Body>, FatalError>)
        requires
            old(self).inv(),
            f < old(self).n_fns(),
        ensures
            r.is_ok() == promoted_mir_ok(old(self).input_model(), old(self).config_model(), f),
            r matches Ok(v) ==> bodies_view(v@) == promoted_mir_result(
                old(self).input_model(),
                old(self).config_model(),
                f,
            ),
            r.is_ok() ==> {
                &&& final(self).inv()
                &&& final(self).input_model() == old(self).input_model()
                &&& final(self).config_model() == old(self).config_model()
                &&& trace_extended(old(self).trace_model(), final(self).trace_model())
            },
    {
        if self.promoted_mir[f].is_some() {
            proof {
                assert(self.entry_at(f));
            }
            let v = match &self.promoted_mir[f] {
                Some(v) => clone_bodies(v),
                None => vstd::pervasive::unreached(),
            };
            return Ok(v);
        }
        let ghost cm = self.input@;
        let ghost c = self.config@;
        match self.input.fns[f].kind {
            FnKind::Constructor => {
                let ghost mid = *self;
                self.promoted_mir[f] = Some(Vec::new());
                proof {
                    assert(bodies_view(Seq::<Body>::empty()) =~= Seq::<BodyModel>::empty());
                    assert forall|g: usize| g < self.n_fns() implies #[trigger] self.entry_at(
                        g,
                    ) by {
                        assert(mid.entry_at(g));
                        if g != f {
                            assert(self.promoted_mir@[g as int] == mid.promoted_mir@[g as int]);
                        }
                    }
                }
                let out: Vec<Body> = Vec::new();
                assert(bodies_view(out@) =~= Seq::<BodyModel>::empty());
                return Ok(out);
            },
            _ => {},
        }
        let r0 = self.ensure_promoted(f);
        match r0 {
            Ok(_) => {},
            Err(e) => {
                return Err(e);
            },
        }
        let ghost mid1 = *self;
        proof {
            assert(mid1.entry_at(f));
        }
        // Steal the promoted fragments; their terminal computation is the
        // unique consumer.
        let mut taken: Option<PromotedEntry> = None;
        core::mem::swap(&mut self.promoted[f], &mut taken);
        let mut entry = match taken {
            Some(e) => e,
            None => vstd::pervasive::unreached(),
        };
        let mut frags = entry.fragments.steal();
        let mut back: Option<PromotedEntry> = Some(entry);
        core::mem::swap(&mut self.promoted[f], &mut back);
        let ghost ps = promotion_result(cm, c, f).1;
        assert(bodies_view(frags@) == ps);
        // Drive each sibling from analysis to runtime-ready form.
        let mut out: Vec<Body> = Vec::new();
        proof {
            assert(ps.skip(0) =~= ps);
            assert(bodies_view(out@).map_values(|pb: BodyModel| analysis_to_runtime_spec(pb, c))
                =~= ps.take(0).map_values(|pb: BodyModel| analysis_to_runtime_spec(pb, c)));
        }
        let ghost start = *self;
        while frags.len() > 0
            invariant
                cm == self.input@,
                c == self.config@,
                crate_input_wf(cm),
                f < cm.fns.len(),
                promotion_ok(cm, c, f),
                ps == promotion_result(cm, c, f).1,
                bodies_view(frags@) == ps.skip(out@.len() as int),
                out@.len() <= ps.len(),
                bodies_view(out@) == ps.take(out@.len() as int).map_values(
                    |pb: BodyModel| analysis_to_runtime_spec(pb, c),
                ),
                self.built@ == start.built@,
                self.qualifs@ == start.qualifs@,
                self.promoted@ == start.promoted@,
                self.drops@ == start.drops@,
                self.ctfe@ == start.ctfe@,
                self.optimized@ == start.optimized@,
                self.promoted_mir@ == start.promoted_mir@,
                self.inline_legal@ == start.inline_legal@,
                trace_extended(start.trace@, self.trace@),
                self.input == start.input,
                self.config == start.config,
            decreases frags@.len(),
        {
            let ghost k = out@.len() as int;
            let ghost pre_frags = frags@;
            let mut b = frags.remove(0);
            proof {
                assert(b == pre_frags[0]);
                assert(bodies_view(pre_frags) == ps.skip(k));
                assert(bodies_view(pre_frags).len() == pre_frags.len());
                assert(pre_frags.len() > 0);
                assert(0 <= k <= ps.len());
                assert(ps.skip(k).len() == ps.len() - k);
                assert(k < ps.len());
                assert(b@ == bodies_view(pre_frags)[0]);
                assert(b@ == ps.skip(k)[0]);
                assert(ps.skip(k)[0] == ps[k]);
                assert(b@ == ps[k]);
                assert(promotion_result(cm, c, f).1 == run_list(
                    promotion_input(cm, c, f),
                    promotion_list(),
                    c,
                ).1);
                lemma_run_list_promoted_wf(promotion_input(cm, c, f), promotion_list(), c, k);
                lemma_no_placeholders_lowering_ok(b@, c);
                assert(frags@ =~= pre_frags.subrange(1, pre_frags.len() as int));
            }
            let rr = run_analysis_to_runtime_passes(&mut b, &self.config, &mut self.trace);
            match rr {
                Ok(_) => {},
                Err(_) => vstd::pervasive::unreached(),
            }
            let ghost pre_out = out@;
            let ghost processed = b@;
            out.push(b);
            proof {
                assert(processed == analysis_to_runtime_spec(ps[k], c));
                assert(frags@.len() == ps.skip(k + 1).len());
                assert forall|i: int| 0 <= i < frags@.len() implies bodies_view(frags@)[i]
                    == ps.skip(k + 1)[i] by {
                    assert(frags@[i] == pre_frags[i + 1]);
                    assert(bodies_view(pre_frags)[i + 1] == pre_frags[i + 1]@);
                    assert(ps.skip(k)[i + 1] == ps[k + 1 + i]);
                    assert(ps.skip(k + 1)[i] == ps[k + 1 + i]);
                }
                assert(bodies_view(frags@) =~= ps.skip(k + 1));
                let g = |pb: BodyModel| analysis_to_runtime_spec(pb, c);
                assert(bodies_view(out@) =~= bodies_view(pre_out).push(processed));
                assert(ps.take(k + 1) =~= ps.take(k).push(ps[k]));
                assert(ps.take(k).push(ps[k]).map_values(g) =~= ps.take(k).map_values(g).push(
                    g(ps[k]),
                ));
                assert(bodies_view(out@) =~= ps.take(k + 1).map_values(g));
            }
        }
        proof {
            assert(ps.take(ps.len() as int) =~= ps);
        }
        assert(bodies_view(out@) == promoted_mir_result(cm, c, f));
        let stored = clone_bodies(&out);
        let ghost mid2 = *self;
        self.promoted_mir[f] = Some(stored);
        proof {
            assert forall|g: usize| g < self.n_fns() implies #[trigger] self.entry_at(g) by {
                assert(mid1.entry_at(g));
                if g != f {
                    assert(self.promoted@[g as int] == mid1.promoted@[g as int]);
                    assert(self.promoted_mir@[g as int] == mid1.promoted_mir@[g as int]);
                }
            }
        }
        Ok(out)
    }
}

/// Exact copies of a vector of bodies.
fn clone_bodies(v: &Vec<Body>) -> (r: Vec<Body>)
    ensures
        bodies_view(r@) == bodies_view(v@),
{
    let n = v.len();
    let mut r: Vec<Body> = Vec::new();
    let mut i: usize = 0;
    while i < n
        invariant
            n == v@.len(),
            i <= n,
            r@.len() == i,
            forall|p: int| 0 <= p < i ==> (#[trigger] r@[p])@ == v@[p]@,
        decreases n - i,
    {
        r.push(clone_body(&v[i]));
        i = i + 1;
    }
    assert(bodies_view(r@) =~= bodies_view(v@));
    r
}

/// The deliberate truncation of an unsatisfiable function is final: its
/// optimized body is its drops-elaborated body, with no optimization run.
pub proof fn lemma_unsat_optimized_noop(cm: CrateModel, c: ConfigModel, f: usize)
    requires
        crate_input_wf(cm),
        f < cm.fns.len(),
        cm.fns[f as int].kind != FnKind::Constructor,
        cm.fns[f as int].unsatisfiable_bounds,
        promotion_ok(cm, c, f),
    ensures
        drops_ok(cm, c, f),
        is_lone_unreachable(drops_result(cm, c, f)),
        optimized_result(cm, c, f) == drops_result(cm, c, f),
        ctfe_result(cm, c, f) == run_list(drops_result(cm, c, f), ctfe_list(), c).0,
{
    lemma_unsat_drops_lone(cm, c, f);
    let b = drops_result(cm, c, f);
    assert(apply_pass(b, PassName::MentionedItems).0 == b);
}

} // verus!
