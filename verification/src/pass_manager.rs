use vstd::prelude::*;

use crate::ir::{body_valid_at_phase, validate_body, Body, BodyModel};
use crate::passes::{apply_pass, bodies_view, run_single_pass, PassDescriptor, PassName};
use crate::phase::{phase_le, Phase};

verus! {

/// The collaborator-supplied configuration that decides which passes run:
/// global optimization level, a global disable-all switch, a name-keyed
/// per-pass override table, and the toggle for the live-drop precision
/// pre-batch of drop elaboration.
pub struct PassConfig {
    pub opt_level: u8,
    pub disable_all_passes: bool,
    /// The first entry for a name wins. An explicit override takes
    /// precedence over the global disable-all switch, which takes precedence
    /// over a pass's own default.
    pub overrides: Vec<(PassName, bool)>,
    pub precise_live_drops: bool,
}

#[verifier::ext_equal]
pub struct ConfigModel {
    pub opt_level: u8,
    pub disable_all_passes: bool,
    pub overrides: Seq<(PassName, bool)>,
    pub precise_live_drops: bool,
}

impl View for PassConfig {
    type V = ConfigModel;

    open spec fn view(&self) -> ConfigModel {
        ConfigModel {
            opt_level: self.opt_level,
            disable_all_passes: self.disable_all_passes,
            overrides: self.overrides@,
            precise_live_drops: self.precise_live_drops,
        }
    }
}

/// The explicit override for a pass name, if any; the first entry wins.
pub open spec fn override_for(ovr: Seq<(PassName, bool)>, name: PassName) -> Option<bool>
    decreases ovr.len(),
{
    if ovr.len() == 0 {
        None
    } else if ovr[0].0 == name {
        Some(ovr[0].1)
    } else {
        override_for(ovr.drop_first(), name)
    }
}

/// Whether one pass runs: the global optimization level must reach the
/// pass's minimum, and the override chain must allow it — an explicit
/// override first, then the global disable-all switch, then the pass's own
/// default.
pub open spec fn pass_enabled(p: PassDescriptor, c: ConfigModel) -> bool {
    &&& c.opt_level >= p.min_level
    &&& match override_for(c.overrides, p.name) {
        Some(v) => v,
        None => !c.disable_all_passes && p.default_enabled,
    }
}

/// Executable enablement check.
pub fn pass_is_enabled(p: &PassDescriptor, c: &PassConfig) -> (r: bool)
    ensures
        r == pass_enabled(*p, c@),
{
    if c.opt_level < p.min_level {
        return false;
    }
    let n = c.overrides.len();
    assert(c.overrides@.skip(0) =~= c.overrides@);
    let mut i: usize = 0;
    while i < n
        invariant
            n == c.overrides@.len(),
            i <= n,
            c.opt_level >= p.min_level,
            override_for(c.overrides@, p.name) == override_for(
                c.overrides@.skip(i as int),
                p.name,
            ),
        decreases n - i,
    {
        let (entry_name, entry_value) = c.overrides[i];
        proof {
            assert(c.overrides@.skip(i as int)[0] == c.overrides@[i as int]);
            assert(c.overrides@.skip(i as int).drop_first() =~= c.overrides@.skip(i + 1 as int));
        }
        if entry_name == p.name {
            return entry_value;
        }
        i = i + 1;
    }
    assert(c.overrides@.skip(n as int) =~= Seq::<(PassName, bool)>::empty());
    !c.disable_all_passes && p.default_enabled
}

/// The body and the promoted siblings produced by running the enabled
/// passes of the list in order, starting from `b`.
pub open spec fn run_list(b: BodyModel, passes: Seq<PassDescriptor>, c: ConfigModel) -> (
    BodyModel,
    Seq<BodyModel>,
)
    decreases passes.len(),
{
    if passes.len() == 0 {
        (b, Seq::empty())
    } else {
        let (b1, p1) = run_list(b, passes.drop_last(), c);
        if pass_enabled(passes.last(), c) {
            let (b2, p2) = apply_pass(b1, passes.last().name);
            (b2, p1 + p2)
        } else {
            (b1, p1)
        }
    }
}

/// The pass-invocation trace of one run: the names of the enabled passes of
/// the list, in order.
pub open spec fn enabled_names(passes: Seq<PassDescriptor>, c: ConfigModel) -> Seq<PassName>
    decreases passes.len(),
{
    if passes.len() == 0 {
        Seq::empty()
    } else {
        let prev = enabled_names(passes.drop_last(), c);
        if pass_enabled(passes.last(), c) {
            prev.push(passes.last().name)
        } else {
            prev
        }
    }
}

/// Whether every intermediate body, after each enabled pass of the list,
/// satisfies the validator at its phase.
pub open spec fn batch_states_valid(b: BodyModel, passes: Seq<PassDescriptor>, c: ConfigModel) -> bool
    decreases passes.len(),
{
    if passes.len() == 0 {
        true
    } else {
        let (b1, p1) = run_list(b, passes.drop_last(), c);
        &&& batch_states_valid(b, passes.drop_last(), c)
        &&& (pass_enabled(passes.last(), c) ==> body_valid_at_phase(
            apply_pass(b1, passes.last().name).0,
        ))
    }
}

pub proof fn lemma_batch_states_valid_prefix(
    b: BodyModel,
    passes: Seq<PassDescriptor>,
    c: ConfigModel,
    i: int,
)
    requires
        0 <= i <= passes.len(),
        batch_states_valid(b, passes, c),
    ensures
        batch_states_valid(b, passes.take(i), c),
    decreases passes.len(),
{
    if i < passes.len() {
        assert(passes.drop_last().take(i) =~= passes.take(i));
        lemma_batch_states_valid_prefix(b, passes.drop_last(), c, i);
    } else {
        assert(passes.take(i) =~= passes);
    }
}

/// The body after the run, with the target phase applied if one was given.
pub open spec fn with_target(b: BodyModel, target: Option<Phase>) -> BodyModel {
    match target {
        Some(t) => BodyModel { phase: t, ..b },
        None => b,
    }
}

/// When a run of the manager succeeds: with per-pass validation requested,
/// every intermediate state must satisfy the validator; and whenever
/// validation or a phase transition is involved at all, so must the final
/// state at its final phase.
pub open spec fn run_succeeds(
    b: BodyModel,
    passes: Seq<PassDescriptor>,
    target: Option<Phase>,
    validate: bool,
    c: ConfigModel,
) -> bool {
    &&& (validate ==> batch_states_valid(b, passes, c))
    &&& ((validate || target is Some) ==> body_valid_at_phase(
        with_target(run_list(b, passes, c).0, target),
    ))
}

/// A fatal internal-invariant violation: a structural validator failure.
/// It aborts the compilation, naming the offending pass and phase; it is
/// never surfaced as an ordinary user-facing diagnostic.
#[derive(Clone, Copy, Debug, PartialEq, Eq, Structural)]
pub enum FatalError {
    /// The validator rejected the body right after the named pass ran.
    ValidationFailed { pass: PassName, phase: Phase },
    /// The validator rejected the body once the whole batch had completed
    /// and the target phase was applied.
    TargetValidationFailed { phase: Phase },
}

/// Run an ordered list of gated passes against the body in place.
///
/// For each pass in order: evaluate its enablement against the configuration; if
/// disabled, skip it; if enabled, invoke its transformation and record it in
/// the trace. With `validate` set, the structural validator runs after each
/// enabled pass; a failure is a fatal internal error, never ignored. When a
/// target phase is given the body must already stand at or before it, and it
/// is applied — and validated — once the whole batch completes, even when
/// per-pass validation was off. Extracted promoted bodies accumulate in
/// `promoted`.
///
/// The phase never moves backward, whatever the outcome.
pub fn run_passes(
    body: &mut Body,
    passes: &Vec<PassDescriptor>,
    target: Option<Phase>,
    validate: bool,
    config: &PassConfig,
    promoted: &mut Vec<Body>,
    trace: &mut Vec<PassName>,
) -> (r: Result<(), FatalError>)
    requires
        target matches Some(t) ==> phase_le(old(body)@.phase, t),
    ensures
        r.is_ok() == run_succeeds(old(body)@, passes@, target, validate, config@),
        r.is_ok() ==> final(body)@ == with_target(
            run_list(old(body)@, passes@, config@).0,
            target,
        ),
        r.is_ok() ==> bodies_view(final(promoted)@) == bodies_view(old(promoted)@) + run_list(
            old(body)@,
            passes@,
            config@,
        ).1,
        r.is_ok() ==> final(trace)@ == old(trace)@ + enabled_names(passes@, config@),
        r.is_ok() && (validate || target is Some) ==> body_valid_at_phase(final(body)@),
        phase_le(old(body)@.phase, final(body)@.phase),
{
    let ghost pre = old(body)@;
    let ghost c = config@;
    let n = passes.len();
    let mut i: usize = 0;
    while i < n
        invariant
            n == passes@.len(),
            i <= n,
            c == config@,
            pre == old(body)@,
            body@ == run_list(pre, passes@.take(i as int), c).0,
            bodies_view(promoted@) == bodies_view(old(promoted)@) + run_list(
                pre,
                passes@.take(i as int),
                c,
            ).1,
            trace@ == old(trace)@ + enabled_names(passes@.take(i as int), c),
            validate ==> batch_states_valid(pre, passes@.take(i as int), c),
            body@.phase == pre.phase,
        decreases n - i,
    {
        let p = passes[i];
        proof {
            assert(passes@.take(i + 1 as int).drop_last() =~= passes@.take(i as int));
            assert(passes@.take(i + 1 as int).last() == passes@[i as int]);
        }
        if pass_is_enabled(&p, config) {
            trace.push(p.name);
            let ghost before = body@;
            run_single_pass(body, p.name, promoted);
            proof {
                crate::passes::lemma_apply_pass_keeps_phase(before, p.name);
            }
            if validate {
                if !validate_body(body) {
                    proof {
                        // A full batch would have required this very state to
                        // satisfy the validator.
                        if batch_states_valid(pre, passes@, c) {
                            lemma_batch_states_valid_prefix(pre, passes@, c, i + 1);
                        }
                    }
                    return Err(FatalError::ValidationFailed { pass: p.name, phase: body.phase });
                }
            }
        }
        i = i + 1;
    }
    proof {
        assert(passes@.take(n as int) =~= passes@);
    }
    match target {
        Some(t) => {
            body.phase = t;
        },
        None => {},
    }
    if validate || target.is_some() {
        if !validate_body(body) {
            return Err(FatalError::TargetValidationFailed { phase: body.phase });
        }
    }
    Ok(())
}

/// An explicit `false` override for a name keeps every descriptor of that
/// name out of the pass-invocation trace: its transformation is skipped.
pub proof fn lemma_override_disables(passes: Seq<PassDescriptor>, c: ConfigModel, name: PassName)
    requires
        override_for(c.overrides, name) == Some(false),
    ensures
        !enabled_names(passes, c).contains(name),
    decreases passes.len(),
{
    if passes.len() > 0 {
        lemma_override_disables(passes.drop_last(), c, name);
        assert(!pass_enabled(PassDescriptor { name, ..passes.last() }, c));
        if enabled_names(passes, c).contains(name) {
            let prev = enabled_names(passes.drop_last(), c);
            let j = choose|j: int|
                0 <= j < enabled_names(passes, c).len() && enabled_names(passes, c)[j] == name;
            if pass_enabled(passes.last(), c) {
                if j < prev.len() {
                    assert(prev.contains(name));
                } else {
                    assert(passes.last().name == name);
                }
            } else {
                assert(prev.contains(name));
            }
        }
    }
}

} // verus!
