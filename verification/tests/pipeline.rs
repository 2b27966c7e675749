use mir_transform::ir::{BasicBlock, Body, Local, Statement, Terminator};
use mir_transform::pass_manager::{pass_is_enabled, run_passes, FatalError, PassConfig};
use mir_transform::passes::{run_single_pass, PassDescriptor, PassName};
use mir_transform::phase::{phase_precedes_or_equals, phase_rank, Phase};
use mir_transform::pipeline::{optimization_passes, run_analysis_to_runtime_passes};
use mir_transform::steal::Steal;
use mir_transform::util::take_array;

fn local(ty: u64) -> Local {
    Local {
        ty,
        debug_info: Some(ty),
    }
}

fn default_config() -> PassConfig {
    PassConfig {
        opt_level: 3,
        disable_all_passes: false,
        overrides: Vec::new(),
        precise_live_drops: false,
    }
}

/// Two blocks: one with no-ops and a degenerate branch, one returning.
fn messy_body() -> Body {
    let block0 = BasicBlock {
        statements: vec![
            Statement::Nop,
            Statement::Assign { dest: 0, effect: 9 },
            Statement::Nop,
        ],
        terminator: Terminator::Branch {
            condition: 1,
            then_target: 1,
            else_target: 1,
        },
    };
    let block1 = BasicBlock {
        statements: Vec::new(),
        terminator: Terminator::Return,
    };
    Body {
        blocks: vec![block0, block1],
        locals: vec![local(0), local(1)],
        arg_count: 1,
        phase: Phase::Built,
        tainted_by_errors: None,
        source: 0,
        span: 11,
    }
}

#[test]
fn phase_order_is_total() {
    assert!(phase_precedes_or_equals(Phase::Built, Phase::AnalysisInitial));
    assert!(phase_precedes_or_equals(
        Phase::AnalysisInitial,
        Phase::AnalysisPostCleanup
    ));
    assert!(phase_precedes_or_equals(
        Phase::RuntimeInitial,
        Phase::RuntimeOptimized
    ));
    assert!(!phase_precedes_or_equals(
        Phase::RuntimeOptimized,
        Phase::Built
    ));
    assert_eq!(phase_rank(Phase::Built), 0);
    assert_eq!(phase_rank(Phase::RuntimeOptimized), 5);
}

#[test]
fn steal_cell_yields_exactly_once() {
    let mut cell = Steal::new(42u64);
    assert_eq!(cell.try_steal(), Some(42));
    assert_eq!(cell.try_steal(), None);
    assert_eq!(cell.try_steal(), None);
}

#[test]
fn steal_borrow_then_steal() {
    let mut cell = Steal::new(7u64);
    assert_eq!(*cell.borrow(), 7);
    assert_eq!(*cell.borrow(), 7);
    assert_eq!(cell.steal(), 7);
}

#[test]
fn simplify_cfg_is_idempotent() {
    let mut body = messy_body();
    let mut promoted: Vec<Body> = Vec::new();
    run_single_pass(&mut body, PassName::SimplifyCfg, &mut promoted);
    assert_eq!(body.blocks[0].statements.len(), 1);
    assert_eq!(
        body.blocks[0].statements[0],
        Statement::Assign { dest: 0, effect: 9 }
    );
    assert_eq!(body.blocks[0].terminator, Terminator::Goto { target: 1 });
    let snapshot_blocks = format!("{:?}", body.blocks);
    run_single_pass(&mut body, PassName::SimplifyCfg, &mut promoted);
    assert_eq!(format!("{:?}", body.blocks), snapshot_blocks);
    assert_eq!(body.blocks[0].statements.len(), 1);
    assert!(promoted.is_empty());
}

#[test]
fn promotion_extracts_siblings() {
    let mut body = messy_body();
    body.blocks[0].statements.push(Statement::Promotable { ty: 5 });
    body.blocks[1].statements.push(Statement::Promotable { ty: 6 });
    let mut promoted: Vec<Body> = Vec::new();
    run_single_pass(&mut body, PassName::PromoteTemps, &mut promoted);
    assert_eq!(promoted.len(), 2);
    assert_eq!(promoted[0].locals[0].ty, 5);
    assert_eq!(promoted[1].locals[0].ty, 6);
    assert_eq!(promoted[0].phase, Phase::AnalysisInitial);
    // The markers leave no-ops behind.
    assert_eq!(body.blocks[0].statements[3], Statement::Nop);
    assert_eq!(body.blocks[1].statements[0], Statement::Nop);
}

#[test]
fn run_passes_records_enabled_passes_in_order() {
    let mut body = messy_body();
    let config = default_config();
    let passes = vec![
        PassDescriptor {
            name: PassName::CheckPackedRef,
            min_level: 0,
            default_enabled: true,
            is_lint: true,
        },
        PassDescriptor {
            name: PassName::SimplifyCfg,
            min_level: 0,
            default_enabled: true,
            is_lint: false,
        },
    ];
    let mut promoted: Vec<Body> = Vec::new();
    let mut trace: Vec<PassName> = Vec::new();
    let r = run_passes(
        &mut body,
        &passes,
        None,
        true,
        &config,
        &mut promoted,
        &mut trace,
    );
    assert!(r.is_ok());
    assert_eq!(trace, vec![PassName::CheckPackedRef, PassName::SimplifyCfg]);
}

#[test]
fn validator_failure_names_pass_and_phase() {
    // A terminator pointing past the last block breaks the structural
    // invariant; per-pass validation reports the offending pass and phase.
    let mut body = messy_body();
    body.blocks[1].terminator = Terminator::Goto { target: 9 };
    let config = default_config();
    let passes = vec![PassDescriptor {
        name: PassName::SimplifyCfg,
        min_level: 0,
        default_enabled: true,
        is_lint: false,
    }];
    let mut promoted: Vec<Body> = Vec::new();
    let mut trace: Vec<PassName> = Vec::new();
    let r = run_passes(
        &mut body,
        &passes,
        None,
        true,
        &config,
        &mut promoted,
        &mut trace,
    );
    assert_eq!(
        r,
        Err(FatalError::ValidationFailed {
            pass: PassName::SimplifyCfg,
            phase: Phase::Built,
        })
    );
}

#[test]
fn target_validation_failure_names_phase() {
    // A promotable marker surviving into `AnalysisInitial` fails the
    // final validation against the target phase.
    let mut body = messy_body();
    body.blocks[0].statements.push(Statement::Promotable { ty: 3 });
    let config = default_config();
    let passes: Vec<PassDescriptor> = Vec::new();
    let mut promoted: Vec<Body> = Vec::new();
    let mut trace: Vec<PassName> = Vec::new();
    let r = run_passes(
        &mut body,
        &passes,
        Some(Phase::AnalysisInitial),
        false,
        &config,
        &mut promoted,
        &mut trace,
    );
    assert_eq!(
        r,
        Err(FatalError::TargetValidationFailed {
            phase: Phase::AnalysisInitial,
        })
    );
}

#[test]
fn disabled_pass_is_skipped_but_pipeline_validates() {
    // Disabling CFG simplification by name: its transformation is skipped
    // (the no-ops survive), yet the run reaches the target phase and
    // passes validation.
    let mut body = messy_body();
    body.phase = Phase::AnalysisInitial;
    let config = PassConfig {
        opt_level: 3,
        disable_all_passes: false,
        overrides: vec![(PassName::SimplifyCfg, false)],
        precise_live_drops: false,
    };
    let mut trace: Vec<PassName> = Vec::new();
    let r = run_analysis_to_runtime_passes(&mut body, &config, &mut trace);
    assert!(r.is_ok());
    assert_eq!(body.phase, Phase::RuntimePostCleanup);
    assert!(!trace.contains(&PassName::SimplifyCfg));
    assert!(body.blocks[0]
        .statements
        .iter()
        .any(|s| matches!(s, Statement::Nop)));
}

#[test]
fn analysis_to_runtime_advances_phase_monotonically() {
    let mut body = messy_body();
    body.phase = Phase::AnalysisInitial;
    let config = default_config();
    let mut trace: Vec<PassName> = Vec::new();
    let r = run_analysis_to_runtime_passes(&mut body, &config, &mut trace);
    assert!(r.is_ok());
    assert_eq!(body.phase, Phase::RuntimePostCleanup);
    // Runtime cleanup also clears the per-local debug side tables.
    assert!(body.locals.iter().all(|l| l.debug_info.is_none()));
}

#[test]
fn gate_precedence_override_beats_disable_all() {
    let d = PassDescriptor {
        name: PassName::Gvn,
        min_level: 0,
        default_enabled: true,
        is_lint: false,
    };
    let config = PassConfig {
        opt_level: 1,
        disable_all_passes: true,
        overrides: vec![(PassName::Gvn, true)],
        precise_live_drops: false,
    };
    assert!(pass_is_enabled(&d, &config));
    let config2 = PassConfig {
        opt_level: 1,
        disable_all_passes: true,
        overrides: Vec::new(),
        precise_live_drops: false,
    };
    assert!(!pass_is_enabled(&d, &config2));
}

#[test]
fn gate_respects_minimum_level() {
    let inline = PassDescriptor {
        name: PassName::Inline,
        min_level: 2,
        default_enabled: true,
        is_lint: false,
    };
    let low = PassConfig {
        opt_level: 1,
        disable_all_passes: false,
        overrides: Vec::new(),
        precise_live_drops: false,
    };
    let high = PassConfig {
        opt_level: 2,
        disable_all_passes: false,
        overrides: Vec::new(),
        precise_live_drops: false,
    };
    assert!(!pass_is_enabled(&inline, &low));
    assert!(pass_is_enabled(&inline, &high));
}

#[test]
fn optimization_catalog_is_ordered_as_documented() {
    let passes = optimization_passes();
    let names: Vec<PassName> = passes.iter().map(|p| p.name).collect();
    assert_eq!(names[0], PassName::CheckAlignment);
    let inline_at = names.iter().position(|n| *n == PassName::Inline).unwrap();
    let storage_at = names
        .iter()
        .position(|n| *n == PassName::RemoveStorageMarkers)
        .unwrap();
    assert!(inline_at < storage_at);
    assert_eq!(*names.last().unwrap(), PassName::ParReEmit);
}

#[test]
fn take_array_takes_exactly_n() {
    let mut v: Vec<u32> = vec![1, 2, 3];
    let r: Result<[u32; 3], Vec<u32>> = take_array(&mut v);
    assert_eq!(r, Ok([1, 2, 3]));
    assert!(v.is_empty());
}

#[test]
fn take_array_returns_contents_on_wrong_length() {
    let mut v: Vec<u32> = vec![1, 2, 3];
    let r: Result<[u32; 2], Vec<u32>> = take_array(&mut v);
    assert_eq!(r, Err(vec![1, 2, 3]));
    assert!(v.is_empty());
}
