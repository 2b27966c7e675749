use mir_transform::codegen::MLIRCodegenBackend;
use mir_transform::ir::{validate_body, BasicBlock, Body, Local, Statement, Terminator};
use mir_transform::pass_manager::{FatalError, PassConfig};
use mir_transform::passes::PassName;
use mir_transform::phase::Phase;
use mir_transform::queries::{ConstQualifs, CrateInput, FnInput, FnKind, Queries};

fn plain_config() -> PassConfig {
    PassConfig {
        opt_level: 3,
        disable_all_passes: false,
        overrides: Vec::new(),
        precise_live_drops: false,
    }
}

fn no_qualifs() -> ConstQualifs {
    ConstQualifs {
        has_mut_interior: false,
        needs_non_const_drop: false,
        tainted_by_errors: None,
    }
}

fn body_for(source: usize, statements: Vec<Statement>, callee: Option<usize>) -> Body {
    let terminator = match callee {
        Some(_) => Terminator::Call {
            callee,
            target: 1,
            unwind: None,
        },
        None => Terminator::Goto { target: 1 },
    };
    let block0 = BasicBlock {
        statements,
        terminator,
    };
    let block1 = BasicBlock {
        statements: Vec::new(),
        terminator: Terminator::Return,
    };
    Body {
        blocks: vec![block0, block1],
        locals: vec![
            Local {
                ty: 0,
                debug_info: Some(1),
            },
            Local {
                ty: 1,
                debug_info: Some(2),
            },
            Local {
                ty: 2,
                debug_info: Some(3),
            },
        ],
        arg_count: 1,
        phase: Phase::Built,
        tainted_by_errors: None,
        source,
        span: 100 + source as u64,
    }
}

fn plain_fn(source: usize, statements: Vec<Statement>, callee: Option<usize>) -> FnInput {
    FnInput {
        body: body_for(source, statements, callee),
        kind: FnKind::Fn,
        borrowck_tainted: None,
        qualifs: no_qualifs(),
        unsatisfiable_bounds: false,
        inline_candidate: true,
    }
}

fn session_of(fns: Vec<FnInput>) -> Queries {
    Queries::new(CrateInput { fns }, plain_config()).unwrap()
}

#[test]
fn empty_crate_compiles_to_nothing() {
    let q = session_of(Vec::new());
    assert!(q.mir_keys().is_empty());
    assert!(!q.is_mir_available(0));
}

#[test]
fn rejects_malformed_input() {
    // A successor index past the last block breaks the invariant the
    // front end owes the pipeline.
    let mut f = plain_fn(0, Vec::new(), None);
    f.body.blocks[1].terminator = Terminator::Goto { target: 7 };
    assert!(Queries::new(CrateInput { fns: vec![f] }, plain_config()).is_none());
}

#[test]
fn mir_keys_lists_every_function() {
    let q = session_of(vec![plain_fn(0, Vec::new(), None), plain_fn(1, Vec::new(), None)]);
    assert_eq!(q.mir_keys(), vec![0, 1]);
    assert!(q.is_mir_available(1));
    assert!(!q.is_mir_available(2));
}

#[test]
fn optimized_body_is_terminal_and_fit_for_codegen() {
    let stmts = vec![
        Statement::Nop,
        Statement::Assign { dest: 2, effect: 4 },
        Statement::StorageLive { local: 2 },
        Statement::StorageDead { local: 2 },
        Statement::PlaceMention { local: 1 },
        Statement::SubtypePlaceholder { local: 2 },
    ];
    let mut q = session_of(vec![plain_fn(0, stmts, None)]);
    let body = q.optimized_mir(0).unwrap();
    assert_eq!(body.phase, Phase::RuntimeOptimized);
    assert!(body.tainted_by_errors.is_none());
    // No storage markers, place mentions, no-ops or placeholders survive.
    for block in &body.blocks {
        for s in &block.statements {
            assert!(matches!(s, Statement::Assign { .. }));
        }
    }
    // Debug side data is cleared past runtime cleanup.
    assert!(body.locals.iter().all(|l| l.debug_info.is_none()));
    let backend = MLIRCodegenBackend::new();
    assert!(backend.accepts_for_codegen(&body));
    assert!(!backend.supports_parallel());
}

#[test]
fn second_demand_returns_the_published_result() {
    let mut q = session_of(vec![plain_fn(0, vec![Statement::Nop], None)]);
    let first = q.optimized_mir(0).unwrap();
    let trace_len = q.trace().len();
    let second = q.optimized_mir(0).unwrap();
    assert_eq!(first, second);
    // Nothing ran again.
    assert_eq!(q.trace().len(), trace_len);
}

#[test]
fn tainted_body_skips_optimization_and_codegen() {
    let mut f = plain_fn(0, vec![Statement::Nop], None);
    f.borrowck_tainted = Some(77);
    let mut q = session_of(vec![f]);
    let body = q.optimized_mir(0).unwrap();
    assert_eq!(body.tainted_by_errors, Some(77));
    // The pipeline kept running but never optimized the tainted body.
    assert_eq!(body.phase, Phase::RuntimePostCleanup);
    let backend = MLIRCodegenBackend::new();
    assert!(!backend.accepts_for_codegen(&body));
}

#[test]
fn unsatisfiable_bounds_truncate_the_body() {
    let stmts = vec![
        Statement::Assign { dest: 2, effect: 1 },
        Statement::Assign { dest: 1, effect: 2 },
    ];
    let mut f = plain_fn(0, stmts, None);
    f.unsatisfiable_bounds = true;
    let mut q = session_of(vec![f]);
    let body = q.optimized_mir(0).unwrap();
    // Exactly one block, no statements, an unreachable terminator, and
    // only the return place and the parameter among the locals.
    assert_eq!(body.blocks.len(), 1);
    assert_eq!(body.blocks[0].statements.len(), 0);
    assert_eq!(body.blocks[0].terminator, Terminator::Unreachable);
    assert_eq!(body.locals.len(), 2);
    // The later stages were no-ops: the optimization catalog never ran.
    assert!(!q.trace().contains(&PassName::CheckAlignment));
}

#[test]
fn constructor_terminal_body_runs_no_pass() {
    let mut f = plain_fn(0, vec![Statement::Nop], None);
    f.kind = FnKind::Constructor;
    let mut q = session_of(vec![f]);
    assert_eq!(q.trace().len(), 0);
    let body = q.optimized_mir(0).unwrap();
    // The pass-invocation trace for the whole demand is empty.
    assert_eq!(q.trace().len(), 0);
    assert_eq!(body.phase, Phase::RuntimeOptimized);
    assert_eq!(body.blocks.len(), 1);
    assert_eq!(body.blocks[0].terminator, Terminator::Return);
    assert!(q.promoted_mir(0).unwrap().is_empty());
}

#[test]
fn promoted_bodies_reach_runtime_post_cleanup() {
    let stmts = vec![
        Statement::Promotable { ty: 41 },
        Statement::Assign { dest: 1, effect: 0 },
        Statement::Promotable { ty: 42 },
    ];
    let mut q = session_of(vec![plain_fn(0, stmts, None)]);
    let promoted = q.promoted_mir(0).unwrap();
    assert_eq!(promoted.len(), 2);
    for pb in &promoted {
        assert_eq!(pb.phase, Phase::RuntimePostCleanup);
        assert_eq!(pb.blocks.len(), 1);
    }
    assert_eq!(promoted[0].locals[0].ty, 41);
    assert_eq!(promoted[1].locals[0].ty, 42);
    // The main body keeps running its own pipeline afterwards.
    let body = q.optimized_mir(0).unwrap();
    assert_eq!(body.phase, Phase::RuntimeOptimized);
}

#[test]
fn const_function_owns_both_terminal_variants() {
    let mut f = plain_fn(0, vec![Statement::Assign { dest: 1, effect: 3 }], None);
    f.kind = FnKind::ConstFn;
    let mut q = session_of(vec![f]);
    let ctfe = q.mir_for_ctfe(0).unwrap();
    assert_eq!(ctfe.phase, Phase::RuntimePostCleanup);
    let optimized = q.optimized_mir(0).unwrap();
    assert_eq!(optimized.phase, Phase::RuntimeOptimized);
}

#[test]
fn constant_qualification_taints_forward() {
    let mut f = plain_fn(0, vec![Statement::Nop], None);
    f.kind = FnKind::Const;
    f.qualifs = ConstQualifs {
        has_mut_interior: true,
        needs_non_const_drop: false,
        tainted_by_errors: Some(13),
    };
    let mut q = session_of(vec![f]);
    assert_eq!(q.mir_const_qualif(0).tainted_by_errors, Some(13));
    let ctfe = q.mir_for_ctfe(0).unwrap();
    // The taint propagates into the terminal body without aborting.
    assert_eq!(ctfe.tainted_by_errors, Some(13));
}

#[test]
fn mutually_dependent_functions_are_not_inlinable() {
    // Function 0 calls function 1 and function 1 calls function 0: the
    // legality facts demand each other, and both resolve conservatively.
    let f0 = plain_fn(0, Vec::new(), Some(1));
    let f1 = plain_fn(1, Vec::new(), Some(0));
    let mut q = session_of(vec![f0, f1]);
    assert!(!q.inlining_legal(0));
    assert!(!q.inlining_legal(1));
    // The run as a whole still completes.
    assert_eq!(q.optimized_mir(0).unwrap().phase, Phase::RuntimeOptimized);
    assert_eq!(q.optimized_mir(1).unwrap().phase, Phase::RuntimeOptimized);
}

#[test]
fn leaf_function_is_inlinable() {
    let f0 = plain_fn(0, Vec::new(), Some(1));
    let f1 = plain_fn(1, Vec::new(), None);
    let mut q = session_of(vec![f0, f1]);
    assert!(q.inlining_legal(1));
    assert!(q.inlining_legal(0));
}

#[test]
fn callgraph_reachability_detects_cycles_without_hanging() {
    let f0 = plain_fn(0, Vec::new(), Some(1));
    let f1 = plain_fn(1, Vec::new(), Some(0));
    let f2 = plain_fn(2, Vec::new(), None);
    let q = session_of(vec![f0, f1, f2]);
    assert!(q.mir_callgraph_reachable(0, 0));
    assert!(q.mir_callgraph_reachable(0, 1));
    assert!(!q.mir_callgraph_reachable(2, 0));
    assert!(!q.mir_callgraph_reachable(0, 2));
}

#[test]
fn disabling_a_required_pass_is_a_fatal_validator_error() {
    // With the subtyping pass overridden off, a placeholder survives
    // runtime lowering; the validator rejects the body at the target
    // phase and the whole demand fails fatally.
    let f = plain_fn(0, vec![Statement::SubtypePlaceholder { local: 2 }], None);
    let config = PassConfig {
        opt_level: 3,
        disable_all_passes: false,
        overrides: vec![(PassName::Subtyper, false)],
        precise_live_drops: false,
    };
    let mut q = Queries::new(CrateInput { fns: vec![f] }, config).unwrap();
    let r = q.optimized_mir(0);
    assert_eq!(
        r,
        Err(FatalError::TargetValidationFailed {
            phase: Phase::RuntimeInitial,
        })
    );
}

#[test]
fn every_stage_output_passes_the_validator() {
    let stmts = vec![
        Statement::Nop,
        Statement::SubtypePlaceholder { local: 2 },
        Statement::Promotable { ty: 9 },
    ];
    let mut q = session_of(vec![plain_fn(0, stmts, None)]);
    let optimized = q.optimized_mir(0).unwrap();
    assert!(validate_body(&optimized));
    for pb in q.promoted_mir(0).unwrap() {
        assert!(validate_body(&pb));
    }
}

#[test]
fn trace_follows_the_stage_ordering() {
    let mut q = session_of(vec![plain_fn(0, vec![Statement::Nop], None)]);
    let _ = q.optimized_mir(0).unwrap();
    let trace = q.trace();
    let promote_at = trace
        .iter()
        .position(|n| *n == PassName::PromoteTemps)
        .unwrap();
    let drops_at = trace
        .iter()
        .position(|n| *n == PassName::ElaborateDrops)
        .unwrap();
    let opt_at = trace
        .iter()
        .position(|n| *n == PassName::CheckAlignment)
        .unwrap();
    assert!(promote_at < drops_at);
    assert!(drops_at < opt_at);
    // The disabled-by-default reorder passes never ran.
    assert!(!trace.contains(&PassName::ReorderBasicBlocks));
}
