use vstd::prelude::*;

use crate::phase::{phase_index, Phase};

verus! {

/// A typed storage slot within a body. Slot 0 is the return place; the next
/// `arg_count` slots are the parameters; the remainder are temporaries.
#[derive(Clone, Copy, Debug, PartialEq, Eq)]
pub struct Local {
    /// Identifier of the slot's semantic type (types themselves belong to the
    /// type checker, an external collaborator).
    pub ty: u64,
    /// Debug/provenance side data for borrow-check diagnostics; cleared once
    /// runtime cleanup is past, since later stages have no use for it.
    pub debug_info: Option<u64>,
}

/// A non-branching effect inside a basic block.
#[derive(Clone, Copy, Debug, PartialEq, Eq)]
pub enum Statement {
    /// An assignment-like effect targeting a local slot; the right-hand side
    /// is opaque to the pipeline.
    Assign { dest: usize, effect: u64 },
    /// No effect; left behind by passes that erase statements in place and
    /// swept up by CFG simplification.
    Nop,
    /// Start of a storage region for a local.
    StorageLive { local: usize },
    /// End of a storage region for a local.
    StorageDead { local: usize },
    /// Keeps a place mentioned for diagnostics; removed by runtime cleanup.
    PlaceMention { local: usize },
    /// Marks a sub-expression eligible to become an independent constant
    /// body. None of these may remain once promotion is past.
    Promotable { ty: u64 },
    /// A subtyping-coercion placeholder awaiting an explicit projection.
    /// None of these may remain once runtime lowering is past.
    SubtypePlaceholder { local: usize },
}

/// The single control-transfer instruction ending a basic block, naming its
/// successor blocks by index.
#[derive(Clone, Copy, Debug, PartialEq, Eq)]
pub enum Terminator {
    Goto { target: usize },
    Branch { condition: u64, then_target: usize, else_target: usize },
    /// A call; `callee` names the called function when it is statically
    /// known, `target` the return block, `unwind` the cleanup block, if any.
    Call { callee: Option<usize>, target: usize, unwind: Option<usize> },
    Return,
    Unreachable,
}

/// A straight-line sequence of statements ending in exactly one terminator.
#[derive(Debug, PartialEq, Eq)]
pub struct BasicBlock {
    pub statements: Vec<Statement>,
    pub terminator: Terminator,
}

/// One compilation unit's IR: index-addressed basic blocks (index 0 is the
/// entry block, reachable by construction), indexed locals, a phase tag, an
/// optional taint flag recording an already-reported error, source identity
/// and a diagnostic span.
#[derive(Debug, PartialEq, Eq)]
pub struct Body {
    pub blocks: Vec<BasicBlock>,
    pub locals: Vec<Local>,
    /// Number of parameter slots; slot 0 is the return place.
    pub arg_count: usize,
    pub phase: Phase,
    /// Set when an earlier stage already reported a user-visible error for
    /// this function; carries the reported diagnostic's identifier.
    pub tainted_by_errors: Option<u64>,
    /// Identity of the function this body belongs to.
    pub source: usize,
    pub span: u64,
}

/// Mathematical model of a basic block.
#[verifier::ext_equal]
pub struct BlockModel {
    pub statements: Seq<Statement>,
    pub terminator: Terminator,
}

/// Mathematical model of a body.
#[verifier::ext_equal]
pub struct BodyModel {
    pub blocks: Seq<BlockModel>,
    pub locals: Seq<Local>,
    pub arg_count: usize,
    pub phase: Phase,
    pub tainted_by_errors: Option<u64>,
    pub source: usize,
    pub span: u64,
}

impl View for BasicBlock {
    type V = BlockModel;

    open spec fn view(&self) -> BlockModel {
        BlockModel { statements: self.statements@, terminator: self.terminator }
    }
}

impl View for Body {
    type V = BodyModel;

    open spec fn view(&self) -> BodyModel {
        BodyModel {
            blocks: self.blocks@.map_values(|b: BasicBlock| b@),
            locals: self.locals@,
            arg_count: self.arg_count,
            phase: self.phase,
            tainted_by_errors: self.tainted_by_errors,
            source: self.source,
            span: self.span,
        }
    }
}

/// Every successor index named by `t` is a valid index among `n` blocks.
pub open spec fn terminator_targets_ok(t: Terminator, n: int) -> bool {
    match t {
        Terminator::Goto { target } => target < n,
        Terminator::Branch { condition, then_target, else_target } => then_target < n
            && else_target < n,
        Terminator::Call { callee, target, unwind } => target < n && (unwind matches Some(u)
            ==> u < n),
        Terminator::Return => true,
        Terminator::Unreachable => true,
    }
}

/// The structural invariants of a body: the entry block exists (and is thus
/// reachable), every block carries exactly one terminator (by construction of
/// `BasicBlock`) whose successor indices are valid, and the return slot and
/// parameter slots are present among the locals.
pub open spec fn body_structurally_valid(b: BodyModel) -> bool {
    &&& b.blocks.len() >= 1
    &&& forall|i: int|
        0 <= i < b.blocks.len() ==> terminator_targets_ok(
            (#[trigger] b.blocks[i]).terminator,
            b.blocks.len() as int,
        )
    &&& b.arg_count + 1 <= b.locals.len()
}

pub open spec fn stmt_is_promotable(s: Statement) -> bool {
    s matches Statement::Promotable { .. }
}

pub open spec fn stmt_is_subtype_placeholder(s: Statement) -> bool {
    s matches Statement::SubtypePlaceholder { .. }
}

/// No promotable-constant marker remains anywhere in the body.
pub open spec fn no_promotable_markers(b: BodyModel) -> bool {
    forall|i: int, j: int|
        0 <= i < b.blocks.len() && 0 <= j < b.blocks[i].statements.len() ==> !stmt_is_promotable(
            #[trigger] b.blocks[i].statements[j],
        )
}

/// No subtyping-projection placeholder remains anywhere in the body.
pub open spec fn no_subtype_placeholders(b: BodyModel) -> bool {
    forall|i: int, j: int|
        0 <= i < b.blocks.len() && 0 <= j < b.blocks[i].statements.len()
            ==> !stmt_is_subtype_placeholder(#[trigger] b.blocks[i].statements[j])
}

/// The full validator judgment: structural invariants plus the
/// phase-specific invariants. No promotable-constant marker may remain once
/// promotion is past (phase at least `AnalysisInitial`); no
/// subtyping-projection placeholder may remain once runtime lowering is past
/// (phase at least `RuntimeInitial`).
pub open spec fn body_valid_at_phase(b: BodyModel) -> bool {
    &&& body_structurally_valid(b)
    &&& phase_index(b.phase) >= 1 ==> no_promotable_markers(b)
    &&& phase_index(b.phase) >= 3 ==> no_subtype_placeholders(b)
}

/// Executable check that `t`'s successor indices all fall below `n`.
pub fn check_terminator(t: &Terminator, n: usize) -> (r: bool)
    ensures
        r == terminator_targets_ok(*t, n as int),
{
    match t {
        Terminator::Goto { target } => *target < n,
        Terminator::Branch { condition, then_target, else_target } => *then_target < n
            && *else_target < n,
        Terminator::Call { callee, target, unwind } => {
            let unwind_ok = match unwind {
                Some(u) => *u < n,
                None => true,
            };
            *target < n && unwind_ok
        },
        Terminator::Return => true,
        Terminator::Unreachable => true,
    }
}

/// Executable scan for a promotable-constant marker anywhere in the body.
fn contains_promotable(b: &Body) -> (r: bool)
    ensures
        r == !no_promotable_markers(b@),
{
    let n = b.blocks.len();
    let mut i: usize = 0;
    while i < n
        invariant
            n == b.blocks@.len(),
            i <= n,
            forall|p: int, q: int|
                0 <= p < i && 0 <= q < b@.blocks[p].statements.len() ==> !stmt_is_promotable(
                    #[trigger] b@.blocks[p].statements[q],
                ),
        decreases n - i,
    {
        let m = b.blocks[i].statements.len();
        let mut j: usize = 0;
        while j < m
            invariant
                n == b.blocks@.len(),
                i < n,
                m == b@.blocks[i as int].statements.len(),
                j <= m,
                forall|q: int|
                    0 <= q < j ==> !stmt_is_promotable(#[trigger] b@.blocks[i as int].statements[q]),
            decreases m - j,
        {
            match b.blocks[i].statements[j] {
                Statement::Promotable { .. } => {
                    return true;
                },
                _ => {},
            }
            j = j + 1;
        }
        i = i + 1;
    }
    false
}

/// Executable scan for a subtyping-projection placeholder anywhere in the body.
fn contains_subtype_placeholder(b: &Body) -> (r: bool)
    ensures
        r == !no_subtype_placeholders(b@),
{
    let n = b.blocks.len();
    let mut i: usize = 0;
    while i < n
        invariant
            n == b.blocks@.len(),
            i <= n,
            forall|p: int, q: int|
                0 <= p < i && 0 <= q < b@.blocks[p].statements.len()
                    ==> !stmt_is_subtype_placeholder(#[trigger] b@.blocks[p].statements[q]),
        decreases n - i,
    {
        let m = b.blocks[i].statements.len();
        let mut j: usize = 0;
        while j < m
            invariant
                n == b.blocks@.len(),
                i < n,
                m == b@.blocks[i as int].statements.len(),
                j <= m,
                forall|q: int|
                    0 <= q < j ==> !stmt_is_subtype_placeholder(
                        #[trigger] b@.blocks[i as int].statements[q],
                    ),
            decreases m - j,
        {
            match b.blocks[i].statements[j] {
                Statement::SubtypePlaceholder { .. } => {
                    return true;
                },
                _ => {},
            }
            j = j + 1;
        }
        i = i + 1;
    }
    false
}

/// The structural validator: decides `body_valid_at_phase` for the body as it
/// stands. The pass manager runs it after passes and phase transitions.
pub fn validate_body(b: &Body) -> (r: bool)
    ensures
        r == body_valid_at_phase(b@),
{
    let n = b.blocks.len();
    if n == 0 {
        return false;
    }
    if b.arg_count >= b.locals.len() {
        assert(!body_structurally_valid(b@));
        return false;
    }
    let mut i: usize = 0;
    while i < n
        invariant
            n == b.blocks@.len(),
            i <= n,
            forall|p: int|
                0 <= p < i ==> terminator_targets_ok((#[trigger] b@.blocks[p]).terminator, n as int),
        decreases n - i,
    {
        if !check_terminator(&b.blocks[i].terminator, n) {
            assert(!terminator_targets_ok(b@.blocks[i as int].terminator, n as int));
            return false;
        }
        i = i + 1;
    }
    let rank = crate::phase::phase_rank(b.phase);
    if rank >= 1 && contains_promotable(b) {
        return false;
    }
    if rank >= 3 && contains_subtype_placeholder(b) {
        return false;
    }
    true
}

/// An exact copy of a block.
pub fn clone_block(b: &BasicBlock) -> (r: BasicBlock)
    ensures
        r@ == b@,
{
    let mut statements: Vec<Statement> = Vec::new();
    let m = b.statements.len();
    let mut j: usize = 0;
    while j < m
        invariant
            m == b.statements@.len(),
            j <= m,
            statements@ == b.statements@.take(j as int),
        decreases m - j,
    {
        statements.push(b.statements[j]);
        assert(statements@ =~= b.statements@.take(j + 1 as int));
        j = j + 1;
    }
    assert(statements@ =~= b.statements@);
    BasicBlock { statements, terminator: b.terminator }
}

/// An exact copy of a body.
pub fn clone_body(b: &Body) -> (r: Body)
    ensures
        r@ == b@,
{
    let mut blocks: Vec<BasicBlock> = Vec::new();
    let n = b.blocks.len();
    let mut i: usize = 0;
    while i < n
        invariant
            n == b.blocks@.len(),
            i <= n,
            blocks@.len() == i,
            forall|p: int| 0 <= p < i ==> (#[trigger] blocks@[p])@ == b.blocks@[p]@,
        decreases n - i,
    {
        blocks.push(clone_block(&b.blocks[i]));
        i = i + 1;
    }
    let mut locals: Vec<Local> = Vec::new();
    let ln = b.locals.len();
    let mut k: usize = 0;
    while k < ln
        invariant
            ln == b.locals@.len(),
            k <= ln,
            locals@ == b.locals@.take(k as int),
        decreases ln - k,
    {
        locals.push(b.locals[k]);
        assert(locals@ =~= b.locals@.take(k + 1 as int));
        k = k + 1;
    }
    assert(locals@ =~= b.locals@);
    let r = Body {
        blocks,
        locals,
        arg_count: b.arg_count,
        phase: b.phase,
        tainted_by_errors: b.tainted_by_errors,
        source: b.source,
        span: b.span,
    };
    assert(r@.blocks =~~= b@.blocks);
    assert(r@ =~~= b@);
    r
}

/// The deliberately truncated form of a body whose generic bounds are
/// statically unsatisfiable: a single block holding nothing but an
/// `Unreachable` terminator, with every local beyond the return place and the
/// parameters dropped.
pub open spec fn truncated_model(b: BodyModel) -> BodyModel {
    BodyModel {
        blocks: seq![
            BlockModel { statements: Seq::empty(), terminator: Terminator::Unreachable },
        ],
        locals: b.locals.take(b.arg_count + 1),
        ..b
    }
}

/// A body that consists of exactly one empty block ending in `Unreachable`.
/// Nothing later in the pipeline has any work to do on such a body.
pub open spec fn is_lone_unreachable(b: BodyModel) -> bool {
    &&& b.blocks.len() == 1
    &&& b.blocks[0].statements.len() == 0
    &&& b.blocks[0].terminator matches Terminator::Unreachable
}

/// Collapse `b` to the truncated form; used when its function's generic
/// bounds are provably impossible to satisfy.
pub fn truncate_body(b: &mut Body)
    requires
        old(b).arg_count + 1 <= old(b).locals@.len(),
    ensures
        final(b)@ == truncated_model(old(b)@),
        is_lone_unreachable(final(b)@),
{
    let mut blocks: Vec<BasicBlock> = Vec::new();
    blocks.push(BasicBlock { statements: Vec::new(), terminator: Terminator::Unreachable });
    b.blocks = blocks;
    let ln = b.locals.len();
    assert(b.arg_count < ln);
    let keep = b.arg_count + 1;
    b.locals.truncate(keep);
    assert(b@.blocks =~~= truncated_model(old(b)@).blocks);
    assert(b@ =~~= truncated_model(old(b)@));
}

/// Executable check for `is_lone_unreachable`.
pub fn check_lone_unreachable(b: &Body) -> (r: bool)
    ensures
        r == is_lone_unreachable(b@),
{
    if b.blocks.len() != 1 {
        return false;
    }
    if b.blocks[0].statements.len() != 0 {
        return false;
    }
    match b.blocks[0].terminator {
        Terminator::Unreachable => true,
        _ => false,
    }
}

} // verus!
