//! Properties of whole interpretation passes.
use vstd::prelude::*;
use crate::command::{AddCylinder, SetDefaultCylinderDiameter, TurtleCommand};
use crate::material::{MaterialMode, MaterialState};
use crate::turtle::{
    apply,
    initial_pass,
    interpretation,
    lemma_run_failure_persists,
    run,
    stack_settled,
    step,
    with_state,
    Pass,
    RegisteredPrimitive,
    TurtleState,
};

verus! {

/// What a command does to the count of open branches.
pub open spec fn stack_effect<P>(c: TurtleCommand<P>) -> int {
    match c {
        TurtleCommand::PushToStack => 1,
        TurtleCommand::PopFromStack => -1,
        _ => 0,
    }
}

/// Pushes minus pops.
pub open spec fn balance<P>(commands: Seq<TurtleCommand<P>>) -> int
    decreases commands.len(),
{
    if commands.len() == 0 {
        0
    } else {
        balance(commands.drop_last()) + stack_effect(commands.last())
    }
}

/// No prefix of the first `n` commands pops more than it pushed.
pub open spec fn no_unmatched_pop<P>(commands: Seq<TurtleCommand<P>>, n: int) -> bool {
    forall|k: int| 0 <= k <= n ==> balance(#[trigger] commands.take(k)) >= 0
}

/// Branches being skipped beyond the stack.
pub open spec fn skipped_depth<P>(state: TurtleState<P>) -> int {
    if state.ignoring_branch_depth > 0 {
        state.ignoring_branch_depth - 1
    } else {
        0
    }
}

proof fn lemma_step_balance<P: Copy>(
    p: Pass<P>,
    c: TurtleCommand<P>,
    pos: usize,
    registry: Seq<RegisteredPrimitive>,
)
    requires
        stack_settled(p),
        p.state.ignoring_branch_depth < usize::MAX,
        p.stack.len() + skipped_depth(p.state) + stack_effect(c) >= 0,
    ensures
        step(p, c, pos, registry) matches Some(q) && {
            &&& q.stack.len() + skipped_depth(q.state) == p.stack.len() + skipped_depth(p.state)
                + stack_effect(c)
            &&& stack_settled(q)
            &&& q.state.ignoring_branch_depth <= p.state.ignoring_branch_depth + 1
        },
{
    if let Some(q) = step(p, c, pos, registry) {
        if q.stack.len() == p.stack.len() + 1 {
            assert(forall|k: int| 0 <= k < p.stack.len() ==> q.stack[k] == p.stack[k]);
        }
        if q.stack.len() + 1 == p.stack.len() {
            assert(forall|k: int| 0 <= k < q.stack.len() ==> q.stack[k] == p.stack[k]);
        }
    }
}

proof fn lemma_balanced_prefix<P: Copy>(
    commands: Seq<TurtleCommand<P>>,
    material_state: MaterialState,
    registry: Seq<RegisteredPrimitive>,
    k: int,
)
    requires
        0 <= k <= commands.len(),
        commands.len() <= usize::MAX,
        no_unmatched_pop(commands, k),
    ensures
        run(initial_pass(material_state), commands.take(k), 0, registry) matches Ok(p) && {
            &&& p.stack.len() + skipped_depth(p.state) == balance(commands.take(k))
            &&& stack_settled(p)
            &&& p.state.ignoring_branch_depth <= k
        },
    decreases k,
{
    if k == 0 {
        assert(commands.take(0) =~= Seq::<TurtleCommand<P>>::empty());
    } else {
        lemma_balanced_prefix(commands, material_state, registry, k - 1);
        assert(commands.take(k).drop_last() =~= commands.take(k - 1));
        assert(commands.take(k).last() == commands[k - 1]);
        let p = run(initial_pass(material_state), commands.take(k - 1), 0, registry)->Ok_0;
        assert(balance(commands.take(k)) >= 0);
        lemma_step_balance(p, commands[k - 1], (k - 1) as usize, registry);
    }
}

/// A command sequence in which no pop comes before its matching push is
/// interpreted without a stack underflow.
pub proof fn lemma_balanced_commands_complete<P: Copy>(
    commands: Seq<TurtleCommand<P>>,
    material_state: MaterialState,
    registry: Seq<RegisteredPrimitive>,
)
    requires
        commands.len() <= usize::MAX,
        no_unmatched_pop(commands, commands.len() as int),
    ensures
        interpretation(commands, material_state, registry) is Ok,
{
    lemma_balanced_prefix(commands, material_state, registry, commands.len() as int);
    assert(commands.take(commands.len() as int) =~= commands);
}

/// The first pop without a matching push fails the whole pass, at exactly its
/// position.
pub proof fn lemma_unmatched_pop_fails_there<P: Copy>(
    commands: Seq<TurtleCommand<P>>,
    material_state: MaterialState,
    registry: Seq<RegisteredPrimitive>,
    n: int,
)
    requires
        commands.len() <= usize::MAX,
        0 <= n < commands.len(),
        no_unmatched_pop(commands, n),
        balance(commands.take(n + 1)) < 0,
    ensures
        interpretation(commands, material_state, registry) == Err::<Pass<P>, usize>(n as usize),
{
    let start = initial_pass::<P>(material_state);
    lemma_balanced_prefix(commands, material_state, registry, n);
    assert(commands.take(n + 1).drop_last() =~= commands.take(n));
    assert(commands.take(n + 1).last() == commands[n]);
    let p = run(start, commands.take(n), 0, registry)->Ok_0;
    assert(commands[n] is PopFromStack);
    assert(p.stack.len() == 0);
    assert(step(p, commands[n], n as usize, registry) is None);
    assert(run(start, commands.take(n + 1), 0, registry) == Err::<Pass<P>, usize>(n as usize));
    lemma_run_failure_persists(start, commands, 0, registry, n + 1);
}

/// The pass state while skipping: `p` with the skip counter set to `depth`.
pub open spec fn skipping<P>(p: Pass<P>, depth: int) -> Pass<P> {
    with_state(p, TurtleState { ignoring_branch_depth: depth as usize, ..p.state })
}

proof fn lemma_skipping_prefix<P: Copy>(
    p: Pass<P>,
    skipped: Seq<TurtleCommand<P>>,
    first: int,
    registry: Seq<RegisteredPrimitive>,
    k: int,
)
    requires
        p.state.ignoring_branch_depth == 0,
        0 <= k <= skipped.len(),
        skipped.len() + 2 < usize::MAX,
        no_unmatched_pop(skipped, k),
    ensures
        run(p, seq![TurtleCommand::IgnoreRemainingBranch] + skipped.take(k), first, registry)
            == Ok::<Pass<P>, usize>(skipping(p, 1 + balance(skipped.take(k)))),
    decreases k,
{
    let head = seq![TurtleCommand::<P>::IgnoreRemainingBranch];
    if k == 0 {
        reveal_with_fuel(run, 2);
        assert(skipped.take(0) =~= Seq::<TurtleCommand<P>>::empty());
        assert(head + skipped.take(0) =~= head);
        assert(head.drop_last() =~= Seq::<TurtleCommand<P>>::empty());
        assert(skipping(p, 1) == with_state(
            p,
            TurtleState { ignoring_branch_depth: 1, ..p.state },
        ));
    } else {
        lemma_skipping_prefix(p, skipped, first, registry, k - 1);
        assert((head + skipped.take(k)).drop_last() =~= head + skipped.take(k - 1));
        assert((head + skipped.take(k)).last() == skipped[k - 1]);
        assert(skipped.take(k).drop_last() =~= skipped.take(k - 1));
        assert(skipped.take(k).last() == skipped[k - 1]);
        assert(balance(skipped.take(k)) >= 0);
        assert(balance(skipped.take(k - 1)) >= 0);
        assert(balance(skipped.take(k - 1)) <= k - 1) by {
            lemma_balance_bounded(skipped.take(k - 1));
        }
    }
}

proof fn lemma_balance_bounded<P>(commands: Seq<TurtleCommand<P>>)
    ensures
        balance(commands) <= commands.len(),
    decreases commands.len(),
{
    if commands.len() > 0 {
        lemma_balance_bounded(commands.drop_last());
    }
}

/// Skipping is transparent: after `IgnoreRemainingBranch`, a stretch of
/// commands in which every pop matches a push inside it, and the pop that
/// closes the branch, the pass is exactly what that closing pop alone would
/// have made of it. The skipped commands place nothing, add no frame, report
/// nothing and change no state.
pub proof fn lemma_skipped_branch_leaves_no_trace<P: Copy>(
    p: Pass<P>,
    skipped: Seq<TurtleCommand<P>>,
    first: int,
    registry: Seq<RegisteredPrimitive>,
)
    requires
        p.state.ignoring_branch_depth == 0,
        skipped.len() + 2 < usize::MAX,
        no_unmatched_pop(skipped, skipped.len() as int),
        balance(skipped) == 0,
    ensures
        run(
            p,
            seq![TurtleCommand::IgnoreRemainingBranch] + skipped + seq![TurtleCommand::PopFromStack],
            first,
            registry,
        ) == run(p, seq![TurtleCommand::PopFromStack], first + 1 + skipped.len(), registry),
{
    let head = seq![TurtleCommand::<P>::IgnoreRemainingBranch];
    let tail = seq![TurtleCommand::<P>::PopFromStack];
    let all = head + skipped + tail;
    lemma_skipping_prefix(p, skipped, first, registry, skipped.len() as int);
    assert(skipped.take(skipped.len() as int) =~= skipped);
    assert(all.drop_last() =~= head + skipped);
    assert(all.last() == TurtleCommand::<P>::PopFromStack);
    assert(tail.drop_last() =~= Seq::<TurtleCommand<P>>::empty());
    reveal_with_fuel(run, 2);
    let q = skipping(p, 1);
    let pos = (first + skipped.len() + 1) as usize;
    assert(apply(q, TurtleCommand::PopFromStack, pos, registry) == apply(
        p,
        TurtleCommand::PopFromStack,
        pos,
        registry,
    ));
}

/// A cylinder without a diameter of its own takes the default that was set
/// just before it; one with its own diameter keeps it.
pub proof fn lemma_default_diameter_scoping<P: Copy>(
    p: Pass<P>,
    d: SetDefaultCylinderDiameter<P>,
    c: AddCylinder<P>,
    first: int,
    registry: Seq<RegisteredPrimitive>,
)
    requires
        p.state.ignoring_branch_depth == 0,
    ensures
        run(
            p,
            seq![
                TurtleCommand::SetDefaultCylinderDiameter(d),
                TurtleCommand::AddCylinder(c),
            ],
            first,
            registry,
        ) matches Ok(q) && q.cylinders.len() == p.cylinders.len() + 1 && q.cylinders.last().diameter
            == if c.parameters@.len() > 1 {
            Some(c.parameters@[1])
        } else {
            Some(d.parameters@[0])
        },
{
    reveal_with_fuel(run, 3);
    let cmds = seq![
        TurtleCommand::SetDefaultCylinderDiameter(d),
        TurtleCommand::AddCylinder(c),
    ];
    assert(cmds.drop_last() =~= seq![TurtleCommand::SetDefaultCylinderDiameter(d)]);
    assert(cmds.drop_last().drop_last() =~= Seq::<TurtleCommand<P>>::empty());
}

proof fn lemma_step_keeps_base<P: Copy>(
    p: Pass<P>,
    c: TurtleCommand<P>,
    pos: usize,
    registry: Seq<RegisteredPrimitive>,
    base: Seq<TurtleState<P>>,
)
    requires
        stack_settled(p),
        p.state.ignoring_branch_depth < usize::MAX,
        p.stack.len() >= base.len(),
        p.stack.subrange(0, base.len() as int) == base,
        p.stack.len() + skipped_depth(p.state) + stack_effect(c) >= base.len(),
    ensures
        step(p, c, pos, registry) matches Some(q) && {
            &&& q.stack.len() + skipped_depth(q.state) == p.stack.len() + skipped_depth(p.state)
                + stack_effect(c)
            &&& q.stack.len() >= base.len()
            &&& q.stack.subrange(0, base.len() as int) == base
            &&& stack_settled(q)
            &&& q.state.ignoring_branch_depth <= p.state.ignoring_branch_depth + 1
        },
{
    lemma_step_balance(p, c, pos, registry);
    let q = step(p, c, pos, registry)->Some_0;
    if q.stack.len() == p.stack.len() + 1 {
        assert(q.stack.subrange(0, base.len() as int) =~= p.stack.subrange(0, base.len() as int));
    } else if q.stack.len() + 1 == p.stack.len() {
        assert(q.stack.subrange(0, base.len() as int) =~= p.stack.subrange(0, base.len() as int));
    } else {
        assert(q.stack == p.stack);
    }
}

proof fn lemma_branch_prefix<P: Copy>(
    p: Pass<P>,
    inner: Seq<TurtleCommand<P>>,
    first: int,
    registry: Seq<RegisteredPrimitive>,
    k: int,
)
    requires
        p.state.ignoring_branch_depth == 0,
        stack_settled(p),
        0 <= k <= inner.len(),
        inner.len() + 2 < usize::MAX,
        no_unmatched_pop(inner, k),
    ensures
        run(p, seq![TurtleCommand::PushToStack] + inner.take(k), first, registry) matches Ok(q) && {
            &&& q.stack.len() + skipped_depth(q.state) == p.stack.len() + 1 + balance(inner.take(k))
            &&& q.stack.len() >= p.stack.len() + 1
            &&& q.stack.subrange(0, p.stack.len() as int + 1) == p.stack.push(p.state)
            &&& stack_settled(q)
            &&& q.state.ignoring_branch_depth <= k
        },
    decreases k,
{
    let head = seq![TurtleCommand::<P>::PushToStack];
    let base = p.stack.push(p.state);
    if k == 0 {
        reveal_with_fuel(run, 2);
        assert(inner.take(0) =~= Seq::<TurtleCommand<P>>::empty());
        assert(head + inner.take(0) =~= head);
        assert(head.drop_last() =~= Seq::<TurtleCommand<P>>::empty());
        assert(base.subrange(0, base.len() as int) =~= base);
        assert(stack_settled(Pass { stack: base, ..p })) by {
            assert(forall|j: int| 0 <= j < p.stack.len() ==> base[j] == p.stack[j]);
        }
    } else {
        lemma_branch_prefix(p, inner, first, registry, k - 1);
        assert((head + inner.take(k)).drop_last() =~= head + inner.take(k - 1));
        assert((head + inner.take(k)).last() == inner[k - 1]);
        assert(inner.take(k).drop_last() =~= inner.take(k - 1));
        assert(inner.take(k).last() == inner[k - 1]);
        assert(balance(inner.take(k)) >= 0);
        let q = run(p, head + inner.take(k - 1), first, registry)->Ok_0;
        lemma_step_keeps_base(q, inner[k - 1], (first + k) as usize, registry, base);
    }
}

/// A push and the pop that matches it give the turtle back the state it had
/// at the push, whatever the branch between them did (including a skipped
/// rest of the branch), and leave the saved states as they were.
pub proof fn lemma_pop_restores_pushed_state<P: Copy>(
    p: Pass<P>,
    inner: Seq<TurtleCommand<P>>,
    first: int,
    registry: Seq<RegisteredPrimitive>,
)
    requires
        p.state.ignoring_branch_depth == 0,
        stack_settled(p),
        inner.len() + 2 < usize::MAX,
        no_unmatched_pop(inner, inner.len() as int),
        balance(inner) == 0,
    ensures
        run(
            p,
            seq![TurtleCommand::PushToStack] + inner + seq![TurtleCommand::PopFromStack],
            first,
            registry,
        ) matches Ok(q) && q.state == p.state && q.stack == p.stack,
{
    let head = seq![TurtleCommand::<P>::PushToStack];
    let tail = seq![TurtleCommand::<P>::PopFromStack];
    let all = head + inner + tail;
    lemma_branch_prefix(p, inner, first, registry, inner.len() as int);
    assert(inner.take(inner.len() as int) =~= inner);
    assert(all.drop_last() =~= head + inner);
    assert(all.last() == TurtleCommand::<P>::PopFromStack);
    let q = run(p, head + inner, first, registry)->Ok_0;
    assert(q.stack =~= p.stack.push(p.state)) by {
        assert(q.stack.subrange(0, p.stack.len() as int + 1) =~= q.stack);
    }
    assert(p.stack.push(p.state).drop_last() =~= p.stack);
}

/// Two passes over equal commands, from equal material states, with equal
/// registries, are equal: the interpreter draws on nothing else.
pub proof fn lemma_interpretation_deterministic<P: Copy>(
    commands1: Seq<TurtleCommand<P>>,
    commands2: Seq<TurtleCommand<P>>,
    material_state1: MaterialState,
    material_state2: MaterialState,
    registry1: Seq<RegisteredPrimitive>,
    registry2: Seq<RegisteredPrimitive>,
)
    requires
        commands1 == commands2,
        material_state1 == material_state2,
        registry1 == registry2,
    ensures
        interpretation(commands1, material_state1, registry1) == interpretation(
            commands2,
            material_state2,
            registry2,
        ),
{
}

/// The material state selects a material of the list.
pub open spec fn selects_listed(m: MaterialState) -> bool {
    m.material_mode matches MaterialMode::MaterialIndex(i) && i < m.material_count
}

/// Every material command names an index of a list of `count` materials.
pub open spec fn explicit_material_indices<P>(commands: Seq<TurtleCommand<P>>, count: usize) -> bool {
    forall|k: int|
        0 <= k < commands.len() ==> (#[trigger] commands[k] matches TurtleCommand::SetMaterialIndex(
            s,
        ) ==> s.parameters@.len() > 0 && s.parameters@[0] < count)
}

/// No instance of the pass draws a random material.
pub open spec fn no_random_material<P>(p: Pass<P>, count: usize) -> bool {
    &&& selects_listed(p.state.material_state)
    &&& p.state.material_state.material_count == count
    &&& forall|j: int|
        0 <= j < p.stack.len() ==> selects_listed(#[trigger] p.stack[j].material_state)
            && p.stack[j].material_state.material_count == count
    &&& forall|j: int| 0 <= j < p.cylinders.len() ==> #[trigger] p.cylinders[j].material is Listed
    &&& forall|j: int|
        0 <= j < p.primitives.len() ==> !(#[trigger] p.primitives[j].material is Random)
}

proof fn lemma_step_keeps_listed<P: Copy>(
    p: Pass<P>,
    c: TurtleCommand<P>,
    pos: usize,
    registry: Seq<RegisteredPrimitive>,
    count: usize,
)
    requires
        no_random_material(p, count),
        c matches TurtleCommand::SetMaterialIndex(s) ==> s.parameters@.len() > 0
            && s.parameters@[0] < count,
    ensures
        step(p, c, pos, registry) matches Some(q) ==> no_random_material(q, count),
{
    if let Some(q) = step(p, c, pos, registry) {
        if q.stack.len() == p.stack.len() + 1 {
            assert(forall|k: int| 0 <= k < p.stack.len() ==> q.stack[k] == p.stack[k]);
        }
        if q.stack.len() + 1 == p.stack.len() {
            assert(forall|k: int| 0 <= k < q.stack.len() ==> q.stack[k] == p.stack[k]);
        }
        if q.cylinders.len() == p.cylinders.len() + 1 {
            assert(forall|k: int| 0 <= k < p.cylinders.len() ==> q.cylinders[k] == p.cylinders[k]);
        }
        if q.primitives.len() == p.primitives.len() + 1 {
            assert(forall|k: int| 0 <= k < p.primitives.len() ==> q.primitives[k] == p.primitives[k]);
        }
    }
}

proof fn lemma_listed_prefix<P: Copy>(
    commands: Seq<TurtleCommand<P>>,
    material_state: MaterialState,
    registry: Seq<RegisteredPrimitive>,
    k: int,
)
    requires
        0 <= k <= commands.len(),
        selects_listed(material_state),
        explicit_material_indices(commands, material_state.material_count),
    ensures
        run(initial_pass(material_state), commands.take(k), 0, registry) matches Ok(p)
            ==> no_random_material(p, material_state.material_count),
    decreases k,
{
    if k == 0 {
        assert(commands.take(0) =~= Seq::<TurtleCommand<P>>::empty());
    } else {
        lemma_listed_prefix(commands, material_state, registry, k - 1);
        assert(commands.take(k).drop_last() =~= commands.take(k - 1));
        assert(commands.take(k).last() == commands[k - 1]);
        if let Ok(p) = run(initial_pass(material_state), commands.take(k - 1), 0, registry) {
            lemma_step_keeps_listed(
                p,
                commands[k - 1],
                (k - 1) as usize,
                registry,
                material_state.material_count,
            );
        }
    }
}

/// With a material list, a starting index inside it and only explicit indices
/// inside it, no cylinder and no primitive draws a random material: every one
/// is drawn with a material of the list (or a primitive's own).
pub proof fn lemma_explicit_indices_never_random<P: Copy>(
    commands: Seq<TurtleCommand<P>>,
    material_state: MaterialState,
    registry: Seq<RegisteredPrimitive>,
)
    requires
        selects_listed(material_state),
        explicit_material_indices(commands, material_state.material_count),
    ensures
        interpretation(commands, material_state, registry) matches Ok(p) ==> {
            &&& forall|j: int| 0 <= j < p.cylinders.len() ==> #[trigger] p.cylinders[j].material is Listed
            &&& forall|j: int|
                0 <= j < p.primitives.len() ==> !(#[trigger] p.primitives[j].material is Random)
        },
{
    lemma_listed_prefix(commands, material_state, registry, commands.len() as int);
    assert(commands.take(commands.len() as int) =~= commands);
}

} // verus!
