//! The turtle interpreter.
//!
//! One pass over a command sequence yields a tree of coordinate frames and the
//! instances placed in them. Frame 0 is the turtle's starting frame; node `k`
//! of `frames` defines frame `k + 1` as one geometric operation applied to its
//! parent frame. Evaluating the frames in order therefore never needs a frame
//! that has not been evaluated yet. Push and pop only move the turtle between
//! frames of this tree, which is what makes a saved state cheap to restore.
use vstd::prelude::*;
use crate::command::TurtleCommand;
use crate::material::{MaterialChoice, MaterialState};

verus! {

/// The axis of a rotation, in the turtle's own frame.
#[derive(Clone, Copy, Debug, PartialEq, Eq, Structural)]
pub enum Axis {
    /// Around the up axis.
    Yaw,
    /// Around the right axis.
    Pitch,
    /// Around the heading.
    Roll,
}

/// One geometric operation that turns a parent frame into a child frame.
#[derive(Clone, Copy, Debug, PartialEq)]
pub enum FrameOp<P> {
    /// Advance along the heading; `None` is the unit length.
    MoveForward(Option<P>),
    /// Advance past a cylinder just placed (`None`: the unit length), then
    /// bend the heading towards the tropism when one is configured.
    Grow(Option<P>),
    /// Rotate around `axis` by `angle` degrees (`None`: 90), or by minus that
    /// angle when `negative` is set.
    Rotate { axis: Axis, angle: Option<P>, negative: bool },
    /// A half turn around the up axis.
    Yaw180,
    /// Keep the heading and take the up vector of the starting frame again.
    ToUpPlane,
}

/// Frame `k + 1` for the `k`-th node: `op` applied to frame `parent`.
#[derive(Clone, Copy, Debug, PartialEq)]
pub struct FrameNode<P> {
    pub parent: usize,
    pub op: FrameOp<P>,
}

/// A cylinder placed in a frame: its length and diameter as the command gave
/// them or as the default supplied (`None`: the unit length, the starting
/// default diameter).
#[derive(Clone, Copy, Debug, PartialEq)]
pub struct CylinderInstance<P> {
    pub frame: usize,
    pub length: Option<P>,
    pub diameter: Option<P>,
    pub material: MaterialChoice,
}

/// A registered primitive placed in a frame, keyed by the iteration that the
/// command names.
#[derive(Clone, Copy, Debug, PartialEq, Eq, Structural)]
pub struct PrimitiveInstance {
    pub frame: usize,
    /// Position of the primitive in the registry.
    pub primitive: usize,
    pub iteration: usize,
    pub material: MaterialChoice,
}

/// A command that was skipped without effect, by its position.
#[derive(Clone, Copy, Debug, PartialEq, Eq, Structural)]
pub enum Diagnostic {
    /// A primitive command naming no registered primitive.
    UnregisteredPrimitive(usize),
    /// A primitive command whose parameters are not a name and an iteration.
    MalformedPrimitive(usize),
    /// A known command that the interpreter does not act on.
    Unhandled(usize),
    /// A symbol outside the alphabet.
    Unknown(usize),
}

/// A primitive that commands may place by name.
#[derive(Clone, Debug)]
pub struct RegisteredPrimitive {
    pub name: String,
    /// Whether it carries a fixed material of its own.
    pub has_material: bool,
}

/// Why a pass could not be completed.
#[derive(Clone, Copy, Debug, PartialEq, Eq, Structural)]
pub enum InterpretError {
    /// The command at this position pops an empty stack.
    StackUnderflow(usize),
}

/// The turtle's register, saved whole by a push and restored whole by a pop.
#[derive(Clone, Copy, Debug)]
pub struct TurtleState<P> {
    pub frame: usize,
    pub material_state: MaterialState,
    /// `None`: the starting default diameter.
    pub default_cylinder_diameter: Option<P>,
    /// Above 0 while the rest of a branch is being skipped: the number of
    /// branches open since the skipping began, plus one.
    pub ignoring_branch_depth: usize,
}

/// A pass in progress, as a mathematical value.
pub struct Pass<P> {
    pub state: TurtleState<P>,
    /// The saved states, the most recent last.
    pub stack: Seq<TurtleState<P>>,
    pub frames: Seq<FrameNode<P>>,
    pub cylinders: Seq<CylinderInstance<P>>,
    pub primitives: Seq<PrimitiveInstance>,
    pub diagnostics: Seq<Diagnostic>,
}

pub open spec fn initial_state<P>(material_state: MaterialState) -> TurtleState<P> {
    TurtleState {
        frame: 0,
        material_state,
        default_cylinder_diameter: None,
        ignoring_branch_depth: 0,
    }
}

pub open spec fn initial_pass<P>(material_state: MaterialState) -> Pass<P> {
    Pass {
        state: initial_state(material_state),
        stack: Seq::empty(),
        frames: Seq::empty(),
        cylinders: Seq::empty(),
        primitives: Seq::empty(),
        diagnostics: Seq::empty(),
    }
}

/// Appends a frame derived from the current one and moves the turtle there.
pub open spec fn add_frame<P>(p: Pass<P>, op: FrameOp<P>) -> Pass<P> {
    Pass {
        frames: p.frames.push(FrameNode { parent: p.state.frame, op }),
        state: TurtleState { frame: (p.frames.len() + 1) as usize, ..p.state },
        ..p
    }
}

pub open spec fn add_diagnostic<P>(p: Pass<P>, d: Diagnostic) -> Pass<P> {
    Pass { diagnostics: p.diagnostics.push(d), ..p }
}

pub open spec fn with_state<P>(p: Pass<P>, state: TurtleState<P>) -> Pass<P> {
    Pass { state, ..p }
}

/// The first registered primitive called `name`.
pub open spec fn lookup_primitive(registry: Seq<RegisteredPrimitive>, name: Seq<char>) -> Option<int> {
    if exists|k: int|
        0 <= k < registry.len() && registry[k].name@ == name && (forall|j: int|
            0 <= j < k ==> registry[j].name@ != name) {
        Some(
            choose|k: int|
                0 <= k < registry.len() && registry[k].name@ == name && (forall|j: int|
                    0 <= j < k ==> registry[j].name@ != name),
        )
    } else {
        None
    }
}

pub open spec fn rotate<P>(p: Pass<P>, axis: Axis, angle: Option<P>, negative: bool) -> Pass<P> {
    add_frame(p, FrameOp::Rotate { axis, angle, negative })
}

/// The effect of one command that is not skipped; `None` when it pops an
/// empty stack.
pub open spec fn apply<P: Copy>(
    p: Pass<P>,
    c: TurtleCommand<P>,
    pos: usize,
    registry: Seq<RegisteredPrimitive>,
) -> Option<Pass<P>> {
    match c {
        TurtleCommand::AddCylinder(cylinder) => {
            let instance = CylinderInstance {
                frame: p.state.frame,
                length: cylinder.length_spec(),
                diameter: cylinder.diameter_spec(p.state.default_cylinder_diameter),
                material: p.state.material_state.select_spec(),
            };
            Some(
                add_frame(
                    Pass { cylinders: p.cylinders.push(instance), ..p },
                    FrameOp::Grow(cylinder.length_spec()),
                ),
            )
        },
        TurtleCommand::MoveForward(m) => Some(add_frame(p, FrameOp::MoveForward(m.length_spec()))),
        TurtleCommand::RotateYaw(a) => Some(rotate(p, Axis::Yaw, a.angle_spec(), false)),
        TurtleCommand::RotateYawNegative(a) => Some(rotate(p, Axis::Yaw, a.angle_spec(), true)),
        TurtleCommand::RotatePitch(a) => Some(rotate(p, Axis::Pitch, a.angle_spec(), false)),
        TurtleCommand::RotatePitchNegative(a) => Some(rotate(p, Axis::Pitch, a.angle_spec(), true)),
        TurtleCommand::RotateRoll(a) => Some(rotate(p, Axis::Roll, a.angle_spec(), false)),
        TurtleCommand::RotateRollNegative(a) => Some(rotate(p, Axis::Roll, a.angle_spec(), true)),
        TurtleCommand::Yaw180 => Some(add_frame(p, FrameOp::Yaw180)),
        TurtleCommand::PushToStack => Some(Pass { stack: p.stack.push(p.state), ..p }),
        TurtleCommand::PopFromStack => if p.stack.len() == 0 {
            None
        } else {
            Some(Pass { state: p.stack.last(), stack: p.stack.drop_last(), ..p })
        },
        TurtleCommand::ToUpPlane => Some(add_frame(p, FrameOp::ToUpPlane)),
        TurtleCommand::SetDefaultCylinderDiameter(d) => Some(
            with_state(
                p,
                TurtleState { default_cylinder_diameter: Some(d.diameter_spec()), ..p.state },
            ),
        ),
        TurtleCommand::SetMaterialIndex(s) => Some(
            with_state(
                p,
                TurtleState {
                    material_state: p.state.material_state.set_index_spec(s.material_index_spec()),
                    ..p.state
                },
            ),
        ),
        TurtleCommand::IgnoreRemainingBranch => Some(
            with_state(p, TurtleState { ignoring_branch_depth: 1, ..p.state }),
        ),
        TurtleCommand::AddPredefinedPrimitive(pc) => Some(
            if !pc.well_formed() {
                add_diagnostic(p, Diagnostic::MalformedPrimitive(pos))
            } else {
                match lookup_primitive(registry, pc.name_spec()) {
                    None => add_diagnostic(p, Diagnostic::UnregisteredPrimitive(pos)),
                    Some(k) => {
                        let instance = PrimitiveInstance {
                            frame: p.state.frame,
                            primitive: k as usize,
                            iteration: pc.iteration_spec(),
                            material: if registry[k].has_material {
                                MaterialChoice::Own
                            } else {
                                p.state.material_state.select_spec()
                            },
                        };
                        Pass { primitives: p.primitives.push(instance), ..p }
                    },
                }
            },
        ),
        TurtleCommand::Unknown => Some(add_diagnostic(p, Diagnostic::Unknown(pos))),
        _ => Some(add_diagnostic(p, Diagnostic::Unhandled(pos))),
    }
}

/// The effect of one command. While a branch is skipped only pushes and pops
/// count, and the pop that closes the skipped branch acts as a pop again.
pub open spec fn step<P: Copy>(
    p: Pass<P>,
    c: TurtleCommand<P>,
    pos: usize,
    registry: Seq<RegisteredPrimitive>,
) -> Option<Pass<P>> {
    let depth = p.state.ignoring_branch_depth;
    if depth > 0 {
        match c {
            TurtleCommand::PushToStack => Some(
                with_state(p, TurtleState { ignoring_branch_depth: (depth + 1) as usize, ..p.state }),
            ),
            TurtleCommand::PopFromStack => if depth > 1 {
                Some(
                    with_state(
                        p,
                        TurtleState { ignoring_branch_depth: (depth - 1) as usize, ..p.state },
                    ),
                )
            } else {
                apply(p, c, pos, registry)
            },
            _ => Some(p),
        }
    } else {
        apply(p, c, pos, registry)
    }
}

/// The pass after `commands`, started from `start` with the first command at
/// position `first`; `Err(n)` when the command at position `n` pops an empty
/// stack.
pub open spec fn run<P: Copy>(
    start: Pass<P>,
    commands: Seq<TurtleCommand<P>>,
    first: int,
    registry: Seq<RegisteredPrimitive>,
) -> Result<Pass<P>, usize>
    decreases commands.len(),
{
    if commands.len() == 0 {
        Ok(start)
    } else {
        let pos = (first + commands.len() - 1) as usize;
        match run(start, commands.drop_last(), first, registry) {
            Err(n) => Err(n),
            Ok(p) => match step(p, commands.last(), pos, registry) {
                Some(q) => Ok(q),
                None => Err(pos),
            },
        }
    }
}

/// A whole pass from the starting state.
pub open spec fn interpretation<P: Copy>(
    commands: Seq<TurtleCommand<P>>,
    material_state: MaterialState,
    registry: Seq<RegisteredPrimitive>,
) -> Result<Pass<P>, usize> {
    run(initial_pass(material_state), commands, 0, registry)
}

/// Every frame that a pass refers to exists, and every node refers to an
/// earlier frame.
pub open spec fn frames_closed<P>(p: Pass<P>) -> bool {
    let n = p.frames.len();
    &&& p.state.frame <= n
    &&& forall|j: int| 0 <= j < p.stack.len() ==> #[trigger] p.stack[j].frame <= n
    &&& forall|k: int| 0 <= k < n ==> #[trigger] p.frames[k].parent <= k
    &&& forall|k: int| 0 <= k < p.cylinders.len() ==> #[trigger] p.cylinders[k].frame <= n
    &&& forall|k: int| 0 <= k < p.primitives.len() ==> #[trigger] p.primitives[k].frame <= n
}

/// The outcome of a completed pass.
#[derive(Clone, Debug, PartialEq)]
pub struct TurtleInterpretation<P> {
    pub frames: Vec<FrameNode<P>>,
    pub cylinder_instances: Vec<CylinderInstance<P>>,
    pub primitive_instances: Vec<PrimitiveInstance>,
    pub diagnostics: Vec<Diagnostic>,
}

impl<P> TurtleInterpretation<P> {
    /// Holds exactly what the finished pass `p` produced.
    pub open spec fn holds(&self, p: Pass<P>) -> bool {
        &&& self.frames@ == p.frames
        &&& self.cylinder_instances@ == p.cylinders
        &&& self.primitive_instances@ == p.primitives
        &&& self.diagnostics@ == p.diagnostics
    }
}

struct TurtleMachine<P> {
    state: TurtleState<P>,
    stack: Vec<TurtleState<P>>,
    frames: Vec<FrameNode<P>>,
    cylinders: Vec<CylinderInstance<P>>,
    primitives: Vec<PrimitiveInstance>,
    diagnostics: Vec<Diagnostic>,
}

impl<P: Copy> TurtleMachine<P> {
    spec fn pass(&self) -> Pass<P> {
        Pass {
            state: self.state,
            stack: self.stack@,
            frames: self.frames@,
            cylinders: self.cylinders@,
            primitives: self.primitives@,
            diagnostics: self.diagnostics@,
        }
    }

    fn new(material_state: MaterialState) -> (r: Self)
        ensures
            r.pass() == initial_pass::<P>(material_state),
    {
        let r = TurtleMachine {
            state: TurtleState {
                frame: 0,
                material_state,
                default_cylinder_diameter: None,
                ignoring_branch_depth: 0,
            },
            stack: Vec::new(),
            frames: Vec::new(),
            cylinders: Vec::new(),
            primitives: Vec::new(),
            diagnostics: Vec::new(),
        };
        assert(r.pass().stack =~= Seq::<TurtleState<P>>::empty());
        r
    }

    fn add_frame(&mut self, op: FrameOp<P>)
        ensures
            final(self).pass() == add_frame(old(self).pass(), op),
    {
        self.frames.push(FrameNode { parent: self.state.frame, op });
        self.state.frame = self.frames.len();
    }

    fn add_diagnostic(&mut self, d: Diagnostic)
        ensures
            final(self).pass() == add_diagnostic(old(self).pass(), d),
    {
        self.diagnostics.push(d);
    }

    fn apply(
        &mut self,
        c: &TurtleCommand<P>,
        pos: usize,
        registry: &Vec<RegisteredPrimitive>,
    ) -> (ok: bool)
        ensures
            match apply(old(self).pass(), *c, pos, registry@) {
                Some(q) => ok && final(self).pass() == q,
                None => !ok,
            },
    {
        match c {
            TurtleCommand::AddCylinder(cylinder) => {
                let length = cylinder.length();
                let instance = CylinderInstance {
                    frame: self.state.frame,
                    length,
                    diameter: cylinder.diameter(self.state.default_cylinder_diameter),
                    material: self.state.material_state.get_material(),
                };
                self.cylinders.push(instance);
                self.add_frame(FrameOp::Grow(length));
            },
            TurtleCommand::MoveForward(m) => {
                self.add_frame(FrameOp::MoveForward(m.length()));
            },
            TurtleCommand::RotateYaw(a) => {
                self.add_frame(FrameOp::Rotate { axis: Axis::Yaw, angle: a.angle(), negative: false });
            },
            TurtleCommand::RotateYawNegative(a) => {
                self.add_frame(FrameOp::Rotate { axis: Axis::Yaw, angle: a.angle(), negative: true });
            },
            TurtleCommand::RotatePitch(a) => {
                self.add_frame(
                    FrameOp::Rotate { axis: Axis::Pitch, angle: a.angle(), negative: false },
                );
            },
            TurtleCommand::RotatePitchNegative(a) => {
                self.add_frame(
                    FrameOp::Rotate { axis: Axis::Pitch, angle: a.angle(), negative: true },
                );
            },
            TurtleCommand::RotateRoll(a) => {
                self.add_frame(
                    FrameOp::Rotate { axis: Axis::Roll, angle: a.angle(), negative: false },
                );
            },
            TurtleCommand::RotateRollNegative(a) => {
                self.add_frame(FrameOp::Rotate { axis: Axis::Roll, angle: a.angle(), negative: true });
            },
            TurtleCommand::Yaw180 => {
                self.add_frame(FrameOp::Yaw180);
            },
            TurtleCommand::PushToStack => {
                self.stack.push(self.state);
            },
            TurtleCommand::PopFromStack => {
                match self.stack.pop() {
                    Some(saved) => {
                        self.state = saved;
                    },
                    None => {
                        return false;
                    },
                }
            },
            TurtleCommand::ToUpPlane => {
                self.add_frame(FrameOp::ToUpPlane);
            },
            TurtleCommand::SetDefaultCylinderDiameter(d) => {
                self.state.default_cylinder_diameter = Some(d.radius());
            },
            TurtleCommand::SetMaterialIndex(s) => {
                self.state.material_state.set_index(s.material_index());
            },
            TurtleCommand::IgnoreRemainingBranch => {
                self.state.ignoring_branch_depth = 1;
            },
            TurtleCommand::AddPredefinedPrimitive(pc) => {
                if !pc.is_well_formed() {
                    self.add_diagnostic(Diagnostic::MalformedPrimitive(pos));
                } else {
                    let name = pc.name_string().unwrap();
                    match find_primitive(registry, name) {
                        None => {
                            self.add_diagnostic(Diagnostic::UnregisteredPrimitive(pos));
                        },
                        Some(k) => {
                            let material = if registry[k].has_material {
                                MaterialChoice::Own
                            } else {
                                self.state.material_state.get_material()
                            };
                            let instance = PrimitiveInstance {
                                frame: self.state.frame,
                                primitive: k,
                                iteration: pc.iteration(),
                                material,
                            };
                            self.primitives.push(instance);
                        },
                    }
                }
            },
            TurtleCommand::Unknown => {
                self.add_diagnostic(Diagnostic::Unknown(pos));
            },
            TurtleCommand::BeginPrimitive(_)
            | TurtleCommand::EndPrimitive(_)
            | TurtleCommand::BeginPolygon
            | TurtleCommand::EndPolygon
            | TurtleCommand::MoveAlongEdge(_)
            | TurtleCommand::RecordVertex => {
                self.add_diagnostic(Diagnostic::Unhandled(pos));
            },
        }
        true
    }

    fn step(
        &mut self,
        c: &TurtleCommand<P>,
        pos: usize,
        registry: &Vec<RegisteredPrimitive>,
    ) -> (ok: bool)
        requires
            old(self).state.ignoring_branch_depth < usize::MAX,
        ensures
            match step(old(self).pass(), *c, pos, registry@) {
                Some(q) => ok && final(self).pass() == q,
                None => !ok,
            },
    {
        let depth = self.state.ignoring_branch_depth;
        if depth > 0 {
            match c {
                TurtleCommand::PushToStack => {
                    self.state.ignoring_branch_depth = depth + 1;
                    return true;
                },
                TurtleCommand::PopFromStack => {
                    if depth > 1 {
                        self.state.ignoring_branch_depth = depth - 1;
                        return true;
                    }
                },
                _ => {
                    return true;
                },
            }
        }
        self.apply(c, pos, registry)
    }
}

/// Finds the first registered primitive called `name`.
pub fn find_primitive(registry: &Vec<RegisteredPrimitive>, name: &String) -> (r: Option<usize>)
    ensures
        match lookup_primitive(registry@, name@) {
            Some(k) => r == Some(k as usize),
            None => r is None,
        },
        r matches Some(i) ==> lookup_primitive(registry@, name@) == Some(i as int),
{
    let mut i: usize = 0;
    while i < registry.len()
        invariant
            0 <= i <= registry@.len(),
            forall|j: int| 0 <= j < i ==> registry@[j].name@ != name@,
        decreases registry@.len() - i,
    {
        if registry[i].name == *name {
            let ghost k = choose|k: int|
                0 <= k < registry@.len() && registry@[k].name@ == name@ && (forall|j: int|
                    0 <= j < k ==> registry@[j].name@ != name@);
            assert(0 <= i < registry@.len() && registry@[i as int].name@ == name@ && (forall|
                j: int,
            |
                0 <= j < i ==> registry@[j].name@ != name@));
            assert(k == i) by {
                if k < i {
                    assert(registry@[k].name@ != name@);
                } else if k > i {
                    assert(registry@[i as int].name@ != name@);
                }
            }
            return Some(i);
        }
        i += 1;
    }
    None
}

/// No saved state is inside a skipped branch.
pub open spec fn stack_settled<P>(p: Pass<P>) -> bool {
    forall|j: int| 0 <= j < p.stack.len() ==> #[trigger] p.stack[j].ignoring_branch_depth == 0
}

proof fn lemma_step_keeps_shape<P: Copy>(
    p: Pass<P>,
    c: TurtleCommand<P>,
    pos: usize,
    registry: Seq<RegisteredPrimitive>,
)
    requires
        frames_closed(p),
        stack_settled(p),
        p.frames.len() < usize::MAX,
        p.state.ignoring_branch_depth < usize::MAX,
    ensures
        step(p, c, pos, registry) matches Some(q) ==> {
            &&& frames_closed(q)
            &&& stack_settled(q)
            &&& q.frames.len() <= p.frames.len() + 1
            &&& q.state.ignoring_branch_depth <= p.state.ignoring_branch_depth + 1
        },
{
    if let Some(q) = step(p, c, pos, registry) {
        if q.frames.len() == p.frames.len() + 1 {
            assert(forall|k: int| 0 <= k < p.frames.len() ==> q.frames[k] == p.frames[k]);
        } else {
            assert(q.frames == p.frames);
        }
        if q.stack.len() == p.stack.len() + 1 {
            assert(forall|k: int| 0 <= k < p.stack.len() ==> q.stack[k] == p.stack[k]);
        }
        if q.stack.len() + 1 == p.stack.len() {
            assert(forall|k: int| 0 <= k < q.stack.len() ==> q.stack[k] == p.stack[k]);
        }
        if q.cylinders.len() == p.cylinders.len() + 1 {
            assert(forall|k: int| 0 <= k < p.cylinders.len() ==> q.cylinders[k] == p.cylinders[k]);
        }
        if q.primitives.len() == p.primitives.len() + 1 {
            assert(forall|k: int| 0 <= k < p.primitives.len() ==> q.primitives[k] == p.primitives[k]);
        }
    }
}

/// A failure within the first `j` commands is the failure of the whole run.
pub proof fn lemma_run_failure_persists<P: Copy>(
    start: Pass<P>,
    commands: Seq<TurtleCommand<P>>,
    first: int,
    registry: Seq<RegisteredPrimitive>,
    j: int,
)
    requires
        0 <= j <= commands.len(),
        run(start, commands.take(j), first, registry) is Err,
    ensures
        run(start, commands, first, registry) == run(start, commands.take(j), first, registry),
    decreases commands.len(),
{
    if j == commands.len() {
        assert(commands.take(j) =~= commands);
    } else {
        assert(commands.drop_last().take(j) =~= commands.take(j));
        lemma_run_failure_persists(start, commands.drop_last(), first, registry, j);
    }
}

/// Interprets `commands` in one pass, from the starting frame with the given
/// material state, placing primitives from `primitives`.
pub fn interpret<P: Copy>(
    commands: &Vec<TurtleCommand<P>>,
    initial_material_state: MaterialState,
    primitives: &Vec<RegisteredPrimitive>,
) -> (r: Result<TurtleInterpretation<P>, InterpretError>)
    ensures
        match interpretation(commands@, initial_material_state, primitives@) {
            Ok(p) => r matches Ok(m) && m.holds(p) && frames_closed(p),
            Err(n) => r == Err::<TurtleInterpretation<P>, InterpretError>(
                InterpretError::StackUnderflow(n),
            ),
        },
{
    let mut machine = TurtleMachine::new(initial_material_state);
    let ghost start = initial_pass::<P>(initial_material_state);
    let mut i: usize = 0;
    proof {
        assert(commands@.take(0) =~= Seq::<TurtleCommand<P>>::empty());
    }
    while i < commands.len()
        invariant
            0 <= i <= commands@.len(),
            start == initial_pass::<P>(initial_material_state),
            run(start, commands@.take(i as int), 0, primitives@) == Ok::<Pass<P>, usize>(
                machine.pass(),
            ),
            frames_closed(machine.pass()),
            stack_settled(machine.pass()),
            machine.frames@.len() <= i,
            machine.state.ignoring_branch_depth <= i,
        decreases commands@.len() - i,
    {
        let ghost before = machine.pass();
        proof {
            assert(commands@.take(i + 1).drop_last() =~= commands@.take(i as int));
            lemma_step_keeps_shape(before, commands@[i as int], i, primitives@);
        }
        let ok = machine.step(&commands[i], i, primitives);
        if !ok {
            proof {
                assert(commands@.take(i + 1).last() == commands@[i as int]);
                assert(run(start, commands@.take(i + 1), 0, primitives@) == Err::<Pass<P>, usize>(i));
                lemma_run_failure_persists(start, commands@, 0, primitives@, i + 1);
            }
            return Err(InterpretError::StackUnderflow(i));
        }
        i += 1;
    }
    proof {
        assert(commands@.take(commands@.len() as int) =~= commands@);
    }
    Ok(
        TurtleInterpretation {
            frames: machine.frames,
            cylinder_instances: machine.cylinders,
            primitive_instances: machine.primitives,
            diagnostics: machine.diagnostics,
        },
    )
}

} // verus!
