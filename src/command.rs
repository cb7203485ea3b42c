//! The turtle's command alphabet.
//!
//! Numeric parameters (lengths, angles, diameters) are carried as an opaque
//! type `P`: the interpreter only moves them around, the geometry layer that
//! evaluates the result gives them meaning.
use vstd::prelude::*;

verus! {

/// `F(d, r)`: places a cylinder of length `d` and diameter `r` along the heading,
/// then moves the turtle to the cylinder's far end.
#[derive(Clone, Debug)]
pub struct AddCylinder<P> {
    pub parameters: Vec<P>,
}

impl<P: Copy> AddCylinder<P> {
    pub open spec fn length_spec(&self) -> Option<P> {
        if self.parameters@.len() > 0 {
            Some(self.parameters@[0])
        } else {
            None
        }
    }

    pub open spec fn diameter_spec(&self, default_diameter: Option<P>) -> Option<P> {
        if self.parameters@.len() > 1 {
            Some(self.parameters@[1])
        } else {
            default_diameter
        }
    }

    /// The explicit length, or `None` for the unit length.
    pub fn length(&self) -> (r: Option<P>)
        ensures
            r == self.length_spec(),
    {
        if self.parameters.len() > 0 {
            Some(self.parameters[0])
        } else {
            None
        }
    }

    /// The explicit diameter, else `default_diameter`.
    pub fn diameter(&self, default_diameter: Option<P>) -> (r: Option<P>)
        ensures
            r == self.diameter_spec(default_diameter),
    {
        if self.parameters.len() > 1 {
            Some(self.parameters[1])
        } else {
            default_diameter
        }
    }
}

/// `f(d)`: moves the turtle by `d` along the heading without drawing.
#[derive(Clone, Debug)]
pub struct MoveForward<P> {
    pub parameters: Vec<P>,
}

impl<P: Copy> MoveForward<P> {
    pub open spec fn length_spec(&self) -> Option<P> {
        if self.parameters@.len() > 0 {
            Some(self.parameters@[0])
        } else {
            None
        }
    }

    /// The explicit length, or `None` for the unit length.
    pub fn length(&self) -> (r: Option<P>)
        ensures
            r == self.length_spec(),
    {
        if self.parameters.len() > 0 {
            Some(self.parameters[0])
        } else {
            None
        }
    }
}

/// `+(a)`, `&(a)`, `/(a)` and their negative forms: a rotation by `a` degrees.
#[derive(Clone, Debug)]
pub struct AngleCommand<P> {
    pub parameters: Vec<P>,
}

impl<P: Copy> AngleCommand<P> {
    pub open spec fn angle_spec(&self) -> Option<P> {
        if self.parameters@.len() > 0 {
            Some(self.parameters@[0])
        } else {
            None
        }
    }

    /// The explicit angle in degrees, or `None` for a right angle.
    pub fn angle(&self) -> (r: Option<P>)
        ensures
            r == self.angle_spec(),
    {
        if self.parameters.len() > 0 {
            Some(self.parameters[0])
        } else {
            None
        }
    }
}

/// `!(d)`: the diameter used by later cylinders that give none of their own.
#[derive(Clone, Debug)]
pub struct SetDefaultCylinderDiameter<P> {
    pub parameters: [P; 1],
}

impl<P: Copy> SetDefaultCylinderDiameter<P> {
    pub open spec fn diameter_spec(&self) -> P {
        self.parameters@[0]
    }

    /// The new default diameter.
    pub fn radius(&self) -> (r: P)
        ensures
            r == self.diameter_spec(),
    {
        self.parameters[0]
    }
}

/// One parameter of a primitive command: a primitive's name or an iteration.
#[derive(Clone, Debug)]
pub enum PrimitiveCommandParameter {
    String(String),
    Usize(usize),
}

/// `~(name, iteration)`: places a registered primitive at the turtle's frame.
#[derive(Clone, Debug)]
pub struct PrimitiveCommand {
    pub parameters: Vec<PrimitiveCommandParameter>,
}

impl PrimitiveCommand {
    /// The first parameter is a name and the second, if any, an iteration.
    pub open spec fn well_formed(&self) -> bool {
        &&& self.parameters@.len() > 0
        &&& self.parameters@[0] is String
        &&& (self.parameters@.len() > 1 ==> self.parameters@[1] is Usize)
    }

    pub open spec fn name_spec(&self) -> Seq<char>
        recommends
            self.well_formed(),
    {
        self.parameters@[0]->String_0@
    }

    pub open spec fn iteration_spec(&self) -> usize
        recommends
            self.well_formed(),
    {
        if self.parameters@.len() > 1 {
            self.parameters@[1]->Usize_0
        } else {
            0
        }
    }

    pub fn is_well_formed(&self) -> (r: bool)
        ensures
            r == self.well_formed(),
    {
        if self.parameters.len() == 0 {
            return false;
        }
        let named = match &self.parameters[0] {
            PrimitiveCommandParameter::String(_) => true,
            PrimitiveCommandParameter::Usize(_) => false,
        };
        if !named {
            return false;
        }
        if self.parameters.len() > 1 {
            match &self.parameters[1] {
                PrimitiveCommandParameter::Usize(_) => true,
                PrimitiveCommandParameter::String(_) => false,
            }
        } else {
            true
        }
    }

    /// The primitive's name, as a `String`, when the first parameter is one.
    pub(crate) fn name_string(&self) -> (r: Option<&String>)
        ensures
            self.well_formed() ==> (r matches Some(s) && s@ == self.name_spec()),
    {
        if self.parameters.len() == 0 {
            return None;
        }
        match &self.parameters[0] {
            PrimitiveCommandParameter::String(name) => Some(name),
            PrimitiveCommandParameter::Usize(_) => None,
        }
    }

    /// The primitive's name.
    pub fn name(&self) -> (r: &str)
        requires
            self.well_formed(),
        ensures
            r@ == self.name_spec(),
    {
        match &self.parameters[0] {
            PrimitiveCommandParameter::String(name) => name.as_str(),
            PrimitiveCommandParameter::Usize(_) => "",
        }
    }

    /// The iteration that the primitive was recorded at; 0 when none is given.
    pub fn iteration(&self) -> (r: usize)
        requires
            self.well_formed(),
        ensures
            r == self.iteration_spec(),
    {
        if self.parameters.len() > 1 {
            match &self.parameters[1] {
                PrimitiveCommandParameter::Usize(iteration) => *iteration,
                PrimitiveCommandParameter::String(_) => 0,
            }
        } else {
            0
        }
    }
}

/// A command that names a surface.
#[derive(Clone, Debug)]
pub struct SurfaceCommand {
    pub parameters: Vec<String>,
}

impl SurfaceCommand {
    /// The surface's name: the first parameter.
    pub fn name(&self) -> (r: &str)
        requires
            self.parameters@.len() > 0,
        ensures
            r@ == self.parameters@[0]@,
    {
        self.parameters[0].as_str()
    }
}

/// `´(i)`: selects material `i`, or the next material when `i` is absent.
#[derive(Clone, Debug)]
pub struct SetMaterialIndex {
    pub parameters: Vec<usize>,
}

impl SetMaterialIndex {
    pub open spec fn material_index_spec(&self) -> Option<usize> {
        if self.parameters@.len() > 0 {
            Some(self.parameters@[0])
        } else {
            None
        }
    }

    pub fn material_index(&self) -> (r: Option<usize>)
        ensures
            r == self.material_index_spec(),
    {
        if self.parameters.len() > 0 {
            Some(self.parameters[0])
        } else {
            None
        }
    }
}

/// One instruction for the turtle.
#[derive(Clone, Debug)]
pub enum TurtleCommand<P> {
    /// `F`
    AddCylinder(AddCylinder<P>),
    /// `f`
    MoveForward(MoveForward<P>),
    /// `+`
    RotateYaw(AngleCommand<P>),
    /// `-`
    RotateYawNegative(AngleCommand<P>),
    /// `&`
    RotatePitch(AngleCommand<P>),
    /// `^`
    RotatePitchNegative(AngleCommand<P>),
    /// `/`
    RotateRoll(AngleCommand<P>),
    /// `\`
    RotateRollNegative(AngleCommand<P>),
    /// `|`: a half turn around the up axis.
    Yaw180,
    /// `[`
    PushToStack,
    /// `]`
    PopFromStack,
    /// `$`: levels the turtle back to the initial up plane, keeping the heading.
    ToUpPlane,
    /// `!`
    SetDefaultCylinderDiameter(SetDefaultCylinderDiameter<P>),
    /// `~`
    AddPredefinedPrimitive(PrimitiveCommand),
    /// `BeginSurface`: not interpreted.
    BeginPrimitive(PrimitiveCommand),
    /// `EndSurface`: not interpreted.
    EndPrimitive(PrimitiveCommand),
    /// `{`: not interpreted.
    BeginPolygon,
    /// `}`: not interpreted.
    EndPolygon,
    /// `G`: not interpreted.
    MoveAlongEdge(MoveForward<P>),
    /// `.`: not interpreted.
    RecordVertex,
    /// `´`
    SetMaterialIndex(SetMaterialIndex),
    /// `%`: skips the rest of the current branch.
    IgnoreRemainingBranch,
    /// Any other symbol.
    Unknown,
}

} // verus!
