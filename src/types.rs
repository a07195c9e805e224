//! The shader-interface model that the layout derivation reads: the types that
//! a module declares and the arguments of its entry points.

use vstd::prelude::*;

verus! {

/// What the components of a scalar or vector hold.
#[derive(Clone, Copy, Debug, PartialEq, Eq, Structural)]
pub enum ScalarKind {
    SignedInt,
    UnsignedInt,
    Float,
    Bool,
}

/// Number of components of a vector.
#[derive(Clone, Copy, Debug, PartialEq, Eq, Structural)]
pub enum VectorSize {
    Bi,
    Tri,
    Quad,
}

impl VectorSize {
    pub open spec fn spec_components(self) -> nat {
        match self {
            VectorSize::Bi => 2,
            VectorSize::Tri => 3,
            VectorSize::Quad => 4,
        }
    }

    /// The number of components, 2, 3 or 4.
    pub fn components(self) -> (r: u32)
        ensures
            r == self.spec_components(),
    {
        match self {
            VectorSize::Bi => 2,
            VectorSize::Tri => 3,
            VectorSize::Quad => 4,
        }
    }
}

/// A type that a shader declares, as far as the layout derivation tells types
/// apart. `width` is the size of one component in bytes.
#[derive(Clone, Copy, Debug, PartialEq, Eq, Structural)]
pub enum TypeDescriptor {
    Scalar { kind: ScalarKind, width: u8 },
    Vector { size: VectorSize, kind: ScalarKind, width: u8 },
    /// Every other type: matrices, arrays, structures, pointers, images, ...
    Other,
}

/// How a value is interpolated between vertices.
#[derive(Clone, Copy, Debug, PartialEq, Eq, Structural)]
pub enum Interpolation {
    Perspective,
    Linear,
    Flat,
}

/// Where within a pixel an interpolated value is sampled.
#[derive(Clone, Copy, Debug, PartialEq, Eq, Structural)]
pub enum Sampling {
    Center,
    Centroid,
    Sample,
}

/// An input that the pipeline supplies itself, not read from a vertex buffer.
#[derive(Clone, Copy, Debug, PartialEq, Eq, Structural)]
pub enum BuiltIn {
    Position { invariant: bool },
    ViewIndex,
    BaseInstance,
    BaseVertex,
    ClipDistance,
    CullDistance,
    InstanceIndex,
    PointSize,
    VertexIndex,
    FragDepth,
    PointCoord,
    FrontFacing,
    PrimitiveIndex,
    SampleIndex,
    SampleMask,
    GlobalInvocationId,
    LocalInvocationId,
    LocalInvocationIndex,
    WorkGroupId,
    WorkGroupSize,
    NumWorkGroups,
}

/// Where an entry-point argument takes its value from.
#[derive(Clone, Copy, Debug, PartialEq, Eq, Structural)]
pub enum Binding {
    /// A numbered slot fed from the vertex buffer.
    Location {
        index: u32,
        interpolation: Option<Interpolation>,
        sampling: Option<Sampling>,
        second_blend_source: bool,
    },
    /// A value that the pipeline supplies.
    BuiltIn(BuiltIn),
    /// No binding at all.
    Unbound,
}

/// An argument of an entry point: the identifier of its type in the module's
/// type table, and its binding.
#[derive(Clone, Copy, Debug, PartialEq, Eq, Structural)]
pub struct Argument {
    pub type_id: usize,
    pub binding: Binding,
}

/// A shader stage's entry function, with its arguments in declaration order.
#[derive(Clone, Debug)]
pub struct EntryPoint {
    pub arguments: Vec<Argument>,
}

/// A parsed shader module: its type table, indexed by type identifier, and its
/// entry points in declaration order.
#[derive(Clone, Debug)]
pub struct ShaderModule {
    pub types: Vec<TypeDescriptor>,
    pub entry_points: Vec<EntryPoint>,
}

impl ShaderModule {
    /// Every argument names a type that the type table holds.
    pub open spec fn well_formed(&self) -> bool {
        forall|e: int, a: int|
            0 <= e < self.entry_points@.len() && 0 <= a < self.entry_points@[e].arguments@.len()
                ==> #[trigger] self.entry_points@[e].arguments@[a].type_id < self.types@.len()
    }

    /// The arguments of all entry points, entry point after entry point, each
    /// paired with its type.
    pub open spec fn interface(&self) -> Seq<(Argument, TypeDescriptor)>
        recommends
            self.well_formed(),
    {
        interface_of(self.types@, self.entry_points@.map_values(|e: EntryPoint| e.arguments@))
    }
}

/// The pairs of argument and type of the given entry points' arguments, in order.
pub open spec fn interface_of(types: Seq<TypeDescriptor>, entries: Seq<Seq<Argument>>) -> Seq<(
    Argument,
    TypeDescriptor,
)>
    decreases entries.len(),
{
    if entries.len() == 0 {
        Seq::empty()
    } else {
        interface_of(types, entries.drop_last()) + entries.last().map_values(
            |a: Argument| (a, types[a.type_id as int]),
        )
    }
}

} // verus!
