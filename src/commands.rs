//! The commands that the bus carries, their classes and their results.
//!
//! Floating-point values of the simulation (positions, scales, rotations) are
//! carried as their IEEE-754 bit patterns: the bus routes them and never reads
//! them.
use vstd::prelude::*;

verus! {

/// The kind of entity that a spawn command creates.
#[derive(Clone, Copy, Debug, PartialEq, Eq, Structural)]
pub enum EntityType {
    Vello,
    Particle,
}

/// A 2D vector, each component as the bit pattern of an `f32`.
#[derive(Clone, Copy, Debug, PartialEq, Eq, Structural)]
pub struct Vec2Bits {
    pub x: u32,
    pub y: u32,
}

/// A 3D vector, each component as the bit pattern of an `f32`.
#[derive(Clone, Copy, Debug, PartialEq, Eq, Structural)]
pub struct Vec3Bits {
    pub x: u32,
    pub y: u32,
    pub z: u32,
}

/// A rotation quaternion, each component as the bit pattern of an `f32`.
#[derive(Clone, Copy, Debug, PartialEq, Eq, Structural)]
pub struct QuatBits {
    pub x: u32,
    pub y: u32,
    pub z: u32,
    pub w: u32,
}

/// Where an entity stands: translation, rotation and scale.
#[derive(Clone, Copy, Debug, PartialEq, Eq, Structural)]
pub struct Placement {
    pub translation: Vec3Bits,
    pub rotation: QuatBits,
    pub scale: Vec3Bits,
}

/// An operation that a caller asks the simulation to perform.
#[derive(Clone, Debug)]
pub enum DockCommand {
    /// Decode the bytes of an SVG document into a vector asset.
    LoadSVGAssets(Vec<u8>),
    /// Decode the bytes of a Lottie animation into a vector asset.
    LoadLottieAssets(Vec<u8>),
    /// Remove the entity with this id.
    RemoveEntity(u32),
    /// Spawn an entity from asset `0`, placed at `1`, of kind `2`; for a
    /// particle entity `3` names a vector asset to draw each particle with
    /// (0: none).
    SpawnEntity(u32, Placement, EntityType, u32),
    /// Move the entity with this id.
    Transform(u32, Placement),
    /// Move the camera to a position, with a scale (`f32` bits).
    ModifyCamera(Vec2Bits, u32),
    /// Find the entity under a position within a radius (`f32` bits).
    PickEntity(Vec2Bits, u32),
    /// Decode the bytes of a particle-effect description into an effect asset.
    LoadParticleAssets(Vec<u8>),
}

/// The class of a command: each class has its own queue and its own worker.
#[derive(Clone, Copy, Debug, PartialEq, Eq, Structural)]
pub enum DockCommandDispatcherType {
    LoadSVGAssets,
    LoadLottieAssets,
    RemoveEntity,
    SpawnEntity,
    Transform,
    ModifyCamera,
    PickEntity,
    LoadParticleAssets,
}

/// The number of command classes.
pub const CLASS_COUNT: u32 = 8;

/// The index of a class, from 0 to `CLASS_COUNT - 1`.
pub open spec fn class_index(c: DockCommandDispatcherType) -> u32 {
    match c {
        DockCommandDispatcherType::LoadSVGAssets => 0,
        DockCommandDispatcherType::LoadLottieAssets => 1,
        DockCommandDispatcherType::RemoveEntity => 2,
        DockCommandDispatcherType::SpawnEntity => 3,
        DockCommandDispatcherType::Transform => 4,
        DockCommandDispatcherType::ModifyCamera => 5,
        DockCommandDispatcherType::PickEntity => 6,
        DockCommandDispatcherType::LoadParticleAssets => 7,
    }
}

/// Distinct classes have distinct indices, all below `CLASS_COUNT`.
pub proof fn lemma_class_index_injective(a: DockCommandDispatcherType, b: DockCommandDispatcherType)
    ensures
        class_index(a) < CLASS_COUNT,
        class_index(a) == class_index(b) <==> a == b,
{
}

impl DockCommandDispatcherType {
    pub fn to_index(&self) -> (r: u32)
        ensures
            r == class_index(*self),
    {
        match self {
            DockCommandDispatcherType::LoadSVGAssets => 0,
            DockCommandDispatcherType::LoadLottieAssets => 1,
            DockCommandDispatcherType::RemoveEntity => 2,
            DockCommandDispatcherType::SpawnEntity => 3,
            DockCommandDispatcherType::Transform => 4,
            DockCommandDispatcherType::ModifyCamera => 5,
            DockCommandDispatcherType::PickEntity => 6,
            DockCommandDispatcherType::LoadParticleAssets => 7,
        }
    }
}

impl DockCommandDispatcherType {
    /// Whether the class is one of the three asset-loading classes.
    pub fn is_load(&self) -> (r: bool)
        ensures
            r == (*self is LoadSVGAssets || *self is LoadLottieAssets || *self is LoadParticleAssets),
    {
        match self {
            DockCommandDispatcherType::LoadSVGAssets => true,
            DockCommandDispatcherType::LoadLottieAssets => true,
            DockCommandDispatcherType::LoadParticleAssets => true,
            _ => false,
        }
    }
}

/// The class that routes a command: the one named like its variant.
pub open spec fn class_of(command: DockCommand) -> DockCommandDispatcherType {
    match command {
        DockCommand::LoadSVGAssets(_) => DockCommandDispatcherType::LoadSVGAssets,
        DockCommand::LoadLottieAssets(_) => DockCommandDispatcherType::LoadLottieAssets,
        DockCommand::RemoveEntity(_) => DockCommandDispatcherType::RemoveEntity,
        DockCommand::SpawnEntity(_, _, _, _) => DockCommandDispatcherType::SpawnEntity,
        DockCommand::Transform(_, _) => DockCommandDispatcherType::Transform,
        DockCommand::ModifyCamera(_, _) => DockCommandDispatcherType::ModifyCamera,
        DockCommand::PickEntity(_, _) => DockCommandDispatcherType::PickEntity,
        DockCommand::LoadParticleAssets(_) => DockCommandDispatcherType::LoadParticleAssets,
    }
}

pub fn command_to_dispatcher(command: &DockCommand) -> (r: DockCommandDispatcherType)
    ensures
        r == class_of(*command),
{
    match command {
        DockCommand::LoadSVGAssets(_) => DockCommandDispatcherType::LoadSVGAssets,
        DockCommand::LoadLottieAssets(_) => DockCommandDispatcherType::LoadLottieAssets,
        DockCommand::RemoveEntity(_) => DockCommandDispatcherType::RemoveEntity,
        DockCommand::SpawnEntity(_, _, _, _) => DockCommandDispatcherType::SpawnEntity,
        DockCommand::Transform(_, _) => DockCommandDispatcherType::Transform,
        DockCommand::ModifyCamera(_, _) => DockCommandDispatcherType::ModifyCamera,
        DockCommand::PickEntity(_, _) => DockCommandDispatcherType::PickEntity,
        DockCommand::LoadParticleAssets(_) => DockCommandDispatcherType::LoadParticleAssets,
    }
}

/// What a command resolves to.
#[derive(Clone, Debug, PartialEq, Eq)]
pub enum DockCommandResult {
    /// The command was performed; the payload depends on the class (a new
    /// id, the id acted on, or 1 where no value matters).
    Done(u32),
    /// The command failed, with a reason.
    NotOk(String),
    /// A later command of the same coalescing class replaced this one before
    /// it was applied; it was skipped on purpose.
    Superseded,
}

} // verus!
