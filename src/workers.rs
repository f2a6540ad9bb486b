//! What each worker decides in one tick, on top of the dock: which command it
//! takes, how the tables change, what result the caller gets and which effect
//! the simulation has to perform.
//!
//! Removal, spawn, load and pick classes are ordered: a tick takes at most one
//! command. Entity placement and camera classes coalesce: a tick takes every
//! queued command, resolves all but the latest as superseded and applies the
//! latest alone. The effects themselves (despawning, moving, spawning,
//! decoding) belong to the simulation; a worker hands them out as plain
//! values.
use vstd::prelude::*;
use crate::commands::{
    DockCommand, DockCommandDispatcherType, DockCommandResult, EntityType, Placement, Vec2Bits,
};
use crate::dock::{resolved_one, superseded_log, took_oldest, Coalesced, Dock, DockData, DockFault};
use crate::channels::{sent_result, ResultSender};

verus! {

/// The handle that a removal command despawns: the handle of its entity, if
/// the table holds that entity.
pub open spec fn despawned_by(entities: Map<u32, u64>, command: DockCommand) -> Option<u64> {
    match command {
        DockCommand::RemoveEntity(e) => if entities.contains_key(e) {
            Some(entities[e])
        } else {
            None
        },
        _ => None,
    }
}

/// The entity table after a removal command.
pub open spec fn removed_by(entities: Map<u32, u64>, command: DockCommand) -> Map<u32, u64> {
    match command {
        DockCommand::RemoveEntity(e) => entities.remove(e),
        _ => entities,
    }
}

/// The handle and placement that a transform command applies, if the table
/// holds its entity.
pub open spec fn placed_by(entities: Map<u32, u64>, command: DockCommand) -> Option<(u64, Placement)> {
    match command {
        DockCommand::Transform(e, p) => if entities.contains_key(e) {
            Some((entities[e], p))
        } else {
            None
        },
        _ => None,
    }
}

/// The camera position and scale that a camera command applies.
pub open spec fn camera_by(command: DockCommand) -> Option<(Vec2Bits, u32)> {
    match command {
        DockCommand::ModifyCamera(pos, scale) => Some((pos, scale)),
        _ => None,
    }
}

/// What the simulation needs to spawn an entity: its kind, the handle of its
/// asset (a vector asset, or a particle effect), for a particle entity the
/// vector asset that draws each particle, and its placement.
#[derive(Clone, Copy, Debug, PartialEq, Eq)]
pub struct SpawnPlan {
    pub kind: EntityType,
    pub asset: u64,
    pub secondary: Option<u64>,
    pub placement: Placement,
}

/// The plan of a spawn command, if the tables hold the assets that it names.
/// A vello entity draws vector asset `a`; a particle entity runs particle
/// effect `a`, with vector asset `s` for each particle unless `s` is 0.
pub open spec fn spawn_plan_of(
    assets: Map<u32, u64>,
    particle_assets: Map<u32, u64>,
    command: DockCommand,
) -> Option<SpawnPlan> {
    match command {
        DockCommand::SpawnEntity(a, p, EntityType::Vello, _) => if assets.contains_key(a) {
            Some(SpawnPlan { kind: EntityType::Vello, asset: assets[a], secondary: None, placement: p })
        } else {
            None
        },
        DockCommand::SpawnEntity(a, p, EntityType::Particle, s) => if particle_assets.contains_key(a)
            && (s == 0 || assets.contains_key(s)) {
            Some(
                SpawnPlan {
                    kind: EntityType::Particle,
                    asset: particle_assets[a],
                    secondary: if s == 0 {
                        None
                    } else {
                        Some(assets[s])
                    },
                    placement: p,
                },
            )
        } else {
            None
        },
        _ => None,
    }
}

/// A command whose bytes decode into a vector asset.
pub open spec fn loads_vector(command: DockCommand) -> bool {
    command is LoadSVGAssets || command is LoadLottieAssets
}

/// A command whose bytes decode into a particle effect.
pub open spec fn loads_particle(command: DockCommand) -> bool {
    command is LoadParticleAssets
}

/// The bytes that a load command asks to decode.
pub fn load_bytes(command: &DockCommand) -> (r: Option<&Vec<u8>>)
    ensures
        match *command {
            DockCommand::LoadSVGAssets(b) => r == Some(&b),
            DockCommand::LoadLottieAssets(b) => r == Some(&b),
            DockCommand::LoadParticleAssets(b) => r == Some(&b),
            _ => r is None,
        },
{
    match command {
        DockCommand::LoadSVGAssets(b) => Some(b),
        DockCommand::LoadLottieAssets(b) => Some(b),
        DockCommand::LoadParticleAssets(b) => Some(b),
        _ => None,
    }
}

/// A pick whose query region stands in the simulation: it owns the unsent
/// result channel of the pick command. Resolving the pick consumes it, so a
/// pick is resolved at most once.
#[derive(Debug)]
pub struct PendingPick {
    id: u32,
    position: Vec2Bits,
    radius: u32,
    s: ResultSender,
}

impl PendingPick {
    /// The result channel of a pending pick was not resolved yet.
    #[verifier::type_invariant]
    spec fn unsent(self) -> bool {
        sent_result(self.s) is None
    }

    /// The id of the pick command.
    pub closed spec fn command_id(&self) -> u32 {
        self.id
    }

    /// The centre of the query region.
    pub closed spec fn center(&self) -> Vec2Bits {
        self.position
    }

    /// The radius of the query region (`f32` bits).
    pub closed spec fn radius_bits(&self) -> u32 {
        self.radius
    }

    pub fn id(&self) -> (r: u32)
        ensures
            r == self.command_id(),
    {
        self.id
    }

    pub fn position(&self) -> (r: Vec2Bits)
        ensures
            r == self.center(),
    {
        self.position
    }

    pub fn radius(&self) -> (r: u32)
        ensures
            r == self.radius_bits(),
    {
        self.radius
    }
}

impl Dock {
    /// Decides a removal command: removes its entity from the table and
    /// hands back the handle to despawn; an entity that the table does not
    /// hold, or another command, fails with the table unchanged.
    pub fn remove_outcome(&mut self, command: &DockCommand) -> (r: (DockCommandResult, Option<u64>))
        requires
            old(self).wf(),
        ensures
            final(self).wf(),
            old(self).same_commands(*final(self)),
            final(self).assets() == old(self).assets(),
            final(self).particle_assets() == old(self).particle_assets(),
            final(self).ids() == old(self).ids(),
            final(self).entities() == removed_by(old(self).entities(), *command),
            r.1 == despawned_by(old(self).entities(), *command),
            r.1 is Some ==> r.0 == DockCommandResult::Done(1),
            r.1 is None ==> r.0 is NotOk,
    {
        match command {
            DockCommand::RemoveEntity(e) => match self.remove_entitie(*e) {
                Ok(h) => (DockCommandResult::Done(1), Some(h)),
                Err(_) => (DockCommandResult::NotOk("no entity with this id".to_owned()), None),
            },
            _ => (DockCommandResult::NotOk("remove entity failed".to_owned()), None),
        }
    }

    /// Decides a transform command: the handle to move and where.
    pub fn transform_outcome(&self, command: &DockCommand) -> (r: (
        DockCommandResult,
        Option<(u64, Placement)>,
    ))
        ensures
            r.1 == placed_by(self.entities(), *command),
            r.1 is Some ==> r.0 == DockCommandResult::Done(command->Transform_0),
            r.1 is None ==> r.0 is NotOk,
    {
        match command {
            DockCommand::Transform(e, p) => match self.get_entity_with_id(*e) {
                Ok(h) => (DockCommandResult::Done(*e), Some((h, *p))),
                Err(_) => (DockCommandResult::NotOk("no entity with this id".to_owned()), None),
            },
            _ => (DockCommandResult::NotOk("modify entity failed".to_owned()), None),
        }
    }
}

/// Decides a camera command: where the camera goes.
pub fn camera_outcome(command: &DockCommand) -> (r: (DockCommandResult, Option<(Vec2Bits, u32)>))
    ensures
        r.1 == camera_by(*command),
        r.1 is Some ==> r.0 == DockCommandResult::Done(1),
        r.1 is None ==> r.0 is NotOk,
{
    match command {
        DockCommand::ModifyCamera(pos, scale) => (DockCommandResult::Done(1), Some((*pos, *scale))),
        _ => (DockCommandResult::NotOk("modify camera failed".to_owned()), None),
    }
}

impl Dock {
    /// The plan of a spawn command, if the tables hold its assets.
    pub fn spawn_plan(&self, command: &DockCommand) -> (r: Option<SpawnPlan>)
        ensures
            r == spawn_plan_of(self.assets(), self.particle_assets(), *command),
    {
        match command {
            DockCommand::SpawnEntity(a, p, EntityType::Vello, _) => match self.get_asset_with_id(*a) {
                Ok(h) => Some(
                    SpawnPlan { kind: EntityType::Vello, asset: h, secondary: None, placement: *p },
                ),
                Err(_) => None,
            },
            DockCommand::SpawnEntity(a, p, EntityType::Particle, s) => {
                let effect = match self.get_particle_asset_with_id(*a) {
                    Ok(h) => h,
                    Err(_) => {
                        return None;
                    },
                };
                let secondary = if *s == 0 {
                    None
                } else {
                    match self.get_asset_with_id(*s) {
                        Ok(h) => Some(h),
                        Err(_) => {
                            return None;
                        },
                    }
                };
                Some(
                    SpawnPlan {
                        kind: EntityType::Particle,
                        asset: effect,
                        secondary,
                        placement: *p,
                    },
                )
            },
            _ => None,
        }
    }

    /// The ordered removal worker: takes at most one removal command,
    /// resolves it (`Done(1)` when its entity was removed, `NotOk`
    /// otherwise) and hands back the handle to despawn.
    pub fn despawn_entity(&mut self) -> (r: Result<Option<u64>, DockFault>)
        requires
            old(self).wf(),
        ensures
            final(self).wf(),
            final(self).ids() == old(self).ids(),
            final(self).assets() == old(self).assets(),
            final(self).particle_assets() == old(self).particle_assets(),
            old(self).same_queues_except(*final(self), DockCommandDispatcherType::RemoveEntity),
            !old(self).registered(DockCommandDispatcherType::RemoveEntity) ==> r == Err::<
                Option<u64>,
                DockFault,
            >(DockFault::UnregisteredClass(DockCommandDispatcherType::RemoveEntity))
                && *final(self) == *old(self),
            old(self).registered(DockCommandDispatcherType::RemoveEntity) && old(self).pending(
                DockCommandDispatcherType::RemoveEntity,
            ).len() == 0 ==> r == Ok::<Option<u64>, DockFault>(None) && old(self).same_commands(
                *final(self),
            ) && old(self).same_tables(*final(self)),
            old(self).registered(DockCommandDispatcherType::RemoveEntity) && old(self).pending(
                DockCommandDispatcherType::RemoveEntity,
            ).len() > 0 ==> {
                let id = old(self).pending(DockCommandDispatcherType::RemoveEntity)[0];
                let command = old(self).stored()[id];
                let gone = despawned_by(old(self).entities(), command);
                &&& r == Ok::<Option<u64>, DockFault>(gone)
                &&& final(self).entities() == removed_by(old(self).entities(), command)
                &&& final(self).pending(DockCommandDispatcherType::RemoveEntity) == old(self).pending(DockCommandDispatcherType::RemoveEntity).drop_first()
                &&& final(self).stored() == old(self).stored().remove(id)
                &&& resolved_one(old(self).resolutions(), final(self).resolutions(), id)
                &&& gone is Some ==> final(self).resolutions().last().1 == Some(DockCommandResult::Done(1))
                &&& gone is None ==> final(self).resolutions().last().1->Some_0 is NotOk
            },
    {
        match self.take_next(DockCommandDispatcherType::RemoveEntity) {
            Err(e) => Err(e),
            Ok(None) => Ok(None),
            Ok(Some(d)) => {
                let (result, handle) = self.remove_outcome(d.data());
                self.resolve(d, result);
                Ok(handle)
            },
        }
    }

    /// The coalescing transform worker: takes every queued transform
    /// command, resolves all but the latest as superseded, applies the latest
    /// alone and resolves it (`Done(entity id)`, or `NotOk` for an entity
    /// that the table does not hold).
    pub fn modify_entity(&mut self) -> (r: Result<Option<(u64, Placement)>, DockFault>)
        requires
            old(self).wf(),
        ensures
            final(self).wf(),
            old(self).same_tables(*final(self)),
            final(self).ids() == old(self).ids(),
            old(self).same_queues_except(*final(self), DockCommandDispatcherType::Transform),
            !old(self).registered(DockCommandDispatcherType::Transform) ==> r == Err::<
                Option<(u64, Placement)>,
                DockFault,
            >(DockFault::UnregisteredClass(DockCommandDispatcherType::Transform))
                && *final(self) == *old(self),
            old(self).registered(DockCommandDispatcherType::Transform) ==> {
                let q = old(self).pending(DockCommandDispatcherType::Transform);
                &&& final(self).pending(DockCommandDispatcherType::Transform) == Seq::<u32>::empty()
                &&& final(self).stored() == old(self).stored().remove_keys(q.to_set())
                &&& q.len() == 0 ==> r == Ok::<Option<(u64, Placement)>, DockFault>(None)
                    && final(self).resolutions() == old(self).resolutions()
                &&& q.len() > 0 ==> {
                    let latest = old(self).stored()[q.last()];
                    let target = placed_by(old(self).entities(), latest);
                    let log = old(self).resolutions() + superseded_log(q.take(q.len() - 1));
                    &&& r == Ok::<Option<(u64, Placement)>, DockFault>(target)
                    &&& resolved_one(log, final(self).resolutions(), q.last())
                    &&& target is Some ==> final(self).resolutions().last().1
                        == Some(DockCommandResult::Done(latest->Transform_0))
                    &&& target is None ==> final(self).resolutions().last().1->Some_0 is NotOk
                }
            },
    {
        match self.take_latest(DockCommandDispatcherType::Transform) {
            Err(e) => Err(e),
            Ok(Coalesced { superseded: _, latest: None }) => Ok(None),
            Ok(Coalesced { superseded: _, latest: Some(d) }) => {
                let (result, target) = self.transform_outcome(d.data());
                self.resolve(d, result);
                Ok(target)
            },
        }
    }

    /// The coalescing camera worker: takes every queued camera command,
    /// resolves all but the latest as superseded, applies the latest alone
    /// and resolves it with `Done(1)`.
    pub fn modify_camera(&mut self) -> (r: Result<Option<(Vec2Bits, u32)>, DockFault>)
        requires
            old(self).wf(),
        ensures
            final(self).wf(),
            old(self).same_tables(*final(self)),
            final(self).ids() == old(self).ids(),
            old(self).same_queues_except(*final(self), DockCommandDispatcherType::ModifyCamera),
            !old(self).registered(DockCommandDispatcherType::ModifyCamera) ==> r == Err::<
                Option<(Vec2Bits, u32)>,
                DockFault,
            >(DockFault::UnregisteredClass(DockCommandDispatcherType::ModifyCamera))
                && *final(self) == *old(self),
            old(self).registered(DockCommandDispatcherType::ModifyCamera) ==> {
                let q = old(self).pending(DockCommandDispatcherType::ModifyCamera);
                &&& final(self).pending(DockCommandDispatcherType::ModifyCamera) == Seq::<u32>::empty()
                &&& final(self).stored() == old(self).stored().remove_keys(q.to_set())
                &&& q.len() == 0 ==> r == Ok::<Option<(Vec2Bits, u32)>, DockFault>(None)
                    && final(self).resolutions() == old(self).resolutions()
                &&& q.len() > 0 ==> {
                    let target = camera_by(old(self).stored()[q.last()]);
                    let log = old(self).resolutions() + superseded_log(q.take(q.len() - 1));
                    &&& r == Ok::<Option<(Vec2Bits, u32)>, DockFault>(target)
                    &&& resolved_one(log, final(self).resolutions(), q.last())
                    &&& target is Some ==> final(self).resolutions().last().1
                        == Some(DockCommandResult::Done(1))
                    &&& target is None ==> final(self).resolutions().last().1->Some_0 is NotOk
                }
            },
    {
        match self.take_latest(DockCommandDispatcherType::ModifyCamera) {
            Err(e) => Err(e),
            Ok(Coalesced { superseded: _, latest: None }) => Ok(None),
            Ok(Coalesced { superseded: _, latest: Some(d) }) => {
                let (result, target) = camera_outcome(d.data());
                self.resolve(d, result);
                Ok(target)
            },
        }
    }

    /// The first half of the ordered spawn worker: takes at most one spawn
    /// command; one that names an asset the tables do not hold is resolved
    /// `NotOk`, any other is handed back with its plan, unresolved.
    pub fn next_spawn(&mut self) -> (r: Result<Option<(DockData, SpawnPlan)>, DockFault>)
        requires
            old(self).wf(),
        ensures
            final(self).wf(),
            !old(self).registered(DockCommandDispatcherType::SpawnEntity) ==> r == Err::<
                Option<(DockData, SpawnPlan)>,
                DockFault,
            >(DockFault::UnregisteredClass(DockCommandDispatcherType::SpawnEntity))
                && *final(self) == *old(self),
            old(self).registered(DockCommandDispatcherType::SpawnEntity) && old(self).pending(
                DockCommandDispatcherType::SpawnEntity,
            ).len() == 0 ==> r == Ok::<Option<(DockData, SpawnPlan)>, DockFault>(None) && old(self).same_commands(*final(self)) && old(self).same_tables(*final(self)) && final(self).ids()
                == old(self).ids(),
            old(self).registered(DockCommandDispatcherType::SpawnEntity) && old(self).pending(
                DockCommandDispatcherType::SpawnEntity,
            ).len() > 0 ==> {
                let id = old(self).pending(DockCommandDispatcherType::SpawnEntity)[0];
                let plan = spawn_plan_of(
                    old(self).assets(),
                    old(self).particle_assets(),
                    old(self).stored()[id],
                );
                &&& took_oldest(*old(self), *final(self), DockCommandDispatcherType::SpawnEntity)
                &&& match r {
                    Ok(Some((d, p))) => d.command_id() == id && d.command() == old(self).stored()[id] && plan == Some(p)
                        && final(self).resolutions() == old(self).resolutions(),
                    Ok(None) => plan is None && resolved_one(old(self).resolutions(), final(self).resolutions(), id)
                        && final(self).resolutions().last().1->Some_0 is NotOk,
                    Err(_) => false,
                }
            },
    {
        match self.take_next(DockCommandDispatcherType::SpawnEntity) {
            Err(e) => Err(e),
            Ok(None) => Ok(None),
            Ok(Some(d)) => match self.spawn_plan(d.data()) {
                Some(p) => Ok(Some((d, p))),
                None => {
                    self.resolve(d, DockCommandResult::NotOk("spawn entity failed".to_owned()));
                    Ok(None)
                },
            },
        }
    }

    /// The second half of the spawn worker: the simulation spawned the
    /// entity of `data` as `entity`; gives it the next entity id and resolves
    /// the command with `Done` of that id, or `NotOk` where the handle is
    /// already mapped or entity ids ran out.
    pub fn finish_spawn(&mut self, data: DockData, entity: u64) -> (r: Option<u32>)
        requires
            old(self).wf(),
        ensures
            final(self).wf(),
            final(self).stored() == old(self).stored(),
            forall|c: DockCommandDispatcherType| #[trigger] final(self).registered(c) == old(self).registered(c),
            forall|c: DockCommandDispatcherType| #[trigger] final(self).pending(c) == old(self).pending(c),
            final(self).assets() == old(self).assets(),
            final(self).particle_assets() == old(self).particle_assets(),
            !old(self).entities().contains_value(entity) && old(self).ids().next_entity() < u32::MAX
                ==> r == Some(old(self).ids().next_entity()) && final(self).entities() == old(self).entities().insert(old(self).ids().next_entity(), entity)
                && final(self).ids().next_entity() == old(self).ids().next_entity() + 1
                && final(self).ids().next_command() == old(self).ids().next_command()
                && final(self).ids().next_asset() == old(self).ids().next_asset()
                && final(self).ids().next_particle_asset() == old(self).ids().next_particle_asset()
                && final(self).resolutions() == old(self).resolutions().push((data.command_id(), Some(DockCommandResult::Done(old(self).ids().next_entity())))),
            old(self).entities().contains_value(entity) || old(self).ids().next_entity() == u32::MAX
                ==> r is None && final(self).entities() == old(self).entities()
                && final(self).ids() == old(self).ids()
                && resolved_one(old(self).resolutions(), final(self).resolutions(), data.command_id())
                && final(self).resolutions().last().1->Some_0 is NotOk,
    {
        match self.push_entitie(entity) {
            Ok(id) => {
                self.resolve(data, DockCommandResult::Done(id));
                Some(id)
            },
            Err(_) => {
                self.resolve(data, DockCommandResult::NotOk("spawn entity failed".to_owned()));
                None
            },
        }
    }

    /// The end of a load worker: the simulation decoded the bytes of `data`
    /// into a handle, or failed with a reason. A vector asset goes into the
    /// asset table and a particle effect into the particle-asset table, under
    /// the next id of its space, and the command resolves with `Done` of that
    /// id; a decode failure resolves `NotOk` with its reason, and any other
    /// failure `NotOk`.
    pub fn finish_load(&mut self, data: DockData, decoded: Result<u64, String>) -> (r: Option<u32>)
        requires
            old(self).wf(),
        ensures
            final(self).wf(),
            final(self).stored() == old(self).stored(),
            forall|c: DockCommandDispatcherType| #[trigger] final(self).registered(c) == old(self).registered(c),
            forall|c: DockCommandDispatcherType| #[trigger] final(self).pending(c) == old(self).pending(c),
            final(self).entities() == old(self).entities(),
            final(self).ids().next_command() == old(self).ids().next_command(),
            final(self).ids().next_entity() == old(self).ids().next_entity(),
            decoded is Ok && loads_vector(data.command()) && old(self).ids().next_asset() < u32::MAX ==> r
                == Some(old(self).ids().next_asset()) && final(self).assets() == old(self).assets().insert(old(self).ids().next_asset(), decoded->Ok_0)
                && final(self).particle_assets() == old(self).particle_assets()
                && final(self).ids().next_asset() == old(self).ids().next_asset() + 1
                && final(self).ids().next_particle_asset() == old(self).ids().next_particle_asset()
                && final(self).resolutions() == old(self).resolutions().push((data.command_id(), Some(DockCommandResult::Done(old(self).ids().next_asset())))),
            decoded is Ok && loads_particle(data.command()) && old(self).ids().next_particle_asset()
                < u32::MAX ==> r == Some(old(self).ids().next_particle_asset())
                && final(self).particle_assets() == old(self).particle_assets().insert(
                old(self).ids().next_particle_asset(),
                decoded->Ok_0,
            ) && final(self).assets() == old(self).assets()
                && final(self).ids().next_asset() == old(self).ids().next_asset()
                && final(self).ids().next_particle_asset() == old(self).ids().next_particle_asset() + 1
                && final(self).resolutions() == old(self).resolutions().push((data.command_id(), Some(DockCommandResult::Done(old(self).ids().next_particle_asset())))),
            decoded is Err ==> r is None && old(self).same_tables(*final(self))
                && final(self).ids() == old(self).ids()
                && final(self).resolutions() == old(self).resolutions().push((data.command_id(), Some(DockCommandResult::NotOk(decoded->Err_0)))),
            decoded is Ok && (!(loads_vector(data.command()) || loads_particle(data.command())) || (loads_vector(data.command()) && old(self).ids().next_asset() == u32::MAX) || (loads_particle(data.command()) && old(self).ids().next_particle_asset() == u32::MAX)) ==> r is None
                && old(self).same_tables(*final(self)) && final(self).ids() == old(self).ids()
                && resolved_one(old(self).resolutions(), final(self).resolutions(), data.command_id())
                && final(self).resolutions().last().1->Some_0 is NotOk,
    {
        let handle = match decoded {
            Ok(h) => h,
            Err(reason) => {
                self.resolve(data, DockCommandResult::NotOk(reason));
                return None;
            },
        };
        let pushed = match data.data() {
            DockCommand::LoadSVGAssets(_) | DockCommand::LoadLottieAssets(_) => self.push_asset(
                handle,
            ),
            DockCommand::LoadParticleAssets(_) => self.push_particle_asset(handle),
            _ => {
                self.resolve(data, DockCommandResult::NotOk("load asset failed".to_owned()));
                return None;
            },
        };
        match pushed {
            Ok(id) => {
                self.resolve(data, DockCommandResult::Done(id));
                Some(id)
            },
            Err(_) => {
                self.resolve(data, DockCommandResult::NotOk("load asset failed".to_owned()));
                None
            },
        }
    }

    /// The first half of the ordered pick worker: takes at most one pick
    /// command and opens its query region; a command of another kind is
    /// resolved `NotOk`.
    pub fn spawn_picker(&mut self) -> (r: Result<Option<PendingPick>, DockFault>)
        requires
            old(self).wf(),
        ensures
            final(self).wf(),
            !old(self).registered(DockCommandDispatcherType::PickEntity) ==> r == Err::<
                Option<PendingPick>,
                DockFault,
            >(DockFault::UnregisteredClass(DockCommandDispatcherType::PickEntity))
                && *final(self) == *old(self),
            old(self).registered(DockCommandDispatcherType::PickEntity) && old(self).pending(
                DockCommandDispatcherType::PickEntity,
            ).len() == 0 ==> r == Ok::<Option<PendingPick>, DockFault>(None) && old(self).same_commands(*final(self)) && old(self).same_tables(*final(self)) && final(self).ids()
                == old(self).ids(),
            old(self).registered(DockCommandDispatcherType::PickEntity) && old(self).pending(
                DockCommandDispatcherType::PickEntity,
            ).len() > 0 ==> {
                let id = old(self).pending(DockCommandDispatcherType::PickEntity)[0];
                &&& took_oldest(*old(self), *final(self), DockCommandDispatcherType::PickEntity)
                &&& match r {
                    Ok(Some(p)) => p.command_id() == id && old(self).stored()[id]
                        == DockCommand::PickEntity(p.center(), p.radius_bits())
                        && final(self).resolutions() == old(self).resolutions(),
                    Ok(None) => !(old(self).stored()[id] is PickEntity)
                        && resolved_one(old(self).resolutions(), final(self).resolutions(), id)
                        && final(self).resolutions().last().1->Some_0 is NotOk,
                    Err(_) => false,
                }
            },
    {
        match self.take_next(DockCommandDispatcherType::PickEntity) {
            Err(e) => Err(e),
            Ok(None) => Ok(None),
            Ok(Some(d)) => {
                let region = match d.data() {
                    DockCommand::PickEntity(position, radius) => Some((*position, *radius)),
                    _ => None,
                };
                match region {
                    Some((position, radius)) => {
                        let (id, _, s) = d.into_parts();
                        Ok(Some(PendingPick { id, position, radius, s }))
                    },
                    None => {
                        self.resolve(d, DockCommandResult::NotOk("pick entity failed".to_owned()));
                        Ok(None)
                    },
                }
            },
        }
    }

    /// What a pick resolves to once its region has been checked: the id of
    /// the entity found there, or 0 where none was.
    pub fn pick_result(&self, hit: Option<u64>) -> (r: DockCommandResult)
        requires
            self.wf(),
        ensures
            hit is None ==> r == DockCommandResult::Done(0),
            hit is Some && self.entities().contains_value(hit->Some_0) ==> match r {
                DockCommandResult::Done(id) => self.entities().contains_key(id)
                    && self.entities()[id] == hit->Some_0,
                _ => false,
            },
            hit is Some && !self.entities().contains_value(hit->Some_0) ==> r is NotOk,
    {
        match hit {
            None => DockCommandResult::Done(0),
            Some(h) => match self.get_entity_id(h) {
                Ok(id) => DockCommandResult::Done(id),
                Err(_) => DockCommandResult::NotOk("picked entity has no id".to_owned()),
            },
        }
    }

    /// Resolves a pick, once its region has been checked, by sending
    /// `result` on its result channel.
    pub fn resolve_pick(&mut self, pick: PendingPick, result: DockCommandResult)
        requires
            old(self).wf(),
        ensures
            final(self).wf(),
            final(self).resolutions() == old(self).resolutions().push(
                (pick.command_id(), Some(result)),
            ),
            final(self).stored() == old(self).stored(),
            forall|c: DockCommandDispatcherType| #[trigger] final(self).registered(c) == old(self).registered(c),
            forall|c: DockCommandDispatcherType| #[trigger] final(self).pending(c) == old(self).pending(c),
            old(self).same_tables(*final(self)),
            final(self).ids() == old(self).ids(),
    {
        proof {
            use_type_invariant(&pick);
        }
        let PendingPick { id, position: _, radius: _, s } = pick;
        self.resolve_sender(id, s, result);
    }
}

} // verus!
