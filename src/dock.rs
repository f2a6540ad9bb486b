//! The dock: the aggregate that owns the command registry, the class queues,
//! the id allocator and the indirection tables.
use vstd::prelude::*;
use std::collections::HashMap;
use futures::channel::oneshot;
use crate::channels::{queued_ids, sent_result, IdQueue, ResultSender};
use crate::DockSystems;
use crate::commands::{
    class_index, class_of, command_to_dispatcher, lemma_class_index_injective, DockCommand,
    DockCommandDispatcherType, DockCommandResult,
};
use crate::ids::IDGen;
use crate::tables::EntityTable;

verus! {

broadcast use vstd::std_specs::hash::group_hash_axioms;

/// A fault in how the dock is used: a programming error in the wiring, not a
/// runtime condition of the simulation.
#[derive(Clone, Copy, Debug, PartialEq, Eq, Structural)]
pub enum DockFault {
    /// No worker registered the class of a submitted command.
    UnregisteredClass(DockCommandDispatcherType),
    /// A worker registered a class that was registered before.
    AlreadyRegistered(DockCommandDispatcherType),
    /// An entity id that the table does not hold.
    UnknownEntity(u32),
    /// An entity handle that the table does not hold.
    UnknownEntityHandle(u64),
    /// An entity handle that the table already maps from another id.
    EntityHandleInUse(u64),
    /// An asset id that the asset table does not hold.
    UnknownAsset(u32),
    /// A particle-asset id that the particle-asset table does not hold.
    UnknownParticleAsset(u32),
    /// An id space has issued its last id.
    IdSpaceExhausted,
}

/// A submitted command: its id, its payload and the sending half of its
/// result channel.
#[derive(Debug)]
pub struct DockData {
    id: u32,
    data: DockCommand,
    s: ResultSender,
}

impl DockData {
    /// A stored or taken command was not resolved yet: only the dock makes
    /// one, and resolving it consumes it.
    #[verifier::type_invariant]
    spec fn unsent(self) -> bool {
        sent_result(self.s) is None
    }

    /// The id of the command.
    pub closed spec fn command_id(&self) -> u32 {
        self.id
    }

    /// The payload of the command.
    pub closed spec fn command(&self) -> DockCommand {
        self.data
    }

    pub fn id(&self) -> (r: u32)
        ensures
            r == self.command_id(),
    {
        self.id
    }

    pub fn data(&self) -> (r: &DockCommand)
        ensures
            *r == self.command(),
    {
        &self.data
    }

    /// The id, the payload and the unsent result channel of the command.
    pub(crate) fn into_parts(self) -> (r: (u32, DockCommand, ResultSender))
        ensures
            r.0 == self.command_id(),
            r.1 == self.command(),
            sent_result(r.2) is None,
    {
        proof {
            use_type_invariant(&self);
        }
        let DockData { id, data, s } = self;
        (id, data, s)
    }
}

/// What each logged result channel carries: the command id and the result
/// sent on it.
pub open spec fn log_view(log: Seq<(u32, ResultSender)>) -> Seq<(u32, Option<DockCommandResult>)> {
    log.map_values(|e: (u32, ResultSender)| (e.0, sent_result(e.1)))
}

/// Every element is smaller than every later one.
pub open spec fn increasing(s: Seq<u32>) -> bool {
    forall|i: int, j: int| 0 <= i < j < s.len() ==> s[i] < s[j]
}

/// The log entries of commands resolved as superseded, in the order of `ids`.
pub open spec fn superseded_log(ids: Seq<u32>) -> Seq<(u32, Option<DockCommandResult>)> {
    ids.map_values(|id: u32| (id, Some(DockCommandResult::Superseded)))
}

/// `after` resolved exactly one command more than `before`, command `id`,
/// whatever the result.
pub open spec fn resolved_one(
    before: Seq<(u32, Option<DockCommandResult>)>,
    after: Seq<(u32, Option<DockCommandResult>)>,
    id: u32,
) -> bool {
    &&& after.len() == before.len() + 1
    &&& after == before.push(after.last())
    &&& after.last().0 == id
    &&& after.last().1 is Some
}

/// `after` is `before` with `command` submitted: stored under the next
/// command id, and that id queued last on the command's class.
pub open spec fn submitted(before: Dock, after: Dock, command: DockCommand) -> bool {
    let id = before.ids().next_command();
    let c = class_of(command);
    &&& before.registered(c)
    &&& !before.stored().contains_key(id)
    &&& after.stored() == before.stored().insert(id, command)
    &&& after.pending(c) == before.pending(c).push(id)
    &&& before.same_queues_except(after, c)
    &&& before.same_tables(after)
    &&& after.ids().next_command() == id + 1
    &&& after.ids().next_entity() == before.ids().next_entity()
    &&& after.ids().next_asset() == before.ids().next_asset()
    &&& after.ids().next_particle_asset() == before.ids().next_particle_asset()
    &&& after.resolutions() == before.resolutions()
}

/// `after` is `before` with the oldest id of class `c` taken off its queue,
/// and its command out of the registry.
pub open spec fn took_oldest(before: Dock, after: Dock, c: DockCommandDispatcherType) -> bool {
    &&& before.pending(c).len() > 0
    &&& after.pending(c) == before.pending(c).drop_first()
    &&& after.stored() == before.stored().remove(before.pending(c)[0])
    &&& before.same_queues_except(after, c)
    &&& before.same_tables(after)
    &&& after.ids() == before.ids()
}

/// What a coalescing worker takes in one tick: the ids of the commands that
/// it resolved as superseded, oldest first, and the latest command, to apply.
#[derive(Debug)]
pub struct Coalesced {
    pub superseded: Vec<u32>,
    pub latest: Option<DockData>,
}

/// `after` is `before` with every queued id of class `c` taken off its queue
/// and its command out of the registry; `co` lists all of them but the latest
/// as superseded, oldest first, and holds the latest.
pub open spec fn took_all(before: Dock, after: Dock, c: DockCommandDispatcherType, co: Coalesced) -> bool {
    let q = before.pending(c);
    &&& after.resolutions() == before.resolutions() + superseded_log(co.superseded@)
    &&& after.pending(c) == Seq::<u32>::empty()
    &&& after.stored() == before.stored().remove_keys(q.to_set())
    &&& q.len() == 0 ==> co.superseded@ == Seq::<u32>::empty() && co.latest is None
    &&& q.len() > 0 ==> co.superseded@ == q.take(q.len() - 1) && match co.latest {
        Some(d) => d.command_id() == q.last() && d.command() == before.stored()[q.last()],
        None => false,
    }
}

/// The command registry, the class queues, the id allocator and the tables.
pub struct Dock {
    commands: HashMap<u32, DockData>,
    entities: EntityTable,
    assets: HashMap<u32, u64>,
    particle_assets: HashMap<u32, u64>,
    messenger: HashMap<u32, IdQueue>,
    id_generator: IDGen,
    stages: Vec<DockSystems>,
    log: Ghost<Seq<(u32, ResultSender)>>,
}

impl Dock {
    /// Whether a worker registered class `c`.
    pub closed spec fn registered(&self, c: DockCommandDispatcherType) -> bool {
        self.messenger@.contains_key(class_index(c))
    }

    /// The ids queued for class `c`, oldest first.
    pub closed spec fn pending(&self, c: DockCommandDispatcherType) -> Seq<u32> {
        if self.registered(c) {
            queued_ids(self.messenger@[class_index(c)])
        } else {
            Seq::empty()
        }
    }

    /// The payloads of the submitted commands that no worker took yet.
    pub closed spec fn stored(&self) -> Map<u32, DockCommand> {
        self.commands@.map_values(|d: DockData| d.data)
    }

    /// The entity table, from id to handle.
    pub closed spec fn entities(&self) -> Map<u32, u64> {
        self.entities@
    }

    /// The asset table, from id to handle.
    pub closed spec fn assets(&self) -> Map<u32, u64> {
        self.assets@
    }

    /// The particle-asset table, from id to handle.
    pub closed spec fn particle_assets(&self) -> Map<u32, u64> {
        self.particle_assets@
    }

    /// The id allocator.
    pub closed spec fn ids(&self) -> IDGen {
        self.id_generator
    }

    /// Every result channel resolved so far, in the order resolved: the
    /// command id and what its channel carries.
    pub closed spec fn resolutions(&self) -> Seq<(u32, Option<DockCommandResult>)> {
        log_view(self.log@)
    }

    /// The stages of a tick, in the order in which the workers run.
    pub closed spec fn stage_order(&self) -> Seq<DockSystems> {
        self.stages@
    }

    pub fn stages(&self) -> (r: &Vec<DockSystems>)
        ensures
            r@ == self.stage_order(),
    {
        &self.stages
    }

    /// Sets the order of the stages of a tick.
    pub(crate) fn set_stages(&mut self, order: Vec<DockSystems>)
        requires
            old(self).wf(),
        ensures
            final(self).wf(),
            final(self).stage_order() == order@,
            old(self).same_commands(*final(self)),
            old(self).same_tables(*final(self)),
            final(self).ids() == old(self).ids(),
    {
        let ghost before = *self;
        self.stages = order;
        proof {
            Dock::lemma_commands_frame(before, *self);
        }
    }

    /// Every table holds only ids that its space issued; the entity table
    /// holds the same pairs both ways; each queue holds stored commands of its
    /// own class, in the order in which they were submitted.
    pub closed spec fn wf(&self) -> bool {
        &&& self.id_generator.wf()
        &&& self.entities.wf()
        &&& forall|id: u32| #[trigger]
            self.entities@.contains_key(id) ==> 1 <= id < self.id_generator.next_entity()
        &&& forall|id: u32| #[trigger]
            self.assets@.contains_key(id) ==> 1 <= id < self.id_generator.next_asset()
        &&& forall|id: u32| #[trigger]
            self.particle_assets@.contains_key(id) ==> 1 <= id
                < self.id_generator.next_particle_asset()
        &&& self.commands_wf()
    }

    /// The registry and queue part of `wf`.
    closed spec fn commands_wf(&self) -> bool {
        &&& forall|id: u32| #[trigger]
            self.commands@.contains_key(id) ==> 1 <= id < self.id_generator.next_command()
                && self.commands@[id].id == id
        &&& forall|c: DockCommandDispatcherType| #[trigger] increasing(self.pending(c))
        &&& forall|c: DockCommandDispatcherType, i: int|
            #![trigger self.pending(c)[i]]
            0 <= i < self.pending(c).len() ==> self.commands@.contains_key(self.pending(c)[i])
                && class_of(self.commands@[self.pending(c)[i]].data) == c
    }

    /// The registry and queue part of `wf` depends on the registry, the
    /// queues and the next command id alone.
    proof fn lemma_commands_frame(a: Dock, b: Dock)
        requires
            a.commands_wf(),
            b.commands@ == a.commands@,
            b.messenger@ == a.messenger@,
            b.id_generator.next_command() == a.id_generator.next_command(),
        ensures
            b.commands_wf(),
            forall|c: DockCommandDispatcherType| #[trigger] b.pending(c) == a.pending(c),
    {
        assert forall|c: DockCommandDispatcherType| #[trigger]
            b.pending(c) == a.pending(c) by {}
        assert forall|c: DockCommandDispatcherType| #[trigger] increasing(b.pending(c)) by {
            assert(increasing(a.pending(c)));
        }
        assert forall|c: DockCommandDispatcherType, i: int|
            0 <= i < b.pending(c).len() implies b.commands@.contains_key(
            #[trigger] b.pending(c)[i],
        ) && class_of(b.commands@[b.pending(c)[i]].data) == c by {
            assert(a.pending(c)[i] == b.pending(c)[i]);
        }
    }

    /// The queue of each class lists its commands in submission order, and
    /// each queued id belongs to a stored command of that class.
    pub proof fn lemma_pending(&self, c: DockCommandDispatcherType)
        requires
            self.wf(),
        ensures
            self.pending(c).len() > 0 ==> self.registered(c),
            increasing(self.pending(c)),
            forall|i: int|
                #![trigger self.pending(c)[i]]
                0 <= i < self.pending(c).len() ==> self.stored().contains_key(self.pending(c)[i])
                    && class_of(self.stored()[self.pending(c)[i]]) == c
                    && 1 <= self.pending(c)[i] < self.ids().next_command(),
    {
    }

    /// No entity handle stands for two ids, and the id allocator never
    /// issues 0.
    pub proof fn lemma_wf(&self)
        requires
            self.wf(),
        ensures
            self.entities().is_injective(),
            self.ids().wf(),
            forall|id: u32| #[trigger]
                self.entities().contains_key(id) ==> 1 <= id < self.ids().next_entity(),
            forall|id: u32| #[trigger]
                self.stored().contains_key(id) ==> 1 <= id < self.ids().next_command(),
            forall|id: u32| #[trigger]
                self.assets().contains_key(id) ==> 1 <= id < self.ids().next_asset(),
            forall|id: u32| #[trigger]
                self.particle_assets().contains_key(id) ==> 1 <= id
                    < self.ids().next_particle_asset(),
    {
        self.entities.lemma_injective();
    }

    /// `other` has the same queues and the same stored commands as `self`.
    pub open spec fn same_commands(&self, other: Dock) -> bool {
        &&& forall|c: DockCommandDispatcherType| #[trigger]
            other.registered(c) == self.registered(c)
        &&& forall|c: DockCommandDispatcherType| #[trigger]
            other.pending(c) == self.pending(c)
        &&& other.stored() == self.stored()
        &&& other.resolutions() == self.resolutions()
    }

    /// `other` has the same queues as `self` except maybe the one of `c`.
    pub open spec fn same_queues_except(&self, other: Dock, c: DockCommandDispatcherType) -> bool {
        &&& forall|o: DockCommandDispatcherType| #[trigger]
            other.registered(o) == self.registered(o)
        &&& forall|o: DockCommandDispatcherType|
            o != c ==> #[trigger] other.pending(o) == self.pending(o)
    }

    /// `other` has the same three tables as `self`.
    pub open spec fn same_tables(&self, other: Dock) -> bool {
        &&& other.entities() == self.entities()
        &&& other.assets() == self.assets()
        &&& other.particle_assets() == self.particle_assets()
    }

    pub fn is_registered(&self, class: DockCommandDispatcherType) -> (r: bool)
        ensures
            r == self.registered(class),
    {
        self.messenger.contains_key(&class.to_index())
    }

    /// Creates the queue of `ext`; each class is registered once, before any
    /// command of it is submitted.
    pub fn register(&mut self, ext: DockCommandDispatcherType) -> (r: Result<(), DockFault>)
        requires
            old(self).wf(),
        ensures
            final(self).wf(),
            old(self).same_tables(*final(self)),
            final(self).ids() == old(self).ids(),
            final(self).stage_order() == old(self).stage_order(),
            final(self).resolutions() == old(self).resolutions(),
            final(self).stored() == old(self).stored(),
            old(self).registered(ext) ==> r == Err::<(), DockFault>(DockFault::AlreadyRegistered(ext))
                && old(self).same_commands(*final(self)),
            !old(self).registered(ext) ==> r == Ok::<(), DockFault>(()) && final(self).registered(ext)
                && final(self).pending(ext) == Seq::<u32>::empty()
                && forall|o: DockCommandDispatcherType|
                o != ext ==> #[trigger] final(self).registered(o) == old(self).registered(o)
                    && final(self).pending(o) == old(self).pending(o),
    {
        let index = ext.to_index();
        if self.messenger.contains_key(&index) {
            return Err(DockFault::AlreadyRegistered(ext));
        }
        let ghost before = *self;
        self.messenger.insert(index, IdQueue::new());
        proof {
            assert forall|o: DockCommandDispatcherType| o != ext implies #[trigger] self.registered(o)
                == before.registered(o) && self.pending(o) == before.pending(o) by {
                lemma_class_index_injective(o, ext);
            }
            assert forall|o: DockCommandDispatcherType| #[trigger] increasing(self.pending(o)) by {
                lemma_class_index_injective(o, ext);
            }
            assert forall|o: DockCommandDispatcherType, i: int|
                0 <= i < self.pending(o).len() implies self.commands@.contains_key(
                #[trigger] self.pending(o)[i],
            ) && class_of(self.commands@[self.pending(o)[i]].data) == o by {
                lemma_class_index_injective(o, ext);
                assert(self.pending(o) == before.pending(o));
            }
        }
        Ok(())
    }

    /// Takes the command `index` out of the registry.
    fn get_command(&mut self, index: u32) -> (r: DockData)
        requires
            old(self).commands@.contains_key(index),
        ensures
            r == old(self).commands@[index],
            final(self).commands@ == old(self).commands@.remove(index),
            final(self).entities == old(self).entities,
            final(self).assets == old(self).assets,
            final(self).particle_assets == old(self).particle_assets,
            final(self).messenger == old(self).messenger,
            final(self).id_generator == old(self).id_generator,
            final(self).log == old(self).log,
    {
        self.commands.remove(&index).unwrap()
    }

    /// Submits `command`: gives it the next command id, stores it with a new
    /// result channel, queues the id on the command's class and hands back
    /// the receiving half of the result channel.
    pub fn push_commands(&mut self, command: DockCommand) -> (r: Result<
        oneshot::Receiver<DockCommandResult>,
        DockFault,
    >)
        requires
            old(self).wf(),
        ensures
            final(self).wf(),
            !old(self).registered(class_of(command)) ==> r == Err::<
                oneshot::Receiver<DockCommandResult>,
                DockFault,
            >(DockFault::UnregisteredClass(class_of(command))) && *final(self) == *old(self),
            old(self).registered(class_of(command)) && old(self).ids().next_command() == u32::MAX
                ==> r == Err::<oneshot::Receiver<DockCommandResult>, DockFault>(
                DockFault::IdSpaceExhausted,
            ) && *final(self) == *old(self),
            old(self).registered(class_of(command)) && old(self).ids().next_command() < u32::MAX
                ==> r is Ok && submitted(*old(self), *final(self), command),
    {
        let class = command_to_dispatcher(&command);
        let index = class.to_index();
        if !self.messenger.contains_key(&index) {
            return Err(DockFault::UnregisteredClass(class));
        }
        if !self.id_generator.has_command_id() {
            return Err(DockFault::IdSpaceExhausted);
        }
        let ghost before = *self;
        let (s, r) = ResultSender::new();
        let id = self.id_generator.next_command_id();
        self.commands.insert(id, DockData { id, data: command, s });
        match self.messenger.remove(&index) {
            Some(mut q) => {
                q.push(id);
                self.messenger.insert(index, q);
            },
            None => {},
        }
        proof {
            assert(self.stored() =~= before.stored().insert(id, command));
            assert(self.pending(class) =~= before.pending(class).push(id));
            assert forall|o: DockCommandDispatcherType| o != class implies #[trigger] self.registered(o)
                == before.registered(o) && self.pending(o) == before.pending(o) by {
                lemma_class_index_injective(o, class);
            }
            assert forall|o: DockCommandDispatcherType| #[trigger]
                self.registered(o) == before.registered(o) by {
                lemma_class_index_injective(o, class);
            }
            assert forall|o: DockCommandDispatcherType| #[trigger] increasing(self.pending(o)) by {
                if o != class {
                } else {
                    assert forall|i: int, j: int|
                        0 <= i < j < self.pending(o).len() implies self.pending(o)[i]
                        < self.pending(o)[j] by {
                        assert(increasing(before.pending(o)));
                        if j < before.pending(o).len() {
                            assert(self.pending(o)[i] == before.pending(o)[i]);
                            assert(self.pending(o)[j] == before.pending(o)[j]);
                        } else {
                            assert(self.pending(o)[i] == before.pending(o)[i]);
                            assert(self.pending(o)[j] == id);
                            assert(before.commands@.contains_key(before.pending(o)[i]));
                        }
                    }
                }
            }
            assert forall|o: DockCommandDispatcherType, i: int|
                0 <= i < self.pending(o).len() implies self.commands@.contains_key(
                #[trigger] self.pending(o)[i],
            ) && class_of(self.commands@[self.pending(o)[i]].data) == o by {
                if o == class && i == before.pending(o).len() {
                } else {
                    assert(self.pending(o)[i] == before.pending(o)[i]);
                    assert(before.commands@.contains_key(before.pending(o)[i]));
                }
            }
        }
        Ok(r)
    }

    /// Sends `result` on the result channel `s` of command `id`, and logs
    /// the channel.
    fn send_logged(&mut self, id: u32, s: ResultSender, result: DockCommandResult)
        requires
            sent_result(s) is None,
        ensures
            log_view(final(self).log@) == log_view(old(self).log@).push((id, Some(result))),
            final(self).commands == old(self).commands,
            final(self).entities == old(self).entities,
            final(self).assets == old(self).assets,
            final(self).particle_assets == old(self).particle_assets,
            final(self).messenger == old(self).messenger,
            final(self).id_generator == old(self).id_generator,
            final(self).stages == old(self).stages,
    {
        let ghost before = self.log@;
        let ghost sent = result;
        let mut s = s;
        s.send(result);
        self.log = Ghost(self.log@.push((id, s)));
        proof {
            assert(log_view(self.log@) =~= log_view(before).push((id, Some(sent))));
        }
    }

    /// Resolves command `id` by sending `result` on its unsent result
    /// channel `s`.
    pub(crate) fn resolve_sender(&mut self, id: u32, s: ResultSender, result: DockCommandResult)
        requires
            old(self).wf(),
            sent_result(s) is None,
        ensures
            final(self).wf(),
            final(self).resolutions() == old(self).resolutions().push((id, Some(result))),
            final(self).stored() == old(self).stored(),
            forall|c: DockCommandDispatcherType| #[trigger]
                final(self).registered(c) == old(self).registered(c),
            forall|c: DockCommandDispatcherType| #[trigger]
                final(self).pending(c) == old(self).pending(c),
            old(self).same_tables(*final(self)),
            final(self).ids() == old(self).ids(),
            final(self).stage_order() == old(self).stage_order(),
    {
        let ghost before = *self;
        self.send_logged(id, s, result);
        proof {
            Dock::lemma_commands_frame(before, *self);
        }
    }

    /// Resolves the command of `data` by sending `result` on its result
    /// channel. A caller that dropped its receiver has given up on the
    /// result: that send fails and is ignored.
    pub fn resolve(&mut self, data: DockData, result: DockCommandResult)
        requires
            old(self).wf(),
        ensures
            final(self).wf(),
            final(self).resolutions() == old(self).resolutions().push(
                (data.command_id(), Some(result)),
            ),
            final(self).stored() == old(self).stored(),
            forall|c: DockCommandDispatcherType| #[trigger]
                final(self).registered(c) == old(self).registered(c),
            forall|c: DockCommandDispatcherType| #[trigger]
                final(self).pending(c) == old(self).pending(c),
            old(self).same_tables(*final(self)),
            final(self).ids() == old(self).ids(),
    {
        let (id, _, s) = data.into_parts();
        self.resolve_sender(id, s, result);
    }

    /// The ordered policy: takes the oldest queued command of `class`, if
    /// any, out of the queue and out of the registry.
    pub fn take_next(&mut self, class: DockCommandDispatcherType) -> (r: Result<
        Option<DockData>,
        DockFault,
    >)
        requires
            old(self).wf(),
        ensures
            final(self).wf(),
            final(self).resolutions() == old(self).resolutions(),
            !old(self).registered(class) ==> r == Err::<Option<DockData>, DockFault>(
                DockFault::UnregisteredClass(class),
            ) && *final(self) == *old(self),
            old(self).registered(class) && old(self).pending(class).len() == 0 ==> r == Ok::<
                Option<DockData>,
                DockFault,
            >(None) && old(self).same_commands(*final(self)) && old(self).same_tables(*final(self))
                && final(self).ids() == old(self).ids(),
            old(self).registered(class) && old(self).pending(class).len() > 0 ==> match r {
                Ok(Some(d)) => d.command_id() == old(self).pending(class)[0] && d.command()
                    == old(self).stored()[d.command_id()]
                    && took_oldest(*old(self), *final(self), class),
                _ => false,
            },
    {
        let index = class.to_index();
        if !self.messenger.contains_key(&index) {
            return Err(DockFault::UnregisteredClass(class));
        }
        let ghost before = *self;
        let ghost q0 = self.pending(class);
        let mut q = self.messenger.remove(&index).unwrap();
        let popped = q.try_pop();
        self.messenger.insert(index, q);
        proof {
            assert forall|o: DockCommandDispatcherType| o != class implies #[trigger] self.registered(o)
                == before.registered(o) && self.pending(o) == before.pending(o) by {
                lemma_class_index_injective(o, class);
            }
            assert forall|o: DockCommandDispatcherType| #[trigger]
                self.registered(o) == before.registered(o) by {
                lemma_class_index_injective(o, class);
            }
        }
        match popped {
            None => {
                proof {
                    assert(self.pending(class) == q0);
                    assert forall|o: DockCommandDispatcherType| #[trigger]
                        self.pending(o) == before.pending(o) by {
                        lemma_class_index_injective(o, class);
                    }
                }
                Ok(None)
            },
            Some(id) => {
                proof {
                    assert(q0[0] == id);
                    assert(before.commands@.contains_key(q0[0]));
                    assert(self.pending(class) == q0.drop_first());
                }
                let d = self.get_command(id);
                proof {
                    assert(self.stored() =~= before.stored().remove(id));
                    assert(increasing(q0));
                    assert forall|o: DockCommandDispatcherType| #[trigger]
                        increasing(self.pending(o)) by {
                        if o == class {
                            assert forall|i: int, j: int|
                                0 <= i < j < self.pending(o).len() implies self.pending(o)[i]
                                < self.pending(o)[j] by {
                                assert(self.pending(o)[i] == q0[i + 1]);
                                assert(self.pending(o)[j] == q0[j + 1]);
                            }
                        } else {
                            assert(increasing(before.pending(o)));
                        }
                    }
                    assert forall|o: DockCommandDispatcherType, i: int|
                        0 <= i < self.pending(o).len() implies self.commands@.contains_key(
                        #[trigger] self.pending(o)[i],
                    ) && class_of(self.commands@[self.pending(o)[i]].data) == o by {
                        if o == class {
                            assert(self.pending(o)[i] == q0[i + 1]);
                            assert(q0[0] < q0[i + 1]);
                            assert(before.commands@.contains_key(q0[i + 1]));
                        } else {
                            assert(self.pending(o)[i] == before.pending(o)[i]);
                            assert(before.commands@.contains_key(before.pending(o)[i]));
                            assert(class_of(before.commands@[id].data) == class);
                        }
                    }
                }
                Ok(Some(d))
            },
        }
    }

    /// The coalescing policy: takes every queued command of `class` out of
    /// the queue and out of the registry, resolves all but the latest as
    /// superseded, and hands back the latest.
    pub fn take_latest(&mut self, class: DockCommandDispatcherType) -> (r: Result<
        Coalesced,
        DockFault,
    >)
        requires
            old(self).wf(),
        ensures
            final(self).wf(),
            old(self).same_tables(*final(self)),
            final(self).ids() == old(self).ids(),
            old(self).same_queues_except(*final(self), class),
            !old(self).registered(class) ==> r == Err::<Coalesced, DockFault>(
                DockFault::UnregisteredClass(class),
            ) && *final(self) == *old(self),
            old(self).registered(class) ==> match r {
                Ok(co) => took_all(*old(self), *final(self), class, co),
                Err(_) => false,
            },
    {
        let index = class.to_index();
        if !self.messenger.contains_key(&index) {
            return Err(DockFault::UnregisteredClass(class));
        }
        let ghost before = *self;
        let ghost q0 = self.pending(class);
        proof {
            assert(increasing(q0));
        }
        let mut q = self.messenger.remove(&index).unwrap();
        let mut superseded: Vec<u32> = Vec::new();
        let mut last: Option<DockData> = None;
        let ghost mut k: int = 0;
        loop
            invariant
                before.wf(),
                before.registered(class),
                q0 == before.pending(class),
                increasing(q0),
                0 <= k <= q0.len(),
                queued_ids(q) == q0.skip(k),
                k == 0 ==> last is None && superseded@ == Seq::<u32>::empty(),
                k > 0 ==> superseded@ == q0.take(k - 1) && match last {
                    Some(d) => d.id == q0[k - 1] && d.data == before.commands@[q0[k - 1]].data,
                    None => false,
                },
                self.commands@ == before.commands@.remove_keys(q0.take(k).to_set()),
                self.messenger@ == before.messenger@.remove(index),
                self.entities == before.entities,
                self.assets == before.assets,
                self.particle_assets == before.particle_assets,
                self.id_generator == before.id_generator,
                log_view(self.log@) == log_view(before.log@) + superseded_log(superseded@),
            ensures
                k == q0.len(),
            decreases queued_ids(q).len(),
        {
            match q.try_pop() {
                None => {
                    break;
                },
                Some(id) => {
                    proof {
                        assert(id == q0[k]);
                        assert(before.commands@.contains_key(q0[k]));
                        assert(!q0.take(k).contains(id)) by {
                            if q0.take(k).contains(id) {
                                let j = choose|j: int| 0 <= j < k && q0.take(k)[j] == id;
                                assert(q0[j] < q0[k]);
                            }
                        }
                    }
                    let d = self.get_command(id);
                    let ghost sup0 = superseded@;
                    if let Some(p) = last {
                        let (pid, _, ps) = p.into_parts();
                        superseded.push(pid);
                        self.send_logged(pid, ps, DockCommandResult::Superseded);
                        proof {
                            assert(superseded_log(superseded@) =~= superseded_log(sup0).push(
                                (superseded@.last(), Some(DockCommandResult::Superseded)),
                            ));
                        }
                    }
                    last = Some(d);
                    proof {
                        assert(q0.take(k + 1).to_set() =~= q0.take(k).to_set().insert(id)) by {
                            let a = q0.take(k);
                            let b = q0.take(k + 1);
                            assert(b =~= a.push(id));
                            assert(b[k] == id);
                            assert forall|x: u32| b.contains(x) <==> a.contains(x) || x == id by {
                                if b.contains(x) && x != id {
                                    let j = choose|j: int| 0 <= j < b.len() && b[j] == x;
                                    assert(a[j] == x);
                                }
                                if a.contains(x) {
                                    let j = choose|j: int| 0 <= j < a.len() && a[j] == x;
                                    assert(b[j] == x);
                                }
                            }
                        }
                        assert(self.commands@ =~= before.commands@.remove_keys(
                            q0.take(k + 1).to_set(),
                        ));
                        if k > 0 {
                            assert(superseded@ =~= q0.take(k));
                        }
                        assert(q0.skip(k).drop_first() =~= q0.skip(k + 1));
                        k = k + 1;
                    }
                },
            }
        }
        self.messenger.insert(index, IdQueue::new());
        proof {
            assert(q0.take(q0.len() as int) =~= q0);
            assert(self.stored() =~= before.stored().remove_keys(q0.to_set()));
            assert forall|o: DockCommandDispatcherType| o != class implies #[trigger] self.registered(o)
                == before.registered(o) && self.pending(o) == before.pending(o) by {
                lemma_class_index_injective(o, class);
            }
            assert forall|o: DockCommandDispatcherType| #[trigger]
                self.registered(o) == before.registered(o) by {
                lemma_class_index_injective(o, class);
            }
            assert forall|o: DockCommandDispatcherType| #[trigger] increasing(self.pending(o)) by {
                if o != class {
                    assert(increasing(before.pending(o)));
                }
            }
            assert forall|o: DockCommandDispatcherType, i: int|
                0 <= i < self.pending(o).len() implies self.commands@.contains_key(
                #[trigger] self.pending(o)[i],
            ) && class_of(self.commands@[self.pending(o)[i]].data) == o by {
                let x = self.pending(o)[i];
                assert(x == before.pending(o)[i]);
                assert(before.commands@.contains_key(x));
                assert(!q0.to_set().contains(x)) by {
                    if q0.contains(x) {
                        let j = choose|j: int| 0 <= j < q0.len() && q0[j] == x;
                        assert(before.commands@.contains_key(q0[j]));
                    }
                }
            }
        }
        Ok(Coalesced { superseded, latest: last })
    }

    /// Gives a new entity handle the next entity id.
    pub fn push_entitie(&mut self, entity: u64) -> (r: Result<u32, DockFault>)
        requires
            old(self).wf(),
        ensures
            final(self).wf(),
            old(self).same_commands(*final(self)),
            final(self).assets() == old(self).assets(),
            final(self).particle_assets() == old(self).particle_assets(),
            old(self).ids().reaches(final(self).ids()),
            final(self).ids().next_command() == old(self).ids().next_command(),
            final(self).ids().next_asset() == old(self).ids().next_asset(),
            final(self).ids().next_particle_asset() == old(self).ids().next_particle_asset(),
            old(self).entities().contains_value(entity) ==> r == Err::<u32, DockFault>(
                DockFault::EntityHandleInUse(entity),
            ) && *final(self) == *old(self),
            !old(self).entities().contains_value(entity) && old(self).ids().next_entity() == u32::MAX
                ==> r == Err::<u32, DockFault>(DockFault::IdSpaceExhausted) && *final(self)
                == *old(self),
            !old(self).entities().contains_value(entity) && old(self).ids().next_entity() < u32::MAX
                ==> r == Ok::<u32, DockFault>(old(self).ids().next_entity())
                && !old(self).entities().contains_key(old(self).ids().next_entity())
                && final(self).entities() == old(self).entities().insert(
                old(self).ids().next_entity(),
                entity,
            ) && final(self).ids().next_entity() == old(self).ids().next_entity() + 1,
    {
        let ghost before = *self;
        if self.entities.contains_handle(entity) {
            return Err(DockFault::EntityHandleInUse(entity));
        }
        if !self.id_generator.has_entity_id() {
            return Err(DockFault::IdSpaceExhausted);
        }
        let id = self.id_generator.next_entity_id();
        self.entities.insert(id, entity);
        proof {
            Dock::lemma_commands_frame(before, *self);
        }
        Ok(id)
    }

    /// Removes entity `id` from the table, in both directions, and hands
    /// back its handle.
    pub fn remove_entitie(&mut self, id: u32) -> (r: Result<u64, DockFault>)
        requires
            old(self).wf(),
        ensures
            final(self).wf(),
            old(self).same_commands(*final(self)),
            final(self).assets() == old(self).assets(),
            final(self).particle_assets() == old(self).particle_assets(),
            final(self).ids() == old(self).ids(),
            final(self).entities() == old(self).entities().remove(id),
            old(self).entities().contains_key(id) ==> r == Ok::<u64, DockFault>(
                old(self).entities()[id],
            ),
            !old(self).entities().contains_key(id) ==> r == Err::<u64, DockFault>(
                DockFault::UnknownEntity(id),
            ) && *final(self) == *old(self),
    {
        let ghost before = *self;
        if self.entities.lookup_by_id(id).is_none() {
            proof {
                assert(self.entities@.remove(id) =~= self.entities@);
            }
            return Err(DockFault::UnknownEntity(id));
        }
        let removed = self.entities.remove(id);
        proof {
            Dock::lemma_commands_frame(before, *self);
        }
        match removed {
            Some(h) => Ok(h),
            None => Err(DockFault::UnknownEntity(id)),
        }
    }

    /// The handle of entity `id`.
    pub fn get_entity_with_id(&self, id: u32) -> (r: Result<u64, DockFault>)
        ensures
            self.entities().contains_key(id) ==> r == Ok::<u64, DockFault>(self.entities()[id]),
            !self.entities().contains_key(id) ==> r == Err::<u64, DockFault>(
                DockFault::UnknownEntity(id),
            ),
    {
        match self.entities.lookup_by_id(id) {
            Some(h) => Ok(h),
            None => Err(DockFault::UnknownEntity(id)),
        }
    }

    /// The id of entity handle `entity`.
    pub fn get_entity_id(&self, entity: u64) -> (r: Result<u32, DockFault>)
        requires
            self.wf(),
        ensures
            match r {
                Ok(id) => self.entities().contains_key(id) && self.entities()[id] == entity,
                Err(e) => e == DockFault::UnknownEntityHandle(entity)
                    && !self.entities().contains_value(entity),
            },
    {
        match self.entities.lookup_by_handle(entity) {
            Some(id) => Ok(id),
            None => Err(DockFault::UnknownEntityHandle(entity)),
        }
    }

    /// Gives a new asset handle the next asset id.
    pub fn push_asset(&mut self, asset: u64) -> (r: Result<u32, DockFault>)
        requires
            old(self).wf(),
        ensures
            final(self).wf(),
            old(self).same_commands(*final(self)),
            final(self).entities() == old(self).entities(),
            final(self).particle_assets() == old(self).particle_assets(),
            old(self).ids().reaches(final(self).ids()),
            final(self).ids().next_command() == old(self).ids().next_command(),
            final(self).ids().next_entity() == old(self).ids().next_entity(),
            final(self).ids().next_particle_asset() == old(self).ids().next_particle_asset(),
            old(self).ids().next_asset() == u32::MAX ==> r == Err::<u32, DockFault>(
                DockFault::IdSpaceExhausted,
            ) && *final(self) == *old(self),
            old(self).ids().next_asset() < u32::MAX ==> r == Ok::<u32, DockFault>(
                old(self).ids().next_asset(),
            ) && !old(self).assets().contains_key(old(self).ids().next_asset()) && final(self).assets() == old(self).assets().insert(
                old(self).ids().next_asset(),
                asset,
            ) && final(self).ids().next_asset() == old(self).ids().next_asset() + 1,
    {
        let ghost before = *self;
        if !self.id_generator.has_asset_id() {
            return Err(DockFault::IdSpaceExhausted);
        }
        let id = self.id_generator.next_assets_id();
        self.assets.insert(id, asset);
        proof {
            Dock::lemma_commands_frame(before, *self);
        }
        Ok(id)
    }

    /// Removes asset `id` from the asset table, if it is there.
    pub fn remove_asset(&mut self, id: u32)
        requires
            old(self).wf(),
        ensures
            final(self).wf(),
            old(self).same_commands(*final(self)),
            final(self).entities() == old(self).entities(),
            final(self).particle_assets() == old(self).particle_assets(),
            final(self).ids() == old(self).ids(),
            final(self).assets() == old(self).assets().remove(id),
    {
        let ghost before = *self;
        self.assets.remove(&id);
        proof {
            Dock::lemma_commands_frame(before, *self);
        }
    }

    /// The handle of asset `id`.
    pub fn get_asset_with_id(&self, id: u32) -> (r: Result<u64, DockFault>)
        ensures
            self.assets().contains_key(id) ==> r == Ok::<u64, DockFault>(self.assets()[id]),
            !self.assets().contains_key(id) ==> r == Err::<u64, DockFault>(
                DockFault::UnknownAsset(id),
            ),
    {
        match self.assets.get(&id) {
            Some(h) => Ok(*h),
            None => Err(DockFault::UnknownAsset(id)),
        }
    }

    /// Gives a new particle-effect handle the next particle-asset id.
    pub fn push_particle_asset(&mut self, asset: u64) -> (r: Result<u32, DockFault>)
        requires
            old(self).wf(),
        ensures
            final(self).wf(),
            old(self).same_commands(*final(self)),
            final(self).entities() == old(self).entities(),
            final(self).assets() == old(self).assets(),
            old(self).ids().reaches(final(self).ids()),
            final(self).ids().next_command() == old(self).ids().next_command(),
            final(self).ids().next_entity() == old(self).ids().next_entity(),
            final(self).ids().next_asset() == old(self).ids().next_asset(),
            old(self).ids().next_particle_asset() == u32::MAX ==> r == Err::<u32, DockFault>(
                DockFault::IdSpaceExhausted,
            ) && *final(self) == *old(self),
            old(self).ids().next_particle_asset() < u32::MAX ==> r == Ok::<u32, DockFault>(
                old(self).ids().next_particle_asset(),
            ) && !old(self).particle_assets().contains_key(old(self).ids().next_particle_asset())
                && final(self).particle_assets() == old(self).particle_assets().insert(
                old(self).ids().next_particle_asset(),
                asset,
            ) && final(self).ids().next_particle_asset() == old(self).ids().next_particle_asset()
                + 1,
    {
        let ghost before = *self;
        if !self.id_generator.has_particle_asset_id() {
            return Err(DockFault::IdSpaceExhausted);
        }
        let id = self.id_generator.next_particle_assets_id();
        self.particle_assets.insert(id, asset);
        proof {
            Dock::lemma_commands_frame(before, *self);
        }
        Ok(id)
    }

    /// Removes particle asset `id` from its table, if it is there.
    pub fn remove_particle_asset(&mut self, id: u32)
        requires
            old(self).wf(),
        ensures
            final(self).wf(),
            old(self).same_commands(*final(self)),
            final(self).entities() == old(self).entities(),
            final(self).assets() == old(self).assets(),
            final(self).ids() == old(self).ids(),
            final(self).particle_assets() == old(self).particle_assets().remove(id),
    {
        let ghost before = *self;
        self.particle_assets.remove(&id);
        proof {
            Dock::lemma_commands_frame(before, *self);
        }
    }

    /// The handle of particle asset `id`.
    pub fn get_particle_asset_with_id(&self, id: u32) -> (r: Result<u64, DockFault>)
        ensures
            self.particle_assets().contains_key(id) ==> r == Ok::<u64, DockFault>(
                self.particle_assets()[id],
            ),
            !self.particle_assets().contains_key(id) ==> r == Err::<u64, DockFault>(
                DockFault::UnknownParticleAsset(id),
            ),
    {
        match self.particle_assets.get(&id) {
            Some(h) => Ok(*h),
            None => Err(DockFault::UnknownParticleAsset(id)),
        }
    }

    pub fn new() -> (r: Dock)
        ensures
            r.wf(),
            forall|c: DockCommandDispatcherType| !#[trigger] r.registered(c),
            r.stored() == Map::<u32, DockCommand>::empty(),
            r.resolutions() == Seq::<(u32, Option<DockCommandResult>)>::empty(),
            r.stage_order() == Seq::<DockSystems>::empty(),
            r.entities() == Map::<u32, u64>::empty(),
            r.assets() == Map::<u32, u64>::empty(),
            r.particle_assets() == Map::<u32, u64>::empty(),
            r.ids().next_command() == 1,
            r.ids().next_entity() == 1,
            r.ids().next_asset() == 1,
            r.ids().next_particle_asset() == 1,
    {
        let r = Dock {
            commands: HashMap::new(),
            entities: EntityTable::new(),
            assets: HashMap::new(),
            particle_assets: HashMap::new(),
            messenger: HashMap::new(),
            id_generator: IDGen::new(),
            stages: Vec::new(),
            log: Ghost(Seq::empty()),
        };
        assert(r.stored() =~= Map::<u32, DockCommand>::empty());
        r
    }
}

impl Default for Dock {
    fn default() -> (r: Dock)
        ensures
            r.wf(),
            forall|c: DockCommandDispatcherType| !#[trigger] r.registered(c),
            r.stored() == Map::<u32, DockCommand>::empty(),
            r.resolutions() == Seq::<(u32, Option<DockCommandResult>)>::empty(),
            r.stage_order() == Seq::<DockSystems>::empty(),
            r.entities() == Map::<u32, u64>::empty(),
            r.assets() == Map::<u32, u64>::empty(),
            r.particle_assets() == Map::<u32, u64>::empty(),
            r.ids().next_command() == 1,
            r.ids().next_entity() == 1,
            r.ids().next_asset() == 1,
            r.ids().next_particle_asset() == 1,
    {
        Dock::new()
    }
}

} // verus!
