//! A command bus between callers outside a tick-driven simulation and the
//! workers that run inside it.
//!
//! Callers submit a [`commands::DockCommand`]; the [`dock::Dock`] gives it an
//! id, stores it with a one-shot result channel and queues the id on the
//! channel of its class. Once per tick each worker takes ids off its class
//! queue, performs the effect and resolves the result channel exactly once.
use vstd::prelude::*;

pub mod channels;
pub mod commands;
pub mod dock;
pub mod ids;
pub mod laws;
pub mod tables;
pub mod workers;

use crate::commands::DockCommandDispatcherType;
use crate::dock::{Dock, DockFault};

verus! {

/// The stages of a simulation tick in which the workers run, in this order:
/// removals free ids before anything else, modifications never race a spawn
/// of the same tick, and loads come last.
#[derive(Debug, Clone, Copy, PartialEq, Eq, Hash, Structural)]
pub enum DockSystems {
    Remove,
    Modify,
    Pick,
    Spawn,
    Load,
}

/// The place of a stage in the tick.
pub open spec fn stage_rank(s: DockSystems) -> u32 {
    match s {
        DockSystems::Remove => 0,
        DockSystems::Modify => 1,
        DockSystems::Pick => 2,
        DockSystems::Spawn => 3,
        DockSystems::Load => 4,
    }
}

/// The stage in which the worker of a class runs.
pub open spec fn stage_of_class(c: DockCommandDispatcherType) -> DockSystems {
    match c {
        DockCommandDispatcherType::RemoveEntity => DockSystems::Remove,
        DockCommandDispatcherType::Transform => DockSystems::Modify,
        DockCommandDispatcherType::ModifyCamera => DockSystems::Modify,
        DockCommandDispatcherType::PickEntity => DockSystems::Pick,
        DockCommandDispatcherType::SpawnEntity => DockSystems::Spawn,
        DockCommandDispatcherType::LoadSVGAssets => DockSystems::Load,
        DockCommandDispatcherType::LoadLottieAssets => DockSystems::Load,
        DockCommandDispatcherType::LoadParticleAssets => DockSystems::Load,
    }
}

impl DockSystems {
    pub fn rank(&self) -> (r: u32)
        ensures
            r == stage_rank(*self),
    {
        match self {
            DockSystems::Remove => 0,
            DockSystems::Modify => 1,
            DockSystems::Pick => 2,
            DockSystems::Spawn => 3,
            DockSystems::Load => 4,
        }
    }

    /// Whether this stage runs before `other` within a tick.
    pub fn runs_before(&self, other: &DockSystems) -> (r: bool)
        ensures
            r == (stage_rank(*self) < stage_rank(*other)),
    {
        self.rank() < other.rank()
    }

    /// The stages of a tick, in the order in which they run.
    pub fn tick_order() -> (r: Vec<DockSystems>)
        ensures
            r@ == seq![
                DockSystems::Remove,
                DockSystems::Modify,
                DockSystems::Pick,
                DockSystems::Spawn,
                DockSystems::Load,
            ],
            forall|i: int, j: int|
                0 <= i < j < r@.len() ==> stage_rank(#[trigger] r@[i]) < stage_rank(#[trigger] r@[j]),
            forall|s: DockSystems| r@.contains(s),
    {
        let r = vec![
            DockSystems::Remove,
            DockSystems::Modify,
            DockSystems::Pick,
            DockSystems::Spawn,
            DockSystems::Load,
        ];
        proof {
            assert(r@ =~= seq![
                DockSystems::Remove,
                DockSystems::Modify,
                DockSystems::Pick,
                DockSystems::Spawn,
                DockSystems::Load,
            ]);
            assert forall|s: DockSystems| r@.contains(s) by {
                assert(r@[stage_rank(s) as int] == s);
            }
        }
        r
    }

    /// The classes whose workers run in this stage.
    pub fn classes(&self) -> (r: Vec<DockCommandDispatcherType>)
        ensures
            forall|c: DockCommandDispatcherType| r@.contains(c) <==> stage_of_class(c) == *self,
    {
        let r = match self {
            DockSystems::Remove => vec![DockCommandDispatcherType::RemoveEntity],
            DockSystems::Modify => vec![
                DockCommandDispatcherType::Transform,
                DockCommandDispatcherType::ModifyCamera,
            ],
            DockSystems::Pick => vec![DockCommandDispatcherType::PickEntity],
            DockSystems::Spawn => vec![DockCommandDispatcherType::SpawnEntity],
            DockSystems::Load => vec![
                DockCommandDispatcherType::LoadSVGAssets,
                DockCommandDispatcherType::LoadLottieAssets,
                DockCommandDispatcherType::LoadParticleAssets,
            ],
        };
        proof {
            assert forall|c: DockCommandDispatcherType| r@.contains(c) <==> stage_of_class(c)
                == *self by {
                if stage_of_class(c) == *self {
                    match c {
                        DockCommandDispatcherType::Transform => assert(r@[0] == c),
                        DockCommandDispatcherType::ModifyCamera => assert(r@[1] == c),
                        DockCommandDispatcherType::LoadSVGAssets => assert(r@[0] == c),
                        DockCommandDispatcherType::LoadLottieAssets => assert(r@[1] == c),
                        DockCommandDispatcherType::LoadParticleAssets => assert(r@[2] == c),
                        _ => assert(r@[0] == c),
                    }
                }
                if r@.contains(c) {
                    let i = choose|i: int| 0 <= i < r@.len() && r@[i] == c;
                    assert(stage_of_class(r@[i]) == *self);
                }
            }
        }
        r
    }

    pub fn of_class(class: DockCommandDispatcherType) -> (r: DockSystems)
        ensures
            r == stage_of_class(class),
    {
        match class {
            DockCommandDispatcherType::RemoveEntity => DockSystems::Remove,
            DockCommandDispatcherType::Transform => DockSystems::Modify,
            DockCommandDispatcherType::ModifyCamera => DockSystems::Modify,
            DockCommandDispatcherType::PickEntity => DockSystems::Pick,
            DockCommandDispatcherType::SpawnEntity => DockSystems::Spawn,
            DockCommandDispatcherType::LoadSVGAssets => DockSystems::Load,
            DockCommandDispatcherType::LoadLottieAssets => DockSystems::Load,
            DockCommandDispatcherType::LoadParticleAssets => DockSystems::Load,
        }
    }
}

/// All command classes, in index order.
pub fn all_classes() -> (r: Vec<DockCommandDispatcherType>)
    ensures
        r@.len() == 8,
        forall|c: DockCommandDispatcherType| r@.contains(c),
        forall|i: int, j: int| 0 <= i < j < r@.len() ==> r@[i] != r@[j],
{
    let r = vec![
        DockCommandDispatcherType::LoadSVGAssets,
        DockCommandDispatcherType::LoadLottieAssets,
        DockCommandDispatcherType::RemoveEntity,
        DockCommandDispatcherType::SpawnEntity,
        DockCommandDispatcherType::Transform,
        DockCommandDispatcherType::ModifyCamera,
        DockCommandDispatcherType::PickEntity,
        DockCommandDispatcherType::LoadParticleAssets,
    ];
    proof {
        assert forall|c: DockCommandDispatcherType| r@.contains(c) by {
            match c {
                DockCommandDispatcherType::LoadSVGAssets => assert(r@[0] == c),
                DockCommandDispatcherType::LoadLottieAssets => assert(r@[1] == c),
                DockCommandDispatcherType::RemoveEntity => assert(r@[2] == c),
                DockCommandDispatcherType::SpawnEntity => assert(r@[3] == c),
                DockCommandDispatcherType::Transform => assert(r@[4] == c),
                DockCommandDispatcherType::ModifyCamera => assert(r@[5] == c),
                DockCommandDispatcherType::PickEntity => assert(r@[6] == c),
                DockCommandDispatcherType::LoadParticleAssets => assert(r@[7] == c),
            }
        }
    }
    r
}

/// The wiring of the bus: registers the queue of every command class.
pub struct DockPlugin;

impl DockPlugin {
    /// Wires `dock` for the tick: fixes the order in which the stages run
    /// (removals, modifications, picks, spawns, loads) and registers every
    /// class. A dock on which no class was registered ends with all classes
    /// registered and empty; on any other the wiring is wrong and the call
    /// fails.
    pub fn build(&self, dock: &mut Dock) -> (r: Result<(), DockFault>)
        requires
            old(dock).wf(),
        ensures
            final(dock).wf(),
            old(dock).same_tables(*final(dock)),
            final(dock).ids() == old(dock).ids(),
            final(dock).stored() == old(dock).stored(),
            final(dock).resolutions() == old(dock).resolutions(),
            final(dock).stage_order() == seq![
                DockSystems::Remove,
                DockSystems::Modify,
                DockSystems::Pick,
                DockSystems::Spawn,
                DockSystems::Load,
            ],
            (forall|c: DockCommandDispatcherType| !#[trigger] old(dock).registered(c)) ==> r
                == Ok::<(), DockFault>(()) && forall|c: DockCommandDispatcherType|
                #[trigger] final(dock).registered(c) && final(dock).pending(c).len() == 0,
            (exists|c: DockCommandDispatcherType| #[trigger] old(dock).registered(c)) ==> r is Err,
    {
        dock.set_stages(DockSystems::tick_order());
        let classes = all_classes();
        let ghost start = *dock;
        let mut i: usize = 0;
        while i < classes.len()
            invariant
                start.wf(),
                start.same_tables(*old(dock)),
                start.ids() == old(dock).ids(),
                start.same_commands(*old(dock)),
                start.stage_order() == seq![
                    DockSystems::Remove,
                    DockSystems::Modify,
                    DockSystems::Pick,
                    DockSystems::Spawn,
                    DockSystems::Load,
                ],
                dock.stage_order() == start.stage_order(),
                classes@.len() == 8,
                forall|c: DockCommandDispatcherType| classes@.contains(c),
                forall|a: int, b: int| 0 <= a < b < classes@.len() ==> classes@[a] != classes@[b],
                0 <= i <= classes@.len(),
                dock.wf(),
                start.same_tables(*dock),
                dock.ids() == start.ids(),
                dock.stored() == start.stored(),
                dock.resolutions() == start.resolutions(),
                forall|j: int| 0 <= j < i ==> !start.registered(#[trigger] classes@[j]),
                forall|j: int|
                    0 <= j < i ==> #[trigger] dock.registered(classes@[j]) && dock.pending(
                        classes@[j],
                    ).len() == 0,
                forall|c: DockCommandDispatcherType|
                    (forall|j: int| 0 <= j < i ==> classes@[j] != c) ==> #[trigger] dock.registered(c)
                        == start.registered(c),
            decreases classes@.len() - i,
        {
            let c = classes[i];
            let ghost before = *dock;
            match dock.register(c) {
                Ok(()) => {},
                Err(e) => {
                    proof {
                        assert(before.registered(c));
                        assert(forall|j: int| 0 <= j < i ==> classes@[j] != c);
                        assert(start.registered(c));
                        assert(old(dock).registered(c));
                    }
                    return Err(e);
                },
            }
            proof {
                assert forall|j: int| 0 <= j < i + 1 implies #[trigger] dock.registered(classes@[j])
                    && dock.pending(classes@[j]).len() == 0 by {
                    if j < i {
                        assert(classes@[j] != c);
                        assert(before.registered(classes@[j]));
                        assert(dock.registered(classes@[j]) == before.registered(classes@[j]));
                        assert(dock.pending(classes@[j]) == before.pending(classes@[j]));
                    }
                }
                assert(!before.registered(c));
                assert(forall|j: int| 0 <= j < i ==> classes@[j] != c);
                assert(!start.registered(c));
                assert forall|j: int| 0 <= j < i + 1 implies !start.registered(
                    #[trigger] classes@[j],
                ) by {
                    if j == i {
                        assert(classes@[j] == c);
                    }
                }
                assert forall|o: DockCommandDispatcherType|
                    (forall|j: int| 0 <= j < i + 1 ==> classes@[j] != o) implies #[trigger] dock.registered(o)
                    == start.registered(o) by {
                    assert(classes@[i as int] != o);
                    assert(before.registered(o) == start.registered(o));
                }
            }
            i = i + 1;
        }
        proof {
            assert forall|c: DockCommandDispatcherType| #[trigger] dock.registered(c) && dock.pending(
                c,
            ).len() == 0 by {
                assert(classes@.contains(c));
                let j = choose|j: int| 0 <= j < classes@.len() && classes@[j] == c;
                assert(dock.registered(classes@[j]));
            }
            assert forall|c: DockCommandDispatcherType| !#[trigger] start.registered(c) by {
                assert(classes@.contains(c));
                let j = choose|j: int| 0 <= j < classes@.len() && classes@[j] == c;
                assert(!start.registered(classes@[j]));
            }
        }
        Ok(())
    }
}

} // verus!
