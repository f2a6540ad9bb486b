use futures::channel::oneshot::Receiver;
use vello_dock::commands::{
    command_to_dispatcher, DockCommand, DockCommandDispatcherType, DockCommandResult, EntityType,
    Placement, QuatBits, Vec2Bits, Vec3Bits,
};
use vello_dock::dock::{Dock, DockFault};
use vello_dock::ids::IDGen;
use vello_dock::{DockPlugin, DockSystems};

fn placement(x: f32, y: f32) -> Placement {
    Placement {
        translation: Vec3Bits { x: x.to_bits(), y: y.to_bits(), z: 0f32.to_bits() },
        rotation: QuatBits { x: 0f32.to_bits(), y: 0f32.to_bits(), z: 0f32.to_bits(), w: 1f32.to_bits() },
        scale: Vec3Bits { x: 1f32.to_bits(), y: 1f32.to_bits(), z: 1f32.to_bits() },
    }
}

fn result_of(r: &mut Receiver<DockCommandResult>) -> Option<DockCommandResult> {
    r.try_recv().ok().flatten()
}

#[test]
pub fn test_dock() {
    let svg_name = "something.svg";
    let json_name = "something.json";
    let svg_data = svg_name.as_bytes().to_vec();
    let json_data = json_name.as_bytes().to_vec();
    let mut dock = Dock::new();
    dock.register(DockCommandDispatcherType::LoadSVGAssets).unwrap();
    dock.register(DockCommandDispatcherType::LoadLottieAssets).unwrap();

    dock.push_commands(DockCommand::LoadSVGAssets(svg_data.clone())).unwrap();
    dock.push_commands(DockCommand::LoadLottieAssets(json_data.clone())).unwrap();

    if let Ok(Some(d)) = dock.take_next(DockCommandDispatcherType::LoadSVGAssets) {
        println!("svg provided with {:?}", d);
        assert!(matches!(d.data(), DockCommand::LoadSVGAssets(b) if *b == svg_data));
    } else {
        panic!("svg command not delivered");
    }

    if let Ok(Some(d)) = dock.take_next(DockCommandDispatcherType::LoadLottieAssets) {
        println!("json provided with {:?}", d);
        assert!(matches!(d.data(), DockCommand::LoadLottieAssets(b) if *b == json_data));
    } else {
        panic!("json command not delivered");
    }
}

#[test]
fn ordered_class_delivers_in_submission_order() {
    let mut dock = Dock::new();
    dock.register(DockCommandDispatcherType::RemoveEntity).unwrap();
    for e in [10u32, 20, 30] {
        dock.push_commands(DockCommand::RemoveEntity(e)).unwrap();
    }
    let mut seen = Vec::new();
    while let Some(d) = dock.take_next(DockCommandDispatcherType::RemoveEntity).unwrap() {
        match d.data() {
            DockCommand::RemoveEntity(e) => seen.push((d.id(), *e)),
            _ => panic!("wrong payload"),
        }
    }
    assert_eq!(seen, vec![(1, 10), (2, 20), (3, 30)]);
}

#[test]
fn ids_start_at_one_and_increase_per_space() {
    let mut g = IDGen::new();
    assert_eq!(g.next_command_id(), 1);
    assert_eq!(g.next_command_id(), 2);
    assert_eq!(g.next_command_id(), 3);
    assert_eq!(g.next_entity_id(), 1);
    assert_eq!(g.next_assets_id(), 1);
    assert_eq!(g.next_assets_id(), 2);
    assert_eq!(g.next_particle_assets_id(), 1);
    assert_eq!(g.next_entity_id(), 2);
    let mut d = IDGen::default();
    assert_eq!(d.next_entity_id(), 1);
}

#[test]
fn removed_entity_is_gone_both_ways() {
    let mut dock = Dock::new();
    let id = dock.push_entitie(77).unwrap();
    assert_eq!(id, 1);
    assert_eq!(dock.remove_entitie(id), Ok(77));
    assert_eq!(dock.get_entity_with_id(id), Err(DockFault::UnknownEntity(id)));
    assert_eq!(dock.get_entity_id(77), Err(DockFault::UnknownEntityHandle(77)));
    assert_eq!(dock.remove_entitie(id), Err(DockFault::UnknownEntity(id)));
}

#[test]
fn entity_lookup_round_trip() {
    let mut dock = Dock::new();
    let a = dock.push_entitie(500).unwrap();
    let b = dock.push_entitie(600).unwrap();
    assert_eq!((a, b), (1, 2));
    assert_eq!(dock.get_entity_with_id(a), Ok(500));
    assert_eq!(dock.get_entity_with_id(b), Ok(600));
    assert_eq!(dock.get_entity_id(500), Ok(a));
    assert_eq!(dock.get_entity_id(600), Ok(b));
}

#[test]
fn entity_handle_mapped_twice_is_refused() {
    let mut dock = Dock::new();
    dock.push_entitie(5).unwrap();
    assert_eq!(dock.push_entitie(5), Err(DockFault::EntityHandleInUse(5)));
    assert_eq!(dock.push_entitie(6), Ok(2));
}

#[test]
fn asset_tables_are_separate() {
    let mut dock = Dock::new();
    assert_eq!(dock.push_asset(40), Ok(1));
    assert_eq!(dock.push_asset(41), Ok(2));
    assert_eq!(dock.push_particle_asset(90), Ok(1));
    assert_eq!(dock.get_asset_with_id(2), Ok(41));
    assert_eq!(dock.get_particle_asset_with_id(1), Ok(90));
    assert_eq!(dock.get_particle_asset_with_id(2), Err(DockFault::UnknownParticleAsset(2)));
    dock.remove_asset(1);
    assert_eq!(dock.get_asset_with_id(1), Err(DockFault::UnknownAsset(1)));
    assert_eq!(dock.get_asset_with_id(2), Ok(41));
    dock.remove_particle_asset(1);
    assert_eq!(dock.get_particle_asset_with_id(1), Err(DockFault::UnknownParticleAsset(1)));
    assert_eq!(dock.push_asset(42), Ok(3));
}

#[test]
fn submission_to_unregistered_class_fails() {
    let mut dock = Dock::new();
    let r = dock.push_commands(DockCommand::RemoveEntity(1));
    assert!(matches!(
        r,
        Err(DockFault::UnregisteredClass(DockCommandDispatcherType::RemoveEntity))
    ));
    assert!(matches!(
        dock.take_next(DockCommandDispatcherType::RemoveEntity),
        Err(DockFault::UnregisteredClass(DockCommandDispatcherType::RemoveEntity))
    ));
    assert!(matches!(
        dock.take_latest(DockCommandDispatcherType::ModifyCamera),
        Err(DockFault::UnregisteredClass(DockCommandDispatcherType::ModifyCamera))
    ));
}

#[test]
fn class_registered_twice_fails() {
    let mut dock = Dock::new();
    assert_eq!(dock.register(DockCommandDispatcherType::PickEntity), Ok(()));
    assert!(dock.is_registered(DockCommandDispatcherType::PickEntity));
    assert!(!dock.is_registered(DockCommandDispatcherType::SpawnEntity));
    assert_eq!(
        dock.register(DockCommandDispatcherType::PickEntity),
        Err(DockFault::AlreadyRegistered(DockCommandDispatcherType::PickEntity))
    );
}

#[test]
fn empty_queue_gives_nothing() {
    let mut dock = Dock::new();
    dock.register(DockCommandDispatcherType::SpawnEntity).unwrap();
    dock.register(DockCommandDispatcherType::Transform).unwrap();
    assert!(dock.take_next(DockCommandDispatcherType::SpawnEntity).unwrap().is_none());
    let co = dock.take_latest(DockCommandDispatcherType::Transform).unwrap();
    assert!(co.superseded.is_empty());
    assert!(co.latest.is_none());
}

#[test]
fn coalescing_supersedes_all_but_latest() {
    let mut dock = Dock::new();
    dock.register(DockCommandDispatcherType::Transform).unwrap();
    let mut receivers = Vec::new();
    for i in 0..4u32 {
        receivers.push(dock.push_commands(DockCommand::Transform(9, placement(i as f32, 0.0))).unwrap());
    }
    let co = dock.take_latest(DockCommandDispatcherType::Transform).unwrap();
    assert_eq!(co.superseded, vec![1, 2, 3]);
    let latest = co.latest.unwrap();
    assert_eq!(latest.id(), 4);
    assert!(matches!(latest.data(), DockCommand::Transform(9, p) if *p == placement(3.0, 0.0)));
    for r in receivers.iter_mut().take(3) {
        assert_eq!(result_of(r), Some(DockCommandResult::Superseded));
    }
    assert_eq!(result_of(&mut receivers[3]), None);
    dock.resolve(latest, DockCommandResult::Done(9));
    assert_eq!(result_of(&mut receivers[3]), Some(DockCommandResult::Done(9)));
    assert!(dock.take_latest(DockCommandDispatcherType::Transform).unwrap().latest.is_none());
}

#[test]
fn classes_route_to_their_own_queue() {
    let cmds = vec![
        (DockCommand::LoadSVGAssets(vec![]), DockCommandDispatcherType::LoadSVGAssets, 0u32),
        (DockCommand::LoadLottieAssets(vec![]), DockCommandDispatcherType::LoadLottieAssets, 1),
        (DockCommand::RemoveEntity(1), DockCommandDispatcherType::RemoveEntity, 2),
        (
            DockCommand::SpawnEntity(1, placement(0.0, 0.0), EntityType::Vello, 0),
            DockCommandDispatcherType::SpawnEntity,
            3,
        ),
        (DockCommand::Transform(1, placement(0.0, 0.0)), DockCommandDispatcherType::Transform, 4),
        (DockCommand::ModifyCamera(Vec2Bits { x: 0, y: 0 }, 0), DockCommandDispatcherType::ModifyCamera, 5),
        (DockCommand::PickEntity(Vec2Bits { x: 0, y: 0 }, 0), DockCommandDispatcherType::PickEntity, 6),
        (DockCommand::LoadParticleAssets(vec![]), DockCommandDispatcherType::LoadParticleAssets, 7),
    ];
    for (cmd, class, index) in cmds {
        assert_eq!(command_to_dispatcher(&cmd), class);
        assert_eq!(class.to_index(), index);
    }
}

#[test]
fn plugin_registers_every_class_once() {
    let mut dock = Dock::new();
    assert_eq!(DockPlugin.build(&mut dock), Ok(()));
    assert_eq!(*dock.stages(), DockSystems::tick_order());
    for class in vello_dock::all_classes() {
        assert!(dock.is_registered(class));
    }
    assert!(DockPlugin.build(&mut dock).is_err());
}

#[test]
fn stages_run_in_fixed_order() {
    let order = [
        DockSystems::Remove,
        DockSystems::Modify,
        DockSystems::Pick,
        DockSystems::Spawn,
        DockSystems::Load,
    ];
    for (i, s) in order.iter().enumerate() {
        assert_eq!(s.rank(), i as u32);
    }
    assert!(DockSystems::Remove.runs_before(&DockSystems::Spawn));
    assert!(!DockSystems::Load.runs_before(&DockSystems::Modify));
    assert_eq!(DockSystems::of_class(DockCommandDispatcherType::RemoveEntity), DockSystems::Remove);
    assert_eq!(DockSystems::of_class(DockCommandDispatcherType::ModifyCamera), DockSystems::Modify);
    assert_eq!(DockSystems::of_class(DockCommandDispatcherType::LoadParticleAssets), DockSystems::Load);
}

#[test]
fn default_dock_is_empty_and_unwired() {
    let mut dock = Dock::default();
    assert!(!dock.is_registered(DockCommandDispatcherType::LoadSVGAssets));
    assert_eq!(dock.get_entity_with_id(1), Err(DockFault::UnknownEntity(1)));
    assert_eq!(dock.push_entitie(3), Ok(1));
}

#[test]
fn tick_runs_stages_in_order_and_each_class_once() {
    let order = DockSystems::tick_order();
    assert_eq!(
        order,
        vec![
            DockSystems::Remove,
            DockSystems::Modify,
            DockSystems::Pick,
            DockSystems::Spawn,
            DockSystems::Load
        ]
    );
    let mut seen = Vec::new();
    for stage in &order {
        for class in stage.classes() {
            assert_eq!(DockSystems::of_class(class), *stage);
            seen.push(class.to_index());
        }
    }
    seen.sort();
    assert_eq!(seen, (0..8).collect::<Vec<u32>>());
    assert_eq!(
        DockSystems::Modify.classes(),
        vec![DockCommandDispatcherType::Transform, DockCommandDispatcherType::ModifyCamera]
    );
}

#[test]
fn only_load_classes_are_loads() {
    let loads: Vec<_> = vello_dock::all_classes().into_iter().filter(|c| c.is_load()).collect();
    assert_eq!(
        loads,
        vec![
            DockCommandDispatcherType::LoadSVGAssets,
            DockCommandDispatcherType::LoadLottieAssets,
            DockCommandDispatcherType::LoadParticleAssets
        ]
    );
}
