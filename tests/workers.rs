use futures::channel::oneshot::Receiver;
use vello_dock::commands::{
    DockCommand, DockCommandDispatcherType, DockCommandResult, EntityType, Placement, QuatBits,
    Vec2Bits, Vec3Bits,
};
use vello_dock::dock::{Dock, DockFault};
use vello_dock::workers::{camera_outcome, load_bytes, SpawnPlan};
use vello_dock::DockPlugin;

fn placement(x: f32, y: f32) -> Placement {
    Placement {
        translation: Vec3Bits { x: x.to_bits(), y: y.to_bits(), z: 0f32.to_bits() },
        rotation: QuatBits { x: 0f32.to_bits(), y: 0f32.to_bits(), z: 0f32.to_bits(), w: 1f32.to_bits() },
        scale: Vec3Bits { x: 1f32.to_bits(), y: 1f32.to_bits(), z: 1f32.to_bits() },
    }
}

fn pos(x: f32, y: f32) -> Vec2Bits {
    Vec2Bits { x: x.to_bits(), y: y.to_bits() }
}

fn result_of(r: &mut Receiver<DockCommandResult>) -> Option<DockCommandResult> {
    r.try_recv().ok().flatten()
}

fn wired() -> Dock {
    let mut dock = Dock::new();
    DockPlugin.build(&mut dock).unwrap();
    dock
}

fn load_svg(dock: &mut Dock, handle: u64) -> u32 {
    let mut r = dock.push_commands(DockCommand::LoadSVGAssets(b"<svg/>".to_vec())).unwrap();
    let d = dock.take_next(DockCommandDispatcherType::LoadSVGAssets).unwrap().unwrap();
    assert_eq!(load_bytes(d.data()).map(|b| b.as_slice()), Some(&b"<svg/>"[..]));
    let id = dock.finish_load(d, Ok(handle)).unwrap();
    assert_eq!(result_of(&mut r), Some(DockCommandResult::Done(id)));
    id
}

#[test]
fn removing_unknown_entity_fails_without_touching_the_table() {
    let mut dock = wired();
    let kept = dock.push_entitie(300).unwrap();
    let mut r = dock.push_commands(DockCommand::RemoveEntity(7)).unwrap();
    assert_eq!(dock.despawn_entity(), Ok(None));
    assert!(matches!(result_of(&mut r), Some(DockCommandResult::NotOk(_))));
    assert_eq!(dock.get_entity_with_id(kept), Ok(300));
    assert_eq!(dock.get_entity_with_id(7), Err(DockFault::UnknownEntity(7)));
}

#[test]
fn removing_known_entity_despawns_its_handle() {
    let mut dock = wired();
    let id = dock.push_entitie(300).unwrap();
    let mut r = dock.push_commands(DockCommand::RemoveEntity(id)).unwrap();
    assert_eq!(dock.despawn_entity(), Ok(Some(300)));
    assert_eq!(result_of(&mut r), Some(DockCommandResult::Done(1)));
    assert_eq!(dock.get_entity_id(300), Err(DockFault::UnknownEntityHandle(300)));
    assert_eq!(dock.despawn_entity(), Ok(None));
}

#[test]
fn spawn_after_load_gives_new_entity_id() {
    let mut dock = wired();
    assert_eq!(load_svg(&mut dock, 1001), 1);
    assert_eq!(load_svg(&mut dock, 1002), 2);
    assert_eq!(load_svg(&mut dock, 1003), 3);
    let p = placement(4.0, 5.0);
    let mut r = dock
        .push_commands(DockCommand::SpawnEntity(3, p, EntityType::Vello, 0))
        .unwrap();
    let (d, plan) = dock.next_spawn().unwrap().unwrap();
    assert_eq!(
        plan,
        SpawnPlan { kind: EntityType::Vello, asset: 1003, secondary: None, placement: p }
    );
    let new_id = dock.finish_spawn(d, 4242).unwrap();
    assert_eq!(new_id, 1);
    assert_eq!(result_of(&mut r), Some(DockCommandResult::Done(new_id)));
    assert_eq!(dock.get_entity_with_id(new_id), Ok(4242));
    assert_eq!(dock.get_entity_id(4242), Ok(new_id));
}

#[test]
fn spawn_of_particles_uses_effect_and_secondary_asset() {
    let mut dock = wired();
    let vector = load_svg(&mut dock, 1001);
    let mut lr = dock.push_commands(DockCommand::LoadParticleAssets(b"(effect)".to_vec())).unwrap();
    let d = dock.take_next(DockCommandDispatcherType::LoadParticleAssets).unwrap().unwrap();
    let effect = dock.finish_load(d, Ok(2002)).unwrap();
    assert_eq!(effect, 1);
    assert_eq!(result_of(&mut lr), Some(DockCommandResult::Done(1)));
    let p = placement(0.0, 1.0);
    dock.push_commands(DockCommand::SpawnEntity(effect, p, EntityType::Particle, vector)).unwrap();
    let (_, plan) = dock.next_spawn().unwrap().unwrap();
    assert_eq!(
        plan,
        SpawnPlan { kind: EntityType::Particle, asset: 2002, secondary: Some(1001), placement: p }
    );
    dock.push_commands(DockCommand::SpawnEntity(effect, p, EntityType::Particle, 0)).unwrap();
    let (_, plan) = dock.next_spawn().unwrap().unwrap();
    assert_eq!(plan.secondary, None);
}

#[test]
fn spawn_of_unknown_asset_fails() {
    let mut dock = wired();
    let mut r = dock
        .push_commands(DockCommand::SpawnEntity(3, placement(0.0, 0.0), EntityType::Vello, 0))
        .unwrap();
    assert!(dock.next_spawn().unwrap().is_none());
    assert!(matches!(result_of(&mut r), Some(DockCommandResult::NotOk(_))));
    let mut r = dock
        .push_commands(DockCommand::SpawnEntity(1, placement(0.0, 0.0), EntityType::Particle, 5))
        .unwrap();
    dock.push_particle_asset(77).unwrap();
    assert!(dock.next_spawn().unwrap().is_none());
    assert!(matches!(result_of(&mut r), Some(DockCommandResult::NotOk(_))));
}

#[test]
fn spawn_with_handle_already_mapped_fails() {
    let mut dock = wired();
    load_svg(&mut dock, 1);
    dock.push_entitie(9).unwrap();
    let mut r = dock
        .push_commands(DockCommand::SpawnEntity(1, placement(0.0, 0.0), EntityType::Vello, 0))
        .unwrap();
    let (d, _) = dock.next_spawn().unwrap().unwrap();
    assert_eq!(dock.finish_spawn(d, 9), None);
    assert!(matches!(result_of(&mut r), Some(DockCommandResult::NotOk(_))));
}

#[test]
fn failed_decode_resolves_with_its_reason() {
    let mut dock = wired();
    let mut r = dock.push_commands(DockCommand::LoadLottieAssets(b"{".to_vec())).unwrap();
    let d = dock.take_next(DockCommandDispatcherType::LoadLottieAssets).unwrap().unwrap();
    assert_eq!(dock.finish_load(d, Err("bad json".to_owned())), None);
    assert_eq!(result_of(&mut r), Some(DockCommandResult::NotOk("bad json".to_owned())));
    assert_eq!(dock.get_asset_with_id(1), Err(DockFault::UnknownAsset(1)));
}

#[test]
fn load_bytes_only_for_load_commands() {
    assert!(load_bytes(&DockCommand::RemoveEntity(1)).is_none());
    let c = DockCommand::LoadParticleAssets(vec![1, 2, 3]);
    assert_eq!(load_bytes(&c), Some(&vec![1u8, 2, 3]));
}

#[test]
fn two_camera_moves_in_one_tick_apply_the_second() {
    let mut dock = wired();
    let a = pos(1.0, 2.0);
    let b = pos(3.0, 4.0);
    let scale = 2.0f32.to_bits();
    let mut ra = dock.push_commands(DockCommand::ModifyCamera(a, scale)).unwrap();
    let mut rb = dock.push_commands(DockCommand::ModifyCamera(b, scale)).unwrap();
    assert_eq!(dock.modify_camera(), Ok(Some((b, scale))));
    assert_eq!(result_of(&mut ra), Some(DockCommandResult::Superseded));
    assert_eq!(result_of(&mut rb), Some(DockCommandResult::Done(1)));
    assert_eq!(dock.modify_camera(), Ok(None));
}

#[test]
fn coalesced_camera_moves_resolve_every_caller() {
    let mut dock = wired();
    let mut rs = Vec::new();
    for i in 0..5 {
        rs.push(dock.push_commands(DockCommand::ModifyCamera(pos(i as f32, 0.0), 0)).unwrap());
    }
    assert_eq!(dock.modify_camera(), Ok(Some((pos(4.0, 0.0), 0))));
    for r in rs.iter_mut().take(4) {
        assert_eq!(result_of(r), Some(DockCommandResult::Superseded));
    }
    assert_eq!(result_of(&mut rs[4]), Some(DockCommandResult::Done(1)));
}

#[test]
fn camera_outcome_reads_position_and_scale() {
    let (r, t) = camera_outcome(&DockCommand::ModifyCamera(pos(1.0, 1.0), 7));
    assert_eq!(r, DockCommandResult::Done(1));
    assert_eq!(t, Some((pos(1.0, 1.0), 7)));
    let (r, t) = camera_outcome(&DockCommand::RemoveEntity(1));
    assert!(matches!(r, DockCommandResult::NotOk(_)));
    assert_eq!(t, None);
}

#[test]
fn transform_moves_the_latest_placement() {
    let mut dock = wired();
    let id = dock.push_entitie(55).unwrap();
    let mut r1 = dock.push_commands(DockCommand::Transform(id, placement(1.0, 0.0))).unwrap();
    let mut r2 = dock.push_commands(DockCommand::Transform(id, placement(2.0, 0.0))).unwrap();
    assert_eq!(dock.modify_entity(), Ok(Some((55, placement(2.0, 0.0)))));
    assert_eq!(result_of(&mut r1), Some(DockCommandResult::Superseded));
    assert_eq!(result_of(&mut r2), Some(DockCommandResult::Done(id)));
    let mut r3 = dock.push_commands(DockCommand::Transform(99, placement(2.0, 0.0))).unwrap();
    assert_eq!(dock.modify_entity(), Ok(None));
    assert!(matches!(result_of(&mut r3), Some(DockCommandResult::NotOk(_))));
}

#[test]
fn pick_resolves_with_the_entity_id() {
    let mut dock = wired();
    let id = dock.push_entitie(808).unwrap();
    let mut r = dock.push_commands(DockCommand::PickEntity(pos(1.0, 1.0), 5.0f32.to_bits())).unwrap();
    let pick = dock.spawn_picker().unwrap().unwrap();
    assert_eq!(pick.id(), 1);
    assert_eq!(pick.position(), pos(1.0, 1.0));
    assert_eq!(pick.radius(), 5.0f32.to_bits());
    assert_eq!(result_of(&mut r), None);
    let result = dock.pick_result(Some(808));
    assert_eq!(result, DockCommandResult::Done(id));
    dock.resolve_pick(pick, result);
    assert_eq!(result_of(&mut r), Some(DockCommandResult::Done(id)));
    assert_eq!(dock.spawn_picker().unwrap().is_none(), true);
}

#[test]
fn pick_result_without_hit_or_with_unknown_handle() {
    let dock = wired();
    assert_eq!(dock.pick_result(None), DockCommandResult::Done(0));
    assert!(matches!(dock.pick_result(Some(3)), DockCommandResult::NotOk(_)));
}

#[test]
fn dropped_receiver_is_ignored() {
    let mut dock = wired();
    let id = dock.push_entitie(1).unwrap();
    let r = dock.push_commands(DockCommand::RemoveEntity(id)).unwrap();
    drop(r);
    assert_eq!(dock.despawn_entity(), Ok(Some(1)));
}

#[test]
fn pick_without_hit_resolves_zero() {
    let mut dock = wired();
    let mut r = dock.push_commands(DockCommand::PickEntity(pos(0.0, 0.0), 0)).unwrap();
    let pick = dock.spawn_picker().unwrap().unwrap();
    let result = dock.pick_result(None);
    dock.resolve_pick(pick, result);
    assert_eq!(result_of(&mut r), Some(DockCommandResult::Done(0)));
}
