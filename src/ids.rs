//! Four independent id spaces (commands, entities, assets, particle assets).
//! Each counts up from 1; 0 is never issued and stands for "no id".
use vstd::prelude::*;

verus! {

/// One of the four id spaces.
#[derive(Clone, Copy, Debug, PartialEq, Eq, Structural)]
pub enum IdSpace {
    Command,
    Entity,
    Asset,
    ParticleAsset,
}

/// The next id of each space.
#[derive(Clone, Debug)]
pub struct IDGen {
    command: u32,
    entities: u32,
    assets: u32,
    particle_assets: u32,
}

impl IDGen {
    /// The id that the command space issues next.
    pub closed spec fn next_command(&self) -> u32 {
        self.command
    }

    /// The id that the entity space issues next.
    pub closed spec fn next_entity(&self) -> u32 {
        self.entities
    }

    /// The id that the asset space issues next.
    pub closed spec fn next_asset(&self) -> u32 {
        self.assets
    }

    /// The id that the particle-asset space issues next.
    pub closed spec fn next_particle_asset(&self) -> u32 {
        self.particle_assets
    }

    /// The id that `space` issues next.
    pub open spec fn next_in(&self, space: IdSpace) -> u32 {
        match space {
            IdSpace::Command => self.next_command(),
            IdSpace::Entity => self.next_entity(),
            IdSpace::Asset => self.next_asset(),
            IdSpace::ParticleAsset => self.next_particle_asset(),
        }
    }

    /// No space ever issues 0.
    pub open spec fn wf(&self) -> bool {
        &&& self.next_command() >= 1
        &&& self.next_entity() >= 1
        &&& self.next_asset() >= 1
        &&& self.next_particle_asset() >= 1
    }

    /// `later` is a state that this one can reach: no space went back.
    pub open spec fn reaches(&self, later: IDGen) -> bool {
        &&& self.next_command() <= later.next_command()
        &&& self.next_entity() <= later.next_entity()
        &&& self.next_asset() <= later.next_asset()
        &&& self.next_particle_asset() <= later.next_particle_asset()
    }

    pub fn new() -> (r: IDGen)
        ensures
            r.wf(),
            r.next_command() == 1,
            r.next_entity() == 1,
            r.next_asset() == 1,
            r.next_particle_asset() == 1,
    {
        IDGen { command: 1, entities: 1, assets: 1, particle_assets: 1 }
    }

    fn fetch_add(value: &mut u32) -> (r: u32)
        requires
            *old(value) < u32::MAX,
        ensures
            r == *old(value),
            *final(value) == *old(value) + 1,
    {
        let current = *value;
        *value = current + 1;
        current
    }

    /// Whether the command space still has an id to give.
    pub fn has_command_id(&self) -> (r: bool)
        ensures
            r == (self.next_command() < u32::MAX),
    {
        self.command < u32::MAX
    }

    /// Whether the entity space still has an id to give.
    pub fn has_entity_id(&self) -> (r: bool)
        ensures
            r == (self.next_entity() < u32::MAX),
    {
        self.entities < u32::MAX
    }

    /// Whether the asset space still has an id to give.
    pub fn has_asset_id(&self) -> (r: bool)
        ensures
            r == (self.next_asset() < u32::MAX),
    {
        self.assets < u32::MAX
    }

    /// Whether the particle-asset space still has an id to give.
    pub fn has_particle_asset_id(&self) -> (r: bool)
        ensures
            r == (self.next_particle_asset() < u32::MAX),
    {
        self.particle_assets < u32::MAX
    }

    pub fn next_command_id(&mut self) -> (r: u32)
        requires
            old(self).wf(),
            old(self).next_command() < u32::MAX,
        ensures
            final(self).wf(),
            r >= 1,
            r == old(self).next_command(),
            final(self).next_command() == r + 1,
            final(self).next_entity() == old(self).next_entity(),
            final(self).next_asset() == old(self).next_asset(),
            final(self).next_particle_asset() == old(self).next_particle_asset(),
    {
        IDGen::fetch_add(&mut self.command)
    }

    pub fn next_entity_id(&mut self) -> (r: u32)
        requires
            old(self).wf(),
            old(self).next_entity() < u32::MAX,
        ensures
            final(self).wf(),
            r >= 1,
            r == old(self).next_entity(),
            final(self).next_entity() == r + 1,
            final(self).next_command() == old(self).next_command(),
            final(self).next_asset() == old(self).next_asset(),
            final(self).next_particle_asset() == old(self).next_particle_asset(),
    {
        IDGen::fetch_add(&mut self.entities)
    }

    pub fn next_assets_id(&mut self) -> (r: u32)
        requires
            old(self).wf(),
            old(self).next_asset() < u32::MAX,
        ensures
            final(self).wf(),
            r >= 1,
            r == old(self).next_asset(),
            final(self).next_asset() == r + 1,
            final(self).next_command() == old(self).next_command(),
            final(self).next_entity() == old(self).next_entity(),
            final(self).next_particle_asset() == old(self).next_particle_asset(),
    {
        IDGen::fetch_add(&mut self.assets)
    }

    pub fn next_particle_assets_id(&mut self) -> (r: u32)
        requires
            old(self).wf(),
            old(self).next_particle_asset() < u32::MAX,
        ensures
            final(self).wf(),
            r >= 1,
            r == old(self).next_particle_asset(),
            final(self).next_particle_asset() == r + 1,
            final(self).next_command() == old(self).next_command(),
            final(self).next_entity() == old(self).next_entity(),
            final(self).next_asset() == old(self).next_asset(),
    {
        IDGen::fetch_add(&mut self.particle_assets)
    }
}

impl Default for IDGen {
    fn default() -> (r: IDGen)
        ensures
            r.wf(),
            r.next_command() == 1,
            r.next_entity() == 1,
            r.next_asset() == 1,
            r.next_particle_asset() == 1,
    {
        IDGen::new()
    }
}

} // verus!
