//! The entity store.  Entities and their data live in a `legion` world;
//! structural changes made while the entities are being walked are queued
//! in a command buffer and applied later, in the order they were queued.
use legion::systems::CommandBuffer;
use legion::{Entity, World};
use vstd::multiset::Multiset;
use vstd::prelude::*;
use crate::movements::Position;
use crate::tree::{Fruit, Offspring, TreeProperties, TreeType};

verus! {

/// `legion::World`: the entities and their data, opaque here but for
/// [`trees`].
#[verifier::external_type_specification]
#[verifier::external_body]
pub struct ExWorld(World);

/// `legion::systems::CommandBuffer`: a queue of changes to a world, opaque
/// here but for [`queued`].
#[verifier::external_type_specification]
#[verifier::external_body]
pub struct ExCommandBuffer(CommandBuffer);

/// `legion::Entity`: the identity of an entity, opaque here.
#[verifier::external_type_specification]
#[verifier::external_body]
pub struct ExEntity(Entity);

/// A queued structural change.
pub enum Edit {
    /// Create a tree.
    Plant { position: Position, species: TreeType, properties: TreeProperties },
    /// Create a fruit.
    Shed { fruit: Fruit, position: Position },
    /// Give an entity offspring.
    Attach { entity: Entity, offspring: Offspring },
    /// Take an entity's offspring away.
    Detach { entity: Entity },
    /// A change that was not queued through this module.
    Other,
}

/// A tree as the world holds it.
pub struct Planted {
    pub position: Position,
    pub species: TreeType,
    pub properties: TreeProperties,
}

/// The changes that a command buffer holds, oldest first: the order in
/// which a flush applies them.
pub uninterp spec fn queued(buffer: CommandBuffer) -> Seq<Edit>;

/// The entities of a world that have a position, a species and tree
/// properties, each by these three.
pub uninterp spec fn trees(world: World) -> Multiset<Planted>;

/// `World::push` adds one entity with the given components to the world.
#[verifier::external_body]
pub(crate) fn push_tree(
    world: &mut World,
    position: Position,
    species: TreeType,
    properties: TreeProperties,
)
    ensures
        trees(*final(world)) == trees(*old(world)).insert(
            Planted { position, species, properties },
        ),
{
    world.push((position, species, properties));
}

/// `CommandBuffer::push` queues the creation of one entity with the given
/// components, behind the changes already queued.
#[verifier::external_body]
pub(crate) fn queue_tree(
    buffer: &mut CommandBuffer,
    position: Position,
    species: TreeType,
    properties: TreeProperties,
)
    ensures
        queued(*final(buffer)) == queued(*old(buffer)).push(
            Edit::Plant { position, species, properties },
        ),
{
    buffer.push((position, species, properties));
}

/// `CommandBuffer::push` queues the creation of one entity with the given
/// components, behind the changes already queued.
#[verifier::external_body]
pub(crate) fn queue_fruit(buffer: &mut CommandBuffer, fruit: Fruit, position: Position)
    ensures
        queued(*final(buffer)) == queued(*old(buffer)).push(Edit::Shed { fruit, position }),
{
    buffer.push((fruit, position));
}

/// `CommandBuffer::add_component` queues the addition of a component to an
/// entity, behind the changes already queued.
#[verifier::external_body]
pub(crate) fn queue_attach(buffer: &mut CommandBuffer, entity: Entity, offspring: Offspring)
    ensures
        queued(*final(buffer)) == queued(*old(buffer)).push(Edit::Attach { entity, offspring }),
{
    buffer.add_component(entity, offspring);
}

/// `CommandBuffer::remove_component` queues the removal of a component
/// from an entity, behind the changes already queued.
#[verifier::external_body]
pub(crate) fn queue_detach(buffer: &mut CommandBuffer, entity: Entity)
    ensures
        queued(*final(buffer)) == queued(*old(buffer)).push(Edit::Detach { entity }),
{
    buffer.remove_component::<Offspring>(entity);
}

} // verus!
