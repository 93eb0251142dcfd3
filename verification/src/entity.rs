use crate::handle_user_input::{KeyboardState, Thrust, Turn, WindowEvent};
use crate::render_system::scene::{is_flattening, key_list, Scene, SceneView};
use rapier3d::dynamics::RigidBodyHandle;
use std::collections::HashMap;
use vstd::prelude::*;

verus! {

broadcast use vstd::std_specs::hash::group_hash_axioms;

/// The handle by which `rapier3d` names a rigid body of a body set,
/// `rapier3d::dynamics::RigidBodyHandle`. The world keeps such handles and
/// hands them back; it never looks into one, and nothing is claimed of them.
#[verifier::external_type_specification]
#[verifier::external_body]
pub struct ExRigidBodyHandle(rapier3d::dynamics::RigidBodyHandle);

/// The rigid body of a new entity.
#[derive(Clone, Copy, Debug)]
pub struct EntityCreationPhysicsData {
    /// If true, the physics simulation moves the body and the entity's
    /// geometry goes to the dynamic batch. If false, forces do not move the
    /// body, though other bodies collide with it.
    pub is_dynamic: bool,
    /// The body that was made for the entity.
    pub body: RigidBodyHandle,
}

/// What a new entity is made of. `V` is the type of a vertex and `I` the
/// type of a rigid transform.
pub struct EntityCreationData<V, I> {
    /// The rigid body; without one the entity is visual only.
    pub physics: Option<EntityCreationPhysicsData>,
    /// The mesh, untransformed.
    pub mesh: Vec<V>,
    /// The initial position and rotation in space.
    pub isometry: I,
    /// The mesh as `isometry` places it.
    pub geometry: Vec<V>,
}

impl<V, I> EntityCreationData<V, I> {
    /// The entity that these data describe.
    pub open spec fn entity(self) -> EntityView<V, I> {
        EntityView {
            rigid_body_handle: match self.physics {
                Some(physics) => Some(physics.body),
                None => None,
            },
            is_dynamic: match self.physics {
                Some(physics) => physics.is_dynamic,
                None => false,
            },
            mesh: self.mesh@,
            isometry: self.isometry,
        }
    }
}

/// One unit of simulated and rendered content.
pub struct Entity<V, I> {
    /// The rigid body, if the entity has one.
    pub rigid_body_handle: Option<RigidBodyHandle>,
    /// Whether the geometry lives in the dynamic batch; else it lives in
    /// the static one.
    pub is_dynamic: bool,
    /// The mesh, untransformed.
    pub mesh: Vec<V>,
    /// The current position and rotation in space.
    pub isometry: I,
}

/// An entity, as mathematics.
pub struct EntityView<V, I> {
    pub rigid_body_handle: Option<RigidBodyHandle>,
    pub is_dynamic: bool,
    pub mesh: Seq<V>,
    pub isometry: I,
}

impl<V, I> View for Entity<V, I> {
    type V = EntityView<V, I>;

    open spec fn view(&self) -> EntityView<V, I> {
        EntityView {
            rigid_body_handle: self.rigid_body_handle,
            is_dynamic: self.is_dynamic,
            mesh: self.mesh@,
            isometry: self.isometry,
        }
    }
}

/// The entities of a hash map, as mathematics.
pub open spec fn entity_map<V, I>(entities: Map<u32, Entity<V, I>>) -> Map<u32, EntityView<V, I>> {
    Map::new(|id: u32| entities.contains_key(id), |id: u32| entities[id]@)
}

/// The interactive window of a world: which entity its camera follows.
#[derive(Clone, Copy, Debug, PartialEq, Eq, Structural)]
pub struct InteractiveRenderingConfig {
    pub tracking_entity: u32,
}

/// An entity's transform as it was found to have changed in this frame.
pub struct Motion<V, I> {
    /// The entity that moved.
    pub entity_id: u32,
    /// Where it is now.
    pub isometry: I,
    /// Its mesh as `isometry` places it.
    pub geometry: Vec<V>,
}

/// What the keys ask of the body that the interactive camera follows.
#[derive(Debug)]
pub struct DriveCommand<I> {
    /// The body to push and twist.
    pub body: RigidBodyHandle,
    /// The transform of the entity that owns the body; the push is along
    /// the x axis as this transform turns it.
    pub isometry: I,
    pub thrust: Thrust,
    pub turn: Turn,
}

/// What is left to do in a frame once the world has taken in the motions.
#[derive(Debug)]
pub struct StepPlan<I> {
    /// The impulses to give, if the followed entity has a body.
    pub drive: Option<DriveCommand<I>>,
    /// Where the interactive camera is to be put, if the followed entity
    /// exists.
    pub focus: Option<I>,
}

/// What a world holds.
pub struct WorldView<V, I> {
    /// The entities by their ids.
    pub entities: Map<u32, EntityView<V, I>>,
    /// The batch of geometry that changes often.
    pub dynamic_scene: SceneView<V>,
    /// The batch of geometry that seldom changes.
    pub static_scene: SceneView<V>,
    /// The entity that the interactive camera follows, if there is an
    /// interactive window.
    pub tracking: Option<u32>,
    /// The keys that are held.
    pub keys: KeyboardState,
}

impl<V, I> WorldView<V, I> {
    /// Both batches are well formed, and the geometry of every entity lives
    /// in exactly one of them: in the dynamic batch if the entity is
    /// dynamic, else in the static one. Neither batch holds anything else.
    pub open spec fn wf(self) -> bool {
        &&& self.dynamic_scene.wf()
        &&& self.static_scene.wf()
        &&& forall|id: u32| #[trigger]
            self.dynamic_scene.objects.contains_key(id) <==> self.entities.contains_key(id)
                && self.entities[id].is_dynamic
        &&& forall|id: u32| #[trigger]
            self.static_scene.objects.contains_key(id) <==> self.entities.contains_key(id)
                && !self.entities[id].is_dynamic
    }

    /// The world without the entity `id`: it is gone from the entities and
    /// its geometry from both batches.
    pub open spec fn remove_entity(self, id: u32) -> WorldView<V, I> {
        WorldView {
            entities: self.entities.remove(id),
            dynamic_scene: self.dynamic_scene.remove_object(id),
            static_scene: self.static_scene.remove_object(id),
            ..self
        }
    }

    /// The world with `entity` under `id`, in place of any entity that had
    /// that id, and with `geometry` in the batch that owns the entity.
    pub open spec fn add_entity(self, id: u32, entity: EntityView<V, I>, geometry: Seq<V>) -> WorldView<
        V,
        I,
    > {
        let cleared = self.remove_entity(id);
        WorldView {
            entities: cleared.entities.insert(id, entity),
            dynamic_scene: if entity.is_dynamic {
                cleared.dynamic_scene.add_object(id, geometry)
            } else {
                cleared.dynamic_scene
            },
            static_scene: if entity.is_dynamic {
                cleared.static_scene
            } else {
                cleared.static_scene.add_object(id, geometry)
            },
            ..cleared
        }
    }

    /// The world after the entity `id` was found at `isometry`: the entity
    /// has that transform, and `geometry` stands in the batch that owns it.
    /// Without such an entity nothing changes.
    pub open spec fn moved(self, id: u32, isometry: I, geometry: Seq<V>) -> WorldView<V, I> {
        if self.entities.contains_key(id) {
            let entity = self.entities[id];
            WorldView {
                entities: self.entities.insert(id, EntityView { isometry, ..entity }),
                dynamic_scene: if entity.is_dynamic {
                    self.dynamic_scene.add_object(id, geometry)
                } else {
                    self.dynamic_scene
                },
                static_scene: if entity.is_dynamic {
                    self.static_scene
                } else {
                    self.static_scene.add_object(id, geometry)
                },
                ..self
            }
        } else {
            self
        }
    }

    /// The world after `motions`, taken in one after the other.
    pub open spec fn after(self, motions: Seq<Motion<V, I>>) -> WorldView<V, I>
        decreases motions.len(),
    {
        if motions.len() == 0 {
            self
        } else {
            let last = motions.last();
            self.after(motions.drop_last()).moved(last.entity_id, last.isometry, last.geometry@)
        }
    }

    /// The entity that the interactive camera follows, if there is an
    /// interactive window and the entity exists.
    pub open spec fn followed(self) -> Option<EntityView<V, I>> {
        match self.tracking {
            Some(id) => if self.entities.contains_key(id) {
                Some(self.entities[id])
            } else {
                None
            },
            None => None,
        }
    }

    /// The impulses that the held keys ask for: they go to the body of the
    /// followed entity, so there are none without such a body.
    pub open spec fn drive(self) -> Option<DriveCommand<I>> {
        match self.followed() {
            Some(entity) => match entity.rigid_body_handle {
                Some(body) => Some(
                    DriveCommand {
                        body,
                        isometry: entity.isometry,
                        thrust: self.keys.thrust_spec(),
                        turn: self.keys.turn_spec(),
                    },
                ),
                None => None,
            },
            None => None,
        }
    }

    /// Where the interactive camera belongs: at the followed entity.
    pub open spec fn focus(self) -> Option<I> {
        match self.followed() {
            Some(entity) => Some(entity.isometry),
            None => None,
        }
    }

    /// What is left to do in a frame.
    pub open spec fn plan(self) -> StepPlan<I> {
        StepPlan { drive: self.drive(), focus: self.focus() }
    }

    /// `next` is this world after the buffers of both batches were read:
    /// nothing else has changed.
    pub open spec fn read_as(self, next: WorldView<V, I>) -> bool {
        &&& next.entities == self.entities
        &&& next.tracking == self.tracking
        &&& next.keys == self.keys
        &&& self.dynamic_scene.read_as(next.dynamic_scene)
        &&& self.static_scene.read_as(next.static_scene)
    }

    /// The world after `event`: the keyboard has taken it in.
    pub open spec fn after_event<P>(self, event: WindowEvent<P>) -> WorldView<V, I> {
        WorldView { keys: self.keys.after_event(event), ..self }
    }
}

/// `buffer` shows `vertexes`: it holds them, or there is no buffer because
/// there are no vertices.
pub open spec fn shows<V>(buffer: Option<&Vec<V>>, vertexes: Seq<V>) -> bool {
    match buffer {
        Some(buffer) => buffer@ == vertexes && vertexes.len() > 0,
        None => vertexes.len() == 0,
    }
}

/// The bodies of the entities that `ids` names, in the order of `ids`: each
/// with the id of the entity that has it.
pub open spec fn bodies_of<V, I>(entities: Map<u32, EntityView<V, I>>, ids: Seq<u32>) -> Seq<
    (u32, RigidBodyHandle),
>
    decreases ids.len(),
{
    if ids.len() == 0 {
        Seq::empty()
    } else {
        let rest = bodies_of(entities, ids.drop_last());
        match entities[ids.last()].rigid_body_handle {
            Some(body) => rest.push((ids.last(), body)),
            None => rest,
        }
    }
}

/// The bodies of the entities that `ids` names are those that such an
/// entity has, and each stands there as often as its entity stands in `ids`:
/// once, if `ids` names no entity twice.
pub proof fn lemma_bodies_of<V, I>(entities: Map<u32, EntityView<V, I>>, ids: Seq<u32>)
    requires
        forall|i: int| 0 <= i < ids.len() ==> entities.contains_key(#[trigger] ids[i]),
    ensures
        forall|id: u32, body: RigidBodyHandle| #[trigger]
            bodies_of(entities, ids).contains((id, body)) <==> ids.contains(id)
                && entities[id].rigid_body_handle == Some(body),
        ids.no_duplicates() ==> bodies_of(entities, ids).no_duplicates(),
    decreases ids.len(),
{
    if ids.len() > 0 {
        let front = ids.drop_last();
        let last = ids.last();
        let rest = bodies_of(entities, front);
        let all = bodies_of(entities, ids);
        lemma_bodies_of(entities, front);
        assert forall|id: u32, body: RigidBodyHandle| #[trigger]
            all.contains((id, body)) <==> ids.contains(id) && entities[id].rigid_body_handle
                == Some(body) by {
            if all.contains((id, body)) {
                let j = choose|j: int| 0 <= j < all.len() && all[j] == (id, body);
                if j < rest.len() {
                    assert(rest[j] == (id, body));
                    assert(rest.contains((id, body)));
                    let k = choose|k: int| 0 <= k < front.len() && front[k] == id;
                    assert(ids[k] == id);
                } else {
                    assert(ids[ids.len() - 1] == id);
                }
            }
            if ids.contains(id) && entities[id].rigid_body_handle == Some(body) {
                let k = choose|k: int| 0 <= k < ids.len() && ids[k] == id;
                if k < front.len() {
                    assert(front[k] == id);
                    assert(front.contains(id));
                    assert(rest.contains((id, body)));
                    let j = choose|j: int| 0 <= j < rest.len() && rest[j] == (id, body);
                    assert(all[j] == (id, body));
                } else {
                    assert(all[all.len() - 1] == (id, body));
                }
            }
        }
        if ids.no_duplicates() {
            assert(front.no_duplicates());
            assert forall|a: int, b: int| 0 <= a < all.len() && 0 <= b < all.len() && a != b implies all[a]
                != all[b] by {
                if a < rest.len() && b < rest.len() {
                    assert(rest[a] != rest[b]);
                } else {
                    let inner = if a < rest.len() { a } else { b };
                    let pair = rest[inner];
                    assert(rest.contains((pair.0, pair.1)));
                    assert(front.contains(pair.0));
                    let k = choose|k: int| 0 <= k < front.len() && front[k] == pair.0;
                    assert(ids[k] != ids[ids.len() - 1]);
                }
            }
        }
    }
}

/// The geometry of an entity lives in exactly one batch.
pub proof fn lemma_one_batch<V, I>(world: WorldView<V, I>, id: u32)
    requires
        world.wf(),
        world.entities.contains_key(id),
    ensures
        world.dynamic_scene.objects.contains_key(id) != world.static_scene.objects.contains_key(id),
        world.dynamic_scene.objects.contains_key(id) == world.entities[id].is_dynamic,
{
}

/// Adding an entity keeps a world well formed.
pub proof fn lemma_add_entity_keeps_wf<V, I>(
    world: WorldView<V, I>,
    id: u32,
    entity: EntityView<V, I>,
    geometry: Seq<V>,
)
    requires
        world.wf(),
    ensures
        world.add_entity(id, entity, geometry).wf(),
{
    lemma_remove_entity_keeps_wf(world, id);
}

/// Removing an entity keeps a world well formed.
pub proof fn lemma_remove_entity_keeps_wf<V, I>(world: WorldView<V, I>, id: u32)
    requires
        world.wf(),
    ensures
        world.remove_entity(id).wf(),
{
    if !world.dynamic_scene.objects.contains_key(id) {
        assert(world.dynamic_scene.objects.remove(id) =~= world.dynamic_scene.objects);
    }
    if !world.static_scene.objects.contains_key(id) {
        assert(world.static_scene.objects.remove(id) =~= world.static_scene.objects);
    }
}

/// Once an entity is removed it is gone for good from what is drawn: the
/// world holds no such entity, and the buffer that either batch gives when
/// it is next read is a flattening of the batch's other objects only. This
/// holds whether or not the entity existed.
pub proof fn lemma_removed_entity_is_gone<V, I>(world: WorldView<V, I>, id: u32, read: WorldView<V, I>)
    requires
        world.wf(),
        world.remove_entity(id).read_as(read),
    ensures
        !read.entities.contains_key(id),
        !read.dynamic_scene.objects.contains_key(id),
        !read.static_scene.objects.contains_key(id),
        is_flattening(world.dynamic_scene.objects.remove(id), read.dynamic_scene.buffer),
        is_flattening(world.static_scene.objects.remove(id), read.static_scene.buffer),
        read.wf(),
{
    lemma_remove_entity_keeps_wf(world, id);
}

/// A frame moves entities and rewrites their geometry, and nothing else:
/// the world stays well formed, it holds the same entities with the same
/// meshes and bodies, each in the batch it was in, and the same keys are
/// held.
pub proof fn lemma_step_keeps_entities<V, I>(world: WorldView<V, I>, motions: Seq<Motion<V, I>>)
    requires
        world.wf(),
    ensures
        world.after(motions).wf(),
        world.after(motions).entities.dom() == world.entities.dom(),
        world.after(motions).dynamic_scene.objects.dom() == world.dynamic_scene.objects.dom(),
        world.after(motions).static_scene.objects.dom() == world.static_scene.objects.dom(),
        forall|id: u32| #[trigger]
            world.entities.contains_key(id) ==> {
                let before = world.entities[id];
                let after = world.after(motions).entities[id];
                &&& after.is_dynamic == before.is_dynamic
                &&& after.rigid_body_handle == before.rigid_body_handle
                &&& after.mesh == before.mesh
            },
        world.after(motions).tracking == world.tracking,
        world.after(motions).keys == world.keys,
    decreases motions.len(),
{
    if motions.len() > 0 {
        lemma_step_keeps_entities(world, motions.drop_last());
        let before = world.after(motions.drop_last());
        let last = motions.last();
        let after = before.moved(last.entity_id, last.isometry, last.geometry@);
        assert(after.entities.dom() =~= before.entities.dom());
        assert(after.dynamic_scene.objects.dom() =~= before.dynamic_scene.objects.dom());
        assert(after.static_scene.objects.dom() =~= before.static_scene.objects.dom());
    }
}

/// A frame without motions changes nothing, and marks no batch stale.
pub proof fn lemma_still_frame<V, I>(world: WorldView<V, I>)
    ensures
        world.after(Seq::empty()) == world,
{
}

/// An entity keeps the transform and the geometry of its last motion in a
/// frame.
pub proof fn lemma_last_motion_wins<V, I>(world: WorldView<V, I>, motions: Seq<Motion<V, I>>)
    requires
        world.wf(),
        motions.len() > 0,
        world.entities.contains_key(motions.last().entity_id),
    ensures
        ({
            let last = motions.last();
            let after = world.after(motions);
            &&& after.entities[last.entity_id].isometry == last.isometry
            &&& if world.entities[last.entity_id].is_dynamic {
                after.dynamic_scene.objects[last.entity_id] == last.geometry@
                    && after.dynamic_scene.dirty
            } else {
                after.static_scene.objects[last.entity_id] == last.geometry@
                    && after.static_scene.dirty
            }
        }),
{
    lemma_step_keeps_entities(world, motions.drop_last());
}

/// The entities of a simulation and the two batches of their geometry.
pub struct GameWorld<V, I> {
    entities: HashMap<u32, Entity<V, I>>,
    // geometry that changes often (cars, pedestrians)
    dynamic_scene: Scene<V>,
    // geometry that seldom changes (terrain, roads)
    static_scene: Scene<V>,
    // the interactive window, if there is one
    per_window_state: Option<InteractiveRenderingConfig>,
    user_input_state: KeyboardState,
}

impl<V, I> View for GameWorld<V, I> {
    type V = WorldView<V, I>;

    closed spec fn view(&self) -> WorldView<V, I> {
        WorldView {
            entities: entity_map(self.entities@),
            dynamic_scene: self.dynamic_scene@,
            static_scene: self.static_scene@,
            tracking: match self.per_window_state {
                Some(config) => Some(config.tracking_entity),
                None => None,
            },
            keys: self.user_input_state,
        }
    }
}

impl<V: Copy, I: Copy> GameWorld<V, I> {
    /// A world without entities, in which no key is held.
    pub fn new(interactive_rendering_config: Option<InteractiveRenderingConfig>) -> (world:
        GameWorld<V, I>)
        ensures
            world@.wf(),
            world@.entities == Map::<u32, EntityView<V, I>>::empty(),
            world@.dynamic_scene.objects == Map::<u32, Seq<V>>::empty(),
            world@.static_scene.objects == Map::<u32, Seq<V>>::empty(),
            !world@.dynamic_scene.dirty,
            !world@.static_scene.dirty,
            world@.tracking == match interactive_rendering_config {
                Some(config) => Some(config.tracking_entity),
                None => None,
            },
            world@.keys == KeyboardState::released(),
    {
        let world = GameWorld {
            entities: HashMap::new(),
            dynamic_scene: Scene::new(HashMap::new()),
            static_scene: Scene::new(HashMap::new()),
            per_window_state: interactive_rendering_config,
            user_input_state: KeyboardState::new(),
        };
        assert(world@.entities =~= Map::<u32, EntityView<V, I>>::empty());
        assert(world@.dynamic_scene.objects =~= Map::<u32, Seq<V>>::empty());
        assert(world@.static_scene.objects =~= Map::<u32, Seq<V>>::empty());
        world
    }

    /// Takes the entity `entity_id` out of the world, with its geometry,
    /// which is removed from both batches. Returns the body that the entity
    /// had, for the caller to release it. Without such an entity nothing
    /// changes.
    pub fn remove_entity(&mut self, entity_id: u32) -> (released: Option<RigidBodyHandle>)
        requires
            old(self)@.wf(),
        ensures
            final(self)@ == old(self)@.remove_entity(entity_id),
            final(self)@.wf(),
            released == if old(self)@.entities.contains_key(entity_id) {
                old(self)@.entities[entity_id].rigid_body_handle
            } else {
                None
            },
    {
        let entity = self.entities.remove(&entity_id);
        self.dynamic_scene.remove_object(entity_id);
        self.static_scene.remove_object(entity_id);
        assert(final(self)@.entities =~= old(self)@.entities.remove(entity_id));
        match entity {
            Some(entity) => entity.rigid_body_handle,
            None => None,
        }
    }

    /// Puts a new entity into the world under `entity_id` and its geometry
    /// into the batch that owns it: the dynamic batch if the entity has a
    /// dynamic body, else the static one. An entity that had the same id is
    /// removed first; its body, if it had one, is returned for the caller
    /// to release it.
    pub fn add_entity(&mut self, entity_id: u32, entity_creation_data: EntityCreationData<V, I>) -> (released:
        Option<RigidBodyHandle>)
        requires
            old(self)@.wf(),
        ensures
            final(self)@ == old(self)@.add_entity(
                entity_id,
                entity_creation_data.entity(),
                entity_creation_data.geometry@,
            ),
            final(self)@.wf(),
            released == if old(self)@.entities.contains_key(entity_id) {
                old(self)@.entities[entity_id].rigid_body_handle
            } else {
                None
            },
    {
        let EntityCreationData { physics, mesh, isometry, geometry } = entity_creation_data;
        let released = self.remove_entity(entity_id);
        let (rigid_body_handle, is_dynamic) = match physics {
            Some(EntityCreationPhysicsData { is_dynamic, body }) => (Some(body), is_dynamic),
            None => (None, false),
        };
        if is_dynamic {
            self.dynamic_scene.add_object(entity_id, geometry);
        } else {
            self.static_scene.add_object(entity_id, geometry);
        }
        self.entities.insert(entity_id, Entity { rigid_body_handle, is_dynamic, mesh, isometry });
        assert(final(self)@.entities =~= old(self)@.remove_entity(entity_id).entities.insert(
            entity_id,
            entity_creation_data.entity(),
        ));
        released
    }

    /// Takes in that the entity `motion.entity_id` was found at a new
    /// transform: stores the transform, and writes the geometry into the
    /// batch that owns the entity, which marks that batch stale. A motion of
    /// an entity that the world does not hold is dropped.
    pub fn move_entity(&mut self, motion: Motion<V, I>)
        requires
            old(self)@.wf(),
        ensures
            final(self)@ == old(self)@.moved(motion.entity_id, motion.isometry, motion.geometry@),
            final(self)@.wf(),
    {
        let Motion { entity_id, isometry, geometry } = motion;
        match self.entities.remove(&entity_id) {
            Some(entity) => {
                let Entity { rigid_body_handle, is_dynamic, mesh, isometry: _ } = entity;
                self.entities.insert(entity_id, Entity { rigid_body_handle, is_dynamic, mesh, isometry });
                if is_dynamic {
                    self.dynamic_scene.add_object(entity_id, geometry);
                } else {
                    self.static_scene.add_object(entity_id, geometry);
                }
                assert(final(self)@.entities =~= old(self)@.entities.insert(
                    entity_id,
                    EntityView { isometry, ..old(self)@.entities[entity_id] },
                ));
            },
            None => {
                assert(final(self)@.entities =~= old(self)@.entities);
            },
        }
    }

    /// The world's part of one frame, to be run once the physics simulation
    /// has advanced. `moved` names the entities whose transform differs from
    /// the one that the world holds, each with its new transform and its mesh
    /// as that transform places it. The motions are taken in in order, then
    /// the rest of the frame is planned from the world as it then is.
    pub fn step(&mut self, moved: Vec<Motion<V, I>>) -> (plan: StepPlan<I>)
        requires
            old(self)@.wf(),
        ensures
            final(self)@ == old(self)@.after(moved@),
            final(self)@.wf(),
            plan == final(self)@.plan(),
    {
        let ghost motions = moved@;
        for motion in it: moved
            invariant
                it.seq() == motions,
                self@.wf(),
                self@ == old(self)@.after(motions.take(it.index())),
        {
            assert(motions.take(it.index() + 1).drop_last() =~= motions.take(it.index()));
            self.move_entity(motion);
        }
        assert(motions.take(motions.len() as int) =~= motions);
        StepPlan { drive: self.drive(), focus: self.focus() }
    }

    /// The entity that the interactive camera follows, if there is an
    /// interactive window. The entity need not exist.
    pub fn tracking_entity(&self) -> (tracking: Option<u32>)
        ensures
            tracking == self@.tracking,
    {
        match self.per_window_state {
            Some(config) => Some(config.tracking_entity),
            None => None,
        }
    }

    /// The impulses that the held keys ask for.
    pub fn drive(&self) -> (drive: Option<DriveCommand<I>>)
        ensures
            drive == self@.drive(),
    {
        match self.per_window_state {
            Some(config) => match self.entities.get(&config.tracking_entity) {
                Some(entity) => match entity.rigid_body_handle {
                    Some(body) => Some(
                        DriveCommand {
                            body,
                            isometry: entity.isometry,
                            thrust: self.user_input_state.thrust(),
                            turn: self.user_input_state.turn(),
                        },
                    ),
                    None => None,
                },
                None => None,
            },
            None => None,
        }
    }

    /// Where the interactive camera belongs.
    pub fn focus(&self) -> (focus: Option<I>)
        ensures
            focus == self@.focus(),
    {
        match self.per_window_state {
            Some(config) => match self.entities.get(&config.tracking_entity) {
                Some(entity) => Some(entity.isometry),
                None => None,
            },
            None => None,
        }
    }

    /// The vertex buffers to draw, up to date with the entities: first that
    /// of the dynamic batch, then that of the static batch. A batch without
    /// vertices has no buffer. Each batch rebuilds its buffer only if it was
    /// stale.
    pub fn vertex_buffers(&mut self) -> (buffers: [Option<&Vec<V>>; 2])
        requires
            old(self)@.wf(),
        ensures
            old(self)@.read_as(final(self)@),
            final(self)@.wf(),
            shows(buffers[0], final(self)@.dynamic_scene.buffer),
            shows(buffers[1], final(self)@.static_scene.buffer),
    {
        let dynamic_buffer = self.dynamic_scene.vertex_buffer();
        let static_buffer = self.static_scene.vertex_buffer();
        [dynamic_buffer, static_buffer]
    }

    /// What to draw on screen: the vertex buffers, if there is an
    /// interactive window. Without one nothing is read or rebuilt.
    pub fn render(&mut self) -> (buffers: Option<[Option<&Vec<V>>; 2]>)
        requires
            old(self)@.wf(),
        ensures
            final(self)@.wf(),
            match buffers {
                Some(buffers) => {
                    &&& old(self)@.tracking is Some
                    &&& old(self)@.read_as(final(self)@)
                    &&& shows(buffers[0], final(self)@.dynamic_scene.buffer)
                    &&& shows(buffers[1], final(self)@.static_scene.buffer)
                },
                None => old(self)@.tracking is None && final(self)@ == old(self)@,
            },
    {
        if self.per_window_state.is_some() {
            Some(self.vertex_buffers())
        } else {
            None
        }
    }

    /// Takes in a window event: the keyboard state records it. Returns
    /// whether there is an interactive camera, to which the event then goes
    /// as well.
    pub fn handle_window_event<P>(&mut self, input: &WindowEvent<P>) -> (interactive: bool)
        requires
            old(self)@.wf(),
        ensures
            final(self)@ == old(self)@.after_event(*input),
            final(self)@.wf(),
            interactive == old(self)@.tracking is Some,
    {
        self.user_input_state.handle_input(input);
        self.per_window_state.is_some()
    }

    /// The keys that are held.
    pub fn user_input_state(&self) -> (keys: KeyboardState)
        ensures
            keys == self@.keys,
    {
        self.user_input_state
    }

    /// The entities that have a body, each once and with its body, in no
    /// particular order. These are the entities whose transform the physics
    /// simulation decides; every other entity keeps the transform it has.
    pub fn bodies(&self) -> (bodies: Vec<(u32, RigidBodyHandle)>)
        ensures
            bodies@.no_duplicates(),
            forall|id: u32, body: RigidBodyHandle| #[trigger]
                bodies@.contains((id, body)) <==> self@.entities.contains_key(id)
                    && self@.entities[id].rigid_body_handle == Some(body),
    {
        let ids = key_list(&self.entities);
        let mut bodies: Vec<(u32, RigidBodyHandle)> = Vec::new();
        for i in 0..ids.len()
            invariant
                ids@.to_set() == self.entities@.dom(),
                bodies@ == bodies_of(self@.entities, ids@.take(i as int)),
        {
            let id = ids[i];
            assert(ids@.to_set().contains(id));
            assert(ids@.take(i + 1).drop_last() =~= ids@.take(i as int));
            match self.entities.get(&id) {
                Some(entity) => {
                    if let Some(body) = entity.rigid_body_handle {
                        bodies.push((id, body));
                    }
                },
                None => {},
            }
        }
        proof {
            assert(ids@.take(ids@.len() as int) =~= ids@);
            assert forall|id: u32| ids@.contains(id) <==> self@.entities.contains_key(id) by {
                assert(ids@.contains(id) <==> ids@.to_set().contains(id));
                assert(self@.entities.contains_key(id) <==> self.entities@.dom().contains(id));
            }
            assert forall|i: int| 0 <= i < ids@.len() implies self@.entities.contains_key(
                #[trigger] ids@[i],
            ) by {
                assert(ids@.contains(ids@[i]));
            }
            lemma_bodies_of(self@.entities, ids@);
        }
        bodies
    }

    /// The batch of geometry that changes often.
    pub fn dynamic_scene(&self) -> (scene: &Scene<V>)
        ensures
            scene@ == self@.dynamic_scene,
    {
        &self.dynamic_scene
    }

    /// The batch of geometry that seldom changes.
    pub fn static_scene(&self) -> (scene: &Scene<V>)
        ensures
            scene@ == self@.static_scene,
    {
        &self.static_scene
    }

    /// The entity `entity_id`, if the world holds it.
    pub fn entity(&self, entity_id: u32) -> (entity: Option<&Entity<V, I>>)
        ensures
            match entity {
                Some(entity) => self@.entities.contains_key(entity_id) && entity@
                    == self@.entities[entity_id],
                None => !self@.entities.contains_key(entity_id),
            },
    {
        self.entities.get(&entity_id)
    }

    /// The ids of the entities, each once, in no particular order.
    pub fn entity_ids(&self) -> (ids: Vec<u32>)
        ensures
            ids@.no_duplicates(),
            ids@.to_set() == self@.entities.dom(),
    {
        let ids = key_list(&self.entities);
        assert(self@.entities.dom() =~= self.entities@.dom());
        ids
    }
}

} // verus!
