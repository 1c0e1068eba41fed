//! The world: an arena of entities, each a record of optional components,
//! and the images that cameras can draw into.

use vstd::prelude::*;
use crate::camera::{Camera, ImageHandle};
use crate::layers::RenderLayers;
use crate::material::Material;
use crate::pixelating_plugin::PixelatedCamera;
use crate::target::{OffscreenTarget, TargetDescriptor};

verus! {

/// Names an entity of a [`World`]: its position in the arena.
#[derive(Clone, Copy, Debug, PartialEq, Eq, Structural)]
pub struct Entity {
    pub index: usize,
}

/// The components of one entity. A camera has `camera`; a surface has
/// `material`; each may carry the others.
#[derive(Clone, Copy, Debug, PartialEq, Eq)]
pub struct Components {
    /// Present on a camera.
    pub camera: Option<Camera>,
    /// The layers the entity is on. Without it the entity is on layer 0.
    pub render_layers: Option<RenderLayers>,
    /// Asks that the camera be made a source of the pixelated pass.
    pub pixelated_camera: Option<PixelatedCamera>,
    /// Whether the camera writes a depth prepass.
    pub depth_prepass: bool,
    /// Whether the camera writes a normal prepass.
    pub normal_prepass: bool,
    /// Present on a surface.
    pub material: Option<Material>,
    /// Whether the surface casts no shadow.
    pub not_shadow_caster: bool,
    /// Whether the surface receives no shadow.
    pub not_shadow_receiver: bool,
    /// Marks the quad that shows the offscreen target.
    pub main_pass_display: bool,
}

/// The record without any component.
pub open spec fn no_components() -> Components {
    Components {
        camera: None,
        render_layers: None,
        pixelated_camera: None,
        depth_prepass: false,
        normal_prepass: false,
        material: None,
        not_shadow_caster: false,
        not_shadow_receiver: false,
        main_pass_display: false,
    }
}

impl Components {
    /// The record without any component.
    pub fn new() -> (r: Components)
        ensures
            r == no_components(),
    {
        Components {
            camera: None,
            render_layers: None,
            pixelated_camera: None,
            depth_prepass: false,
            normal_prepass: false,
            material: None,
            not_shadow_caster: false,
            not_shadow_receiver: false,
            main_pass_display: false,
        }
    }

    /// Whether both prepasses that the quantising shader reads are there.
    pub open spec fn prepasses_present(self) -> bool {
        self.depth_prepass && self.normal_prepass
    }

    /// Whether both prepasses that the quantising shader reads are there:
    /// without them, what the shader reconstructs is undefined.
    pub fn has_required_prepasses(&self) -> (r: bool)
        ensures
            r == self.prepasses_present(),
    {
        self.depth_prepass && self.normal_prepass
    }
}

/// One place of the arena: an entity's components, and whether the binding
/// system has configured it.
#[derive(Clone, Copy, Debug, PartialEq, Eq)]
pub struct Slot {
    pub components: Components,
    pub configured: bool,
}

/// What a world holds, as plain values: the slot of each entity, by index,
/// and the descriptor of each image, by handle.
pub struct WorldView {
    pub slots: Seq<Slot>,
    pub images: Seq<TargetDescriptor>,
}

impl WorldView {
    /// The positions of the entities that the binding system has configured.
    pub open spec fn configured(self) -> Set<int> {
        Set::new(|i: int| 0 <= i < self.slots.len() && self.slots[i].configured)
    }

    /// The positions of the cameras that carry the marker.
    pub open spec fn marked_cameras(self) -> Set<int> {
        Set::new(
            |i: int|
                {
                    &&& 0 <= i < self.slots.len()
                    &&& self.slots[i].components.camera is Some
                    &&& self.slots[i].components.pixelated_camera is Some
                },
        )
    }
}

/// The world without entities or images.
pub open spec fn empty_world() -> WorldView {
    WorldView { slots: Seq::empty(), images: Seq::empty() }
}

/// The entities and images of a running pipeline.
pub struct World {
    slots: Vec<Slot>,
    images: Vec<OffscreenTarget>,
}

impl View for World {
    type V = WorldView;

    closed spec fn view(&self) -> WorldView {
        WorldView {
            slots: self.slots@,
            images: Seq::new(self.images@.len(), |i: int| self.images@[i]@),
        }
    }
}

impl World {
    /// The world without entities or images.
    pub fn new() -> (r: World)
        ensures
            r@ == empty_world(),
    {
        let r = World { slots: Vec::new(), images: Vec::new() };
        assert(r@.images =~= Seq::<TargetDescriptor>::empty());
        r
    }

    /// Number of entities.
    pub fn len(&self) -> (r: usize)
        ensures
            r == self@.slots.len(),
    {
        self.slots.len()
    }

    /// Number of images.
    pub fn image_count(&self) -> (r: usize)
        ensures
            r == self@.images.len(),
    {
        self.images.len()
    }

    /// Adds an entity with the given components, not yet configured.
    pub fn spawn(&mut self, components: Components) -> (r: Entity)
        ensures
            final(self)@.slots == old(self)@.slots.push(Slot { components, configured: false }),
            final(self)@.images == old(self)@.images,
            r.index == old(self)@.slots.len(),
    {
        let index = self.slots.len();
        self.slots.push(Slot { components, configured: false });
        assert(self@.images =~= old(self)@.images);
        Entity { index }
    }

    /// The components of `entity`, if there is such an entity.
    pub fn get(&self, entity: Entity) -> (r: Option<Components>)
        ensures
            r == if entity.index < self@.slots.len() {
                Some(self@.slots[entity.index as int].components)
            } else {
                None
            },
    {
        if entity.index < self.slots.len() {
            Some(self.slots[entity.index].components)
        } else {
            None
        }
    }

    /// The slot of `entity`, if there is such an entity.
    pub fn slot(&self, entity: Entity) -> (r: Option<Slot>)
        ensures
            r == if entity.index < self@.slots.len() {
                Some(self@.slots[entity.index as int])
            } else {
                None
            },
    {
        if entity.index < self.slots.len() {
            Some(self.slots[entity.index])
        } else {
            None
        }
    }

    /// Replaces the components of `entity` and says whether there is such an
    /// entity. Whether the entity has been configured stays as it was.
    pub fn insert(&mut self, entity: Entity, components: Components) -> (r: bool)
        ensures
            r == (entity.index < old(self)@.slots.len()),
            r ==> final(self)@.slots == old(self)@.slots.update(
                entity.index as int,
                Slot { components, configured: old(self)@.slots[entity.index as int].configured },
            ),
            !r ==> final(self)@.slots == old(self)@.slots,
            final(self)@.images == old(self)@.images,
    {
        if entity.index < self.slots.len() {
            let configured = self.slots[entity.index].configured;
            self.slots.set(entity.index, Slot { components, configured });
            assert(self@.images =~= old(self)@.images);
            true
        } else {
            false
        }
    }

    /// Writes the slot of an entity that exists.
    pub(crate) fn set_slot(&mut self, entity: Entity, slot: Slot)
        requires
            entity.index < old(self)@.slots.len(),
        ensures
            final(self)@.slots == old(self)@.slots.update(entity.index as int, slot),
            final(self)@.images == old(self)@.images,
    {
        self.slots.set(entity.index, slot);
        assert(self@.images =~= old(self)@.images);
    }

    /// Stores an image and gives the handle that names it from now on.
    pub(crate) fn add_image(&mut self, image: OffscreenTarget) -> (r: ImageHandle)
        ensures
            final(self)@.images == old(self)@.images.push(image@),
            final(self)@.slots == old(self)@.slots,
            r.index == old(self)@.images.len(),
    {
        let index = self.images.len();
        self.images.push(image);
        assert(self@.images =~= old(self)@.images.push(image@));
        ImageHandle { index }
    }

    /// The image that `handle` names, if there is one.
    pub fn image(&self, handle: ImageHandle) -> (r: Option<OffscreenTarget>)
        ensures
            match r {
                Some(image) => handle.index < self@.images.len() && image@
                    == self@.images[handle.index as int],
                None => handle.index >= self@.images.len(),
            },
    {
        if handle.index < self.images.len() {
            Some(self.images[handle.index])
        } else {
            None
        }
    }
}

} // verus!
