//! The pipeline itself: what startup creates, and the system that binds
//! marked cameras to the offscreen target.

use vstd::prelude::*;
use crate::app::{App, AppView};
use crate::camera::{default_camera, Camera, ImageHandle, RenderTarget, PIXELATED_CAMERA_ORDER};
use crate::layers::{RenderLayers, PIXELATED_LAYER};
use crate::material::{Material, StandardMaterial};
use crate::target::{AllocationError, OffscreenTarget, TargetConfig};
use crate::world::{no_components, Components, Entity, Slot, World, WorldView};

verus! {

/// Add `PixelatedCamera` to a 3d camera to use it as the source of the
/// pixelated effect.
#[derive(Clone, Copy, Debug, PartialEq, Eq, Structural)]
pub struct PixelatedCamera;

/// Registers the pixelation pipeline with an application.
#[derive(Clone, Copy, Debug, PartialEq, Eq, Structural)]
pub struct PixelatingPlugin;

impl PixelatingPlugin {
    /// Registers the pipeline: materials take part in the prepasses, startup
    /// is [`setup`], and every update runs [`configure_pixelated_camera`].
    pub fn build(&self, app: &mut App)
        ensures
            final(app)@ == (AppView {
                pipeline_registered: true,
                prepass_enabled: true,
                ..old(app)@
            }),
    {
        app.add_material_plugin(true);
        app.register_pipeline();
    }
}

/// The handle of the offscreen target.
#[derive(Clone, Copy, Debug, PartialEq, Eq, Structural)]
pub struct FirstPassImage(pub ImageHandle);

/// The layers of the pixelated pass: what a source camera draws, and what
/// the display camera leaves out.
#[derive(Clone, Copy, Debug, PartialEq, Eq, Structural)]
pub struct PixelatedPassLayer(pub RenderLayers);

impl PixelatedPassLayer {
    /// The one value there is: layer 1 alone.
    pub open spec fn spec_new() -> PixelatedPassLayer {
        PixelatedPassLayer(RenderLayers::spec_layer(PIXELATED_LAYER))
    }

    /// The one value there is: layer 1 alone.
    pub fn new() -> (r: PixelatedPassLayer)
        ensures
            r == Self::spec_new(),
            r.0@ == set![PIXELATED_LAYER as nat],
    {
        PixelatedPassLayer(RenderLayers::layer(PIXELATED_LAYER))
    }

    /// The layers of the pixelated pass.
    pub fn pixelated_layer(&self) -> (r: RenderLayers)
        ensures
            r == self.0,
    {
        self.0
    }
}

/// What startup leaves behind for the systems that run later.
#[derive(Clone, Copy, Debug, PartialEq, Eq, Structural)]
pub struct Pipeline {
    /// The offscreen target.
    pub image: FirstPassImage,
    /// The layers of the pixelated pass.
    pub layer: PixelatedPassLayer,
    /// The quad that shows the offscreen target.
    pub display_quad: Entity,
    /// The camera that draws the quad to the screen.
    pub display_camera: Entity,
}

/// The quad that shows the offscreen target: an unlit surface that samples
/// the target and neither casts nor receives shadows. It names no layers, so
/// it is on layer 0.
pub open spec fn display_quad(image: ImageHandle) -> Components {
    Components {
        material: Some(
            Material::Standard(StandardMaterial { base_color_texture: Some(image), unlit: true }),
        ),
        not_shadow_caster: true,
        not_shadow_receiver: true,
        main_pass_display: true,
        ..no_components()
    }
}

/// The camera that draws the quad: it draws to the screen in default order
/// and names no layers, so it sees layer 0 only.
pub open spec fn display_camera() -> Components {
    Components { camera: Some(default_camera()), ..no_components() }
}

/// What startup hands on when it runs on `world`: the image and the two
/// entities are the next ones that `world` has room for.
pub open spec fn pipeline_for(world: WorldView) -> Pipeline {
    Pipeline {
        image: FirstPassImage(ImageHandle { index: world.images.len() as usize }),
        layer: PixelatedPassLayer::spec_new(),
        display_quad: Entity { index: world.slots.len() as usize },
        display_camera: Entity { index: (world.slots.len() + 1) as usize },
    }
}

/// The world after startup: one more image, the offscreen target for
/// `config`, and two more entities, the display quad and the display camera.
pub open spec fn started(world: WorldView, config: TargetConfig) -> WorldView {
    WorldView {
        slots: world.slots.push(
            Slot {
                components: display_quad(pipeline_for(world).image.0),
                configured: false,
            },
        ).push(Slot { components: display_camera(), configured: false }),
        images: world.images.push(config.descriptor()),
    }
}

/// Whether the binding system has work to do on a slot: it holds a camera
/// that carries the marker and has not been configured.
pub open spec fn is_pending(slot: Slot) -> bool {
    slot.components.camera is Some && slot.components.pixelated_camera is Some && !slot.configured
}

/// The components of a camera once it is bound: it draws into the offscreen
/// target, before the display camera, and is on the layers of the pixelated
/// pass. Everything else is kept.
pub open spec fn bound_components(
    components: Components,
    image: FirstPassImage,
    layer: PixelatedPassLayer,
) -> Components {
    Components {
        camera: Some(
            Camera { order: PIXELATED_CAMERA_ORDER, target: RenderTarget::Image(image.0) },
        ),
        render_layers: Some(layer.0),
        ..components
    }
}

/// What one run of the binding system makes of a slot: a pending camera is
/// bound and marked as configured, any other slot is left alone.
pub open spec fn bind_slot(slot: Slot, image: FirstPassImage, layer: PixelatedPassLayer) -> Slot {
    if is_pending(slot) {
        Slot { components: bound_components(slot.components, image, layer), configured: true }
    } else {
        slot
    }
}

/// What one run of the binding system makes of a world: every slot by
/// itself, the images untouched.
pub open spec fn bind_pending(
    world: WorldView,
    image: FirstPassImage,
    layer: PixelatedPassLayer,
) -> WorldView {
    WorldView {
        slots: Seq::new(world.slots.len(), |i: int| bind_slot(world.slots[i], image, layer)),
        images: world.images,
    }
}

/// Creates the offscreen target, the layers of the pixelated pass, the
/// display quad and the display camera.
///
/// Each call creates all of them anew: call it once. Where no target can be
/// made for `config`, nothing is created.
pub fn setup(world: &mut World, config: TargetConfig) -> (r: Result<Pipeline, AllocationError>)
    ensures
        match r {
            Ok(pipeline) => {
                &&& config.supported()
                &&& final(world)@ == started(old(world)@, config)
                &&& pipeline == pipeline_for(old(world)@)
            },
            Err(e) => {
                &&& !config.supported()
                &&& e == config.allocation_error()
                &&& final(world)@ == old(world)@
            },
        },
{
    let target = match OffscreenTarget::allocate(config) {
        Ok(target) => target,
        Err(e) => {
            return Err(e);
        },
    };
    let image = FirstPassImage(world.add_image(target));
    let layer = PixelatedPassLayer::new();
    let display_quad = world.spawn(
        Components {
            material: Some(
                Material::Standard(
                    StandardMaterial { base_color_texture: Some(image.0), unlit: true },
                ),
            ),
            not_shadow_caster: true,
            not_shadow_receiver: true,
            main_pass_display: true,
            ..Components::new()
        },
    );
    let display_camera = world.spawn(
        Components { camera: Some(Camera::default()), ..Components::new() },
    );
    Ok(Pipeline { image, layer, display_quad, display_camera })
}

/// Binds one camera to the offscreen target.
pub fn bind_camera(
    components: Components,
    image: &FirstPassImage,
    layer: &PixelatedPassLayer,
) -> (r: Components)
    ensures
        r == bound_components(components, *image, *layer),
{
    Components {
        camera: Some(
            Camera { order: PIXELATED_CAMERA_ORDER, target: RenderTarget::Image(image.0) },
        ),
        render_layers: Some(layer.0),
        ..components
    }
}

/// Turns any camera that carries `PixelatedCamera` into a camera that draws
/// into the offscreen target.
///
/// Each such camera is configured on the first run that finds it, and never
/// again.
pub fn configure_pixelated_camera(
    world: &mut World,
    image: &FirstPassImage,
    pixelated_pass_layer: &PixelatedPassLayer,
)
    ensures
        final(world)@ == bind_pending(old(world)@, *image, *pixelated_pass_layer),
{
    let count = world.len();
    let mut index: usize = 0;
    while index < count
        invariant
            index <= count,
            count == old(world)@.slots.len(),
            world@.slots.len() == count,
            world@.images == old(world)@.images,
            forall|i: int|
                0 <= i < index ==> world@.slots[i] == bind_slot(
                    old(world)@.slots[i],
                    *image,
                    *pixelated_pass_layer,
                ),
            forall|i: int| index <= i < count ==> world@.slots[i] == old(world)@.slots[i],
        decreases count - index,
    {
        let entity = Entity { index };
        let slot = world.slot(entity).unwrap();
        if slot.components.camera.is_some() && slot.components.pixelated_camera.is_some()
            && !slot.configured {
            let components = bind_camera(slot.components, image, pixelated_pass_layer);
            world.set_slot(entity, Slot { components, configured: true });
        }
        index = index + 1;
    }
    assert(world@.slots =~= bind_pending(old(world)@, *image, *pixelated_pass_layer).slots);
}

/// Whether `entity` is a camera of `world` that draws into the offscreen
/// target.
pub open spec fn draws_offscreen(world: WorldView, image: FirstPassImage, entity: Entity) -> bool {
    &&& entity.index < world.slots.len()
    &&& world.slots[entity.index as int].components.camera matches Some(camera)
    &&& camera.renders_to(image.0)
}

/// The camera whose picture the offscreen target holds after a frame in
/// which the cameras `submitted` drew, in that sequence: the last of them
/// that draws into the target. Several source cameras share one target, and
/// the one that draws last overwrites the others.
pub fn last_submitted(
    world: &World,
    image: &FirstPassImage,
    submitted: &Vec<Entity>,
) -> (r: Option<Entity>)
    ensures
        match r {
            Some(entity) => exists|i: int|
                {
                    &&& 0 <= i < submitted@.len()
                    &&& #[trigger] submitted@[i] == entity
                    &&& draws_offscreen(world@, *image, entity)
                    &&& forall|j: int|
                        i < j < submitted@.len() ==> !draws_offscreen(
                            world@,
                            *image,
                            #[trigger] submitted@[j],
                        )
                },
            None => forall|j: int|
                0 <= j < submitted@.len() ==> !draws_offscreen(
                    world@,
                    *image,
                    #[trigger] submitted@[j],
                ),
        },
{
    let mut index: usize = submitted.len();
    while index > 0
        invariant
            index <= submitted@.len(),
            forall|j: int|
                index <= j < submitted@.len() ==> !draws_offscreen(
                    world@,
                    *image,
                    #[trigger] submitted@[j],
                ),
        decreases index,
    {
        index = index - 1;
        let entity = submitted[index];
        let draws = match world.get(entity) {
            Some(components) => match components.camera {
                Some(camera) => camera.draws_into(image.0),
                None => false,
            },
            None => false,
        };
        if draws {
            assert(submitted@[index as int] == entity);
            return Some(entity);
        }
    }
    None
}

} // verus!
