//! What holds of the pipeline as a whole, proved from the definitions that
//! the functions' contracts are stated in.

use vstd::prelude::*;
use crate::app::{inserted, spawned, updated, AppView};
use crate::camera::{Camera, RenderTarget, DEFAULT_CAMERA_ORDER, PIXELATED_CAMERA_ORDER};
use crate::layers::{sees, RenderLayers, PIXELATED_LAYER};
use crate::material::{clamp_steps, MIN_QUANTIZE_STEPS};
use crate::pixelating_plugin::{
    bind_pending, bind_slot, bound_components, display_camera, display_quad, is_pending,
    pipeline_for, started, FirstPassImage, PixelatedPassLayer,
};
use crate::target::FilterMode;
use crate::world::{Components, Entity, Slot, WorldView};

verus! {

/// One run of the binding system gives every pending camera the offscreen
/// target, a draw order below the display camera's, and the layers of the
/// pixelated pass; the rest of its components stay, and it counts as
/// configured from then on.
pub proof fn lemma_pending_camera_is_bound(
    world: WorldView,
    image: FirstPassImage,
    layer: PixelatedPassLayer,
    i: int,
)
    requires
        0 <= i < world.slots.len(),
        is_pending(world.slots[i]),
    ensures
        ({
            let before = world.slots[i].components;
            let after = bind_pending(world, image, layer).slots[i];
            &&& after.configured
            &&& after.components.camera matches Some(camera)
            &&& camera.target == RenderTarget::Image(image.0)
            &&& camera.order == PIXELATED_CAMERA_ORDER
            &&& display_camera().camera matches Some(display)
            &&& camera.order < display.order
            &&& after.components.render_layers == Some(layer.0)
            &&& after.components == bound_components(before, image, layer)
            &&& after.components.pixelated_camera == before.pixelated_camera
            &&& after.components.depth_prepass == before.depth_prepass
            &&& after.components.normal_prepass == before.normal_prepass
        }),
{
}

/// A run of the binding system works on the difference of two sets: the
/// marked cameras that are not among the configured entities are the pending
/// ones, and after the run the marked cameras are among the configured
/// entities, with those that were there before.
pub proof fn lemma_binding_works_on_the_difference(
    world: WorldView,
    image: FirstPassImage,
    layer: PixelatedPassLayer,
)
    ensures
        forall|i: int|
            0 <= i < world.slots.len() ==> (is_pending(#[trigger] world.slots[i])
                <==> world.marked_cameras().contains(i) && !world.configured().contains(i)),
        bind_pending(world, image, layer).configured() == world.configured().union(
            world.marked_cameras(),
        ),
        bind_pending(world, image, layer).marked_cameras() == world.marked_cameras(),
{
    let after = bind_pending(world, image, layer);
    assert(after.configured() =~= world.configured().union(world.marked_cameras()));
    assert(after.marked_cameras() =~= world.marked_cameras());
}

/// A slot that is not a pending camera is left exactly as it is by a run of
/// the binding system: a camera that has been configured is never
/// configured again, whatever has been done to it since.
pub proof fn lemma_other_slots_are_left_alone(
    world: WorldView,
    image: FirstPassImage,
    layer: PixelatedPassLayer,
    i: int,
)
    requires
        0 <= i < world.slots.len(),
        !is_pending(world.slots[i]),
    ensures
        bind_pending(world, image, layer).slots[i] == world.slots[i],
{
}

/// What the binding system makes of one camera does not depend on any other
/// entity: two worlds that agree on a slot agree on it after a run.
pub proof fn lemma_binding_is_per_camera(
    first: WorldView,
    second: WorldView,
    image: FirstPassImage,
    layer: PixelatedPassLayer,
    i: int,
)
    requires
        0 <= i < first.slots.len(),
        0 <= i < second.slots.len(),
        first.slots[i] == second.slots[i],
    ensures
        bind_pending(first, image, layer).slots[i] == bind_pending(second, image, layer).slots[i],
{
}

/// A second run of the binding system changes nothing, even with another
/// target and other layers: no camera is left pending by a run.
pub proof fn lemma_binding_is_idempotent(
    world: WorldView,
    image: FirstPassImage,
    layer: PixelatedPassLayer,
    later_image: FirstPassImage,
    later_layer: PixelatedPassLayer,
)
    ensures
        bind_pending(bind_pending(world, image, layer), later_image, later_layer) == bind_pending(
            world,
            image,
            layer,
        ),
        forall|i: int|
            0 <= i < world.slots.len() ==> !is_pending(
                #[trigger] bind_pending(world, image, layer).slots[i],
            ),
{
    let once = bind_pending(world, image, layer);
    let twice = bind_pending(once, later_image, later_layer);
    assert(twice.slots =~= once.slots);
}

/// The world after the cameras at the positions `order` have been bound one
/// at a time, in that sequence. Positions outside the world are passed over.
pub open spec fn bind_in_sequence(
    world: WorldView,
    order: Seq<int>,
    image: FirstPassImage,
    layer: PixelatedPassLayer,
) -> WorldView
    decreases order.len(),
{
    if order.len() == 0 {
        world
    } else {
        let before = bind_in_sequence(world, order.drop_last(), image, layer);
        let i = order.last();
        if 0 <= i < before.slots.len() {
            WorldView {
                slots: before.slots.update(i, bind_slot(before.slots[i], image, layer)),
                images: before.images,
            }
        } else {
            before
        }
    }
}

/// The sequence in which cameras are bound does not matter: binding them one
/// at a time, in any sequence that reaches every entity, gives what one run
/// of the binding system gives.
pub proof fn lemma_binding_order_is_irrelevant(
    world: WorldView,
    order: Seq<int>,
    image: FirstPassImage,
    layer: PixelatedPassLayer,
)
    requires
        forall|i: int| 0 <= i < world.slots.len() ==> order.contains(i),
    ensures
        bind_in_sequence(world, order, image, layer) == bind_pending(world, image, layer),
{
    lemma_bind_in_sequence(world, order, image, layer);
    let one_by_one = bind_in_sequence(world, order, image, layer);
    let at_once = bind_pending(world, image, layer);
    assert(one_by_one.slots =~= at_once.slots);
}

/// After binding one at a time, a slot is bound if its position was in the
/// sequence, and as it was if not.
proof fn lemma_bind_in_sequence(
    world: WorldView,
    order: Seq<int>,
    image: FirstPassImage,
    layer: PixelatedPassLayer,
)
    ensures
        bind_in_sequence(world, order, image, layer).slots.len() == world.slots.len(),
        bind_in_sequence(world, order, image, layer).images == world.images,
        forall|i: int|
            0 <= i < world.slots.len() ==> #[trigger] bind_in_sequence(
                world,
                order,
                image,
                layer,
            ).slots[i] == if order.contains(i) {
                bind_slot(world.slots[i], image, layer)
            } else {
                world.slots[i]
            },
    decreases order.len(),
{
    if order.len() > 0 {
        let earlier = order.drop_last();
        lemma_bind_in_sequence(world, earlier, image, layer);
        assert forall|i: int| order.contains(i) <==> earlier.contains(i) || i == order.last() by {
            if earlier.contains(i) {
                let k = choose|k: int| 0 <= k < earlier.len() && earlier[k] == i;
                assert(order[k] == i);
            }
            if order.contains(i) {
                let k = choose|k: int| 0 <= k < order.len() && order[k] == i;
                if k < earlier.len() {
                    assert(earlier[k] == i);
                }
            }
            if i == order.last() {
                assert(order[order.len() - 1] == i);
            }
        }
    }
}

/// The step count that is read back is the one that was asked for, unless
/// that was zero: then it is one. It is never zero.
pub proof fn lemma_steps_read_back(requested: u32)
    ensures
        requested >= MIN_QUANTIZE_STEPS ==> clamp_steps(requested) == requested,
        requested == 0 ==> clamp_steps(requested) == 1,
        clamp_steps(requested) >= 1,
{
}

/// The two passes are kept apart by their layers. A camera on the layers of
/// the pixelated pass sees what is on those layers and not what names no
/// layers, such as the display quad; a camera that names no layers, such as
/// the display camera, sees what names no layers and not what is on the
/// layers of the pixelated pass.
pub proof fn lemma_passes_are_kept_apart()
    ensures
        ({
            let pass = Some(PixelatedPassLayer::spec_new().0);
            let unnamed = None::<RenderLayers>;
            &&& sees(pass, pass)
            &&& !sees(pass, unnamed)
            &&& sees(unnamed, unnamed)
            &&& !sees(unnamed, pass)
            &&& display_camera().render_layers == unnamed
            &&& forall|image| (#[trigger] display_quad(image)).render_layers == unnamed
        }),
{
    RenderLayers::lemma_spec_layer(PIXELATED_LAYER);
    let pass = PixelatedPassLayer::spec_new().0@;
    assert(pass.contains(1nat));
    assert(set![0nat].contains(0nat));
    assert(pass.disjoint(set![0nat]));
    assert(set![0nat].disjoint(pass));
}

/// The application after `n` updates in a row.
pub open spec fn updated_times(app: AppView, n: nat) -> AppView
    decreases n,
{
    if n == 0 {
        app
    } else {
        updated(updated_times(app, (n - 1) as nat))
    }
}

/// An update right after an update changes nothing.
pub proof fn lemma_update_is_idempotent(app: AppView)
    ensures
        updated(updated(app)) == updated(app),
{
    let once = updated(app);
    if app.pipeline_registered {
        match once.pipeline {
            Some(pipeline) => {
                let before = match app.pipeline {
                    Some(_) => app.world,
                    None => started(app.world, app.config),
                };
                lemma_binding_is_idempotent(
                    before,
                    pipeline.image,
                    pipeline.layer,
                    pipeline.image,
                    pipeline.layer,
                );
            },
            None => {},
        }
    }
}

/// Any number of updates in a row, if at least one, gives what one update
/// gives.
pub proof fn lemma_repeated_updates(app: AppView, n: nat)
    requires
        n >= 1,
    ensures
        updated_times(app, n) == updated(app),
    decreases n,
{
    if n > 1 {
        lemma_repeated_updates(app, (n - 1) as nat);
        lemma_update_is_idempotent(app);
    } else {
        assert(updated_times(app, 0) == app);
    }
}

/// Startup happens once, however many updates follow: after any number of
/// updates of an application with the pipeline registered, not yet started
/// and with a supported target size, there is exactly one more image, the
/// target of the configured size with nearest filtering, and exactly two
/// more entities, the display quad that samples it and the display camera.
pub proof fn lemma_startup_happens_once(app: AppView, n: nat)
    requires
        app.pipeline_registered,
        app.pipeline is None,
        app.config.supported(),
        n >= 1,
    ensures
        ({
            let end = updated_times(app, n);
            let count = app.world.slots.len() as int;
            let pipeline = pipeline_for(app.world);
            &&& end.pipeline == Some(pipeline)
            &&& end.world.images == app.world.images.push(app.config.descriptor())
            &&& end.world.images.last().width == app.config.width
            &&& end.world.images.last().height == app.config.height
            &&& end.world.images.last().filter == FilterMode::Nearest
            &&& end.world.slots.len() == count + 2
            &&& end.world.slots[count] == Slot {
                components: display_quad(pipeline.image.0),
                configured: false,
            }
            &&& end.world.slots[count + 1] == Slot {
                components: display_camera(),
                configured: false,
            }
            &&& forall|i: int|
                0 <= i < count ==> #[trigger] end.world.slots[i] == bind_slot(
                    app.world.slots[i],
                    pipeline.image,
                    pipeline.layer,
                )
        }),
{
    lemma_repeated_updates(app, n);
}

/// Every update of an application where startup has run, or can run, binds
/// each pending camera to the offscreen target of the pipeline, below the
/// display camera in draw order and on the layers of the pixelated pass.
pub proof fn lemma_update_binds_pending_cameras(app: AppView, i: int)
    requires
        app.pipeline_registered,
        app.pipeline is Some || app.config.supported(),
        0 <= i < app.world.slots.len(),
        is_pending(app.world.slots[i]),
    ensures
        ({
            let after = updated(app).world.slots[i];
            &&& updated(app).pipeline matches Some(pipeline)
            &&& app.pipeline is Some ==> app.pipeline == Some(pipeline)
            &&& after.configured
            &&& after.components == bound_components(
                app.world.slots[i].components,
                pipeline.image,
                pipeline.layer,
            )
            &&& after.components.camera == Some(
                Camera {
                    order: PIXELATED_CAMERA_ORDER,
                    target: RenderTarget::Image(pipeline.image.0),
                },
            )
            &&& PIXELATED_CAMERA_ORDER < DEFAULT_CAMERA_ORDER
            &&& after.components.render_layers == Some(pipeline.layer.0)
        }),
{
}

/// An update leaves a camera that has been configured exactly as it is,
/// and so does any number of updates in a row.
pub proof fn lemma_configured_camera_is_never_rebound(app: AppView, i: int, n: nat)
    requires
        0 <= i < app.world.slots.len(),
        app.world.slots[i].configured,
    ensures
        updated_times(app, n).world.slots.len() >= app.world.slots.len(),
        updated_times(app, n).world.slots[i] == app.world.slots[i],
    decreases n,
{
    if n > 0 {
        lemma_configured_camera_is_never_rebound(app, i, (n - 1) as nat);
    }
}

/// What happens to an application once the pipeline is registered and its
/// target size is set.
pub enum Action {
    /// One update.
    Update,
    /// An entity is added.
    Spawn(Components),
    /// The components of an entity are replaced.
    Insert(Entity, Components),
}

/// The application after one action.
pub open spec fn acted(app: AppView, action: Action) -> AppView {
    match action {
        Action::Update => updated(app),
        Action::Spawn(components) => spawned(app, components),
        Action::Insert(entity, components) => inserted(app, entity, components),
    }
}

/// The application after the actions, in their sequence.
pub open spec fn run(app: AppView, actions: Seq<Action>) -> AppView
    decreases actions.len(),
{
    if actions.len() == 0 {
        app
    } else {
        acted(run(app, actions.drop_last()), actions.last())
    }
}

/// Number of entities that the actions add.
pub open spec fn spawn_count(actions: Seq<Action>) -> nat
    decreases actions.len(),
{
    if actions.len() == 0 {
        0
    } else {
        spawn_count(actions.drop_last()) + if actions.last() is Spawn {
            1nat
        } else {
            0nat
        }
    }
}

/// Over the whole life of an application the pipeline is created at most
/// once, and exactly once if there is an update and the target size is
/// supported. Whatever entities the caller adds or replaces and however many
/// updates run, the world gains one image, the offscreen target of the
/// configured size, and besides the entities that the caller added two
/// more, the display quad and the display camera.
pub proof fn lemma_pipeline_is_created_once(app: AppView, actions: Seq<Action>)
    requires
        app.pipeline_registered,
        app.pipeline is None,
    ensures
        ({
            let end = run(app, actions);
            let is_started = app.config.supported() && actions.contains(Action::Update);
            &&& end.config == app.config
            &&& end.pipeline_registered
            &&& end.pipeline is Some <==> is_started
            &&& !is_started ==> end.world.images == app.world.images
            &&& !is_started ==> end.world.slots.len() == app.world.slots.len() + spawn_count(
                actions,
            )
            &&& is_started ==> end.world.images == app.world.images.push(app.config.descriptor())
            &&& is_started ==> end.world.slots.len() == app.world.slots.len() + spawn_count(
                actions,
            ) + 2
            &&& end.pipeline matches Some(pipeline) ==> {
                &&& pipeline.image == pipeline_for(app.world).image
                &&& pipeline.layer == PixelatedPassLayer::spec_new()
            }
        }),
    decreases actions.len(),
{
    if actions.len() > 0 {
        let earlier = actions.drop_last();
        lemma_pipeline_is_created_once(app, earlier);
        assert(actions.contains(Action::Update) <==> earlier.contains(Action::Update)
            || actions.last() == Action::Update) by {
            if earlier.contains(Action::Update) {
                let k = choose|k: int| 0 <= k < earlier.len() && earlier[k] == Action::Update;
                assert(actions[k] == Action::Update);
            }
            if actions.contains(Action::Update) {
                let k = choose|k: int| 0 <= k < actions.len() && actions[k] == Action::Update;
                if k < earlier.len() {
                    assert(earlier[k] == Action::Update);
                }
            }
            if actions.last() == Action::Update {
                assert(actions[actions.len() - 1] == Action::Update);
            }
        }
    }
}

/// Whether the action replaces the components of the entity at position
/// `i`.
pub open spec fn replaces(action: Action, i: int) -> bool {
    action matches Action::Insert(entity, _) && entity.index == i
}

/// A camera is bound once in the life of an application. Once it has been
/// configured it stays so whatever the caller does and however many updates
/// run, and no update touches it again: it changes only where the caller
/// replaces its components.
pub proof fn lemma_camera_is_bound_once(app: AppView, actions: Seq<Action>, i: int)
    requires
        0 <= i < app.world.slots.len(),
        app.world.slots[i].configured,
    ensures
        ({
            let end = run(app, actions);
            &&& i < end.world.slots.len()
            &&& end.world.slots[i].configured
            &&& (forall|k: int| 0 <= k < actions.len() ==> !replaces(#[trigger] actions[k], i))
                ==> end.world.slots[i] == app.world.slots[i]
        }),
    decreases actions.len(),
{
    if actions.len() > 0 {
        let earlier = actions.drop_last();
        lemma_camera_is_bound_once(app, earlier, i);
        if forall|k: int| 0 <= k < actions.len() ==> !replaces(#[trigger] actions[k], i) {
            assert forall|k: int| 0 <= k < earlier.len() implies !replaces(
                #[trigger] earlier[k],
                i,
            ) by {
                assert(earlier[k] == actions[k]);
            }
            assert(!replaces(actions[actions.len() - 1], i));
        }
    }
}

} // verus!
