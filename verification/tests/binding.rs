use pixelating::camera::{
    Camera, ImageHandle, RenderTarget, DEFAULT_CAMERA_ORDER, PIXELATED_CAMERA_ORDER,
};
use pixelating::layers::{visible, RenderLayers};
use pixelating::material::{ExtendedMaterial, Material, StandardMaterial};
use pixelating::pixelating_plugin::{
    bind_camera, configure_pixelated_camera, last_submitted, setup, FirstPassImage,
    PixelatedCamera, PixelatedPassLayer, Pipeline,
};
use pixelating::target::{AllocationError, FilterMode, TargetConfig};
use pixelating::world::{Components, Entity, Slot, World};
use pixelating::PixelatedExtension;

fn marked_camera() -> Components {
    Components {
        camera: Some(Camera::default()),
        pixelated_camera: Some(PixelatedCamera),
        depth_prepass: true,
        normal_prepass: true,
        ..Components::new()
    }
}

fn quantized(steps: u32) -> Material {
    Material::Quantized(ExtendedMaterial {
        base: StandardMaterial { base_color_texture: None, unlit: false },
        extension: PixelatedExtension::new(steps),
    })
}

fn started_world() -> (World, Pipeline) {
    let mut world = World::new();
    let pipeline = setup(&mut world, TargetConfig::new(512, 288)).unwrap();
    (world, pipeline)
}

fn tick(world: &mut World, pipeline: &Pipeline) {
    configure_pixelated_camera(world, &pipeline.image, &pipeline.layer);
}

#[test]
fn empty_record_has_no_component() {
    let components = Components::new();
    assert_eq!(components.camera, None);
    assert_eq!(components.render_layers, None);
    assert_eq!(components.pixelated_camera, None);
    assert_eq!(components.material, None);
    assert!(!components.depth_prepass);
    assert!(!components.normal_prepass);
    assert!(!components.not_shadow_caster);
    assert!(!components.not_shadow_receiver);
    assert!(!components.main_pass_display);
}

#[test]
fn default_camera_draws_to_the_screen_in_default_order() {
    let camera = Camera::default();
    assert_eq!(camera.order, 0);
    assert_eq!(camera.target, RenderTarget::Window);
    assert_eq!(DEFAULT_CAMERA_ORDER, 0);
    assert_eq!(PIXELATED_CAMERA_ORDER, -1);
    assert!(!camera.draws_into(ImageHandle { index: 0 }));
}

#[test]
fn camera_draws_into_the_image_it_names() {
    let camera = Camera { order: 3, target: RenderTarget::Image(ImageHandle { index: 2 }) };
    assert!(camera.draws_into(ImageHandle { index: 2 }));
    assert!(!camera.draws_into(ImageHandle { index: 0 }));
}

#[test]
fn world_spawns_entities_in_turn() {
    let mut world = World::new();
    assert_eq!(world.len(), 0);
    assert_eq!(world.image_count(), 0);
    let first = world.spawn(Components::new());
    let second = world.spawn(marked_camera());
    assert_eq!(first, Entity { index: 0 });
    assert_eq!(second, Entity { index: 1 });
    assert_eq!(world.len(), 2);
    assert_eq!(world.get(first), Some(Components::new()));
    assert_eq!(world.get(second), Some(marked_camera()));
    assert_eq!(world.slot(second), Some(Slot { components: marked_camera(), configured: false }));
    assert_eq!(world.get(Entity { index: 2 }), None);
    assert_eq!(world.slot(Entity { index: 2 }), None);
    assert!(world.image(ImageHandle { index: 0 }).is_none());
}

#[test]
fn insert_replaces_the_components_of_an_entity() {
    let mut world = World::new();
    let entity = world.spawn(Components::new());
    assert!(world.insert(entity, marked_camera()));
    assert_eq!(world.get(entity), Some(marked_camera()));
    assert!(!world.insert(Entity { index: 5 }, marked_camera()));
    assert_eq!(world.len(), 1);
}

#[test]
fn prepasses_are_required_together() {
    assert!(marked_camera().has_required_prepasses());
    assert!(!Components::new().has_required_prepasses());
    assert!(!Components { depth_prepass: true, ..Components::new() }.has_required_prepasses());
    assert!(!Components { normal_prepass: true, ..Components::new() }.has_required_prepasses());
}

#[test]
fn setup_creates_the_target() {
    let (world, pipeline) = started_world();
    assert_eq!(world.image_count(), 1);
    assert_eq!(pipeline.image, FirstPassImage(ImageHandle { index: 0 }));
    let target = world.image(pipeline.image.0).unwrap();
    assert_eq!(target.width(), 512);
    assert_eq!(target.height(), 288);
    assert_eq!(target.filter(), FilterMode::Nearest);
    assert_eq!(target.byte_len(), 589_824);
}

#[test]
fn setup_publishes_the_layer_of_the_pass() {
    let (_, pipeline) = started_world();
    assert_eq!(pipeline.layer, PixelatedPassLayer::new());
    assert_eq!(pipeline.layer.pixelated_layer(), RenderLayers::layer(1));
}

#[test]
fn setup_creates_the_display_quad() {
    let (world, pipeline) = started_world();
    assert_eq!(pipeline.display_quad, Entity { index: 0 });
    let quad = world.get(pipeline.display_quad).unwrap();
    assert_eq!(
        quad,
        Components {
            material: Some(Material::Standard(StandardMaterial {
                base_color_texture: Some(pipeline.image.0),
                unlit: true
            })),
            not_shadow_caster: true,
            not_shadow_receiver: true,
            main_pass_display: true,
            ..Components::new()
        }
    );
}

#[test]
fn setup_creates_the_display_camera() {
    let (world, pipeline) = started_world();
    assert_eq!(pipeline.display_camera, Entity { index: 1 });
    let camera = world.get(pipeline.display_camera).unwrap();
    assert_eq!(camera, Components { camera: Some(Camera::default()), ..Components::new() });
    assert_eq!(world.len(), 2);
}

#[test]
fn setup_keeps_what_the_world_held() {
    let mut world = World::new();
    let earlier = world.spawn(marked_camera());
    let pipeline = setup(&mut world, TargetConfig::new(64, 36)).unwrap();
    assert_eq!(world.get(earlier), Some(marked_camera()));
    assert_eq!(pipeline.display_quad, Entity { index: 1 });
    assert_eq!(pipeline.display_camera, Entity { index: 2 });
    assert_eq!(world.len(), 3);
    assert_eq!(world.image(pipeline.image.0).unwrap().width(), 64);
}

#[test]
fn setup_without_a_target_creates_nothing() {
    let mut world = World::new();
    let earlier = world.spawn(marked_camera());
    assert_eq!(setup(&mut world, TargetConfig::new(0, 288)), Err(AllocationError::ZeroExtent));
    assert_eq!(
        setup(&mut world, TargetConfig::new(u32::MAX, u32::MAX)),
        Err(AllocationError::TooLarge)
    );
    assert_eq!(world.len(), 1);
    assert_eq!(world.image_count(), 0);
    assert_eq!(world.get(earlier), Some(marked_camera()));
}

#[test]
fn a_second_setup_duplicates_the_quad() {
    let (mut world, first) = started_world();
    let second = setup(&mut world, TargetConfig::new(512, 288)).unwrap();
    assert_eq!(world.len(), 4);
    assert_eq!(world.image_count(), 2);
    assert_ne!(first.display_quad, second.display_quad);
    assert_ne!(first.image, second.image);
    assert!(world.get(second.display_quad).unwrap().main_pass_display);
}

#[test]
fn bind_camera_sets_target_order_and_layers() {
    let image = FirstPassImage(ImageHandle { index: 3 });
    let layer = PixelatedPassLayer::new();
    let bound = bind_camera(marked_camera(), &image, &layer);
    assert_eq!(
        bound,
        Components {
            camera: Some(Camera {
                order: -1,
                target: RenderTarget::Image(ImageHandle { index: 3 })
            }),
            render_layers: Some(RenderLayers::layer(1)),
            ..marked_camera()
        }
    );
}

#[test]
fn bind_camera_keeps_the_other_components() {
    let image = FirstPassImage(ImageHandle { index: 0 });
    let layer = PixelatedPassLayer::new();
    let before = Components {
        camera: Some(Camera { order: 7, target: RenderTarget::Window }),
        render_layers: Some(RenderLayers::layer(4)),
        material: Some(quantized(15)),
        not_shadow_caster: true,
        ..Components::new()
    };
    let bound = bind_camera(before, &image, &layer);
    assert_eq!(bound.material, before.material);
    assert_eq!(bound.not_shadow_caster, before.not_shadow_caster);
    assert_eq!(bound.pixelated_camera, before.pixelated_camera);
    assert_eq!(bound.depth_prepass, before.depth_prepass);
    assert_eq!(bound.render_layers, Some(RenderLayers::layer(1)));
    assert_eq!(bound.camera.unwrap().order, -1);
}

#[test]
fn cameras_marked_on_successive_ticks_are_each_bound_once() {
    let (mut world, pipeline) = started_world();
    let target = RenderTarget::Image(pipeline.image.0);

    let a = world.spawn(marked_camera());
    tick(&mut world, &pipeline);
    let a_after_first = world.get(a).unwrap();
    assert_eq!(a_after_first.camera.unwrap().target, target);
    assert_eq!(a_after_first.camera.unwrap().order, -1);

    let b = world.spawn(marked_camera());
    tick(&mut world, &pipeline);
    let b_after_second = world.get(b).unwrap();
    assert_eq!(b_after_second.camera.unwrap().target, target);
    assert_eq!(b_after_second.camera.unwrap().order, -1);
    assert_eq!(world.get(a).unwrap(), a_after_first);
}

#[test]
fn a_pending_camera_is_bound_by_one_tick() {
    let (mut world, pipeline) = started_world();
    let camera = world.spawn(marked_camera());
    assert_eq!(world.slot(camera).unwrap().configured, false);
    tick(&mut world, &pipeline);
    let slot = world.slot(camera).unwrap();
    assert!(slot.configured);
    assert_eq!(slot.components, bind_camera(marked_camera(), &pipeline.image, &pipeline.layer));
    assert_eq!(slot.components.render_layers, Some(pipeline.layer.pixelated_layer()));
    let display = world.get(pipeline.display_camera).unwrap().camera.unwrap();
    assert!(slot.components.camera.unwrap().order < display.order);
}

#[test]
fn a_bound_camera_is_never_bound_again() {
    let (mut world, pipeline) = started_world();
    let camera = world.spawn(marked_camera());
    tick(&mut world, &pipeline);
    let changed = Components {
        camera: Some(Camera { order: 5, target: RenderTarget::Window }),
        render_layers: None,
        ..marked_camera()
    };
    assert!(world.insert(camera, changed));
    for _ in 0..10 {
        tick(&mut world, &pipeline);
    }
    assert_eq!(world.get(camera), Some(changed));
    assert!(world.slot(camera).unwrap().configured);
}

#[test]
fn a_tick_without_pending_cameras_changes_nothing() {
    let (mut world, pipeline) = started_world();
    let plain = world.spawn(Components { camera: Some(Camera::default()), ..Components::new() });
    let marker_only =
        world.spawn(Components { pixelated_camera: Some(PixelatedCamera), ..Components::new() });
    let before: Vec<Option<Slot>> =
        (0..world.len()).map(|index| world.slot(Entity { index })).collect();
    tick(&mut world, &pipeline);
    let after: Vec<Option<Slot>> =
        (0..world.len()).map(|index| world.slot(Entity { index })).collect();
    assert_eq!(before, after);
    assert_eq!(world.slot(plain).unwrap().configured, false);
    assert_eq!(world.slot(marker_only).unwrap().configured, false);
    assert_eq!(world.image_count(), 1);
}

#[test]
fn a_camera_marked_later_is_bound_on_the_next_tick() {
    let (mut world, pipeline) = started_world();
    let camera = world.spawn(Components { camera: Some(Camera::default()), ..Components::new() });
    tick(&mut world, &pipeline);
    assert_eq!(world.get(camera).unwrap().camera, Some(Camera::default()));
    assert!(world.insert(camera, marked_camera()));
    tick(&mut world, &pipeline);
    assert_eq!(
        world.get(camera).unwrap().camera,
        Some(Camera { order: -1, target: RenderTarget::Image(pipeline.image.0) })
    );
}

#[test]
fn a_camera_without_prepasses_is_bound_all_the_same() {
    let (mut world, pipeline) = started_world();
    let bare = Components {
        camera: Some(Camera::default()),
        pixelated_camera: Some(PixelatedCamera),
        ..Components::new()
    };
    let camera = world.spawn(bare);
    tick(&mut world, &pipeline);
    let bound = world.get(camera).unwrap();
    assert!(!bound.has_required_prepasses());
    assert_eq!(bound.camera.unwrap().target, RenderTarget::Image(pipeline.image.0));
}

#[test]
fn a_tick_leaves_the_display_entities_alone() {
    let (mut world, pipeline) = started_world();
    let quad = world.slot(pipeline.display_quad);
    let display = world.slot(pipeline.display_camera);
    world.spawn(marked_camera());
    for _ in 0..5 {
        tick(&mut world, &pipeline);
    }
    assert_eq!(world.slot(pipeline.display_quad), quad);
    assert_eq!(world.slot(pipeline.display_camera), display);
    assert_eq!(world.len(), 3);
    assert_eq!(world.image_count(), 1);
}

#[test]
fn two_cameras_marked_together_are_both_bound_by_one_tick() {
    let (mut world, pipeline) = started_world();
    let a = world.spawn(marked_camera());
    let b = world.spawn(marked_camera());
    tick(&mut world, &pipeline);
    let expected = bind_camera(marked_camera(), &pipeline.image, &pipeline.layer);
    assert_eq!(world.slot(a), Some(Slot { components: expected, configured: true }));
    assert_eq!(world.slot(b), Some(Slot { components: expected, configured: true }));

    assert_eq!(last_submitted(&world, &pipeline.image, &vec![a, b]), Some(b));
    assert_eq!(last_submitted(&world, &pipeline.image, &vec![b, a]), Some(a));
}

#[test]
fn the_last_camera_that_draws_offscreen_wins() {
    let (mut world, pipeline) = started_world();
    let a = world.spawn(marked_camera());
    let b = world.spawn(marked_camera());
    tick(&mut world, &pipeline);
    let display = pipeline.display_camera;
    let quad = pipeline.display_quad;
    let nobody = Entity { index: 99 };
    assert_eq!(last_submitted(&world, &pipeline.image, &vec![]), None);
    assert_eq!(last_submitted(&world, &pipeline.image, &vec![display, quad, nobody]), None);
    assert_eq!(last_submitted(&world, &pipeline.image, &vec![a]), Some(a));
    assert_eq!(last_submitted(&world, &pipeline.image, &vec![a, b, display]), Some(b));
    assert_eq!(last_submitted(&world, &pipeline.image, &vec![b, nobody, a, quad]), Some(a));
    assert_eq!(last_submitted(&world, &pipeline.image, &vec![a, b, a]), Some(a));
    let elsewhere = FirstPassImage(ImageHandle { index: 7 });
    assert_eq!(last_submitted(&world, &elsewhere, &vec![a, b]), None);
}

#[test]
fn binding_does_not_depend_on_the_other_cameras() {
    let (mut alone, pipeline) = started_world();
    let a_alone = alone.spawn(marked_camera());
    tick(&mut alone, &pipeline);

    let (mut crowded, _) = started_world();
    let a_crowded = crowded.spawn(marked_camera());
    for order in 0..20 {
        crowded.spawn(Components {
            camera: Some(Camera { order, target: RenderTarget::Window }),
            pixelated_camera: if order % 2 == 0 { Some(PixelatedCamera) } else { None },
            ..Components::new()
        });
    }
    tick(&mut crowded, &pipeline);
    assert_eq!(alone.slot(a_alone), crowded.slot(a_crowded));
}

#[test]
fn the_passes_see_their_own_geometry() {
    let (mut world, pipeline) = started_world();
    let source = world.spawn(marked_camera());
    let tagged = world.spawn(Components {
        render_layers: Some(pipeline.layer.pixelated_layer()),
        material: Some(quantized(15)),
        ..Components::new()
    });
    tick(&mut world, &pipeline);
    let layers = |entity: Entity| world.get(entity).unwrap().render_layers;
    assert!(visible(layers(source), layers(tagged)));
    assert!(!visible(layers(source), layers(pipeline.display_quad)));
    assert!(visible(layers(pipeline.display_camera), layers(pipeline.display_quad)));
    assert!(!visible(layers(pipeline.display_camera), layers(tagged)));
}
