//! The application: a world, the pipeline's registration, and the update
//! that runs startup once and the binding system every time.

use vstd::prelude::*;
use crate::pixelating_plugin::{
    bind_pending, configure_pixelated_camera, pipeline_for, setup, started, Pipeline,
};
use crate::target::{AllocationError, TargetConfig, DEFAULT_TARGET_HEIGHT, DEFAULT_TARGET_WIDTH};
use crate::world::{empty_world, Components, Entity, Slot, World, WorldView};

verus! {

/// What an application holds, as plain values.
pub struct AppView {
    /// The entities and images.
    pub world: WorldView,
    /// The size that the offscreen target is given at startup.
    pub config: TargetConfig,
    /// Whether the pipeline's systems are registered.
    pub pipeline_registered: bool,
    /// Whether materials take part in the depth and normal prepasses.
    pub prepass_enabled: bool,
    /// What startup left behind; none before startup.
    pub pipeline: Option<Pipeline>,
}

/// An application. Its first update after the pipeline is registered runs
/// startup; that update and every later one run the binding system.
pub struct App {
    world: World,
    config: TargetConfig,
    pipeline_registered: bool,
    prepass_enabled: bool,
    pipeline: Option<Pipeline>,
}

impl View for App {
    type V = AppView;

    closed spec fn view(&self) -> AppView {
        AppView {
            world: self.world@,
            config: self.config,
            pipeline_registered: self.pipeline_registered,
            prepass_enabled: self.prepass_enabled,
            pipeline: self.pipeline,
        }
    }
}

/// The application that nothing has been done to: an empty world, the
/// default target size, nothing registered, not started.
pub open spec fn new_app() -> AppView {
    AppView {
        world: empty_world(),
        config: TargetConfig { width: DEFAULT_TARGET_WIDTH, height: DEFAULT_TARGET_HEIGHT },
        pipeline_registered: false,
        prepass_enabled: false,
        pipeline: None,
    }
}

/// The application after one update.
///
/// Without the pipeline registered nothing happens. Before startup, the
/// update creates the target, the display quad and the display camera, and
/// then binds the pending cameras; if no target can be made, nothing
/// happens. After startup, the update binds the pending cameras.
pub open spec fn updated(app: AppView) -> AppView {
    if !app.pipeline_registered {
        app
    } else {
        match app.pipeline {
            Some(pipeline) => AppView {
                world: bind_pending(app.world, pipeline.image, pipeline.layer),
                ..app
            },
            None => if app.config.supported() {
                let pipeline = pipeline_for(app.world);
                AppView {
                    world: bind_pending(
                        started(app.world, app.config),
                        pipeline.image,
                        pipeline.layer,
                    ),
                    pipeline: Some(pipeline),
                    ..app
                }
            } else {
                app
            },
        }
    }
}

/// The application after an entity with `components` is added to its world.
pub open spec fn spawned(app: AppView, components: Components) -> AppView {
    AppView {
        world: WorldView {
            slots: app.world.slots.push(Slot { components, configured: false }),
            images: app.world.images,
        },
        ..app
    }
}

/// The application after the components of `entity` are replaced: nothing
/// changes where there is no such entity, and whether the entity has been
/// configured stays as it was.
pub open spec fn inserted(app: AppView, entity: Entity, components: Components) -> AppView {
    if entity.index < app.world.slots.len() {
        AppView {
            world: WorldView {
                slots: app.world.slots.update(
                    entity.index as int,
                    Slot {
                        components,
                        configured: app.world.slots[entity.index as int].configured,
                    },
                ),
                images: app.world.images,
            },
            ..app
        }
    } else {
        app
    }
}

/// Whether an update fails, and how: only startup can fail, and only where
/// no target can be made for the configured size.
pub open spec fn update_error(app: AppView) -> Option<AllocationError> {
    if app.pipeline_registered && app.pipeline is None && !app.config.supported() {
        Some(app.config.allocation_error())
    } else {
        None
    }
}

impl App {
    /// An application with an empty world, the default target size, and
    /// nothing registered.
    pub fn new() -> (r: App)
        ensures
            r@ == new_app(),
    {
        App {
            world: World::new(),
            config: TargetConfig::default(),
            pipeline_registered: false,
            prepass_enabled: false,
            pipeline: None,
        }
    }

    /// Sets the size that the offscreen target is given at startup. After
    /// startup this changes nothing that exists: the target keeps its size.
    pub fn insert_resource(&mut self, config: TargetConfig)
        ensures
            final(self)@ == (AppView { config, ..old(self)@ }),
    {
        self.config = config;
    }

    /// Registers the quantised material, and says whether such materials
    /// take part in the depth and normal prepasses.
    pub fn add_material_plugin(&mut self, prepass_enabled: bool)
        ensures
            final(self)@ == (AppView { prepass_enabled, ..old(self)@ }),
    {
        self.prepass_enabled = prepass_enabled;
    }

    /// Registers the pipeline's systems: startup, and the binding system on
    /// every update.
    pub fn register_pipeline(&mut self)
        ensures
            final(self)@ == (AppView { pipeline_registered: true, ..old(self)@ }),
    {
        self.pipeline_registered = true;
    }

    /// Runs one update: startup, if it has not run, and then the binding
    /// system. Fails only where startup cannot make the target; the
    /// application is then as it was.
    pub fn update(&mut self) -> (r: Result<(), AllocationError>)
        ensures
            final(self)@ == updated(old(self)@),
            r == match update_error(old(self)@) {
                Some(e) => Err::<(), AllocationError>(e),
                None => Ok(()),
            },
    {
        if !self.pipeline_registered {
            return Ok(());
        }
        let pipeline = match self.pipeline {
            Some(pipeline) => pipeline,
            None => {
                match setup(&mut self.world, self.config) {
                    Ok(pipeline) => {
                        self.pipeline = Some(pipeline);
                        pipeline
                    },
                    Err(e) => {
                        return Err(e);
                    },
                }
            },
        };
        configure_pixelated_camera(&mut self.world, &pipeline.image, &pipeline.layer);
        Ok(())
    }

    /// The world.
    pub fn world(&self) -> (r: &World)
        ensures
            r@ == self@.world,
    {
        &self.world
    }

    /// Adds an entity to the world.
    pub fn spawn(&mut self, components: Components) -> (r: Entity)
        ensures
            final(self)@ == spawned(old(self)@, components),
            r.index == old(self)@.world.slots.len(),
    {
        self.world.spawn(components)
    }

    /// Replaces the components of an entity of the world, and says whether
    /// there is such an entity.
    pub fn insert(&mut self, entity: Entity, components: Components) -> (r: bool)
        ensures
            r == (entity.index < old(self)@.world.slots.len()),
            final(self)@ == inserted(old(self)@, entity, components),
    {
        self.world.insert(entity, components)
    }

    /// The size that the offscreen target is given at startup.
    pub fn target_config(&self) -> (r: TargetConfig)
        ensures
            r == self@.config,
    {
        self.config
    }

    /// Whether the pipeline's systems are registered.
    pub fn is_pipeline_registered(&self) -> (r: bool)
        ensures
            r == self@.pipeline_registered,
    {
        self.pipeline_registered
    }

    /// Whether materials take part in the depth and normal prepasses.
    pub fn is_prepass_enabled(&self) -> (r: bool)
        ensures
            r == self@.prepass_enabled,
    {
        self.prepass_enabled
    }

    /// What startup left behind; none before startup.
    pub fn pipeline(&self) -> (r: Option<Pipeline>)
        ensures
            r == self@.pipeline,
    {
        self.pipeline
    }
}

} // verus!
