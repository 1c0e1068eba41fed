//! The colour-quantisation material extension: one step count added to a
//! standard material, bound above the slots that the standard material
//! keeps for itself.

use vstd::prelude::*;
use crate::camera::ImageHandle;

verus! {

/// First binding slot of the extension. Slots below it belong to the
/// material that is extended.
pub const EXTENSION_BINDING_START: u32 = 100;

/// The smallest step count that the shader is ever given.
pub const MIN_QUANTIZE_STEPS: u32 = 1;

/// Whether `slot` is one that the extended material keeps for itself.
pub open spec fn is_base_slot(slot: u32) -> bool {
    slot < EXTENSION_BINDING_START
}

/// The step count that is stored for a requested one: zero becomes the
/// minimum, any other count is kept.
pub open spec fn clamp_steps(requested: u32) -> u32 {
    if requested < MIN_QUANTIZE_STEPS {
        MIN_QUANTIZE_STEPS
    } else {
        requested
    }
}

/// A uniform value together with the slot it is bound at.
#[derive(Clone, Copy, Debug, PartialEq, Eq, Structural)]
pub struct UniformBinding {
    pub slot: u32,
    pub value: u32,
}

/// The parameters of a standard material, as far as the pipeline sets them.
#[derive(Clone, Copy, Debug, PartialEq, Eq, Structural)]
pub struct StandardMaterial {
    /// The image whose colour the surface shows.
    pub base_color_texture: Option<ImageHandle>,
    /// Whether lighting is left out.
    pub unlit: bool,
}

/// The extension of a standard material that posterises its shaded colour.
///
/// `quantize_steps` is the number of bands per colour channel: more steps
/// give smoother gradients, fewer give more banding. It is never zero.
#[derive(Clone, Copy, Debug, PartialEq, Eq, Structural)]
pub struct PixelatedExtension {
    quantize_steps: u32,
}

impl View for PixelatedExtension {
    type V = u32;

    /// The step count.
    closed spec fn view(&self) -> u32 {
        self.quantize_steps
    }
}

impl PixelatedExtension {
    #[verifier::type_invariant]
    spec fn well_formed(self) -> bool {
        self.quantize_steps >= MIN_QUANTIZE_STEPS
    }

    /// The extension with the given step count; a count of zero is raised to
    /// one.
    pub fn new(quantize_steps: u32) -> (r: PixelatedExtension)
        ensures
            r@ == clamp_steps(quantize_steps),
    {
        if quantize_steps < MIN_QUANTIZE_STEPS {
            PixelatedExtension { quantize_steps: MIN_QUANTIZE_STEPS }
        } else {
            PixelatedExtension { quantize_steps }
        }
    }

    /// The step count.
    pub fn quantize_steps(&self) -> (r: u32)
        ensures
            r == self@,
            r >= MIN_QUANTIZE_STEPS,
    {
        proof {
            use_type_invariant(self);
        }
        self.quantize_steps
    }

    /// The step count as the shader receives it: the one uniform of the
    /// extension, at the first slot above those of the extended material.
    pub fn as_bind_group(&self) -> (r: UniformBinding)
        ensures
            r == (UniformBinding { slot: EXTENSION_BINDING_START, value: self@ }),
            !is_base_slot(r.slot),
            r.value >= MIN_QUANTIZE_STEPS,
    {
        proof {
            use_type_invariant(self);
        }
        UniformBinding { slot: EXTENSION_BINDING_START, value: self.quantize_steps }
    }

    /// Path of the fragment shader that quantises the colour.
    pub fn fragment_shader() -> (r: &'static str)
        ensures
            r@ == "pixelated.wgsl"@,
    {
        "pixelated.wgsl"
    }
}

/// A quantised material: the parameters of a standard material, and the
/// extension with its step count. The two are bound side by side: the
/// standard parameters below [`EXTENSION_BINDING_START`], the step count at
/// it.
#[derive(Clone, Copy, Debug, PartialEq, Eq, Structural)]
pub struct ExtendedMaterial {
    pub base: StandardMaterial,
    pub extension: PixelatedExtension,
}

/// The material of a surface.
#[derive(Clone, Copy, Debug, PartialEq, Eq, Structural)]
pub enum Material {
    /// A standard material: the display quad has one.
    Standard(StandardMaterial),
    /// A quantised material: what the pixelated pass draws has one.
    Quantized(ExtendedMaterial),
}

} // verus!
