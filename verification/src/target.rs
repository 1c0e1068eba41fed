//! The offscreen target: the low-resolution colour buffer that the pixelated
//! pass draws into and the display quad samples.

use vstd::prelude::*;

verus! {

/// Width of the target when nothing else is configured.
pub const DEFAULT_TARGET_WIDTH: u32 = 512;

/// Height of the target when nothing else is configured.
pub const DEFAULT_TARGET_HEIGHT: u32 = 288;

/// Bytes that one pixel of the target takes.
pub const BYTES_PER_PIXEL: u32 = 4;

/// How the pixels of a texture are laid out.
#[derive(Clone, Copy, Debug, PartialEq, Eq, Structural)]
pub enum TextureFormat {
    /// Blue, green, red and alpha, eight bits each, sRGB encoded. A texture
    /// of this format can be drawn into, sampled and copied out.
    Bgra8UnormSrgb,
}

impl TextureFormat {
    /// Bytes that one pixel takes.
    pub open spec fn spec_pixel_size(self) -> nat {
        BYTES_PER_PIXEL as nat
    }

    /// Bytes that one pixel takes.
    pub fn pixel_size(&self) -> (r: u32)
        ensures
            r == self.spec_pixel_size(),
            r == BYTES_PER_PIXEL,
    {
        match self {
            TextureFormat::Bgra8UnormSrgb => BYTES_PER_PIXEL,
        }
    }
}

/// How a texture is sampled between pixel centres.
#[derive(Clone, Copy, Debug, PartialEq, Eq, Structural)]
pub enum FilterMode {
    /// The nearest pixel wins: upscaling keeps hard pixel edges.
    Nearest,
    /// Neighbouring pixels are blended.
    Linear,
}

/// What a texture may be used for.
#[derive(Clone, Copy, Debug, PartialEq, Eq, Structural)]
pub struct TextureUsages {
    /// A camera may draw into it.
    pub render_attachment: bool,
    /// A shader may sample it.
    pub texture_binding: bool,
    /// Its content may be copied out.
    pub copy_src: bool,
}

/// The size of the offscreen target, fixed at startup.
#[derive(Clone, Copy, Debug, PartialEq, Eq, Structural)]
pub struct TargetConfig {
    pub width: u32,
    pub height: u32,
}

/// Why no offscreen target can be made for a configuration.
#[derive(Clone, Copy, Debug, PartialEq, Eq, Structural)]
pub enum AllocationError {
    /// The width or the height is zero.
    ZeroExtent,
    /// The buffer would have more bytes than can be addressed.
    TooLarge,
}

/// What an offscreen target is: its size, format, sampling, usages and byte
/// length.
#[derive(Clone, Copy, Debug, PartialEq, Eq, Structural)]
pub struct TargetDescriptor {
    pub width: u32,
    pub height: u32,
    pub format: TextureFormat,
    pub filter: FilterMode,
    pub usage: TextureUsages,
    pub byte_len: usize,
}

/// The usages every offscreen target has: render attachment, shader input
/// and copy source.
pub open spec fn target_usages() -> TextureUsages {
    TextureUsages { render_attachment: true, texture_binding: true, copy_src: true }
}

impl TargetConfig {
    /// Bytes of a buffer of this size.
    pub open spec fn byte_len(self) -> nat {
        (self.width * self.height * BYTES_PER_PIXEL) as nat
    }

    /// Whether a target of this size can be made: it has pixels, and its
    /// buffer can be addressed.
    pub open spec fn supported(self) -> bool {
        self.width > 0 && self.height > 0 && self.byte_len() <= usize::MAX
    }

    /// The error that an unsupported size gives.
    pub open spec fn allocation_error(self) -> AllocationError {
        if self.width == 0 || self.height == 0 {
            AllocationError::ZeroExtent
        } else {
            AllocationError::TooLarge
        }
    }

    /// The descriptor of the target that this size gives.
    pub open spec fn descriptor(self) -> TargetDescriptor {
        TargetDescriptor {
            width: self.width,
            height: self.height,
            format: TextureFormat::Bgra8UnormSrgb,
            filter: FilterMode::Nearest,
            usage: target_usages(),
            byte_len: self.byte_len() as usize,
        }
    }

    /// A configuration of the given size.
    pub fn new(width: u32, height: u32) -> (r: TargetConfig)
        ensures
            r == (TargetConfig { width, height }),
    {
        TargetConfig { width, height }
    }
}

impl Default for TargetConfig {
    /// 512 by 288 pixels.
    fn default() -> (r: TargetConfig)
        ensures
            r == (TargetConfig { width: DEFAULT_TARGET_WIDTH, height: DEFAULT_TARGET_HEIGHT }),
    {
        TargetConfig { width: DEFAULT_TARGET_WIDTH, height: DEFAULT_TARGET_HEIGHT }
    }
}

/// An offscreen target. It is made once, by [`OffscreenTarget::allocate`],
/// and never changes: there is no way to resize it.
#[derive(Clone, Copy, Debug, PartialEq, Eq, Structural)]
pub struct OffscreenTarget {
    descriptor: TargetDescriptor,
}

impl View for OffscreenTarget {
    type V = TargetDescriptor;

    closed spec fn view(&self) -> TargetDescriptor {
        self.descriptor
    }
}

impl OffscreenTarget {
    /// Every target has pixels, holds as many bytes for each as its format
    /// takes, is sampled by the nearest pixel and has the three usages.
    #[verifier::type_invariant]
    spec fn well_formed(self) -> bool {
        self@.is_target()
    }

    /// Makes the target for `config`, or says why there is none.
    pub fn allocate(config: TargetConfig) -> (r: Result<OffscreenTarget, AllocationError>)
        ensures
            match r {
                Ok(target) => config.supported() && target@ == config.descriptor(),
                Err(e) => !config.supported() && e == config.allocation_error(),
            },
    {
        if config.width == 0 || config.height == 0 {
            return Err(AllocationError::ZeroExtent);
        }
        let width = config.width as u64;
        let height = config.height as u64;
        assert(width * height <= 0xffff_ffff * 0xffff_ffff) by (nonlinear_arith)
            requires
                width <= 0xffff_ffff,
                height <= 0xffff_ffff,
        ;
        let pixels: u64 = width * height;
        match pixels.checked_mul(TextureFormat::Bgra8UnormSrgb.pixel_size() as u64) {
            Some(bytes) => {
                if bytes > usize::MAX as u64 {
                    Err(AllocationError::TooLarge)
                } else {
                    Ok(
                        OffscreenTarget {
                            descriptor: TargetDescriptor {
                                width: config.width,
                                height: config.height,
                                format: TextureFormat::Bgra8UnormSrgb,
                                filter: FilterMode::Nearest,
                                usage: TextureUsages {
                                    render_attachment: true,
                                    texture_binding: true,
                                    copy_src: true,
                                },
                                byte_len: bytes as usize,
                            },
                        },
                    )
                }
            },
            None => Err(AllocationError::TooLarge),
        }
    }

    /// Width in pixels.
    pub fn width(&self) -> (r: u32)
        ensures
            r == self@.width,
            r > 0,
    {
        proof {
            use_type_invariant(self);
        }
        self.descriptor.width
    }

    /// Height in pixels.
    pub fn height(&self) -> (r: u32)
        ensures
            r == self@.height,
            r > 0,
    {
        proof {
            use_type_invariant(self);
        }
        self.descriptor.height
    }

    /// How the pixels are laid out.
    pub fn format(&self) -> (r: TextureFormat)
        ensures
            r == self@.format,
            r == TextureFormat::Bgra8UnormSrgb,
    {
        self.descriptor.format
    }

    /// How the target is sampled: always by the nearest pixel.
    pub fn filter(&self) -> (r: FilterMode)
        ensures
            r == self@.filter,
            r == FilterMode::Nearest,
    {
        proof {
            use_type_invariant(self);
        }
        self.descriptor.filter
    }

    /// What the target may be used for: always all three usages.
    pub fn usage(&self) -> (r: TextureUsages)
        ensures
            r == self@.usage,
            r == target_usages(),
    {
        proof {
            use_type_invariant(self);
        }
        self.descriptor.usage
    }

    /// Length of the target's buffer in bytes.
    pub fn byte_len(&self) -> (r: usize)
        ensures
            r == self@.byte_len,
            r == self@.width * self@.height * BYTES_PER_PIXEL,
    {
        proof {
            use_type_invariant(self);
        }
        self.descriptor.byte_len
    }

    /// The whole descriptor.
    pub fn descriptor(&self) -> (r: TargetDescriptor)
        ensures
            r == self@,
            r.is_target(),
    {
        proof {
            use_type_invariant(self);
        }
        self.descriptor
    }
}

impl TargetDescriptor {
    /// Whether this describes an offscreen target: one that
    /// [`OffscreenTarget::allocate`] gives for some supported size.
    pub open spec fn is_target(self) -> bool {
        let config = TargetConfig { width: self.width, height: self.height };
        config.supported() && self == config.descriptor()
    }
}

} // verus!
