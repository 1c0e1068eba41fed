//! Cameras: where each one draws to, and in what order.

use vstd::prelude::*;

verus! {

/// Draw order of a camera that feeds the offscreen target. It is below the
/// default order, so such a camera draws before the display camera.
pub const PIXELATED_CAMERA_ORDER: isize = -1;

/// Draw order of a camera that nothing has changed: the display camera's.
pub const DEFAULT_CAMERA_ORDER: isize = 0;

/// Names an image held by a [`crate::world::World`].
#[derive(Clone, Copy, Debug, PartialEq, Eq, Structural)]
pub struct ImageHandle {
    pub index: usize,
}

/// Where a camera draws to.
#[derive(Clone, Copy, Debug, PartialEq, Eq, Structural)]
pub enum RenderTarget {
    /// The screen.
    Window,
    /// An image: the camera draws offscreen.
    Image(ImageHandle),
}

/// A camera: cameras draw in ascending `order`, into `target`.
#[derive(Clone, Copy, Debug, PartialEq, Eq, Structural)]
pub struct Camera {
    pub order: isize,
    pub target: RenderTarget,
}

/// The camera that nothing has configured: it draws to the screen, in
/// default order.
pub open spec fn default_camera() -> Camera {
    Camera { order: DEFAULT_CAMERA_ORDER, target: RenderTarget::Window }
}

impl Default for Camera {
    fn default() -> (r: Camera)
        ensures
            r == default_camera(),
    {
        Camera { order: DEFAULT_CAMERA_ORDER, target: RenderTarget::Window }
    }
}

impl Camera {
    /// Whether the camera draws into the image that `image` names.
    pub open spec fn renders_to(self, image: ImageHandle) -> bool {
        self.target == RenderTarget::Image(image)
    }

    /// Whether the camera draws into the image that `image` names.
    pub fn draws_into(&self, image: ImageHandle) -> (r: bool)
        ensures
            r == self.renders_to(image),
    {
        match self.target {
            RenderTarget::Image(handle) => handle.index == image.index,
            RenderTarget::Window => false,
        }
    }
}

} // verus!
