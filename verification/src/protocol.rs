//! The vocabulary shared with the native layer: what it is asked to do and
//! what it may answer.

use vstd::prelude::*;
use crate::pixel_format::PixelFormatDescriptor;

verus! {

/// A native handle or address. Zero is the null handle.
pub type Handle = usize;

/// The null handle.
pub const NULL: Handle = 0;

/// A surface configuration that the EGL-mediated platform asks for.
#[derive(Clone, Copy, Debug, PartialEq, Eq, Structural)]
pub struct SurfaceCandidate {
    /// Bit of the API profile that the configuration must be able to render.
    pub renderable: i32,
    /// Size of the depth buffer in bits.
    pub depth: i32,
    /// Number of samples per pixel; zero asks for no multisampling.
    pub samples: i32,
}

/// An API version that a rendering context is asked to implement.
#[derive(Clone, Copy, Debug, PartialEq, Eq, Structural)]
pub struct ContextVersion {
    pub major: i32,
    pub minor: i32,
}

/// One call into the native layer.
#[derive(Clone, Copy, Debug, PartialEq, Eq, Structural)]
pub enum Request {
    /// Fetch the device context of a window.
    GetDeviceContext { window: Handle },
    /// Find the pixel format of a device context that is closest to a
    /// descriptor.
    ChoosePixelFormat { device: Handle, descriptor: PixelFormatDescriptor },
    /// Apply a pixel format that was found for a descriptor to a device
    /// context.
    SetPixelFormat { device: Handle, format: i32, descriptor: PixelFormatDescriptor },
    /// Create a rendering context on a device context.
    CreateRenderContext { device: Handle },
    /// Make a rendering context current on the calling thread. With two
    /// null handles the thread is left without a current context.
    MakeRenderContextCurrent { device: Handle, render: Handle },
    /// Present the back buffer of a device context.
    SwapDeviceBuffers { device: Handle },
    /// Delete a rendering context.
    DeleteRenderContext { render: Handle },
    /// Present the back buffer of a window that owns its own surface.
    SwapWindow { window: Handle },
    /// Load the EGL binding, as [`crate::egl::Egl::new`] does. The answer is
    /// a handle that is not null if there is a binding now.
    LoadBinding,
    /// Obtain the display connection for a native display.
    GetDisplay { native_display: Handle },
    /// Initialise a display connection.
    Initialize { display: Handle },
    /// Ask for at most [`crate::egl::CONFIG_CAPACITY`] configurations that
    /// satisfy the attribute list of a surface candidate, which
    /// [`crate::egl::build_config_attributes`] builds.
    ChooseConfig { display: Handle, candidate: SurfaceCandidate },
    /// Create a window surface with the default surface attributes.
    CreateWindowSurface { display: Handle, config: Handle, window: Handle },
    /// Create a rendering context that shares with the context `share`, or
    /// with none if that is null, for the attribute list of a context
    /// version, which [`crate::egl::build_context_attributes`] builds.
    CreateContext { display: Handle, config: Handle, share: Handle, version: ContextVersion },
    /// Bind a context and its draw and read surfaces to the calling thread.
    /// With three null handles the thread is left without a current context.
    MakeCurrent { display: Handle, draw: Handle, read: Handle, context: Handle },
    /// Present the back buffer of a surface.
    SwapBuffers { display: Handle, surface: Handle },
    /// Destroy a rendering context.
    DestroyContext { display: Handle, context: Handle },
    /// Destroy a surface.
    DestroySurface { display: Handle, surface: Handle },
    /// Close a display connection.
    Terminate { display: Handle },
}

/// What the native layer answered.
#[derive(Clone, Copy, Debug, PartialEq, Eq, Structural)]
pub enum Reply {
    /// The call returns nothing.
    Done,
    /// A handle; null where the call failed.
    Handle(Handle),
    /// A Win32 integer: a `BOOL`, or the index of a pixel format.
    Integer(i32),
    /// An `EGLBoolean`.
    Status(u32),
    /// The three results of a configuration query: its status, the number of
    /// configurations that matched, and the first of them.
    Config { status: u32, count: i32, config: Handle },
}

/// The `EGLBoolean` that reports success.
pub const EGL_TRUE: u32 = 1;

/// The Win32 `BOOL` that reports failure.
pub const WIN32_FALSE: i32 = 0;

impl Reply {
    /// The handle that a reply carries, if it carries one that is not null.
    pub open spec fn handle(self) -> Option<Handle> {
        match self {
            Reply::Handle(h) => if h != NULL { Some(h) } else { None },
            _ => None,
        }
    }

    /// Whether an EGL call reported success: its status is exactly `EGL_TRUE`.
    pub open spec fn accepted(self) -> bool {
        self == Reply::Status(EGL_TRUE)
    }

    /// Whether a Win32 call reported success: its `BOOL` is not `FALSE`.
    pub open spec fn succeeded(self) -> bool {
        self matches Reply::Integer(b) && b != WIN32_FALSE
    }

    /// The pixel format that a reply names: a Win32 integer other than zero.
    pub open spec fn pixel_format(self) -> Option<i32> {
        match self {
            Reply::Integer(index) => if index != 0 { Some(index) } else { None },
            _ => None,
        }
    }

    /// The configuration that a query found: the query succeeded, counted at
    /// least one match and handed out a configuration that is not null.
    pub open spec fn configuration(self) -> Option<Handle> {
        match self {
            Reply::Config { status, count, config } => if status == EGL_TRUE && count > 0 && config
                != NULL {
                Some(config)
            } else {
                None
            },
            _ => None,
        }
    }

    /// Reads the handle of a reply.
    pub fn get_handle(&self) -> (found: Option<Handle>)
        ensures
            found == self.handle(),
    {
        match self {
            Reply::Handle(h) => if *h != NULL { Some(*h) } else { None },
            _ => None,
        }
    }

    /// Tells whether an EGL call reported success.
    pub fn is_accepted(&self) -> (yes: bool)
        ensures
            yes == self.accepted(),
    {
        match self {
            Reply::Status(status) => *status == EGL_TRUE,
            _ => false,
        }
    }

    /// Tells whether a Win32 call reported success.
    pub fn is_succeeded(&self) -> (yes: bool)
        ensures
            yes == self.succeeded(),
    {
        match self {
            Reply::Integer(b) => *b != WIN32_FALSE,
            _ => false,
        }
    }

    /// Reads the pixel format of a reply.
    pub fn get_pixel_format(&self) -> (found: Option<i32>)
        ensures
            found == self.pixel_format(),
    {
        match self {
            Reply::Integer(index) => if *index != 0 { Some(*index) } else { None },
            _ => None,
        }
    }

    /// Reads the configuration that a query found.
    pub fn get_configuration(&self) -> (found: Option<Handle>)
        ensures
            found == self.configuration(),
    {
        match self {
            Reply::Config { status, count, config } => if *status == EGL_TRUE && *count > 0
                && *config != NULL {
                Some(*config)
            } else {
                None
            },
            _ => None,
        }
    }
}

} // verus!
