//! The EGL side of context construction: the constants of the API, the two
//! priority lists that negotiation walks, and the attribute lists that are
//! handed to the driver for each of their entries.

use vstd::prelude::*;
use crate::library::{complete, is_complete, Library};
use crate::protocol::{ContextVersion, Handle, SurfaceCandidate, NULL};

verus! {

/// The native display that stands for the default display.
pub const DEFAULT_DISPLAY: Handle = 0;

pub const OPENGL_ES2_BIT: i32 = 4;

pub const OPENGL_ES3_BIT: i32 = 64;

pub const RENDERABLE_TYPE: i32 = 12352;

pub const SURFACE_TYPE: i32 = 12339;

pub const WINDOW_BIT: i32 = 4;

pub const RED_SIZE: i32 = 12324;

pub const GREEN_SIZE: i32 = 12323;

pub const BLUE_SIZE: i32 = 12322;

pub const ALPHA_SIZE: i32 = 12321;

pub const DEPTH_SIZE: i32 = 12325;

pub const STENCIL_SIZE: i32 = 12326;

pub const SAMPLE_BUFFERS: i32 = 12338;

pub const SAMPLES: i32 = 12337;

pub const CONTEXT_MAJOR_VERSION: i32 = 12440;

pub const CONTEXT_MINOR_VERSION: i32 = 12539;

/// Ends an attribute list.
pub const NONE: i32 = 12344;

/// Number of colour bits asked for in each of the red, green and blue channels.
pub const CHANNEL_BITS: i32 = 8;

/// How many configurations a query may hand out.
pub const CONFIG_CAPACITY: i32 = 1;

/// The surface configurations in the order in which they are tried: the
/// newer profile before the older, the deeper depth buffer before the
/// shallower, multisampling before none.
pub open spec fn surface_candidates() -> Seq<SurfaceCandidate> {
    seq![
        SurfaceCandidate { renderable: OPENGL_ES3_BIT, depth: 32, samples: 4 },
        SurfaceCandidate { renderable: OPENGL_ES3_BIT, depth: 32, samples: 0 },
        SurfaceCandidate { renderable: OPENGL_ES3_BIT, depth: 24, samples: 4 },
        SurfaceCandidate { renderable: OPENGL_ES3_BIT, depth: 24, samples: 0 },
        SurfaceCandidate { renderable: OPENGL_ES2_BIT, depth: 32, samples: 4 },
        SurfaceCandidate { renderable: OPENGL_ES2_BIT, depth: 32, samples: 0 },
        SurfaceCandidate { renderable: OPENGL_ES2_BIT, depth: 24, samples: 4 },
        SurfaceCandidate { renderable: OPENGL_ES2_BIT, depth: 24, samples: 0 },
    ]
}

/// The context versions in the order in which they are tried, newest first.
pub open spec fn context_versions() -> Seq<ContextVersion> {
    seq![
        ContextVersion { major: 3, minor: 2 },
        ContextVersion { major: 3, minor: 1 },
        ContextVersion { major: 3, minor: 0 },
        ContextVersion { major: 2, minor: 0 },
    ]
}

/// Length of [`surface_candidates`].
pub const SURFACE_CANDIDATE_COUNT: usize = 8;

/// Length of [`context_versions`].
pub const CONTEXT_VERSION_COUNT: usize = 4;

/// The attribute list of a configuration query: the profile of the
/// candidate, a window surface, eight bits for blue, green and red, the
/// candidate's depth, and its sample count with sample buffers switched on
/// exactly when that count is not zero.
pub open spec fn config_attributes(candidate: SurfaceCandidate) -> Seq<i32> {
    seq![
        RENDERABLE_TYPE,
        candidate.renderable,
        SURFACE_TYPE,
        WINDOW_BIT,
        BLUE_SIZE,
        CHANNEL_BITS,
        GREEN_SIZE,
        CHANNEL_BITS,
        RED_SIZE,
        CHANNEL_BITS,
        DEPTH_SIZE,
        candidate.depth,
        SAMPLE_BUFFERS,
        if candidate.samples == 0 { 0i32 } else { 1i32 },
        SAMPLES,
        candidate.samples,
        NONE,
    ]
}

/// The attribute list with which a context of a given version is created.
pub open spec fn context_attributes(version: ContextVersion) -> Seq<i32> {
    seq![CONTEXT_MAJOR_VERSION, version.major, CONTEXT_MINOR_VERSION, version.minor, NONE]
}

/// The surface candidate at a position of the priority list, or nothing
/// past its end.
pub fn surface_candidate(index: usize) -> (candidate: Option<SurfaceCandidate>)
    ensures
        surface_candidates().len() == SURFACE_CANDIDATE_COUNT,
        candidate == if index < SURFACE_CANDIDATE_COUNT {
            Some(surface_candidates()[index as int])
        } else {
            None
        },
{
    if index >= SURFACE_CANDIDATE_COUNT {
        return None;
    }
    let renderable: i32 = if index < 4 { OPENGL_ES3_BIT } else { OPENGL_ES2_BIT };
    let depth: i32 = if index % 4 < 2 { 32 } else { 24 };
    let samples: i32 = if index % 2 == 0 { 4 } else { 0 };
    Some(SurfaceCandidate { renderable, depth, samples })
}

/// The context version at a position of the priority list, or nothing past
/// its end.
pub fn context_version(index: usize) -> (version: Option<ContextVersion>)
    ensures
        context_versions().len() == CONTEXT_VERSION_COUNT,
        version == if index < CONTEXT_VERSION_COUNT {
            Some(context_versions()[index as int])
        } else {
            None
        },
{
    if index == 0 {
        Some(ContextVersion { major: 3, minor: 2 })
    } else if index == 1 {
        Some(ContextVersion { major: 3, minor: 1 })
    } else if index == 2 {
        Some(ContextVersion { major: 3, minor: 0 })
    } else if index == 3 {
        Some(ContextVersion { major: 2, minor: 0 })
    } else {
        None
    }
}

/// Builds the attribute list of a configuration query.
pub fn build_config_attributes(candidate: SurfaceCandidate) -> (attributes: Vec<i32>)
    ensures
        attributes@ == config_attributes(candidate),
{
    let sample_buffers: i32 = if candidate.samples == 0 { 0 } else { 1 };
    let attributes = vec![
        RENDERABLE_TYPE,
        candidate.renderable,
        SURFACE_TYPE,
        WINDOW_BIT,
        BLUE_SIZE,
        CHANNEL_BITS,
        GREEN_SIZE,
        CHANNEL_BITS,
        RED_SIZE,
        CHANNEL_BITS,
        DEPTH_SIZE,
        candidate.depth,
        SAMPLE_BUFFERS,
        sample_buffers,
        SAMPLES,
        candidate.samples,
        NONE,
    ];
    assert(attributes@ =~= config_attributes(candidate));
    attributes
}

/// Builds the attribute list with which a context is created.
pub fn build_context_attributes(version: ContextVersion) -> (attributes: Vec<i32>)
    ensures
        attributes@ == context_attributes(version),
{
    let attributes = vec![
        CONTEXT_MAJOR_VERSION,
        version.major,
        CONTEXT_MINOR_VERSION,
        version.minor,
        NONE,
    ];
    assert(attributes@ =~= context_attributes(version));
    attributes
}

/// Number of entry points in the binding.
pub const BINDING_ENTRY_COUNT: usize = 11;

/// An entry point of the binding.
#[derive(Clone, Copy, Debug, PartialEq, Eq, Structural)]
pub enum BindingEntry {
    /// `eglGetDisplay`
    GetDisplay,
    /// `eglInitialize`
    Initialize,
    /// `eglChooseConfig`
    ChooseConfig,
    /// `eglCreateWindowSurface`
    CreateWindowSurface,
    /// `eglCreateContext`
    CreateContext,
    /// `eglMakeCurrent`
    MakeCurrent,
    /// `eglDestroyContext`
    DestroyContext,
    /// `eglDestroySurface`
    DestroySurface,
    /// `eglTerminate`
    Terminate,
    /// `eglGetProcAddress`
    GetProcAddress,
    /// `eglSwapBuffers`
    SwapBuffers,
}

impl BindingEntry {
    /// The position of an entry point in the binding.
    pub open spec fn position(self) -> int {
        match self {
            BindingEntry::GetDisplay => 0,
            BindingEntry::Initialize => 1,
            BindingEntry::ChooseConfig => 2,
            BindingEntry::CreateWindowSurface => 3,
            BindingEntry::CreateContext => 4,
            BindingEntry::MakeCurrent => 5,
            BindingEntry::DestroyContext => 6,
            BindingEntry::DestroySurface => 7,
            BindingEntry::Terminate => 8,
            BindingEntry::GetProcAddress => 9,
            BindingEntry::SwapBuffers => 10,
        }
    }

    /// The position of an entry point in the binding.
    pub fn index(self) -> (index: usize)
        ensures
            index == self.position(),
            index < BINDING_ENTRY_COUNT,
    {
        match self {
            BindingEntry::GetDisplay => 0,
            BindingEntry::Initialize => 1,
            BindingEntry::ChooseConfig => 2,
            BindingEntry::CreateWindowSurface => 3,
            BindingEntry::CreateContext => 4,
            BindingEntry::MakeCurrent => 5,
            BindingEntry::DestroyContext => 6,
            BindingEntry::DestroySurface => 7,
            BindingEntry::Terminate => 8,
            BindingEntry::GetProcAddress => 9,
            BindingEntry::SwapBuffers => 10,
        }
    }

    /// The entry point at a position of the binding, or nothing past its
    /// end.
    pub fn at(index: usize) -> (entry: Option<BindingEntry>)
        ensures
            entry is Some <==> index < BINDING_ENTRY_COUNT,
            entry matches Some(e) ==> e.position() == index,
    {
        match index {
            0 => Some(BindingEntry::GetDisplay),
            1 => Some(BindingEntry::Initialize),
            2 => Some(BindingEntry::ChooseConfig),
            3 => Some(BindingEntry::CreateWindowSurface),
            4 => Some(BindingEntry::CreateContext),
            5 => Some(BindingEntry::MakeCurrent),
            6 => Some(BindingEntry::DestroyContext),
            7 => Some(BindingEntry::DestroySurface),
            8 => Some(BindingEntry::Terminate),
            9 => Some(BindingEntry::GetProcAddress),
            10 => Some(BindingEntry::SwapBuffers),
            _ => None,
        }
    }

    /// The name under which an entry point is looked up.
    pub fn name(self) -> (name: &'static str)
        ensures
            name@ == binding_entry_names()[self.position()],
    {
        match binding_entry_name(self.index()) {
            Some(name) => name,
            None => "",
        }
    }
}

/// The names of the entry points of the binding, in its order.
pub open spec fn binding_entry_names() -> Seq<Seq<char>> {
    seq![
        "eglGetDisplay"@,
        "eglInitialize"@,
        "eglChooseConfig"@,
        "eglCreateWindowSurface"@,
        "eglCreateContext"@,
        "eglMakeCurrent"@,
        "eglDestroyContext"@,
        "eglDestroySurface"@,
        "eglTerminate"@,
        "eglGetProcAddress"@,
        "eglSwapBuffers"@,
    ]
}

/// The name of the entry point at a position of the binding, or nothing
/// past its end.
pub fn binding_entry_name(index: usize) -> (name: Option<&'static str>)
    ensures
        binding_entry_names().len() == BINDING_ENTRY_COUNT,
        name is Some <==> index < BINDING_ENTRY_COUNT,
        name matches Some(n) ==> n@ == binding_entry_names()[index as int],
{
    match index {
        0 => Some("eglGetDisplay"),
        1 => Some("eglInitialize"),
        2 => Some("eglChooseConfig"),
        3 => Some("eglCreateWindowSurface"),
        4 => Some("eglCreateContext"),
        5 => Some("eglMakeCurrent"),
        6 => Some("eglDestroyContext"),
        7 => Some("eglDestroySurface"),
        8 => Some("eglTerminate"),
        9 => Some("eglGetProcAddress"),
        10 => Some("eglSwapBuffers"),
        _ => None,
    }
}

/// The EGL binding: the loaded EGL library and the address of each entry
/// point of [`binding_entry_names`], none of them null.
pub struct Egl {
    entries: Vec<Handle>,
    /// Keeps the EGL library loaded while its addresses are in use.
    library: Library,
}

impl View for Egl {
    type V = Seq<Handle>;

    closed spec fn view(&self) -> Seq<Handle> {
        self.entries@
    }
}

impl Egl {
    /// Every entry point has an address.
    #[verifier::type_invariant]
    pub closed spec fn wf(self) -> bool {
        complete(self.entries@, BINDING_ENTRY_COUNT as nat)
    }

    /// The name of the library that the binding is bound to.
    pub closed spec fn library_name(self) -> Seq<char> {
        self.library.name()
    }

    /// The name of the EGL library.
    pub open spec fn egl_library() -> Seq<char> {
        "libEGL.so"@
    }

    /// Binds a loaded library to the addresses that were found in it, one
    /// for each name of [`binding_entry_names`], null standing for "not
    /// found". There is a binding exactly when no address is missing.
    pub fn bind(library: Library, addresses: Vec<Handle>) -> (binding: Option<Egl>)
        ensures
            binding is Some <==> complete(addresses@, BINDING_ENTRY_COUNT as nat),
            binding matches Some(b) ==> b@ == addresses@ && b.library_name() == library.name(),
    {
        if is_complete(&addresses, BINDING_ENTRY_COUNT) {
            Some(Egl { entries: addresses, library })
        } else {
            None
        }
    }

    /// Loads the EGL library and resolves every entry point of the binding.
    /// Whether the library and its symbols are there is for the machine to
    /// decide; a binding that is handed out is whole and is bound to the
    /// library of the name [`Egl::egl_library`].
    pub fn new() -> (binding: Option<Egl>)
        ensures
            binding matches Some(b) ==> {
                &&& complete(b@, BINDING_ENTRY_COUNT as nat)
                &&& b.library_name() == Egl::egl_library()
            },
    {
        let library = match Library::open("libEGL.so") {
            Some(library) => library,
            None => {
                return None;
            },
        };
        let mut addresses: Vec<Handle> = Vec::new();
        let mut index: usize = 0;
        while index < BINDING_ENTRY_COUNT
            invariant
                index <= BINDING_ENTRY_COUNT,
                addresses.len() == index,
            decreases BINDING_ENTRY_COUNT - index,
        {
            let address: Handle = match binding_entry_name(index) {
                Some(name) => library.symbol(name),
                None => NULL,
            };
            if address == NULL {
                return None;
            }
            addresses.push(address);
            index += 1;
        }
        Egl::bind(library, addresses)
    }

    /// The library that the binding is bound to.
    pub fn library(&self) -> (library: &Library)
        ensures
            library.name() == self.library_name(),
    {
        &self.library
    }

    /// The address of an entry point. It is never null.
    pub fn address(&self, entry: BindingEntry) -> (address: Handle)
        ensures
            address == self@[entry.position()],
            address != NULL,
    {
        proof {
            use_type_invariant(self);
        }
        self.entries[entry.index()]
    }
}

} // verus!
