//! The table of graphics entry points.
//!
//! Every entry point is looked up in two places: first with the resolver of
//! the context, which knows the entry points that only exist for that
//! context, and, where that yields nothing, in the system's graphics library.
//! A table exists only if every entry point was found in one of the two.
//!
//! [`Resolution`] fixes the order of the lookups. The graphics library is
//! loaded before anything is looked up, and without it no name is asked
//! for. The names are then taken in the order of the table, the library is
//! asked only for a name that the context does not know, and the first name
//! that neither knows ends the resolution. [`Loader::new`] makes the table
//! of a resolution that has found every name.

use vstd::prelude::*;
use crate::context::Context;
use crate::library::{complete, Library};
use crate::protocol::{Handle, NULL};

verus! {

/// Number of entry points in the table.
pub const ENTRY_POINT_COUNT: usize = 69;

/// An entry point of the table.
#[derive(Clone, Copy, Debug, PartialEq, Eq, Structural)]
pub enum EntryPoint {
    /// `glActiveTexture`
    ActiveTexture,
    /// `glAttachShader`
    AttachShader,
    /// `glBindAttribLocation`
    BindAttribLocation,
    /// `glBindBuffer`
    BindBuffer,
    /// `glBindFramebuffer`
    BindFramebuffer,
    /// `glBindRenderbuffer`
    BindRenderbuffer,
    /// `glBindTexture`
    BindTexture,
    /// `glBindVertexArray`
    BindVertexArray,
    /// `glBlendFunc`
    BlendFunc,
    /// `glBufferData`
    BufferData,
    /// `glCheckFramebufferStatus`
    CheckFramebufferStatus,
    /// `glClearColor`
    ClearColor,
    /// `glClear`
    Clear,
    /// `glCompileShader`
    CompileShader,
    /// `glCreateProgram`
    CreateProgram,
    /// `glCreateShader`
    CreateShader,
    /// `glCullFace`
    CullFace,
    /// `glDeleteBuffers`
    DeleteBuffers,
    /// `glDeleteFramebuffers`
    DeleteFramebuffers,
    /// `glDeleteProgram`
    DeleteProgram,
    /// `glDeleteRenderbuffers`
    DeleteRenderbuffers,
    /// `glDeleteShader`
    DeleteShader,
    /// `glDeleteTextures`
    DeleteTextures,
    /// `glDeleteVertexArrays`
    DeleteVertexArrays,
    /// `glDepthMask`
    DepthMask,
    /// `glDisable`
    Disable,
    /// `glDrawElements`
    DrawElements,
    /// `glEnable`
    Enable,
    /// `glEnableVertexAttribArray`
    EnableVertexAttribArray,
    /// `glFramebufferRenderbuffer`
    FramebufferRenderbuffer,
    /// `glFramebufferTexture2D`
    FramebufferTexture2d,
    /// `glGenBuffers`
    GenBuffers,
    /// `glGenFramebuffers`
    GenFramebuffers,
    /// `glGenRenderbuffers`
    GenRenderbuffers,
    /// `glGenTextures`
    GenTextures,
    /// `glGenerateMipmap`
    GenerateMipmap,
    /// `glGetAttribLocation`
    GetAttribLocation,
    /// `glGetError`
    GetError,
    /// `glGetIntegerv`
    GetIntegerV,
    /// `glGenVertexArrays`
    GenVertexArrays,
    /// `glGetProgramiv`
    GetProgramIv,
    /// `glGetProgramInfoLog`
    GetProgramInfoLog,
    /// `glGetShaderiv`
    GetShaderIv,
    /// `glGetShaderInfoLog`
    GetShaderInfoLog,
    /// `glGetUniformLocation`
    GetUniformLocation,
    /// `glLinkProgram`
    LinkProgram,
    /// `glReadBuffer`
    ReadBuffer,
    /// `glRenderbufferStorage`
    RenderbufferStorage,
    /// `glTexImage2D`
    TexImage2d,
    /// `glTexParameterf`
    TexParameterF,
    /// `glTexParameterfv`
    TexParameterFv,
    /// `glTexParameteri`
    TexParameterI,
    /// `glTexParameteriv`
    TexParameterIv,
    /// `glScissor`
    Scissor,
    /// `glShaderSource`
    ShaderSource,
    /// `glUniform1f`
    Uniform1f,
    /// `glUniform1fv`
    Uniform1fv,
    /// `glUniform1i`
    Uniform1i,
    /// `glUniform1iv`
    Uniform1iv,
    /// `glUniform2fv`
    Uniform2fv,
    /// `glUniform3fv`
    Uniform3fv,
    /// `glUniform4fv`
    Uniform4fv,
    /// `glUniformMatrix2fv`
    UniformMatrix2fv,
    /// `glUniformMatrix3fv`
    UniformMatrix3fv,
    /// `glUniformMatrix4fv`
    UniformMatrix4fv,
    /// `glUseProgram`
    UseProgram,
    /// `glValidateProgram`
    ValidateProgram,
    /// `glVertexAttribPointer`
    VertexAttribPointer,
    /// `glViewport`
    Viewport,
}

impl EntryPoint {
    /// The position of an entry point in the table.
    pub open spec fn position(self) -> int {
        match self {
            EntryPoint::ActiveTexture => 0,
            EntryPoint::AttachShader => 1,
            EntryPoint::BindAttribLocation => 2,
            EntryPoint::BindBuffer => 3,
            EntryPoint::BindFramebuffer => 4,
            EntryPoint::BindRenderbuffer => 5,
            EntryPoint::BindTexture => 6,
            EntryPoint::BindVertexArray => 7,
            EntryPoint::BlendFunc => 8,
            EntryPoint::BufferData => 9,
            EntryPoint::CheckFramebufferStatus => 10,
            EntryPoint::ClearColor => 11,
            EntryPoint::Clear => 12,
            EntryPoint::CompileShader => 13,
            EntryPoint::CreateProgram => 14,
            EntryPoint::CreateShader => 15,
            EntryPoint::CullFace => 16,
            EntryPoint::DeleteBuffers => 17,
            EntryPoint::DeleteFramebuffers => 18,
            EntryPoint::DeleteProgram => 19,
            EntryPoint::DeleteRenderbuffers => 20,
            EntryPoint::DeleteShader => 21,
            EntryPoint::DeleteTextures => 22,
            EntryPoint::DeleteVertexArrays => 23,
            EntryPoint::DepthMask => 24,
            EntryPoint::Disable => 25,
            EntryPoint::DrawElements => 26,
            EntryPoint::Enable => 27,
            EntryPoint::EnableVertexAttribArray => 28,
            EntryPoint::FramebufferRenderbuffer => 29,
            EntryPoint::FramebufferTexture2d => 30,
            EntryPoint::GenBuffers => 31,
            EntryPoint::GenFramebuffers => 32,
            EntryPoint::GenRenderbuffers => 33,
            EntryPoint::GenTextures => 34,
            EntryPoint::GenerateMipmap => 35,
            EntryPoint::GetAttribLocation => 36,
            EntryPoint::GetError => 37,
            EntryPoint::GetIntegerV => 38,
            EntryPoint::GenVertexArrays => 39,
            EntryPoint::GetProgramIv => 40,
            EntryPoint::GetProgramInfoLog => 41,
            EntryPoint::GetShaderIv => 42,
            EntryPoint::GetShaderInfoLog => 43,
            EntryPoint::GetUniformLocation => 44,
            EntryPoint::LinkProgram => 45,
            EntryPoint::ReadBuffer => 46,
            EntryPoint::RenderbufferStorage => 47,
            EntryPoint::TexImage2d => 48,
            EntryPoint::TexParameterF => 49,
            EntryPoint::TexParameterFv => 50,
            EntryPoint::TexParameterI => 51,
            EntryPoint::TexParameterIv => 52,
            EntryPoint::Scissor => 53,
            EntryPoint::ShaderSource => 54,
            EntryPoint::Uniform1f => 55,
            EntryPoint::Uniform1fv => 56,
            EntryPoint::Uniform1i => 57,
            EntryPoint::Uniform1iv => 58,
            EntryPoint::Uniform2fv => 59,
            EntryPoint::Uniform3fv => 60,
            EntryPoint::Uniform4fv => 61,
            EntryPoint::UniformMatrix2fv => 62,
            EntryPoint::UniformMatrix3fv => 63,
            EntryPoint::UniformMatrix4fv => 64,
            EntryPoint::UseProgram => 65,
            EntryPoint::ValidateProgram => 66,
            EntryPoint::VertexAttribPointer => 67,
            EntryPoint::Viewport => 68,
        }
    }

    /// The position of an entry point in the table.
    pub fn index(self) -> (index: usize)
        ensures
            index == self.position(),
            index < ENTRY_POINT_COUNT,
    {
        match self {
            EntryPoint::ActiveTexture => 0,
            EntryPoint::AttachShader => 1,
            EntryPoint::BindAttribLocation => 2,
            EntryPoint::BindBuffer => 3,
            EntryPoint::BindFramebuffer => 4,
            EntryPoint::BindRenderbuffer => 5,
            EntryPoint::BindTexture => 6,
            EntryPoint::BindVertexArray => 7,
            EntryPoint::BlendFunc => 8,
            EntryPoint::BufferData => 9,
            EntryPoint::CheckFramebufferStatus => 10,
            EntryPoint::ClearColor => 11,
            EntryPoint::Clear => 12,
            EntryPoint::CompileShader => 13,
            EntryPoint::CreateProgram => 14,
            EntryPoint::CreateShader => 15,
            EntryPoint::CullFace => 16,
            EntryPoint::DeleteBuffers => 17,
            EntryPoint::DeleteFramebuffers => 18,
            EntryPoint::DeleteProgram => 19,
            EntryPoint::DeleteRenderbuffers => 20,
            EntryPoint::DeleteShader => 21,
            EntryPoint::DeleteTextures => 22,
            EntryPoint::DeleteVertexArrays => 23,
            EntryPoint::DepthMask => 24,
            EntryPoint::Disable => 25,
            EntryPoint::DrawElements => 26,
            EntryPoint::Enable => 27,
            EntryPoint::EnableVertexAttribArray => 28,
            EntryPoint::FramebufferRenderbuffer => 29,
            EntryPoint::FramebufferTexture2d => 30,
            EntryPoint::GenBuffers => 31,
            EntryPoint::GenFramebuffers => 32,
            EntryPoint::GenRenderbuffers => 33,
            EntryPoint::GenTextures => 34,
            EntryPoint::GenerateMipmap => 35,
            EntryPoint::GetAttribLocation => 36,
            EntryPoint::GetError => 37,
            EntryPoint::GetIntegerV => 38,
            EntryPoint::GenVertexArrays => 39,
            EntryPoint::GetProgramIv => 40,
            EntryPoint::GetProgramInfoLog => 41,
            EntryPoint::GetShaderIv => 42,
            EntryPoint::GetShaderInfoLog => 43,
            EntryPoint::GetUniformLocation => 44,
            EntryPoint::LinkProgram => 45,
            EntryPoint::ReadBuffer => 46,
            EntryPoint::RenderbufferStorage => 47,
            EntryPoint::TexImage2d => 48,
            EntryPoint::TexParameterF => 49,
            EntryPoint::TexParameterFv => 50,
            EntryPoint::TexParameterI => 51,
            EntryPoint::TexParameterIv => 52,
            EntryPoint::Scissor => 53,
            EntryPoint::ShaderSource => 54,
            EntryPoint::Uniform1f => 55,
            EntryPoint::Uniform1fv => 56,
            EntryPoint::Uniform1i => 57,
            EntryPoint::Uniform1iv => 58,
            EntryPoint::Uniform2fv => 59,
            EntryPoint::Uniform3fv => 60,
            EntryPoint::Uniform4fv => 61,
            EntryPoint::UniformMatrix2fv => 62,
            EntryPoint::UniformMatrix3fv => 63,
            EntryPoint::UniformMatrix4fv => 64,
            EntryPoint::UseProgram => 65,
            EntryPoint::ValidateProgram => 66,
            EntryPoint::VertexAttribPointer => 67,
            EntryPoint::Viewport => 68,
        }
    }

    /// The entry point at a position of the table, or nothing past its end.
    pub fn at(index: usize) -> (entry: Option<EntryPoint>)
        ensures
            entry is Some <==> index < ENTRY_POINT_COUNT,
            entry matches Some(e) ==> e.position() == index,
    {
        match index {
            0 => Some(EntryPoint::ActiveTexture),
            1 => Some(EntryPoint::AttachShader),
            2 => Some(EntryPoint::BindAttribLocation),
            3 => Some(EntryPoint::BindBuffer),
            4 => Some(EntryPoint::BindFramebuffer),
            5 => Some(EntryPoint::BindRenderbuffer),
            6 => Some(EntryPoint::BindTexture),
            7 => Some(EntryPoint::BindVertexArray),
            8 => Some(EntryPoint::BlendFunc),
            9 => Some(EntryPoint::BufferData),
            10 => Some(EntryPoint::CheckFramebufferStatus),
            11 => Some(EntryPoint::ClearColor),
            12 => Some(EntryPoint::Clear),
            13 => Some(EntryPoint::CompileShader),
            14 => Some(EntryPoint::CreateProgram),
            15 => Some(EntryPoint::CreateShader),
            16 => Some(EntryPoint::CullFace),
            17 => Some(EntryPoint::DeleteBuffers),
            18 => Some(EntryPoint::DeleteFramebuffers),
            19 => Some(EntryPoint::DeleteProgram),
            20 => Some(EntryPoint::DeleteRenderbuffers),
            21 => Some(EntryPoint::DeleteShader),
            22 => Some(EntryPoint::DeleteTextures),
            23 => Some(EntryPoint::DeleteVertexArrays),
            24 => Some(EntryPoint::DepthMask),
            25 => Some(EntryPoint::Disable),
            26 => Some(EntryPoint::DrawElements),
            27 => Some(EntryPoint::Enable),
            28 => Some(EntryPoint::EnableVertexAttribArray),
            29 => Some(EntryPoint::FramebufferRenderbuffer),
            30 => Some(EntryPoint::FramebufferTexture2d),
            31 => Some(EntryPoint::GenBuffers),
            32 => Some(EntryPoint::GenFramebuffers),
            33 => Some(EntryPoint::GenRenderbuffers),
            34 => Some(EntryPoint::GenTextures),
            35 => Some(EntryPoint::GenerateMipmap),
            36 => Some(EntryPoint::GetAttribLocation),
            37 => Some(EntryPoint::GetError),
            38 => Some(EntryPoint::GetIntegerV),
            39 => Some(EntryPoint::GenVertexArrays),
            40 => Some(EntryPoint::GetProgramIv),
            41 => Some(EntryPoint::GetProgramInfoLog),
            42 => Some(EntryPoint::GetShaderIv),
            43 => Some(EntryPoint::GetShaderInfoLog),
            44 => Some(EntryPoint::GetUniformLocation),
            45 => Some(EntryPoint::LinkProgram),
            46 => Some(EntryPoint::ReadBuffer),
            47 => Some(EntryPoint::RenderbufferStorage),
            48 => Some(EntryPoint::TexImage2d),
            49 => Some(EntryPoint::TexParameterF),
            50 => Some(EntryPoint::TexParameterFv),
            51 => Some(EntryPoint::TexParameterI),
            52 => Some(EntryPoint::TexParameterIv),
            53 => Some(EntryPoint::Scissor),
            54 => Some(EntryPoint::ShaderSource),
            55 => Some(EntryPoint::Uniform1f),
            56 => Some(EntryPoint::Uniform1fv),
            57 => Some(EntryPoint::Uniform1i),
            58 => Some(EntryPoint::Uniform1iv),
            59 => Some(EntryPoint::Uniform2fv),
            60 => Some(EntryPoint::Uniform3fv),
            61 => Some(EntryPoint::Uniform4fv),
            62 => Some(EntryPoint::UniformMatrix2fv),
            63 => Some(EntryPoint::UniformMatrix3fv),
            64 => Some(EntryPoint::UniformMatrix4fv),
            65 => Some(EntryPoint::UseProgram),
            66 => Some(EntryPoint::ValidateProgram),
            67 => Some(EntryPoint::VertexAttribPointer),
            68 => Some(EntryPoint::Viewport),
            _ => None,
        }
    }

    /// The name under which an entry point is looked up.
    pub fn name(self) -> (name: &'static str)
        ensures
            name@ == entry_point_names()[self.position()],
    {
        match entry_point_name(self.index()) {
            Some(name) => name,
            None => "",
        }
    }
}

/// The names of the entry points, in the order of the table.
pub open spec fn entry_point_names() -> Seq<Seq<char>> {
    seq![
        "glActiveTexture"@,
        "glAttachShader"@,
        "glBindAttribLocation"@,
        "glBindBuffer"@,
        "glBindFramebuffer"@,
        "glBindRenderbuffer"@,
        "glBindTexture"@,
        "glBindVertexArray"@,
        "glBlendFunc"@,
        "glBufferData"@,
        "glCheckFramebufferStatus"@,
        "glClearColor"@,
        "glClear"@,
        "glCompileShader"@,
        "glCreateProgram"@,
        "glCreateShader"@,
        "glCullFace"@,
        "glDeleteBuffers"@,
        "glDeleteFramebuffers"@,
        "glDeleteProgram"@,
        "glDeleteRenderbuffers"@,
        "glDeleteShader"@,
        "glDeleteTextures"@,
        "glDeleteVertexArrays"@,
        "glDepthMask"@,
        "glDisable"@,
        "glDrawElements"@,
        "glEnable"@,
        "glEnableVertexAttribArray"@,
        "glFramebufferRenderbuffer"@,
        "glFramebufferTexture2D"@,
        "glGenBuffers"@,
        "glGenFramebuffers"@,
        "glGenRenderbuffers"@,
        "glGenTextures"@,
        "glGenerateMipmap"@,
        "glGetAttribLocation"@,
        "glGetError"@,
        "glGetIntegerv"@,
        "glGenVertexArrays"@,
        "glGetProgramiv"@,
        "glGetProgramInfoLog"@,
        "glGetShaderiv"@,
        "glGetShaderInfoLog"@,
        "glGetUniformLocation"@,
        "glLinkProgram"@,
        "glReadBuffer"@,
        "glRenderbufferStorage"@,
        "glTexImage2D"@,
        "glTexParameterf"@,
        "glTexParameterfv"@,
        "glTexParameteri"@,
        "glTexParameteriv"@,
        "glScissor"@,
        "glShaderSource"@,
        "glUniform1f"@,
        "glUniform1fv"@,
        "glUniform1i"@,
        "glUniform1iv"@,
        "glUniform2fv"@,
        "glUniform3fv"@,
        "glUniform4fv"@,
        "glUniformMatrix2fv"@,
        "glUniformMatrix3fv"@,
        "glUniformMatrix4fv"@,
        "glUseProgram"@,
        "glValidateProgram"@,
        "glVertexAttribPointer"@,
        "glViewport"@,
    ]
}

/// The name of the entry point at a position of the table, or nothing past
/// its end.
pub fn entry_point_name(index: usize) -> (name: Option<&'static str>)
    ensures
        entry_point_names().len() == ENTRY_POINT_COUNT,
        name is Some <==> index < ENTRY_POINT_COUNT,
        name matches Some(n) ==> n@ == entry_point_names()[index as int],
{
    match index {
        0 => Some("glActiveTexture"),
        1 => Some("glAttachShader"),
        2 => Some("glBindAttribLocation"),
        3 => Some("glBindBuffer"),
        4 => Some("glBindFramebuffer"),
        5 => Some("glBindRenderbuffer"),
        6 => Some("glBindTexture"),
        7 => Some("glBindVertexArray"),
        8 => Some("glBlendFunc"),
        9 => Some("glBufferData"),
        10 => Some("glCheckFramebufferStatus"),
        11 => Some("glClearColor"),
        12 => Some("glClear"),
        13 => Some("glCompileShader"),
        14 => Some("glCreateProgram"),
        15 => Some("glCreateShader"),
        16 => Some("glCullFace"),
        17 => Some("glDeleteBuffers"),
        18 => Some("glDeleteFramebuffers"),
        19 => Some("glDeleteProgram"),
        20 => Some("glDeleteRenderbuffers"),
        21 => Some("glDeleteShader"),
        22 => Some("glDeleteTextures"),
        23 => Some("glDeleteVertexArrays"),
        24 => Some("glDepthMask"),
        25 => Some("glDisable"),
        26 => Some("glDrawElements"),
        27 => Some("glEnable"),
        28 => Some("glEnableVertexAttribArray"),
        29 => Some("glFramebufferRenderbuffer"),
        30 => Some("glFramebufferTexture2D"),
        31 => Some("glGenBuffers"),
        32 => Some("glGenFramebuffers"),
        33 => Some("glGenRenderbuffers"),
        34 => Some("glGenTextures"),
        35 => Some("glGenerateMipmap"),
        36 => Some("glGetAttribLocation"),
        37 => Some("glGetError"),
        38 => Some("glGetIntegerv"),
        39 => Some("glGenVertexArrays"),
        40 => Some("glGetProgramiv"),
        41 => Some("glGetProgramInfoLog"),
        42 => Some("glGetShaderiv"),
        43 => Some("glGetShaderInfoLog"),
        44 => Some("glGetUniformLocation"),
        45 => Some("glLinkProgram"),
        46 => Some("glReadBuffer"),
        47 => Some("glRenderbufferStorage"),
        48 => Some("glTexImage2D"),
        49 => Some("glTexParameterf"),
        50 => Some("glTexParameterfv"),
        51 => Some("glTexParameteri"),
        52 => Some("glTexParameteriv"),
        53 => Some("glScissor"),
        54 => Some("glShaderSource"),
        55 => Some("glUniform1f"),
        56 => Some("glUniform1fv"),
        57 => Some("glUniform1i"),
        58 => Some("glUniform1iv"),
        59 => Some("glUniform2fv"),
        60 => Some("glUniform3fv"),
        61 => Some("glUniform4fv"),
        62 => Some("glUniformMatrix2fv"),
        63 => Some("glUniformMatrix3fv"),
        64 => Some("glUniformMatrix4fv"),
        65 => Some("glUseProgram"),
        66 => Some("glValidateProgram"),
        67 => Some("glVertexAttribPointer"),
        68 => Some("glViewport"),
        _ => None,
    }
}

/// The address that the two sources yield together for one entry point: what
/// the context's resolver found, and only if that is null what the library
/// holds.
pub open spec fn preferred(from_context: Handle, from_library: Handle) -> Handle {
    if from_context != NULL {
        from_context
    } else {
        from_library
    }
}

/// The table that the answers of the two sources yield, entry by entry.
pub open spec fn merged(from_context: Seq<Handle>, from_library: Seq<Handle>) -> Seq<Handle>
    recommends
        from_context.len() == from_library.len(),
{
    Seq::new(from_context.len(), |i: int| preferred(from_context[i], from_library[i]))
}

/// Whether every entry point was found in at least one of the two sources.
pub open spec fn resolvable(from_context: Seq<Handle>, from_library: Seq<Handle>) -> bool {
    &&& from_context.len() == ENTRY_POINT_COUNT
    &&& from_library.len() == ENTRY_POINT_COUNT
    &&& forall|i: int|
        0 <= i < ENTRY_POINT_COUNT ==> from_context[i] != NULL || from_library[i] != NULL
}

/// The graphics library that a context's platform resolves entry points
/// from, besides the context itself. The EGL-mediated platform has none.
pub open spec fn system_library(context: Context) -> Option<Seq<char>> {
    match context {
        Context::DeviceContext { .. } => Some("opengl32.dll"@),
        Context::WindowDelegated { .. } => Some("libGL.so"@),
        Context::Egl { .. } => None,
    }
}

/// The name of the graphics library of a context's platform.
pub fn system_library_name(context: &Context) -> (name: Option<&'static str>)
    ensures
        name is Some <==> system_library(*context) is Some,
        name matches Some(n) ==> n@ == system_library(*context)->0,
{
    match context {
        Context::DeviceContext { .. } => Some("opengl32.dll"),
        Context::WindowDelegated { .. } => Some("libGL.so"),
        Context::Egl { .. } => None,
    }
}

/// The name of a library, if there is one.
pub open spec fn name_of(library: Option<Library>) -> Option<Seq<char>> {
    match library {
        Some(library) => Some(library.name()),
        None => None,
    }
}

/// How far the resolution of the table has come, as plain values.
pub struct ResolutionView {
    /// The context whose resolver is asked.
    pub context: Context,
    /// The name of the graphics library that is loaded, if one is.
    pub library: Option<Seq<char>>,
    /// The addresses that have been found, in the order of the table.
    pub entries: Seq<Handle>,
    /// Resolution has been given up.
    pub failed: bool,
}

impl ResolutionView {
    /// The state in which resolution starts, given the library that was
    /// loaded for it. On a platform that has a graphics library, resolution
    /// fails at once without it.
    pub open spec fn initial(context: Context, library: Option<Seq<char>>) -> ResolutionView {
        ResolutionView {
            context,
            library,
            entries: Seq::empty(),
            failed: system_library(context) is Some && library is None,
        }
    }

    /// No more addresses are held than there are entry points, and none of
    /// them is null.
    pub open spec fn wf(self) -> bool {
        &&& self.entries.len() <= ENTRY_POINT_COUNT
        &&& forall|i: int| 0 <= i < self.entries.len() ==> self.entries[i] != NULL
    }

    /// Every entry point has been found.
    pub open spec fn complete(self) -> bool {
        !self.failed && self.entries.len() == ENTRY_POINT_COUNT
    }

    /// Resolution has ended, one way or the other.
    pub open spec fn finished(self) -> bool {
        self.failed || self.entries.len() >= ENTRY_POINT_COUNT
    }

    /// The state that follows when the two sources have answered for the
    /// pending entry point, null standing for "not found": the context's
    /// answer is taken if there is one, else the library's, and if there is
    /// neither, resolution fails there and then. Once resolution has ended,
    /// answers change nothing.
    pub open spec fn step(self, from_context: Handle, from_library: Handle) -> ResolutionView {
        if self.finished() {
            self
        } else if preferred(from_context, from_library) != NULL {
            ResolutionView {
                entries: self.entries.push(preferred(from_context, from_library)),
                ..self
            }
        } else {
            ResolutionView { failed: true, ..self }
        }
    }

    /// The state after the two sources have answered for a run of entry
    /// points, one pair of answers for each.
    pub open spec fn run(self, from_context: Seq<Handle>, from_library: Seq<Handle>) -> ResolutionView
        decreases from_context.len(),
    {
        if from_context.len() == 0 || from_library.len() == 0 {
            self
        } else {
            self.step(from_context[0], from_library[0]).run(
                from_context.skip(1),
                from_library.skip(1),
            )
        }
    }
}

/// The resolution of the table of entry points, one name at a time.
///
/// The graphics library is loaded before any name is asked for. The caller
/// then asks the resolver of the context for the entry point that is
/// [`Resolution::pending`] and hands its answer to [`Resolution::supply`],
/// which turns to the library only if the context has no answer, and gives
/// up at the first name that neither of them knows.
pub struct Resolution {
    context: Context,
    library: Option<Library>,
    entries: Vec<Handle>,
    failed: bool,
}

impl View for Resolution {
    type V = ResolutionView;

    closed spec fn view(&self) -> ResolutionView {
        ResolutionView {
            context: self.context,
            library: name_of(self.library),
            entries: self.entries@,
            failed: self.failed,
        }
    }
}

impl Resolution {
    /// What has been found so far is well-formed.
    #[verifier::type_invariant]
    pub closed spec fn wf(self) -> bool {
        self@.wf()
    }

    /// Starts resolution for a context with the graphics library that was
    /// loaded for it, or with none.
    pub fn start(context: Context, library: Option<Library>) -> (start: Resolution)
        ensures
            start@ == ResolutionView::initial(context, name_of(library)),
            start@.wf(),
    {
        let failed = match (system_library_name(&context), &library) {
            (Some(_), None) => true,
            _ => false,
        };
        Resolution { context, library, entries: Vec::new(), failed }
    }

    /// Starts resolution for a context. Where the platform of the context
    /// has a graphics library, that library is loaded first, and if it
    /// cannot be loaded resolution has failed before any name is asked for.
    /// Whether it can be loaded is for the machine to decide.
    pub fn begin(context: &Context) -> (start: Resolution)
        ensures
            start@.wf(),
            start@.context == *context,
            start@.entries.len() == 0,
            system_library(*context) is None ==> start@ == ResolutionView::initial(
                *context,
                None,
            ),
            start@ == ResolutionView::initial(*context, system_library(*context))
                || start@ == ResolutionView::initial(*context, None),
    {
        let library = match system_library_name(context) {
            Some(name) => Library::open(name),
            None => None,
        };
        Resolution::start(*context, library)
    }

    /// The entry point that the resolver of the context has to be asked for
    /// next, or nothing once resolution has ended.
    pub fn pending(&self) -> (entry: Option<EntryPoint>)
        ensures
            entry is Some <==> !self@.finished(),
            entry matches Some(e) ==> e.position() == self@.entries.len(),
    {
        if self.failed {
            None
        } else {
            EntryPoint::at(self.entries.len())
        }
    }

    /// Takes the answers of both sources for the pending entry point, null
    /// standing for "not found", and moves on.
    pub fn settle(self, from_context: Handle, from_library: Handle) -> (next: Resolution)
        ensures
            next@ == self@.step(from_context, from_library),
            next@.wf(),
    {
        proof {
            use_type_invariant(&self);
        }
        if self.failed || self.entries.len() >= ENTRY_POINT_COUNT {
            return self;
        }
        let address: Handle = if from_context != NULL {
            from_context
        } else {
            from_library
        };
        let Resolution { context, library, entries, failed } = self;
        if address == NULL {
            Resolution { context, library, entries, failed: true }
        } else {
            let mut entries = entries;
            entries.push(address);
            Resolution { context, library, entries, failed }
        }
    }

    /// Takes the answer of the context's resolver for the pending entry
    /// point, null standing for "not found", and moves on. If the context
    /// has an answer the library is not asked. If it has none, the library
    /// is asked for that name, and what follows is what
    /// [`Resolution::settle`] makes of the two answers; without a library
    /// there is no second answer.
    pub fn supply(self, from_context: Handle) -> (next: Resolution)
        ensures
            next@.wf(),
            from_context != NULL || self@.library is None ==> next@ == self@.step(
                from_context,
                NULL,
            ),
            exists|from_library: Handle| next@ == self@.step(from_context, from_library),
    {
        let name = match self.pending() {
            Some(entry) => entry.name(),
            None => {
                assert(self@ == self@.step(from_context, NULL));
                return self.settle(from_context, NULL);
            },
        };
        let from_library: Handle = if from_context != NULL {
            NULL
        } else {
            match &self.library {
                Some(library) => library.symbol(name),
                None => NULL,
            }
        };
        let next = self.settle(from_context, from_library);
        assert(next@ == self@.step(from_context, from_library));
        next
    }

    /// The context that the table is resolved for.
    pub fn context(&self) -> (context: Context)
        ensures
            context == self@.context,
    {
        self.context
    }
}

/// The resolved entry points of the graphics API: one address for each name
/// of [`entry_point_names`], none of them null.
pub struct Loader {
    entries: Vec<Handle>,
    /// Keeps the graphics library loaded while its addresses are in use.
    library: Option<Library>,
    /// The context that the entry points were resolved against. Addresses
    /// that its resolver handed out are good for this context only.
    context: Context,
}

impl View for Loader {
    type V = Seq<Handle>;

    closed spec fn view(&self) -> Seq<Handle> {
        self.entries@
    }
}

impl Loader {
    /// Every entry point has an address.
    #[verifier::type_invariant]
    pub closed spec fn wf(self) -> bool {
        complete(self.entries@, ENTRY_POINT_COUNT as nat)
    }

    /// The context that the table was resolved against.
    pub closed spec fn resolved_against(self) -> Context {
        self.context
    }

    /// The name of the graphics library that the table keeps loaded, if it
    /// keeps one.
    pub closed spec fn library_name(self) -> Option<Seq<char>> {
        name_of(self.library)
    }

    /// Puts a table together from what the two sources answered for each
    /// name, null standing for "not found". A table comes out exactly when
    /// every entry point was found in one of them; it prefers the context's
    /// answer. `context` and `library` are kept with the table.
    pub fn assemble(
        context: Context,
        library: Option<Library>,
        from_context: &Vec<Handle>,
        from_library: &Vec<Handle>,
    ) -> (table: Option<Loader>)
        ensures
            table is Some <==> resolvable(from_context@, from_library@),
            table matches Some(t) ==> {
                &&& t@ == merged(from_context@, from_library@)
                &&& complete(t@, ENTRY_POINT_COUNT as nat)
                &&& t.resolved_against() == context
                &&& t.library_name() == name_of(library)
            },
    {
        if from_context.len() != ENTRY_POINT_COUNT || from_library.len() != ENTRY_POINT_COUNT {
            return None;
        }
        let mut entries: Vec<Handle> = Vec::new();
        let mut index: usize = 0;
        while index < ENTRY_POINT_COUNT
            invariant
                index <= ENTRY_POINT_COUNT,
                from_context.len() == ENTRY_POINT_COUNT,
                from_library.len() == ENTRY_POINT_COUNT,
                entries.len() == index,
                forall|i: int|
                    0 <= i < index ==> entries@[i] == preferred(from_context@[i], from_library@[i])
                        && entries@[i] != NULL,
            decreases ENTRY_POINT_COUNT - index,
        {
            let address: Handle = if from_context[index] != NULL {
                from_context[index]
            } else {
                from_library[index]
            };
            if address == NULL {
                return None;
            }
            entries.push(address);
            index += 1;
        }
        assert(entries@ =~= merged(from_context@, from_library@));
        assert forall|i: int| 0 <= i < ENTRY_POINT_COUNT implies from_context@[i] != NULL
            || from_library@[i] != NULL by {
            assert(entries@[i] != NULL);
        }
        Some(Loader { entries, library, context })
    }

    /// The table that a resolution has ended with: a table of every entry
    /// point, which keeps the context and the graphics library of the
    /// resolution, or nothing if the resolution has failed or has not come
    /// to its end.
    pub fn new(resolution: Resolution) -> (table: Option<Loader>)
        ensures
            table is Some <==> resolution@.complete(),
            table matches Some(t) ==> {
                &&& t@ == resolution@.entries
                &&& complete(t@, ENTRY_POINT_COUNT as nat)
                &&& t.resolved_against() == resolution@.context
                &&& t.library_name() == resolution@.library
            },
    {
        proof {
            use_type_invariant(&resolution);
        }
        if resolution.failed || resolution.entries.len() != ENTRY_POINT_COUNT {
            return None;
        }
        Some(
            Loader {
                entries: resolution.entries,
                library: resolution.library,
                context: resolution.context,
            },
        )
    }

    /// The context that the table was resolved against.
    pub fn context(&self) -> (context: Context)
        ensures
            context == self.resolved_against(),
    {
        self.context
    }

    /// The graphics library that the table keeps loaded, if it keeps one.
    pub fn library(&self) -> (library: &Option<Library>)
        ensures
            name_of(*library) == self.library_name(),
    {
        &self.library
    }

    /// The address of an entry point. It is never null.
    pub fn address(&self, entry: EntryPoint) -> (address: Handle)
        ensures
            address == self@[entry.position()],
            address != NULL,
    {
        proof {
            use_type_invariant(self);
        }
        self.entries[entry.index()]
    }
}

/// A table exists exactly when every entry point resolves from at least one
/// of the two sources, and resolution stops at the first that resolves from
/// neither.
///
/// Let resolution have found some entry points and not failed, and let the
/// two sources answer for all the entry points that are left as
/// `from_context` and `from_library` say. Then resolution ends with every
/// entry point found exactly when for each of them at least one of the two
/// answers is not null, and the addresses are then the context's answer
/// where it has one and the library's where it has not. Otherwise
/// resolution has failed, and it holds the addresses that were found before
/// the first entry point without an answer, and no more.
pub proof fn lemma_resolution_is_all_or_nothing(
    start: ResolutionView,
    from_context: Seq<Handle>,
    from_library: Seq<Handle>,
)
    requires
        start.wf(),
        !start.failed,
        from_context.len() == from_library.len(),
        start.entries.len() + from_context.len() == ENTRY_POINT_COUNT,
    ensures
        ({
            let end = start.run(from_context, from_library);
            let found = forall|i: int|
                0 <= i < from_context.len() ==> from_context[i] != NULL || from_library[i]
                    != NULL;
            &&& end.wf()
            &&& end.complete() <==> found
            &&& end.complete() ==> end.entries == start.entries + merged(
                from_context,
                from_library,
            )
            &&& !end.complete() ==> end.failed && exists|first: int|
                {
                    &&& 0 <= first < from_context.len()
                    &&& from_context[first] == NULL
                    &&& from_library[first] == NULL
                    &&& end.entries == start.entries + merged(from_context, from_library).take(
                        first,
                    )
                }
        }),
    decreases from_context.len(),
{
    let end = start.run(from_context, from_library);
    if from_context.len() == 0 {
        assert(start.entries + merged(from_context, from_library) =~= start.entries);
    } else {
        let next = start.step(from_context[0], from_library[0]);
        let rest_context = from_context.skip(1);
        let rest_library = from_library.skip(1);
        let all = merged(from_context, from_library);
        let rest = merged(rest_context, rest_library);
        if next.failed {
            lemma_failed_resolution_is_final(next, rest_context, rest_library);
            assert(all.take(0) =~= Seq::<Handle>::empty());
            assert(start.entries + all.take(0) =~= start.entries);
        } else {
            lemma_resolution_is_all_or_nothing(next, rest_context, rest_library);
            assert(start.entries.push(all[0]) + rest =~= start.entries + all);
            if !end.complete() {
                let later = choose|first: int|
                    {
                        &&& 0 <= first < rest_context.len()
                        &&& rest_context[first] == NULL
                        &&& rest_library[first] == NULL
                        &&& end.entries == next.entries + rest.take(first)
                    };
                assert(next.entries + rest.take(later) =~= start.entries + all.take(later + 1));
                assert(from_context[later + 1] == NULL && from_library[later + 1] == NULL);
            } else {
                assert forall|i: int| 0 <= i < from_context.len() implies from_context[i] != NULL
                    || from_library[i] != NULL by {
                    if i > 0 {
                        assert(rest_context[i - 1] == from_context[i]);
                        assert(rest_library[i - 1] == from_library[i]);
                    }
                }
            }
        }
    }
}

/// Once resolution has failed, no answer changes it.
proof fn lemma_failed_resolution_is_final(
    end: ResolutionView,
    from_context: Seq<Handle>,
    from_library: Seq<Handle>,
)
    requires
        end.failed,
    ensures
        end.run(from_context, from_library) == end,
    decreases from_context.len(),
{
    if from_context.len() > 0 && from_library.len() > 0 {
        lemma_failed_resolution_is_final(end, from_context.skip(1), from_library.skip(1));
    }
}

} // verus!
