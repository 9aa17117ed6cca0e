use rust_graphics_opengl::context::{Context, Negotiation, Platform};
use rust_graphics_opengl::egl::{
    binding_entry_name, build_config_attributes, build_context_attributes, context_version,
    surface_candidate, BindingEntry, Egl, BINDING_ENTRY_COUNT, CONTEXT_VERSION_COUNT,
    DEFAULT_DISPLAY, SURFACE_CANDIDATE_COUNT,
};
use rust_graphics_opengl::library::{contains_nul, is_complete, Library};
use rust_graphics_opengl::loader::{
    entry_point_name, system_library_name, EntryPoint, Loader, Resolution, ENTRY_POINT_COUNT,
};
use rust_graphics_opengl::manager::Manager;
use rust_graphics_opengl::pixel_format::{desktop_request, PixelFormatDescriptor};
use rust_graphics_opengl::protocol::{ContextVersion, Reply, Request, SurfaceCandidate};
use rust_graphics_library_loader::Linker;

fn egl_context() -> Context {
    Context::Egl {
        window: 1,
        display: 2,
        config: 3,
        surface: 4,
        context: 5,
        candidate: SurfaceCandidate { renderable: 64, depth: 32, samples: 4 },
        version: ContextVersion { major: 3, minor: 2 },
    }
}

fn addresses(base: usize) -> Vec<usize> {
    (0..ENTRY_POINT_COUNT).map(|i| base + 8 * i).collect()
}

/// Carries a resolution out against a resolver that knows the entry points
/// as `found` says, and tells which entry points it was asked for.
fn resolve(mut resolution: Resolution, found: &[usize]) -> (Resolution, Vec<EntryPoint>) {
    let mut asked = Vec::new();
    while let Some(entry) = resolution.pending() {
        asked.push(entry);
        assert!(asked.len() <= ENTRY_POINT_COUNT);
        resolution = resolution.supply(found[entry.index()]);
    }
    (resolution, asked)
}

#[test]
fn surface_candidates_in_priority_order() {
    let expected = [
        (64, 32, 4),
        (64, 32, 0),
        (64, 24, 4),
        (64, 24, 0),
        (4, 32, 4),
        (4, 32, 0),
        (4, 24, 4),
        (4, 24, 0),
    ];
    assert_eq!(SURFACE_CANDIDATE_COUNT, 8);
    for (index, (renderable, depth, samples)) in expected.iter().enumerate() {
        assert_eq!(
            surface_candidate(index),
            Some(SurfaceCandidate { renderable: *renderable, depth: *depth, samples: *samples })
        );
    }
    assert_eq!(surface_candidate(8), None);
    assert_eq!(surface_candidate(usize::MAX), None);
}

#[test]
fn context_versions_in_priority_order() {
    assert_eq!(CONTEXT_VERSION_COUNT, 4);
    assert_eq!(context_version(0), Some(ContextVersion { major: 3, minor: 2 }));
    assert_eq!(context_version(1), Some(ContextVersion { major: 3, minor: 1 }));
    assert_eq!(context_version(2), Some(ContextVersion { major: 3, minor: 0 }));
    assert_eq!(context_version(3), Some(ContextVersion { major: 2, minor: 0 }));
    assert_eq!(context_version(4), None);
}

#[test]
fn config_attributes_with_and_without_multisampling() {
    let sampled = SurfaceCandidate { renderable: 64, depth: 32, samples: 4 };
    assert_eq!(
        build_config_attributes(sampled),
        vec![
            12352, 64, 12339, 4, 12322, 8, 12323, 8, 12324, 8, 12325, 32, 12338, 1, 12337, 4,
            12344
        ]
    );
    let plain = SurfaceCandidate { renderable: 4, depth: 24, samples: 0 };
    assert_eq!(
        build_config_attributes(plain),
        vec![
            12352, 4, 12339, 4, 12322, 8, 12323, 8, 12324, 8, 12325, 24, 12338, 0, 12337, 0,
            12344
        ]
    );
}

#[test]
fn context_attributes_name_major_and_minor() {
    assert_eq!(
        build_context_attributes(ContextVersion { major: 3, minor: 1 }),
        vec![12440, 3, 12539, 1, 12344]
    );
    assert_eq!(DEFAULT_DISPLAY, 0);
}

#[test]
fn binding_entry_names() {
    let expected = [
        "eglGetDisplay",
        "eglInitialize",
        "eglChooseConfig",
        "eglCreateWindowSurface",
        "eglCreateContext",
        "eglMakeCurrent",
        "eglDestroyContext",
        "eglDestroySurface",
        "eglTerminate",
        "eglGetProcAddress",
        "eglSwapBuffers",
    ];
    assert_eq!(BINDING_ENTRY_COUNT, expected.len());
    for (index, name) in expected.iter().enumerate() {
        assert_eq!(binding_entry_name(index), Some(*name));
    }
    assert_eq!(binding_entry_name(BINDING_ENTRY_COUNT), None);
    assert_eq!(BindingEntry::GetProcAddress.name(), "eglGetProcAddress");
    assert_eq!(BindingEntry::GetProcAddress.index(), 9);
    assert_eq!(BindingEntry::SwapBuffers.name(), "eglSwapBuffers");
    assert_eq!(BindingEntry::GetDisplay.index(), 0);
    for index in 0..BINDING_ENTRY_COUNT {
        let entry = BindingEntry::at(index).expect("an entry");
        assert_eq!(entry.index(), index);
        assert_eq!(Some(entry.name()), binding_entry_name(index));
    }
    assert_eq!(BindingEntry::at(BINDING_ENTRY_COUNT), None);
}

#[test]
fn entry_point_names() {
    assert_eq!(ENTRY_POINT_COUNT, 69);
    assert_eq!(entry_point_name(0), Some("glActiveTexture"));
    assert_eq!(EntryPoint::ActiveTexture.name(), "glActiveTexture");
    assert_eq!(EntryPoint::ActiveTexture.index(), 0);
    assert_eq!(EntryPoint::ClearColor.name(), "glClearColor");
    assert_eq!(EntryPoint::ClearColor.index(), 11);
    assert_eq!(EntryPoint::TexImage2d.name(), "glTexImage2D");
    assert_eq!(EntryPoint::GetIntegerV.name(), "glGetIntegerv");
    assert_eq!(EntryPoint::Viewport.name(), "glViewport");
    assert_eq!(EntryPoint::Viewport.index(), ENTRY_POINT_COUNT - 1);
    assert_eq!(entry_point_name(ENTRY_POINT_COUNT), None);
    assert_eq!(EntryPoint::at(ENTRY_POINT_COUNT), None);
    for index in 0..ENTRY_POINT_COUNT {
        let entry = EntryPoint::at(index).expect("an entry");
        assert_eq!(entry.index(), index);
        assert_eq!(Some(entry.name()), entry_point_name(index));
    }
    let mut seen: Vec<&str> = Vec::new();
    for index in 0..ENTRY_POINT_COUNT {
        let name = entry_point_name(index).expect("a name");
        assert!(name.starts_with("gl"));
        assert!(!seen.contains(&name));
        seen.push(name);
    }
}

#[test]
fn desktop_pixel_format_request() {
    assert_eq!(
        desktop_request(),
        PixelFormatDescriptor {
            version: 1,
            flags: 0x182D,
            pixel_type: 0,
            color_bits: 32,
            red_bits: 8,
            green_bits: 8,
            blue_bits: 8,
            alpha_bits: 8,
            depth_bits: 32,
            stencil_bits: 8,
        }
    );
    assert_eq!(desktop_request().flags, 4 | 8 | 0x20 | 0x1000 | 1 | 0x800);
}

#[test]
fn replies_are_read_by_kind() {
    assert_eq!(Reply::Handle(7).get_handle(), Some(7));
    assert_eq!(Reply::Handle(0).get_handle(), None);
    assert_eq!(Reply::Integer(7).get_handle(), None);
    assert!(Reply::Status(1).is_accepted());
    assert!(!Reply::Status(0).is_accepted());
    assert!(!Reply::Status(3).is_accepted());
    assert!(!Reply::Integer(1).is_accepted());
    assert!(Reply::Integer(1).is_succeeded());
    assert!(Reply::Integer(-5).is_succeeded());
    assert!(!Reply::Integer(0).is_succeeded());
    assert!(!Reply::Done.is_succeeded());
    assert_eq!(Reply::Integer(12).get_pixel_format(), Some(12));
    assert_eq!(Reply::Integer(0).get_pixel_format(), None);
    assert_eq!(Reply::Handle(12).get_pixel_format(), None);
    assert_eq!(Reply::Config { status: 1, count: 1, config: 9 }.get_configuration(), Some(9));
    assert_eq!(Reply::Config { status: 1, count: 3, config: 9 }.get_configuration(), Some(9));
    assert_eq!(Reply::Config { status: 0, count: 1, config: 9 }.get_configuration(), None);
    assert_eq!(Reply::Config { status: 1, count: 0, config: 9 }.get_configuration(), None);
    assert_eq!(Reply::Config { status: 1, count: 1, config: 0 }.get_configuration(), None);
    assert_eq!(Reply::Status(1).get_configuration(), None);
}

#[test]
fn names_with_nul() {
    assert!(!contains_nul(""));
    assert!(!contains_nul("libGL.so"));
    assert!(contains_nul("\0"));
    assert!(contains_nul("lib\0GL"));
    assert!(contains_nul("libGL.so\0"));
    assert!(!contains_nul("gl\u{00e9}0"));
}

#[test]
fn complete_tables() {
    assert!(is_complete(&vec![], 0));
    assert!(is_complete(&vec![1, 2, 3], 3));
    assert!(!is_complete(&vec![1, 2, 3], 4));
    assert!(!is_complete(&vec![1, 2, 3], 2));
    assert!(!is_complete(&vec![1, 0, 3], 3));
    assert!(!is_complete(&vec![0], 1));
}

#[test]
fn library_resolves_what_it_holds() {
    let library = Library::open("libc.so.6").expect("the C library");
    let strlen = library.symbol("strlen");
    let malloc = library.symbol("malloc");
    assert_ne!(strlen, 0);
    assert_ne!(malloc, 0);
    assert_ne!(strlen, malloc);
    assert_eq!(library.symbol("strlen"), strlen);
    assert_eq!(library.symbol("no_such_symbol_in_the_c_library"), 0);
    assert_eq!(library.symbol("str\0len"), 0);
}

#[test]
fn library_bears_the_name_it_was_asked_for() {
    let library = Library::open("libc.so.6").expect("the C library");
    assert_eq!(library.get_name(), "libc.so.6");
    let other = Library::open("libm.so.6").expect("the math library");
    assert_eq!(other.get_name(), "libm.so.6");
    assert_ne!(other.symbol("cos"), 0);
}

#[test]
fn library_is_made_of_what_the_loader_answered() {
    assert!(Library::adopt("libc.so.6", None).is_none());
    let found = Linker::new("libc.so.6");
    assert!(found.is_some());
    let library = Library::adopt("libc.so.6", found).expect("the C library");
    assert_eq!(library.get_name(), "libc.so.6");
    assert_ne!(library.symbol("strlen"), 0);
    assert_eq!(library.symbol("no_such_symbol_in_the_c_library"), 0);
    let absent = Linker::new("libno_such_library_anywhere.so.99");
    assert!(absent.is_none());
    assert!(Library::adopt("libno_such_library_anywhere.so.99", absent).is_none());
}

#[test]
fn library_that_is_absent() {
    assert!(Library::open("libno_such_library_anywhere.so.99").is_none());
    assert!(Library::open("libc.so.6\0").is_none());
    assert!(Library::open("\0").is_none());
}

#[test]
fn binding_is_whole_or_absent() {
    let whole: Vec<usize> = (1..=BINDING_ENTRY_COUNT).map(|i| 0x1000 * i).collect();
    let library = Library::open("libc.so.6").expect("the C library");
    let binding = Egl::bind(library, whole.clone()).expect("a binding");
    assert_eq!(binding.library().get_name(), "libc.so.6");
    for index in 0..BINDING_ENTRY_COUNT {
        assert_eq!(binding.address(BindingEntry::at(index).expect("an entry")), whole[index]);
    }
    for missing in 0..BINDING_ENTRY_COUNT {
        let mut holed = whole.clone();
        holed[missing] = 0;
        let library = Library::open("libc.so.6").expect("the C library");
        assert!(Egl::bind(library, holed).is_none());
    }
    let library = Library::open("libc.so.6").expect("the C library");
    assert!(Egl::bind(library, whole[1..].to_vec()).is_none());
    let library = Library::open("libc.so.6").expect("the C library");
    let mut long = whole.clone();
    long.push(0x77);
    assert!(Egl::bind(library, long).is_none());
}

#[test]
fn binding_from_this_machine_is_whole_if_there_is_one() {
    match Egl::new() {
        Some(binding) => {
            assert_eq!(binding.library().get_name(), "libEGL.so");
            for index in 0..BINDING_ENTRY_COUNT {
                assert_ne!(binding.address(BindingEntry::at(index).expect("an entry")), 0);
            }
        }
        None => {}
    }
}

#[test]
fn table_from_the_context_alone() {
    let context = egl_context();
    let found = addresses(0x4000);
    let (resolution, asked) = resolve(Resolution::begin(&context), &found);
    assert_eq!(asked.len(), ENTRY_POINT_COUNT);
    for (index, entry) in asked.iter().enumerate() {
        assert_eq!(entry.index(), index);
    }
    assert_eq!(resolution.context(), context);
    let table = Loader::new(resolution).expect("a table");
    for index in 0..ENTRY_POINT_COUNT {
        assert_eq!(table.address(EntryPoint::at(index).expect("an entry")), found[index]);
    }
    assert_eq!(table.context(), context);
    assert!(table.library().is_none());
    assert_eq!(system_library_name(&context), None);
}

#[test]
fn one_missing_symbol_gives_no_table() {
    let context = egl_context();
    for missing in 0..ENTRY_POINT_COUNT {
        let mut found = addresses(0x4000);
        found[missing] = 0;
        let (resolution, asked) = resolve(Resolution::begin(&context), &found);
        assert_eq!(asked.len(), missing + 1);
        assert_eq!(asked.last().map(|e| e.index()), Some(missing));
        assert_eq!(resolution.pending(), None);
        assert!(Loader::new(resolution).is_none());
        let nothing = vec![0; ENTRY_POINT_COUNT];
        assert!(Loader::assemble(context, None, &found, &nothing).is_none());
    }
}

#[test]
fn table_needs_an_answer_for_every_name() {
    let context = egl_context();
    let found = addresses(0x4000);
    assert!(Loader::new(Resolution::begin(&context)).is_none());
    let mut resolution = Resolution::begin(&context);
    for index in 0..ENTRY_POINT_COUNT - 1 {
        resolution = resolution.supply(found[index]);
    }
    assert_eq!(resolution.pending(), Some(EntryPoint::Viewport));
    assert!(Loader::new(resolution).is_none());
    let mut long = found.clone();
    long.push(0x99);
    assert!(Loader::assemble(context, None, &found, &found[1..].to_vec()).is_none());
    assert!(Loader::assemble(context, None, &long, &found).is_none());
}

#[test]
fn answers_after_the_end_change_nothing() {
    let context = egl_context();
    let found = addresses(0x4000);
    let (resolution, _) = resolve(Resolution::begin(&context), &found);
    let resolution = resolution.supply(0).supply(0x1234).settle(0, 0);
    assert_eq!(resolution.pending(), None);
    let table = Loader::new(resolution).expect("a table");
    assert_eq!(table.address(EntryPoint::Viewport), found[ENTRY_POINT_COUNT - 1]);

    let failed = Resolution::begin(&context).supply(0);
    assert_eq!(failed.pending(), None);
    let failed = failed.supply(0x1234).settle(0x10, 0x20);
    assert_eq!(failed.pending(), None);
    assert!(Loader::new(failed).is_none());
}

#[test]
fn the_library_is_loaded_before_any_name_is_asked_for() {
    let context = Context::WindowDelegated { window: 1 };
    let without = Resolution::start(context, None);
    assert_eq!(without.pending(), None);
    assert!(Loader::new(without).is_none());

    let library = Library::open("libc.so.6").expect("the C library");
    let with = Resolution::start(context, Some(library));
    assert_eq!(with.pending(), Some(EntryPoint::ActiveTexture));

    let mobile = Resolution::start(egl_context(), None);
    assert_eq!(mobile.pending(), Some(EntryPoint::ActiveTexture));
}

#[test]
fn the_library_is_asked_only_for_what_the_context_lacks() {
    let context = Context::WindowDelegated { window: 1 };
    let library = Library::open("libc.so.6").expect("the C library");
    let found = addresses(0x4000);
    let (resolution, asked) = resolve(Resolution::start(context, Some(library)), &found);
    assert_eq!(asked.len(), ENTRY_POINT_COUNT);
    let table = Loader::new(resolution).expect("a table");
    for index in 0..ENTRY_POINT_COUNT {
        assert_eq!(table.address(EntryPoint::at(index).expect("an entry")), found[index]);
    }
    assert_eq!(table.library().as_ref().map(|l| l.get_name()), Some("libc.so.6"));

    let library = Library::open("libc.so.6").expect("the C library");
    let mut holed = found.clone();
    holed[4] = 0;
    let (resolution, asked) = resolve(Resolution::start(context, Some(library)), &holed);
    assert_eq!(asked.len(), 5);
    assert!(Loader::new(resolution).is_none());
}

#[test]
fn settle_prefers_the_context_and_falls_back_on_the_library() {
    let context = Context::DeviceContext { window: 1, device: 2, render: 3 };
    let library = Library::open("libc.so.6").expect("the C library");
    let mut resolution = Resolution::start(context, Some(library));
    resolution = resolution.settle(0x10, 0x20);
    resolution = resolution.settle(0, 0x30);
    resolution = resolution.settle(0x40, 0);
    for index in 3..ENTRY_POINT_COUNT {
        resolution = resolution.settle(0, 0x1000 + index);
    }
    let table = Loader::new(resolution).expect("a table");
    assert_eq!(table.address(EntryPoint::ActiveTexture), 0x10);
    assert_eq!(table.address(EntryPoint::AttachShader), 0x30);
    assert_eq!(table.address(EntryPoint::BindAttribLocation), 0x40);
    assert_eq!(table.address(EntryPoint::Viewport), 0x1000 + ENTRY_POINT_COUNT - 1);
    assert_eq!(table.context(), context);

    let library = Library::open("libc.so.6").expect("the C library");
    let failed = Resolution::start(context, Some(library)).settle(0x10, 0).settle(0, 0);
    assert_eq!(failed.pending(), None);
    assert!(Loader::new(failed).is_none());
}

#[test]
fn library_fills_in_what_the_context_lacks() {
    let context = Context::WindowDelegated { window: 1 };
    let mut from_context = addresses(0x4000);
    let mut from_library = vec![0; ENTRY_POINT_COUNT];
    from_context[3] = 0;
    from_library[3] = 0x9000;
    let last = EntryPoint::Viewport.index();
    from_context[last] = 0;
    from_library[last] = 0x9008;
    from_library[5] = 0x9010;
    let table =
        Loader::assemble(context, None, &from_context, &from_library).expect("a table");
    for index in 0..ENTRY_POINT_COUNT {
        let expected = if index == 3 {
            0x9000
        } else if index == last {
            0x9008
        } else {
            0x4000 + 8 * index
        };
        assert_eq!(table.address(EntryPoint::at(index).expect("an entry")), expected);
    }
    from_library[3] = 0;
    assert!(Loader::assemble(context, None, &from_context, &from_library).is_none());
}

#[test]
fn library_alone_can_fill_the_table() {
    let context = Context::DeviceContext { window: 1, device: 2, render: 3 };
    let nothing = vec![0; ENTRY_POINT_COUNT];
    let found = addresses(0x6000);
    let table = Loader::assemble(context, None, &nothing, &found).expect("a table");
    for index in 0..ENTRY_POINT_COUNT {
        assert_eq!(table.address(EntryPoint::at(index).expect("an entry")), found[index]);
    }
    assert!(Loader::assemble(context, None, &nothing, &nothing).is_none());
}

#[test]
fn desktop_table_needs_its_library() {
    let context = Context::WindowDelegated { window: 1 };
    assert_eq!(system_library_name(&context), Some("libGL.so"));
    let device = Context::DeviceContext { window: 1, device: 2, render: 3 };
    assert_eq!(system_library_name(&device), Some("opengl32.dll"));
    let found = addresses(0x4000);
    let begun = Resolution::begin(&context);
    if Library::open("libGL.so").is_none() {
        assert_eq!(begun.pending(), None);
        assert!(Loader::new(begun).is_none());
    } else {
        let (resolution, asked) = resolve(begun, &found);
        assert_eq!(asked.len(), ENTRY_POINT_COUNT);
        let table = Loader::new(resolution).expect("a table");
        for index in 0..ENTRY_POINT_COUNT {
            assert_eq!(table.address(EntryPoint::at(index).expect("an entry")), found[index]);
        }
        assert_eq!(table.library().as_ref().map(|l| l.get_name()), Some("libGL.so"));
    }
    let begun = Resolution::begin(&device);
    assert!(begun.pending().is_none() || Library::open("opengl32.dll").is_some());
}

#[test]
fn manager_needs_context_and_table() {
    let found = addresses(0x4000);
    assert!(Manager::begin(Negotiation::Failed).is_none());
    assert!(Manager::begin(Negotiation::begin(Platform::Egl, 1)).is_none());
    assert!(Manager::begin(Negotiation::ClosingDisplay { display: 2 }).is_none());
    let context = egl_context();

    let mut holed = found.clone();
    holed[17] = 0;
    let begun = Manager::begin(Negotiation::Current(context)).expect("a resolution");
    assert_eq!(begun.context(), context);
    let (resolution, asked) = resolve(begun, &holed);
    assert_eq!(asked.len(), 18);
    match Manager::new(resolution) {
        Err(release) => {
            assert_eq!(release, context.teardown());
            assert_eq!(
                release.pending(),
                Some(Request::MakeCurrent { display: 2, draw: 0, read: 0, context: 0 })
            );
        }
        Ok(_) => panic!("a manager without a table"),
    }

    let begun = Manager::begin(Negotiation::Current(context)).expect("a resolution");
    match Manager::new(begun) {
        Err(release) => assert_eq!(release, context.teardown()),
        Ok(_) => panic!("a manager from a resolution that has not ended"),
    }

    let begun = Manager::begin(Negotiation::Current(context)).expect("a resolution");
    let (resolution, _) = resolve(begun, &found);
    match Manager::new(resolution) {
        Ok(manager) => {
            assert_eq!(*manager.get_context(), context);
            assert_eq!(manager.get_loader().context(), context);
            assert!(manager.get_loader().library().is_none());
            for index in 0..ENTRY_POINT_COUNT {
                assert_eq!(
                    manager.get_loader().address(EntryPoint::at(index).expect("an entry")),
                    found[index]
                );
            }
            assert_eq!(manager.swap_buffers(), Request::SwapBuffers { display: 2, surface: 4 });
            assert_eq!(manager.teardown(), context.teardown());
        }
        Err(_) => panic!("no manager"),
    }
}

#[test]
fn replay_is_supply_in_sequence() {
    let replies = vec![
        Reply::Handle(1),
        Reply::Handle(0x10),
        Reply::Status(1),
        Reply::Config { status: 1, count: 0, config: 0 },
        Reply::Config { status: 1, count: 0, config: 0 },
        Reply::Config { status: 1, count: 1, config: 0x30 },
        Reply::Handle(0x40),
        Reply::Handle(0),
        Reply::Handle(0x50),
        Reply::Status(0),
        Reply::Status(1),
        Reply::Handle(0x51),
        Reply::Status(1),
    ];
    let start = Negotiation::begin(Platform::Egl, 7);
    let mut state = start;
    for reply in &replies {
        state = state.supply(*reply);
    }
    assert_eq!(start.replay(&replies), state);
    assert_eq!(
        state,
        Negotiation::Current(Context::Egl {
            window: 7,
            display: 0x10,
            config: 0x30,
            surface: 0x40,
            context: 0x51,
            candidate: SurfaceCandidate { renderable: 64, depth: 24, samples: 4 },
            version: ContextVersion { major: 3, minor: 0 },
        })
    );
    assert_eq!(start.replay(&Vec::new()), start);
    assert_eq!(start.replay(&replies[..9].to_vec()).pending(), Some(Request::MakeCurrent {
        display: 0x10,
        draw: 0x40,
        read: 0x40,
        context: 0x50,
    }));
}
