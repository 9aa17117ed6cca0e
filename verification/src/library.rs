//! Shared libraries and the entry points in them.
//!
//! Loading is done by `rust_graphics_library_loader`. What it finds depends
//! on the machine, so nothing here promises that a library or a symbol is
//! there; what is promised is how an absent one is reported, and that a
//! table of entry points is handed out whole or not at all.

use vstd::prelude::*;
use vstd::string::StrSliceExecFns;
use rust_graphics_library_loader::Linker;
use crate::protocol::{Handle, NULL};

verus! {

/// `rust_graphics_library_loader::Linker`: the handle of a loaded shared
/// library. Nothing is known of what is inside; dropping it unloads the
/// library.
#[verifier::external_type_specification]
#[verifier::external_body]
pub struct ExLinker(Linker);

/// `Linker::new`: maps the shared library of the given name into the
/// process. Nothing is claimed of the result. The loader turns the name into
/// a C string and panics on a NUL character, which the precondition rules
/// out.
#[verifier::external_body]
fn open_linker(name: &str) -> (linker: Option<Linker>)
    requires
        !name@.contains('\0'),
{
    Linker::new(name)
}

/// `Linker::get_function`, read at the width of an address: looks a symbol
/// up in a loaded library. The loader answers `None` for a null address, so
/// an address that is handed out is not null. As above, the name must hold
/// no NUL character.
#[verifier::external_body]
fn linker_symbol(linker: &Linker, name: &str) -> (address: Option<usize>)
    requires
        !name@.contains('\0'),
    ensures
        address matches Some(a) ==> a != 0,
{
    linker.get_function::<usize>(name)
}

/// Whether a table of addresses has one entry for each of `count` names and
/// none of them null.
pub open spec fn complete(addresses: Seq<Handle>, count: nat) -> bool {
    &&& addresses.len() == count
    &&& forall|i: int| 0 <= i < addresses.len() ==> addresses[i] != NULL
}

/// Tells whether a name holds a NUL character. Such a name cannot be passed
/// to the system's loader.
pub fn contains_nul(name: &str) -> (found: bool)
    ensures
        found == name@.contains('\0'),
{
    let length: usize = name.unicode_len();
    let mut index: usize = 0;
    while index < length
        invariant
            length == name@.len(),
            index <= length,
            forall|i: int| 0 <= i < index ==> name@[i] != '\0',
        decreases length - index,
    {
        if name.get_char(index) == '\0' {
            return true;
        }
        index += 1;
    }
    false
}

/// Tells whether a table of addresses is complete for `count` names.
pub fn is_complete(addresses: &Vec<Handle>, count: usize) -> (yes: bool)
    ensures
        yes == complete(addresses@, count as nat),
{
    if addresses.len() != count {
        return false;
    }
    let mut index: usize = 0;
    while index < addresses.len()
        invariant
            index <= addresses.len(),
            forall|i: int| 0 <= i < index ==> addresses@[i] != NULL,
        decreases addresses.len() - index,
    {
        if addresses[index] == NULL {
            return false;
        }
        index += 1;
    }
    true
}

/// A shared library that stays loaded for as long as this value lives.
/// Dropping the value unloads the library; the loader treats an unload that
/// the system refuses as fatal.
pub struct Library {
    linker: Linker,
    /// The name under which the library was asked for.
    name: String,
}

impl Library {
    /// The name under which the library was asked for.
    pub closed spec fn name(&self) -> Seq<char> {
        self.name@
    }

    /// The handle of the loaded library.
    pub closed spec fn linker(&self) -> Linker {
        self.linker
    }

    /// Makes a library of what the loader answered when it was asked for
    /// `name`: the library behind the handle if it handed one out, and
    /// nothing if it did not.
    pub fn adopt(name: &str, found: Option<Linker>) -> (library: Option<Library>)
        ensures
            library is Some <==> found is Some,
            library matches Some(l) ==> l.name() == name@ && l.linker() == found->0,
    {
        match found {
            Some(linker) => Some(Library { linker, name: name.to_owned() }),
            None => None,
        }
    }

    /// Loads a library by name. A name with a NUL character names no
    /// library; any other name is handed to the system's loader as it is,
    /// and [`Library::adopt`] makes the library of its answer. Whether the
    /// loader finds the library is for the machine to decide; a library that
    /// is handed out is the one that was asked for.
    pub fn open(name: &str) -> (library: Option<Library>)
        ensures
            name@.contains('\0') ==> library is None,
            library matches Some(l) ==> l.name() == name@,
    {
        if contains_nul(name) {
            return None;
        }
        Library::adopt(name, open_linker(name))
    }

    /// The name under which the library was asked for.
    pub fn get_name(&self) -> (name: &str)
        ensures
            name@ == self.name(),
    {
        self.name.as_str()
    }

    /// The address of a symbol, or null if the library has no such symbol.
    /// A name with a NUL character names no symbol.
    pub fn symbol(&self, name: &str) -> (address: Handle)
        ensures
            name@.contains('\0') ==> address == NULL,
    {
        if contains_nul(name) {
            return NULL;
        }
        match linker_symbol(&self.linker, name) {
            Some(address) => address,
            None => NULL,
        }
    }
}

} // verus!
