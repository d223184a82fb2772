//! The handle of one loaded instance of the shared library.

use crate::loader::{LoadError, Probe};
use vstd::prelude::*;
use vstd::string::StringExecFns;

verus! {

/// What a [`LibraryHandle`] stands for.
pub struct HandleView {
    /// Where the library was loaded from.
    pub path: Seq<char>,
    /// Which load of that path this is.
    pub generation: u32,
    /// Whether the optional function `bar` was found at load time.
    pub has_bar: bool,
}

/// One successfully loaded instance of the shared library.
///
/// A handle exists only where the required function `foo` was found, so `foo`
/// can always be called through it. Whether `bar` can be called is fixed at
/// load time and read from the handle before every call.
#[derive(Debug)]
pub struct LibraryHandle {
    path: String,
    generation: u32,
    bar: bool,
}

impl View for LibraryHandle {
    type V = HandleView;

    closed spec fn view(&self) -> HandleView {
        HandleView { path: self.path@, generation: self.generation, has_bar: self.bar }
    }
}

/// What loading `path` as the given generation gives, for each probe.
pub open spec fn load_result(path: Seq<char>, generation: u32, probe: Probe) -> Result<
    HandleView,
    LoadError,
> {
    match probe {
        Probe::Unloadable => Err(LoadError::LoaderFailure),
        Probe::FooMissing => Err(LoadError::MissingRequiredSymbol),
        Probe::Resolved { bar } => Ok(HandleView { path, generation, has_bar: bar }),
    }
}

impl LibraryHandle {
    /// Makes the handle for a load attempt that ended with `probe`.
    ///
    /// A file that could not be mapped gives `LoaderFailure`, a mapped file
    /// without `foo` gives `MissingRequiredSymbol`, and either way no
    /// handle comes into being. A missing `bar` is no error: the handle
    /// records that it is absent.
    pub fn load(path: &str, generation: u32, probe: Probe) -> (loaded: Result<
        LibraryHandle,
        LoadError,
    >)
        ensures
            match load_result(path@, generation, probe) {
                Ok(view) => loaded is Ok && loaded->Ok_0@ == view,
                Err(error) => loaded == Err::<LibraryHandle, LoadError>(error),
            },
    {
        match probe {
            Probe::Unloadable => Err(LoadError::LoaderFailure),
            Probe::FooMissing => Err(LoadError::MissingRequiredSymbol),
            Probe::Resolved { bar } => Ok(
                LibraryHandle { path: String::from_str(path), generation, bar },
            ),
        }
    }

    /// The path that the library was loaded from.
    pub fn path(&self) -> (path: &str)
        ensures
            path@ == self@.path,
    {
        self.path.as_str()
    }

    /// The number of this load.
    pub fn generation(&self) -> (generation: u32)
        ensures
            generation == self@.generation,
    {
        self.generation
    }

    /// Whether `bar` was found when the library was loaded.
    pub fn has_bar(&self) -> (present: bool)
        ensures
            present == self@.has_bar,
    {
        self.bar
    }
}

} // verus!
