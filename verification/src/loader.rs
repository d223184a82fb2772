//! Judging one attempt to load the shared library.
//!
//! The operating system's loader maps the file and looks the exported
//! functions up. This module turns what it reported into a [`Probe`], and a
//! probe into the error of the load, if there is one.

use vstd::prelude::*;

verus! {

/// Why a load attempt did not produce a handle.
#[derive(Clone, Copy, Debug, PartialEq, Eq, Structural)]
pub enum LoadError {
    /// The loader could not map the file: it is missing, is no shared
    /// library, was built for another architecture, or the operating system
    /// refused it.
    LoaderFailure,
    /// The file was mapped, but it does not export `foo`.
    MissingRequiredSymbol,
}

/// The variant of a `dlopen2::Error`, without its payload.
#[derive(Clone, Copy, Debug, PartialEq, Eq, Structural)]
pub enum LoaderFault {
    /// A name held a NUL character and could not be handed to the loader.
    NullCharacter,
    /// The library could not be opened.
    OpeningLibrary,
    /// The loader reported an error while looking a symbol up.
    SymbolGetting,
    /// The symbol exists, but its address is null.
    NullSymbol,
    /// An address belongs to no loaded library.
    AddrNotMatchingDll,
}

/// What one load attempt found.
#[derive(Clone, Copy, Debug, PartialEq, Eq, Structural)]
pub enum Probe {
    /// The file could not be mapped into the process.
    Unloadable,
    /// The file was mapped, but the required function `foo` was not found.
    FooMissing,
    /// The file was mapped and `foo` was found; `bar` says whether the
    /// optional function `bar` was found as well.
    Resolved { bar: bool },
}

#[verifier::external_type_specification]
#[verifier::external_body]
pub struct ExLoaderError(dlopen2::Error);

/// The variant that a `dlopen2::Error` value is.
pub uninterp spec fn fault_of(error: dlopen2::Error) -> LoaderFault;

/// Tells the variants of `dlopen2::Error` apart, one arm for each. Nothing is
/// proved of it; the contract only names its answer, which depends on the
/// value alone.
#[verifier::external_body]
fn fault(error: &dlopen2::Error) -> (variant: LoaderFault)
    ensures
        variant == fault_of(*error),
{
    match error {
        dlopen2::Error::NullCharacter(_) => LoaderFault::NullCharacter,
        dlopen2::Error::OpeningLibraryError(_) => LoaderFault::OpeningLibrary,
        dlopen2::Error::SymbolGettingError(_) => LoaderFault::SymbolGetting,
        dlopen2::Error::NullSymbol => LoaderFault::NullSymbol,
        dlopen2::Error::AddrNotMatchingDll(_) => LoaderFault::AddrNotMatchingDll,
    }
}

impl LoaderFault {
    /// Whether the fault arose while a symbol was looked up, that is, after
    /// the file had been mapped.
    pub open spec fn after_mapping(self) -> bool {
        self is NullCharacter || self is SymbolGetting || self is NullSymbol
    }
}

impl Probe {
    /// The probe that a failed load with the given fault amounts to. The
    /// loader swallows every failure to find the optional `bar`, so a fault
    /// from a symbol lookup can only concern `foo`.
    pub open spec fn of_fault(fault: LoaderFault) -> Probe {
        if fault.after_mapping() {
            Probe::FooMissing
        } else {
            Probe::Unloadable
        }
    }

    /// The error of a load that ended with this probe, if it failed.
    pub open spec fn error(self) -> Option<LoadError> {
        match self {
            Probe::Unloadable => Some(LoadError::LoaderFailure),
            Probe::FooMissing => Some(LoadError::MissingRequiredSymbol),
            Probe::Resolved { .. } => None,
        }
    }

    /// Judges a failed load by the variant of the loader's error.
    pub fn from_fault(fault: LoaderFault) -> (probe: Probe)
        ensures
            probe == Probe::of_fault(fault),
    {
        match fault {
            LoaderFault::NullCharacter => Probe::FooMissing,
            LoaderFault::SymbolGetting => Probe::FooMissing,
            LoaderFault::NullSymbol => Probe::FooMissing,
            LoaderFault::OpeningLibrary => Probe::Unloadable,
            LoaderFault::AddrNotMatchingDll => Probe::Unloadable,
        }
    }

    /// Judges a failed load by the error that the loader returned.
    pub fn from_loader_error(error: &dlopen2::Error) -> (probe: Probe)
        ensures
            probe == Probe::of_fault(fault_of(*error)),
            probe.error() is Some,
    {
        Probe::from_fault(fault(error))
    }
}

} // verus!
