//! Where the driver's shared library is looked for, and in which order.
use crate::binder::EntryPoint;
use vstd::prelude::*;

verus! {

/// Operating system families the driver ships for.
#[derive(Clone, Copy, Debug, PartialEq, Eq, Structural)]
pub enum Platform {
    Windows,
    Linux,
    MacOs,
}

/// Why the driver's bindings could not be set up.
#[derive(Debug)]
pub enum LoadError<E> {
    /// No candidate library could be loaded; holds the loader's last error.
    LibraryLoad(E),
    /// The library loaded but the named entry point is missing from it.
    SymbolResolution { entry: EntryPoint, error: E },
}

/// The library names tried on `platform`, most preferred first.
pub open spec fn candidates_of(platform: Platform) -> Seq<Seq<char>> {
    match platform {
        Platform::Windows => seq!["OmniMIDI\\OmniMIDI"@, "OmniMIDI"@],
        Platform::Linux => seq!["libOmniMIDI.so"@],
        Platform::MacOs => seq!["libOmniMIDI.dylib"@],
    }
}

/// The library names to try on `platform`, in order.
pub fn library_candidates(platform: Platform) -> (r: Vec<&'static str>)
    ensures
        r@.len() == candidates_of(platform).len(),
        forall|i: int| 0 <= i < r@.len() ==> #[trigger] r@[i]@ == candidates_of(platform)[i],
{
    match platform {
        Platform::Windows => vec!["OmniMIDI\\OmniMIDI", "OmniMIDI"],
        Platform::Linux => vec!["libOmniMIDI.so"],
        Platform::MacOs => vec!["libOmniMIDI.dylib"],
    }
}

/// `load` may fail on `name`.
pub open spec fn may_fail<L, E, F: Fn(&str) -> Result<L, E>>(load: &F, name: &str) -> bool {
    exists|e: E| load.ensures((name,), Err(e))
}

/// Every candidate before index `n` may have failed to load.
pub open spec fn all_failed_before<L, E, F: Fn(&str) -> Result<L, E>>(
    load: &F,
    candidates: Seq<&str>,
    n: int,
) -> bool {
    forall|j: int| 0 <= j < n ==> #[trigger] may_fail(load, candidates[j])
}

/// Tries `load` on each candidate in order and keeps the first library that
/// loads. When all fail, the error of the last attempt is returned.
pub fn load_first<L, E, F: Fn(&str) -> Result<L, E>>(candidates: &Vec<&str>, load: &F) -> (r:
    Result<L, LoadError<E>>)
    requires
        candidates@.len() > 0,
        forall|i: int| 0 <= i < candidates@.len() ==> load.requires((candidates@[i],)),
    ensures
        match r {
            Ok(lib) => exists|i: int|
                0 <= i < candidates@.len() && load.ensures((candidates@[i],), Ok(lib))
                    && all_failed_before(load, candidates@, i),
            Err(LoadError::LibraryLoad(e)) => load.ensures(
                (candidates@[candidates@.len() - 1],),
                Err(e),
            ) && all_failed_before(load, candidates@, candidates@.len() as int),
            Err(LoadError::SymbolResolution { .. }) => false,
        },
{
    let mut i: usize = 0;
    loop
        invariant
            i < candidates@.len(),
            forall|k: int| 0 <= k < candidates@.len() ==> load.requires((candidates@[k],)),
            all_failed_before(load, candidates@, i as int),
        decreases candidates@.len() - i,
    {
        match load(candidates[i]) {
            Ok(lib) => {
                return Ok(lib);
            },
            Err(e) => {
                if i == candidates.len() - 1 {
                    return Err(LoadError::LibraryLoad(e));
                }
                i = i + 1;
            },
        }
    }
}

} // verus!
