//! The driver's entry points and their all-or-nothing resolution.
use crate::locator::{all_failed_before, candidates_of, may_fail, library_candidates, load_first, LoadError, Platform};
use vstd::prelude::*;

verus! {

/// One of the seven entry points that the driver library exports.
#[derive(Clone, Copy, Debug, PartialEq, Eq, Structural)]
pub enum EntryPoint {
    IsAvailable,
    InitializeStream,
    TerminateStream,
    ResetStream,
    SendDirectData,
    SendDirectDataNoBuf,
    LoadCustomSoundFontsList,
}

/// The exported symbol name of each entry point.
pub open spec fn symbol_of(e: EntryPoint) -> Seq<char> {
    match e {
        EntryPoint::IsAvailable => "IsKDMAPIAvailable"@,
        EntryPoint::InitializeStream => "InitializeKDMAPIStream"@,
        EntryPoint::TerminateStream => "TerminateKDMAPIStream"@,
        EntryPoint::ResetStream => "ResetKDMAPIStream"@,
        EntryPoint::SendDirectData => "SendDirectData"@,
        EntryPoint::SendDirectDataNoBuf => "SendDirectDataNoBuf"@,
        EntryPoint::LoadCustomSoundFontsList => "LoadCustomSoundFontsList"@,
    }
}

/// The position of each entry point in the order of resolution.
pub open spec fn rank_of(e: EntryPoint) -> int {
    match e {
        EntryPoint::IsAvailable => 0,
        EntryPoint::InitializeStream => 1,
        EntryPoint::TerminateStream => 2,
        EntryPoint::ResetStream => 3,
        EntryPoint::SendDirectData => 4,
        EntryPoint::SendDirectDataNoBuf => 5,
        EntryPoint::LoadCustomSoundFontsList => 6,
    }
}

impl EntryPoint {
    /// The name under which the driver exports this entry point.
    pub fn symbol(&self) -> (r: &'static str)
        ensures
            r@ == symbol_of(*self),
    {
        match self {
            EntryPoint::IsAvailable => "IsKDMAPIAvailable",
            EntryPoint::InitializeStream => "InitializeKDMAPIStream",
            EntryPoint::TerminateStream => "TerminateKDMAPIStream",
            EntryPoint::ResetStream => "ResetKDMAPIStream",
            EntryPoint::SendDirectData => "SendDirectData",
            EntryPoint::SendDirectDataNoBuf => "SendDirectDataNoBuf",
            EntryPoint::LoadCustomSoundFontsList => "LoadCustomSoundFontsList",
        }
    }
}

/// One resolved handle `S` for each entry point.
#[derive(Clone, Copy, Debug)]
pub struct SymbolTable<S> {
    pub is_available: S,
    pub initialize_stream: S,
    pub terminate_stream: S,
    pub reset_stream: S,
    pub send_direct_data: S,
    pub send_direct_data_no_buf: S,
    pub load_custom_soundfonts_list: S,
}

impl<S> SymbolTable<S> {
    /// The handle held for `e`.
    pub open spec fn entry(&self, e: EntryPoint) -> S {
        match e {
            EntryPoint::IsAvailable => self.is_available,
            EntryPoint::InitializeStream => self.initialize_stream,
            EntryPoint::TerminateStream => self.terminate_stream,
            EntryPoint::ResetStream => self.reset_stream,
            EntryPoint::SendDirectData => self.send_direct_data,
            EntryPoint::SendDirectDataNoBuf => self.send_direct_data_no_buf,
            EntryPoint::LoadCustomSoundFontsList => self.load_custom_soundfonts_list,
        }
    }
}

/// `resolve` may succeed on `e`.
pub open spec fn may_resolve<S, E, F: Fn(EntryPoint) -> Result<S, E>>(
    resolve: &F,
    e: EntryPoint,
) -> bool {
    exists|s: S| resolve.ensures((e,), Ok(s))
}

/// Resolves every entry point with `resolve`, in the order of `rank_of`.
/// The table is returned only when all seven resolve; otherwise the first
/// entry point that failed is reported with its error.
pub fn bind_symbols<S, E, F: Fn(EntryPoint) -> Result<S, E>>(resolve: &F) -> (r: Result<
    SymbolTable<S>,
    LoadError<E>,
>)
    requires
        forall|e: EntryPoint| resolve.requires((e,)),
    ensures
        match r {
            Ok(t) => forall|e: EntryPoint| #[trigger] resolve.ensures((e,), Ok(t.entry(e))),
            Err(LoadError::SymbolResolution { entry, error }) => resolve.ensures(
                (entry,),
                Err(error),
            ) && forall|e: EntryPoint|
                rank_of(e) < rank_of(entry) ==> #[trigger] may_resolve(resolve, e),
            Err(LoadError::LibraryLoad(_)) => false,
        },
{
    let is_available = match resolve(EntryPoint::IsAvailable) {
        Ok(s) => s,
        Err(error) => {
            return Err(LoadError::SymbolResolution { entry: EntryPoint::IsAvailable, error });
        },
    };
    let initialize_stream = match resolve(EntryPoint::InitializeStream) {
        Ok(s) => s,
        Err(error) => {
            return Err(LoadError::SymbolResolution { entry: EntryPoint::InitializeStream, error });
        },
    };
    let terminate_stream = match resolve(EntryPoint::TerminateStream) {
        Ok(s) => s,
        Err(error) => {
            return Err(LoadError::SymbolResolution { entry: EntryPoint::TerminateStream, error });
        },
    };
    let reset_stream = match resolve(EntryPoint::ResetStream) {
        Ok(s) => s,
        Err(error) => {
            return Err(LoadError::SymbolResolution { entry: EntryPoint::ResetStream, error });
        },
    };
    let send_direct_data = match resolve(EntryPoint::SendDirectData) {
        Ok(s) => s,
        Err(error) => {
            return Err(LoadError::SymbolResolution { entry: EntryPoint::SendDirectData, error });
        },
    };
    let send_direct_data_no_buf = match resolve(EntryPoint::SendDirectDataNoBuf) {
        Ok(s) => s,
        Err(error) => {
            return Err(
                LoadError::SymbolResolution { entry: EntryPoint::SendDirectDataNoBuf, error },
            );
        },
    };
    let load_custom_soundfonts_list = match resolve(EntryPoint::LoadCustomSoundFontsList) {
        Ok(s) => s,
        Err(error) => {
            return Err(
                LoadError::SymbolResolution { entry: EntryPoint::LoadCustomSoundFontsList, error },
            );
        },
    };
    Ok(
        SymbolTable {
            is_available,
            initialize_stream,
            terminate_stream,
            reset_stream,
            send_direct_data,
            send_direct_data_no_buf,
            load_custom_soundfonts_list,
        },
    )
}

/// `load` may have failed on the candidate at `j` on `platform`.
pub open spec fn failed_at<L, E, F: Fn(&str) -> Result<L, E>>(
    load: &F,
    platform: Platform,
    j: int,
) -> bool {
    exists|name: &str| name@ == candidates_of(platform)[j] && #[trigger] may_fail(load, name)
}

/// `load` may have returned `lib` for the candidate at `i` on `platform`.
pub open spec fn loaded_at<L, E, F: Fn(&str) -> Result<L, E>>(
    load: &F,
    platform: Platform,
    i: int,
    lib: L,
) -> bool {
    exists|name: &str| name@ == candidates_of(platform)[i] && #[trigger] load.ensures((name,), Ok(lib))
}

/// `lib` may be what trying the candidates of `platform` in order gives:
/// some candidate loaded to it, and each one before it failed.
pub open spec fn loaded_in_order<L, E, F: Fn(&str) -> Result<L, E>>(
    load: &F,
    platform: Platform,
    lib: L,
) -> bool {
    exists|i: int|
        0 <= i < candidates_of(platform).len() && #[trigger] loaded_at(load, platform, i, lib)
            && forall|j: int| 0 <= j < i ==> #[trigger] failed_at(load, platform, j)
}

proof fn lemma_failed_prefix<L, E, F: Fn(&str) -> Result<L, E>>(
    load: &F,
    platform: Platform,
    names: Seq<&str>,
    n: int,
)
    requires
        names.len() == candidates_of(platform).len(),
        forall|k: int| 0 <= k < names.len() ==> #[trigger] names[k]@ == candidates_of(platform)[k],
        0 <= n <= names.len(),
        all_failed_before(load, names, n),
    ensures
        forall|j: int| 0 <= j < n ==> #[trigger] failed_at(load, platform, j),
{
    assert forall|j: int| 0 <= j < n implies #[trigger] failed_at(load, platform, j) by {
        assert(may_fail(load, names[j]));
        assert(names[j]@ == candidates_of(platform)[j]);
    }
}

/// Loads the driver library for `platform` with `load`, trying the names of
/// `candidates_of` in order, then resolves every entry point in it with
/// `resolve`. A failure of either step is the error.
pub fn load_bindings<L, S, E, FL, FR>(platform: Platform, load: &FL, resolve: &FR) -> (r: Result<
    (L, SymbolTable<S>),
    LoadError<E>,
>) where FL: Fn(&str) -> Result<L, E>, FR: Fn(&L, EntryPoint) -> Result<S, E>
    requires
        forall|name: &str| #[trigger] load.requires((name,)),
        forall|lib: &L, e: EntryPoint| #[trigger] resolve.requires((lib, e)),
    ensures
        match r {
            Ok((lib, t)) => loaded_in_order(load, platform, lib) && forall|e: EntryPoint|
                #[trigger] resolve.ensures((&lib, e), Ok(t.entry(e))),
            Err(LoadError::LibraryLoad(error)) => (forall|j: int|
                0 <= j < candidates_of(platform).len() ==> #[trigger] failed_at(load, platform, j))
                && exists|name: &str|
                name@ == candidates_of(platform).last() && #[trigger] load.ensures(
                    (name,),
                    Err(error),
                ),
            Err(LoadError::SymbolResolution { entry, error }) => exists|lib: L|
                loaded_in_order(load, platform, lib) && #[trigger] resolve.ensures(
                    (&lib, entry),
                    Err(error),
                ),
        },
{
    let names = library_candidates(platform);
    let loaded = load_first(&names, load);
    let lib = match loaded {
        Ok(lib) => lib,
        Err(e) => {
            proof {
                lemma_failed_prefix(load, platform, names@, names@.len() as int);
                assert(names@[names@.len() - 1]@ == candidates_of(platform).last());
            }
            return Err(e);
        },
    };
    proof {
        let i = choose|i: int|
            0 <= i < names@.len() && load.ensures((names@[i],), Ok(lib)) && all_failed_before(
                load,
                names@,
                i,
            );
        lemma_failed_prefix(load, platform, names@, i);
        assert(names@[i]@ == candidates_of(platform)[i]);
        assert(loaded_at(load, platform, i, lib));
    }
    let bind = |e: EntryPoint| -> (s: Result<S, E>)
        ensures
            resolve.ensures((&lib, e), s),
        { resolve(&lib, e) };
    match bind_symbols(&bind) {
        Ok(t) => {
            assert forall|e: EntryPoint| #[trigger] resolve.ensures((&lib, e), Ok(t.entry(e))) by {
                assert(bind.ensures((e,), Ok(t.entry(e))));
            }
            Ok((lib, t))
        },
        Err(e) => {
            if let LoadError::SymbolResolution { entry, error } = &e {
                assert(bind.ensures((*entry,), Err(*error)));
            }
            Err(e)
        },
    }
}

} // verus!
