use std::cell::Cell;

use kdmapi::{bind_symbols, library_candidates, load_bindings, load_first, EntryPoint, LoadError, Platform};

#[test]
fn candidates_windows_prefer_namespaced_name() {
    assert_eq!(
        library_candidates(Platform::Windows),
        vec!["OmniMIDI\\OmniMIDI", "OmniMIDI"]
    );
}

#[test]
fn candidates_single_name_elsewhere() {
    assert_eq!(library_candidates(Platform::Linux), vec!["libOmniMIDI.so"]);
    assert_eq!(library_candidates(Platform::MacOs), vec!["libOmniMIDI.dylib"]);
}

#[test]
fn load_first_keeps_first_success_and_stops() {
    let names = library_candidates(Platform::Windows);
    let calls = Cell::new(0u32);
    let load = |name: &str| -> Result<String, String> {
        calls.set(calls.get() + 1);
        Ok(format!("lib:{}", name))
    };
    let r = load_first(&names, &load);
    assert!(matches!(r, Ok(ref l) if l == "lib:OmniMIDI\\OmniMIDI"));
    assert_eq!(calls.get(), 1);
}

#[test]
fn load_first_falls_back_to_bare_name() {
    let names = library_candidates(Platform::Windows);
    let load = |name: &str| -> Result<String, String> {
        if name == "OmniMIDI" {
            Ok("bare".to_string())
        } else {
            Err(format!("missing {}", name))
        }
    };
    assert!(matches!(load_first(&names, &load), Ok(ref l) if l == "bare"));
}

#[test]
fn load_first_reports_last_error_when_all_fail() {
    let names = library_candidates(Platform::Windows);
    let calls = Cell::new(0u32);
    let load = |name: &str| -> Result<String, String> {
        calls.set(calls.get() + 1);
        Err(format!("missing {}", name))
    };
    match load_first(&names, &load) {
        Err(LoadError::LibraryLoad(e)) => assert_eq!(e, "missing OmniMIDI"),
        other => panic!("unexpected {:?}", other),
    }
    assert_eq!(calls.get(), 2);
}

#[test]
fn entry_point_symbol_names() {
    assert_eq!(EntryPoint::IsAvailable.symbol(), "IsKDMAPIAvailable");
    assert_eq!(EntryPoint::InitializeStream.symbol(), "InitializeKDMAPIStream");
    assert_eq!(EntryPoint::TerminateStream.symbol(), "TerminateKDMAPIStream");
    assert_eq!(EntryPoint::ResetStream.symbol(), "ResetKDMAPIStream");
    assert_eq!(EntryPoint::SendDirectData.symbol(), "SendDirectData");
    assert_eq!(EntryPoint::SendDirectDataNoBuf.symbol(), "SendDirectDataNoBuf");
    assert_eq!(
        EntryPoint::LoadCustomSoundFontsList.symbol(),
        "LoadCustomSoundFontsList"
    );
}

#[test]
fn bind_symbols_resolves_all_seven() {
    let resolve = |e: EntryPoint| -> Result<String, String> { Ok(e.symbol().to_string()) };
    let t = bind_symbols(&resolve).expect("all symbols present");
    assert_eq!(t.is_available, "IsKDMAPIAvailable");
    assert_eq!(t.initialize_stream, "InitializeKDMAPIStream");
    assert_eq!(t.terminate_stream, "TerminateKDMAPIStream");
    assert_eq!(t.reset_stream, "ResetKDMAPIStream");
    assert_eq!(t.send_direct_data, "SendDirectData");
    assert_eq!(t.send_direct_data_no_buf, "SendDirectDataNoBuf");
    assert_eq!(t.load_custom_soundfonts_list, "LoadCustomSoundFontsList");
}

#[test]
fn bind_symbols_is_all_or_nothing() {
    let calls = Cell::new(0u32);
    let resolve = |e: EntryPoint| -> Result<u32, String> {
        calls.set(calls.get() + 1);
        if e == EntryPoint::ResetStream {
            Err("no ResetKDMAPIStream".to_string())
        } else {
            Ok(calls.get())
        }
    };
    match bind_symbols(&resolve) {
        Err(LoadError::SymbolResolution { entry, error }) => {
            assert_eq!(entry, EntryPoint::ResetStream);
            assert_eq!(error, "no ResetKDMAPIStream");
        }
        other => panic!("unexpected {:?}", other),
    }
    assert_eq!(calls.get(), 4);
}

#[test]
fn load_bindings_loads_then_binds() {
    let load = |name: &str| -> Result<String, String> { Ok(name.to_string()) };
    let resolve = |lib: &String, e: EntryPoint| -> Result<String, String> {
        Ok(format!("{}!{}", lib, e.symbol()))
    };
    let (lib, t) = load_bindings(Platform::Linux, &load, &resolve).expect("loads");
    assert_eq!(lib, "libOmniMIDI.so");
    assert_eq!(t.send_direct_data, "libOmniMIDI.so!SendDirectData");
    assert_eq!(
        t.load_custom_soundfonts_list,
        "libOmniMIDI.so!LoadCustomSoundFontsList"
    );
}

#[test]
fn load_bindings_reports_library_failure() {
    let load = |name: &str| -> Result<String, String> { Err(format!("cannot open {}", name)) };
    let resolve = |_: &String, _: EntryPoint| -> Result<u32, String> { Ok(1) };
    match load_bindings(Platform::MacOs, &load, &resolve) {
        Err(LoadError::LibraryLoad(e)) => assert_eq!(e, "cannot open libOmniMIDI.dylib"),
        other => panic!("unexpected {:?}", other),
    }
}

#[test]
fn load_bindings_reports_missing_symbol() {
    let load = |_: &str| -> Result<u8, String> { Ok(7) };
    let resolve = |_: &u8, e: EntryPoint| -> Result<u32, String> {
        if e == EntryPoint::LoadCustomSoundFontsList {
            Err("undefined symbol".to_string())
        } else {
            Ok(1)
        }
    };
    match load_bindings(Platform::Windows, &load, &resolve) {
        Err(LoadError::SymbolResolution { entry, error }) => {
            assert_eq!(entry, EntryPoint::LoadCustomSoundFontsList);
            assert_eq!(error, "undefined symbol");
        }
        other => panic!("unexpected {:?}", other),
    }
}
