//! Safe access to the KDMAPI driver: locating its shared library, binding its
//! entry points all at once, and the single-stream ownership model.
pub mod binder;
pub mod encoding;
pub mod locator;
pub mod stream;

pub use binder::{bind_symbols, load_bindings, EntryPoint, SymbolTable};
pub use encoding::{encode_narrow, encode_path, encode_wide, EncodedPath};
pub use locator::{library_candidates, load_first, LoadError, Platform};
pub use stream::{Driver, KDMAPIBinds, KDMAPIStream, OpenError};
