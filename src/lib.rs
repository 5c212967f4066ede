//! Per-category access to the operating system's locale state.
//!
//! The library holds the logic of the extended (per-thread) locale API:
//! how a logical [`Category`] maps onto the operating system's category
//! identifiers and bitmasks, how a locale identifier is turned into the
//! name handed to the OS and back, and the context-swap protocol that
//! constructs, installs and releases locale handles. The calls into the
//! OS itself are made by the caller, step by step, as the protocol asks.
pub mod category;
pub mod context;
pub mod locale;

pub use category::Category;
pub use context::{
    set_locale, set_locale_all, set_locale_from_env, Action, Event, SessionView, Stage, SwapSession,
};
pub use locale::{locale_from_query, Locale, LocaleError, LocaleView};


