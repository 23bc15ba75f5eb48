//! A verified core for an Elm-inspired ("model / update / view") GUI component
//! runtime.
//!
//! Components own a model, drive it through an `Uninitialized` → `Running` →
//! `ShuttingDown` → `Terminated` lifecycle, and serialize every model mutation
//! through a single logical thread of control: a FIFO message channel feeds an
//! update loop, the update loop refreshes the view after every step, and
//! asynchronous commands report back through the same channel. The toolkit
//! itself (widget construction, rendering, the main loop) stays outside this
//! crate behind the capability traits of [`traits`]; the scheduling decisions
//! — which message is processed next, when a component stops accepting input,
//! how a factory collection reconciles its displayed children — live here and
//! carry proofs.

pub mod alert;
pub mod channel;
pub mod component;
pub mod config;
pub mod counter;
pub mod factory;
pub mod controller;
pub mod shutdown;
pub mod traits;
