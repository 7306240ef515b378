//! A lifecycle-aware frame scheduler for applications hosted by a mobile
//! platform, written without any input or output of its own.
//!
//! The host owns the window, the render and update source, the lifecycle
//! channel and the guest application. It reports each thing that happens as an
//! [`Event`] to [`AppContainer::run`], makes the [`GuestCall`]s that come back,
//! and reads from the container's [`Phase`] what to do next.

pub mod app_config;
pub mod app_container;
pub mod event;
pub mod guest;
pub mod laws;
pub mod scheduler;

pub use app_config::AppConfig;
pub use app_container::AppContainer;
pub use event::{Disconnected, Event, LifecycleEvent, Tick};
pub use guest::GuestCall;
pub use scheduler::{Phase, Scheduler};
