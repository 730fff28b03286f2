//! The startup sequence of a desktop application: which plugins are
//! attached to the application host and in what order, when the menu is
//! built and installed, and what becomes of the process when a step fails.
//!
//! The host itself is driven by the caller. It asks a [`Bootstrap`] for the
//! next action, performs it, and reports how it went.

mod lemmas;
mod plugin;
mod startup;

pub use plugin::{plugin_at, plugin_order, Plugin, PLUGIN_COUNT};
pub use startup::{
    action_of, fatal_diagnostic, fatal_message, initial_progress, next_progress, performed,
    run_outcomes, startup_steps, step_of, Action, Bootstrap, Outcome, Progress, Step,
    FAILURE_STATUS, STEP_COUNT,
};
pub use lemmas::{
    lemma_event_loop_failure_aborts, lemma_menu_before_event_loop,
    lemma_menu_failure_stops_startup, lemma_plugins_registered_in_order,
};
