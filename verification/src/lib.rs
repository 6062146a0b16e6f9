//! A change notifier: a wrapper around a value that lets any number of
//! observers wait for the next mutation of that value.
//!
//! The crate has two layers. [`event`] holds the broadcast wakeup primitive:
//! an [`event::Event`] hands out single-shot [`event::EventListener`] handles
//! and wakes every registered handle when it is fired. [`change_notifier`]
//! builds [`change_notifier::ChangeNotifier`] on top of it: a payload whose
//! every update fires the embedded event.

pub mod change_notifier;
pub mod event;
