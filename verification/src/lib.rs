//! Change detection and fan-out for a "now playing" notifier.
//!
//! A polling loop ([`app::App`]) asks a [`driver::Driver`] what is playing,
//! a [`detector::ChangeDetector`] filters out repeated samples, and a
//! [`dispatcher::Dispatcher`] hands every change to a set of independent
//! sinks over message channels. A [`lifecycle::LifecycleController`]
//! carries the exit signal that ends the loop and drains the sinks.
//!
//! The sinks ([`console`], [`file`], [`window`]) decide here what to show
//! for a state; printing, writing and drawing are left to their workers.

pub mod text;
pub mod song;
pub mod config;
pub mod detector;
pub mod driver;
pub mod channel;
pub mod lifecycle;
pub mod actor;
pub mod dispatcher;
pub mod app;
pub mod console;
pub mod file;
pub mod window;
pub mod color;
