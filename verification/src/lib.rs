//! The decision logic of a terminal client for a federated social network:
//! the sign-in flow, the timeline cursor, the text of the widgets and the
//! log collector, each with a machine-checked contract.

pub mod app;
pub mod authentication;
pub mod component;
pub mod decorator;
pub mod event;
pub mod home;
pub mod logging;
pub mod order;
pub mod pages;
pub mod root;
pub mod status;
pub mod style;
pub mod text;
pub mod view;
pub mod widgets;
