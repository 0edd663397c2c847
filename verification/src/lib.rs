//! The decisions behind a web application window: which addresses stay inside the
//! window, what a site may use, what is remembered and what the page is served with.
//!
//! Every function here computes on plain values and states its result in full. The
//! program around the library shows the window, talks to the web engine and carries
//! out what the library decides.

#![allow(unused_imports)]

pub mod address;
pub mod details;
pub mod domains;
pub mod navigation;
pub mod permissions;
pub mod policy;
pub mod storage;
pub mod style;
pub mod text;
pub mod user_agent;
pub mod webview;
pub mod window;
