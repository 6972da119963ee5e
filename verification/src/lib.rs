//! A terminal control panel for Mihomo: the part that decides, as verified code.

pub mod apply;
pub mod bulk;
pub mod client;
pub mod command;
pub mod config;
pub mod figures;
pub mod health;
pub mod hint;
pub mod json;
pub mod launch;
pub mod laws;
pub mod leave;
pub mod notes;
pub mod number;
pub mod order;
pub mod paths;
pub mod process;
pub mod profile;
pub mod proxies;
pub mod render;
pub mod report;
pub mod run;
pub mod runtime;
pub mod screen;
pub mod session;
pub mod subscription;
pub mod text;
pub mod tick;
pub mod tunnel;
pub mod update;
pub mod weburl;
pub mod yaml;
