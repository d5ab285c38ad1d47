//! Locating an installed GDAL distribution and preparing the linkage,
//! staging and runtime configuration that follow from it.
//!
//! The library touches neither the file system nor the process
//! environment. It decides what is asked of them and what follows from
//! the answers:
//!
//! - `locator` asks one question at a time and settles on at most one
//!   installation; `phase` holds the fixed order of its search, `probe`
//!   the questions and answers, `layout` the paths of an installation;
//! - `discovery` states which installation a run ends with, and proves it;
//! - `emission` turns the installation into directives for the build
//!   toolchain;
//! - `staging` plans and reports the copies of the bundled library files;
//! - `runtime` shapes what the running application asks of the raster
//!   library;
//! - `notice` holds the diagnostics, `text` the helpers on path text.

pub mod discovery;
pub mod emission;
pub mod layout;
pub mod locator;
pub mod notice;
pub mod phase;
pub mod platform;
pub mod probe;
pub mod runtime;
pub mod staging;
pub mod text;
