//! `headway` — sanctioned cloudbuild-only build primitive: the verified core.
//!
//! Every crate build is routed through `cloudbuild.sh`; nothing here ever
//! runs a local compiler.
//!
//! - [`paths`]: where `cloudbuild.sh` lives (`~/` expanded against the home directory).
//! - [`manifest`]: the crate's name, from its `Cargo.toml` or its directory.
//! - [`plan`]: planning as a state machine that the caller drives, and the [`types::BuildPlan`] with the command it would run.
//! - [`cloudbuild`]: the build's decisions as a state machine that the caller drives.
//! - [`artifact`]: the artifact path announced in the script's output.
//! - [`format`]: the plan and verdict tables.
//! - [`laws`]: properties of planning and building that hold on every input.
//! - [`text`], [`types`]: character-level helpers and the records with their views.

pub mod artifact;
pub mod cloudbuild;
pub mod format;
pub mod laws;
pub mod manifest;
pub mod parse_laws;
pub mod paths;
pub mod plan;
pub mod text;
pub mod types;
