//! Build and install a CPAN distribution programmatically.

pub mod build_tool;
pub mod building;
pub mod configuring;
pub mod dependencies;
pub mod dependency;
pub mod distribution;
pub mod error;
pub mod laws;
pub mod meta;
pub mod opening;
pub mod os_text;
pub mod perl;
pub mod protocol;
pub mod search;
pub mod text;
pub mod version_map;

pub use build_tool::BuildTool;
pub use building::Building;
pub use configuring::Configuring;
pub use dependencies::{Dependencies, PhaseDependencies};
pub use dependency::Dependency;
pub use distribution::Distribution;
pub use error::{BuildError, ParseFailure};
pub use meta::{Meta, Phase, Prereqs, SpecVersion};
pub use opening::Opening;
pub use os_text::OsText;
pub use perl::{Perl, PerlNotFound, SearchFailure};
pub use protocol::{ExecuteResult, Reply, Request, Step};
pub use search::MetaSearch;
pub use version_map::VersionMap;
