//! The metadata of a distribution: what a `META.*` or `MYMETA.*` file says.

use vstd::prelude::*;

use crate::version_map::VersionMap;

verus! {

/// The version of the CPAN Meta Spec that a metadata file follows.
#[derive(Debug, Clone, Copy, PartialEq, Eq, Structural)]
pub enum SpecVersion {
    /// Version 1.0.
    V1_0,
    /// Version 1.1.
    V1_1,
    /// Version 1.2.
    V1_2,
    /// Version 1.3.
    V1_3,
    /// Version 1.4.
    V1_4,
    /// Version 2.
    V2,
}

/// The metadata of a distribution, as parsed from a `META.*` or `MYMETA.*` file.
#[derive(Debug, PartialEq, Eq)]
pub struct Meta {
    /// The distribution name, e.g. `Foo-Bar`.
    pub name: String,
    /// The distribution version, e.g. `1.23`.
    pub version: String,
    /// The version of the CPAN Meta Spec that the file follows.
    pub spec_version: SpecVersion,
    /// The prerequisites.
    pub prereqs: Prereqs,
}

/// The prerequisites of a distribution, by phase.
#[derive(Debug, PartialEq, Eq)]
pub struct Prereqs {
    /// Needed to run `Makefile.PL` / `Build.PL`.
    pub configure: Phase,
    /// Needed to build the distribution, after the configure step.
    pub build: Phase,
    /// Needed to run the test suite.
    pub test: Phase,
    /// Needed to use the installed distribution at run time.
    pub runtime: Phase,
    /// Needed only to work on the distribution itself.
    pub develop: Phase,
}

/// The prerequisites of one phase, by relationship.
#[derive(Debug, PartialEq, Eq)]
pub struct Phase {
    /// Hard requirements.
    pub requires: VersionMap,
    /// Optional; installed by default by most CPAN clients.
    pub recommends: VersionMap,
    /// Optional; not installed by default.
    pub suggests: VersionMap,
    /// Module/version combinations known to be incompatible.
    pub conflicts: VersionMap,
}

/// What a [`Phase`] says.
pub struct PhaseView {
    /// The requirements.
    pub requires: Map<Seq<char>, Seq<char>>,
    /// The recommendations.
    pub recommends: Map<Seq<char>, Seq<char>>,
    /// The suggestions.
    pub suggests: Map<Seq<char>, Seq<char>>,
    /// The conflicts.
    pub conflicts: Map<Seq<char>, Seq<char>>,
}

impl DeepView for Phase {
    type V = PhaseView;

    open spec fn deep_view(&self) -> PhaseView {
        PhaseView {
            requires: self.requires@,
            recommends: self.recommends@,
            suggests: self.suggests@,
            conflicts: self.conflicts@,
        }
    }
}

impl Default for Phase {
    /// No prerequisites.
    fn default() -> (r: Self)
        ensures
            r.deep_view() == (PhaseView {
                requires: Map::empty(),
                recommends: Map::empty(),
                suggests: Map::empty(),
                conflicts: Map::empty(),
            }),
    {
        Phase {
            requires: VersionMap::new(),
            recommends: VersionMap::new(),
            suggests: VersionMap::new(),
            conflicts: VersionMap::new(),
        }
    }
}

impl Clone for Phase {
    fn clone(&self) -> (r: Phase)
        ensures
            r.deep_view() == self.deep_view(),
    {
        Phase {
            requires: self.requires.clone(),
            recommends: self.recommends.clone(),
            suggests: self.suggests.clone(),
            conflicts: self.conflicts.clone(),
        }
    }
}

/// What a [`Prereqs`] says.
pub struct PrereqsView {
    /// The `configure` phase.
    pub configure: PhaseView,
    /// The `build` phase.
    pub build: PhaseView,
    /// The `test` phase.
    pub test: PhaseView,
    /// The `runtime` phase.
    pub runtime: PhaseView,
    /// The `develop` phase.
    pub develop: PhaseView,
}

impl DeepView for Prereqs {
    type V = PrereqsView;

    open spec fn deep_view(&self) -> PrereqsView {
        PrereqsView {
            configure: self.configure.deep_view(),
            build: self.build.deep_view(),
            test: self.test.deep_view(),
            runtime: self.runtime.deep_view(),
            develop: self.develop.deep_view(),
        }
    }
}

impl Default for Prereqs {
    /// No prerequisites.
    fn default() -> (r: Self)
        ensures
            ({
                let none = PhaseView {
                    requires: Map::empty(),
                    recommends: Map::empty(),
                    suggests: Map::empty(),
                    conflicts: Map::empty(),
                };
                r.deep_view() == PrereqsView {
                    configure: none,
                    build: none,
                    test: none,
                    runtime: none,
                    develop: none,
                }
            }),
    {
        Prereqs {
            configure: Phase::default(),
            build: Phase::default(),
            test: Phase::default(),
            runtime: Phase::default(),
            develop: Phase::default(),
        }
    }
}

impl Clone for Prereqs {
    fn clone(&self) -> (r: Prereqs)
        ensures
            r.deep_view() == self.deep_view(),
    {
        Prereqs {
            configure: self.configure.clone(),
            build: self.build.clone(),
            test: self.test.clone(),
            runtime: self.runtime.clone(),
            develop: self.develop.clone(),
        }
    }
}

/// What a [`Meta`] says.
pub struct MetaView {
    /// The distribution name.
    pub name: Seq<char>,
    /// The distribution version.
    pub version: Seq<char>,
    /// The version of the CPAN Meta Spec.
    pub spec_version: SpecVersion,
    /// The prerequisites.
    pub prereqs: PrereqsView,
}

impl DeepView for Meta {
    type V = MetaView;

    open spec fn deep_view(&self) -> MetaView {
        MetaView {
            name: self.name@,
            version: self.version@,
            spec_version: self.spec_version,
            prereqs: self.prereqs.deep_view(),
        }
    }
}

impl Clone for Meta {
    fn clone(&self) -> (r: Meta)
        ensures
            r.deep_view() == self.deep_view(),
    {
        Meta {
            name: self.name.clone(),
            version: self.version.clone(),
            spec_version: self.spec_version.clone(),
            prereqs: self.prereqs.clone(),
        }
    }
}

} // verus!
