//! Every prerequisite of a distribution, grouped by phase and relationship.

use vstd::prelude::*;

use crate::dependency;
use crate::dependency::{Dependency, DependencyView};
use crate::meta::{Meta, MetaView, Phase, PhaseView};
use crate::version_map::VersionMap;

verus! {

/// Every prerequisite of a distribution, grouped by phase and relationship.
///
/// This mirrors the CPAN Meta Spec `prereqs` structure (see
/// [`Prereqs`](crate::meta::Prereqs)), but with each group flattened to a plain
/// list of [`Dependency`], sorted by module name. Build it from a parsed [`Meta`]
/// with [`Dependencies::from_meta`]; the configure step of a distribution ends with
/// one.
#[derive(Debug, PartialEq, Eq)]
pub struct Dependencies {
    /// Needed to run `Makefile.PL` / `Build.PL`.
    pub configure: PhaseDependencies,
    /// Needed to build the distribution, after the configure step.
    pub build: PhaseDependencies,
    /// Needed to run the test suite.
    pub test: PhaseDependencies,
    /// Needed to use the installed distribution at run time.
    pub runtime: PhaseDependencies,
    /// Needed only to work on the distribution itself.
    pub develop: PhaseDependencies,
}

/// The prerequisites of a single phase, split by relationship.
#[derive(Debug, PartialEq, Eq)]
pub struct PhaseDependencies {
    /// Hard requirements.
    pub requires: Vec<Dependency>,
    /// Optional; installed by default by most CPAN clients.
    pub recommends: Vec<Dependency>,
    /// Optional; not installed by default.
    pub suggests: Vec<Dependency>,
    /// Module/version combinations known to be incompatible.
    pub conflicts: Vec<Dependency>,
}

/// What a [`PhaseDependencies`] says.
pub struct PhaseDependenciesView {
    /// The requirements.
    pub requires: Seq<DependencyView>,
    /// The recommendations.
    pub recommends: Seq<DependencyView>,
    /// The suggestions.
    pub suggests: Seq<DependencyView>,
    /// The conflicts.
    pub conflicts: Seq<DependencyView>,
}

impl DeepView for PhaseDependencies {
    type V = PhaseDependenciesView;

    open spec fn deep_view(&self) -> PhaseDependenciesView {
        PhaseDependenciesView {
            requires: self.requires.deep_view(),
            recommends: self.recommends.deep_view(),
            suggests: self.suggests.deep_view(),
            conflicts: self.conflicts.deep_view(),
        }
    }
}

impl Default for PhaseDependencies {
    /// No prerequisites.
    fn default() -> (r: Self)
        ensures
            r.deep_view() == (PhaseDependenciesView {
                requires: Seq::empty(),
                recommends: Seq::empty(),
                suggests: Seq::empty(),
                conflicts: Seq::empty(),
            }),
    {
        let r = PhaseDependencies {
            requires: Vec::new(),
            recommends: Vec::new(),
            suggests: Vec::new(),
            conflicts: Vec::new(),
        };
        assert(r.requires.deep_view() =~= Seq::<DependencyView>::empty());
        assert(r.recommends.deep_view() =~= Seq::<DependencyView>::empty());
        assert(r.suggests.deep_view() =~= Seq::<DependencyView>::empty());
        assert(r.conflicts.deep_view() =~= Seq::<DependencyView>::empty());
        r
    }
}

impl Clone for PhaseDependencies {
    fn clone(&self) -> (r: PhaseDependencies)
        ensures
            r.deep_view() == self.deep_view(),
    {
        PhaseDependencies {
            requires: dependency::clone_list(&self.requires),
            recommends: dependency::clone_list(&self.recommends),
            suggests: dependency::clone_list(&self.suggests),
            conflicts: dependency::clone_list(&self.conflicts),
        }
    }
}

/// What a [`Dependencies`] says.
pub struct DependenciesView {
    /// The `configure` phase.
    pub configure: PhaseDependenciesView,
    /// The `build` phase.
    pub build: PhaseDependenciesView,
    /// The `test` phase.
    pub test: PhaseDependenciesView,
    /// The `runtime` phase.
    pub runtime: PhaseDependenciesView,
    /// The `develop` phase.
    pub develop: PhaseDependenciesView,
}

impl DeepView for Dependencies {
    type V = DependenciesView;

    open spec fn deep_view(&self) -> DependenciesView {
        DependenciesView {
            configure: self.configure.deep_view(),
            build: self.build.deep_view(),
            test: self.test.deep_view(),
            runtime: self.runtime.deep_view(),
            develop: self.develop.deep_view(),
        }
    }
}

impl Default for Dependencies {
    /// No prerequisites.
    fn default() -> (r: Self)
        ensures
            ({
                let none = PhaseDependenciesView {
                    requires: Seq::empty(),
                    recommends: Seq::empty(),
                    suggests: Seq::empty(),
                    conflicts: Seq::empty(),
                };
                r.deep_view() == DependenciesView {
                    configure: none,
                    build: none,
                    test: none,
                    runtime: none,
                    develop: none,
                }
            }),
    {
        Dependencies {
            configure: PhaseDependencies::default(),
            build: PhaseDependencies::default(),
            test: PhaseDependencies::default(),
            runtime: PhaseDependencies::default(),
            develop: PhaseDependencies::default(),
        }
    }
}

impl Clone for Dependencies {
    fn clone(&self) -> (r: Dependencies)
        ensures
            r.deep_view() == self.deep_view(),
    {
        Dependencies {
            configure: self.configure.clone(),
            build: self.build.clone(),
            test: self.test.clone(),
            runtime: self.runtime.clone(),
            develop: self.develop.clone(),
        }
    }
}

/// The sorted lists of one phase.
pub open spec fn phase_dependencies(phase: PhaseView) -> PhaseDependenciesView {
    PhaseDependenciesView {
        requires: dependency::listing(phase.requires),
        recommends: dependency::listing(phase.recommends),
        suggests: dependency::listing(phase.suggests),
        conflicts: dependency::listing(phase.conflicts),
    }
}

/// The sorted lists of every phase of the metadata.
pub open spec fn dependencies_of(meta: MetaView) -> DependenciesView {
    DependenciesView {
        configure: phase_dependencies(meta.prereqs.configure),
        build: phase_dependencies(meta.prereqs.build),
        test: phase_dependencies(meta.prereqs.test),
        runtime: phase_dependencies(meta.prereqs.runtime),
        develop: phase_dependencies(meta.prereqs.develop),
    }
}

impl PhaseDependenciesView {
    /// Whether each list is the map of the same relationship, written down once in
    /// order of the module names.
    pub open spec fn is_listing_of(self, phase: PhaseView) -> bool {
        &&& dependency::is_listing(self.requires, phase.requires)
        &&& dependency::is_listing(self.recommends, phase.recommends)
        &&& dependency::is_listing(self.suggests, phase.suggests)
        &&& dependency::is_listing(self.conflicts, phase.conflicts)
    }
}

impl DependenciesView {
    /// Whether each list is the map of the same phase and relationship, written down
    /// once in order of the module names.
    pub open spec fn is_listing_of(self, meta: MetaView) -> bool {
        &&& self.configure.is_listing_of(meta.prereqs.configure)
        &&& self.build.is_listing_of(meta.prereqs.build)
        &&& self.test.is_listing_of(meta.prereqs.test)
        &&& self.runtime.is_listing_of(meta.prereqs.runtime)
        &&& self.develop.is_listing_of(meta.prereqs.develop)
    }
}

/// Each list of the prerequisites of some metadata is the listing of the map of that
/// phase and that relationship, and of no other.
pub proof fn law_every_group_is_listed(deps: DependenciesView, meta: MetaView)
    requires
        deps.is_listing_of(meta),
    ensures
        dependency::is_listing(deps.configure.requires, meta.prereqs.configure.requires),
        dependency::is_listing(deps.configure.recommends, meta.prereqs.configure.recommends),
        dependency::is_listing(deps.configure.suggests, meta.prereqs.configure.suggests),
        dependency::is_listing(deps.configure.conflicts, meta.prereqs.configure.conflicts),
        dependency::is_listing(deps.build.requires, meta.prereqs.build.requires),
        dependency::is_listing(deps.build.recommends, meta.prereqs.build.recommends),
        dependency::is_listing(deps.build.suggests, meta.prereqs.build.suggests),
        dependency::is_listing(deps.build.conflicts, meta.prereqs.build.conflicts),
        dependency::is_listing(deps.test.requires, meta.prereqs.test.requires),
        dependency::is_listing(deps.test.recommends, meta.prereqs.test.recommends),
        dependency::is_listing(deps.test.suggests, meta.prereqs.test.suggests),
        dependency::is_listing(deps.test.conflicts, meta.prereqs.test.conflicts),
        dependency::is_listing(deps.runtime.requires, meta.prereqs.runtime.requires),
        dependency::is_listing(deps.runtime.recommends, meta.prereqs.runtime.recommends),
        dependency::is_listing(deps.runtime.suggests, meta.prereqs.runtime.suggests),
        dependency::is_listing(deps.runtime.conflicts, meta.prereqs.runtime.conflicts),
        dependency::is_listing(deps.develop.requires, meta.prereqs.develop.requires),
        dependency::is_listing(deps.develop.recommends, meta.prereqs.develop.recommends),
        dependency::is_listing(deps.develop.suggests, meta.prereqs.develop.suggests),
        dependency::is_listing(deps.develop.conflicts, meta.prereqs.develop.conflicts),
{
}

/// The prerequisites of some metadata have no list from anywhere else.
pub proof fn law_every_group_has_its_place(meta: MetaView)
    ensures
        dependencies_of(meta).configure.requires == dependency::listing(meta.prereqs.configure.requires),
        dependencies_of(meta).configure.recommends == dependency::listing(meta.prereqs.configure.recommends),
        dependencies_of(meta).configure.suggests == dependency::listing(meta.prereqs.configure.suggests),
        dependencies_of(meta).configure.conflicts == dependency::listing(meta.prereqs.configure.conflicts),
        dependencies_of(meta).build.requires == dependency::listing(meta.prereqs.build.requires),
        dependencies_of(meta).build.recommends == dependency::listing(meta.prereqs.build.recommends),
        dependencies_of(meta).build.suggests == dependency::listing(meta.prereqs.build.suggests),
        dependencies_of(meta).build.conflicts == dependency::listing(meta.prereqs.build.conflicts),
        dependencies_of(meta).test.requires == dependency::listing(meta.prereqs.test.requires),
        dependencies_of(meta).test.recommends == dependency::listing(meta.prereqs.test.recommends),
        dependencies_of(meta).test.suggests == dependency::listing(meta.prereqs.test.suggests),
        dependencies_of(meta).test.conflicts == dependency::listing(meta.prereqs.test.conflicts),
        dependencies_of(meta).runtime.requires == dependency::listing(meta.prereqs.runtime.requires),
        dependencies_of(meta).runtime.recommends == dependency::listing(meta.prereqs.runtime.recommends),
        dependencies_of(meta).runtime.suggests == dependency::listing(meta.prereqs.runtime.suggests),
        dependencies_of(meta).runtime.conflicts == dependency::listing(meta.prereqs.runtime.conflicts),
        dependencies_of(meta).develop.requires == dependency::listing(meta.prereqs.develop.requires),
        dependencies_of(meta).develop.recommends == dependency::listing(meta.prereqs.develop.recommends),
        dependencies_of(meta).develop.suggests == dependency::listing(meta.prereqs.develop.suggests),
        dependencies_of(meta).develop.conflicts == dependency::listing(meta.prereqs.develop.conflicts),
{
}

impl Dependencies {
    /// Collect the `prereqs` of a parsed [`Meta`] (a `META.*` or `MYMETA.*`
    /// document) into a [`Dependencies`].
    pub fn from_meta(meta: &Meta) -> (r: Dependencies)
        ensures
            r.deep_view() == dependencies_of(meta.deep_view()),
            r.deep_view().is_listing_of(meta.deep_view()),
    {
        let p = &meta.prereqs;
        Dependencies {
            configure: PhaseDependencies::from_phase(&p.configure),
            build: PhaseDependencies::from_phase(&p.build),
            test: PhaseDependencies::from_phase(&p.test),
            runtime: PhaseDependencies::from_phase(&p.runtime),
            develop: PhaseDependencies::from_phase(&p.develop),
        }
    }
}

impl PhaseDependencies {
    fn from_phase(phase: &Phase) -> (r: PhaseDependencies)
        ensures
            r.deep_view() == phase_dependencies(phase.deep_view()),
            r.deep_view().is_listing_of(phase.deep_view()),
    {
        PhaseDependencies {
            requires: deps_from_map(&phase.requires),
            recommends: deps_from_map(&phase.recommends),
            suggests: deps_from_map(&phase.suggests),
            conflicts: deps_from_map(&phase.conflicts),
        }
    }
}

/// Convert a CPAN Meta `module => version-range` map into a sorted list of
/// [`Dependency`].
fn deps_from_map(map: &VersionMap) -> (r: Vec<Dependency>)
    ensures
        r.deep_view() == dependency::listing(map@),
        dependency::is_listing(r.deep_view(), map@),
{
    let r = dependency::clone_list(map.entries());
    proof {
        dependency::lemma_is_the_listing(r.deep_view(), map@);
    }
    r
}

} // verus!
