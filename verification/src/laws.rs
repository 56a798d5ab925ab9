//! What the operations come to as a whole, and what holds of the library.
//!
//! An operation asks its surroundings for one thing after another. Here the
//! surroundings are given at once, as a [`Surroundings`], and each operation is
//! followed to its end.

use vstd::prelude::*;

use crate::build_tool;
use crate::build_tool::BuildTool;
use crate::building;
use crate::building::BuildingView;
use crate::configuring;
use crate::configuring::ConfiguringView;
use crate::dependencies;
use crate::dependencies::DependenciesView;
use crate::dependency;
use crate::dependency::DependencyView;
use crate::distribution::DistributionView;
use crate::error::{BuildErrorView, ParseFailureView};
use crate::meta::MetaView;
use crate::opening;
use crate::opening::{OpeningStageView, OpeningView};
use crate::os_text;
use crate::perl::PerlView;
use crate::protocol::{ExecuteResult, ReplyView, RequestView, StepView};
use crate::search::MetaSearchView;

verus! {

/// What the surroundings of an operation answer.
pub struct Surroundings {
    /// Whether a directory holds a regular file of a name.
    pub is_file: spec_fn(Seq<u8>, Seq<char>) -> bool,
    /// What comes of parsing the metadata file of a name in a directory.
    pub parse: spec_fn(Seq<u8>, Seq<char>) -> Result<MetaView, Seq<char>>,
    /// What comes of a run of `perl` or `make`.
    pub run: spec_fn(RequestView) -> Result<ExecuteResult, Seq<char>>,
}

impl Surroundings {
    /// The answer to `request`.
    pub open spec fn reply(self, request: RequestView) -> ReplyView {
        match request {
            RequestView::IsFile { root, name } => ReplyView::IsFile((self.is_file)(root, name)),
            RequestView::ParseMeta { root, name } => ReplyView::Parsed((self.parse)(root, name)),
            RequestView::RunPerl { .. } => ReplyView::Ran((self.run)(request)),
            RequestView::RunMake { .. } => ReplyView::Ran((self.run)(request)),
        }
    }

    /// The first of `names` that is a file in `root`.
    pub open spec fn first_present(self, root: Seq<u8>, names: Seq<Seq<char>>) -> Option<Seq<char>>
        decreases names.len(),
    {
        if names.len() == 0 {
            None
        } else if (self.is_file)(root, names[0]) {
            Some(names[0])
        } else {
            self.first_present(root, names.drop_first())
        }
    }

    /// The metadata in the first of `names` that is a file in `root`.
    pub open spec fn meta_in(self, root: Seq<u8>, names: Seq<Seq<char>>) -> Result<
        Option<MetaView>,
        BuildErrorView,
    > {
        match self.first_present(root, names) {
            None => Ok(None),
            Some(name) => match (self.parse)(root, name) {
                Ok(meta) => Ok(Some(meta)),
                Err(cause) => Err(BuildErrorView::Unparsed(ParseFailureView { root, name, cause })),
            },
        }
    }
}

/// How many answers a search still waits for at most.
pub open spec fn search_distance(search: MetaSearchView) -> int {
    2 * (search.candidates.len() - search.next) - if search.found {
        1int
    } else {
        0
    }
}

/// A search in `root`, followed to its end.
pub open spec fn search_run(
    around: Surroundings,
    root: Seq<u8>,
    search: MetaSearchView,
) -> Result<Option<MetaView>, BuildErrorView>
    decreases search_distance(search),
    when 0 <= search.next < search.candidates.len()
{
    match search.after(root, around.reply(search.request(root))) {
        StepView::Pending(search) => search_run(around, root, search),
        StepView::Finished(result) => result,
    }
}

/// A search ends with the metadata in the first file that is there, whatever the
/// others hold; with none if none is there; and in an error if that first file
/// cannot be parsed.
pub proof fn law_search_takes_the_first(
    around: Surroundings,
    root: Seq<u8>,
    search: MetaSearchView,
)
    requires
        0 <= search.next < search.candidates.len(),
        !search.found,
    ensures
        search_run(around, root, search) == around.meta_in(
            root,
            search.candidates.skip(search.next),
        ),
    decreases search.candidates.len() - search.next,
{
    let names = search.candidates.skip(search.next);
    let name = search.candidates[search.next];
    assert(names[0] == name);
    if (around.is_file)(root, name) {
        let found = MetaSearchView { found: true, ..search };
        assert(search.after(root, around.reply(search.request(root))) == StepView::<
            MetaSearchView,
            Option<MetaView>,
        >::Pending(found));
        assert(search_run(around, root, search) == search_run(around, root, found));
    } else {
        let later = MetaSearchView { next: search.next + 1, ..search };
        assert(names.drop_first() =~= search.candidates.skip(later.next));
        if later.next < search.candidates.len() {
            law_search_takes_the_first(around, root, later);
        } else {
            assert(names.drop_first().len() == 0);
            assert(around.first_present(root, names.drop_first()) is None);
        }
    }
}

/// Of the names tried, the first that is there is a file, those before it are not;
/// and if none is first, none is there.
pub proof fn law_first_present(around: Surroundings, root: Seq<u8>, names: Seq<Seq<char>>)
    ensures
        match around.first_present(root, names) {
            Some(name) => exists|i: int|
                {
                    &&& 0 <= i < names.len()
                    &&& #[trigger] names[i] == name
                    &&& (around.is_file)(root, name)
                    &&& forall|j: int| 0 <= j < i ==> !(around.is_file)(root, #[trigger] names[j])
                },
            None => forall|j: int|
                0 <= j < names.len() ==> !(around.is_file)(root, #[trigger] names[j]),
        },
    decreases names.len(),
{
    if names.len() > 0 {
        let rest = names.drop_first();
        assert forall|j: int| 0 < j < names.len() implies #[trigger] names[j] == rest[j - 1] by {}
        if !(around.is_file)(root, names[0]) {
            law_first_present(around, root, rest);
            if let Some(name) = around.first_present(root, rest) {
                let i = choose|i: int|
                    {
                        &&& 0 <= i < rest.len()
                        &&& #[trigger] rest[i] == name
                        &&& (around.is_file)(root, name)
                        &&& forall|j: int|
                            0 <= j < i ==> !(around.is_file)(root, #[trigger] rest[j])
                    };
                assert(names[i + 1] == name);
            }
        }
    }
}

/// How many answers an opening still waits for at most.
pub open spec fn opening_distance(at: OpeningStageView) -> int {
    match at {
        OpeningStageView::Meta(search) => 2 + search_distance(search),
        OpeningStageView::BuildPl(_) => 2,
        OpeningStageView::MakefilePl(..) => 1,
    }
}

/// Whether the search of an opening stands at one of its candidates.
pub open spec fn opening_in_range(at: OpeningStageView) -> bool {
    at matches OpeningStageView::Meta(search) ==> 0 <= search.next < search.candidates.len()
}

/// An opening, followed to its end.
pub open spec fn opening_run(around: Surroundings, at: OpeningView) -> Result<
    DistributionView,
    BuildErrorView,
>
    decreases opening_distance(at.stage),
    when opening_in_range(at.stage)
{
    match at.after(around.reply(at.request())) {
        StepView::Pending(at) => opening_run(around, at),
        StepView::Finished(result) => result,
    }
}

/// What opening the directory `root` comes to: an error if there is no metadata or it
/// cannot be parsed, an error if there is no configure script, and otherwise the
/// distribution with that metadata and the build tool of its scripts.
pub open spec fn opening_outcome(
    around: Surroundings,
    root: Seq<u8>,
    perl: PerlView,
    prefer: BuildTool,
) -> Result<DistributionView, BuildErrorView> {
    match around.meta_in(root, opening::meta_names()) {
        Err(error) => Err(error),
        Ok(None) => Err(BuildErrorView::NoMeta { root }),
        Ok(Some(meta)) => match opening::tool_for(
            (around.is_file)(root, "Build.PL"@),
            (around.is_file)(root, "Makefile.PL"@),
            prefer,
        ) {
            Some(tool) => Ok(opening::opened(root, perl, meta, tool)),
            None => Err(BuildErrorView::NoConfigureScript { root }),
        },
    }
}

/// Opening with a preference comes to what [`opening_outcome`] says.
pub proof fn law_opening_comes_to(
    around: Surroundings,
    root: Seq<u8>,
    perl: PerlView,
    prefer: BuildTool,
)
    ensures
        opening_run(around, opening::opening(root, perl, prefer)) == opening_outcome(
            around,
            root,
            perl,
            prefer,
        ),
{
    let start = opening::opening(root, perl, prefer);
    let search = start.stage->Meta_0;
    lemma_opening_search(around, start);
    law_search_takes_the_first(around, root, search);
    assert(search.candidates.skip(0) =~= opening::meta_names());
    if let Ok(Some(meta)) = search_run(around, root, search) {
        let at = OpeningView { stage: OpeningStageView::BuildPl(meta), ..start };
        let has_build_pl = (around.is_file)(root, "Build.PL"@);
        let next = OpeningView {
            stage: OpeningStageView::MakefilePl(meta, has_build_pl),
            ..start
        };
        assert(at.after(around.reply(at.request())) == StepView::<
            OpeningView,
            DistributionView,
        >::Pending(next));
        assert(opening_run(around, at) == opening_run(around, next));
    }
}

/// An opening that looks for the metadata goes on as its search ends.
proof fn lemma_opening_search(around: Surroundings, at: OpeningView)
    requires
        at.stage is Meta,
        opening_in_range(at.stage),
    ensures
        opening_run(around, at) == match search_run(around, at.root, at.stage->Meta_0) {
            Ok(Some(meta)) => opening_run(
                around,
                OpeningView { stage: OpeningStageView::BuildPl(meta), ..at },
            ),
            Ok(None) => Err(BuildErrorView::NoMeta { root: at.root }),
            Err(error) => Err(error),
        },
    decreases opening_distance(at.stage),
{
    let search = at.stage->Meta_0;
    let reply = around.reply(search.request(at.root));
    if let StepView::Pending(later) = search.after(at.root, reply) {
        let next = OpeningView { stage: OpeningStageView::Meta(later), ..at };
        lemma_opening_search(around, next);
        assert(OpeningView { stage: OpeningStageView::Meta(search), ..at } == at);
    }
}

/// How many answers a configure step still waits for at most.
pub open spec fn configure_distance(at: ConfiguringView) -> int {
    match at {
        ConfiguringView::Script => 7,
        ConfiguringView::Run => 6,
        ConfiguringView::Mymeta(_, search) => search_distance(search),
    }
}

/// Whether the search of a configure step stands at one of its candidates.
pub open spec fn configure_in_range(at: ConfiguringView) -> bool {
    at matches ConfiguringView::Mymeta(_, search) ==> 0 <= search.next < search.candidates.len()
}

/// A configure step, followed to its end: `before` is how the surroundings answer
/// until the script has run, `after` how they answer from then on. It ends with the
/// distribution as the step leaves it, and with its result.
pub open spec fn configure_run(
    before: Surroundings,
    after: Surroundings,
    dist: DistributionView,
    at: ConfiguringView,
) -> (DistributionView, Result<(ExecuteResult, DependenciesView), BuildErrorView>)
    decreases configure_distance(at),
    when configure_in_range(at)
{
    let around = if at is Mymeta {
        after
    } else {
        before
    };
    match dist.after_configure(at, around.reply(dist.configure_request(at))) {
        (dist, StepView::Pending(at)) => configure_run(before, after, dist, at),
        (dist, StepView::Finished(result)) => (dist, result),
    }
}

/// What the configure step of `dist` comes to: an error if the script is missing, if
/// `perl` cannot be run, or if a metadata file that it leaves cannot be parsed; and
/// otherwise the result of the run, however it ended, with the prerequisites of the
/// generated metadata, or of the static metadata if none was generated.
pub open spec fn configure_outcome(
    before: Surroundings,
    after: Surroundings,
    dist: DistributionView,
) -> (DistributionView, Result<(ExecuteResult, DependenciesView), BuildErrorView>) {
    let run = RequestView::RunPerl { perl: dist.perl, args: dist.configure_args() };
    if !(before.is_file)(dist.root, dist.build_tool.script()) {
        (dist, Err(BuildErrorView::ScriptNotFound { tool: dist.build_tool, root: dist.root }))
    } else {
        match (before.run)(run) {
            Err(cause) => (dist, Err(BuildErrorView::NotRun { cause })),
            Ok(result) => match after.meta_in(dist.root, configuring::mymeta_names()) {
                Err(error) => (dist, Err(error)),
                Ok(found) => (dist.with_mymeta(found), Ok((result, dist.resolved(found)))),
            },
        }
    }
}

/// The configure step comes to what [`configure_outcome`] says.
pub proof fn law_configure_comes_to(
    before: Surroundings,
    after: Surroundings,
    dist: DistributionView,
)
    ensures
        configure_run(before, after, dist, ConfiguringView::Script) == configure_outcome(
            before,
            after,
            dist,
        ),
{
    let run = RequestView::RunPerl { perl: dist.perl, args: dist.configure_args() };
    if (before.is_file)(dist.root, dist.build_tool.script()) {
        assert(configure_run(before, after, dist, ConfiguringView::Script) == configure_run(
            before,
            after,
            dist,
            ConfiguringView::Run,
        ));
        if let Ok(result) = (before.run)(run) {
            let search = configuring::mymeta_search();
            lemma_configure_search(before, after, dist, result, search);
            law_search_takes_the_first(after, dist.root, search);
            assert(search.candidates.skip(0) =~= configuring::mymeta_names());
        }
    }
}

/// A configure step that looks for the generated metadata ends as its search ends.
proof fn lemma_configure_search(
    before: Surroundings,
    after: Surroundings,
    dist: DistributionView,
    result: ExecuteResult,
    search: MetaSearchView,
)
    requires
        0 <= search.next < search.candidates.len(),
    ensures
        configure_run(before, after, dist, ConfiguringView::Mymeta(result, search))
            == match search_run(after, dist.root, search) {
            Err(error) => (dist, Err(error)),
            Ok(found) => (dist.with_mymeta(found), Ok((result, dist.resolved(found)))),
        },
    decreases configure_distance(ConfiguringView::Mymeta(result, search)),
{
    let reply = after.reply(search.request(dist.root));
    if let StepView::Pending(later) = search.after(dist.root, reply) {
        lemma_configure_search(before, after, dist, result, later);
    }
}

/// Reading the generated metadata, followed to its end.
pub open spec fn mymeta_run(
    around: Surroundings,
    dist: DistributionView,
    search: MetaSearchView,
) -> (DistributionView, Result<MetaView, BuildErrorView>)
    decreases search_distance(search),
    when 0 <= search.next < search.candidates.len()
{
    match dist.after_mymeta(search, around.reply(search.request(dist.root))) {
        (dist, StepView::Pending(search)) => mymeta_run(around, dist, search),
        (dist, StepView::Finished(result)) => (dist, result),
    }
}

/// Reading the generated metadata of `dist` stores and returns what is in
/// `MYMETA.json`, or in `MYMETA.yml` when there is no `MYMETA.json`. It is an error if
/// neither is there or the one that is found cannot be parsed, and the distribution
/// stays as it was.
pub proof fn law_mymeta_comes_to(around: Surroundings, dist: DistributionView)
    ensures
        mymeta_run(around, dist, configuring::mymeta_search()) == match around.meta_in(
            dist.root,
            configuring::mymeta_names(),
        ) {
            Ok(Some(meta)) => (
                DistributionView { distribution_mymeta: Some(meta), ..dist },
                Ok::<MetaView, BuildErrorView>(meta),
            ),
            Ok(None) => (dist, Err(BuildErrorView::NoMymeta { root: dist.root })),
            Err(error) => (dist, Err(error)),
        },
{
    let search = configuring::mymeta_search();
    lemma_mymeta_search(around, dist, search);
    law_search_takes_the_first(around, dist.root, search);
    assert(search.candidates.skip(0) =~= configuring::mymeta_names());
}

/// Reading the generated metadata ends as its search ends.
proof fn lemma_mymeta_search(around: Surroundings, dist: DistributionView, search: MetaSearchView)
    requires
        0 <= search.next < search.candidates.len(),
    ensures
        mymeta_run(around, dist, search) == match search_run(around, dist.root, search) {
            Ok(Some(meta)) => (
                DistributionView { distribution_mymeta: Some(meta), ..dist },
                Ok::<MetaView, BuildErrorView>(meta),
            ),
            Ok(None) => (dist, Err(BuildErrorView::NoMymeta { root: dist.root })),
            Err(error) => (dist, Err(error)),
        },
    decreases search_distance(search),
{
    let reply = around.reply(search.request(dist.root));
    if let StepView::Pending(later) = search.after(dist.root, reply) {
        lemma_mymeta_search(around, dist, later);
    }
}

/// A step of the generated build script, followed to its end.
pub open spec fn build_run(around: Surroundings, dist: DistributionView, at: BuildingView) -> Result<
    ExecuteResult,
    BuildErrorView,
>
    decreases
            if at.found {
                0int
            } else {
                1
            },
{
    match dist.after_build(at, around.reply(dist.build_request(at))) {
        StepView::Pending(at) => build_run(around, dist, at),
        StepView::Finished(result) => result,
    }
}

/// A build, test, install or clean step is an error when the configure step has not
/// generated its `Makefile` or `Build`. Otherwise it ends with the result of a run,
/// however that ended, and is an error only if the run could not be started.
pub proof fn law_build_comes_to(
    around: Surroundings,
    dist: DistributionView,
    target: Option<Seq<char>>,
)
    ensures
        build_run(around, dist, building::building(target)) == if !(around.is_file)(
            dist.root,
            dist.build_tool.generated(),
        ) {
            Err(BuildErrorView::NotConfigured { tool: dist.build_tool, root: dist.root })
        } else {
            match (around.run)(dist.build_run(target)) {
                Ok(result) => Ok(result),
                Err(cause) => Err(BuildErrorView::NotRun { cause }),
            }
        },
{
    let found = BuildingView { target, found: true };
    if (around.is_file)(dist.root, dist.build_tool.generated()) {
        assert(build_run(around, dist, building::building(target)) == build_run(
            around,
            dist,
            found,
        ));
    }
}

/// Whether `request` asks for a run.
pub open spec fn is_run(request: RequestView) -> bool {
    request is RunPerl || request is RunMake
}

/// The runs that a configure step asks for, in order, when it is followed to its end as
/// in [`configure_run`].
pub open spec fn configure_commands(
    before: Surroundings,
    after: Surroundings,
    dist: DistributionView,
    at: ConfiguringView,
) -> Seq<RequestView>
    decreases configure_distance(at),
    when configure_in_range(at)
{
    let around = if at is Mymeta {
        after
    } else {
        before
    };
    let request = dist.configure_request(at);
    let asked = if is_run(request) {
        seq![request]
    } else {
        Seq::empty()
    };
    match dist.after_configure(at, around.reply(request)) {
        (dist, StepView::Pending(at)) => asked + configure_commands(before, after, dist, at),
        (_, StepView::Finished(_)) => asked,
    }
}

/// A configure step runs one command, `perl` with the script and the pure-Perl flag if
/// it is set, and none at all where the script is missing.
pub proof fn law_configure_runs_one_command(
    before: Surroundings,
    after: Surroundings,
    dist: DistributionView,
)
    ensures
        configure_commands(before, after, dist, ConfiguringView::Script) == if (before.is_file)(
            dist.root,
            dist.build_tool.script(),
        ) {
            seq![RequestView::RunPerl { perl: dist.perl, args: dist.configure_args() }]
        } else {
            Seq::empty()
        },
{
    let run = RequestView::RunPerl { perl: dist.perl, args: dist.configure_args() };
    if (before.is_file)(dist.root, dist.build_tool.script()) {
        let rest = configure_commands(before, after, dist, ConfiguringView::Run);
        assert(configure_commands(before, after, dist, ConfiguringView::Script)
            == Seq::<RequestView>::empty() + rest);
        if let Ok(result) = (before.run)(run) {
            let search = configuring::mymeta_search();
            lemma_search_runs_nothing(before, after, dist, result, search);
            assert(rest == seq![run] + Seq::<RequestView>::empty());
        }
        assert(rest =~= seq![run]);
    }
}

/// A configure step that looks for the generated metadata runs nothing more.
proof fn lemma_search_runs_nothing(
    before: Surroundings,
    after: Surroundings,
    dist: DistributionView,
    result: ExecuteResult,
    search: MetaSearchView,
)
    requires
        0 <= search.next < search.candidates.len(),
    ensures
        configure_commands(before, after, dist, ConfiguringView::Mymeta(result, search))
            == Seq::<RequestView>::empty(),
    decreases search_distance(search),
{
    let reply = after.reply(search.request(dist.root));
    if let StepView::Pending(later) = search.after(dist.root, reply) {
        lemma_search_runs_nothing(before, after, dist, result, later);
    }
}

/// The runs that a step of the generated build script asks for, in order, when it is
/// followed to its end as in [`build_run`].
pub open spec fn build_commands(
    around: Surroundings,
    dist: DistributionView,
    at: BuildingView,
) -> Seq<RequestView>
    decreases
            if at.found {
                0int
            } else {
                1
            },
{
    let request = dist.build_request(at);
    let asked = if is_run(request) {
        seq![request]
    } else {
        Seq::empty()
    };
    match dist.after_build(at, around.reply(request)) {
        StepView::Pending(at) => asked + build_commands(around, dist, at),
        StepView::Finished(_) => asked,
    }
}

/// A build, test, install or clean step runs one command, that of its target, and none
/// at all where the configure step has not generated its `Makefile` or `Build`.
pub proof fn law_build_runs_one_command(
    around: Surroundings,
    dist: DistributionView,
    target: Option<Seq<char>>,
)
    ensures
        build_commands(around, dist, building::building(target)) == if (around.is_file)(
            dist.root,
            dist.build_tool.generated(),
        ) {
            seq![dist.build_run(target)]
        } else {
            Seq::empty()
        },
{
    if (around.is_file)(dist.root, dist.build_tool.generated()) {
        let found = BuildingView { target, found: true };
        let rest = build_commands(around, dist, found);
        assert(build_commands(around, dist, building::building(target))
            == Seq::<RequestView>::empty() + rest);
        assert(rest =~= seq![dist.build_run(target)]);
    }
}

/// Opening a distribution and reading the generated metadata run nothing.
pub proof fn law_reading_runs_nothing(
    opening: OpeningView,
    search: MetaSearchView,
    root: Seq<u8>,
)
    ensures
        !is_run(opening.request()),
        !is_run(search.request(root)),
{
}

/// Of two names the second is looked at only when the first is not there: metadata
/// comes from the `.json` file if there is one, else from the `.yml` file if there is
/// one.
pub proof fn law_json_before_yml(
    around: Surroundings,
    root: Seq<u8>,
    json: Seq<char>,
    yml: Seq<char>,
)
    ensures
        around.first_present(root, seq![json, yml]) == if (around.is_file)(root, json) {
            Some(json)
        } else if (around.is_file)(root, yml) {
            Some(yml)
        } else {
            None
        },
{
    let names = seq![json, yml];
    assert(names.drop_first() =~= seq![yml]);
    assert(names.drop_first().drop_first().len() == 0);
    reveal_with_fuel(Surroundings::first_present, 3);
}

/// The metadata files have plain names, so that an error about one spells it as the
/// directory with the name adjoined.
pub proof fn law_metadata_files_have_plain_names(name: Seq<char>)
    requires
        opening::meta_names().contains(name) || configuring::mymeta_names().contains(name),
    ensures
        os_text::is_file_name(name),
{
    reveal_strlit("META.json");
    reveal_strlit("META.yml");
    reveal_strlit("MYMETA.json");
    reveal_strlit("MYMETA.yml");
}

/// A preference counts only where both scripts are there: with one of the two, an
/// opening comes to the same whatever is preferred.
pub proof fn law_single_script_wins(
    around: Surroundings,
    root: Seq<u8>,
    perl: PerlView,
    prefer: BuildTool,
    instead: BuildTool,
)
    requires
        (around.is_file)(root, "Build.PL"@) != (around.is_file)(root, "Makefile.PL"@),
    ensures
        opening_outcome(around, root, perl, prefer) == opening_outcome(around, root, perl, instead),
{
}

/// What holds of a distribution that was opened: it has the directory and the
/// interpreter that were given, which now runs in that directory; the metadata is what
/// was found there; the configure script of its build tool is there; the build tool is
/// the preferred one if both scripts are there; nothing was generated yet; and a
/// pure-Perl build is not forced.
pub proof fn law_opened_distribution(
    around: Surroundings,
    root: Seq<u8>,
    perl: PerlView,
    prefer: BuildTool,
)
    ensures
        opening_outcome(around, root, perl, prefer) matches Ok(dist) ==> {
            &&& dist.root == root
            &&& dist.perl == (PerlView { current_dir: Some(root), ..perl })
            &&& around.meta_in(root, opening::meta_names()) == Ok::<
                Option<MetaView>,
                BuildErrorView,
            >(Some(dist.distribution_meta))
            &&& dist.distribution_mymeta is None
            &&& !dist.pure_perl
            &&& (around.is_file)(root, dist.build_tool.script())
            &&& (around.is_file)(root, "Build.PL"@) && (around.is_file)(root, "Makefile.PL"@)
                ==> dist.build_tool == prefer
        },
{
}

/// A distribution that was just opened has its configure script: its configure step
/// does not fail for want of it.
pub proof fn law_opened_distribution_can_be_configured(
    around: Surroundings,
    after: Surroundings,
    root: Seq<u8>,
    perl: PerlView,
    prefer: BuildTool,
)
    ensures
        opening_outcome(around, root, perl, prefer) matches Ok(dist) ==> !(configure_outcome(
            around,
            after,
            dist,
        ).1 matches Err(BuildErrorView::ScriptNotFound { .. })),
{
    law_opened_distribution(around, root, perl, prefer);
    if let Ok(dist) = opening_outcome(around, root, perl, prefer) {
        assert(!(after.meta_in(dist.root, configuring::mymeta_names()) matches Err(
            BuildErrorView::ScriptNotFound { .. },
        )));
    }
}

/// The configure step changes nothing of a distribution but its generated metadata,
/// and that only to metadata that was found and parsed. In particular the interpreter
/// still runs where it ran.
pub proof fn law_configure_changes_only_mymeta(
    before: Surroundings,
    after: Surroundings,
    dist: DistributionView,
)
    ensures
        ({
            let (then, result) = configure_outcome(before, after, dist);
            &&& then == DistributionView { distribution_mymeta: then.distribution_mymeta, ..dist }
            &&& result is Err ==> then == dist
            &&& then.distribution_mymeta != dist.distribution_mymeta ==> after.meta_in(
                dist.root,
                configuring::mymeta_names(),
            ) == Ok::<Option<MetaView>, BuildErrorView>(then.distribution_mymeta)
        }),
{
}

/// An exit status is never an error: once `perl` has run, however it ended, the
/// configure step hands its result on, unless generated metadata is there that cannot
/// be parsed.
pub proof fn law_exit_status_is_no_error(
    before: Surroundings,
    after: Surroundings,
    dist: DistributionView,
    result: ExecuteResult,
)
    requires
        (before.is_file)(dist.root, dist.build_tool.script()),
        (before.run)(RequestView::RunPerl { perl: dist.perl, args: dist.configure_args() }) == Ok::<
            ExecuteResult,
            Seq<char>,
        >(result),
        after.meta_in(dist.root, configuring::mymeta_names()) is Ok,
    ensures
        configure_outcome(before, after, dist).1 matches Ok((reported, _)) && reported == result,
{
}

/// The prerequisites that a configure step ends with are those of the generated
/// metadata if there is any afterwards, and those of the static metadata if there is
/// none, even where metadata of an earlier configure step is still at hand.
pub proof fn law_configure_dependencies(
    before: Surroundings,
    after: Surroundings,
    dist: DistributionView,
)
    ensures
        configure_outcome(before, after, dist).1 matches Ok((_, deps)) ==> match after.meta_in(
            dist.root,
            configuring::mymeta_names(),
        ) {
            Ok(Some(meta)) => deps == dependencies::dependencies_of(meta)
                && configure_outcome(before, after, dist).0.distribution_mymeta == Some(meta),
            Ok(None) => deps == dependencies::dependencies_of(dist.distribution_meta)
                && configure_outcome(before, after, dist).0 == dist,
            Err(_) => false,
        },
{
}

/// The pure-Perl flag of the build tool is passed to the configure script exactly if a
/// pure-Perl build is forced, behind the script and with nothing else; and it makes no
/// difference to the later steps.
pub proof fn law_pure_perl_is_a_configure_argument(
    dist: DistributionView,
    pure_perl: bool,
    target: Option<Seq<char>>,
)
    ensures
        dist.configure_args()[0] == dist.build_tool.script(),
        dist.configure_args().len() == if dist.pure_perl {
            2int
        } else {
            1
        },
        dist.pure_perl ==> dist.configure_args()[1] == dist.build_tool.pure_perl_flag(),
        dist.configure_args().contains(dist.build_tool.pure_perl_flag()) <==> dist.pure_perl,
        (DistributionView { pure_perl, ..dist }).build_run(target) == dist.build_run(target),
{
    reveal_strlit("Makefile.PL");
    reveal_strlit("Build.PL");
    reveal_strlit("PUREPERL_ONLY=1");
    reveal_strlit("--pureperl-only");
    let args = dist.configure_args();
    assert(dist.build_tool.script().len() != dist.build_tool.pure_perl_flag().len());
    if dist.pure_perl {
        assert(args[1] == dist.build_tool.pure_perl_flag());
    }
}

/// The commands of the lifecycle: `perl Makefile.PL` and then `make`, `make test`,
/// `make install`, `make clean`; or `perl Build.PL` and then `perl Build`,
/// `perl Build test`, `perl Build install`, `perl Build clean`. All run through the
/// interpreter of the distribution.
pub proof fn law_lifecycle_commands(dist: DistributionView, target: Seq<char>)
    requires
        !dist.pure_perl,
    ensures
        dist.build_tool == BuildTool::Eumm ==> {
            &&& dist.configure_args() == seq!["Makefile.PL"@]
            &&& dist.build_run(None) == (RequestView::RunMake { perl: dist.perl, target: None })
            &&& dist.build_run(Some(target)) == (RequestView::RunMake {
                perl: dist.perl,
                target: Some(target),
            })
        },
        dist.build_tool == BuildTool::ModuleBuild ==> {
            &&& dist.configure_args() == seq!["Build.PL"@]
            &&& dist.build_run(None) == (RequestView::RunPerl {
                perl: dist.perl,
                args: seq!["Build"@],
            })
            &&& dist.build_run(Some(target)) == (RequestView::RunPerl {
                perl: dist.perl,
                args: seq!["Build"@, target],
            })
        },
{
}

/// What must be installed before the configure step: every `configure` requirement
/// but `perl`, each in the version range of the metadata; never `perl`; always
/// something that provides the build tool; and nothing else, but the tool itself in any
/// version where no requirement provides it.
pub proof fn law_before_configure(tool: BuildTool, required: Map<Seq<char>, Seq<char>>)
    ensures
        ({
            let needed = build_tool::before_configure(tool, required);
            let named = exists|module: Seq<char>| #[trigger]
                required.contains_key(module) && module != "perl"@ && tool.provided_by(module);
            &&& !needed.contains_key("perl"@)
            &&& forall|module: Seq<char>| #[trigger]
                required.contains_key(module) && module != "perl"@ ==> needed.contains_key(module)
                    && needed[module] == required[module]
            &&& exists|module: Seq<char>| #[trigger]
                needed.contains_key(module) && tool.provided_by(module)
            &&& forall|module: Seq<char>| #[trigger]
                needed.contains_key(module) ==> required.contains_key(module) || (!named && module
                    == tool.fallback() && needed[module] == "0"@)
            &&& named ==> needed == required.remove("perl"@)
        }),
{
    let needed = build_tool::before_configure(tool, required);
    let kept = required.remove("perl"@);
    reveal_strlit("perl");
    reveal_strlit("Module::Build");
    reveal_strlit("ExtUtils::MakeMaker");
    assert(tool.fallback().len() != "perl"@.len());
    build_tool::law_fallback_provides_its_tool_only(tool, tool);
    assert forall|module: Seq<char>| #[trigger]
        required.contains_key(module) && module != "perl"@ implies kept.contains_key(module) by {}
    if exists|module: Seq<char>| #[trigger]
        kept.contains_key(module) && tool.provided_by(module) {
        let module = choose|module: Seq<char>| #[trigger]
            kept.contains_key(module) && tool.provided_by(module);
        assert(required.contains_key(module));
        assert(needed.contains_key(module));
    } else {
        assert(needed.contains_key(tool.fallback()));
    }
}

/// The list of what must be installed before the configure step does not name `perl`,
/// names something that provides the build tool, and otherwise names what the metadata
/// requires, as the metadata requires it.
pub proof fn law_pre_configure_list(
    tool: BuildTool,
    required: Map<Seq<char>, Seq<char>>,
    list: Seq<DependencyView>,
)
    requires
        dependency::is_listing(list, build_tool::before_configure(tool, required)),
    ensures
        !dependency::lists(list, "perl"@),
        exists|i: int| 0 <= i < list.len() && tool.provided_by(#[trigger] list[i].module),
        forall|i: int|
            0 <= i < list.len() ==> {
                let entry = #[trigger] list[i];
                ||| required.contains_key(entry.module) && required[entry.module] == entry.version
                ||| entry == (DependencyView { module: tool.fallback(), version: "0"@ })
            },
        forall|module: Seq<char>| #[trigger]
            required.contains_key(module) && module != "perl"@ ==> dependency::lists(list, module),
{
    let needed = build_tool::before_configure(tool, required);
    law_before_configure(tool, required);
    dependency::law_listing_has_each_entry_once(list, needed);
    if dependency::lists(list, "perl"@) {
        let i = choose|i: int| 0 <= i < list.len() && #[trigger] list[i].module == "perl"@;
        assert(needed.contains_key(list[i].module));
    }
    let provider = choose|module: Seq<char>| #[trigger]
        needed.contains_key(module) && tool.provided_by(module);
    assert(dependency::lists(list, provider));
    let i = choose|i: int| 0 <= i < list.len() && #[trigger] list[i].module == provider;
    assert(tool.provided_by(list[i].module));
    assert forall|module: Seq<char>| #[trigger]
        required.contains_key(module) && module != "perl"@ implies dependency::lists(
        list,
        module,
    ) by {
        assert(needed.contains_key(module));
    }
    assert forall|i: int| 0 <= i < list.len() implies {
        let entry = #[trigger] list[i];
        ||| required.contains_key(entry.module) && required[entry.module] == entry.version
        ||| entry == (DependencyView { module: tool.fallback(), version: "0"@ })
    } by {
        let entry = list[i];
        assert(needed.contains_key(entry.module) && needed[entry.module] == entry.version);
    }
}

/// Before `perl Build.PL` can run, there must be installed: what the metadata requires
/// for the configure step in the versions that it asks for, but for `perl`; and
/// `Module::Build` in any version if no name among these begins with `Module::Build`;
/// and nothing else.
pub proof fn law_list_before_build_pl(
    required: Map<Seq<char>, Seq<char>>,
    list: Seq<DependencyView>,
    entry: DependencyView,
)
    requires
        dependency::is_listing(
            list,
            build_tool::before_configure(BuildTool::ModuleBuild, required),
        ),
    ensures
        list.contains(entry) <==> {
            ||| entry.module != "perl"@ && required.contains_key(entry.module)
                && required[entry.module] == entry.version
            ||| entry.module == "Module::Build"@ && entry.version == "0"@ && forall|module: Seq<
                char,
            >| #[trigger]
                required.contains_key(module) ==> !(module.len() >= 13 && module.take(13)
                    == "Module::Build"@)
        },
{
    let tool = BuildTool::ModuleBuild;
    let needed = build_tool::before_configure(tool, required);
    let kept = required.remove("perl"@);
    dependency::law_listing_has_what_the_map_has(list, needed, entry);
    reveal_strlit("perl");
    reveal_strlit("Module::Build");
    assert forall|module: Seq<char>| tool.provided_by(module) <==> module.len() >= 13
        && #[trigger] module.take(13) == "Module::Build"@ by {
        build_tool::law_who_provides_a_tool(module);
        assert("Module::Build"@ =~= seq![
            'M', 'o', 'd', 'u', 'l', 'e', ':', ':', 'B', 'u', 'i', 'l', 'd',
        ]);
    }
    assert(tool.fallback().take(13) =~= "Module::Build"@);
    assert("perl"@.len() < 13);
    if exists|module: Seq<char>| #[trigger]
        kept.contains_key(module) && tool.provided_by(module) {
        let module = choose|module: Seq<char>| #[trigger]
            kept.contains_key(module) && tool.provided_by(module);
        assert(required.contains_key(module));
        assert(module.take(13) == "Module::Build"@);
    } else {
        assert forall|module: Seq<char>| #[trigger] required.contains_key(module) implies !(
        module.len() >= 13 && module.take(13) == "Module::Build"@) by {
            if module.len() >= 13 && module.take(13) == "Module::Build"@ {
                assert(kept.contains_key(module));
                assert(tool.provided_by(module));
            }
        }
        assert(!required.contains_key(tool.fallback()));
    }
}

/// Before `perl Makefile.PL` can run, there must be installed: what the metadata requires
/// for the configure step in the versions that it asks for, but for `perl`; and
/// `ExtUtils::MakeMaker` in any version if it is not among these; and nothing else.
pub proof fn law_list_before_makefile_pl(
    required: Map<Seq<char>, Seq<char>>,
    list: Seq<DependencyView>,
    entry: DependencyView,
)
    requires
        dependency::is_listing(list, build_tool::before_configure(BuildTool::Eumm, required)),
    ensures
        list.contains(entry) <==> {
            ||| entry.module != "perl"@ && required.contains_key(entry.module)
                && required[entry.module] == entry.version
            ||| entry.module == "ExtUtils::MakeMaker"@ && entry.version == "0"@
                && !required.contains_key("ExtUtils::MakeMaker"@)
        },
{
    let tool = BuildTool::Eumm;
    let needed = build_tool::before_configure(tool, required);
    let kept = required.remove("perl"@);
    dependency::law_listing_has_what_the_map_has(list, needed, entry);
    reveal_strlit("perl");
    reveal_strlit("ExtUtils::MakeMaker");
    assert("perl"@.len() != tool.fallback().len());
    if required.contains_key(tool.fallback()) {
        assert(kept.contains_key(tool.fallback()) && tool.provided_by(tool.fallback()));
    }
}

/// A search asks for one name after the other and ends at the first that is there: with
/// what parsing it gives, or in an error with the directory, that name and the cause.
pub proof fn law_search_ends_at(
    around: Surroundings,
    root: Seq<u8>,
    names: Seq<Seq<char>>,
    i: int,
)
    requires
        0 <= i < names.len(),
        (around.is_file)(root, names[i]),
        forall|j: int| 0 <= j < i ==> !(around.is_file)(root, #[trigger] names[j]),
    ensures
        MetaSearchView::from(names, 0) == StepView::<MetaSearchView, Option<MetaView>>::Pending(
            MetaSearchView { candidates: names, next: 0, found: false },
        ),
        search_run(
            around,
            root,
            MetaSearchView { candidates: names, next: 0, found: false },
        ) == match (around.parse)(root, names[i]) {
            Ok(meta) => Ok(Some(meta)),
            Err(cause) => Err(
                BuildErrorView::Unparsed(ParseFailureView { root, name: names[i], cause }),
            ),
        },
{
    let search = MetaSearchView { candidates: names, next: 0, found: false };
    law_search_takes_the_first(around, root, search);
    assert(names.skip(0) =~= names);
    law_first_present(around, root, names);
    if let Some(name) = around.first_present(root, names) {
        let k = choose|k: int|
            {
                &&& 0 <= k < names.len()
                &&& #[trigger] names[k] == name
                &&& (around.is_file)(root, name)
                &&& forall|j: int| 0 <= j < k ==> !(around.is_file)(root, #[trigger] names[j])
            };
        assert(k == i);
    }
}

/// A search that finds no file of any of its names ends with nothing, at once if it has
/// no names.
pub proof fn law_search_ends_with_nothing(
    around: Surroundings,
    root: Seq<u8>,
    names: Seq<Seq<char>>,
)
    requires
        forall|j: int| 0 <= j < names.len() ==> !(around.is_file)(root, #[trigger] names[j]),
    ensures
        names.len() == 0 ==> MetaSearchView::from(names, 0) == StepView::<
            MetaSearchView,
            Option<MetaView>,
        >::Finished(Ok(None)),
        names.len() > 0 ==> search_run(
            around,
            root,
            MetaSearchView { candidates: names, next: 0, found: false },
        ) == Ok::<Option<MetaView>, BuildErrorView>(None),
{
    if names.len() > 0 {
        let search = MetaSearchView { candidates: names, next: 0, found: false };
        law_search_takes_the_first(around, root, search);
        assert(names.skip(0) =~= names);
        law_first_present(around, root, names);
    }
}

/// What opening a directory comes to, case by case: which file the metadata is taken
/// from, which script settles the build tool, and each error.
pub proof fn law_opening_case_by_case(
    around: Surroundings,
    root: Seq<u8>,
    perl: PerlView,
    prefer: BuildTool,
)
    ensures
        ({
            let result = opening_run(around, opening::opening(root, perl, prefer));
            let has_json = (around.is_file)(root, "META.json"@);
            let has_yml = (around.is_file)(root, "META.yml"@);
            let name = if has_json {
                "META.json"@
            } else {
                "META.yml"@
            };
            let has_build_pl = (around.is_file)(root, "Build.PL"@);
            let has_makefile_pl = (around.is_file)(root, "Makefile.PL"@);
            &&& !has_json && !has_yml ==> result == Err::<DistributionView, BuildErrorView>(
                BuildErrorView::NoMeta { root },
            )
            &&& has_json || has_yml ==> match (around.parse)(root, name) {
                Err(cause) => result == Err::<DistributionView, BuildErrorView>(
                    BuildErrorView::Unparsed(ParseFailureView { root, name, cause }),
                ),
                Ok(meta) => if !has_build_pl && !has_makefile_pl {
                    result == Err::<DistributionView, BuildErrorView>(
                        BuildErrorView::NoConfigureScript { root },
                    )
                } else {
                    result == Ok::<DistributionView, BuildErrorView>(
                        DistributionView {
                            root,
                            perl: PerlView {
                                perl: perl.perl,
                                make: perl.make,
                                install_base: perl.install_base,
                                lib: perl.lib,
                                current_dir: Some(root),
                            },
                            distribution_meta: meta,
                            distribution_mymeta: None,
                            build_tool: if has_build_pl && has_makefile_pl {
                                prefer
                            } else if has_build_pl {
                                BuildTool::ModuleBuild
                            } else {
                                BuildTool::Eumm
                            },
                            pure_perl: false,
                        },
                    )
                },
            }
        }),
{
    law_opening_comes_to(around, root, perl, prefer);
    law_json_before_yml(around, root, "META.json"@, "META.yml"@);
}

/// What a configure step comes to, case by case: what is run, which file the generated
/// metadata is taken from, where the prerequisites come from, and each error.
pub proof fn law_configure_case_by_case(
    before: Surroundings,
    after: Surroundings,
    dist: DistributionView,
)
    ensures
        ({
            let (then, result) = configure_run(before, after, dist, ConfiguringView::Script);
            let script = if dist.build_tool == BuildTool::Eumm {
                "Makefile.PL"@
            } else {
                "Build.PL"@
            };
            let flag = if dist.build_tool == BuildTool::Eumm {
                "PUREPERL_ONLY=1"@
            } else {
                "--pureperl-only"@
            };
            let run = RequestView::RunPerl {
                perl: dist.perl,
                args: if dist.pure_perl {
                    seq![script, flag]
                } else {
                    seq![script]
                },
            };
            let has_json = (after.is_file)(dist.root, "MYMETA.json"@);
            let has_yml = (after.is_file)(dist.root, "MYMETA.yml"@);
            let name = if has_json {
                "MYMETA.json"@
            } else {
                "MYMETA.yml"@
            };
            if !(before.is_file)(dist.root, script) {
                &&& then == dist
                &&& result == Err::<(ExecuteResult, DependenciesView), BuildErrorView>(
                    BuildErrorView::ScriptNotFound { tool: dist.build_tool, root: dist.root },
                )
            } else {
                match (before.run)(run) {
                    Err(cause) => {
                        &&& then == dist
                        &&& result == Err::<(ExecuteResult, DependenciesView), BuildErrorView>(
                            BuildErrorView::NotRun { cause },
                        )
                    },
                    Ok(ended) => if !has_json && !has_yml {
                        &&& then == dist
                        &&& result == Ok::<(ExecuteResult, DependenciesView), BuildErrorView>(
                            (ended, dependencies::dependencies_of(dist.distribution_meta)),
                        )
                    } else {
                        match (after.parse)(dist.root, name) {
                            Ok(meta) => {
                                &&& then == DistributionView {
                                    root: dist.root,
                                    perl: dist.perl,
                                    distribution_meta: dist.distribution_meta,
                                    distribution_mymeta: Some(meta),
                                    build_tool: dist.build_tool,
                                    pure_perl: dist.pure_perl,
                                }
                                &&& result == Ok::<
                                    (ExecuteResult, DependenciesView),
                                    BuildErrorView,
                                >((ended, dependencies::dependencies_of(meta)))
                            },
                            Err(cause) => {
                                &&& then == dist
                                &&& result == Err::<
                                    (ExecuteResult, DependenciesView),
                                    BuildErrorView,
                                >(
                                    BuildErrorView::Unparsed(
                                        ParseFailureView { root: dist.root, name, cause },
                                    ),
                                )
                            },
                        }
                    },
                }
            }
        }),
{
    law_configure_comes_to(before, after, dist);
    law_json_before_yml(after, dist.root, "MYMETA.json"@, "MYMETA.yml"@);
}

/// The prerequisites that end a configure step are those of the generated metadata if
/// the last answer brought it, and those of the static metadata otherwise.
pub proof fn law_prerequisites_of_the_last_answer(dist: DistributionView, reply: ReplyView)
    ensures
        reply matches ReplyView::Parsed(Ok(meta)) ==> dist.resolved_from(reply) == meta,
        !(reply is Parsed) ==> dist.resolved_from(reply) == dist.distribution_meta,
{
}

/// What reading the generated metadata comes to, case by case.
pub proof fn law_mymeta_case_by_case(around: Surroundings, dist: DistributionView)
    ensures
        ({
            let (then, result) = mymeta_run(around, dist, configuring::mymeta_search());
            let has_json = (around.is_file)(dist.root, "MYMETA.json"@);
            let has_yml = (around.is_file)(dist.root, "MYMETA.yml"@);
            let name = if has_json {
                "MYMETA.json"@
            } else {
                "MYMETA.yml"@
            };
            if !has_json && !has_yml {
                &&& then == dist
                &&& result == Err::<MetaView, BuildErrorView>(
                    BuildErrorView::NoMymeta { root: dist.root },
                )
            } else {
                match (around.parse)(dist.root, name) {
                    Ok(meta) => {
                        &&& then == DistributionView { distribution_mymeta: Some(meta), ..dist }
                        &&& result == Ok::<MetaView, BuildErrorView>(meta)
                    },
                    Err(cause) => {
                        &&& then == dist
                        &&& result == Err::<MetaView, BuildErrorView>(
                            BuildErrorView::Unparsed(
                                ParseFailureView { root: dist.root, name, cause },
                            ),
                        )
                    },
                }
            }
        }),
{
    law_mymeta_comes_to(around, dist);
    law_json_before_yml(around, dist.root, "MYMETA.json"@, "MYMETA.yml"@);
}

/// What a step of the generated build script comes to, case by case: which file has to
/// be there, what is run, and each error.
pub proof fn law_build_case_by_case(
    around: Surroundings,
    dist: DistributionView,
    target: Option<Seq<char>>,
)
    ensures
        ({
            let result = build_run(around, dist, building::building(target));
            let eumm = dist.build_tool == BuildTool::Eumm;
            let generated = if eumm {
                "Makefile"@
            } else {
                "Build"@
            };
            let run = if eumm {
                RequestView::RunMake { perl: dist.perl, target }
            } else {
                RequestView::RunPerl {
                    perl: dist.perl,
                    args: if target is Some {
                        seq!["Build"@, target->0]
                    } else {
                        seq!["Build"@]
                    },
                }
            };
            if !(around.is_file)(dist.root, generated) {
                result == Err::<ExecuteResult, BuildErrorView>(
                    BuildErrorView::NotConfigured { tool: dist.build_tool, root: dist.root },
                )
            } else {
                match (around.run)(run) {
                    Ok(ended) => result == Ok::<ExecuteResult, BuildErrorView>(ended),
                    Err(cause) => result == Err::<ExecuteResult, BuildErrorView>(
                        BuildErrorView::NotRun { cause },
                    ),
                }
            }
        }),
{
    law_build_comes_to(around, dist, target);
}

/// Whether `reply` answers `request`.
pub open spec fn answers(request: RequestView, reply: ReplyView) -> bool {
    match request {
        RequestView::IsFile { .. } => reply is IsFile,
        RequestView::ParseMeta { .. } => reply is Parsed,
        RequestView::RunPerl { .. } => reply is Ran,
        RequestView::RunMake { .. } => reply is Ran,
    }
}

/// An answer to a question that was not asked leaves an operation where it stands.
pub proof fn law_unasked_reply_changes_nothing(
    opening: OpeningView,
    dist: DistributionView,
    configuring: ConfiguringView,
    search: MetaSearchView,
    building: BuildingView,
    reply: ReplyView,
)
    ensures
        !answers(opening.request(), reply) ==> opening.after(reply) == StepView::<
            OpeningView,
            DistributionView,
        >::Pending(opening),
        !answers(dist.configure_request(configuring), reply) ==> dist.after_configure(
            configuring,
            reply,
        ) == (
            dist,
            StepView::<ConfiguringView, (ExecuteResult, DependenciesView)>::Pending(configuring),
        ),
        !answers(search.request(dist.root), reply) ==> dist.after_mymeta(search, reply) == (
            dist,
            StepView::<MetaSearchView, MetaView>::Pending(search),
        ),
        !answers(dist.build_request(building), reply) ==> dist.after_build(building, reply)
            == StepView::<BuildingView, ExecuteResult>::Pending(building),
{
}

} // verus!
