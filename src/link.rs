use vstd::prelude::*;

verus! {

/// How a library is linked.
#[derive(Clone, Copy, Debug, PartialEq, Eq, Structural)]
pub enum LinkKind {
    Static,
    Dynamic,
}

/// The way the native codec was obtained.
#[derive(Clone, Copy, Debug, PartialEq, Eq, Structural)]
pub enum Strategy {
    SystemProbe,
    StaticSearch,
    DynamicSearch,
    BuildFromSource,
}

/// What the environment answered to the last action.
#[derive(Clone, Copy, Debug, PartialEq, Eq, Structural)]
pub enum Event {
    /// The package registry was asked for the codec; `true` where it has it
    /// and has emitted its own linker flags.
    Probed(bool),
    /// Whether the file asked about is a regular file.
    Checked(bool),
    /// A build step ended; `code` is the exit code of a command, where it has
    /// one, and `None` for a file-system step.
    Finished { success: bool, code: Option<i32> },
}

/// Where the resolution stands.
#[derive(Clone, Copy, Debug, PartialEq, Eq, Structural)]
pub enum Stage {
    /// Waiting for the package registry.
    Probing,
    /// Waiting for the check of the search directory at this index.
    Searching(usize),
    /// Waiting for the build step at this index.
    Building(usize),
    /// The package registry had the codec.
    ProbeFound,
    /// The search directory at this index holds the library.
    Found(usize),
    /// The vendored sources were built.
    Built,
    /// The build step at this index failed with this exit code.
    Failed(usize, Option<i32>),
}

/// The number of steps of a build from source.
pub const BUILD_STEPS: usize = 5;

/// What the build asks of its environment, captured once.
pub struct BuildConfig {
    /// Link the codec statically rather than dynamically.
    pub prefer_static: bool,
    /// Build from the vendored sources without probing or searching.
    pub force_build: bool,
    /// The entries of the library search path, in order.
    pub library_path: Vec<String>,
    /// The target platform's triple.
    pub target: String,
    /// The vendored source tree of the codec.
    pub source_dir: String,
    /// The scratch directory to build in.
    pub scratch_dir: String,
    /// The C++ compiler of the active toolchain.
    pub cxx: String,
    /// The flags of the active toolchain's C++ compiler.
    pub cxxflags: String,
}

/// The character sequences of some strings.
pub open spec fn strs(v: Seq<String>) -> Seq<Seq<char>> {
    v.map_values(|s: String| s@)
}

/// The directories searched for a prebuilt library: the search path, then
/// the system defaults.
pub open spec fn search_dirs(c: BuildConfig) -> Seq<Seq<char>> {
    strs(c.library_path@) + seq!["/usr/lib"@, "/usr/local/lib"@]
}

/// The stage a resolution starts in.
pub open spec fn initial_stage(c: BuildConfig) -> Stage {
    if c.force_build {
        Stage::Building(0)
    } else {
        Stage::Probing
    }
}

/// Whether no event moves a resolution on from `s`.
pub open spec fn is_final(s: Stage) -> bool {
    s is ProbeFound || s is Found || s is Built || s is Failed
}

/// The stage after event `e` in stage `s`, with `n` search directories. An
/// event that does not answer the pending action changes nothing.
pub open spec fn next_stage(n: nat, s: Stage, e: Event) -> Stage {
    match s {
        Stage::Probing => match e {
            Event::Probed(true) => Stage::ProbeFound,
            Event::Probed(false) => if n > 0 {
                Stage::Searching(0)
            } else {
                Stage::Building(0)
            },
            _ => s,
        },
        Stage::Searching(i) => match e {
            Event::Checked(true) => Stage::Found(i),
            Event::Checked(false) => if i + 1 < n {
                Stage::Searching((i + 1) as usize)
            } else {
                Stage::Building(0)
            },
            _ => s,
        },
        Stage::Building(i) => match e {
            Event::Finished { success: true, .. } => if i + 1 < BUILD_STEPS {
                Stage::Building((i + 1) as usize)
            } else {
                Stage::Built
            },
            Event::Finished { success: false, code } => Stage::Failed(i, code),
            _ => s,
        },
        _ => s,
    }
}

/// A directive for the linker.
#[derive(Clone, Debug, PartialEq, Eq)]
pub enum Directive {
    /// Adds a directory to the native search path.
    SearchNative(String),
    /// Links the named library in the given way.
    Library(LinkKind, String),
    /// Links the named C++ runtime library.
    CxxRuntime(String),
}

/// A directive, with its strings as character sequences.
pub enum DirectiveView {
    SearchNative(Seq<char>),
    Library(LinkKind, Seq<char>),
    CxxRuntime(Seq<char>),
}

impl View for Directive {
    type V = DirectiveView;

    open spec fn view(&self) -> DirectiveView {
        match self {
            Directive::SearchNative(d) => DirectiveView::SearchNative(d@),
            Directive::Library(k, n) => DirectiveView::Library(*k, n@),
            Directive::CxxRuntime(n) => DirectiveView::CxxRuntime(n@),
        }
    }
}

/// How the final artifact links the codec.
#[derive(Clone, Debug, PartialEq, Eq)]
pub struct LinkPlan {
    pub strategy: Strategy,
    pub directives: Vec<Directive>,
}

/// A link plan, with its strings as character sequences.
pub struct LinkPlanView {
    pub strategy: Strategy,
    pub directives: Seq<DirectiveView>,
}

impl View for LinkPlan {
    type V = LinkPlanView;

    open spec fn view(&self) -> LinkPlanView {
        LinkPlanView {
            strategy: self.strategy,
            directives: self.directives@.map_values(|d: Directive| d@),
        }
    }
}

/// A program to run, with its arguments, in a directory.
#[derive(Clone, Debug, PartialEq, Eq)]
pub struct Command {
    pub program: String,
    pub args: Vec<String>,
    pub dir: String,
}

/// A command, with its strings as character sequences.
pub struct CommandView {
    pub program: Seq<char>,
    pub args: Seq<Seq<char>>,
    pub dir: Seq<char>,
}

impl View for Command {
    type V = CommandView;

    open spec fn view(&self) -> CommandView {
        CommandView { program: self.program@, args: strs(self.args@), dir: self.dir@ }
    }
}

/// One step of a build from source.
#[derive(Clone, Debug, PartialEq, Eq)]
pub enum BuildStep {
    /// Creates a directory.
    CreateDir(String),
    /// Copies a directory tree into another directory.
    CopyTree { from: String, to: String },
    /// Runs a command.
    Run(Command),
}

/// A build step, with its strings as character sequences.
pub enum BuildStepView {
    CreateDir(Seq<char>),
    CopyTree { from: Seq<char>, to: Seq<char> },
    Run(CommandView),
}

impl View for BuildStep {
    type V = BuildStepView;

    open spec fn view(&self) -> BuildStepView {
        match self {
            BuildStep::CreateDir(p) => BuildStepView::CreateDir(p@),
            BuildStep::CopyTree { from, to } => BuildStepView::CopyTree { from: from@, to: to@ },
            BuildStep::Run(c) => BuildStepView::Run(c@),
        }
    }
}

/// A build step that failed, with the exit code of its command where it has
/// one.
#[derive(Clone, Debug, PartialEq, Eq)]
pub struct BuildFailure {
    pub step: BuildStep,
    pub code: Option<i32>,
}

/// A build failure, with its strings as character sequences.
pub struct BuildFailureView {
    pub step: BuildStepView,
    pub code: Option<i32>,
}

impl View for BuildFailure {
    type V = BuildFailureView;

    open spec fn view(&self) -> BuildFailureView {
        BuildFailureView { step: self.step@, code: self.code }
    }
}

/// What the environment is asked to do next.
#[derive(Clone, Debug, PartialEq, Eq)]
pub enum Action {
    /// Ask the package registry for the codec.
    Probe,
    /// Tell whether `file` in `dir` is a regular file.
    CheckFile { dir: String, file: String },
    /// Perform a build step.
    Perform(BuildStep),
    /// Emit the plan's directives; the resolution is done.
    Link(LinkPlan),
    /// Stop the build with this failure.
    Abort(BuildFailure),
}

/// An action, with its strings as character sequences.
pub enum ActionView {
    Probe,
    CheckFile { dir: Seq<char>, file: Seq<char> },
    Perform(BuildStepView),
    Link(LinkPlanView),
    Abort(BuildFailureView),
}

impl View for Action {
    type V = ActionView;

    open spec fn view(&self) -> ActionView {
        match self {
            Action::Probe => ActionView::Probe,
            Action::CheckFile { dir, file } => ActionView::CheckFile { dir: dir@, file: file@ },
            Action::Perform(s) => ActionView::Perform(s@),
            Action::Link(p) => ActionView::Link(p@),
            Action::Abort(f) => ActionView::Abort(f@),
        }
    }
}

/// The file name of the prebuilt library searched for.
pub open spec fn library_file(prefer_static: bool) -> Seq<char> {
    if prefer_static {
        "libsnappy.a"@
    } else {
        "libsnappy.so"@
    }
}

/// The C++ runtime library of a target: `c++` on Apple platforms, `stdc++`
/// elsewhere.
pub open spec fn cxx_runtime_of(target: Seq<char>) -> Seq<char> {
    if occurs(target, "apple"@) {
        "c++"@
    } else {
        "stdc++"@
    }
}

/// Whether a target follows Unix conventions, that is, is no Windows target.
pub open spec fn is_unix_style(target: Seq<char>) -> bool {
    !occurs(target, "windows"@)
}

/// The arguments of the configure step.
pub open spec fn configure_args(c: BuildConfig) -> Seq<Seq<char>> {
    seq![
        "--disable-shared"@,
        "--enable-static"@,
        "--with-pic"@,
        "CXX="@ + c.cxx@,
        "CXXFLAGS="@ + c.cxxflags@,
    ]
}

/// The build step at index `i`.
pub open spec fn build_step_of(c: BuildConfig, i: nat) -> BuildStepView {
    let dir = c.scratch_dir@;
    if i == 0 {
        BuildStepView::CreateDir(dir)
    } else if i == 1 {
        BuildStepView::CopyTree { from: c.source_dir@, to: dir }
    } else if i == 2 {
        BuildStepView::Run(CommandView { program: "./autogen.sh"@, args: seq![], dir })
    } else if i == 3 {
        BuildStepView::Run(CommandView { program: "./configure"@, args: configure_args(c), dir })
    } else {
        BuildStepView::Run(CommandView { program: "make"@, args: seq![], dir })
    }
}

/// The plan for a library found in directory `dir` of the search.
pub open spec fn search_plan(c: BuildConfig, dir: Seq<char>) -> LinkPlanView {
    let base = seq![
        DirectiveView::SearchNative(dir),
        DirectiveView::Library(
            if c.prefer_static {
                LinkKind::Static
            } else {
                LinkKind::Dynamic
            },
            "snappy"@,
        ),
    ];
    LinkPlanView {
        strategy: if c.prefer_static {
            Strategy::StaticSearch
        } else {
            Strategy::DynamicSearch
        },
        directives: if c.prefer_static && !is_unix_style(c.target@) {
            base.push(DirectiveView::CxxRuntime(cxx_runtime_of(c.target@)))
        } else {
            base
        },
    }
}

/// The plan for the library built from source.
pub open spec fn built_plan(c: BuildConfig) -> LinkPlanView {
    LinkPlanView {
        strategy: Strategy::BuildFromSource,
        directives: seq![
            DirectiveView::SearchNative(c.scratch_dir@ + "/.libs"@),
            DirectiveView::Library(LinkKind::Static, "snappy"@),
            DirectiveView::CxxRuntime(cxx_runtime_of(c.target@)),
        ],
    }
}

/// What is asked of the environment in stage `s`.
pub open spec fn action_of(c: BuildConfig, s: Stage) -> ActionView {
    match s {
        Stage::Probing => ActionView::Probe,
        Stage::Searching(i) => ActionView::CheckFile {
            dir: search_dirs(c)[i as int],
            file: library_file(c.prefer_static),
        },
        Stage::Building(i) => ActionView::Perform(build_step_of(c, i as nat)),
        Stage::ProbeFound => ActionView::Link(
            LinkPlanView { strategy: Strategy::SystemProbe, directives: seq![] },
        ),
        Stage::Found(i) => ActionView::Link(search_plan(c, search_dirs(c)[i as int])),
        Stage::Built => ActionView::Link(built_plan(c)),
        Stage::Failed(i, code) => ActionView::Abort(
            BuildFailureView { step: build_step_of(c, i as nat), code },
        ),
    }
}

/// Whether stage `s` can be reached with `n` search directories.
pub open spec fn stage_in_range(n: nat, s: Stage) -> bool {
    match s {
        Stage::Searching(i) => i < n,
        Stage::Found(i) => i < n,
        Stage::Building(i) => i < BUILD_STEPS,
        Stage::Failed(i, _) => i < BUILD_STEPS,
        _ => true,
    }
}

/// Whether `needle` occurs in `hay`.
pub open spec fn occurs(hay: Seq<char>, needle: Seq<char>) -> bool {
    exists|i: int| 0 <= i <= hay.len() - needle.len() && #[trigger] hay.subrange(i, i + needle.len()) == needle
}

/// Whether `needle` occurs in `hay`.
pub fn contains(hay: &str, needle: &str) -> (r: bool)
    ensures
        r == occurs(hay@, needle@),
{
    let h = hay.unicode_len();
    let n = needle.unicode_len();
    if n > h {
        return false;
    }
    let mut i: usize = 0;
    while i <= h - n
        invariant
            h == hay@.len(),
            n == needle@.len(),
            n <= h,
            i <= h - n + 1,
            forall|k: int| 0 <= k < i ==> #[trigger] hay@.subrange(k, k + n) != needle@,
        decreases h - n + 1 - i,
    {
        let mut j: usize = 0;
        let mut same = true;
        while j < n
            invariant
                h == hay@.len(),
                n == needle@.len(),
                i + n <= h,
                j <= n,
                same == (forall|m: int| 0 <= m < j ==> hay@[i + m] == needle@[m]),
            decreases n - j,
        {
            if hay.get_char(i + j) != needle.get_char(j) {
                same = false;
            }
            j = j + 1;
        }
        if same {
            assert(hay@.subrange(i as int, i + n) =~= needle@);
            return true;
        }
        assert(exists|m: int| 0 <= m < n && hay@[i + m] != needle@[m]);
        let ghost m = choose|m: int| 0 <= m < n && hay@[i + m] != needle@[m];
        assert(hay@.subrange(i as int, i + n)[m] != needle@[m]);
        i = i + 1;
    }
    false
}

/// The stage reached from `s` by the events `evs`, in order, with `n` search
/// directories.
pub open spec fn run(n: nat, s: Stage, evs: Seq<Event>) -> Stage
    decreases evs.len(),
{
    if evs.len() == 0 {
        s
    } else {
        run(n, next_stage(n, s, evs[0]), evs.drop_first())
    }
}

proof fn lemma_run_first(n: nat, s: Stage, e: Event, rest: Seq<Event>)
    ensures
        run(n, s, seq![e] + rest) == run(n, next_stage(n, s, e), rest),
{
    assert((seq![e] + rest).drop_first() =~= rest);
}

/// Once a resolution is linked or has failed, no event changes it: exactly
/// one outcome is chosen.
pub proof fn lemma_final_stays(n: nat, s: Stage, evs: Seq<Event>)
    requires
        is_final(s),
    ensures
        run(n, s, evs) == s,
    decreases evs.len(),
{
    if evs.len() > 0 {
        lemma_final_stays(n, s, evs.drop_first());
    }
}

/// Where the package registry has the codec, the resolution links through
/// it, and whatever comes after, no directory is searched and nothing is
/// built.
pub proof fn lemma_probe_success_short_circuits(c: BuildConfig, rest: Seq<Event>)
    requires
        !c.force_build,
    ensures
        action_of(c, initial_stage(c)) == ActionView::Probe,
        run(search_dirs(c).len(), initial_stage(c), seq![Event::Probed(true)] + rest)
            == Stage::ProbeFound,
        action_of(c, Stage::ProbeFound) == ActionView::Link(
            LinkPlanView { strategy: Strategy::SystemProbe, directives: seq![] },
        ),
{
    let n = search_dirs(c).len();
    lemma_run_first(n, Stage::Probing, Event::Probed(true), rest);
    lemma_final_stays(n, Stage::ProbeFound, rest);
}

/// `k` failed checks followed by a successful one.
pub open spec fn checks_until(k: nat) -> Seq<Event> {
    Seq::new(k, |j: int| Event::Checked(false)).push(Event::Checked(true))
}

proof fn lemma_search_from(n: nat, j: nat, k: nat, rest: Seq<Event>)
    requires
        j <= k < n,
        n <= usize::MAX,
    ensures
        run(n, Stage::Searching(j as usize), checks_until((k - j) as nat) + rest) == Stage::Found(
            k as usize,
        ),
    decreases k - j,
{
    let evs = checks_until((k - j) as nat) + rest;
    if j == k {
        assert(evs =~= seq![Event::Checked(true)] + rest);
        lemma_run_first(n, Stage::Searching(j as usize), Event::Checked(true), rest);
        lemma_final_stays(n, Stage::Found(k as usize), rest);
    } else {
        let tail = checks_until((k - (j + 1)) as nat) + rest;
        assert(evs =~= seq![Event::Checked(false)] + tail);
        lemma_run_first(n, Stage::Searching(j as usize), Event::Checked(false), tail);
        lemma_search_from(n, j + 1, k, rest);
    }
}

/// Where the package registry lacks the codec, the directories are checked
/// in order, and the first that holds the library is the one linked from:
/// a later directory that holds it too is never checked.
pub proof fn lemma_first_match_wins(c: BuildConfig, k: nat, rest: Seq<Event>)
    requires
        !c.force_build,
        k < search_dirs(c).len() <= usize::MAX,
    ensures
        forall|j: int|
            0 <= j <= k ==> action_of(c, Stage::Searching(j as usize)) == (ActionView::CheckFile {
                dir: #[trigger] search_dirs(c)[j],
                file: library_file(c.prefer_static),
            }),
        run(
            search_dirs(c).len(),
            initial_stage(c),
            seq![Event::Probed(false)] + checks_until(k) + rest,
        ) == Stage::Found(k as usize),
        action_of(c, Stage::Found(k as usize)) == ActionView::Link(
            search_plan(c, search_dirs(c)[k as int]),
        ),
{
    let n = search_dirs(c).len();
    assert(seq![Event::Probed(false)] + checks_until(k) + rest =~= seq![Event::Probed(false)] + (
    checks_until(k) + rest));
    lemma_run_first(n, Stage::Probing, Event::Probed(false), checks_until(k) + rest);
    lemma_search_from(n, 0, k, rest);
}

/// A build step that fails ends the resolution: the failure names the step,
/// with its command, and the exit code, and nothing runs after it.
pub proof fn lemma_build_failure_aborts(
    c: BuildConfig,
    i: usize,
    code: Option<i32>,
    rest: Seq<Event>,
)
    requires
        i < BUILD_STEPS,
    ensures
        action_of(c, Stage::Building(i)) == ActionView::Perform(build_step_of(c, i as nat)),
        run(
            search_dirs(c).len(),
            Stage::Building(i),
            seq![Event::Finished { success: false, code }] + rest,
        ) == Stage::Failed(i, code),
        action_of(c, Stage::Failed(i, code)) == ActionView::Abort(
            BuildFailureView { step: build_step_of(c, i as nat), code },
        ),
{
    let n = search_dirs(c).len();
    lemma_run_first(n, Stage::Building(i), Event::Finished { success: false, code }, rest);
    lemma_final_stays(n, Stage::Failed(i, code), rest);
}

/// The C++ runtime library of a target.
pub fn cxx_runtime(target: &str) -> (r: String)
    ensures
        r@ == cxx_runtime_of(target@),
{
    if contains(target, "apple") {
        String::from_str("c++")
    } else {
        String::from_str("stdc++")
    }
}

fn configure_arguments(c: &BuildConfig) -> (r: Vec<String>)
    ensures
        strs(r@) == configure_args(*c),
{
    let mut v: Vec<String> = Vec::new();
    v.push(String::from_str("--disable-shared"));
    v.push(String::from_str("--enable-static"));
    v.push(String::from_str("--with-pic"));
    v.push(String::from_str("CXX=").concat(c.cxx.as_str()));
    v.push(String::from_str("CXXFLAGS=").concat(c.cxxflags.as_str()));
    assert(strs(v@) =~= configure_args(*c));
    v
}

fn build_step(c: &BuildConfig, i: usize) -> (r: BuildStep)
    ensures
        r@ == build_step_of(*c, i as nat),
{
    let dir = c.scratch_dir.clone();
    if i == 0 {
        BuildStep::CreateDir(dir)
    } else if i == 1 {
        BuildStep::CopyTree { from: c.source_dir.clone(), to: dir }
    } else if i == 3 {
        let args = configure_arguments(c);
        BuildStep::Run(Command { program: String::from_str("./configure"), args, dir })
    } else {
        let program = if i == 2 {
            String::from_str("./autogen.sh")
        } else {
            String::from_str("make")
        };
        let args: Vec<String> = Vec::new();
        assert(strs(args@) =~= seq![]);
        BuildStep::Run(Command { program, args, dir })
    }
}

fn search_plan_for(c: &BuildConfig, dir: &String) -> (r: LinkPlan)
    ensures
        r@ == search_plan(*c, dir@),
{
    let mut ds: Vec<Directive> = Vec::new();
    ds.push(Directive::SearchNative(dir.clone()));
    let kind = if c.prefer_static {
        LinkKind::Static
    } else {
        LinkKind::Dynamic
    };
    ds.push(Directive::Library(kind, String::from_str("snappy")));
    let windows = contains(c.target.as_str(), "windows");
    if c.prefer_static && windows {
        ds.push(Directive::CxxRuntime(cxx_runtime(c.target.as_str())));
    }
    let strategy = if c.prefer_static {
        Strategy::StaticSearch
    } else {
        Strategy::DynamicSearch
    };
    let r = LinkPlan { strategy, directives: ds };
    assert(r@.directives =~= search_plan(*c, dir@).directives);
    r
}

fn built_plan_for(c: &BuildConfig) -> (r: LinkPlan)
    ensures
        r@ == built_plan(*c),
{
    let mut ds: Vec<Directive> = Vec::new();
    ds.push(Directive::SearchNative(c.scratch_dir.clone().concat("/.libs")));
    ds.push(Directive::Library(LinkKind::Static, String::from_str("snappy")));
    ds.push(Directive::CxxRuntime(cxx_runtime(c.target.as_str())));
    let r = LinkPlan { strategy: Strategy::BuildFromSource, directives: ds };
    assert(r@.directives =~= built_plan(*c).directives);
    r
}

/// The resolution of how the build links the codec: a machine that names
/// the next thing to ask of the environment and moves on with each answer.
pub struct Resolver {
    config: BuildConfig,
    dirs: Vec<String>,
    stage: Stage,
}

impl Resolver {
    pub closed spec fn spec_config(&self) -> BuildConfig {
        self.config
    }

    pub closed spec fn spec_stage(&self) -> Stage {
        self.stage
    }

    pub closed spec fn wf(&self) -> bool {
        &&& strs(self.dirs@) == search_dirs(self.config)
        &&& stage_in_range(self.dirs@.len(), self.stage)
    }

    /// Starts a resolution: at the build when it is forced, else at the
    /// package registry.
    pub fn new(config: BuildConfig) -> (r: Resolver)
        ensures
            r.wf(),
            r.spec_config() == config,
            r.spec_stage() == initial_stage(config),
    {
        let mut dirs: Vec<String> = Vec::new();
        let mut i: usize = 0;
        while i < config.library_path.len()
            invariant
                i <= config.library_path@.len(),
                dirs@.len() == i,
                forall|k: int| 0 <= k < i ==> #[trigger] dirs@[k]@ == config.library_path@[k]@,
            decreases config.library_path@.len() - i,
        {
            let d = config.library_path[i].clone();
            assert(d == config.library_path@[i as int]);
            dirs.push(d);
            i = i + 1;
        }
        dirs.push(String::from_str("/usr/lib"));
        dirs.push(String::from_str("/usr/local/lib"));
        assert(strs(dirs@) =~= search_dirs(config));
        let stage = if config.force_build {
            Stage::Building(0)
        } else {
            Stage::Probing
        };
        Resolver { config, dirs, stage }
    }

    /// Where the resolution stands.
    pub fn stage(&self) -> (s: Stage)
        ensures
            s == self.spec_stage(),
    {
        self.stage
    }

    /// Moves the resolution on with the environment's answer.
    pub fn advance(&mut self, e: Event)
        requires
            old(self).wf(),
        ensures
            final(self).wf(),
            final(self).spec_config() == old(self).spec_config(),
            final(self).spec_stage() == next_stage(
                search_dirs(old(self).spec_config()).len(),
                old(self).spec_stage(),
                e,
            ),
    {
        let n = self.dirs.len();
        let next = match self.stage {
            Stage::Probing => match e {
                Event::Probed(true) => Stage::ProbeFound,
                Event::Probed(false) => if n > 0 {
                    Stage::Searching(0)
                } else {
                    Stage::Building(0)
                },
                _ => Stage::Probing,
            },
            Stage::Searching(i) => match e {
                Event::Checked(true) => Stage::Found(i),
                Event::Checked(false) => if i + 1 < n {
                    Stage::Searching(i + 1)
                } else {
                    Stage::Building(0)
                },
                _ => Stage::Searching(i),
            },
            Stage::Building(i) => match e {
                Event::Finished { success: true, .. } => if i + 1 < BUILD_STEPS {
                    Stage::Building(i + 1)
                } else {
                    Stage::Built
                },
                Event::Finished { success: false, code } => Stage::Failed(i, code),
                _ => Stage::Building(i),
            },
            s => s,
        };
        self.stage = next;
    }

    /// What the environment is asked to do next.
    pub fn action(&self) -> (a: Action)
        requires
            self.wf(),
        ensures
            a@ == action_of(self.spec_config(), self.spec_stage()),
    {
        let c = &self.config;
        match self.stage {
            Stage::Probing => Action::Probe,
            Stage::Searching(i) => {
                let file = if c.prefer_static {
                    String::from_str("libsnappy.a")
                } else {
                    String::from_str("libsnappy.so")
                };
                Action::CheckFile { dir: self.dirs[i].clone(), file }
            },
            Stage::Building(i) => Action::Perform(build_step(c, i)),
            Stage::ProbeFound => {
                let directives: Vec<Directive> = Vec::new();
                let plan = LinkPlan { strategy: Strategy::SystemProbe, directives };
                assert(plan@.directives =~= seq![]);
                Action::Link(plan)
            },
            Stage::Found(i) => Action::Link(search_plan_for(c, &self.dirs[i])),
            Stage::Built => Action::Link(built_plan_for(c)),
            Stage::Failed(i, code) => Action::Abort(BuildFailure { step: build_step(c, i), code }),
        }
    }
}

} // verus!
