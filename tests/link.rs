use snappy::link::{
    contains, cxx_runtime, Action, BuildConfig, BuildFailure, BuildStep, Command, Directive,
    Event, LinkKind, LinkPlan, Resolver, Stage, Strategy,
};

fn s(x: &str) -> String {
    x.to_string()
}

fn config(prefer_static: bool, force_build: bool, paths: &[&str], target: &str) -> BuildConfig {
    BuildConfig {
        prefer_static,
        force_build,
        library_path: paths.iter().map(|p| s(p)).collect(),
        target: s(target),
        source_dir: s("/src/snappy"),
        scratch_dir: s("/out/build"),
        cxx: s("c++"),
        cxxflags: s("-O2"),
    }
}

fn check(dir: &str, file: &str) -> Action {
    Action::CheckFile { dir: s(dir), file: s(file) }
}

fn run_command(program: &str, args: &[&str]) -> BuildStep {
    BuildStep::Run(Command {
        program: s(program),
        args: args.iter().map(|a| s(a)).collect(),
        dir: s("/out/build"),
    })
}

fn configure_step() -> BuildStep {
    run_command(
        "./configure",
        &["--disable-shared", "--enable-static", "--with-pic", "CXX=c++", "CXXFLAGS=-O2"],
    )
}

const OK: Event = Event::Finished { success: true, code: Some(0) };

#[test]
fn probe_success_links_through_the_registry() {
    let mut r = Resolver::new(config(true, false, &["/a", "/b"], "x86_64-unknown-linux-gnu"));
    assert_eq!(r.action(), Action::Probe);
    r.advance(Event::Probed(true));
    let done = Action::Link(LinkPlan { strategy: Strategy::SystemProbe, directives: vec![] });
    assert_eq!(r.action(), done);
    // Nothing moves a finished resolution on.
    r.advance(Event::Checked(true));
    r.advance(OK);
    assert_eq!(r.stage(), Stage::ProbeFound);
    assert_eq!(r.action(), done);
}

#[test]
fn first_directory_with_the_archive_wins() {
    let mut r = Resolver::new(config(true, false, &["/a", "/b"], "x86_64-unknown-linux-gnu"));
    r.advance(Event::Probed(false));
    assert_eq!(r.action(), check("/a", "libsnappy.a"));
    r.advance(Event::Checked(true));
    let plan = LinkPlan {
        strategy: Strategy::StaticSearch,
        directives: vec![
            Directive::SearchNative(s("/a")),
            Directive::Library(LinkKind::Static, s("snappy")),
        ],
    };
    assert_eq!(r.action(), Action::Link(plan));
    r.advance(Event::Checked(true));
    assert_eq!(r.stage(), Stage::Found(0));
}

#[test]
fn search_goes_on_to_later_and_default_directories() {
    let mut r = Resolver::new(config(false, false, &["/a"], "x86_64-unknown-linux-gnu"));
    r.advance(Event::Probed(false));
    assert_eq!(r.action(), check("/a", "libsnappy.so"));
    r.advance(Event::Checked(false));
    assert_eq!(r.action(), check("/usr/lib", "libsnappy.so"));
    r.advance(Event::Checked(false));
    assert_eq!(r.action(), check("/usr/local/lib", "libsnappy.so"));
    r.advance(Event::Checked(true));
    let plan = LinkPlan {
        strategy: Strategy::DynamicSearch,
        directives: vec![
            Directive::SearchNative(s("/usr/local/lib")),
            Directive::Library(LinkKind::Dynamic, s("snappy")),
        ],
    };
    assert_eq!(r.action(), Action::Link(plan));
}

#[test]
fn static_search_on_windows_links_the_cxx_runtime() {
    let mut r = Resolver::new(config(true, false, &[], "x86_64-pc-windows-gnu"));
    r.advance(Event::Probed(false));
    r.advance(Event::Checked(true));
    let plan = LinkPlan {
        strategy: Strategy::StaticSearch,
        directives: vec![
            Directive::SearchNative(s("/usr/lib")),
            Directive::Library(LinkKind::Static, s("snappy")),
            Directive::CxxRuntime(s("stdc++")),
        ],
    };
    assert_eq!(r.action(), Action::Link(plan));
}

#[test]
fn build_from_source_runs_every_step_then_links_statically() {
    let mut r = Resolver::new(config(false, false, &[], "x86_64-apple-darwin"));
    r.advance(Event::Probed(false));
    r.advance(Event::Checked(false));
    r.advance(Event::Checked(false));
    assert_eq!(r.action(), Action::Perform(BuildStep::CreateDir(s("/out/build"))));
    r.advance(Event::Finished { success: true, code: None });
    assert_eq!(
        r.action(),
        Action::Perform(BuildStep::CopyTree { from: s("/src/snappy"), to: s("/out/build") })
    );
    r.advance(Event::Finished { success: true, code: None });
    assert_eq!(r.action(), Action::Perform(run_command("./autogen.sh", &[])));
    r.advance(OK);
    assert_eq!(r.action(), Action::Perform(configure_step()));
    r.advance(OK);
    assert_eq!(r.action(), Action::Perform(run_command("make", &[])));
    r.advance(OK);
    let plan = LinkPlan {
        strategy: Strategy::BuildFromSource,
        directives: vec![
            Directive::SearchNative(s("/out/build/.libs")),
            Directive::Library(LinkKind::Static, s("snappy")),
            Directive::CxxRuntime(s("c++")),
        ],
    };
    assert_eq!(r.action(), Action::Link(plan));
    assert_eq!(r.stage(), Stage::Built);
}

#[test]
fn forced_build_skips_probe_and_search() {
    let r = Resolver::new(config(true, true, &["/a"], "x86_64-unknown-linux-gnu"));
    assert_eq!(r.stage(), Stage::Building(0));
    assert_eq!(r.action(), Action::Perform(BuildStep::CreateDir(s("/out/build"))));
}

#[test]
fn configure_failure_aborts_with_command_and_status() {
    let mut r = Resolver::new(config(true, true, &[], "x86_64-unknown-linux-gnu"));
    r.advance(OK);
    r.advance(OK);
    r.advance(OK);
    assert_eq!(r.action(), Action::Perform(configure_step()));
    r.advance(Event::Finished { success: false, code: Some(77) });
    let failure = BuildFailure { step: configure_step(), code: Some(77) };
    assert_eq!(r.action(), Action::Abort(failure.clone()));
    r.advance(OK);
    assert_eq!(r.action(), Action::Abort(failure));
}

#[test]
fn make_failure_aborts_with_command_and_status() {
    let mut r = Resolver::new(config(true, true, &[], "x86_64-unknown-linux-gnu"));
    for _ in 0..4 {
        r.advance(OK);
    }
    r.advance(Event::Finished { success: false, code: Some(2) });
    assert_eq!(r.stage(), Stage::Failed(4, Some(2)));
    let failure = BuildFailure { step: run_command("make", &[]), code: Some(2) };
    assert_eq!(r.action(), Action::Abort(failure));
}

#[test]
fn directory_creation_failure_names_the_path() {
    let mut r = Resolver::new(config(true, true, &[], "x86_64-unknown-linux-gnu"));
    r.advance(Event::Finished { success: false, code: None });
    let failure = BuildFailure { step: BuildStep::CreateDir(s("/out/build")), code: None };
    assert_eq!(r.action(), Action::Abort(failure));
}

#[test]
fn unrelated_event_changes_nothing() {
    let mut r = Resolver::new(config(true, false, &[], "x86_64-unknown-linux-gnu"));
    r.advance(Event::Checked(true));
    assert_eq!(r.stage(), Stage::Probing);
    r.advance(Event::Probed(false));
    r.advance(OK);
    assert_eq!(r.stage(), Stage::Searching(0));
}

#[test]
fn cxx_runtime_by_target() {
    assert_eq!(cxx_runtime("aarch64-apple-darwin"), "c++");
    assert_eq!(cxx_runtime("x86_64-unknown-linux-gnu"), "stdc++");
}

#[test]
fn substring_search() {
    assert!(contains("x86_64-pc-windows-msvc", "windows"));
    assert!(contains("abc", ""));
    assert!(contains("abc", "abc"));
    assert!(!contains("ab", "abc"));
    assert!(!contains("aab", "abb"));
    assert!(contains("aabb", "abb"));
}
