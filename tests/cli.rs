use watchexec::cli::{
    config_from, default_ignore_list, extension_filters, get_args, split_on_commas, strip_dots,
    LogLevel, ParsedArgs,
};

fn args(command: &[&str]) -> ParsedArgs {
    ParsedArgs {
        command: command.iter().map(|s| s.to_string()).collect(),
        extensions: vec![],
        paths: vec![],
        clear: false,
        restart: false,
        signal: None,
        kill: false,
        debounce: None,
        verbose: false,
        changes_only: false,
        filters: vec![],
        ignores: vec![],
        no_vcs_ignore: false,
        no_ignore: false,
        no_default_ignore: false,
        postpone: false,
        poll: None,
        no_shell: false,
        no_meta: false,
        no_environment: false,
        once: false,
        watch_when_idle: false,
    }
}

fn owned(v: &[&str]) -> Vec<String> {
    v.iter().map(|s| s.to_string()).collect()
}

#[test]
fn splits_on_commas() {
    assert_eq!(split_on_commas("js,css,,html"), owned(&["js", "css", "", "html"]));
    assert_eq!(split_on_commas(""), owned(&[""]));
    assert_eq!(split_on_commas(","), owned(&["", ""]));
}

#[test]
fn strips_dots() {
    assert_eq!(strip_dots(".r.s."), "rs");
    assert_eq!(strip_dots("rs"), "rs");
}

#[test]
fn extension_globs() {
    let globs = extension_filters(&owned(&["js,.css,,", "rs"]));
    assert_eq!(globs, owned(&["*.js", "*.css", "*.rs"]));
    assert_eq!(extension_filters(&owned(&["."])), owned(&["*."]));
}

#[test]
fn default_ignores_use_separator() {
    let list = default_ignore_list("/");
    assert_eq!(list.len(), 10);
    assert_eq!(list[0], "**/.DS_Store");
    assert_eq!(list[7], "**/.git/**");
    assert_eq!(list[9], "**/.svn/**");
    assert_eq!(default_ignore_list("\\")[8], "**\\.hg\\**");
}

#[test]
fn config_defaults() {
    let (c, level) = config_from(&args(&["echo", "hi"]), "/");
    assert_eq!(c.cmd, owned(&["echo", "hi"]));
    assert_eq!(c.paths, owned(&["."]));
    assert!(c.filters.is_empty());
    assert_eq!(c.ignores.len(), 10);
    assert_eq!(c.signal, None);
    assert_eq!(c.debounce, 500);
    assert_eq!(c.poll_interval, 1000);
    assert!(!c.poll);
    assert!(c.run_initially);
    assert_eq!(level, LogLevel::Warn);
}

#[test]
fn config_options() {
    let mut a = args(&["make"]);
    a.paths = owned(&["src", "tests"]);
    a.filters = owned(&["*.toml"]);
    a.extensions = owned(&["rs,md"]);
    a.ignores = owned(&["target"]);
    a.no_default_ignore = true;
    a.kill = true;
    a.debounce = Some(20);
    a.poll = Some(250);
    a.postpone = true;
    a.changes_only = true;
    let (c, level) = config_from(&a, "/");
    assert_eq!(c.paths, owned(&["src", "tests"]));
    assert_eq!(c.filters, owned(&["*.toml", "*.rs", "*.md"]));
    assert_eq!(c.ignores, owned(&["target"]));
    assert_eq!(c.signal, Some("SIGKILL".to_string()));
    assert_eq!(c.debounce, 20);
    assert!(c.poll);
    assert_eq!(c.poll_interval, 250);
    assert!(!c.run_initially);
    assert_eq!(level, LogLevel::Info);
}

#[test]
fn given_signal_beats_kill() {
    let mut a = args(&["run"]);
    a.kill = true;
    a.signal = Some("SIGHUP".to_string());
    a.verbose = true;
    a.changes_only = true;
    let (c, level) = get_args(&a);
    assert_eq!(c.signal, Some("SIGHUP".to_string()));
    assert_eq!(level, LogLevel::Debug);
    assert_eq!(c.ignores[1], "*.py[co]");
    let sep = std::path::MAIN_SEPARATOR;
    assert_eq!(c.ignores[0], format!("**{}.DS_Store", sep));
    assert_eq!(c.ignores[9], format!("**{}.svn{}**", sep, sep));
}
