use broot_core::app::{App, AppState, AppStateCmdResult, Dispatch};
use broot_core::commands::Command;
use broot_core::external::Launchable;
use broot_core::input::{Input, Terminal};
use broot_core::pump::PumpExit;
use broot_core::task_sync::TaskLifetime;
use std::collections::VecDeque;
use std::sync::atomic::{AtomicUsize, Ordering};
use std::sync::Arc;

#[derive(Default)]
struct Recorder {
    events: Vec<String>,
}

impl Input for Recorder {
    fn write_input(&mut self, cmd: &Command) -> std::io::Result<()> {
        self.events.push(format!("input:{}", cmd.raw));
        Ok(())
    }
}

impl Terminal for Recorder {
    fn read_size(&mut self) -> std::io::Result<()> {
        Ok(())
    }
    fn write_spinner(&mut self, busy: bool) -> std::io::Result<()> {
        self.events.push(format!("spinner:{}", busy));
        Ok(())
    }
    fn write_status_err(&mut self, txt: &str) -> std::io::Result<()> {
        self.events.push(format!("error:{}", txt));
        Ok(())
    }
}

struct Mock {
    name: &'static str,
    results: VecDeque<AppStateCmdResult<Mock>>,
    applied: Vec<String>,
    pending: usize,
    done: usize,
    bump: Option<Arc<AtomicUsize>>,
}

impl Mock {
    fn new(name: &'static str, results: Vec<AppStateCmdResult<Mock>>) -> Mock {
        Mock {
            name,
            results: results.into_iter().collect(),
            applied: Vec::new(),
            pending: 0,
            done: 0,
            bump: None,
        }
    }
}

impl AppState<Recorder> for Mock {
    fn apply(
        &mut self,
        cmd: &mut Command,
        screen: &mut Recorder,
    ) -> std::io::Result<AppStateCmdResult<Mock>> {
        self.applied.push(cmd.raw.clone());
        screen.events.push(format!("apply:{}:{}", self.name, cmd.raw));
        Ok(self.results.pop_front().unwrap_or(AppStateCmdResult::Keep))
    }
    fn refresh(&mut self, _screen: &Recorder) -> Command {
        Command::from_raw(format!("refreshed-{}", self.name))
    }
    fn has_pending_tasks(&self) -> bool {
        self.pending > 0
    }
    fn do_pending_task(&mut self, _screen: &mut Recorder, _tl: &TaskLifetime) {
        self.pending -= 1;
        self.done += 1;
        if let Some(c) = &self.bump {
            c.fetch_add(1, Ordering::SeqCst);
        }
    }
    fn display(&mut self, screen: &mut Recorder) -> std::io::Result<()> {
        screen.events.push(format!("display:{}", self.name));
        Ok(())
    }
    fn write_status(&self, screen: &mut Recorder, cmd: &Command) -> std::io::Result<()> {
        screen.events.push(format!("status:{}:{}", self.name, cmd.raw));
        Ok(())
    }
    fn write_flags(&self, _screen: &mut Recorder) -> std::io::Result<()> {
        Ok(())
    }
}

fn cmd(s: &str) -> Command {
    Command::from_raw(s.to_string())
}

#[test]
fn pop_state_on_sole_state_quits() {
    let mut app: App<Mock> = App::new();
    app.push(Mock::new("a", vec![AppStateCmdResult::PopState]));
    let mut screen = Recorder::default();
    let c = app.apply_command(cmd("x"), &mut screen).unwrap();
    assert!(app.quitting());
    assert_eq!(app.depth(), 1);
    assert_eq!(c.raw, "x");
    assert!(app.take_launchable().is_none());
}

#[test]
fn repeated_pop_state_on_sole_state_never_empties() {
    let mut app: App<Mock> = App::new();
    app.push(Mock::new("a", vec![]));
    for _ in 0..3 {
        let mut c = cmd("x");
        let d = app.transition(AppStateCmdResult::PopState, &mut c);
        assert!(matches!(d, Dispatch::Done));
        assert_eq!(app.depth(), 1);
        assert!(app.quitting());
    }
}

#[test]
fn pop_state_refreshes_new_top() {
    let mut app: App<Mock> = App::new();
    app.push(Mock::new("a", vec![]));
    app.push(Mock::new("b", vec![AppStateCmdResult::PopState]));
    let mut screen = Recorder::default();
    let c = app.apply_command(cmd("x"), &mut screen).unwrap();
    assert_eq!(app.depth(), 1);
    assert!(!app.quitting());
    assert_eq!(c.raw, "refreshed-a");
    assert_eq!(app.state().name, "a");
    assert!(screen.events.contains(&"status:a:refreshed-a".to_string()));
}

#[test]
fn pop_and_reapply_redispatches_same_command() {
    let mut app: App<Mock> = App::new();
    app.push(Mock::new("a", vec![AppStateCmdResult::Keep]));
    app.push(Mock::new("b", vec![AppStateCmdResult::PopStateAndReapply]));
    app.push(Mock::new("c", vec![AppStateCmdResult::PopStateAndReapply]));
    let mut screen = Recorder::default();
    let c = app.apply_command(cmd(":toggle"), &mut screen).unwrap();
    assert_eq!(app.depth(), 1);
    assert!(!app.quitting());
    assert_eq!(c.raw, ":toggle");
    assert_eq!(app.state().applied, vec![":toggle".to_string()]);
    let applies: Vec<&String> = screen.events.iter().filter(|e| e.starts_with("apply")).collect();
    assert_eq!(applies, vec!["apply:c::toggle", "apply:b::toggle", "apply:a::toggle"]);
}

#[test]
fn pop_and_reapply_down_to_sole_state_quits() {
    let mut app: App<Mock> = App::new();
    app.push(Mock::new("a", vec![AppStateCmdResult::PopStateAndReapply]));
    app.push(Mock::new("b", vec![AppStateCmdResult::PopStateAndReapply]));
    let mut screen = Recorder::default();
    let c = app.apply_command(cmd("t"), &mut screen).unwrap();
    assert_eq!(app.depth(), 1);
    assert!(app.quitting());
    assert_eq!(c.raw, "t");
}

#[test]
fn transition_pop_and_reapply_shrinks_by_one() {
    let mut app: App<Mock> = App::new();
    app.push(Mock::new("a", vec![]));
    app.push(Mock::new("b", vec![]));
    app.push(Mock::new("c", vec![]));
    let mut c = cmd("k");
    let d = app.transition(AppStateCmdResult::PopStateAndReapply, &mut c);
    assert!(matches!(d, Dispatch::Reapply));
    assert_eq!(app.depth(), 2);
    assert_eq!(c.raw, "k");
    let d = app.transition(AppStateCmdResult::PopStateAndReapply, &mut c);
    assert!(matches!(d, Dispatch::Reapply));
    assert_eq!(app.depth(), 1);
    let d = app.transition(AppStateCmdResult::PopStateAndReapply, &mut c);
    assert!(matches!(d, Dispatch::Done));
    assert_eq!(app.depth(), 1);
    assert!(app.quitting());
}

#[test]
fn quit_from_sole_state_has_no_deferred_action() {
    let mut app: App<Mock> = App::new();
    app.push(Mock::new("a", vec![AppStateCmdResult::Quit]));
    let mut screen = Recorder::default();
    app.apply_command(cmd("q"), &mut screen).unwrap();
    assert!(app.quitting());
    assert!(app.take_launchable().is_none());
}

#[test]
fn launch_is_remembered_for_after_the_end() {
    let mut app: App<Mock> = App::new();
    app.push(Mock::new("a", vec![]));
    app.push(Mock::new(
        "b",
        vec![AppStateCmdResult::Launch(Launchable::printer("/tmp/x".to_string()))],
    ));
    let mut screen = Recorder::default();
    app.apply_command(cmd("p"), &mut screen).unwrap();
    assert!(app.quitting());
    assert_eq!(app.depth(), 2);
    match app.take_launchable() {
        Some(Launchable::Printer { to_print }) => assert_eq!(to_print, "/tmp/x"),
        _ => panic!("expected the printer"),
    }
    assert!(app.take_launchable().is_none());
}

#[test]
fn new_state_is_pushed_with_its_command() {
    let mut app: App<Mock> = App::new();
    let next = Mock::new("help", vec![]);
    app.push(Mock::new("a", vec![AppStateCmdResult::NewState(next, cmd("fresh"))]));
    let mut screen = Recorder::default();
    let c = app.apply_command(cmd("?"), &mut screen).unwrap();
    assert_eq!(app.depth(), 2);
    assert_eq!(c.raw, "fresh");
    assert_eq!(app.state().name, "help");
    assert!(screen.events.contains(&"status:help:fresh".to_string()));
    assert!(!app.quitting());
}

#[test]
fn display_error_keeps_the_stack() {
    let mut app: App<Mock> = App::new();
    app.push(Mock::new("a", vec![]));
    app.push(Mock::new("b", vec![AppStateCmdResult::verb_not_found("xk")]));
    let mut screen = Recorder::default();
    let c = app.apply_command(cmd(":xk"), &mut screen).unwrap();
    assert_eq!(app.depth(), 2);
    assert!(!app.quitting());
    assert_eq!(c.raw, ":xk");
    assert!(screen.events.contains(&"error:verb not found: \"xk\"".to_string()));
    assert!(!screen.events.iter().any(|e| e.starts_with("status")));
}

#[test]
fn verb_not_found_message_quotes_the_verb() {
    match AppStateCmdResult::<Mock>::verb_not_found("a\"b") {
        AppStateCmdResult::DisplayError(m) => assert_eq!(m, "verb not found: \"a\\\"b\""),
        _ => panic!("expected an error"),
    }
}

#[test]
fn refresh_state_replaces_the_command() {
    let mut app: App<Mock> = App::new();
    app.push(Mock::new("a", vec![AppStateCmdResult::RefreshState]));
    let mut screen = Recorder::default();
    let c = app.apply_command(cmd("abc"), &mut screen).unwrap();
    assert_eq!(c.raw, "refreshed-a");
    assert_eq!(app.depth(), 1);
}

#[test]
fn keep_shows_status_for_the_command() {
    let mut app: App<Mock> = App::new();
    app.push(Mock::new("a", vec![AppStateCmdResult::Keep]));
    let mut screen = Recorder::default();
    let c = app.apply_command(cmd("ab"), &mut screen).unwrap();
    assert_eq!(c.raw, "ab");
    assert!(screen.events.contains(&"status:a:ab".to_string()));
}

#[test]
fn from_optional_state_cases() {
    let r = AppStateCmdResult::from_optional_state(Ok(Some(Mock::new("n", vec![]))), cmd("c"));
    match r {
        AppStateCmdResult::NewState(s, c) => {
            assert_eq!(s.name, "n");
            assert_eq!(c.raw, "c");
        }
        _ => panic!("expected a new state"),
    }
    let r = AppStateCmdResult::<Mock>::from_optional_state(Ok(None), cmd("c"));
    assert!(matches!(r, AppStateCmdResult::Keep));
    let r = AppStateCmdResult::<Mock>::from_optional_state(Err("no root".to_string()), cmd("c"));
    match r {
        AppStateCmdResult::DisplayError(m) => assert_eq!(m, "no root"),
        _ => panic!("expected an error"),
    }
}

fn run_pump(app: &mut App<Mock>, screen: &mut Recorder, tl: &TaskLifetime) -> PumpExit {
    let c = cmd("");
    let mut pump = app.pump_start();
    while pump.is_running() {
        app.pump_round(&c, screen, tl, &mut pump).unwrap();
    }
    app.pump_finish(screen, &pump).unwrap();
    pump.exit.unwrap()
}

#[test]
fn pump_runs_every_pending_task() {
    let mut app: App<Mock> = App::new();
    let mut m = Mock::new("a", vec![]);
    m.pending = 3;
    app.push(m);
    let mut screen = Recorder::default();
    let counter = Arc::new(AtomicUsize::new(5));
    let tl = TaskLifetime::new(&counter);
    let exit = run_pump(&mut app, &mut screen, &tl);
    assert!(exit == PumpExit::Completed);
    assert_eq!(app.state().done, 3);
    assert_eq!(screen.events.last().unwrap(), "display:a");
    assert!(screen.events.contains(&"spinner:false".to_string()));
}

#[test]
fn pump_without_task_only_repaints() {
    let mut app: App<Mock> = App::new();
    app.push(Mock::new("a", vec![]));
    let mut screen = Recorder::default();
    let exit = run_pump(&mut app, &mut screen, &TaskLifetime::unlimited());
    assert!(exit == PumpExit::NoTask);
    assert_eq!(screen.events, vec!["display:a".to_string()]);
}

#[test]
fn pump_stops_when_token_expires() {
    let counter = Arc::new(AtomicUsize::new(0));
    let mut app: App<Mock> = App::new();
    let mut m = Mock::new("a", vec![]);
    m.pending = 10;
    m.bump = Some(counter.clone());
    app.push(m);
    let mut screen = Recorder::default();
    let tl = TaskLifetime::new(&counter);
    let exit = run_pump(&mut app, &mut screen, &tl);
    assert!(exit == PumpExit::Expired);
    assert_eq!(app.state().done, 1);
    let n = screen.events.len();
    assert_eq!(screen.events[n - 2], "spinner:false");
    assert_eq!(screen.events[n - 1], "display:a");
}

#[test]
fn pump_with_unlimited_token_runs_to_completion() {
    let counter = Arc::new(AtomicUsize::new(0));
    let mut app: App<Mock> = App::new();
    let mut m = Mock::new("a", vec![]);
    m.pending = 4;
    m.bump = Some(counter.clone());
    app.push(m);
    let mut screen = Recorder::default();
    let exit = run_pump(&mut app, &mut screen, &TaskLifetime::unlimited());
    assert!(exit == PumpExit::Completed);
    assert_eq!(app.state().done, 4);
}
