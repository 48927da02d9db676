use dotter_watch::debounce::DebounceState;
use dotter_watch::debounce::Debouncer;
use dotter_watch::event_loop::DeployError;
use dotter_watch::event_loop::EventLoop;
use dotter_watch::event_loop::LoopAction;
use dotter_watch::event_loop::LoopSignal;
use dotter_watch::event_loop::LoopState;
use dotter_watch::filter::ExclusionFilter;

fn changed(paths: &[&str]) -> LoopSignal {
    LoopSignal::FilesChanged(paths.iter().map(|p| p.to_string()).collect())
}

fn terminate() -> LoopSignal {
    LoopSignal::Terminate(String::from("interrupt"))
}

fn project_loop() -> EventLoop {
    let filter = ExclusionFilter::build("/proj/.cache", "/proj/.cache.toml").unwrap();
    EventLoop::new(String::from("/proj"), filter, Debouncer::new())
}

fn failure(message: &str) -> Result<(), DeployError> {
    Err(DeployError { message: String::from(message) })
}

#[test]
fn new_loop_is_watching() {
    let lp = project_loop();
    assert_eq!(lp.state(), LoopState::Watching);
    assert_eq!(lp.watch_root(), "/proj");
    assert_eq!(lp.debounce_state(), DebounceState { last_trigger: None, window: 500 });
}

#[test]
fn scenario_cache_change_is_not_dispatched() {
    let mut lp = project_loop();
    assert_eq!(lp.handle(changed(&["/proj/.cache/build.json"]), 0), LoopAction::Discard);
    assert_eq!(lp.state(), LoopState::Watching);
    assert_eq!(lp.debounce_state().last_trigger, None);
}

#[test]
fn scenario_debounced_sequence() {
    let mut lp = project_loop();
    assert_eq!(lp.handle(changed(&["/proj/src/main.x"]), 0), LoopAction::Deploy);
    assert_eq!(lp.state(), LoopState::Draining);
    assert!(lp.deploy_finished(Ok(())).is_none());
    assert_eq!(lp.state(), LoopState::Watching);
    assert_eq!(lp.handle(changed(&["/proj/src/main.x"]), 200), LoopAction::Debounced);
    assert_eq!(lp.state(), LoopState::Watching);
    assert_eq!(lp.debounce_state().last_trigger, Some(0));
    assert_eq!(lp.handle(changed(&["/proj/src/main.x"]), 600), LoopAction::Deploy);
    assert_eq!(lp.state(), LoopState::Draining);
    assert_eq!(lp.debounce_state().last_trigger, Some(600));
}

#[test]
fn debounced_batch_is_not_deployed_later() {
    let mut lp = project_loop();
    assert_eq!(lp.handle(changed(&["/proj/a"]), 0), LoopAction::Deploy);
    lp.deploy_finished(Ok(()));
    assert_eq!(lp.handle(changed(&["/proj/b"]), 100), LoopAction::Debounced);
    assert_eq!(lp.handle(changed(&["/proj/.cache/x"]), 900), LoopAction::Discard);
    assert_eq!(lp.debounce_state().last_trigger, Some(0));
    assert_eq!(lp.state(), LoopState::Watching);
}

#[test]
fn irrelevant_batch_does_not_touch_the_debouncer() {
    let mut lp = project_loop();
    assert_eq!(lp.handle(changed(&[".git/HEAD", "DOTTER_SYMLINK_TEST"]), 10), LoopAction::Discard);
    assert_eq!(lp.debounce_state().last_trigger, None);
    assert_eq!(lp.handle(changed(&["/proj/a"]), 20), LoopAction::Deploy);
    assert_eq!(lp.debounce_state().last_trigger, Some(20));
}

#[test]
fn mixed_batch_is_deployed() {
    let mut lp = project_loop();
    let action = lp.handle(changed(&["/proj/.cache/x", "/proj/src/main.x", ".git/HEAD"]), 5);
    assert_eq!(action, LoopAction::Deploy);
}

#[test]
fn empty_batch_is_discarded() {
    let mut lp = project_loop();
    assert_eq!(lp.handle(changed(&[]), 5), LoopAction::Discard);
    assert_eq!(lp.state(), LoopState::Watching);
}

#[test]
fn terminate_quits_from_watching() {
    let mut lp = project_loop();
    assert_eq!(lp.handle(terminate(), 0), LoopAction::Quit);
    assert_eq!(lp.state(), LoopState::Terminated);
}

#[test]
fn pending_batch_is_not_dispatched_after_terminate() {
    let mut lp = project_loop();
    assert_eq!(lp.handle(terminate(), 0), LoopAction::Quit);
    assert_eq!(lp.handle(changed(&["/proj/src/main.x"]), 1), LoopAction::Discard);
    assert_eq!(lp.handle(changed(&["/proj/src/main.x"]), 10_000), LoopAction::Discard);
    assert_eq!(lp.state(), LoopState::Terminated);
    assert_eq!(lp.debounce_state().last_trigger, None);
}

#[test]
fn terminate_during_a_deployment_lets_it_finish() {
    let mut lp = project_loop();
    assert_eq!(lp.handle(changed(&["/proj/src/main.x"]), 0), LoopAction::Deploy);
    assert_eq!(lp.handle(terminate(), 1), LoopAction::Quit);
    assert_eq!(lp.state(), LoopState::Terminated);
    let shown = lp.deploy_finished(failure("disk full"));
    assert_eq!(shown.map(|e| e.message), Some(String::from("disk full")));
    assert_eq!(lp.state(), LoopState::Terminated);
    assert_eq!(lp.handle(changed(&["/proj/src/main.x"]), 5_000), LoopAction::Discard);
}

#[test]
fn terminate_twice_stays_terminated() {
    let mut lp = project_loop();
    assert_eq!(lp.handle(terminate(), 0), LoopAction::Quit);
    assert_eq!(lp.handle(terminate(), 1), LoopAction::Quit);
    assert_eq!(lp.state(), LoopState::Terminated);
}

#[test]
fn failed_deployment_returns_to_watching() {
    let mut lp = project_loop();
    assert_eq!(lp.handle(changed(&["/proj/src/main.x"]), 0), LoopAction::Deploy);
    let shown = lp.deploy_finished(failure("template error"));
    assert_eq!(shown.map(|e| e.message), Some(String::from("template error")));
    assert_eq!(lp.state(), LoopState::Watching);
    assert_eq!(lp.debounce_state().last_trigger, Some(0));
    assert_eq!(lp.handle(changed(&["/proj/src/main.x"]), 700), LoopAction::Deploy);
    assert_eq!(lp.state(), LoopState::Draining);
}

#[test]
fn failed_and_successful_deployments_leave_the_same_loop() {
    let mut a = project_loop();
    let mut b = project_loop();
    a.handle(changed(&["/proj/x"]), 40);
    b.handle(changed(&["/proj/x"]), 40);
    assert!(a.deploy_finished(Ok(())).is_none());
    assert!(b.deploy_finished(failure("no")).is_some());
    assert_eq!(a.state(), b.state());
    assert_eq!(a.debounce_state(), b.debounce_state());
    assert_eq!(a.handle(changed(&["/proj/x"]), 100), LoopAction::Debounced);
    assert_eq!(b.handle(changed(&["/proj/x"]), 100), LoopAction::Debounced);
}

#[test]
fn batch_during_a_deployment_is_deferred() {
    let mut lp = project_loop();
    assert_eq!(lp.handle(changed(&["/proj/a"]), 0), LoopAction::Deploy);
    assert_eq!(lp.handle(changed(&["/proj/b"]), 900), LoopAction::Deferred);
    assert_eq!(lp.state(), LoopState::Draining);
    assert_eq!(lp.debounce_state().last_trigger, Some(0));
    lp.deploy_finished(Ok(()));
    assert_eq!(lp.handle(changed(&["/proj/b"]), 900), LoopAction::Deploy);
}

#[test]
fn runtime_error_is_logged_and_changes_nothing() {
    let mut lp = project_loop();
    let error = || LoopSignal::RuntimeError(String::from("inotify: too many watches"));
    assert_eq!(lp.handle(error(), 0), LoopAction::LogError);
    assert_eq!(lp.state(), LoopState::Watching);
    assert_eq!(lp.handle(changed(&["/proj/a"]), 1), LoopAction::Deploy);
    assert_eq!(lp.handle(error(), 2), LoopAction::LogError);
    assert_eq!(lp.state(), LoopState::Draining);
    assert_eq!(lp.handle(terminate(), 3), LoopAction::Quit);
    assert_eq!(lp.handle(error(), 4), LoopAction::LogError);
    assert_eq!(lp.state(), LoopState::Terminated);
}

#[test]
fn report_without_a_deployment_changes_nothing() {
    let mut lp = project_loop();
    assert!(lp.deploy_finished(Ok(())).is_none());
    assert_eq!(lp.state(), LoopState::Watching);
    assert_eq!(lp.debounce_state().last_trigger, None);
}

#[test]
fn termination_on_an_event_comes_before_its_paths() {
    let paths = vec![String::from("/proj/src/main.x")];
    match LoopSignal::from_event(Some(String::from("terminate")), paths.clone()) {
        LoopSignal::Terminate(reason) => assert_eq!(reason, "terminate"),
        other => panic!("unexpected signal {:?}", other),
    }
    match LoopSignal::from_event(None, paths.clone()) {
        LoopSignal::FilesChanged(batch) => assert_eq!(batch, paths),
        other => panic!("unexpected signal {:?}", other),
    }
    let mut lp = project_loop();
    let signal = LoopSignal::from_event(Some(String::from("interrupt")), paths);
    assert_eq!(lp.handle(signal, 0), LoopAction::Quit);
    assert_eq!(lp.state(), LoopState::Terminated);
    assert_eq!(lp.debounce_state().last_trigger, None);
}

#[test]
fn custom_window_in_the_loop() {
    let filter = ExclusionFilter::build(".dotter/cache", ".dotter/cache.toml").unwrap();
    let mut lp = EventLoop::new(String::from("."), filter, Debouncer::with_window(1_000));
    assert_eq!(lp.handle(changed(&["bashrc"]), 0), LoopAction::Deploy);
    lp.deploy_finished(Ok(()));
    assert_eq!(lp.handle(changed(&["bashrc"]), 999), LoopAction::Debounced);
    assert_eq!(lp.handle(changed(&[".dotter/cache/bashrc"]), 1_000), LoopAction::Discard);
    assert_eq!(lp.handle(changed(&["bashrc"]), 1_000), LoopAction::Deploy);
}
