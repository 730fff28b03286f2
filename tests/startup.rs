use desktop_bootstrap::{
    fatal_diagnostic, plugin_at, Action, Bootstrap, Outcome, Plugin, Step, FAILURE_STATUS,
    PLUGIN_COUNT, STEP_COUNT,
};

fn register(p: Plugin) -> Action {
    Action::Perform(Step::RegisterPlugin(p))
}

fn advance(b: &mut Bootstrap, n: usize) {
    for _ in 0..n {
        b.report(Outcome::Succeeded);
    }
}

#[test]
fn plugins_in_declared_order() {
    assert_eq!(PLUGIN_COUNT, 5);
    assert_eq!(plugin_at(0), Plugin::Updater);
    assert_eq!(plugin_at(1), Plugin::Process);
    assert_eq!(plugin_at(2), Plugin::Dialog);
    assert_eq!(plugin_at(3), Plugin::Shell);
    assert_eq!(plugin_at(4), Plugin::Opener);
}

#[test]
fn successful_startup_asks_for_every_step_in_order() {
    let mut b = Bootstrap::new();
    assert_eq!(STEP_COUNT, 8);
    assert_eq!(b.completed_steps(), 0);
    assert!(!b.has_failed());
    let mut actions = vec![b.next_action()];
    for _ in 0..STEP_COUNT {
        actions.push(b.report(Outcome::Succeeded));
    }
    let expected = vec![
        register(Plugin::Updater),
        register(Plugin::Process),
        register(Plugin::Dialog),
        register(Plugin::Shell),
        register(Plugin::Opener),
        Action::Perform(Step::BuildMenu),
        Action::Perform(Step::InstallMenu),
        Action::Perform(Step::RunEventLoop),
        Action::Finish,
    ];
    assert_eq!(actions, expected);
    assert_eq!(b.completed_steps(), 8);
}

#[test]
fn two_startups_register_the_same_plugins() {
    let mut first = Vec::new();
    let mut second = Vec::new();
    for out in [&mut first, &mut second] {
        let mut b = Bootstrap::new();
        while let Action::Perform(Step::RegisterPlugin(p)) = b.next_action() {
            out.push(p);
            b.report(Outcome::Succeeded);
        }
        assert_eq!(b.next_action(), Action::Perform(Step::BuildMenu));
    }
    assert_eq!(first, second);
    assert_eq!(
        first,
        vec![Plugin::Updater, Plugin::Process, Plugin::Dialog, Plugin::Shell, Plugin::Opener]
    );
}

#[test]
fn menu_build_failure_aborts_before_event_loop() {
    let mut b = Bootstrap::new();
    advance(&mut b, 5);
    assert_eq!(b.next_action(), Action::Perform(Step::BuildMenu));
    assert_eq!(b.report(Outcome::Failed), Action::Abort { status: 101 });
    assert!(b.has_failed());
    for _ in 0..4 {
        assert_eq!(b.report(Outcome::Succeeded), Action::Abort { status: 101 });
    }
    assert_eq!(b.completed_steps(), 5);
}

#[test]
fn menu_install_failure_aborts_before_event_loop() {
    let mut b = Bootstrap::new();
    advance(&mut b, 6);
    assert_eq!(b.next_action(), Action::Perform(Step::InstallMenu));
    assert_eq!(b.report(Outcome::Failed), Action::Abort { status: 101 });
    assert_eq!(b.report(Outcome::Succeeded), Action::Abort { status: 101 });
    assert_eq!(b.completed_steps(), 6);
}

#[test]
fn event_loop_failure_exits_with_nonzero_status_and_message() {
    let mut b = Bootstrap::new();
    advance(&mut b, 7);
    assert_eq!(b.next_action(), Action::Perform(Step::RunEventLoop));
    let a = b.report(Outcome::Failed);
    assert_eq!(a, Action::Abort { status: FAILURE_STATUS });
    assert_ne!(FAILURE_STATUS, 0);
    let msg = fatal_diagnostic();
    assert!(!msg.is_empty());
    assert_eq!(msg, "error while running tauri application");
}

#[test]
fn registration_failure_aborts() {
    let mut b = Bootstrap::new();
    advance(&mut b, 2);
    assert_eq!(b.report(Outcome::Failed), Action::Abort { status: 101 });
    assert_eq!(b.completed_steps(), 2);
}

#[test]
fn reports_after_finish_change_nothing() {
    let mut b = Bootstrap::new();
    advance(&mut b, 8);
    assert_eq!(b.next_action(), Action::Finish);
    assert_eq!(b.report(Outcome::Failed), Action::Finish);
    assert_eq!(b.report(Outcome::Succeeded), Action::Finish);
    assert!(!b.has_failed());
    assert_eq!(b.completed_steps(), 8);
}
