use iprr::shell::{
    classify_startup, normalize_line, on_channel_closed, seed_last_ip, ClosedAction, InputEvent,
    ShellAction, ShellState, StartupMode,
};
use iprr::{SearchProviderEnum, Searcher};

fn fresh_shell(last_ip: &str) -> ShellState {
    ShellState::new(
        Searcher::new(SearchProviderEnum::QQWry(None)),
        last_ip.to_string(),
    )
}

fn provider_name(shell: &ShellState) -> String {
    shell.searcher.search_provider.get_source()
}

#[test]
fn empty_line_is_prompt() {
    let mut shell = fresh_shell("");
    let a = shell.step("");
    assert!(matches!(a, ShellAction::Prompt));
    assert_eq!(provider_name(&shell), "QQWRY");
}

#[test]
fn quit_without_history_persists_nothing() {
    for quit in ["q", "exit", "quit"] {
        let mut shell = fresh_shell("");
        match shell.step(quit) {
            ShellAction::Exit { persist } => assert_eq!(persist, None),
            other => panic!("expected Exit, got {:?}", other),
        }
        assert!(shell.exited);
    }
}

#[test]
fn quit_with_history_persists_it() {
    let mut shell = fresh_shell("9.9.9.9");
    match shell.step("quit") {
        ShellAction::Exit { persist } => assert_eq!(persist.as_deref(), Some("9.9.9.9")),
        other => panic!("expected Exit, got {:?}", other),
    }
}

#[test]
fn help_keeps_state() {
    let mut shell = fresh_shell("");
    assert!(matches!(shell.step("help"), ShellAction::Help));
    assert!(matches!(shell.step("h"), ShellAction::Help));
    assert_eq!(provider_name(&shell), "QQWRY");
}

#[test]
fn select_switches_channel() {
    let mut shell = fresh_shell("");
    match shell.step("select ip138") {
        ShellAction::Switched { source } => assert_eq!(source, "IP138.COM"),
        other => panic!("expected Switched, got {:?}", other),
    }
    match shell.step("select uutool") {
        ShellAction::Switched { source } => assert_eq!(source, "UUTOOL.CN"),
        other => panic!("expected Switched, got {:?}", other),
    }
    match shell.step("select ip2region") {
        ShellAction::Switched { source } => assert_eq!(source, "IP2REGION"),
        other => panic!("expected Switched, got {:?}", other),
    }
    match shell.step("select qqwry") {
        ShellAction::Switched { source } => assert_eq!(source, "QQWRY"),
        other => panic!("expected Switched, got {:?}", other),
    }
}

#[test]
fn select_takes_the_last_token() {
    let mut shell = fresh_shell("");
    match shell.step("select something ip138") {
        ShellAction::Switched { source } => assert_eq!(source, "IP138.COM"),
        other => panic!("expected Switched, got {:?}", other),
    }
}

#[test]
fn unknown_channel_keeps_provider() {
    let mut shell = fresh_shell("");
    shell.step("select ip138");
    match shell.step("select nosuch") {
        ShellAction::ChannelError { channel } => assert_eq!(channel, "nosuch"),
        other => panic!("expected ChannelError, got {:?}", other),
    }
    // The provider is still the one selected before the bad line.
    assert_eq!(provider_name(&shell), "IP138.COM");
}

#[test]
fn bare_select_is_a_channel_error() {
    let mut shell = fresh_shell("");
    match shell.step("select") {
        ShellAction::ChannelError { channel } => assert_eq!(channel, "select"),
        other => panic!("expected ChannelError, got {:?}", other),
    }
    assert_eq!(provider_name(&shell), "QQWRY");
}

#[test]
fn select_without_space_is_a_channel_error() {
    let mut shell = fresh_shell("");
    match shell.step("selectip138") {
        ShellAction::ChannelError { channel } => assert_eq!(channel, "selectip138"),
        other => panic!("expected ChannelError, got {:?}", other),
    }
    assert_eq!(provider_name(&shell), "QQWRY");
}

#[test]
fn commands_win_over_addresses() {
    // A line that is a command never dispatches, whatever the history.
    let mut shell = fresh_shell("1.1.1.1");
    assert!(matches!(shell.step("help"), ShellAction::Help));
    assert!(matches!(
        shell.step("info"),
        ShellAction::Info { .. }
    ));
    assert_eq!(shell.last_ip, "1.1.1.1");
}

#[test]
fn info_names_the_active_channel() {
    let mut shell = fresh_shell("");
    match shell.step("info") {
        ShellAction::Info { source } => assert_eq!(source, "QQWRY"),
        other => panic!("expected Info, got {:?}", other),
    }
    shell.step("select uutool");
    match shell.step("i") {
        ShellAction::Info { source } => assert_eq!(source, "UUTOOL.CN"),
        other => panic!("expected Info, got {:?}", other),
    }
}

#[test]
fn repeat_without_history_errors() {
    let mut shell = fresh_shell("");
    assert!(matches!(shell.step("!!"), ShellAction::RepeatError));
    // And nothing changed: a second try errors the same way.
    assert!(matches!(shell.step("!!"), ShellAction::RepeatError));
}

#[test]
fn repeat_redispatches_last_address() {
    let mut shell = fresh_shell("");
    shell.step("5.6.7.8");
    match shell.step("!!") {
        ShellAction::Dispatch { ip, echo_ip, update_shared } => {
            assert_eq!(ip, "5.6.7.8");
            assert!(!echo_ip);
            assert!(!update_shared);
        },
        other => panic!("expected Dispatch, got {:?}", other),
    }
}

#[test]
fn address_updates_history_and_dispatches() {
    let mut shell = fresh_shell("");
    match shell.step("1.2.3.4") {
        ShellAction::Dispatch { ip, echo_ip, update_shared } => {
            assert_eq!(ip, "1.2.3.4");
            assert!(!echo_ip);
            assert!(update_shared);
        },
        other => panic!("expected Dispatch, got {:?}", other),
    }
    assert_eq!(shell.last_ip, "1.2.3.4");
}

#[test]
fn persisted_round_trip_redispatches() {
    // Submit an address, quit, seed a fresh session with what was
    // persisted, and repeat it with `!!`.
    let mut shell = fresh_shell("");
    shell.step("8.8.4.4");
    let persisted = match shell.step("quit") {
        ShellAction::Exit { persist } => persist,
        other => panic!("expected Exit, got {:?}", other),
    };
    assert_eq!(persisted.as_deref(), Some("8.8.4.4"));

    let seeded = seed_last_ip(persisted);
    let mut restarted = fresh_shell(&seeded);
    match restarted.step("!!") {
        ShellAction::Dispatch { ip, update_shared, .. } => {
            assert_eq!(ip, "8.8.4.4");
            assert!(!update_shared);
        },
        other => panic!("expected Dispatch, got {:?}", other),
    }
}

#[test]
fn interactive_session_scenario() {
    // select ip2region, then 8.8.8.8, then !!, then quit.
    let mut shell = fresh_shell("");
    match shell.step("select ip2region") {
        ShellAction::Switched { source } => assert_eq!(source, "IP2REGION"),
        other => panic!("expected Switched, got {:?}", other),
    }
    match shell.step("8.8.8.8") {
        ShellAction::Dispatch { ip, update_shared, .. } => {
            assert_eq!(ip, "8.8.8.8");
            assert!(update_shared);
        },
        other => panic!("expected Dispatch, got {:?}", other),
    }
    match shell.step("!!") {
        ShellAction::Dispatch { ip, update_shared, .. } => {
            assert_eq!(ip, "8.8.8.8");
            assert!(!update_shared);
        },
        other => panic!("expected Dispatch, got {:?}", other),
    }
    match shell.step("quit") {
        ShellAction::Exit { persist } => assert_eq!(persist.as_deref(), Some("8.8.8.8")),
        other => panic!("expected Exit, got {:?}", other),
    }
    assert!(shell.exited);
}

#[test]
fn normalize_trims_and_lowers() {
    assert_eq!(normalize_line("  QUIT  "), "quit");
    assert_eq!(normalize_line("\tSelect IP138\n"), "select ip138");
    assert_eq!(normalize_line("1.2.3.4"), "1.2.3.4");
    assert_eq!(normalize_line("   "), "");
}

#[test]
fn startup_poll_classifies_mode() {
    match classify_startup(Some(InputEvent { line: "4.4.4.4".to_string(), interactive: false })) {
        StartupMode::OneShot(ip) => assert_eq!(ip, "4.4.4.4"),
        StartupMode::Interactive => panic!("expected OneShot"),
    }
    assert!(matches!(classify_startup(None), StartupMode::Interactive));
}

#[test]
fn seeding_reads_the_loaded_address() {
    assert_eq!(seed_last_ip(Some("7.7.7.7".to_string())), "7.7.7.7");
    assert_eq!(seed_last_ip(None), "");
}

#[test]
fn closed_channel_outcomes() {
    match on_channel_closed(true, "3.3.3.3") {
        ClosedAction::ResolveLast(ip) => assert_eq!(ip, "3.3.3.3"),
        other => panic!("expected ResolveLast, got {:?}", other),
    }
    assert!(matches!(on_channel_closed(true, ""), ClosedAction::EmptyPipeError));
    assert!(matches!(
        on_channel_closed(false, "3.3.3.3"),
        ClosedAction::ChannelClosedError
    ));
}
