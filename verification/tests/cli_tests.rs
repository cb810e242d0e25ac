use clock::cli::{Cli, Cmds, IOCmd, InCmd, OutCmd};

#[test]
fn mutating_commands_resolve_the_active_session_first() {
    assert!(Cmds::In(InCmd { job: "writing".to_string() }).needs_active_session());
    assert!(Cmds::Out(OutCmd { message: "done".to_string() }).needs_active_session());
    assert!(Cmds::Watch { n: 1 }.needs_active_session());
    assert!(!Cmds::Version.needs_active_session());
    assert!(!Cmds::LS.needs_active_session());
}

#[test]
fn command_line_holds_one_command() {
    let cli = Cli {
        command: Cmds::Watch { n: 5 },
    };
    assert_eq!(cli.command, Cmds::Watch { n: 5 });
}

#[test]
fn listing_switches_carry_their_fields() {
    let io = IOCmd {
        list: true,
        n: 2,
        export_filter: Some("week".to_string()),
    };
    assert!(io.list);
    assert_eq!(io.n, 2);
    assert_eq!(io.export_filter.as_deref(), Some("week"));
}
