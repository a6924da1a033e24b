use adblock::cli::{status_report, Cli, Commands};
use adblock::host::{
    handle_control, service_mode_requested, service_name, wait_ends, ControlEvent, ControlReply,
    WaitOutcome,
};
use adblock::service::AdBlockService;
use adblock::text::decimal_string;

#[test]
fn status_command_reports_without_changing_state() {
    let mut service = AdBlockService::new();
    let cli = Cli { command: Commands::Status };
    assert!(cli.command.uses_state());
    assert!(!cli.command.saves_state());
    let lines = cli.run(&mut service);
    assert_eq!(
        lines,
        vec!["service: enabled", "running: yes", "profile: Balanced", "rules_loaded: 28"]
    );
    service.disable();
    let lines = status_report(&service.status_snapshot());
    assert_eq!(lines[0], "service: disabled");
    assert_eq!(lines[1], "running: no");
}

#[test]
fn state_commands_change_and_save() {
    let mut service = AdBlockService::new();
    let disable = Cli { command: Commands::Disable };
    assert!(disable.command.saves_state());
    assert_eq!(
        disable.run(&mut service),
        vec!["Filtering disabled. Previous network state should be restored by the service runtime."]
    );
    assert!(!service.is_enabled());
    let enable = Cli { command: Commands::Enable };
    assert_eq!(
        enable.run(&mut service),
        vec!["Filtering enabled. Active service state saved locally."]
    );
    assert!(service.is_enabled());
    let restart = Cli { command: Commands::Restart };
    assert_eq!(restart.run(&mut service), vec!["Service restarted successfully."]);
    assert!(service.is_enabled());
    assert!(service.status.running);
    service.config.blocklist.push("example.com".to_string());
    let update = Cli { command: Commands::Update };
    assert_eq!(
        update.run(&mut service),
        vec!["Runtime rules refreshed from the active configuration."]
    );
    assert!(service.is_domain_blocked("example.com"));
}

#[test]
fn message_commands() {
    let mut service = AdBlockService::new();
    let allow = Cli { command: Commands::Allow { domain: "example.com".to_string() } };
    assert!(!allow.command.uses_state());
    assert!(!allow.command.saves_state());
    assert_eq!(allow.run(&mut service), vec!["Allowing domain: example.com"]);
    assert_eq!(
        Commands::Block { domain: "x.test".to_string() }.message(),
        "Blocking domain: x.test"
    );
    assert_eq!(
        Commands::Remove { domain: "x.test".to_string() }.message(),
        "Removing domain from active rules: x.test"
    );
    assert_eq!(
        Commands::Test { domain: "x.test".to_string() }.message(),
        "Testing domain resolution for: x.test"
    );
    assert_eq!(
        Commands::Logs.message(),
        "Showing local logs under %ProgramData%\\AdBlocker\\logs."
    );
    assert_eq!(
        Commands::Lists.message(),
        "Loaded lists: ads, trackers, telemetry, analytics, malware."
    );
    assert_eq!(Commands::Restore.message(), "Restoring normal network configuration.");
    assert_eq!(
        Commands::Uninstall.message(),
        "Uninstalling the service and cleaning local configuration."
    );
    assert_eq!(
        Commands::Doctor.message(),
        "Running diagnostics for service, DNS, network adapters, WFP and IPC."
    );
    assert_eq!(
        Commands::Stats.message(),
        "Local statistics are tracked in the service state and logs."
    );
    assert_eq!(service.status.rules_loaded, 28);
}

#[test]
fn decimal_numerals() {
    assert_eq!(decimal_string(0), "0");
    assert_eq!(decimal_string(7), "7");
    assert_eq!(decimal_string(10), "10");
    assert_eq!(decimal_string(28), "28");
    assert_eq!(decimal_string(1905), "1905");
    assert_eq!(decimal_string(usize::MAX), usize::MAX.to_string());
}

#[test]
fn host_decisions() {
    assert_eq!(service_name(), "AdBlockService");
    let d = handle_control(ControlEvent::Interrogate);
    assert_eq!(d.reply, ControlReply::NoError);
    assert!(!d.shutdown);
    assert!(handle_control(ControlEvent::Stop).shutdown);
    assert!(handle_control(ControlEvent::Shutdown).shutdown);
    let d = handle_control(ControlEvent::Other);
    assert_eq!(d.reply, ControlReply::NotImplemented);
    assert!(!d.shutdown);
    assert!(wait_ends(WaitOutcome::Signalled));
    assert!(wait_ends(WaitOutcome::Disconnected));
    assert!(!wait_ends(WaitOutcome::TimedOut));
    let args = vec!["adblock".to_string(), "--SERVICE".to_string()];
    assert!(service_mode_requested(&args));
    let args = vec!["adblock".to_string(), "status".to_string()];
    assert!(!service_mode_requested(&args));
    let args = vec!["adblock".to_string()];
    assert!(!service_mode_requested(&args));
}
