//! The control tool's commands: which of them work on the saved service
//! state, what each does to it, and what each reports.

use vstd::prelude::*;
use crate::config::string_views;
use crate::service::{reloaded, started, stopped, AdBlockService, ServiceStatus};
use crate::text::{decimal, decimal_string};

verus! {

/// A command of the control tool.
#[derive(Debug)]
pub enum Commands {
    Status,
    Enable,
    Disable,
    Restart,
    Update,
    Stats,
    Lists,
    Allow { domain: String },
    Block { domain: String },
    Remove { domain: String },
    Test { domain: String },
    Doctor,
    Logs,
    Restore,
    Uninstall,
}

/// The parsed command line of the control tool.
#[derive(Debug)]
pub struct Cli {
    pub command: Commands,
}

/// The command reads the saved service state.
pub open spec fn spec_uses_state(c: Commands) -> bool {
    c is Status || c is Enable || c is Disable || c is Restart || c is Update
}

/// The command changes the service state, which is then saved.
pub open spec fn spec_saves_state(c: Commands) -> bool {
    c is Enable || c is Disable || c is Restart || c is Update
}

/// The line that a command prints, for the commands that do not touch the
/// service state, and for those that change it.
pub open spec fn command_message(c: Commands) -> Seq<char> {
    match c {
        Commands::Enable => "Filtering enabled. Active service state saved locally."@,
        Commands::Disable =>
            "Filtering disabled. Previous network state should be restored by the service runtime."@,
        Commands::Restart => "Service restarted successfully."@,
        Commands::Update => "Runtime rules refreshed from the active configuration."@,
        Commands::Stats => "Local statistics are tracked in the service state and logs."@,
        Commands::Lists => "Loaded lists: ads, trackers, telemetry, analytics, malware."@,
        Commands::Allow { domain } => "Allowing domain: "@ + domain@,
        Commands::Block { domain } => "Blocking domain: "@ + domain@,
        Commands::Remove { domain } => "Removing domain from active rules: "@ + domain@,
        Commands::Test { domain } => "Testing domain resolution for: "@ + domain@,
        Commands::Doctor => "Running diagnostics for service, DNS, network adapters, WFP and IPC."@,
        Commands::Logs => "Showing local logs under %ProgramData%\\AdBlocker\\logs."@,
        Commands::Restore => "Restoring normal network configuration."@,
        Commands::Uninstall => "Uninstalling the service and cleaning local configuration."@,
        Commands::Status => Seq::empty(),
    }
}

/// The lines that `status` prints.
pub open spec fn status_lines(s: ServiceStatus) -> Seq<Seq<char>> {
    seq![
        "service: "@ + if s.enabled { "enabled"@ } else { "disabled"@ },
        "running: "@ + if s.running { "yes"@ } else { "no"@ },
        "profile: "@ + s.profile@,
        "rules_loaded: "@ + decimal(s.rules_loaded as nat),
    ]
}

/// The status report: whether filtering is enabled, whether the service runs,
/// the profile, and the number of rules in force.
pub fn status_report(s: &ServiceStatus) -> (lines: Vec<String>)
    ensures
        string_views(lines@) == status_lines(*s),
{
    let mut l1 = String::from_str("service: ");
    l1.append(if s.enabled { "enabled" } else { "disabled" });
    let mut l2 = String::from_str("running: ");
    l2.append(if s.running { "yes" } else { "no" });
    let mut l3 = String::from_str("profile: ");
    l3.append(s.profile.as_str());
    let mut l4 = String::from_str("rules_loaded: ");
    let n = decimal_string(s.rules_loaded);
    l4.append(n.as_str());
    let mut lines: Vec<String> = Vec::new();
    lines.push(l1);
    lines.push(l2);
    lines.push(l3);
    lines.push(l4);
    assert(string_views(lines@) =~= status_lines(*s));
    lines
}

/// A message followed by a domain.
fn with_domain(message: &str, domain: &String) -> (s: String)
    ensures
        s@ == message@ + domain@,
{
    let mut s = String::from_str(message);
    s.append(domain.as_str());
    s
}

impl Commands {
    pub fn uses_state(&self) -> (b: bool)
        ensures
            b == spec_uses_state(*self),
    {
        match self {
            Commands::Status | Commands::Enable | Commands::Disable | Commands::Restart
            | Commands::Update => true,
            _ => false,
        }
    }

    pub fn saves_state(&self) -> (b: bool)
        ensures
            b == spec_saves_state(*self),
    {
        match self {
            Commands::Enable | Commands::Disable | Commands::Restart | Commands::Update => true,
            _ => false,
        }
    }

    /// The line that the command prints; for `status` the report is built
    /// from the service state instead.
    pub fn message(&self) -> (m: String)
        ensures
            m@ == command_message(*self),
    {
        match self {
            Commands::Status => String::new(),
            Commands::Enable => String::from_str(
                "Filtering enabled. Active service state saved locally.",
            ),
            Commands::Disable => String::from_str(
                "Filtering disabled. Previous network state should be restored by the service runtime.",
            ),
            Commands::Restart => String::from_str("Service restarted successfully."),
            Commands::Update => String::from_str(
                "Runtime rules refreshed from the active configuration.",
            ),
            Commands::Stats => String::from_str(
                "Local statistics are tracked in the service state and logs.",
            ),
            Commands::Lists => String::from_str(
                "Loaded lists: ads, trackers, telemetry, analytics, malware.",
            ),
            Commands::Allow { domain } => with_domain("Allowing domain: ", domain),
            Commands::Block { domain } => with_domain("Blocking domain: ", domain),
            Commands::Remove { domain } => with_domain(
                "Removing domain from active rules: ",
                domain,
            ),
            Commands::Test { domain } => with_domain("Testing domain resolution for: ", domain),
            Commands::Doctor => String::from_str(
                "Running diagnostics for service, DNS, network adapters, WFP and IPC.",
            ),
            Commands::Logs => String::from_str(
                "Showing local logs under %ProgramData%\\AdBlocker\\logs.",
            ),
            Commands::Restore => String::from_str("Restoring normal network configuration."),
            Commands::Uninstall => String::from_str(
                "Uninstalling the service and cleaning local configuration.",
            ),
        }
    }
}

/// What carrying the command out does to the service state: `old` becomes
/// `new`.
pub open spec fn run_effect(c: Commands, old: AdBlockService, new: AdBlockService) -> bool {
    match c {
        Commands::Enable => new == started(old),
        Commands::Disable => new == stopped(old),
        Commands::Restart => new == started(stopped(old)),
        Commands::Update => reloaded(old, new),
        _ => new == old,
    }
}

/// The lines that carrying the command out prints, given the state before.
pub open spec fn run_lines(c: Commands, old: AdBlockService) -> Seq<Seq<char>> {
    if c is Status {
        status_lines(old.status)
    } else {
        seq![command_message(c)]
    }
}

/// Law: a command whose run can change the service state is one whose state
/// is saved afterwards, and one that uses the saved state; a command whose
/// printed lines can depend on the service state uses the saved state; a
/// command whose state is saved uses the saved state; and a command that
/// does not use the saved state neither changes a service nor prints
/// anything that depends on one.
pub proof fn law_state_commands(
    c: Commands,
    s: AdBlockService,
    t: AdBlockService,
    s2: AdBlockService,
)
    ensures
        run_effect(c, s, t) && t != s ==> spec_saves_state(c) && spec_uses_state(c),
        run_lines(c, s) != run_lines(c, s2) ==> spec_uses_state(c),
        spec_saves_state(c) ==> spec_uses_state(c),
        !spec_uses_state(c) ==> (run_effect(c, s, t) ==> t == s) && run_lines(c, s) == run_lines(
            c,
            s2,
        ),
{
}

impl Cli {
    /// Carries the command out on the service state and returns the lines it
    /// prints: `status` reports and changes nothing; `enable`, `disable`,
    /// `restart` (stop, then start) and `update` change the state and print
    /// their message; every other command changes nothing and prints its
    /// message.
    pub fn run(&self, service: &mut AdBlockService) -> (lines: Vec<String>)
        ensures
            match self.command {
                Commands::Status => *final(service) == *old(service) && string_views(lines@)
                    == status_lines(old(service).status),
                Commands::Enable => *final(service) == started(*old(service)),
                Commands::Disable => *final(service) == stopped(*old(service)),
                Commands::Restart => *final(service) == started(stopped(*old(service))),
                Commands::Update => reloaded(*old(service), *final(service)),
                _ => *final(service) == *old(service),
            },
            !(self.command is Status) ==> string_views(lines@) == seq![command_message(self.command)],
            run_effect(self.command, *old(service), *final(service)),
            string_views(lines@) == run_lines(self.command, *old(service)),
    {
        match &self.command {
            Commands::Status => {
                let snapshot = service.status_snapshot();
                return status_report(&snapshot);
            },
            Commands::Enable => service.enable(),
            Commands::Disable => service.disable(),
            Commands::Restart => {
                service.stop();
                service.start();
            },
            Commands::Update => service.update_runtime_rules(),
            _ => {},
        }
        let mut lines: Vec<String> = Vec::new();
        lines.push(self.command.message());
        assert(string_views(lines@) =~= seq![command_message(self.command)]);
        lines
    }
}

} // verus!
