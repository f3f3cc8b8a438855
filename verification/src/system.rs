//! The commands the watchdog hands to the operating system.
//!
//! Nothing here runs a command. The caller runs what it is given and comes
//! back for the next one.

use vstd::prelude::*;
use vstd::string::*;

verus! {

/// The family of operating systems the process runs on.
#[derive(Debug, Clone, Copy, PartialEq, Eq, Structural)]
pub enum Platform {
    Unix,
    Windows,
}

/// Seconds to wait after one shutdown command before the next is tried.
pub const SHUTDOWN_PAUSE_SECS: u64 = 7;

/// One attempt to power the host off.
#[derive(Debug)]
pub struct ShutdownAttempt {
    /// The shell command to run.
    pub command: String,
    /// Whether the start of the shutdown is announced before the command.
    pub announce: bool,
    /// Seconds to wait after the command before asking for the next attempt.
    pub pause_secs: u64,
}

/// Every way to power the host off was tried and the process is still alive.
#[derive(Debug, Clone, Copy, PartialEq, Eq, Structural)]
pub struct ShutdownError {
    /// How many commands were tried.
    pub attempts: usize,
}

/// A `ShutdownAttempt` as plain values.
pub struct ShutdownAttemptView {
    pub command: Seq<char>,
    pub announce: bool,
    pub pause_secs: u64,
}

impl View for ShutdownAttempt {
    type V = ShutdownAttemptView;

    open spec fn view(&self) -> ShutdownAttemptView {
        ShutdownAttemptView {
            command: self.command@,
            announce: self.announce,
            pause_secs: self.pause_secs,
        }
    }
}

/// The commands that power the host off, in the order in which they are
/// tried.
pub open spec fn shutdown_commands(platform: Platform) -> Seq<Seq<char>> {
    match platform {
        Platform::Unix => seq![
            "shutdown -h now"@,
            "poweroff"@,
            "poweroff -f"@,
            "halt"@,
            "init 0"@,
            "systemctl poweroff"@,
        ],
        Platform::Windows => seq!["shutdown /s /t 0"@],
    }
}

/// Attempt number `attempt`, counted from zero: the command at that place,
/// announced where it is the first, and followed by a pause where another
/// command comes after it. Past the last command there is no attempt left.
pub open spec fn shutdown_plan(platform: Platform, attempt: usize) -> Result<
    ShutdownAttemptView,
    ShutdownError,
> {
    let commands = shutdown_commands(platform);
    if attempt < commands.len() {
        Ok(
            ShutdownAttemptView {
                command: commands[attempt as int],
                announce: attempt == 0,
                pause_secs: if attempt + 1 < commands.len() {
                    SHUTDOWN_PAUSE_SECS
                } else {
                    0
                },
            },
        )
    } else {
        Err(ShutdownError { attempts: commands.len() as usize })
    }
}

/// The outcome of asking for an attempt, as plain values.
pub open spec fn plan_view(result: Result<ShutdownAttempt, ShutdownError>) -> Result<
    ShutdownAttemptView,
    ShutdownError,
> {
    match result {
        Ok(attempt) => Ok(attempt@),
        Err(error) => Err(error),
    }
}

/// The command that probes `ip` once.
pub open spec fn ping_command(platform: Platform, ip: Seq<char>) -> Seq<char> {
    match platform {
        Platform::Unix => "ping -c 1 "@ + ip,
        Platform::Windows => "ping -n 1 "@ + ip,
    }
}

/// The shell that runs a command and the option that introduces it.
pub open spec fn shell_of(platform: Platform) -> (Seq<char>, Seq<char>) {
    match platform {
        Platform::Unix => ("sh"@, "-c"@),
        Platform::Windows => ("cmd"@, "/C"@),
    }
}

/// The command that prepares the console, where the platform needs one.
pub open spec fn console_command(platform: Platform) -> Option<Seq<char>> {
    match platform {
        Platform::Unix => None,
        Platform::Windows => Some("chcp 65001"@),
    }
}

/// The operating system's side of the watchdog: which commands probe a
/// target, power the host off and prepare the console.
#[derive(Debug, Clone, Copy)]
pub struct DefaultSystem;

impl Default for DefaultSystem {
    fn default() -> Self {
        DefaultSystem
    }
}

impl DefaultSystem {
    pub fn new() -> Self {
        DefaultSystem
    }

    /// The shell that runs a command and the option that introduces it.
    pub fn shell(&self, platform: Platform) -> (shell: (&'static str, &'static str))
        ensures
            (shell.0@, shell.1@) == shell_of(platform),
    {
        match platform {
            Platform::Unix => ("sh", "-c"),
            Platform::Windows => ("cmd", "/C"),
        }
    }

    /// The command that probes `ip` once.
    pub fn build_ping_command(&self, platform: Platform, ip: &str) -> (command: String)
        ensures
            command@ == ping_command(platform, ip@),
    {
        let mut command = match platform {
            Platform::Unix => String::from_str("ping -c 1 "),
            Platform::Windows => String::from_str("ping -n 1 "),
        };
        command.append(ip);
        command
    }

    /// The command that prepares the console, where the platform needs one.
    pub fn console_setup(&self, platform: Platform) -> (command: Option<String>)
        ensures
            command.deep_view() == console_command(platform),
    {
        match platform {
            Platform::Unix => None,
            Platform::Windows => Some(String::from_str("chcp 65001")),
        }
    }

    /// The next attempt to power the host off, `attempt` of them having been
    /// made already. The caller runs the command whether or not the ones
    /// before it failed, waits as long as the attempt says and asks again.
    /// The error means that nothing is left to try.
    pub fn shutdown(&self, platform: Platform, attempt: usize) -> (result: Result<
        ShutdownAttempt,
        ShutdownError,
    >)
        ensures
            plan_view(result) == shutdown_plan(platform, attempt),
    {
        match platform {
            Platform::Unix => {
                let command = if attempt == 0 {
                    "shutdown -h now"
                } else if attempt == 1 {
                    "poweroff"
                } else if attempt == 2 {
                    "poweroff -f"
                } else if attempt == 3 {
                    "halt"
                } else if attempt == 4 {
                    "init 0"
                } else if attempt == 5 {
                    "systemctl poweroff"
                } else {
                    return Err(ShutdownError { attempts: 6 });
                };
                Ok(
                    ShutdownAttempt {
                        command: String::from_str(command),
                        announce: attempt == 0,
                        pause_secs: if attempt < 5 {
                            SHUTDOWN_PAUSE_SECS
                        } else {
                            0
                        },
                    },
                )
            },
            Platform::Windows => {
                if attempt == 0 {
                    Ok(
                        ShutdownAttempt {
                            command: String::from_str("shutdown /s /t 0"),
                            announce: true,
                            pause_secs: 0,
                        },
                    )
                } else {
                    Err(ShutdownError { attempts: 1 })
                }
            },
        }
    }
}

/// Every command of the platform is handed out once, in order, and then the
/// error: the attempts `0` up to the number of commands are `Ok`, all later
/// ones are not.
pub proof fn lemma_shutdown_sequence_ends(platform: Platform, attempt: usize)
    ensures
        shutdown_plan(platform, attempt) is Ok <==> attempt < shutdown_commands(platform).len(),
        shutdown_plan(platform, attempt) matches Ok(step) ==> step.command == shutdown_commands(
            platform,
        )[attempt as int],
        shutdown_commands(platform).len() >= 1,
{
}

} // verus!
