//! The installer's decisions: which commands to run on which platform, and
//! what each launch outcome means for the caller.
//!
//! Launching the processes is outside work; the library fixes the commands
//! and maps the reported events, so installation is supported exactly on
//! the Windows-equivalent target and refused at once everywhere else.

use vstd::prelude::*;

use crate::client::res_view;

verus! {

/// The target the application runs on, as far as installation cares.
#[derive(Clone, Copy, PartialEq, Eq, Structural)]
pub enum Platform {
    Windows,
    Other,
}

/// One external command: a program name and its arguments.
pub struct CommandSpec {
    pub program: String,
    pub args: Vec<String>,
}

/// The two commands an installation runs: the package-manager install,
/// then the background serve process.
pub struct InstallPlan {
    pub installer: CommandSpec,
    pub server: CommandSpec,
}

/// What happened when the plan was carried out: the install command could
/// not be launched, the serve process could not be spawned, or both went
/// through.
pub enum InstallEvent {
    LaunchFailed { message: String },
    ServeFailed { message: String },
    Started,
}

/// The install commands for one platform: the fixed package-manager and
/// serve invocations on the Windows-equivalent target, and a fixed
/// unsupported error everywhere else.
pub fn install_commands(platform: Platform) -> (r: Result<InstallPlan, String>)
    ensures
        match r {
            Ok(plan) => platform == Platform::Windows && plan.installer.program@ == "winget"@
                && plan.installer.args@.len() == 5 && plan.installer.args@[0]@ == "install"@
                && plan.installer.args@[1]@ == "Ollama.Ollama"@ && plan.installer.args@[2]@
                == "--accept-source-agreements"@ && plan.installer.args@[3]@ == "--silent"@
                && plan.installer.args@[4]@ == "--disable-interactivity"@
                && plan.server.program@ == "ollama"@ && plan.server.args@.len() == 1
                && plan.server.args@[0]@ == "serve"@,
            Err(e) => platform == Platform::Other && e@
                == "Automatic installation only supported on Windows"@,
        },
{
    match platform {
        Platform::Windows => {
            let mut installer_args: Vec<String> = Vec::new();
            installer_args.push(String::from_str("install"));
            installer_args.push(String::from_str("Ollama.Ollama"));
            installer_args.push(String::from_str("--accept-source-agreements"));
            installer_args.push(String::from_str("--silent"));
            installer_args.push(String::from_str("--disable-interactivity"));
            let mut server_args: Vec<String> = Vec::new();
            server_args.push(String::from_str("serve"));
            Ok(
                InstallPlan {
                    installer: CommandSpec {
                        program: String::from_str("winget"),
                        args: installer_args,
                    },
                    server: CommandSpec { program: String::from_str("ollama"), args: server_args },
                },
            )
        },
        Platform::Other => Err(String::from_str("Automatic installation only supported on Windows")),
    }
}

/// What each installation event means for the caller: a prefixed error for
/// either failed launch, and the fixed completion message once the serve
/// process is up.
pub open spec fn install_result_spec(event: InstallEvent) -> Result<Seq<char>, Seq<char>> {
    match event {
        InstallEvent::LaunchFailed { message } => Err("Failed to start installation: "@ + message@),
        InstallEvent::ServeFailed { message } => Err("Failed to start Ollama: "@ + message@),
        InstallEvent::Started => Ok("Installation complete, Ollama started"@),
    }
}

/// Maps one installation event to the operation's result.
pub fn install_result(event: InstallEvent) -> (r: Result<String, String>)
    ensures
        res_view(r) == install_result_spec(event),
{
    match event {
        InstallEvent::LaunchFailed { message } => Err(
            String::from_str("Failed to start installation: ").concat(message.as_str()),
        ),
        InstallEvent::ServeFailed { message } => Err(
            String::from_str("Failed to start Ollama: ").concat(message.as_str()),
        ),
        InstallEvent::Started => Ok(String::from_str("Installation complete, Ollama started")),
    }
}

} // verus!
