//! What one run is asked to do, and how Studio is launched for it.

use vstd::prelude::*;
use crate::text::{contains, decimal, push_decimal, str_contains};

verus! {

/// One run: a place opened in Studio, a script executed in it, and the
/// loopback port and token by which the plugin reports back.
#[derive(Debug, PartialEq, Eq)]
pub struct PlaceRunner {
    /// Loopback port the relay listens on.
    pub port: u16,
    /// The place file Studio is asked to open.
    pub place_path: String,
    /// Token the plugin must present with every request.
    pub server_id: String,
    /// Source of the script to execute.
    pub lua_script: String,
    /// Leaves Studio's own output visible instead of discarding it.
    pub debug: bool,
}

/// The mathematical value of a [`PlaceRunner`].
pub struct PlaceRunnerView {
    pub port: u16,
    pub place_path: Seq<char>,
    pub server_id: Seq<char>,
    pub lua_script: Seq<char>,
    pub debug: bool,
}

impl View for PlaceRunner {
    type V = PlaceRunnerView;

    open spec fn view(&self) -> PlaceRunnerView {
        PlaceRunnerView {
            port: self.port,
            place_path: self.place_path@,
            server_id: self.server_id@,
            lua_script: self.lua_script@,
            debug: self.debug,
        }
    }
}

/// How Studio is started: the program, its arguments in order, and whether
/// its standard output and standard error are discarded.
#[derive(Debug, PartialEq, Eq)]
pub struct LaunchCommand {
    pub program: String,
    pub args: Vec<String>,
    pub quiet: bool,
}

/// The mathematical value of a [`LaunchCommand`].
pub struct LaunchCommandView {
    pub program: Seq<char>,
    pub args: Seq<Seq<char>>,
    pub quiet: bool,
}

impl View for LaunchCommand {
    type V = LaunchCommandView;

    open spec fn view(&self) -> LaunchCommandView {
        LaunchCommandView {
            program: self.program@,
            args: self.args.deep_view(),
            quiet: self.quiet,
        }
    }
}

/// Name of the launcher through which Studio runs where it is not native.
pub open spec fn launcher() -> Seq<char> {
    "vinegar"@
}

/// The program to execute for a Studio whose executable is at `app_path`:
/// the launcher where the path goes through it, the executable otherwise.
pub open spec fn execution_cmd(app_path: Seq<char>) -> Seq<char> {
    if contains(app_path, launcher()) {
        launcher()
    } else {
        app_path
    }
}

/// The arguments handed to `program`: the launcher takes its subcommand
/// first, and the place to open always comes last.
pub open spec fn launch_args(program: Seq<char>, place_path: Seq<char>) -> Seq<Seq<char>> {
    if contains(program, launcher()) {
        seq!["studio"@, "run"@, place_path]
    } else {
        seq![place_path]
    }
}

/// File name of the plugin written for a run on `port`. Runs on different
/// ports never share a name.
pub open spec fn plugin_file_name(port: u16) -> Seq<char> {
    "run_in_roblox-"@ + decimal(port as nat) + ".rbxmx"@
}

impl PlaceRunnerView {
    pub open spec fn launch_command(self, program: Seq<char>) -> LaunchCommandView {
        LaunchCommandView {
            program,
            args: launch_args(program, self.place_path),
            quiet: !self.debug,
        }
    }
}

impl PlaceRunner {
    /// The program to execute for a Studio whose executable is at `app_path`.
    pub fn get_studio_execution_cmd(&self, app_path: &str) -> (cmd: String)
        ensures
            cmd@ == execution_cmd(app_path@),
    {
        if str_contains(app_path, "vinegar") {
            "vinegar".to_owned()
        } else {
            app_path.to_owned()
        }
    }

    /// File name of the plugin written for this run.
    pub fn plugin_file_name(&self) -> (name: String)
        ensures
            name@ == plugin_file_name(self.port),
    {
        let mut name = "run_in_roblox-".to_owned();
        push_decimal(&mut name, self.port);
        name.append(".rbxmx");
        name
    }

    /// The command that starts `program` on this run's place.
    pub fn launch_command(&self, program: String) -> (command: LaunchCommand)
        ensures
            command@ == self@.launch_command(program@),
    {
        let mut args: Vec<String> = Vec::new();
        if str_contains(program.as_str(), "vinegar") {
            args.push("studio".to_owned());
            args.push("run".to_owned());
        }
        args.push(self.place_path.clone());
        assert(args.deep_view() =~= launch_args(program@, self.place_path@));
        LaunchCommand { program, args, quiet: !self.debug }
    }
}

} // verus!
