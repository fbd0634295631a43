//! The startup sequence of the backend worker: where it lives, how the port is
//! looked up, and the command line that starts it.

use crate::pid_list::decimal_value;
use crate::worker::WorkerSupervisor;
use vstd::prelude::*;
use vstd::string::StringExecFns;

verus! {

/// TCP port on which the worker listens for the whole application lifetime.
pub const WORKER_PORT: u16 = 8420;

/// Name of the directory that holds the worker, both beside the application's
/// source directory and among its packaged resources.
pub const BACKEND_DIR_NAME: &'static str = "backend";

/// Name of the worker's entry file, whose presence marks a usable directory.
pub const ENTRY_FILE_NAME: &'static str = "main.py";

/// Where the worker's working directory is taken from.
#[derive(Clone, Copy, Debug, PartialEq, Eq, Structural)]
pub enum BackendLocation {
    /// The directory beside the application's source directory.
    Development,
    /// The directory among the resources packaged with the application.
    Packaged,
}

/// A program and its arguments.
#[derive(Clone, Debug, PartialEq, Eq)]
pub struct CommandLine {
    pub program: String,
    pub args: Vec<String>,
}

/// A command line as contracts see it.
pub struct CommandLineView {
    pub program: Seq<char>,
    pub args: Seq<Seq<char>>,
}

impl View for CommandLine {
    type V = CommandLineView;

    open spec fn view(&self) -> CommandLineView {
        CommandLineView {
            program: self.program@,
            args: Seq::new(self.args@.len(), |i: int| self.args@[i]@),
        }
    }
}

/// What the host does to start the worker, in this order: take the working
/// directory from `location`, run `lookup` and clear away what it reports,
/// then spawn `launch` as the leader of a process group of its own.
#[derive(Clone, Debug, PartialEq, Eq)]
pub struct StartupPlan {
    pub location: BackendLocation,
    pub lookup: CommandLine,
    pub launch: CommandLine,
}

/// The worker's port as it is written on command lines.
pub open spec fn port_text() -> Seq<char> {
    "8420"@
}

/// The development directory is used where it holds the entry file, the
/// packaged one otherwise.
pub open spec fn location_for(dev_entry_present: bool) -> BackendLocation {
    if dev_entry_present {
        BackendLocation::Development
    } else {
        BackendLocation::Packaged
    }
}

/// The lookup that prints the identifiers of the processes bound to the
/// worker's port, and nothing else.
pub open spec fn lookup_line() -> CommandLineView {
    CommandLineView { program: "lsof"@, args: seq!["-ti"@, ":8420"@] }
}

/// The command that starts the worker: it listens on the loopback address at
/// the worker's port, with live reload.
pub open spec fn launch_line() -> CommandLineView {
    CommandLineView {
        program: "uv"@,
        args: seq![
            "run"@,
            "python"@,
            "-m"@,
            "uvicorn"@,
            "main:app"@,
            "--host"@,
            "127.0.0.1"@,
            "--port"@,
            "8420"@,
            "--reload"@,
        ],
    }
}

pub fn choose_location(dev_entry_present: bool) -> (location: BackendLocation)
    ensures
        location == location_for(dev_entry_present),
{
    if dev_entry_present {
        BackendLocation::Development
    } else {
        BackendLocation::Packaged
    }
}

pub fn lookup_command() -> (line: CommandLine)
    ensures
        line@ == lookup_line(),
{
    let mut args: Vec<String> = Vec::new();
    args.push(String::from_str("-ti"));
    args.push(String::from_str(":8420"));
    let line = CommandLine { program: String::from_str("lsof"), args };
    assert(line@.args =~= lookup_line().args);
    line
}

pub fn worker_command() -> (line: CommandLine)
    ensures
        line@ == launch_line(),
{
    let mut args: Vec<String> = Vec::new();
    args.push(String::from_str("run"));
    args.push(String::from_str("python"));
    args.push(String::from_str("-m"));
    args.push(String::from_str("uvicorn"));
    args.push(String::from_str("main:app"));
    args.push(String::from_str("--host"));
    args.push(String::from_str("127.0.0.1"));
    args.push(String::from_str("--port"));
    args.push(String::from_str("8420"));
    args.push(String::from_str("--reload"));
    let line = CommandLine { program: String::from_str("uv"), args };
    assert(line@.args =~= launch_line().args);
    line
}

/// The lookup asks for the port that the worker is told to listen on, and
/// that port is `WORKER_PORT`.
pub proof fn lemma_one_port()
    ensures
        launch_line().args[7] == "--port"@,
        launch_line().args[8] == port_text(),
        lookup_line().args[1] == ":"@ + port_text(),
        decimal_value(port_text()) == WORKER_PORT,
{
    reveal_strlit("8420");
    reveal_strlit(":8420");
    reveal_strlit(":");
    assert(":8420"@ =~= ":"@ + "8420"@);
    let text = "8420"@;
    reveal_with_fuel(decimal_value, 5);
    assert(text.drop_last() =~= seq!['8', '4', '2']);
    assert(text.drop_last().drop_last() =~= seq!['8', '4']);
    assert(text.drop_last().drop_last().drop_last() =~= seq!['8']);
    assert(text.drop_last().drop_last().drop_last().drop_last() =~= Seq::<char>::empty());
}

impl WorkerSupervisor {
    /// The startup sequence, or `None` where no worker may be started: while
    /// one is held, or after shutdown. Refusing here keeps the lookup from
    /// clearing away the very worker that is running.
    pub fn plan_startup(&self, dev_entry_present: bool) -> (plan: Option<StartupPlan>)
        ensures
            plan is Some <==> self@.may_spawn(),
            plan matches Some(p) ==> {
                &&& p.location == location_for(dev_entry_present)
                &&& p.lookup@ == lookup_line()
                &&& p.launch@ == launch_line()
            },
    {
        if self.may_spawn() {
            Some(
                StartupPlan {
                    location: choose_location(dev_entry_present),
                    lookup: lookup_command(),
                    launch: worker_command(),
                },
            )
        } else {
            None
        }
    }
}

} // verus!
