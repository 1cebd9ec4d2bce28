//! The outside commands that check a document and reload a server.

use crate::infrastructure::webservers::rules::Dialect;
use vstd::prelude::*;

verus! {

/// A program and its arguments.
#[derive(Debug, Clone)]
pub struct Command {
    pub program: String,
    pub args: Vec<String>,
}

/// A command as a mathematical value.
pub struct CommandView {
    pub program: Seq<char>,
    pub args: Seq<Seq<char>>,
}

/// The texts that the strings of `v` hold.
pub open spec fn string_views(v: Seq<String>) -> Seq<Seq<char>> {
    Seq::new(v.len(), |i: int| v[i]@)
}

impl View for Command {
    type V = CommandView;

    open spec fn view(&self) -> CommandView {
        CommandView { program: self.program@, args: string_views(self.args@) }
    }
}

/// The command with program `program` and the three arguments `a`, `b`, `c`.
fn command3(program: &str, a: &str, b: &str, c: &str) -> (cmd: Command)
    ensures
        cmd@ == (CommandView { program: program@, args: seq![a@, b@, c@] }),
{
    let mut args: Vec<String> = Vec::new();
    args.push(a.to_owned());
    args.push(b.to_owned());
    args.push(c.to_owned());
    proof {
        assert(string_views(args@) =~= seq![a@, b@, c@]);
    }
    Command { program: program.to_owned(), args }
}

/// The command with program `program` and the two arguments `a`, `b`.
fn command2(program: &str, a: &str, b: &str) -> (cmd: Command)
    ensures
        cmd@ == (CommandView { program: program@, args: seq![a@, b@] }),
{
    let mut args: Vec<String> = Vec::new();
    args.push(a.to_owned());
    args.push(b.to_owned());
    proof {
        assert(string_views(args@) =~= seq![a@, b@]);
    }
    Command { program: program.to_owned(), args }
}

/// The `i`-th command to try for a syntax check of the document at `path`.
/// nginx has one checker; Apache is installed under three names.
pub open spec fn syntax_check(d: Dialect, path: Seq<char>, i: int) -> Option<CommandView> {
    match d {
        Dialect::Nginx => if i == 0 {
            Some(CommandView { program: "nginx"@, args: seq!["-t"@, "-c"@, path] })
        } else {
            None
        },
        Dialect::Apache => if i == 0 {
            Some(CommandView { program: "apache2ctl"@, args: seq!["-t"@, "-f"@, path] })
        } else if i == 1 {
            Some(CommandView { program: "apachectl"@, args: seq!["-t"@, "-f"@, path] })
        } else if i == 2 {
            Some(CommandView { program: "httpd"@, args: seq!["-t"@, "-f"@, path] })
        } else {
            None
        },
    }
}

/// The `i`-th command to try for a syntax check of the document at `path`.
pub fn nth_syntax_check(d: Dialect, path: &str, i: usize) -> (r: Option<Command>)
    ensures
        match r {
            Some(cmd) => syntax_check(d, path@, i as int) == Some(cmd@),
            None => syntax_check(d, path@, i as int) is None,
        },
{
    match d {
        Dialect::Nginx => if i == 0 {
            Some(command3("nginx", "-t", "-c", path))
        } else {
            None
        },
        Dialect::Apache => if i == 0 {
            Some(command3("apache2ctl", "-t", "-f", path))
        } else if i == 1 {
            Some(command3("apachectl", "-t", "-f", path))
        } else if i == 2 {
            Some(command3("httpd", "-t", "-f", path))
        } else {
            None
        },
    }
}

/// The `i`-th command to try for a reload. Apache runs as a service under
/// two names.
pub open spec fn reload_command(d: Dialect, i: int) -> Option<CommandView> {
    match d {
        Dialect::Nginx => if i == 0 {
            Some(CommandView { program: "systemctl"@, args: seq!["reload"@, "nginx"@] })
        } else {
            None
        },
        Dialect::Apache => if i == 0 {
            Some(CommandView { program: "systemctl"@, args: seq!["reload"@, "apache2"@] })
        } else if i == 1 {
            Some(CommandView { program: "systemctl"@, args: seq!["reload"@, "httpd"@] })
        } else {
            None
        },
    }
}

/// The `i`-th command to try for a reload.
pub fn nth_reload_command(d: Dialect, i: usize) -> (r: Option<Command>)
    ensures
        match r {
            Some(cmd) => reload_command(d, i as int) == Some(cmd@),
            None => reload_command(d, i as int) is None,
        },
{
    match d {
        Dialect::Nginx => if i == 0 {
            Some(command2("systemctl", "reload", "nginx"))
        } else {
            None
        },
        Dialect::Apache => if i == 0 {
            Some(command2("systemctl", "reload", "apache2"))
        } else if i == 1 {
            Some(command2("systemctl", "reload", "httpd"))
        } else {
            None
        },
    }
}

} // verus!
