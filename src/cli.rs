//! Command mode: the lines printed for each subcommand.
use vstd::prelude::*;

verus! {

/// A subcommand of command mode.
#[derive(Clone, Debug, PartialEq, Eq)]
pub enum Command {
    /// Perform an operation, by name or the default one.
    Run { name: Option<String> },
    /// Show the configuration file in use, given or default.
    Config { file: Option<String> },
}

/// The parsed command line.
#[derive(Clone, Debug, PartialEq, Eq)]
pub struct Cli {
    /// Enter the terminal UI instead of command mode.
    pub tui: bool,
    /// Print a diagnostic line before dispatching.
    pub verbose: bool,
    pub command: Option<Command>,
}

/// The lines printed for a subcommand, or the usage hints when there is none.
pub open spec fn command_lines(c: Option<Command>) -> Seq<Seq<char>> {
    match c {
        Some(Command::Run { name }) => match name {
            Some(n) => seq!["执行操作: "@ + n@],
            None => seq!["执行默认操作"@],
        },
        Some(Command::Config { file }) => match file {
            Some(f) => seq!["配置文件路径: "@ + f@],
            None => seq!["使用默认配置"@],
        },
        None => seq!["使用 --help 查看帮助信息"@, "使用 --tui 进入TUI模式"@],
    }
}

/// Everything command mode prints, line by line.
pub open spec fn cli_lines(verbose: bool, c: Option<Command>) -> Seq<Seq<char>> {
    if verbose {
        seq!["详细模式已启用"@] + command_lines(c)
    } else {
        command_lines(c)
    }
}

pub open spec fn strings_view(v: Seq<String>) -> Seq<Seq<char>> {
    v.map_values(|s: String| s@)
}

fn push_line(out: &mut Vec<String>, line: String)
    ensures
        strings_view(final(out)@) == strings_view(old(out)@).push(line@),
{
    out.push(line);
    assert(strings_view(out@) =~= strings_view(old(out)@).push(line@));
}

/// The lines command mode prints for a parsed command line.
pub fn run_cli(cli: &Cli) -> (r: Vec<String>)
    ensures
        strings_view(r@) == cli_lines(cli.verbose, cli.command),
{
    let mut out: Vec<String> = Vec::new();
    if cli.verbose {
        push_line(&mut out, String::from_str("详细模式已启用"));
    }
    let ghost start = strings_view(out@);
    match &cli.command {
        Some(Command::Run { name }) => match name {
            Some(n) => push_line(&mut out, String::from_str("执行操作: ").concat(n.as_str())),
            None => push_line(&mut out, String::from_str("执行默认操作")),
        },
        Some(Command::Config { file }) => match file {
            Some(f) => push_line(&mut out, String::from_str("配置文件路径: ").concat(f.as_str())),
            None => push_line(&mut out, String::from_str("使用默认配置")),
        },
        None => {
            push_line(&mut out, String::from_str("使用 --help 查看帮助信息"));
            push_line(&mut out, String::from_str("使用 --tui 进入TUI模式"));
        },
    }
    assert(strings_view(out@) =~= start + command_lines(cli.command));
    assert(strings_view(out@) =~= cli_lines(cli.verbose, cli.command));
    out
}

} // verus!
