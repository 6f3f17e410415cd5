use ruc_auth::cli::{run_cli, Cli, Command};

fn lines(verbose: bool, command: Option<Command>) -> Vec<String> {
    run_cli(&Cli { tui: false, verbose, command })
}

#[test]
fn run_with_name() {
    let out = lines(false, Some(Command::Run { name: Some("build".to_string()) }));
    assert_eq!(out, vec!["执行操作: build".to_string()]);
}

#[test]
fn run_without_name() {
    assert_eq!(lines(false, Some(Command::Run { name: None })), vec!["执行默认操作".to_string()]);
}

#[test]
fn config_with_file() {
    let out = lines(false, Some(Command::Config { file: Some("app.toml".to_string()) }));
    assert_eq!(out, vec!["配置文件路径: app.toml".to_string()]);
}

#[test]
fn config_without_file() {
    assert_eq!(lines(false, Some(Command::Config { file: None })), vec!["使用默认配置".to_string()]);
}

#[test]
fn no_subcommand_prints_usage_hints() {
    let out = lines(false, None);
    assert_eq!(out, vec!["使用 --help 查看帮助信息".to_string(), "使用 --tui 进入TUI模式".to_string()]);
}

#[test]
fn verbose_comes_first() {
    let out = lines(true, Some(Command::Run { name: None }));
    assert_eq!(out, vec!["详细模式已启用".to_string(), "执行默认操作".to_string()]);
}
