use zicade::cli::{parse_args, Command};

fn args(parts: &[&str]) -> Vec<String> {
    parts.iter().map(|s| (*s).to_owned()).collect()
}

#[test]
fn empty_args_is_console_run() {
    assert_eq!(parse_args(&[]), Command::Run { config_path: None });
}

#[test]
fn run_keyword_is_console_run() {
    assert_eq!(
        parse_args(&args(&["run"])),
        Command::Run { config_path: None }
    );
}

#[test]
fn run_keyword_takes_optional_config_path() {
    assert_eq!(
        parse_args(&args(&["run", "C:\\cfg.json"])),
        Command::Run {
            config_path: Some("C:\\cfg.json".to_owned()),
        }
    );
}

#[test]
fn bare_path_is_console_run_with_that_path() {
    assert_eq!(
        parse_args(&args(&["C:\\cfg.json"])),
        Command::Run {
            config_path: Some("C:\\cfg.json".to_owned()),
        }
    );
}

#[test]
fn service_run_is_service_run() {
    assert_eq!(parse_args(&args(&["service", "run"])), Command::ServiceRun);
}

#[test]
fn service_install_without_name() {
    assert_eq!(
        parse_args(&args(&["service", "install"])),
        Command::ServiceInstall { name: None }
    );
}

#[test]
fn service_install_with_name() {
    assert_eq!(
        parse_args(&args(&["service", "install", "--name", "Zicade-Test"])),
        Command::ServiceInstall {
            name: Some("Zicade-Test".to_owned()),
        }
    );
}

#[test]
fn service_uninstall_without_name() {
    assert_eq!(
        parse_args(&args(&["service", "uninstall"])),
        Command::ServiceUninstall { name: None }
    );
}

#[test]
fn service_uninstall_with_name() {
    assert_eq!(
        parse_args(&args(&["service", "uninstall", "--name", "Zicade-Test"])),
        Command::ServiceUninstall {
            name: Some("Zicade-Test".to_owned()),
        }
    );
}

#[test]
fn help_flags() {
    assert_eq!(parse_args(&args(&["--help"])), Command::Help);
    assert_eq!(parse_args(&args(&["-h"])), Command::Help);
    assert_eq!(parse_args(&args(&["help"])), Command::Help);
}

#[test]
fn unknown_service_subcommand() {
    assert_eq!(
        parse_args(&args(&["service", "frobnicate"])),
        Command::Unknown("service frobnicate".to_owned())
    );
}

#[test]
fn bare_service_is_unknown() {
    assert_eq!(
        parse_args(&args(&["service"])),
        Command::Unknown("service".to_owned())
    );
}

#[test]
fn unknown_leading_flag() {
    assert_eq!(
        parse_args(&args(&["--nope"])),
        Command::Unknown("--nope".to_owned())
    );
}

#[test]
fn name_flag_without_value_is_no_name() {
    assert_eq!(
        parse_args(&args(&["service", "install", "--name"])),
        Command::ServiceInstall { name: None }
    );
}

#[test]
fn name_flag_after_other_tokens_is_found() {
    assert_eq!(
        parse_args(&args(&["service", "uninstall", "x", "--name", "N"])),
        Command::ServiceUninstall {
            name: Some("N".to_owned()),
        }
    );
}

#[test]
fn run_ignores_tokens_after_the_path() {
    assert_eq!(
        parse_args(&args(&["run", "a.json", "b.json"])),
        Command::Run {
            config_path: Some("a.json".to_owned()),
        }
    );
}
