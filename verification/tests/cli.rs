use pr_report::cli::{Cli, CliError};

fn args(list: &[&str]) -> Vec<String> {
    list.iter().map(|s| s.to_string()).collect()
}

#[test]
fn init_with_long_flags() {
    let cli = Cli::init(
        &args(&["--owner", "me", "--repo", "it", "--personal-token", "tok123"]),
        None,
    )
    .unwrap();
    assert_eq!(cli.owner, "me");
    assert_eq!(cli.repo, "it");
    assert_eq!(cli.personal_token, "tok123");
    assert_eq!(cli.pr, None);
}

#[test]
fn init_with_short_flags_and_pr() {
    let cli = Cli::init(&args(&["-o", "me", "-r", "it", "-t", "tok", "--pr", "17"]), None).unwrap();
    assert_eq!(cli.owner, "me");
    assert_eq!(cli.repo, "it");
    assert_eq!(cli.personal_token, "tok");
    assert_eq!(cli.pr, Some(17));
}

#[test]
fn token_alias_is_accepted() {
    let cli = Cli::init(&args(&["-o", "me", "-r", "it", "--token", "tok"]), None).unwrap();
    assert_eq!(cli.personal_token, "tok");
}

#[test]
fn token_falls_back_to_environment() {
    let cli = Cli::init(&args(&["-o", "me", "-r", "it"]), Some("envtok".to_string())).unwrap();
    assert_eq!(cli.personal_token, "envtok");
}

#[test]
fn flag_token_wins_over_environment() {
    let cli = Cli::init(
        &args(&["-o", "me", "-r", "it", "-t", "flagtok"]),
        Some("envtok".to_string()),
    )
    .unwrap();
    assert_eq!(cli.personal_token, "flagtok");
}

#[test]
fn unknown_argument_is_rejected() {
    let r = Cli::init(&args(&["--nope"]), None);
    assert_eq!(r.err(), Some(CliError::UnknownArg));
}

#[test]
fn flag_without_value_is_rejected() {
    let r = Cli::init(&args(&["-o", "me", "--repo"]), None);
    assert_eq!(r.err(), Some(CliError::MissingValue));
}

#[test]
fn duplicate_flag_is_rejected() {
    let r = Cli::init(&args(&["-o", "me", "--owner", "you"]), None);
    assert_eq!(r.err(), Some(CliError::DuplicateFlag));
}

#[test]
fn bad_pr_number_is_rejected() {
    let r = Cli::init(&args(&["-o", "me", "-r", "it", "-t", "x", "--pr", "12b"]), None);
    assert_eq!(r.err(), Some(CliError::InvalidPrNumber));
}

#[test]
fn missing_owner_is_rejected() {
    let r = Cli::init(&args(&["-r", "it", "-t", "x"]), None);
    assert_eq!(r.err(), Some(CliError::MissingOwner));
}

#[test]
fn missing_repo_is_rejected() {
    let r = Cli::init(&args(&["-o", "me", "-t", "x"]), None);
    assert_eq!(r.err(), Some(CliError::MissingRepo));
}

#[test]
fn missing_token_everywhere_is_rejected() {
    let r = Cli::init(&args(&["-o", "me", "-r", "it"]), None);
    assert_eq!(r.err(), Some(CliError::MissingToken));
}

#[test]
fn empty_command_line_lacks_owner_first() {
    let r = Cli::init(&Vec::new(), None);
    assert_eq!(r.err(), Some(CliError::MissingOwner));
}
