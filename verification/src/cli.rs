//! Command-line configuration: the repository coordinates, the access
//! token, and an optional single pull-request number.
//!
//! The grammar is a flat list of flags, each followed by its value as the
//! next argument: `--owner`/`-o`, `--repo`/`-r`, `--personal-token` (also
//! written `--token` or `-t`), and `--pr` with a decimal number. Owner and
//! repository are required; the token may instead come from the
//! environment value handed in beside the arguments.

use vstd::prelude::*;
use crate::numfmt::{all_digits, dec_val, parse_u64};

verus! {

/// The parsed command line.
pub struct Cli {
    pub owner: String,
    pub repo: String,
    pub personal_token: String,
    pub pr: Option<u64>,
}

/// Why a command line was rejected.
#[derive(Clone, Copy, Debug, PartialEq, Eq, Structural)]
pub enum CliError {
    /// An argument that is not one of the known flags.
    UnknownArg,
    /// A flag stood last, with no value after it.
    MissingValue,
    /// The same flag was given twice.
    DuplicateFlag,
    /// The value of `--pr` is not a decimal 64-bit number.
    InvalidPrNumber,
    /// No `--owner` was given.
    MissingOwner,
    /// No `--repo` was given.
    MissingRepo,
    /// No token was given, neither as a flag nor from the environment.
    MissingToken,
}

/// What the flags seen so far have bound.
pub struct CliAcc {
    pub owner: Option<String>,
    pub repo: Option<String>,
    pub token: Option<String>,
    pub pr: Option<u64>,
}

pub open spec fn is_owner_flag(a: Seq<char>) -> bool {
    a == "--owner"@ || a == "-o"@
}

pub open spec fn is_repo_flag(a: Seq<char>) -> bool {
    a == "--repo"@ || a == "-r"@
}

pub open spec fn is_token_flag(a: Seq<char>) -> bool {
    a == "--personal-token"@ || a == "--token"@ || a == "-t"@
}

pub open spec fn is_pr_flag(a: Seq<char>) -> bool {
    a == "--pr"@
}

/// A valid `--pr` value: a nonempty string of decimal digits whose value
/// fits in 64 bits.
pub open spec fn valid_pr_value(s: Seq<char>) -> bool {
    s.len() > 0 && all_digits(s) && dec_val(s) <= u64::MAX
}

/// The outcome once every argument is consumed: owner and repository must
/// have been bound, and the token falls back to the environment value.
pub open spec fn finish_spec(acc: CliAcc, env_token: Option<String>) -> Result<Cli, CliError> {
    match acc.owner {
        None => Err(CliError::MissingOwner),
        Some(owner) => match acc.repo {
            None => Err(CliError::MissingRepo),
            Some(repo) => match acc.token {
                Some(token) => Ok(
                    Cli { owner, repo, personal_token: token, pr: acc.pr },
                ),
                None => match env_token {
                    Some(token) => Ok(
                        Cli { owner, repo, personal_token: token, pr: acc.pr },
                    ),
                    None => Err(CliError::MissingToken),
                },
            },
        },
    }
}

/// Parses the arguments from position `i` on, with `acc` holding what the
/// earlier arguments bound.
pub open spec fn parse_from(
    args: Seq<String>,
    env_token: Option<String>,
    i: int,
    acc: CliAcc,
) -> Result<Cli, CliError>
    decreases args.len() - i,
{
    if i < 0 || i >= args.len() {
        finish_spec(acc, env_token)
    } else {
        let a = args[i]@;
        if is_owner_flag(a) {
            if acc.owner is Some {
                Err(CliError::DuplicateFlag)
            } else if i + 1 >= args.len() {
                Err(CliError::MissingValue)
            } else {
                parse_from(
                    args,
                    env_token,
                    i + 2,
                    CliAcc {
                        owner: Some(args[i + 1]),
                        repo: acc.repo,
                        token: acc.token,
                        pr: acc.pr,
                    },
                )
            }
        } else if is_repo_flag(a) {
            if acc.repo is Some {
                Err(CliError::DuplicateFlag)
            } else if i + 1 >= args.len() {
                Err(CliError::MissingValue)
            } else {
                parse_from(
                    args,
                    env_token,
                    i + 2,
                    CliAcc {
                        owner: acc.owner,
                        repo: Some(args[i + 1]),
                        token: acc.token,
                        pr: acc.pr,
                    },
                )
            }
        } else if is_token_flag(a) {
            if acc.token is Some {
                Err(CliError::DuplicateFlag)
            } else if i + 1 >= args.len() {
                Err(CliError::MissingValue)
            } else {
                parse_from(
                    args,
                    env_token,
                    i + 2,
                    CliAcc {
                        owner: acc.owner,
                        repo: acc.repo,
                        token: Some(args[i + 1]),
                        pr: acc.pr,
                    },
                )
            }
        } else if is_pr_flag(a) {
            if acc.pr is Some {
                Err(CliError::DuplicateFlag)
            } else if i + 1 >= args.len() {
                Err(CliError::MissingValue)
            } else if !valid_pr_value(args[i + 1]@) {
                Err(CliError::InvalidPrNumber)
            } else {
                parse_from(
                    args,
                    env_token,
                    i + 2,
                    CliAcc {
                        owner: acc.owner,
                        repo: acc.repo,
                        token: acc.token,
                        pr: Some(dec_val(args[i + 1]@) as u64),
                    },
                )
            }
        } else {
            Err(CliError::UnknownArg)
        }
    }
}

/// The meaning of a whole command line (the program's name left out),
/// beside the token the environment offers.
pub open spec fn parse_spec(args: Seq<String>, env_token: Option<String>) -> Result<Cli, CliError> {
    parse_from(
        args,
        env_token,
        0,
        CliAcc { owner: None, repo: None, token: None, pr: None },
    )
}

fn is_flag(a: &String, long: &str, short: &str) -> (b: bool)
    ensures
        b == (a@ == long@ || a@ == short@),
{
    let l = String::from_str(long);
    let s = String::from_str(short);
    a.eq(&l) || a.eq(&s)
}

impl Cli {
    /// Parses the command-line arguments, the program's name left out,
    /// with `env_token` the token the environment offers as a fallback.
    pub fn init(args: &Vec<String>, env_token: Option<String>) -> (r: Result<Cli, CliError>)
        ensures
            r == parse_spec(args@, env_token),
    {
        let mut acc = CliAcc { owner: None, repo: None, token: None, pr: None };
        let mut i: usize = 0;
        while i < args.len()
            invariant
                0 <= i <= args.len(),
                parse_spec(args@, env_token) == parse_from(args@, env_token, i as int, acc),
            decreases args.len() - i,
        {
            let a = &args[i];
            if is_flag(a, "--owner", "-o") {
                if acc.owner.is_some() {
                    return Err(CliError::DuplicateFlag);
                }
                if i + 1 >= args.len() {
                    return Err(CliError::MissingValue);
                }
                acc.owner = Some(args[i + 1].clone());
                i = i + 2;
            } else if is_flag(a, "--repo", "-r") {
                if acc.repo.is_some() {
                    return Err(CliError::DuplicateFlag);
                }
                if i + 1 >= args.len() {
                    return Err(CliError::MissingValue);
                }
                acc.repo = Some(args[i + 1].clone());
                i = i + 2;
            } else if is_flag(a, "--personal-token", "-t") || is_flag(a, "--token", "-t") {
                if acc.token.is_some() {
                    return Err(CliError::DuplicateFlag);
                }
                if i + 1 >= args.len() {
                    return Err(CliError::MissingValue);
                }
                acc.token = Some(args[i + 1].clone());
                i = i + 2;
            } else if a.eq(&String::from_str("--pr")) {
                if acc.pr.is_some() {
                    return Err(CliError::DuplicateFlag);
                }
                if i + 1 >= args.len() {
                    return Err(CliError::MissingValue);
                }
                match parse_u64(args[i + 1].as_str()) {
                    Some(n) => {
                        acc.pr = Some(n);
                        i = i + 2;
                    },
                    None => {
                        return Err(CliError::InvalidPrNumber);
                    },
                }
            } else {
                return Err(CliError::UnknownArg);
            }
        }
        let owner = match acc.owner {
            Some(o) => o,
            None => {
                return Err(CliError::MissingOwner);
            },
        };
        let repo = match acc.repo {
            Some(v) => v,
            None => {
                return Err(CliError::MissingRepo);
            },
        };
        let token = match acc.token {
            Some(t) => t,
            None => match env_token {
                Some(t) => t,
                None => {
                    return Err(CliError::MissingToken);
                },
            },
        };
        Ok(Cli { owner, repo, personal_token: token, pr: acc.pr })
    }
}

} // verus!
