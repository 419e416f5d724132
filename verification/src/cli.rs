//! The command-line grammar: the subcommands and flags the tool accepts,
//! parsed by a verified walk over the argument vector.

use vstd::prelude::*;
use vstd::string::{StrSliceExecFns, StringExecFns};

use crate::text::str_eq;

verus! {

/// The parsed command line.
#[derive(Debug)]
pub struct Args {
    pub command: Command,
}

/// The subcommands of the tool.
#[derive(Debug)]
pub enum Command {
    /// Start a session, optionally named; without a name the caller detects
    /// one from the current directory.  `--attach` and `--no-attach` steer
    /// attachment, `--no-attach` winning; `--append` asks to extend a
    /// present session.
    Start { name: Option<String>, attach: bool, no_attach: bool, append: bool },
    /// List the available session configurations.
    List,
    /// Stop a named session.
    Stop { name: String },
}

/// The walk over the arguments of the start subcommand, carrying the state
/// gathered so far: a known flag sets its field, one bare word becomes the
/// session name, and anything else — an unknown flag, or a second bare word
/// — refuses the whole line.  Attachment defaults to on.
pub open spec fn spec_parse_start(
    rest: Seq<Seq<char>>,
    name: Option<Seq<char>>,
    attach: bool,
    no_attach: bool,
    append: bool,
) -> Option<(Option<Seq<char>>, bool, bool, bool)>
    decreases rest.len(),
{
    if rest.len() == 0 {
        Some((name, attach, no_attach, append))
    } else {
        let a = rest[0];
        if a == "--attach"@ {
            spec_parse_start(rest.drop_first(), name, true, no_attach, append)
        } else if a == "--no-attach"@ {
            spec_parse_start(rest.drop_first(), name, attach, true, append)
        } else if a == "--append"@ {
            spec_parse_start(rest.drop_first(), name, attach, no_attach, true)
        } else if a.len() > 0 && a[0] == '-' {
            None
        } else if name is None {
            spec_parse_start(rest.drop_first(), Some(a), attach, no_attach, append)
        } else {
            None
        }
    }
}

/// Whether an argument vector parses: a program name, then one of the three
/// subcommands with well-formed arguments.
pub open spec fn spec_args_ok(args: Seq<Seq<char>>) -> bool {
    args.len() >= 2 && {
        let sub = args[1];
        if sub == "start"@ {
            spec_parse_start(args.skip(2), None, true, false, false) is Some
        } else if sub == "list"@ {
            args.len() == 2
        } else if sub == "stop"@ {
            args.len() == 3 && !(args[2].len() > 0 && args[2][0] == '-')
        } else {
            false
        }
    }
}

/// Whether a command is the parse of an argument vector.
pub open spec fn command_matches(args: Seq<Seq<char>>, c: Command) -> bool {
    args.len() >= 2 && {
        let sub = args[1];
        if sub == "start"@ {
            match spec_parse_start(args.skip(2), None, true, false, false) {
                Some(st) => c matches Command::Start { name, attach, no_attach, append }
                    && (match (name, st.0) {
                    (Some(n), Some(v)) => n@ == v,
                    (None, None) => true,
                    _ => false,
                }) && attach == st.1 && no_attach == st.2 && append == st.3,
                None => false,
            }
        } else if sub == "list"@ {
            args.len() == 2 && c is List
        } else if sub == "stop"@ {
            args.len() == 3 && (c matches Command::Stop { name } && name@ == args[2])
        } else {
            false
        }
    }
}

fn starts_with_dash(s: &str) -> (r: bool)
    ensures
        r == (s@.len() > 0 && s@[0] == '-'),
{
    if s.is_empty() {
        false
    } else {
        s.get_char(0) == '-'
    }
}

impl Args {
    /// Parses an argument vector, program name first.  The grammar: `start`
    /// with an optional session name and the flags `--attach`, `--no-attach`
    /// and `--append` in any order; `list` alone; `stop` with a required
    /// name.  Anything else is refused with a message.
    #[verifier::loop_isolation(false)]
    pub fn parse_from(args: &Vec<String>) -> (r: Result<Args, String>)
        ensures
            match r {
                Ok(a) => spec_args_ok(args.deep_view()) && command_matches(
                    args.deep_view(),
                    a.command,
                ),
                Err(_) => !spec_args_ok(args.deep_view()),
            },
    {
        let ghost dv = args.deep_view();
        if args.len() < 2 {
            return Err(String::from_str("a subcommand is required"));
        }
        let sub = &args[1];
        if str_eq(sub.as_str(), "start") {
            let mut name: Option<String> = None;
            let mut attach = true;
            let mut no_attach = false;
            let mut append = false;
            let mut i: usize = 2;
            proof {
                assert(dv.skip(2).skip(0) =~= dv.skip(2));
            }
            while i < args.len()
                invariant
                    2 <= i <= args.len(),
                    spec_parse_start(dv.skip(2), None, true, false, false) == spec_parse_start(
                        dv.skip(i as int),
                        match name {
                            Some(n) => Some(n@),
                            None => None,
                        },
                        attach,
                        no_attach,
                        append,
                    ),
                decreases args.len() - i,
            {
                proof {
                    assert(dv.skip(i as int)[0] == dv[i as int]);
                    assert(dv.skip(i as int).drop_first() =~= dv.skip(i as int + 1));
                }
                let a = &args[i];
                if str_eq(a.as_str(), "--attach") {
                    attach = true;
                } else if str_eq(a.as_str(), "--no-attach") {
                    no_attach = true;
                } else if str_eq(a.as_str(), "--append") {
                    append = true;
                } else if starts_with_dash(a.as_str()) {
                    return Err(String::from_str("unexpected flag"));
                } else if name.is_none() {
                    name = Some(a.clone());
                } else {
                    return Err(String::from_str("unexpected argument"));
                }
                i = i + 1;
            }
            proof {
                assert(dv.skip(args@.len() as int) =~= Seq::<Seq<char>>::empty());
            }
            Ok(Args { command: Command::Start { name, attach, no_attach, append } })
        } else if str_eq(sub.as_str(), "list") {
            if args.len() == 2 {
                Ok(Args { command: Command::List })
            } else {
                Err(String::from_str("unexpected argument"))
            }
        } else if str_eq(sub.as_str(), "stop") {
            if args.len() != 3 {
                Err(String::from_str("a session name is required"))
            } else {
                let name = &args[2];
                if starts_with_dash(name.as_str()) {
                    Err(String::from_str("unexpected flag"))
                } else {
                    Ok(Args { command: Command::Stop { name: name.clone() } })
                }
            }
        } else {
            Err(String::from_str("unknown subcommand"))
        }
    }
}

} // verus!
