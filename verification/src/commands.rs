//! The command language: free text typed after `:` is tokenized on
//! whitespace and parsed into a closed set of commands. Malformed input
//! becomes `Unknown` with a human-readable reason; parsing never fails.

use vstd::prelude::*;
use vstd::string::StrSliceExecFns;
use vstd::string::StringExecFns;
use crate::config::SecurityConfig;
use crate::config::SpecSecurityConfig;
use crate::strutil::is_cmd_space;
use crate::strutil::is_cmd_space_exec;
use crate::strutil::str_eq;

verus! {

#[derive(Debug)]
pub enum Command {
    AddCluster { name: String, brokers: Vec<String>, client_id: String, security: Option<
        SecurityConfig,
    > },
    RemoveCluster { name: String },
    SwitchCluster { name: String },
    ListClusters,
    ManageClusters,
    Status,
    Connect,
    Disconnect,
    Quit,
    Unknown(String),
}

/// The mathematical shape of a parsed command.
pub enum SpecCommand {
    AddCluster { name: Seq<char>, brokers: Seq<Seq<char>>, client_id: Seq<char>, security: Option<
        SpecSecurityConfig,
    > },
    RemoveCluster { name: Seq<char> },
    SwitchCluster { name: Seq<char> },
    ListClusters,
    ManageClusters,
    Status,
    Connect,
    Disconnect,
    Quit,
    Unknown(Seq<char>),
}

impl View for Command {
    type V = SpecCommand;

    open spec fn view(&self) -> SpecCommand {
        match self {
            Command::AddCluster { name, brokers, client_id, security } => SpecCommand::AddCluster {
                name: name@,
                brokers: brokers.deep_view(),
                client_id: client_id@,
                security: security.deep_view(),
            },
            Command::RemoveCluster { name } => SpecCommand::RemoveCluster { name: name@ },
            Command::SwitchCluster { name } => SpecCommand::SwitchCluster { name: name@ },
            Command::ListClusters => SpecCommand::ListClusters,
            Command::ManageClusters => SpecCommand::ManageClusters,
            Command::Status => SpecCommand::Status,
            Command::Connect => SpecCommand::Connect,
            Command::Disconnect => SpecCommand::Disconnect,
            Command::Quit => SpecCommand::Quit,
            Command::Unknown(m) => SpecCommand::Unknown(m@),
        }
    }
}

impl DeepView for Command {
    type V = SpecCommand;

    open spec fn deep_view(&self) -> SpecCommand {
        self.view()
    }
}

/// End of the whitespace-free run starting at `i`: the first index at or
/// after `i` holding a separator, or the length.
pub open spec fn token_end(s: Seq<char>, i: int) -> int
    decreases s.len() - i,
{
    if i < 0 || i >= s.len() || is_cmd_space(s[i]) {
        i
    } else {
        token_end(s, i + 1)
    }
}

pub proof fn lemma_token_end(s: Seq<char>, i: int)
    requires
        0 <= i <= s.len(),
    ensures
        i <= token_end(s, i) <= s.len(),
    decreases s.len() - i,
{
    if i < s.len() && !is_cmd_space(s[i]) {
        lemma_token_end(s, i + 1);
    }
}

/// The whitespace-separated tokens of `s`, scanning from index `i`.
pub open spec fn tokens_from(s: Seq<char>, i: int) -> Seq<Seq<char>>
    decreases s.len() - i,
    when 0 <= i <= s.len()
    via tokens_from_decreases
{
    if i >= s.len() {
        Seq::empty()
    } else if is_cmd_space(s[i]) {
        tokens_from(s, i + 1)
    } else {
        seq![s.subrange(i, token_end(s, i))] + tokens_from(s, token_end(s, i))
    }
}

#[via_fn]
proof fn tokens_from_decreases(s: Seq<char>, i: int) {
    if 0 <= i < s.len() && !is_cmd_space(s[i]) {
        lemma_token_end(s, i);
        assert(token_end(s, i + 1) > i) by {
            lemma_token_end(s, i + 1);
        }
    }
}

/// The whitespace-separated tokens of the whole string.
pub open spec fn tokens(s: Seq<char>) -> Seq<Seq<char>> {
    tokens_from(s, 0)
}

/// First index at or after `i` holding a comma, or the length.
pub open spec fn comma_end(s: Seq<char>, i: int) -> int
    decreases s.len() - i,
{
    if i < 0 || i >= s.len() || s[i] == ',' {
        i
    } else {
        comma_end(s, i + 1)
    }
}

pub proof fn lemma_comma_end(s: Seq<char>, i: int)
    requires
        0 <= i <= s.len(),
    ensures
        i <= comma_end(s, i) <= s.len(),
    decreases s.len() - i,
{
    if i < s.len() && s[i] != ',' {
        lemma_comma_end(s, i + 1);
    }
}

/// The comma-separated pieces of `s` from index `i` on. Empty pieces are
/// kept, so a trailing comma yields a final empty piece and the empty
/// string yields one empty piece.
pub open spec fn split_commas_from(s: Seq<char>, i: int) -> Seq<Seq<char>>
    decreases s.len() - i,
    when 0 <= i <= s.len()
    via split_commas_from_decreases
{
    let e = comma_end(s, i);
    if e >= s.len() {
        seq![s.subrange(i, s.len() as int)]
    } else {
        seq![s.subrange(i, e)] + split_commas_from(s, e + 1)
    }
}

#[via_fn]
proof fn split_commas_from_decreases(s: Seq<char>, i: int) {
    if 0 <= i <= s.len() {
        lemma_comma_end(s, i);
    }
}

/// The comma-separated pieces of the whole string.
pub open spec fn split_commas(s: Seq<char>) -> Seq<Seq<char>> {
    split_commas_from(s, 0)
}

/// What `parse` returns for any input: the grammar of the command
/// language, one case per family.
pub open spec fn parse_spec(s: Seq<char>) -> SpecCommand {
    let t = tokens(s);
    if t.len() == 0 {
        SpecCommand::Unknown("Empty command"@)
    } else if t[0] == "cluster"@ {
        if t.len() < 2 {
            SpecCommand::Unknown("Missing cluster subcommand"@)
        } else if t[1] == "add"@ {
            if t.len() < 4 {
                SpecCommand::Unknown("Usage: cluster add <name> <broker1,broker2,...>"@)
            } else {
                SpecCommand::AddCluster {
                    name: t[2],
                    brokers: split_commas(t[3]),
                    client_id: "kafka-eye-"@ + t[2],
                    security: None,
                }
            }
        } else if t[1] == "remove"@ || t[1] == "rm"@ {
            if t.len() < 3 {
                SpecCommand::Unknown("Usage: cluster remove <name>"@)
            } else {
                SpecCommand::RemoveCluster { name: t[2] }
            }
        } else if t[1] == "switch"@ || t[1] == "use"@ {
            if t.len() < 3 {
                SpecCommand::Unknown("Usage: cluster switch <name>"@)
            } else {
                SpecCommand::SwitchCluster { name: t[2] }
            }
        } else if t[1] == "list"@ || t[1] == "ls"@ {
            SpecCommand::ListClusters
        } else if t[1] == "manage"@ {
            SpecCommand::ManageClusters
        } else {
            SpecCommand::Unknown("Unknown cluster subcommand: "@ + t[1])
        }
    } else if t[0] == "status"@ {
        SpecCommand::Status
    } else if t[0] == "connect"@ {
        SpecCommand::Connect
    } else if t[0] == "disconnect"@ {
        SpecCommand::Disconnect
    } else if t[0] == "q"@ || t[0] == "quit"@ {
        SpecCommand::Quit
    } else {
        SpecCommand::Unknown("Unknown command: "@ + t[0])
    }
}

/// Splits the input on whitespace.
pub fn tokenize(input: &str) -> (r: Vec<String>)
    ensures
        r.deep_view() == tokens(input@),
{
    let n = input.unicode_len();
    let mut toks: Vec<String> = Vec::new();
    let mut i: usize = 0;
    while i < n
        invariant
            n == input@.len(),
            i <= n,
            toks.deep_view() + tokens_from(input@, i as int) == tokens(input@),
        decreases n - i,
    {
        let c = input.get_char(i);
        if is_cmd_space_exec(c) {
            i = i + 1;
        } else {
            let start = i;
            let mut j = i + 1;
            while j < n && !is_cmd_space_exec(input.get_char(j))
                invariant
                    n == input@.len(),
                    start < j <= n,
                    token_end(input@, start as int) == token_end(input@, j as int),
                decreases n - j,
            {
                j = j + 1;
            }
            proof {
                assert(token_end(input@, j as int) == j as int);
            }
            let tok = input.substring_char(start, j).to_owned();
            let ghost prev = toks.deep_view();
            toks.push(tok);
            proof {
                let s = input@;
                assert(toks.deep_view() =~= prev.push(s.subrange(start as int, j as int)));
                assert(tokens_from(s, start as int) == seq![
                    s.subrange(start as int, j as int),
                ] + tokens_from(s, j as int));
                assert(prev.push(s.subrange(start as int, j as int)) + tokens_from(s, j as int)
                    =~= prev + (seq![s.subrange(start as int, j as int)] + tokens_from(
                    s,
                    j as int,
                )));
            }
            i = j;
        }
    }
    proof {
        assert(toks.deep_view() + tokens_from(input@, n as int) =~= toks.deep_view());
    }
    toks
}

/// Splits the input on commas, keeping empty pieces.
pub fn split_commas_exec(input: &str) -> (r: Vec<String>)
    ensures
        r.deep_view() == split_commas(input@),
{
    let n = input.unicode_len();
    let mut pieces: Vec<String> = Vec::new();
    let mut i: usize = 0;
    loop
        invariant_except_break
            n == input@.len(),
            i <= n,
            pieces.deep_view() + split_commas_from(input@, i as int) == split_commas(input@),
        ensures
            pieces.deep_view() == split_commas(input@),
        decreases n - i,
    {
        let mut j = i;
        while j < n && input.get_char(j) != ','
            invariant
                n == input@.len(),
                i <= j <= n,
                comma_end(input@, i as int) == comma_end(input@, j as int),
            decreases n - j,
        {
            j = j + 1;
        }
        proof {
            assert(comma_end(input@, j as int) == j as int);
        }
        let piece = input.substring_char(i, j).to_owned();
        let ghost prev = pieces.deep_view();
        pieces.push(piece);
        proof {
            let s = input@;
            assert(pieces.deep_view() =~= prev.push(s.subrange(i as int, j as int)));
        }
        if j < n {
            proof {
                let s = input@;
                assert(split_commas_from(s, i as int) == seq![
                    s.subrange(i as int, j as int),
                ] + split_commas_from(s, j + 1));
                assert(prev.push(s.subrange(i as int, j as int)) + split_commas_from(s, j + 1)
                    =~= prev + (seq![s.subrange(i as int, j as int)] + split_commas_from(
                    s,
                    j + 1,
                )));
            }
            i = j + 1;
        } else {
            proof {
                let s = input@;
                assert(split_commas_from(s, i as int) == seq![s.subrange(i as int, n as int)]);
                assert(pieces.deep_view() =~= prev + seq![s.subrange(i as int, n as int)]);
            }
            break;
        }
    }
    pieces
}

impl Command {
    /// Parses one line of command input. Every input yields a command;
    /// anything outside the grammar yields `Unknown` with the reason.
    pub fn parse(input: &str) -> (r: Command)
        ensures
            r@ == parse_spec(input@),
    {
        let toks = tokenize(input);
        let ghost t = tokens(input@);
        if toks.len() == 0 {
            return Command::Unknown("Empty command".to_owned());
        }
        if str_eq(toks[0].as_str(), "cluster") {
            if toks.len() < 2 {
                return Command::Unknown("Missing cluster subcommand".to_owned());
            }
            if str_eq(toks[1].as_str(), "add") {
                if toks.len() < 4 {
                    return Command::Unknown(
                        "Usage: cluster add <name> <broker1,broker2,...>".to_owned(),
                    );
                }
                let name = toks[2].clone();
                let brokers = split_commas_exec(toks[3].as_str());
                let mut client_id = "kafka-eye-".to_owned();
                client_id.append(toks[2].as_str());
                return Command::AddCluster { name, brokers, client_id, security: None };
            }
            if str_eq(toks[1].as_str(), "remove") || str_eq(toks[1].as_str(), "rm") {
                if toks.len() < 3 {
                    return Command::Unknown("Usage: cluster remove <name>".to_owned());
                }
                return Command::RemoveCluster { name: toks[2].clone() };
            }
            if str_eq(toks[1].as_str(), "switch") || str_eq(toks[1].as_str(), "use") {
                if toks.len() < 3 {
                    return Command::Unknown("Usage: cluster switch <name>".to_owned());
                }
                return Command::SwitchCluster { name: toks[2].clone() };
            }
            if str_eq(toks[1].as_str(), "list") || str_eq(toks[1].as_str(), "ls") {
                return Command::ListClusters;
            }
            if str_eq(toks[1].as_str(), "manage") {
                return Command::ManageClusters;
            }
            let mut m = "Unknown cluster subcommand: ".to_owned();
            m.append(toks[1].as_str());
            return Command::Unknown(m);
        }
        if str_eq(toks[0].as_str(), "status") {
            return Command::Status;
        }
        if str_eq(toks[0].as_str(), "connect") {
            return Command::Connect;
        }
        if str_eq(toks[0].as_str(), "disconnect") {
            return Command::Disconnect;
        }
        if str_eq(toks[0].as_str(), "q") || str_eq(toks[0].as_str(), "quit") {
            return Command::Quit;
        }
        let mut m = "Unknown command: ".to_owned();
        m.append(toks[0].as_str());
        Command::Unknown(m)
    }
}

/// An input with fewer tokens than its command family's minimum always
/// parses to `Unknown`: the parser reports rather than acts.
pub proof fn lemma_short_commands_unknown(s: Seq<char>)
    requires
        ({
            let t = tokens(s);
            ||| t.len() == 0
            ||| (t.len() < 2 && t[0] == "cluster"@)
            ||| (t.len() < 4 && t.len() >= 2 && t[0] == "cluster"@ && t[1] == "add"@)
            ||| (t.len() < 3 && t.len() >= 2 && t[0] == "cluster"@ && (t[1] == "remove"@ || t[1]
                == "rm"@ || t[1] == "switch"@ || t[1] == "use"@))
        }),
    ensures
        parse_spec(s) is Unknown,
{
    reveal_strlit("add");
    reveal_strlit("remove");
    reveal_strlit("rm");
    reveal_strlit("switch");
    reveal_strlit("use");
}

} // verus!
