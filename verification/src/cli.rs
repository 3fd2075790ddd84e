//! The command-line grammar of the client.
//!
//! Global flags come first: `-v`/`--verbose` (repeatable, counted), and
//! `-k`/`--allow-unsafe`; short flags may be clustered, as in `-vvk`.  Then
//! one command follows: `status`, `server` with one of its subcommands, or
//! `file` with one of its subcommands.  The file `update` and `download`
//! subcommands take a path and an optional `-f`/`--force` flag, in either
//! order.  Anything else — an unknown token, a missing operand, trailing
//! input — is rejected.

use vstd::prelude::*;
use vstd::string::StrSliceExecFns;
use vstd::string::StringExecFns;

verus! {

/// The parsed command line.
#[derive(Debug, Clone)]
pub struct Args {
    /// The command to run.
    pub command: Commands,
    /// Verbose level: how often the verbose flag was given (saturating).
    pub verbose: u8,
    /// Allow self-signed certificates.
    pub allow_unsafe: bool,
}

/// The top-level commands.
#[derive(Debug, Clone)]
pub enum Commands {
    /// Print the server status.
    Status,
    /// Server operations.
    Server {
        /// The server subcommand.
        command: ServerCommands,
    },
    /// File operations.
    File {
        /// The file subcommand.
        command: FileCommands,
    },
}

/// The subcommands of the server command.
#[derive(Debug, Clone)]
pub enum ServerCommands {
    /// List connected servers in detail.
    List,
    /// Discover new servers.
    Discover {
        /// Depth with which to search for servers.
        depth: Option<u8>,
    },
    /// Verify/confirm a remote server.
    Verify {
        /// Hostname of the remote server.
        hostname: String,
    },
    /// Add a new server; it must verify us before it can be used.
    New {
        /// Hostname of the remote server.
        hostname: String,
    },
    /// Delete a server, with every block saved on it.
    Delete {
        /// Hostname of the remote server.
        hostname: String,
    },
}

/// The subcommands of the file command.
#[derive(Debug, Clone)]
pub enum FileCommands {
    /// List tracked files in detail.
    List,
    /// Start tracking a new file on the server.
    Add {
        /// The file to add.
        file: String,
    },
    /// Update the file on the server with the local version.
    Update {
        /// The file to update.
        file: String,
        /// Force the update even if the server version is newer.
        force: bool,
    },
    /// Download the server version of the file.
    Download {
        /// The file to download.
        file: String,
        /// Force the download even if the local version is newer.
        force: bool,
    },
    /// Delete the file on the server (never locally).
    Delete {
        /// The file to delete on the server.
        file: String,
    },
    /// Synchronize every tracked file to its newest version, both ways.
    Sync,
}

/// The mathematical value of a parsed command line.
pub struct ArgsV {
    /// The command to run.
    pub command: CommandsV,
    /// Verbose level.
    pub verbose: u8,
    /// Allow self-signed certificates.
    pub allow_unsafe: bool,
}

/// The mathematical value of a top-level command.
pub enum CommandsV {
    /// Print the server status.
    Status,
    /// Server operations.
    Server { command: ServerCommandsV },
    /// File operations.
    File { command: FileCommandsV },
}

/// The mathematical value of a server subcommand.
pub enum ServerCommandsV {
    /// List connected servers.
    List,
    /// Discover new servers.
    Discover { depth: Option<u8> },
    /// Verify/confirm a remote server.
    Verify { hostname: Seq<char> },
    /// Add a new server.
    New { hostname: Seq<char> },
    /// Delete a server.
    Delete { hostname: Seq<char> },
}

/// The mathematical value of a file subcommand.
pub enum FileCommandsV {
    /// List tracked files.
    List,
    /// Start tracking a new file.
    Add { file: Seq<char> },
    /// Update the server version.
    Update { file: Seq<char>, force: bool },
    /// Download the server version.
    Download { file: Seq<char>, force: bool },
    /// Delete the file on the server.
    Delete { file: Seq<char> },
    /// Synchronize every tracked file.
    Sync,
}

impl View for ServerCommands {
    type V = ServerCommandsV;

    open spec fn view(&self) -> ServerCommandsV {
        match self {
            ServerCommands::List => ServerCommandsV::List,
            ServerCommands::Discover { depth } => ServerCommandsV::Discover { depth: *depth },
            ServerCommands::Verify { hostname } => ServerCommandsV::Verify { hostname: hostname@ },
            ServerCommands::New { hostname } => ServerCommandsV::New { hostname: hostname@ },
            ServerCommands::Delete { hostname } => ServerCommandsV::Delete { hostname: hostname@ },
        }
    }
}

impl View for FileCommands {
    type V = FileCommandsV;

    open spec fn view(&self) -> FileCommandsV {
        match self {
            FileCommands::List => FileCommandsV::List,
            FileCommands::Add { file } => FileCommandsV::Add { file: file@ },
            FileCommands::Update { file, force } => FileCommandsV::Update {
                file: file@,
                force: *force,
            },
            FileCommands::Download { file, force } => FileCommandsV::Download {
                file: file@,
                force: *force,
            },
            FileCommands::Delete { file } => FileCommandsV::Delete { file: file@ },
            FileCommands::Sync => FileCommandsV::Sync,
        }
    }
}

impl View for Commands {
    type V = CommandsV;

    open spec fn view(&self) -> CommandsV {
        match self {
            Commands::Status => CommandsV::Status,
            Commands::Server { command } => CommandsV::Server { command: command@ },
            Commands::File { command } => CommandsV::File { command: command@ },
        }
    }
}

impl View for Args {
    type V = ArgsV;

    open spec fn view(&self) -> ArgsV {
        ArgsV { command: self.command@, verbose: self.verbose, allow_unsafe: self.allow_unsafe }
    }
}

/// The character sequences of a token list.
pub open spec fn token_views(argv: Seq<String>) -> Seq<Seq<char>> {
    argv.map_values(|t: String| t@)
}

/// Whether a character is a decimal digit.
pub open spec fn is_digit(c: char) -> bool {
    48 <= c as u32 && c as u32 <= 57
}

/// The value of a decimal digit.
pub open spec fn digit_val(c: char) -> int {
    c as u32 - 48
}

/// The value of a sequence of decimal digits, most significant first.
pub open spec fn dec_val(s: Seq<char>) -> int
    decreases s.len(),
{
    if s.len() == 0 {
        0
    } else {
        dec_val(s.drop_last()) * 10 + digit_val(s.last())
    }
}

/// Whether every character of the sequence is a decimal digit.
pub open spec fn all_digits(s: Seq<char>) -> bool {
    forall|i: int| 0 <= i < s.len() ==> is_digit(#[trigger] s[i])
}

/// The number a token denotes, if it is a nonempty string of decimal digits
/// whose value fits in eight bits.
pub open spec fn spec_parse_u8(s: Seq<char>) -> Option<u8> {
    if s.len() > 0 && all_digits(s) && dec_val(s) <= 255 {
        Some(dec_val(s) as u8)
    } else {
        None
    }
}

/// Addition on the verbose level, saturating at its maximum.
pub open spec fn sat_add_u8(a: u8, b: int) -> u8
    recommends
        b >= 0,
{
    if a + b > 255 {
        255u8
    } else {
        (a + b) as u8
    }
}

/// Whether a token is taken as a positional operand: anything that does not
/// start with a dash.
pub open spec fn is_positional(t: Seq<char>) -> bool {
    t.len() == 0 || t[0] != '-'
}

/// Whether a token is a cluster of short global flags: a dash followed by
/// one or more flag characters, each counting verbosity or allowing unsafe
/// certificates.
pub open spec fn is_short_cluster(t: Seq<char>) -> bool {
    t.len() >= 2 && t[0] == '-' && t[1] != '-' && (forall|j: int|
        1 <= j < t.len() ==> (#[trigger] t[j]) == 'v' || t[j] == 'k')
}

/// How many verbose flags the first `end` characters of a cluster carry.
pub open spec fn count_v_upto(t: Seq<char>, end: int) -> int
    decreases end,
{
    if end <= 1 {
        0
    } else {
        count_v_upto(t, end - 1) + if t[end - 1] == 'v' {
            1int
        } else {
            0int
        }
    }
}

/// Whether the first `end` characters of a cluster carry the unsafe flag.
pub open spec fn cluster_has_k(t: Seq<char>, end: int) -> bool {
    exists|j: int| 1 <= j < end && (#[trigger] t[j]) == 'k'
}

/// Whether a token is a force flag of the file update and download
/// subcommands.
pub open spec fn is_force_flag(t: Seq<char>) -> bool {
    t == "-f"@ || t == "--force"@
}

/// The positional operand and force flag of the file update and download
/// subcommands: a path, optionally accompanied by a force flag on either
/// side.
pub open spec fn spec_parse_target(argv: Seq<Seq<char>>, i: int) -> Option<(Seq<char>, bool)> {
    if i + 1 == argv.len() && is_positional(argv[i]) {
        Some((argv[i], false))
    } else if i + 2 == argv.len() && is_positional(argv[i]) && is_force_flag(argv[i + 1]) {
        Some((argv[i], true))
    } else if i + 2 == argv.len() && is_force_flag(argv[i]) && is_positional(argv[i + 1]) {
        Some((argv[i + 1], true))
    } else {
        None
    }
}

/// The server subcommand beginning at position `i`, if the remaining tokens
/// form one.
pub open spec fn spec_parse_server(argv: Seq<Seq<char>>, i: int) -> Option<ServerCommandsV> {
    if i >= argv.len() {
        None
    } else if argv[i] == "list"@ {
        if i + 1 == argv.len() {
            Some(ServerCommandsV::List)
        } else {
            None
        }
    } else if argv[i] == "discover"@ {
        if i + 1 == argv.len() {
            Some(ServerCommandsV::Discover { depth: None })
        } else if i + 2 == argv.len() {
            match spec_parse_u8(argv[i + 1]) {
                Some(d) => Some(ServerCommandsV::Discover { depth: Some(d) }),
                None => None,
            }
        } else {
            None
        }
    } else if argv[i] == "verify"@ {
        if i + 2 == argv.len() && is_positional(argv[i + 1]) {
            Some(ServerCommandsV::Verify { hostname: argv[i + 1] })
        } else {
            None
        }
    } else if argv[i] == "new"@ {
        if i + 2 == argv.len() && is_positional(argv[i + 1]) {
            Some(ServerCommandsV::New { hostname: argv[i + 1] })
        } else {
            None
        }
    } else if argv[i] == "delete"@ {
        if i + 2 == argv.len() && is_positional(argv[i + 1]) {
            Some(ServerCommandsV::Delete { hostname: argv[i + 1] })
        } else {
            None
        }
    } else {
        None
    }
}

/// The file subcommand beginning at position `i`, if the remaining tokens
/// form one.
pub open spec fn spec_parse_file(argv: Seq<Seq<char>>, i: int) -> Option<FileCommandsV> {
    if i >= argv.len() {
        None
    } else if argv[i] == "list"@ {
        if i + 1 == argv.len() {
            Some(FileCommandsV::List)
        } else {
            None
        }
    } else if argv[i] == "add"@ {
        if i + 2 == argv.len() && is_positional(argv[i + 1]) {
            Some(FileCommandsV::Add { file: argv[i + 1] })
        } else {
            None
        }
    } else if argv[i] == "update"@ {
        match spec_parse_target(argv, i + 1) {
            Some((file, force)) => Some(FileCommandsV::Update { file, force }),
            None => None,
        }
    } else if argv[i] == "download"@ {
        match spec_parse_target(argv, i + 1) {
            Some((file, force)) => Some(FileCommandsV::Download { file, force }),
            None => None,
        }
    } else if argv[i] == "delete"@ {
        if i + 2 == argv.len() && is_positional(argv[i + 1]) {
            Some(FileCommandsV::Delete { file: argv[i + 1] })
        } else {
            None
        }
    } else if argv[i] == "sync"@ {
        if i + 1 == argv.len() {
            Some(FileCommandsV::Sync)
        } else {
            None
        }
    } else {
        None
    }
}

/// The command beginning at position `i`, with the global flags already
/// collected.
pub open spec fn spec_parse_command(
    argv: Seq<Seq<char>>,
    i: int,
    verbose: u8,
    allow_unsafe: bool,
) -> Option<ArgsV>
    recommends
        0 <= i < argv.len(),
{
    if argv[i] == "status"@ {
        if i + 1 == argv.len() {
            Some(ArgsV { command: CommandsV::Status, verbose, allow_unsafe })
        } else {
            None
        }
    } else if argv[i] == "server"@ {
        match spec_parse_server(argv, i + 1) {
            Some(command) => Some(
                ArgsV { command: CommandsV::Server { command }, verbose, allow_unsafe },
            ),
            None => None,
        }
    } else if argv[i] == "file"@ {
        match spec_parse_file(argv, i + 1) {
            Some(command) => Some(
                ArgsV { command: CommandsV::File { command }, verbose, allow_unsafe },
            ),
            None => None,
        }
    } else {
        None
    }
}

/// The command line beginning at position `i`: leading global flags, then
/// one command.
pub open spec fn spec_parse_global(
    argv: Seq<Seq<char>>,
    i: int,
    verbose: u8,
    allow_unsafe: bool,
) -> Option<ArgsV>
    recommends
        0 <= i,
    decreases argv.len() - i,
{
    if i >= argv.len() {
        None
    } else if argv[i] == "--verbose"@ {
        spec_parse_global(argv, i + 1, sat_add_u8(verbose, 1), allow_unsafe)
    } else if argv[i] == "--allow-unsafe"@ {
        spec_parse_global(argv, i + 1, verbose, true)
    } else if is_short_cluster(argv[i]) {
        spec_parse_global(
            argv,
            i + 1,
            sat_add_u8(verbose, count_v_upto(argv[i], argv[i].len() as int)),
            allow_unsafe || cluster_has_k(argv[i], argv[i].len() as int),
        )
    } else {
        spec_parse_command(argv, i, verbose, allow_unsafe)
    }
}

/// The parsed value of a whole command line (the tokens after the program
/// name), or nothing if the tokens do not form a valid command line.
pub open spec fn spec_parse(argv: Seq<Seq<char>>) -> Option<ArgsV> {
    spec_parse_global(argv, 0, 0u8, false)
}

/// Parse a token as an eight-bit decimal number, as the discovery depth
/// requires.
pub fn parse_u8(t: &String) -> (r: Option<u8>)
    ensures
        r == spec_parse_u8(t@),
{
    let s = t.as_str();
    let n = s.unicode_len();
    if n == 0 {
        return None;
    }
    let mut acc: u32 = 0;
    for i in 0..n
        invariant
            s@ == t@,
            n == t@.len(),
            acc <= 256,
            forall|j: int| 0 <= j < i ==> is_digit(#[trigger] t@[j]),
            acc <= 255 ==> acc == dec_val(t@.subrange(0, i as int)),
            acc == 256 ==> dec_val(t@.subrange(0, i as int)) > 255,
    {
        let c = s.get_char(i);
        let u = c as u32;
        if u < 48 || u > 57 {
            proof {
                assert(!is_digit(t@[i as int]));
            }
            return None;
        }
        let d = u - 48;
        proof {
            assert(t@.subrange(0, i + 1 as int).drop_last() =~= t@.subrange(0, i as int));
            assert(t@.subrange(0, i + 1 as int).last() == t@[i as int]);
        }
        acc = if acc * 10 + d > 255 {
            256
        } else {
            acc * 10 + d
        };
    }
    proof {
        assert(t@.subrange(0, n as int) =~= t@);
    }
    if acc <= 255 {
        Some(acc as u8)
    } else {
        None
    }
}

/// Whether a token is taken as a positional operand.
fn is_positional_token(t: &String) -> (r: bool)
    ensures
        r == is_positional(t@),
{
    let s = t.as_str();
    if s.unicode_len() == 0 {
        true
    } else {
        s.get_char(0) != '-'
    }
}

/// Scan a token as a cluster of short global flags; on success return how
/// many verbose flags it carries (saturating) and whether it carries the
/// unsafe flag.
fn scan_cluster(t: &String) -> (r: Option<(u8, bool)>)
    ensures
        r is Some <==> is_short_cluster(t@),
        r matches Some((v, k)) ==> {
            &&& (if count_v_upto(t@, t@.len() as int) <= 255 {
                v as int == count_v_upto(t@, t@.len() as int)
            } else {
                v == 255
            })
            &&& k == cluster_has_k(t@, t@.len() as int)
        },
{
    let s = t.as_str();
    let n = s.unicode_len();
    if n < 2 {
        return None;
    }
    if s.get_char(0) != '-' {
        return None;
    }
    if s.get_char(1) == '-' {
        return None;
    }
    let mut v: u8 = 0;
    let mut k = false;
    for i in 1..n
        invariant
            s@ == t@,
            n == t@.len(),
            n >= 2,
            t@[0] == '-',
            t@[1] != '-',
            forall|j: int| 1 <= j < i ==> (#[trigger] t@[j]) == 'v' || t@[j] == 'k',
            (if count_v_upto(t@, i as int) <= 255 {
                v as int == count_v_upto(t@, i as int)
            } else {
                v == 255
            }),
            k == cluster_has_k(t@, i as int),
    {
        let c = s.get_char(i);
        if c == 'v' {
            v = if v < 255 {
                v + 1
            } else {
                255
            };
        } else if c == 'k' {
            k = true;
        } else {
            proof {
                assert(t@[i as int] != 'v' && t@[i as int] != 'k');
            }
            return None;
        }
    }
    Some((v, k))
}

/// Parse the command line: the tokens after the program name.  The result is
/// exactly the value the grammar assigns to the tokens, and parsing fails
/// exactly when the grammar assigns none.
pub fn get_cli_args(argv: &Vec<String>) -> (r: Option<Args>)
    ensures
        match r {
            Some(a) => spec_parse(token_views(argv@)) == Some(a@),
            None => spec_parse(token_views(argv@)) is None,
        },
{
    let ghost tv = token_views(argv@);
    let n = argv.len();
    let mut i: usize = 0;
    let mut verbose: u8 = 0;
    let mut allow_unsafe: bool = false;
    loop
        invariant
            i <= n,
            n == argv@.len(),
            tv == token_views(argv@),
            tv.len() == n,
            spec_parse(tv) == spec_parse_global(tv, i as int, verbose, allow_unsafe),
        ensures
            i < n,
            spec_parse(tv) == spec_parse_command(tv, i as int, verbose, allow_unsafe),
        decreases n - i,
    {
        if i >= n {
            return None;
        }
        let t = &argv[i];
        proof {
            assert(tv[i as int] == t@);
        }
        if *t == "--verbose".to_owned() {
            verbose = if verbose < 255 {
                verbose + 1
            } else {
                255
            };
            i = i + 1;
        } else if *t == "--allow-unsafe".to_owned() {
            allow_unsafe = true;
            i = i + 1;
        } else {
            match scan_cluster(t) {
                Some((v, k)) => {
                    let sum = verbose as u32 + v as u32;
                    verbose = if sum > 255 {
                        255
                    } else {
                        sum as u8
                    };
                    allow_unsafe = allow_unsafe || k;
                    i = i + 1;
                },
                None => {
                    proof {
                        assert(spec_parse_global(tv, i as int, verbose, allow_unsafe)
                            == spec_parse_command(tv, i as int, verbose, allow_unsafe));
                    }
                    break ;
                },
            }
        }
    }
    let t = &argv[i];
    proof {
        assert(tv[i as int] == t@);
    }
    if *t == "status".to_owned() {
        if n - i == 1 {
            Some(Args { command: Commands::Status, verbose, allow_unsafe })
        } else {
            None
        }
    } else if *t == "server".to_owned() {
        let j = i + 1;
        if j >= n {
            return None;
        }
        let st = &argv[j];
        proof {
            assert(tv[j as int] == st@);
        }
        let command = if *st == "list".to_owned() {
            if n - j == 1 {
                Some(ServerCommands::List)
            } else {
                None
            }
        } else if *st == "discover".to_owned() {
            if n - j == 1 {
                Some(ServerCommands::Discover { depth: None })
            } else if n - j == 2 {
                proof {
                    assert(tv[j + 1 as int] == argv@[j + 1 as int]@);
                }
                match parse_u8(&argv[j + 1]) {
                    Some(d) => Some(ServerCommands::Discover { depth: Some(d) }),
                    None => None,
                }
            } else {
                None
            }
        } else if *st == "verify".to_owned() {
            if n - j == 2 && is_positional_token(&argv[j + 1]) {
                proof {
                    assert(tv[j + 1 as int] == argv@[j + 1 as int]@);
                }
                Some(ServerCommands::Verify { hostname: argv[j + 1].clone() })
            } else {
                proof {
                    if n - j == 2 {
                        assert(tv[j + 1 as int] == argv@[j + 1 as int]@);
                    }
                }
                None
            }
        } else if *st == "new".to_owned() {
            if n - j == 2 && is_positional_token(&argv[j + 1]) {
                proof {
                    assert(tv[j + 1 as int] == argv@[j + 1 as int]@);
                }
                Some(ServerCommands::New { hostname: argv[j + 1].clone() })
            } else {
                proof {
                    if n - j == 2 {
                        assert(tv[j + 1 as int] == argv@[j + 1 as int]@);
                    }
                }
                None
            }
        } else if *st == "delete".to_owned() {
            if n - j == 2 && is_positional_token(&argv[j + 1]) {
                proof {
                    assert(tv[j + 1 as int] == argv@[j + 1 as int]@);
                }
                Some(ServerCommands::Delete { hostname: argv[j + 1].clone() })
            } else {
                proof {
                    if n - j == 2 {
                        assert(tv[j + 1 as int] == argv@[j + 1 as int]@);
                    }
                }
                None
            }
        } else {
            None
        };
        match command {
            Some(command) => Some(
                Args { command: Commands::Server { command }, verbose, allow_unsafe },
            ),
            None => None,
        }
    } else if *t == "file".to_owned() {
        let j = i + 1;
        if j >= n {
            return None;
        }
        let st = &argv[j];
        proof {
            assert(tv[j as int] == st@);
        }
        let command = if *st == "list".to_owned() {
            if n - j == 1 {
                Some(FileCommands::List)
            } else {
                None
            }
        } else if *st == "add".to_owned() {
            if n - j == 2 && is_positional_token(&argv[j + 1]) {
                proof {
                    assert(tv[j + 1 as int] == argv@[j + 1 as int]@);
                }
                Some(FileCommands::Add { file: argv[j + 1].clone() })
            } else {
                proof {
                    if n - j == 2 {
                        assert(tv[j + 1 as int] == argv@[j + 1 as int]@);
                    }
                }
                None
            }
        } else if *st == "update".to_owned() {
            match parse_target(argv, j + 1) {
                Some((file, force)) => Some(FileCommands::Update { file, force }),
                None => None,
            }
        } else if *st == "download".to_owned() {
            match parse_target(argv, j + 1) {
                Some((file, force)) => Some(FileCommands::Download { file, force }),
                None => None,
            }
        } else if *st == "delete".to_owned() {
            if n - j == 2 && is_positional_token(&argv[j + 1]) {
                proof {
                    assert(tv[j + 1 as int] == argv@[j + 1 as int]@);
                }
                Some(FileCommands::Delete { file: argv[j + 1].clone() })
            } else {
                proof {
                    if n - j == 2 {
                        assert(tv[j + 1 as int] == argv@[j + 1 as int]@);
                    }
                }
                None
            }
        } else if *st == "sync".to_owned() {
            if n - j == 1 {
                Some(FileCommands::Sync)
            } else {
                None
            }
        } else {
            None
        };
        match command {
            Some(command) => Some(
                Args { command: Commands::File { command }, verbose, allow_unsafe },
            ),
            None => None,
        }
    } else {
        None
    }
}

/// Parse the operand and optional force flag of the file update and
/// download subcommands, beginning at position `i`.
fn parse_target(argv: &Vec<String>, i: usize) -> (r: Option<(String, bool)>)
    requires
        i <= argv@.len(),
    ensures
        match r {
            Some((file, force)) => spec_parse_target(token_views(argv@), i as int) == Some(
                (file@, force),
            ),
            None => spec_parse_target(token_views(argv@), i as int) is None,
        },
{
    let ghost tv = token_views(argv@);
    let n = argv.len();
    if n - i == 1 {
        proof {
            assert(tv[i as int] == argv@[i as int]@);
        }
        if is_positional_token(&argv[i]) {
            Some((argv[i].clone(), false))
        } else {
            None
        }
    } else if n - i == 2 {
        proof {
            assert(tv[i as int] == argv@[i as int]@);
            assert(tv[i + 1 as int] == argv@[i + 1 as int]@);
        }
        let first_force = is_force_token(&argv[i]);
        let second_force = is_force_token(&argv[i + 1]);
        if is_positional_token(&argv[i]) && second_force {
            Some((argv[i].clone(), true))
        } else if first_force && is_positional_token(&argv[i + 1]) {
            Some((argv[i + 1].clone(), true))
        } else {
            None
        }
    } else {
        None
    }
}

/// Whether a token is a force flag.
fn is_force_token(t: &String) -> (r: bool)
    ensures
        r == is_force_flag(t@),
{
    *t == "-f".to_owned() || *t == "--force".to_owned()
}

} // verus!
