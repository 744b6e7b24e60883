//! The configuration record that every connection reads and none changes.

use vstd::prelude::*;
use vstd::string::StringExecFns;
use crate::numeric::{parse_unsigned, unsigned};
use crate::text::{chars_of, is_lower, lemma_lower, lower, same_chars, string_of, string_of_slice,
    to_lower, trim, trimmed};

verus! {

/// The server's configuration.
#[derive(Clone, Debug, PartialEq, Eq)]
pub struct ServerConfig {
    /// The port to listen on.
    pub port: u16,
    /// The name of this node, where one was given.
    pub node_name: Option<String>,
    /// The name of the host the server runs on.
    pub hostname: String,
    /// The path prefix under which the routes are served, where one was given.
    pub url_prefix: Option<String>,
    /// Header-name prefixes, in lower case, whose values are never echoed.
    pub redact_prefixes: Vec<String>,
    /// Whether the fields that identify the server are withheld.
    pub privacy_mode: bool,
}

/// An option of the command line.
#[derive(Clone, Copy, Debug, PartialEq, Eq, Structural)]
pub enum Flag {
    /// `-p` or `--port`, with the port as its value.
    Port,
    /// `-n` or `--node`, with the node's name as its value.
    Node,
    /// `-x` or `--prefix`, with the path prefix as its value.
    Prefix,
    /// `-r` or `--redact`, with a header-name prefix as its value.
    Redact,
    /// `-P` or `--privacy`.
    Privacy,
    /// `-h` or `--help`.
    Help,
}

/// Why a configuration value was refused.
#[derive(Clone, Copy, Debug, PartialEq, Eq, Structural)]
pub enum ConfigError {
    /// A non-empty path prefix that does not begin with `/`.
    PrefixWithoutSlash,
    /// The port in the environment is no port number.
    InvalidEnvPort,
    /// The argument at the given position is no port number.
    InvalidPort { at: usize },
    /// The option is the last argument, and it needs a value.
    MissingValue { flag: Flag },
    /// The argument at the given position is no option.
    UnknownArgument { at: usize },
}

/// A normalised path prefix: empty, or beginning with `/` and not ending in `/`.
pub open spec fn valid_prefix(p: Seq<char>) -> bool {
    p.len() == 0 || (p[0] == '/' && p.last() != '/')
}

/// The view of an optional string.
pub open spec fn opt_view(o: Option<String>) -> Option<Seq<char>> {
    match o {
        Some(s) => Some(s@),
        None => None,
    }
}

/// The views of a list of strings.
pub open spec fn strings_view(v: Seq<String>) -> Seq<Seq<char>> {
    Seq::new(v.len(), |i: int| v[i]@)
}

impl ServerConfig {
    /// The configured path prefix, where one is configured.
    pub open spec fn prefix(&self) -> Option<Seq<char>> {
        opt_view(self.url_prefix)
    }

    /// The redaction prefixes as sequences of characters.
    pub open spec fn redactions(&self) -> Seq<Seq<char>> {
        strings_view(self.redact_prefixes@)
    }

    /// The invariant of a configuration: the path prefix is normalised and
    /// every redaction prefix is in lower case.
    pub open spec fn well_formed(&self) -> bool {
        &&& match self.url_prefix {
            Some(p) => valid_prefix(p@),
            None => true,
        }
        &&& forall|i: int|
            0 <= i < self.redact_prefixes@.len() ==> is_lower(#[trigger] self.redact_prefixes@[i]@)
    }
}

/// A sequence of characters without its trailing `/` characters.
pub open spec fn trim_slashes(s: Seq<char>) -> Seq<char>
    decreases s.len(),
{
    if s.len() > 0 && s.last() == '/' {
        trim_slashes(s.drop_last())
    } else {
        s
    }
}

/// What is left after trimming is a leading part of the input that does not
/// end in `/`; any leading part that is followed by nothing but `/` and does
/// not itself end in `/` is that part.
pub proof fn lemma_trim_slashes(s: Seq<char>, n: int)
    requires
        0 <= n <= s.len(),
        forall|i: int| n <= i < s.len() ==> s[i] == '/',
        n > 0 ==> s[n - 1] != '/',
    ensures
        trim_slashes(s) == s.take(n),
    decreases s.len(),
{
    if s.len() > 0 && s.last() == '/' {
        assert(n < s.len());
        lemma_trim_slashes(s.drop_last(), n);
        assert(s.drop_last().take(n) == s.take(n));
    } else {
        assert(n == s.len());
        assert(s.take(n) == s);
    }
}

/// Normalises a path prefix: the trailing `/` characters are removed, and
/// what is left must be empty or begin with `/`.
pub fn parse_prefix(raw: &str) -> (r: Result<String, ConfigError>)
    ensures
        match r {
            Ok(p) => p@ == trim_slashes(raw@) && valid_prefix(p@),
            Err(e) => e == ConfigError::PrefixWithoutSlash && !valid_prefix(trim_slashes(raw@)),
        },
{
    let mut v = chars_of(raw);
    let mut n: usize = v.len();
    while n > 0 && v[n - 1] == '/'
        invariant
            n <= v.len(),
            forall|i: int| n <= i < v.len() ==> v@[i] == '/',
        decreases n,
    {
        n -= 1;
    }
    proof {
        lemma_trim_slashes(v@, n as int);
    }
    v.truncate(n);
    if n > 0 && v[0] != '/' {
        return Err(ConfigError::PrefixWithoutSlash);
    }
    Ok(string_of(&v))
}

/// The port that is used where none is configured.
pub const DEFAULT_PORT: u16 = 3030;

/// The values of the environment variables that seed the configuration,
/// each absent where the variable is not set.
#[derive(Clone, Debug, PartialEq, Eq)]
pub struct Environment {
    /// The port.
    pub port: Option<String>,
    /// The node's name.
    pub node: Option<String>,
    /// The path prefix.
    pub prefix: Option<String>,
    /// The list of redaction prefixes, separated by commas or spaces.
    pub redact: Option<String>,
    /// The privacy switch: privacy mode is on where this is set and not
    /// empty.
    pub privacy: Option<String>,
}

/// The mathematical form of a `ServerConfig`.
pub struct ConfigView {
    pub port: u16,
    pub node_name: Option<Seq<char>>,
    pub hostname: Seq<char>,
    pub url_prefix: Option<Seq<char>>,
    pub redact_prefixes: Seq<Seq<char>>,
    pub privacy_mode: bool,
}

impl View for ServerConfig {
    type V = ConfigView;

    open spec fn view(&self) -> ConfigView {
        ConfigView {
            port: self.port,
            node_name: opt_view(self.node_name),
            hostname: self.hostname@,
            url_prefix: opt_view(self.url_prefix),
            redact_prefixes: strings_view(self.redact_prefixes@),
            privacy_mode: self.privacy_mode,
        }
    }
}

/// What the server is to do at startup.
#[derive(Clone, Debug, PartialEq, Eq)]
pub enum Startup {
    /// Serve with this configuration.
    Run(ServerConfig),
    /// Print the usage and leave.
    Help,
}

/// The mathematical form of a `Startup`.
pub enum StartupView {
    Run(ConfigView),
    Help,
}

impl View for Startup {
    type V = StartupView;

    open spec fn view(&self) -> StartupView {
        match self {
            Startup::Run(c) => StartupView::Run(c@),
            Startup::Help => StartupView::Help,
        }
    }
}

/// The redaction prefixes that apply where none are configured.
pub open spec fn default_redactions() -> Seq<Seq<char>> {
    seq!["x-origin-secret"@]
}

/// Whether the character separates the items of a list.
pub open spec fn is_separator(c: char) -> bool {
    c == ',' || c == ' '
}

/// The position of the first separator, or the length where there is none.
pub open spec fn first_separator(s: Seq<char>) -> int
    decreases s.len(),
{
    if s.len() == 0 || is_separator(s[0]) {
        0
    } else {
        1 + first_separator(s.skip(1))
    }
}

/// A position before which there is no separator, and which holds one
/// unless it is the end, is the first separator.
pub proof fn lemma_first_separator(s: Seq<char>, n: int)
    requires
        0 <= n <= s.len(),
        forall|j: int| 0 <= j < n ==> !is_separator(s[j]),
        n < s.len() ==> is_separator(s[n]),
    ensures
        first_separator(s) == n,
    decreases s.len(),
{
    if s.len() == 0 || is_separator(s[0]) {
    } else {
        assert forall|j: int| 0 <= j < n - 1 implies !is_separator(s.skip(1)[j]) by {
            assert(s.skip(1)[j] == s[j + 1]);
        }
        lemma_first_separator(s.skip(1), n - 1);
    }
}

/// The redaction prefixes that a list in text form names: its items between
/// commas and spaces, each without white space around it and in lower case,
/// the empty ones left out.
pub open spec fn redaction_list(s: Seq<char>) -> Seq<Seq<char>>
    decreases s.len(),
{
    let n = first_separator(s);
    let item = lower(trim(s.take(n)));
    let head = if item.len() == 0 {
        Seq::empty()
    } else {
        seq![item]
    };
    if 0 <= n < s.len() {
        head + redaction_list(s.skip(n + 1))
    } else {
        head
    }
}

/// The option that an argument names, if it names one.
pub open spec fn flag_of(arg: Seq<char>) -> Option<Flag> {
    if arg == "-p"@ || arg == "--port"@ {
        Some(Flag::Port)
    } else if arg == "-n"@ || arg == "--node"@ {
        Some(Flag::Node)
    } else if arg == "-x"@ || arg == "--prefix"@ {
        Some(Flag::Prefix)
    } else if arg == "-P"@ || arg == "--privacy"@ {
        Some(Flag::Privacy)
    } else if arg == "-r"@ || arg == "--redact"@ {
        Some(Flag::Redact)
    } else if arg == "-h"@ || arg == "--help"@ {
        Some(Flag::Help)
    } else {
        None
    }
}

/// The configuration that the environment alone gives. A port that is no
/// number is reported before a prefix without a slash.
pub open spec fn seed(
    port: Option<Seq<char>>,
    node: Option<Seq<char>>,
    prefix: Option<Seq<char>>,
    redact: Option<Seq<char>>,
    privacy: Option<Seq<char>>,
    hostname: Seq<char>,
) -> Result<ConfigView, ConfigError> {
    if port is Some && unsigned(port.unwrap(), 10, u16::MAX as int) is None {
        Err(ConfigError::InvalidEnvPort)
    } else if prefix is Some && !valid_prefix(trim_slashes(prefix.unwrap())) {
        Err(ConfigError::PrefixWithoutSlash)
    } else {
        Ok(
            ConfigView {
                port: match port {
                    Some(p) => unsigned(p, 10, u16::MAX as int).unwrap() as u16,
                    None => DEFAULT_PORT,
                },
                node_name: node,
                hostname,
                url_prefix: match prefix {
                    Some(p) => Some(trim_slashes(p)),
                    None => None,
                },
                redact_prefixes: match redact {
                    Some(r) => redaction_list(r),
                    None => default_redactions(),
                },
                privacy_mode: privacy is Some && privacy.unwrap().len() > 0,
            },
        )
    }
}

/// The configuration after the arguments from position `at` on were applied
/// to `config`, with `cli` the redaction prefixes that the arguments before
/// `at` gave; `None` where the arguments ask for the usage.
///
/// The arguments are read from left to right, and the first fault ends the
/// reading. An option overrides what the environment gave. Redaction
/// prefixes from the command line, put in lower case, replace the list from
/// the environment as a whole.
pub open spec fn apply_args(config: ConfigView, cli: Seq<Seq<char>>, args: Seq<Seq<char>>, at: int)
    -> Result<Option<ConfigView>, ConfigError>
    decreases args.len() - at,
{
    if at < 0 || at >= args.len() {
        Ok(
            Some(
                if cli.len() > 0 {
                    ConfigView { redact_prefixes: cli, ..config }
                } else {
                    config
                },
            ),
        )
    } else {
        match flag_of(args[at]) {
            None => Err(ConfigError::UnknownArgument { at: at as usize }),
            Some(Flag::Help) => Ok(None),
            Some(Flag::Privacy) => apply_args(
                ConfigView { privacy_mode: true, ..config },
                cli,
                args,
                at + 1,
            ),
            Some(flag) => if at + 1 >= args.len() {
                Err(ConfigError::MissingValue { flag })
            } else {
                let value = args[at + 1];
                match flag {
                    Flag::Port => match unsigned(value, 10, u16::MAX as int) {
                        Some(p) => apply_args(
                            ConfigView { port: p as u16, ..config },
                            cli,
                            args,
                            at + 2,
                        ),
                        None => Err(ConfigError::InvalidPort { at: (at + 1) as usize }),
                    },
                    Flag::Node => apply_args(
                        ConfigView { node_name: Some(value), ..config },
                        cli,
                        args,
                        at + 2,
                    ),
                    Flag::Prefix => if valid_prefix(trim_slashes(value)) {
                        apply_args(
                            ConfigView { url_prefix: Some(trim_slashes(value)), ..config },
                            cli,
                            args,
                            at + 2,
                        )
                    } else {
                        Err(ConfigError::PrefixWithoutSlash)
                    },
                    _ => apply_args(config, cli.push(lower(value)), args, at + 2),
                }
            },
        }
    }
}

/// What the environment and the arguments ask for: the environment seeds the
/// configuration, and the arguments override it.
pub open spec fn configuration(
    port: Option<Seq<char>>,
    node: Option<Seq<char>>,
    prefix: Option<Seq<char>>,
    redact: Option<Seq<char>>,
    privacy: Option<Seq<char>>,
    args: Seq<Seq<char>>,
    hostname: Seq<char>,
) -> Result<StartupView, ConfigError> {
    match seed(port, node, prefix, redact, privacy, hostname) {
        Err(e) => Err(e),
        Ok(config) => startup_of(apply_args(config, Seq::empty(), args, 0)),
    }
}

/// What the outcome of reading the arguments asks for.
pub open spec fn startup_of(r: Result<Option<ConfigView>, ConfigError>) -> Result<
    StartupView,
    ConfigError,
> {
    match r {
        Err(e) => Err(e),
        Ok(Some(c)) => Ok(StartupView::Run(c)),
        Ok(None) => Ok(StartupView::Help),
    }
}

/// The view of the outcome of `parse_config`.
pub open spec fn outcome_view(r: Result<Startup, ConfigError>) -> Result<StartupView, ConfigError> {
    match r {
        Ok(s) => Ok(s@),
        Err(e) => Err(e),
    }
}

/// Reads a port number.
pub fn parse_port(text: &str) -> (r: Option<u16>)
    ensures
        match r {
            Some(p) => unsigned(text@, 10, u16::MAX as int) == Some(p as int),
            None => unsigned(text@, 10, u16::MAX as int) is None,
        },
{
    let digits = chars_of(text);
    match parse_unsigned(digits.as_slice(), 10, 65535) {
        Some(v) => Some(v as u16),
        None => None,
    }
}

/// Reads a list of redaction prefixes.
pub fn parse_redaction_list(text: &str) -> (out: Vec<String>)
    ensures
        strings_view(out@) == redaction_list(text@),
        forall|i: int| 0 <= i < out@.len() ==> is_lower(#[trigger] out@[i]@),
{
    let s = chars_of(text);
    let mut out: Vec<String> = Vec::new();
    let mut start: usize = 0;
    let mut done = false;
    proof {
        assert(s@.skip(0) == s@);
        assert(strings_view(out@) + redaction_list(s@) == redaction_list(s@));
    }
    while !done
        invariant
            start <= s.len(),
            s@ == text@,
            !done ==> strings_view(out@) + redaction_list(s@.skip(start as int))
                == redaction_list(s@),
            done ==> strings_view(out@) == redaction_list(s@),
            forall|i: int| 0 <= i < out@.len() ==> is_lower(#[trigger] out@[i]@),
        decreases s.len() - start + if done { 0int } else { 1int },
    {
        let rest = vstd::slice::slice_subrange(s.as_slice(), start, s.len());
        let mut n: usize = 0;
        while n < rest.len() && !(rest[n] == ',' || rest[n] == ' ')
            invariant
                n <= rest.len(),
                forall|j: int| 0 <= j < n ==> !is_separator(rest@[j]),
            decreases rest.len() - n,
        {
            n += 1;
        }
        proof {
            lemma_first_separator(rest@, n as int);
            assert(rest@ == s@.skip(start as int));
        }
        let piece = trimmed(vstd::slice::slice_subrange(rest, 0, n));
        let piece_string = string_of_slice(piece);
        let item = to_lower(piece_string.as_str());
        let ghost before = strings_view(out@);
        proof {
            assert(rest@.subrange(0, n as int) == rest@.take(n as int));
            assert(item@ == lower(trim(rest@.take(n as int))));
            lemma_lower(trim(rest@.take(n as int)));
        }
        if item.len() > 0 {
            out.push(string_of(&item));
            proof {
                assert(strings_view(out@) =~= before + seq![item@]);
            }
        } else {
            proof {
                assert(strings_view(out@) =~= before + Seq::<Seq<char>>::empty());
            }
        }
        if n < rest.len() {
            proof {
                assert(rest@.skip(n + 1) == s@.skip(start + n + 1));
            }
            start = start + n + 1;
        } else {
            done = true;
        }
    }
    out
}

/// Reads the option that an argument names.
pub fn parse_flag(arg: &str) -> (r: Option<Flag>)
    ensures
        r == flag_of(arg@),
{
    let a = chars_of(arg);
    if same_chars(a.as_slice(), chars_of("-p").as_slice()) || same_chars(
        a.as_slice(),
        chars_of("--port").as_slice(),
    ) {
        Some(Flag::Port)
    } else if same_chars(a.as_slice(), chars_of("-n").as_slice()) || same_chars(
        a.as_slice(),
        chars_of("--node").as_slice(),
    ) {
        Some(Flag::Node)
    } else if same_chars(a.as_slice(), chars_of("-x").as_slice()) || same_chars(
        a.as_slice(),
        chars_of("--prefix").as_slice(),
    ) {
        Some(Flag::Prefix)
    } else if same_chars(a.as_slice(), chars_of("-P").as_slice()) || same_chars(
        a.as_slice(),
        chars_of("--privacy").as_slice(),
    ) {
        Some(Flag::Privacy)
    } else if same_chars(a.as_slice(), chars_of("-r").as_slice()) || same_chars(
        a.as_slice(),
        chars_of("--redact").as_slice(),
    ) {
        Some(Flag::Redact)
    } else if same_chars(a.as_slice(), chars_of("-h").as_slice()) || same_chars(
        a.as_slice(),
        chars_of("--help").as_slice(),
    ) {
        Some(Flag::Help)
    } else {
        None
    }
}

/// A copy of an optional string.
pub fn clone_opt(o: &Option<String>) -> (r: Option<String>)
    ensures
        opt_view(r) == opt_view(*o),
{
    match o {
        Some(s) => Some(s.clone()),
        None => None,
    }
}

/// Builds the configuration from the environment and the arguments of the
/// command line, without the program's name. The arguments override the
/// environment. `hostname` is the name of the host as the system reports it.
pub fn parse_config(env: &Environment, args: &Vec<String>, hostname: String) -> (r: Result<
    Startup,
    ConfigError,
>)
    ensures
        outcome_view(r) == configuration(
            opt_view(env.port),
            opt_view(env.node),
            opt_view(env.prefix),
            opt_view(env.redact),
            opt_view(env.privacy),
            strings_view(args@),
            hostname@,
        ),
        match r {
            Ok(Startup::Run(c)) => c.well_formed(),
            _ => true,
        },
{
    let ghost host = hostname@;
    let port = match &env.port {
        Some(p) => match parse_port(p.as_str()) {
            Some(v) => v,
            None => {
                return Err(ConfigError::InvalidEnvPort);
            },
        },
        None => DEFAULT_PORT,
    };
    let url_prefix = match &env.prefix {
        Some(p) => match parse_prefix(p.as_str()) {
            Ok(s) => Some(s),
            Err(e) => {
                return Err(e);
            },
        },
        None => None,
    };
    let redact_prefixes = match &env.redact {
        Some(r) => parse_redaction_list(r.as_str()),
        None => {
            let mut list: Vec<String> = Vec::new();
            list.push(String::from_str("x-origin-secret"));
            proof {
                reveal_strlit("x-origin-secret");
                assert(strings_view(list@) =~= default_redactions());
                assert(is_lower(list@[0]@));
            }
            list
        },
    };
    let privacy_mode = match &env.privacy {
        Some(v) => !v.as_str().is_empty(),
        None => false,
    };
    let mut config = ServerConfig {
        port,
        node_name: clone_opt(&env.node),
        hostname,
        url_prefix,
        redact_prefixes,
        privacy_mode,
    };
    let mut cli: Vec<String> = Vec::new();
    let ghost words = strings_view(args@);
    let ghost goal = configuration(
        opt_view(env.port),
        opt_view(env.node),
        opt_view(env.prefix),
        opt_view(env.redact),
        opt_view(env.privacy),
        words,
        host,
    );
    let mut at: usize = 0;
    proof {
        assert(strings_view(cli@) =~= Seq::empty());
    }
    while at < args.len()
        invariant
            at <= args.len(),
            words == strings_view(args@),
            goal == configuration(
                opt_view(env.port),
                opt_view(env.node),
                opt_view(env.prefix),
                opt_view(env.redact),
                opt_view(env.privacy),
                words,
                host,
            ),
            goal == startup_of(apply_args(config@, strings_view(cli@), words, at as int)),
            config.well_formed(),
            config.hostname@ == host,
            host == hostname@,
            forall|i: int| 0 <= i < cli@.len() ==> is_lower(#[trigger] cli@[i]@),
        decreases args.len() - at,
    {
        proof {
            assert(words[at as int] == args@[at as int]@);
        }
        match parse_flag(args[at].as_str()) {
            None => {
                return Err(ConfigError::UnknownArgument { at });
            },
            Some(Flag::Help) => {
                return Ok(Startup::Help);
            },
            Some(Flag::Privacy) => {
                config.privacy_mode = true;
                at += 1;
            },
            Some(flag) => {
                if args.len() - at < 2 {
                    return Err(ConfigError::MissingValue { flag });
                }
                proof {
                    assert(words[at + 1] == args@[at + 1]@);
                }
                let value = &args[at + 1];
                match flag {
                    Flag::Port => match parse_port(value.as_str()) {
                        Some(p) => {
                            config.port = p;
                        },
                        None => {
                            return Err(ConfigError::InvalidPort { at: at + 1 });
                        },
                    },
                    Flag::Node => {
                        config.node_name = Some(value.clone());
                    },
                    Flag::Prefix => match parse_prefix(value.as_str()) {
                        Ok(p) => {
                            config.url_prefix = Some(p);
                        },
                        Err(e) => {
                            return Err(e);
                        },
                    },
                    _ => {
                        let lowered = to_lower(value.as_str());
                        let ghost before = strings_view(cli@);
                        proof {
                            lemma_lower(value@);
                        }
                        cli.push(string_of(&lowered));
                        proof {
                            assert(strings_view(cli@) =~= before.push(lower(value@)));
                        }
                    },
                }
                at += 2;
            },
        }
    }
    if cli.len() > 0 {
        config.redact_prefixes = cli;
    }
    proof {
        assert(config.hostname@ == host);
    }
    Ok(Startup::Run(config))
}

} // verus!
