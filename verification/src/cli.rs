//! What a command line of the launcher asks for: the command, the tool or
//! upstream command that runs it with which arguments, and what
//! `config` and `list` are asked to do.
use vstd::prelude::*;

use crate::config::{key_named, parse_config_key, ConfigKey};
use crate::text::{contains_char, ends_with, has_suffix, str_eq};

verus! {

/// The text of each string of a sequence.
pub open spec fn texts(v: Seq<String>) -> Seq<Seq<char>> {
    v.map_values(|s: String| s@)
}

/// A command of the launcher, as its first argument names it.
#[derive(Clone, Copy, Debug, PartialEq, Eq, Structural)]
pub enum Command {
    Run,
    Chat,
    Serve,
    Stop,
    Config,
    List,
    Pull,
    Quantize,
    Tui,
    Version,
    Help,
    /// A model file (`*.hfq`) or a path, to be run.
    ModelPath,
    Unknown,
}

/// A program shipped beside the launcher that a command runs in its place.
#[derive(Clone, Copy, Debug, PartialEq, Eq, Structural)]
pub enum NativeTool {
    Run,
    Tui,
}

/// A command that the upstream hipfire command line carries out.
#[derive(Clone, Copy, Debug, PartialEq, Eq, Structural)]
pub enum UpstreamCommand {
    Serve,
    Stop,
    Pull,
    Quantize,
}

/// What a command line asks the launcher to do.
pub enum Action {
    /// No command was given: print the usage and fail.
    ShowUsage,
    /// Run a program shipped beside the launcher with these arguments.
    RunNative(NativeTool, Vec<String>),
    /// Run the upstream hipfire command with this command and arguments.
    Delegate(UpstreamCommand, Vec<String>),
    /// Carry out `config` with these arguments.
    Config(Vec<String>),
    /// List the downloaded models; the arguments are `list`'s.
    List(Vec<String>),
    /// The upstream command needs an argument that was not given.
    MissingArgument(UpstreamCommand),
    Version,
    Help,
    /// The command is not known.
    Unknown(String),
}

/// An [`Action`] as contracts see it.
pub enum Plan {
    ShowUsage,
    RunNative(NativeTool, Seq<Seq<char>>),
    Delegate(UpstreamCommand, Seq<Seq<char>>),
    Config(Seq<Seq<char>>),
    List(Seq<Seq<char>>),
    MissingArgument(UpstreamCommand),
    Version,
    Help,
    Unknown(Seq<char>),
}

impl View for Action {
    type V = Plan;

    open spec fn view(&self) -> Plan {
        match self {
            Action::ShowUsage => Plan::ShowUsage,
            Action::RunNative(t, a) => Plan::RunNative(*t, texts(a@)),
            Action::Delegate(c, a) => Plan::Delegate(*c, texts(a@)),
            Action::Config(a) => Plan::Config(texts(a@)),
            Action::List(a) => Plan::List(texts(a@)),
            Action::MissingArgument(c) => Plan::MissingArgument(*c),
            Action::Version => Plan::Version,
            Action::Help => Plan::Help,
            Action::Unknown(s) => Plan::Unknown(s@),
        }
    }
}

/// The command that a first argument names. Names are matched first; any
/// other argument that ends in `.hfq` or holds a `/` is a model to run.
pub open spec fn command_of(s: Seq<char>) -> Command {
    if s == "run"@ {
        Command::Run
    } else if s == "chat"@ {
        Command::Chat
    } else if s == "serve"@ {
        Command::Serve
    } else if s == "stop"@ {
        Command::Stop
    } else if s == "config"@ {
        Command::Config
    } else if s == "list"@ || s == "ls"@ {
        Command::List
    } else if s == "pull"@ {
        Command::Pull
    } else if s == "quantize"@ {
        Command::Quantize
    } else if s == "tui"@ {
        Command::Tui
    } else if s == "version"@ || s == "--version"@ || s == "-v"@ {
        Command::Version
    } else if s == "help"@ || s == "--help"@ || s == "-h"@ {
        Command::Help
    } else if has_suffix(s, ".hfq"@) || s.contains('/') {
        Command::ModelPath
    } else {
        Command::Unknown
    }
}

/// What the launcher does for the command line `args` (the program name
/// first).
pub open spec fn plan_of(args: Seq<Seq<char>>) -> Plan {
    if args.len() < 2 {
        Plan::ShowUsage
    } else {
        let rest = args.subrange(2, args.len() as int);
        match command_of(args[1]) {
            Command::Run | Command::Chat => Plan::RunNative(NativeTool::Run, rest),
            Command::Serve => Plan::Delegate(UpstreamCommand::Serve, rest),
            Command::Stop => Plan::Delegate(UpstreamCommand::Stop, rest),
            Command::Config => Plan::Config(rest),
            Command::List => Plan::List(rest),
            Command::Pull => if rest.len() == 0 {
                Plan::MissingArgument(UpstreamCommand::Pull)
            } else {
                Plan::Delegate(UpstreamCommand::Pull, rest)
            },
            Command::Quantize => if rest.len() == 0 {
                Plan::MissingArgument(UpstreamCommand::Quantize)
            } else {
                Plan::Delegate(UpstreamCommand::Quantize, rest)
            },
            Command::Tui => Plan::RunNative(NativeTool::Tui, rest),
            Command::Version => Plan::Version,
            Command::Help => Plan::Help,
            Command::ModelPath => Plan::RunNative(
                NativeTool::Run,
                args.subrange(1, args.len() as int),
            ),
            Command::Unknown => Plan::Unknown(args[1]),
        }
    }
}

/// The command that `cmd` names.
pub fn parse_command(cmd: &str) -> (r: Command)
    ensures
        r == command_of(cmd@),
{
    if str_eq(cmd, "run") {
        Command::Run
    } else if str_eq(cmd, "chat") {
        Command::Chat
    } else if str_eq(cmd, "serve") {
        Command::Serve
    } else if str_eq(cmd, "stop") {
        Command::Stop
    } else if str_eq(cmd, "config") {
        Command::Config
    } else if str_eq(cmd, "list") || str_eq(cmd, "ls") {
        Command::List
    } else if str_eq(cmd, "pull") {
        Command::Pull
    } else if str_eq(cmd, "quantize") {
        Command::Quantize
    } else if str_eq(cmd, "tui") {
        Command::Tui
    } else if str_eq(cmd, "version") || str_eq(cmd, "--version") || str_eq(cmd, "-v") {
        Command::Version
    } else if str_eq(cmd, "help") || str_eq(cmd, "--help") || str_eq(cmd, "-h") {
        Command::Help
    } else if ends_with(cmd, ".hfq") || contains_char(cmd, '/') {
        Command::ModelPath
    } else {
        Command::Unknown
    }
}

/// A copy of `args` from index `from` on.
pub fn tail_from(args: &Vec<String>, from: usize) -> (r: Vec<String>)
    requires
        from <= args.len(),
    ensures
        texts(r@) == texts(args@).subrange(from as int, args.len() as int),
{
    let mut r: Vec<String> = Vec::new();
    let mut i: usize = from;
    while i < args.len()
        invariant
            from <= i <= args.len(),
            r@.len() == i - from,
            forall|k: int| 0 <= k < r@.len() ==> #[trigger] r@[k]@ == args@[from + k]@,
        decreases args.len() - i,
    {
        let s = args[i].clone();
        r.push(s);
        i = i + 1;
    }
    assert(texts(r@) =~= texts(args@).subrange(from as int, args.len() as int));
    r
}

/// What the launcher does for the command line `args`, the program's name
/// first, as its `main` decides.
pub fn dispatch(args: &Vec<String>) -> (r: Action)
    ensures
        r@ == plan_of(texts(args@)),
{
    if args.len() < 2 {
        return Action::ShowUsage;
    }
    let ghost a = texts(args@);
    assert(a[1] == args@[1]@);
    let rest = tail_from(args, 2);
    match parse_command(args[1].as_str()) {
        Command::Run | Command::Chat => Action::RunNative(NativeTool::Run, rest),
        Command::Serve => Action::Delegate(UpstreamCommand::Serve, rest),
        Command::Stop => Action::Delegate(UpstreamCommand::Stop, rest),
        Command::Config => Action::Config(rest),
        Command::List => Action::List(rest),
        Command::Pull => if rest.len() == 0 {
            Action::MissingArgument(UpstreamCommand::Pull)
        } else {
            Action::Delegate(UpstreamCommand::Pull, rest)
        },
        Command::Quantize => if rest.len() == 0 {
            Action::MissingArgument(UpstreamCommand::Quantize)
        } else {
            Action::Delegate(UpstreamCommand::Quantize, rest)
        },
        Command::Tui => Action::RunNative(NativeTool::Tui, rest),
        Command::Version => Action::Version,
        Command::Help => Action::Help,
        Command::ModelPath => Action::RunNative(NativeTool::Run, tail_from(args, 1)),
        Command::Unknown => Action::Unknown(args[1].clone()),
    }
}

/// The file name of a program shipped beside the launcher.
pub fn native_binary(tool: NativeTool) -> (r: &'static str)
    ensures
        r@ == match tool {
            NativeTool::Run => "hipfire-arwaky-run"@,
            NativeTool::Tui => "hipfire-arwaky-tui"@,
        },
{
    match tool {
        NativeTool::Run => "hipfire-arwaky-run",
        NativeTool::Tui => "hipfire-arwaky-tui",
    }
}

/// The name of an upstream command on the upstream command line.
pub open spec fn upstream_name_spec(cmd: UpstreamCommand) -> Seq<char> {
    match cmd {
        UpstreamCommand::Serve => "serve"@,
        UpstreamCommand::Stop => "stop"@,
        UpstreamCommand::Pull => "pull"@,
        UpstreamCommand::Quantize => "quantize"@,
    }
}

/// The name of an upstream command.
pub fn upstream_name(cmd: UpstreamCommand) -> (r: &'static str)
    ensures
        r@ == upstream_name_spec(cmd),
{
    match cmd {
        UpstreamCommand::Serve => "serve",
        UpstreamCommand::Stop => "stop",
        UpstreamCommand::Pull => "pull",
        UpstreamCommand::Quantize => "quantize",
    }
}

/// The command line that runs the upstream hipfire program at `upstream`
/// for `cmd` with `args`: the program, the command, then the arguments.
pub fn upstream_argv(upstream: &str, cmd: UpstreamCommand, args: &Vec<String>) -> (r: Vec<String>)
    ensures
        texts(r@) == seq![upstream@, upstream_name_spec(cmd)] + texts(args@),
{
    let mut r: Vec<String> = Vec::new();
    r.push(String::from_str(upstream));
    r.push(String::from_str(upstream_name(cmd)));
    let mut i: usize = 0;
    while i < args.len()
        invariant
            i <= args.len(),
            r@.len() == i + 2,
            r@[0]@ == upstream@,
            r@[1]@ == upstream_name_spec(cmd),
            forall|k: int| 2 <= k < i + 2 ==> #[trigger] r@[k]@ == args@[k - 2]@,
        decreases args.len() - i,
    {
        r.push(args[i].clone());
        i = i + 1;
    }
    assert(texts(r@) =~= seq![upstream@, upstream_name_spec(cmd)] + texts(args@));
    r
}

/// What `config` is asked to do.
pub enum ConfigRequest {
    Get(ConfigKey),
    Store(ConfigKey, String),
    List,
    Tui,
    /// `get` without a key.
    MissingGetKey,
    /// `set` without a key or without a value.
    MissingSetArgument,
    /// `get` or `set` of a name that is no key.
    UnknownKey(String),
    /// Any other subcommand.
    Usage,
}

/// A [`ConfigRequest`] as contracts see it.
pub enum ConfigPlan {
    Get(ConfigKey),
    Store(ConfigKey, Seq<char>),
    List,
    Tui,
    MissingGetKey,
    MissingSetArgument,
    UnknownKey(Seq<char>),
    Usage,
}

impl View for ConfigRequest {
    type V = ConfigPlan;

    open spec fn view(&self) -> ConfigPlan {
        match self {
            ConfigRequest::Get(k) => ConfigPlan::Get(*k),
            ConfigRequest::Store(k, v) => ConfigPlan::Store(*k, v@),
            ConfigRequest::List => ConfigPlan::List,
            ConfigRequest::Tui => ConfigPlan::Tui,
            ConfigRequest::MissingGetKey => ConfigPlan::MissingGetKey,
            ConfigRequest::MissingSetArgument => ConfigPlan::MissingSetArgument,
            ConfigRequest::UnknownKey(s) => ConfigPlan::UnknownKey(s@),
            ConfigRequest::Usage => ConfigPlan::Usage,
        }
    }
}

/// What `config` with the arguments `args` does. Missing arguments are
/// found before the key is looked up.
pub open spec fn config_plan_of(args: Seq<Seq<char>>) -> ConfigPlan {
    if args.len() == 0 {
        ConfigPlan::Tui
    } else if args[0] == "get"@ {
        if args.len() < 2 {
            ConfigPlan::MissingGetKey
        } else {
            match key_named(args[1]) {
                Some(k) => ConfigPlan::Get(k),
                None => ConfigPlan::UnknownKey(args[1]),
            }
        }
    } else if args[0] == "set"@ {
        if args.len() < 3 {
            ConfigPlan::MissingSetArgument
        } else {
            match key_named(args[1]) {
                Some(k) => ConfigPlan::Store(k, args[2]),
                None => ConfigPlan::UnknownKey(args[1]),
            }
        }
    } else if args[0] == "list"@ {
        ConfigPlan::List
    } else if args[0] == "tui"@ {
        ConfigPlan::Tui
    } else {
        ConfigPlan::Usage
    }
}

/// What `config` with the arguments `args` is asked to do.
pub fn config_request(args: &Vec<String>) -> (r: ConfigRequest)
    ensures
        r@ == config_plan_of(texts(args@)),
{
    let ghost a = texts(args@);
    if args.len() == 0 {
        return ConfigRequest::Tui;
    }
    assert(a[0] == args@[0]@);
    let sub = args[0].as_str();
    if str_eq(sub, "get") {
        if args.len() < 2 {
            return ConfigRequest::MissingGetKey;
        }
        assert(a[1] == args@[1]@);
        match parse_config_key(args[1].as_str()) {
            Some(k) => ConfigRequest::Get(k),
            None => ConfigRequest::UnknownKey(args[1].clone()),
        }
    } else if str_eq(sub, "set") {
        if args.len() < 3 {
            return ConfigRequest::MissingSetArgument;
        }
        assert(a[1] == args@[1]@);
        assert(a[2] == args@[2]@);
        match parse_config_key(args[1].as_str()) {
            Some(k) => ConfigRequest::Store(k, args[2].clone()),
            None => ConfigRequest::UnknownKey(args[1].clone()),
        }
    } else if str_eq(sub, "list") {
        ConfigRequest::List
    } else if str_eq(sub, "tui") {
        ConfigRequest::Tui
    } else {
        ConfigRequest::Usage
    }
}

/// Whether `list` is asked for the remote models: some argument is `-r`
/// or `--remote`.
pub fn wants_remote(args: &Vec<String>) -> (r: bool)
    ensures
        r == exists|i: int|
            0 <= i < args.len() && (#[trigger] texts(args@)[i] == "-r"@ || texts(args@)[i]
                == "--remote"@),
{
    let mut i: usize = 0;
    while i < args.len()
        invariant
            i <= args.len(),
            forall|j: int|
                0 <= j < i ==> !(#[trigger] texts(args@)[j] == "-r"@ || texts(args@)[j]
                    == "--remote"@),
        decreases args.len() - i,
    {
        assert(texts(args@)[i as int] == args@[i as int]@);
        if str_eq(args[i].as_str(), "-r") || str_eq(args[i].as_str(), "--remote") {
            return true;
        }
        i = i + 1;
    }
    false
}

/// A file that `list` shows as a model: its name ends in `.hfq`, `.mq4`,
/// `.mq6` or `.gguf`.
pub open spec fn is_model_file_spec(name: Seq<char>) -> bool {
    has_suffix(name, ".hfq"@) || has_suffix(name, ".mq4"@) || has_suffix(name, ".mq6"@)
        || has_suffix(name, ".gguf"@)
}

/// Whether `list` shows the file `name` as a model.
pub fn is_model_file(name: &str) -> (r: bool)
    ensures
        r == is_model_file_spec(name@),
{
    ends_with(name, ".hfq") || ends_with(name, ".mq4") || ends_with(name, ".mq6") || ends_with(
        name,
        ".gguf",
    )
}

/// The characters of each command name.
proof fn lemma_command_name_chars()
    ensures
        "run"@ =~= seq!['r', 'u', 'n'],
        "chat"@ =~= seq!['c', 'h', 'a', 't'],
        "serve"@ =~= seq!['s', 'e', 'r', 'v', 'e'],
        "stop"@ =~= seq!['s', 't', 'o', 'p'],
        "config"@ =~= seq!['c', 'o', 'n', 'f', 'i', 'g'],
        "list"@ =~= seq!['l', 'i', 's', 't'],
        "ls"@ =~= seq!['l', 's'],
        "pull"@ =~= seq!['p', 'u', 'l', 'l'],
        "quantize"@ =~= seq!['q', 'u', 'a', 'n', 't', 'i', 'z', 'e'],
        "tui"@ =~= seq!['t', 'u', 'i'],
        "version"@ =~= seq!['v', 'e', 'r', 's', 'i', 'o', 'n'],
        "--version"@ =~= seq!['-', '-', 'v', 'e', 'r', 's', 'i', 'o', 'n'],
        "-v"@ =~= seq!['-', 'v'],
        "help"@ =~= seq!['h', 'e', 'l', 'p'],
        "--help"@ =~= seq!['-', '-', 'h', 'e', 'l', 'p'],
        "-h"@ =~= seq!['-', 'h'],
{
    reveal_strlit("run");
    assert("run"@ =~= seq!['r', 'u', 'n']);
    reveal_strlit("chat");
    assert("chat"@ =~= seq!['c', 'h', 'a', 't']);
    reveal_strlit("serve");
    assert("serve"@ =~= seq!['s', 'e', 'r', 'v', 'e']);
    reveal_strlit("stop");
    assert("stop"@ =~= seq!['s', 't', 'o', 'p']);
    reveal_strlit("config");
    assert("config"@ =~= seq!['c', 'o', 'n', 'f', 'i', 'g']);
    reveal_strlit("list");
    assert("list"@ =~= seq!['l', 'i', 's', 't']);
    reveal_strlit("ls");
    assert("ls"@ =~= seq!['l', 's']);
    reveal_strlit("pull");
    assert("pull"@ =~= seq!['p', 'u', 'l', 'l']);
    reveal_strlit("quantize");
    assert("quantize"@ =~= seq!['q', 'u', 'a', 'n', 't', 'i', 'z', 'e']);
    reveal_strlit("tui");
    assert("tui"@ =~= seq!['t', 'u', 'i']);
    reveal_strlit("version");
    assert("version"@ =~= seq!['v', 'e', 'r', 's', 'i', 'o', 'n']);
    reveal_strlit("--version");
    assert("--version"@ =~= seq!['-', '-', 'v', 'e', 'r', 's', 'i', 'o', 'n']);
    reveal_strlit("-v");
    assert("-v"@ =~= seq!['-', 'v']);
    reveal_strlit("help");
    assert("help"@ =~= seq!['h', 'e', 'l', 'p']);
    reveal_strlit("--help");
    assert("--help"@ =~= seq!['-', '-', 'h', 'e', 'l', 'p']);
    reveal_strlit("-h");
    assert("-h"@ =~= seq!['-', 'h']);
}

/// Law: `run` and `chat` do the same, as do `list` and `ls`; `version`,
/// `--version` and `-v`; and `help`, `--help` and `-h`: whatever follows.
pub proof fn law_command_aliases(rest: Seq<Seq<char>>, prog: Seq<char>)
    ensures
        plan_of(seq![prog, "run"@] + rest) == plan_of(seq![prog, "chat"@] + rest),
        plan_of(seq![prog, "list"@] + rest) == plan_of(seq![prog, "ls"@] + rest),
        plan_of(seq![prog, "version"@] + rest) == Plan::Version,
        plan_of(seq![prog, "--version"@] + rest) == Plan::Version,
        plan_of(seq![prog, "-v"@] + rest) == Plan::Version,
        plan_of(seq![prog, "help"@] + rest) == Plan::Help,
        plan_of(seq![prog, "--help"@] + rest) == Plan::Help,
        plan_of(seq![prog, "-h"@] + rest) == Plan::Help,
{
    lemma_command_name_chars();
    assert((seq![prog, "run"@] + rest).subrange(2, rest.len() + 2int) =~= rest);
    assert((seq![prog, "chat"@] + rest).subrange(2, rest.len() + 2int) =~= rest);
    assert((seq![prog, "list"@] + rest).subrange(2, rest.len() + 2int) =~= rest);
    assert((seq![prog, "ls"@] + rest).subrange(2, rest.len() + 2int) =~= rest);
}

/// Law: a command that the upstream hipfire carries out, followed by at
/// least one argument, runs the upstream command of the same name with
/// exactly the arguments that follow it.
pub proof fn law_delegated_command_keeps_its_name(
    prog: Seq<char>,
    cmd: Seq<char>,
    rest: Seq<Seq<char>>,
)
    requires
        cmd == "serve"@ || cmd == "stop"@ || cmd == "pull"@ || cmd == "quantize"@,
        rest.len() > 0,
    ensures
        plan_of(seq![prog, cmd] + rest) matches Plan::Delegate(u, args) && upstream_name_spec(u)
            == cmd && args == rest,
{
    lemma_command_name_chars();
    reveal_strlit("serve");
    reveal_strlit("stop");
    reveal_strlit("pull");
    reveal_strlit("quantize");
    let a = seq![prog, cmd] + rest;
    assert(a[1] == cmd);
    assert(a.subrange(2, a.len() as int) =~= rest);
}

/// Law: what each command the launcher itself knows does with the
/// arguments that follow it: `run` and `chat` run the runner with them,
/// `tui` runs the editor with them, `config` and `list`/`ls` carry them to
/// their commands, and `pull` and `quantize` with nothing after them lack
/// their argument.
pub proof fn law_named_commands(prog: Seq<char>, rest: Seq<Seq<char>>)
    ensures
        plan_of(seq![prog, "run"@] + rest) == Plan::RunNative(NativeTool::Run, rest),
        plan_of(seq![prog, "chat"@] + rest) == Plan::RunNative(NativeTool::Run, rest),
        plan_of(seq![prog, "tui"@] + rest) == Plan::RunNative(NativeTool::Tui, rest),
        plan_of(seq![prog, "config"@] + rest) == Plan::Config(rest),
        plan_of(seq![prog, "list"@] + rest) == Plan::List(rest),
        plan_of(seq![prog, "ls"@] + rest) == Plan::List(rest),
        plan_of(seq![prog, "pull"@]) == Plan::MissingArgument(UpstreamCommand::Pull),
        plan_of(seq![prog, "quantize"@]) == Plan::MissingArgument(UpstreamCommand::Quantize),
        plan_of(seq![prog]) == Plan::ShowUsage,
{
    lemma_command_name_chars();
    assert((seq![prog, "run"@] + rest).subrange(2, rest.len() + 2int) =~= rest);
    assert((seq![prog, "chat"@] + rest).subrange(2, rest.len() + 2int) =~= rest);
    assert((seq![prog, "tui"@] + rest).subrange(2, rest.len() + 2int) =~= rest);
    assert((seq![prog, "config"@] + rest).subrange(2, rest.len() + 2int) =~= rest);
    assert((seq![prog, "list"@] + rest).subrange(2, rest.len() + 2int) =~= rest);
    assert((seq![prog, "ls"@] + rest).subrange(2, rest.len() + 2int) =~= rest);
    assert(seq![prog, "pull"@].subrange(2, 2) =~= Seq::<Seq<char>>::empty());
    assert(seq![prog, "quantize"@].subrange(2, 2) =~= Seq::<Seq<char>>::empty());
}

/// Law: what `config` does with a name of a key: `get <name>` reads that
/// key, `set <name> <value>` writes that value to it, and either without
/// all its arguments is refused before the name is looked at.
pub proof fn law_config_requests(name: Seq<char>, key: ConfigKey, value: Seq<char>)
    requires
        key_named(name) == Some(key),
    ensures
        config_plan_of(seq!["get"@, name]) == ConfigPlan::Get(key),
        config_plan_of(seq!["set"@, name, value]) == ConfigPlan::Store(key, value),
        config_plan_of(seq!["get"@]) == ConfigPlan::MissingGetKey,
        config_plan_of(seq!["set"@, name]) == ConfigPlan::MissingSetArgument,
        config_plan_of(seq!["set"@]) == ConfigPlan::MissingSetArgument,
        config_plan_of(seq!["list"@]) == ConfigPlan::List,
        config_plan_of(seq!["tui"@]) == ConfigPlan::Tui,
        config_plan_of(Seq::empty()) == ConfigPlan::Tui,
{
    reveal_strlit("get");
    reveal_strlit("set");
    reveal_strlit("list");
    reveal_strlit("tui");
    assert("get"@ =~= seq!['g', 'e', 't']);
    assert("set"@ =~= seq!['s', 'e', 't']);
    assert("list"@ =~= seq!['l', 'i', 's', 't']);
    assert("tui"@ =~= seq!['t', 'u', 'i']);
}

/// Law: `list` shows a file as a model exactly when its name ends in
/// `.hfq`, `.mq4`, `.mq6` or `.gguf`, whatever comes before.
pub proof fn law_model_extensions(stem: Seq<char>)
    ensures
        is_model_file_spec(stem + ".hfq"@),
        is_model_file_spec(stem + ".mq4"@),
        is_model_file_spec(stem + ".mq6"@),
        is_model_file_spec(stem + ".gguf"@),
        !is_model_file_spec(stem + ".txt"@),
{
    reveal_strlit(".hfq");
    reveal_strlit(".mq4");
    reveal_strlit(".mq6");
    reveal_strlit(".gguf");
    reveal_strlit(".txt");
    assert(".hfq"@ =~= seq!['.', 'h', 'f', 'q']);
    assert(".mq4"@ =~= seq!['.', 'm', 'q', '4']);
    assert(".mq6"@ =~= seq!['.', 'm', 'q', '6']);
    assert(".gguf"@ =~= seq!['.', 'g', 'g', 'u', 'f']);
    assert(".txt"@ =~= seq!['.', 't', 'x', 't']);
    let a = stem + ".hfq"@;
    assert(a.subrange(a.len() - 4, a.len() as int) =~= ".hfq"@);
    let b = stem + ".mq4"@;
    assert(b.subrange(b.len() - 4, b.len() as int) =~= ".mq4"@);
    let c = stem + ".mq6"@;
    assert(c.subrange(c.len() - 4, c.len() as int) =~= ".mq6"@);
    let d = stem + ".gguf"@;
    assert(d.subrange(d.len() - 5, d.len() as int) =~= ".gguf"@);
    let e = stem + ".txt"@;
    assert(e[e.len() - 1] == 't');
    assert(e.subrange(e.len() - 4, e.len() as int)[3] == 't');
    if e.len() >= 5 {
        assert(e.subrange(e.len() - 5, e.len() as int)[4] == 't');
    }
}

/// Law: a first argument that names a model file (ends in `.hfq`) or a
/// path (holds a `/`) runs it, with it and all that follows passed on.
pub proof fn law_model_path_runs(prog: Seq<char>, model: Seq<char>, rest: Seq<Seq<char>>)
    requires
        has_suffix(model, ".hfq"@) || model.contains('/'),
    ensures
        plan_of(seq![prog, model] + rest) == Plan::RunNative(NativeTool::Run, seq![model] + rest),
{
    lemma_command_name_chars();
    reveal_strlit(".hfq");
    let a = seq![prog, model] + rest;
    assert(a.subrange(1, a.len() as int) =~= seq![model] + rest);
    assert(".hfq"@ =~= seq!['.', 'h', 'f', 'q']);
    if has_suffix(model, ".hfq"@) {
        let tail = model.subrange(model.len() - 4, model.len() as int);
        assert(tail[3] == 'q');
        assert(model[model.len() - 1] == 'q');
    } else {
        let i = choose|i: int| 0 <= i < model.len() && model[i] == '/';
        assert(model[i] == '/');
    }
}

} // verus!
