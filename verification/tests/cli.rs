use hipfire_arwaky::cli::{
    config_request, dispatch, is_model_file, native_binary, parse_command, upstream_argv,
    upstream_name, wants_remote, Action, Command, ConfigRequest, NativeTool, UpstreamCommand,
};
use hipfire_arwaky::config::ConfigKey;

fn args(a: &[&str]) -> Vec<String> {
    a.iter().map(|s| s.to_string()).collect()
}

#[test]
fn commands_are_parsed_by_name() {
    assert_eq!(parse_command("run"), Command::Run);
    assert_eq!(parse_command("chat"), Command::Chat);
    assert_eq!(parse_command("ls"), Command::List);
    assert_eq!(parse_command("-v"), Command::Version);
    assert_eq!(parse_command("--help"), Command::Help);
    assert_eq!(parse_command("qwen.hfq"), Command::ModelPath);
    assert_eq!(parse_command("./models/x"), Command::ModelPath);
    assert_eq!(parse_command("model.gguf"), Command::Unknown);
    assert_eq!(parse_command("frobnicate"), Command::Unknown);
}

#[test]
fn no_command_shows_usage() {
    assert!(matches!(dispatch(&args(&["hipfire-arwaky"])), Action::ShowUsage));
    assert!(matches!(dispatch(&args(&[])), Action::ShowUsage));
}

#[test]
fn run_and_chat_run_natively_with_the_rest() {
    for c in ["run", "chat"] {
        match dispatch(&args(&["h", c, "m.hfq", "hi"])) {
            Action::RunNative(NativeTool::Run, a) => assert_eq!(a, args(&["m.hfq", "hi"])),
            _ => panic!("wrong action"),
        }
    }
}

#[test]
fn model_path_runs_with_itself() {
    match dispatch(&args(&["h", "/m/q.hfq", "hello"])) {
        Action::RunNative(NativeTool::Run, a) => assert_eq!(a, args(&["/m/q.hfq", "hello"])),
        _ => panic!("wrong action"),
    }
}

#[test]
fn delegated_commands() {
    match dispatch(&args(&["h", "serve", "0.0.0.0", "80"])) {
        Action::Delegate(UpstreamCommand::Serve, a) => assert_eq!(a, args(&["0.0.0.0", "80"])),
        _ => panic!("wrong action"),
    }
    match dispatch(&args(&["h", "stop"])) {
        Action::Delegate(UpstreamCommand::Stop, a) => assert!(a.is_empty()),
        _ => panic!("wrong action"),
    }
    match dispatch(&args(&["h", "pull", "qwen3.5"])) {
        Action::Delegate(UpstreamCommand::Pull, a) => assert_eq!(a, args(&["qwen3.5"])),
        _ => panic!("wrong action"),
    }
    assert!(matches!(
        dispatch(&args(&["h", "pull"])),
        Action::MissingArgument(UpstreamCommand::Pull)
    ));
    assert!(matches!(
        dispatch(&args(&["h", "quantize"])),
        Action::MissingArgument(UpstreamCommand::Quantize)
    ));
}

#[test]
fn other_commands() {
    assert!(matches!(dispatch(&args(&["h", "version"])), Action::Version));
    assert!(matches!(dispatch(&args(&["h", "-h"])), Action::Help));
    match dispatch(&args(&["h", "config", "get", "port"])) {
        Action::Config(a) => assert_eq!(a, args(&["get", "port"])),
        _ => panic!("wrong action"),
    }
    match dispatch(&args(&["h", "ls", "-r"])) {
        Action::List(a) => assert_eq!(a, args(&["-r"])),
        _ => panic!("wrong action"),
    }
    match dispatch(&args(&["h", "tui"])) {
        Action::RunNative(NativeTool::Tui, a) => assert!(a.is_empty()),
        _ => panic!("wrong action"),
    }
    match dispatch(&args(&["h", "bogus"])) {
        Action::Unknown(s) => assert_eq!(s, "bogus"),
        _ => panic!("wrong action"),
    }
}

#[test]
fn config_requests() {
    assert!(matches!(config_request(&args(&[])), ConfigRequest::Tui));
    assert!(matches!(config_request(&args(&["tui"])), ConfigRequest::Tui));
    assert!(matches!(config_request(&args(&["list"])), ConfigRequest::List));
    assert!(matches!(config_request(&args(&["get"])), ConfigRequest::MissingGetKey));
    assert!(matches!(config_request(&args(&["get", "port"])), ConfigRequest::Get(ConfigKey::Port)));
    assert!(matches!(config_request(&args(&["set", "port"])), ConfigRequest::MissingSetArgument));
    assert!(matches!(config_request(&args(&["set", "nokey"])), ConfigRequest::MissingSetArgument));
    match config_request(&args(&["set", "host", "::1"])) {
        ConfigRequest::Store(ConfigKey::Host, v) => assert_eq!(v, "::1"),
        _ => panic!("wrong request"),
    }
    match config_request(&args(&["get", "nokey"])) {
        ConfigRequest::UnknownKey(k) => assert_eq!(k, "nokey"),
        _ => panic!("wrong request"),
    }
    assert!(matches!(config_request(&args(&["edit"])), ConfigRequest::Usage));
}

#[test]
fn list_options_and_model_files() {
    assert!(wants_remote(&args(&["-r"])));
    assert!(wants_remote(&args(&["x", "--remote"])));
    assert!(!wants_remote(&args(&["-R"])));
    assert!(!wants_remote(&args(&[])));
    assert!(is_model_file("a.hfq"));
    assert!(is_model_file("a.mq4"));
    assert!(is_model_file("a.mq6"));
    assert!(is_model_file("a.gguf"));
    assert!(!is_model_file("a.safetensors"));
    assert!(!is_model_file("hfq"));
}

#[test]
fn upstream_command_lines() {
    assert_eq!(
        upstream_argv("/h/.hipfire/bin/hipfire", UpstreamCommand::Pull, &args(&["qwen"])),
        args(&["/h/.hipfire/bin/hipfire", "pull", "qwen"])
    );
    assert_eq!(upstream_name(UpstreamCommand::Quantize), "quantize");
    assert_eq!(native_binary(NativeTool::Run), "hipfire-arwaky-run");
    assert_eq!(native_binary(NativeTool::Tui), "hipfire-arwaky-tui");
}
