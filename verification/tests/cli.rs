use skb_cli::cli::Commands;
use skb_cli::cli::FileCommands;
use skb_cli::cli::ServerCommands;
use skb_cli::cli::get_cli_args;
use skb_cli::cli::parse_u8;

fn argv(tokens: &[&str]) -> Vec<String> {
    tokens.iter().map(|t| t.to_string()).collect()
}

#[test]
fn status_command_parses() {
    let args = get_cli_args(&argv(&["status"])).unwrap();
    assert!(matches!(args.command, Commands::Status));
    assert_eq!(args.verbose, 0);
    assert!(!args.allow_unsafe);
}

#[test]
fn global_flags_accumulate() {
    let args = get_cli_args(&argv(&["-vv", "-k", "status"])).unwrap();
    assert_eq!(args.verbose, 2);
    assert!(args.allow_unsafe);
    let args = get_cli_args(&argv(&["--verbose", "--verbose", "--verbose", "server", "list"])).unwrap();
    assert_eq!(args.verbose, 3);
    assert!(!args.allow_unsafe);
    let args = get_cli_args(&argv(&["-vkv", "file", "sync"])).unwrap();
    assert_eq!(args.verbose, 2);
    assert!(args.allow_unsafe);
    let args = get_cli_args(&argv(&["--allow-unsafe", "status"])).unwrap();
    assert!(args.allow_unsafe);
}

#[test]
fn server_subcommands_parse() {
    let args = get_cli_args(&argv(&["server", "list"])).unwrap();
    assert!(matches!(
        args.command,
        Commands::Server { command: ServerCommands::List }
    ));
    let args = get_cli_args(&argv(&["server", "discover"])).unwrap();
    assert!(matches!(
        args.command,
        Commands::Server { command: ServerCommands::Discover { depth: None } }
    ));
    let args = get_cli_args(&argv(&["server", "discover", "7"])).unwrap();
    assert!(matches!(
        args.command,
        Commands::Server { command: ServerCommands::Discover { depth: Some(7) } }
    ));
    let args = get_cli_args(&argv(&["server", "verify", "host1"])).unwrap();
    match args.command {
        Commands::Server { command: ServerCommands::Verify { hostname } } => {
            assert_eq!(hostname, "host1");
        }
        other => panic!("unexpected command: {:?}", other),
    }
    let args = get_cli_args(&argv(&["server", "new", "host2"])).unwrap();
    match args.command {
        Commands::Server { command: ServerCommands::New { hostname } } => {
            assert_eq!(hostname, "host2");
        }
        other => panic!("unexpected command: {:?}", other),
    }
    let args = get_cli_args(&argv(&["server", "delete", "host3"])).unwrap();
    match args.command {
        Commands::Server { command: ServerCommands::Delete { hostname } } => {
            assert_eq!(hostname, "host3");
        }
        other => panic!("unexpected command: {:?}", other),
    }
}

#[test]
fn file_subcommands_parse() {
    let args = get_cli_args(&argv(&["file", "list"])).unwrap();
    assert!(matches!(
        args.command,
        Commands::File { command: FileCommands::List }
    ));
    let args = get_cli_args(&argv(&["file", "sync"])).unwrap();
    assert!(matches!(
        args.command,
        Commands::File { command: FileCommands::Sync }
    ));
    let args = get_cli_args(&argv(&["file", "add", "a.txt"])).unwrap();
    match args.command {
        Commands::File { command: FileCommands::Add { file } } => assert_eq!(file, "a.txt"),
        other => panic!("unexpected command: {:?}", other),
    }
    let args = get_cli_args(&argv(&["file", "delete", "a.txt"])).unwrap();
    match args.command {
        Commands::File { command: FileCommands::Delete { file } } => assert_eq!(file, "a.txt"),
        other => panic!("unexpected command: {:?}", other),
    }
}

#[test]
fn update_and_download_take_optional_force() {
    let args = get_cli_args(&argv(&["file", "update", "a.txt"])).unwrap();
    match args.command {
        Commands::File { command: FileCommands::Update { file, force } } => {
            assert_eq!(file, "a.txt");
            assert!(!force);
        }
        other => panic!("unexpected command: {:?}", other),
    }
    let args = get_cli_args(&argv(&["file", "update", "a.txt", "-f"])).unwrap();
    match args.command {
        Commands::File { command: FileCommands::Update { file, force } } => {
            assert_eq!(file, "a.txt");
            assert!(force);
        }
        other => panic!("unexpected command: {:?}", other),
    }
    let args = get_cli_args(&argv(&["file", "update", "--force", "a.txt"])).unwrap();
    match args.command {
        Commands::File { command: FileCommands::Update { file, force } } => {
            assert_eq!(file, "a.txt");
            assert!(force);
        }
        other => panic!("unexpected command: {:?}", other),
    }
    let args = get_cli_args(&argv(&["file", "download", "b.txt", "--force"])).unwrap();
    match args.command {
        Commands::File { command: FileCommands::Download { file, force } } => {
            assert_eq!(file, "b.txt");
            assert!(force);
        }
        other => panic!("unexpected command: {:?}", other),
    }
    let args = get_cli_args(&argv(&["file", "download", "b.txt"])).unwrap();
    match args.command {
        Commands::File { command: FileCommands::Download { file, force } } => {
            assert_eq!(file, "b.txt");
            assert!(!force);
        }
        other => panic!("unexpected command: {:?}", other),
    }
}

#[test]
fn invalid_command_lines_are_rejected() {
    assert!(get_cli_args(&argv(&[])).is_none());
    assert!(get_cli_args(&argv(&["bogus"])).is_none());
    assert!(get_cli_args(&argv(&["status", "extra"])).is_none());
    assert!(get_cli_args(&argv(&["server"])).is_none());
    assert!(get_cli_args(&argv(&["server", "bogus"])).is_none());
    assert!(get_cli_args(&argv(&["server", "verify"])).is_none());
    assert!(get_cli_args(&argv(&["server", "verify", "-h"])).is_none());
    assert!(get_cli_args(&argv(&["server", "discover", "256"])).is_none());
    assert!(get_cli_args(&argv(&["server", "discover", "7", "8"])).is_none());
    assert!(get_cli_args(&argv(&["file"])).is_none());
    assert!(get_cli_args(&argv(&["file", "update"])).is_none());
    assert!(get_cli_args(&argv(&["file", "update", "-f"])).is_none());
    assert!(get_cli_args(&argv(&["file", "update", "a", "b"])).is_none());
    assert!(get_cli_args(&argv(&["file", "sync", "extra"])).is_none());
    assert!(get_cli_args(&argv(&["-x", "status"])).is_none());
    assert!(get_cli_args(&argv(&["-", "status"])).is_none());
    assert!(get_cli_args(&argv(&["-v"])).is_none());
}

#[test]
fn verbose_flag_saturates() {
    let mut tokens: Vec<String> = std::iter::repeat("-vvvvvvvvvv".to_string()).take(30).collect();
    tokens.push("status".to_string());
    let args = get_cli_args(&tokens).unwrap();
    assert_eq!(args.verbose, 255);
}

#[test]
fn depth_token_parses_as_eight_bits() {
    assert_eq!(parse_u8(&"0".to_string()), Some(0));
    assert_eq!(parse_u8(&"7".to_string()), Some(7));
    assert_eq!(parse_u8(&"255".to_string()), Some(255));
    assert_eq!(parse_u8(&"0007".to_string()), Some(7));
    assert_eq!(parse_u8(&"256".to_string()), None);
    assert_eq!(parse_u8(&"99999999999999999999".to_string()), None);
    assert_eq!(parse_u8(&"".to_string()), None);
    assert_eq!(parse_u8(&"1a".to_string()), None);
    assert_eq!(parse_u8(&"-1".to_string()), None);
}
