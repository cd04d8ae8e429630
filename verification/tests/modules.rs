use polymarket_cli::cli::{Cli, Commands};

#[test]
fn midpoint_test_module_compiles() {
    assert!(true);
}

#[test]
fn trade_test_module_compiles() {
    assert!(true);
}

#[test]
fn commands_hold_their_arguments() {
    let cli = Cli {
        command: Commands::Order {
            token_id: "123".to_string(),
            side: "buy".to_string(),
            amount: "10".to_string(),
            price: None,
        },
    };
    assert!(matches!(cli.command, Commands::Order { ref side, .. } if side == "buy"));
    let same = cli.clone();
    assert_eq!(cli, same);
    assert_ne!(cli, Cli { command: Commands::Approve { dry_run: true } });
    assert_ne!(
        Commands::Approve { dry_run: true },
        Commands::Approve { dry_run: false }
    );
}
