//! The command surface: one variant for each subcommand, holding its
//! arguments as the user gave them.

use vstd::prelude::*;

verus! {

/// A parsed command line.
#[derive(Clone, Debug, PartialEq, Eq)]
pub struct Cli {
    pub command: Commands,
}

/// The subcommands and their arguments.
#[derive(Clone, Debug, PartialEq, Eq)]
pub enum Commands {
    /// Search for markets by keyword.
    Search { query: String },
    /// Show open positions of `user`, or of the configured wallet.
    Positions { user: Option<String> },
    /// Show the order book of a token.
    OrderBook { token_id: String },
    /// Show recent trades of a token.
    Trade { token_id: String },
    /// Show the midpoint price of a token.
    Midpoint { token_id: String },
    /// Place an order.
    Order { token_id: String, side: String, amount: String, price: Option<String> },
    /// Approve the exchange contracts, or with `dry_run` only list them.
    Approve { dry_run: bool },
    /// Show the wallet's balances.
    Status,
    /// Replace the binary with the latest release.
    Upgrade,
}

} // verus!
