use polymarket_cli::decimal::Decimal;
use polymarket_cli::orderbook::{sort_asks, sort_bids, OrderBookLevel};

fn dec(text: &str) -> Decimal {
    Decimal::parse(text).unwrap()
}

fn make_level(price: &str, size: &str) -> OrderBookLevel {
    OrderBookLevel { price: dec(price), size: dec(size) }
}

fn key(level: &OrderBookLevel) -> (i128, u32, i128, u32) {
    (level.price.mantissa(), level.price.scale(), level.size.mantissa(), level.size.scale())
}

fn keys(levels: &Vec<OrderBookLevel>) -> Vec<(i128, u32, i128, u32)> {
    let mut out = Vec::new();
    for level in levels {
        out.push(key(level));
    }
    out
}

#[test]
fn test_sort_bids_descending() {
    let bids = vec![make_level("0.30", "100"), make_level("0.50", "200"), make_level("0.40", "150")];
    let sorted = sort_bids(bids);
    assert!(sorted[0].price.same_value(&dec("0.50")));
    assert!(sorted[1].price.same_value(&dec("0.40")));
    assert!(sorted[2].price.same_value(&dec("0.30")));
}

#[test]
fn test_sort_asks_ascending() {
    let asks = vec![make_level("0.60", "100"), make_level("0.50", "200"), make_level("0.55", "150")];
    let sorted = sort_asks(asks);
    assert!(sorted[0].price.same_value(&dec("0.50")));
    assert!(sorted[1].price.same_value(&dec("0.55")));
    assert!(sorted[2].price.same_value(&dec("0.60")));
}

#[test]
fn test_sort_bids_empty() {
    let bids: Vec<OrderBookLevel> = vec![];
    let sorted = sort_bids(bids);
    assert!(sorted.is_empty());
}

#[test]
fn test_sort_asks_empty() {
    let asks: Vec<OrderBookLevel> = vec![];
    let sorted = sort_asks(asks);
    assert!(sorted.is_empty());
}

#[test]
fn test_sort_single_element() {
    let bids = vec![make_level("0.50", "100")];
    let sorted = sort_bids(bids);
    assert_eq!(sorted.len(), 1);
    assert!(sorted[0].price.same_value(&dec("0.50")));
}

#[test]
fn sorting_keeps_sizes_with_their_prices() {
    let sorted = sort_bids(vec![make_level("0.30", "100"), make_level("0.50", "200")]);
    assert_eq!(keys(&sorted), vec![(50, 2, 200, 0), (30, 2, 100, 0)]);
    let sorted = sort_asks(vec![make_level("0.60", "1.5"), make_level("0.50", "2")]);
    assert_eq!(keys(&sorted), vec![(50, 2, 2, 0), (60, 2, 15, 1)]);
}

#[test]
fn sorting_is_stable_for_equal_prices() {
    let levels = vec![
        make_level("0.5", "1"),
        make_level("0.40", "2"),
        make_level("0.50", "3"),
        make_level("0.4", "4"),
        make_level("0.500", "5"),
    ];
    let bids = sort_bids(levels.clone());
    assert_eq!(
        keys(&bids),
        vec![(5, 1, 1, 0), (50, 2, 3, 0), (500, 3, 5, 0), (40, 2, 2, 0), (4, 1, 4, 0)]
    );
    let asks = sort_asks(levels);
    assert_eq!(
        keys(&asks),
        vec![(40, 2, 2, 0), (4, 1, 4, 0), (5, 1, 1, 0), (50, 2, 3, 0), (500, 3, 5, 0)]
    );
}

#[test]
fn sorting_twice_changes_nothing() {
    let levels = vec![
        make_level("0.31", "1"),
        make_level("0.02", "2"),
        make_level("0.99", "3"),
        make_level("0.31", "4"),
        make_level("-1", "5"),
        make_level("12", "6"),
    ];
    let once = sort_bids(levels.clone());
    let twice = sort_bids(once.clone());
    assert_eq!(keys(&once), keys(&twice));
    let once = sort_asks(levels.clone());
    let twice = sort_asks(once.clone());
    assert_eq!(keys(&once), keys(&twice));
}

#[test]
fn sorting_keeps_every_level_and_orders_prices() {
    let levels = vec![
        make_level("0.31", "1"),
        make_level("0.02", "2"),
        make_level("0.99", "3"),
        make_level("0.31", "4"),
        make_level("12", "6"),
    ];
    let bids = sort_bids(levels.clone());
    assert_eq!(bids.len(), levels.len());
    for pair in bids.windows(2) {
        assert!(!pair[0].price.less_than(&pair[1].price));
    }
    let asks = sort_asks(levels.clone());
    assert_eq!(asks.len(), levels.len());
    for pair in asks.windows(2) {
        assert!(!pair[1].price.less_than(&pair[0].price));
    }
    let mut before = keys(&levels);
    let mut after_bids = keys(&bids);
    let mut after_asks = keys(&asks);
    before.sort();
    after_bids.sort();
    after_asks.sort();
    assert_eq!(before, after_bids);
    assert_eq!(before, after_asks);
}
