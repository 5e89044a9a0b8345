use chrono::Utc;
use stg_mamba::data::buffer::FeatureBuffer;
use stg_mamba::data::types::Asset;

fn now_micros() -> i64 {
    Utc::now().timestamp_micros()
}

#[test]
fn test_feature_buffer() {
    let assets = vec![Asset::BTC, Asset::ETH];
    let mut buffer = FeatureBuffer::new(assets, 10);

    // Initially empty
    assert!(!buffer.is_ready(5));
    assert_eq!(buffer.len(Asset::BTC), 0);

    // Add some features
    for i in 0..5u64 {
        buffer.push(Asset::BTC, i, now_micros());
    }

    assert_eq!(buffer.len(Asset::BTC), 5);
    assert!(!buffer.is_ready(5)); // ETH still empty

    // Add to ETH
    for i in 0..5u64 {
        buffer.push(Asset::ETH, 100 + i, now_micros());
    }

    assert!(buffer.is_ready(5));

    // Get batch
    let batch = buffer.get_batch(5).unwrap();
    assert_eq!(batch.len(), 2);
    let btc = batch.iter().find(|(a, _)| *a == Asset::BTC).unwrap();
    let eth = batch.iter().find(|(a, _)| *a == Asset::ETH).unwrap();
    assert_eq!(btc.1.len(), 5);
    assert_eq!(eth.1.len(), 5);

    // Test overflow (buffer size is 10)
    for i in 0..10u64 {
        buffer.push(Asset::BTC, 200 + i, now_micros());
    }

    // Should have exactly 10 elements
    assert_eq!(buffer.len(Asset::BTC), 10);
}

#[test]
fn test_time_range() {
    let assets = vec![Asset::BTC];
    let mut buffer = FeatureBuffer::new(assets, 10);

    assert!(buffer.time_range(Asset::BTC).is_none());

    let t1 = now_micros();
    buffer.push(Asset::BTC, 1, t1);

    let t2 = now_micros();
    buffer.push(Asset::BTC, 2, t2);

    let (start, end) = buffer.time_range(Asset::BTC).unwrap();
    assert_eq!(start, t1);
    assert_eq!(end, t2);
}

#[test]
fn buffer_keeps_newest_entries_in_order() {
    let mut buffer = FeatureBuffer::new(vec![Asset::SOL], 3);
    for i in 0..7u64 {
        buffer.push(Asset::SOL, i, 1_000 + i as i64);
    }
    let seq = buffer.get_sequence(Asset::SOL).unwrap();
    assert_eq!(seq, vec![(4, 1_004), (5, 1_005), (6, 1_006)]);
    assert_eq!(buffer.get_oldest(Asset::SOL), Some((4, 1_004)));
    assert_eq!(buffer.get_latest(Asset::SOL), Some((6, 1_006)));
    assert_eq!(buffer.time_range(Asset::SOL), Some((1_004, 1_006)));
    assert_eq!(buffer.capacity(), 3);
}

#[test]
fn buffer_ignores_unwatched_assets() {
    let mut buffer = FeatureBuffer::new(vec![Asset::BTC, Asset::BTC], 4);
    buffer.push(Asset::Gold, 9, 9);
    assert_eq!(buffer.len(Asset::Gold), 0);
    assert!(buffer.is_empty(Asset::Gold));
    assert!(buffer.get_sequence(Asset::Gold).is_none());
    assert!(buffer.get_latest(Asset::Gold).is_none());
    assert!(buffer.time_range(Asset::Gold).is_none());
    // A repeated asset is watched once.
    buffer.push(Asset::BTC, 1, 1);
    let batch = buffer.get_batch(1).unwrap();
    assert_eq!(batch, vec![(Asset::BTC, vec![(1, 1)])]);
}

#[test]
fn buffer_batch_needs_every_asset_ready() {
    let mut buffer = FeatureBuffer::new(vec![Asset::ETH, Asset::XRP], 5);
    buffer.push(Asset::ETH, 1, 10);
    buffer.push(Asset::ETH, 2, 20);
    buffer.push(Asset::XRP, 3, 30);
    assert!(buffer.get_batch(2).is_none());
    assert!(!buffer.is_ready(2));
    assert!(buffer.is_ready(1));
    let batch = buffer.get_batch(1).unwrap();
    assert_eq!(batch, vec![(Asset::ETH, vec![(1, 10), (2, 20)]), (Asset::XRP, vec![(3, 30)])]);
    // An empty batch request is always ready.
    assert!(buffer.get_batch(0).is_some());
}

#[test]
fn buffer_clear_empties_every_history() {
    let mut buffer = FeatureBuffer::new(vec![Asset::ETH, Asset::XRP], 5);
    buffer.push(Asset::ETH, 1, 10);
    buffer.push(Asset::XRP, 3, 30);
    buffer.clear();
    assert!(buffer.is_empty(Asset::ETH));
    assert!(buffer.is_empty(Asset::XRP));
    assert_eq!(buffer.get_sequence(Asset::ETH), Some(vec![]));
    assert_eq!(buffer.capacity(), 5);
    buffer.push(Asset::ETH, 7, 70);
    assert_eq!(buffer.get_latest(Asset::ETH), Some((7, 70)));
}

#[test]
fn buffer_without_assets_accepts_zero_capacity() {
    let buffer = FeatureBuffer::new(vec![], 0);
    assert!(buffer.is_ready(100));
    assert_eq!(buffer.get_batch(3), Some(vec![]));
}
