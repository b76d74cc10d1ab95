use backpressure::combiner::Combiner;
use backpressure::config::{Config, ConfigError};
use backpressure::lifecycle::{Lifecycle, SendOutcome};
use backpressure::monitor::occupancy_percent;
use backpressure::processor::Processor;
use backpressure::producer::{next_lcg, Producer};
use backpressure::rate::{rate_per_second, RateWindow};
use backpressure::reporter::{PerformanceTable, Report, Stage};
use backpressure::MyApp;

#[test]
fn config_starts_with_defaults() {
    let c = Config::new();
    assert_eq!(c.batch_size, 32);
    assert_eq!(c.delay_tenths, 0);
    assert_eq!(c.processing_delay_micros(), 0);
}

#[test]
fn config_refuses_zero_batch_size() {
    let mut c = Config::new();
    assert_eq!(c.set_batch_size(0), Err(ConfigError::ZeroBatchSize));
    assert_eq!(c.batch_size, 32);
    assert_eq!(c.set_batch_size(64), Ok(()));
    assert_eq!(c.batch_size, 64);
}

#[test]
fn config_steps_batch_size_and_delay() {
    let mut c = Config::new();
    c.decrease_batch_size();
    assert_eq!(c.batch_size, 32);
    c.increase_batch_size();
    assert_eq!(c.batch_size, 64);
    c.decrease_batch_size();
    assert_eq!(c.batch_size, 32);
    c.decrease_delay();
    assert_eq!(c.delay_tenths, 0);
    c.increase_delay();
    c.increase_delay();
    assert_eq!(c.delay_tenths, 2);
    assert_eq!(c.processing_delay_micros(), 200_000);
    c.set_processing_delay(7);
    assert_eq!(c.processing_delay_micros(), 700_000);
}

#[test]
fn lcg_steps_exactly() {
    assert_eq!(next_lcg(0), 12345);
    assert_eq!(next_lcg(1), 1103527590);
    assert_eq!(next_lcg(u64::MAX), 0u64.wrapping_sub(1103515245).wrapping_add(12345));
}

#[test]
fn producer_is_seeded_by_identity() {
    let mut p = Producer::new(3);
    assert_eq!(p.next_message(), 3310558080);
    assert_eq!(p.next_message(), next_lcg(3310558080));
    let mut q = Producer::new(4);
    assert_ne!(q.next_message(), 3310558080);
}

#[test]
fn producer_stops_when_channel_closes() {
    let mut p = Producer::new(0);
    p.next_message();
    assert!(p.on_send(SendOutcome::Delivered));
    assert_eq!(p.window.count, 1);
    p.next_message();
    assert!(!p.on_send(SendOutcome::Closed));
    assert_eq!(p.lifecycle, Lifecycle::Terminated);
    assert!(!p.on_send(SendOutcome::Delivered));
    assert_eq!(p.lifecycle, Lifecycle::Terminated);
}

#[test]
fn producer_reports_after_its_window() {
    let mut p = Producer::new(2);
    for _ in 0..50 {
        p.next_message();
        p.on_send(SendOutcome::Delivered);
    }
    assert_eq!(p.on_tick(99_999), None);
    assert_eq!(p.window.count, 50);
    assert_eq!(p.on_tick(100_000), Some(Report::Producer(2, 500)));
    assert_eq!(p.window.count, 0);
}

#[test]
fn rate_is_exact_and_capped() {
    assert_eq!(rate_per_second(50, 100_000), 500);
    assert_eq!(rate_per_second(1, 3_000_000), 0);
    assert_eq!(rate_per_second(7, 2_000_000), 3);
    assert_eq!(rate_per_second(u64::MAX, 1), u32::MAX);
    let mut w = RateWindow::new(10);
    w.record();
    w.record();
    assert_eq!(w.sample(9), None);
    assert_eq!(w.sample(20), Some(100_000));
    assert_eq!(w.count, 0);
}

#[test]
fn combiner_forwards_full_batch_and_starts_fresh() {
    let mut c = Combiner::new(0, 4);
    assert_eq!(c.on_item(1, 4), None);
    assert_eq!(c.on_item(2, 4), None);
    assert_eq!(c.on_item(3, 4), None);
    assert_eq!(c.on_item(4, 4), Some(vec![1, 2, 3, 4]));
    assert!(c.batch.is_empty());
    assert_eq!(c.on_item(5, 4), None);
    assert_eq!(c.batch, vec![5]);
    assert_eq!(c.window.count, 5);
}

#[test]
fn combiner_batch_size_change_waits_for_next_batch() {
    let mut c = Combiner::new(1, 32);
    for i in 0..20u64 {
        assert_eq!(c.on_item(i, 32), None);
    }
    for i in 20..31u64 {
        assert_eq!(c.on_item(i, 64), None);
    }
    let out = c.on_item(31, 64).unwrap();
    assert_eq!(out.len(), 32);
    assert_eq!(out, (0..32u64).collect::<Vec<u64>>());
    assert_eq!(c.limit, 64);
    for i in 0..63u64 {
        assert_eq!(c.on_item(i, 64), None);
    }
    assert_eq!(c.on_item(63, 64).map(|b| b.len()), Some(64));
}

#[test]
fn combiner_batches_never_exceed_their_start_size() {
    let sizes = [5usize, 1, 9, 3, 3, 2, 8];
    let mut c = Combiner::new(0, 4);
    let mut limit_at_start = c.limit;
    for k in 0..200u64 {
        let size = sizes[(k as usize) % sizes.len()];
        if let Some(b) = c.on_item(k, size) {
            assert_eq!(b.len(), limit_at_start);
            limit_at_start = c.limit;
        }
        assert!(c.batch.len() < c.limit);
    }
}

#[test]
fn combiner_stops_on_closed_output() {
    let mut c = Combiner::new(0, 2);
    c.on_item(1, 2);
    assert!(c.on_item(2, 2).is_some());
    assert!(c.on_forward(SendOutcome::Delivered));
    assert!(c.on_item(3, 2).is_none());
    assert!(c.on_item(4, 2).is_some());
    assert!(!c.on_forward(SendOutcome::Closed));
    assert_eq!(c.lifecycle, Lifecycle::Terminated);
}

#[test]
fn combiner_drops_partial_batch_on_input_close() {
    let mut c = Combiner::new(0, 8);
    c.on_item(1, 8);
    c.on_item(2, 8);
    c.on_item(3, 8);
    assert_eq!(c.on_input_closed(), 3);
    assert!(c.batch.is_empty());
    assert_eq!(c.lifecycle, Lifecycle::Terminated);
}

#[test]
fn combiner_reports_messages_per_second() {
    let mut c = Combiner::new(3, 10);
    for i in 0..25u64 {
        c.on_item(i, 10);
    }
    assert_eq!(c.on_tick(200_000), None);
    assert_eq!(c.on_tick(250_000), Some(Report::Layer1(3, 100)));
    assert_eq!(c.window.count, 0);
}

#[test]
fn processor_with_zero_delay_is_not_capped() {
    let mut config = Config::new();
    let mut p = Processor::new(0);
    for _ in 0..100 {
        assert_eq!(p.cost_of_batch(&config), 0);
        p.on_batch_done();
    }
    assert_eq!(p.on_tick(1_000), None);
    assert_eq!(p.on_tick(250_000), Some(Report::Layer2(0, 400)));
    config.set_processing_delay(3);
    assert_eq!(p.cost_of_batch(&config), 300_000);
}

#[test]
fn processor_stops_on_input_close() {
    let mut p = Processor::new(0);
    p.on_input_closed();
    assert_eq!(p.lifecycle, Lifecycle::Terminated);
}

#[test]
fn occupancy_rounds_to_whole_percent() {
    assert_eq!(occupancy_percent(0, 10), 0);
    assert_eq!(occupancy_percent(10, 10), 100);
    assert_eq!(occupancy_percent(1, 3), 33);
    assert_eq!(occupancy_percent(2, 3), 67);
    assert_eq!(occupancy_percent(1, 2), 50);
    assert_eq!(occupancy_percent(5, 1000), 1);
    assert_eq!(occupancy_percent(4, 1000), 0);
    assert_eq!(occupancy_percent(11, 10), 100);
    assert_eq!(occupancy_percent(usize::MAX - 1, usize::MAX), 100);
}

#[test]
fn occupancy_stays_within_percent_range() {
    for cap in 1..40usize {
        for len in 0..50usize {
            let p = occupancy_percent(len, cap);
            assert!(p <= 100);
        }
    }
}

#[test]
fn full_channel_suspends_eleventh_send() {
    let (tx, _rx) = flume::bounded::<u64>(10);
    let mut p = Producer::new(0);
    for _ in 0..10 {
        let m = p.next_message();
        assert!(tx.try_send(m).is_ok());
        p.on_send(SendOutcome::Delivered);
    }
    let m = p.next_message();
    assert!(matches!(tx.try_send(m), Err(flume::TrySendError::Full(_))));
    let cap = tx.capacity().unwrap();
    assert_eq!(occupancy_percent(tx.len(), cap), 100);
    assert_eq!(p.lifecycle, Lifecycle::Running);
}

#[test]
fn table_keeps_latest_rate_per_worker() {
    let mut t = PerformanceTable::new(2, 1, 1);
    assert_eq!(t.get(Stage::Producer, 1), Some(0));
    assert!(t.apply(Report::Producer(1, 10)));
    assert!(t.apply(Report::Producer(1, 20)));
    assert!(t.apply(Report::Layer1(0, 7)));
    assert!(!t.apply(Report::Layer2(5, 9)));
    assert_eq!(t.get(Stage::Producer, 1), Some(20));
    assert_eq!(t.get(Stage::Producer, 0), Some(0));
    assert_eq!(t.get(Stage::Layer1, 0), Some(7));
    assert_eq!(t.get(Stage::Layer2, 0), Some(0));
    assert_eq!(t.get(Stage::Layer2, 5), None);
    assert_eq!(Report::Layer2(0, 1).stage(), Stage::Layer2);
    assert_eq!(Report::Layer1(6, 1).id(), 6);
    assert_eq!(Report::Producer(2, 1).stage(), Stage::Producer);
}

#[test]
fn table_applies_reports_in_arrival_order() {
    let mut t = PerformanceTable::new(1, 1, 1);
    t.apply_all(&vec![
        Report::Layer2(0, 3),
        Report::Producer(0, 5),
        Report::Layer2(0, 4),
        Report::Producer(0, 1),
    ]);
    assert_eq!(t.producer, vec![1]);
    assert_eq!(t.layer2, vec![4]);
    assert_eq!(t.layer1, vec![0]);
}

#[test]
fn dashboard_history_is_bounded() {
    let mut app = MyApp::new(1, 2, 0);
    let mut t = PerformanceTable::new(1, 1, 0);
    for k in 0..305u32 {
        t.apply(Report::Producer(0, k));
        app.record_samples(&t);
    }
    assert_eq!(app.producer_history[0].len(), 300);
    assert_eq!(app.producer_history[0][0], 5);
    assert_eq!(app.producer_history[0][299], 304);
    assert_eq!(app.layer1_history[1].len(), 300);
    assert!(app.layer1_history[1].iter().all(|x| *x == 0));
    let d = MyApp::default();
    assert!(d.producer_history.is_empty());
}
