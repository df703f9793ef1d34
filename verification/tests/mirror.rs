use lockstep::sync::Mirror;
use lockstep::sync::SyncError;

#[test]
fn reader_sees_the_last_published_value() {
    let (mut writer, mut store) = Mirror::new(0u64);
    let mut reader = writer;
    writer.publish(&mut store, 1);
    writer.publish(&mut store, 2);
    writer.publish(&mut store, 3);
    assert_eq!(reader.sync(&store), Ok(()));
    assert_eq!(*reader.get(), 3);
}

#[test]
fn publisher_never_needs_to_sync_its_own_writes() {
    let (mut writer, mut store) = Mirror::new(0u32);
    writer.publish(&mut store, 9);
    assert_eq!(*writer.get(), 9);
    assert!(writer.check_sync_status(&store));
}

#[test]
fn get_after_sync_is_current() {
    let (mut writer, mut store) = Mirror::new(5i64);
    let mut reader = writer;
    writer.publish(&mut store, -7);
    assert!(!reader.check_sync_status(&store));
    assert_eq!(reader.sync(&store), Ok(()));
    assert!(reader.check_sync_status(&store));
    assert_eq!(*reader.get(), -7);
}

#[test]
fn get_without_sync_may_be_stale() {
    let (mut writer, mut store) = Mirror::new(1u8);
    let reader = writer;
    writer.publish(&mut store, 2);
    assert_eq!(*reader.get(), 1);
}

#[test]
fn noblock_sync_on_a_busy_store_reports_locked() {
    let (mut writer, mut store) = Mirror::new(10u64);
    let mut reader = writer;
    writer.publish(&mut store, 20);
    store.busy = true;
    assert_eq!(reader.sync_noblock(&store), Err(SyncError::Locked));
    // The local cache was left untouched: no torn read.
    assert_eq!(*reader.get(), 10);
    store.busy = false;
    assert_eq!(reader.sync_noblock(&store), Ok(()));
    assert_eq!(*reader.get(), 20);
}

#[test]
fn noblock_sync_of_a_fresh_handle_succeeds_even_when_busy() {
    let (mut writer, mut store) = Mirror::new(4u64);
    writer.publish(&mut store, 5);
    store.busy = true;
    // The publishing side is already up to date, so no read is needed.
    assert_eq!(writer.sync_noblock(&store), Ok(()));
    assert_eq!(*writer.get(), 5);
}

#[test]
fn timed_sync_on_a_busy_store_reports_how_long_it_waited() {
    let (mut writer, mut store) = Mirror::new(0u64);
    let mut reader = writer;
    writer.publish(&mut store, 1);
    store.busy = true;
    let timeout_ns = 2_000_000u64;
    match reader.sync_timeout(&store, timeout_ns) {
        Err(SyncError::TimeoutExceeded { exceed_time_ns }) => {
            assert!(exceed_time_ns > timeout_ns as u128);
        },
        other => panic!("expected a timeout, got {:?}", other),
    }
    assert_eq!(*reader.get(), 0);
}

#[test]
fn timed_sync_on_a_free_store_succeeds() {
    let (mut writer, mut store) = Mirror::new(0u16);
    let mut reader = writer;
    writer.publish(&mut store, 11);
    assert_eq!(reader.sync_timeout(&store, 1_000_000), Ok(()));
    assert_eq!(*reader.get(), 11);
}

#[test]
fn versions_rise_with_each_publish() {
    let (mut writer, mut store) = Mirror::new(0u64);
    assert_eq!(store.latest, 0);
    writer.publish(&mut store, 1);
    writer.publish(&mut store, 2);
    assert_eq!(store.latest, 2);
    assert!(!store.busy);
    assert_eq!(store.value, 2);
}
