use gauge_offset::fwlib::{
    FocasClient, FocasError, OffsetStep, ReadStep, WriteStep, ODBTOFS, RECONNECT_DELAY_MS,
    RECONNECT_TIMEOUT, TOFS_LENGTH,
};

fn held(number: i16, data: i32) -> OffsetStep {
    OffsetStep::Value { tofs: ODBTOFS { datano: number, ofs_type: 0, data } }
}

fn native(handle: u64) -> FocasClient {
    FocasClient::new("192.168.0.10", 8193, 0, handle).unwrap()
}

#[test]
fn dummy_address_gives_a_simulated_controller() {
    assert!(FocasClient::is_dummy_address("dummy"));
    assert!(!FocasClient::is_dummy_address("Dummy"));
    assert!(!FocasClient::is_dummy_address("dummy "));
    assert!(!FocasClient::is_dummy_address(""));
    let mut client = FocasClient::new("dummy", 8193, -16, 0).unwrap();
    assert!(client.is_connected());
    assert!(!client.is_busy());
    assert_eq!(client.ip(), "dummy");
    assert_eq!(client.port(), 8193);
    assert_eq!(client.release_on_drop(), None);
    assert_eq!(client.rdtofs(11, 0), held(11, 0));
    assert_eq!(client.read_life(11), ReadStep::Value { data: 100 });
    assert_eq!(client.read_count(11), ReadStep::Value { data: 0 });
    assert_eq!(client.begin_query(), ReadStep::Value { data: 0 });
    assert!(!client.is_busy());
}

#[test]
fn native_connect_failure_gives_no_session() {
    assert_eq!(
        FocasClient::new("192.168.0.10", 8193, -16, 7).err(),
        Some(FocasError::ConnectFailed { code: -16 })
    );
    let client = native(7);
    assert!(client.is_connected());
    assert_eq!(client.ip(), "192.168.0.10");
    assert_eq!(client.release_on_drop(), Some(7));
    let client = native(0);
    assert!(!client.is_connected());
    assert_eq!(client.release_on_drop(), None);
}

#[test]
fn simulated_write_is_stored_at_once() {
    let mut client = FocasClient::new("dummy", 8193, 0, 0).unwrap();
    assert_eq!(client.wrtofs(11, 0, 120), WriteStep::Done);
    assert!(!client.is_busy());
    assert_eq!(client.rdtofs(11, 0), held(11, 120));
    assert_eq!(client.rdtofs(12, 0), held(12, 0));
    assert_eq!(client.wrtofs(11, 0, -5), WriteStep::Done);
    assert_eq!(client.rdtofs(11, 0), held(11, -5));
}

#[test]
fn busy_refuses_reads_and_writes_and_stays_busy() {
    for mut client in [FocasClient::new("dummy", 8193, 0, 0).unwrap(), native(7)] {
        client.set_busy(true);
        assert_eq!(client.wrtofs(11, 0, 1), WriteStep::Refused);
        assert!(client.is_busy());
        assert_eq!(client.rdtofs(11, 0), OffsetStep::Refused);
        assert!(client.is_busy());
        assert_eq!(client.read_life(11), ReadStep::Refused);
        assert_eq!(client.read_count(11), ReadStep::Refused);
        assert_eq!(client.begin_query(), ReadStep::Refused);
        assert!(client.is_busy());
        assert!(client.is_connected());
        client.set_busy(false);
        assert_ne!(client.rdtofs(11, 0), OffsetStep::Refused);
    }
}

#[test]
fn busy_write_leaves_the_simulated_offsets_alone() {
    let mut client = FocasClient::new("dummy", 8193, 0, 0).unwrap();
    client.wrtofs(11, 0, 5);
    client.set_busy(true);
    assert_eq!(client.wrtofs(11, 0, 9), WriteStep::Refused);
    client.set_busy(false);
    assert_eq!(client.rdtofs(11, 0), held(11, 5));
}

#[test]
fn native_write_is_single_flight() {
    let mut client = native(7);
    assert_eq!(
        client.wrtofs(11, 0, 120),
        WriteStep::CallWrite { handle: 7, number: 11, ofs_type: 0, data: 120 }
    );
    assert!(client.is_busy());
    assert_eq!(client.wrtofs(12, 0, 1), WriteStep::Refused);
    assert_eq!(client.rdtofs(11, 0), OffsetStep::Refused);
    assert_eq!(client.write_returned(0), WriteStep::Done);
    assert!(!client.is_busy());
    assert!(client.is_connected());
    assert_eq!(
        client.wrtofs(12, 1, -1),
        WriteStep::CallWrite { handle: 7, number: 12, ofs_type: 1, data: -1 }
    );
}

#[test]
fn failed_write_disconnects_until_reconnected() {
    let mut client = native(7);
    client.wrtofs(11, 0, 120);
    assert_eq!(client.write_returned(-8), WriteStep::Reconnect { release: 7 });
    assert!(!client.is_connected());
    assert!(!client.is_busy());
    assert_eq!(client.release_on_drop(), None);
    assert_eq!(client.wrtofs(11, 0, 120), WriteStep::Refused);
    assert_eq!(client.wrtofs(12, 0, 1), WriteStep::Refused);
    assert_eq!(client.rdtofs(11, 0), OffsetStep::Refused);
    assert_eq!(client.read_life(11), ReadStep::Refused);
    assert_eq!(client.reconnect_returned(-16, 0, 11, 0, 120), WriteStep::RetryConnect);
    assert!(!client.is_connected());
    assert_eq!(client.wrtofs(11, 0, 120), WriteStep::Refused);
    assert_eq!(client.reconnect_returned(-16, 55, 11, 0, 120), WriteStep::RetryConnect);
    assert!(!client.is_connected());
    assert_eq!(client.reconnect_returned(0, 0, 11, 0, 120), WriteStep::RetryConnect);
    assert!(!client.is_connected());
    assert!(!client.is_busy());
    assert_eq!(
        client.reconnect_returned(0, 99, 11, 0, 120),
        WriteStep::CallWrite { handle: 99, number: 11, ofs_type: 0, data: 120 }
    );
    assert!(client.is_connected());
    assert!(client.is_busy());
    assert_eq!(client.write_returned(0), WriteStep::Done);
    assert!(client.is_connected());
    assert!(!client.is_busy());
    assert_eq!(client.release_on_drop(), Some(99));
}

#[test]
fn a_write_can_fail_again_after_a_reconnect() {
    let mut client = native(7);
    client.wrtofs(11, 0, 120);
    client.write_returned(-8);
    client.reconnect_returned(0, 8, 11, 0, 120);
    assert_eq!(client.write_returned(-8), WriteStep::Reconnect { release: 8 });
    assert!(!client.is_connected());
}

#[test]
fn native_read_makes_busy_and_never_reconnects() {
    let mut client = native(7);
    assert_eq!(client.rdtofs(11, 0), OffsetStep::CallRead { handle: 7, number: 11, ofs_type: 0 });
    assert!(client.is_busy());
    assert_eq!(client.rdtofs(11, 0), OffsetStep::Refused);
    assert_eq!(
        client.offset_returned(11, 0, -8, 0),
        Err(FocasError::ReadFailed { code: -8 })
    );
    assert!(!client.is_busy());
    assert!(client.is_connected());
    assert_eq!(client.rdtofs(11, 0), OffsetStep::CallRead { handle: 7, number: 11, ofs_type: 0 });
    assert_eq!(
        client.offset_returned(11, 0, 0, 1234),
        Ok(ODBTOFS { datano: 11, ofs_type: 0, data: 1234 })
    );
    assert!(!client.is_busy());
}

#[test]
fn native_life_and_count_reads() {
    let mut client = native(7);
    assert_eq!(client.read_life(3), ReadStep::CallRead { handle: 7, number: 3 });
    assert!(client.is_busy());
    assert_eq!(client.read_count(3), ReadStep::Refused);
    assert_eq!(client.life_returned(0, 88), Ok(88));
    assert!(!client.is_busy());
    assert_eq!(client.read_count(4), ReadStep::CallRead { handle: 7, number: 4 });
    assert_eq!(client.count_returned(-2, 5), Err(FocasError::CountFailed { code: -2 }));
    assert!(!client.is_busy());
    client.read_life(3);
    assert_eq!(client.life_returned(-3, 5), Err(FocasError::LifeFailed { code: -3 }));
    client.read_count(3);
    assert_eq!(client.count_returned(0, 17), Ok(17));
}

#[test]
fn native_query_is_single_flight() {
    let mut client = native(7);
    assert_eq!(client.begin_query(), ReadStep::CallRead { handle: 7, number: 0 });
    assert!(client.is_busy());
    assert_eq!(client.begin_query(), ReadStep::Refused);
    assert_eq!(client.wrtofs(11, 0, 1), WriteStep::Refused);
    client.query_returned();
    assert!(!client.is_busy());
    assert!(client.is_connected());
    assert_eq!(client.begin_query(), ReadStep::CallRead { handle: 7, number: 0 });
}

#[test]
fn simulated_read_hands_out_the_whole_record() {
    let mut client = FocasClient::new("dummy", 8193, 10, 0).unwrap();
    assert_eq!(
        client.rdtofs(11, 0),
        OffsetStep::Value { tofs: ODBTOFS { datano: 11, ofs_type: 0, data: 0 } }
    );
    assert!(!client.is_busy());
    client.wrtofs(-3, 2, 77);
    assert_eq!(
        client.rdtofs(-3, 2),
        OffsetStep::Value { tofs: ODBTOFS { datano: -3, ofs_type: 2, data: 77 } }
    );
}

#[test]
fn unreachable_native_session_refuses_everything() {
    let mut client = native(0);
    assert_eq!(client.wrtofs(11, 0, 1), WriteStep::Refused);
    assert_eq!(client.rdtofs(11, 0), OffsetStep::Refused);
    assert_eq!(client.read_life(11), ReadStep::Refused);
    assert_eq!(client.read_count(11), ReadStep::Refused);
    assert_eq!(client.begin_query(), ReadStep::Refused);
    assert!(!client.is_busy());
}

#[test]
fn reconnect_policy_constants() {
    assert_eq!(RECONNECT_DELAY_MS, 5000);
    assert_eq!(RECONNECT_TIMEOUT, 1);
    assert_eq!(TOFS_LENGTH, 8);
}
