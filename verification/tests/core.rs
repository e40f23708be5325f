use modbus_master::connection::{ConnectionKind, ModbusConnection};
use modbus_master::dispatch::{
    coil_write_value, publish_connection, register_write_value, request_params, request_range,
    resolve_channel, resolve_connection, surface_bits, surface_registers,
    surface_write_confirmation, surface_written_bit, surface_written_register,
    write_multiple_coils_request, write_multiple_registers_request, IndexedValue,
    REQUEST_TIMEOUT_MS,
};
use modbus_master::errors::ModbusError;
use modbus_master::registry::ModbusConnectionManager;
use modbus_master::retry::{run_retry_schedule, ConnectRetry, RetryVerdict, RETRY_BACKOFF_MS};
use modbus_master::settings::{
    data_bits_from_u8, parity_from_name, rtu_settings, stop_bits_from_u8, tcp_settings, DataBits,
    ModbusConnectionSettings, Parity, StopBits,
};

#[test]
fn registry_tracks_latest_add() {
    let mut manager = ModbusConnectionManager::new();
    assert!(manager.get_connection(7).is_none());

    manager.add_connection(7, ModbusConnection::new_rtu());
    assert_eq!(manager.get_connection(7).unwrap().kind, ConnectionKind::Rtu);

    manager.add_connection(9, ModbusConnection::new_tcp());
    assert_eq!(manager.get_connection(7).unwrap().kind, ConnectionKind::Rtu);
    assert_eq!(manager.get_connection(9).unwrap().kind, ConnectionKind::Tcp);

    manager.remove_connection(7);
    assert!(manager.get_connection(7).is_none());
    assert_eq!(manager.get_connection(9).unwrap().kind, ConnectionKind::Tcp);
}

#[test]
fn replacement_updates_lookup() {
    let mut manager = ModbusConnectionManager::new();
    manager.add_connection(1, ModbusConnection::new_rtu());
    let observed_before = manager.get_connection(1).unwrap().kind;

    manager.add_connection(1, ModbusConnection::new_tcp());
    assert_eq!(manager.get_connection(1).unwrap().kind, ConnectionKind::Tcp);
    // What a caller observed from the displaced entry is untouched by the
    // replacement.
    assert_eq!(observed_before, ConnectionKind::Rtu);
}

#[test]
fn remove_of_absent_identifier_is_a_noop() {
    let mut manager = ModbusConnectionManager::new();
    manager.remove_connection(42);
    assert!(manager.get_connection(42).is_none());
    manager.add_connection(42, ModbusConnection::new_tcp());
    manager.remove_connection(5);
    assert!(manager.get_connection(42).is_some());
}

#[test]
fn retry_exhausts_all_probes() {
    let outcomes = vec![false, false, false];
    let (probes, backoffs, registered) = run_retry_schedule(3, &outcomes);
    assert_eq!(probes, 3);
    assert_eq!(backoffs, 2);
    assert!(!registered);
}

#[test]
fn retry_zero_registers_immediately() {
    let outcomes: Vec<bool> = vec![];
    let (probes, backoffs, registered) = run_retry_schedule(0, &outcomes);
    assert_eq!(probes, 0);
    assert_eq!(backoffs, 0);
    assert!(registered);
}

#[test]
fn retry_stops_at_first_success() {
    let outcomes = vec![false, true, false, false, false];
    let (probes, backoffs, registered) = run_retry_schedule(5, &outcomes);
    assert_eq!(probes, 2);
    assert_eq!(backoffs, 1);
    assert!(registered);
}

#[test]
fn retry_machine_verdicts() {
    let mut run = ConnectRetry::new(2);
    assert!(run.probe_needed());
    assert_eq!(run.record_probe(false), RetryVerdict::Backoff);
    assert!(run.probe_needed());
    assert_eq!(run.record_probe(false), RetryVerdict::GiveUp);
    assert!(!run.probe_needed());

    let mut run = ConnectRetry::new(1);
    assert_eq!(run.record_probe(true), RetryVerdict::Accept);

    assert_eq!(RETRY_BACKOFF_MS, 1000);
}

#[test]
fn mismatched_settings_rejected() {
    let rtu = ModbusConnection::new_rtu();
    let tcp = ModbusConnection::new_tcp();
    let tcp_s = tcp_settings("127.0.0.1".to_string(), 502);
    let rtu_s = rtu_settings("/dev/ttyUSB0".to_string(), 9600, 8, "none", 1).unwrap();

    assert!(matches!(
        rtu.check_settings(&tcp_s),
        Err(ModbusError::MismatchedConnectionSettings)
    ));
    assert!(matches!(
        tcp.check_settings(&rtu_s),
        Err(ModbusError::MismatchedConnectionSettings)
    ));
    assert!(rtu.check_settings(&rtu_s).is_ok());
    assert!(tcp.check_settings(&tcp_s).is_ok());
}

#[test]
fn lookup_miss_fails_without_side_effects() {
    let manager = ModbusConnectionManager::new();
    assert!(matches!(
        resolve_connection(&manager, 3),
        Err(ModbusError::ConnectionNotFound)
    ));
    assert!(matches!(
        resolve_channel(&manager, 3),
        Err(ModbusError::ConnectionNotFound)
    ));
    // The registry is unchanged by the failed lookups.
    assert!(manager.get_connection(3).is_none());
}

#[test]
fn unestablished_connection_fails_fast() {
    let mut manager = ModbusConnectionManager::new();
    manager.add_connection(4, ModbusConnection::new_tcp());
    assert!(resolve_connection(&manager, 4).is_ok());
    assert!(matches!(
        resolve_channel(&manager, 4),
        Err(ModbusError::NotEstablished)
    ));
}

#[test]
fn established_connection_resolves_its_channel() {
    let runtime = tokio::runtime::Builder::new_current_thread()
        .enable_all()
        .build()
        .unwrap();
    let guard = runtime.enter();
    let channel = rodbus::client::spawn_tcp_client_task(
        rodbus::client::HostAddr::dns("localhost".to_string(), 502),
        1,
        rodbus::default_retry_strategy(),
        rodbus::DecodeLevel::default(),
        None,
    );
    drop(guard);

    let mut connection = ModbusConnection::new_tcp();
    assert!(!connection.is_established());
    connection.attach_channel(channel);
    assert!(connection.is_established());
    assert!(connection.channel().is_some());

    let mut manager = ModbusConnectionManager::new();
    manager.add_connection(11, connection);
    assert!(resolve_channel(&manager, 11).is_ok());
}

#[test]
fn failed_connect_leaves_no_trace() {
    let mut manager = ModbusConnectionManager::new();
    let outcome = publish_connection(
        &mut manager,
        5,
        ModbusConnection::new_tcp(),
        Err("response timeout".to_string()),
    );
    assert!(matches!(outcome, Err(ModbusError::RequestFailed(_))));
    assert!(manager.get_connection(5).is_none());

    let outcome = publish_connection(&mut manager, 5, ModbusConnection::new_tcp(), Ok(()));
    assert!(outcome.is_ok());
    assert_eq!(manager.get_connection(5).unwrap().kind, ConnectionKind::Tcp);
}

#[test]
fn coil_value_round_trip() {
    // The point a single-coil write of (address 5, on) sends.
    let written = coil_write_value(5, true);
    assert_eq!(written.index, 5);
    assert!(written.value);

    // Per Modbus the device echoes the written point; surfaced, the state is 1.
    let echoed = surface_written_bit(Ok(written)).unwrap();
    assert_eq!(echoed, IndexedValue { address: 5, value: 1 });

    // Reading the point back surfaces the same address and numeric state.
    let read_back = surface_bits(Ok(vec![rodbus::Indexed { index: 5, value: true }])).unwrap();
    assert_eq!(read_back, vec![IndexedValue { address: 5, value: 1 }]);

    let off = surface_bits(Ok(vec![rodbus::Indexed { index: 5, value: false }])).unwrap();
    assert_eq!(off, vec![IndexedValue { address: 5, value: 0 }]);
}

#[test]
fn register_value_mapping() {
    let written = register_write_value(200, 1234);
    assert_eq!(written.index, 200);
    assert_eq!(written.value, 1234);

    let echoed = surface_written_register(Ok(written)).unwrap();
    assert_eq!(echoed, IndexedValue { address: 200, value: 1234 });

    let surfaced = surface_registers(Ok(vec![
        rodbus::Indexed { index: 200, value: 1234 },
        rodbus::Indexed { index: 201, value: 0 },
    ]))
    .unwrap();
    assert_eq!(
        surfaced,
        vec![
            IndexedValue { address: 200, value: 1234 },
            IndexedValue { address: 201, value: 0 },
        ]
    );

    assert_eq!(
        IndexedValue::from(rodbus::Indexed { index: 9, value: true }),
        IndexedValue { address: 9, value: 1 }
    );
    assert_eq!(
        IndexedValue::from(rodbus::Indexed { index: 9, value: 77u16 }),
        IndexedValue { address: 9, value: 77 }
    );
}

#[test]
fn surfaced_failures_are_request_errors() {
    let failed: Result<Vec<rodbus::Indexed<bool>>, String> = Err("response timeout".to_string());
    match surface_bits(failed) {
        Err(ModbusError::RequestFailed(m)) => assert_eq!(m, "response timeout"),
        other => panic!("unexpected outcome: {:?}", other),
    }
    let failed: Result<rodbus::Indexed<u16>, String> = Err("exception".to_string());
    assert!(matches!(
        surface_written_register(failed),
        Err(ModbusError::RequestFailed(_))
    ));
}

#[test]
fn multi_write_empty_sequence_rejected() {
    assert!(matches!(
        write_multiple_coils_request(100, vec![]),
        Err(ModbusError::InvalidRequest)
    ));
    assert!(matches!(
        write_multiple_registers_request(0, vec![]),
        Err(ModbusError::InvalidRequest)
    ));
}

#[test]
fn multi_write_covers_requested_range() {
    let request = write_multiple_coils_request(100, vec![true; 10]);
    assert!(request.is_ok());
    let range = request_range(100, 10);
    assert_eq!(range.start, 100);
    assert_eq!(range.count, 10);

    let confirmed =
        surface_write_confirmation(Ok(rodbus::AddressRange { start: 100, count: 10 })).unwrap();
    assert_eq!(confirmed.start, 100);
    assert_eq!(confirmed.count, 10);

    assert!(write_multiple_registers_request(0, vec![7u16; 123]).is_ok());
}

#[test]
fn multi_write_past_address_space_rejected() {
    assert!(matches!(
        write_multiple_coils_request(65530, vec![true; 10]),
        Err(ModbusError::InvalidRequest)
    ));
    // The very last address is still writable.
    assert!(write_multiple_coils_request(65535, vec![true]).is_ok());
    assert!(matches!(
        write_multiple_registers_request(1, vec![0u16; 65536]),
        Err(ModbusError::InvalidRequest)
    ));
}

#[test]
fn data_bits_parsing() {
    assert!(matches!(data_bits_from_u8(5), Ok(DataBits::Five)));
    assert!(matches!(data_bits_from_u8(6), Ok(DataBits::Six)));
    assert!(matches!(data_bits_from_u8(7), Ok(DataBits::Seven)));
    assert!(matches!(data_bits_from_u8(8), Ok(DataBits::Eight)));
    assert!(matches!(data_bits_from_u8(4), Err(ModbusError::InvalidDataBits)));
    assert!(matches!(data_bits_from_u8(9), Err(ModbusError::InvalidDataBits)));
}

#[test]
fn parity_parsing() {
    assert!(matches!(parity_from_name("none"), Ok(Parity::NoParity)));
    assert!(matches!(parity_from_name("even"), Ok(Parity::Even)));
    assert!(matches!(parity_from_name("odd"), Ok(Parity::Odd)));
    assert!(matches!(parity_from_name("mark"), Err(ModbusError::InvalidParity)));
    assert!(matches!(parity_from_name("None"), Err(ModbusError::InvalidParity)));
}

#[test]
fn stop_bits_parsing() {
    assert!(matches!(stop_bits_from_u8(1), Ok(StopBits::One)));
    assert!(matches!(stop_bits_from_u8(2), Ok(StopBits::Two)));
    assert!(matches!(stop_bits_from_u8(0), Err(ModbusError::InvalidStopBits)));
    assert!(matches!(stop_bits_from_u8(3), Err(ModbusError::InvalidStopBits)));
}

#[test]
fn rtu_settings_validation_and_order() {
    match rtu_settings("/dev/ttyUSB0".to_string(), 19200, 7, "even", 2).unwrap() {
        ModbusConnectionSettings::RTU { path, baud_rate, data_bits, parity, stop_bits } => {
            assert_eq!(path, "/dev/ttyUSB0");
            assert_eq!(baud_rate, 19200);
            assert_eq!(data_bits, DataBits::Seven);
            assert_eq!(parity, Parity::Even);
            assert_eq!(stop_bits, StopBits::Two);
        }
        ModbusConnectionSettings::TCP { .. } => panic!("expected RTU settings"),
    }

    // The first invalid value decides the error: data bits, then parity, then
    // stop bits.
    assert!(matches!(
        rtu_settings("p".to_string(), 9600, 4, "bogus", 9),
        Err(ModbusError::InvalidDataBits)
    ));
    assert!(matches!(
        rtu_settings("p".to_string(), 9600, 8, "bogus", 9),
        Err(ModbusError::InvalidParity)
    ));
    assert!(matches!(
        rtu_settings("p".to_string(), 9600, 8, "odd", 9),
        Err(ModbusError::InvalidStopBits)
    ));
}

#[test]
fn tcp_settings_carries_host_and_port() {
    match tcp_settings("192.168.1.50".to_string(), 1502) {
        ModbusConnectionSettings::TCP { host, port } => {
            assert_eq!(host, "192.168.1.50");
            assert_eq!(port, 1502);
        }
        ModbusConnectionSettings::RTU { .. } => panic!("expected TCP settings"),
    }
}

#[test]
fn request_parameters_use_fixed_timeout() {
    let params = request_params(17);
    assert_eq!(params.slave_id, 17);
    assert_eq!(params.timeout_ms, 1000);
    assert_eq!(REQUEST_TIMEOUT_MS, 1000);
}

#[test]
fn error_messages_flatten_the_taxonomy() {
    assert_eq!(ModbusError::ConnectionNotFound.message(), "Connection not found");
    assert_eq!(
        ModbusError::MismatchedConnectionSettings.message(),
        "Mismatched connection type"
    );
    assert_eq!(ModbusError::InvalidDataBits.message(), "Invalid data bits");
    assert_eq!(ModbusError::InvalidParity.message(), "Invalid parity");
    assert_eq!(ModbusError::InvalidStopBits.message(), "Invalid stop bits");
    assert_eq!(ModbusError::InvalidRequest.message(), "Invalid request");
    assert_eq!(ModbusError::NotEstablished.message(), "Connection not established");
    assert_eq!(
        ModbusError::RequestFailed("response timeout".to_string()).message(),
        "response timeout"
    );
    assert_eq!(
        ModbusError::ConnectionFailed("task shutdown".to_string()).message(),
        "task shutdown"
    );
    assert_eq!(
        ModbusError::InvalidHost("invalid IP address syntax".to_string()).message(),
        "invalid IP address syntax"
    );
}
