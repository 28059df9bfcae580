use opensensor::cli::Cli;
use opensensor::keys::{archive_key, copy_source_path, group_id, topic_name};

#[test]
fn cli_keeps_its_values() {
    let cli = Cli::new(
        "user",
        "user123456",
        "http://localhost:9000",
        "opensensor-region",
        "opensensor-archive",
        "radar-2d",
        10000,
        "127.0.0.1:9010,127.0.0.1:9011,127.0.0.1:9012",
    );
    assert_eq!(cli.access_key(), "user");
    assert_eq!(cli.secret_key(), "user123456");
    assert_eq!(cli.endpoint(), "http://localhost:9000");
    assert_eq!(cli.region(), "opensensor-region");
    assert_eq!(cli.bucket_name(), "opensensor-archive");
    assert_eq!(cli.sensor_name(), "radar-2d");
    assert_eq!(cli.chunk_size(), 10000);
    assert_eq!(cli.kafka_addresses(), "127.0.0.1:9010,127.0.0.1:9011,127.0.0.1:9012");
}

#[test]
fn derived_names() {
    assert_eq!(topic_name("radar-2d"), "radar-2d-measurements");
    assert_eq!(group_id("radar-2d"), "radar-2d-archiver");
    assert_eq!(archive_key("radar-2d", "2024-01-02T03:04:05.678+00:00"),
        "radar-2d/2024-01-02T03:04:05.678+00:00");
    assert_eq!(copy_source_path("opensensor-archive", "radar-2d/x"),
        "opensensor-archive/radar-2d/x");
}

#[test]
fn upload_keys_carry_a_timestamp() {
    // The key of an emitted upload is the source name, a slash, and a
    // non-empty wall-clock timestamp.
    let mut m = opensensor::machine::Archiver::new(String::from("radar-2d"), 1);
    let rec = opensensor::record::Record {
        partition: 0,
        offset: 1,
        timestamp_ns: 0,
        payload: Some(vec![1]),
    };
    match m.step(opensensor::machine::Event::Record(rec)) {
        opensensor::machine::Action::Upload { key, .. } => {
            assert!(key.starts_with("radar-2d/"));
            assert!(key.len() > "radar-2d/".len());
        }
        _ => panic!("expected an upload action"),
    }
}
