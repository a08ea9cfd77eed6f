use group_metrics::kinds::ActorKind;
use group_metrics::metrics::{IndividualMetrics, IndividualMetricsSummary};
use group_metrics::params::{
    add_actor_arguments, add_basic_arguments, add_benchmark_kind_arguments,
    add_environment_variables, add_infrastructure_arguments, add_output_arguments, balanced,
    name_of_kind, name_of_transport, params_from_args_and_metrics, recreate_bench_command,
    text_of_parameter, word_of_kind, BenchArguments, BenchDefaults, BenchmarkKind,
    BenchmarkNumericParameter, BenchmarkTransport, ByteSize,
};
use group_metrics::text::{copy_of, host, join, replace_spaces, same_text, starts_with};

fn defaults() -> BenchDefaults {
    BenchDefaults {
        messages_per_batch: 1000,
        message_batches: 1000,
        total_messages_size: 8_000_000,
        message_size: 1000,
        warmup_time: "20 s".to_string(),
        producers: 8,
        consumers: 8,
        consumer_groups: 1,
        balanced_streams: 1,
        pinned_streams: 8,
        balanced_partitions: 24,
        pinned_partitions: 1,
        tcp_server_address: "127.0.0.1:8090".to_string(),
        quic_server_address: "127.0.0.1:8080".to_string(),
        http_server_address: "127.0.0.1:3000".to_string(),
    }
}

fn plain(kind: BenchmarkKind) -> BenchArguments {
    let shared = balanced(kind);
    BenchArguments {
        benchmark_kind: kind,
        transport: BenchmarkTransport::Tcp,
        server_address: "127.0.0.1:8090".to_string(),
        remark: None,
        extra_info: None,
        gitref: None,
        gitref_date: None,
        messages_per_batch: BenchmarkNumericParameter::Value(1000),
        message_size: BenchmarkNumericParameter::Value(1000),
        message_batches: None,
        total_data: None,
        rate_limit: None,
        warmup_time: "20 s".to_string(),
        max_topic_size: None,
        producers: 8,
        consumers: 8,
        streams: if shared { 1 } else { 8 },
        partitions: if shared { 24 } else { 1 },
        consumer_groups: 1,
        pretty_name: "Pinned Producer".to_string(),
        data_volume_identifier: "1000".to_string(),
    }
}

fn variables(pairs: &[(&str, &str)]) -> Vec<(String, String)> {
    pairs
        .iter()
        .map(|(name, value)| (name.to_string(), value.to_string()))
        .collect()
}

fn record(batches: u64) -> IndividualMetrics {
    IndividualMetrics {
        summary: IndividualMetricsSummary {
            actor_kind: ActorKind::Producer,
            data_throughput: 0,
            message_throughput: 0,
            p50_latency: 0,
            p90_latency: 0,
            p95_latency: 0,
            p99_latency: 0,
            p999_latency: 0,
            p9999_latency: 0,
            mean_latency: 0,
            median_latency: 0,
            min_latency: 0,
            max_latency: 0,
            message_batches: batches,
        },
        data_throughput_series: vec![],
        message_throughput_series: vec![],
        latency_series: vec![],
    }
}

#[test]
fn texts_are_joined_with_a_separator() {
    let parts = vec!["a".to_string(), "bc".to_string(), "".to_string(), "d".to_string()];
    assert_eq!(join(&parts, " "), "a bc  d");
    assert_eq!(join(&parts, "_"), "a_bc__d");
    assert_eq!(join(&parts, ""), "abcd");
    assert_eq!(join(&vec!["only".to_string()], ", "), "only");
    assert_eq!(join(&vec![], ", "), "");
}

#[test]
fn host_is_what_stands_before_the_first_colon() {
    assert_eq!(host("localhost:8090"), "localhost");
    assert_eq!(host("127.0.0.1:3000"), "127.0.0.1");
    assert_eq!(host("example.org"), "example.org");
    assert_eq!(host("a:b:c"), "a");
    assert_eq!(host(":8090"), "");
    assert_eq!(host(""), "");
    assert_eq!(host("h\u{f6}st:1"), "h\u{f6}st");
}

#[test]
fn prefixes_and_equal_texts() {
    assert!(starts_with("IGGY_TCP_ENABLED", "IGGY_"));
    assert!(starts_with("IGGY_", "IGGY_"));
    assert!(starts_with("anything", ""));
    assert!(!starts_with("IGGY", "IGGY_"));
    assert!(!starts_with("iggy_tcp", "IGGY_"));
    assert!(!starts_with("XIGGY_", "IGGY_"));
    assert!(same_text("20 s", "20 s"));
    assert!(!same_text("20 s", "20s"));
    assert!(same_text("", ""));
}

#[test]
fn spaces_become_underscores() {
    assert_eq!(replace_spaces("a remark  with spaces "), "a_remark__with_spaces_");
    assert_eq!(replace_spaces("no_remark"), "no_remark");
    assert_eq!(replace_spaces(""), "");
    assert_eq!(replace_spaces("gr\u{fc}n und blau"), "gr\u{fc}n_und_blau");
}

#[test]
fn optional_lines_are_copied() {
    assert_eq!(copy_of(&Some("x y".to_string())), Some("x y".to_string()));
    assert_eq!(copy_of(&None), None);
}

#[test]
fn names_of_kinds_and_transports() {
    assert_eq!(name_of_kind(BenchmarkKind::PinnedProducer), "pinned-producer");
    assert_eq!(name_of_kind(BenchmarkKind::PinnedConsumer), "pinned-consumer");
    assert_eq!(
        name_of_kind(BenchmarkKind::PinnedProducerAndConsumer),
        "pinned-producer-and-consumer"
    );
    assert_eq!(name_of_kind(BenchmarkKind::BalancedProducer), "balanced-producer");
    assert_eq!(
        name_of_kind(BenchmarkKind::BalancedConsumerGroup),
        "balanced-consumer-group"
    );
    assert_eq!(
        name_of_kind(BenchmarkKind::BalancedProducerAndConsumerGroup),
        "balanced-producer-and-consumer-group"
    );
    assert_eq!(
        name_of_kind(BenchmarkKind::EndToEndProducingConsumer),
        "end-to-end-producing-consumer"
    );
    assert_eq!(
        name_of_kind(BenchmarkKind::EndToEndProducingConsumerGroup),
        "end-to-end-producing-consumer-group"
    );
    assert_eq!(
        word_of_kind(BenchmarkKind::EndToEndProducingConsumerGroup),
        "end_to_end_producing_consumer_group"
    );
    assert_eq!(name_of_transport(BenchmarkTransport::Tcp), "tcp");
    assert_eq!(name_of_transport(BenchmarkTransport::Quic), "quic");
    assert_eq!(name_of_transport(BenchmarkTransport::Http), "http");
    assert!(balanced(BenchmarkKind::BalancedProducer));
    assert!(balanced(BenchmarkKind::BalancedConsumerGroup));
    assert!(balanced(BenchmarkKind::BalancedProducerAndConsumerGroup));
    assert!(!balanced(BenchmarkKind::PinnedProducer));
    assert!(!balanced(BenchmarkKind::EndToEndProducingConsumerGroup));
}

#[test]
fn numbers_and_ranges_as_texts() {
    assert_eq!(text_of_parameter(&BenchmarkNumericParameter::Value(0)), "0");
    assert_eq!(text_of_parameter(&BenchmarkNumericParameter::Value(1000)), "1000");
    assert_eq!(
        text_of_parameter(&BenchmarkNumericParameter::Range { min: 10, max: 200 }),
        "10..200"
    );
}

#[test]
fn command_of_default_arguments() {
    let command = recreate_bench_command(
        &plain(BenchmarkKind::PinnedProducer),
        &defaults(),
        &variables(&[]),
    );
    assert_eq!(command, "iggy-bench pinned-producer tcp output -o performance_results");
    let command = recreate_bench_command(
        &plain(BenchmarkKind::BalancedProducerAndConsumerGroup),
        &defaults(),
        &variables(&[]),
    );
    assert_eq!(
        command,
        "iggy-bench balanced-producer-and-consumer-group tcp output -o performance_results"
    );
}

#[test]
fn command_with_every_argument() {
    let mut args = plain(BenchmarkKind::EndToEndProducingConsumerGroup);
    args.transport = BenchmarkTransport::Quic;
    args.server_address = "10.0.0.7:8080".to_string();
    args.remark = Some("first run".to_string());
    args.messages_per_batch = BenchmarkNumericParameter::Range { min: 10, max: 100 };
    args.message_size = BenchmarkNumericParameter::Value(512);
    args.message_batches = Some(50);
    args.total_data = Some(ByteSize { bytes: 1_000_000, text: "1.00 MB".to_string() });
    args.rate_limit = Some("5.00 MB".to_string());
    args.warmup_time = "5 s".to_string();
    args.max_topic_size = Some("2.00 GB".to_string());
    args.producers = 2;
    args.consumers = 3;
    args.streams = 4;
    args.partitions = 5;
    args.consumer_groups = 6;
    let command = recreate_bench_command(&args, &defaults(), &variables(&[("IGGY_X", "1")]));
    assert_eq!(
        command,
        "iggy-bench --messages-per-batch 10..100 --message-batches 50 \
         --total-messages-size 1.00 MB --message-size 512 --rate-limit '5.00 MB' \
         --warmup-time '5 s' end-to-end-producing-consumer-group --producers 2 --consumers 3 \
         --consumer-groups 6 --streams 4 --partitions 5 --max-topic-size '2.00 GB' quic \
         --server-address 10.0.0.7:8080 output -o performance_results --remark 'first run'"
    );
}

#[test]
fn variables_of_the_environment_stand_before_a_local_command() {
    let vars = variables(&[
        ("PATH", "/bin"),
        ("IGGY_TCP_ADDRESS", "0.0.0.0:8090"),
        ("iggy_lower", "x"),
        ("IGGY_", ""),
        ("HOME", "/root"),
        ("IGGY_SYSTEM_PATH", "local data"),
    ]);
    let mut args = plain(BenchmarkKind::PinnedConsumer);
    let command = recreate_bench_command(&args, &defaults(), &vars);
    assert_eq!(
        command,
        "IGGY_TCP_ADDRESS=0.0.0.0:8090 IGGY_= IGGY_SYSTEM_PATH=local data iggy-bench \
         pinned-consumer tcp output -o performance_results"
    );
    args.server_address = "localhost:8090".to_string();
    let command = recreate_bench_command(&args, &defaults(), &vars);
    assert_eq!(
        command,
        "IGGY_TCP_ADDRESS=0.0.0.0:8090 IGGY_= IGGY_SYSTEM_PATH=local data iggy-bench \
         pinned-consumer tcp --server-address localhost:8090 output -o performance_results"
    );
    args.server_address = "localhost".to_string();
    let mut parts = vec!["before".to_string()];
    add_environment_variables(&mut parts, &args.server_address, &vars);
    assert_eq!(
        parts,
        vec!["before", "IGGY_TCP_ADDRESS=0.0.0.0:8090", "IGGY_=", "IGGY_SYSTEM_PATH=local data"]
    );
}

#[test]
fn variables_of_the_environment_are_left_out_of_a_remote_command() {
    let vars = variables(&[("IGGY_TCP_ADDRESS", "0.0.0.0:8090")]);
    for address in ["10.1.2.3:8090", "localhost.example.org:8090", "127.0.0.10:1", ""] {
        let mut parts = vec![];
        add_environment_variables(&mut parts, address, &vars);
        assert_eq!(parts, Vec::<String>::new());
    }
    let mut parts = vec![];
    add_environment_variables(&mut parts, "127.0.0.1:8090", &variables(&[("OTHER", "1")]));
    assert_eq!(parts, Vec::<String>::new());
}

#[test]
fn basic_arguments_only_where_they_differ() {
    let mut parts = vec![];
    add_basic_arguments(&mut parts, &plain(BenchmarkKind::PinnedProducer), &defaults());
    assert_eq!(parts, Vec::<String>::new());
    let mut args = plain(BenchmarkKind::PinnedProducer);
    args.message_batches = Some(1000);
    args.total_data = Some(ByteSize { bytes: 8_000_000, text: "8.00 MB".to_string() });
    add_basic_arguments(&mut parts, &args, &defaults());
    assert_eq!(parts, Vec::<String>::new());
    args.message_batches = Some(999);
    args.total_data = Some(ByteSize { bytes: 8_000_001, text: "8.00 MB".to_string() });
    args.messages_per_batch = BenchmarkNumericParameter::Range { min: 1000, max: 1000 };
    add_basic_arguments(&mut parts, &args, &defaults());
    assert_eq!(
        parts,
        vec![
            "--messages-per-batch 1000..1000",
            "--message-batches 999",
            "--total-messages-size 8.00 MB"
        ]
    );
    let mut parts = vec!["kept".to_string()];
    let mut args = plain(BenchmarkKind::PinnedProducer);
    args.rate_limit = Some("1.00 KB".to_string());
    args.warmup_time = "20s".to_string();
    args.message_size = BenchmarkNumericParameter::Value(1001);
    add_basic_arguments(&mut parts, &args, &defaults());
    assert_eq!(
        parts,
        vec!["kept", "--message-size 1001", "--rate-limit '1.00 KB'", "--warmup-time '20s'"]
    );
}

#[test]
fn actor_arguments_by_kind() {
    let expected: [(BenchmarkKind, &[&str]); 8] = [
        (BenchmarkKind::PinnedProducer, &["--producers 2"]),
        (BenchmarkKind::BalancedProducer, &["--producers 2"]),
        (BenchmarkKind::EndToEndProducingConsumer, &["--producers 2"]),
        (BenchmarkKind::PinnedConsumer, &["--consumers 3"]),
        (BenchmarkKind::BalancedConsumerGroup, &["--consumers 3"]),
        (BenchmarkKind::PinnedProducerAndConsumer, &["--producers 2", "--consumers 3"]),
        (
            BenchmarkKind::BalancedProducerAndConsumerGroup,
            &["--producers 2", "--consumers 3"],
        ),
        (
            BenchmarkKind::EndToEndProducingConsumerGroup,
            &["--producers 2", "--consumers 3", "--consumer-groups 4"],
        ),
    ];
    for (kind, lines) in expected {
        let mut args = plain(kind);
        args.producers = 2;
        args.consumers = 3;
        args.consumer_groups = 4;
        let mut parts = vec![];
        add_actor_arguments(&mut parts, &args, &defaults());
        assert_eq!(parts, lines.to_vec());
        let mut parts = vec![];
        add_benchmark_kind_arguments(&mut parts, &args, &defaults());
        assert_eq!(parts[0], name_of_kind(kind));
        assert_eq!(parts[1..], lines.to_vec());
        let mut parts = vec![];
        add_actor_arguments(&mut parts, &plain(kind), &defaults());
        assert_eq!(parts, Vec::<String>::new());
    }
}

#[test]
fn infrastructure_arguments_by_kind_and_transport() {
    let mut parts = vec![];
    add_infrastructure_arguments(&mut parts, &plain(BenchmarkKind::PinnedProducer), &defaults());
    assert_eq!(parts, vec!["tcp"]);
    // The defaults of a pinned benchmark differ from those of a balanced one.
    let mut args = plain(BenchmarkKind::PinnedProducer);
    args.benchmark_kind = BenchmarkKind::BalancedProducer;
    let mut parts = vec![];
    add_infrastructure_arguments(&mut parts, &args, &defaults());
    assert_eq!(parts, vec!["--streams 8", "--partitions 1", "tcp"]);
    // Consumer groups are written for the two kinds with balanced groups only.
    for (kind, written) in [
        (BenchmarkKind::BalancedConsumerGroup, true),
        (BenchmarkKind::BalancedProducerAndConsumerGroup, true),
        (BenchmarkKind::BalancedProducer, false),
        (BenchmarkKind::EndToEndProducingConsumerGroup, false),
        (BenchmarkKind::PinnedConsumer, false),
    ] {
        let mut args = plain(kind);
        args.consumer_groups = 3;
        let mut parts = vec![];
        add_infrastructure_arguments(&mut parts, &args, &defaults());
        if written {
            assert_eq!(parts, vec!["--consumer-groups 3", "tcp"]);
        } else {
            assert_eq!(parts, vec!["tcp"]);
        }
    }
    for (transport, address, name) in [
        (BenchmarkTransport::Tcp, "127.0.0.1:8090", "tcp"),
        (BenchmarkTransport::Quic, "127.0.0.1:8080", "quic"),
        (BenchmarkTransport::Http, "127.0.0.1:3000", "http"),
    ] {
        let mut args = plain(BenchmarkKind::PinnedProducer);
        args.transport = transport;
        args.server_address = address.to_string();
        let mut parts = vec![];
        add_infrastructure_arguments(&mut parts, &args, &defaults());
        assert_eq!(parts, vec![name]);
        args.server_address = "127.0.0.1:9999".to_string();
        args.max_topic_size = Some("1.00 GB".to_string());
        let mut parts = vec![];
        add_infrastructure_arguments(&mut parts, &args, &defaults());
        assert_eq!(
            parts,
            vec!["--max-topic-size '1.00 GB'", name, "--server-address 127.0.0.1:9999"]
        );
    }
}

#[test]
fn output_arguments_with_and_without_a_remark() {
    let mut args = plain(BenchmarkKind::PinnedProducer);
    let mut parts = vec![];
    add_output_arguments(&mut parts, &args);
    assert_eq!(parts, vec!["output", "-o performance_results"]);
    args.remark = Some("a remark".to_string());
    add_output_arguments(&mut parts, &args);
    assert_eq!(
        parts,
        vec![
            "output",
            "-o performance_results",
            "output",
            "-o performance_results",
            "--remark 'a remark'"
        ]
    );
}

#[test]
fn parameters_of_a_run() {
    let mut args = plain(BenchmarkKind::BalancedConsumerGroup);
    args.transport = BenchmarkTransport::Http;
    args.server_address = "10.0.0.7:3000".to_string();
    args.remark = Some("second run today".to_string());
    args.extra_info = Some("extra".to_string());
    args.gitref = Some("abc123".to_string());
    args.gitref_date = Some("2025-01-01".to_string());
    args.messages_per_batch = BenchmarkNumericParameter::Range { min: 1, max: 9 };
    args.rate_limit = Some("1.00 MB".to_string());
    args.consumers = 4;
    args.pretty_name = "Balanced Consumer Group".to_string();
    args.data_volume_identifier = "8MB".to_string();
    let metrics = vec![record(3), record(4), record(10)];
    let params = params_from_args_and_metrics(&args, &defaults(), &variables(&[]), &metrics);
    assert_eq!(params.benchmark_kind, BenchmarkKind::BalancedConsumerGroup);
    assert_eq!(params.transport, BenchmarkTransport::Http);
    assert_eq!(params.server_address, "10.0.0.7:3000");
    assert_eq!(params.remark, Some("second run today".to_string()));
    assert_eq!(params.extra_info, Some("extra".to_string()));
    assert_eq!(params.gitref, Some("abc123".to_string()));
    assert_eq!(params.gitref_date, Some("2025-01-01".to_string()));
    assert_eq!(
        params.messages_per_batch,
        BenchmarkNumericParameter::Range { min: 1, max: 9 }
    );
    assert_eq!(params.message_batches, 17);
    assert_eq!(params.message_size, BenchmarkNumericParameter::Value(1000));
    assert_eq!(params.producers, 8);
    assert_eq!(params.consumers, 4);
    assert_eq!(params.streams, 1);
    assert_eq!(params.partitions, 24);
    assert_eq!(params.consumer_groups, 1);
    assert_eq!(params.rate_limit, Some("1.00 MB".to_string()));
    assert_eq!(params.pretty_name, "Balanced Consumer Group");
    assert_eq!(
        params.bench_command,
        recreate_bench_command(&args, &defaults(), &variables(&[]))
    );
    assert_eq!(
        params.bench_command,
        "iggy-bench --messages-per-batch 1..9 --rate-limit '1.00 MB' balanced-consumer-group \
         --consumers 4 http --server-address 10.0.0.7:3000 output -o performance_results \
         --remark 'second run today'"
    );
    assert_eq!(
        params.params_identifier,
        "balanced_consumer_group_http_second_run_today_1..9_8MB_1000_8_4_1_24_1"
    );
}

#[test]
fn parameters_without_a_remark() {
    let args = plain(BenchmarkKind::PinnedProducer);
    let params = params_from_args_and_metrics(&args, &defaults(), &variables(&[]), &[]);
    assert_eq!(params.remark, None);
    assert_eq!(params.message_batches, 0);
    assert_eq!(
        params.params_identifier,
        "pinned_producer_tcp_no_remark_1000_1000_1000_8_8_8_1_1"
    );
}
