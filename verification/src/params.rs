//! The parameters of a benchmark run as its report holds them, and the
//! command line by which the run can be repeated.
//!
//! The arguments are held as plain values. What a size, a duration or a
//! limit is written as is decided where the arguments are parsed, so such
//! an argument comes with its text. The values that an argument has when it
//! is not given come with the arguments too, as [`BenchDefaults`]: an
//! argument is written into the command line only where it differs from
//! its default.

use crate::metrics::{records_view, IndividualMetrics};
use crate::reduce::{scalar_column, sum, ScalarField};
use crate::text::{
    copy_of, has_prefix, host, host_of, join, joined, optional, optional_text, replace_spaces,
    same_text, starts_with, texts, with_underscores,
};
use crate::timing::{decimal, to_decimal};
use crate::utils::message_batches_from_metrics;
use vstd::prelude::*;
use vstd::string::StringExecFns;

verus! {

/// What a benchmark run does.
#[derive(Clone, Copy, Debug, PartialEq, Eq, Structural)]
pub enum BenchmarkKind {
    PinnedProducer,
    PinnedConsumer,
    PinnedProducerAndConsumer,
    BalancedProducer,
    BalancedConsumerGroup,
    BalancedProducerAndConsumerGroup,
    EndToEndProducingConsumer,
    EndToEndProducingConsumerGroup,
}

/// The transport by which the actors reach the server.
#[derive(Clone, Copy, Debug, PartialEq, Eq, Structural)]
pub enum BenchmarkTransport {
    Tcp,
    Quic,
    Http,
}

/// A number that is either fixed or drawn from a range.
#[derive(Clone, Copy, Debug, PartialEq, Eq, Structural)]
pub enum BenchmarkNumericParameter {
    Value(u32),
    Range { min: u32, max: u32 },
}

/// A size in bytes together with the text that it is written as.
#[derive(Debug, PartialEq, Eq)]
pub struct ByteSize {
    pub bytes: u64,
    pub text: String,
}

/// The arguments of a benchmark run.
#[derive(Debug, PartialEq, Eq)]
pub struct BenchArguments {
    pub benchmark_kind: BenchmarkKind,
    pub transport: BenchmarkTransport,
    pub server_address: String,
    pub remark: Option<String>,
    pub extra_info: Option<String>,
    pub gitref: Option<String>,
    pub gitref_date: Option<String>,
    pub messages_per_batch: BenchmarkNumericParameter,
    pub message_size: BenchmarkNumericParameter,
    pub message_batches: Option<u32>,
    pub total_data: Option<ByteSize>,
    /// The rate limit as it is written.
    pub rate_limit: Option<String>,
    /// The warm-up time as it is written.
    pub warmup_time: String,
    /// The greatest size of a topic as it is written.
    pub max_topic_size: Option<String>,
    pub producers: u32,
    pub consumers: u32,
    pub streams: u32,
    pub partitions: u32,
    pub consumer_groups: u32,
    pub pretty_name: String,
    pub data_volume_identifier: String,
}

/// The values that the arguments have when they are not given.
#[derive(Debug, PartialEq, Eq)]
pub struct BenchDefaults {
    pub messages_per_batch: u32,
    pub message_batches: u32,
    pub total_messages_size: u64,
    pub message_size: u32,
    pub warmup_time: String,
    pub producers: u32,
    pub consumers: u32,
    pub consumer_groups: u32,
    pub balanced_streams: u32,
    pub pinned_streams: u32,
    pub balanced_partitions: u32,
    pub pinned_partitions: u32,
    pub tcp_server_address: String,
    pub quic_server_address: String,
    pub http_server_address: String,
}

/// The parameters of a benchmark run as its report holds them.
#[derive(Debug, PartialEq, Eq)]
pub struct BenchmarkParams {
    pub benchmark_kind: BenchmarkKind,
    pub transport: BenchmarkTransport,
    pub server_address: String,
    pub remark: Option<String>,
    pub extra_info: Option<String>,
    pub gitref: Option<String>,
    pub gitref_date: Option<String>,
    pub messages_per_batch: BenchmarkNumericParameter,
    pub message_batches: u128,
    pub message_size: BenchmarkNumericParameter,
    pub producers: u32,
    pub consumers: u32,
    pub streams: u32,
    pub partitions: u32,
    pub consumer_groups: u32,
    pub rate_limit: Option<String>,
    pub pretty_name: String,
    pub bench_command: String,
    pub params_identifier: String,
}

/// The word of the command line that names a kind of benchmark.
pub open spec fn kind_name(kind: BenchmarkKind) -> Seq<char> {
    match kind {
        BenchmarkKind::PinnedProducer => "pinned-producer"@,
        BenchmarkKind::PinnedConsumer => "pinned-consumer"@,
        BenchmarkKind::PinnedProducerAndConsumer => "pinned-producer-and-consumer"@,
        BenchmarkKind::BalancedProducer => "balanced-producer"@,
        BenchmarkKind::BalancedConsumerGroup => "balanced-consumer-group"@,
        BenchmarkKind::BalancedProducerAndConsumerGroup => "balanced-producer-and-consumer-group"@,
        BenchmarkKind::EndToEndProducingConsumer => "end-to-end-producing-consumer"@,
        BenchmarkKind::EndToEndProducingConsumerGroup => "end-to-end-producing-consumer-group"@,
    }
}

/// The word that stands for a kind of benchmark in an identifier.
pub open spec fn kind_word(kind: BenchmarkKind) -> Seq<char> {
    match kind {
        BenchmarkKind::PinnedProducer => "pinned_producer"@,
        BenchmarkKind::PinnedConsumer => "pinned_consumer"@,
        BenchmarkKind::PinnedProducerAndConsumer => "pinned_producer_and_consumer"@,
        BenchmarkKind::BalancedProducer => "balanced_producer"@,
        BenchmarkKind::BalancedConsumerGroup => "balanced_consumer_group"@,
        BenchmarkKind::BalancedProducerAndConsumerGroup => "balanced_producer_and_consumer_group"@,
        BenchmarkKind::EndToEndProducingConsumer => "end_to_end_producing_consumer"@,
        BenchmarkKind::EndToEndProducingConsumerGroup => "end_to_end_producing_consumer_group"@,
    }
}

/// The word that names a transport, in the command line and in an
/// identifier.
pub open spec fn transport_name(transport: BenchmarkTransport) -> Seq<char> {
    match transport {
        BenchmarkTransport::Tcp => "tcp"@,
        BenchmarkTransport::Quic => "quic"@,
        BenchmarkTransport::Http => "http"@,
    }
}

/// Whether the actors of a kind of benchmark share their streams.
pub open spec fn is_balanced(kind: BenchmarkKind) -> bool {
    kind == BenchmarkKind::BalancedProducerAndConsumerGroup || kind
        == BenchmarkKind::BalancedConsumerGroup || kind == BenchmarkKind::BalancedProducer
}

/// A fixed number in decimal digits, and a range as its two ends with `..`
/// between them.
pub open spec fn parameter_text(parameter: BenchmarkNumericParameter) -> Seq<char> {
    match parameter {
        BenchmarkNumericParameter::Value(value) => decimal(value as nat),
        BenchmarkNumericParameter::Range { min, max } => decimal(min as nat) + ".."@ + decimal(
            max as nat,
        ),
    }
}

/// The variables of the environment as pairs of texts, in their order.
pub open spec fn pairs(variables: Seq<(String, String)>) -> Seq<(Seq<char>, Seq<char>)> {
    Seq::new(variables.len(), |i: int| (variables[i].0@, variables[i].1@))
}

/// For each variable whose name begins with `IGGY_`, in their order, the
/// name, `=` and the value.
pub open spec fn variable_parts(variables: Seq<(Seq<char>, Seq<char>)>) -> Seq<Seq<char>>
    decreases variables.len(),
{
    if variables.len() == 0 {
        Seq::empty()
    } else {
        variable_parts(variables.drop_last()) + optional(
            has_prefix(variables.last().0, "IGGY_"@),
            variables.last().0 + "="@ + variables.last().1,
        )
    }
}

/// Whether a host is the machine that the benchmark itself runs on.
pub open spec fn is_local(name: Seq<char>) -> bool {
    name == "localhost"@ || name == "127.0.0.1"@
}

/// The variables that stand before the command: those of
/// [`variable_parts`] where the server runs on the local host, and none
/// where it runs elsewhere.
pub open spec fn environment_parts(
    server_address: Seq<char>,
    variables: Seq<(Seq<char>, Seq<char>)>,
) -> Seq<Seq<char>> {
    if is_local(host_of(server_address)) {
        variable_parts(variables)
    } else {
        Seq::empty()
    }
}

/// The argument for the number of message batches, where one is given
/// that is not the default.
pub open spec fn message_batches_part(given: Option<u32>, default: u32) -> Seq<Seq<char>> {
    match given {
        Some(batches) => optional(
            batches != default,
            "--message-batches "@ + decimal(batches as nat),
        ),
        None => Seq::empty(),
    }
}

/// The argument for the total size of the messages, where one is given
/// that is not the default.
pub open spec fn total_size_part(given: Option<ByteSize>, default: u64) -> Seq<Seq<char>> {
    match given {
        Some(size) => optional(size.bytes != default, "--total-messages-size "@ + size.text@),
        None => Seq::empty(),
    }
}

/// The argument `name` with the text of `given` between single quotes,
/// where there is one.
pub open spec fn quoted_part(name: Seq<char>, given: Option<String>) -> Seq<Seq<char>> {
    match given {
        Some(text) => seq![name + text@ + "'"@],
        None => Seq::empty(),
    }
}

/// The arguments that every kind of benchmark has, each where it differs
/// from its default: the messages of a batch, the batches, the total size,
/// the size of a message, the rate limit and the warm-up time.
pub open spec fn basic_parts(args: BenchArguments, defaults: BenchDefaults) -> Seq<Seq<char>> {
    optional(
        args.messages_per_batch != BenchmarkNumericParameter::Value(defaults.messages_per_batch),
        "--messages-per-batch "@ + parameter_text(args.messages_per_batch),
    ) + message_batches_part(args.message_batches, defaults.message_batches) + total_size_part(
        args.total_data,
        defaults.total_messages_size,
    ) + optional(
        args.message_size != BenchmarkNumericParameter::Value(defaults.message_size),
        "--message-size "@ + parameter_text(args.message_size),
    ) + quoted_part("--rate-limit '"@, args.rate_limit) + optional(
        args.warmup_time@ != defaults.warmup_time@,
        "--warmup-time '"@ + args.warmup_time@ + "'"@,
    )
}

/// The argument for the number of producers, where it is not the default.
pub open spec fn producers_part(args: BenchArguments, defaults: BenchDefaults) -> Seq<Seq<char>> {
    optional(args.producers != defaults.producers, "--producers "@ + decimal(args.producers as nat))
}

/// The argument for the number of consumers, where it is not the default.
pub open spec fn consumers_part(args: BenchArguments, defaults: BenchDefaults) -> Seq<Seq<char>> {
    optional(args.consumers != defaults.consumers, "--consumers "@ + decimal(args.consumers as nat))
}

/// The argument for the number of consumer groups, where it is not the
/// default.
pub open spec fn consumer_groups_part(args: BenchArguments, defaults: BenchDefaults) -> Seq<
    Seq<char>,
> {
    optional(
        args.consumer_groups != defaults.consumer_groups,
        "--consumer-groups "@ + decimal(args.consumer_groups as nat),
    )
}

/// The arguments for the actors that a kind of benchmark has: producers,
/// consumers, both, or both and their groups.
pub open spec fn actor_parts(args: BenchArguments, defaults: BenchDefaults) -> Seq<Seq<char>> {
    match args.benchmark_kind {
        BenchmarkKind::PinnedProducer
        | BenchmarkKind::BalancedProducer
        | BenchmarkKind::EndToEndProducingConsumer => producers_part(args, defaults),
        BenchmarkKind::PinnedConsumer | BenchmarkKind::BalancedConsumerGroup => consumers_part(
            args,
            defaults,
        ),
        BenchmarkKind::PinnedProducerAndConsumer
        | BenchmarkKind::BalancedProducerAndConsumerGroup => producers_part(args, defaults)
            + consumers_part(args, defaults),
        BenchmarkKind::EndToEndProducingConsumerGroup => producers_part(args, defaults)
            + consumers_part(args, defaults) + consumer_groups_part(args, defaults),
    }
}

/// The word that names the kind of benchmark, and after it the arguments
/// for its actors.
pub open spec fn kind_parts(args: BenchArguments, defaults: BenchDefaults) -> Seq<Seq<char>> {
    seq![kind_name(args.benchmark_kind)] + actor_parts(args, defaults)
}

/// The number of streams that a kind of benchmark has by default.
pub open spec fn default_streams(kind: BenchmarkKind, defaults: BenchDefaults) -> u32 {
    if is_balanced(kind) {
        defaults.balanced_streams
    } else {
        defaults.pinned_streams
    }
}

/// The number of partitions that a kind of benchmark has by default.
pub open spec fn default_partitions(kind: BenchmarkKind, defaults: BenchDefaults) -> u32 {
    if is_balanced(kind) {
        defaults.balanced_partitions
    } else {
        defaults.pinned_partitions
    }
}

/// The address at which the server listens by default on a transport.
pub open spec fn default_address(transport: BenchmarkTransport, defaults: BenchDefaults) -> Seq<
    char,
> {
    match transport {
        BenchmarkTransport::Tcp => defaults.tcp_server_address@,
        BenchmarkTransport::Quic => defaults.quic_server_address@,
        BenchmarkTransport::Http => defaults.http_server_address@,
    }
}

/// The arguments for what the benchmark runs on: streams, partitions and,
/// for the kinds with balanced consumer groups, the groups, each where it
/// differs from its default; the greatest size of a topic where one is
/// given; the transport, always; and the address of the server where it is
/// not the default of the transport.
pub open spec fn infrastructure_parts(args: BenchArguments, defaults: BenchDefaults) -> Seq<
    Seq<char>,
> {
    optional(
        args.streams != default_streams(args.benchmark_kind, defaults),
        "--streams "@ + decimal(args.streams as nat),
    ) + optional(
        args.partitions != default_partitions(args.benchmark_kind, defaults),
        "--partitions "@ + decimal(args.partitions as nat),
    ) + optional(
        (args.benchmark_kind == BenchmarkKind::BalancedConsumerGroup || args.benchmark_kind
            == BenchmarkKind::BalancedProducerAndConsumerGroup) && args.consumer_groups
            != defaults.consumer_groups,
        "--consumer-groups "@ + decimal(args.consumer_groups as nat),
    ) + quoted_part("--max-topic-size '"@, args.max_topic_size) + seq![
        transport_name(args.transport),
    ] + optional(
        args.server_address@ != default_address(args.transport, defaults),
        "--server-address "@ + args.server_address@,
    )
}

/// The arguments for the output: where the results go and, where there is
/// one, the remark.
pub open spec fn output_parts(args: BenchArguments) -> Seq<Seq<char>> {
    seq!["output"@, "-o performance_results"@] + quoted_part("--remark '"@, args.remark)
}

/// The parts of the command line by which a run can be repeated: the
/// variables of the environment, the name of the program, and the
/// arguments in the order of [`basic_parts`], [`kind_parts`],
/// [`infrastructure_parts`] and [`output_parts`].
pub open spec fn command_parts(
    args: BenchArguments,
    defaults: BenchDefaults,
    variables: Seq<(Seq<char>, Seq<char>)>,
) -> Seq<Seq<char>> {
    environment_parts(args.server_address@, variables) + seq!["iggy-bench"@] + basic_parts(
        args,
        defaults,
    ) + kind_parts(args, defaults) + infrastructure_parts(args, defaults) + output_parts(args)
}

/// The remark as it stands in an identifier: `no_remark` where there is
/// none, and `_` for each space.
pub open spec fn remark_word(remark: Option<String>) -> Seq<char> {
    match remark {
        Some(text) => with_underscores(text@),
        None => with_underscores("no_remark"@),
    }
}

/// The parts of the identifier of a set of parameters.
pub open spec fn identifier_parts(args: BenchArguments) -> Seq<Seq<char>> {
    seq![
        kind_word(args.benchmark_kind),
        transport_name(args.transport),
        remark_word(args.remark),
        parameter_text(args.messages_per_batch),
        args.data_volume_identifier@,
        parameter_text(args.message_size),
        decimal(args.producers as nat),
        decimal(args.consumers as nat),
        decimal(args.streams as nat),
        decimal(args.partitions as nat),
        decimal(args.consumer_groups as nat),
    ]
}

/// Appending a line to a list appends its text to the texts of the list.
pub proof fn lemma_texts_push(lines: Seq<String>, line: String)
    ensures
        texts(lines.push(line)) == texts(lines).push(line@),
{
    assert(texts(lines.push(line)) =~= texts(lines).push(line@));
}

/// The word of the command line that names a kind of benchmark.
pub fn name_of_kind(kind: BenchmarkKind) -> (name: &'static str)
    ensures
        name@ == kind_name(kind),
{
    match kind {
        BenchmarkKind::PinnedProducer => "pinned-producer",
        BenchmarkKind::PinnedConsumer => "pinned-consumer",
        BenchmarkKind::PinnedProducerAndConsumer => "pinned-producer-and-consumer",
        BenchmarkKind::BalancedProducer => "balanced-producer",
        BenchmarkKind::BalancedConsumerGroup => "balanced-consumer-group",
        BenchmarkKind::BalancedProducerAndConsumerGroup => "balanced-producer-and-consumer-group",
        BenchmarkKind::EndToEndProducingConsumer => "end-to-end-producing-consumer",
        BenchmarkKind::EndToEndProducingConsumerGroup => "end-to-end-producing-consumer-group",
    }
}

/// The word that stands for a kind of benchmark in an identifier.
pub fn word_of_kind(kind: BenchmarkKind) -> (word: &'static str)
    ensures
        word@ == kind_word(kind),
{
    match kind {
        BenchmarkKind::PinnedProducer => "pinned_producer",
        BenchmarkKind::PinnedConsumer => "pinned_consumer",
        BenchmarkKind::PinnedProducerAndConsumer => "pinned_producer_and_consumer",
        BenchmarkKind::BalancedProducer => "balanced_producer",
        BenchmarkKind::BalancedConsumerGroup => "balanced_consumer_group",
        BenchmarkKind::BalancedProducerAndConsumerGroup => "balanced_producer_and_consumer_group",
        BenchmarkKind::EndToEndProducingConsumer => "end_to_end_producing_consumer",
        BenchmarkKind::EndToEndProducingConsumerGroup => "end_to_end_producing_consumer_group",
    }
}

/// The word that names a transport.
pub fn name_of_transport(transport: BenchmarkTransport) -> (name: &'static str)
    ensures
        name@ == transport_name(transport),
{
    match transport {
        BenchmarkTransport::Tcp => "tcp",
        BenchmarkTransport::Quic => "quic",
        BenchmarkTransport::Http => "http",
    }
}

/// Whether the actors of a kind of benchmark share their streams.
pub fn balanced(kind: BenchmarkKind) -> (shared: bool)
    ensures
        shared == is_balanced(kind),
{
    match kind {
        BenchmarkKind::BalancedProducerAndConsumerGroup
        | BenchmarkKind::BalancedConsumerGroup
        | BenchmarkKind::BalancedProducer => true,
        _ => false,
    }
}

/// A number in decimal digits.
fn number_text(number: u32) -> (text: String)
    ensures
        text@ == decimal(number as nat),
{
    to_decimal(number as u128)
}

/// A fixed number in decimal digits, and a range as its two ends with `..`
/// between them.
pub fn text_of_parameter(parameter: &BenchmarkNumericParameter) -> (text: String)
    ensures
        text@ == parameter_text(*parameter),
{
    match parameter {
        BenchmarkNumericParameter::Value(value) => number_text(*value),
        BenchmarkNumericParameter::Range { min, max } => {
            let mut text = number_text(*min);
            text.append("..");
            text.append(number_text(*max).as_str());
            text
        },
    }
}

/// Whether a parameter is the fixed number `value`.
fn is_value(parameter: &BenchmarkNumericParameter, value: u32) -> (same: bool)
    ensures
        same == (*parameter == BenchmarkNumericParameter::Value(value)),
{
    match parameter {
        BenchmarkNumericParameter::Value(own) => *own == value,
        BenchmarkNumericParameter::Range { .. } => false,
    }
}

/// The argument `name` with `value` after it.
fn argument(name: &str, value: &str) -> (line: String)
    ensures
        line@ == name@ + value@,
{
    let mut line = String::from_str(name);
    line.append(value);
    line
}

/// The argument `name` with `value` after it and a single quote at the end.
fn quoted(name: &str, value: &str) -> (line: String)
    ensures
        line@ == name@ + value@ + "'"@,
{
    let mut line = String::from_str(name);
    line.append(value);
    line.append("'");
    line
}

/// Appends the argument `name` with the text of `given` between single
/// quotes, where there is one.
fn add_quoted(parts: &mut Vec<String>, name: &str, given: &Option<String>)
    ensures
        texts(final(parts)@) == texts(old(parts)@) + quoted_part(name@, *given),
{
    match given {
        Some(text) => {
            let line = quoted(name, text.as_str());
            proof {
                lemma_texts_push(parts@, line);
            }
            parts.push(line);
            assert(texts(parts@) =~= texts(old(parts)@) + quoted_part(name@, *given));
        },
        None => {
            assert(texts(parts@) =~= texts(old(parts)@) + quoted_part(name@, *given));
        },
    }
}

/// Appends the argument `name` with the number `value` after it where
/// `present` holds.
fn add_number(parts: &mut Vec<String>, present: bool, name: &str, value: u32)
    ensures
        texts(final(parts)@) == texts(old(parts)@) + optional(
            present,
            name@ + decimal(value as nat),
        ),
{
    if present {
        let line = argument(name, number_text(value).as_str());
        proof {
            lemma_texts_push(parts@, line);
        }
        parts.push(line);
    }
    assert(texts(parts@) =~= texts(old(parts)@) + optional(present, name@ + decimal(value as nat)));
}

/// Appends `line` where `present` holds.
fn add_line(parts: &mut Vec<String>, present: bool, line: String)
    ensures
        texts(final(parts)@) == texts(old(parts)@) + optional(present, line@),
{
    if present {
        proof {
            lemma_texts_push(parts@, line);
        }
        parts.push(line);
    }
    assert(texts(parts@) =~= texts(old(parts)@) + optional(present, line@));
}

/// Appends the variables of the environment that stand before the command:
/// where the server runs on the local host, each variable whose name
/// begins with `IGGY_`, as the name, `=` and the value.
pub fn add_environment_variables(
    parts: &mut Vec<String>,
    server_address: &str,
    variables: &Vec<(String, String)>,
)
    ensures
        texts(final(parts)@) == texts(old(parts)@) + environment_parts(
            server_address@,
            pairs(variables@),
        ),
{
    let name = host(server_address);
    let is_localhost = same_text(name, "localhost") || same_text(name, "127.0.0.1");
    let ghost all = pairs(variables@);
    if is_localhost {
        let mut i: usize = 0;
        assert(texts(parts@) =~= texts(old(parts)@) + variable_parts(all.take(0)));
        while i < variables.len()
            invariant
                i <= variables.len(),
                all == pairs(variables@),
                texts(parts@) == texts(old(parts)@) + variable_parts(all.take(i as int)),
            decreases variables.len() - i,
        {
            let ghost before = texts(parts@);
            let key = variables[i].0.as_str();
            let mut line = argument(key, "=");
            line.append(variables[i].1.as_str());
            add_line(parts, starts_with(key, "IGGY_"), line);
            proof {
                let next = all.take(i as int + 1);
                assert(next.drop_last() =~= all.take(i as int));
                assert(next.last() == all[i as int]);
                assert(texts(parts@) =~= texts(old(parts)@) + variable_parts(next));
            }
            i = i + 1;
        }
        assert(all.take(i as int) =~= all);
    } else {
        assert(texts(parts@) =~= texts(old(parts)@) + Seq::<Seq<char>>::empty());
    }
}

/// Appends the argument for the number of message batches, where one is
/// given that is not the default.
fn add_message_batches(parts: &mut Vec<String>, given: Option<u32>, default: u32)
    ensures
        texts(final(parts)@) == texts(old(parts)@) + message_batches_part(given, default),
{
    match given {
        Some(batches) => {
            add_number(parts, batches != default, "--message-batches ", batches);
        },
        None => {
            assert(texts(parts@) =~= texts(old(parts)@) + message_batches_part(given, default));
        },
    }
}

/// Appends the argument for the total size of the messages, where one is
/// given that is not the default.
fn add_total_size(parts: &mut Vec<String>, given: &Option<ByteSize>, default: u64)
    ensures
        texts(final(parts)@) == texts(old(parts)@) + total_size_part(*given, default),
{
    match given {
        Some(size) => {
            let line = argument("--total-messages-size ", size.text.as_str());
            add_line(parts, size.bytes != default, line);
        },
        None => {
            assert(texts(parts@) =~= texts(old(parts)@) + total_size_part(*given, default));
        },
    }
}

/// Appends the arguments that every kind of benchmark has, each where it
/// differs from its default.
pub fn add_basic_arguments(
    parts: &mut Vec<String>,
    args: &BenchArguments,
    defaults: &BenchDefaults,
)
    ensures
        texts(final(parts)@) == texts(old(parts)@) + basic_parts(*args, *defaults),
{
    let ghost start = texts(parts@);
    let line = argument(
        "--messages-per-batch ",
        text_of_parameter(&args.messages_per_batch).as_str(),
    );
    add_line(parts, !is_value(&args.messages_per_batch, defaults.messages_per_batch), line);
    add_message_batches(parts, args.message_batches, defaults.message_batches);
    add_total_size(parts, &args.total_data, defaults.total_messages_size);
    let line = argument("--message-size ", text_of_parameter(&args.message_size).as_str());
    add_line(parts, !is_value(&args.message_size, defaults.message_size), line);
    add_quoted(parts, "--rate-limit '", &args.rate_limit);
    let line = quoted("--warmup-time '", args.warmup_time.as_str());
    add_line(
        parts,
        !same_text(args.warmup_time.as_str(), defaults.warmup_time.as_str()),
        line,
    );
    assert(texts(parts@) =~= start + basic_parts(*args, *defaults));
}

/// Appends the arguments for the actors that the kind of benchmark has.
pub fn add_actor_arguments(
    parts: &mut Vec<String>,
    args: &BenchArguments,
    defaults: &BenchDefaults,
)
    ensures
        texts(final(parts)@) == texts(old(parts)@) + actor_parts(*args, *defaults),
{
    let ghost start = texts(parts@);
    let producers = args.producers;
    let consumers = args.consumers;
    let number_of_consumer_groups = args.consumer_groups;
    match args.benchmark_kind {
        BenchmarkKind::PinnedProducer
        | BenchmarkKind::BalancedProducer
        | BenchmarkKind::EndToEndProducingConsumer => {
            add_number(parts, producers != defaults.producers, "--producers ", producers);
        },
        BenchmarkKind::PinnedConsumer | BenchmarkKind::BalancedConsumerGroup => {
            add_number(parts, consumers != defaults.consumers, "--consumers ", consumers);
        },
        BenchmarkKind::PinnedProducerAndConsumer
        | BenchmarkKind::BalancedProducerAndConsumerGroup => {
            add_number(parts, producers != defaults.producers, "--producers ", producers);
            add_number(parts, consumers != defaults.consumers, "--consumers ", consumers);
        },
        BenchmarkKind::EndToEndProducingConsumerGroup => {
            add_number(parts, producers != defaults.producers, "--producers ", producers);
            add_number(parts, consumers != defaults.consumers, "--consumers ", consumers);
            add_number(
                parts,
                number_of_consumer_groups != defaults.consumer_groups,
                "--consumer-groups ",
                number_of_consumer_groups,
            );
        },
    }
    assert(texts(parts@) =~= start + actor_parts(*args, *defaults));
}

/// Appends the word that names the kind of benchmark, and after it the
/// arguments for its actors.
pub fn add_benchmark_kind_arguments(
    parts: &mut Vec<String>,
    args: &BenchArguments,
    defaults: &BenchDefaults,
)
    ensures
        texts(final(parts)@) == texts(old(parts)@) + kind_parts(*args, *defaults),
{
    let ghost start = texts(parts@);
    let kind_str = name_of_kind(args.benchmark_kind);
    add_line(parts, true, String::from_str(kind_str));
    add_actor_arguments(parts, args, defaults);
    assert(texts(parts@) =~= start + kind_parts(*args, *defaults));
}

/// Appends the arguments for what the benchmark runs on.
pub fn add_infrastructure_arguments(
    parts: &mut Vec<String>,
    args: &BenchArguments,
    defaults: &BenchDefaults,
)
    ensures
        texts(final(parts)@) == texts(old(parts)@) + infrastructure_parts(*args, *defaults),
{
    let ghost start = texts(parts@);
    let shared = balanced(args.benchmark_kind);
    let streams = args.streams;
    let default_streams = if shared {
        defaults.balanced_streams
    } else {
        defaults.pinned_streams
    };
    add_number(parts, streams != default_streams, "--streams ", streams);
    let partitions = args.partitions;
    let default_partitions = if shared {
        defaults.balanced_partitions
    } else {
        defaults.pinned_partitions
    };
    add_number(parts, partitions != default_partitions, "--partitions ", partitions);
    let consumer_groups = args.consumer_groups;
    let grouped = match args.benchmark_kind {
        BenchmarkKind::BalancedConsumerGroup
        | BenchmarkKind::BalancedProducerAndConsumerGroup => true,
        _ => false,
    };
    add_number(
        parts,
        grouped && consumer_groups != defaults.consumer_groups,
        "--consumer-groups ",
        consumer_groups,
    );
    add_quoted(parts, "--max-topic-size '", &args.max_topic_size);
    let transport = name_of_transport(args.transport);
    add_line(parts, true, String::from_str(transport));
    let server_address = args.server_address.as_str();
    let default_address = match args.transport {
        BenchmarkTransport::Tcp => defaults.tcp_server_address.as_str(),
        BenchmarkTransport::Quic => defaults.quic_server_address.as_str(),
        BenchmarkTransport::Http => defaults.http_server_address.as_str(),
    };
    let line = argument("--server-address ", server_address);
    add_line(parts, !same_text(server_address, default_address), line);
    assert(texts(parts@) =~= start + infrastructure_parts(*args, *defaults));
}

/// Appends the arguments for the output.
pub fn add_output_arguments(parts: &mut Vec<String>, args: &BenchArguments)
    ensures
        texts(final(parts)@) == texts(old(parts)@) + output_parts(*args),
{
    let ghost start = texts(parts@);
    add_line(parts, true, String::from_str("output"));
    add_line(parts, true, String::from_str("-o performance_results"));
    add_quoted(parts, "--remark '", &args.remark);
    assert(texts(parts@) =~= start + output_parts(*args));
}

/// The command line by which a run with these arguments can be repeated:
/// the parts of [`command_parts`] with a space between each two.
/// `variables` are the variables of the environment in which the run was
/// started.
pub fn recreate_bench_command(
    args: &BenchArguments,
    defaults: &BenchDefaults,
    variables: &Vec<(String, String)>,
) -> (command: String)
    ensures
        command@ == joined(command_parts(*args, *defaults, pairs(variables@)), " "@),
{
    let mut parts: Vec<String> = Vec::new();
    add_environment_variables(&mut parts, args.server_address.as_str(), variables);
    add_line(&mut parts, true, String::from_str("iggy-bench"));
    add_basic_arguments(&mut parts, args, defaults);
    add_benchmark_kind_arguments(&mut parts, args, defaults);
    add_infrastructure_arguments(&mut parts, args, defaults);
    add_output_arguments(&mut parts, args);
    assert(texts(parts@) =~= command_parts(*args, *defaults, pairs(variables@)));
    join(&parts, " ")
}

/// The remark as it stands in an identifier.
fn word_of_remark(remark: &Option<String>) -> (word: String)
    ensures
        word@ == remark_word(*remark),
{
    match remark {
        Some(text) => replace_spaces(text.as_str()),
        None => replace_spaces("no_remark"),
    }
}

/// The parameters of a benchmark run as its report holds them: the
/// arguments as they were given, the number of message batches that the
/// actors of `metrics` have processed between them, the command line of
/// [`recreate_bench_command`], and the identifier of the parameters, which
/// is the parts of [`identifier_parts`] with `_` between each two.
pub fn params_from_args_and_metrics(
    args: &BenchArguments,
    defaults: &BenchDefaults,
    variables: &Vec<(String, String)>,
    metrics: &[IndividualMetrics],
) -> (params: BenchmarkParams)
    ensures
        params.benchmark_kind == args.benchmark_kind,
        params.transport == args.transport,
        params.server_address@ == args.server_address@,
        optional_text(params.remark) == optional_text(args.remark),
        optional_text(params.extra_info) == optional_text(args.extra_info),
        optional_text(params.gitref) == optional_text(args.gitref),
        optional_text(params.gitref_date) == optional_text(args.gitref_date),
        params.messages_per_batch == args.messages_per_batch,
        params.message_batches == sum(
            scalar_column(records_view(metrics@), ScalarField::MessageBatches),
        ),
        params.message_size == args.message_size,
        params.producers == args.producers,
        params.consumers == args.consumers,
        params.streams == args.streams,
        params.partitions == args.partitions,
        params.consumer_groups == args.consumer_groups,
        optional_text(params.rate_limit) == optional_text(args.rate_limit),
        params.pretty_name@ == args.pretty_name@,
        params.bench_command@ == joined(
            command_parts(*args, *defaults, pairs(variables@)),
            " "@,
        ),
        params.params_identifier@ == joined(identifier_parts(*args), "_"@),
{
    let message_batches = message_batches_from_metrics(metrics);
    let bench_command = recreate_bench_command(args, defaults, variables);
    let mut words: Vec<String> = Vec::new();
    words.push(String::from_str(word_of_kind(args.benchmark_kind)));
    words.push(String::from_str(name_of_transport(args.transport)));
    words.push(word_of_remark(&args.remark));
    words.push(text_of_parameter(&args.messages_per_batch));
    words.push(args.data_volume_identifier.clone());
    words.push(text_of_parameter(&args.message_size));
    words.push(number_text(args.producers));
    words.push(number_text(args.consumers));
    words.push(number_text(args.streams));
    words.push(number_text(args.partitions));
    words.push(number_text(args.consumer_groups));
    assert(texts(words@) =~= identifier_parts(*args));
    let params_identifier = join(&words, "_");
    BenchmarkParams {
        benchmark_kind: args.benchmark_kind,
        transport: args.transport,
        server_address: args.server_address.clone(),
        remark: copy_of(&args.remark),
        extra_info: copy_of(&args.extra_info),
        gitref: copy_of(&args.gitref),
        gitref_date: copy_of(&args.gitref_date),
        messages_per_batch: args.messages_per_batch,
        message_batches,
        message_size: args.message_size,
        producers: args.producers,
        consumers: args.consumers,
        streams: args.streams,
        partitions: args.partitions,
        consumer_groups: args.consumer_groups,
        rate_limit: copy_of(&args.rate_limit),
        pretty_name: args.pretty_name.clone(),
        bench_command,
        params_identifier,
    }
}

} // verus!
