//! The table of INFO fields, row by row: each known field is reported
//! under its own name, as a gauge or a counter, with its help text.
//!
//! The table is read in parts, the first part that knows a field deciding.
//! The rows of the first part are stated of `generic_metric_spec` itself,
//! those of the later parts of the part that holds them.

use vstd::prelude::*;
use vstd::string::StringSliceAdditionalSpecFns;
use vstd::utf8::encode_utf8_decode_utf8;

use super::generic::{
    generic_metric_spec, table_part_1, table_part_2, table_part_3, table_part_4, table_part_5,
    table_part_6, table_part_7, GenericMetric,
};
use crate::metric::Kind;

verus! {

/// Two texts whose characters differ have different bytes.
proof fn lemma_texts_differ(a: &str, b: &str)
    requires
        a@ != b@,
    ensures
        a.spec_bytes() != b.spec_bytes(),
{
    encode_utf8_decode_utf8(a@);
    encode_utf8_decode_utf8(b@);
}

/// The field `uptime_in_seconds` is reported as the gauge `uptime_in_seconds`.
pub proof fn lemma_field_uptime_in_seconds()
    ensures
        generic_metric_spec("uptime_in_seconds".spec_bytes()) == Some(
            GenericMetric { kind: Kind::Gauge, name: "uptime_in_seconds", description: "Number of seconds since Redis server start", micros: false },
        ),
{

}

/// The field `process_id` is reported as the gauge `process_id`.
pub proof fn lemma_field_process_id()
    ensures
        generic_metric_spec("process_id".spec_bytes()) == Some(
            GenericMetric { kind: Kind::Gauge, name: "process_id", description: "PID of the server process", micros: false },
        ),
{
    reveal_strlit("process_id");
    assert("process_id".spec_bytes() != "uptime_in_seconds".spec_bytes()) by { reveal_strlit("uptime_in_seconds"); lemma_texts_differ("process_id", "uptime_in_seconds"); }
}

/// The field `io_threads_active` is reported as the gauge `io_threads_active`.
pub proof fn lemma_field_io_threads_active()
    ensures
        generic_metric_spec("io_threads_active".spec_bytes()) == Some(
            GenericMetric { kind: Kind::Gauge, name: "io_threads_active", description: "Flag indicating if I/O threads are active", micros: false },
        ),
{
    reveal_strlit("io_threads_active");
    assert("io_threads_active".spec_bytes() != "uptime_in_seconds".spec_bytes()) by {
        reveal_strlit("uptime_in_seconds");
        assert("io_threads_active"@[0] != "uptime_in_seconds"@[0]);
        lemma_texts_differ("io_threads_active", "uptime_in_seconds");
    }
    assert("io_threads_active".spec_bytes() != "process_id".spec_bytes()) by { reveal_strlit("process_id"); lemma_texts_differ("io_threads_active", "process_id"); }
}

/// The field `connected_clients` is reported as the gauge `connected_clients`.
pub proof fn lemma_field_connected_clients()
    ensures
        generic_metric_spec("connected_clients".spec_bytes()) == Some(
            GenericMetric { kind: Kind::Gauge, name: "connected_clients", description: "Number of client connections (excluding connections from replicas)", micros: false },
        ),
{
    reveal_strlit("connected_clients");
    assert("connected_clients".spec_bytes() != "uptime_in_seconds".spec_bytes()) by {
        reveal_strlit("uptime_in_seconds");
        assert("connected_clients"@[0] != "uptime_in_seconds"@[0]);
        lemma_texts_differ("connected_clients", "uptime_in_seconds");
    }
    assert("connected_clients".spec_bytes() != "process_id".spec_bytes()) by { reveal_strlit("process_id"); lemma_texts_differ("connected_clients", "process_id"); }
    assert("connected_clients".spec_bytes() != "io_threads_active".spec_bytes()) by {
        reveal_strlit("io_threads_active");
        assert("connected_clients"@[0] != "io_threads_active"@[0]);
        lemma_texts_differ("connected_clients", "io_threads_active");
    }
}

/// The field `blocked_clients` is reported as the gauge `blocked_clients`.
pub proof fn lemma_field_blocked_clients()
    ensures
        generic_metric_spec("blocked_clients".spec_bytes()) == Some(
            GenericMetric { kind: Kind::Gauge, name: "blocked_clients", description: "Number of clients pending on a blocking call", micros: false },
        ),
{
    reveal_strlit("blocked_clients");
    assert("blocked_clients".spec_bytes() != "uptime_in_seconds".spec_bytes()) by { reveal_strlit("uptime_in_seconds"); lemma_texts_differ("blocked_clients", "uptime_in_seconds"); }
    assert("blocked_clients".spec_bytes() != "process_id".spec_bytes()) by { reveal_strlit("process_id"); lemma_texts_differ("blocked_clients", "process_id"); }
    assert("blocked_clients".spec_bytes() != "io_threads_active".spec_bytes()) by { reveal_strlit("io_threads_active"); lemma_texts_differ("blocked_clients", "io_threads_active"); }
    assert("blocked_clients".spec_bytes() != "connected_clients".spec_bytes()) by { reveal_strlit("connected_clients"); lemma_texts_differ("blocked_clients", "connected_clients"); }
}

/// The field `maxclients` is reported as the gauge `max_clients`.
pub proof fn lemma_field_maxclients()
    ensures
        generic_metric_spec("maxclients".spec_bytes()) == Some(
            GenericMetric { kind: Kind::Gauge, name: "max_clients", description: "The value of the maxclients configuration directive. This is the upper limit for the sum of connected_clients, connected_slaves and cluster_connections.", micros: false },
        ),
{
    reveal_strlit("maxclients");
    assert("maxclients".spec_bytes() != "uptime_in_seconds".spec_bytes()) by { reveal_strlit("uptime_in_seconds"); lemma_texts_differ("maxclients", "uptime_in_seconds"); }
    assert("maxclients".spec_bytes() != "process_id".spec_bytes()) by {
        reveal_strlit("process_id");
        assert("maxclients"@[0] != "process_id"@[0]);
        lemma_texts_differ("maxclients", "process_id");
    }
    assert("maxclients".spec_bytes() != "io_threads_active".spec_bytes()) by { reveal_strlit("io_threads_active"); lemma_texts_differ("maxclients", "io_threads_active"); }
    assert("maxclients".spec_bytes() != "connected_clients".spec_bytes()) by { reveal_strlit("connected_clients"); lemma_texts_differ("maxclients", "connected_clients"); }
    assert("maxclients".spec_bytes() != "blocked_clients".spec_bytes()) by { reveal_strlit("blocked_clients"); lemma_texts_differ("maxclients", "blocked_clients"); }
}

/// The field `tracking_clients` is reported as the gauge `tracking_clients`.
pub proof fn lemma_field_tracking_clients()
    ensures
        generic_metric_spec("tracking_clients".spec_bytes()) == Some(
            GenericMetric { kind: Kind::Gauge, name: "tracking_clients", description: "Number of clients being tracked", micros: false },
        ),
{
    reveal_strlit("tracking_clients");
    assert("tracking_clients".spec_bytes() != "uptime_in_seconds".spec_bytes()) by { reveal_strlit("uptime_in_seconds"); lemma_texts_differ("tracking_clients", "uptime_in_seconds"); }
    assert("tracking_clients".spec_bytes() != "process_id".spec_bytes()) by { reveal_strlit("process_id"); lemma_texts_differ("tracking_clients", "process_id"); }
    assert("tracking_clients".spec_bytes() != "io_threads_active".spec_bytes()) by { reveal_strlit("io_threads_active"); lemma_texts_differ("tracking_clients", "io_threads_active"); }
    assert("tracking_clients".spec_bytes() != "connected_clients".spec_bytes()) by { reveal_strlit("connected_clients"); lemma_texts_differ("tracking_clients", "connected_clients"); }
    assert("tracking_clients".spec_bytes() != "blocked_clients".spec_bytes()) by { reveal_strlit("blocked_clients"); lemma_texts_differ("tracking_clients", "blocked_clients"); }
    assert("tracking_clients".spec_bytes() != "maxclients".spec_bytes()) by { reveal_strlit("maxclients"); lemma_texts_differ("tracking_clients", "maxclients"); }
}

/// The field `clients_in_timeout_table` is reported as the gauge `clients_in_timeout_table`.
pub proof fn lemma_field_clients_in_timeout_table()
    ensures
        generic_metric_spec("clients_in_timeout_table".spec_bytes()) == Some(
            GenericMetric { kind: Kind::Gauge, name: "clients_in_timeout_table", description: "Number of clients in the clients timeout table", micros: false },
        ),
{
    reveal_strlit("clients_in_timeout_table");
    assert("clients_in_timeout_table".spec_bytes() != "uptime_in_seconds".spec_bytes()) by { reveal_strlit("uptime_in_seconds"); lemma_texts_differ("clients_in_timeout_table", "uptime_in_seconds"); }
    assert("clients_in_timeout_table".spec_bytes() != "process_id".spec_bytes()) by { reveal_strlit("process_id"); lemma_texts_differ("clients_in_timeout_table", "process_id"); }
    assert("clients_in_timeout_table".spec_bytes() != "io_threads_active".spec_bytes()) by { reveal_strlit("io_threads_active"); lemma_texts_differ("clients_in_timeout_table", "io_threads_active"); }
    assert("clients_in_timeout_table".spec_bytes() != "connected_clients".spec_bytes()) by { reveal_strlit("connected_clients"); lemma_texts_differ("clients_in_timeout_table", "connected_clients"); }
    assert("clients_in_timeout_table".spec_bytes() != "blocked_clients".spec_bytes()) by { reveal_strlit("blocked_clients"); lemma_texts_differ("clients_in_timeout_table", "blocked_clients"); }
    assert("clients_in_timeout_table".spec_bytes() != "maxclients".spec_bytes()) by { reveal_strlit("maxclients"); lemma_texts_differ("clients_in_timeout_table", "maxclients"); }
    assert("clients_in_timeout_table".spec_bytes() != "tracking_clients".spec_bytes()) by { reveal_strlit("tracking_clients"); lemma_texts_differ("clients_in_timeout_table", "tracking_clients"); }
}

/// The field `pubsub_clients` is reported as the gauge `pubsub_clients`.
pub proof fn lemma_field_pubsub_clients()
    ensures
        generic_metric_spec("pubsub_clients".spec_bytes()) == Some(
            GenericMetric { kind: Kind::Gauge, name: "pubsub_clients", description: "Number of clients in pubsub mode", micros: false },
        ),
{
    reveal_strlit("pubsub_clients");
    assert("pubsub_clients".spec_bytes() != "uptime_in_seconds".spec_bytes()) by { reveal_strlit("uptime_in_seconds"); lemma_texts_differ("pubsub_clients", "uptime_in_seconds"); }
    assert("pubsub_clients".spec_bytes() != "process_id".spec_bytes()) by { reveal_strlit("process_id"); lemma_texts_differ("pubsub_clients", "process_id"); }
    assert("pubsub_clients".spec_bytes() != "io_threads_active".spec_bytes()) by { reveal_strlit("io_threads_active"); lemma_texts_differ("pubsub_clients", "io_threads_active"); }
    assert("pubsub_clients".spec_bytes() != "connected_clients".spec_bytes()) by { reveal_strlit("connected_clients"); lemma_texts_differ("pubsub_clients", "connected_clients"); }
    assert("pubsub_clients".spec_bytes() != "blocked_clients".spec_bytes()) by { reveal_strlit("blocked_clients"); lemma_texts_differ("pubsub_clients", "blocked_clients"); }
    assert("pubsub_clients".spec_bytes() != "maxclients".spec_bytes()) by { reveal_strlit("maxclients"); lemma_texts_differ("pubsub_clients", "maxclients"); }
    assert("pubsub_clients".spec_bytes() != "tracking_clients".spec_bytes()) by { reveal_strlit("tracking_clients"); lemma_texts_differ("pubsub_clients", "tracking_clients"); }
    assert("pubsub_clients".spec_bytes() != "clients_in_timeout_table".spec_bytes()) by { reveal_strlit("clients_in_timeout_table"); lemma_texts_differ("pubsub_clients", "clients_in_timeout_table"); }
}

/// The field `watching_clients` is reported as the gauge `watching_clients`.
pub proof fn lemma_field_watching_clients()
    ensures
        generic_metric_spec("watching_clients".spec_bytes()) == Some(
            GenericMetric { kind: Kind::Gauge, name: "watching_clients", description: "Number of clients in watching mode", micros: false },
        ),
{
    reveal_strlit("watching_clients");
    assert("watching_clients".spec_bytes() != "uptime_in_seconds".spec_bytes()) by { reveal_strlit("uptime_in_seconds"); lemma_texts_differ("watching_clients", "uptime_in_seconds"); }
    assert("watching_clients".spec_bytes() != "process_id".spec_bytes()) by { reveal_strlit("process_id"); lemma_texts_differ("watching_clients", "process_id"); }
    assert("watching_clients".spec_bytes() != "io_threads_active".spec_bytes()) by { reveal_strlit("io_threads_active"); lemma_texts_differ("watching_clients", "io_threads_active"); }
    assert("watching_clients".spec_bytes() != "connected_clients".spec_bytes()) by { reveal_strlit("connected_clients"); lemma_texts_differ("watching_clients", "connected_clients"); }
    assert("watching_clients".spec_bytes() != "blocked_clients".spec_bytes()) by { reveal_strlit("blocked_clients"); lemma_texts_differ("watching_clients", "blocked_clients"); }
    assert("watching_clients".spec_bytes() != "maxclients".spec_bytes()) by { reveal_strlit("maxclients"); lemma_texts_differ("watching_clients", "maxclients"); }
    assert("watching_clients".spec_bytes() != "tracking_clients".spec_bytes()) by {
        reveal_strlit("tracking_clients");
        assert("watching_clients"@[0] != "tracking_clients"@[0]);
        lemma_texts_differ("watching_clients", "tracking_clients");
    }
    assert("watching_clients".spec_bytes() != "clients_in_timeout_table".spec_bytes()) by { reveal_strlit("clients_in_timeout_table"); lemma_texts_differ("watching_clients", "clients_in_timeout_table"); }
    assert("watching_clients".spec_bytes() != "pubsub_clients".spec_bytes()) by { reveal_strlit("pubsub_clients"); lemma_texts_differ("watching_clients", "pubsub_clients"); }
}

/// The field `total_watched_keys` is reported as the gauge `total_watched_keys`.
pub proof fn lemma_field_total_watched_keys()
    ensures
        generic_metric_spec("total_watched_keys".spec_bytes()) == Some(
            GenericMetric { kind: Kind::Gauge, name: "total_watched_keys", description: "Number of watched keys", micros: false },
        ),
{
    reveal_strlit("total_watched_keys");
    assert("total_watched_keys".spec_bytes() != "uptime_in_seconds".spec_bytes()) by { reveal_strlit("uptime_in_seconds"); lemma_texts_differ("total_watched_keys", "uptime_in_seconds"); }
    assert("total_watched_keys".spec_bytes() != "process_id".spec_bytes()) by { reveal_strlit("process_id"); lemma_texts_differ("total_watched_keys", "process_id"); }
    assert("total_watched_keys".spec_bytes() != "io_threads_active".spec_bytes()) by { reveal_strlit("io_threads_active"); lemma_texts_differ("total_watched_keys", "io_threads_active"); }
    assert("total_watched_keys".spec_bytes() != "connected_clients".spec_bytes()) by { reveal_strlit("connected_clients"); lemma_texts_differ("total_watched_keys", "connected_clients"); }
    assert("total_watched_keys".spec_bytes() != "blocked_clients".spec_bytes()) by { reveal_strlit("blocked_clients"); lemma_texts_differ("total_watched_keys", "blocked_clients"); }
    assert("total_watched_keys".spec_bytes() != "maxclients".spec_bytes()) by { reveal_strlit("maxclients"); lemma_texts_differ("total_watched_keys", "maxclients"); }
    assert("total_watched_keys".spec_bytes() != "tracking_clients".spec_bytes()) by { reveal_strlit("tracking_clients"); lemma_texts_differ("total_watched_keys", "tracking_clients"); }
    assert("total_watched_keys".spec_bytes() != "clients_in_timeout_table".spec_bytes()) by { reveal_strlit("clients_in_timeout_table"); lemma_texts_differ("total_watched_keys", "clients_in_timeout_table"); }
    assert("total_watched_keys".spec_bytes() != "pubsub_clients".spec_bytes()) by { reveal_strlit("pubsub_clients"); lemma_texts_differ("total_watched_keys", "pubsub_clients"); }
    assert("total_watched_keys".spec_bytes() != "watching_clients".spec_bytes()) by { reveal_strlit("watching_clients"); lemma_texts_differ("total_watched_keys", "watching_clients"); }
}

/// The field `total_blocking_keys` is reported as the gauge `total_blocking_keys`.
pub proof fn lemma_field_total_blocking_keys()
    ensures
        generic_metric_spec("total_blocking_keys".spec_bytes()) == Some(
            GenericMetric { kind: Kind::Gauge, name: "total_blocking_keys", description: "Number of blocking keys", micros: false },
        ),
{
    reveal_strlit("total_blocking_keys");
    assert("total_blocking_keys".spec_bytes() != "uptime_in_seconds".spec_bytes()) by { reveal_strlit("uptime_in_seconds"); lemma_texts_differ("total_blocking_keys", "uptime_in_seconds"); }
    assert("total_blocking_keys".spec_bytes() != "process_id".spec_bytes()) by { reveal_strlit("process_id"); lemma_texts_differ("total_blocking_keys", "process_id"); }
    assert("total_blocking_keys".spec_bytes() != "io_threads_active".spec_bytes()) by { reveal_strlit("io_threads_active"); lemma_texts_differ("total_blocking_keys", "io_threads_active"); }
    assert("total_blocking_keys".spec_bytes() != "connected_clients".spec_bytes()) by { reveal_strlit("connected_clients"); lemma_texts_differ("total_blocking_keys", "connected_clients"); }
    assert("total_blocking_keys".spec_bytes() != "blocked_clients".spec_bytes()) by { reveal_strlit("blocked_clients"); lemma_texts_differ("total_blocking_keys", "blocked_clients"); }
    assert("total_blocking_keys".spec_bytes() != "maxclients".spec_bytes()) by { reveal_strlit("maxclients"); lemma_texts_differ("total_blocking_keys", "maxclients"); }
    assert("total_blocking_keys".spec_bytes() != "tracking_clients".spec_bytes()) by { reveal_strlit("tracking_clients"); lemma_texts_differ("total_blocking_keys", "tracking_clients"); }
    assert("total_blocking_keys".spec_bytes() != "clients_in_timeout_table".spec_bytes()) by { reveal_strlit("clients_in_timeout_table"); lemma_texts_differ("total_blocking_keys", "clients_in_timeout_table"); }
    assert("total_blocking_keys".spec_bytes() != "pubsub_clients".spec_bytes()) by { reveal_strlit("pubsub_clients"); lemma_texts_differ("total_blocking_keys", "pubsub_clients"); }
    assert("total_blocking_keys".spec_bytes() != "watching_clients".spec_bytes()) by { reveal_strlit("watching_clients"); lemma_texts_differ("total_blocking_keys", "watching_clients"); }
    assert("total_blocking_keys".spec_bytes() != "total_watched_keys".spec_bytes()) by { reveal_strlit("total_watched_keys"); lemma_texts_differ("total_blocking_keys", "total_watched_keys"); }
}

/// The field `total_blocking_keys_on_nokey` is reported as the gauge `total_blocking_keys_on_nokey`.
pub proof fn lemma_field_total_blocking_keys_on_nokey()
    ensures
        generic_metric_spec("total_blocking_keys_on_nokey".spec_bytes()) == Some(
            GenericMetric { kind: Kind::Gauge, name: "total_blocking_keys_on_nokey", description: "Number of blocking keys that one or more clients that would like to be unblocked when the key is deleted", micros: false },
        ),
{
    reveal_strlit("total_blocking_keys_on_nokey");
    assert("total_blocking_keys_on_nokey".spec_bytes() != "uptime_in_seconds".spec_bytes()) by { reveal_strlit("uptime_in_seconds"); lemma_texts_differ("total_blocking_keys_on_nokey", "uptime_in_seconds"); }
    assert("total_blocking_keys_on_nokey".spec_bytes() != "process_id".spec_bytes()) by { reveal_strlit("process_id"); lemma_texts_differ("total_blocking_keys_on_nokey", "process_id"); }
    assert("total_blocking_keys_on_nokey".spec_bytes() != "io_threads_active".spec_bytes()) by { reveal_strlit("io_threads_active"); lemma_texts_differ("total_blocking_keys_on_nokey", "io_threads_active"); }
    assert("total_blocking_keys_on_nokey".spec_bytes() != "connected_clients".spec_bytes()) by { reveal_strlit("connected_clients"); lemma_texts_differ("total_blocking_keys_on_nokey", "connected_clients"); }
    assert("total_blocking_keys_on_nokey".spec_bytes() != "blocked_clients".spec_bytes()) by { reveal_strlit("blocked_clients"); lemma_texts_differ("total_blocking_keys_on_nokey", "blocked_clients"); }
    assert("total_blocking_keys_on_nokey".spec_bytes() != "maxclients".spec_bytes()) by { reveal_strlit("maxclients"); lemma_texts_differ("total_blocking_keys_on_nokey", "maxclients"); }
    assert("total_blocking_keys_on_nokey".spec_bytes() != "tracking_clients".spec_bytes()) by { reveal_strlit("tracking_clients"); lemma_texts_differ("total_blocking_keys_on_nokey", "tracking_clients"); }
    assert("total_blocking_keys_on_nokey".spec_bytes() != "clients_in_timeout_table".spec_bytes()) by { reveal_strlit("clients_in_timeout_table"); lemma_texts_differ("total_blocking_keys_on_nokey", "clients_in_timeout_table"); }
    assert("total_blocking_keys_on_nokey".spec_bytes() != "pubsub_clients".spec_bytes()) by { reveal_strlit("pubsub_clients"); lemma_texts_differ("total_blocking_keys_on_nokey", "pubsub_clients"); }
    assert("total_blocking_keys_on_nokey".spec_bytes() != "watching_clients".spec_bytes()) by { reveal_strlit("watching_clients"); lemma_texts_differ("total_blocking_keys_on_nokey", "watching_clients"); }
    assert("total_blocking_keys_on_nokey".spec_bytes() != "total_watched_keys".spec_bytes()) by { reveal_strlit("total_watched_keys"); lemma_texts_differ("total_blocking_keys_on_nokey", "total_watched_keys"); }
    assert("total_blocking_keys_on_nokey".spec_bytes() != "total_blocking_keys".spec_bytes()) by { reveal_strlit("total_blocking_keys"); lemma_texts_differ("total_blocking_keys_on_nokey", "total_blocking_keys"); }
}

/// The field `client_longest_output_list` is reported as the gauge `client_longest_output_list`.
pub proof fn lemma_field_client_longest_output_list()
    ensures
        generic_metric_spec("client_longest_output_list".spec_bytes()) == Some(
            GenericMetric { kind: Kind::Gauge, name: "client_longest_output_list", description: "", micros: false },
        ),
{
    reveal_strlit("client_longest_output_list");
    assert("client_longest_output_list".spec_bytes() != "uptime_in_seconds".spec_bytes()) by { reveal_strlit("uptime_in_seconds"); lemma_texts_differ("client_longest_output_list", "uptime_in_seconds"); }
    assert("client_longest_output_list".spec_bytes() != "process_id".spec_bytes()) by { reveal_strlit("process_id"); lemma_texts_differ("client_longest_output_list", "process_id"); }
    assert("client_longest_output_list".spec_bytes() != "io_threads_active".spec_bytes()) by { reveal_strlit("io_threads_active"); lemma_texts_differ("client_longest_output_list", "io_threads_active"); }
    assert("client_longest_output_list".spec_bytes() != "connected_clients".spec_bytes()) by { reveal_strlit("connected_clients"); lemma_texts_differ("client_longest_output_list", "connected_clients"); }
    assert("client_longest_output_list".spec_bytes() != "blocked_clients".spec_bytes()) by { reveal_strlit("blocked_clients"); lemma_texts_differ("client_longest_output_list", "blocked_clients"); }
    assert("client_longest_output_list".spec_bytes() != "maxclients".spec_bytes()) by { reveal_strlit("maxclients"); lemma_texts_differ("client_longest_output_list", "maxclients"); }
    assert("client_longest_output_list".spec_bytes() != "tracking_clients".spec_bytes()) by { reveal_strlit("tracking_clients"); lemma_texts_differ("client_longest_output_list", "tracking_clients"); }
    assert("client_longest_output_list".spec_bytes() != "clients_in_timeout_table".spec_bytes()) by { reveal_strlit("clients_in_timeout_table"); lemma_texts_differ("client_longest_output_list", "clients_in_timeout_table"); }
    assert("client_longest_output_list".spec_bytes() != "pubsub_clients".spec_bytes()) by { reveal_strlit("pubsub_clients"); lemma_texts_differ("client_longest_output_list", "pubsub_clients"); }
    assert("client_longest_output_list".spec_bytes() != "watching_clients".spec_bytes()) by { reveal_strlit("watching_clients"); lemma_texts_differ("client_longest_output_list", "watching_clients"); }
    assert("client_longest_output_list".spec_bytes() != "total_watched_keys".spec_bytes()) by { reveal_strlit("total_watched_keys"); lemma_texts_differ("client_longest_output_list", "total_watched_keys"); }
    assert("client_longest_output_list".spec_bytes() != "total_blocking_keys".spec_bytes()) by { reveal_strlit("total_blocking_keys"); lemma_texts_differ("client_longest_output_list", "total_blocking_keys"); }
    assert("client_longest_output_list".spec_bytes() != "total_blocking_keys_on_nokey".spec_bytes()) by { reveal_strlit("total_blocking_keys_on_nokey"); lemma_texts_differ("client_longest_output_list", "total_blocking_keys_on_nokey"); }
}

/// The field `client_biggest_input_buf` is reported as the gauge `client_biggest_input_buf`.
pub proof fn lemma_field_client_biggest_input_buf()
    ensures
        generic_metric_spec("client_biggest_input_buf".spec_bytes()) == Some(
            GenericMetric { kind: Kind::Gauge, name: "client_biggest_input_buf", description: "", micros: false },
        ),
{
    reveal_strlit("client_biggest_input_buf");
    assert("client_biggest_input_buf".spec_bytes() != "uptime_in_seconds".spec_bytes()) by { reveal_strlit("uptime_in_seconds"); lemma_texts_differ("client_biggest_input_buf", "uptime_in_seconds"); }
    assert("client_biggest_input_buf".spec_bytes() != "process_id".spec_bytes()) by { reveal_strlit("process_id"); lemma_texts_differ("client_biggest_input_buf", "process_id"); }
    assert("client_biggest_input_buf".spec_bytes() != "io_threads_active".spec_bytes()) by { reveal_strlit("io_threads_active"); lemma_texts_differ("client_biggest_input_buf", "io_threads_active"); }
    assert("client_biggest_input_buf".spec_bytes() != "connected_clients".spec_bytes()) by { reveal_strlit("connected_clients"); lemma_texts_differ("client_biggest_input_buf", "connected_clients"); }
    assert("client_biggest_input_buf".spec_bytes() != "blocked_clients".spec_bytes()) by { reveal_strlit("blocked_clients"); lemma_texts_differ("client_biggest_input_buf", "blocked_clients"); }
    assert("client_biggest_input_buf".spec_bytes() != "maxclients".spec_bytes()) by { reveal_strlit("maxclients"); lemma_texts_differ("client_biggest_input_buf", "maxclients"); }
    assert("client_biggest_input_buf".spec_bytes() != "tracking_clients".spec_bytes()) by { reveal_strlit("tracking_clients"); lemma_texts_differ("client_biggest_input_buf", "tracking_clients"); }
    assert("client_biggest_input_buf".spec_bytes() != "clients_in_timeout_table".spec_bytes()) by {
        reveal_strlit("clients_in_timeout_table");
        assert("client_biggest_input_buf"@[6] != "clients_in_timeout_table"@[6]);
        lemma_texts_differ("client_biggest_input_buf", "clients_in_timeout_table");
    }
    assert("client_biggest_input_buf".spec_bytes() != "pubsub_clients".spec_bytes()) by { reveal_strlit("pubsub_clients"); lemma_texts_differ("client_biggest_input_buf", "pubsub_clients"); }
    assert("client_biggest_input_buf".spec_bytes() != "watching_clients".spec_bytes()) by { reveal_strlit("watching_clients"); lemma_texts_differ("client_biggest_input_buf", "watching_clients"); }
    assert("client_biggest_input_buf".spec_bytes() != "total_watched_keys".spec_bytes()) by { reveal_strlit("total_watched_keys"); lemma_texts_differ("client_biggest_input_buf", "total_watched_keys"); }
    assert("client_biggest_input_buf".spec_bytes() != "total_blocking_keys".spec_bytes()) by { reveal_strlit("total_blocking_keys"); lemma_texts_differ("client_biggest_input_buf", "total_blocking_keys"); }
    assert("client_biggest_input_buf".spec_bytes() != "total_blocking_keys_on_nokey".spec_bytes()) by { reveal_strlit("total_blocking_keys_on_nokey"); lemma_texts_differ("client_biggest_input_buf", "total_blocking_keys_on_nokey"); }
    assert("client_biggest_input_buf".spec_bytes() != "client_longest_output_list".spec_bytes()) by { reveal_strlit("client_longest_output_list"); lemma_texts_differ("client_biggest_input_buf", "client_longest_output_list"); }
}

/// The field `client_recent_max_output_buffer` is reported as the gauge `client_recent_max_output_buffer_bytes`.
pub proof fn lemma_field_client_recent_max_output_buffer()
    ensures
        generic_metric_spec("client_recent_max_output_buffer".spec_bytes()) == Some(
            GenericMetric { kind: Kind::Gauge, name: "client_recent_max_output_buffer_bytes", description: "Biggest output buffer among current client connections", micros: false },
        ),
{
    reveal_strlit("client_recent_max_output_buffer");
    assert("client_recent_max_output_buffer".spec_bytes() != "uptime_in_seconds".spec_bytes()) by { reveal_strlit("uptime_in_seconds"); lemma_texts_differ("client_recent_max_output_buffer", "uptime_in_seconds"); }
    assert("client_recent_max_output_buffer".spec_bytes() != "process_id".spec_bytes()) by { reveal_strlit("process_id"); lemma_texts_differ("client_recent_max_output_buffer", "process_id"); }
    assert("client_recent_max_output_buffer".spec_bytes() != "io_threads_active".spec_bytes()) by { reveal_strlit("io_threads_active"); lemma_texts_differ("client_recent_max_output_buffer", "io_threads_active"); }
    assert("client_recent_max_output_buffer".spec_bytes() != "connected_clients".spec_bytes()) by { reveal_strlit("connected_clients"); lemma_texts_differ("client_recent_max_output_buffer", "connected_clients"); }
    assert("client_recent_max_output_buffer".spec_bytes() != "blocked_clients".spec_bytes()) by { reveal_strlit("blocked_clients"); lemma_texts_differ("client_recent_max_output_buffer", "blocked_clients"); }
    assert("client_recent_max_output_buffer".spec_bytes() != "maxclients".spec_bytes()) by { reveal_strlit("maxclients"); lemma_texts_differ("client_recent_max_output_buffer", "maxclients"); }
    assert("client_recent_max_output_buffer".spec_bytes() != "tracking_clients".spec_bytes()) by { reveal_strlit("tracking_clients"); lemma_texts_differ("client_recent_max_output_buffer", "tracking_clients"); }
    assert("client_recent_max_output_buffer".spec_bytes() != "clients_in_timeout_table".spec_bytes()) by { reveal_strlit("clients_in_timeout_table"); lemma_texts_differ("client_recent_max_output_buffer", "clients_in_timeout_table"); }
    assert("client_recent_max_output_buffer".spec_bytes() != "pubsub_clients".spec_bytes()) by { reveal_strlit("pubsub_clients"); lemma_texts_differ("client_recent_max_output_buffer", "pubsub_clients"); }
    assert("client_recent_max_output_buffer".spec_bytes() != "watching_clients".spec_bytes()) by { reveal_strlit("watching_clients"); lemma_texts_differ("client_recent_max_output_buffer", "watching_clients"); }
    assert("client_recent_max_output_buffer".spec_bytes() != "total_watched_keys".spec_bytes()) by { reveal_strlit("total_watched_keys"); lemma_texts_differ("client_recent_max_output_buffer", "total_watched_keys"); }
    assert("client_recent_max_output_buffer".spec_bytes() != "total_blocking_keys".spec_bytes()) by { reveal_strlit("total_blocking_keys"); lemma_texts_differ("client_recent_max_output_buffer", "total_blocking_keys"); }
    assert("client_recent_max_output_buffer".spec_bytes() != "total_blocking_keys_on_nokey".spec_bytes()) by { reveal_strlit("total_blocking_keys_on_nokey"); lemma_texts_differ("client_recent_max_output_buffer", "total_blocking_keys_on_nokey"); }
    assert("client_recent_max_output_buffer".spec_bytes() != "client_longest_output_list".spec_bytes()) by { reveal_strlit("client_longest_output_list"); lemma_texts_differ("client_recent_max_output_buffer", "client_longest_output_list"); }
    assert("client_recent_max_output_buffer".spec_bytes() != "client_biggest_input_buf".spec_bytes()) by { reveal_strlit("client_biggest_input_buf"); lemma_texts_differ("client_recent_max_output_buffer", "client_biggest_input_buf"); }
}

/// The field `client_recent_max_input_buffer` is reported as the gauge `client_recent_max_input_buffer_bytes`.
pub proof fn lemma_field_client_recent_max_input_buffer()
    ensures
        generic_metric_spec("client_recent_max_input_buffer".spec_bytes()) == Some(
            GenericMetric { kind: Kind::Gauge, name: "client_recent_max_input_buffer_bytes", description: "Biggest input buffer among current client connections", micros: false },
        ),
{
    reveal_strlit("client_recent_max_input_buffer");
    assert("client_recent_max_input_buffer".spec_bytes() != "uptime_in_seconds".spec_bytes()) by { reveal_strlit("uptime_in_seconds"); lemma_texts_differ("client_recent_max_input_buffer", "uptime_in_seconds"); }
    assert("client_recent_max_input_buffer".spec_bytes() != "process_id".spec_bytes()) by { reveal_strlit("process_id"); lemma_texts_differ("client_recent_max_input_buffer", "process_id"); }
    assert("client_recent_max_input_buffer".spec_bytes() != "io_threads_active".spec_bytes()) by { reveal_strlit("io_threads_active"); lemma_texts_differ("client_recent_max_input_buffer", "io_threads_active"); }
    assert("client_recent_max_input_buffer".spec_bytes() != "connected_clients".spec_bytes()) by { reveal_strlit("connected_clients"); lemma_texts_differ("client_recent_max_input_buffer", "connected_clients"); }
    assert("client_recent_max_input_buffer".spec_bytes() != "blocked_clients".spec_bytes()) by { reveal_strlit("blocked_clients"); lemma_texts_differ("client_recent_max_input_buffer", "blocked_clients"); }
    assert("client_recent_max_input_buffer".spec_bytes() != "maxclients".spec_bytes()) by { reveal_strlit("maxclients"); lemma_texts_differ("client_recent_max_input_buffer", "maxclients"); }
    assert("client_recent_max_input_buffer".spec_bytes() != "tracking_clients".spec_bytes()) by { reveal_strlit("tracking_clients"); lemma_texts_differ("client_recent_max_input_buffer", "tracking_clients"); }
    assert("client_recent_max_input_buffer".spec_bytes() != "clients_in_timeout_table".spec_bytes()) by { reveal_strlit("clients_in_timeout_table"); lemma_texts_differ("client_recent_max_input_buffer", "clients_in_timeout_table"); }
    assert("client_recent_max_input_buffer".spec_bytes() != "pubsub_clients".spec_bytes()) by { reveal_strlit("pubsub_clients"); lemma_texts_differ("client_recent_max_input_buffer", "pubsub_clients"); }
    assert("client_recent_max_input_buffer".spec_bytes() != "watching_clients".spec_bytes()) by { reveal_strlit("watching_clients"); lemma_texts_differ("client_recent_max_input_buffer", "watching_clients"); }
    assert("client_recent_max_input_buffer".spec_bytes() != "total_watched_keys".spec_bytes()) by { reveal_strlit("total_watched_keys"); lemma_texts_differ("client_recent_max_input_buffer", "total_watched_keys"); }
    assert("client_recent_max_input_buffer".spec_bytes() != "total_blocking_keys".spec_bytes()) by { reveal_strlit("total_blocking_keys"); lemma_texts_differ("client_recent_max_input_buffer", "total_blocking_keys"); }
    assert("client_recent_max_input_buffer".spec_bytes() != "total_blocking_keys_on_nokey".spec_bytes()) by { reveal_strlit("total_blocking_keys_on_nokey"); lemma_texts_differ("client_recent_max_input_buffer", "total_blocking_keys_on_nokey"); }
    assert("client_recent_max_input_buffer".spec_bytes() != "client_longest_output_list".spec_bytes()) by { reveal_strlit("client_longest_output_list"); lemma_texts_differ("client_recent_max_input_buffer", "client_longest_output_list"); }
    assert("client_recent_max_input_buffer".spec_bytes() != "client_biggest_input_buf".spec_bytes()) by { reveal_strlit("client_biggest_input_buf"); lemma_texts_differ("client_recent_max_input_buffer", "client_biggest_input_buf"); }
    assert("client_recent_max_input_buffer".spec_bytes() != "client_recent_max_output_buffer".spec_bytes()) by { reveal_strlit("client_recent_max_output_buffer"); lemma_texts_differ("client_recent_max_input_buffer", "client_recent_max_output_buffer"); }
}

/// The field `allocator_active` is reported as the gauge `allocator_active_bytes`.
pub proof fn lemma_field_allocator_active()
    ensures
        generic_metric_spec("allocator_active".spec_bytes()) == Some(
            GenericMetric { kind: Kind::Gauge, name: "allocator_active_bytes", description: "Total bytes in the allocator active pages, this includes external-fragmentation", micros: false },
        ),
{
    reveal_strlit("allocator_active");
    assert("allocator_active".spec_bytes() != "uptime_in_seconds".spec_bytes()) by { reveal_strlit("uptime_in_seconds"); lemma_texts_differ("allocator_active", "uptime_in_seconds"); }
    assert("allocator_active".spec_bytes() != "process_id".spec_bytes()) by { reveal_strlit("process_id"); lemma_texts_differ("allocator_active", "process_id"); }
    assert("allocator_active".spec_bytes() != "io_threads_active".spec_bytes()) by { reveal_strlit("io_threads_active"); lemma_texts_differ("allocator_active", "io_threads_active"); }
    assert("allocator_active".spec_bytes() != "connected_clients".spec_bytes()) by { reveal_strlit("connected_clients"); lemma_texts_differ("allocator_active", "connected_clients"); }
    assert("allocator_active".spec_bytes() != "blocked_clients".spec_bytes()) by { reveal_strlit("blocked_clients"); lemma_texts_differ("allocator_active", "blocked_clients"); }
    assert("allocator_active".spec_bytes() != "maxclients".spec_bytes()) by { reveal_strlit("maxclients"); lemma_texts_differ("allocator_active", "maxclients"); }
    assert("allocator_active".spec_bytes() != "tracking_clients".spec_bytes()) by {
        reveal_strlit("tracking_clients");
        assert("allocator_active"@[0] != "tracking_clients"@[0]);
        lemma_texts_differ("allocator_active", "tracking_clients");
    }
    assert("allocator_active".spec_bytes() != "clients_in_timeout_table".spec_bytes()) by { reveal_strlit("clients_in_timeout_table"); lemma_texts_differ("allocator_active", "clients_in_timeout_table"); }
    assert("allocator_active".spec_bytes() != "pubsub_clients".spec_bytes()) by { reveal_strlit("pubsub_clients"); lemma_texts_differ("allocator_active", "pubsub_clients"); }
    assert("allocator_active".spec_bytes() != "watching_clients".spec_bytes()) by {
        reveal_strlit("watching_clients");
        assert("allocator_active"@[0] != "watching_clients"@[0]);
        lemma_texts_differ("allocator_active", "watching_clients");
    }
    assert("allocator_active".spec_bytes() != "total_watched_keys".spec_bytes()) by { reveal_strlit("total_watched_keys"); lemma_texts_differ("allocator_active", "total_watched_keys"); }
    assert("allocator_active".spec_bytes() != "total_blocking_keys".spec_bytes()) by { reveal_strlit("total_blocking_keys"); lemma_texts_differ("allocator_active", "total_blocking_keys"); }
    assert("allocator_active".spec_bytes() != "total_blocking_keys_on_nokey".spec_bytes()) by { reveal_strlit("total_blocking_keys_on_nokey"); lemma_texts_differ("allocator_active", "total_blocking_keys_on_nokey"); }
    assert("allocator_active".spec_bytes() != "client_longest_output_list".spec_bytes()) by { reveal_strlit("client_longest_output_list"); lemma_texts_differ("allocator_active", "client_longest_output_list"); }
    assert("allocator_active".spec_bytes() != "client_biggest_input_buf".spec_bytes()) by { reveal_strlit("client_biggest_input_buf"); lemma_texts_differ("allocator_active", "client_biggest_input_buf"); }
    assert("allocator_active".spec_bytes() != "client_recent_max_output_buffer".spec_bytes()) by { reveal_strlit("client_recent_max_output_buffer"); lemma_texts_differ("allocator_active", "client_recent_max_output_buffer"); }
    assert("allocator_active".spec_bytes() != "client_recent_max_input_buffer".spec_bytes()) by { reveal_strlit("client_recent_max_input_buffer"); lemma_texts_differ("allocator_active", "client_recent_max_input_buffer"); }
}

/// The field `allocator_allocated` is reported as the gauge `allocator_allocated_bytes`.
pub proof fn lemma_field_allocator_allocated()
    ensures
        generic_metric_spec("allocator_allocated".spec_bytes()) == Some(
            GenericMetric { kind: Kind::Gauge, name: "allocator_allocated_bytes", description: "Total bytes allocated form the allocator, including internal-fragmentation. Normally the same as used_memory", micros: false },
        ),
{
    reveal_strlit("allocator_allocated");
    assert("allocator_allocated".spec_bytes() != "uptime_in_seconds".spec_bytes()) by { reveal_strlit("uptime_in_seconds"); lemma_texts_differ("allocator_allocated", "uptime_in_seconds"); }
    assert("allocator_allocated".spec_bytes() != "process_id".spec_bytes()) by { reveal_strlit("process_id"); lemma_texts_differ("allocator_allocated", "process_id"); }
    assert("allocator_allocated".spec_bytes() != "io_threads_active".spec_bytes()) by { reveal_strlit("io_threads_active"); lemma_texts_differ("allocator_allocated", "io_threads_active"); }
    assert("allocator_allocated".spec_bytes() != "connected_clients".spec_bytes()) by { reveal_strlit("connected_clients"); lemma_texts_differ("allocator_allocated", "connected_clients"); }
    assert("allocator_allocated".spec_bytes() != "blocked_clients".spec_bytes()) by { reveal_strlit("blocked_clients"); lemma_texts_differ("allocator_allocated", "blocked_clients"); }
    assert("allocator_allocated".spec_bytes() != "maxclients".spec_bytes()) by { reveal_strlit("maxclients"); lemma_texts_differ("allocator_allocated", "maxclients"); }
    assert("allocator_allocated".spec_bytes() != "tracking_clients".spec_bytes()) by { reveal_strlit("tracking_clients"); lemma_texts_differ("allocator_allocated", "tracking_clients"); }
    assert("allocator_allocated".spec_bytes() != "clients_in_timeout_table".spec_bytes()) by { reveal_strlit("clients_in_timeout_table"); lemma_texts_differ("allocator_allocated", "clients_in_timeout_table"); }
    assert("allocator_allocated".spec_bytes() != "pubsub_clients".spec_bytes()) by { reveal_strlit("pubsub_clients"); lemma_texts_differ("allocator_allocated", "pubsub_clients"); }
    assert("allocator_allocated".spec_bytes() != "watching_clients".spec_bytes()) by { reveal_strlit("watching_clients"); lemma_texts_differ("allocator_allocated", "watching_clients"); }
    assert("allocator_allocated".spec_bytes() != "total_watched_keys".spec_bytes()) by { reveal_strlit("total_watched_keys"); lemma_texts_differ("allocator_allocated", "total_watched_keys"); }
    assert("allocator_allocated".spec_bytes() != "total_blocking_keys".spec_bytes()) by {
        reveal_strlit("total_blocking_keys");
        assert("allocator_allocated"@[0] != "total_blocking_keys"@[0]);
        lemma_texts_differ("allocator_allocated", "total_blocking_keys");
    }
    assert("allocator_allocated".spec_bytes() != "total_blocking_keys_on_nokey".spec_bytes()) by { reveal_strlit("total_blocking_keys_on_nokey"); lemma_texts_differ("allocator_allocated", "total_blocking_keys_on_nokey"); }
    assert("allocator_allocated".spec_bytes() != "client_longest_output_list".spec_bytes()) by { reveal_strlit("client_longest_output_list"); lemma_texts_differ("allocator_allocated", "client_longest_output_list"); }
    assert("allocator_allocated".spec_bytes() != "client_biggest_input_buf".spec_bytes()) by { reveal_strlit("client_biggest_input_buf"); lemma_texts_differ("allocator_allocated", "client_biggest_input_buf"); }
    assert("allocator_allocated".spec_bytes() != "client_recent_max_output_buffer".spec_bytes()) by { reveal_strlit("client_recent_max_output_buffer"); lemma_texts_differ("allocator_allocated", "client_recent_max_output_buffer"); }
    assert("allocator_allocated".spec_bytes() != "client_recent_max_input_buffer".spec_bytes()) by { reveal_strlit("client_recent_max_input_buffer"); lemma_texts_differ("allocator_allocated", "client_recent_max_input_buffer"); }
    assert("allocator_allocated".spec_bytes() != "allocator_active".spec_bytes()) by { reveal_strlit("allocator_active"); lemma_texts_differ("allocator_allocated", "allocator_active"); }
}

/// The field `allocator_resident` is reported as the gauge `allocator_resident_bytes`.
pub proof fn lemma_field_allocator_resident()
    ensures
        generic_metric_spec("allocator_resident".spec_bytes()) == Some(
            GenericMetric { kind: Kind::Gauge, name: "allocator_resident_bytes", description: "Total bytes resident (RSS) in the allocator, this includes pages that can be released to the OS (by MEMORY PURGE, or just waiting)", micros: false },
        ),
{
    reveal_strlit("allocator_resident");
    assert("allocator_resident".spec_bytes() != "uptime_in_seconds".spec_bytes()) by { reveal_strlit("uptime_in_seconds"); lemma_texts_differ("allocator_resident", "uptime_in_seconds"); }
    assert("allocator_resident".spec_bytes() != "process_id".spec_bytes()) by { reveal_strlit("process_id"); lemma_texts_differ("allocator_resident", "process_id"); }
    assert("allocator_resident".spec_bytes() != "io_threads_active".spec_bytes()) by { reveal_strlit("io_threads_active"); lemma_texts_differ("allocator_resident", "io_threads_active"); }
    assert("allocator_resident".spec_bytes() != "connected_clients".spec_bytes()) by { reveal_strlit("connected_clients"); lemma_texts_differ("allocator_resident", "connected_clients"); }
    assert("allocator_resident".spec_bytes() != "blocked_clients".spec_bytes()) by { reveal_strlit("blocked_clients"); lemma_texts_differ("allocator_resident", "blocked_clients"); }
    assert("allocator_resident".spec_bytes() != "maxclients".spec_bytes()) by { reveal_strlit("maxclients"); lemma_texts_differ("allocator_resident", "maxclients"); }
    assert("allocator_resident".spec_bytes() != "tracking_clients".spec_bytes()) by { reveal_strlit("tracking_clients"); lemma_texts_differ("allocator_resident", "tracking_clients"); }
    assert("allocator_resident".spec_bytes() != "clients_in_timeout_table".spec_bytes()) by { reveal_strlit("clients_in_timeout_table"); lemma_texts_differ("allocator_resident", "clients_in_timeout_table"); }
    assert("allocator_resident".spec_bytes() != "pubsub_clients".spec_bytes()) by { reveal_strlit("pubsub_clients"); lemma_texts_differ("allocator_resident", "pubsub_clients"); }
    assert("allocator_resident".spec_bytes() != "watching_clients".spec_bytes()) by { reveal_strlit("watching_clients"); lemma_texts_differ("allocator_resident", "watching_clients"); }
    assert("allocator_resident".spec_bytes() != "total_watched_keys".spec_bytes()) by {
        reveal_strlit("total_watched_keys");
        assert("allocator_resident"@[0] != "total_watched_keys"@[0]);
        lemma_texts_differ("allocator_resident", "total_watched_keys");
    }
    assert("allocator_resident".spec_bytes() != "total_blocking_keys".spec_bytes()) by { reveal_strlit("total_blocking_keys"); lemma_texts_differ("allocator_resident", "total_blocking_keys"); }
    assert("allocator_resident".spec_bytes() != "total_blocking_keys_on_nokey".spec_bytes()) by { reveal_strlit("total_blocking_keys_on_nokey"); lemma_texts_differ("allocator_resident", "total_blocking_keys_on_nokey"); }
    assert("allocator_resident".spec_bytes() != "client_longest_output_list".spec_bytes()) by { reveal_strlit("client_longest_output_list"); lemma_texts_differ("allocator_resident", "client_longest_output_list"); }
    assert("allocator_resident".spec_bytes() != "client_biggest_input_buf".spec_bytes()) by { reveal_strlit("client_biggest_input_buf"); lemma_texts_differ("allocator_resident", "client_biggest_input_buf"); }
    assert("allocator_resident".spec_bytes() != "client_recent_max_output_buffer".spec_bytes()) by { reveal_strlit("client_recent_max_output_buffer"); lemma_texts_differ("allocator_resident", "client_recent_max_output_buffer"); }
    assert("allocator_resident".spec_bytes() != "client_recent_max_input_buffer".spec_bytes()) by { reveal_strlit("client_recent_max_input_buffer"); lemma_texts_differ("allocator_resident", "client_recent_max_input_buffer"); }
    assert("allocator_resident".spec_bytes() != "allocator_active".spec_bytes()) by { reveal_strlit("allocator_active"); lemma_texts_differ("allocator_resident", "allocator_active"); }
    assert("allocator_resident".spec_bytes() != "allocator_allocated".spec_bytes()) by { reveal_strlit("allocator_allocated"); lemma_texts_differ("allocator_resident", "allocator_allocated"); }
}

/// The field `allocator_frag_ratio` is reported as the gauge `allocator_frag_ratio`.
pub proof fn lemma_field_allocator_frag_ratio()
    ensures
        generic_metric_spec("allocator_frag_ratio".spec_bytes()) == Some(
            GenericMetric { kind: Kind::Gauge, name: "allocator_frag_ratio", description: "Ratio between allocator_active and allocator_allocated. This is the true (external) fragmentation metric (not mem_fragmentation_ratio)", micros: false },
        ),
{
    reveal_strlit("allocator_frag_ratio");
    assert("allocator_frag_ratio".spec_bytes() != "uptime_in_seconds".spec_bytes()) by { reveal_strlit("uptime_in_seconds"); lemma_texts_differ("allocator_frag_ratio", "uptime_in_seconds"); }
    assert("allocator_frag_ratio".spec_bytes() != "process_id".spec_bytes()) by { reveal_strlit("process_id"); lemma_texts_differ("allocator_frag_ratio", "process_id"); }
    assert("allocator_frag_ratio".spec_bytes() != "io_threads_active".spec_bytes()) by { reveal_strlit("io_threads_active"); lemma_texts_differ("allocator_frag_ratio", "io_threads_active"); }
    assert("allocator_frag_ratio".spec_bytes() != "connected_clients".spec_bytes()) by { reveal_strlit("connected_clients"); lemma_texts_differ("allocator_frag_ratio", "connected_clients"); }
    assert("allocator_frag_ratio".spec_bytes() != "blocked_clients".spec_bytes()) by { reveal_strlit("blocked_clients"); lemma_texts_differ("allocator_frag_ratio", "blocked_clients"); }
    assert("allocator_frag_ratio".spec_bytes() != "maxclients".spec_bytes()) by { reveal_strlit("maxclients"); lemma_texts_differ("allocator_frag_ratio", "maxclients"); }
    assert("allocator_frag_ratio".spec_bytes() != "tracking_clients".spec_bytes()) by { reveal_strlit("tracking_clients"); lemma_texts_differ("allocator_frag_ratio", "tracking_clients"); }
    assert("allocator_frag_ratio".spec_bytes() != "clients_in_timeout_table".spec_bytes()) by { reveal_strlit("clients_in_timeout_table"); lemma_texts_differ("allocator_frag_ratio", "clients_in_timeout_table"); }
    assert("allocator_frag_ratio".spec_bytes() != "pubsub_clients".spec_bytes()) by { reveal_strlit("pubsub_clients"); lemma_texts_differ("allocator_frag_ratio", "pubsub_clients"); }
    assert("allocator_frag_ratio".spec_bytes() != "watching_clients".spec_bytes()) by { reveal_strlit("watching_clients"); lemma_texts_differ("allocator_frag_ratio", "watching_clients"); }
    assert("allocator_frag_ratio".spec_bytes() != "total_watched_keys".spec_bytes()) by { reveal_strlit("total_watched_keys"); lemma_texts_differ("allocator_frag_ratio", "total_watched_keys"); }
    assert("allocator_frag_ratio".spec_bytes() != "total_blocking_keys".spec_bytes()) by { reveal_strlit("total_blocking_keys"); lemma_texts_differ("allocator_frag_ratio", "total_blocking_keys"); }
    assert("allocator_frag_ratio".spec_bytes() != "total_blocking_keys_on_nokey".spec_bytes()) by { reveal_strlit("total_blocking_keys_on_nokey"); lemma_texts_differ("allocator_frag_ratio", "total_blocking_keys_on_nokey"); }
    assert("allocator_frag_ratio".spec_bytes() != "client_longest_output_list".spec_bytes()) by { reveal_strlit("client_longest_output_list"); lemma_texts_differ("allocator_frag_ratio", "client_longest_output_list"); }
    assert("allocator_frag_ratio".spec_bytes() != "client_biggest_input_buf".spec_bytes()) by { reveal_strlit("client_biggest_input_buf"); lemma_texts_differ("allocator_frag_ratio", "client_biggest_input_buf"); }
    assert("allocator_frag_ratio".spec_bytes() != "client_recent_max_output_buffer".spec_bytes()) by { reveal_strlit("client_recent_max_output_buffer"); lemma_texts_differ("allocator_frag_ratio", "client_recent_max_output_buffer"); }
    assert("allocator_frag_ratio".spec_bytes() != "client_recent_max_input_buffer".spec_bytes()) by { reveal_strlit("client_recent_max_input_buffer"); lemma_texts_differ("allocator_frag_ratio", "client_recent_max_input_buffer"); }
    assert("allocator_frag_ratio".spec_bytes() != "allocator_active".spec_bytes()) by { reveal_strlit("allocator_active"); lemma_texts_differ("allocator_frag_ratio", "allocator_active"); }
    assert("allocator_frag_ratio".spec_bytes() != "allocator_allocated".spec_bytes()) by { reveal_strlit("allocator_allocated"); lemma_texts_differ("allocator_frag_ratio", "allocator_allocated"); }
    assert("allocator_frag_ratio".spec_bytes() != "allocator_resident".spec_bytes()) by { reveal_strlit("allocator_resident"); lemma_texts_differ("allocator_frag_ratio", "allocator_resident"); }
}

/// The field `allocator_frag_bytes` is reported as the gauge `allocator_frag_bytes`.
pub proof fn lemma_field_allocator_frag_bytes()
    ensures
        generic_metric_spec("allocator_frag_bytes".spec_bytes()) == Some(
            GenericMetric { kind: Kind::Gauge, name: "allocator_frag_bytes", description: "Delta between allocator_active and allocator_allocated", micros: false },
        ),
{
    reveal_strlit("allocator_frag_bytes");
    assert("allocator_frag_bytes".spec_bytes() != "uptime_in_seconds".spec_bytes()) by { reveal_strlit("uptime_in_seconds"); lemma_texts_differ("allocator_frag_bytes", "uptime_in_seconds"); }
    assert("allocator_frag_bytes".spec_bytes() != "process_id".spec_bytes()) by { reveal_strlit("process_id"); lemma_texts_differ("allocator_frag_bytes", "process_id"); }
    assert("allocator_frag_bytes".spec_bytes() != "io_threads_active".spec_bytes()) by { reveal_strlit("io_threads_active"); lemma_texts_differ("allocator_frag_bytes", "io_threads_active"); }
    assert("allocator_frag_bytes".spec_bytes() != "connected_clients".spec_bytes()) by { reveal_strlit("connected_clients"); lemma_texts_differ("allocator_frag_bytes", "connected_clients"); }
    assert("allocator_frag_bytes".spec_bytes() != "blocked_clients".spec_bytes()) by { reveal_strlit("blocked_clients"); lemma_texts_differ("allocator_frag_bytes", "blocked_clients"); }
    assert("allocator_frag_bytes".spec_bytes() != "maxclients".spec_bytes()) by { reveal_strlit("maxclients"); lemma_texts_differ("allocator_frag_bytes", "maxclients"); }
    assert("allocator_frag_bytes".spec_bytes() != "tracking_clients".spec_bytes()) by { reveal_strlit("tracking_clients"); lemma_texts_differ("allocator_frag_bytes", "tracking_clients"); }
    assert("allocator_frag_bytes".spec_bytes() != "clients_in_timeout_table".spec_bytes()) by { reveal_strlit("clients_in_timeout_table"); lemma_texts_differ("allocator_frag_bytes", "clients_in_timeout_table"); }
    assert("allocator_frag_bytes".spec_bytes() != "pubsub_clients".spec_bytes()) by { reveal_strlit("pubsub_clients"); lemma_texts_differ("allocator_frag_bytes", "pubsub_clients"); }
    assert("allocator_frag_bytes".spec_bytes() != "watching_clients".spec_bytes()) by { reveal_strlit("watching_clients"); lemma_texts_differ("allocator_frag_bytes", "watching_clients"); }
    assert("allocator_frag_bytes".spec_bytes() != "total_watched_keys".spec_bytes()) by { reveal_strlit("total_watched_keys"); lemma_texts_differ("allocator_frag_bytes", "total_watched_keys"); }
    assert("allocator_frag_bytes".spec_bytes() != "total_blocking_keys".spec_bytes()) by { reveal_strlit("total_blocking_keys"); lemma_texts_differ("allocator_frag_bytes", "total_blocking_keys"); }
    assert("allocator_frag_bytes".spec_bytes() != "total_blocking_keys_on_nokey".spec_bytes()) by { reveal_strlit("total_blocking_keys_on_nokey"); lemma_texts_differ("allocator_frag_bytes", "total_blocking_keys_on_nokey"); }
    assert("allocator_frag_bytes".spec_bytes() != "client_longest_output_list".spec_bytes()) by { reveal_strlit("client_longest_output_list"); lemma_texts_differ("allocator_frag_bytes", "client_longest_output_list"); }
    assert("allocator_frag_bytes".spec_bytes() != "client_biggest_input_buf".spec_bytes()) by { reveal_strlit("client_biggest_input_buf"); lemma_texts_differ("allocator_frag_bytes", "client_biggest_input_buf"); }
    assert("allocator_frag_bytes".spec_bytes() != "client_recent_max_output_buffer".spec_bytes()) by { reveal_strlit("client_recent_max_output_buffer"); lemma_texts_differ("allocator_frag_bytes", "client_recent_max_output_buffer"); }
    assert("allocator_frag_bytes".spec_bytes() != "client_recent_max_input_buffer".spec_bytes()) by { reveal_strlit("client_recent_max_input_buffer"); lemma_texts_differ("allocator_frag_bytes", "client_recent_max_input_buffer"); }
    assert("allocator_frag_bytes".spec_bytes() != "allocator_active".spec_bytes()) by { reveal_strlit("allocator_active"); lemma_texts_differ("allocator_frag_bytes", "allocator_active"); }
    assert("allocator_frag_bytes".spec_bytes() != "allocator_allocated".spec_bytes()) by { reveal_strlit("allocator_allocated"); lemma_texts_differ("allocator_frag_bytes", "allocator_allocated"); }
    assert("allocator_frag_bytes".spec_bytes() != "allocator_resident".spec_bytes()) by { reveal_strlit("allocator_resident"); lemma_texts_differ("allocator_frag_bytes", "allocator_resident"); }
    assert("allocator_frag_bytes".spec_bytes() != "allocator_frag_ratio".spec_bytes()) by {
        reveal_strlit("allocator_frag_ratio");
        assert("allocator_frag_bytes"@[15] != "allocator_frag_ratio"@[15]);
        lemma_texts_differ("allocator_frag_bytes", "allocator_frag_ratio");
    }
}

/// The field `allocator_muzzy` is reported as the gauge `allocator_muzzy_bytes`.
pub proof fn lemma_field_allocator_muzzy()
    ensures
        generic_metric_spec("allocator_muzzy".spec_bytes()) == Some(
            GenericMetric { kind: Kind::Gauge, name: "allocator_muzzy_bytes", description: "Total bytes of 'muzzy' memory (RSS) in the allocator. Muzzy memory is memory that has been freed, but not yet fully returned to the operating system. It can be reused immediately when needed or reclaimed by the OS when system pressure increases.", micros: false },
        ),
{
    reveal_strlit("allocator_muzzy");
    assert("allocator_muzzy".spec_bytes() != "uptime_in_seconds".spec_bytes()) by { reveal_strlit("uptime_in_seconds"); lemma_texts_differ("allocator_muzzy", "uptime_in_seconds"); }
    assert("allocator_muzzy".spec_bytes() != "process_id".spec_bytes()) by { reveal_strlit("process_id"); lemma_texts_differ("allocator_muzzy", "process_id"); }
    assert("allocator_muzzy".spec_bytes() != "io_threads_active".spec_bytes()) by { reveal_strlit("io_threads_active"); lemma_texts_differ("allocator_muzzy", "io_threads_active"); }
    assert("allocator_muzzy".spec_bytes() != "connected_clients".spec_bytes()) by { reveal_strlit("connected_clients"); lemma_texts_differ("allocator_muzzy", "connected_clients"); }
    assert("allocator_muzzy".spec_bytes() != "blocked_clients".spec_bytes()) by {
        reveal_strlit("blocked_clients");
        assert("allocator_muzzy"@[0] != "blocked_clients"@[0]);
        lemma_texts_differ("allocator_muzzy", "blocked_clients");
    }
    assert("allocator_muzzy".spec_bytes() != "maxclients".spec_bytes()) by { reveal_strlit("maxclients"); lemma_texts_differ("allocator_muzzy", "maxclients"); }
    assert("allocator_muzzy".spec_bytes() != "tracking_clients".spec_bytes()) by { reveal_strlit("tracking_clients"); lemma_texts_differ("allocator_muzzy", "tracking_clients"); }
    assert("allocator_muzzy".spec_bytes() != "clients_in_timeout_table".spec_bytes()) by { reveal_strlit("clients_in_timeout_table"); lemma_texts_differ("allocator_muzzy", "clients_in_timeout_table"); }
    assert("allocator_muzzy".spec_bytes() != "pubsub_clients".spec_bytes()) by { reveal_strlit("pubsub_clients"); lemma_texts_differ("allocator_muzzy", "pubsub_clients"); }
    assert("allocator_muzzy".spec_bytes() != "watching_clients".spec_bytes()) by { reveal_strlit("watching_clients"); lemma_texts_differ("allocator_muzzy", "watching_clients"); }
    assert("allocator_muzzy".spec_bytes() != "total_watched_keys".spec_bytes()) by { reveal_strlit("total_watched_keys"); lemma_texts_differ("allocator_muzzy", "total_watched_keys"); }
    assert("allocator_muzzy".spec_bytes() != "total_blocking_keys".spec_bytes()) by { reveal_strlit("total_blocking_keys"); lemma_texts_differ("allocator_muzzy", "total_blocking_keys"); }
    assert("allocator_muzzy".spec_bytes() != "total_blocking_keys_on_nokey".spec_bytes()) by { reveal_strlit("total_blocking_keys_on_nokey"); lemma_texts_differ("allocator_muzzy", "total_blocking_keys_on_nokey"); }
    assert("allocator_muzzy".spec_bytes() != "client_longest_output_list".spec_bytes()) by { reveal_strlit("client_longest_output_list"); lemma_texts_differ("allocator_muzzy", "client_longest_output_list"); }
    assert("allocator_muzzy".spec_bytes() != "client_biggest_input_buf".spec_bytes()) by { reveal_strlit("client_biggest_input_buf"); lemma_texts_differ("allocator_muzzy", "client_biggest_input_buf"); }
    assert("allocator_muzzy".spec_bytes() != "client_recent_max_output_buffer".spec_bytes()) by { reveal_strlit("client_recent_max_output_buffer"); lemma_texts_differ("allocator_muzzy", "client_recent_max_output_buffer"); }
    assert("allocator_muzzy".spec_bytes() != "client_recent_max_input_buffer".spec_bytes()) by { reveal_strlit("client_recent_max_input_buffer"); lemma_texts_differ("allocator_muzzy", "client_recent_max_input_buffer"); }
    assert("allocator_muzzy".spec_bytes() != "allocator_active".spec_bytes()) by { reveal_strlit("allocator_active"); lemma_texts_differ("allocator_muzzy", "allocator_active"); }
    assert("allocator_muzzy".spec_bytes() != "allocator_allocated".spec_bytes()) by { reveal_strlit("allocator_allocated"); lemma_texts_differ("allocator_muzzy", "allocator_allocated"); }
    assert("allocator_muzzy".spec_bytes() != "allocator_resident".spec_bytes()) by { reveal_strlit("allocator_resident"); lemma_texts_differ("allocator_muzzy", "allocator_resident"); }
    assert("allocator_muzzy".spec_bytes() != "allocator_frag_ratio".spec_bytes()) by { reveal_strlit("allocator_frag_ratio"); lemma_texts_differ("allocator_muzzy", "allocator_frag_ratio"); }
    assert("allocator_muzzy".spec_bytes() != "allocator_frag_bytes".spec_bytes()) by { reveal_strlit("allocator_frag_bytes"); lemma_texts_differ("allocator_muzzy", "allocator_frag_bytes"); }
}

/// The field `allocator_rss_ratio` is reported as the gauge `allocator_rss_ratio`.
pub proof fn lemma_field_allocator_rss_ratio()
    ensures
        generic_metric_spec("allocator_rss_ratio".spec_bytes()) == Some(
            GenericMetric { kind: Kind::Gauge, name: "allocator_rss_ratio", description: "Ratio between allocator_resident and allocator_active. This usually indicates pages that the allocator can and probably will soon release back to the OS", micros: false },
        ),
{
    reveal_strlit("allocator_rss_ratio");
    assert("allocator_rss_ratio".spec_bytes() != "uptime_in_seconds".spec_bytes()) by { reveal_strlit("uptime_in_seconds"); lemma_texts_differ("allocator_rss_ratio", "uptime_in_seconds"); }
    assert("allocator_rss_ratio".spec_bytes() != "process_id".spec_bytes()) by { reveal_strlit("process_id"); lemma_texts_differ("allocator_rss_ratio", "process_id"); }
    assert("allocator_rss_ratio".spec_bytes() != "io_threads_active".spec_bytes()) by { reveal_strlit("io_threads_active"); lemma_texts_differ("allocator_rss_ratio", "io_threads_active"); }
    assert("allocator_rss_ratio".spec_bytes() != "connected_clients".spec_bytes()) by { reveal_strlit("connected_clients"); lemma_texts_differ("allocator_rss_ratio", "connected_clients"); }
    assert("allocator_rss_ratio".spec_bytes() != "blocked_clients".spec_bytes()) by { reveal_strlit("blocked_clients"); lemma_texts_differ("allocator_rss_ratio", "blocked_clients"); }
    assert("allocator_rss_ratio".spec_bytes() != "maxclients".spec_bytes()) by { reveal_strlit("maxclients"); lemma_texts_differ("allocator_rss_ratio", "maxclients"); }
    assert("allocator_rss_ratio".spec_bytes() != "tracking_clients".spec_bytes()) by { reveal_strlit("tracking_clients"); lemma_texts_differ("allocator_rss_ratio", "tracking_clients"); }
    assert("allocator_rss_ratio".spec_bytes() != "clients_in_timeout_table".spec_bytes()) by { reveal_strlit("clients_in_timeout_table"); lemma_texts_differ("allocator_rss_ratio", "clients_in_timeout_table"); }
    assert("allocator_rss_ratio".spec_bytes() != "pubsub_clients".spec_bytes()) by { reveal_strlit("pubsub_clients"); lemma_texts_differ("allocator_rss_ratio", "pubsub_clients"); }
    assert("allocator_rss_ratio".spec_bytes() != "watching_clients".spec_bytes()) by { reveal_strlit("watching_clients"); lemma_texts_differ("allocator_rss_ratio", "watching_clients"); }
    assert("allocator_rss_ratio".spec_bytes() != "total_watched_keys".spec_bytes()) by { reveal_strlit("total_watched_keys"); lemma_texts_differ("allocator_rss_ratio", "total_watched_keys"); }
    assert("allocator_rss_ratio".spec_bytes() != "total_blocking_keys".spec_bytes()) by {
        reveal_strlit("total_blocking_keys");
        assert("allocator_rss_ratio"@[0] != "total_blocking_keys"@[0]);
        lemma_texts_differ("allocator_rss_ratio", "total_blocking_keys");
    }
    assert("allocator_rss_ratio".spec_bytes() != "total_blocking_keys_on_nokey".spec_bytes()) by { reveal_strlit("total_blocking_keys_on_nokey"); lemma_texts_differ("allocator_rss_ratio", "total_blocking_keys_on_nokey"); }
    assert("allocator_rss_ratio".spec_bytes() != "client_longest_output_list".spec_bytes()) by { reveal_strlit("client_longest_output_list"); lemma_texts_differ("allocator_rss_ratio", "client_longest_output_list"); }
    assert("allocator_rss_ratio".spec_bytes() != "client_biggest_input_buf".spec_bytes()) by { reveal_strlit("client_biggest_input_buf"); lemma_texts_differ("allocator_rss_ratio", "client_biggest_input_buf"); }
    assert("allocator_rss_ratio".spec_bytes() != "client_recent_max_output_buffer".spec_bytes()) by { reveal_strlit("client_recent_max_output_buffer"); lemma_texts_differ("allocator_rss_ratio", "client_recent_max_output_buffer"); }
    assert("allocator_rss_ratio".spec_bytes() != "client_recent_max_input_buffer".spec_bytes()) by { reveal_strlit("client_recent_max_input_buffer"); lemma_texts_differ("allocator_rss_ratio", "client_recent_max_input_buffer"); }
    assert("allocator_rss_ratio".spec_bytes() != "allocator_active".spec_bytes()) by { reveal_strlit("allocator_active"); lemma_texts_differ("allocator_rss_ratio", "allocator_active"); }
    assert("allocator_rss_ratio".spec_bytes() != "allocator_allocated".spec_bytes()) by {
        reveal_strlit("allocator_allocated");
        assert("allocator_rss_ratio"@[10] != "allocator_allocated"@[10]);
        lemma_texts_differ("allocator_rss_ratio", "allocator_allocated");
    }
    assert("allocator_rss_ratio".spec_bytes() != "allocator_resident".spec_bytes()) by { reveal_strlit("allocator_resident"); lemma_texts_differ("allocator_rss_ratio", "allocator_resident"); }
    assert("allocator_rss_ratio".spec_bytes() != "allocator_frag_ratio".spec_bytes()) by { reveal_strlit("allocator_frag_ratio"); lemma_texts_differ("allocator_rss_ratio", "allocator_frag_ratio"); }
    assert("allocator_rss_ratio".spec_bytes() != "allocator_frag_bytes".spec_bytes()) by { reveal_strlit("allocator_frag_bytes"); lemma_texts_differ("allocator_rss_ratio", "allocator_frag_bytes"); }
    assert("allocator_rss_ratio".spec_bytes() != "allocator_muzzy".spec_bytes()) by { reveal_strlit("allocator_muzzy"); lemma_texts_differ("allocator_rss_ratio", "allocator_muzzy"); }
}

/// The field `allocator_rss_bytes` is reported as the gauge `allocator_rss_bytes`.
pub proof fn lemma_field_allocator_rss_bytes()
    ensures
        generic_metric_spec("allocator_rss_bytes".spec_bytes()) == Some(
            GenericMetric { kind: Kind::Gauge, name: "allocator_rss_bytes", description: "Delta between allocator_resident and allocator_active", micros: false },
        ),
{
    reveal_strlit("allocator_rss_bytes");
    assert("allocator_rss_bytes".spec_bytes() != "uptime_in_seconds".spec_bytes()) by { reveal_strlit("uptime_in_seconds"); lemma_texts_differ("allocator_rss_bytes", "uptime_in_seconds"); }
    assert("allocator_rss_bytes".spec_bytes() != "process_id".spec_bytes()) by { reveal_strlit("process_id"); lemma_texts_differ("allocator_rss_bytes", "process_id"); }
    assert("allocator_rss_bytes".spec_bytes() != "io_threads_active".spec_bytes()) by { reveal_strlit("io_threads_active"); lemma_texts_differ("allocator_rss_bytes", "io_threads_active"); }
    assert("allocator_rss_bytes".spec_bytes() != "connected_clients".spec_bytes()) by { reveal_strlit("connected_clients"); lemma_texts_differ("allocator_rss_bytes", "connected_clients"); }
    assert("allocator_rss_bytes".spec_bytes() != "blocked_clients".spec_bytes()) by { reveal_strlit("blocked_clients"); lemma_texts_differ("allocator_rss_bytes", "blocked_clients"); }
    assert("allocator_rss_bytes".spec_bytes() != "maxclients".spec_bytes()) by { reveal_strlit("maxclients"); lemma_texts_differ("allocator_rss_bytes", "maxclients"); }
    assert("allocator_rss_bytes".spec_bytes() != "tracking_clients".spec_bytes()) by { reveal_strlit("tracking_clients"); lemma_texts_differ("allocator_rss_bytes", "tracking_clients"); }
    assert("allocator_rss_bytes".spec_bytes() != "clients_in_timeout_table".spec_bytes()) by { reveal_strlit("clients_in_timeout_table"); lemma_texts_differ("allocator_rss_bytes", "clients_in_timeout_table"); }
    assert("allocator_rss_bytes".spec_bytes() != "pubsub_clients".spec_bytes()) by { reveal_strlit("pubsub_clients"); lemma_texts_differ("allocator_rss_bytes", "pubsub_clients"); }
    assert("allocator_rss_bytes".spec_bytes() != "watching_clients".spec_bytes()) by { reveal_strlit("watching_clients"); lemma_texts_differ("allocator_rss_bytes", "watching_clients"); }
    assert("allocator_rss_bytes".spec_bytes() != "total_watched_keys".spec_bytes()) by { reveal_strlit("total_watched_keys"); lemma_texts_differ("allocator_rss_bytes", "total_watched_keys"); }
    assert("allocator_rss_bytes".spec_bytes() != "total_blocking_keys".spec_bytes()) by {
        reveal_strlit("total_blocking_keys");
        assert("allocator_rss_bytes"@[0] != "total_blocking_keys"@[0]);
        lemma_texts_differ("allocator_rss_bytes", "total_blocking_keys");
    }
    assert("allocator_rss_bytes".spec_bytes() != "total_blocking_keys_on_nokey".spec_bytes()) by { reveal_strlit("total_blocking_keys_on_nokey"); lemma_texts_differ("allocator_rss_bytes", "total_blocking_keys_on_nokey"); }
    assert("allocator_rss_bytes".spec_bytes() != "client_longest_output_list".spec_bytes()) by { reveal_strlit("client_longest_output_list"); lemma_texts_differ("allocator_rss_bytes", "client_longest_output_list"); }
    assert("allocator_rss_bytes".spec_bytes() != "client_biggest_input_buf".spec_bytes()) by { reveal_strlit("client_biggest_input_buf"); lemma_texts_differ("allocator_rss_bytes", "client_biggest_input_buf"); }
    assert("allocator_rss_bytes".spec_bytes() != "client_recent_max_output_buffer".spec_bytes()) by { reveal_strlit("client_recent_max_output_buffer"); lemma_texts_differ("allocator_rss_bytes", "client_recent_max_output_buffer"); }
    assert("allocator_rss_bytes".spec_bytes() != "client_recent_max_input_buffer".spec_bytes()) by { reveal_strlit("client_recent_max_input_buffer"); lemma_texts_differ("allocator_rss_bytes", "client_recent_max_input_buffer"); }
    assert("allocator_rss_bytes".spec_bytes() != "allocator_active".spec_bytes()) by { reveal_strlit("allocator_active"); lemma_texts_differ("allocator_rss_bytes", "allocator_active"); }
    assert("allocator_rss_bytes".spec_bytes() != "allocator_allocated".spec_bytes()) by {
        reveal_strlit("allocator_allocated");
        assert("allocator_rss_bytes"@[10] != "allocator_allocated"@[10]);
        lemma_texts_differ("allocator_rss_bytes", "allocator_allocated");
    }
    assert("allocator_rss_bytes".spec_bytes() != "allocator_resident".spec_bytes()) by { reveal_strlit("allocator_resident"); lemma_texts_differ("allocator_rss_bytes", "allocator_resident"); }
    assert("allocator_rss_bytes".spec_bytes() != "allocator_frag_ratio".spec_bytes()) by { reveal_strlit("allocator_frag_ratio"); lemma_texts_differ("allocator_rss_bytes", "allocator_frag_ratio"); }
    assert("allocator_rss_bytes".spec_bytes() != "allocator_frag_bytes".spec_bytes()) by { reveal_strlit("allocator_frag_bytes"); lemma_texts_differ("allocator_rss_bytes", "allocator_frag_bytes"); }
    assert("allocator_rss_bytes".spec_bytes() != "allocator_muzzy".spec_bytes()) by { reveal_strlit("allocator_muzzy"); lemma_texts_differ("allocator_rss_bytes", "allocator_muzzy"); }
    assert("allocator_rss_bytes".spec_bytes() != "allocator_rss_ratio".spec_bytes()) by {
        reveal_strlit("allocator_rss_ratio");
        assert("allocator_rss_bytes"@[14] != "allocator_rss_ratio"@[14]);
        lemma_texts_differ("allocator_rss_bytes", "allocator_rss_ratio");
    }
}

/// The field `used_memory` is reported as the gauge `memory_used_bytes`.
pub proof fn lemma_field_used_memory()
    ensures
        generic_metric_spec("used_memory".spec_bytes()) == Some(
            GenericMetric { kind: Kind::Gauge, name: "memory_used_bytes", description: "Total number of bytes allocated by Redis using its allocator", micros: false },
        ),
{
    reveal_strlit("used_memory");
    assert("used_memory".spec_bytes() != "uptime_in_seconds".spec_bytes()) by { reveal_strlit("uptime_in_seconds"); lemma_texts_differ("used_memory", "uptime_in_seconds"); }
    assert("used_memory".spec_bytes() != "process_id".spec_bytes()) by { reveal_strlit("process_id"); lemma_texts_differ("used_memory", "process_id"); }
    assert("used_memory".spec_bytes() != "io_threads_active".spec_bytes()) by { reveal_strlit("io_threads_active"); lemma_texts_differ("used_memory", "io_threads_active"); }
    assert("used_memory".spec_bytes() != "connected_clients".spec_bytes()) by { reveal_strlit("connected_clients"); lemma_texts_differ("used_memory", "connected_clients"); }
    assert("used_memory".spec_bytes() != "blocked_clients".spec_bytes()) by { reveal_strlit("blocked_clients"); lemma_texts_differ("used_memory", "blocked_clients"); }
    assert("used_memory".spec_bytes() != "maxclients".spec_bytes()) by { reveal_strlit("maxclients"); lemma_texts_differ("used_memory", "maxclients"); }
    assert("used_memory".spec_bytes() != "tracking_clients".spec_bytes()) by { reveal_strlit("tracking_clients"); lemma_texts_differ("used_memory", "tracking_clients"); }
    assert("used_memory".spec_bytes() != "clients_in_timeout_table".spec_bytes()) by { reveal_strlit("clients_in_timeout_table"); lemma_texts_differ("used_memory", "clients_in_timeout_table"); }
    assert("used_memory".spec_bytes() != "pubsub_clients".spec_bytes()) by { reveal_strlit("pubsub_clients"); lemma_texts_differ("used_memory", "pubsub_clients"); }
    assert("used_memory".spec_bytes() != "watching_clients".spec_bytes()) by { reveal_strlit("watching_clients"); lemma_texts_differ("used_memory", "watching_clients"); }
    assert("used_memory".spec_bytes() != "total_watched_keys".spec_bytes()) by { reveal_strlit("total_watched_keys"); lemma_texts_differ("used_memory", "total_watched_keys"); }
    assert("used_memory".spec_bytes() != "total_blocking_keys".spec_bytes()) by { reveal_strlit("total_blocking_keys"); lemma_texts_differ("used_memory", "total_blocking_keys"); }
    assert("used_memory".spec_bytes() != "total_blocking_keys_on_nokey".spec_bytes()) by { reveal_strlit("total_blocking_keys_on_nokey"); lemma_texts_differ("used_memory", "total_blocking_keys_on_nokey"); }
    assert("used_memory".spec_bytes() != "client_longest_output_list".spec_bytes()) by { reveal_strlit("client_longest_output_list"); lemma_texts_differ("used_memory", "client_longest_output_list"); }
    assert("used_memory".spec_bytes() != "client_biggest_input_buf".spec_bytes()) by { reveal_strlit("client_biggest_input_buf"); lemma_texts_differ("used_memory", "client_biggest_input_buf"); }
    assert("used_memory".spec_bytes() != "client_recent_max_output_buffer".spec_bytes()) by { reveal_strlit("client_recent_max_output_buffer"); lemma_texts_differ("used_memory", "client_recent_max_output_buffer"); }
    assert("used_memory".spec_bytes() != "client_recent_max_input_buffer".spec_bytes()) by { reveal_strlit("client_recent_max_input_buffer"); lemma_texts_differ("used_memory", "client_recent_max_input_buffer"); }
    assert("used_memory".spec_bytes() != "allocator_active".spec_bytes()) by { reveal_strlit("allocator_active"); lemma_texts_differ("used_memory", "allocator_active"); }
    assert("used_memory".spec_bytes() != "allocator_allocated".spec_bytes()) by { reveal_strlit("allocator_allocated"); lemma_texts_differ("used_memory", "allocator_allocated"); }
    assert("used_memory".spec_bytes() != "allocator_resident".spec_bytes()) by { reveal_strlit("allocator_resident"); lemma_texts_differ("used_memory", "allocator_resident"); }
    assert("used_memory".spec_bytes() != "allocator_frag_ratio".spec_bytes()) by { reveal_strlit("allocator_frag_ratio"); lemma_texts_differ("used_memory", "allocator_frag_ratio"); }
    assert("used_memory".spec_bytes() != "allocator_frag_bytes".spec_bytes()) by { reveal_strlit("allocator_frag_bytes"); lemma_texts_differ("used_memory", "allocator_frag_bytes"); }
    assert("used_memory".spec_bytes() != "allocator_muzzy".spec_bytes()) by { reveal_strlit("allocator_muzzy"); lemma_texts_differ("used_memory", "allocator_muzzy"); }
    assert("used_memory".spec_bytes() != "allocator_rss_ratio".spec_bytes()) by { reveal_strlit("allocator_rss_ratio"); lemma_texts_differ("used_memory", "allocator_rss_ratio"); }
    assert("used_memory".spec_bytes() != "allocator_rss_bytes".spec_bytes()) by { reveal_strlit("allocator_rss_bytes"); lemma_texts_differ("used_memory", "allocator_rss_bytes"); }
}

/// The field `used_memory_rss` is reported as the gauge `memory_used_rss_bytes`.
pub proof fn lemma_field_used_memory_rss()
    ensures
        generic_metric_spec("used_memory_rss".spec_bytes()) == Some(
            GenericMetric { kind: Kind::Gauge, name: "memory_used_rss_bytes", description: "Number of bytes that Redis allocated as seen by the operating system (a.k.a resident set size)", micros: false },
        ),
{
    reveal_strlit("used_memory_rss");
    assert("used_memory_rss".spec_bytes() != "uptime_in_seconds".spec_bytes()) by { reveal_strlit("uptime_in_seconds"); lemma_texts_differ("used_memory_rss", "uptime_in_seconds"); }
    assert("used_memory_rss".spec_bytes() != "process_id".spec_bytes()) by { reveal_strlit("process_id"); lemma_texts_differ("used_memory_rss", "process_id"); }
    assert("used_memory_rss".spec_bytes() != "io_threads_active".spec_bytes()) by { reveal_strlit("io_threads_active"); lemma_texts_differ("used_memory_rss", "io_threads_active"); }
    assert("used_memory_rss".spec_bytes() != "connected_clients".spec_bytes()) by { reveal_strlit("connected_clients"); lemma_texts_differ("used_memory_rss", "connected_clients"); }
    assert("used_memory_rss".spec_bytes() != "blocked_clients".spec_bytes()) by {
        reveal_strlit("blocked_clients");
        assert("used_memory_rss"@[0] != "blocked_clients"@[0]);
        lemma_texts_differ("used_memory_rss", "blocked_clients");
    }
    assert("used_memory_rss".spec_bytes() != "maxclients".spec_bytes()) by { reveal_strlit("maxclients"); lemma_texts_differ("used_memory_rss", "maxclients"); }
    assert("used_memory_rss".spec_bytes() != "tracking_clients".spec_bytes()) by { reveal_strlit("tracking_clients"); lemma_texts_differ("used_memory_rss", "tracking_clients"); }
    assert("used_memory_rss".spec_bytes() != "clients_in_timeout_table".spec_bytes()) by { reveal_strlit("clients_in_timeout_table"); lemma_texts_differ("used_memory_rss", "clients_in_timeout_table"); }
    assert("used_memory_rss".spec_bytes() != "pubsub_clients".spec_bytes()) by { reveal_strlit("pubsub_clients"); lemma_texts_differ("used_memory_rss", "pubsub_clients"); }
    assert("used_memory_rss".spec_bytes() != "watching_clients".spec_bytes()) by { reveal_strlit("watching_clients"); lemma_texts_differ("used_memory_rss", "watching_clients"); }
    assert("used_memory_rss".spec_bytes() != "total_watched_keys".spec_bytes()) by { reveal_strlit("total_watched_keys"); lemma_texts_differ("used_memory_rss", "total_watched_keys"); }
    assert("used_memory_rss".spec_bytes() != "total_blocking_keys".spec_bytes()) by { reveal_strlit("total_blocking_keys"); lemma_texts_differ("used_memory_rss", "total_blocking_keys"); }
    assert("used_memory_rss".spec_bytes() != "total_blocking_keys_on_nokey".spec_bytes()) by { reveal_strlit("total_blocking_keys_on_nokey"); lemma_texts_differ("used_memory_rss", "total_blocking_keys_on_nokey"); }
    assert("used_memory_rss".spec_bytes() != "client_longest_output_list".spec_bytes()) by { reveal_strlit("client_longest_output_list"); lemma_texts_differ("used_memory_rss", "client_longest_output_list"); }
    assert("used_memory_rss".spec_bytes() != "client_biggest_input_buf".spec_bytes()) by { reveal_strlit("client_biggest_input_buf"); lemma_texts_differ("used_memory_rss", "client_biggest_input_buf"); }
    assert("used_memory_rss".spec_bytes() != "client_recent_max_output_buffer".spec_bytes()) by { reveal_strlit("client_recent_max_output_buffer"); lemma_texts_differ("used_memory_rss", "client_recent_max_output_buffer"); }
    assert("used_memory_rss".spec_bytes() != "client_recent_max_input_buffer".spec_bytes()) by { reveal_strlit("client_recent_max_input_buffer"); lemma_texts_differ("used_memory_rss", "client_recent_max_input_buffer"); }
    assert("used_memory_rss".spec_bytes() != "allocator_active".spec_bytes()) by { reveal_strlit("allocator_active"); lemma_texts_differ("used_memory_rss", "allocator_active"); }
    assert("used_memory_rss".spec_bytes() != "allocator_allocated".spec_bytes()) by { reveal_strlit("allocator_allocated"); lemma_texts_differ("used_memory_rss", "allocator_allocated"); }
    assert("used_memory_rss".spec_bytes() != "allocator_resident".spec_bytes()) by { reveal_strlit("allocator_resident"); lemma_texts_differ("used_memory_rss", "allocator_resident"); }
    assert("used_memory_rss".spec_bytes() != "allocator_frag_ratio".spec_bytes()) by { reveal_strlit("allocator_frag_ratio"); lemma_texts_differ("used_memory_rss", "allocator_frag_ratio"); }
    assert("used_memory_rss".spec_bytes() != "allocator_frag_bytes".spec_bytes()) by { reveal_strlit("allocator_frag_bytes"); lemma_texts_differ("used_memory_rss", "allocator_frag_bytes"); }
    assert("used_memory_rss".spec_bytes() != "allocator_muzzy".spec_bytes()) by {
        reveal_strlit("allocator_muzzy");
        assert("used_memory_rss"@[0] != "allocator_muzzy"@[0]);
        lemma_texts_differ("used_memory_rss", "allocator_muzzy");
    }
    assert("used_memory_rss".spec_bytes() != "allocator_rss_ratio".spec_bytes()) by { reveal_strlit("allocator_rss_ratio"); lemma_texts_differ("used_memory_rss", "allocator_rss_ratio"); }
    assert("used_memory_rss".spec_bytes() != "allocator_rss_bytes".spec_bytes()) by { reveal_strlit("allocator_rss_bytes"); lemma_texts_differ("used_memory_rss", "allocator_rss_bytes"); }
    assert("used_memory_rss".spec_bytes() != "used_memory".spec_bytes()) by { reveal_strlit("used_memory"); lemma_texts_differ("used_memory_rss", "used_memory"); }
}

/// The field `used_memory_peak` is reported as the gauge `memory_used_peak_bytes` where part 1 of the table is read.
pub proof fn lemma_field_used_memory_peak()
    ensures
        table_part_1("used_memory_peak".spec_bytes()) == Some(
            GenericMetric { kind: Kind::Gauge, name: "memory_used_peak_bytes", description: "Peak memory consumed by Redis in bytes", micros: false },
        ),
{

}

/// The field `used_memory_lua` is reported as the gauge `memory_used_lua_bytes` where part 1 of the table is read.
pub proof fn lemma_field_used_memory_lua()
    ensures
        table_part_1("used_memory_lua".spec_bytes()) == Some(
            GenericMetric { kind: Kind::Gauge, name: "memory_used_lua_bytes", description: "Number of bytes used by the Lua engine for EVAL scripts", micros: false },
        ),
{
    reveal_strlit("used_memory_lua");
    assert("used_memory_lua".spec_bytes() != "used_memory_peak".spec_bytes()) by { reveal_strlit("used_memory_peak"); lemma_texts_differ("used_memory_lua", "used_memory_peak"); }
}

/// The field `used_memory_vm_eval` is reported as the gauge `memory_used_vm_eval_bytes` where part 1 of the table is read.
pub proof fn lemma_field_used_memory_vm_eval()
    ensures
        table_part_1("used_memory_vm_eval".spec_bytes()) == Some(
            GenericMetric { kind: Kind::Gauge, name: "memory_used_vm_eval_bytes", description: "Number of bytes used by the script VM engines for EVAL framework (not part of used_memory)", micros: false },
        ),
{
    reveal_strlit("used_memory_vm_eval");
    assert("used_memory_vm_eval".spec_bytes() != "used_memory_peak".spec_bytes()) by { reveal_strlit("used_memory_peak"); lemma_texts_differ("used_memory_vm_eval", "used_memory_peak"); }
    assert("used_memory_vm_eval".spec_bytes() != "used_memory_lua".spec_bytes()) by { reveal_strlit("used_memory_lua"); lemma_texts_differ("used_memory_vm_eval", "used_memory_lua"); }
}

/// The field `used_memory_scripts_eval` is reported as the gauge `memory_used_scripts_eval_bytes` where part 1 of the table is read.
pub proof fn lemma_field_used_memory_scripts_eval()
    ensures
        table_part_1("used_memory_scripts_eval".spec_bytes()) == Some(
            GenericMetric { kind: Kind::Gauge, name: "memory_used_scripts_eval_bytes", description: "Number of bytes overhead by the EVAL scripts (part of used_memory)", micros: false },
        ),
{
    reveal_strlit("used_memory_scripts_eval");
    assert("used_memory_scripts_eval".spec_bytes() != "used_memory_peak".spec_bytes()) by { reveal_strlit("used_memory_peak"); lemma_texts_differ("used_memory_scripts_eval", "used_memory_peak"); }
    assert("used_memory_scripts_eval".spec_bytes() != "used_memory_lua".spec_bytes()) by { reveal_strlit("used_memory_lua"); lemma_texts_differ("used_memory_scripts_eval", "used_memory_lua"); }
    assert("used_memory_scripts_eval".spec_bytes() != "used_memory_vm_eval".spec_bytes()) by { reveal_strlit("used_memory_vm_eval"); lemma_texts_differ("used_memory_scripts_eval", "used_memory_vm_eval"); }
}

/// The field `used_memory_overhead` is reported as the gauge `memory_used_overhead_bytes` where part 1 of the table is read.
pub proof fn lemma_field_used_memory_overhead()
    ensures
        table_part_1("used_memory_overhead".spec_bytes()) == Some(
            GenericMetric { kind: Kind::Gauge, name: "memory_used_overhead_bytes", description: "The sum in bytes of all overheads that the server allocated for managing its internal data structures", micros: false },
        ),
{
    reveal_strlit("used_memory_overhead");
    assert("used_memory_overhead".spec_bytes() != "used_memory_peak".spec_bytes()) by { reveal_strlit("used_memory_peak"); lemma_texts_differ("used_memory_overhead", "used_memory_peak"); }
    assert("used_memory_overhead".spec_bytes() != "used_memory_lua".spec_bytes()) by { reveal_strlit("used_memory_lua"); lemma_texts_differ("used_memory_overhead", "used_memory_lua"); }
    assert("used_memory_overhead".spec_bytes() != "used_memory_vm_eval".spec_bytes()) by { reveal_strlit("used_memory_vm_eval"); lemma_texts_differ("used_memory_overhead", "used_memory_vm_eval"); }
    assert("used_memory_overhead".spec_bytes() != "used_memory_scripts_eval".spec_bytes()) by { reveal_strlit("used_memory_scripts_eval"); lemma_texts_differ("used_memory_overhead", "used_memory_scripts_eval"); }
}

/// The field `used_memory_startup` is reported as the gauge `memory_used_startup_bytes` where part 1 of the table is read.
pub proof fn lemma_field_used_memory_startup()
    ensures
        table_part_1("used_memory_startup".spec_bytes()) == Some(
            GenericMetric { kind: Kind::Gauge, name: "memory_used_startup_bytes", description: "Initial amount of memory consumed by Redis at startup in bytes", micros: false },
        ),
{
    reveal_strlit("used_memory_startup");
    assert("used_memory_startup".spec_bytes() != "used_memory_peak".spec_bytes()) by { reveal_strlit("used_memory_peak"); lemma_texts_differ("used_memory_startup", "used_memory_peak"); }
    assert("used_memory_startup".spec_bytes() != "used_memory_lua".spec_bytes()) by { reveal_strlit("used_memory_lua"); lemma_texts_differ("used_memory_startup", "used_memory_lua"); }
    assert("used_memory_startup".spec_bytes() != "used_memory_vm_eval".spec_bytes()) by {
        reveal_strlit("used_memory_vm_eval");
        assert("used_memory_startup"@[12] != "used_memory_vm_eval"@[12]);
        lemma_texts_differ("used_memory_startup", "used_memory_vm_eval");
    }
    assert("used_memory_startup".spec_bytes() != "used_memory_scripts_eval".spec_bytes()) by { reveal_strlit("used_memory_scripts_eval"); lemma_texts_differ("used_memory_startup", "used_memory_scripts_eval"); }
    assert("used_memory_startup".spec_bytes() != "used_memory_overhead".spec_bytes()) by { reveal_strlit("used_memory_overhead"); lemma_texts_differ("used_memory_startup", "used_memory_overhead"); }
}

/// The field `used_memory_dataset` is reported as the gauge `memory_used_dataset_bytes` where part 1 of the table is read.
pub proof fn lemma_field_used_memory_dataset()
    ensures
        table_part_1("used_memory_dataset".spec_bytes()) == Some(
            GenericMetric { kind: Kind::Gauge, name: "memory_used_dataset_bytes", description: "The size in bytes of the dataset (used_memory_overhead subtracted from used_memory)", micros: false },
        ),
{
    reveal_strlit("used_memory_dataset");
    assert("used_memory_dataset".spec_bytes() != "used_memory_peak".spec_bytes()) by { reveal_strlit("used_memory_peak"); lemma_texts_differ("used_memory_dataset", "used_memory_peak"); }
    assert("used_memory_dataset".spec_bytes() != "used_memory_lua".spec_bytes()) by { reveal_strlit("used_memory_lua"); lemma_texts_differ("used_memory_dataset", "used_memory_lua"); }
    assert("used_memory_dataset".spec_bytes() != "used_memory_vm_eval".spec_bytes()) by {
        reveal_strlit("used_memory_vm_eval");
        assert("used_memory_dataset"@[12] != "used_memory_vm_eval"@[12]);
        lemma_texts_differ("used_memory_dataset", "used_memory_vm_eval");
    }
    assert("used_memory_dataset".spec_bytes() != "used_memory_scripts_eval".spec_bytes()) by { reveal_strlit("used_memory_scripts_eval"); lemma_texts_differ("used_memory_dataset", "used_memory_scripts_eval"); }
    assert("used_memory_dataset".spec_bytes() != "used_memory_overhead".spec_bytes()) by { reveal_strlit("used_memory_overhead"); lemma_texts_differ("used_memory_dataset", "used_memory_overhead"); }
    assert("used_memory_dataset".spec_bytes() != "used_memory_startup".spec_bytes()) by {
        reveal_strlit("used_memory_startup");
        assert("used_memory_dataset"@[12] != "used_memory_startup"@[12]);
        lemma_texts_differ("used_memory_dataset", "used_memory_startup");
    }
}

/// The field `number_of_cached_scripts` is reported as the gauge `number_of_cached_scripts` where part 1 of the table is read.
pub proof fn lemma_field_number_of_cached_scripts()
    ensures
        table_part_1("number_of_cached_scripts".spec_bytes()) == Some(
            GenericMetric { kind: Kind::Gauge, name: "number_of_cached_scripts", description: "The number of EVAL scripts cached by the server", micros: false },
        ),
{
    reveal_strlit("number_of_cached_scripts");
    assert("number_of_cached_scripts".spec_bytes() != "used_memory_peak".spec_bytes()) by { reveal_strlit("used_memory_peak"); lemma_texts_differ("number_of_cached_scripts", "used_memory_peak"); }
    assert("number_of_cached_scripts".spec_bytes() != "used_memory_lua".spec_bytes()) by { reveal_strlit("used_memory_lua"); lemma_texts_differ("number_of_cached_scripts", "used_memory_lua"); }
    assert("number_of_cached_scripts".spec_bytes() != "used_memory_vm_eval".spec_bytes()) by { reveal_strlit("used_memory_vm_eval"); lemma_texts_differ("number_of_cached_scripts", "used_memory_vm_eval"); }
    assert("number_of_cached_scripts".spec_bytes() != "used_memory_scripts_eval".spec_bytes()) by {
        reveal_strlit("used_memory_scripts_eval");
        assert("number_of_cached_scripts"@[0] != "used_memory_scripts_eval"@[0]);
        lemma_texts_differ("number_of_cached_scripts", "used_memory_scripts_eval");
    }
    assert("number_of_cached_scripts".spec_bytes() != "used_memory_overhead".spec_bytes()) by { reveal_strlit("used_memory_overhead"); lemma_texts_differ("number_of_cached_scripts", "used_memory_overhead"); }
    assert("number_of_cached_scripts".spec_bytes() != "used_memory_startup".spec_bytes()) by { reveal_strlit("used_memory_startup"); lemma_texts_differ("number_of_cached_scripts", "used_memory_startup"); }
    assert("number_of_cached_scripts".spec_bytes() != "used_memory_dataset".spec_bytes()) by { reveal_strlit("used_memory_dataset"); lemma_texts_differ("number_of_cached_scripts", "used_memory_dataset"); }
}

/// The field `number_of_functions` is reported as the gauge `number_of_functions` where part 1 of the table is read.
pub proof fn lemma_field_number_of_functions()
    ensures
        table_part_1("number_of_functions".spec_bytes()) == Some(
            GenericMetric { kind: Kind::Gauge, name: "number_of_functions", description: "The number of functions", micros: false },
        ),
{
    reveal_strlit("number_of_functions");
    assert("number_of_functions".spec_bytes() != "used_memory_peak".spec_bytes()) by { reveal_strlit("used_memory_peak"); lemma_texts_differ("number_of_functions", "used_memory_peak"); }
    assert("number_of_functions".spec_bytes() != "used_memory_lua".spec_bytes()) by { reveal_strlit("used_memory_lua"); lemma_texts_differ("number_of_functions", "used_memory_lua"); }
    assert("number_of_functions".spec_bytes() != "used_memory_vm_eval".spec_bytes()) by {
        reveal_strlit("used_memory_vm_eval");
        assert("number_of_functions"@[0] != "used_memory_vm_eval"@[0]);
        lemma_texts_differ("number_of_functions", "used_memory_vm_eval");
    }
    assert("number_of_functions".spec_bytes() != "used_memory_scripts_eval".spec_bytes()) by { reveal_strlit("used_memory_scripts_eval"); lemma_texts_differ("number_of_functions", "used_memory_scripts_eval"); }
    assert("number_of_functions".spec_bytes() != "used_memory_overhead".spec_bytes()) by { reveal_strlit("used_memory_overhead"); lemma_texts_differ("number_of_functions", "used_memory_overhead"); }
    assert("number_of_functions".spec_bytes() != "used_memory_startup".spec_bytes()) by {
        reveal_strlit("used_memory_startup");
        assert("number_of_functions"@[0] != "used_memory_startup"@[0]);
        lemma_texts_differ("number_of_functions", "used_memory_startup");
    }
    assert("number_of_functions".spec_bytes() != "used_memory_dataset".spec_bytes()) by {
        reveal_strlit("used_memory_dataset");
        assert("number_of_functions"@[0] != "used_memory_dataset"@[0]);
        lemma_texts_differ("number_of_functions", "used_memory_dataset");
    }
    assert("number_of_functions".spec_bytes() != "number_of_cached_scripts".spec_bytes()) by { reveal_strlit("number_of_cached_scripts"); lemma_texts_differ("number_of_functions", "number_of_cached_scripts"); }
}

/// The field `number_of_libraries` is reported as the gauge `number_of_libraries` where part 1 of the table is read.
pub proof fn lemma_field_number_of_libraries()
    ensures
        table_part_1("number_of_libraries".spec_bytes()) == Some(
            GenericMetric { kind: Kind::Gauge, name: "number_of_libraries", description: "The number of libraries", micros: false },
        ),
{
    reveal_strlit("number_of_libraries");
    assert("number_of_libraries".spec_bytes() != "used_memory_peak".spec_bytes()) by { reveal_strlit("used_memory_peak"); lemma_texts_differ("number_of_libraries", "used_memory_peak"); }
    assert("number_of_libraries".spec_bytes() != "used_memory_lua".spec_bytes()) by { reveal_strlit("used_memory_lua"); lemma_texts_differ("number_of_libraries", "used_memory_lua"); }
    assert("number_of_libraries".spec_bytes() != "used_memory_vm_eval".spec_bytes()) by {
        reveal_strlit("used_memory_vm_eval");
        assert("number_of_libraries"@[0] != "used_memory_vm_eval"@[0]);
        lemma_texts_differ("number_of_libraries", "used_memory_vm_eval");
    }
    assert("number_of_libraries".spec_bytes() != "used_memory_scripts_eval".spec_bytes()) by { reveal_strlit("used_memory_scripts_eval"); lemma_texts_differ("number_of_libraries", "used_memory_scripts_eval"); }
    assert("number_of_libraries".spec_bytes() != "used_memory_overhead".spec_bytes()) by { reveal_strlit("used_memory_overhead"); lemma_texts_differ("number_of_libraries", "used_memory_overhead"); }
    assert("number_of_libraries".spec_bytes() != "used_memory_startup".spec_bytes()) by {
        reveal_strlit("used_memory_startup");
        assert("number_of_libraries"@[0] != "used_memory_startup"@[0]);
        lemma_texts_differ("number_of_libraries", "used_memory_startup");
    }
    assert("number_of_libraries".spec_bytes() != "used_memory_dataset".spec_bytes()) by {
        reveal_strlit("used_memory_dataset");
        assert("number_of_libraries"@[0] != "used_memory_dataset"@[0]);
        lemma_texts_differ("number_of_libraries", "used_memory_dataset");
    }
    assert("number_of_libraries".spec_bytes() != "number_of_cached_scripts".spec_bytes()) by { reveal_strlit("number_of_cached_scripts"); lemma_texts_differ("number_of_libraries", "number_of_cached_scripts"); }
    assert("number_of_libraries".spec_bytes() != "number_of_functions".spec_bytes()) by {
        reveal_strlit("number_of_functions");
        assert("number_of_libraries"@[10] != "number_of_functions"@[10]);
        lemma_texts_differ("number_of_libraries", "number_of_functions");
    }
}

/// The field `used_memory_vm_functions` is reported as the gauge `memory_used_vm_functions_bytes` where part 1 of the table is read.
pub proof fn lemma_field_used_memory_vm_functions()
    ensures
        table_part_1("used_memory_vm_functions".spec_bytes()) == Some(
            GenericMetric { kind: Kind::Gauge, name: "memory_used_vm_functions_bytes", description: "Number of bytes used by the script VM engines for Functions framework (not part of used_memory)", micros: false },
        ),
{
    reveal_strlit("used_memory_vm_functions");
    assert("used_memory_vm_functions".spec_bytes() != "used_memory_peak".spec_bytes()) by { reveal_strlit("used_memory_peak"); lemma_texts_differ("used_memory_vm_functions", "used_memory_peak"); }
    assert("used_memory_vm_functions".spec_bytes() != "used_memory_lua".spec_bytes()) by { reveal_strlit("used_memory_lua"); lemma_texts_differ("used_memory_vm_functions", "used_memory_lua"); }
    assert("used_memory_vm_functions".spec_bytes() != "used_memory_vm_eval".spec_bytes()) by { reveal_strlit("used_memory_vm_eval"); lemma_texts_differ("used_memory_vm_functions", "used_memory_vm_eval"); }
    assert("used_memory_vm_functions".spec_bytes() != "used_memory_scripts_eval".spec_bytes()) by {
        reveal_strlit("used_memory_scripts_eval");
        assert("used_memory_vm_functions"@[12] != "used_memory_scripts_eval"@[12]);
        lemma_texts_differ("used_memory_vm_functions", "used_memory_scripts_eval");
    }
    assert("used_memory_vm_functions".spec_bytes() != "used_memory_overhead".spec_bytes()) by { reveal_strlit("used_memory_overhead"); lemma_texts_differ("used_memory_vm_functions", "used_memory_overhead"); }
    assert("used_memory_vm_functions".spec_bytes() != "used_memory_startup".spec_bytes()) by { reveal_strlit("used_memory_startup"); lemma_texts_differ("used_memory_vm_functions", "used_memory_startup"); }
    assert("used_memory_vm_functions".spec_bytes() != "used_memory_dataset".spec_bytes()) by { reveal_strlit("used_memory_dataset"); lemma_texts_differ("used_memory_vm_functions", "used_memory_dataset"); }
    assert("used_memory_vm_functions".spec_bytes() != "number_of_cached_scripts".spec_bytes()) by {
        reveal_strlit("number_of_cached_scripts");
        assert("used_memory_vm_functions"@[0] != "number_of_cached_scripts"@[0]);
        lemma_texts_differ("used_memory_vm_functions", "number_of_cached_scripts");
    }
    assert("used_memory_vm_functions".spec_bytes() != "number_of_functions".spec_bytes()) by { reveal_strlit("number_of_functions"); lemma_texts_differ("used_memory_vm_functions", "number_of_functions"); }
    assert("used_memory_vm_functions".spec_bytes() != "number_of_libraries".spec_bytes()) by { reveal_strlit("number_of_libraries"); lemma_texts_differ("used_memory_vm_functions", "number_of_libraries"); }
}

/// The field `used_memory_scripts` is reported as the gauge `memory_used_scripts_bytes` where part 1 of the table is read.
pub proof fn lemma_field_used_memory_scripts()
    ensures
        table_part_1("used_memory_scripts".spec_bytes()) == Some(
            GenericMetric { kind: Kind::Gauge, name: "memory_used_scripts_bytes", description: "used_memory_scripts_eval + used_memory_functions (part of used_memory)", micros: false },
        ),
{
    reveal_strlit("used_memory_scripts");
    assert("used_memory_scripts".spec_bytes() != "used_memory_peak".spec_bytes()) by { reveal_strlit("used_memory_peak"); lemma_texts_differ("used_memory_scripts", "used_memory_peak"); }
    assert("used_memory_scripts".spec_bytes() != "used_memory_lua".spec_bytes()) by { reveal_strlit("used_memory_lua"); lemma_texts_differ("used_memory_scripts", "used_memory_lua"); }
    assert("used_memory_scripts".spec_bytes() != "used_memory_vm_eval".spec_bytes()) by {
        reveal_strlit("used_memory_vm_eval");
        assert("used_memory_scripts"@[12] != "used_memory_vm_eval"@[12]);
        lemma_texts_differ("used_memory_scripts", "used_memory_vm_eval");
    }
    assert("used_memory_scripts".spec_bytes() != "used_memory_scripts_eval".spec_bytes()) by { reveal_strlit("used_memory_scripts_eval"); lemma_texts_differ("used_memory_scripts", "used_memory_scripts_eval"); }
    assert("used_memory_scripts".spec_bytes() != "used_memory_overhead".spec_bytes()) by { reveal_strlit("used_memory_overhead"); lemma_texts_differ("used_memory_scripts", "used_memory_overhead"); }
    assert("used_memory_scripts".spec_bytes() != "used_memory_startup".spec_bytes()) by {
        reveal_strlit("used_memory_startup");
        assert("used_memory_scripts"@[13] != "used_memory_startup"@[13]);
        lemma_texts_differ("used_memory_scripts", "used_memory_startup");
    }
    assert("used_memory_scripts".spec_bytes() != "used_memory_dataset".spec_bytes()) by {
        reveal_strlit("used_memory_dataset");
        assert("used_memory_scripts"@[12] != "used_memory_dataset"@[12]);
        lemma_texts_differ("used_memory_scripts", "used_memory_dataset");
    }
    assert("used_memory_scripts".spec_bytes() != "number_of_cached_scripts".spec_bytes()) by { reveal_strlit("number_of_cached_scripts"); lemma_texts_differ("used_memory_scripts", "number_of_cached_scripts"); }
    assert("used_memory_scripts".spec_bytes() != "number_of_functions".spec_bytes()) by {
        reveal_strlit("number_of_functions");
        assert("used_memory_scripts"@[0] != "number_of_functions"@[0]);
        lemma_texts_differ("used_memory_scripts", "number_of_functions");
    }
    assert("used_memory_scripts".spec_bytes() != "number_of_libraries".spec_bytes()) by {
        reveal_strlit("number_of_libraries");
        assert("used_memory_scripts"@[0] != "number_of_libraries"@[0]);
        lemma_texts_differ("used_memory_scripts", "number_of_libraries");
    }
    assert("used_memory_scripts".spec_bytes() != "used_memory_vm_functions".spec_bytes()) by { reveal_strlit("used_memory_vm_functions"); lemma_texts_differ("used_memory_scripts", "used_memory_vm_functions"); }
}

/// The field `used_memory_functions` is reported as the gauge `memory_used_functions_bytes` where part 1 of the table is read.
pub proof fn lemma_field_used_memory_functions()
    ensures
        table_part_1("used_memory_functions".spec_bytes()) == Some(
            GenericMetric { kind: Kind::Gauge, name: "memory_used_functions_bytes", description: "Number of bytes overhead by Function scripts (part of used_memory)", micros: false },
        ),
{
    reveal_strlit("used_memory_functions");
    assert("used_memory_functions".spec_bytes() != "used_memory_peak".spec_bytes()) by { reveal_strlit("used_memory_peak"); lemma_texts_differ("used_memory_functions", "used_memory_peak"); }
    assert("used_memory_functions".spec_bytes() != "used_memory_lua".spec_bytes()) by { reveal_strlit("used_memory_lua"); lemma_texts_differ("used_memory_functions", "used_memory_lua"); }
    assert("used_memory_functions".spec_bytes() != "used_memory_vm_eval".spec_bytes()) by { reveal_strlit("used_memory_vm_eval"); lemma_texts_differ("used_memory_functions", "used_memory_vm_eval"); }
    assert("used_memory_functions".spec_bytes() != "used_memory_scripts_eval".spec_bytes()) by { reveal_strlit("used_memory_scripts_eval"); lemma_texts_differ("used_memory_functions", "used_memory_scripts_eval"); }
    assert("used_memory_functions".spec_bytes() != "used_memory_overhead".spec_bytes()) by { reveal_strlit("used_memory_overhead"); lemma_texts_differ("used_memory_functions", "used_memory_overhead"); }
    assert("used_memory_functions".spec_bytes() != "used_memory_startup".spec_bytes()) by { reveal_strlit("used_memory_startup"); lemma_texts_differ("used_memory_functions", "used_memory_startup"); }
    assert("used_memory_functions".spec_bytes() != "used_memory_dataset".spec_bytes()) by { reveal_strlit("used_memory_dataset"); lemma_texts_differ("used_memory_functions", "used_memory_dataset"); }
    assert("used_memory_functions".spec_bytes() != "number_of_cached_scripts".spec_bytes()) by { reveal_strlit("number_of_cached_scripts"); lemma_texts_differ("used_memory_functions", "number_of_cached_scripts"); }
    assert("used_memory_functions".spec_bytes() != "number_of_functions".spec_bytes()) by { reveal_strlit("number_of_functions"); lemma_texts_differ("used_memory_functions", "number_of_functions"); }
    assert("used_memory_functions".spec_bytes() != "number_of_libraries".spec_bytes()) by { reveal_strlit("number_of_libraries"); lemma_texts_differ("used_memory_functions", "number_of_libraries"); }
    assert("used_memory_functions".spec_bytes() != "used_memory_vm_functions".spec_bytes()) by { reveal_strlit("used_memory_vm_functions"); lemma_texts_differ("used_memory_functions", "used_memory_vm_functions"); }
    assert("used_memory_functions".spec_bytes() != "used_memory_scripts".spec_bytes()) by { reveal_strlit("used_memory_scripts"); lemma_texts_differ("used_memory_functions", "used_memory_scripts"); }
}

/// The field `used_memory_vm_total` is reported as the gauge `memory_used_vm_total` where part 1 of the table is read.
pub proof fn lemma_field_used_memory_vm_total()
    ensures
        table_part_1("used_memory_vm_total".spec_bytes()) == Some(
            GenericMetric { kind: Kind::Gauge, name: "memory_used_vm_total", description: "used_memory_vm_eval + used_memory_vm_functions (not part of used_memory)", micros: false },
        ),
{
    reveal_strlit("used_memory_vm_total");
    assert("used_memory_vm_total".spec_bytes() != "used_memory_peak".spec_bytes()) by { reveal_strlit("used_memory_peak"); lemma_texts_differ("used_memory_vm_total", "used_memory_peak"); }
    assert("used_memory_vm_total".spec_bytes() != "used_memory_lua".spec_bytes()) by { reveal_strlit("used_memory_lua"); lemma_texts_differ("used_memory_vm_total", "used_memory_lua"); }
    assert("used_memory_vm_total".spec_bytes() != "used_memory_vm_eval".spec_bytes()) by { reveal_strlit("used_memory_vm_eval"); lemma_texts_differ("used_memory_vm_total", "used_memory_vm_eval"); }
    assert("used_memory_vm_total".spec_bytes() != "used_memory_scripts_eval".spec_bytes()) by { reveal_strlit("used_memory_scripts_eval"); lemma_texts_differ("used_memory_vm_total", "used_memory_scripts_eval"); }
    assert("used_memory_vm_total".spec_bytes() != "used_memory_overhead".spec_bytes()) by {
        reveal_strlit("used_memory_overhead");
        assert("used_memory_vm_total"@[12] != "used_memory_overhead"@[12]);
        lemma_texts_differ("used_memory_vm_total", "used_memory_overhead");
    }
    assert("used_memory_vm_total".spec_bytes() != "used_memory_startup".spec_bytes()) by { reveal_strlit("used_memory_startup"); lemma_texts_differ("used_memory_vm_total", "used_memory_startup"); }
    assert("used_memory_vm_total".spec_bytes() != "used_memory_dataset".spec_bytes()) by { reveal_strlit("used_memory_dataset"); lemma_texts_differ("used_memory_vm_total", "used_memory_dataset"); }
    assert("used_memory_vm_total".spec_bytes() != "number_of_cached_scripts".spec_bytes()) by { reveal_strlit("number_of_cached_scripts"); lemma_texts_differ("used_memory_vm_total", "number_of_cached_scripts"); }
    assert("used_memory_vm_total".spec_bytes() != "number_of_functions".spec_bytes()) by { reveal_strlit("number_of_functions"); lemma_texts_differ("used_memory_vm_total", "number_of_functions"); }
    assert("used_memory_vm_total".spec_bytes() != "number_of_libraries".spec_bytes()) by { reveal_strlit("number_of_libraries"); lemma_texts_differ("used_memory_vm_total", "number_of_libraries"); }
    assert("used_memory_vm_total".spec_bytes() != "used_memory_vm_functions".spec_bytes()) by { reveal_strlit("used_memory_vm_functions"); lemma_texts_differ("used_memory_vm_total", "used_memory_vm_functions"); }
    assert("used_memory_vm_total".spec_bytes() != "used_memory_scripts".spec_bytes()) by { reveal_strlit("used_memory_scripts"); lemma_texts_differ("used_memory_vm_total", "used_memory_scripts"); }
    assert("used_memory_vm_total".spec_bytes() != "used_memory_functions".spec_bytes()) by { reveal_strlit("used_memory_functions"); lemma_texts_differ("used_memory_vm_total", "used_memory_functions"); }
}

/// The field `maxmemory` is reported as the gauge `memory_max_bytes` where part 1 of the table is read.
pub proof fn lemma_field_maxmemory()
    ensures
        table_part_1("maxmemory".spec_bytes()) == Some(
            GenericMetric { kind: Kind::Gauge, name: "memory_max_bytes", description: " The value of the maxmemory configuration directive", micros: false },
        ),
{
    reveal_strlit("maxmemory");
    assert("maxmemory".spec_bytes() != "used_memory_peak".spec_bytes()) by { reveal_strlit("used_memory_peak"); lemma_texts_differ("maxmemory", "used_memory_peak"); }
    assert("maxmemory".spec_bytes() != "used_memory_lua".spec_bytes()) by { reveal_strlit("used_memory_lua"); lemma_texts_differ("maxmemory", "used_memory_lua"); }
    assert("maxmemory".spec_bytes() != "used_memory_vm_eval".spec_bytes()) by { reveal_strlit("used_memory_vm_eval"); lemma_texts_differ("maxmemory", "used_memory_vm_eval"); }
    assert("maxmemory".spec_bytes() != "used_memory_scripts_eval".spec_bytes()) by { reveal_strlit("used_memory_scripts_eval"); lemma_texts_differ("maxmemory", "used_memory_scripts_eval"); }
    assert("maxmemory".spec_bytes() != "used_memory_overhead".spec_bytes()) by { reveal_strlit("used_memory_overhead"); lemma_texts_differ("maxmemory", "used_memory_overhead"); }
    assert("maxmemory".spec_bytes() != "used_memory_startup".spec_bytes()) by { reveal_strlit("used_memory_startup"); lemma_texts_differ("maxmemory", "used_memory_startup"); }
    assert("maxmemory".spec_bytes() != "used_memory_dataset".spec_bytes()) by { reveal_strlit("used_memory_dataset"); lemma_texts_differ("maxmemory", "used_memory_dataset"); }
    assert("maxmemory".spec_bytes() != "number_of_cached_scripts".spec_bytes()) by { reveal_strlit("number_of_cached_scripts"); lemma_texts_differ("maxmemory", "number_of_cached_scripts"); }
    assert("maxmemory".spec_bytes() != "number_of_functions".spec_bytes()) by { reveal_strlit("number_of_functions"); lemma_texts_differ("maxmemory", "number_of_functions"); }
    assert("maxmemory".spec_bytes() != "number_of_libraries".spec_bytes()) by { reveal_strlit("number_of_libraries"); lemma_texts_differ("maxmemory", "number_of_libraries"); }
    assert("maxmemory".spec_bytes() != "used_memory_vm_functions".spec_bytes()) by { reveal_strlit("used_memory_vm_functions"); lemma_texts_differ("maxmemory", "used_memory_vm_functions"); }
    assert("maxmemory".spec_bytes() != "used_memory_scripts".spec_bytes()) by { reveal_strlit("used_memory_scripts"); lemma_texts_differ("maxmemory", "used_memory_scripts"); }
    assert("maxmemory".spec_bytes() != "used_memory_functions".spec_bytes()) by { reveal_strlit("used_memory_functions"); lemma_texts_differ("maxmemory", "used_memory_functions"); }
    assert("maxmemory".spec_bytes() != "used_memory_vm_total".spec_bytes()) by { reveal_strlit("used_memory_vm_total"); lemma_texts_differ("maxmemory", "used_memory_vm_total"); }
}

/// The field `maxmemory_reservation` is reported as the gauge `memory_max_reservation_bytes` where part 1 of the table is read.
pub proof fn lemma_field_maxmemory_reservation()
    ensures
        table_part_1("maxmemory_reservation".spec_bytes()) == Some(
            GenericMetric { kind: Kind::Gauge, name: "memory_max_reservation_bytes", description: "", micros: false },
        ),
{
    reveal_strlit("maxmemory_reservation");
    assert("maxmemory_reservation".spec_bytes() != "used_memory_peak".spec_bytes()) by { reveal_strlit("used_memory_peak"); lemma_texts_differ("maxmemory_reservation", "used_memory_peak"); }
    assert("maxmemory_reservation".spec_bytes() != "used_memory_lua".spec_bytes()) by { reveal_strlit("used_memory_lua"); lemma_texts_differ("maxmemory_reservation", "used_memory_lua"); }
    assert("maxmemory_reservation".spec_bytes() != "used_memory_vm_eval".spec_bytes()) by { reveal_strlit("used_memory_vm_eval"); lemma_texts_differ("maxmemory_reservation", "used_memory_vm_eval"); }
    assert("maxmemory_reservation".spec_bytes() != "used_memory_scripts_eval".spec_bytes()) by { reveal_strlit("used_memory_scripts_eval"); lemma_texts_differ("maxmemory_reservation", "used_memory_scripts_eval"); }
    assert("maxmemory_reservation".spec_bytes() != "used_memory_overhead".spec_bytes()) by { reveal_strlit("used_memory_overhead"); lemma_texts_differ("maxmemory_reservation", "used_memory_overhead"); }
    assert("maxmemory_reservation".spec_bytes() != "used_memory_startup".spec_bytes()) by { reveal_strlit("used_memory_startup"); lemma_texts_differ("maxmemory_reservation", "used_memory_startup"); }
    assert("maxmemory_reservation".spec_bytes() != "used_memory_dataset".spec_bytes()) by { reveal_strlit("used_memory_dataset"); lemma_texts_differ("maxmemory_reservation", "used_memory_dataset"); }
    assert("maxmemory_reservation".spec_bytes() != "number_of_cached_scripts".spec_bytes()) by { reveal_strlit("number_of_cached_scripts"); lemma_texts_differ("maxmemory_reservation", "number_of_cached_scripts"); }
    assert("maxmemory_reservation".spec_bytes() != "number_of_functions".spec_bytes()) by { reveal_strlit("number_of_functions"); lemma_texts_differ("maxmemory_reservation", "number_of_functions"); }
    assert("maxmemory_reservation".spec_bytes() != "number_of_libraries".spec_bytes()) by { reveal_strlit("number_of_libraries"); lemma_texts_differ("maxmemory_reservation", "number_of_libraries"); }
    assert("maxmemory_reservation".spec_bytes() != "used_memory_vm_functions".spec_bytes()) by { reveal_strlit("used_memory_vm_functions"); lemma_texts_differ("maxmemory_reservation", "used_memory_vm_functions"); }
    assert("maxmemory_reservation".spec_bytes() != "used_memory_scripts".spec_bytes()) by { reveal_strlit("used_memory_scripts"); lemma_texts_differ("maxmemory_reservation", "used_memory_scripts"); }
    assert("maxmemory_reservation".spec_bytes() != "used_memory_functions".spec_bytes()) by {
        reveal_strlit("used_memory_functions");
        assert("maxmemory_reservation"@[0] != "used_memory_functions"@[0]);
        lemma_texts_differ("maxmemory_reservation", "used_memory_functions");
    }
    assert("maxmemory_reservation".spec_bytes() != "used_memory_vm_total".spec_bytes()) by { reveal_strlit("used_memory_vm_total"); lemma_texts_differ("maxmemory_reservation", "used_memory_vm_total"); }
    assert("maxmemory_reservation".spec_bytes() != "maxmemory".spec_bytes()) by { reveal_strlit("maxmemory"); lemma_texts_differ("maxmemory_reservation", "maxmemory"); }
}

/// The field `maxmemory_desired_reservation` is reported as the gauge `memory_max_reservation_desired_bytes` where part 1 of the table is read.
pub proof fn lemma_field_maxmemory_desired_reservation()
    ensures
        table_part_1("maxmemory_desired_reservation".spec_bytes()) == Some(
            GenericMetric { kind: Kind::Gauge, name: "memory_max_reservation_desired_bytes", description: "", micros: false },
        ),
{
    reveal_strlit("maxmemory_desired_reservation");
    assert("maxmemory_desired_reservation".spec_bytes() != "used_memory_peak".spec_bytes()) by { reveal_strlit("used_memory_peak"); lemma_texts_differ("maxmemory_desired_reservation", "used_memory_peak"); }
    assert("maxmemory_desired_reservation".spec_bytes() != "used_memory_lua".spec_bytes()) by { reveal_strlit("used_memory_lua"); lemma_texts_differ("maxmemory_desired_reservation", "used_memory_lua"); }
    assert("maxmemory_desired_reservation".spec_bytes() != "used_memory_vm_eval".spec_bytes()) by { reveal_strlit("used_memory_vm_eval"); lemma_texts_differ("maxmemory_desired_reservation", "used_memory_vm_eval"); }
    assert("maxmemory_desired_reservation".spec_bytes() != "used_memory_scripts_eval".spec_bytes()) by { reveal_strlit("used_memory_scripts_eval"); lemma_texts_differ("maxmemory_desired_reservation", "used_memory_scripts_eval"); }
    assert("maxmemory_desired_reservation".spec_bytes() != "used_memory_overhead".spec_bytes()) by { reveal_strlit("used_memory_overhead"); lemma_texts_differ("maxmemory_desired_reservation", "used_memory_overhead"); }
    assert("maxmemory_desired_reservation".spec_bytes() != "used_memory_startup".spec_bytes()) by { reveal_strlit("used_memory_startup"); lemma_texts_differ("maxmemory_desired_reservation", "used_memory_startup"); }
    assert("maxmemory_desired_reservation".spec_bytes() != "used_memory_dataset".spec_bytes()) by { reveal_strlit("used_memory_dataset"); lemma_texts_differ("maxmemory_desired_reservation", "used_memory_dataset"); }
    assert("maxmemory_desired_reservation".spec_bytes() != "number_of_cached_scripts".spec_bytes()) by { reveal_strlit("number_of_cached_scripts"); lemma_texts_differ("maxmemory_desired_reservation", "number_of_cached_scripts"); }
    assert("maxmemory_desired_reservation".spec_bytes() != "number_of_functions".spec_bytes()) by { reveal_strlit("number_of_functions"); lemma_texts_differ("maxmemory_desired_reservation", "number_of_functions"); }
    assert("maxmemory_desired_reservation".spec_bytes() != "number_of_libraries".spec_bytes()) by { reveal_strlit("number_of_libraries"); lemma_texts_differ("maxmemory_desired_reservation", "number_of_libraries"); }
    assert("maxmemory_desired_reservation".spec_bytes() != "used_memory_vm_functions".spec_bytes()) by { reveal_strlit("used_memory_vm_functions"); lemma_texts_differ("maxmemory_desired_reservation", "used_memory_vm_functions"); }
    assert("maxmemory_desired_reservation".spec_bytes() != "used_memory_scripts".spec_bytes()) by { reveal_strlit("used_memory_scripts"); lemma_texts_differ("maxmemory_desired_reservation", "used_memory_scripts"); }
    assert("maxmemory_desired_reservation".spec_bytes() != "used_memory_functions".spec_bytes()) by { reveal_strlit("used_memory_functions"); lemma_texts_differ("maxmemory_desired_reservation", "used_memory_functions"); }
    assert("maxmemory_desired_reservation".spec_bytes() != "used_memory_vm_total".spec_bytes()) by { reveal_strlit("used_memory_vm_total"); lemma_texts_differ("maxmemory_desired_reservation", "used_memory_vm_total"); }
    assert("maxmemory_desired_reservation".spec_bytes() != "maxmemory".spec_bytes()) by { reveal_strlit("maxmemory"); lemma_texts_differ("maxmemory_desired_reservation", "maxmemory"); }
    assert("maxmemory_desired_reservation".spec_bytes() != "maxmemory_reservation".spec_bytes()) by { reveal_strlit("maxmemory_reservation"); lemma_texts_differ("maxmemory_desired_reservation", "maxmemory_reservation"); }
}

/// The field `maxfragmentationmemory_reservation` is reported as the gauge `memory_max_fragmentation_reservation_bytes` where part 1 of the table is read.
pub proof fn lemma_field_maxfragmentationmemory_reservation()
    ensures
        table_part_1("maxfragmentationmemory_reservation".spec_bytes()) == Some(
            GenericMetric { kind: Kind::Gauge, name: "memory_max_fragmentation_reservation_bytes", description: "", micros: false },
        ),
{
    reveal_strlit("maxfragmentationmemory_reservation");
    assert("maxfragmentationmemory_reservation".spec_bytes() != "used_memory_peak".spec_bytes()) by { reveal_strlit("used_memory_peak"); lemma_texts_differ("maxfragmentationmemory_reservation", "used_memory_peak"); }
    assert("maxfragmentationmemory_reservation".spec_bytes() != "used_memory_lua".spec_bytes()) by { reveal_strlit("used_memory_lua"); lemma_texts_differ("maxfragmentationmemory_reservation", "used_memory_lua"); }
    assert("maxfragmentationmemory_reservation".spec_bytes() != "used_memory_vm_eval".spec_bytes()) by { reveal_strlit("used_memory_vm_eval"); lemma_texts_differ("maxfragmentationmemory_reservation", "used_memory_vm_eval"); }
    assert("maxfragmentationmemory_reservation".spec_bytes() != "used_memory_scripts_eval".spec_bytes()) by { reveal_strlit("used_memory_scripts_eval"); lemma_texts_differ("maxfragmentationmemory_reservation", "used_memory_scripts_eval"); }
    assert("maxfragmentationmemory_reservation".spec_bytes() != "used_memory_overhead".spec_bytes()) by { reveal_strlit("used_memory_overhead"); lemma_texts_differ("maxfragmentationmemory_reservation", "used_memory_overhead"); }
    assert("maxfragmentationmemory_reservation".spec_bytes() != "used_memory_startup".spec_bytes()) by { reveal_strlit("used_memory_startup"); lemma_texts_differ("maxfragmentationmemory_reservation", "used_memory_startup"); }
    assert("maxfragmentationmemory_reservation".spec_bytes() != "used_memory_dataset".spec_bytes()) by { reveal_strlit("used_memory_dataset"); lemma_texts_differ("maxfragmentationmemory_reservation", "used_memory_dataset"); }
    assert("maxfragmentationmemory_reservation".spec_bytes() != "number_of_cached_scripts".spec_bytes()) by { reveal_strlit("number_of_cached_scripts"); lemma_texts_differ("maxfragmentationmemory_reservation", "number_of_cached_scripts"); }
    assert("maxfragmentationmemory_reservation".spec_bytes() != "number_of_functions".spec_bytes()) by { reveal_strlit("number_of_functions"); lemma_texts_differ("maxfragmentationmemory_reservation", "number_of_functions"); }
    assert("maxfragmentationmemory_reservation".spec_bytes() != "number_of_libraries".spec_bytes()) by { reveal_strlit("number_of_libraries"); lemma_texts_differ("maxfragmentationmemory_reservation", "number_of_libraries"); }
    assert("maxfragmentationmemory_reservation".spec_bytes() != "used_memory_vm_functions".spec_bytes()) by { reveal_strlit("used_memory_vm_functions"); lemma_texts_differ("maxfragmentationmemory_reservation", "used_memory_vm_functions"); }
    assert("maxfragmentationmemory_reservation".spec_bytes() != "used_memory_scripts".spec_bytes()) by { reveal_strlit("used_memory_scripts"); lemma_texts_differ("maxfragmentationmemory_reservation", "used_memory_scripts"); }
    assert("maxfragmentationmemory_reservation".spec_bytes() != "used_memory_functions".spec_bytes()) by { reveal_strlit("used_memory_functions"); lemma_texts_differ("maxfragmentationmemory_reservation", "used_memory_functions"); }
    assert("maxfragmentationmemory_reservation".spec_bytes() != "used_memory_vm_total".spec_bytes()) by { reveal_strlit("used_memory_vm_total"); lemma_texts_differ("maxfragmentationmemory_reservation", "used_memory_vm_total"); }
    assert("maxfragmentationmemory_reservation".spec_bytes() != "maxmemory".spec_bytes()) by { reveal_strlit("maxmemory"); lemma_texts_differ("maxfragmentationmemory_reservation", "maxmemory"); }
    assert("maxfragmentationmemory_reservation".spec_bytes() != "maxmemory_reservation".spec_bytes()) by { reveal_strlit("maxmemory_reservation"); lemma_texts_differ("maxfragmentationmemory_reservation", "maxmemory_reservation"); }
    assert("maxfragmentationmemory_reservation".spec_bytes() != "maxmemory_desired_reservation".spec_bytes()) by { reveal_strlit("maxmemory_desired_reservation"); lemma_texts_differ("maxfragmentationmemory_reservation", "maxmemory_desired_reservation"); }
}

/// The field `maxfragmentationmemory_desired_reservation` is reported as the gauge `memory_max_fragmentation_reservation_desired_bytes` where part 1 of the table is read.
pub proof fn lemma_field_maxfragmentationmemory_desired_reservation()
    ensures
        table_part_1("maxfragmentationmemory_desired_reservation".spec_bytes()) == Some(
            GenericMetric { kind: Kind::Gauge, name: "memory_max_fragmentation_reservation_desired_bytes", description: "", micros: false },
        ),
{
    reveal_strlit("maxfragmentationmemory_desired_reservation");
    assert("maxfragmentationmemory_desired_reservation".spec_bytes() != "used_memory_peak".spec_bytes()) by { reveal_strlit("used_memory_peak"); lemma_texts_differ("maxfragmentationmemory_desired_reservation", "used_memory_peak"); }
    assert("maxfragmentationmemory_desired_reservation".spec_bytes() != "used_memory_lua".spec_bytes()) by { reveal_strlit("used_memory_lua"); lemma_texts_differ("maxfragmentationmemory_desired_reservation", "used_memory_lua"); }
    assert("maxfragmentationmemory_desired_reservation".spec_bytes() != "used_memory_vm_eval".spec_bytes()) by { reveal_strlit("used_memory_vm_eval"); lemma_texts_differ("maxfragmentationmemory_desired_reservation", "used_memory_vm_eval"); }
    assert("maxfragmentationmemory_desired_reservation".spec_bytes() != "used_memory_scripts_eval".spec_bytes()) by { reveal_strlit("used_memory_scripts_eval"); lemma_texts_differ("maxfragmentationmemory_desired_reservation", "used_memory_scripts_eval"); }
    assert("maxfragmentationmemory_desired_reservation".spec_bytes() != "used_memory_overhead".spec_bytes()) by { reveal_strlit("used_memory_overhead"); lemma_texts_differ("maxfragmentationmemory_desired_reservation", "used_memory_overhead"); }
    assert("maxfragmentationmemory_desired_reservation".spec_bytes() != "used_memory_startup".spec_bytes()) by { reveal_strlit("used_memory_startup"); lemma_texts_differ("maxfragmentationmemory_desired_reservation", "used_memory_startup"); }
    assert("maxfragmentationmemory_desired_reservation".spec_bytes() != "used_memory_dataset".spec_bytes()) by { reveal_strlit("used_memory_dataset"); lemma_texts_differ("maxfragmentationmemory_desired_reservation", "used_memory_dataset"); }
    assert("maxfragmentationmemory_desired_reservation".spec_bytes() != "number_of_cached_scripts".spec_bytes()) by { reveal_strlit("number_of_cached_scripts"); lemma_texts_differ("maxfragmentationmemory_desired_reservation", "number_of_cached_scripts"); }
    assert("maxfragmentationmemory_desired_reservation".spec_bytes() != "number_of_functions".spec_bytes()) by { reveal_strlit("number_of_functions"); lemma_texts_differ("maxfragmentationmemory_desired_reservation", "number_of_functions"); }
    assert("maxfragmentationmemory_desired_reservation".spec_bytes() != "number_of_libraries".spec_bytes()) by { reveal_strlit("number_of_libraries"); lemma_texts_differ("maxfragmentationmemory_desired_reservation", "number_of_libraries"); }
    assert("maxfragmentationmemory_desired_reservation".spec_bytes() != "used_memory_vm_functions".spec_bytes()) by { reveal_strlit("used_memory_vm_functions"); lemma_texts_differ("maxfragmentationmemory_desired_reservation", "used_memory_vm_functions"); }
    assert("maxfragmentationmemory_desired_reservation".spec_bytes() != "used_memory_scripts".spec_bytes()) by { reveal_strlit("used_memory_scripts"); lemma_texts_differ("maxfragmentationmemory_desired_reservation", "used_memory_scripts"); }
    assert("maxfragmentationmemory_desired_reservation".spec_bytes() != "used_memory_functions".spec_bytes()) by { reveal_strlit("used_memory_functions"); lemma_texts_differ("maxfragmentationmemory_desired_reservation", "used_memory_functions"); }
    assert("maxfragmentationmemory_desired_reservation".spec_bytes() != "used_memory_vm_total".spec_bytes()) by { reveal_strlit("used_memory_vm_total"); lemma_texts_differ("maxfragmentationmemory_desired_reservation", "used_memory_vm_total"); }
    assert("maxfragmentationmemory_desired_reservation".spec_bytes() != "maxmemory".spec_bytes()) by { reveal_strlit("maxmemory"); lemma_texts_differ("maxfragmentationmemory_desired_reservation", "maxmemory"); }
    assert("maxfragmentationmemory_desired_reservation".spec_bytes() != "maxmemory_reservation".spec_bytes()) by { reveal_strlit("maxmemory_reservation"); lemma_texts_differ("maxfragmentationmemory_desired_reservation", "maxmemory_reservation"); }
    assert("maxfragmentationmemory_desired_reservation".spec_bytes() != "maxmemory_desired_reservation".spec_bytes()) by { reveal_strlit("maxmemory_desired_reservation"); lemma_texts_differ("maxfragmentationmemory_desired_reservation", "maxmemory_desired_reservation"); }
    assert("maxfragmentationmemory_desired_reservation".spec_bytes() != "maxfragmentationmemory_reservation".spec_bytes()) by { reveal_strlit("maxfragmentationmemory_reservation"); lemma_texts_differ("maxfragmentationmemory_desired_reservation", "maxfragmentationmemory_reservation"); }
}

/// The field `mem_fragmentation_ratio` is reported as the gauge `mem_fragmentation_ratio` where part 1 of the table is read.
pub proof fn lemma_field_mem_fragmentation_ratio()
    ensures
        table_part_1("mem_fragmentation_ratio".spec_bytes()) == Some(
            GenericMetric { kind: Kind::Gauge, name: "mem_fragmentation_ratio", description: "Ratio between used_memory_rss and used_memory. Note that this doesn't only includes fragmentation, but also other process overheads (see the allocator_* metrics), and also overheads like code, shared libraries, stack, etc", micros: false },
        ),
{
    reveal_strlit("mem_fragmentation_ratio");
    assert("mem_fragmentation_ratio".spec_bytes() != "used_memory_peak".spec_bytes()) by { reveal_strlit("used_memory_peak"); lemma_texts_differ("mem_fragmentation_ratio", "used_memory_peak"); }
    assert("mem_fragmentation_ratio".spec_bytes() != "used_memory_lua".spec_bytes()) by { reveal_strlit("used_memory_lua"); lemma_texts_differ("mem_fragmentation_ratio", "used_memory_lua"); }
    assert("mem_fragmentation_ratio".spec_bytes() != "used_memory_vm_eval".spec_bytes()) by { reveal_strlit("used_memory_vm_eval"); lemma_texts_differ("mem_fragmentation_ratio", "used_memory_vm_eval"); }
    assert("mem_fragmentation_ratio".spec_bytes() != "used_memory_scripts_eval".spec_bytes()) by { reveal_strlit("used_memory_scripts_eval"); lemma_texts_differ("mem_fragmentation_ratio", "used_memory_scripts_eval"); }
    assert("mem_fragmentation_ratio".spec_bytes() != "used_memory_overhead".spec_bytes()) by { reveal_strlit("used_memory_overhead"); lemma_texts_differ("mem_fragmentation_ratio", "used_memory_overhead"); }
    assert("mem_fragmentation_ratio".spec_bytes() != "used_memory_startup".spec_bytes()) by { reveal_strlit("used_memory_startup"); lemma_texts_differ("mem_fragmentation_ratio", "used_memory_startup"); }
    assert("mem_fragmentation_ratio".spec_bytes() != "used_memory_dataset".spec_bytes()) by { reveal_strlit("used_memory_dataset"); lemma_texts_differ("mem_fragmentation_ratio", "used_memory_dataset"); }
    assert("mem_fragmentation_ratio".spec_bytes() != "number_of_cached_scripts".spec_bytes()) by { reveal_strlit("number_of_cached_scripts"); lemma_texts_differ("mem_fragmentation_ratio", "number_of_cached_scripts"); }
    assert("mem_fragmentation_ratio".spec_bytes() != "number_of_functions".spec_bytes()) by { reveal_strlit("number_of_functions"); lemma_texts_differ("mem_fragmentation_ratio", "number_of_functions"); }
    assert("mem_fragmentation_ratio".spec_bytes() != "number_of_libraries".spec_bytes()) by { reveal_strlit("number_of_libraries"); lemma_texts_differ("mem_fragmentation_ratio", "number_of_libraries"); }
    assert("mem_fragmentation_ratio".spec_bytes() != "used_memory_vm_functions".spec_bytes()) by { reveal_strlit("used_memory_vm_functions"); lemma_texts_differ("mem_fragmentation_ratio", "used_memory_vm_functions"); }
    assert("mem_fragmentation_ratio".spec_bytes() != "used_memory_scripts".spec_bytes()) by { reveal_strlit("used_memory_scripts"); lemma_texts_differ("mem_fragmentation_ratio", "used_memory_scripts"); }
    assert("mem_fragmentation_ratio".spec_bytes() != "used_memory_functions".spec_bytes()) by { reveal_strlit("used_memory_functions"); lemma_texts_differ("mem_fragmentation_ratio", "used_memory_functions"); }
    assert("mem_fragmentation_ratio".spec_bytes() != "used_memory_vm_total".spec_bytes()) by { reveal_strlit("used_memory_vm_total"); lemma_texts_differ("mem_fragmentation_ratio", "used_memory_vm_total"); }
    assert("mem_fragmentation_ratio".spec_bytes() != "maxmemory".spec_bytes()) by { reveal_strlit("maxmemory"); lemma_texts_differ("mem_fragmentation_ratio", "maxmemory"); }
    assert("mem_fragmentation_ratio".spec_bytes() != "maxmemory_reservation".spec_bytes()) by { reveal_strlit("maxmemory_reservation"); lemma_texts_differ("mem_fragmentation_ratio", "maxmemory_reservation"); }
    assert("mem_fragmentation_ratio".spec_bytes() != "maxmemory_desired_reservation".spec_bytes()) by { reveal_strlit("maxmemory_desired_reservation"); lemma_texts_differ("mem_fragmentation_ratio", "maxmemory_desired_reservation"); }
    assert("mem_fragmentation_ratio".spec_bytes() != "maxfragmentationmemory_reservation".spec_bytes()) by { reveal_strlit("maxfragmentationmemory_reservation"); lemma_texts_differ("mem_fragmentation_ratio", "maxfragmentationmemory_reservation"); }
    assert("mem_fragmentation_ratio".spec_bytes() != "maxfragmentationmemory_desired_reservation".spec_bytes()) by { reveal_strlit("maxfragmentationmemory_desired_reservation"); lemma_texts_differ("mem_fragmentation_ratio", "maxfragmentationmemory_desired_reservation"); }
}

/// The field `mem_fragmentation_bytes` is reported as the gauge `mem_fragmentation_bytes` where part 1 of the table is read.
pub proof fn lemma_field_mem_fragmentation_bytes()
    ensures
        table_part_1("mem_fragmentation_bytes".spec_bytes()) == Some(
            GenericMetric { kind: Kind::Gauge, name: "mem_fragmentation_bytes", description: "Delta between used_memory_rss and used_memory. Note that when the total fragmentation bytes is low (few megabytes), a high ratio (e.g. 1.5 and above) is not an indication of an issue", micros: false },
        ),
{
    reveal_strlit("mem_fragmentation_bytes");
    assert("mem_fragmentation_bytes".spec_bytes() != "used_memory_peak".spec_bytes()) by { reveal_strlit("used_memory_peak"); lemma_texts_differ("mem_fragmentation_bytes", "used_memory_peak"); }
    assert("mem_fragmentation_bytes".spec_bytes() != "used_memory_lua".spec_bytes()) by { reveal_strlit("used_memory_lua"); lemma_texts_differ("mem_fragmentation_bytes", "used_memory_lua"); }
    assert("mem_fragmentation_bytes".spec_bytes() != "used_memory_vm_eval".spec_bytes()) by { reveal_strlit("used_memory_vm_eval"); lemma_texts_differ("mem_fragmentation_bytes", "used_memory_vm_eval"); }
    assert("mem_fragmentation_bytes".spec_bytes() != "used_memory_scripts_eval".spec_bytes()) by { reveal_strlit("used_memory_scripts_eval"); lemma_texts_differ("mem_fragmentation_bytes", "used_memory_scripts_eval"); }
    assert("mem_fragmentation_bytes".spec_bytes() != "used_memory_overhead".spec_bytes()) by { reveal_strlit("used_memory_overhead"); lemma_texts_differ("mem_fragmentation_bytes", "used_memory_overhead"); }
    assert("mem_fragmentation_bytes".spec_bytes() != "used_memory_startup".spec_bytes()) by { reveal_strlit("used_memory_startup"); lemma_texts_differ("mem_fragmentation_bytes", "used_memory_startup"); }
    assert("mem_fragmentation_bytes".spec_bytes() != "used_memory_dataset".spec_bytes()) by { reveal_strlit("used_memory_dataset"); lemma_texts_differ("mem_fragmentation_bytes", "used_memory_dataset"); }
    assert("mem_fragmentation_bytes".spec_bytes() != "number_of_cached_scripts".spec_bytes()) by { reveal_strlit("number_of_cached_scripts"); lemma_texts_differ("mem_fragmentation_bytes", "number_of_cached_scripts"); }
    assert("mem_fragmentation_bytes".spec_bytes() != "number_of_functions".spec_bytes()) by { reveal_strlit("number_of_functions"); lemma_texts_differ("mem_fragmentation_bytes", "number_of_functions"); }
    assert("mem_fragmentation_bytes".spec_bytes() != "number_of_libraries".spec_bytes()) by { reveal_strlit("number_of_libraries"); lemma_texts_differ("mem_fragmentation_bytes", "number_of_libraries"); }
    assert("mem_fragmentation_bytes".spec_bytes() != "used_memory_vm_functions".spec_bytes()) by { reveal_strlit("used_memory_vm_functions"); lemma_texts_differ("mem_fragmentation_bytes", "used_memory_vm_functions"); }
    assert("mem_fragmentation_bytes".spec_bytes() != "used_memory_scripts".spec_bytes()) by { reveal_strlit("used_memory_scripts"); lemma_texts_differ("mem_fragmentation_bytes", "used_memory_scripts"); }
    assert("mem_fragmentation_bytes".spec_bytes() != "used_memory_functions".spec_bytes()) by { reveal_strlit("used_memory_functions"); lemma_texts_differ("mem_fragmentation_bytes", "used_memory_functions"); }
    assert("mem_fragmentation_bytes".spec_bytes() != "used_memory_vm_total".spec_bytes()) by { reveal_strlit("used_memory_vm_total"); lemma_texts_differ("mem_fragmentation_bytes", "used_memory_vm_total"); }
    assert("mem_fragmentation_bytes".spec_bytes() != "maxmemory".spec_bytes()) by { reveal_strlit("maxmemory"); lemma_texts_differ("mem_fragmentation_bytes", "maxmemory"); }
    assert("mem_fragmentation_bytes".spec_bytes() != "maxmemory_reservation".spec_bytes()) by { reveal_strlit("maxmemory_reservation"); lemma_texts_differ("mem_fragmentation_bytes", "maxmemory_reservation"); }
    assert("mem_fragmentation_bytes".spec_bytes() != "maxmemory_desired_reservation".spec_bytes()) by { reveal_strlit("maxmemory_desired_reservation"); lemma_texts_differ("mem_fragmentation_bytes", "maxmemory_desired_reservation"); }
    assert("mem_fragmentation_bytes".spec_bytes() != "maxfragmentationmemory_reservation".spec_bytes()) by { reveal_strlit("maxfragmentationmemory_reservation"); lemma_texts_differ("mem_fragmentation_bytes", "maxfragmentationmemory_reservation"); }
    assert("mem_fragmentation_bytes".spec_bytes() != "maxfragmentationmemory_desired_reservation".spec_bytes()) by { reveal_strlit("maxfragmentationmemory_desired_reservation"); lemma_texts_differ("mem_fragmentation_bytes", "maxfragmentationmemory_desired_reservation"); }
    assert("mem_fragmentation_bytes".spec_bytes() != "mem_fragmentation_ratio".spec_bytes()) by {
        reveal_strlit("mem_fragmentation_ratio");
        assert("mem_fragmentation_bytes"@[18] != "mem_fragmentation_ratio"@[18]);
        lemma_texts_differ("mem_fragmentation_bytes", "mem_fragmentation_ratio");
    }
}

/// The field `mem_clients_slaves` is reported as the gauge `mem_clients_slaves` where part 1 of the table is read.
pub proof fn lemma_field_mem_clients_slaves()
    ensures
        table_part_1("mem_clients_slaves".spec_bytes()) == Some(
            GenericMetric { kind: Kind::Gauge, name: "mem_clients_slaves", description: "Memory used by replica clients - Starting Redis 7.0, replica buffers share memory with the replication backlog, so this field can show 0 when replicas don't trigger an increase of memory usage", micros: false },
        ),
{
    reveal_strlit("mem_clients_slaves");
    assert("mem_clients_slaves".spec_bytes() != "used_memory_peak".spec_bytes()) by { reveal_strlit("used_memory_peak"); lemma_texts_differ("mem_clients_slaves", "used_memory_peak"); }
    assert("mem_clients_slaves".spec_bytes() != "used_memory_lua".spec_bytes()) by { reveal_strlit("used_memory_lua"); lemma_texts_differ("mem_clients_slaves", "used_memory_lua"); }
    assert("mem_clients_slaves".spec_bytes() != "used_memory_vm_eval".spec_bytes()) by { reveal_strlit("used_memory_vm_eval"); lemma_texts_differ("mem_clients_slaves", "used_memory_vm_eval"); }
    assert("mem_clients_slaves".spec_bytes() != "used_memory_scripts_eval".spec_bytes()) by { reveal_strlit("used_memory_scripts_eval"); lemma_texts_differ("mem_clients_slaves", "used_memory_scripts_eval"); }
    assert("mem_clients_slaves".spec_bytes() != "used_memory_overhead".spec_bytes()) by { reveal_strlit("used_memory_overhead"); lemma_texts_differ("mem_clients_slaves", "used_memory_overhead"); }
    assert("mem_clients_slaves".spec_bytes() != "used_memory_startup".spec_bytes()) by { reveal_strlit("used_memory_startup"); lemma_texts_differ("mem_clients_slaves", "used_memory_startup"); }
    assert("mem_clients_slaves".spec_bytes() != "used_memory_dataset".spec_bytes()) by { reveal_strlit("used_memory_dataset"); lemma_texts_differ("mem_clients_slaves", "used_memory_dataset"); }
    assert("mem_clients_slaves".spec_bytes() != "number_of_cached_scripts".spec_bytes()) by { reveal_strlit("number_of_cached_scripts"); lemma_texts_differ("mem_clients_slaves", "number_of_cached_scripts"); }
    assert("mem_clients_slaves".spec_bytes() != "number_of_functions".spec_bytes()) by { reveal_strlit("number_of_functions"); lemma_texts_differ("mem_clients_slaves", "number_of_functions"); }
    assert("mem_clients_slaves".spec_bytes() != "number_of_libraries".spec_bytes()) by { reveal_strlit("number_of_libraries"); lemma_texts_differ("mem_clients_slaves", "number_of_libraries"); }
    assert("mem_clients_slaves".spec_bytes() != "used_memory_vm_functions".spec_bytes()) by { reveal_strlit("used_memory_vm_functions"); lemma_texts_differ("mem_clients_slaves", "used_memory_vm_functions"); }
    assert("mem_clients_slaves".spec_bytes() != "used_memory_scripts".spec_bytes()) by { reveal_strlit("used_memory_scripts"); lemma_texts_differ("mem_clients_slaves", "used_memory_scripts"); }
    assert("mem_clients_slaves".spec_bytes() != "used_memory_functions".spec_bytes()) by { reveal_strlit("used_memory_functions"); lemma_texts_differ("mem_clients_slaves", "used_memory_functions"); }
    assert("mem_clients_slaves".spec_bytes() != "used_memory_vm_total".spec_bytes()) by { reveal_strlit("used_memory_vm_total"); lemma_texts_differ("mem_clients_slaves", "used_memory_vm_total"); }
    assert("mem_clients_slaves".spec_bytes() != "maxmemory".spec_bytes()) by { reveal_strlit("maxmemory"); lemma_texts_differ("mem_clients_slaves", "maxmemory"); }
    assert("mem_clients_slaves".spec_bytes() != "maxmemory_reservation".spec_bytes()) by { reveal_strlit("maxmemory_reservation"); lemma_texts_differ("mem_clients_slaves", "maxmemory_reservation"); }
    assert("mem_clients_slaves".spec_bytes() != "maxmemory_desired_reservation".spec_bytes()) by { reveal_strlit("maxmemory_desired_reservation"); lemma_texts_differ("mem_clients_slaves", "maxmemory_desired_reservation"); }
    assert("mem_clients_slaves".spec_bytes() != "maxfragmentationmemory_reservation".spec_bytes()) by { reveal_strlit("maxfragmentationmemory_reservation"); lemma_texts_differ("mem_clients_slaves", "maxfragmentationmemory_reservation"); }
    assert("mem_clients_slaves".spec_bytes() != "maxfragmentationmemory_desired_reservation".spec_bytes()) by { reveal_strlit("maxfragmentationmemory_desired_reservation"); lemma_texts_differ("mem_clients_slaves", "maxfragmentationmemory_desired_reservation"); }
    assert("mem_clients_slaves".spec_bytes() != "mem_fragmentation_ratio".spec_bytes()) by { reveal_strlit("mem_fragmentation_ratio"); lemma_texts_differ("mem_clients_slaves", "mem_fragmentation_ratio"); }
    assert("mem_clients_slaves".spec_bytes() != "mem_fragmentation_bytes".spec_bytes()) by { reveal_strlit("mem_fragmentation_bytes"); lemma_texts_differ("mem_clients_slaves", "mem_fragmentation_bytes"); }
}

/// The field `mem_clients_normal` is reported as the gauge `mem_clients_normal` where part 1 of the table is read.
pub proof fn lemma_field_mem_clients_normal()
    ensures
        table_part_1("mem_clients_normal".spec_bytes()) == Some(
            GenericMetric { kind: Kind::Gauge, name: "mem_clients_normal", description: "Memory used by normal clients", micros: false },
        ),
{
    reveal_strlit("mem_clients_normal");
    assert("mem_clients_normal".spec_bytes() != "used_memory_peak".spec_bytes()) by { reveal_strlit("used_memory_peak"); lemma_texts_differ("mem_clients_normal", "used_memory_peak"); }
    assert("mem_clients_normal".spec_bytes() != "used_memory_lua".spec_bytes()) by { reveal_strlit("used_memory_lua"); lemma_texts_differ("mem_clients_normal", "used_memory_lua"); }
    assert("mem_clients_normal".spec_bytes() != "used_memory_vm_eval".spec_bytes()) by { reveal_strlit("used_memory_vm_eval"); lemma_texts_differ("mem_clients_normal", "used_memory_vm_eval"); }
    assert("mem_clients_normal".spec_bytes() != "used_memory_scripts_eval".spec_bytes()) by { reveal_strlit("used_memory_scripts_eval"); lemma_texts_differ("mem_clients_normal", "used_memory_scripts_eval"); }
    assert("mem_clients_normal".spec_bytes() != "used_memory_overhead".spec_bytes()) by { reveal_strlit("used_memory_overhead"); lemma_texts_differ("mem_clients_normal", "used_memory_overhead"); }
    assert("mem_clients_normal".spec_bytes() != "used_memory_startup".spec_bytes()) by { reveal_strlit("used_memory_startup"); lemma_texts_differ("mem_clients_normal", "used_memory_startup"); }
    assert("mem_clients_normal".spec_bytes() != "used_memory_dataset".spec_bytes()) by { reveal_strlit("used_memory_dataset"); lemma_texts_differ("mem_clients_normal", "used_memory_dataset"); }
    assert("mem_clients_normal".spec_bytes() != "number_of_cached_scripts".spec_bytes()) by { reveal_strlit("number_of_cached_scripts"); lemma_texts_differ("mem_clients_normal", "number_of_cached_scripts"); }
    assert("mem_clients_normal".spec_bytes() != "number_of_functions".spec_bytes()) by { reveal_strlit("number_of_functions"); lemma_texts_differ("mem_clients_normal", "number_of_functions"); }
    assert("mem_clients_normal".spec_bytes() != "number_of_libraries".spec_bytes()) by { reveal_strlit("number_of_libraries"); lemma_texts_differ("mem_clients_normal", "number_of_libraries"); }
    assert("mem_clients_normal".spec_bytes() != "used_memory_vm_functions".spec_bytes()) by { reveal_strlit("used_memory_vm_functions"); lemma_texts_differ("mem_clients_normal", "used_memory_vm_functions"); }
    assert("mem_clients_normal".spec_bytes() != "used_memory_scripts".spec_bytes()) by { reveal_strlit("used_memory_scripts"); lemma_texts_differ("mem_clients_normal", "used_memory_scripts"); }
    assert("mem_clients_normal".spec_bytes() != "used_memory_functions".spec_bytes()) by { reveal_strlit("used_memory_functions"); lemma_texts_differ("mem_clients_normal", "used_memory_functions"); }
    assert("mem_clients_normal".spec_bytes() != "used_memory_vm_total".spec_bytes()) by { reveal_strlit("used_memory_vm_total"); lemma_texts_differ("mem_clients_normal", "used_memory_vm_total"); }
    assert("mem_clients_normal".spec_bytes() != "maxmemory".spec_bytes()) by { reveal_strlit("maxmemory"); lemma_texts_differ("mem_clients_normal", "maxmemory"); }
    assert("mem_clients_normal".spec_bytes() != "maxmemory_reservation".spec_bytes()) by { reveal_strlit("maxmemory_reservation"); lemma_texts_differ("mem_clients_normal", "maxmemory_reservation"); }
    assert("mem_clients_normal".spec_bytes() != "maxmemory_desired_reservation".spec_bytes()) by { reveal_strlit("maxmemory_desired_reservation"); lemma_texts_differ("mem_clients_normal", "maxmemory_desired_reservation"); }
    assert("mem_clients_normal".spec_bytes() != "maxfragmentationmemory_reservation".spec_bytes()) by { reveal_strlit("maxfragmentationmemory_reservation"); lemma_texts_differ("mem_clients_normal", "maxfragmentationmemory_reservation"); }
    assert("mem_clients_normal".spec_bytes() != "maxfragmentationmemory_desired_reservation".spec_bytes()) by { reveal_strlit("maxfragmentationmemory_desired_reservation"); lemma_texts_differ("mem_clients_normal", "maxfragmentationmemory_desired_reservation"); }
    assert("mem_clients_normal".spec_bytes() != "mem_fragmentation_ratio".spec_bytes()) by { reveal_strlit("mem_fragmentation_ratio"); lemma_texts_differ("mem_clients_normal", "mem_fragmentation_ratio"); }
    assert("mem_clients_normal".spec_bytes() != "mem_fragmentation_bytes".spec_bytes()) by { reveal_strlit("mem_fragmentation_bytes"); lemma_texts_differ("mem_clients_normal", "mem_fragmentation_bytes"); }
    assert("mem_clients_normal".spec_bytes() != "mem_clients_slaves".spec_bytes()) by {
        reveal_strlit("mem_clients_slaves");
        assert("mem_clients_normal"@[12] != "mem_clients_slaves"@[12]);
        lemma_texts_differ("mem_clients_normal", "mem_clients_slaves");
    }
}

/// The field `mem_cluster_links` is reported as the gauge `mem_cluster_links_bytes` where part 1 of the table is read.
pub proof fn lemma_field_mem_cluster_links()
    ensures
        table_part_1("mem_cluster_links".spec_bytes()) == Some(
            GenericMetric { kind: Kind::Gauge, name: "mem_cluster_links_bytes", description: "Memory used by links to peers on the cluster bus when cluster mode is enabled", micros: false },
        ),
{
    reveal_strlit("mem_cluster_links");
    assert("mem_cluster_links".spec_bytes() != "used_memory_peak".spec_bytes()) by { reveal_strlit("used_memory_peak"); lemma_texts_differ("mem_cluster_links", "used_memory_peak"); }
    assert("mem_cluster_links".spec_bytes() != "used_memory_lua".spec_bytes()) by { reveal_strlit("used_memory_lua"); lemma_texts_differ("mem_cluster_links", "used_memory_lua"); }
    assert("mem_cluster_links".spec_bytes() != "used_memory_vm_eval".spec_bytes()) by { reveal_strlit("used_memory_vm_eval"); lemma_texts_differ("mem_cluster_links", "used_memory_vm_eval"); }
    assert("mem_cluster_links".spec_bytes() != "used_memory_scripts_eval".spec_bytes()) by { reveal_strlit("used_memory_scripts_eval"); lemma_texts_differ("mem_cluster_links", "used_memory_scripts_eval"); }
    assert("mem_cluster_links".spec_bytes() != "used_memory_overhead".spec_bytes()) by { reveal_strlit("used_memory_overhead"); lemma_texts_differ("mem_cluster_links", "used_memory_overhead"); }
    assert("mem_cluster_links".spec_bytes() != "used_memory_startup".spec_bytes()) by { reveal_strlit("used_memory_startup"); lemma_texts_differ("mem_cluster_links", "used_memory_startup"); }
    assert("mem_cluster_links".spec_bytes() != "used_memory_dataset".spec_bytes()) by { reveal_strlit("used_memory_dataset"); lemma_texts_differ("mem_cluster_links", "used_memory_dataset"); }
    assert("mem_cluster_links".spec_bytes() != "number_of_cached_scripts".spec_bytes()) by { reveal_strlit("number_of_cached_scripts"); lemma_texts_differ("mem_cluster_links", "number_of_cached_scripts"); }
    assert("mem_cluster_links".spec_bytes() != "number_of_functions".spec_bytes()) by { reveal_strlit("number_of_functions"); lemma_texts_differ("mem_cluster_links", "number_of_functions"); }
    assert("mem_cluster_links".spec_bytes() != "number_of_libraries".spec_bytes()) by { reveal_strlit("number_of_libraries"); lemma_texts_differ("mem_cluster_links", "number_of_libraries"); }
    assert("mem_cluster_links".spec_bytes() != "used_memory_vm_functions".spec_bytes()) by { reveal_strlit("used_memory_vm_functions"); lemma_texts_differ("mem_cluster_links", "used_memory_vm_functions"); }
    assert("mem_cluster_links".spec_bytes() != "used_memory_scripts".spec_bytes()) by { reveal_strlit("used_memory_scripts"); lemma_texts_differ("mem_cluster_links", "used_memory_scripts"); }
    assert("mem_cluster_links".spec_bytes() != "used_memory_functions".spec_bytes()) by { reveal_strlit("used_memory_functions"); lemma_texts_differ("mem_cluster_links", "used_memory_functions"); }
    assert("mem_cluster_links".spec_bytes() != "used_memory_vm_total".spec_bytes()) by { reveal_strlit("used_memory_vm_total"); lemma_texts_differ("mem_cluster_links", "used_memory_vm_total"); }
    assert("mem_cluster_links".spec_bytes() != "maxmemory".spec_bytes()) by { reveal_strlit("maxmemory"); lemma_texts_differ("mem_cluster_links", "maxmemory"); }
    assert("mem_cluster_links".spec_bytes() != "maxmemory_reservation".spec_bytes()) by { reveal_strlit("maxmemory_reservation"); lemma_texts_differ("mem_cluster_links", "maxmemory_reservation"); }
    assert("mem_cluster_links".spec_bytes() != "maxmemory_desired_reservation".spec_bytes()) by { reveal_strlit("maxmemory_desired_reservation"); lemma_texts_differ("mem_cluster_links", "maxmemory_desired_reservation"); }
    assert("mem_cluster_links".spec_bytes() != "maxfragmentationmemory_reservation".spec_bytes()) by { reveal_strlit("maxfragmentationmemory_reservation"); lemma_texts_differ("mem_cluster_links", "maxfragmentationmemory_reservation"); }
    assert("mem_cluster_links".spec_bytes() != "maxfragmentationmemory_desired_reservation".spec_bytes()) by { reveal_strlit("maxfragmentationmemory_desired_reservation"); lemma_texts_differ("mem_cluster_links", "maxfragmentationmemory_desired_reservation"); }
    assert("mem_cluster_links".spec_bytes() != "mem_fragmentation_ratio".spec_bytes()) by { reveal_strlit("mem_fragmentation_ratio"); lemma_texts_differ("mem_cluster_links", "mem_fragmentation_ratio"); }
    assert("mem_cluster_links".spec_bytes() != "mem_fragmentation_bytes".spec_bytes()) by { reveal_strlit("mem_fragmentation_bytes"); lemma_texts_differ("mem_cluster_links", "mem_fragmentation_bytes"); }
    assert("mem_cluster_links".spec_bytes() != "mem_clients_slaves".spec_bytes()) by { reveal_strlit("mem_clients_slaves"); lemma_texts_differ("mem_cluster_links", "mem_clients_slaves"); }
    assert("mem_cluster_links".spec_bytes() != "mem_clients_normal".spec_bytes()) by { reveal_strlit("mem_clients_normal"); lemma_texts_differ("mem_cluster_links", "mem_clients_normal"); }
}

/// The field `mem_aof_buffer` is reported as the gauge `mem_aof_buffer_bytes` where part 1 of the table is read.
pub proof fn lemma_field_mem_aof_buffer()
    ensures
        table_part_1("mem_aof_buffer".spec_bytes()) == Some(
            GenericMetric { kind: Kind::Gauge, name: "mem_aof_buffer_bytes", description: "Transient memory used for AOF and AOF rewrite buffers", micros: false },
        ),
{
    reveal_strlit("mem_aof_buffer");
    assert("mem_aof_buffer".spec_bytes() != "used_memory_peak".spec_bytes()) by { reveal_strlit("used_memory_peak"); lemma_texts_differ("mem_aof_buffer", "used_memory_peak"); }
    assert("mem_aof_buffer".spec_bytes() != "used_memory_lua".spec_bytes()) by { reveal_strlit("used_memory_lua"); lemma_texts_differ("mem_aof_buffer", "used_memory_lua"); }
    assert("mem_aof_buffer".spec_bytes() != "used_memory_vm_eval".spec_bytes()) by { reveal_strlit("used_memory_vm_eval"); lemma_texts_differ("mem_aof_buffer", "used_memory_vm_eval"); }
    assert("mem_aof_buffer".spec_bytes() != "used_memory_scripts_eval".spec_bytes()) by { reveal_strlit("used_memory_scripts_eval"); lemma_texts_differ("mem_aof_buffer", "used_memory_scripts_eval"); }
    assert("mem_aof_buffer".spec_bytes() != "used_memory_overhead".spec_bytes()) by { reveal_strlit("used_memory_overhead"); lemma_texts_differ("mem_aof_buffer", "used_memory_overhead"); }
    assert("mem_aof_buffer".spec_bytes() != "used_memory_startup".spec_bytes()) by { reveal_strlit("used_memory_startup"); lemma_texts_differ("mem_aof_buffer", "used_memory_startup"); }
    assert("mem_aof_buffer".spec_bytes() != "used_memory_dataset".spec_bytes()) by { reveal_strlit("used_memory_dataset"); lemma_texts_differ("mem_aof_buffer", "used_memory_dataset"); }
    assert("mem_aof_buffer".spec_bytes() != "number_of_cached_scripts".spec_bytes()) by { reveal_strlit("number_of_cached_scripts"); lemma_texts_differ("mem_aof_buffer", "number_of_cached_scripts"); }
    assert("mem_aof_buffer".spec_bytes() != "number_of_functions".spec_bytes()) by { reveal_strlit("number_of_functions"); lemma_texts_differ("mem_aof_buffer", "number_of_functions"); }
    assert("mem_aof_buffer".spec_bytes() != "number_of_libraries".spec_bytes()) by { reveal_strlit("number_of_libraries"); lemma_texts_differ("mem_aof_buffer", "number_of_libraries"); }
    assert("mem_aof_buffer".spec_bytes() != "used_memory_vm_functions".spec_bytes()) by { reveal_strlit("used_memory_vm_functions"); lemma_texts_differ("mem_aof_buffer", "used_memory_vm_functions"); }
    assert("mem_aof_buffer".spec_bytes() != "used_memory_scripts".spec_bytes()) by { reveal_strlit("used_memory_scripts"); lemma_texts_differ("mem_aof_buffer", "used_memory_scripts"); }
    assert("mem_aof_buffer".spec_bytes() != "used_memory_functions".spec_bytes()) by { reveal_strlit("used_memory_functions"); lemma_texts_differ("mem_aof_buffer", "used_memory_functions"); }
    assert("mem_aof_buffer".spec_bytes() != "used_memory_vm_total".spec_bytes()) by { reveal_strlit("used_memory_vm_total"); lemma_texts_differ("mem_aof_buffer", "used_memory_vm_total"); }
    assert("mem_aof_buffer".spec_bytes() != "maxmemory".spec_bytes()) by { reveal_strlit("maxmemory"); lemma_texts_differ("mem_aof_buffer", "maxmemory"); }
    assert("mem_aof_buffer".spec_bytes() != "maxmemory_reservation".spec_bytes()) by { reveal_strlit("maxmemory_reservation"); lemma_texts_differ("mem_aof_buffer", "maxmemory_reservation"); }
    assert("mem_aof_buffer".spec_bytes() != "maxmemory_desired_reservation".spec_bytes()) by { reveal_strlit("maxmemory_desired_reservation"); lemma_texts_differ("mem_aof_buffer", "maxmemory_desired_reservation"); }
    assert("mem_aof_buffer".spec_bytes() != "maxfragmentationmemory_reservation".spec_bytes()) by { reveal_strlit("maxfragmentationmemory_reservation"); lemma_texts_differ("mem_aof_buffer", "maxfragmentationmemory_reservation"); }
    assert("mem_aof_buffer".spec_bytes() != "maxfragmentationmemory_desired_reservation".spec_bytes()) by { reveal_strlit("maxfragmentationmemory_desired_reservation"); lemma_texts_differ("mem_aof_buffer", "maxfragmentationmemory_desired_reservation"); }
    assert("mem_aof_buffer".spec_bytes() != "mem_fragmentation_ratio".spec_bytes()) by { reveal_strlit("mem_fragmentation_ratio"); lemma_texts_differ("mem_aof_buffer", "mem_fragmentation_ratio"); }
    assert("mem_aof_buffer".spec_bytes() != "mem_fragmentation_bytes".spec_bytes()) by { reveal_strlit("mem_fragmentation_bytes"); lemma_texts_differ("mem_aof_buffer", "mem_fragmentation_bytes"); }
    assert("mem_aof_buffer".spec_bytes() != "mem_clients_slaves".spec_bytes()) by { reveal_strlit("mem_clients_slaves"); lemma_texts_differ("mem_aof_buffer", "mem_clients_slaves"); }
    assert("mem_aof_buffer".spec_bytes() != "mem_clients_normal".spec_bytes()) by { reveal_strlit("mem_clients_normal"); lemma_texts_differ("mem_aof_buffer", "mem_clients_normal"); }
    assert("mem_aof_buffer".spec_bytes() != "mem_cluster_links".spec_bytes()) by { reveal_strlit("mem_cluster_links"); lemma_texts_differ("mem_aof_buffer", "mem_cluster_links"); }
}

/// The field `mem_replication_backlog` is reported as the gauge `mem_replication_backlog_bytes` where part 1 of the table is read.
pub proof fn lemma_field_mem_replication_backlog()
    ensures
        table_part_1("mem_replication_backlog".spec_bytes()) == Some(
            GenericMetric { kind: Kind::Gauge, name: "mem_replication_backlog_bytes", description: "Memory used by replication backlog", micros: false },
        ),
{
    reveal_strlit("mem_replication_backlog");
    assert("mem_replication_backlog".spec_bytes() != "used_memory_peak".spec_bytes()) by { reveal_strlit("used_memory_peak"); lemma_texts_differ("mem_replication_backlog", "used_memory_peak"); }
    assert("mem_replication_backlog".spec_bytes() != "used_memory_lua".spec_bytes()) by { reveal_strlit("used_memory_lua"); lemma_texts_differ("mem_replication_backlog", "used_memory_lua"); }
    assert("mem_replication_backlog".spec_bytes() != "used_memory_vm_eval".spec_bytes()) by { reveal_strlit("used_memory_vm_eval"); lemma_texts_differ("mem_replication_backlog", "used_memory_vm_eval"); }
    assert("mem_replication_backlog".spec_bytes() != "used_memory_scripts_eval".spec_bytes()) by { reveal_strlit("used_memory_scripts_eval"); lemma_texts_differ("mem_replication_backlog", "used_memory_scripts_eval"); }
    assert("mem_replication_backlog".spec_bytes() != "used_memory_overhead".spec_bytes()) by { reveal_strlit("used_memory_overhead"); lemma_texts_differ("mem_replication_backlog", "used_memory_overhead"); }
    assert("mem_replication_backlog".spec_bytes() != "used_memory_startup".spec_bytes()) by { reveal_strlit("used_memory_startup"); lemma_texts_differ("mem_replication_backlog", "used_memory_startup"); }
    assert("mem_replication_backlog".spec_bytes() != "used_memory_dataset".spec_bytes()) by { reveal_strlit("used_memory_dataset"); lemma_texts_differ("mem_replication_backlog", "used_memory_dataset"); }
    assert("mem_replication_backlog".spec_bytes() != "number_of_cached_scripts".spec_bytes()) by { reveal_strlit("number_of_cached_scripts"); lemma_texts_differ("mem_replication_backlog", "number_of_cached_scripts"); }
    assert("mem_replication_backlog".spec_bytes() != "number_of_functions".spec_bytes()) by { reveal_strlit("number_of_functions"); lemma_texts_differ("mem_replication_backlog", "number_of_functions"); }
    assert("mem_replication_backlog".spec_bytes() != "number_of_libraries".spec_bytes()) by { reveal_strlit("number_of_libraries"); lemma_texts_differ("mem_replication_backlog", "number_of_libraries"); }
    assert("mem_replication_backlog".spec_bytes() != "used_memory_vm_functions".spec_bytes()) by { reveal_strlit("used_memory_vm_functions"); lemma_texts_differ("mem_replication_backlog", "used_memory_vm_functions"); }
    assert("mem_replication_backlog".spec_bytes() != "used_memory_scripts".spec_bytes()) by { reveal_strlit("used_memory_scripts"); lemma_texts_differ("mem_replication_backlog", "used_memory_scripts"); }
    assert("mem_replication_backlog".spec_bytes() != "used_memory_functions".spec_bytes()) by { reveal_strlit("used_memory_functions"); lemma_texts_differ("mem_replication_backlog", "used_memory_functions"); }
    assert("mem_replication_backlog".spec_bytes() != "used_memory_vm_total".spec_bytes()) by { reveal_strlit("used_memory_vm_total"); lemma_texts_differ("mem_replication_backlog", "used_memory_vm_total"); }
    assert("mem_replication_backlog".spec_bytes() != "maxmemory".spec_bytes()) by { reveal_strlit("maxmemory"); lemma_texts_differ("mem_replication_backlog", "maxmemory"); }
    assert("mem_replication_backlog".spec_bytes() != "maxmemory_reservation".spec_bytes()) by { reveal_strlit("maxmemory_reservation"); lemma_texts_differ("mem_replication_backlog", "maxmemory_reservation"); }
    assert("mem_replication_backlog".spec_bytes() != "maxmemory_desired_reservation".spec_bytes()) by { reveal_strlit("maxmemory_desired_reservation"); lemma_texts_differ("mem_replication_backlog", "maxmemory_desired_reservation"); }
    assert("mem_replication_backlog".spec_bytes() != "maxfragmentationmemory_reservation".spec_bytes()) by { reveal_strlit("maxfragmentationmemory_reservation"); lemma_texts_differ("mem_replication_backlog", "maxfragmentationmemory_reservation"); }
    assert("mem_replication_backlog".spec_bytes() != "maxfragmentationmemory_desired_reservation".spec_bytes()) by { reveal_strlit("maxfragmentationmemory_desired_reservation"); lemma_texts_differ("mem_replication_backlog", "maxfragmentationmemory_desired_reservation"); }
    assert("mem_replication_backlog".spec_bytes() != "mem_fragmentation_ratio".spec_bytes()) by {
        reveal_strlit("mem_fragmentation_ratio");
        assert("mem_replication_backlog"@[4] != "mem_fragmentation_ratio"@[4]);
        lemma_texts_differ("mem_replication_backlog", "mem_fragmentation_ratio");
    }
    assert("mem_replication_backlog".spec_bytes() != "mem_fragmentation_bytes".spec_bytes()) by {
        reveal_strlit("mem_fragmentation_bytes");
        assert("mem_replication_backlog"@[4] != "mem_fragmentation_bytes"@[4]);
        lemma_texts_differ("mem_replication_backlog", "mem_fragmentation_bytes");
    }
    assert("mem_replication_backlog".spec_bytes() != "mem_clients_slaves".spec_bytes()) by { reveal_strlit("mem_clients_slaves"); lemma_texts_differ("mem_replication_backlog", "mem_clients_slaves"); }
    assert("mem_replication_backlog".spec_bytes() != "mem_clients_normal".spec_bytes()) by { reveal_strlit("mem_clients_normal"); lemma_texts_differ("mem_replication_backlog", "mem_clients_normal"); }
    assert("mem_replication_backlog".spec_bytes() != "mem_cluster_links".spec_bytes()) by { reveal_strlit("mem_cluster_links"); lemma_texts_differ("mem_replication_backlog", "mem_cluster_links"); }
    assert("mem_replication_backlog".spec_bytes() != "mem_aof_buffer".spec_bytes()) by { reveal_strlit("mem_aof_buffer"); lemma_texts_differ("mem_replication_backlog", "mem_aof_buffer"); }
}

/// The field `expired_stale_perc` is reported as the gauge `expired_stale_percentage` where part 1 of the table is read.
pub proof fn lemma_field_expired_stale_perc()
    ensures
        table_part_1("expired_stale_perc".spec_bytes()) == Some(
            GenericMetric { kind: Kind::Gauge, name: "expired_stale_percentage", description: "The percentage of keys probably expired", micros: false },
        ),
{
    reveal_strlit("expired_stale_perc");
    assert("expired_stale_perc".spec_bytes() != "used_memory_peak".spec_bytes()) by { reveal_strlit("used_memory_peak"); lemma_texts_differ("expired_stale_perc", "used_memory_peak"); }
    assert("expired_stale_perc".spec_bytes() != "used_memory_lua".spec_bytes()) by { reveal_strlit("used_memory_lua"); lemma_texts_differ("expired_stale_perc", "used_memory_lua"); }
    assert("expired_stale_perc".spec_bytes() != "used_memory_vm_eval".spec_bytes()) by { reveal_strlit("used_memory_vm_eval"); lemma_texts_differ("expired_stale_perc", "used_memory_vm_eval"); }
    assert("expired_stale_perc".spec_bytes() != "used_memory_scripts_eval".spec_bytes()) by { reveal_strlit("used_memory_scripts_eval"); lemma_texts_differ("expired_stale_perc", "used_memory_scripts_eval"); }
    assert("expired_stale_perc".spec_bytes() != "used_memory_overhead".spec_bytes()) by { reveal_strlit("used_memory_overhead"); lemma_texts_differ("expired_stale_perc", "used_memory_overhead"); }
    assert("expired_stale_perc".spec_bytes() != "used_memory_startup".spec_bytes()) by { reveal_strlit("used_memory_startup"); lemma_texts_differ("expired_stale_perc", "used_memory_startup"); }
    assert("expired_stale_perc".spec_bytes() != "used_memory_dataset".spec_bytes()) by { reveal_strlit("used_memory_dataset"); lemma_texts_differ("expired_stale_perc", "used_memory_dataset"); }
    assert("expired_stale_perc".spec_bytes() != "number_of_cached_scripts".spec_bytes()) by { reveal_strlit("number_of_cached_scripts"); lemma_texts_differ("expired_stale_perc", "number_of_cached_scripts"); }
    assert("expired_stale_perc".spec_bytes() != "number_of_functions".spec_bytes()) by { reveal_strlit("number_of_functions"); lemma_texts_differ("expired_stale_perc", "number_of_functions"); }
    assert("expired_stale_perc".spec_bytes() != "number_of_libraries".spec_bytes()) by { reveal_strlit("number_of_libraries"); lemma_texts_differ("expired_stale_perc", "number_of_libraries"); }
    assert("expired_stale_perc".spec_bytes() != "used_memory_vm_functions".spec_bytes()) by { reveal_strlit("used_memory_vm_functions"); lemma_texts_differ("expired_stale_perc", "used_memory_vm_functions"); }
    assert("expired_stale_perc".spec_bytes() != "used_memory_scripts".spec_bytes()) by { reveal_strlit("used_memory_scripts"); lemma_texts_differ("expired_stale_perc", "used_memory_scripts"); }
    assert("expired_stale_perc".spec_bytes() != "used_memory_functions".spec_bytes()) by { reveal_strlit("used_memory_functions"); lemma_texts_differ("expired_stale_perc", "used_memory_functions"); }
    assert("expired_stale_perc".spec_bytes() != "used_memory_vm_total".spec_bytes()) by { reveal_strlit("used_memory_vm_total"); lemma_texts_differ("expired_stale_perc", "used_memory_vm_total"); }
    assert("expired_stale_perc".spec_bytes() != "maxmemory".spec_bytes()) by { reveal_strlit("maxmemory"); lemma_texts_differ("expired_stale_perc", "maxmemory"); }
    assert("expired_stale_perc".spec_bytes() != "maxmemory_reservation".spec_bytes()) by { reveal_strlit("maxmemory_reservation"); lemma_texts_differ("expired_stale_perc", "maxmemory_reservation"); }
    assert("expired_stale_perc".spec_bytes() != "maxmemory_desired_reservation".spec_bytes()) by { reveal_strlit("maxmemory_desired_reservation"); lemma_texts_differ("expired_stale_perc", "maxmemory_desired_reservation"); }
    assert("expired_stale_perc".spec_bytes() != "maxfragmentationmemory_reservation".spec_bytes()) by { reveal_strlit("maxfragmentationmemory_reservation"); lemma_texts_differ("expired_stale_perc", "maxfragmentationmemory_reservation"); }
    assert("expired_stale_perc".spec_bytes() != "maxfragmentationmemory_desired_reservation".spec_bytes()) by { reveal_strlit("maxfragmentationmemory_desired_reservation"); lemma_texts_differ("expired_stale_perc", "maxfragmentationmemory_desired_reservation"); }
    assert("expired_stale_perc".spec_bytes() != "mem_fragmentation_ratio".spec_bytes()) by { reveal_strlit("mem_fragmentation_ratio"); lemma_texts_differ("expired_stale_perc", "mem_fragmentation_ratio"); }
    assert("expired_stale_perc".spec_bytes() != "mem_fragmentation_bytes".spec_bytes()) by { reveal_strlit("mem_fragmentation_bytes"); lemma_texts_differ("expired_stale_perc", "mem_fragmentation_bytes"); }
    assert("expired_stale_perc".spec_bytes() != "mem_clients_slaves".spec_bytes()) by {
        reveal_strlit("mem_clients_slaves");
        assert("expired_stale_perc"@[0] != "mem_clients_slaves"@[0]);
        lemma_texts_differ("expired_stale_perc", "mem_clients_slaves");
    }
    assert("expired_stale_perc".spec_bytes() != "mem_clients_normal".spec_bytes()) by {
        reveal_strlit("mem_clients_normal");
        assert("expired_stale_perc"@[0] != "mem_clients_normal"@[0]);
        lemma_texts_differ("expired_stale_perc", "mem_clients_normal");
    }
    assert("expired_stale_perc".spec_bytes() != "mem_cluster_links".spec_bytes()) by { reveal_strlit("mem_cluster_links"); lemma_texts_differ("expired_stale_perc", "mem_cluster_links"); }
    assert("expired_stale_perc".spec_bytes() != "mem_aof_buffer".spec_bytes()) by { reveal_strlit("mem_aof_buffer"); lemma_texts_differ("expired_stale_perc", "mem_aof_buffer"); }
    assert("expired_stale_perc".spec_bytes() != "mem_replication_backlog".spec_bytes()) by { reveal_strlit("mem_replication_backlog"); lemma_texts_differ("expired_stale_perc", "mem_replication_backlog"); }
}

/// The field `mem_not_counted_for_evict` is reported as the gauge `mem_not_counted_for_eviction_bytes` where part 2 of the table is read.
pub proof fn lemma_field_mem_not_counted_for_evict()
    ensures
        table_part_2("mem_not_counted_for_evict".spec_bytes()) == Some(
            GenericMetric { kind: Kind::Gauge, name: "mem_not_counted_for_eviction_bytes", description: "Used memory that's not counted for key eviction. This is basically transient replica and AOF buffers", micros: false },
        ),
{

}

/// The field `mem_total_replication_buffers` is reported as the gauge `mem_total_replication_buffers_bytes` where part 2 of the table is read.
pub proof fn lemma_field_mem_total_replication_buffers()
    ensures
        table_part_2("mem_total_replication_buffers".spec_bytes()) == Some(
            GenericMetric { kind: Kind::Gauge, name: "mem_total_replication_buffers_bytes", description: "Total memory consumed for replication buffers", micros: false },
        ),
{
    reveal_strlit("mem_total_replication_buffers");
    assert("mem_total_replication_buffers".spec_bytes() != "mem_not_counted_for_evict".spec_bytes()) by { reveal_strlit("mem_not_counted_for_evict"); lemma_texts_differ("mem_total_replication_buffers", "mem_not_counted_for_evict"); }
}

/// The field `mem_overhead_db_hashtable_rehashing` is reported as the gauge `mem_overhead_db_hashtable_rehashing_bytes` where part 2 of the table is read.
pub proof fn lemma_field_mem_overhead_db_hashtable_rehashing()
    ensures
        table_part_2("mem_overhead_db_hashtable_rehashing".spec_bytes()) == Some(
            GenericMetric { kind: Kind::Gauge, name: "mem_overhead_db_hashtable_rehashing_bytes", description: "Temporary memory overhead of database dictionaries currently being rehashed", micros: false },
        ),
{
    reveal_strlit("mem_overhead_db_hashtable_rehashing");
    assert("mem_overhead_db_hashtable_rehashing".spec_bytes() != "mem_not_counted_for_evict".spec_bytes()) by { reveal_strlit("mem_not_counted_for_evict"); lemma_texts_differ("mem_overhead_db_hashtable_rehashing", "mem_not_counted_for_evict"); }
    assert("mem_overhead_db_hashtable_rehashing".spec_bytes() != "mem_total_replication_buffers".spec_bytes()) by { reveal_strlit("mem_total_replication_buffers"); lemma_texts_differ("mem_overhead_db_hashtable_rehashing", "mem_total_replication_buffers"); }
}

/// The field `lazyfree_pending_objects` is reported as the gauge `lazyfree_pending_objects` where part 2 of the table is read.
pub proof fn lemma_field_lazyfree_pending_objects()
    ensures
        table_part_2("lazyfree_pending_objects".spec_bytes()) == Some(
            GenericMetric { kind: Kind::Gauge, name: "lazyfree_pending_objects", description: "The number of objects waiting to be freed", micros: false },
        ),
{
    reveal_strlit("lazyfree_pending_objects");
    assert("lazyfree_pending_objects".spec_bytes() != "mem_not_counted_for_evict".spec_bytes()) by { reveal_strlit("mem_not_counted_for_evict"); lemma_texts_differ("lazyfree_pending_objects", "mem_not_counted_for_evict"); }
    assert("lazyfree_pending_objects".spec_bytes() != "mem_total_replication_buffers".spec_bytes()) by { reveal_strlit("mem_total_replication_buffers"); lemma_texts_differ("lazyfree_pending_objects", "mem_total_replication_buffers"); }
    assert("lazyfree_pending_objects".spec_bytes() != "mem_overhead_db_hashtable_rehashing".spec_bytes()) by { reveal_strlit("mem_overhead_db_hashtable_rehashing"); lemma_texts_differ("lazyfree_pending_objects", "mem_overhead_db_hashtable_rehashing"); }
}

/// The field `lazyfreed_objects` is reported as the gauge `lazyfreed_objects` where part 2 of the table is read.
pub proof fn lemma_field_lazyfreed_objects()
    ensures
        table_part_2("lazyfreed_objects".spec_bytes()) == Some(
            GenericMetric { kind: Kind::Gauge, name: "lazyfreed_objects", description: "The number of objects that have been lazy freed", micros: false },
        ),
{
    reveal_strlit("lazyfreed_objects");
    assert("lazyfreed_objects".spec_bytes() != "mem_not_counted_for_evict".spec_bytes()) by { reveal_strlit("mem_not_counted_for_evict"); lemma_texts_differ("lazyfreed_objects", "mem_not_counted_for_evict"); }
    assert("lazyfreed_objects".spec_bytes() != "mem_total_replication_buffers".spec_bytes()) by { reveal_strlit("mem_total_replication_buffers"); lemma_texts_differ("lazyfreed_objects", "mem_total_replication_buffers"); }
    assert("lazyfreed_objects".spec_bytes() != "mem_overhead_db_hashtable_rehashing".spec_bytes()) by { reveal_strlit("mem_overhead_db_hashtable_rehashing"); lemma_texts_differ("lazyfreed_objects", "mem_overhead_db_hashtable_rehashing"); }
    assert("lazyfreed_objects".spec_bytes() != "lazyfree_pending_objects".spec_bytes()) by { reveal_strlit("lazyfree_pending_objects"); lemma_texts_differ("lazyfreed_objects", "lazyfree_pending_objects"); }
}

/// The field `active_defrag_running` is reported as the gauge `active_defrag_running` where part 2 of the table is read.
pub proof fn lemma_field_active_defrag_running()
    ensures
        table_part_2("active_defrag_running".spec_bytes()) == Some(
            GenericMetric { kind: Kind::Gauge, name: "active_defrag_running", description: "When activedefrag is enabled, this indicates whether defragmentation is currently active, and the CPU percentage it intends to utilize", micros: false },
        ),
{
    reveal_strlit("active_defrag_running");
    assert("active_defrag_running".spec_bytes() != "mem_not_counted_for_evict".spec_bytes()) by { reveal_strlit("mem_not_counted_for_evict"); lemma_texts_differ("active_defrag_running", "mem_not_counted_for_evict"); }
    assert("active_defrag_running".spec_bytes() != "mem_total_replication_buffers".spec_bytes()) by { reveal_strlit("mem_total_replication_buffers"); lemma_texts_differ("active_defrag_running", "mem_total_replication_buffers"); }
    assert("active_defrag_running".spec_bytes() != "mem_overhead_db_hashtable_rehashing".spec_bytes()) by { reveal_strlit("mem_overhead_db_hashtable_rehashing"); lemma_texts_differ("active_defrag_running", "mem_overhead_db_hashtable_rehashing"); }
    assert("active_defrag_running".spec_bytes() != "lazyfree_pending_objects".spec_bytes()) by { reveal_strlit("lazyfree_pending_objects"); lemma_texts_differ("active_defrag_running", "lazyfree_pending_objects"); }
    assert("active_defrag_running".spec_bytes() != "lazyfreed_objects".spec_bytes()) by { reveal_strlit("lazyfreed_objects"); lemma_texts_differ("active_defrag_running", "lazyfreed_objects"); }
}

/// The field `migrate_cached_sockets` is reported as the gauge `migrate_cached_sockets_total` where part 2 of the table is read.
pub proof fn lemma_field_migrate_cached_sockets()
    ensures
        table_part_2("migrate_cached_sockets".spec_bytes()) == Some(
            GenericMetric { kind: Kind::Gauge, name: "migrate_cached_sockets_total", description: "The number of sockets open for MIGRATE purposes", micros: false },
        ),
{
    reveal_strlit("migrate_cached_sockets");
    assert("migrate_cached_sockets".spec_bytes() != "mem_not_counted_for_evict".spec_bytes()) by { reveal_strlit("mem_not_counted_for_evict"); lemma_texts_differ("migrate_cached_sockets", "mem_not_counted_for_evict"); }
    assert("migrate_cached_sockets".spec_bytes() != "mem_total_replication_buffers".spec_bytes()) by { reveal_strlit("mem_total_replication_buffers"); lemma_texts_differ("migrate_cached_sockets", "mem_total_replication_buffers"); }
    assert("migrate_cached_sockets".spec_bytes() != "mem_overhead_db_hashtable_rehashing".spec_bytes()) by { reveal_strlit("mem_overhead_db_hashtable_rehashing"); lemma_texts_differ("migrate_cached_sockets", "mem_overhead_db_hashtable_rehashing"); }
    assert("migrate_cached_sockets".spec_bytes() != "lazyfree_pending_objects".spec_bytes()) by { reveal_strlit("lazyfree_pending_objects"); lemma_texts_differ("migrate_cached_sockets", "lazyfree_pending_objects"); }
    assert("migrate_cached_sockets".spec_bytes() != "lazyfreed_objects".spec_bytes()) by { reveal_strlit("lazyfreed_objects"); lemma_texts_differ("migrate_cached_sockets", "lazyfreed_objects"); }
    assert("migrate_cached_sockets".spec_bytes() != "active_defrag_running".spec_bytes()) by { reveal_strlit("active_defrag_running"); lemma_texts_differ("migrate_cached_sockets", "active_defrag_running"); }
}

/// The field `active_defrag_hits` is reported as the gauge `defrag_hits` where part 2 of the table is read.
pub proof fn lemma_field_active_defrag_hits()
    ensures
        table_part_2("active_defrag_hits".spec_bytes()) == Some(
            GenericMetric { kind: Kind::Gauge, name: "defrag_hits", description: "Number of value reallocations performed by active the defragmentation process", micros: false },
        ),
{
    reveal_strlit("active_defrag_hits");
    assert("active_defrag_hits".spec_bytes() != "mem_not_counted_for_evict".spec_bytes()) by { reveal_strlit("mem_not_counted_for_evict"); lemma_texts_differ("active_defrag_hits", "mem_not_counted_for_evict"); }
    assert("active_defrag_hits".spec_bytes() != "mem_total_replication_buffers".spec_bytes()) by { reveal_strlit("mem_total_replication_buffers"); lemma_texts_differ("active_defrag_hits", "mem_total_replication_buffers"); }
    assert("active_defrag_hits".spec_bytes() != "mem_overhead_db_hashtable_rehashing".spec_bytes()) by { reveal_strlit("mem_overhead_db_hashtable_rehashing"); lemma_texts_differ("active_defrag_hits", "mem_overhead_db_hashtable_rehashing"); }
    assert("active_defrag_hits".spec_bytes() != "lazyfree_pending_objects".spec_bytes()) by { reveal_strlit("lazyfree_pending_objects"); lemma_texts_differ("active_defrag_hits", "lazyfree_pending_objects"); }
    assert("active_defrag_hits".spec_bytes() != "lazyfreed_objects".spec_bytes()) by { reveal_strlit("lazyfreed_objects"); lemma_texts_differ("active_defrag_hits", "lazyfreed_objects"); }
    assert("active_defrag_hits".spec_bytes() != "active_defrag_running".spec_bytes()) by { reveal_strlit("active_defrag_running"); lemma_texts_differ("active_defrag_hits", "active_defrag_running"); }
    assert("active_defrag_hits".spec_bytes() != "migrate_cached_sockets".spec_bytes()) by { reveal_strlit("migrate_cached_sockets"); lemma_texts_differ("active_defrag_hits", "migrate_cached_sockets"); }
}

/// The field `active_defrag_misses` is reported as the gauge `defrag_misses` where part 2 of the table is read.
pub proof fn lemma_field_active_defrag_misses()
    ensures
        table_part_2("active_defrag_misses".spec_bytes()) == Some(
            GenericMetric { kind: Kind::Gauge, name: "defrag_misses", description: "Number of aborted value reallocations started by the active defragmentation process", micros: false },
        ),
{
    reveal_strlit("active_defrag_misses");
    assert("active_defrag_misses".spec_bytes() != "mem_not_counted_for_evict".spec_bytes()) by { reveal_strlit("mem_not_counted_for_evict"); lemma_texts_differ("active_defrag_misses", "mem_not_counted_for_evict"); }
    assert("active_defrag_misses".spec_bytes() != "mem_total_replication_buffers".spec_bytes()) by { reveal_strlit("mem_total_replication_buffers"); lemma_texts_differ("active_defrag_misses", "mem_total_replication_buffers"); }
    assert("active_defrag_misses".spec_bytes() != "mem_overhead_db_hashtable_rehashing".spec_bytes()) by { reveal_strlit("mem_overhead_db_hashtable_rehashing"); lemma_texts_differ("active_defrag_misses", "mem_overhead_db_hashtable_rehashing"); }
    assert("active_defrag_misses".spec_bytes() != "lazyfree_pending_objects".spec_bytes()) by { reveal_strlit("lazyfree_pending_objects"); lemma_texts_differ("active_defrag_misses", "lazyfree_pending_objects"); }
    assert("active_defrag_misses".spec_bytes() != "lazyfreed_objects".spec_bytes()) by { reveal_strlit("lazyfreed_objects"); lemma_texts_differ("active_defrag_misses", "lazyfreed_objects"); }
    assert("active_defrag_misses".spec_bytes() != "active_defrag_running".spec_bytes()) by { reveal_strlit("active_defrag_running"); lemma_texts_differ("active_defrag_misses", "active_defrag_running"); }
    assert("active_defrag_misses".spec_bytes() != "migrate_cached_sockets".spec_bytes()) by { reveal_strlit("migrate_cached_sockets"); lemma_texts_differ("active_defrag_misses", "migrate_cached_sockets"); }
    assert("active_defrag_misses".spec_bytes() != "active_defrag_hits".spec_bytes()) by { reveal_strlit("active_defrag_hits"); lemma_texts_differ("active_defrag_misses", "active_defrag_hits"); }
}

/// The field `active_defrag_key_hits` is reported as the gauge `defrag_key_hits` where part 2 of the table is read.
pub proof fn lemma_field_active_defrag_key_hits()
    ensures
        table_part_2("active_defrag_key_hits".spec_bytes()) == Some(
            GenericMetric { kind: Kind::Gauge, name: "defrag_key_hits", description: "Number of keys that were actively defragmented", micros: false },
        ),
{
    reveal_strlit("active_defrag_key_hits");
    assert("active_defrag_key_hits".spec_bytes() != "mem_not_counted_for_evict".spec_bytes()) by { reveal_strlit("mem_not_counted_for_evict"); lemma_texts_differ("active_defrag_key_hits", "mem_not_counted_for_evict"); }
    assert("active_defrag_key_hits".spec_bytes() != "mem_total_replication_buffers".spec_bytes()) by { reveal_strlit("mem_total_replication_buffers"); lemma_texts_differ("active_defrag_key_hits", "mem_total_replication_buffers"); }
    assert("active_defrag_key_hits".spec_bytes() != "mem_overhead_db_hashtable_rehashing".spec_bytes()) by { reveal_strlit("mem_overhead_db_hashtable_rehashing"); lemma_texts_differ("active_defrag_key_hits", "mem_overhead_db_hashtable_rehashing"); }
    assert("active_defrag_key_hits".spec_bytes() != "lazyfree_pending_objects".spec_bytes()) by { reveal_strlit("lazyfree_pending_objects"); lemma_texts_differ("active_defrag_key_hits", "lazyfree_pending_objects"); }
    assert("active_defrag_key_hits".spec_bytes() != "lazyfreed_objects".spec_bytes()) by { reveal_strlit("lazyfreed_objects"); lemma_texts_differ("active_defrag_key_hits", "lazyfreed_objects"); }
    assert("active_defrag_key_hits".spec_bytes() != "active_defrag_running".spec_bytes()) by { reveal_strlit("active_defrag_running"); lemma_texts_differ("active_defrag_key_hits", "active_defrag_running"); }
    assert("active_defrag_key_hits".spec_bytes() != "migrate_cached_sockets".spec_bytes()) by {
        reveal_strlit("migrate_cached_sockets");
        assert("active_defrag_key_hits"@[0] != "migrate_cached_sockets"@[0]);
        lemma_texts_differ("active_defrag_key_hits", "migrate_cached_sockets");
    }
    assert("active_defrag_key_hits".spec_bytes() != "active_defrag_hits".spec_bytes()) by { reveal_strlit("active_defrag_hits"); lemma_texts_differ("active_defrag_key_hits", "active_defrag_hits"); }
    assert("active_defrag_key_hits".spec_bytes() != "active_defrag_misses".spec_bytes()) by { reveal_strlit("active_defrag_misses"); lemma_texts_differ("active_defrag_key_hits", "active_defrag_misses"); }
}

/// The field `active_defrag_key_misses` is reported as the gauge `defrag_key_misses` where part 2 of the table is read.
pub proof fn lemma_field_active_defrag_key_misses()
    ensures
        table_part_2("active_defrag_key_misses".spec_bytes()) == Some(
            GenericMetric { kind: Kind::Gauge, name: "defrag_key_misses", description: "Number of keys that were skipped by the active defragmentation process", micros: false },
        ),
{
    reveal_strlit("active_defrag_key_misses");
    assert("active_defrag_key_misses".spec_bytes() != "mem_not_counted_for_evict".spec_bytes()) by { reveal_strlit("mem_not_counted_for_evict"); lemma_texts_differ("active_defrag_key_misses", "mem_not_counted_for_evict"); }
    assert("active_defrag_key_misses".spec_bytes() != "mem_total_replication_buffers".spec_bytes()) by { reveal_strlit("mem_total_replication_buffers"); lemma_texts_differ("active_defrag_key_misses", "mem_total_replication_buffers"); }
    assert("active_defrag_key_misses".spec_bytes() != "mem_overhead_db_hashtable_rehashing".spec_bytes()) by { reveal_strlit("mem_overhead_db_hashtable_rehashing"); lemma_texts_differ("active_defrag_key_misses", "mem_overhead_db_hashtable_rehashing"); }
    assert("active_defrag_key_misses".spec_bytes() != "lazyfree_pending_objects".spec_bytes()) by {
        reveal_strlit("lazyfree_pending_objects");
        assert("active_defrag_key_misses"@[0] != "lazyfree_pending_objects"@[0]);
        lemma_texts_differ("active_defrag_key_misses", "lazyfree_pending_objects");
    }
    assert("active_defrag_key_misses".spec_bytes() != "lazyfreed_objects".spec_bytes()) by { reveal_strlit("lazyfreed_objects"); lemma_texts_differ("active_defrag_key_misses", "lazyfreed_objects"); }
    assert("active_defrag_key_misses".spec_bytes() != "active_defrag_running".spec_bytes()) by { reveal_strlit("active_defrag_running"); lemma_texts_differ("active_defrag_key_misses", "active_defrag_running"); }
    assert("active_defrag_key_misses".spec_bytes() != "migrate_cached_sockets".spec_bytes()) by { reveal_strlit("migrate_cached_sockets"); lemma_texts_differ("active_defrag_key_misses", "migrate_cached_sockets"); }
    assert("active_defrag_key_misses".spec_bytes() != "active_defrag_hits".spec_bytes()) by { reveal_strlit("active_defrag_hits"); lemma_texts_differ("active_defrag_key_misses", "active_defrag_hits"); }
    assert("active_defrag_key_misses".spec_bytes() != "active_defrag_misses".spec_bytes()) by { reveal_strlit("active_defrag_misses"); lemma_texts_differ("active_defrag_key_misses", "active_defrag_misses"); }
    assert("active_defrag_key_misses".spec_bytes() != "active_defrag_key_hits".spec_bytes()) by { reveal_strlit("active_defrag_key_hits"); lemma_texts_differ("active_defrag_key_misses", "active_defrag_key_hits"); }
}

/// The field `expired_time_cap_reached_count` is reported as the gauge `expired_time_cap_reached_total` where part 2 of the table is read.
pub proof fn lemma_field_expired_time_cap_reached_count()
    ensures
        table_part_2("expired_time_cap_reached_count".spec_bytes()) == Some(
            GenericMetric { kind: Kind::Gauge, name: "expired_time_cap_reached_total", description: "The count of times that active expiry cycles have stopped early", micros: false },
        ),
{
    reveal_strlit("expired_time_cap_reached_count");
    assert("expired_time_cap_reached_count".spec_bytes() != "mem_not_counted_for_evict".spec_bytes()) by { reveal_strlit("mem_not_counted_for_evict"); lemma_texts_differ("expired_time_cap_reached_count", "mem_not_counted_for_evict"); }
    assert("expired_time_cap_reached_count".spec_bytes() != "mem_total_replication_buffers".spec_bytes()) by { reveal_strlit("mem_total_replication_buffers"); lemma_texts_differ("expired_time_cap_reached_count", "mem_total_replication_buffers"); }
    assert("expired_time_cap_reached_count".spec_bytes() != "mem_overhead_db_hashtable_rehashing".spec_bytes()) by { reveal_strlit("mem_overhead_db_hashtable_rehashing"); lemma_texts_differ("expired_time_cap_reached_count", "mem_overhead_db_hashtable_rehashing"); }
    assert("expired_time_cap_reached_count".spec_bytes() != "lazyfree_pending_objects".spec_bytes()) by { reveal_strlit("lazyfree_pending_objects"); lemma_texts_differ("expired_time_cap_reached_count", "lazyfree_pending_objects"); }
    assert("expired_time_cap_reached_count".spec_bytes() != "lazyfreed_objects".spec_bytes()) by { reveal_strlit("lazyfreed_objects"); lemma_texts_differ("expired_time_cap_reached_count", "lazyfreed_objects"); }
    assert("expired_time_cap_reached_count".spec_bytes() != "active_defrag_running".spec_bytes()) by { reveal_strlit("active_defrag_running"); lemma_texts_differ("expired_time_cap_reached_count", "active_defrag_running"); }
    assert("expired_time_cap_reached_count".spec_bytes() != "migrate_cached_sockets".spec_bytes()) by { reveal_strlit("migrate_cached_sockets"); lemma_texts_differ("expired_time_cap_reached_count", "migrate_cached_sockets"); }
    assert("expired_time_cap_reached_count".spec_bytes() != "active_defrag_hits".spec_bytes()) by { reveal_strlit("active_defrag_hits"); lemma_texts_differ("expired_time_cap_reached_count", "active_defrag_hits"); }
    assert("expired_time_cap_reached_count".spec_bytes() != "active_defrag_misses".spec_bytes()) by { reveal_strlit("active_defrag_misses"); lemma_texts_differ("expired_time_cap_reached_count", "active_defrag_misses"); }
    assert("expired_time_cap_reached_count".spec_bytes() != "active_defrag_key_hits".spec_bytes()) by { reveal_strlit("active_defrag_key_hits"); lemma_texts_differ("expired_time_cap_reached_count", "active_defrag_key_hits"); }
    assert("expired_time_cap_reached_count".spec_bytes() != "active_defrag_key_misses".spec_bytes()) by { reveal_strlit("active_defrag_key_misses"); lemma_texts_differ("expired_time_cap_reached_count", "active_defrag_key_misses"); }
}

/// The field `loading` is reported as the gauge `loading_dump_file` where part 2 of the table is read.
pub proof fn lemma_field_loading()
    ensures
        table_part_2("loading".spec_bytes()) == Some(
            GenericMetric { kind: Kind::Gauge, name: "loading_dump_file", description: "Flag indicating if the load of a dump file is on-going", micros: false },
        ),
{
    reveal_strlit("loading");
    assert("loading".spec_bytes() != "mem_not_counted_for_evict".spec_bytes()) by { reveal_strlit("mem_not_counted_for_evict"); lemma_texts_differ("loading", "mem_not_counted_for_evict"); }
    assert("loading".spec_bytes() != "mem_total_replication_buffers".spec_bytes()) by { reveal_strlit("mem_total_replication_buffers"); lemma_texts_differ("loading", "mem_total_replication_buffers"); }
    assert("loading".spec_bytes() != "mem_overhead_db_hashtable_rehashing".spec_bytes()) by { reveal_strlit("mem_overhead_db_hashtable_rehashing"); lemma_texts_differ("loading", "mem_overhead_db_hashtable_rehashing"); }
    assert("loading".spec_bytes() != "lazyfree_pending_objects".spec_bytes()) by { reveal_strlit("lazyfree_pending_objects"); lemma_texts_differ("loading", "lazyfree_pending_objects"); }
    assert("loading".spec_bytes() != "lazyfreed_objects".spec_bytes()) by { reveal_strlit("lazyfreed_objects"); lemma_texts_differ("loading", "lazyfreed_objects"); }
    assert("loading".spec_bytes() != "active_defrag_running".spec_bytes()) by { reveal_strlit("active_defrag_running"); lemma_texts_differ("loading", "active_defrag_running"); }
    assert("loading".spec_bytes() != "migrate_cached_sockets".spec_bytes()) by { reveal_strlit("migrate_cached_sockets"); lemma_texts_differ("loading", "migrate_cached_sockets"); }
    assert("loading".spec_bytes() != "active_defrag_hits".spec_bytes()) by { reveal_strlit("active_defrag_hits"); lemma_texts_differ("loading", "active_defrag_hits"); }
    assert("loading".spec_bytes() != "active_defrag_misses".spec_bytes()) by { reveal_strlit("active_defrag_misses"); lemma_texts_differ("loading", "active_defrag_misses"); }
    assert("loading".spec_bytes() != "active_defrag_key_hits".spec_bytes()) by { reveal_strlit("active_defrag_key_hits"); lemma_texts_differ("loading", "active_defrag_key_hits"); }
    assert("loading".spec_bytes() != "active_defrag_key_misses".spec_bytes()) by { reveal_strlit("active_defrag_key_misses"); lemma_texts_differ("loading", "active_defrag_key_misses"); }
    assert("loading".spec_bytes() != "expired_time_cap_reached_count".spec_bytes()) by { reveal_strlit("expired_time_cap_reached_count"); lemma_texts_differ("loading", "expired_time_cap_reached_count"); }
}

/// The field `async_loading` is reported as the gauge `async_loading` where part 2 of the table is read.
pub proof fn lemma_field_async_loading()
    ensures
        table_part_2("async_loading".spec_bytes()) == Some(
            GenericMetric { kind: Kind::Gauge, name: "async_loading", description: "Currently loading replication data-set asynchronously while serving old data. This means repl-diskless-load is enabled and set to swapdb", micros: false },
        ),
{
    reveal_strlit("async_loading");
    assert("async_loading".spec_bytes() != "mem_not_counted_for_evict".spec_bytes()) by { reveal_strlit("mem_not_counted_for_evict"); lemma_texts_differ("async_loading", "mem_not_counted_for_evict"); }
    assert("async_loading".spec_bytes() != "mem_total_replication_buffers".spec_bytes()) by { reveal_strlit("mem_total_replication_buffers"); lemma_texts_differ("async_loading", "mem_total_replication_buffers"); }
    assert("async_loading".spec_bytes() != "mem_overhead_db_hashtable_rehashing".spec_bytes()) by { reveal_strlit("mem_overhead_db_hashtable_rehashing"); lemma_texts_differ("async_loading", "mem_overhead_db_hashtable_rehashing"); }
    assert("async_loading".spec_bytes() != "lazyfree_pending_objects".spec_bytes()) by { reveal_strlit("lazyfree_pending_objects"); lemma_texts_differ("async_loading", "lazyfree_pending_objects"); }
    assert("async_loading".spec_bytes() != "lazyfreed_objects".spec_bytes()) by { reveal_strlit("lazyfreed_objects"); lemma_texts_differ("async_loading", "lazyfreed_objects"); }
    assert("async_loading".spec_bytes() != "active_defrag_running".spec_bytes()) by { reveal_strlit("active_defrag_running"); lemma_texts_differ("async_loading", "active_defrag_running"); }
    assert("async_loading".spec_bytes() != "migrate_cached_sockets".spec_bytes()) by { reveal_strlit("migrate_cached_sockets"); lemma_texts_differ("async_loading", "migrate_cached_sockets"); }
    assert("async_loading".spec_bytes() != "active_defrag_hits".spec_bytes()) by { reveal_strlit("active_defrag_hits"); lemma_texts_differ("async_loading", "active_defrag_hits"); }
    assert("async_loading".spec_bytes() != "active_defrag_misses".spec_bytes()) by { reveal_strlit("active_defrag_misses"); lemma_texts_differ("async_loading", "active_defrag_misses"); }
    assert("async_loading".spec_bytes() != "active_defrag_key_hits".spec_bytes()) by { reveal_strlit("active_defrag_key_hits"); lemma_texts_differ("async_loading", "active_defrag_key_hits"); }
    assert("async_loading".spec_bytes() != "active_defrag_key_misses".spec_bytes()) by { reveal_strlit("active_defrag_key_misses"); lemma_texts_differ("async_loading", "active_defrag_key_misses"); }
    assert("async_loading".spec_bytes() != "expired_time_cap_reached_count".spec_bytes()) by { reveal_strlit("expired_time_cap_reached_count"); lemma_texts_differ("async_loading", "expired_time_cap_reached_count"); }
    assert("async_loading".spec_bytes() != "loading".spec_bytes()) by { reveal_strlit("loading"); lemma_texts_differ("async_loading", "loading"); }
}

/// The field `rdb_changes_since_last_save` is reported as the gauge `rdb_changes_since_last_save` where part 2 of the table is read.
pub proof fn lemma_field_rdb_changes_since_last_save()
    ensures
        table_part_2("rdb_changes_since_last_save".spec_bytes()) == Some(
            GenericMetric { kind: Kind::Gauge, name: "rdb_changes_since_last_save", description: "Number of changes since the last dump", micros: false },
        ),
{
    reveal_strlit("rdb_changes_since_last_save");
    assert("rdb_changes_since_last_save".spec_bytes() != "mem_not_counted_for_evict".spec_bytes()) by { reveal_strlit("mem_not_counted_for_evict"); lemma_texts_differ("rdb_changes_since_last_save", "mem_not_counted_for_evict"); }
    assert("rdb_changes_since_last_save".spec_bytes() != "mem_total_replication_buffers".spec_bytes()) by { reveal_strlit("mem_total_replication_buffers"); lemma_texts_differ("rdb_changes_since_last_save", "mem_total_replication_buffers"); }
    assert("rdb_changes_since_last_save".spec_bytes() != "mem_overhead_db_hashtable_rehashing".spec_bytes()) by { reveal_strlit("mem_overhead_db_hashtable_rehashing"); lemma_texts_differ("rdb_changes_since_last_save", "mem_overhead_db_hashtable_rehashing"); }
    assert("rdb_changes_since_last_save".spec_bytes() != "lazyfree_pending_objects".spec_bytes()) by { reveal_strlit("lazyfree_pending_objects"); lemma_texts_differ("rdb_changes_since_last_save", "lazyfree_pending_objects"); }
    assert("rdb_changes_since_last_save".spec_bytes() != "lazyfreed_objects".spec_bytes()) by { reveal_strlit("lazyfreed_objects"); lemma_texts_differ("rdb_changes_since_last_save", "lazyfreed_objects"); }
    assert("rdb_changes_since_last_save".spec_bytes() != "active_defrag_running".spec_bytes()) by { reveal_strlit("active_defrag_running"); lemma_texts_differ("rdb_changes_since_last_save", "active_defrag_running"); }
    assert("rdb_changes_since_last_save".spec_bytes() != "migrate_cached_sockets".spec_bytes()) by { reveal_strlit("migrate_cached_sockets"); lemma_texts_differ("rdb_changes_since_last_save", "migrate_cached_sockets"); }
    assert("rdb_changes_since_last_save".spec_bytes() != "active_defrag_hits".spec_bytes()) by { reveal_strlit("active_defrag_hits"); lemma_texts_differ("rdb_changes_since_last_save", "active_defrag_hits"); }
    assert("rdb_changes_since_last_save".spec_bytes() != "active_defrag_misses".spec_bytes()) by { reveal_strlit("active_defrag_misses"); lemma_texts_differ("rdb_changes_since_last_save", "active_defrag_misses"); }
    assert("rdb_changes_since_last_save".spec_bytes() != "active_defrag_key_hits".spec_bytes()) by { reveal_strlit("active_defrag_key_hits"); lemma_texts_differ("rdb_changes_since_last_save", "active_defrag_key_hits"); }
    assert("rdb_changes_since_last_save".spec_bytes() != "active_defrag_key_misses".spec_bytes()) by { reveal_strlit("active_defrag_key_misses"); lemma_texts_differ("rdb_changes_since_last_save", "active_defrag_key_misses"); }
    assert("rdb_changes_since_last_save".spec_bytes() != "expired_time_cap_reached_count".spec_bytes()) by { reveal_strlit("expired_time_cap_reached_count"); lemma_texts_differ("rdb_changes_since_last_save", "expired_time_cap_reached_count"); }
    assert("rdb_changes_since_last_save".spec_bytes() != "loading".spec_bytes()) by { reveal_strlit("loading"); lemma_texts_differ("rdb_changes_since_last_save", "loading"); }
    assert("rdb_changes_since_last_save".spec_bytes() != "async_loading".spec_bytes()) by { reveal_strlit("async_loading"); lemma_texts_differ("rdb_changes_since_last_save", "async_loading"); }
}

/// The field `rdb_bgsave_in_progress` is reported as the gauge `rdb_bgsave_in_progress` where part 2 of the table is read.
pub proof fn lemma_field_rdb_bgsave_in_progress()
    ensures
        table_part_2("rdb_bgsave_in_progress".spec_bytes()) == Some(
            GenericMetric { kind: Kind::Gauge, name: "rdb_bgsave_in_progress", description: "Flag indicating a RDB save is on-going", micros: false },
        ),
{
    reveal_strlit("rdb_bgsave_in_progress");
    assert("rdb_bgsave_in_progress".spec_bytes() != "mem_not_counted_for_evict".spec_bytes()) by { reveal_strlit("mem_not_counted_for_evict"); lemma_texts_differ("rdb_bgsave_in_progress", "mem_not_counted_for_evict"); }
    assert("rdb_bgsave_in_progress".spec_bytes() != "mem_total_replication_buffers".spec_bytes()) by { reveal_strlit("mem_total_replication_buffers"); lemma_texts_differ("rdb_bgsave_in_progress", "mem_total_replication_buffers"); }
    assert("rdb_bgsave_in_progress".spec_bytes() != "mem_overhead_db_hashtable_rehashing".spec_bytes()) by { reveal_strlit("mem_overhead_db_hashtable_rehashing"); lemma_texts_differ("rdb_bgsave_in_progress", "mem_overhead_db_hashtable_rehashing"); }
    assert("rdb_bgsave_in_progress".spec_bytes() != "lazyfree_pending_objects".spec_bytes()) by { reveal_strlit("lazyfree_pending_objects"); lemma_texts_differ("rdb_bgsave_in_progress", "lazyfree_pending_objects"); }
    assert("rdb_bgsave_in_progress".spec_bytes() != "lazyfreed_objects".spec_bytes()) by { reveal_strlit("lazyfreed_objects"); lemma_texts_differ("rdb_bgsave_in_progress", "lazyfreed_objects"); }
    assert("rdb_bgsave_in_progress".spec_bytes() != "active_defrag_running".spec_bytes()) by { reveal_strlit("active_defrag_running"); lemma_texts_differ("rdb_bgsave_in_progress", "active_defrag_running"); }
    assert("rdb_bgsave_in_progress".spec_bytes() != "migrate_cached_sockets".spec_bytes()) by {
        reveal_strlit("migrate_cached_sockets");
        assert("rdb_bgsave_in_progress"@[0] != "migrate_cached_sockets"@[0]);
        lemma_texts_differ("rdb_bgsave_in_progress", "migrate_cached_sockets");
    }
    assert("rdb_bgsave_in_progress".spec_bytes() != "active_defrag_hits".spec_bytes()) by { reveal_strlit("active_defrag_hits"); lemma_texts_differ("rdb_bgsave_in_progress", "active_defrag_hits"); }
    assert("rdb_bgsave_in_progress".spec_bytes() != "active_defrag_misses".spec_bytes()) by { reveal_strlit("active_defrag_misses"); lemma_texts_differ("rdb_bgsave_in_progress", "active_defrag_misses"); }
    assert("rdb_bgsave_in_progress".spec_bytes() != "active_defrag_key_hits".spec_bytes()) by {
        reveal_strlit("active_defrag_key_hits");
        assert("rdb_bgsave_in_progress"@[0] != "active_defrag_key_hits"@[0]);
        lemma_texts_differ("rdb_bgsave_in_progress", "active_defrag_key_hits");
    }
    assert("rdb_bgsave_in_progress".spec_bytes() != "active_defrag_key_misses".spec_bytes()) by { reveal_strlit("active_defrag_key_misses"); lemma_texts_differ("rdb_bgsave_in_progress", "active_defrag_key_misses"); }
    assert("rdb_bgsave_in_progress".spec_bytes() != "expired_time_cap_reached_count".spec_bytes()) by { reveal_strlit("expired_time_cap_reached_count"); lemma_texts_differ("rdb_bgsave_in_progress", "expired_time_cap_reached_count"); }
    assert("rdb_bgsave_in_progress".spec_bytes() != "loading".spec_bytes()) by { reveal_strlit("loading"); lemma_texts_differ("rdb_bgsave_in_progress", "loading"); }
    assert("rdb_bgsave_in_progress".spec_bytes() != "async_loading".spec_bytes()) by { reveal_strlit("async_loading"); lemma_texts_differ("rdb_bgsave_in_progress", "async_loading"); }
    assert("rdb_bgsave_in_progress".spec_bytes() != "rdb_changes_since_last_save".spec_bytes()) by { reveal_strlit("rdb_changes_since_last_save"); lemma_texts_differ("rdb_bgsave_in_progress", "rdb_changes_since_last_save"); }
}

/// The field `rdb_last_save_time` is reported as the gauge `rdb_last_save_timestamp_seconds` where part 2 of the table is read.
pub proof fn lemma_field_rdb_last_save_time()
    ensures
        table_part_2("rdb_last_save_time".spec_bytes()) == Some(
            GenericMetric { kind: Kind::Gauge, name: "rdb_last_save_timestamp_seconds", description: "Epoch-based timestamp of last successful RDB save", micros: false },
        ),
{
    reveal_strlit("rdb_last_save_time");
    assert("rdb_last_save_time".spec_bytes() != "mem_not_counted_for_evict".spec_bytes()) by { reveal_strlit("mem_not_counted_for_evict"); lemma_texts_differ("rdb_last_save_time", "mem_not_counted_for_evict"); }
    assert("rdb_last_save_time".spec_bytes() != "mem_total_replication_buffers".spec_bytes()) by { reveal_strlit("mem_total_replication_buffers"); lemma_texts_differ("rdb_last_save_time", "mem_total_replication_buffers"); }
    assert("rdb_last_save_time".spec_bytes() != "mem_overhead_db_hashtable_rehashing".spec_bytes()) by { reveal_strlit("mem_overhead_db_hashtable_rehashing"); lemma_texts_differ("rdb_last_save_time", "mem_overhead_db_hashtable_rehashing"); }
    assert("rdb_last_save_time".spec_bytes() != "lazyfree_pending_objects".spec_bytes()) by { reveal_strlit("lazyfree_pending_objects"); lemma_texts_differ("rdb_last_save_time", "lazyfree_pending_objects"); }
    assert("rdb_last_save_time".spec_bytes() != "lazyfreed_objects".spec_bytes()) by { reveal_strlit("lazyfreed_objects"); lemma_texts_differ("rdb_last_save_time", "lazyfreed_objects"); }
    assert("rdb_last_save_time".spec_bytes() != "active_defrag_running".spec_bytes()) by { reveal_strlit("active_defrag_running"); lemma_texts_differ("rdb_last_save_time", "active_defrag_running"); }
    assert("rdb_last_save_time".spec_bytes() != "migrate_cached_sockets".spec_bytes()) by { reveal_strlit("migrate_cached_sockets"); lemma_texts_differ("rdb_last_save_time", "migrate_cached_sockets"); }
    assert("rdb_last_save_time".spec_bytes() != "active_defrag_hits".spec_bytes()) by {
        reveal_strlit("active_defrag_hits");
        assert("rdb_last_save_time"@[0] != "active_defrag_hits"@[0]);
        lemma_texts_differ("rdb_last_save_time", "active_defrag_hits");
    }
    assert("rdb_last_save_time".spec_bytes() != "active_defrag_misses".spec_bytes()) by { reveal_strlit("active_defrag_misses"); lemma_texts_differ("rdb_last_save_time", "active_defrag_misses"); }
    assert("rdb_last_save_time".spec_bytes() != "active_defrag_key_hits".spec_bytes()) by { reveal_strlit("active_defrag_key_hits"); lemma_texts_differ("rdb_last_save_time", "active_defrag_key_hits"); }
    assert("rdb_last_save_time".spec_bytes() != "active_defrag_key_misses".spec_bytes()) by { reveal_strlit("active_defrag_key_misses"); lemma_texts_differ("rdb_last_save_time", "active_defrag_key_misses"); }
    assert("rdb_last_save_time".spec_bytes() != "expired_time_cap_reached_count".spec_bytes()) by { reveal_strlit("expired_time_cap_reached_count"); lemma_texts_differ("rdb_last_save_time", "expired_time_cap_reached_count"); }
    assert("rdb_last_save_time".spec_bytes() != "loading".spec_bytes()) by { reveal_strlit("loading"); lemma_texts_differ("rdb_last_save_time", "loading"); }
    assert("rdb_last_save_time".spec_bytes() != "async_loading".spec_bytes()) by { reveal_strlit("async_loading"); lemma_texts_differ("rdb_last_save_time", "async_loading"); }
    assert("rdb_last_save_time".spec_bytes() != "rdb_changes_since_last_save".spec_bytes()) by { reveal_strlit("rdb_changes_since_last_save"); lemma_texts_differ("rdb_last_save_time", "rdb_changes_since_last_save"); }
    assert("rdb_last_save_time".spec_bytes() != "rdb_bgsave_in_progress".spec_bytes()) by { reveal_strlit("rdb_bgsave_in_progress"); lemma_texts_differ("rdb_last_save_time", "rdb_bgsave_in_progress"); }
}

/// The field `rdb_last_bgsave_status` is reported as the gauge `rdb_last_bgsave_status` where part 2 of the table is read.
pub proof fn lemma_field_rdb_last_bgsave_status()
    ensures
        table_part_2("rdb_last_bgsave_status".spec_bytes()) == Some(
            GenericMetric { kind: Kind::Gauge, name: "rdb_last_bgsave_status", description: "Status of the last RDB save operation", micros: false },
        ),
{
    reveal_strlit("rdb_last_bgsave_status");
    assert("rdb_last_bgsave_status".spec_bytes() != "mem_not_counted_for_evict".spec_bytes()) by { reveal_strlit("mem_not_counted_for_evict"); lemma_texts_differ("rdb_last_bgsave_status", "mem_not_counted_for_evict"); }
    assert("rdb_last_bgsave_status".spec_bytes() != "mem_total_replication_buffers".spec_bytes()) by { reveal_strlit("mem_total_replication_buffers"); lemma_texts_differ("rdb_last_bgsave_status", "mem_total_replication_buffers"); }
    assert("rdb_last_bgsave_status".spec_bytes() != "mem_overhead_db_hashtable_rehashing".spec_bytes()) by { reveal_strlit("mem_overhead_db_hashtable_rehashing"); lemma_texts_differ("rdb_last_bgsave_status", "mem_overhead_db_hashtable_rehashing"); }
    assert("rdb_last_bgsave_status".spec_bytes() != "lazyfree_pending_objects".spec_bytes()) by { reveal_strlit("lazyfree_pending_objects"); lemma_texts_differ("rdb_last_bgsave_status", "lazyfree_pending_objects"); }
    assert("rdb_last_bgsave_status".spec_bytes() != "lazyfreed_objects".spec_bytes()) by { reveal_strlit("lazyfreed_objects"); lemma_texts_differ("rdb_last_bgsave_status", "lazyfreed_objects"); }
    assert("rdb_last_bgsave_status".spec_bytes() != "active_defrag_running".spec_bytes()) by { reveal_strlit("active_defrag_running"); lemma_texts_differ("rdb_last_bgsave_status", "active_defrag_running"); }
    assert("rdb_last_bgsave_status".spec_bytes() != "migrate_cached_sockets".spec_bytes()) by {
        reveal_strlit("migrate_cached_sockets");
        assert("rdb_last_bgsave_status"@[0] != "migrate_cached_sockets"@[0]);
        lemma_texts_differ("rdb_last_bgsave_status", "migrate_cached_sockets");
    }
    assert("rdb_last_bgsave_status".spec_bytes() != "active_defrag_hits".spec_bytes()) by { reveal_strlit("active_defrag_hits"); lemma_texts_differ("rdb_last_bgsave_status", "active_defrag_hits"); }
    assert("rdb_last_bgsave_status".spec_bytes() != "active_defrag_misses".spec_bytes()) by { reveal_strlit("active_defrag_misses"); lemma_texts_differ("rdb_last_bgsave_status", "active_defrag_misses"); }
    assert("rdb_last_bgsave_status".spec_bytes() != "active_defrag_key_hits".spec_bytes()) by {
        reveal_strlit("active_defrag_key_hits");
        assert("rdb_last_bgsave_status"@[0] != "active_defrag_key_hits"@[0]);
        lemma_texts_differ("rdb_last_bgsave_status", "active_defrag_key_hits");
    }
    assert("rdb_last_bgsave_status".spec_bytes() != "active_defrag_key_misses".spec_bytes()) by { reveal_strlit("active_defrag_key_misses"); lemma_texts_differ("rdb_last_bgsave_status", "active_defrag_key_misses"); }
    assert("rdb_last_bgsave_status".spec_bytes() != "expired_time_cap_reached_count".spec_bytes()) by { reveal_strlit("expired_time_cap_reached_count"); lemma_texts_differ("rdb_last_bgsave_status", "expired_time_cap_reached_count"); }
    assert("rdb_last_bgsave_status".spec_bytes() != "loading".spec_bytes()) by { reveal_strlit("loading"); lemma_texts_differ("rdb_last_bgsave_status", "loading"); }
    assert("rdb_last_bgsave_status".spec_bytes() != "async_loading".spec_bytes()) by { reveal_strlit("async_loading"); lemma_texts_differ("rdb_last_bgsave_status", "async_loading"); }
    assert("rdb_last_bgsave_status".spec_bytes() != "rdb_changes_since_last_save".spec_bytes()) by { reveal_strlit("rdb_changes_since_last_save"); lemma_texts_differ("rdb_last_bgsave_status", "rdb_changes_since_last_save"); }
    assert("rdb_last_bgsave_status".spec_bytes() != "rdb_bgsave_in_progress".spec_bytes()) by {
        reveal_strlit("rdb_bgsave_in_progress");
        assert("rdb_last_bgsave_status"@[4] != "rdb_bgsave_in_progress"@[4]);
        lemma_texts_differ("rdb_last_bgsave_status", "rdb_bgsave_in_progress");
    }
    assert("rdb_last_bgsave_status".spec_bytes() != "rdb_last_save_time".spec_bytes()) by { reveal_strlit("rdb_last_save_time"); lemma_texts_differ("rdb_last_bgsave_status", "rdb_last_save_time"); }
}

/// The field `rdb_last_bgsave_time_sec` is reported as the gauge `rdb_last_bgsave_duration_sec` where part 2 of the table is read.
pub proof fn lemma_field_rdb_last_bgsave_time_sec()
    ensures
        table_part_2("rdb_last_bgsave_time_sec".spec_bytes()) == Some(
            GenericMetric { kind: Kind::Gauge, name: "rdb_last_bgsave_duration_sec", description: "Duration of the last RDB save operation in seconds", micros: false },
        ),
{
    reveal_strlit("rdb_last_bgsave_time_sec");
    assert("rdb_last_bgsave_time_sec".spec_bytes() != "mem_not_counted_for_evict".spec_bytes()) by { reveal_strlit("mem_not_counted_for_evict"); lemma_texts_differ("rdb_last_bgsave_time_sec", "mem_not_counted_for_evict"); }
    assert("rdb_last_bgsave_time_sec".spec_bytes() != "mem_total_replication_buffers".spec_bytes()) by { reveal_strlit("mem_total_replication_buffers"); lemma_texts_differ("rdb_last_bgsave_time_sec", "mem_total_replication_buffers"); }
    assert("rdb_last_bgsave_time_sec".spec_bytes() != "mem_overhead_db_hashtable_rehashing".spec_bytes()) by { reveal_strlit("mem_overhead_db_hashtable_rehashing"); lemma_texts_differ("rdb_last_bgsave_time_sec", "mem_overhead_db_hashtable_rehashing"); }
    assert("rdb_last_bgsave_time_sec".spec_bytes() != "lazyfree_pending_objects".spec_bytes()) by {
        reveal_strlit("lazyfree_pending_objects");
        assert("rdb_last_bgsave_time_sec"@[0] != "lazyfree_pending_objects"@[0]);
        lemma_texts_differ("rdb_last_bgsave_time_sec", "lazyfree_pending_objects");
    }
    assert("rdb_last_bgsave_time_sec".spec_bytes() != "lazyfreed_objects".spec_bytes()) by { reveal_strlit("lazyfreed_objects"); lemma_texts_differ("rdb_last_bgsave_time_sec", "lazyfreed_objects"); }
    assert("rdb_last_bgsave_time_sec".spec_bytes() != "active_defrag_running".spec_bytes()) by { reveal_strlit("active_defrag_running"); lemma_texts_differ("rdb_last_bgsave_time_sec", "active_defrag_running"); }
    assert("rdb_last_bgsave_time_sec".spec_bytes() != "migrate_cached_sockets".spec_bytes()) by { reveal_strlit("migrate_cached_sockets"); lemma_texts_differ("rdb_last_bgsave_time_sec", "migrate_cached_sockets"); }
    assert("rdb_last_bgsave_time_sec".spec_bytes() != "active_defrag_hits".spec_bytes()) by { reveal_strlit("active_defrag_hits"); lemma_texts_differ("rdb_last_bgsave_time_sec", "active_defrag_hits"); }
    assert("rdb_last_bgsave_time_sec".spec_bytes() != "active_defrag_misses".spec_bytes()) by { reveal_strlit("active_defrag_misses"); lemma_texts_differ("rdb_last_bgsave_time_sec", "active_defrag_misses"); }
    assert("rdb_last_bgsave_time_sec".spec_bytes() != "active_defrag_key_hits".spec_bytes()) by { reveal_strlit("active_defrag_key_hits"); lemma_texts_differ("rdb_last_bgsave_time_sec", "active_defrag_key_hits"); }
    assert("rdb_last_bgsave_time_sec".spec_bytes() != "active_defrag_key_misses".spec_bytes()) by {
        reveal_strlit("active_defrag_key_misses");
        assert("rdb_last_bgsave_time_sec"@[0] != "active_defrag_key_misses"@[0]);
        lemma_texts_differ("rdb_last_bgsave_time_sec", "active_defrag_key_misses");
    }
    assert("rdb_last_bgsave_time_sec".spec_bytes() != "expired_time_cap_reached_count".spec_bytes()) by { reveal_strlit("expired_time_cap_reached_count"); lemma_texts_differ("rdb_last_bgsave_time_sec", "expired_time_cap_reached_count"); }
    assert("rdb_last_bgsave_time_sec".spec_bytes() != "loading".spec_bytes()) by { reveal_strlit("loading"); lemma_texts_differ("rdb_last_bgsave_time_sec", "loading"); }
    assert("rdb_last_bgsave_time_sec".spec_bytes() != "async_loading".spec_bytes()) by { reveal_strlit("async_loading"); lemma_texts_differ("rdb_last_bgsave_time_sec", "async_loading"); }
    assert("rdb_last_bgsave_time_sec".spec_bytes() != "rdb_changes_since_last_save".spec_bytes()) by { reveal_strlit("rdb_changes_since_last_save"); lemma_texts_differ("rdb_last_bgsave_time_sec", "rdb_changes_since_last_save"); }
    assert("rdb_last_bgsave_time_sec".spec_bytes() != "rdb_bgsave_in_progress".spec_bytes()) by { reveal_strlit("rdb_bgsave_in_progress"); lemma_texts_differ("rdb_last_bgsave_time_sec", "rdb_bgsave_in_progress"); }
    assert("rdb_last_bgsave_time_sec".spec_bytes() != "rdb_last_save_time".spec_bytes()) by { reveal_strlit("rdb_last_save_time"); lemma_texts_differ("rdb_last_bgsave_time_sec", "rdb_last_save_time"); }
    assert("rdb_last_bgsave_time_sec".spec_bytes() != "rdb_last_bgsave_status".spec_bytes()) by { reveal_strlit("rdb_last_bgsave_status"); lemma_texts_differ("rdb_last_bgsave_time_sec", "rdb_last_bgsave_status"); }
}

/// The field `rdb_current_bgsave_time_sec` is reported as the gauge `rdb_current_bgsave_duration_sec` where part 2 of the table is read.
pub proof fn lemma_field_rdb_current_bgsave_time_sec()
    ensures
        table_part_2("rdb_current_bgsave_time_sec".spec_bytes()) == Some(
            GenericMetric { kind: Kind::Gauge, name: "rdb_current_bgsave_duration_sec", description: "Duration of the on-going RDB save operation if any", micros: false },
        ),
{
    reveal_strlit("rdb_current_bgsave_time_sec");
    assert("rdb_current_bgsave_time_sec".spec_bytes() != "mem_not_counted_for_evict".spec_bytes()) by { reveal_strlit("mem_not_counted_for_evict"); lemma_texts_differ("rdb_current_bgsave_time_sec", "mem_not_counted_for_evict"); }
    assert("rdb_current_bgsave_time_sec".spec_bytes() != "mem_total_replication_buffers".spec_bytes()) by { reveal_strlit("mem_total_replication_buffers"); lemma_texts_differ("rdb_current_bgsave_time_sec", "mem_total_replication_buffers"); }
    assert("rdb_current_bgsave_time_sec".spec_bytes() != "mem_overhead_db_hashtable_rehashing".spec_bytes()) by { reveal_strlit("mem_overhead_db_hashtable_rehashing"); lemma_texts_differ("rdb_current_bgsave_time_sec", "mem_overhead_db_hashtable_rehashing"); }
    assert("rdb_current_bgsave_time_sec".spec_bytes() != "lazyfree_pending_objects".spec_bytes()) by { reveal_strlit("lazyfree_pending_objects"); lemma_texts_differ("rdb_current_bgsave_time_sec", "lazyfree_pending_objects"); }
    assert("rdb_current_bgsave_time_sec".spec_bytes() != "lazyfreed_objects".spec_bytes()) by { reveal_strlit("lazyfreed_objects"); lemma_texts_differ("rdb_current_bgsave_time_sec", "lazyfreed_objects"); }
    assert("rdb_current_bgsave_time_sec".spec_bytes() != "active_defrag_running".spec_bytes()) by { reveal_strlit("active_defrag_running"); lemma_texts_differ("rdb_current_bgsave_time_sec", "active_defrag_running"); }
    assert("rdb_current_bgsave_time_sec".spec_bytes() != "migrate_cached_sockets".spec_bytes()) by { reveal_strlit("migrate_cached_sockets"); lemma_texts_differ("rdb_current_bgsave_time_sec", "migrate_cached_sockets"); }
    assert("rdb_current_bgsave_time_sec".spec_bytes() != "active_defrag_hits".spec_bytes()) by { reveal_strlit("active_defrag_hits"); lemma_texts_differ("rdb_current_bgsave_time_sec", "active_defrag_hits"); }
    assert("rdb_current_bgsave_time_sec".spec_bytes() != "active_defrag_misses".spec_bytes()) by { reveal_strlit("active_defrag_misses"); lemma_texts_differ("rdb_current_bgsave_time_sec", "active_defrag_misses"); }
    assert("rdb_current_bgsave_time_sec".spec_bytes() != "active_defrag_key_hits".spec_bytes()) by { reveal_strlit("active_defrag_key_hits"); lemma_texts_differ("rdb_current_bgsave_time_sec", "active_defrag_key_hits"); }
    assert("rdb_current_bgsave_time_sec".spec_bytes() != "active_defrag_key_misses".spec_bytes()) by { reveal_strlit("active_defrag_key_misses"); lemma_texts_differ("rdb_current_bgsave_time_sec", "active_defrag_key_misses"); }
    assert("rdb_current_bgsave_time_sec".spec_bytes() != "expired_time_cap_reached_count".spec_bytes()) by { reveal_strlit("expired_time_cap_reached_count"); lemma_texts_differ("rdb_current_bgsave_time_sec", "expired_time_cap_reached_count"); }
    assert("rdb_current_bgsave_time_sec".spec_bytes() != "loading".spec_bytes()) by { reveal_strlit("loading"); lemma_texts_differ("rdb_current_bgsave_time_sec", "loading"); }
    assert("rdb_current_bgsave_time_sec".spec_bytes() != "async_loading".spec_bytes()) by { reveal_strlit("async_loading"); lemma_texts_differ("rdb_current_bgsave_time_sec", "async_loading"); }
    assert("rdb_current_bgsave_time_sec".spec_bytes() != "rdb_changes_since_last_save".spec_bytes()) by {
        reveal_strlit("rdb_changes_since_last_save");
        assert("rdb_current_bgsave_time_sec"@[5] != "rdb_changes_since_last_save"@[5]);
        lemma_texts_differ("rdb_current_bgsave_time_sec", "rdb_changes_since_last_save");
    }
    assert("rdb_current_bgsave_time_sec".spec_bytes() != "rdb_bgsave_in_progress".spec_bytes()) by { reveal_strlit("rdb_bgsave_in_progress"); lemma_texts_differ("rdb_current_bgsave_time_sec", "rdb_bgsave_in_progress"); }
    assert("rdb_current_bgsave_time_sec".spec_bytes() != "rdb_last_save_time".spec_bytes()) by { reveal_strlit("rdb_last_save_time"); lemma_texts_differ("rdb_current_bgsave_time_sec", "rdb_last_save_time"); }
    assert("rdb_current_bgsave_time_sec".spec_bytes() != "rdb_last_bgsave_status".spec_bytes()) by { reveal_strlit("rdb_last_bgsave_status"); lemma_texts_differ("rdb_current_bgsave_time_sec", "rdb_last_bgsave_status"); }
    assert("rdb_current_bgsave_time_sec".spec_bytes() != "rdb_last_bgsave_time_sec".spec_bytes()) by { reveal_strlit("rdb_last_bgsave_time_sec"); lemma_texts_differ("rdb_current_bgsave_time_sec", "rdb_last_bgsave_time_sec"); }
}

/// The field `rdb_saves` is reported as the gauge `rdb_saves_total` where part 2 of the table is read.
pub proof fn lemma_field_rdb_saves()
    ensures
        table_part_2("rdb_saves".spec_bytes()) == Some(
            GenericMetric { kind: Kind::Gauge, name: "rdb_saves_total", description: "Number of RDB snapshots performed since startup", micros: false },
        ),
{
    reveal_strlit("rdb_saves");
    assert("rdb_saves".spec_bytes() != "mem_not_counted_for_evict".spec_bytes()) by { reveal_strlit("mem_not_counted_for_evict"); lemma_texts_differ("rdb_saves", "mem_not_counted_for_evict"); }
    assert("rdb_saves".spec_bytes() != "mem_total_replication_buffers".spec_bytes()) by { reveal_strlit("mem_total_replication_buffers"); lemma_texts_differ("rdb_saves", "mem_total_replication_buffers"); }
    assert("rdb_saves".spec_bytes() != "mem_overhead_db_hashtable_rehashing".spec_bytes()) by { reveal_strlit("mem_overhead_db_hashtable_rehashing"); lemma_texts_differ("rdb_saves", "mem_overhead_db_hashtable_rehashing"); }
    assert("rdb_saves".spec_bytes() != "lazyfree_pending_objects".spec_bytes()) by { reveal_strlit("lazyfree_pending_objects"); lemma_texts_differ("rdb_saves", "lazyfree_pending_objects"); }
    assert("rdb_saves".spec_bytes() != "lazyfreed_objects".spec_bytes()) by { reveal_strlit("lazyfreed_objects"); lemma_texts_differ("rdb_saves", "lazyfreed_objects"); }
    assert("rdb_saves".spec_bytes() != "active_defrag_running".spec_bytes()) by { reveal_strlit("active_defrag_running"); lemma_texts_differ("rdb_saves", "active_defrag_running"); }
    assert("rdb_saves".spec_bytes() != "migrate_cached_sockets".spec_bytes()) by { reveal_strlit("migrate_cached_sockets"); lemma_texts_differ("rdb_saves", "migrate_cached_sockets"); }
    assert("rdb_saves".spec_bytes() != "active_defrag_hits".spec_bytes()) by { reveal_strlit("active_defrag_hits"); lemma_texts_differ("rdb_saves", "active_defrag_hits"); }
    assert("rdb_saves".spec_bytes() != "active_defrag_misses".spec_bytes()) by { reveal_strlit("active_defrag_misses"); lemma_texts_differ("rdb_saves", "active_defrag_misses"); }
    assert("rdb_saves".spec_bytes() != "active_defrag_key_hits".spec_bytes()) by { reveal_strlit("active_defrag_key_hits"); lemma_texts_differ("rdb_saves", "active_defrag_key_hits"); }
    assert("rdb_saves".spec_bytes() != "active_defrag_key_misses".spec_bytes()) by { reveal_strlit("active_defrag_key_misses"); lemma_texts_differ("rdb_saves", "active_defrag_key_misses"); }
    assert("rdb_saves".spec_bytes() != "expired_time_cap_reached_count".spec_bytes()) by { reveal_strlit("expired_time_cap_reached_count"); lemma_texts_differ("rdb_saves", "expired_time_cap_reached_count"); }
    assert("rdb_saves".spec_bytes() != "loading".spec_bytes()) by { reveal_strlit("loading"); lemma_texts_differ("rdb_saves", "loading"); }
    assert("rdb_saves".spec_bytes() != "async_loading".spec_bytes()) by { reveal_strlit("async_loading"); lemma_texts_differ("rdb_saves", "async_loading"); }
    assert("rdb_saves".spec_bytes() != "rdb_changes_since_last_save".spec_bytes()) by { reveal_strlit("rdb_changes_since_last_save"); lemma_texts_differ("rdb_saves", "rdb_changes_since_last_save"); }
    assert("rdb_saves".spec_bytes() != "rdb_bgsave_in_progress".spec_bytes()) by { reveal_strlit("rdb_bgsave_in_progress"); lemma_texts_differ("rdb_saves", "rdb_bgsave_in_progress"); }
    assert("rdb_saves".spec_bytes() != "rdb_last_save_time".spec_bytes()) by { reveal_strlit("rdb_last_save_time"); lemma_texts_differ("rdb_saves", "rdb_last_save_time"); }
    assert("rdb_saves".spec_bytes() != "rdb_last_bgsave_status".spec_bytes()) by { reveal_strlit("rdb_last_bgsave_status"); lemma_texts_differ("rdb_saves", "rdb_last_bgsave_status"); }
    assert("rdb_saves".spec_bytes() != "rdb_last_bgsave_time_sec".spec_bytes()) by { reveal_strlit("rdb_last_bgsave_time_sec"); lemma_texts_differ("rdb_saves", "rdb_last_bgsave_time_sec"); }
    assert("rdb_saves".spec_bytes() != "rdb_current_bgsave_time_sec".spec_bytes()) by { reveal_strlit("rdb_current_bgsave_time_sec"); lemma_texts_differ("rdb_saves", "rdb_current_bgsave_time_sec"); }
}

/// The field `rdb_last_cow_size` is reported as the gauge `rdb_last_cow_size_bytes` where part 2 of the table is read.
pub proof fn lemma_field_rdb_last_cow_size()
    ensures
        table_part_2("rdb_last_cow_size".spec_bytes()) == Some(
            GenericMetric { kind: Kind::Gauge, name: "rdb_last_cow_size_bytes", description: "The size in bytes of copy-on-write memory during the last RDB save operation", micros: false },
        ),
{
    reveal_strlit("rdb_last_cow_size");
    assert("rdb_last_cow_size".spec_bytes() != "mem_not_counted_for_evict".spec_bytes()) by { reveal_strlit("mem_not_counted_for_evict"); lemma_texts_differ("rdb_last_cow_size", "mem_not_counted_for_evict"); }
    assert("rdb_last_cow_size".spec_bytes() != "mem_total_replication_buffers".spec_bytes()) by { reveal_strlit("mem_total_replication_buffers"); lemma_texts_differ("rdb_last_cow_size", "mem_total_replication_buffers"); }
    assert("rdb_last_cow_size".spec_bytes() != "mem_overhead_db_hashtable_rehashing".spec_bytes()) by { reveal_strlit("mem_overhead_db_hashtable_rehashing"); lemma_texts_differ("rdb_last_cow_size", "mem_overhead_db_hashtable_rehashing"); }
    assert("rdb_last_cow_size".spec_bytes() != "lazyfree_pending_objects".spec_bytes()) by { reveal_strlit("lazyfree_pending_objects"); lemma_texts_differ("rdb_last_cow_size", "lazyfree_pending_objects"); }
    assert("rdb_last_cow_size".spec_bytes() != "lazyfreed_objects".spec_bytes()) by {
        reveal_strlit("lazyfreed_objects");
        assert("rdb_last_cow_size"@[0] != "lazyfreed_objects"@[0]);
        lemma_texts_differ("rdb_last_cow_size", "lazyfreed_objects");
    }
    assert("rdb_last_cow_size".spec_bytes() != "active_defrag_running".spec_bytes()) by { reveal_strlit("active_defrag_running"); lemma_texts_differ("rdb_last_cow_size", "active_defrag_running"); }
    assert("rdb_last_cow_size".spec_bytes() != "migrate_cached_sockets".spec_bytes()) by { reveal_strlit("migrate_cached_sockets"); lemma_texts_differ("rdb_last_cow_size", "migrate_cached_sockets"); }
    assert("rdb_last_cow_size".spec_bytes() != "active_defrag_hits".spec_bytes()) by { reveal_strlit("active_defrag_hits"); lemma_texts_differ("rdb_last_cow_size", "active_defrag_hits"); }
    assert("rdb_last_cow_size".spec_bytes() != "active_defrag_misses".spec_bytes()) by { reveal_strlit("active_defrag_misses"); lemma_texts_differ("rdb_last_cow_size", "active_defrag_misses"); }
    assert("rdb_last_cow_size".spec_bytes() != "active_defrag_key_hits".spec_bytes()) by { reveal_strlit("active_defrag_key_hits"); lemma_texts_differ("rdb_last_cow_size", "active_defrag_key_hits"); }
    assert("rdb_last_cow_size".spec_bytes() != "active_defrag_key_misses".spec_bytes()) by { reveal_strlit("active_defrag_key_misses"); lemma_texts_differ("rdb_last_cow_size", "active_defrag_key_misses"); }
    assert("rdb_last_cow_size".spec_bytes() != "expired_time_cap_reached_count".spec_bytes()) by { reveal_strlit("expired_time_cap_reached_count"); lemma_texts_differ("rdb_last_cow_size", "expired_time_cap_reached_count"); }
    assert("rdb_last_cow_size".spec_bytes() != "loading".spec_bytes()) by { reveal_strlit("loading"); lemma_texts_differ("rdb_last_cow_size", "loading"); }
    assert("rdb_last_cow_size".spec_bytes() != "async_loading".spec_bytes()) by { reveal_strlit("async_loading"); lemma_texts_differ("rdb_last_cow_size", "async_loading"); }
    assert("rdb_last_cow_size".spec_bytes() != "rdb_changes_since_last_save".spec_bytes()) by { reveal_strlit("rdb_changes_since_last_save"); lemma_texts_differ("rdb_last_cow_size", "rdb_changes_since_last_save"); }
    assert("rdb_last_cow_size".spec_bytes() != "rdb_bgsave_in_progress".spec_bytes()) by { reveal_strlit("rdb_bgsave_in_progress"); lemma_texts_differ("rdb_last_cow_size", "rdb_bgsave_in_progress"); }
    assert("rdb_last_cow_size".spec_bytes() != "rdb_last_save_time".spec_bytes()) by { reveal_strlit("rdb_last_save_time"); lemma_texts_differ("rdb_last_cow_size", "rdb_last_save_time"); }
    assert("rdb_last_cow_size".spec_bytes() != "rdb_last_bgsave_status".spec_bytes()) by { reveal_strlit("rdb_last_bgsave_status"); lemma_texts_differ("rdb_last_cow_size", "rdb_last_bgsave_status"); }
    assert("rdb_last_cow_size".spec_bytes() != "rdb_last_bgsave_time_sec".spec_bytes()) by { reveal_strlit("rdb_last_bgsave_time_sec"); lemma_texts_differ("rdb_last_cow_size", "rdb_last_bgsave_time_sec"); }
    assert("rdb_last_cow_size".spec_bytes() != "rdb_current_bgsave_time_sec".spec_bytes()) by { reveal_strlit("rdb_current_bgsave_time_sec"); lemma_texts_differ("rdb_last_cow_size", "rdb_current_bgsave_time_sec"); }
    assert("rdb_last_cow_size".spec_bytes() != "rdb_saves".spec_bytes()) by { reveal_strlit("rdb_saves"); lemma_texts_differ("rdb_last_cow_size", "rdb_saves"); }
}

/// The field `rdb_last_load_keys_expired` is reported as the gauge `rdb_last_load_expired_keys` where part 2 of the table is read.
pub proof fn lemma_field_rdb_last_load_keys_expired()
    ensures
        table_part_2("rdb_last_load_keys_expired".spec_bytes()) == Some(
            GenericMetric { kind: Kind::Gauge, name: "rdb_last_load_expired_keys", description: "Number of volatile keys deleted during the last RDB loading", micros: false },
        ),
{
    reveal_strlit("rdb_last_load_keys_expired");
    assert("rdb_last_load_keys_expired".spec_bytes() != "mem_not_counted_for_evict".spec_bytes()) by { reveal_strlit("mem_not_counted_for_evict"); lemma_texts_differ("rdb_last_load_keys_expired", "mem_not_counted_for_evict"); }
    assert("rdb_last_load_keys_expired".spec_bytes() != "mem_total_replication_buffers".spec_bytes()) by { reveal_strlit("mem_total_replication_buffers"); lemma_texts_differ("rdb_last_load_keys_expired", "mem_total_replication_buffers"); }
    assert("rdb_last_load_keys_expired".spec_bytes() != "mem_overhead_db_hashtable_rehashing".spec_bytes()) by { reveal_strlit("mem_overhead_db_hashtable_rehashing"); lemma_texts_differ("rdb_last_load_keys_expired", "mem_overhead_db_hashtable_rehashing"); }
    assert("rdb_last_load_keys_expired".spec_bytes() != "lazyfree_pending_objects".spec_bytes()) by { reveal_strlit("lazyfree_pending_objects"); lemma_texts_differ("rdb_last_load_keys_expired", "lazyfree_pending_objects"); }
    assert("rdb_last_load_keys_expired".spec_bytes() != "lazyfreed_objects".spec_bytes()) by { reveal_strlit("lazyfreed_objects"); lemma_texts_differ("rdb_last_load_keys_expired", "lazyfreed_objects"); }
    assert("rdb_last_load_keys_expired".spec_bytes() != "active_defrag_running".spec_bytes()) by { reveal_strlit("active_defrag_running"); lemma_texts_differ("rdb_last_load_keys_expired", "active_defrag_running"); }
    assert("rdb_last_load_keys_expired".spec_bytes() != "migrate_cached_sockets".spec_bytes()) by { reveal_strlit("migrate_cached_sockets"); lemma_texts_differ("rdb_last_load_keys_expired", "migrate_cached_sockets"); }
    assert("rdb_last_load_keys_expired".spec_bytes() != "active_defrag_hits".spec_bytes()) by { reveal_strlit("active_defrag_hits"); lemma_texts_differ("rdb_last_load_keys_expired", "active_defrag_hits"); }
    assert("rdb_last_load_keys_expired".spec_bytes() != "active_defrag_misses".spec_bytes()) by { reveal_strlit("active_defrag_misses"); lemma_texts_differ("rdb_last_load_keys_expired", "active_defrag_misses"); }
    assert("rdb_last_load_keys_expired".spec_bytes() != "active_defrag_key_hits".spec_bytes()) by { reveal_strlit("active_defrag_key_hits"); lemma_texts_differ("rdb_last_load_keys_expired", "active_defrag_key_hits"); }
    assert("rdb_last_load_keys_expired".spec_bytes() != "active_defrag_key_misses".spec_bytes()) by { reveal_strlit("active_defrag_key_misses"); lemma_texts_differ("rdb_last_load_keys_expired", "active_defrag_key_misses"); }
    assert("rdb_last_load_keys_expired".spec_bytes() != "expired_time_cap_reached_count".spec_bytes()) by { reveal_strlit("expired_time_cap_reached_count"); lemma_texts_differ("rdb_last_load_keys_expired", "expired_time_cap_reached_count"); }
    assert("rdb_last_load_keys_expired".spec_bytes() != "loading".spec_bytes()) by { reveal_strlit("loading"); lemma_texts_differ("rdb_last_load_keys_expired", "loading"); }
    assert("rdb_last_load_keys_expired".spec_bytes() != "async_loading".spec_bytes()) by { reveal_strlit("async_loading"); lemma_texts_differ("rdb_last_load_keys_expired", "async_loading"); }
    assert("rdb_last_load_keys_expired".spec_bytes() != "rdb_changes_since_last_save".spec_bytes()) by { reveal_strlit("rdb_changes_since_last_save"); lemma_texts_differ("rdb_last_load_keys_expired", "rdb_changes_since_last_save"); }
    assert("rdb_last_load_keys_expired".spec_bytes() != "rdb_bgsave_in_progress".spec_bytes()) by { reveal_strlit("rdb_bgsave_in_progress"); lemma_texts_differ("rdb_last_load_keys_expired", "rdb_bgsave_in_progress"); }
    assert("rdb_last_load_keys_expired".spec_bytes() != "rdb_last_save_time".spec_bytes()) by { reveal_strlit("rdb_last_save_time"); lemma_texts_differ("rdb_last_load_keys_expired", "rdb_last_save_time"); }
    assert("rdb_last_load_keys_expired".spec_bytes() != "rdb_last_bgsave_status".spec_bytes()) by { reveal_strlit("rdb_last_bgsave_status"); lemma_texts_differ("rdb_last_load_keys_expired", "rdb_last_bgsave_status"); }
    assert("rdb_last_load_keys_expired".spec_bytes() != "rdb_last_bgsave_time_sec".spec_bytes()) by { reveal_strlit("rdb_last_bgsave_time_sec"); lemma_texts_differ("rdb_last_load_keys_expired", "rdb_last_bgsave_time_sec"); }
    assert("rdb_last_load_keys_expired".spec_bytes() != "rdb_current_bgsave_time_sec".spec_bytes()) by { reveal_strlit("rdb_current_bgsave_time_sec"); lemma_texts_differ("rdb_last_load_keys_expired", "rdb_current_bgsave_time_sec"); }
    assert("rdb_last_load_keys_expired".spec_bytes() != "rdb_saves".spec_bytes()) by { reveal_strlit("rdb_saves"); lemma_texts_differ("rdb_last_load_keys_expired", "rdb_saves"); }
    assert("rdb_last_load_keys_expired".spec_bytes() != "rdb_last_cow_size".spec_bytes()) by { reveal_strlit("rdb_last_cow_size"); lemma_texts_differ("rdb_last_load_keys_expired", "rdb_last_cow_size"); }
}

/// The field `rdb_last_load_keys_loaded` is reported as the gauge `rdb_last_load_loaded_keys` where part 2 of the table is read.
pub proof fn lemma_field_rdb_last_load_keys_loaded()
    ensures
        table_part_2("rdb_last_load_keys_loaded".spec_bytes()) == Some(
            GenericMetric { kind: Kind::Gauge, name: "rdb_last_load_loaded_keys", description: "Number of keys loaded during the last RDB loading", micros: false },
        ),
{
    reveal_strlit("rdb_last_load_keys_loaded");
    assert("rdb_last_load_keys_loaded".spec_bytes() != "mem_not_counted_for_evict".spec_bytes()) by {
        reveal_strlit("mem_not_counted_for_evict");
        assert("rdb_last_load_keys_loaded"@[0] != "mem_not_counted_for_evict"@[0]);
        lemma_texts_differ("rdb_last_load_keys_loaded", "mem_not_counted_for_evict");
    }
    assert("rdb_last_load_keys_loaded".spec_bytes() != "mem_total_replication_buffers".spec_bytes()) by { reveal_strlit("mem_total_replication_buffers"); lemma_texts_differ("rdb_last_load_keys_loaded", "mem_total_replication_buffers"); }
    assert("rdb_last_load_keys_loaded".spec_bytes() != "mem_overhead_db_hashtable_rehashing".spec_bytes()) by { reveal_strlit("mem_overhead_db_hashtable_rehashing"); lemma_texts_differ("rdb_last_load_keys_loaded", "mem_overhead_db_hashtable_rehashing"); }
    assert("rdb_last_load_keys_loaded".spec_bytes() != "lazyfree_pending_objects".spec_bytes()) by { reveal_strlit("lazyfree_pending_objects"); lemma_texts_differ("rdb_last_load_keys_loaded", "lazyfree_pending_objects"); }
    assert("rdb_last_load_keys_loaded".spec_bytes() != "lazyfreed_objects".spec_bytes()) by { reveal_strlit("lazyfreed_objects"); lemma_texts_differ("rdb_last_load_keys_loaded", "lazyfreed_objects"); }
    assert("rdb_last_load_keys_loaded".spec_bytes() != "active_defrag_running".spec_bytes()) by { reveal_strlit("active_defrag_running"); lemma_texts_differ("rdb_last_load_keys_loaded", "active_defrag_running"); }
    assert("rdb_last_load_keys_loaded".spec_bytes() != "migrate_cached_sockets".spec_bytes()) by { reveal_strlit("migrate_cached_sockets"); lemma_texts_differ("rdb_last_load_keys_loaded", "migrate_cached_sockets"); }
    assert("rdb_last_load_keys_loaded".spec_bytes() != "active_defrag_hits".spec_bytes()) by { reveal_strlit("active_defrag_hits"); lemma_texts_differ("rdb_last_load_keys_loaded", "active_defrag_hits"); }
    assert("rdb_last_load_keys_loaded".spec_bytes() != "active_defrag_misses".spec_bytes()) by { reveal_strlit("active_defrag_misses"); lemma_texts_differ("rdb_last_load_keys_loaded", "active_defrag_misses"); }
    assert("rdb_last_load_keys_loaded".spec_bytes() != "active_defrag_key_hits".spec_bytes()) by { reveal_strlit("active_defrag_key_hits"); lemma_texts_differ("rdb_last_load_keys_loaded", "active_defrag_key_hits"); }
    assert("rdb_last_load_keys_loaded".spec_bytes() != "active_defrag_key_misses".spec_bytes()) by { reveal_strlit("active_defrag_key_misses"); lemma_texts_differ("rdb_last_load_keys_loaded", "active_defrag_key_misses"); }
    assert("rdb_last_load_keys_loaded".spec_bytes() != "expired_time_cap_reached_count".spec_bytes()) by { reveal_strlit("expired_time_cap_reached_count"); lemma_texts_differ("rdb_last_load_keys_loaded", "expired_time_cap_reached_count"); }
    assert("rdb_last_load_keys_loaded".spec_bytes() != "loading".spec_bytes()) by { reveal_strlit("loading"); lemma_texts_differ("rdb_last_load_keys_loaded", "loading"); }
    assert("rdb_last_load_keys_loaded".spec_bytes() != "async_loading".spec_bytes()) by { reveal_strlit("async_loading"); lemma_texts_differ("rdb_last_load_keys_loaded", "async_loading"); }
    assert("rdb_last_load_keys_loaded".spec_bytes() != "rdb_changes_since_last_save".spec_bytes()) by { reveal_strlit("rdb_changes_since_last_save"); lemma_texts_differ("rdb_last_load_keys_loaded", "rdb_changes_since_last_save"); }
    assert("rdb_last_load_keys_loaded".spec_bytes() != "rdb_bgsave_in_progress".spec_bytes()) by { reveal_strlit("rdb_bgsave_in_progress"); lemma_texts_differ("rdb_last_load_keys_loaded", "rdb_bgsave_in_progress"); }
    assert("rdb_last_load_keys_loaded".spec_bytes() != "rdb_last_save_time".spec_bytes()) by { reveal_strlit("rdb_last_save_time"); lemma_texts_differ("rdb_last_load_keys_loaded", "rdb_last_save_time"); }
    assert("rdb_last_load_keys_loaded".spec_bytes() != "rdb_last_bgsave_status".spec_bytes()) by { reveal_strlit("rdb_last_bgsave_status"); lemma_texts_differ("rdb_last_load_keys_loaded", "rdb_last_bgsave_status"); }
    assert("rdb_last_load_keys_loaded".spec_bytes() != "rdb_last_bgsave_time_sec".spec_bytes()) by { reveal_strlit("rdb_last_bgsave_time_sec"); lemma_texts_differ("rdb_last_load_keys_loaded", "rdb_last_bgsave_time_sec"); }
    assert("rdb_last_load_keys_loaded".spec_bytes() != "rdb_current_bgsave_time_sec".spec_bytes()) by { reveal_strlit("rdb_current_bgsave_time_sec"); lemma_texts_differ("rdb_last_load_keys_loaded", "rdb_current_bgsave_time_sec"); }
    assert("rdb_last_load_keys_loaded".spec_bytes() != "rdb_saves".spec_bytes()) by { reveal_strlit("rdb_saves"); lemma_texts_differ("rdb_last_load_keys_loaded", "rdb_saves"); }
    assert("rdb_last_load_keys_loaded".spec_bytes() != "rdb_last_cow_size".spec_bytes()) by { reveal_strlit("rdb_last_cow_size"); lemma_texts_differ("rdb_last_load_keys_loaded", "rdb_last_cow_size"); }
    assert("rdb_last_load_keys_loaded".spec_bytes() != "rdb_last_load_keys_expired".spec_bytes()) by { reveal_strlit("rdb_last_load_keys_expired"); lemma_texts_differ("rdb_last_load_keys_loaded", "rdb_last_load_keys_expired"); }
}

/// The field `aof_enabled` is reported as the gauge `aof_enabled` where part 2 of the table is read.
pub proof fn lemma_field_aof_enabled()
    ensures
        table_part_2("aof_enabled".spec_bytes()) == Some(
            GenericMetric { kind: Kind::Gauge, name: "aof_enabled", description: "Flag indicating AOF logging is activated", micros: false },
        ),
{
    reveal_strlit("aof_enabled");
    assert("aof_enabled".spec_bytes() != "mem_not_counted_for_evict".spec_bytes()) by { reveal_strlit("mem_not_counted_for_evict"); lemma_texts_differ("aof_enabled", "mem_not_counted_for_evict"); }
    assert("aof_enabled".spec_bytes() != "mem_total_replication_buffers".spec_bytes()) by { reveal_strlit("mem_total_replication_buffers"); lemma_texts_differ("aof_enabled", "mem_total_replication_buffers"); }
    assert("aof_enabled".spec_bytes() != "mem_overhead_db_hashtable_rehashing".spec_bytes()) by { reveal_strlit("mem_overhead_db_hashtable_rehashing"); lemma_texts_differ("aof_enabled", "mem_overhead_db_hashtable_rehashing"); }
    assert("aof_enabled".spec_bytes() != "lazyfree_pending_objects".spec_bytes()) by { reveal_strlit("lazyfree_pending_objects"); lemma_texts_differ("aof_enabled", "lazyfree_pending_objects"); }
    assert("aof_enabled".spec_bytes() != "lazyfreed_objects".spec_bytes()) by { reveal_strlit("lazyfreed_objects"); lemma_texts_differ("aof_enabled", "lazyfreed_objects"); }
    assert("aof_enabled".spec_bytes() != "active_defrag_running".spec_bytes()) by { reveal_strlit("active_defrag_running"); lemma_texts_differ("aof_enabled", "active_defrag_running"); }
    assert("aof_enabled".spec_bytes() != "migrate_cached_sockets".spec_bytes()) by { reveal_strlit("migrate_cached_sockets"); lemma_texts_differ("aof_enabled", "migrate_cached_sockets"); }
    assert("aof_enabled".spec_bytes() != "active_defrag_hits".spec_bytes()) by { reveal_strlit("active_defrag_hits"); lemma_texts_differ("aof_enabled", "active_defrag_hits"); }
    assert("aof_enabled".spec_bytes() != "active_defrag_misses".spec_bytes()) by { reveal_strlit("active_defrag_misses"); lemma_texts_differ("aof_enabled", "active_defrag_misses"); }
    assert("aof_enabled".spec_bytes() != "active_defrag_key_hits".spec_bytes()) by { reveal_strlit("active_defrag_key_hits"); lemma_texts_differ("aof_enabled", "active_defrag_key_hits"); }
    assert("aof_enabled".spec_bytes() != "active_defrag_key_misses".spec_bytes()) by { reveal_strlit("active_defrag_key_misses"); lemma_texts_differ("aof_enabled", "active_defrag_key_misses"); }
    assert("aof_enabled".spec_bytes() != "expired_time_cap_reached_count".spec_bytes()) by { reveal_strlit("expired_time_cap_reached_count"); lemma_texts_differ("aof_enabled", "expired_time_cap_reached_count"); }
    assert("aof_enabled".spec_bytes() != "loading".spec_bytes()) by { reveal_strlit("loading"); lemma_texts_differ("aof_enabled", "loading"); }
    assert("aof_enabled".spec_bytes() != "async_loading".spec_bytes()) by { reveal_strlit("async_loading"); lemma_texts_differ("aof_enabled", "async_loading"); }
    assert("aof_enabled".spec_bytes() != "rdb_changes_since_last_save".spec_bytes()) by { reveal_strlit("rdb_changes_since_last_save"); lemma_texts_differ("aof_enabled", "rdb_changes_since_last_save"); }
    assert("aof_enabled".spec_bytes() != "rdb_bgsave_in_progress".spec_bytes()) by { reveal_strlit("rdb_bgsave_in_progress"); lemma_texts_differ("aof_enabled", "rdb_bgsave_in_progress"); }
    assert("aof_enabled".spec_bytes() != "rdb_last_save_time".spec_bytes()) by { reveal_strlit("rdb_last_save_time"); lemma_texts_differ("aof_enabled", "rdb_last_save_time"); }
    assert("aof_enabled".spec_bytes() != "rdb_last_bgsave_status".spec_bytes()) by { reveal_strlit("rdb_last_bgsave_status"); lemma_texts_differ("aof_enabled", "rdb_last_bgsave_status"); }
    assert("aof_enabled".spec_bytes() != "rdb_last_bgsave_time_sec".spec_bytes()) by { reveal_strlit("rdb_last_bgsave_time_sec"); lemma_texts_differ("aof_enabled", "rdb_last_bgsave_time_sec"); }
    assert("aof_enabled".spec_bytes() != "rdb_current_bgsave_time_sec".spec_bytes()) by { reveal_strlit("rdb_current_bgsave_time_sec"); lemma_texts_differ("aof_enabled", "rdb_current_bgsave_time_sec"); }
    assert("aof_enabled".spec_bytes() != "rdb_saves".spec_bytes()) by { reveal_strlit("rdb_saves"); lemma_texts_differ("aof_enabled", "rdb_saves"); }
    assert("aof_enabled".spec_bytes() != "rdb_last_cow_size".spec_bytes()) by { reveal_strlit("rdb_last_cow_size"); lemma_texts_differ("aof_enabled", "rdb_last_cow_size"); }
    assert("aof_enabled".spec_bytes() != "rdb_last_load_keys_expired".spec_bytes()) by { reveal_strlit("rdb_last_load_keys_expired"); lemma_texts_differ("aof_enabled", "rdb_last_load_keys_expired"); }
    assert("aof_enabled".spec_bytes() != "rdb_last_load_keys_loaded".spec_bytes()) by { reveal_strlit("rdb_last_load_keys_loaded"); lemma_texts_differ("aof_enabled", "rdb_last_load_keys_loaded"); }
}

/// The field `aof_rewrite_in_progress` is reported as the gauge `aof_rewrite_in_progress` where part 2 of the table is read.
pub proof fn lemma_field_aof_rewrite_in_progress()
    ensures
        table_part_2("aof_rewrite_in_progress".spec_bytes()) == Some(
            GenericMetric { kind: Kind::Gauge, name: "aof_rewrite_in_progress", description: "Flag indicating a AOF rewrite operation is on-going", micros: false },
        ),
{
    reveal_strlit("aof_rewrite_in_progress");
    assert("aof_rewrite_in_progress".spec_bytes() != "mem_not_counted_for_evict".spec_bytes()) by { reveal_strlit("mem_not_counted_for_evict"); lemma_texts_differ("aof_rewrite_in_progress", "mem_not_counted_for_evict"); }
    assert("aof_rewrite_in_progress".spec_bytes() != "mem_total_replication_buffers".spec_bytes()) by { reveal_strlit("mem_total_replication_buffers"); lemma_texts_differ("aof_rewrite_in_progress", "mem_total_replication_buffers"); }
    assert("aof_rewrite_in_progress".spec_bytes() != "mem_overhead_db_hashtable_rehashing".spec_bytes()) by { reveal_strlit("mem_overhead_db_hashtable_rehashing"); lemma_texts_differ("aof_rewrite_in_progress", "mem_overhead_db_hashtable_rehashing"); }
    assert("aof_rewrite_in_progress".spec_bytes() != "lazyfree_pending_objects".spec_bytes()) by { reveal_strlit("lazyfree_pending_objects"); lemma_texts_differ("aof_rewrite_in_progress", "lazyfree_pending_objects"); }
    assert("aof_rewrite_in_progress".spec_bytes() != "lazyfreed_objects".spec_bytes()) by { reveal_strlit("lazyfreed_objects"); lemma_texts_differ("aof_rewrite_in_progress", "lazyfreed_objects"); }
    assert("aof_rewrite_in_progress".spec_bytes() != "active_defrag_running".spec_bytes()) by { reveal_strlit("active_defrag_running"); lemma_texts_differ("aof_rewrite_in_progress", "active_defrag_running"); }
    assert("aof_rewrite_in_progress".spec_bytes() != "migrate_cached_sockets".spec_bytes()) by { reveal_strlit("migrate_cached_sockets"); lemma_texts_differ("aof_rewrite_in_progress", "migrate_cached_sockets"); }
    assert("aof_rewrite_in_progress".spec_bytes() != "active_defrag_hits".spec_bytes()) by { reveal_strlit("active_defrag_hits"); lemma_texts_differ("aof_rewrite_in_progress", "active_defrag_hits"); }
    assert("aof_rewrite_in_progress".spec_bytes() != "active_defrag_misses".spec_bytes()) by { reveal_strlit("active_defrag_misses"); lemma_texts_differ("aof_rewrite_in_progress", "active_defrag_misses"); }
    assert("aof_rewrite_in_progress".spec_bytes() != "active_defrag_key_hits".spec_bytes()) by { reveal_strlit("active_defrag_key_hits"); lemma_texts_differ("aof_rewrite_in_progress", "active_defrag_key_hits"); }
    assert("aof_rewrite_in_progress".spec_bytes() != "active_defrag_key_misses".spec_bytes()) by { reveal_strlit("active_defrag_key_misses"); lemma_texts_differ("aof_rewrite_in_progress", "active_defrag_key_misses"); }
    assert("aof_rewrite_in_progress".spec_bytes() != "expired_time_cap_reached_count".spec_bytes()) by { reveal_strlit("expired_time_cap_reached_count"); lemma_texts_differ("aof_rewrite_in_progress", "expired_time_cap_reached_count"); }
    assert("aof_rewrite_in_progress".spec_bytes() != "loading".spec_bytes()) by { reveal_strlit("loading"); lemma_texts_differ("aof_rewrite_in_progress", "loading"); }
    assert("aof_rewrite_in_progress".spec_bytes() != "async_loading".spec_bytes()) by { reveal_strlit("async_loading"); lemma_texts_differ("aof_rewrite_in_progress", "async_loading"); }
    assert("aof_rewrite_in_progress".spec_bytes() != "rdb_changes_since_last_save".spec_bytes()) by { reveal_strlit("rdb_changes_since_last_save"); lemma_texts_differ("aof_rewrite_in_progress", "rdb_changes_since_last_save"); }
    assert("aof_rewrite_in_progress".spec_bytes() != "rdb_bgsave_in_progress".spec_bytes()) by { reveal_strlit("rdb_bgsave_in_progress"); lemma_texts_differ("aof_rewrite_in_progress", "rdb_bgsave_in_progress"); }
    assert("aof_rewrite_in_progress".spec_bytes() != "rdb_last_save_time".spec_bytes()) by { reveal_strlit("rdb_last_save_time"); lemma_texts_differ("aof_rewrite_in_progress", "rdb_last_save_time"); }
    assert("aof_rewrite_in_progress".spec_bytes() != "rdb_last_bgsave_status".spec_bytes()) by { reveal_strlit("rdb_last_bgsave_status"); lemma_texts_differ("aof_rewrite_in_progress", "rdb_last_bgsave_status"); }
    assert("aof_rewrite_in_progress".spec_bytes() != "rdb_last_bgsave_time_sec".spec_bytes()) by { reveal_strlit("rdb_last_bgsave_time_sec"); lemma_texts_differ("aof_rewrite_in_progress", "rdb_last_bgsave_time_sec"); }
    assert("aof_rewrite_in_progress".spec_bytes() != "rdb_current_bgsave_time_sec".spec_bytes()) by { reveal_strlit("rdb_current_bgsave_time_sec"); lemma_texts_differ("aof_rewrite_in_progress", "rdb_current_bgsave_time_sec"); }
    assert("aof_rewrite_in_progress".spec_bytes() != "rdb_saves".spec_bytes()) by { reveal_strlit("rdb_saves"); lemma_texts_differ("aof_rewrite_in_progress", "rdb_saves"); }
    assert("aof_rewrite_in_progress".spec_bytes() != "rdb_last_cow_size".spec_bytes()) by { reveal_strlit("rdb_last_cow_size"); lemma_texts_differ("aof_rewrite_in_progress", "rdb_last_cow_size"); }
    assert("aof_rewrite_in_progress".spec_bytes() != "rdb_last_load_keys_expired".spec_bytes()) by { reveal_strlit("rdb_last_load_keys_expired"); lemma_texts_differ("aof_rewrite_in_progress", "rdb_last_load_keys_expired"); }
    assert("aof_rewrite_in_progress".spec_bytes() != "rdb_last_load_keys_loaded".spec_bytes()) by { reveal_strlit("rdb_last_load_keys_loaded"); lemma_texts_differ("aof_rewrite_in_progress", "rdb_last_load_keys_loaded"); }
    assert("aof_rewrite_in_progress".spec_bytes() != "aof_enabled".spec_bytes()) by { reveal_strlit("aof_enabled"); lemma_texts_differ("aof_rewrite_in_progress", "aof_enabled"); }
}

/// The field `aof_rewrite_scheduled` is reported as the gauge `aof_rewrite_scheduled` where part 2 of the table is read.
pub proof fn lemma_field_aof_rewrite_scheduled()
    ensures
        table_part_2("aof_rewrite_scheduled".spec_bytes()) == Some(
            GenericMetric { kind: Kind::Gauge, name: "aof_rewrite_scheduled", description: "Flag indicating an AOF rewrite operation will be scheduled once the on-going RDB save is complete", micros: false },
        ),
{
    reveal_strlit("aof_rewrite_scheduled");
    assert("aof_rewrite_scheduled".spec_bytes() != "mem_not_counted_for_evict".spec_bytes()) by { reveal_strlit("mem_not_counted_for_evict"); lemma_texts_differ("aof_rewrite_scheduled", "mem_not_counted_for_evict"); }
    assert("aof_rewrite_scheduled".spec_bytes() != "mem_total_replication_buffers".spec_bytes()) by { reveal_strlit("mem_total_replication_buffers"); lemma_texts_differ("aof_rewrite_scheduled", "mem_total_replication_buffers"); }
    assert("aof_rewrite_scheduled".spec_bytes() != "mem_overhead_db_hashtable_rehashing".spec_bytes()) by { reveal_strlit("mem_overhead_db_hashtable_rehashing"); lemma_texts_differ("aof_rewrite_scheduled", "mem_overhead_db_hashtable_rehashing"); }
    assert("aof_rewrite_scheduled".spec_bytes() != "lazyfree_pending_objects".spec_bytes()) by { reveal_strlit("lazyfree_pending_objects"); lemma_texts_differ("aof_rewrite_scheduled", "lazyfree_pending_objects"); }
    assert("aof_rewrite_scheduled".spec_bytes() != "lazyfreed_objects".spec_bytes()) by { reveal_strlit("lazyfreed_objects"); lemma_texts_differ("aof_rewrite_scheduled", "lazyfreed_objects"); }
    assert("aof_rewrite_scheduled".spec_bytes() != "active_defrag_running".spec_bytes()) by {
        reveal_strlit("active_defrag_running");
        assert("aof_rewrite_scheduled"@[1] != "active_defrag_running"@[1]);
        lemma_texts_differ("aof_rewrite_scheduled", "active_defrag_running");
    }
    assert("aof_rewrite_scheduled".spec_bytes() != "migrate_cached_sockets".spec_bytes()) by { reveal_strlit("migrate_cached_sockets"); lemma_texts_differ("aof_rewrite_scheduled", "migrate_cached_sockets"); }
    assert("aof_rewrite_scheduled".spec_bytes() != "active_defrag_hits".spec_bytes()) by { reveal_strlit("active_defrag_hits"); lemma_texts_differ("aof_rewrite_scheduled", "active_defrag_hits"); }
    assert("aof_rewrite_scheduled".spec_bytes() != "active_defrag_misses".spec_bytes()) by { reveal_strlit("active_defrag_misses"); lemma_texts_differ("aof_rewrite_scheduled", "active_defrag_misses"); }
    assert("aof_rewrite_scheduled".spec_bytes() != "active_defrag_key_hits".spec_bytes()) by { reveal_strlit("active_defrag_key_hits"); lemma_texts_differ("aof_rewrite_scheduled", "active_defrag_key_hits"); }
    assert("aof_rewrite_scheduled".spec_bytes() != "active_defrag_key_misses".spec_bytes()) by { reveal_strlit("active_defrag_key_misses"); lemma_texts_differ("aof_rewrite_scheduled", "active_defrag_key_misses"); }
    assert("aof_rewrite_scheduled".spec_bytes() != "expired_time_cap_reached_count".spec_bytes()) by { reveal_strlit("expired_time_cap_reached_count"); lemma_texts_differ("aof_rewrite_scheduled", "expired_time_cap_reached_count"); }
    assert("aof_rewrite_scheduled".spec_bytes() != "loading".spec_bytes()) by { reveal_strlit("loading"); lemma_texts_differ("aof_rewrite_scheduled", "loading"); }
    assert("aof_rewrite_scheduled".spec_bytes() != "async_loading".spec_bytes()) by { reveal_strlit("async_loading"); lemma_texts_differ("aof_rewrite_scheduled", "async_loading"); }
    assert("aof_rewrite_scheduled".spec_bytes() != "rdb_changes_since_last_save".spec_bytes()) by { reveal_strlit("rdb_changes_since_last_save"); lemma_texts_differ("aof_rewrite_scheduled", "rdb_changes_since_last_save"); }
    assert("aof_rewrite_scheduled".spec_bytes() != "rdb_bgsave_in_progress".spec_bytes()) by { reveal_strlit("rdb_bgsave_in_progress"); lemma_texts_differ("aof_rewrite_scheduled", "rdb_bgsave_in_progress"); }
    assert("aof_rewrite_scheduled".spec_bytes() != "rdb_last_save_time".spec_bytes()) by { reveal_strlit("rdb_last_save_time"); lemma_texts_differ("aof_rewrite_scheduled", "rdb_last_save_time"); }
    assert("aof_rewrite_scheduled".spec_bytes() != "rdb_last_bgsave_status".spec_bytes()) by { reveal_strlit("rdb_last_bgsave_status"); lemma_texts_differ("aof_rewrite_scheduled", "rdb_last_bgsave_status"); }
    assert("aof_rewrite_scheduled".spec_bytes() != "rdb_last_bgsave_time_sec".spec_bytes()) by { reveal_strlit("rdb_last_bgsave_time_sec"); lemma_texts_differ("aof_rewrite_scheduled", "rdb_last_bgsave_time_sec"); }
    assert("aof_rewrite_scheduled".spec_bytes() != "rdb_current_bgsave_time_sec".spec_bytes()) by { reveal_strlit("rdb_current_bgsave_time_sec"); lemma_texts_differ("aof_rewrite_scheduled", "rdb_current_bgsave_time_sec"); }
    assert("aof_rewrite_scheduled".spec_bytes() != "rdb_saves".spec_bytes()) by { reveal_strlit("rdb_saves"); lemma_texts_differ("aof_rewrite_scheduled", "rdb_saves"); }
    assert("aof_rewrite_scheduled".spec_bytes() != "rdb_last_cow_size".spec_bytes()) by { reveal_strlit("rdb_last_cow_size"); lemma_texts_differ("aof_rewrite_scheduled", "rdb_last_cow_size"); }
    assert("aof_rewrite_scheduled".spec_bytes() != "rdb_last_load_keys_expired".spec_bytes()) by { reveal_strlit("rdb_last_load_keys_expired"); lemma_texts_differ("aof_rewrite_scheduled", "rdb_last_load_keys_expired"); }
    assert("aof_rewrite_scheduled".spec_bytes() != "rdb_last_load_keys_loaded".spec_bytes()) by { reveal_strlit("rdb_last_load_keys_loaded"); lemma_texts_differ("aof_rewrite_scheduled", "rdb_last_load_keys_loaded"); }
    assert("aof_rewrite_scheduled".spec_bytes() != "aof_enabled".spec_bytes()) by { reveal_strlit("aof_enabled"); lemma_texts_differ("aof_rewrite_scheduled", "aof_enabled"); }
    assert("aof_rewrite_scheduled".spec_bytes() != "aof_rewrite_in_progress".spec_bytes()) by { reveal_strlit("aof_rewrite_in_progress"); lemma_texts_differ("aof_rewrite_scheduled", "aof_rewrite_in_progress"); }
}

/// The field `aof_last_rewrite_time_sec` is reported as the gauge `aof_last_rewrite_duration_sec` where part 3 of the table is read.
pub proof fn lemma_field_aof_last_rewrite_time_sec()
    ensures
        table_part_3("aof_last_rewrite_time_sec".spec_bytes()) == Some(
            GenericMetric { kind: Kind::Gauge, name: "aof_last_rewrite_duration_sec", description: "Duration of the last AOF rewrite operation in seconds", micros: false },
        ),
{

}

/// The field `aof_current_rewrite_time_sec` is reported as the gauge `aof_current_rewrite_duration_sec` where part 3 of the table is read.
pub proof fn lemma_field_aof_current_rewrite_time_sec()
    ensures
        table_part_3("aof_current_rewrite_time_sec".spec_bytes()) == Some(
            GenericMetric { kind: Kind::Gauge, name: "aof_current_rewrite_duration_sec", description: "Duration of the on-going AOF rewrite operation if any", micros: false },
        ),
{
    reveal_strlit("aof_current_rewrite_time_sec");
    assert("aof_current_rewrite_time_sec".spec_bytes() != "aof_last_rewrite_time_sec".spec_bytes()) by { reveal_strlit("aof_last_rewrite_time_sec"); lemma_texts_differ("aof_current_rewrite_time_sec", "aof_last_rewrite_time_sec"); }
}

/// The field `aof_last_cow_size` is reported as the gauge `aof_last_cow_size_bytes` where part 3 of the table is read.
pub proof fn lemma_field_aof_last_cow_size()
    ensures
        table_part_3("aof_last_cow_size".spec_bytes()) == Some(
            GenericMetric { kind: Kind::Gauge, name: "aof_last_cow_size_bytes", description: "The size in bytes of copy-on-write memory during the last AOF rewrite operation", micros: false },
        ),
{
    reveal_strlit("aof_last_cow_size");
    assert("aof_last_cow_size".spec_bytes() != "aof_last_rewrite_time_sec".spec_bytes()) by { reveal_strlit("aof_last_rewrite_time_sec"); lemma_texts_differ("aof_last_cow_size", "aof_last_rewrite_time_sec"); }
    assert("aof_last_cow_size".spec_bytes() != "aof_current_rewrite_time_sec".spec_bytes()) by { reveal_strlit("aof_current_rewrite_time_sec"); lemma_texts_differ("aof_last_cow_size", "aof_current_rewrite_time_sec"); }
}

/// The field `aof_current_size` is reported as the gauge `aof_current_size_bytes` where part 3 of the table is read.
pub proof fn lemma_field_aof_current_size()
    ensures
        table_part_3("aof_current_size".spec_bytes()) == Some(
            GenericMetric { kind: Kind::Gauge, name: "aof_current_size_bytes", description: "AOF current file size", micros: false },
        ),
{
    reveal_strlit("aof_current_size");
    assert("aof_current_size".spec_bytes() != "aof_last_rewrite_time_sec".spec_bytes()) by { reveal_strlit("aof_last_rewrite_time_sec"); lemma_texts_differ("aof_current_size", "aof_last_rewrite_time_sec"); }
    assert("aof_current_size".spec_bytes() != "aof_current_rewrite_time_sec".spec_bytes()) by { reveal_strlit("aof_current_rewrite_time_sec"); lemma_texts_differ("aof_current_size", "aof_current_rewrite_time_sec"); }
    assert("aof_current_size".spec_bytes() != "aof_last_cow_size".spec_bytes()) by { reveal_strlit("aof_last_cow_size"); lemma_texts_differ("aof_current_size", "aof_last_cow_size"); }
}

/// The field `aof_base_size` is reported as the gauge `aof_base_size_bytes` where part 3 of the table is read.
pub proof fn lemma_field_aof_base_size()
    ensures
        table_part_3("aof_base_size".spec_bytes()) == Some(
            GenericMetric { kind: Kind::Gauge, name: "aof_base_size_bytes", description: "AOF file size on latest startup or rewrite", micros: false },
        ),
{
    reveal_strlit("aof_base_size");
    assert("aof_base_size".spec_bytes() != "aof_last_rewrite_time_sec".spec_bytes()) by { reveal_strlit("aof_last_rewrite_time_sec"); lemma_texts_differ("aof_base_size", "aof_last_rewrite_time_sec"); }
    assert("aof_base_size".spec_bytes() != "aof_current_rewrite_time_sec".spec_bytes()) by { reveal_strlit("aof_current_rewrite_time_sec"); lemma_texts_differ("aof_base_size", "aof_current_rewrite_time_sec"); }
    assert("aof_base_size".spec_bytes() != "aof_last_cow_size".spec_bytes()) by { reveal_strlit("aof_last_cow_size"); lemma_texts_differ("aof_base_size", "aof_last_cow_size"); }
    assert("aof_base_size".spec_bytes() != "aof_current_size".spec_bytes()) by { reveal_strlit("aof_current_size"); lemma_texts_differ("aof_base_size", "aof_current_size"); }
}

/// The field `aof_pending_rewrite` is reported as the gauge `aof_pending_rewrite` where part 3 of the table is read.
pub proof fn lemma_field_aof_pending_rewrite()
    ensures
        table_part_3("aof_pending_rewrite".spec_bytes()) == Some(
            GenericMetric { kind: Kind::Gauge, name: "aof_pending_rewrite", description: "Flag indicating an AOF rewrite operation will be scheduled once the on-going RDB save is complete", micros: false },
        ),
{
    reveal_strlit("aof_pending_rewrite");
    assert("aof_pending_rewrite".spec_bytes() != "aof_last_rewrite_time_sec".spec_bytes()) by { reveal_strlit("aof_last_rewrite_time_sec"); lemma_texts_differ("aof_pending_rewrite", "aof_last_rewrite_time_sec"); }
    assert("aof_pending_rewrite".spec_bytes() != "aof_current_rewrite_time_sec".spec_bytes()) by { reveal_strlit("aof_current_rewrite_time_sec"); lemma_texts_differ("aof_pending_rewrite", "aof_current_rewrite_time_sec"); }
    assert("aof_pending_rewrite".spec_bytes() != "aof_last_cow_size".spec_bytes()) by { reveal_strlit("aof_last_cow_size"); lemma_texts_differ("aof_pending_rewrite", "aof_last_cow_size"); }
    assert("aof_pending_rewrite".spec_bytes() != "aof_current_size".spec_bytes()) by { reveal_strlit("aof_current_size"); lemma_texts_differ("aof_pending_rewrite", "aof_current_size"); }
    assert("aof_pending_rewrite".spec_bytes() != "aof_base_size".spec_bytes()) by { reveal_strlit("aof_base_size"); lemma_texts_differ("aof_pending_rewrite", "aof_base_size"); }
}

/// The field `aof_buffer_length` is reported as the gauge `aof_buffer_length` where part 3 of the table is read.
pub proof fn lemma_field_aof_buffer_length()
    ensures
        table_part_3("aof_buffer_length".spec_bytes()) == Some(
            GenericMetric { kind: Kind::Gauge, name: "aof_buffer_length", description: "Size of the AOF buffer", micros: false },
        ),
{
    reveal_strlit("aof_buffer_length");
    assert("aof_buffer_length".spec_bytes() != "aof_last_rewrite_time_sec".spec_bytes()) by { reveal_strlit("aof_last_rewrite_time_sec"); lemma_texts_differ("aof_buffer_length", "aof_last_rewrite_time_sec"); }
    assert("aof_buffer_length".spec_bytes() != "aof_current_rewrite_time_sec".spec_bytes()) by { reveal_strlit("aof_current_rewrite_time_sec"); lemma_texts_differ("aof_buffer_length", "aof_current_rewrite_time_sec"); }
    assert("aof_buffer_length".spec_bytes() != "aof_last_cow_size".spec_bytes()) by {
        reveal_strlit("aof_last_cow_size");
        assert("aof_buffer_length"@[4] != "aof_last_cow_size"@[4]);
        lemma_texts_differ("aof_buffer_length", "aof_last_cow_size");
    }
    assert("aof_buffer_length".spec_bytes() != "aof_current_size".spec_bytes()) by { reveal_strlit("aof_current_size"); lemma_texts_differ("aof_buffer_length", "aof_current_size"); }
    assert("aof_buffer_length".spec_bytes() != "aof_base_size".spec_bytes()) by { reveal_strlit("aof_base_size"); lemma_texts_differ("aof_buffer_length", "aof_base_size"); }
    assert("aof_buffer_length".spec_bytes() != "aof_pending_rewrite".spec_bytes()) by { reveal_strlit("aof_pending_rewrite"); lemma_texts_differ("aof_buffer_length", "aof_pending_rewrite"); }
}

/// The field `aof_rewrite_buffer_length` is reported as the gauge `aof_rewrite_buffer_length` where part 3 of the table is read.
pub proof fn lemma_field_aof_rewrite_buffer_length()
    ensures
        table_part_3("aof_rewrite_buffer_length".spec_bytes()) == Some(
            GenericMetric { kind: Kind::Gauge, name: "aof_rewrite_buffer_length", description: "Size of the AOF rewrite buffer", micros: false },
        ),
{
    reveal_strlit("aof_rewrite_buffer_length");
    assert("aof_rewrite_buffer_length".spec_bytes() != "aof_last_rewrite_time_sec".spec_bytes()) by {
        reveal_strlit("aof_last_rewrite_time_sec");
        assert("aof_rewrite_buffer_length"@[4] != "aof_last_rewrite_time_sec"@[4]);
        lemma_texts_differ("aof_rewrite_buffer_length", "aof_last_rewrite_time_sec");
    }
    assert("aof_rewrite_buffer_length".spec_bytes() != "aof_current_rewrite_time_sec".spec_bytes()) by { reveal_strlit("aof_current_rewrite_time_sec"); lemma_texts_differ("aof_rewrite_buffer_length", "aof_current_rewrite_time_sec"); }
    assert("aof_rewrite_buffer_length".spec_bytes() != "aof_last_cow_size".spec_bytes()) by { reveal_strlit("aof_last_cow_size"); lemma_texts_differ("aof_rewrite_buffer_length", "aof_last_cow_size"); }
    assert("aof_rewrite_buffer_length".spec_bytes() != "aof_current_size".spec_bytes()) by { reveal_strlit("aof_current_size"); lemma_texts_differ("aof_rewrite_buffer_length", "aof_current_size"); }
    assert("aof_rewrite_buffer_length".spec_bytes() != "aof_base_size".spec_bytes()) by { reveal_strlit("aof_base_size"); lemma_texts_differ("aof_rewrite_buffer_length", "aof_base_size"); }
    assert("aof_rewrite_buffer_length".spec_bytes() != "aof_pending_rewrite".spec_bytes()) by { reveal_strlit("aof_pending_rewrite"); lemma_texts_differ("aof_rewrite_buffer_length", "aof_pending_rewrite"); }
    assert("aof_rewrite_buffer_length".spec_bytes() != "aof_buffer_length".spec_bytes()) by { reveal_strlit("aof_buffer_length"); lemma_texts_differ("aof_rewrite_buffer_length", "aof_buffer_length"); }
}

/// The field `aof_pending_bio_fsync` is reported as the gauge `aof_pending_bio_fsync` where part 3 of the table is read.
pub proof fn lemma_field_aof_pending_bio_fsync()
    ensures
        table_part_3("aof_pending_bio_fsync".spec_bytes()) == Some(
            GenericMetric { kind: Kind::Gauge, name: "aof_pending_bio_fsync", description: "Number of fsync pending jobs in background I/O queue", micros: false },
        ),
{
    reveal_strlit("aof_pending_bio_fsync");
    assert("aof_pending_bio_fsync".spec_bytes() != "aof_last_rewrite_time_sec".spec_bytes()) by { reveal_strlit("aof_last_rewrite_time_sec"); lemma_texts_differ("aof_pending_bio_fsync", "aof_last_rewrite_time_sec"); }
    assert("aof_pending_bio_fsync".spec_bytes() != "aof_current_rewrite_time_sec".spec_bytes()) by { reveal_strlit("aof_current_rewrite_time_sec"); lemma_texts_differ("aof_pending_bio_fsync", "aof_current_rewrite_time_sec"); }
    assert("aof_pending_bio_fsync".spec_bytes() != "aof_last_cow_size".spec_bytes()) by { reveal_strlit("aof_last_cow_size"); lemma_texts_differ("aof_pending_bio_fsync", "aof_last_cow_size"); }
    assert("aof_pending_bio_fsync".spec_bytes() != "aof_current_size".spec_bytes()) by { reveal_strlit("aof_current_size"); lemma_texts_differ("aof_pending_bio_fsync", "aof_current_size"); }
    assert("aof_pending_bio_fsync".spec_bytes() != "aof_base_size".spec_bytes()) by { reveal_strlit("aof_base_size"); lemma_texts_differ("aof_pending_bio_fsync", "aof_base_size"); }
    assert("aof_pending_bio_fsync".spec_bytes() != "aof_pending_rewrite".spec_bytes()) by { reveal_strlit("aof_pending_rewrite"); lemma_texts_differ("aof_pending_bio_fsync", "aof_pending_rewrite"); }
    assert("aof_pending_bio_fsync".spec_bytes() != "aof_buffer_length".spec_bytes()) by { reveal_strlit("aof_buffer_length"); lemma_texts_differ("aof_pending_bio_fsync", "aof_buffer_length"); }
    assert("aof_pending_bio_fsync".spec_bytes() != "aof_rewrite_buffer_length".spec_bytes()) by { reveal_strlit("aof_rewrite_buffer_length"); lemma_texts_differ("aof_pending_bio_fsync", "aof_rewrite_buffer_length"); }
}

/// The field `aof_delayed_fsync` is reported as the gauge `aof_delayed_fsync` where part 3 of the table is read.
pub proof fn lemma_field_aof_delayed_fsync()
    ensures
        table_part_3("aof_delayed_fsync".spec_bytes()) == Some(
            GenericMetric { kind: Kind::Gauge, name: "aof_delayed_fsync", description: "Delayed fsync counter", micros: false },
        ),
{
    reveal_strlit("aof_delayed_fsync");
    assert("aof_delayed_fsync".spec_bytes() != "aof_last_rewrite_time_sec".spec_bytes()) by { reveal_strlit("aof_last_rewrite_time_sec"); lemma_texts_differ("aof_delayed_fsync", "aof_last_rewrite_time_sec"); }
    assert("aof_delayed_fsync".spec_bytes() != "aof_current_rewrite_time_sec".spec_bytes()) by { reveal_strlit("aof_current_rewrite_time_sec"); lemma_texts_differ("aof_delayed_fsync", "aof_current_rewrite_time_sec"); }
    assert("aof_delayed_fsync".spec_bytes() != "aof_last_cow_size".spec_bytes()) by {
        reveal_strlit("aof_last_cow_size");
        assert("aof_delayed_fsync"@[4] != "aof_last_cow_size"@[4]);
        lemma_texts_differ("aof_delayed_fsync", "aof_last_cow_size");
    }
    assert("aof_delayed_fsync".spec_bytes() != "aof_current_size".spec_bytes()) by { reveal_strlit("aof_current_size"); lemma_texts_differ("aof_delayed_fsync", "aof_current_size"); }
    assert("aof_delayed_fsync".spec_bytes() != "aof_base_size".spec_bytes()) by { reveal_strlit("aof_base_size"); lemma_texts_differ("aof_delayed_fsync", "aof_base_size"); }
    assert("aof_delayed_fsync".spec_bytes() != "aof_pending_rewrite".spec_bytes()) by { reveal_strlit("aof_pending_rewrite"); lemma_texts_differ("aof_delayed_fsync", "aof_pending_rewrite"); }
    assert("aof_delayed_fsync".spec_bytes() != "aof_buffer_length".spec_bytes()) by {
        reveal_strlit("aof_buffer_length");
        assert("aof_delayed_fsync"@[4] != "aof_buffer_length"@[4]);
        lemma_texts_differ("aof_delayed_fsync", "aof_buffer_length");
    }
    assert("aof_delayed_fsync".spec_bytes() != "aof_rewrite_buffer_length".spec_bytes()) by { reveal_strlit("aof_rewrite_buffer_length"); lemma_texts_differ("aof_delayed_fsync", "aof_rewrite_buffer_length"); }
    assert("aof_delayed_fsync".spec_bytes() != "aof_pending_bio_fsync".spec_bytes()) by { reveal_strlit("aof_pending_bio_fsync"); lemma_texts_differ("aof_delayed_fsync", "aof_pending_bio_fsync"); }
}

/// The field `aof_last_bgrewrite_status` is reported as the gauge `aof_last_bgrewrite_status` where part 3 of the table is read.
pub proof fn lemma_field_aof_last_bgrewrite_status()
    ensures
        table_part_3("aof_last_bgrewrite_status".spec_bytes()) == Some(
            GenericMetric { kind: Kind::Gauge, name: "aof_last_bgrewrite_status", description: "Status of the last AOF rewrite operation", micros: false },
        ),
{
    reveal_strlit("aof_last_bgrewrite_status");
    assert("aof_last_bgrewrite_status".spec_bytes() != "aof_last_rewrite_time_sec".spec_bytes()) by {
        reveal_strlit("aof_last_rewrite_time_sec");
        assert("aof_last_bgrewrite_status"@[9] != "aof_last_rewrite_time_sec"@[9]);
        lemma_texts_differ("aof_last_bgrewrite_status", "aof_last_rewrite_time_sec");
    }
    assert("aof_last_bgrewrite_status".spec_bytes() != "aof_current_rewrite_time_sec".spec_bytes()) by { reveal_strlit("aof_current_rewrite_time_sec"); lemma_texts_differ("aof_last_bgrewrite_status", "aof_current_rewrite_time_sec"); }
    assert("aof_last_bgrewrite_status".spec_bytes() != "aof_last_cow_size".spec_bytes()) by { reveal_strlit("aof_last_cow_size"); lemma_texts_differ("aof_last_bgrewrite_status", "aof_last_cow_size"); }
    assert("aof_last_bgrewrite_status".spec_bytes() != "aof_current_size".spec_bytes()) by { reveal_strlit("aof_current_size"); lemma_texts_differ("aof_last_bgrewrite_status", "aof_current_size"); }
    assert("aof_last_bgrewrite_status".spec_bytes() != "aof_base_size".spec_bytes()) by { reveal_strlit("aof_base_size"); lemma_texts_differ("aof_last_bgrewrite_status", "aof_base_size"); }
    assert("aof_last_bgrewrite_status".spec_bytes() != "aof_pending_rewrite".spec_bytes()) by { reveal_strlit("aof_pending_rewrite"); lemma_texts_differ("aof_last_bgrewrite_status", "aof_pending_rewrite"); }
    assert("aof_last_bgrewrite_status".spec_bytes() != "aof_buffer_length".spec_bytes()) by { reveal_strlit("aof_buffer_length"); lemma_texts_differ("aof_last_bgrewrite_status", "aof_buffer_length"); }
    assert("aof_last_bgrewrite_status".spec_bytes() != "aof_rewrite_buffer_length".spec_bytes()) by {
        reveal_strlit("aof_rewrite_buffer_length");
        assert("aof_last_bgrewrite_status"@[4] != "aof_rewrite_buffer_length"@[4]);
        lemma_texts_differ("aof_last_bgrewrite_status", "aof_rewrite_buffer_length");
    }
    assert("aof_last_bgrewrite_status".spec_bytes() != "aof_pending_bio_fsync".spec_bytes()) by { reveal_strlit("aof_pending_bio_fsync"); lemma_texts_differ("aof_last_bgrewrite_status", "aof_pending_bio_fsync"); }
    assert("aof_last_bgrewrite_status".spec_bytes() != "aof_delayed_fsync".spec_bytes()) by { reveal_strlit("aof_delayed_fsync"); lemma_texts_differ("aof_last_bgrewrite_status", "aof_delayed_fsync"); }
}

/// The field `aof_last_write_status` is reported as the gauge `aof_last_write_status` where part 3 of the table is read.
pub proof fn lemma_field_aof_last_write_status()
    ensures
        table_part_3("aof_last_write_status".spec_bytes()) == Some(
            GenericMetric { kind: Kind::Gauge, name: "aof_last_write_status", description: "Status of the last write operation to the AOF", micros: false },
        ),
{
    reveal_strlit("aof_last_write_status");
    assert("aof_last_write_status".spec_bytes() != "aof_last_rewrite_time_sec".spec_bytes()) by { reveal_strlit("aof_last_rewrite_time_sec"); lemma_texts_differ("aof_last_write_status", "aof_last_rewrite_time_sec"); }
    assert("aof_last_write_status".spec_bytes() != "aof_current_rewrite_time_sec".spec_bytes()) by { reveal_strlit("aof_current_rewrite_time_sec"); lemma_texts_differ("aof_last_write_status", "aof_current_rewrite_time_sec"); }
    assert("aof_last_write_status".spec_bytes() != "aof_last_cow_size".spec_bytes()) by { reveal_strlit("aof_last_cow_size"); lemma_texts_differ("aof_last_write_status", "aof_last_cow_size"); }
    assert("aof_last_write_status".spec_bytes() != "aof_current_size".spec_bytes()) by { reveal_strlit("aof_current_size"); lemma_texts_differ("aof_last_write_status", "aof_current_size"); }
    assert("aof_last_write_status".spec_bytes() != "aof_base_size".spec_bytes()) by { reveal_strlit("aof_base_size"); lemma_texts_differ("aof_last_write_status", "aof_base_size"); }
    assert("aof_last_write_status".spec_bytes() != "aof_pending_rewrite".spec_bytes()) by { reveal_strlit("aof_pending_rewrite"); lemma_texts_differ("aof_last_write_status", "aof_pending_rewrite"); }
    assert("aof_last_write_status".spec_bytes() != "aof_buffer_length".spec_bytes()) by { reveal_strlit("aof_buffer_length"); lemma_texts_differ("aof_last_write_status", "aof_buffer_length"); }
    assert("aof_last_write_status".spec_bytes() != "aof_rewrite_buffer_length".spec_bytes()) by { reveal_strlit("aof_rewrite_buffer_length"); lemma_texts_differ("aof_last_write_status", "aof_rewrite_buffer_length"); }
    assert("aof_last_write_status".spec_bytes() != "aof_pending_bio_fsync".spec_bytes()) by {
        reveal_strlit("aof_pending_bio_fsync");
        assert("aof_last_write_status"@[4] != "aof_pending_bio_fsync"@[4]);
        lemma_texts_differ("aof_last_write_status", "aof_pending_bio_fsync");
    }
    assert("aof_last_write_status".spec_bytes() != "aof_delayed_fsync".spec_bytes()) by { reveal_strlit("aof_delayed_fsync"); lemma_texts_differ("aof_last_write_status", "aof_delayed_fsync"); }
    assert("aof_last_write_status".spec_bytes() != "aof_last_bgrewrite_status".spec_bytes()) by { reveal_strlit("aof_last_bgrewrite_status"); lemma_texts_differ("aof_last_write_status", "aof_last_bgrewrite_status"); }
}

/// The field `module_fork_in_progress` is reported as the gauge `module_fork_in_progress` where part 3 of the table is read.
pub proof fn lemma_field_module_fork_in_progress()
    ensures
        table_part_3("module_fork_in_progress".spec_bytes()) == Some(
            GenericMetric { kind: Kind::Gauge, name: "module_fork_in_progress", description: "Flag indicating a module fork is on-going", micros: false },
        ),
{
    reveal_strlit("module_fork_in_progress");
    assert("module_fork_in_progress".spec_bytes() != "aof_last_rewrite_time_sec".spec_bytes()) by { reveal_strlit("aof_last_rewrite_time_sec"); lemma_texts_differ("module_fork_in_progress", "aof_last_rewrite_time_sec"); }
    assert("module_fork_in_progress".spec_bytes() != "aof_current_rewrite_time_sec".spec_bytes()) by { reveal_strlit("aof_current_rewrite_time_sec"); lemma_texts_differ("module_fork_in_progress", "aof_current_rewrite_time_sec"); }
    assert("module_fork_in_progress".spec_bytes() != "aof_last_cow_size".spec_bytes()) by { reveal_strlit("aof_last_cow_size"); lemma_texts_differ("module_fork_in_progress", "aof_last_cow_size"); }
    assert("module_fork_in_progress".spec_bytes() != "aof_current_size".spec_bytes()) by { reveal_strlit("aof_current_size"); lemma_texts_differ("module_fork_in_progress", "aof_current_size"); }
    assert("module_fork_in_progress".spec_bytes() != "aof_base_size".spec_bytes()) by { reveal_strlit("aof_base_size"); lemma_texts_differ("module_fork_in_progress", "aof_base_size"); }
    assert("module_fork_in_progress".spec_bytes() != "aof_pending_rewrite".spec_bytes()) by { reveal_strlit("aof_pending_rewrite"); lemma_texts_differ("module_fork_in_progress", "aof_pending_rewrite"); }
    assert("module_fork_in_progress".spec_bytes() != "aof_buffer_length".spec_bytes()) by { reveal_strlit("aof_buffer_length"); lemma_texts_differ("module_fork_in_progress", "aof_buffer_length"); }
    assert("module_fork_in_progress".spec_bytes() != "aof_rewrite_buffer_length".spec_bytes()) by { reveal_strlit("aof_rewrite_buffer_length"); lemma_texts_differ("module_fork_in_progress", "aof_rewrite_buffer_length"); }
    assert("module_fork_in_progress".spec_bytes() != "aof_pending_bio_fsync".spec_bytes()) by { reveal_strlit("aof_pending_bio_fsync"); lemma_texts_differ("module_fork_in_progress", "aof_pending_bio_fsync"); }
    assert("module_fork_in_progress".spec_bytes() != "aof_delayed_fsync".spec_bytes()) by { reveal_strlit("aof_delayed_fsync"); lemma_texts_differ("module_fork_in_progress", "aof_delayed_fsync"); }
    assert("module_fork_in_progress".spec_bytes() != "aof_last_bgrewrite_status".spec_bytes()) by { reveal_strlit("aof_last_bgrewrite_status"); lemma_texts_differ("module_fork_in_progress", "aof_last_bgrewrite_status"); }
    assert("module_fork_in_progress".spec_bytes() != "aof_last_write_status".spec_bytes()) by { reveal_strlit("aof_last_write_status"); lemma_texts_differ("module_fork_in_progress", "aof_last_write_status"); }
}

/// The field `module_fork_last_cow_size` is reported as the gauge `module_fork_last_cow_size` where part 3 of the table is read.
pub proof fn lemma_field_module_fork_last_cow_size()
    ensures
        table_part_3("module_fork_last_cow_size".spec_bytes()) == Some(
            GenericMetric { kind: Kind::Gauge, name: "module_fork_last_cow_size", description: "The size in bytes of copy-on-write memory during the last module fork operation", micros: false },
        ),
{
    reveal_strlit("module_fork_last_cow_size");
    assert("module_fork_last_cow_size".spec_bytes() != "aof_last_rewrite_time_sec".spec_bytes()) by {
        reveal_strlit("aof_last_rewrite_time_sec");
        assert("module_fork_last_cow_size"@[0] != "aof_last_rewrite_time_sec"@[0]);
        lemma_texts_differ("module_fork_last_cow_size", "aof_last_rewrite_time_sec");
    }
    assert("module_fork_last_cow_size".spec_bytes() != "aof_current_rewrite_time_sec".spec_bytes()) by { reveal_strlit("aof_current_rewrite_time_sec"); lemma_texts_differ("module_fork_last_cow_size", "aof_current_rewrite_time_sec"); }
    assert("module_fork_last_cow_size".spec_bytes() != "aof_last_cow_size".spec_bytes()) by { reveal_strlit("aof_last_cow_size"); lemma_texts_differ("module_fork_last_cow_size", "aof_last_cow_size"); }
    assert("module_fork_last_cow_size".spec_bytes() != "aof_current_size".spec_bytes()) by { reveal_strlit("aof_current_size"); lemma_texts_differ("module_fork_last_cow_size", "aof_current_size"); }
    assert("module_fork_last_cow_size".spec_bytes() != "aof_base_size".spec_bytes()) by { reveal_strlit("aof_base_size"); lemma_texts_differ("module_fork_last_cow_size", "aof_base_size"); }
    assert("module_fork_last_cow_size".spec_bytes() != "aof_pending_rewrite".spec_bytes()) by { reveal_strlit("aof_pending_rewrite"); lemma_texts_differ("module_fork_last_cow_size", "aof_pending_rewrite"); }
    assert("module_fork_last_cow_size".spec_bytes() != "aof_buffer_length".spec_bytes()) by { reveal_strlit("aof_buffer_length"); lemma_texts_differ("module_fork_last_cow_size", "aof_buffer_length"); }
    assert("module_fork_last_cow_size".spec_bytes() != "aof_rewrite_buffer_length".spec_bytes()) by {
        reveal_strlit("aof_rewrite_buffer_length");
        assert("module_fork_last_cow_size"@[0] != "aof_rewrite_buffer_length"@[0]);
        lemma_texts_differ("module_fork_last_cow_size", "aof_rewrite_buffer_length");
    }
    assert("module_fork_last_cow_size".spec_bytes() != "aof_pending_bio_fsync".spec_bytes()) by { reveal_strlit("aof_pending_bio_fsync"); lemma_texts_differ("module_fork_last_cow_size", "aof_pending_bio_fsync"); }
    assert("module_fork_last_cow_size".spec_bytes() != "aof_delayed_fsync".spec_bytes()) by { reveal_strlit("aof_delayed_fsync"); lemma_texts_differ("module_fork_last_cow_size", "aof_delayed_fsync"); }
    assert("module_fork_last_cow_size".spec_bytes() != "aof_last_bgrewrite_status".spec_bytes()) by {
        reveal_strlit("aof_last_bgrewrite_status");
        assert("module_fork_last_cow_size"@[0] != "aof_last_bgrewrite_status"@[0]);
        lemma_texts_differ("module_fork_last_cow_size", "aof_last_bgrewrite_status");
    }
    assert("module_fork_last_cow_size".spec_bytes() != "aof_last_write_status".spec_bytes()) by { reveal_strlit("aof_last_write_status"); lemma_texts_differ("module_fork_last_cow_size", "aof_last_write_status"); }
    assert("module_fork_last_cow_size".spec_bytes() != "module_fork_in_progress".spec_bytes()) by { reveal_strlit("module_fork_in_progress"); lemma_texts_differ("module_fork_last_cow_size", "module_fork_in_progress"); }
}

/// The field `current_eviction_exceeded_time` is reported as the gauge `current_eviction_exceeded_time_ms` where part 3 of the table is read.
pub proof fn lemma_field_current_eviction_exceeded_time()
    ensures
        table_part_3("current_eviction_exceeded_time".spec_bytes()) == Some(
            GenericMetric { kind: Kind::Gauge, name: "current_eviction_exceeded_time_ms", description: "The time passed since used_memory last rose above maxmemory, in milliseconds", micros: false },
        ),
{
    reveal_strlit("current_eviction_exceeded_time");
    assert("current_eviction_exceeded_time".spec_bytes() != "aof_last_rewrite_time_sec".spec_bytes()) by { reveal_strlit("aof_last_rewrite_time_sec"); lemma_texts_differ("current_eviction_exceeded_time", "aof_last_rewrite_time_sec"); }
    assert("current_eviction_exceeded_time".spec_bytes() != "aof_current_rewrite_time_sec".spec_bytes()) by { reveal_strlit("aof_current_rewrite_time_sec"); lemma_texts_differ("current_eviction_exceeded_time", "aof_current_rewrite_time_sec"); }
    assert("current_eviction_exceeded_time".spec_bytes() != "aof_last_cow_size".spec_bytes()) by { reveal_strlit("aof_last_cow_size"); lemma_texts_differ("current_eviction_exceeded_time", "aof_last_cow_size"); }
    assert("current_eviction_exceeded_time".spec_bytes() != "aof_current_size".spec_bytes()) by { reveal_strlit("aof_current_size"); lemma_texts_differ("current_eviction_exceeded_time", "aof_current_size"); }
    assert("current_eviction_exceeded_time".spec_bytes() != "aof_base_size".spec_bytes()) by { reveal_strlit("aof_base_size"); lemma_texts_differ("current_eviction_exceeded_time", "aof_base_size"); }
    assert("current_eviction_exceeded_time".spec_bytes() != "aof_pending_rewrite".spec_bytes()) by { reveal_strlit("aof_pending_rewrite"); lemma_texts_differ("current_eviction_exceeded_time", "aof_pending_rewrite"); }
    assert("current_eviction_exceeded_time".spec_bytes() != "aof_buffer_length".spec_bytes()) by { reveal_strlit("aof_buffer_length"); lemma_texts_differ("current_eviction_exceeded_time", "aof_buffer_length"); }
    assert("current_eviction_exceeded_time".spec_bytes() != "aof_rewrite_buffer_length".spec_bytes()) by { reveal_strlit("aof_rewrite_buffer_length"); lemma_texts_differ("current_eviction_exceeded_time", "aof_rewrite_buffer_length"); }
    assert("current_eviction_exceeded_time".spec_bytes() != "aof_pending_bio_fsync".spec_bytes()) by { reveal_strlit("aof_pending_bio_fsync"); lemma_texts_differ("current_eviction_exceeded_time", "aof_pending_bio_fsync"); }
    assert("current_eviction_exceeded_time".spec_bytes() != "aof_delayed_fsync".spec_bytes()) by { reveal_strlit("aof_delayed_fsync"); lemma_texts_differ("current_eviction_exceeded_time", "aof_delayed_fsync"); }
    assert("current_eviction_exceeded_time".spec_bytes() != "aof_last_bgrewrite_status".spec_bytes()) by { reveal_strlit("aof_last_bgrewrite_status"); lemma_texts_differ("current_eviction_exceeded_time", "aof_last_bgrewrite_status"); }
    assert("current_eviction_exceeded_time".spec_bytes() != "aof_last_write_status".spec_bytes()) by { reveal_strlit("aof_last_write_status"); lemma_texts_differ("current_eviction_exceeded_time", "aof_last_write_status"); }
    assert("current_eviction_exceeded_time".spec_bytes() != "module_fork_in_progress".spec_bytes()) by { reveal_strlit("module_fork_in_progress"); lemma_texts_differ("current_eviction_exceeded_time", "module_fork_in_progress"); }
    assert("current_eviction_exceeded_time".spec_bytes() != "module_fork_last_cow_size".spec_bytes()) by { reveal_strlit("module_fork_last_cow_size"); lemma_texts_differ("current_eviction_exceeded_time", "module_fork_last_cow_size"); }
}

/// The field `pubsub_channels` is reported as the gauge `pubsub_channels` where part 3 of the table is read.
pub proof fn lemma_field_pubsub_channels()
    ensures
        table_part_3("pubsub_channels".spec_bytes()) == Some(
            GenericMetric { kind: Kind::Gauge, name: "pubsub_channels", description: "Global number of pub/sub channels with client subscriptions", micros: false },
        ),
{
    reveal_strlit("pubsub_channels");
    assert("pubsub_channels".spec_bytes() != "aof_last_rewrite_time_sec".spec_bytes()) by { reveal_strlit("aof_last_rewrite_time_sec"); lemma_texts_differ("pubsub_channels", "aof_last_rewrite_time_sec"); }
    assert("pubsub_channels".spec_bytes() != "aof_current_rewrite_time_sec".spec_bytes()) by { reveal_strlit("aof_current_rewrite_time_sec"); lemma_texts_differ("pubsub_channels", "aof_current_rewrite_time_sec"); }
    assert("pubsub_channels".spec_bytes() != "aof_last_cow_size".spec_bytes()) by { reveal_strlit("aof_last_cow_size"); lemma_texts_differ("pubsub_channels", "aof_last_cow_size"); }
    assert("pubsub_channels".spec_bytes() != "aof_current_size".spec_bytes()) by { reveal_strlit("aof_current_size"); lemma_texts_differ("pubsub_channels", "aof_current_size"); }
    assert("pubsub_channels".spec_bytes() != "aof_base_size".spec_bytes()) by { reveal_strlit("aof_base_size"); lemma_texts_differ("pubsub_channels", "aof_base_size"); }
    assert("pubsub_channels".spec_bytes() != "aof_pending_rewrite".spec_bytes()) by { reveal_strlit("aof_pending_rewrite"); lemma_texts_differ("pubsub_channels", "aof_pending_rewrite"); }
    assert("pubsub_channels".spec_bytes() != "aof_buffer_length".spec_bytes()) by { reveal_strlit("aof_buffer_length"); lemma_texts_differ("pubsub_channels", "aof_buffer_length"); }
    assert("pubsub_channels".spec_bytes() != "aof_rewrite_buffer_length".spec_bytes()) by { reveal_strlit("aof_rewrite_buffer_length"); lemma_texts_differ("pubsub_channels", "aof_rewrite_buffer_length"); }
    assert("pubsub_channels".spec_bytes() != "aof_pending_bio_fsync".spec_bytes()) by { reveal_strlit("aof_pending_bio_fsync"); lemma_texts_differ("pubsub_channels", "aof_pending_bio_fsync"); }
    assert("pubsub_channels".spec_bytes() != "aof_delayed_fsync".spec_bytes()) by { reveal_strlit("aof_delayed_fsync"); lemma_texts_differ("pubsub_channels", "aof_delayed_fsync"); }
    assert("pubsub_channels".spec_bytes() != "aof_last_bgrewrite_status".spec_bytes()) by { reveal_strlit("aof_last_bgrewrite_status"); lemma_texts_differ("pubsub_channels", "aof_last_bgrewrite_status"); }
    assert("pubsub_channels".spec_bytes() != "aof_last_write_status".spec_bytes()) by { reveal_strlit("aof_last_write_status"); lemma_texts_differ("pubsub_channels", "aof_last_write_status"); }
    assert("pubsub_channels".spec_bytes() != "module_fork_in_progress".spec_bytes()) by { reveal_strlit("module_fork_in_progress"); lemma_texts_differ("pubsub_channels", "module_fork_in_progress"); }
    assert("pubsub_channels".spec_bytes() != "module_fork_last_cow_size".spec_bytes()) by { reveal_strlit("module_fork_last_cow_size"); lemma_texts_differ("pubsub_channels", "module_fork_last_cow_size"); }
    assert("pubsub_channels".spec_bytes() != "current_eviction_exceeded_time".spec_bytes()) by { reveal_strlit("current_eviction_exceeded_time"); lemma_texts_differ("pubsub_channels", "current_eviction_exceeded_time"); }
}

/// The field `pubsub_patterns` is reported as the gauge `pubsub_patterns` where part 3 of the table is read.
pub proof fn lemma_field_pubsub_patterns()
    ensures
        table_part_3("pubsub_patterns".spec_bytes()) == Some(
            GenericMetric { kind: Kind::Gauge, name: "pubsub_patterns", description: "Global number of pub/sub pattern with client subscriptions", micros: false },
        ),
{
    reveal_strlit("pubsub_patterns");
    assert("pubsub_patterns".spec_bytes() != "aof_last_rewrite_time_sec".spec_bytes()) by { reveal_strlit("aof_last_rewrite_time_sec"); lemma_texts_differ("pubsub_patterns", "aof_last_rewrite_time_sec"); }
    assert("pubsub_patterns".spec_bytes() != "aof_current_rewrite_time_sec".spec_bytes()) by { reveal_strlit("aof_current_rewrite_time_sec"); lemma_texts_differ("pubsub_patterns", "aof_current_rewrite_time_sec"); }
    assert("pubsub_patterns".spec_bytes() != "aof_last_cow_size".spec_bytes()) by { reveal_strlit("aof_last_cow_size"); lemma_texts_differ("pubsub_patterns", "aof_last_cow_size"); }
    assert("pubsub_patterns".spec_bytes() != "aof_current_size".spec_bytes()) by { reveal_strlit("aof_current_size"); lemma_texts_differ("pubsub_patterns", "aof_current_size"); }
    assert("pubsub_patterns".spec_bytes() != "aof_base_size".spec_bytes()) by { reveal_strlit("aof_base_size"); lemma_texts_differ("pubsub_patterns", "aof_base_size"); }
    assert("pubsub_patterns".spec_bytes() != "aof_pending_rewrite".spec_bytes()) by { reveal_strlit("aof_pending_rewrite"); lemma_texts_differ("pubsub_patterns", "aof_pending_rewrite"); }
    assert("pubsub_patterns".spec_bytes() != "aof_buffer_length".spec_bytes()) by { reveal_strlit("aof_buffer_length"); lemma_texts_differ("pubsub_patterns", "aof_buffer_length"); }
    assert("pubsub_patterns".spec_bytes() != "aof_rewrite_buffer_length".spec_bytes()) by { reveal_strlit("aof_rewrite_buffer_length"); lemma_texts_differ("pubsub_patterns", "aof_rewrite_buffer_length"); }
    assert("pubsub_patterns".spec_bytes() != "aof_pending_bio_fsync".spec_bytes()) by { reveal_strlit("aof_pending_bio_fsync"); lemma_texts_differ("pubsub_patterns", "aof_pending_bio_fsync"); }
    assert("pubsub_patterns".spec_bytes() != "aof_delayed_fsync".spec_bytes()) by { reveal_strlit("aof_delayed_fsync"); lemma_texts_differ("pubsub_patterns", "aof_delayed_fsync"); }
    assert("pubsub_patterns".spec_bytes() != "aof_last_bgrewrite_status".spec_bytes()) by { reveal_strlit("aof_last_bgrewrite_status"); lemma_texts_differ("pubsub_patterns", "aof_last_bgrewrite_status"); }
    assert("pubsub_patterns".spec_bytes() != "aof_last_write_status".spec_bytes()) by { reveal_strlit("aof_last_write_status"); lemma_texts_differ("pubsub_patterns", "aof_last_write_status"); }
    assert("pubsub_patterns".spec_bytes() != "module_fork_in_progress".spec_bytes()) by { reveal_strlit("module_fork_in_progress"); lemma_texts_differ("pubsub_patterns", "module_fork_in_progress"); }
    assert("pubsub_patterns".spec_bytes() != "module_fork_last_cow_size".spec_bytes()) by { reveal_strlit("module_fork_last_cow_size"); lemma_texts_differ("pubsub_patterns", "module_fork_last_cow_size"); }
    assert("pubsub_patterns".spec_bytes() != "current_eviction_exceeded_time".spec_bytes()) by { reveal_strlit("current_eviction_exceeded_time"); lemma_texts_differ("pubsub_patterns", "current_eviction_exceeded_time"); }
    assert("pubsub_patterns".spec_bytes() != "pubsub_channels".spec_bytes()) by {
        reveal_strlit("pubsub_channels");
        assert("pubsub_patterns"@[7] != "pubsub_channels"@[7]);
        lemma_texts_differ("pubsub_patterns", "pubsub_channels");
    }
}

/// The field `pubsubshard_channels` is reported as the gauge `pubsubshard_channels` where part 3 of the table is read.
pub proof fn lemma_field_pubsubshard_channels()
    ensures
        table_part_3("pubsubshard_channels".spec_bytes()) == Some(
            GenericMetric { kind: Kind::Gauge, name: "pubsubshard_channels", description: "Global number of pub/sub shard channels with client subscriptions", micros: false },
        ),
{
    reveal_strlit("pubsubshard_channels");
    assert("pubsubshard_channels".spec_bytes() != "aof_last_rewrite_time_sec".spec_bytes()) by { reveal_strlit("aof_last_rewrite_time_sec"); lemma_texts_differ("pubsubshard_channels", "aof_last_rewrite_time_sec"); }
    assert("pubsubshard_channels".spec_bytes() != "aof_current_rewrite_time_sec".spec_bytes()) by { reveal_strlit("aof_current_rewrite_time_sec"); lemma_texts_differ("pubsubshard_channels", "aof_current_rewrite_time_sec"); }
    assert("pubsubshard_channels".spec_bytes() != "aof_last_cow_size".spec_bytes()) by { reveal_strlit("aof_last_cow_size"); lemma_texts_differ("pubsubshard_channels", "aof_last_cow_size"); }
    assert("pubsubshard_channels".spec_bytes() != "aof_current_size".spec_bytes()) by { reveal_strlit("aof_current_size"); lemma_texts_differ("pubsubshard_channels", "aof_current_size"); }
    assert("pubsubshard_channels".spec_bytes() != "aof_base_size".spec_bytes()) by { reveal_strlit("aof_base_size"); lemma_texts_differ("pubsubshard_channels", "aof_base_size"); }
    assert("pubsubshard_channels".spec_bytes() != "aof_pending_rewrite".spec_bytes()) by { reveal_strlit("aof_pending_rewrite"); lemma_texts_differ("pubsubshard_channels", "aof_pending_rewrite"); }
    assert("pubsubshard_channels".spec_bytes() != "aof_buffer_length".spec_bytes()) by { reveal_strlit("aof_buffer_length"); lemma_texts_differ("pubsubshard_channels", "aof_buffer_length"); }
    assert("pubsubshard_channels".spec_bytes() != "aof_rewrite_buffer_length".spec_bytes()) by { reveal_strlit("aof_rewrite_buffer_length"); lemma_texts_differ("pubsubshard_channels", "aof_rewrite_buffer_length"); }
    assert("pubsubshard_channels".spec_bytes() != "aof_pending_bio_fsync".spec_bytes()) by { reveal_strlit("aof_pending_bio_fsync"); lemma_texts_differ("pubsubshard_channels", "aof_pending_bio_fsync"); }
    assert("pubsubshard_channels".spec_bytes() != "aof_delayed_fsync".spec_bytes()) by { reveal_strlit("aof_delayed_fsync"); lemma_texts_differ("pubsubshard_channels", "aof_delayed_fsync"); }
    assert("pubsubshard_channels".spec_bytes() != "aof_last_bgrewrite_status".spec_bytes()) by { reveal_strlit("aof_last_bgrewrite_status"); lemma_texts_differ("pubsubshard_channels", "aof_last_bgrewrite_status"); }
    assert("pubsubshard_channels".spec_bytes() != "aof_last_write_status".spec_bytes()) by { reveal_strlit("aof_last_write_status"); lemma_texts_differ("pubsubshard_channels", "aof_last_write_status"); }
    assert("pubsubshard_channels".spec_bytes() != "module_fork_in_progress".spec_bytes()) by { reveal_strlit("module_fork_in_progress"); lemma_texts_differ("pubsubshard_channels", "module_fork_in_progress"); }
    assert("pubsubshard_channels".spec_bytes() != "module_fork_last_cow_size".spec_bytes()) by { reveal_strlit("module_fork_last_cow_size"); lemma_texts_differ("pubsubshard_channels", "module_fork_last_cow_size"); }
    assert("pubsubshard_channels".spec_bytes() != "current_eviction_exceeded_time".spec_bytes()) by { reveal_strlit("current_eviction_exceeded_time"); lemma_texts_differ("pubsubshard_channels", "current_eviction_exceeded_time"); }
    assert("pubsubshard_channels".spec_bytes() != "pubsub_channels".spec_bytes()) by { reveal_strlit("pubsub_channels"); lemma_texts_differ("pubsubshard_channels", "pubsub_channels"); }
    assert("pubsubshard_channels".spec_bytes() != "pubsub_patterns".spec_bytes()) by { reveal_strlit("pubsub_patterns"); lemma_texts_differ("pubsubshard_channels", "pubsub_patterns"); }
}

/// The field `latest_fork_usec` is reported as the gauge `latest_fork_seconds` where part 3 of the table is read.
pub proof fn lemma_field_latest_fork_usec()
    ensures
        table_part_3("latest_fork_usec".spec_bytes()) == Some(
            GenericMetric { kind: Kind::Gauge, name: "latest_fork_seconds", description: "Duration of the latest fork operation in microseconds", micros: true },
        ),
{
    reveal_strlit("latest_fork_usec");
    assert("latest_fork_usec".spec_bytes() != "aof_last_rewrite_time_sec".spec_bytes()) by { reveal_strlit("aof_last_rewrite_time_sec"); lemma_texts_differ("latest_fork_usec", "aof_last_rewrite_time_sec"); }
    assert("latest_fork_usec".spec_bytes() != "aof_current_rewrite_time_sec".spec_bytes()) by { reveal_strlit("aof_current_rewrite_time_sec"); lemma_texts_differ("latest_fork_usec", "aof_current_rewrite_time_sec"); }
    assert("latest_fork_usec".spec_bytes() != "aof_last_cow_size".spec_bytes()) by { reveal_strlit("aof_last_cow_size"); lemma_texts_differ("latest_fork_usec", "aof_last_cow_size"); }
    assert("latest_fork_usec".spec_bytes() != "aof_current_size".spec_bytes()) by {
        reveal_strlit("aof_current_size");
        assert("latest_fork_usec"@[0] != "aof_current_size"@[0]);
        lemma_texts_differ("latest_fork_usec", "aof_current_size");
    }
    assert("latest_fork_usec".spec_bytes() != "aof_base_size".spec_bytes()) by { reveal_strlit("aof_base_size"); lemma_texts_differ("latest_fork_usec", "aof_base_size"); }
    assert("latest_fork_usec".spec_bytes() != "aof_pending_rewrite".spec_bytes()) by { reveal_strlit("aof_pending_rewrite"); lemma_texts_differ("latest_fork_usec", "aof_pending_rewrite"); }
    assert("latest_fork_usec".spec_bytes() != "aof_buffer_length".spec_bytes()) by { reveal_strlit("aof_buffer_length"); lemma_texts_differ("latest_fork_usec", "aof_buffer_length"); }
    assert("latest_fork_usec".spec_bytes() != "aof_rewrite_buffer_length".spec_bytes()) by { reveal_strlit("aof_rewrite_buffer_length"); lemma_texts_differ("latest_fork_usec", "aof_rewrite_buffer_length"); }
    assert("latest_fork_usec".spec_bytes() != "aof_pending_bio_fsync".spec_bytes()) by { reveal_strlit("aof_pending_bio_fsync"); lemma_texts_differ("latest_fork_usec", "aof_pending_bio_fsync"); }
    assert("latest_fork_usec".spec_bytes() != "aof_delayed_fsync".spec_bytes()) by { reveal_strlit("aof_delayed_fsync"); lemma_texts_differ("latest_fork_usec", "aof_delayed_fsync"); }
    assert("latest_fork_usec".spec_bytes() != "aof_last_bgrewrite_status".spec_bytes()) by { reveal_strlit("aof_last_bgrewrite_status"); lemma_texts_differ("latest_fork_usec", "aof_last_bgrewrite_status"); }
    assert("latest_fork_usec".spec_bytes() != "aof_last_write_status".spec_bytes()) by { reveal_strlit("aof_last_write_status"); lemma_texts_differ("latest_fork_usec", "aof_last_write_status"); }
    assert("latest_fork_usec".spec_bytes() != "module_fork_in_progress".spec_bytes()) by { reveal_strlit("module_fork_in_progress"); lemma_texts_differ("latest_fork_usec", "module_fork_in_progress"); }
    assert("latest_fork_usec".spec_bytes() != "module_fork_last_cow_size".spec_bytes()) by { reveal_strlit("module_fork_last_cow_size"); lemma_texts_differ("latest_fork_usec", "module_fork_last_cow_size"); }
    assert("latest_fork_usec".spec_bytes() != "current_eviction_exceeded_time".spec_bytes()) by { reveal_strlit("current_eviction_exceeded_time"); lemma_texts_differ("latest_fork_usec", "current_eviction_exceeded_time"); }
    assert("latest_fork_usec".spec_bytes() != "pubsub_channels".spec_bytes()) by { reveal_strlit("pubsub_channels"); lemma_texts_differ("latest_fork_usec", "pubsub_channels"); }
    assert("latest_fork_usec".spec_bytes() != "pubsub_patterns".spec_bytes()) by { reveal_strlit("pubsub_patterns"); lemma_texts_differ("latest_fork_usec", "pubsub_patterns"); }
    assert("latest_fork_usec".spec_bytes() != "pubsubshard_channels".spec_bytes()) by { reveal_strlit("pubsubshard_channels"); lemma_texts_differ("latest_fork_usec", "pubsubshard_channels"); }
}

/// The field `tracking_total_keys` is reported as the gauge `tracking_total_keys` where part 3 of the table is read.
pub proof fn lemma_field_tracking_total_keys()
    ensures
        table_part_3("tracking_total_keys".spec_bytes()) == Some(
            GenericMetric { kind: Kind::Gauge, name: "tracking_total_keys", description: "Number of keys being tracked by the server", micros: false },
        ),
{
    reveal_strlit("tracking_total_keys");
    assert("tracking_total_keys".spec_bytes() != "aof_last_rewrite_time_sec".spec_bytes()) by { reveal_strlit("aof_last_rewrite_time_sec"); lemma_texts_differ("tracking_total_keys", "aof_last_rewrite_time_sec"); }
    assert("tracking_total_keys".spec_bytes() != "aof_current_rewrite_time_sec".spec_bytes()) by { reveal_strlit("aof_current_rewrite_time_sec"); lemma_texts_differ("tracking_total_keys", "aof_current_rewrite_time_sec"); }
    assert("tracking_total_keys".spec_bytes() != "aof_last_cow_size".spec_bytes()) by { reveal_strlit("aof_last_cow_size"); lemma_texts_differ("tracking_total_keys", "aof_last_cow_size"); }
    assert("tracking_total_keys".spec_bytes() != "aof_current_size".spec_bytes()) by { reveal_strlit("aof_current_size"); lemma_texts_differ("tracking_total_keys", "aof_current_size"); }
    assert("tracking_total_keys".spec_bytes() != "aof_base_size".spec_bytes()) by { reveal_strlit("aof_base_size"); lemma_texts_differ("tracking_total_keys", "aof_base_size"); }
    assert("tracking_total_keys".spec_bytes() != "aof_pending_rewrite".spec_bytes()) by {
        reveal_strlit("aof_pending_rewrite");
        assert("tracking_total_keys"@[0] != "aof_pending_rewrite"@[0]);
        lemma_texts_differ("tracking_total_keys", "aof_pending_rewrite");
    }
    assert("tracking_total_keys".spec_bytes() != "aof_buffer_length".spec_bytes()) by { reveal_strlit("aof_buffer_length"); lemma_texts_differ("tracking_total_keys", "aof_buffer_length"); }
    assert("tracking_total_keys".spec_bytes() != "aof_rewrite_buffer_length".spec_bytes()) by { reveal_strlit("aof_rewrite_buffer_length"); lemma_texts_differ("tracking_total_keys", "aof_rewrite_buffer_length"); }
    assert("tracking_total_keys".spec_bytes() != "aof_pending_bio_fsync".spec_bytes()) by { reveal_strlit("aof_pending_bio_fsync"); lemma_texts_differ("tracking_total_keys", "aof_pending_bio_fsync"); }
    assert("tracking_total_keys".spec_bytes() != "aof_delayed_fsync".spec_bytes()) by { reveal_strlit("aof_delayed_fsync"); lemma_texts_differ("tracking_total_keys", "aof_delayed_fsync"); }
    assert("tracking_total_keys".spec_bytes() != "aof_last_bgrewrite_status".spec_bytes()) by { reveal_strlit("aof_last_bgrewrite_status"); lemma_texts_differ("tracking_total_keys", "aof_last_bgrewrite_status"); }
    assert("tracking_total_keys".spec_bytes() != "aof_last_write_status".spec_bytes()) by { reveal_strlit("aof_last_write_status"); lemma_texts_differ("tracking_total_keys", "aof_last_write_status"); }
    assert("tracking_total_keys".spec_bytes() != "module_fork_in_progress".spec_bytes()) by { reveal_strlit("module_fork_in_progress"); lemma_texts_differ("tracking_total_keys", "module_fork_in_progress"); }
    assert("tracking_total_keys".spec_bytes() != "module_fork_last_cow_size".spec_bytes()) by { reveal_strlit("module_fork_last_cow_size"); lemma_texts_differ("tracking_total_keys", "module_fork_last_cow_size"); }
    assert("tracking_total_keys".spec_bytes() != "current_eviction_exceeded_time".spec_bytes()) by { reveal_strlit("current_eviction_exceeded_time"); lemma_texts_differ("tracking_total_keys", "current_eviction_exceeded_time"); }
    assert("tracking_total_keys".spec_bytes() != "pubsub_channels".spec_bytes()) by { reveal_strlit("pubsub_channels"); lemma_texts_differ("tracking_total_keys", "pubsub_channels"); }
    assert("tracking_total_keys".spec_bytes() != "pubsub_patterns".spec_bytes()) by { reveal_strlit("pubsub_patterns"); lemma_texts_differ("tracking_total_keys", "pubsub_patterns"); }
    assert("tracking_total_keys".spec_bytes() != "pubsubshard_channels".spec_bytes()) by { reveal_strlit("pubsubshard_channels"); lemma_texts_differ("tracking_total_keys", "pubsubshard_channels"); }
    assert("tracking_total_keys".spec_bytes() != "latest_fork_usec".spec_bytes()) by { reveal_strlit("latest_fork_usec"); lemma_texts_differ("tracking_total_keys", "latest_fork_usec"); }
}

/// The field `tracking_total_items` is reported as the gauge `tracking_total_items` where part 3 of the table is read.
pub proof fn lemma_field_tracking_total_items()
    ensures
        table_part_3("tracking_total_items".spec_bytes()) == Some(
            GenericMetric { kind: Kind::Gauge, name: "tracking_total_items", description: "Number of items, that is the sum of clients number for each key, that are being tracked", micros: false },
        ),
{
    reveal_strlit("tracking_total_items");
    assert("tracking_total_items".spec_bytes() != "aof_last_rewrite_time_sec".spec_bytes()) by { reveal_strlit("aof_last_rewrite_time_sec"); lemma_texts_differ("tracking_total_items", "aof_last_rewrite_time_sec"); }
    assert("tracking_total_items".spec_bytes() != "aof_current_rewrite_time_sec".spec_bytes()) by { reveal_strlit("aof_current_rewrite_time_sec"); lemma_texts_differ("tracking_total_items", "aof_current_rewrite_time_sec"); }
    assert("tracking_total_items".spec_bytes() != "aof_last_cow_size".spec_bytes()) by { reveal_strlit("aof_last_cow_size"); lemma_texts_differ("tracking_total_items", "aof_last_cow_size"); }
    assert("tracking_total_items".spec_bytes() != "aof_current_size".spec_bytes()) by { reveal_strlit("aof_current_size"); lemma_texts_differ("tracking_total_items", "aof_current_size"); }
    assert("tracking_total_items".spec_bytes() != "aof_base_size".spec_bytes()) by { reveal_strlit("aof_base_size"); lemma_texts_differ("tracking_total_items", "aof_base_size"); }
    assert("tracking_total_items".spec_bytes() != "aof_pending_rewrite".spec_bytes()) by { reveal_strlit("aof_pending_rewrite"); lemma_texts_differ("tracking_total_items", "aof_pending_rewrite"); }
    assert("tracking_total_items".spec_bytes() != "aof_buffer_length".spec_bytes()) by { reveal_strlit("aof_buffer_length"); lemma_texts_differ("tracking_total_items", "aof_buffer_length"); }
    assert("tracking_total_items".spec_bytes() != "aof_rewrite_buffer_length".spec_bytes()) by { reveal_strlit("aof_rewrite_buffer_length"); lemma_texts_differ("tracking_total_items", "aof_rewrite_buffer_length"); }
    assert("tracking_total_items".spec_bytes() != "aof_pending_bio_fsync".spec_bytes()) by { reveal_strlit("aof_pending_bio_fsync"); lemma_texts_differ("tracking_total_items", "aof_pending_bio_fsync"); }
    assert("tracking_total_items".spec_bytes() != "aof_delayed_fsync".spec_bytes()) by { reveal_strlit("aof_delayed_fsync"); lemma_texts_differ("tracking_total_items", "aof_delayed_fsync"); }
    assert("tracking_total_items".spec_bytes() != "aof_last_bgrewrite_status".spec_bytes()) by { reveal_strlit("aof_last_bgrewrite_status"); lemma_texts_differ("tracking_total_items", "aof_last_bgrewrite_status"); }
    assert("tracking_total_items".spec_bytes() != "aof_last_write_status".spec_bytes()) by { reveal_strlit("aof_last_write_status"); lemma_texts_differ("tracking_total_items", "aof_last_write_status"); }
    assert("tracking_total_items".spec_bytes() != "module_fork_in_progress".spec_bytes()) by { reveal_strlit("module_fork_in_progress"); lemma_texts_differ("tracking_total_items", "module_fork_in_progress"); }
    assert("tracking_total_items".spec_bytes() != "module_fork_last_cow_size".spec_bytes()) by { reveal_strlit("module_fork_last_cow_size"); lemma_texts_differ("tracking_total_items", "module_fork_last_cow_size"); }
    assert("tracking_total_items".spec_bytes() != "current_eviction_exceeded_time".spec_bytes()) by { reveal_strlit("current_eviction_exceeded_time"); lemma_texts_differ("tracking_total_items", "current_eviction_exceeded_time"); }
    assert("tracking_total_items".spec_bytes() != "pubsub_channels".spec_bytes()) by { reveal_strlit("pubsub_channels"); lemma_texts_differ("tracking_total_items", "pubsub_channels"); }
    assert("tracking_total_items".spec_bytes() != "pubsub_patterns".spec_bytes()) by { reveal_strlit("pubsub_patterns"); lemma_texts_differ("tracking_total_items", "pubsub_patterns"); }
    assert("tracking_total_items".spec_bytes() != "pubsubshard_channels".spec_bytes()) by {
        reveal_strlit("pubsubshard_channels");
        assert("tracking_total_items"@[0] != "pubsubshard_channels"@[0]);
        lemma_texts_differ("tracking_total_items", "pubsubshard_channels");
    }
    assert("tracking_total_items".spec_bytes() != "latest_fork_usec".spec_bytes()) by { reveal_strlit("latest_fork_usec"); lemma_texts_differ("tracking_total_items", "latest_fork_usec"); }
    assert("tracking_total_items".spec_bytes() != "tracking_total_keys".spec_bytes()) by { reveal_strlit("tracking_total_keys"); lemma_texts_differ("tracking_total_items", "tracking_total_keys"); }
}

/// The field `tracking_total_prefixes` is reported as the gauge `tracking_total_prefixes` where part 3 of the table is read.
pub proof fn lemma_field_tracking_total_prefixes()
    ensures
        table_part_3("tracking_total_prefixes".spec_bytes()) == Some(
            GenericMetric { kind: Kind::Gauge, name: "tracking_total_prefixes", description: "Number of tracked prefixes in server's prefix table (only applicable for broadcast mode)", micros: false },
        ),
{
    reveal_strlit("tracking_total_prefixes");
    assert("tracking_total_prefixes".spec_bytes() != "aof_last_rewrite_time_sec".spec_bytes()) by { reveal_strlit("aof_last_rewrite_time_sec"); lemma_texts_differ("tracking_total_prefixes", "aof_last_rewrite_time_sec"); }
    assert("tracking_total_prefixes".spec_bytes() != "aof_current_rewrite_time_sec".spec_bytes()) by { reveal_strlit("aof_current_rewrite_time_sec"); lemma_texts_differ("tracking_total_prefixes", "aof_current_rewrite_time_sec"); }
    assert("tracking_total_prefixes".spec_bytes() != "aof_last_cow_size".spec_bytes()) by { reveal_strlit("aof_last_cow_size"); lemma_texts_differ("tracking_total_prefixes", "aof_last_cow_size"); }
    assert("tracking_total_prefixes".spec_bytes() != "aof_current_size".spec_bytes()) by { reveal_strlit("aof_current_size"); lemma_texts_differ("tracking_total_prefixes", "aof_current_size"); }
    assert("tracking_total_prefixes".spec_bytes() != "aof_base_size".spec_bytes()) by { reveal_strlit("aof_base_size"); lemma_texts_differ("tracking_total_prefixes", "aof_base_size"); }
    assert("tracking_total_prefixes".spec_bytes() != "aof_pending_rewrite".spec_bytes()) by { reveal_strlit("aof_pending_rewrite"); lemma_texts_differ("tracking_total_prefixes", "aof_pending_rewrite"); }
    assert("tracking_total_prefixes".spec_bytes() != "aof_buffer_length".spec_bytes()) by { reveal_strlit("aof_buffer_length"); lemma_texts_differ("tracking_total_prefixes", "aof_buffer_length"); }
    assert("tracking_total_prefixes".spec_bytes() != "aof_rewrite_buffer_length".spec_bytes()) by { reveal_strlit("aof_rewrite_buffer_length"); lemma_texts_differ("tracking_total_prefixes", "aof_rewrite_buffer_length"); }
    assert("tracking_total_prefixes".spec_bytes() != "aof_pending_bio_fsync".spec_bytes()) by { reveal_strlit("aof_pending_bio_fsync"); lemma_texts_differ("tracking_total_prefixes", "aof_pending_bio_fsync"); }
    assert("tracking_total_prefixes".spec_bytes() != "aof_delayed_fsync".spec_bytes()) by { reveal_strlit("aof_delayed_fsync"); lemma_texts_differ("tracking_total_prefixes", "aof_delayed_fsync"); }
    assert("tracking_total_prefixes".spec_bytes() != "aof_last_bgrewrite_status".spec_bytes()) by { reveal_strlit("aof_last_bgrewrite_status"); lemma_texts_differ("tracking_total_prefixes", "aof_last_bgrewrite_status"); }
    assert("tracking_total_prefixes".spec_bytes() != "aof_last_write_status".spec_bytes()) by { reveal_strlit("aof_last_write_status"); lemma_texts_differ("tracking_total_prefixes", "aof_last_write_status"); }
    assert("tracking_total_prefixes".spec_bytes() != "module_fork_in_progress".spec_bytes()) by {
        reveal_strlit("module_fork_in_progress");
        assert("tracking_total_prefixes"@[0] != "module_fork_in_progress"@[0]);
        lemma_texts_differ("tracking_total_prefixes", "module_fork_in_progress");
    }
    assert("tracking_total_prefixes".spec_bytes() != "module_fork_last_cow_size".spec_bytes()) by { reveal_strlit("module_fork_last_cow_size"); lemma_texts_differ("tracking_total_prefixes", "module_fork_last_cow_size"); }
    assert("tracking_total_prefixes".spec_bytes() != "current_eviction_exceeded_time".spec_bytes()) by { reveal_strlit("current_eviction_exceeded_time"); lemma_texts_differ("tracking_total_prefixes", "current_eviction_exceeded_time"); }
    assert("tracking_total_prefixes".spec_bytes() != "pubsub_channels".spec_bytes()) by { reveal_strlit("pubsub_channels"); lemma_texts_differ("tracking_total_prefixes", "pubsub_channels"); }
    assert("tracking_total_prefixes".spec_bytes() != "pubsub_patterns".spec_bytes()) by { reveal_strlit("pubsub_patterns"); lemma_texts_differ("tracking_total_prefixes", "pubsub_patterns"); }
    assert("tracking_total_prefixes".spec_bytes() != "pubsubshard_channels".spec_bytes()) by { reveal_strlit("pubsubshard_channels"); lemma_texts_differ("tracking_total_prefixes", "pubsubshard_channels"); }
    assert("tracking_total_prefixes".spec_bytes() != "latest_fork_usec".spec_bytes()) by { reveal_strlit("latest_fork_usec"); lemma_texts_differ("tracking_total_prefixes", "latest_fork_usec"); }
    assert("tracking_total_prefixes".spec_bytes() != "tracking_total_keys".spec_bytes()) by { reveal_strlit("tracking_total_keys"); lemma_texts_differ("tracking_total_prefixes", "tracking_total_keys"); }
    assert("tracking_total_prefixes".spec_bytes() != "tracking_total_items".spec_bytes()) by { reveal_strlit("tracking_total_items"); lemma_texts_differ("tracking_total_prefixes", "tracking_total_items"); }
}

/// The field `connected_slaves` is reported as the gauge `connected_slaves` where part 3 of the table is read.
pub proof fn lemma_field_connected_slaves()
    ensures
        table_part_3("connected_slaves".spec_bytes()) == Some(
            GenericMetric { kind: Kind::Gauge, name: "connected_slaves", description: "Number of connected replicas", micros: false },
        ),
{
    reveal_strlit("connected_slaves");
    assert("connected_slaves".spec_bytes() != "aof_last_rewrite_time_sec".spec_bytes()) by { reveal_strlit("aof_last_rewrite_time_sec"); lemma_texts_differ("connected_slaves", "aof_last_rewrite_time_sec"); }
    assert("connected_slaves".spec_bytes() != "aof_current_rewrite_time_sec".spec_bytes()) by { reveal_strlit("aof_current_rewrite_time_sec"); lemma_texts_differ("connected_slaves", "aof_current_rewrite_time_sec"); }
    assert("connected_slaves".spec_bytes() != "aof_last_cow_size".spec_bytes()) by { reveal_strlit("aof_last_cow_size"); lemma_texts_differ("connected_slaves", "aof_last_cow_size"); }
    assert("connected_slaves".spec_bytes() != "aof_current_size".spec_bytes()) by {
        reveal_strlit("aof_current_size");
        assert("connected_slaves"@[0] != "aof_current_size"@[0]);
        lemma_texts_differ("connected_slaves", "aof_current_size");
    }
    assert("connected_slaves".spec_bytes() != "aof_base_size".spec_bytes()) by { reveal_strlit("aof_base_size"); lemma_texts_differ("connected_slaves", "aof_base_size"); }
    assert("connected_slaves".spec_bytes() != "aof_pending_rewrite".spec_bytes()) by { reveal_strlit("aof_pending_rewrite"); lemma_texts_differ("connected_slaves", "aof_pending_rewrite"); }
    assert("connected_slaves".spec_bytes() != "aof_buffer_length".spec_bytes()) by { reveal_strlit("aof_buffer_length"); lemma_texts_differ("connected_slaves", "aof_buffer_length"); }
    assert("connected_slaves".spec_bytes() != "aof_rewrite_buffer_length".spec_bytes()) by { reveal_strlit("aof_rewrite_buffer_length"); lemma_texts_differ("connected_slaves", "aof_rewrite_buffer_length"); }
    assert("connected_slaves".spec_bytes() != "aof_pending_bio_fsync".spec_bytes()) by { reveal_strlit("aof_pending_bio_fsync"); lemma_texts_differ("connected_slaves", "aof_pending_bio_fsync"); }
    assert("connected_slaves".spec_bytes() != "aof_delayed_fsync".spec_bytes()) by { reveal_strlit("aof_delayed_fsync"); lemma_texts_differ("connected_slaves", "aof_delayed_fsync"); }
    assert("connected_slaves".spec_bytes() != "aof_last_bgrewrite_status".spec_bytes()) by { reveal_strlit("aof_last_bgrewrite_status"); lemma_texts_differ("connected_slaves", "aof_last_bgrewrite_status"); }
    assert("connected_slaves".spec_bytes() != "aof_last_write_status".spec_bytes()) by { reveal_strlit("aof_last_write_status"); lemma_texts_differ("connected_slaves", "aof_last_write_status"); }
    assert("connected_slaves".spec_bytes() != "module_fork_in_progress".spec_bytes()) by { reveal_strlit("module_fork_in_progress"); lemma_texts_differ("connected_slaves", "module_fork_in_progress"); }
    assert("connected_slaves".spec_bytes() != "module_fork_last_cow_size".spec_bytes()) by { reveal_strlit("module_fork_last_cow_size"); lemma_texts_differ("connected_slaves", "module_fork_last_cow_size"); }
    assert("connected_slaves".spec_bytes() != "current_eviction_exceeded_time".spec_bytes()) by { reveal_strlit("current_eviction_exceeded_time"); lemma_texts_differ("connected_slaves", "current_eviction_exceeded_time"); }
    assert("connected_slaves".spec_bytes() != "pubsub_channels".spec_bytes()) by { reveal_strlit("pubsub_channels"); lemma_texts_differ("connected_slaves", "pubsub_channels"); }
    assert("connected_slaves".spec_bytes() != "pubsub_patterns".spec_bytes()) by { reveal_strlit("pubsub_patterns"); lemma_texts_differ("connected_slaves", "pubsub_patterns"); }
    assert("connected_slaves".spec_bytes() != "pubsubshard_channels".spec_bytes()) by { reveal_strlit("pubsubshard_channels"); lemma_texts_differ("connected_slaves", "pubsubshard_channels"); }
    assert("connected_slaves".spec_bytes() != "latest_fork_usec".spec_bytes()) by {
        reveal_strlit("latest_fork_usec");
        assert("connected_slaves"@[0] != "latest_fork_usec"@[0]);
        lemma_texts_differ("connected_slaves", "latest_fork_usec");
    }
    assert("connected_slaves".spec_bytes() != "tracking_total_keys".spec_bytes()) by { reveal_strlit("tracking_total_keys"); lemma_texts_differ("connected_slaves", "tracking_total_keys"); }
    assert("connected_slaves".spec_bytes() != "tracking_total_items".spec_bytes()) by { reveal_strlit("tracking_total_items"); lemma_texts_differ("connected_slaves", "tracking_total_items"); }
    assert("connected_slaves".spec_bytes() != "tracking_total_prefixes".spec_bytes()) by { reveal_strlit("tracking_total_prefixes"); lemma_texts_differ("connected_slaves", "tracking_total_prefixes"); }
}

/// The field `repl_backlog_size` is reported as the gauge `replication_backlog_bytes` where part 3 of the table is read.
pub proof fn lemma_field_repl_backlog_size()
    ensures
        table_part_3("repl_backlog_size".spec_bytes()) == Some(
            GenericMetric { kind: Kind::Gauge, name: "replication_backlog_bytes", description: "Total size in bytes of the replication backlog buffer", micros: false },
        ),
{
    reveal_strlit("repl_backlog_size");
    assert("repl_backlog_size".spec_bytes() != "aof_last_rewrite_time_sec".spec_bytes()) by { reveal_strlit("aof_last_rewrite_time_sec"); lemma_texts_differ("repl_backlog_size", "aof_last_rewrite_time_sec"); }
    assert("repl_backlog_size".spec_bytes() != "aof_current_rewrite_time_sec".spec_bytes()) by { reveal_strlit("aof_current_rewrite_time_sec"); lemma_texts_differ("repl_backlog_size", "aof_current_rewrite_time_sec"); }
    assert("repl_backlog_size".spec_bytes() != "aof_last_cow_size".spec_bytes()) by {
        reveal_strlit("aof_last_cow_size");
        assert("repl_backlog_size"@[0] != "aof_last_cow_size"@[0]);
        lemma_texts_differ("repl_backlog_size", "aof_last_cow_size");
    }
    assert("repl_backlog_size".spec_bytes() != "aof_current_size".spec_bytes()) by { reveal_strlit("aof_current_size"); lemma_texts_differ("repl_backlog_size", "aof_current_size"); }
    assert("repl_backlog_size".spec_bytes() != "aof_base_size".spec_bytes()) by { reveal_strlit("aof_base_size"); lemma_texts_differ("repl_backlog_size", "aof_base_size"); }
    assert("repl_backlog_size".spec_bytes() != "aof_pending_rewrite".spec_bytes()) by { reveal_strlit("aof_pending_rewrite"); lemma_texts_differ("repl_backlog_size", "aof_pending_rewrite"); }
    assert("repl_backlog_size".spec_bytes() != "aof_buffer_length".spec_bytes()) by {
        reveal_strlit("aof_buffer_length");
        assert("repl_backlog_size"@[0] != "aof_buffer_length"@[0]);
        lemma_texts_differ("repl_backlog_size", "aof_buffer_length");
    }
    assert("repl_backlog_size".spec_bytes() != "aof_rewrite_buffer_length".spec_bytes()) by { reveal_strlit("aof_rewrite_buffer_length"); lemma_texts_differ("repl_backlog_size", "aof_rewrite_buffer_length"); }
    assert("repl_backlog_size".spec_bytes() != "aof_pending_bio_fsync".spec_bytes()) by { reveal_strlit("aof_pending_bio_fsync"); lemma_texts_differ("repl_backlog_size", "aof_pending_bio_fsync"); }
    assert("repl_backlog_size".spec_bytes() != "aof_delayed_fsync".spec_bytes()) by {
        reveal_strlit("aof_delayed_fsync");
        assert("repl_backlog_size"@[0] != "aof_delayed_fsync"@[0]);
        lemma_texts_differ("repl_backlog_size", "aof_delayed_fsync");
    }
    assert("repl_backlog_size".spec_bytes() != "aof_last_bgrewrite_status".spec_bytes()) by { reveal_strlit("aof_last_bgrewrite_status"); lemma_texts_differ("repl_backlog_size", "aof_last_bgrewrite_status"); }
    assert("repl_backlog_size".spec_bytes() != "aof_last_write_status".spec_bytes()) by { reveal_strlit("aof_last_write_status"); lemma_texts_differ("repl_backlog_size", "aof_last_write_status"); }
    assert("repl_backlog_size".spec_bytes() != "module_fork_in_progress".spec_bytes()) by { reveal_strlit("module_fork_in_progress"); lemma_texts_differ("repl_backlog_size", "module_fork_in_progress"); }
    assert("repl_backlog_size".spec_bytes() != "module_fork_last_cow_size".spec_bytes()) by { reveal_strlit("module_fork_last_cow_size"); lemma_texts_differ("repl_backlog_size", "module_fork_last_cow_size"); }
    assert("repl_backlog_size".spec_bytes() != "current_eviction_exceeded_time".spec_bytes()) by { reveal_strlit("current_eviction_exceeded_time"); lemma_texts_differ("repl_backlog_size", "current_eviction_exceeded_time"); }
    assert("repl_backlog_size".spec_bytes() != "pubsub_channels".spec_bytes()) by { reveal_strlit("pubsub_channels"); lemma_texts_differ("repl_backlog_size", "pubsub_channels"); }
    assert("repl_backlog_size".spec_bytes() != "pubsub_patterns".spec_bytes()) by { reveal_strlit("pubsub_patterns"); lemma_texts_differ("repl_backlog_size", "pubsub_patterns"); }
    assert("repl_backlog_size".spec_bytes() != "pubsubshard_channels".spec_bytes()) by { reveal_strlit("pubsubshard_channels"); lemma_texts_differ("repl_backlog_size", "pubsubshard_channels"); }
    assert("repl_backlog_size".spec_bytes() != "latest_fork_usec".spec_bytes()) by { reveal_strlit("latest_fork_usec"); lemma_texts_differ("repl_backlog_size", "latest_fork_usec"); }
    assert("repl_backlog_size".spec_bytes() != "tracking_total_keys".spec_bytes()) by { reveal_strlit("tracking_total_keys"); lemma_texts_differ("repl_backlog_size", "tracking_total_keys"); }
    assert("repl_backlog_size".spec_bytes() != "tracking_total_items".spec_bytes()) by { reveal_strlit("tracking_total_items"); lemma_texts_differ("repl_backlog_size", "tracking_total_items"); }
    assert("repl_backlog_size".spec_bytes() != "tracking_total_prefixes".spec_bytes()) by { reveal_strlit("tracking_total_prefixes"); lemma_texts_differ("repl_backlog_size", "tracking_total_prefixes"); }
    assert("repl_backlog_size".spec_bytes() != "connected_slaves".spec_bytes()) by { reveal_strlit("connected_slaves"); lemma_texts_differ("repl_backlog_size", "connected_slaves"); }
}

/// The field `repl_backlog_active` is reported as the gauge `repl_backlog_is_active` where part 3 of the table is read.
pub proof fn lemma_field_repl_backlog_active()
    ensures
        table_part_3("repl_backlog_active".spec_bytes()) == Some(
            GenericMetric { kind: Kind::Gauge, name: "repl_backlog_is_active", description: "Flag indicating replication backlog is active", micros: false },
        ),
{
    reveal_strlit("repl_backlog_active");
    assert("repl_backlog_active".spec_bytes() != "aof_last_rewrite_time_sec".spec_bytes()) by { reveal_strlit("aof_last_rewrite_time_sec"); lemma_texts_differ("repl_backlog_active", "aof_last_rewrite_time_sec"); }
    assert("repl_backlog_active".spec_bytes() != "aof_current_rewrite_time_sec".spec_bytes()) by { reveal_strlit("aof_current_rewrite_time_sec"); lemma_texts_differ("repl_backlog_active", "aof_current_rewrite_time_sec"); }
    assert("repl_backlog_active".spec_bytes() != "aof_last_cow_size".spec_bytes()) by { reveal_strlit("aof_last_cow_size"); lemma_texts_differ("repl_backlog_active", "aof_last_cow_size"); }
    assert("repl_backlog_active".spec_bytes() != "aof_current_size".spec_bytes()) by { reveal_strlit("aof_current_size"); lemma_texts_differ("repl_backlog_active", "aof_current_size"); }
    assert("repl_backlog_active".spec_bytes() != "aof_base_size".spec_bytes()) by { reveal_strlit("aof_base_size"); lemma_texts_differ("repl_backlog_active", "aof_base_size"); }
    assert("repl_backlog_active".spec_bytes() != "aof_pending_rewrite".spec_bytes()) by {
        reveal_strlit("aof_pending_rewrite");
        assert("repl_backlog_active"@[0] != "aof_pending_rewrite"@[0]);
        lemma_texts_differ("repl_backlog_active", "aof_pending_rewrite");
    }
    assert("repl_backlog_active".spec_bytes() != "aof_buffer_length".spec_bytes()) by { reveal_strlit("aof_buffer_length"); lemma_texts_differ("repl_backlog_active", "aof_buffer_length"); }
    assert("repl_backlog_active".spec_bytes() != "aof_rewrite_buffer_length".spec_bytes()) by { reveal_strlit("aof_rewrite_buffer_length"); lemma_texts_differ("repl_backlog_active", "aof_rewrite_buffer_length"); }
    assert("repl_backlog_active".spec_bytes() != "aof_pending_bio_fsync".spec_bytes()) by { reveal_strlit("aof_pending_bio_fsync"); lemma_texts_differ("repl_backlog_active", "aof_pending_bio_fsync"); }
    assert("repl_backlog_active".spec_bytes() != "aof_delayed_fsync".spec_bytes()) by { reveal_strlit("aof_delayed_fsync"); lemma_texts_differ("repl_backlog_active", "aof_delayed_fsync"); }
    assert("repl_backlog_active".spec_bytes() != "aof_last_bgrewrite_status".spec_bytes()) by { reveal_strlit("aof_last_bgrewrite_status"); lemma_texts_differ("repl_backlog_active", "aof_last_bgrewrite_status"); }
    assert("repl_backlog_active".spec_bytes() != "aof_last_write_status".spec_bytes()) by { reveal_strlit("aof_last_write_status"); lemma_texts_differ("repl_backlog_active", "aof_last_write_status"); }
    assert("repl_backlog_active".spec_bytes() != "module_fork_in_progress".spec_bytes()) by { reveal_strlit("module_fork_in_progress"); lemma_texts_differ("repl_backlog_active", "module_fork_in_progress"); }
    assert("repl_backlog_active".spec_bytes() != "module_fork_last_cow_size".spec_bytes()) by { reveal_strlit("module_fork_last_cow_size"); lemma_texts_differ("repl_backlog_active", "module_fork_last_cow_size"); }
    assert("repl_backlog_active".spec_bytes() != "current_eviction_exceeded_time".spec_bytes()) by { reveal_strlit("current_eviction_exceeded_time"); lemma_texts_differ("repl_backlog_active", "current_eviction_exceeded_time"); }
    assert("repl_backlog_active".spec_bytes() != "pubsub_channels".spec_bytes()) by { reveal_strlit("pubsub_channels"); lemma_texts_differ("repl_backlog_active", "pubsub_channels"); }
    assert("repl_backlog_active".spec_bytes() != "pubsub_patterns".spec_bytes()) by { reveal_strlit("pubsub_patterns"); lemma_texts_differ("repl_backlog_active", "pubsub_patterns"); }
    assert("repl_backlog_active".spec_bytes() != "pubsubshard_channels".spec_bytes()) by { reveal_strlit("pubsubshard_channels"); lemma_texts_differ("repl_backlog_active", "pubsubshard_channels"); }
    assert("repl_backlog_active".spec_bytes() != "latest_fork_usec".spec_bytes()) by { reveal_strlit("latest_fork_usec"); lemma_texts_differ("repl_backlog_active", "latest_fork_usec"); }
    assert("repl_backlog_active".spec_bytes() != "tracking_total_keys".spec_bytes()) by {
        reveal_strlit("tracking_total_keys");
        assert("repl_backlog_active"@[0] != "tracking_total_keys"@[0]);
        lemma_texts_differ("repl_backlog_active", "tracking_total_keys");
    }
    assert("repl_backlog_active".spec_bytes() != "tracking_total_items".spec_bytes()) by { reveal_strlit("tracking_total_items"); lemma_texts_differ("repl_backlog_active", "tracking_total_items"); }
    assert("repl_backlog_active".spec_bytes() != "tracking_total_prefixes".spec_bytes()) by { reveal_strlit("tracking_total_prefixes"); lemma_texts_differ("repl_backlog_active", "tracking_total_prefixes"); }
    assert("repl_backlog_active".spec_bytes() != "connected_slaves".spec_bytes()) by { reveal_strlit("connected_slaves"); lemma_texts_differ("repl_backlog_active", "connected_slaves"); }
    assert("repl_backlog_active".spec_bytes() != "repl_backlog_size".spec_bytes()) by { reveal_strlit("repl_backlog_size"); lemma_texts_differ("repl_backlog_active", "repl_backlog_size"); }
}

/// The field `repl_backlog_first_byte_offset` is reported as the gauge `repl_backlog_first_byte_offset` where part 3 of the table is read.
pub proof fn lemma_field_repl_backlog_first_byte_offset()
    ensures
        table_part_3("repl_backlog_first_byte_offset".spec_bytes()) == Some(
            GenericMetric { kind: Kind::Gauge, name: "repl_backlog_first_byte_offset", description: "The master offset of the replication backlog buffer", micros: false },
        ),
{
    reveal_strlit("repl_backlog_first_byte_offset");
    assert("repl_backlog_first_byte_offset".spec_bytes() != "aof_last_rewrite_time_sec".spec_bytes()) by { reveal_strlit("aof_last_rewrite_time_sec"); lemma_texts_differ("repl_backlog_first_byte_offset", "aof_last_rewrite_time_sec"); }
    assert("repl_backlog_first_byte_offset".spec_bytes() != "aof_current_rewrite_time_sec".spec_bytes()) by { reveal_strlit("aof_current_rewrite_time_sec"); lemma_texts_differ("repl_backlog_first_byte_offset", "aof_current_rewrite_time_sec"); }
    assert("repl_backlog_first_byte_offset".spec_bytes() != "aof_last_cow_size".spec_bytes()) by { reveal_strlit("aof_last_cow_size"); lemma_texts_differ("repl_backlog_first_byte_offset", "aof_last_cow_size"); }
    assert("repl_backlog_first_byte_offset".spec_bytes() != "aof_current_size".spec_bytes()) by { reveal_strlit("aof_current_size"); lemma_texts_differ("repl_backlog_first_byte_offset", "aof_current_size"); }
    assert("repl_backlog_first_byte_offset".spec_bytes() != "aof_base_size".spec_bytes()) by { reveal_strlit("aof_base_size"); lemma_texts_differ("repl_backlog_first_byte_offset", "aof_base_size"); }
    assert("repl_backlog_first_byte_offset".spec_bytes() != "aof_pending_rewrite".spec_bytes()) by { reveal_strlit("aof_pending_rewrite"); lemma_texts_differ("repl_backlog_first_byte_offset", "aof_pending_rewrite"); }
    assert("repl_backlog_first_byte_offset".spec_bytes() != "aof_buffer_length".spec_bytes()) by { reveal_strlit("aof_buffer_length"); lemma_texts_differ("repl_backlog_first_byte_offset", "aof_buffer_length"); }
    assert("repl_backlog_first_byte_offset".spec_bytes() != "aof_rewrite_buffer_length".spec_bytes()) by { reveal_strlit("aof_rewrite_buffer_length"); lemma_texts_differ("repl_backlog_first_byte_offset", "aof_rewrite_buffer_length"); }
    assert("repl_backlog_first_byte_offset".spec_bytes() != "aof_pending_bio_fsync".spec_bytes()) by { reveal_strlit("aof_pending_bio_fsync"); lemma_texts_differ("repl_backlog_first_byte_offset", "aof_pending_bio_fsync"); }
    assert("repl_backlog_first_byte_offset".spec_bytes() != "aof_delayed_fsync".spec_bytes()) by { reveal_strlit("aof_delayed_fsync"); lemma_texts_differ("repl_backlog_first_byte_offset", "aof_delayed_fsync"); }
    assert("repl_backlog_first_byte_offset".spec_bytes() != "aof_last_bgrewrite_status".spec_bytes()) by { reveal_strlit("aof_last_bgrewrite_status"); lemma_texts_differ("repl_backlog_first_byte_offset", "aof_last_bgrewrite_status"); }
    assert("repl_backlog_first_byte_offset".spec_bytes() != "aof_last_write_status".spec_bytes()) by { reveal_strlit("aof_last_write_status"); lemma_texts_differ("repl_backlog_first_byte_offset", "aof_last_write_status"); }
    assert("repl_backlog_first_byte_offset".spec_bytes() != "module_fork_in_progress".spec_bytes()) by { reveal_strlit("module_fork_in_progress"); lemma_texts_differ("repl_backlog_first_byte_offset", "module_fork_in_progress"); }
    assert("repl_backlog_first_byte_offset".spec_bytes() != "module_fork_last_cow_size".spec_bytes()) by { reveal_strlit("module_fork_last_cow_size"); lemma_texts_differ("repl_backlog_first_byte_offset", "module_fork_last_cow_size"); }
    assert("repl_backlog_first_byte_offset".spec_bytes() != "current_eviction_exceeded_time".spec_bytes()) by {
        reveal_strlit("current_eviction_exceeded_time");
        assert("repl_backlog_first_byte_offset"@[0] != "current_eviction_exceeded_time"@[0]);
        lemma_texts_differ("repl_backlog_first_byte_offset", "current_eviction_exceeded_time");
    }
    assert("repl_backlog_first_byte_offset".spec_bytes() != "pubsub_channels".spec_bytes()) by { reveal_strlit("pubsub_channels"); lemma_texts_differ("repl_backlog_first_byte_offset", "pubsub_channels"); }
    assert("repl_backlog_first_byte_offset".spec_bytes() != "pubsub_patterns".spec_bytes()) by { reveal_strlit("pubsub_patterns"); lemma_texts_differ("repl_backlog_first_byte_offset", "pubsub_patterns"); }
    assert("repl_backlog_first_byte_offset".spec_bytes() != "pubsubshard_channels".spec_bytes()) by { reveal_strlit("pubsubshard_channels"); lemma_texts_differ("repl_backlog_first_byte_offset", "pubsubshard_channels"); }
    assert("repl_backlog_first_byte_offset".spec_bytes() != "latest_fork_usec".spec_bytes()) by { reveal_strlit("latest_fork_usec"); lemma_texts_differ("repl_backlog_first_byte_offset", "latest_fork_usec"); }
    assert("repl_backlog_first_byte_offset".spec_bytes() != "tracking_total_keys".spec_bytes()) by { reveal_strlit("tracking_total_keys"); lemma_texts_differ("repl_backlog_first_byte_offset", "tracking_total_keys"); }
    assert("repl_backlog_first_byte_offset".spec_bytes() != "tracking_total_items".spec_bytes()) by { reveal_strlit("tracking_total_items"); lemma_texts_differ("repl_backlog_first_byte_offset", "tracking_total_items"); }
    assert("repl_backlog_first_byte_offset".spec_bytes() != "tracking_total_prefixes".spec_bytes()) by { reveal_strlit("tracking_total_prefixes"); lemma_texts_differ("repl_backlog_first_byte_offset", "tracking_total_prefixes"); }
    assert("repl_backlog_first_byte_offset".spec_bytes() != "connected_slaves".spec_bytes()) by { reveal_strlit("connected_slaves"); lemma_texts_differ("repl_backlog_first_byte_offset", "connected_slaves"); }
    assert("repl_backlog_first_byte_offset".spec_bytes() != "repl_backlog_size".spec_bytes()) by { reveal_strlit("repl_backlog_size"); lemma_texts_differ("repl_backlog_first_byte_offset", "repl_backlog_size"); }
    assert("repl_backlog_first_byte_offset".spec_bytes() != "repl_backlog_active".spec_bytes()) by { reveal_strlit("repl_backlog_active"); lemma_texts_differ("repl_backlog_first_byte_offset", "repl_backlog_active"); }
}

/// The field `repl_backlog_histlen` is reported as the gauge `repl_backlog_history_bytes` where part 3 of the table is read.
pub proof fn lemma_field_repl_backlog_histlen()
    ensures
        table_part_3("repl_backlog_histlen".spec_bytes()) == Some(
            GenericMetric { kind: Kind::Gauge, name: "repl_backlog_history_bytes", description: "Size in bytes of the data in the replication backlog buffer", micros: false },
        ),
{
    reveal_strlit("repl_backlog_histlen");
    assert("repl_backlog_histlen".spec_bytes() != "aof_last_rewrite_time_sec".spec_bytes()) by { reveal_strlit("aof_last_rewrite_time_sec"); lemma_texts_differ("repl_backlog_histlen", "aof_last_rewrite_time_sec"); }
    assert("repl_backlog_histlen".spec_bytes() != "aof_current_rewrite_time_sec".spec_bytes()) by { reveal_strlit("aof_current_rewrite_time_sec"); lemma_texts_differ("repl_backlog_histlen", "aof_current_rewrite_time_sec"); }
    assert("repl_backlog_histlen".spec_bytes() != "aof_last_cow_size".spec_bytes()) by { reveal_strlit("aof_last_cow_size"); lemma_texts_differ("repl_backlog_histlen", "aof_last_cow_size"); }
    assert("repl_backlog_histlen".spec_bytes() != "aof_current_size".spec_bytes()) by { reveal_strlit("aof_current_size"); lemma_texts_differ("repl_backlog_histlen", "aof_current_size"); }
    assert("repl_backlog_histlen".spec_bytes() != "aof_base_size".spec_bytes()) by { reveal_strlit("aof_base_size"); lemma_texts_differ("repl_backlog_histlen", "aof_base_size"); }
    assert("repl_backlog_histlen".spec_bytes() != "aof_pending_rewrite".spec_bytes()) by { reveal_strlit("aof_pending_rewrite"); lemma_texts_differ("repl_backlog_histlen", "aof_pending_rewrite"); }
    assert("repl_backlog_histlen".spec_bytes() != "aof_buffer_length".spec_bytes()) by { reveal_strlit("aof_buffer_length"); lemma_texts_differ("repl_backlog_histlen", "aof_buffer_length"); }
    assert("repl_backlog_histlen".spec_bytes() != "aof_rewrite_buffer_length".spec_bytes()) by { reveal_strlit("aof_rewrite_buffer_length"); lemma_texts_differ("repl_backlog_histlen", "aof_rewrite_buffer_length"); }
    assert("repl_backlog_histlen".spec_bytes() != "aof_pending_bio_fsync".spec_bytes()) by { reveal_strlit("aof_pending_bio_fsync"); lemma_texts_differ("repl_backlog_histlen", "aof_pending_bio_fsync"); }
    assert("repl_backlog_histlen".spec_bytes() != "aof_delayed_fsync".spec_bytes()) by { reveal_strlit("aof_delayed_fsync"); lemma_texts_differ("repl_backlog_histlen", "aof_delayed_fsync"); }
    assert("repl_backlog_histlen".spec_bytes() != "aof_last_bgrewrite_status".spec_bytes()) by { reveal_strlit("aof_last_bgrewrite_status"); lemma_texts_differ("repl_backlog_histlen", "aof_last_bgrewrite_status"); }
    assert("repl_backlog_histlen".spec_bytes() != "aof_last_write_status".spec_bytes()) by { reveal_strlit("aof_last_write_status"); lemma_texts_differ("repl_backlog_histlen", "aof_last_write_status"); }
    assert("repl_backlog_histlen".spec_bytes() != "module_fork_in_progress".spec_bytes()) by { reveal_strlit("module_fork_in_progress"); lemma_texts_differ("repl_backlog_histlen", "module_fork_in_progress"); }
    assert("repl_backlog_histlen".spec_bytes() != "module_fork_last_cow_size".spec_bytes()) by { reveal_strlit("module_fork_last_cow_size"); lemma_texts_differ("repl_backlog_histlen", "module_fork_last_cow_size"); }
    assert("repl_backlog_histlen".spec_bytes() != "current_eviction_exceeded_time".spec_bytes()) by { reveal_strlit("current_eviction_exceeded_time"); lemma_texts_differ("repl_backlog_histlen", "current_eviction_exceeded_time"); }
    assert("repl_backlog_histlen".spec_bytes() != "pubsub_channels".spec_bytes()) by { reveal_strlit("pubsub_channels"); lemma_texts_differ("repl_backlog_histlen", "pubsub_channels"); }
    assert("repl_backlog_histlen".spec_bytes() != "pubsub_patterns".spec_bytes()) by { reveal_strlit("pubsub_patterns"); lemma_texts_differ("repl_backlog_histlen", "pubsub_patterns"); }
    assert("repl_backlog_histlen".spec_bytes() != "pubsubshard_channels".spec_bytes()) by {
        reveal_strlit("pubsubshard_channels");
        assert("repl_backlog_histlen"@[0] != "pubsubshard_channels"@[0]);
        lemma_texts_differ("repl_backlog_histlen", "pubsubshard_channels");
    }
    assert("repl_backlog_histlen".spec_bytes() != "latest_fork_usec".spec_bytes()) by { reveal_strlit("latest_fork_usec"); lemma_texts_differ("repl_backlog_histlen", "latest_fork_usec"); }
    assert("repl_backlog_histlen".spec_bytes() != "tracking_total_keys".spec_bytes()) by { reveal_strlit("tracking_total_keys"); lemma_texts_differ("repl_backlog_histlen", "tracking_total_keys"); }
    assert("repl_backlog_histlen".spec_bytes() != "tracking_total_items".spec_bytes()) by {
        reveal_strlit("tracking_total_items");
        assert("repl_backlog_histlen"@[0] != "tracking_total_items"@[0]);
        lemma_texts_differ("repl_backlog_histlen", "tracking_total_items");
    }
    assert("repl_backlog_histlen".spec_bytes() != "tracking_total_prefixes".spec_bytes()) by { reveal_strlit("tracking_total_prefixes"); lemma_texts_differ("repl_backlog_histlen", "tracking_total_prefixes"); }
    assert("repl_backlog_histlen".spec_bytes() != "connected_slaves".spec_bytes()) by { reveal_strlit("connected_slaves"); lemma_texts_differ("repl_backlog_histlen", "connected_slaves"); }
    assert("repl_backlog_histlen".spec_bytes() != "repl_backlog_size".spec_bytes()) by { reveal_strlit("repl_backlog_size"); lemma_texts_differ("repl_backlog_histlen", "repl_backlog_size"); }
    assert("repl_backlog_histlen".spec_bytes() != "repl_backlog_active".spec_bytes()) by { reveal_strlit("repl_backlog_active"); lemma_texts_differ("repl_backlog_histlen", "repl_backlog_active"); }
    assert("repl_backlog_histlen".spec_bytes() != "repl_backlog_first_byte_offset".spec_bytes()) by { reveal_strlit("repl_backlog_first_byte_offset"); lemma_texts_differ("repl_backlog_histlen", "repl_backlog_first_byte_offset"); }
}

/// The field `master_repl_offset` is reported as the gauge `master_repl_offset` where part 4 of the table is read.
pub proof fn lemma_field_master_repl_offset()
    ensures
        table_part_4("master_repl_offset".spec_bytes()) == Some(
            GenericMetric { kind: Kind::Gauge, name: "master_repl_offset", description: "The server's current replication offset", micros: false },
        ),
{

}

/// The field `second_repl_offset` is reported as the gauge `second_repl_offset` where part 4 of the table is read.
pub proof fn lemma_field_second_repl_offset()
    ensures
        table_part_4("second_repl_offset".spec_bytes()) == Some(
            GenericMetric { kind: Kind::Gauge, name: "second_repl_offset", description: "The offset up to which replication IDs are accepted", micros: false },
        ),
{
    reveal_strlit("second_repl_offset");
    assert("second_repl_offset".spec_bytes() != "master_repl_offset".spec_bytes()) by {
        reveal_strlit("master_repl_offset");
        assert("second_repl_offset"@[0] != "master_repl_offset"@[0]);
        lemma_texts_differ("second_repl_offset", "master_repl_offset");
    }
}

/// The field `slave_expires_tracked_keys` is reported as the gauge `slave_expires_tracked_keys` where part 4 of the table is read.
pub proof fn lemma_field_slave_expires_tracked_keys()
    ensures
        table_part_4("slave_expires_tracked_keys".spec_bytes()) == Some(
            GenericMetric { kind: Kind::Gauge, name: "slave_expires_tracked_keys", description: "The number of keys tracked for expiry purposes (applicable only to writable replicas)", micros: false },
        ),
{
    reveal_strlit("slave_expires_tracked_keys");
    assert("slave_expires_tracked_keys".spec_bytes() != "master_repl_offset".spec_bytes()) by { reveal_strlit("master_repl_offset"); lemma_texts_differ("slave_expires_tracked_keys", "master_repl_offset"); }
    assert("slave_expires_tracked_keys".spec_bytes() != "second_repl_offset".spec_bytes()) by { reveal_strlit("second_repl_offset"); lemma_texts_differ("slave_expires_tracked_keys", "second_repl_offset"); }
}

/// The field `slave_priority` is reported as the gauge `slave_priority` where part 4 of the table is read.
pub proof fn lemma_field_slave_priority()
    ensures
        table_part_4("slave_priority".spec_bytes()) == Some(
            GenericMetric { kind: Kind::Gauge, name: "slave_priority", description: "The priority of the instance as a candidate for failover", micros: false },
        ),
{
    reveal_strlit("slave_priority");
    assert("slave_priority".spec_bytes() != "master_repl_offset".spec_bytes()) by { reveal_strlit("master_repl_offset"); lemma_texts_differ("slave_priority", "master_repl_offset"); }
    assert("slave_priority".spec_bytes() != "second_repl_offset".spec_bytes()) by { reveal_strlit("second_repl_offset"); lemma_texts_differ("slave_priority", "second_repl_offset"); }
    assert("slave_priority".spec_bytes() != "slave_expires_tracked_keys".spec_bytes()) by { reveal_strlit("slave_expires_tracked_keys"); lemma_texts_differ("slave_priority", "slave_expires_tracked_keys"); }
}

/// The field `sync_full` is reported as the gauge `replica_resyncs_full` where part 4 of the table is read.
pub proof fn lemma_field_sync_full()
    ensures
        table_part_4("sync_full".spec_bytes()) == Some(
            GenericMetric { kind: Kind::Gauge, name: "replica_resyncs_full", description: "The number of full resyncs with replicas", micros: false },
        ),
{
    reveal_strlit("sync_full");
    assert("sync_full".spec_bytes() != "master_repl_offset".spec_bytes()) by { reveal_strlit("master_repl_offset"); lemma_texts_differ("sync_full", "master_repl_offset"); }
    assert("sync_full".spec_bytes() != "second_repl_offset".spec_bytes()) by { reveal_strlit("second_repl_offset"); lemma_texts_differ("sync_full", "second_repl_offset"); }
    assert("sync_full".spec_bytes() != "slave_expires_tracked_keys".spec_bytes()) by { reveal_strlit("slave_expires_tracked_keys"); lemma_texts_differ("sync_full", "slave_expires_tracked_keys"); }
    assert("sync_full".spec_bytes() != "slave_priority".spec_bytes()) by { reveal_strlit("slave_priority"); lemma_texts_differ("sync_full", "slave_priority"); }
}

/// The field `sync_partial_ok` is reported as the gauge `replica_partial_resync_accepted` where part 4 of the table is read.
pub proof fn lemma_field_sync_partial_ok()
    ensures
        table_part_4("sync_partial_ok".spec_bytes()) == Some(
            GenericMetric { kind: Kind::Gauge, name: "replica_partial_resync_accepted", description: "The number of accepted partial resync requests", micros: false },
        ),
{
    reveal_strlit("sync_partial_ok");
    assert("sync_partial_ok".spec_bytes() != "master_repl_offset".spec_bytes()) by { reveal_strlit("master_repl_offset"); lemma_texts_differ("sync_partial_ok", "master_repl_offset"); }
    assert("sync_partial_ok".spec_bytes() != "second_repl_offset".spec_bytes()) by { reveal_strlit("second_repl_offset"); lemma_texts_differ("sync_partial_ok", "second_repl_offset"); }
    assert("sync_partial_ok".spec_bytes() != "slave_expires_tracked_keys".spec_bytes()) by { reveal_strlit("slave_expires_tracked_keys"); lemma_texts_differ("sync_partial_ok", "slave_expires_tracked_keys"); }
    assert("sync_partial_ok".spec_bytes() != "slave_priority".spec_bytes()) by { reveal_strlit("slave_priority"); lemma_texts_differ("sync_partial_ok", "slave_priority"); }
    assert("sync_partial_ok".spec_bytes() != "sync_full".spec_bytes()) by { reveal_strlit("sync_full"); lemma_texts_differ("sync_partial_ok", "sync_full"); }
}

/// The field `sync_partial_err` is reported as the gauge `replica_partial_resync_denied` where part 4 of the table is read.
pub proof fn lemma_field_sync_partial_err()
    ensures
        table_part_4("sync_partial_err".spec_bytes()) == Some(
            GenericMetric { kind: Kind::Gauge, name: "replica_partial_resync_denied", description: "The number of denied partial resync requests", micros: false },
        ),
{
    reveal_strlit("sync_partial_err");
    assert("sync_partial_err".spec_bytes() != "master_repl_offset".spec_bytes()) by { reveal_strlit("master_repl_offset"); lemma_texts_differ("sync_partial_err", "master_repl_offset"); }
    assert("sync_partial_err".spec_bytes() != "second_repl_offset".spec_bytes()) by { reveal_strlit("second_repl_offset"); lemma_texts_differ("sync_partial_err", "second_repl_offset"); }
    assert("sync_partial_err".spec_bytes() != "slave_expires_tracked_keys".spec_bytes()) by { reveal_strlit("slave_expires_tracked_keys"); lemma_texts_differ("sync_partial_err", "slave_expires_tracked_keys"); }
    assert("sync_partial_err".spec_bytes() != "slave_priority".spec_bytes()) by { reveal_strlit("slave_priority"); lemma_texts_differ("sync_partial_err", "slave_priority"); }
    assert("sync_partial_err".spec_bytes() != "sync_full".spec_bytes()) by { reveal_strlit("sync_full"); lemma_texts_differ("sync_partial_err", "sync_full"); }
    assert("sync_partial_err".spec_bytes() != "sync_partial_ok".spec_bytes()) by { reveal_strlit("sync_partial_ok"); lemma_texts_differ("sync_partial_err", "sync_partial_ok"); }
}

/// The field `cluster_enabled` is reported as the gauge `redis_cluster_enabled` where part 4 of the table is read.
pub proof fn lemma_field_cluster_enabled()
    ensures
        table_part_4("cluster_enabled".spec_bytes()) == Some(
            GenericMetric { kind: Kind::Gauge, name: "redis_cluster_enabled", description: "Indicate Redis cluster is enabled", micros: false },
        ),
{
    reveal_strlit("cluster_enabled");
    assert("cluster_enabled".spec_bytes() != "master_repl_offset".spec_bytes()) by { reveal_strlit("master_repl_offset"); lemma_texts_differ("cluster_enabled", "master_repl_offset"); }
    assert("cluster_enabled".spec_bytes() != "second_repl_offset".spec_bytes()) by { reveal_strlit("second_repl_offset"); lemma_texts_differ("cluster_enabled", "second_repl_offset"); }
    assert("cluster_enabled".spec_bytes() != "slave_expires_tracked_keys".spec_bytes()) by { reveal_strlit("slave_expires_tracked_keys"); lemma_texts_differ("cluster_enabled", "slave_expires_tracked_keys"); }
    assert("cluster_enabled".spec_bytes() != "slave_priority".spec_bytes()) by { reveal_strlit("slave_priority"); lemma_texts_differ("cluster_enabled", "slave_priority"); }
    assert("cluster_enabled".spec_bytes() != "sync_full".spec_bytes()) by { reveal_strlit("sync_full"); lemma_texts_differ("cluster_enabled", "sync_full"); }
    assert("cluster_enabled".spec_bytes() != "sync_partial_ok".spec_bytes()) by {
        reveal_strlit("sync_partial_ok");
        assert("cluster_enabled"@[0] != "sync_partial_ok"@[0]);
        lemma_texts_differ("cluster_enabled", "sync_partial_ok");
    }
    assert("cluster_enabled".spec_bytes() != "sync_partial_err".spec_bytes()) by { reveal_strlit("sync_partial_err"); lemma_texts_differ("cluster_enabled", "sync_partial_err"); }
}

/// The field `cluster_stats_messages_sent` is reported as the gauge `cluster_messages_sent_total` where part 4 of the table is read.
pub proof fn lemma_field_cluster_stats_messages_sent()
    ensures
        table_part_4("cluster_stats_messages_sent".spec_bytes()) == Some(
            GenericMetric { kind: Kind::Gauge, name: "cluster_messages_sent_total", description: "", micros: false },
        ),
{
    reveal_strlit("cluster_stats_messages_sent");
    assert("cluster_stats_messages_sent".spec_bytes() != "master_repl_offset".spec_bytes()) by { reveal_strlit("master_repl_offset"); lemma_texts_differ("cluster_stats_messages_sent", "master_repl_offset"); }
    assert("cluster_stats_messages_sent".spec_bytes() != "second_repl_offset".spec_bytes()) by { reveal_strlit("second_repl_offset"); lemma_texts_differ("cluster_stats_messages_sent", "second_repl_offset"); }
    assert("cluster_stats_messages_sent".spec_bytes() != "slave_expires_tracked_keys".spec_bytes()) by { reveal_strlit("slave_expires_tracked_keys"); lemma_texts_differ("cluster_stats_messages_sent", "slave_expires_tracked_keys"); }
    assert("cluster_stats_messages_sent".spec_bytes() != "slave_priority".spec_bytes()) by { reveal_strlit("slave_priority"); lemma_texts_differ("cluster_stats_messages_sent", "slave_priority"); }
    assert("cluster_stats_messages_sent".spec_bytes() != "sync_full".spec_bytes()) by { reveal_strlit("sync_full"); lemma_texts_differ("cluster_stats_messages_sent", "sync_full"); }
    assert("cluster_stats_messages_sent".spec_bytes() != "sync_partial_ok".spec_bytes()) by { reveal_strlit("sync_partial_ok"); lemma_texts_differ("cluster_stats_messages_sent", "sync_partial_ok"); }
    assert("cluster_stats_messages_sent".spec_bytes() != "sync_partial_err".spec_bytes()) by { reveal_strlit("sync_partial_err"); lemma_texts_differ("cluster_stats_messages_sent", "sync_partial_err"); }
    assert("cluster_stats_messages_sent".spec_bytes() != "cluster_enabled".spec_bytes()) by { reveal_strlit("cluster_enabled"); lemma_texts_differ("cluster_stats_messages_sent", "cluster_enabled"); }
}

/// The field `cluster_stats_messages_received` is reported as the gauge `cluster_messages_received_total` where part 4 of the table is read.
pub proof fn lemma_field_cluster_stats_messages_received()
    ensures
        table_part_4("cluster_stats_messages_received".spec_bytes()) == Some(
            GenericMetric { kind: Kind::Gauge, name: "cluster_messages_received_total", description: "", micros: false },
        ),
{
    reveal_strlit("cluster_stats_messages_received");
    assert("cluster_stats_messages_received".spec_bytes() != "master_repl_offset".spec_bytes()) by { reveal_strlit("master_repl_offset"); lemma_texts_differ("cluster_stats_messages_received", "master_repl_offset"); }
    assert("cluster_stats_messages_received".spec_bytes() != "second_repl_offset".spec_bytes()) by { reveal_strlit("second_repl_offset"); lemma_texts_differ("cluster_stats_messages_received", "second_repl_offset"); }
    assert("cluster_stats_messages_received".spec_bytes() != "slave_expires_tracked_keys".spec_bytes()) by { reveal_strlit("slave_expires_tracked_keys"); lemma_texts_differ("cluster_stats_messages_received", "slave_expires_tracked_keys"); }
    assert("cluster_stats_messages_received".spec_bytes() != "slave_priority".spec_bytes()) by { reveal_strlit("slave_priority"); lemma_texts_differ("cluster_stats_messages_received", "slave_priority"); }
    assert("cluster_stats_messages_received".spec_bytes() != "sync_full".spec_bytes()) by { reveal_strlit("sync_full"); lemma_texts_differ("cluster_stats_messages_received", "sync_full"); }
    assert("cluster_stats_messages_received".spec_bytes() != "sync_partial_ok".spec_bytes()) by { reveal_strlit("sync_partial_ok"); lemma_texts_differ("cluster_stats_messages_received", "sync_partial_ok"); }
    assert("cluster_stats_messages_received".spec_bytes() != "sync_partial_err".spec_bytes()) by { reveal_strlit("sync_partial_err"); lemma_texts_differ("cluster_stats_messages_received", "sync_partial_err"); }
    assert("cluster_stats_messages_received".spec_bytes() != "cluster_enabled".spec_bytes()) by { reveal_strlit("cluster_enabled"); lemma_texts_differ("cluster_stats_messages_received", "cluster_enabled"); }
    assert("cluster_stats_messages_received".spec_bytes() != "cluster_stats_messages_sent".spec_bytes()) by { reveal_strlit("cluster_stats_messages_sent"); lemma_texts_differ("cluster_stats_messages_received", "cluster_stats_messages_sent"); }
}

/// The field `tile38_aof_size` is reported as the gauge `tile38_aof_size_bytes` where part 4 of the table is read.
pub proof fn lemma_field_tile38_aof_size()
    ensures
        table_part_4("tile38_aof_size".spec_bytes()) == Some(
            GenericMetric { kind: Kind::Gauge, name: "tile38_aof_size_bytes", description: "", micros: false },
        ),
{
    reveal_strlit("tile38_aof_size");
    assert("tile38_aof_size".spec_bytes() != "master_repl_offset".spec_bytes()) by { reveal_strlit("master_repl_offset"); lemma_texts_differ("tile38_aof_size", "master_repl_offset"); }
    assert("tile38_aof_size".spec_bytes() != "second_repl_offset".spec_bytes()) by { reveal_strlit("second_repl_offset"); lemma_texts_differ("tile38_aof_size", "second_repl_offset"); }
    assert("tile38_aof_size".spec_bytes() != "slave_expires_tracked_keys".spec_bytes()) by { reveal_strlit("slave_expires_tracked_keys"); lemma_texts_differ("tile38_aof_size", "slave_expires_tracked_keys"); }
    assert("tile38_aof_size".spec_bytes() != "slave_priority".spec_bytes()) by { reveal_strlit("slave_priority"); lemma_texts_differ("tile38_aof_size", "slave_priority"); }
    assert("tile38_aof_size".spec_bytes() != "sync_full".spec_bytes()) by { reveal_strlit("sync_full"); lemma_texts_differ("tile38_aof_size", "sync_full"); }
    assert("tile38_aof_size".spec_bytes() != "sync_partial_ok".spec_bytes()) by {
        reveal_strlit("sync_partial_ok");
        assert("tile38_aof_size"@[0] != "sync_partial_ok"@[0]);
        lemma_texts_differ("tile38_aof_size", "sync_partial_ok");
    }
    assert("tile38_aof_size".spec_bytes() != "sync_partial_err".spec_bytes()) by { reveal_strlit("sync_partial_err"); lemma_texts_differ("tile38_aof_size", "sync_partial_err"); }
    assert("tile38_aof_size".spec_bytes() != "cluster_enabled".spec_bytes()) by {
        reveal_strlit("cluster_enabled");
        assert("tile38_aof_size"@[0] != "cluster_enabled"@[0]);
        lemma_texts_differ("tile38_aof_size", "cluster_enabled");
    }
    assert("tile38_aof_size".spec_bytes() != "cluster_stats_messages_sent".spec_bytes()) by { reveal_strlit("cluster_stats_messages_sent"); lemma_texts_differ("tile38_aof_size", "cluster_stats_messages_sent"); }
    assert("tile38_aof_size".spec_bytes() != "cluster_stats_messages_received".spec_bytes()) by { reveal_strlit("cluster_stats_messages_received"); lemma_texts_differ("tile38_aof_size", "cluster_stats_messages_received"); }
}

/// The field `tile38_avg_point_size` is reported as the gauge `tile38_avg_item_size_bytes` where part 4 of the table is read.
pub proof fn lemma_field_tile38_avg_point_size()
    ensures
        table_part_4("tile38_avg_point_size".spec_bytes()) == Some(
            GenericMetric { kind: Kind::Gauge, name: "tile38_avg_item_size_bytes", description: "", micros: false },
        ),
{
    reveal_strlit("tile38_avg_point_size");
    assert("tile38_avg_point_size".spec_bytes() != "master_repl_offset".spec_bytes()) by { reveal_strlit("master_repl_offset"); lemma_texts_differ("tile38_avg_point_size", "master_repl_offset"); }
    assert("tile38_avg_point_size".spec_bytes() != "second_repl_offset".spec_bytes()) by { reveal_strlit("second_repl_offset"); lemma_texts_differ("tile38_avg_point_size", "second_repl_offset"); }
    assert("tile38_avg_point_size".spec_bytes() != "slave_expires_tracked_keys".spec_bytes()) by { reveal_strlit("slave_expires_tracked_keys"); lemma_texts_differ("tile38_avg_point_size", "slave_expires_tracked_keys"); }
    assert("tile38_avg_point_size".spec_bytes() != "slave_priority".spec_bytes()) by { reveal_strlit("slave_priority"); lemma_texts_differ("tile38_avg_point_size", "slave_priority"); }
    assert("tile38_avg_point_size".spec_bytes() != "sync_full".spec_bytes()) by { reveal_strlit("sync_full"); lemma_texts_differ("tile38_avg_point_size", "sync_full"); }
    assert("tile38_avg_point_size".spec_bytes() != "sync_partial_ok".spec_bytes()) by { reveal_strlit("sync_partial_ok"); lemma_texts_differ("tile38_avg_point_size", "sync_partial_ok"); }
    assert("tile38_avg_point_size".spec_bytes() != "sync_partial_err".spec_bytes()) by { reveal_strlit("sync_partial_err"); lemma_texts_differ("tile38_avg_point_size", "sync_partial_err"); }
    assert("tile38_avg_point_size".spec_bytes() != "cluster_enabled".spec_bytes()) by { reveal_strlit("cluster_enabled"); lemma_texts_differ("tile38_avg_point_size", "cluster_enabled"); }
    assert("tile38_avg_point_size".spec_bytes() != "cluster_stats_messages_sent".spec_bytes()) by { reveal_strlit("cluster_stats_messages_sent"); lemma_texts_differ("tile38_avg_point_size", "cluster_stats_messages_sent"); }
    assert("tile38_avg_point_size".spec_bytes() != "cluster_stats_messages_received".spec_bytes()) by { reveal_strlit("cluster_stats_messages_received"); lemma_texts_differ("tile38_avg_point_size", "cluster_stats_messages_received"); }
    assert("tile38_avg_point_size".spec_bytes() != "tile38_aof_size".spec_bytes()) by { reveal_strlit("tile38_aof_size"); lemma_texts_differ("tile38_avg_point_size", "tile38_aof_size"); }
}

/// The field `tile38_sys_cpus` is reported as the gauge `tile38_cpus_total` where part 4 of the table is read.
pub proof fn lemma_field_tile38_sys_cpus()
    ensures
        table_part_4("tile38_sys_cpus".spec_bytes()) == Some(
            GenericMetric { kind: Kind::Gauge, name: "tile38_cpus_total", description: "", micros: false },
        ),
{
    reveal_strlit("tile38_sys_cpus");
    assert("tile38_sys_cpus".spec_bytes() != "master_repl_offset".spec_bytes()) by { reveal_strlit("master_repl_offset"); lemma_texts_differ("tile38_sys_cpus", "master_repl_offset"); }
    assert("tile38_sys_cpus".spec_bytes() != "second_repl_offset".spec_bytes()) by { reveal_strlit("second_repl_offset"); lemma_texts_differ("tile38_sys_cpus", "second_repl_offset"); }
    assert("tile38_sys_cpus".spec_bytes() != "slave_expires_tracked_keys".spec_bytes()) by { reveal_strlit("slave_expires_tracked_keys"); lemma_texts_differ("tile38_sys_cpus", "slave_expires_tracked_keys"); }
    assert("tile38_sys_cpus".spec_bytes() != "slave_priority".spec_bytes()) by { reveal_strlit("slave_priority"); lemma_texts_differ("tile38_sys_cpus", "slave_priority"); }
    assert("tile38_sys_cpus".spec_bytes() != "sync_full".spec_bytes()) by { reveal_strlit("sync_full"); lemma_texts_differ("tile38_sys_cpus", "sync_full"); }
    assert("tile38_sys_cpus".spec_bytes() != "sync_partial_ok".spec_bytes()) by {
        reveal_strlit("sync_partial_ok");
        assert("tile38_sys_cpus"@[0] != "sync_partial_ok"@[0]);
        lemma_texts_differ("tile38_sys_cpus", "sync_partial_ok");
    }
    assert("tile38_sys_cpus".spec_bytes() != "sync_partial_err".spec_bytes()) by { reveal_strlit("sync_partial_err"); lemma_texts_differ("tile38_sys_cpus", "sync_partial_err"); }
    assert("tile38_sys_cpus".spec_bytes() != "cluster_enabled".spec_bytes()) by {
        reveal_strlit("cluster_enabled");
        assert("tile38_sys_cpus"@[0] != "cluster_enabled"@[0]);
        lemma_texts_differ("tile38_sys_cpus", "cluster_enabled");
    }
    assert("tile38_sys_cpus".spec_bytes() != "cluster_stats_messages_sent".spec_bytes()) by { reveal_strlit("cluster_stats_messages_sent"); lemma_texts_differ("tile38_sys_cpus", "cluster_stats_messages_sent"); }
    assert("tile38_sys_cpus".spec_bytes() != "cluster_stats_messages_received".spec_bytes()) by { reveal_strlit("cluster_stats_messages_received"); lemma_texts_differ("tile38_sys_cpus", "cluster_stats_messages_received"); }
    assert("tile38_sys_cpus".spec_bytes() != "tile38_aof_size".spec_bytes()) by {
        reveal_strlit("tile38_aof_size");
        assert("tile38_sys_cpus"@[7] != "tile38_aof_size"@[7]);
        lemma_texts_differ("tile38_sys_cpus", "tile38_aof_size");
    }
    assert("tile38_sys_cpus".spec_bytes() != "tile38_avg_point_size".spec_bytes()) by { reveal_strlit("tile38_avg_point_size"); lemma_texts_differ("tile38_sys_cpus", "tile38_avg_point_size"); }
}

/// The field `tile38_heap_released_bytes` is reported as the gauge `tile38_heap_released_bytes` where part 4 of the table is read.
pub proof fn lemma_field_tile38_heap_released_bytes()
    ensures
        table_part_4("tile38_heap_released_bytes".spec_bytes()) == Some(
            GenericMetric { kind: Kind::Gauge, name: "tile38_heap_released_bytes", description: "", micros: false },
        ),
{
    reveal_strlit("tile38_heap_released_bytes");
    assert("tile38_heap_released_bytes".spec_bytes() != "master_repl_offset".spec_bytes()) by { reveal_strlit("master_repl_offset"); lemma_texts_differ("tile38_heap_released_bytes", "master_repl_offset"); }
    assert("tile38_heap_released_bytes".spec_bytes() != "second_repl_offset".spec_bytes()) by { reveal_strlit("second_repl_offset"); lemma_texts_differ("tile38_heap_released_bytes", "second_repl_offset"); }
    assert("tile38_heap_released_bytes".spec_bytes() != "slave_expires_tracked_keys".spec_bytes()) by {
        reveal_strlit("slave_expires_tracked_keys");
        assert("tile38_heap_released_bytes"@[0] != "slave_expires_tracked_keys"@[0]);
        lemma_texts_differ("tile38_heap_released_bytes", "slave_expires_tracked_keys");
    }
    assert("tile38_heap_released_bytes".spec_bytes() != "slave_priority".spec_bytes()) by { reveal_strlit("slave_priority"); lemma_texts_differ("tile38_heap_released_bytes", "slave_priority"); }
    assert("tile38_heap_released_bytes".spec_bytes() != "sync_full".spec_bytes()) by { reveal_strlit("sync_full"); lemma_texts_differ("tile38_heap_released_bytes", "sync_full"); }
    assert("tile38_heap_released_bytes".spec_bytes() != "sync_partial_ok".spec_bytes()) by { reveal_strlit("sync_partial_ok"); lemma_texts_differ("tile38_heap_released_bytes", "sync_partial_ok"); }
    assert("tile38_heap_released_bytes".spec_bytes() != "sync_partial_err".spec_bytes()) by { reveal_strlit("sync_partial_err"); lemma_texts_differ("tile38_heap_released_bytes", "sync_partial_err"); }
    assert("tile38_heap_released_bytes".spec_bytes() != "cluster_enabled".spec_bytes()) by { reveal_strlit("cluster_enabled"); lemma_texts_differ("tile38_heap_released_bytes", "cluster_enabled"); }
    assert("tile38_heap_released_bytes".spec_bytes() != "cluster_stats_messages_sent".spec_bytes()) by { reveal_strlit("cluster_stats_messages_sent"); lemma_texts_differ("tile38_heap_released_bytes", "cluster_stats_messages_sent"); }
    assert("tile38_heap_released_bytes".spec_bytes() != "cluster_stats_messages_received".spec_bytes()) by { reveal_strlit("cluster_stats_messages_received"); lemma_texts_differ("tile38_heap_released_bytes", "cluster_stats_messages_received"); }
    assert("tile38_heap_released_bytes".spec_bytes() != "tile38_aof_size".spec_bytes()) by { reveal_strlit("tile38_aof_size"); lemma_texts_differ("tile38_heap_released_bytes", "tile38_aof_size"); }
    assert("tile38_heap_released_bytes".spec_bytes() != "tile38_avg_point_size".spec_bytes()) by { reveal_strlit("tile38_avg_point_size"); lemma_texts_differ("tile38_heap_released_bytes", "tile38_avg_point_size"); }
    assert("tile38_heap_released_bytes".spec_bytes() != "tile38_sys_cpus".spec_bytes()) by { reveal_strlit("tile38_sys_cpus"); lemma_texts_differ("tile38_heap_released_bytes", "tile38_sys_cpus"); }
}

/// The field `tile38_heap_alloc_bytes` is reported as the gauge `tile38_heap_size_bytes` where part 4 of the table is read.
pub proof fn lemma_field_tile38_heap_alloc_bytes()
    ensures
        table_part_4("tile38_heap_alloc_bytes".spec_bytes()) == Some(
            GenericMetric { kind: Kind::Gauge, name: "tile38_heap_size_bytes", description: "", micros: false },
        ),
{
    reveal_strlit("tile38_heap_alloc_bytes");
    assert("tile38_heap_alloc_bytes".spec_bytes() != "master_repl_offset".spec_bytes()) by { reveal_strlit("master_repl_offset"); lemma_texts_differ("tile38_heap_alloc_bytes", "master_repl_offset"); }
    assert("tile38_heap_alloc_bytes".spec_bytes() != "second_repl_offset".spec_bytes()) by { reveal_strlit("second_repl_offset"); lemma_texts_differ("tile38_heap_alloc_bytes", "second_repl_offset"); }
    assert("tile38_heap_alloc_bytes".spec_bytes() != "slave_expires_tracked_keys".spec_bytes()) by { reveal_strlit("slave_expires_tracked_keys"); lemma_texts_differ("tile38_heap_alloc_bytes", "slave_expires_tracked_keys"); }
    assert("tile38_heap_alloc_bytes".spec_bytes() != "slave_priority".spec_bytes()) by { reveal_strlit("slave_priority"); lemma_texts_differ("tile38_heap_alloc_bytes", "slave_priority"); }
    assert("tile38_heap_alloc_bytes".spec_bytes() != "sync_full".spec_bytes()) by { reveal_strlit("sync_full"); lemma_texts_differ("tile38_heap_alloc_bytes", "sync_full"); }
    assert("tile38_heap_alloc_bytes".spec_bytes() != "sync_partial_ok".spec_bytes()) by { reveal_strlit("sync_partial_ok"); lemma_texts_differ("tile38_heap_alloc_bytes", "sync_partial_ok"); }
    assert("tile38_heap_alloc_bytes".spec_bytes() != "sync_partial_err".spec_bytes()) by { reveal_strlit("sync_partial_err"); lemma_texts_differ("tile38_heap_alloc_bytes", "sync_partial_err"); }
    assert("tile38_heap_alloc_bytes".spec_bytes() != "cluster_enabled".spec_bytes()) by { reveal_strlit("cluster_enabled"); lemma_texts_differ("tile38_heap_alloc_bytes", "cluster_enabled"); }
    assert("tile38_heap_alloc_bytes".spec_bytes() != "cluster_stats_messages_sent".spec_bytes()) by { reveal_strlit("cluster_stats_messages_sent"); lemma_texts_differ("tile38_heap_alloc_bytes", "cluster_stats_messages_sent"); }
    assert("tile38_heap_alloc_bytes".spec_bytes() != "cluster_stats_messages_received".spec_bytes()) by { reveal_strlit("cluster_stats_messages_received"); lemma_texts_differ("tile38_heap_alloc_bytes", "cluster_stats_messages_received"); }
    assert("tile38_heap_alloc_bytes".spec_bytes() != "tile38_aof_size".spec_bytes()) by { reveal_strlit("tile38_aof_size"); lemma_texts_differ("tile38_heap_alloc_bytes", "tile38_aof_size"); }
    assert("tile38_heap_alloc_bytes".spec_bytes() != "tile38_avg_point_size".spec_bytes()) by { reveal_strlit("tile38_avg_point_size"); lemma_texts_differ("tile38_heap_alloc_bytes", "tile38_avg_point_size"); }
    assert("tile38_heap_alloc_bytes".spec_bytes() != "tile38_sys_cpus".spec_bytes()) by { reveal_strlit("tile38_sys_cpus"); lemma_texts_differ("tile38_heap_alloc_bytes", "tile38_sys_cpus"); }
    assert("tile38_heap_alloc_bytes".spec_bytes() != "tile38_heap_released_bytes".spec_bytes()) by { reveal_strlit("tile38_heap_released_bytes"); lemma_texts_differ("tile38_heap_alloc_bytes", "tile38_heap_released_bytes"); }
}

/// The field `tile38_http_transport` is reported as the gauge `tile38_http_transport` where part 4 of the table is read.
pub proof fn lemma_field_tile38_http_transport()
    ensures
        table_part_4("tile38_http_transport".spec_bytes()) == Some(
            GenericMetric { kind: Kind::Gauge, name: "tile38_http_transport", description: "", micros: false },
        ),
{
    reveal_strlit("tile38_http_transport");
    assert("tile38_http_transport".spec_bytes() != "master_repl_offset".spec_bytes()) by { reveal_strlit("master_repl_offset"); lemma_texts_differ("tile38_http_transport", "master_repl_offset"); }
    assert("tile38_http_transport".spec_bytes() != "second_repl_offset".spec_bytes()) by { reveal_strlit("second_repl_offset"); lemma_texts_differ("tile38_http_transport", "second_repl_offset"); }
    assert("tile38_http_transport".spec_bytes() != "slave_expires_tracked_keys".spec_bytes()) by { reveal_strlit("slave_expires_tracked_keys"); lemma_texts_differ("tile38_http_transport", "slave_expires_tracked_keys"); }
    assert("tile38_http_transport".spec_bytes() != "slave_priority".spec_bytes()) by { reveal_strlit("slave_priority"); lemma_texts_differ("tile38_http_transport", "slave_priority"); }
    assert("tile38_http_transport".spec_bytes() != "sync_full".spec_bytes()) by { reveal_strlit("sync_full"); lemma_texts_differ("tile38_http_transport", "sync_full"); }
    assert("tile38_http_transport".spec_bytes() != "sync_partial_ok".spec_bytes()) by { reveal_strlit("sync_partial_ok"); lemma_texts_differ("tile38_http_transport", "sync_partial_ok"); }
    assert("tile38_http_transport".spec_bytes() != "sync_partial_err".spec_bytes()) by { reveal_strlit("sync_partial_err"); lemma_texts_differ("tile38_http_transport", "sync_partial_err"); }
    assert("tile38_http_transport".spec_bytes() != "cluster_enabled".spec_bytes()) by { reveal_strlit("cluster_enabled"); lemma_texts_differ("tile38_http_transport", "cluster_enabled"); }
    assert("tile38_http_transport".spec_bytes() != "cluster_stats_messages_sent".spec_bytes()) by { reveal_strlit("cluster_stats_messages_sent"); lemma_texts_differ("tile38_http_transport", "cluster_stats_messages_sent"); }
    assert("tile38_http_transport".spec_bytes() != "cluster_stats_messages_received".spec_bytes()) by { reveal_strlit("cluster_stats_messages_received"); lemma_texts_differ("tile38_http_transport", "cluster_stats_messages_received"); }
    assert("tile38_http_transport".spec_bytes() != "tile38_aof_size".spec_bytes()) by { reveal_strlit("tile38_aof_size"); lemma_texts_differ("tile38_http_transport", "tile38_aof_size"); }
    assert("tile38_http_transport".spec_bytes() != "tile38_avg_point_size".spec_bytes()) by {
        reveal_strlit("tile38_avg_point_size");
        assert("tile38_http_transport"@[7] != "tile38_avg_point_size"@[7]);
        lemma_texts_differ("tile38_http_transport", "tile38_avg_point_size");
    }
    assert("tile38_http_transport".spec_bytes() != "tile38_sys_cpus".spec_bytes()) by { reveal_strlit("tile38_sys_cpus"); lemma_texts_differ("tile38_http_transport", "tile38_sys_cpus"); }
    assert("tile38_http_transport".spec_bytes() != "tile38_heap_released_bytes".spec_bytes()) by { reveal_strlit("tile38_heap_released_bytes"); lemma_texts_differ("tile38_http_transport", "tile38_heap_released_bytes"); }
    assert("tile38_http_transport".spec_bytes() != "tile38_heap_alloc_bytes".spec_bytes()) by { reveal_strlit("tile38_heap_alloc_bytes"); lemma_texts_differ("tile38_http_transport", "tile38_heap_alloc_bytes"); }
}

/// The field `tile38_in_memory_size` is reported as the gauge `tile38_in_memory_size_bytes` where part 4 of the table is read.
pub proof fn lemma_field_tile38_in_memory_size()
    ensures
        table_part_4("tile38_in_memory_size".spec_bytes()) == Some(
            GenericMetric { kind: Kind::Gauge, name: "tile38_in_memory_size_bytes", description: "", micros: false },
        ),
{
    reveal_strlit("tile38_in_memory_size");
    assert("tile38_in_memory_size".spec_bytes() != "master_repl_offset".spec_bytes()) by { reveal_strlit("master_repl_offset"); lemma_texts_differ("tile38_in_memory_size", "master_repl_offset"); }
    assert("tile38_in_memory_size".spec_bytes() != "second_repl_offset".spec_bytes()) by { reveal_strlit("second_repl_offset"); lemma_texts_differ("tile38_in_memory_size", "second_repl_offset"); }
    assert("tile38_in_memory_size".spec_bytes() != "slave_expires_tracked_keys".spec_bytes()) by { reveal_strlit("slave_expires_tracked_keys"); lemma_texts_differ("tile38_in_memory_size", "slave_expires_tracked_keys"); }
    assert("tile38_in_memory_size".spec_bytes() != "slave_priority".spec_bytes()) by { reveal_strlit("slave_priority"); lemma_texts_differ("tile38_in_memory_size", "slave_priority"); }
    assert("tile38_in_memory_size".spec_bytes() != "sync_full".spec_bytes()) by { reveal_strlit("sync_full"); lemma_texts_differ("tile38_in_memory_size", "sync_full"); }
    assert("tile38_in_memory_size".spec_bytes() != "sync_partial_ok".spec_bytes()) by { reveal_strlit("sync_partial_ok"); lemma_texts_differ("tile38_in_memory_size", "sync_partial_ok"); }
    assert("tile38_in_memory_size".spec_bytes() != "sync_partial_err".spec_bytes()) by { reveal_strlit("sync_partial_err"); lemma_texts_differ("tile38_in_memory_size", "sync_partial_err"); }
    assert("tile38_in_memory_size".spec_bytes() != "cluster_enabled".spec_bytes()) by { reveal_strlit("cluster_enabled"); lemma_texts_differ("tile38_in_memory_size", "cluster_enabled"); }
    assert("tile38_in_memory_size".spec_bytes() != "cluster_stats_messages_sent".spec_bytes()) by { reveal_strlit("cluster_stats_messages_sent"); lemma_texts_differ("tile38_in_memory_size", "cluster_stats_messages_sent"); }
    assert("tile38_in_memory_size".spec_bytes() != "cluster_stats_messages_received".spec_bytes()) by { reveal_strlit("cluster_stats_messages_received"); lemma_texts_differ("tile38_in_memory_size", "cluster_stats_messages_received"); }
    assert("tile38_in_memory_size".spec_bytes() != "tile38_aof_size".spec_bytes()) by { reveal_strlit("tile38_aof_size"); lemma_texts_differ("tile38_in_memory_size", "tile38_aof_size"); }
    assert("tile38_in_memory_size".spec_bytes() != "tile38_avg_point_size".spec_bytes()) by {
        reveal_strlit("tile38_avg_point_size");
        assert("tile38_in_memory_size"@[7] != "tile38_avg_point_size"@[7]);
        lemma_texts_differ("tile38_in_memory_size", "tile38_avg_point_size");
    }
    assert("tile38_in_memory_size".spec_bytes() != "tile38_sys_cpus".spec_bytes()) by { reveal_strlit("tile38_sys_cpus"); lemma_texts_differ("tile38_in_memory_size", "tile38_sys_cpus"); }
    assert("tile38_in_memory_size".spec_bytes() != "tile38_heap_released_bytes".spec_bytes()) by { reveal_strlit("tile38_heap_released_bytes"); lemma_texts_differ("tile38_in_memory_size", "tile38_heap_released_bytes"); }
    assert("tile38_in_memory_size".spec_bytes() != "tile38_heap_alloc_bytes".spec_bytes()) by { reveal_strlit("tile38_heap_alloc_bytes"); lemma_texts_differ("tile38_in_memory_size", "tile38_heap_alloc_bytes"); }
    assert("tile38_in_memory_size".spec_bytes() != "tile38_http_transport".spec_bytes()) by {
        reveal_strlit("tile38_http_transport");
        assert("tile38_in_memory_size"@[7] != "tile38_http_transport"@[7]);
        lemma_texts_differ("tile38_in_memory_size", "tile38_http_transport");
    }
}

/// The field `tile38_max_heap_size` is reported as the gauge `tile38_max_heap_size_bytes` where part 4 of the table is read.
pub proof fn lemma_field_tile38_max_heap_size()
    ensures
        table_part_4("tile38_max_heap_size".spec_bytes()) == Some(
            GenericMetric { kind: Kind::Gauge, name: "tile38_max_heap_size_bytes", description: "", micros: false },
        ),
{
    reveal_strlit("tile38_max_heap_size");
    assert("tile38_max_heap_size".spec_bytes() != "master_repl_offset".spec_bytes()) by { reveal_strlit("master_repl_offset"); lemma_texts_differ("tile38_max_heap_size", "master_repl_offset"); }
    assert("tile38_max_heap_size".spec_bytes() != "second_repl_offset".spec_bytes()) by { reveal_strlit("second_repl_offset"); lemma_texts_differ("tile38_max_heap_size", "second_repl_offset"); }
    assert("tile38_max_heap_size".spec_bytes() != "slave_expires_tracked_keys".spec_bytes()) by { reveal_strlit("slave_expires_tracked_keys"); lemma_texts_differ("tile38_max_heap_size", "slave_expires_tracked_keys"); }
    assert("tile38_max_heap_size".spec_bytes() != "slave_priority".spec_bytes()) by { reveal_strlit("slave_priority"); lemma_texts_differ("tile38_max_heap_size", "slave_priority"); }
    assert("tile38_max_heap_size".spec_bytes() != "sync_full".spec_bytes()) by { reveal_strlit("sync_full"); lemma_texts_differ("tile38_max_heap_size", "sync_full"); }
    assert("tile38_max_heap_size".spec_bytes() != "sync_partial_ok".spec_bytes()) by { reveal_strlit("sync_partial_ok"); lemma_texts_differ("tile38_max_heap_size", "sync_partial_ok"); }
    assert("tile38_max_heap_size".spec_bytes() != "sync_partial_err".spec_bytes()) by { reveal_strlit("sync_partial_err"); lemma_texts_differ("tile38_max_heap_size", "sync_partial_err"); }
    assert("tile38_max_heap_size".spec_bytes() != "cluster_enabled".spec_bytes()) by { reveal_strlit("cluster_enabled"); lemma_texts_differ("tile38_max_heap_size", "cluster_enabled"); }
    assert("tile38_max_heap_size".spec_bytes() != "cluster_stats_messages_sent".spec_bytes()) by { reveal_strlit("cluster_stats_messages_sent"); lemma_texts_differ("tile38_max_heap_size", "cluster_stats_messages_sent"); }
    assert("tile38_max_heap_size".spec_bytes() != "cluster_stats_messages_received".spec_bytes()) by { reveal_strlit("cluster_stats_messages_received"); lemma_texts_differ("tile38_max_heap_size", "cluster_stats_messages_received"); }
    assert("tile38_max_heap_size".spec_bytes() != "tile38_aof_size".spec_bytes()) by { reveal_strlit("tile38_aof_size"); lemma_texts_differ("tile38_max_heap_size", "tile38_aof_size"); }
    assert("tile38_max_heap_size".spec_bytes() != "tile38_avg_point_size".spec_bytes()) by { reveal_strlit("tile38_avg_point_size"); lemma_texts_differ("tile38_max_heap_size", "tile38_avg_point_size"); }
    assert("tile38_max_heap_size".spec_bytes() != "tile38_sys_cpus".spec_bytes()) by { reveal_strlit("tile38_sys_cpus"); lemma_texts_differ("tile38_max_heap_size", "tile38_sys_cpus"); }
    assert("tile38_max_heap_size".spec_bytes() != "tile38_heap_released_bytes".spec_bytes()) by { reveal_strlit("tile38_heap_released_bytes"); lemma_texts_differ("tile38_max_heap_size", "tile38_heap_released_bytes"); }
    assert("tile38_max_heap_size".spec_bytes() != "tile38_heap_alloc_bytes".spec_bytes()) by { reveal_strlit("tile38_heap_alloc_bytes"); lemma_texts_differ("tile38_max_heap_size", "tile38_heap_alloc_bytes"); }
    assert("tile38_max_heap_size".spec_bytes() != "tile38_http_transport".spec_bytes()) by { reveal_strlit("tile38_http_transport"); lemma_texts_differ("tile38_max_heap_size", "tile38_http_transport"); }
    assert("tile38_max_heap_size".spec_bytes() != "tile38_in_memory_size".spec_bytes()) by { reveal_strlit("tile38_in_memory_size"); lemma_texts_differ("tile38_max_heap_size", "tile38_in_memory_size"); }
}

/// The field `tile38_alloc_bytes` is reported as the gauge `tile38_mem_alloc_bytes` where part 4 of the table is read.
pub proof fn lemma_field_tile38_alloc_bytes()
    ensures
        table_part_4("tile38_alloc_bytes".spec_bytes()) == Some(
            GenericMetric { kind: Kind::Gauge, name: "tile38_mem_alloc_bytes", description: "", micros: false },
        ),
{
    reveal_strlit("tile38_alloc_bytes");
    assert("tile38_alloc_bytes".spec_bytes() != "master_repl_offset".spec_bytes()) by {
        reveal_strlit("master_repl_offset");
        assert("tile38_alloc_bytes"@[0] != "master_repl_offset"@[0]);
        lemma_texts_differ("tile38_alloc_bytes", "master_repl_offset");
    }
    assert("tile38_alloc_bytes".spec_bytes() != "second_repl_offset".spec_bytes()) by {
        reveal_strlit("second_repl_offset");
        assert("tile38_alloc_bytes"@[0] != "second_repl_offset"@[0]);
        lemma_texts_differ("tile38_alloc_bytes", "second_repl_offset");
    }
    assert("tile38_alloc_bytes".spec_bytes() != "slave_expires_tracked_keys".spec_bytes()) by { reveal_strlit("slave_expires_tracked_keys"); lemma_texts_differ("tile38_alloc_bytes", "slave_expires_tracked_keys"); }
    assert("tile38_alloc_bytes".spec_bytes() != "slave_priority".spec_bytes()) by { reveal_strlit("slave_priority"); lemma_texts_differ("tile38_alloc_bytes", "slave_priority"); }
    assert("tile38_alloc_bytes".spec_bytes() != "sync_full".spec_bytes()) by { reveal_strlit("sync_full"); lemma_texts_differ("tile38_alloc_bytes", "sync_full"); }
    assert("tile38_alloc_bytes".spec_bytes() != "sync_partial_ok".spec_bytes()) by { reveal_strlit("sync_partial_ok"); lemma_texts_differ("tile38_alloc_bytes", "sync_partial_ok"); }
    assert("tile38_alloc_bytes".spec_bytes() != "sync_partial_err".spec_bytes()) by { reveal_strlit("sync_partial_err"); lemma_texts_differ("tile38_alloc_bytes", "sync_partial_err"); }
    assert("tile38_alloc_bytes".spec_bytes() != "cluster_enabled".spec_bytes()) by { reveal_strlit("cluster_enabled"); lemma_texts_differ("tile38_alloc_bytes", "cluster_enabled"); }
    assert("tile38_alloc_bytes".spec_bytes() != "cluster_stats_messages_sent".spec_bytes()) by { reveal_strlit("cluster_stats_messages_sent"); lemma_texts_differ("tile38_alloc_bytes", "cluster_stats_messages_sent"); }
    assert("tile38_alloc_bytes".spec_bytes() != "cluster_stats_messages_received".spec_bytes()) by { reveal_strlit("cluster_stats_messages_received"); lemma_texts_differ("tile38_alloc_bytes", "cluster_stats_messages_received"); }
    assert("tile38_alloc_bytes".spec_bytes() != "tile38_aof_size".spec_bytes()) by { reveal_strlit("tile38_aof_size"); lemma_texts_differ("tile38_alloc_bytes", "tile38_aof_size"); }
    assert("tile38_alloc_bytes".spec_bytes() != "tile38_avg_point_size".spec_bytes()) by { reveal_strlit("tile38_avg_point_size"); lemma_texts_differ("tile38_alloc_bytes", "tile38_avg_point_size"); }
    assert("tile38_alloc_bytes".spec_bytes() != "tile38_sys_cpus".spec_bytes()) by { reveal_strlit("tile38_sys_cpus"); lemma_texts_differ("tile38_alloc_bytes", "tile38_sys_cpus"); }
    assert("tile38_alloc_bytes".spec_bytes() != "tile38_heap_released_bytes".spec_bytes()) by { reveal_strlit("tile38_heap_released_bytes"); lemma_texts_differ("tile38_alloc_bytes", "tile38_heap_released_bytes"); }
    assert("tile38_alloc_bytes".spec_bytes() != "tile38_heap_alloc_bytes".spec_bytes()) by { reveal_strlit("tile38_heap_alloc_bytes"); lemma_texts_differ("tile38_alloc_bytes", "tile38_heap_alloc_bytes"); }
    assert("tile38_alloc_bytes".spec_bytes() != "tile38_http_transport".spec_bytes()) by { reveal_strlit("tile38_http_transport"); lemma_texts_differ("tile38_alloc_bytes", "tile38_http_transport"); }
    assert("tile38_alloc_bytes".spec_bytes() != "tile38_in_memory_size".spec_bytes()) by { reveal_strlit("tile38_in_memory_size"); lemma_texts_differ("tile38_alloc_bytes", "tile38_in_memory_size"); }
    assert("tile38_alloc_bytes".spec_bytes() != "tile38_max_heap_size".spec_bytes()) by { reveal_strlit("tile38_max_heap_size"); lemma_texts_differ("tile38_alloc_bytes", "tile38_max_heap_size"); }
}

/// The field `tile38_num_collections` is reported as the gauge `tile38_num_collections_total` where part 4 of the table is read.
pub proof fn lemma_field_tile38_num_collections()
    ensures
        table_part_4("tile38_num_collections".spec_bytes()) == Some(
            GenericMetric { kind: Kind::Gauge, name: "tile38_num_collections_total", description: "", micros: false },
        ),
{
    reveal_strlit("tile38_num_collections");
    assert("tile38_num_collections".spec_bytes() != "master_repl_offset".spec_bytes()) by { reveal_strlit("master_repl_offset"); lemma_texts_differ("tile38_num_collections", "master_repl_offset"); }
    assert("tile38_num_collections".spec_bytes() != "second_repl_offset".spec_bytes()) by { reveal_strlit("second_repl_offset"); lemma_texts_differ("tile38_num_collections", "second_repl_offset"); }
    assert("tile38_num_collections".spec_bytes() != "slave_expires_tracked_keys".spec_bytes()) by { reveal_strlit("slave_expires_tracked_keys"); lemma_texts_differ("tile38_num_collections", "slave_expires_tracked_keys"); }
    assert("tile38_num_collections".spec_bytes() != "slave_priority".spec_bytes()) by { reveal_strlit("slave_priority"); lemma_texts_differ("tile38_num_collections", "slave_priority"); }
    assert("tile38_num_collections".spec_bytes() != "sync_full".spec_bytes()) by { reveal_strlit("sync_full"); lemma_texts_differ("tile38_num_collections", "sync_full"); }
    assert("tile38_num_collections".spec_bytes() != "sync_partial_ok".spec_bytes()) by { reveal_strlit("sync_partial_ok"); lemma_texts_differ("tile38_num_collections", "sync_partial_ok"); }
    assert("tile38_num_collections".spec_bytes() != "sync_partial_err".spec_bytes()) by { reveal_strlit("sync_partial_err"); lemma_texts_differ("tile38_num_collections", "sync_partial_err"); }
    assert("tile38_num_collections".spec_bytes() != "cluster_enabled".spec_bytes()) by { reveal_strlit("cluster_enabled"); lemma_texts_differ("tile38_num_collections", "cluster_enabled"); }
    assert("tile38_num_collections".spec_bytes() != "cluster_stats_messages_sent".spec_bytes()) by { reveal_strlit("cluster_stats_messages_sent"); lemma_texts_differ("tile38_num_collections", "cluster_stats_messages_sent"); }
    assert("tile38_num_collections".spec_bytes() != "cluster_stats_messages_received".spec_bytes()) by { reveal_strlit("cluster_stats_messages_received"); lemma_texts_differ("tile38_num_collections", "cluster_stats_messages_received"); }
    assert("tile38_num_collections".spec_bytes() != "tile38_aof_size".spec_bytes()) by { reveal_strlit("tile38_aof_size"); lemma_texts_differ("tile38_num_collections", "tile38_aof_size"); }
    assert("tile38_num_collections".spec_bytes() != "tile38_avg_point_size".spec_bytes()) by { reveal_strlit("tile38_avg_point_size"); lemma_texts_differ("tile38_num_collections", "tile38_avg_point_size"); }
    assert("tile38_num_collections".spec_bytes() != "tile38_sys_cpus".spec_bytes()) by { reveal_strlit("tile38_sys_cpus"); lemma_texts_differ("tile38_num_collections", "tile38_sys_cpus"); }
    assert("tile38_num_collections".spec_bytes() != "tile38_heap_released_bytes".spec_bytes()) by { reveal_strlit("tile38_heap_released_bytes"); lemma_texts_differ("tile38_num_collections", "tile38_heap_released_bytes"); }
    assert("tile38_num_collections".spec_bytes() != "tile38_heap_alloc_bytes".spec_bytes()) by { reveal_strlit("tile38_heap_alloc_bytes"); lemma_texts_differ("tile38_num_collections", "tile38_heap_alloc_bytes"); }
    assert("tile38_num_collections".spec_bytes() != "tile38_http_transport".spec_bytes()) by { reveal_strlit("tile38_http_transport"); lemma_texts_differ("tile38_num_collections", "tile38_http_transport"); }
    assert("tile38_num_collections".spec_bytes() != "tile38_in_memory_size".spec_bytes()) by { reveal_strlit("tile38_in_memory_size"); lemma_texts_differ("tile38_num_collections", "tile38_in_memory_size"); }
    assert("tile38_num_collections".spec_bytes() != "tile38_max_heap_size".spec_bytes()) by { reveal_strlit("tile38_max_heap_size"); lemma_texts_differ("tile38_num_collections", "tile38_max_heap_size"); }
    assert("tile38_num_collections".spec_bytes() != "tile38_alloc_bytes".spec_bytes()) by { reveal_strlit("tile38_alloc_bytes"); lemma_texts_differ("tile38_num_collections", "tile38_alloc_bytes"); }
}

/// The field `tile38_num_hooks` is reported as the gauge `tile38_num_hooks_total` where part 4 of the table is read.
pub proof fn lemma_field_tile38_num_hooks()
    ensures
        table_part_4("tile38_num_hooks".spec_bytes()) == Some(
            GenericMetric { kind: Kind::Gauge, name: "tile38_num_hooks_total", description: "", micros: false },
        ),
{
    reveal_strlit("tile38_num_hooks");
    assert("tile38_num_hooks".spec_bytes() != "master_repl_offset".spec_bytes()) by { reveal_strlit("master_repl_offset"); lemma_texts_differ("tile38_num_hooks", "master_repl_offset"); }
    assert("tile38_num_hooks".spec_bytes() != "second_repl_offset".spec_bytes()) by { reveal_strlit("second_repl_offset"); lemma_texts_differ("tile38_num_hooks", "second_repl_offset"); }
    assert("tile38_num_hooks".spec_bytes() != "slave_expires_tracked_keys".spec_bytes()) by { reveal_strlit("slave_expires_tracked_keys"); lemma_texts_differ("tile38_num_hooks", "slave_expires_tracked_keys"); }
    assert("tile38_num_hooks".spec_bytes() != "slave_priority".spec_bytes()) by { reveal_strlit("slave_priority"); lemma_texts_differ("tile38_num_hooks", "slave_priority"); }
    assert("tile38_num_hooks".spec_bytes() != "sync_full".spec_bytes()) by { reveal_strlit("sync_full"); lemma_texts_differ("tile38_num_hooks", "sync_full"); }
    assert("tile38_num_hooks".spec_bytes() != "sync_partial_ok".spec_bytes()) by { reveal_strlit("sync_partial_ok"); lemma_texts_differ("tile38_num_hooks", "sync_partial_ok"); }
    assert("tile38_num_hooks".spec_bytes() != "sync_partial_err".spec_bytes()) by {
        reveal_strlit("sync_partial_err");
        assert("tile38_num_hooks"@[0] != "sync_partial_err"@[0]);
        lemma_texts_differ("tile38_num_hooks", "sync_partial_err");
    }
    assert("tile38_num_hooks".spec_bytes() != "cluster_enabled".spec_bytes()) by { reveal_strlit("cluster_enabled"); lemma_texts_differ("tile38_num_hooks", "cluster_enabled"); }
    assert("tile38_num_hooks".spec_bytes() != "cluster_stats_messages_sent".spec_bytes()) by { reveal_strlit("cluster_stats_messages_sent"); lemma_texts_differ("tile38_num_hooks", "cluster_stats_messages_sent"); }
    assert("tile38_num_hooks".spec_bytes() != "cluster_stats_messages_received".spec_bytes()) by { reveal_strlit("cluster_stats_messages_received"); lemma_texts_differ("tile38_num_hooks", "cluster_stats_messages_received"); }
    assert("tile38_num_hooks".spec_bytes() != "tile38_aof_size".spec_bytes()) by { reveal_strlit("tile38_aof_size"); lemma_texts_differ("tile38_num_hooks", "tile38_aof_size"); }
    assert("tile38_num_hooks".spec_bytes() != "tile38_avg_point_size".spec_bytes()) by { reveal_strlit("tile38_avg_point_size"); lemma_texts_differ("tile38_num_hooks", "tile38_avg_point_size"); }
    assert("tile38_num_hooks".spec_bytes() != "tile38_sys_cpus".spec_bytes()) by { reveal_strlit("tile38_sys_cpus"); lemma_texts_differ("tile38_num_hooks", "tile38_sys_cpus"); }
    assert("tile38_num_hooks".spec_bytes() != "tile38_heap_released_bytes".spec_bytes()) by { reveal_strlit("tile38_heap_released_bytes"); lemma_texts_differ("tile38_num_hooks", "tile38_heap_released_bytes"); }
    assert("tile38_num_hooks".spec_bytes() != "tile38_heap_alloc_bytes".spec_bytes()) by { reveal_strlit("tile38_heap_alloc_bytes"); lemma_texts_differ("tile38_num_hooks", "tile38_heap_alloc_bytes"); }
    assert("tile38_num_hooks".spec_bytes() != "tile38_http_transport".spec_bytes()) by { reveal_strlit("tile38_http_transport"); lemma_texts_differ("tile38_num_hooks", "tile38_http_transport"); }
    assert("tile38_num_hooks".spec_bytes() != "tile38_in_memory_size".spec_bytes()) by { reveal_strlit("tile38_in_memory_size"); lemma_texts_differ("tile38_num_hooks", "tile38_in_memory_size"); }
    assert("tile38_num_hooks".spec_bytes() != "tile38_max_heap_size".spec_bytes()) by { reveal_strlit("tile38_max_heap_size"); lemma_texts_differ("tile38_num_hooks", "tile38_max_heap_size"); }
    assert("tile38_num_hooks".spec_bytes() != "tile38_alloc_bytes".spec_bytes()) by { reveal_strlit("tile38_alloc_bytes"); lemma_texts_differ("tile38_num_hooks", "tile38_alloc_bytes"); }
    assert("tile38_num_hooks".spec_bytes() != "tile38_num_collections".spec_bytes()) by { reveal_strlit("tile38_num_collections"); lemma_texts_differ("tile38_num_hooks", "tile38_num_collections"); }
}

/// The field `tile38_num_objects` is reported as the gauge `tile38_num_objects_total` where part 4 of the table is read.
pub proof fn lemma_field_tile38_num_objects()
    ensures
        table_part_4("tile38_num_objects".spec_bytes()) == Some(
            GenericMetric { kind: Kind::Gauge, name: "tile38_num_objects_total", description: "", micros: false },
        ),
{
    reveal_strlit("tile38_num_objects");
    assert("tile38_num_objects".spec_bytes() != "master_repl_offset".spec_bytes()) by {
        reveal_strlit("master_repl_offset");
        assert("tile38_num_objects"@[0] != "master_repl_offset"@[0]);
        lemma_texts_differ("tile38_num_objects", "master_repl_offset");
    }
    assert("tile38_num_objects".spec_bytes() != "second_repl_offset".spec_bytes()) by {
        reveal_strlit("second_repl_offset");
        assert("tile38_num_objects"@[0] != "second_repl_offset"@[0]);
        lemma_texts_differ("tile38_num_objects", "second_repl_offset");
    }
    assert("tile38_num_objects".spec_bytes() != "slave_expires_tracked_keys".spec_bytes()) by { reveal_strlit("slave_expires_tracked_keys"); lemma_texts_differ("tile38_num_objects", "slave_expires_tracked_keys"); }
    assert("tile38_num_objects".spec_bytes() != "slave_priority".spec_bytes()) by { reveal_strlit("slave_priority"); lemma_texts_differ("tile38_num_objects", "slave_priority"); }
    assert("tile38_num_objects".spec_bytes() != "sync_full".spec_bytes()) by { reveal_strlit("sync_full"); lemma_texts_differ("tile38_num_objects", "sync_full"); }
    assert("tile38_num_objects".spec_bytes() != "sync_partial_ok".spec_bytes()) by { reveal_strlit("sync_partial_ok"); lemma_texts_differ("tile38_num_objects", "sync_partial_ok"); }
    assert("tile38_num_objects".spec_bytes() != "sync_partial_err".spec_bytes()) by { reveal_strlit("sync_partial_err"); lemma_texts_differ("tile38_num_objects", "sync_partial_err"); }
    assert("tile38_num_objects".spec_bytes() != "cluster_enabled".spec_bytes()) by { reveal_strlit("cluster_enabled"); lemma_texts_differ("tile38_num_objects", "cluster_enabled"); }
    assert("tile38_num_objects".spec_bytes() != "cluster_stats_messages_sent".spec_bytes()) by { reveal_strlit("cluster_stats_messages_sent"); lemma_texts_differ("tile38_num_objects", "cluster_stats_messages_sent"); }
    assert("tile38_num_objects".spec_bytes() != "cluster_stats_messages_received".spec_bytes()) by { reveal_strlit("cluster_stats_messages_received"); lemma_texts_differ("tile38_num_objects", "cluster_stats_messages_received"); }
    assert("tile38_num_objects".spec_bytes() != "tile38_aof_size".spec_bytes()) by { reveal_strlit("tile38_aof_size"); lemma_texts_differ("tile38_num_objects", "tile38_aof_size"); }
    assert("tile38_num_objects".spec_bytes() != "tile38_avg_point_size".spec_bytes()) by { reveal_strlit("tile38_avg_point_size"); lemma_texts_differ("tile38_num_objects", "tile38_avg_point_size"); }
    assert("tile38_num_objects".spec_bytes() != "tile38_sys_cpus".spec_bytes()) by { reveal_strlit("tile38_sys_cpus"); lemma_texts_differ("tile38_num_objects", "tile38_sys_cpus"); }
    assert("tile38_num_objects".spec_bytes() != "tile38_heap_released_bytes".spec_bytes()) by { reveal_strlit("tile38_heap_released_bytes"); lemma_texts_differ("tile38_num_objects", "tile38_heap_released_bytes"); }
    assert("tile38_num_objects".spec_bytes() != "tile38_heap_alloc_bytes".spec_bytes()) by { reveal_strlit("tile38_heap_alloc_bytes"); lemma_texts_differ("tile38_num_objects", "tile38_heap_alloc_bytes"); }
    assert("tile38_num_objects".spec_bytes() != "tile38_http_transport".spec_bytes()) by { reveal_strlit("tile38_http_transport"); lemma_texts_differ("tile38_num_objects", "tile38_http_transport"); }
    assert("tile38_num_objects".spec_bytes() != "tile38_in_memory_size".spec_bytes()) by { reveal_strlit("tile38_in_memory_size"); lemma_texts_differ("tile38_num_objects", "tile38_in_memory_size"); }
    assert("tile38_num_objects".spec_bytes() != "tile38_max_heap_size".spec_bytes()) by { reveal_strlit("tile38_max_heap_size"); lemma_texts_differ("tile38_num_objects", "tile38_max_heap_size"); }
    assert("tile38_num_objects".spec_bytes() != "tile38_alloc_bytes".spec_bytes()) by {
        reveal_strlit("tile38_alloc_bytes");
        assert("tile38_num_objects"@[7] != "tile38_alloc_bytes"@[7]);
        lemma_texts_differ("tile38_num_objects", "tile38_alloc_bytes");
    }
    assert("tile38_num_objects".spec_bytes() != "tile38_num_collections".spec_bytes()) by { reveal_strlit("tile38_num_collections"); lemma_texts_differ("tile38_num_objects", "tile38_num_collections"); }
    assert("tile38_num_objects".spec_bytes() != "tile38_num_hooks".spec_bytes()) by { reveal_strlit("tile38_num_hooks"); lemma_texts_differ("tile38_num_objects", "tile38_num_hooks"); }
}

/// The field `tile38_num_points` is reported as the gauge `tile38_num_points_total` where part 4 of the table is read.
pub proof fn lemma_field_tile38_num_points()
    ensures
        table_part_4("tile38_num_points".spec_bytes()) == Some(
            GenericMetric { kind: Kind::Gauge, name: "tile38_num_points_total", description: "", micros: false },
        ),
{
    reveal_strlit("tile38_num_points");
    assert("tile38_num_points".spec_bytes() != "master_repl_offset".spec_bytes()) by { reveal_strlit("master_repl_offset"); lemma_texts_differ("tile38_num_points", "master_repl_offset"); }
    assert("tile38_num_points".spec_bytes() != "second_repl_offset".spec_bytes()) by { reveal_strlit("second_repl_offset"); lemma_texts_differ("tile38_num_points", "second_repl_offset"); }
    assert("tile38_num_points".spec_bytes() != "slave_expires_tracked_keys".spec_bytes()) by { reveal_strlit("slave_expires_tracked_keys"); lemma_texts_differ("tile38_num_points", "slave_expires_tracked_keys"); }
    assert("tile38_num_points".spec_bytes() != "slave_priority".spec_bytes()) by { reveal_strlit("slave_priority"); lemma_texts_differ("tile38_num_points", "slave_priority"); }
    assert("tile38_num_points".spec_bytes() != "sync_full".spec_bytes()) by { reveal_strlit("sync_full"); lemma_texts_differ("tile38_num_points", "sync_full"); }
    assert("tile38_num_points".spec_bytes() != "sync_partial_ok".spec_bytes()) by { reveal_strlit("sync_partial_ok"); lemma_texts_differ("tile38_num_points", "sync_partial_ok"); }
    assert("tile38_num_points".spec_bytes() != "sync_partial_err".spec_bytes()) by { reveal_strlit("sync_partial_err"); lemma_texts_differ("tile38_num_points", "sync_partial_err"); }
    assert("tile38_num_points".spec_bytes() != "cluster_enabled".spec_bytes()) by { reveal_strlit("cluster_enabled"); lemma_texts_differ("tile38_num_points", "cluster_enabled"); }
    assert("tile38_num_points".spec_bytes() != "cluster_stats_messages_sent".spec_bytes()) by { reveal_strlit("cluster_stats_messages_sent"); lemma_texts_differ("tile38_num_points", "cluster_stats_messages_sent"); }
    assert("tile38_num_points".spec_bytes() != "cluster_stats_messages_received".spec_bytes()) by { reveal_strlit("cluster_stats_messages_received"); lemma_texts_differ("tile38_num_points", "cluster_stats_messages_received"); }
    assert("tile38_num_points".spec_bytes() != "tile38_aof_size".spec_bytes()) by { reveal_strlit("tile38_aof_size"); lemma_texts_differ("tile38_num_points", "tile38_aof_size"); }
    assert("tile38_num_points".spec_bytes() != "tile38_avg_point_size".spec_bytes()) by { reveal_strlit("tile38_avg_point_size"); lemma_texts_differ("tile38_num_points", "tile38_avg_point_size"); }
    assert("tile38_num_points".spec_bytes() != "tile38_sys_cpus".spec_bytes()) by { reveal_strlit("tile38_sys_cpus"); lemma_texts_differ("tile38_num_points", "tile38_sys_cpus"); }
    assert("tile38_num_points".spec_bytes() != "tile38_heap_released_bytes".spec_bytes()) by { reveal_strlit("tile38_heap_released_bytes"); lemma_texts_differ("tile38_num_points", "tile38_heap_released_bytes"); }
    assert("tile38_num_points".spec_bytes() != "tile38_heap_alloc_bytes".spec_bytes()) by { reveal_strlit("tile38_heap_alloc_bytes"); lemma_texts_differ("tile38_num_points", "tile38_heap_alloc_bytes"); }
    assert("tile38_num_points".spec_bytes() != "tile38_http_transport".spec_bytes()) by { reveal_strlit("tile38_http_transport"); lemma_texts_differ("tile38_num_points", "tile38_http_transport"); }
    assert("tile38_num_points".spec_bytes() != "tile38_in_memory_size".spec_bytes()) by { reveal_strlit("tile38_in_memory_size"); lemma_texts_differ("tile38_num_points", "tile38_in_memory_size"); }
    assert("tile38_num_points".spec_bytes() != "tile38_max_heap_size".spec_bytes()) by { reveal_strlit("tile38_max_heap_size"); lemma_texts_differ("tile38_num_points", "tile38_max_heap_size"); }
    assert("tile38_num_points".spec_bytes() != "tile38_alloc_bytes".spec_bytes()) by { reveal_strlit("tile38_alloc_bytes"); lemma_texts_differ("tile38_num_points", "tile38_alloc_bytes"); }
    assert("tile38_num_points".spec_bytes() != "tile38_num_collections".spec_bytes()) by { reveal_strlit("tile38_num_collections"); lemma_texts_differ("tile38_num_points", "tile38_num_collections"); }
    assert("tile38_num_points".spec_bytes() != "tile38_num_hooks".spec_bytes()) by { reveal_strlit("tile38_num_hooks"); lemma_texts_differ("tile38_num_points", "tile38_num_hooks"); }
    assert("tile38_num_points".spec_bytes() != "tile38_num_objects".spec_bytes()) by { reveal_strlit("tile38_num_objects"); lemma_texts_differ("tile38_num_points", "tile38_num_objects"); }
}

/// The field `tile38_pointer_size` is reported as the gauge `tile38_pointer_size_bytes` where part 4 of the table is read.
pub proof fn lemma_field_tile38_pointer_size()
    ensures
        table_part_4("tile38_pointer_size".spec_bytes()) == Some(
            GenericMetric { kind: Kind::Gauge, name: "tile38_pointer_size_bytes", description: "", micros: false },
        ),
{
    reveal_strlit("tile38_pointer_size");
    assert("tile38_pointer_size".spec_bytes() != "master_repl_offset".spec_bytes()) by { reveal_strlit("master_repl_offset"); lemma_texts_differ("tile38_pointer_size", "master_repl_offset"); }
    assert("tile38_pointer_size".spec_bytes() != "second_repl_offset".spec_bytes()) by { reveal_strlit("second_repl_offset"); lemma_texts_differ("tile38_pointer_size", "second_repl_offset"); }
    assert("tile38_pointer_size".spec_bytes() != "slave_expires_tracked_keys".spec_bytes()) by { reveal_strlit("slave_expires_tracked_keys"); lemma_texts_differ("tile38_pointer_size", "slave_expires_tracked_keys"); }
    assert("tile38_pointer_size".spec_bytes() != "slave_priority".spec_bytes()) by { reveal_strlit("slave_priority"); lemma_texts_differ("tile38_pointer_size", "slave_priority"); }
    assert("tile38_pointer_size".spec_bytes() != "sync_full".spec_bytes()) by { reveal_strlit("sync_full"); lemma_texts_differ("tile38_pointer_size", "sync_full"); }
    assert("tile38_pointer_size".spec_bytes() != "sync_partial_ok".spec_bytes()) by { reveal_strlit("sync_partial_ok"); lemma_texts_differ("tile38_pointer_size", "sync_partial_ok"); }
    assert("tile38_pointer_size".spec_bytes() != "sync_partial_err".spec_bytes()) by { reveal_strlit("sync_partial_err"); lemma_texts_differ("tile38_pointer_size", "sync_partial_err"); }
    assert("tile38_pointer_size".spec_bytes() != "cluster_enabled".spec_bytes()) by { reveal_strlit("cluster_enabled"); lemma_texts_differ("tile38_pointer_size", "cluster_enabled"); }
    assert("tile38_pointer_size".spec_bytes() != "cluster_stats_messages_sent".spec_bytes()) by { reveal_strlit("cluster_stats_messages_sent"); lemma_texts_differ("tile38_pointer_size", "cluster_stats_messages_sent"); }
    assert("tile38_pointer_size".spec_bytes() != "cluster_stats_messages_received".spec_bytes()) by { reveal_strlit("cluster_stats_messages_received"); lemma_texts_differ("tile38_pointer_size", "cluster_stats_messages_received"); }
    assert("tile38_pointer_size".spec_bytes() != "tile38_aof_size".spec_bytes()) by { reveal_strlit("tile38_aof_size"); lemma_texts_differ("tile38_pointer_size", "tile38_aof_size"); }
    assert("tile38_pointer_size".spec_bytes() != "tile38_avg_point_size".spec_bytes()) by { reveal_strlit("tile38_avg_point_size"); lemma_texts_differ("tile38_pointer_size", "tile38_avg_point_size"); }
    assert("tile38_pointer_size".spec_bytes() != "tile38_sys_cpus".spec_bytes()) by { reveal_strlit("tile38_sys_cpus"); lemma_texts_differ("tile38_pointer_size", "tile38_sys_cpus"); }
    assert("tile38_pointer_size".spec_bytes() != "tile38_heap_released_bytes".spec_bytes()) by { reveal_strlit("tile38_heap_released_bytes"); lemma_texts_differ("tile38_pointer_size", "tile38_heap_released_bytes"); }
    assert("tile38_pointer_size".spec_bytes() != "tile38_heap_alloc_bytes".spec_bytes()) by { reveal_strlit("tile38_heap_alloc_bytes"); lemma_texts_differ("tile38_pointer_size", "tile38_heap_alloc_bytes"); }
    assert("tile38_pointer_size".spec_bytes() != "tile38_http_transport".spec_bytes()) by { reveal_strlit("tile38_http_transport"); lemma_texts_differ("tile38_pointer_size", "tile38_http_transport"); }
    assert("tile38_pointer_size".spec_bytes() != "tile38_in_memory_size".spec_bytes()) by { reveal_strlit("tile38_in_memory_size"); lemma_texts_differ("tile38_pointer_size", "tile38_in_memory_size"); }
    assert("tile38_pointer_size".spec_bytes() != "tile38_max_heap_size".spec_bytes()) by { reveal_strlit("tile38_max_heap_size"); lemma_texts_differ("tile38_pointer_size", "tile38_max_heap_size"); }
    assert("tile38_pointer_size".spec_bytes() != "tile38_alloc_bytes".spec_bytes()) by { reveal_strlit("tile38_alloc_bytes"); lemma_texts_differ("tile38_pointer_size", "tile38_alloc_bytes"); }
    assert("tile38_pointer_size".spec_bytes() != "tile38_num_collections".spec_bytes()) by { reveal_strlit("tile38_num_collections"); lemma_texts_differ("tile38_pointer_size", "tile38_num_collections"); }
    assert("tile38_pointer_size".spec_bytes() != "tile38_num_hooks".spec_bytes()) by { reveal_strlit("tile38_num_hooks"); lemma_texts_differ("tile38_pointer_size", "tile38_num_hooks"); }
    assert("tile38_pointer_size".spec_bytes() != "tile38_num_objects".spec_bytes()) by { reveal_strlit("tile38_num_objects"); lemma_texts_differ("tile38_pointer_size", "tile38_num_objects"); }
    assert("tile38_pointer_size".spec_bytes() != "tile38_num_points".spec_bytes()) by { reveal_strlit("tile38_num_points"); lemma_texts_differ("tile38_pointer_size", "tile38_num_points"); }
}

/// The field `tile38_read_only` is reported as the gauge `tile38_read_only` where part 4 of the table is read.
pub proof fn lemma_field_tile38_read_only()
    ensures
        table_part_4("tile38_read_only".spec_bytes()) == Some(
            GenericMetric { kind: Kind::Gauge, name: "tile38_read_only", description: "", micros: false },
        ),
{
    reveal_strlit("tile38_read_only");
    assert("tile38_read_only".spec_bytes() != "master_repl_offset".spec_bytes()) by { reveal_strlit("master_repl_offset"); lemma_texts_differ("tile38_read_only", "master_repl_offset"); }
    assert("tile38_read_only".spec_bytes() != "second_repl_offset".spec_bytes()) by { reveal_strlit("second_repl_offset"); lemma_texts_differ("tile38_read_only", "second_repl_offset"); }
    assert("tile38_read_only".spec_bytes() != "slave_expires_tracked_keys".spec_bytes()) by { reveal_strlit("slave_expires_tracked_keys"); lemma_texts_differ("tile38_read_only", "slave_expires_tracked_keys"); }
    assert("tile38_read_only".spec_bytes() != "slave_priority".spec_bytes()) by { reveal_strlit("slave_priority"); lemma_texts_differ("tile38_read_only", "slave_priority"); }
    assert("tile38_read_only".spec_bytes() != "sync_full".spec_bytes()) by { reveal_strlit("sync_full"); lemma_texts_differ("tile38_read_only", "sync_full"); }
    assert("tile38_read_only".spec_bytes() != "sync_partial_ok".spec_bytes()) by { reveal_strlit("sync_partial_ok"); lemma_texts_differ("tile38_read_only", "sync_partial_ok"); }
    assert("tile38_read_only".spec_bytes() != "sync_partial_err".spec_bytes()) by {
        reveal_strlit("sync_partial_err");
        assert("tile38_read_only"@[0] != "sync_partial_err"@[0]);
        lemma_texts_differ("tile38_read_only", "sync_partial_err");
    }
    assert("tile38_read_only".spec_bytes() != "cluster_enabled".spec_bytes()) by { reveal_strlit("cluster_enabled"); lemma_texts_differ("tile38_read_only", "cluster_enabled"); }
    assert("tile38_read_only".spec_bytes() != "cluster_stats_messages_sent".spec_bytes()) by { reveal_strlit("cluster_stats_messages_sent"); lemma_texts_differ("tile38_read_only", "cluster_stats_messages_sent"); }
    assert("tile38_read_only".spec_bytes() != "cluster_stats_messages_received".spec_bytes()) by { reveal_strlit("cluster_stats_messages_received"); lemma_texts_differ("tile38_read_only", "cluster_stats_messages_received"); }
    assert("tile38_read_only".spec_bytes() != "tile38_aof_size".spec_bytes()) by { reveal_strlit("tile38_aof_size"); lemma_texts_differ("tile38_read_only", "tile38_aof_size"); }
    assert("tile38_read_only".spec_bytes() != "tile38_avg_point_size".spec_bytes()) by { reveal_strlit("tile38_avg_point_size"); lemma_texts_differ("tile38_read_only", "tile38_avg_point_size"); }
    assert("tile38_read_only".spec_bytes() != "tile38_sys_cpus".spec_bytes()) by { reveal_strlit("tile38_sys_cpus"); lemma_texts_differ("tile38_read_only", "tile38_sys_cpus"); }
    assert("tile38_read_only".spec_bytes() != "tile38_heap_released_bytes".spec_bytes()) by { reveal_strlit("tile38_heap_released_bytes"); lemma_texts_differ("tile38_read_only", "tile38_heap_released_bytes"); }
    assert("tile38_read_only".spec_bytes() != "tile38_heap_alloc_bytes".spec_bytes()) by { reveal_strlit("tile38_heap_alloc_bytes"); lemma_texts_differ("tile38_read_only", "tile38_heap_alloc_bytes"); }
    assert("tile38_read_only".spec_bytes() != "tile38_http_transport".spec_bytes()) by { reveal_strlit("tile38_http_transport"); lemma_texts_differ("tile38_read_only", "tile38_http_transport"); }
    assert("tile38_read_only".spec_bytes() != "tile38_in_memory_size".spec_bytes()) by { reveal_strlit("tile38_in_memory_size"); lemma_texts_differ("tile38_read_only", "tile38_in_memory_size"); }
    assert("tile38_read_only".spec_bytes() != "tile38_max_heap_size".spec_bytes()) by { reveal_strlit("tile38_max_heap_size"); lemma_texts_differ("tile38_read_only", "tile38_max_heap_size"); }
    assert("tile38_read_only".spec_bytes() != "tile38_alloc_bytes".spec_bytes()) by { reveal_strlit("tile38_alloc_bytes"); lemma_texts_differ("tile38_read_only", "tile38_alloc_bytes"); }
    assert("tile38_read_only".spec_bytes() != "tile38_num_collections".spec_bytes()) by { reveal_strlit("tile38_num_collections"); lemma_texts_differ("tile38_read_only", "tile38_num_collections"); }
    assert("tile38_read_only".spec_bytes() != "tile38_num_hooks".spec_bytes()) by {
        reveal_strlit("tile38_num_hooks");
        assert("tile38_read_only"@[7] != "tile38_num_hooks"@[7]);
        lemma_texts_differ("tile38_read_only", "tile38_num_hooks");
    }
    assert("tile38_read_only".spec_bytes() != "tile38_num_objects".spec_bytes()) by { reveal_strlit("tile38_num_objects"); lemma_texts_differ("tile38_read_only", "tile38_num_objects"); }
    assert("tile38_read_only".spec_bytes() != "tile38_num_points".spec_bytes()) by { reveal_strlit("tile38_num_points"); lemma_texts_differ("tile38_read_only", "tile38_num_points"); }
    assert("tile38_read_only".spec_bytes() != "tile38_pointer_size".spec_bytes()) by { reveal_strlit("tile38_pointer_size"); lemma_texts_differ("tile38_read_only", "tile38_pointer_size"); }
}

/// The field `tile38_go_threads` is reported as the gauge `tile38_threads_total` where part 4 of the table is read.
pub proof fn lemma_field_tile38_go_threads()
    ensures
        table_part_4("tile38_go_threads".spec_bytes()) == Some(
            GenericMetric { kind: Kind::Gauge, name: "tile38_threads_total", description: "", micros: false },
        ),
{
    reveal_strlit("tile38_go_threads");
    assert("tile38_go_threads".spec_bytes() != "master_repl_offset".spec_bytes()) by { reveal_strlit("master_repl_offset"); lemma_texts_differ("tile38_go_threads", "master_repl_offset"); }
    assert("tile38_go_threads".spec_bytes() != "second_repl_offset".spec_bytes()) by { reveal_strlit("second_repl_offset"); lemma_texts_differ("tile38_go_threads", "second_repl_offset"); }
    assert("tile38_go_threads".spec_bytes() != "slave_expires_tracked_keys".spec_bytes()) by { reveal_strlit("slave_expires_tracked_keys"); lemma_texts_differ("tile38_go_threads", "slave_expires_tracked_keys"); }
    assert("tile38_go_threads".spec_bytes() != "slave_priority".spec_bytes()) by { reveal_strlit("slave_priority"); lemma_texts_differ("tile38_go_threads", "slave_priority"); }
    assert("tile38_go_threads".spec_bytes() != "sync_full".spec_bytes()) by { reveal_strlit("sync_full"); lemma_texts_differ("tile38_go_threads", "sync_full"); }
    assert("tile38_go_threads".spec_bytes() != "sync_partial_ok".spec_bytes()) by { reveal_strlit("sync_partial_ok"); lemma_texts_differ("tile38_go_threads", "sync_partial_ok"); }
    assert("tile38_go_threads".spec_bytes() != "sync_partial_err".spec_bytes()) by { reveal_strlit("sync_partial_err"); lemma_texts_differ("tile38_go_threads", "sync_partial_err"); }
    assert("tile38_go_threads".spec_bytes() != "cluster_enabled".spec_bytes()) by { reveal_strlit("cluster_enabled"); lemma_texts_differ("tile38_go_threads", "cluster_enabled"); }
    assert("tile38_go_threads".spec_bytes() != "cluster_stats_messages_sent".spec_bytes()) by { reveal_strlit("cluster_stats_messages_sent"); lemma_texts_differ("tile38_go_threads", "cluster_stats_messages_sent"); }
    assert("tile38_go_threads".spec_bytes() != "cluster_stats_messages_received".spec_bytes()) by { reveal_strlit("cluster_stats_messages_received"); lemma_texts_differ("tile38_go_threads", "cluster_stats_messages_received"); }
    assert("tile38_go_threads".spec_bytes() != "tile38_aof_size".spec_bytes()) by { reveal_strlit("tile38_aof_size"); lemma_texts_differ("tile38_go_threads", "tile38_aof_size"); }
    assert("tile38_go_threads".spec_bytes() != "tile38_avg_point_size".spec_bytes()) by { reveal_strlit("tile38_avg_point_size"); lemma_texts_differ("tile38_go_threads", "tile38_avg_point_size"); }
    assert("tile38_go_threads".spec_bytes() != "tile38_sys_cpus".spec_bytes()) by { reveal_strlit("tile38_sys_cpus"); lemma_texts_differ("tile38_go_threads", "tile38_sys_cpus"); }
    assert("tile38_go_threads".spec_bytes() != "tile38_heap_released_bytes".spec_bytes()) by { reveal_strlit("tile38_heap_released_bytes"); lemma_texts_differ("tile38_go_threads", "tile38_heap_released_bytes"); }
    assert("tile38_go_threads".spec_bytes() != "tile38_heap_alloc_bytes".spec_bytes()) by { reveal_strlit("tile38_heap_alloc_bytes"); lemma_texts_differ("tile38_go_threads", "tile38_heap_alloc_bytes"); }
    assert("tile38_go_threads".spec_bytes() != "tile38_http_transport".spec_bytes()) by { reveal_strlit("tile38_http_transport"); lemma_texts_differ("tile38_go_threads", "tile38_http_transport"); }
    assert("tile38_go_threads".spec_bytes() != "tile38_in_memory_size".spec_bytes()) by { reveal_strlit("tile38_in_memory_size"); lemma_texts_differ("tile38_go_threads", "tile38_in_memory_size"); }
    assert("tile38_go_threads".spec_bytes() != "tile38_max_heap_size".spec_bytes()) by { reveal_strlit("tile38_max_heap_size"); lemma_texts_differ("tile38_go_threads", "tile38_max_heap_size"); }
    assert("tile38_go_threads".spec_bytes() != "tile38_alloc_bytes".spec_bytes()) by { reveal_strlit("tile38_alloc_bytes"); lemma_texts_differ("tile38_go_threads", "tile38_alloc_bytes"); }
    assert("tile38_go_threads".spec_bytes() != "tile38_num_collections".spec_bytes()) by { reveal_strlit("tile38_num_collections"); lemma_texts_differ("tile38_go_threads", "tile38_num_collections"); }
    assert("tile38_go_threads".spec_bytes() != "tile38_num_hooks".spec_bytes()) by { reveal_strlit("tile38_num_hooks"); lemma_texts_differ("tile38_go_threads", "tile38_num_hooks"); }
    assert("tile38_go_threads".spec_bytes() != "tile38_num_objects".spec_bytes()) by { reveal_strlit("tile38_num_objects"); lemma_texts_differ("tile38_go_threads", "tile38_num_objects"); }
    assert("tile38_go_threads".spec_bytes() != "tile38_num_points".spec_bytes()) by {
        reveal_strlit("tile38_num_points");
        assert("tile38_go_threads"@[7] != "tile38_num_points"@[7]);
        lemma_texts_differ("tile38_go_threads", "tile38_num_points");
    }
    assert("tile38_go_threads".spec_bytes() != "tile38_pointer_size".spec_bytes()) by { reveal_strlit("tile38_pointer_size"); lemma_texts_differ("tile38_go_threads", "tile38_pointer_size"); }
    assert("tile38_go_threads".spec_bytes() != "tile38_read_only".spec_bytes()) by { reveal_strlit("tile38_read_only"); lemma_texts_differ("tile38_go_threads", "tile38_read_only"); }
}

/// The field `tile38_go_goroutines` is reported as the gauge `tile38_go_goroutines_total` where part 4 of the table is read.
pub proof fn lemma_field_tile38_go_goroutines()
    ensures
        table_part_4("tile38_go_goroutines".spec_bytes()) == Some(
            GenericMetric { kind: Kind::Gauge, name: "tile38_go_goroutines_total", description: "", micros: false },
        ),
{
    reveal_strlit("tile38_go_goroutines");
    assert("tile38_go_goroutines".spec_bytes() != "master_repl_offset".spec_bytes()) by { reveal_strlit("master_repl_offset"); lemma_texts_differ("tile38_go_goroutines", "master_repl_offset"); }
    assert("tile38_go_goroutines".spec_bytes() != "second_repl_offset".spec_bytes()) by { reveal_strlit("second_repl_offset"); lemma_texts_differ("tile38_go_goroutines", "second_repl_offset"); }
    assert("tile38_go_goroutines".spec_bytes() != "slave_expires_tracked_keys".spec_bytes()) by { reveal_strlit("slave_expires_tracked_keys"); lemma_texts_differ("tile38_go_goroutines", "slave_expires_tracked_keys"); }
    assert("tile38_go_goroutines".spec_bytes() != "slave_priority".spec_bytes()) by { reveal_strlit("slave_priority"); lemma_texts_differ("tile38_go_goroutines", "slave_priority"); }
    assert("tile38_go_goroutines".spec_bytes() != "sync_full".spec_bytes()) by { reveal_strlit("sync_full"); lemma_texts_differ("tile38_go_goroutines", "sync_full"); }
    assert("tile38_go_goroutines".spec_bytes() != "sync_partial_ok".spec_bytes()) by { reveal_strlit("sync_partial_ok"); lemma_texts_differ("tile38_go_goroutines", "sync_partial_ok"); }
    assert("tile38_go_goroutines".spec_bytes() != "sync_partial_err".spec_bytes()) by { reveal_strlit("sync_partial_err"); lemma_texts_differ("tile38_go_goroutines", "sync_partial_err"); }
    assert("tile38_go_goroutines".spec_bytes() != "cluster_enabled".spec_bytes()) by { reveal_strlit("cluster_enabled"); lemma_texts_differ("tile38_go_goroutines", "cluster_enabled"); }
    assert("tile38_go_goroutines".spec_bytes() != "cluster_stats_messages_sent".spec_bytes()) by { reveal_strlit("cluster_stats_messages_sent"); lemma_texts_differ("tile38_go_goroutines", "cluster_stats_messages_sent"); }
    assert("tile38_go_goroutines".spec_bytes() != "cluster_stats_messages_received".spec_bytes()) by { reveal_strlit("cluster_stats_messages_received"); lemma_texts_differ("tile38_go_goroutines", "cluster_stats_messages_received"); }
    assert("tile38_go_goroutines".spec_bytes() != "tile38_aof_size".spec_bytes()) by { reveal_strlit("tile38_aof_size"); lemma_texts_differ("tile38_go_goroutines", "tile38_aof_size"); }
    assert("tile38_go_goroutines".spec_bytes() != "tile38_avg_point_size".spec_bytes()) by { reveal_strlit("tile38_avg_point_size"); lemma_texts_differ("tile38_go_goroutines", "tile38_avg_point_size"); }
    assert("tile38_go_goroutines".spec_bytes() != "tile38_sys_cpus".spec_bytes()) by { reveal_strlit("tile38_sys_cpus"); lemma_texts_differ("tile38_go_goroutines", "tile38_sys_cpus"); }
    assert("tile38_go_goroutines".spec_bytes() != "tile38_heap_released_bytes".spec_bytes()) by { reveal_strlit("tile38_heap_released_bytes"); lemma_texts_differ("tile38_go_goroutines", "tile38_heap_released_bytes"); }
    assert("tile38_go_goroutines".spec_bytes() != "tile38_heap_alloc_bytes".spec_bytes()) by { reveal_strlit("tile38_heap_alloc_bytes"); lemma_texts_differ("tile38_go_goroutines", "tile38_heap_alloc_bytes"); }
    assert("tile38_go_goroutines".spec_bytes() != "tile38_http_transport".spec_bytes()) by { reveal_strlit("tile38_http_transport"); lemma_texts_differ("tile38_go_goroutines", "tile38_http_transport"); }
    assert("tile38_go_goroutines".spec_bytes() != "tile38_in_memory_size".spec_bytes()) by { reveal_strlit("tile38_in_memory_size"); lemma_texts_differ("tile38_go_goroutines", "tile38_in_memory_size"); }
    assert("tile38_go_goroutines".spec_bytes() != "tile38_max_heap_size".spec_bytes()) by {
        reveal_strlit("tile38_max_heap_size");
        assert("tile38_go_goroutines"@[7] != "tile38_max_heap_size"@[7]);
        lemma_texts_differ("tile38_go_goroutines", "tile38_max_heap_size");
    }
    assert("tile38_go_goroutines".spec_bytes() != "tile38_alloc_bytes".spec_bytes()) by { reveal_strlit("tile38_alloc_bytes"); lemma_texts_differ("tile38_go_goroutines", "tile38_alloc_bytes"); }
    assert("tile38_go_goroutines".spec_bytes() != "tile38_num_collections".spec_bytes()) by { reveal_strlit("tile38_num_collections"); lemma_texts_differ("tile38_go_goroutines", "tile38_num_collections"); }
    assert("tile38_go_goroutines".spec_bytes() != "tile38_num_hooks".spec_bytes()) by { reveal_strlit("tile38_num_hooks"); lemma_texts_differ("tile38_go_goroutines", "tile38_num_hooks"); }
    assert("tile38_go_goroutines".spec_bytes() != "tile38_num_objects".spec_bytes()) by { reveal_strlit("tile38_num_objects"); lemma_texts_differ("tile38_go_goroutines", "tile38_num_objects"); }
    assert("tile38_go_goroutines".spec_bytes() != "tile38_num_points".spec_bytes()) by { reveal_strlit("tile38_num_points"); lemma_texts_differ("tile38_go_goroutines", "tile38_num_points"); }
    assert("tile38_go_goroutines".spec_bytes() != "tile38_pointer_size".spec_bytes()) by { reveal_strlit("tile38_pointer_size"); lemma_texts_differ("tile38_go_goroutines", "tile38_pointer_size"); }
    assert("tile38_go_goroutines".spec_bytes() != "tile38_read_only".spec_bytes()) by { reveal_strlit("tile38_read_only"); lemma_texts_differ("tile38_go_goroutines", "tile38_read_only"); }
    assert("tile38_go_goroutines".spec_bytes() != "tile38_go_threads".spec_bytes()) by { reveal_strlit("tile38_go_threads"); lemma_texts_differ("tile38_go_goroutines", "tile38_go_threads"); }
}

/// The field `tile38_last_gc_time_seconds` is reported as the gauge `tile38_last_gc_time_seconds` where part 5 of the table is read.
pub proof fn lemma_field_tile38_last_gc_time_seconds()
    ensures
        table_part_5("tile38_last_gc_time_seconds".spec_bytes()) == Some(
            GenericMetric { kind: Kind::Gauge, name: "tile38_last_gc_time_seconds", description: "", micros: false },
        ),
{

}

/// The field `tile38_next_gc_bytes` is reported as the gauge `tile38_next_gc_bytes` where part 5 of the table is read.
pub proof fn lemma_field_tile38_next_gc_bytes()
    ensures
        table_part_5("tile38_next_gc_bytes".spec_bytes()) == Some(
            GenericMetric { kind: Kind::Gauge, name: "tile38_next_gc_bytes", description: "", micros: false },
        ),
{
    reveal_strlit("tile38_next_gc_bytes");
    assert("tile38_next_gc_bytes".spec_bytes() != "tile38_last_gc_time_seconds".spec_bytes()) by { reveal_strlit("tile38_last_gc_time_seconds"); lemma_texts_differ("tile38_next_gc_bytes", "tile38_last_gc_time_seconds"); }
}

/// The field `server_threads` is reported as the gauge `server_threads_total` where part 5 of the table is read.
pub proof fn lemma_field_server_threads()
    ensures
        table_part_5("server_threads".spec_bytes()) == Some(
            GenericMetric { kind: Kind::Gauge, name: "server_threads_total", description: "", micros: false },
        ),
{
    reveal_strlit("server_threads");
    assert("server_threads".spec_bytes() != "tile38_last_gc_time_seconds".spec_bytes()) by { reveal_strlit("tile38_last_gc_time_seconds"); lemma_texts_differ("server_threads", "tile38_last_gc_time_seconds"); }
    assert("server_threads".spec_bytes() != "tile38_next_gc_bytes".spec_bytes()) by { reveal_strlit("tile38_next_gc_bytes"); lemma_texts_differ("server_threads", "tile38_next_gc_bytes"); }
}

/// The field `long_lock_waits` is reported as the gauge `long_lock_waits_total` where part 5 of the table is read.
pub proof fn lemma_field_long_lock_waits()
    ensures
        table_part_5("long_lock_waits".spec_bytes()) == Some(
            GenericMetric { kind: Kind::Gauge, name: "long_lock_waits_total", description: "", micros: false },
        ),
{
    reveal_strlit("long_lock_waits");
    assert("long_lock_waits".spec_bytes() != "tile38_last_gc_time_seconds".spec_bytes()) by { reveal_strlit("tile38_last_gc_time_seconds"); lemma_texts_differ("long_lock_waits", "tile38_last_gc_time_seconds"); }
    assert("long_lock_waits".spec_bytes() != "tile38_next_gc_bytes".spec_bytes()) by { reveal_strlit("tile38_next_gc_bytes"); lemma_texts_differ("long_lock_waits", "tile38_next_gc_bytes"); }
    assert("long_lock_waits".spec_bytes() != "server_threads".spec_bytes()) by { reveal_strlit("server_threads"); lemma_texts_differ("long_lock_waits", "server_threads"); }
}

/// The field `current_client_thread` is reported as the gauge `current_client_thread` where part 5 of the table is read.
pub proof fn lemma_field_current_client_thread()
    ensures
        table_part_5("current_client_thread".spec_bytes()) == Some(
            GenericMetric { kind: Kind::Gauge, name: "current_client_thread", description: "", micros: false },
        ),
{
    reveal_strlit("current_client_thread");
    assert("current_client_thread".spec_bytes() != "tile38_last_gc_time_seconds".spec_bytes()) by { reveal_strlit("tile38_last_gc_time_seconds"); lemma_texts_differ("current_client_thread", "tile38_last_gc_time_seconds"); }
    assert("current_client_thread".spec_bytes() != "tile38_next_gc_bytes".spec_bytes()) by { reveal_strlit("tile38_next_gc_bytes"); lemma_texts_differ("current_client_thread", "tile38_next_gc_bytes"); }
    assert("current_client_thread".spec_bytes() != "server_threads".spec_bytes()) by { reveal_strlit("server_threads"); lemma_texts_differ("current_client_thread", "server_threads"); }
    assert("current_client_thread".spec_bytes() != "long_lock_waits".spec_bytes()) by { reveal_strlit("long_lock_waits"); lemma_texts_differ("current_client_thread", "long_lock_waits"); }
}

/// The field `search_number_of_indexes` is reported as the gauge `search_number_of_indexes` where part 5 of the table is read.
pub proof fn lemma_field_search_number_of_indexes()
    ensures
        table_part_5("search_number_of_indexes".spec_bytes()) == Some(
            GenericMetric { kind: Kind::Gauge, name: "search_number_of_indexes", description: "The total number of indexes in the shard", micros: false },
        ),
{
    reveal_strlit("search_number_of_indexes");
    assert("search_number_of_indexes".spec_bytes() != "tile38_last_gc_time_seconds".spec_bytes()) by { reveal_strlit("tile38_last_gc_time_seconds"); lemma_texts_differ("search_number_of_indexes", "tile38_last_gc_time_seconds"); }
    assert("search_number_of_indexes".spec_bytes() != "tile38_next_gc_bytes".spec_bytes()) by { reveal_strlit("tile38_next_gc_bytes"); lemma_texts_differ("search_number_of_indexes", "tile38_next_gc_bytes"); }
    assert("search_number_of_indexes".spec_bytes() != "server_threads".spec_bytes()) by { reveal_strlit("server_threads"); lemma_texts_differ("search_number_of_indexes", "server_threads"); }
    assert("search_number_of_indexes".spec_bytes() != "long_lock_waits".spec_bytes()) by { reveal_strlit("long_lock_waits"); lemma_texts_differ("search_number_of_indexes", "long_lock_waits"); }
    assert("search_number_of_indexes".spec_bytes() != "current_client_thread".spec_bytes()) by { reveal_strlit("current_client_thread"); lemma_texts_differ("search_number_of_indexes", "current_client_thread"); }
}

/// The field `search_used_memory_indexes` is reported as the gauge `search_used_memory_indexes_bytes` where part 5 of the table is read.
pub proof fn lemma_field_search_used_memory_indexes()
    ensures
        table_part_5("search_used_memory_indexes".spec_bytes()) == Some(
            GenericMetric { kind: Kind::Gauge, name: "search_used_memory_indexes_bytes", description: "The total memory allocated by all indexes in the shard in bytes", micros: false },
        ),
{
    reveal_strlit("search_used_memory_indexes");
    assert("search_used_memory_indexes".spec_bytes() != "tile38_last_gc_time_seconds".spec_bytes()) by { reveal_strlit("tile38_last_gc_time_seconds"); lemma_texts_differ("search_used_memory_indexes", "tile38_last_gc_time_seconds"); }
    assert("search_used_memory_indexes".spec_bytes() != "tile38_next_gc_bytes".spec_bytes()) by { reveal_strlit("tile38_next_gc_bytes"); lemma_texts_differ("search_used_memory_indexes", "tile38_next_gc_bytes"); }
    assert("search_used_memory_indexes".spec_bytes() != "server_threads".spec_bytes()) by { reveal_strlit("server_threads"); lemma_texts_differ("search_used_memory_indexes", "server_threads"); }
    assert("search_used_memory_indexes".spec_bytes() != "long_lock_waits".spec_bytes()) by { reveal_strlit("long_lock_waits"); lemma_texts_differ("search_used_memory_indexes", "long_lock_waits"); }
    assert("search_used_memory_indexes".spec_bytes() != "current_client_thread".spec_bytes()) by { reveal_strlit("current_client_thread"); lemma_texts_differ("search_used_memory_indexes", "current_client_thread"); }
    assert("search_used_memory_indexes".spec_bytes() != "search_number_of_indexes".spec_bytes()) by { reveal_strlit("search_number_of_indexes"); lemma_texts_differ("search_used_memory_indexes", "search_number_of_indexes"); }
}

/// The field `search_global_idle` is reported as the gauge `search_global_idle` where part 5 of the table is read.
pub proof fn lemma_field_search_global_idle()
    ensures
        table_part_5("search_global_idle".spec_bytes()) == Some(
            GenericMetric { kind: Kind::Gauge, name: "search_global_idle", description: "The total number of user and internal cursors currently holding pending results in the shard", micros: false },
        ),
{
    reveal_strlit("search_global_idle");
    assert("search_global_idle".spec_bytes() != "tile38_last_gc_time_seconds".spec_bytes()) by { reveal_strlit("tile38_last_gc_time_seconds"); lemma_texts_differ("search_global_idle", "tile38_last_gc_time_seconds"); }
    assert("search_global_idle".spec_bytes() != "tile38_next_gc_bytes".spec_bytes()) by { reveal_strlit("tile38_next_gc_bytes"); lemma_texts_differ("search_global_idle", "tile38_next_gc_bytes"); }
    assert("search_global_idle".spec_bytes() != "server_threads".spec_bytes()) by { reveal_strlit("server_threads"); lemma_texts_differ("search_global_idle", "server_threads"); }
    assert("search_global_idle".spec_bytes() != "long_lock_waits".spec_bytes()) by { reveal_strlit("long_lock_waits"); lemma_texts_differ("search_global_idle", "long_lock_waits"); }
    assert("search_global_idle".spec_bytes() != "current_client_thread".spec_bytes()) by { reveal_strlit("current_client_thread"); lemma_texts_differ("search_global_idle", "current_client_thread"); }
    assert("search_global_idle".spec_bytes() != "search_number_of_indexes".spec_bytes()) by { reveal_strlit("search_number_of_indexes"); lemma_texts_differ("search_global_idle", "search_number_of_indexes"); }
    assert("search_global_idle".spec_bytes() != "search_used_memory_indexes".spec_bytes()) by { reveal_strlit("search_used_memory_indexes"); lemma_texts_differ("search_global_idle", "search_used_memory_indexes"); }
}

/// The field `search_global_total` is reported as the gauge `search_global_total` where part 5 of the table is read.
pub proof fn lemma_field_search_global_total()
    ensures
        table_part_5("search_global_total".spec_bytes()) == Some(
            GenericMetric { kind: Kind::Gauge, name: "search_global_total", description: "The total number of user and internal cursors in the shard, either holding pending results or actively executing FT.CURSOR READ", micros: false },
        ),
{
    reveal_strlit("search_global_total");
    assert("search_global_total".spec_bytes() != "tile38_last_gc_time_seconds".spec_bytes()) by { reveal_strlit("tile38_last_gc_time_seconds"); lemma_texts_differ("search_global_total", "tile38_last_gc_time_seconds"); }
    assert("search_global_total".spec_bytes() != "tile38_next_gc_bytes".spec_bytes()) by { reveal_strlit("tile38_next_gc_bytes"); lemma_texts_differ("search_global_total", "tile38_next_gc_bytes"); }
    assert("search_global_total".spec_bytes() != "server_threads".spec_bytes()) by { reveal_strlit("server_threads"); lemma_texts_differ("search_global_total", "server_threads"); }
    assert("search_global_total".spec_bytes() != "long_lock_waits".spec_bytes()) by { reveal_strlit("long_lock_waits"); lemma_texts_differ("search_global_total", "long_lock_waits"); }
    assert("search_global_total".spec_bytes() != "current_client_thread".spec_bytes()) by { reveal_strlit("current_client_thread"); lemma_texts_differ("search_global_total", "current_client_thread"); }
    assert("search_global_total".spec_bytes() != "search_number_of_indexes".spec_bytes()) by { reveal_strlit("search_number_of_indexes"); lemma_texts_differ("search_global_total", "search_number_of_indexes"); }
    assert("search_global_total".spec_bytes() != "search_used_memory_indexes".spec_bytes()) by { reveal_strlit("search_used_memory_indexes"); lemma_texts_differ("search_global_total", "search_used_memory_indexes"); }
    assert("search_global_total".spec_bytes() != "search_global_idle".spec_bytes()) by { reveal_strlit("search_global_idle"); lemma_texts_differ("search_global_total", "search_global_idle"); }
}

/// The field `search_bytes_collected` is reported as the gauge `search_collected_bytes` where part 5 of the table is read.
pub proof fn lemma_field_search_bytes_collected()
    ensures
        table_part_5("search_bytes_collected".spec_bytes()) == Some(
            GenericMetric { kind: Kind::Gauge, name: "search_collected_bytes", description: "The total amount of memory freed by the garbage collectors from indexes in the shard memory in bytes", micros: false },
        ),
{
    reveal_strlit("search_bytes_collected");
    assert("search_bytes_collected".spec_bytes() != "tile38_last_gc_time_seconds".spec_bytes()) by { reveal_strlit("tile38_last_gc_time_seconds"); lemma_texts_differ("search_bytes_collected", "tile38_last_gc_time_seconds"); }
    assert("search_bytes_collected".spec_bytes() != "tile38_next_gc_bytes".spec_bytes()) by { reveal_strlit("tile38_next_gc_bytes"); lemma_texts_differ("search_bytes_collected", "tile38_next_gc_bytes"); }
    assert("search_bytes_collected".spec_bytes() != "server_threads".spec_bytes()) by { reveal_strlit("server_threads"); lemma_texts_differ("search_bytes_collected", "server_threads"); }
    assert("search_bytes_collected".spec_bytes() != "long_lock_waits".spec_bytes()) by { reveal_strlit("long_lock_waits"); lemma_texts_differ("search_bytes_collected", "long_lock_waits"); }
    assert("search_bytes_collected".spec_bytes() != "current_client_thread".spec_bytes()) by { reveal_strlit("current_client_thread"); lemma_texts_differ("search_bytes_collected", "current_client_thread"); }
    assert("search_bytes_collected".spec_bytes() != "search_number_of_indexes".spec_bytes()) by { reveal_strlit("search_number_of_indexes"); lemma_texts_differ("search_bytes_collected", "search_number_of_indexes"); }
    assert("search_bytes_collected".spec_bytes() != "search_used_memory_indexes".spec_bytes()) by { reveal_strlit("search_used_memory_indexes"); lemma_texts_differ("search_bytes_collected", "search_used_memory_indexes"); }
    assert("search_bytes_collected".spec_bytes() != "search_global_idle".spec_bytes()) by { reveal_strlit("search_global_idle"); lemma_texts_differ("search_bytes_collected", "search_global_idle"); }
    assert("search_bytes_collected".spec_bytes() != "search_global_total".spec_bytes()) by { reveal_strlit("search_global_total"); lemma_texts_differ("search_bytes_collected", "search_global_total"); }
}

/// The field `search_dialect_1` is reported as the gauge `search_dialect_1` where part 5 of the table is read.
pub proof fn lemma_field_search_dialect_1()
    ensures
        table_part_5("search_dialect_1".spec_bytes()) == Some(
            GenericMetric { kind: Kind::Gauge, name: "search_dialect_1", description: "", micros: false },
        ),
{
    reveal_strlit("search_dialect_1");
    assert("search_dialect_1".spec_bytes() != "tile38_last_gc_time_seconds".spec_bytes()) by { reveal_strlit("tile38_last_gc_time_seconds"); lemma_texts_differ("search_dialect_1", "tile38_last_gc_time_seconds"); }
    assert("search_dialect_1".spec_bytes() != "tile38_next_gc_bytes".spec_bytes()) by { reveal_strlit("tile38_next_gc_bytes"); lemma_texts_differ("search_dialect_1", "tile38_next_gc_bytes"); }
    assert("search_dialect_1".spec_bytes() != "server_threads".spec_bytes()) by { reveal_strlit("server_threads"); lemma_texts_differ("search_dialect_1", "server_threads"); }
    assert("search_dialect_1".spec_bytes() != "long_lock_waits".spec_bytes()) by { reveal_strlit("long_lock_waits"); lemma_texts_differ("search_dialect_1", "long_lock_waits"); }
    assert("search_dialect_1".spec_bytes() != "current_client_thread".spec_bytes()) by { reveal_strlit("current_client_thread"); lemma_texts_differ("search_dialect_1", "current_client_thread"); }
    assert("search_dialect_1".spec_bytes() != "search_number_of_indexes".spec_bytes()) by { reveal_strlit("search_number_of_indexes"); lemma_texts_differ("search_dialect_1", "search_number_of_indexes"); }
    assert("search_dialect_1".spec_bytes() != "search_used_memory_indexes".spec_bytes()) by { reveal_strlit("search_used_memory_indexes"); lemma_texts_differ("search_dialect_1", "search_used_memory_indexes"); }
    assert("search_dialect_1".spec_bytes() != "search_global_idle".spec_bytes()) by { reveal_strlit("search_global_idle"); lemma_texts_differ("search_dialect_1", "search_global_idle"); }
    assert("search_dialect_1".spec_bytes() != "search_global_total".spec_bytes()) by { reveal_strlit("search_global_total"); lemma_texts_differ("search_dialect_1", "search_global_total"); }
    assert("search_dialect_1".spec_bytes() != "search_bytes_collected".spec_bytes()) by { reveal_strlit("search_bytes_collected"); lemma_texts_differ("search_dialect_1", "search_bytes_collected"); }
}

/// The field `search_dialect_2` is reported as the gauge `search_dialect_2` where part 5 of the table is read.
pub proof fn lemma_field_search_dialect_2()
    ensures
        table_part_5("search_dialect_2".spec_bytes()) == Some(
            GenericMetric { kind: Kind::Gauge, name: "search_dialect_2", description: "", micros: false },
        ),
{
    reveal_strlit("search_dialect_2");
    assert("search_dialect_2".spec_bytes() != "tile38_last_gc_time_seconds".spec_bytes()) by { reveal_strlit("tile38_last_gc_time_seconds"); lemma_texts_differ("search_dialect_2", "tile38_last_gc_time_seconds"); }
    assert("search_dialect_2".spec_bytes() != "tile38_next_gc_bytes".spec_bytes()) by { reveal_strlit("tile38_next_gc_bytes"); lemma_texts_differ("search_dialect_2", "tile38_next_gc_bytes"); }
    assert("search_dialect_2".spec_bytes() != "server_threads".spec_bytes()) by { reveal_strlit("server_threads"); lemma_texts_differ("search_dialect_2", "server_threads"); }
    assert("search_dialect_2".spec_bytes() != "long_lock_waits".spec_bytes()) by { reveal_strlit("long_lock_waits"); lemma_texts_differ("search_dialect_2", "long_lock_waits"); }
    assert("search_dialect_2".spec_bytes() != "current_client_thread".spec_bytes()) by { reveal_strlit("current_client_thread"); lemma_texts_differ("search_dialect_2", "current_client_thread"); }
    assert("search_dialect_2".spec_bytes() != "search_number_of_indexes".spec_bytes()) by { reveal_strlit("search_number_of_indexes"); lemma_texts_differ("search_dialect_2", "search_number_of_indexes"); }
    assert("search_dialect_2".spec_bytes() != "search_used_memory_indexes".spec_bytes()) by { reveal_strlit("search_used_memory_indexes"); lemma_texts_differ("search_dialect_2", "search_used_memory_indexes"); }
    assert("search_dialect_2".spec_bytes() != "search_global_idle".spec_bytes()) by { reveal_strlit("search_global_idle"); lemma_texts_differ("search_dialect_2", "search_global_idle"); }
    assert("search_dialect_2".spec_bytes() != "search_global_total".spec_bytes()) by { reveal_strlit("search_global_total"); lemma_texts_differ("search_dialect_2", "search_global_total"); }
    assert("search_dialect_2".spec_bytes() != "search_bytes_collected".spec_bytes()) by { reveal_strlit("search_bytes_collected"); lemma_texts_differ("search_dialect_2", "search_bytes_collected"); }
    assert("search_dialect_2".spec_bytes() != "search_dialect_1".spec_bytes()) by {
        reveal_strlit("search_dialect_1");
        assert("search_dialect_2"@[15] != "search_dialect_1"@[15]);
        lemma_texts_differ("search_dialect_2", "search_dialect_1");
    }
}

/// The field `search_dialect_3` is reported as the gauge `search_dialect_3` where part 5 of the table is read.
pub proof fn lemma_field_search_dialect_3()
    ensures
        table_part_5("search_dialect_3".spec_bytes()) == Some(
            GenericMetric { kind: Kind::Gauge, name: "search_dialect_3", description: "", micros: false },
        ),
{
    reveal_strlit("search_dialect_3");
    assert("search_dialect_3".spec_bytes() != "tile38_last_gc_time_seconds".spec_bytes()) by { reveal_strlit("tile38_last_gc_time_seconds"); lemma_texts_differ("search_dialect_3", "tile38_last_gc_time_seconds"); }
    assert("search_dialect_3".spec_bytes() != "tile38_next_gc_bytes".spec_bytes()) by { reveal_strlit("tile38_next_gc_bytes"); lemma_texts_differ("search_dialect_3", "tile38_next_gc_bytes"); }
    assert("search_dialect_3".spec_bytes() != "server_threads".spec_bytes()) by { reveal_strlit("server_threads"); lemma_texts_differ("search_dialect_3", "server_threads"); }
    assert("search_dialect_3".spec_bytes() != "long_lock_waits".spec_bytes()) by { reveal_strlit("long_lock_waits"); lemma_texts_differ("search_dialect_3", "long_lock_waits"); }
    assert("search_dialect_3".spec_bytes() != "current_client_thread".spec_bytes()) by { reveal_strlit("current_client_thread"); lemma_texts_differ("search_dialect_3", "current_client_thread"); }
    assert("search_dialect_3".spec_bytes() != "search_number_of_indexes".spec_bytes()) by { reveal_strlit("search_number_of_indexes"); lemma_texts_differ("search_dialect_3", "search_number_of_indexes"); }
    assert("search_dialect_3".spec_bytes() != "search_used_memory_indexes".spec_bytes()) by { reveal_strlit("search_used_memory_indexes"); lemma_texts_differ("search_dialect_3", "search_used_memory_indexes"); }
    assert("search_dialect_3".spec_bytes() != "search_global_idle".spec_bytes()) by { reveal_strlit("search_global_idle"); lemma_texts_differ("search_dialect_3", "search_global_idle"); }
    assert("search_dialect_3".spec_bytes() != "search_global_total".spec_bytes()) by { reveal_strlit("search_global_total"); lemma_texts_differ("search_dialect_3", "search_global_total"); }
    assert("search_dialect_3".spec_bytes() != "search_bytes_collected".spec_bytes()) by { reveal_strlit("search_bytes_collected"); lemma_texts_differ("search_dialect_3", "search_bytes_collected"); }
    assert("search_dialect_3".spec_bytes() != "search_dialect_1".spec_bytes()) by {
        reveal_strlit("search_dialect_1");
        assert("search_dialect_3"@[15] != "search_dialect_1"@[15]);
        lemma_texts_differ("search_dialect_3", "search_dialect_1");
    }
    assert("search_dialect_3".spec_bytes() != "search_dialect_2".spec_bytes()) by {
        reveal_strlit("search_dialect_2");
        assert("search_dialect_3"@[15] != "search_dialect_2"@[15]);
        lemma_texts_differ("search_dialect_3", "search_dialect_2");
    }
}

/// The field `search_dialect_4` is reported as the gauge `search_dialect_4` where part 5 of the table is read.
pub proof fn lemma_field_search_dialect_4()
    ensures
        table_part_5("search_dialect_4".spec_bytes()) == Some(
            GenericMetric { kind: Kind::Gauge, name: "search_dialect_4", description: "", micros: false },
        ),
{
    reveal_strlit("search_dialect_4");
    assert("search_dialect_4".spec_bytes() != "tile38_last_gc_time_seconds".spec_bytes()) by { reveal_strlit("tile38_last_gc_time_seconds"); lemma_texts_differ("search_dialect_4", "tile38_last_gc_time_seconds"); }
    assert("search_dialect_4".spec_bytes() != "tile38_next_gc_bytes".spec_bytes()) by { reveal_strlit("tile38_next_gc_bytes"); lemma_texts_differ("search_dialect_4", "tile38_next_gc_bytes"); }
    assert("search_dialect_4".spec_bytes() != "server_threads".spec_bytes()) by { reveal_strlit("server_threads"); lemma_texts_differ("search_dialect_4", "server_threads"); }
    assert("search_dialect_4".spec_bytes() != "long_lock_waits".spec_bytes()) by { reveal_strlit("long_lock_waits"); lemma_texts_differ("search_dialect_4", "long_lock_waits"); }
    assert("search_dialect_4".spec_bytes() != "current_client_thread".spec_bytes()) by { reveal_strlit("current_client_thread"); lemma_texts_differ("search_dialect_4", "current_client_thread"); }
    assert("search_dialect_4".spec_bytes() != "search_number_of_indexes".spec_bytes()) by { reveal_strlit("search_number_of_indexes"); lemma_texts_differ("search_dialect_4", "search_number_of_indexes"); }
    assert("search_dialect_4".spec_bytes() != "search_used_memory_indexes".spec_bytes()) by { reveal_strlit("search_used_memory_indexes"); lemma_texts_differ("search_dialect_4", "search_used_memory_indexes"); }
    assert("search_dialect_4".spec_bytes() != "search_global_idle".spec_bytes()) by { reveal_strlit("search_global_idle"); lemma_texts_differ("search_dialect_4", "search_global_idle"); }
    assert("search_dialect_4".spec_bytes() != "search_global_total".spec_bytes()) by { reveal_strlit("search_global_total"); lemma_texts_differ("search_dialect_4", "search_global_total"); }
    assert("search_dialect_4".spec_bytes() != "search_bytes_collected".spec_bytes()) by { reveal_strlit("search_bytes_collected"); lemma_texts_differ("search_dialect_4", "search_bytes_collected"); }
    assert("search_dialect_4".spec_bytes() != "search_dialect_1".spec_bytes()) by {
        reveal_strlit("search_dialect_1");
        assert("search_dialect_4"@[15] != "search_dialect_1"@[15]);
        lemma_texts_differ("search_dialect_4", "search_dialect_1");
    }
    assert("search_dialect_4".spec_bytes() != "search_dialect_2".spec_bytes()) by {
        reveal_strlit("search_dialect_2");
        assert("search_dialect_4"@[15] != "search_dialect_2"@[15]);
        lemma_texts_differ("search_dialect_4", "search_dialect_2");
    }
    assert("search_dialect_4".spec_bytes() != "search_dialect_3".spec_bytes()) by {
        reveal_strlit("search_dialect_3");
        assert("search_dialect_4"@[15] != "search_dialect_3"@[15]);
        lemma_texts_differ("search_dialect_4", "search_dialect_3");
    }
}

/// The field `search_number_of_active_indexes` is reported as the gauge `search_number_of_active_indexes` where part 5 of the table is read.
pub proof fn lemma_field_search_number_of_active_indexes()
    ensures
        table_part_5("search_number_of_active_indexes".spec_bytes()) == Some(
            GenericMetric { kind: Kind::Gauge, name: "search_number_of_active_indexes", description: "The total number of indexes running a background indexing and/or background query processing operation", micros: false },
        ),
{
    reveal_strlit("search_number_of_active_indexes");
    assert("search_number_of_active_indexes".spec_bytes() != "tile38_last_gc_time_seconds".spec_bytes()) by { reveal_strlit("tile38_last_gc_time_seconds"); lemma_texts_differ("search_number_of_active_indexes", "tile38_last_gc_time_seconds"); }
    assert("search_number_of_active_indexes".spec_bytes() != "tile38_next_gc_bytes".spec_bytes()) by { reveal_strlit("tile38_next_gc_bytes"); lemma_texts_differ("search_number_of_active_indexes", "tile38_next_gc_bytes"); }
    assert("search_number_of_active_indexes".spec_bytes() != "server_threads".spec_bytes()) by { reveal_strlit("server_threads"); lemma_texts_differ("search_number_of_active_indexes", "server_threads"); }
    assert("search_number_of_active_indexes".spec_bytes() != "long_lock_waits".spec_bytes()) by { reveal_strlit("long_lock_waits"); lemma_texts_differ("search_number_of_active_indexes", "long_lock_waits"); }
    assert("search_number_of_active_indexes".spec_bytes() != "current_client_thread".spec_bytes()) by { reveal_strlit("current_client_thread"); lemma_texts_differ("search_number_of_active_indexes", "current_client_thread"); }
    assert("search_number_of_active_indexes".spec_bytes() != "search_number_of_indexes".spec_bytes()) by { reveal_strlit("search_number_of_indexes"); lemma_texts_differ("search_number_of_active_indexes", "search_number_of_indexes"); }
    assert("search_number_of_active_indexes".spec_bytes() != "search_used_memory_indexes".spec_bytes()) by { reveal_strlit("search_used_memory_indexes"); lemma_texts_differ("search_number_of_active_indexes", "search_used_memory_indexes"); }
    assert("search_number_of_active_indexes".spec_bytes() != "search_global_idle".spec_bytes()) by { reveal_strlit("search_global_idle"); lemma_texts_differ("search_number_of_active_indexes", "search_global_idle"); }
    assert("search_number_of_active_indexes".spec_bytes() != "search_global_total".spec_bytes()) by { reveal_strlit("search_global_total"); lemma_texts_differ("search_number_of_active_indexes", "search_global_total"); }
    assert("search_number_of_active_indexes".spec_bytes() != "search_bytes_collected".spec_bytes()) by { reveal_strlit("search_bytes_collected"); lemma_texts_differ("search_number_of_active_indexes", "search_bytes_collected"); }
    assert("search_number_of_active_indexes".spec_bytes() != "search_dialect_1".spec_bytes()) by { reveal_strlit("search_dialect_1"); lemma_texts_differ("search_number_of_active_indexes", "search_dialect_1"); }
    assert("search_number_of_active_indexes".spec_bytes() != "search_dialect_2".spec_bytes()) by { reveal_strlit("search_dialect_2"); lemma_texts_differ("search_number_of_active_indexes", "search_dialect_2"); }
    assert("search_number_of_active_indexes".spec_bytes() != "search_dialect_3".spec_bytes()) by { reveal_strlit("search_dialect_3"); lemma_texts_differ("search_number_of_active_indexes", "search_dialect_3"); }
    assert("search_number_of_active_indexes".spec_bytes() != "search_dialect_4".spec_bytes()) by { reveal_strlit("search_dialect_4"); lemma_texts_differ("search_number_of_active_indexes", "search_dialect_4"); }
}

/// The field `search_number_of_active_indexes_running_queries` is reported as the gauge `search_number_of_active_indexes_running_queries` where part 5 of the table is read.
pub proof fn lemma_field_search_number_of_active_indexes_running_queries()
    ensures
        table_part_5("search_number_of_active_indexes_running_queries".spec_bytes()) == Some(
            GenericMetric { kind: Kind::Gauge, name: "search_number_of_active_indexes_running_queries", description: "The total count of indexes currently running a background query process", micros: false },
        ),
{
    reveal_strlit("search_number_of_active_indexes_running_queries");
    assert("search_number_of_active_indexes_running_queries".spec_bytes() != "tile38_last_gc_time_seconds".spec_bytes()) by { reveal_strlit("tile38_last_gc_time_seconds"); lemma_texts_differ("search_number_of_active_indexes_running_queries", "tile38_last_gc_time_seconds"); }
    assert("search_number_of_active_indexes_running_queries".spec_bytes() != "tile38_next_gc_bytes".spec_bytes()) by { reveal_strlit("tile38_next_gc_bytes"); lemma_texts_differ("search_number_of_active_indexes_running_queries", "tile38_next_gc_bytes"); }
    assert("search_number_of_active_indexes_running_queries".spec_bytes() != "server_threads".spec_bytes()) by { reveal_strlit("server_threads"); lemma_texts_differ("search_number_of_active_indexes_running_queries", "server_threads"); }
    assert("search_number_of_active_indexes_running_queries".spec_bytes() != "long_lock_waits".spec_bytes()) by { reveal_strlit("long_lock_waits"); lemma_texts_differ("search_number_of_active_indexes_running_queries", "long_lock_waits"); }
    assert("search_number_of_active_indexes_running_queries".spec_bytes() != "current_client_thread".spec_bytes()) by { reveal_strlit("current_client_thread"); lemma_texts_differ("search_number_of_active_indexes_running_queries", "current_client_thread"); }
    assert("search_number_of_active_indexes_running_queries".spec_bytes() != "search_number_of_indexes".spec_bytes()) by { reveal_strlit("search_number_of_indexes"); lemma_texts_differ("search_number_of_active_indexes_running_queries", "search_number_of_indexes"); }
    assert("search_number_of_active_indexes_running_queries".spec_bytes() != "search_used_memory_indexes".spec_bytes()) by { reveal_strlit("search_used_memory_indexes"); lemma_texts_differ("search_number_of_active_indexes_running_queries", "search_used_memory_indexes"); }
    assert("search_number_of_active_indexes_running_queries".spec_bytes() != "search_global_idle".spec_bytes()) by { reveal_strlit("search_global_idle"); lemma_texts_differ("search_number_of_active_indexes_running_queries", "search_global_idle"); }
    assert("search_number_of_active_indexes_running_queries".spec_bytes() != "search_global_total".spec_bytes()) by { reveal_strlit("search_global_total"); lemma_texts_differ("search_number_of_active_indexes_running_queries", "search_global_total"); }
    assert("search_number_of_active_indexes_running_queries".spec_bytes() != "search_bytes_collected".spec_bytes()) by { reveal_strlit("search_bytes_collected"); lemma_texts_differ("search_number_of_active_indexes_running_queries", "search_bytes_collected"); }
    assert("search_number_of_active_indexes_running_queries".spec_bytes() != "search_dialect_1".spec_bytes()) by { reveal_strlit("search_dialect_1"); lemma_texts_differ("search_number_of_active_indexes_running_queries", "search_dialect_1"); }
    assert("search_number_of_active_indexes_running_queries".spec_bytes() != "search_dialect_2".spec_bytes()) by { reveal_strlit("search_dialect_2"); lemma_texts_differ("search_number_of_active_indexes_running_queries", "search_dialect_2"); }
    assert("search_number_of_active_indexes_running_queries".spec_bytes() != "search_dialect_3".spec_bytes()) by { reveal_strlit("search_dialect_3"); lemma_texts_differ("search_number_of_active_indexes_running_queries", "search_dialect_3"); }
    assert("search_number_of_active_indexes_running_queries".spec_bytes() != "search_dialect_4".spec_bytes()) by { reveal_strlit("search_dialect_4"); lemma_texts_differ("search_number_of_active_indexes_running_queries", "search_dialect_4"); }
    assert("search_number_of_active_indexes_running_queries".spec_bytes() != "search_number_of_active_indexes".spec_bytes()) by { reveal_strlit("search_number_of_active_indexes"); lemma_texts_differ("search_number_of_active_indexes_running_queries", "search_number_of_active_indexes"); }
}

/// The field `search_number_of_active_indexes_indexing` is reported as the gauge `search_number_of_active_indexes_indexing` where part 5 of the table is read.
pub proof fn lemma_field_search_number_of_active_indexes_indexing()
    ensures
        table_part_5("search_number_of_active_indexes_indexing".spec_bytes()) == Some(
            GenericMetric { kind: Kind::Gauge, name: "search_number_of_active_indexes_indexing", description: "The total count of indexes currently undergoing a background indexing process", micros: false },
        ),
{
    reveal_strlit("search_number_of_active_indexes_indexing");
    assert("search_number_of_active_indexes_indexing".spec_bytes() != "tile38_last_gc_time_seconds".spec_bytes()) by { reveal_strlit("tile38_last_gc_time_seconds"); lemma_texts_differ("search_number_of_active_indexes_indexing", "tile38_last_gc_time_seconds"); }
    assert("search_number_of_active_indexes_indexing".spec_bytes() != "tile38_next_gc_bytes".spec_bytes()) by { reveal_strlit("tile38_next_gc_bytes"); lemma_texts_differ("search_number_of_active_indexes_indexing", "tile38_next_gc_bytes"); }
    assert("search_number_of_active_indexes_indexing".spec_bytes() != "server_threads".spec_bytes()) by { reveal_strlit("server_threads"); lemma_texts_differ("search_number_of_active_indexes_indexing", "server_threads"); }
    assert("search_number_of_active_indexes_indexing".spec_bytes() != "long_lock_waits".spec_bytes()) by { reveal_strlit("long_lock_waits"); lemma_texts_differ("search_number_of_active_indexes_indexing", "long_lock_waits"); }
    assert("search_number_of_active_indexes_indexing".spec_bytes() != "current_client_thread".spec_bytes()) by { reveal_strlit("current_client_thread"); lemma_texts_differ("search_number_of_active_indexes_indexing", "current_client_thread"); }
    assert("search_number_of_active_indexes_indexing".spec_bytes() != "search_number_of_indexes".spec_bytes()) by { reveal_strlit("search_number_of_indexes"); lemma_texts_differ("search_number_of_active_indexes_indexing", "search_number_of_indexes"); }
    assert("search_number_of_active_indexes_indexing".spec_bytes() != "search_used_memory_indexes".spec_bytes()) by { reveal_strlit("search_used_memory_indexes"); lemma_texts_differ("search_number_of_active_indexes_indexing", "search_used_memory_indexes"); }
    assert("search_number_of_active_indexes_indexing".spec_bytes() != "search_global_idle".spec_bytes()) by { reveal_strlit("search_global_idle"); lemma_texts_differ("search_number_of_active_indexes_indexing", "search_global_idle"); }
    assert("search_number_of_active_indexes_indexing".spec_bytes() != "search_global_total".spec_bytes()) by { reveal_strlit("search_global_total"); lemma_texts_differ("search_number_of_active_indexes_indexing", "search_global_total"); }
    assert("search_number_of_active_indexes_indexing".spec_bytes() != "search_bytes_collected".spec_bytes()) by { reveal_strlit("search_bytes_collected"); lemma_texts_differ("search_number_of_active_indexes_indexing", "search_bytes_collected"); }
    assert("search_number_of_active_indexes_indexing".spec_bytes() != "search_dialect_1".spec_bytes()) by { reveal_strlit("search_dialect_1"); lemma_texts_differ("search_number_of_active_indexes_indexing", "search_dialect_1"); }
    assert("search_number_of_active_indexes_indexing".spec_bytes() != "search_dialect_2".spec_bytes()) by { reveal_strlit("search_dialect_2"); lemma_texts_differ("search_number_of_active_indexes_indexing", "search_dialect_2"); }
    assert("search_number_of_active_indexes_indexing".spec_bytes() != "search_dialect_3".spec_bytes()) by { reveal_strlit("search_dialect_3"); lemma_texts_differ("search_number_of_active_indexes_indexing", "search_dialect_3"); }
    assert("search_number_of_active_indexes_indexing".spec_bytes() != "search_dialect_4".spec_bytes()) by { reveal_strlit("search_dialect_4"); lemma_texts_differ("search_number_of_active_indexes_indexing", "search_dialect_4"); }
    assert("search_number_of_active_indexes_indexing".spec_bytes() != "search_number_of_active_indexes".spec_bytes()) by { reveal_strlit("search_number_of_active_indexes"); lemma_texts_differ("search_number_of_active_indexes_indexing", "search_number_of_active_indexes"); }
    assert("search_number_of_active_indexes_indexing".spec_bytes() != "search_number_of_active_indexes_running_queries".spec_bytes()) by { reveal_strlit("search_number_of_active_indexes_running_queries"); lemma_texts_differ("search_number_of_active_indexes_indexing", "search_number_of_active_indexes_running_queries"); }
}

/// The field `search_total_active_write_threads` is reported as the gauge `search_total_active_write_threads` where part 5 of the table is read.
pub proof fn lemma_field_search_total_active_write_threads()
    ensures
        table_part_5("search_total_active_write_threads".spec_bytes()) == Some(
            GenericMetric { kind: Kind::Gauge, name: "search_total_active_write_threads", description: "The total count of background write (indexing) processes currently running in the shard", micros: false },
        ),
{
    reveal_strlit("search_total_active_write_threads");
    assert("search_total_active_write_threads".spec_bytes() != "tile38_last_gc_time_seconds".spec_bytes()) by { reveal_strlit("tile38_last_gc_time_seconds"); lemma_texts_differ("search_total_active_write_threads", "tile38_last_gc_time_seconds"); }
    assert("search_total_active_write_threads".spec_bytes() != "tile38_next_gc_bytes".spec_bytes()) by { reveal_strlit("tile38_next_gc_bytes"); lemma_texts_differ("search_total_active_write_threads", "tile38_next_gc_bytes"); }
    assert("search_total_active_write_threads".spec_bytes() != "server_threads".spec_bytes()) by { reveal_strlit("server_threads"); lemma_texts_differ("search_total_active_write_threads", "server_threads"); }
    assert("search_total_active_write_threads".spec_bytes() != "long_lock_waits".spec_bytes()) by { reveal_strlit("long_lock_waits"); lemma_texts_differ("search_total_active_write_threads", "long_lock_waits"); }
    assert("search_total_active_write_threads".spec_bytes() != "current_client_thread".spec_bytes()) by { reveal_strlit("current_client_thread"); lemma_texts_differ("search_total_active_write_threads", "current_client_thread"); }
    assert("search_total_active_write_threads".spec_bytes() != "search_number_of_indexes".spec_bytes()) by { reveal_strlit("search_number_of_indexes"); lemma_texts_differ("search_total_active_write_threads", "search_number_of_indexes"); }
    assert("search_total_active_write_threads".spec_bytes() != "search_used_memory_indexes".spec_bytes()) by { reveal_strlit("search_used_memory_indexes"); lemma_texts_differ("search_total_active_write_threads", "search_used_memory_indexes"); }
    assert("search_total_active_write_threads".spec_bytes() != "search_global_idle".spec_bytes()) by { reveal_strlit("search_global_idle"); lemma_texts_differ("search_total_active_write_threads", "search_global_idle"); }
    assert("search_total_active_write_threads".spec_bytes() != "search_global_total".spec_bytes()) by { reveal_strlit("search_global_total"); lemma_texts_differ("search_total_active_write_threads", "search_global_total"); }
    assert("search_total_active_write_threads".spec_bytes() != "search_bytes_collected".spec_bytes()) by { reveal_strlit("search_bytes_collected"); lemma_texts_differ("search_total_active_write_threads", "search_bytes_collected"); }
    assert("search_total_active_write_threads".spec_bytes() != "search_dialect_1".spec_bytes()) by { reveal_strlit("search_dialect_1"); lemma_texts_differ("search_total_active_write_threads", "search_dialect_1"); }
    assert("search_total_active_write_threads".spec_bytes() != "search_dialect_2".spec_bytes()) by { reveal_strlit("search_dialect_2"); lemma_texts_differ("search_total_active_write_threads", "search_dialect_2"); }
    assert("search_total_active_write_threads".spec_bytes() != "search_dialect_3".spec_bytes()) by { reveal_strlit("search_dialect_3"); lemma_texts_differ("search_total_active_write_threads", "search_dialect_3"); }
    assert("search_total_active_write_threads".spec_bytes() != "search_dialect_4".spec_bytes()) by { reveal_strlit("search_dialect_4"); lemma_texts_differ("search_total_active_write_threads", "search_dialect_4"); }
    assert("search_total_active_write_threads".spec_bytes() != "search_number_of_active_indexes".spec_bytes()) by { reveal_strlit("search_number_of_active_indexes"); lemma_texts_differ("search_total_active_write_threads", "search_number_of_active_indexes"); }
    assert("search_total_active_write_threads".spec_bytes() != "search_number_of_active_indexes_running_queries".spec_bytes()) by { reveal_strlit("search_number_of_active_indexes_running_queries"); lemma_texts_differ("search_total_active_write_threads", "search_number_of_active_indexes_running_queries"); }
    assert("search_total_active_write_threads".spec_bytes() != "search_number_of_active_indexes_indexing".spec_bytes()) by { reveal_strlit("search_number_of_active_indexes_indexing"); lemma_texts_differ("search_total_active_write_threads", "search_number_of_active_indexes_indexing"); }
}

/// The field `search_smallest_memory_index` is reported as the gauge `search_smallest_memory_index_bytes` where part 5 of the table is read.
pub proof fn lemma_field_search_smallest_memory_index()
    ensures
        table_part_5("search_smallest_memory_index".spec_bytes()) == Some(
            GenericMetric { kind: Kind::Gauge, name: "search_smallest_memory_index_bytes", description: "The memory usage of the index with the smallest memory usage in the shard in bytes", micros: false },
        ),
{
    reveal_strlit("search_smallest_memory_index");
    assert("search_smallest_memory_index".spec_bytes() != "tile38_last_gc_time_seconds".spec_bytes()) by { reveal_strlit("tile38_last_gc_time_seconds"); lemma_texts_differ("search_smallest_memory_index", "tile38_last_gc_time_seconds"); }
    assert("search_smallest_memory_index".spec_bytes() != "tile38_next_gc_bytes".spec_bytes()) by { reveal_strlit("tile38_next_gc_bytes"); lemma_texts_differ("search_smallest_memory_index", "tile38_next_gc_bytes"); }
    assert("search_smallest_memory_index".spec_bytes() != "server_threads".spec_bytes()) by { reveal_strlit("server_threads"); lemma_texts_differ("search_smallest_memory_index", "server_threads"); }
    assert("search_smallest_memory_index".spec_bytes() != "long_lock_waits".spec_bytes()) by { reveal_strlit("long_lock_waits"); lemma_texts_differ("search_smallest_memory_index", "long_lock_waits"); }
    assert("search_smallest_memory_index".spec_bytes() != "current_client_thread".spec_bytes()) by { reveal_strlit("current_client_thread"); lemma_texts_differ("search_smallest_memory_index", "current_client_thread"); }
    assert("search_smallest_memory_index".spec_bytes() != "search_number_of_indexes".spec_bytes()) by { reveal_strlit("search_number_of_indexes"); lemma_texts_differ("search_smallest_memory_index", "search_number_of_indexes"); }
    assert("search_smallest_memory_index".spec_bytes() != "search_used_memory_indexes".spec_bytes()) by { reveal_strlit("search_used_memory_indexes"); lemma_texts_differ("search_smallest_memory_index", "search_used_memory_indexes"); }
    assert("search_smallest_memory_index".spec_bytes() != "search_global_idle".spec_bytes()) by { reveal_strlit("search_global_idle"); lemma_texts_differ("search_smallest_memory_index", "search_global_idle"); }
    assert("search_smallest_memory_index".spec_bytes() != "search_global_total".spec_bytes()) by { reveal_strlit("search_global_total"); lemma_texts_differ("search_smallest_memory_index", "search_global_total"); }
    assert("search_smallest_memory_index".spec_bytes() != "search_bytes_collected".spec_bytes()) by { reveal_strlit("search_bytes_collected"); lemma_texts_differ("search_smallest_memory_index", "search_bytes_collected"); }
    assert("search_smallest_memory_index".spec_bytes() != "search_dialect_1".spec_bytes()) by { reveal_strlit("search_dialect_1"); lemma_texts_differ("search_smallest_memory_index", "search_dialect_1"); }
    assert("search_smallest_memory_index".spec_bytes() != "search_dialect_2".spec_bytes()) by { reveal_strlit("search_dialect_2"); lemma_texts_differ("search_smallest_memory_index", "search_dialect_2"); }
    assert("search_smallest_memory_index".spec_bytes() != "search_dialect_3".spec_bytes()) by { reveal_strlit("search_dialect_3"); lemma_texts_differ("search_smallest_memory_index", "search_dialect_3"); }
    assert("search_smallest_memory_index".spec_bytes() != "search_dialect_4".spec_bytes()) by { reveal_strlit("search_dialect_4"); lemma_texts_differ("search_smallest_memory_index", "search_dialect_4"); }
    assert("search_smallest_memory_index".spec_bytes() != "search_number_of_active_indexes".spec_bytes()) by { reveal_strlit("search_number_of_active_indexes"); lemma_texts_differ("search_smallest_memory_index", "search_number_of_active_indexes"); }
    assert("search_smallest_memory_index".spec_bytes() != "search_number_of_active_indexes_running_queries".spec_bytes()) by { reveal_strlit("search_number_of_active_indexes_running_queries"); lemma_texts_differ("search_smallest_memory_index", "search_number_of_active_indexes_running_queries"); }
    assert("search_smallest_memory_index".spec_bytes() != "search_number_of_active_indexes_indexing".spec_bytes()) by { reveal_strlit("search_number_of_active_indexes_indexing"); lemma_texts_differ("search_smallest_memory_index", "search_number_of_active_indexes_indexing"); }
    assert("search_smallest_memory_index".spec_bytes() != "search_total_active_write_threads".spec_bytes()) by { reveal_strlit("search_total_active_write_threads"); lemma_texts_differ("search_smallest_memory_index", "search_total_active_write_threads"); }
}

/// The field `search_largest_memory_index` is reported as the gauge `search_largest_memory_index_bytes` where part 5 of the table is read.
pub proof fn lemma_field_search_largest_memory_index()
    ensures
        table_part_5("search_largest_memory_index".spec_bytes()) == Some(
            GenericMetric { kind: Kind::Gauge, name: "search_largest_memory_index_bytes", description: "The memory usage of the index with the largest memory usage in the shard in bytes", micros: false },
        ),
{
    reveal_strlit("search_largest_memory_index");
    assert("search_largest_memory_index".spec_bytes() != "tile38_last_gc_time_seconds".spec_bytes()) by {
        reveal_strlit("tile38_last_gc_time_seconds");
        assert("search_largest_memory_index"@[0] != "tile38_last_gc_time_seconds"@[0]);
        lemma_texts_differ("search_largest_memory_index", "tile38_last_gc_time_seconds");
    }
    assert("search_largest_memory_index".spec_bytes() != "tile38_next_gc_bytes".spec_bytes()) by { reveal_strlit("tile38_next_gc_bytes"); lemma_texts_differ("search_largest_memory_index", "tile38_next_gc_bytes"); }
    assert("search_largest_memory_index".spec_bytes() != "server_threads".spec_bytes()) by { reveal_strlit("server_threads"); lemma_texts_differ("search_largest_memory_index", "server_threads"); }
    assert("search_largest_memory_index".spec_bytes() != "long_lock_waits".spec_bytes()) by { reveal_strlit("long_lock_waits"); lemma_texts_differ("search_largest_memory_index", "long_lock_waits"); }
    assert("search_largest_memory_index".spec_bytes() != "current_client_thread".spec_bytes()) by { reveal_strlit("current_client_thread"); lemma_texts_differ("search_largest_memory_index", "current_client_thread"); }
    assert("search_largest_memory_index".spec_bytes() != "search_number_of_indexes".spec_bytes()) by { reveal_strlit("search_number_of_indexes"); lemma_texts_differ("search_largest_memory_index", "search_number_of_indexes"); }
    assert("search_largest_memory_index".spec_bytes() != "search_used_memory_indexes".spec_bytes()) by { reveal_strlit("search_used_memory_indexes"); lemma_texts_differ("search_largest_memory_index", "search_used_memory_indexes"); }
    assert("search_largest_memory_index".spec_bytes() != "search_global_idle".spec_bytes()) by { reveal_strlit("search_global_idle"); lemma_texts_differ("search_largest_memory_index", "search_global_idle"); }
    assert("search_largest_memory_index".spec_bytes() != "search_global_total".spec_bytes()) by { reveal_strlit("search_global_total"); lemma_texts_differ("search_largest_memory_index", "search_global_total"); }
    assert("search_largest_memory_index".spec_bytes() != "search_bytes_collected".spec_bytes()) by { reveal_strlit("search_bytes_collected"); lemma_texts_differ("search_largest_memory_index", "search_bytes_collected"); }
    assert("search_largest_memory_index".spec_bytes() != "search_dialect_1".spec_bytes()) by { reveal_strlit("search_dialect_1"); lemma_texts_differ("search_largest_memory_index", "search_dialect_1"); }
    assert("search_largest_memory_index".spec_bytes() != "search_dialect_2".spec_bytes()) by { reveal_strlit("search_dialect_2"); lemma_texts_differ("search_largest_memory_index", "search_dialect_2"); }
    assert("search_largest_memory_index".spec_bytes() != "search_dialect_3".spec_bytes()) by { reveal_strlit("search_dialect_3"); lemma_texts_differ("search_largest_memory_index", "search_dialect_3"); }
    assert("search_largest_memory_index".spec_bytes() != "search_dialect_4".spec_bytes()) by { reveal_strlit("search_dialect_4"); lemma_texts_differ("search_largest_memory_index", "search_dialect_4"); }
    assert("search_largest_memory_index".spec_bytes() != "search_number_of_active_indexes".spec_bytes()) by { reveal_strlit("search_number_of_active_indexes"); lemma_texts_differ("search_largest_memory_index", "search_number_of_active_indexes"); }
    assert("search_largest_memory_index".spec_bytes() != "search_number_of_active_indexes_running_queries".spec_bytes()) by { reveal_strlit("search_number_of_active_indexes_running_queries"); lemma_texts_differ("search_largest_memory_index", "search_number_of_active_indexes_running_queries"); }
    assert("search_largest_memory_index".spec_bytes() != "search_number_of_active_indexes_indexing".spec_bytes()) by { reveal_strlit("search_number_of_active_indexes_indexing"); lemma_texts_differ("search_largest_memory_index", "search_number_of_active_indexes_indexing"); }
    assert("search_largest_memory_index".spec_bytes() != "search_total_active_write_threads".spec_bytes()) by { reveal_strlit("search_total_active_write_threads"); lemma_texts_differ("search_largest_memory_index", "search_total_active_write_threads"); }
    assert("search_largest_memory_index".spec_bytes() != "search_smallest_memory_index".spec_bytes()) by { reveal_strlit("search_smallest_memory_index"); lemma_texts_differ("search_largest_memory_index", "search_smallest_memory_index"); }
}

/// The field `search_used_memory_vector_index` is reported as the gauge `search_used_memory_vector_index_bytes` where part 5 of the table is read.
pub proof fn lemma_field_search_used_memory_vector_index()
    ensures
        table_part_5("search_used_memory_vector_index".spec_bytes()) == Some(
            GenericMetric { kind: Kind::Gauge, name: "search_used_memory_vector_index_bytes", description: "The total memory usage of all vector indexes in the shard", micros: false },
        ),
{
    reveal_strlit("search_used_memory_vector_index");
    assert("search_used_memory_vector_index".spec_bytes() != "tile38_last_gc_time_seconds".spec_bytes()) by { reveal_strlit("tile38_last_gc_time_seconds"); lemma_texts_differ("search_used_memory_vector_index", "tile38_last_gc_time_seconds"); }
    assert("search_used_memory_vector_index".spec_bytes() != "tile38_next_gc_bytes".spec_bytes()) by { reveal_strlit("tile38_next_gc_bytes"); lemma_texts_differ("search_used_memory_vector_index", "tile38_next_gc_bytes"); }
    assert("search_used_memory_vector_index".spec_bytes() != "server_threads".spec_bytes()) by { reveal_strlit("server_threads"); lemma_texts_differ("search_used_memory_vector_index", "server_threads"); }
    assert("search_used_memory_vector_index".spec_bytes() != "long_lock_waits".spec_bytes()) by { reveal_strlit("long_lock_waits"); lemma_texts_differ("search_used_memory_vector_index", "long_lock_waits"); }
    assert("search_used_memory_vector_index".spec_bytes() != "current_client_thread".spec_bytes()) by { reveal_strlit("current_client_thread"); lemma_texts_differ("search_used_memory_vector_index", "current_client_thread"); }
    assert("search_used_memory_vector_index".spec_bytes() != "search_number_of_indexes".spec_bytes()) by { reveal_strlit("search_number_of_indexes"); lemma_texts_differ("search_used_memory_vector_index", "search_number_of_indexes"); }
    assert("search_used_memory_vector_index".spec_bytes() != "search_used_memory_indexes".spec_bytes()) by { reveal_strlit("search_used_memory_indexes"); lemma_texts_differ("search_used_memory_vector_index", "search_used_memory_indexes"); }
    assert("search_used_memory_vector_index".spec_bytes() != "search_global_idle".spec_bytes()) by { reveal_strlit("search_global_idle"); lemma_texts_differ("search_used_memory_vector_index", "search_global_idle"); }
    assert("search_used_memory_vector_index".spec_bytes() != "search_global_total".spec_bytes()) by { reveal_strlit("search_global_total"); lemma_texts_differ("search_used_memory_vector_index", "search_global_total"); }
    assert("search_used_memory_vector_index".spec_bytes() != "search_bytes_collected".spec_bytes()) by { reveal_strlit("search_bytes_collected"); lemma_texts_differ("search_used_memory_vector_index", "search_bytes_collected"); }
    assert("search_used_memory_vector_index".spec_bytes() != "search_dialect_1".spec_bytes()) by { reveal_strlit("search_dialect_1"); lemma_texts_differ("search_used_memory_vector_index", "search_dialect_1"); }
    assert("search_used_memory_vector_index".spec_bytes() != "search_dialect_2".spec_bytes()) by { reveal_strlit("search_dialect_2"); lemma_texts_differ("search_used_memory_vector_index", "search_dialect_2"); }
    assert("search_used_memory_vector_index".spec_bytes() != "search_dialect_3".spec_bytes()) by { reveal_strlit("search_dialect_3"); lemma_texts_differ("search_used_memory_vector_index", "search_dialect_3"); }
    assert("search_used_memory_vector_index".spec_bytes() != "search_dialect_4".spec_bytes()) by { reveal_strlit("search_dialect_4"); lemma_texts_differ("search_used_memory_vector_index", "search_dialect_4"); }
    assert("search_used_memory_vector_index".spec_bytes() != "search_number_of_active_indexes".spec_bytes()) by {
        reveal_strlit("search_number_of_active_indexes");
        assert("search_used_memory_vector_index"@[7] != "search_number_of_active_indexes"@[7]);
        lemma_texts_differ("search_used_memory_vector_index", "search_number_of_active_indexes");
    }
    assert("search_used_memory_vector_index".spec_bytes() != "search_number_of_active_indexes_running_queries".spec_bytes()) by { reveal_strlit("search_number_of_active_indexes_running_queries"); lemma_texts_differ("search_used_memory_vector_index", "search_number_of_active_indexes_running_queries"); }
    assert("search_used_memory_vector_index".spec_bytes() != "search_number_of_active_indexes_indexing".spec_bytes()) by { reveal_strlit("search_number_of_active_indexes_indexing"); lemma_texts_differ("search_used_memory_vector_index", "search_number_of_active_indexes_indexing"); }
    assert("search_used_memory_vector_index".spec_bytes() != "search_total_active_write_threads".spec_bytes()) by { reveal_strlit("search_total_active_write_threads"); lemma_texts_differ("search_used_memory_vector_index", "search_total_active_write_threads"); }
    assert("search_used_memory_vector_index".spec_bytes() != "search_smallest_memory_index".spec_bytes()) by { reveal_strlit("search_smallest_memory_index"); lemma_texts_differ("search_used_memory_vector_index", "search_smallest_memory_index"); }
    assert("search_used_memory_vector_index".spec_bytes() != "search_largest_memory_index".spec_bytes()) by { reveal_strlit("search_largest_memory_index"); lemma_texts_differ("search_used_memory_vector_index", "search_largest_memory_index"); }
}

/// The field `search_global_idle_user` is reported as the gauge `search_global_idle_user` where part 5 of the table is read.
pub proof fn lemma_field_search_global_idle_user()
    ensures
        table_part_5("search_global_idle_user".spec_bytes()) == Some(
            GenericMetric { kind: Kind::Gauge, name: "search_global_idle_user", description: "", micros: false },
        ),
{
    reveal_strlit("search_global_idle_user");
    assert("search_global_idle_user".spec_bytes() != "tile38_last_gc_time_seconds".spec_bytes()) by { reveal_strlit("tile38_last_gc_time_seconds"); lemma_texts_differ("search_global_idle_user", "tile38_last_gc_time_seconds"); }
    assert("search_global_idle_user".spec_bytes() != "tile38_next_gc_bytes".spec_bytes()) by { reveal_strlit("tile38_next_gc_bytes"); lemma_texts_differ("search_global_idle_user", "tile38_next_gc_bytes"); }
    assert("search_global_idle_user".spec_bytes() != "server_threads".spec_bytes()) by { reveal_strlit("server_threads"); lemma_texts_differ("search_global_idle_user", "server_threads"); }
    assert("search_global_idle_user".spec_bytes() != "long_lock_waits".spec_bytes()) by { reveal_strlit("long_lock_waits"); lemma_texts_differ("search_global_idle_user", "long_lock_waits"); }
    assert("search_global_idle_user".spec_bytes() != "current_client_thread".spec_bytes()) by { reveal_strlit("current_client_thread"); lemma_texts_differ("search_global_idle_user", "current_client_thread"); }
    assert("search_global_idle_user".spec_bytes() != "search_number_of_indexes".spec_bytes()) by { reveal_strlit("search_number_of_indexes"); lemma_texts_differ("search_global_idle_user", "search_number_of_indexes"); }
    assert("search_global_idle_user".spec_bytes() != "search_used_memory_indexes".spec_bytes()) by { reveal_strlit("search_used_memory_indexes"); lemma_texts_differ("search_global_idle_user", "search_used_memory_indexes"); }
    assert("search_global_idle_user".spec_bytes() != "search_global_idle".spec_bytes()) by { reveal_strlit("search_global_idle"); lemma_texts_differ("search_global_idle_user", "search_global_idle"); }
    assert("search_global_idle_user".spec_bytes() != "search_global_total".spec_bytes()) by { reveal_strlit("search_global_total"); lemma_texts_differ("search_global_idle_user", "search_global_total"); }
    assert("search_global_idle_user".spec_bytes() != "search_bytes_collected".spec_bytes()) by { reveal_strlit("search_bytes_collected"); lemma_texts_differ("search_global_idle_user", "search_bytes_collected"); }
    assert("search_global_idle_user".spec_bytes() != "search_dialect_1".spec_bytes()) by { reveal_strlit("search_dialect_1"); lemma_texts_differ("search_global_idle_user", "search_dialect_1"); }
    assert("search_global_idle_user".spec_bytes() != "search_dialect_2".spec_bytes()) by { reveal_strlit("search_dialect_2"); lemma_texts_differ("search_global_idle_user", "search_dialect_2"); }
    assert("search_global_idle_user".spec_bytes() != "search_dialect_3".spec_bytes()) by { reveal_strlit("search_dialect_3"); lemma_texts_differ("search_global_idle_user", "search_dialect_3"); }
    assert("search_global_idle_user".spec_bytes() != "search_dialect_4".spec_bytes()) by { reveal_strlit("search_dialect_4"); lemma_texts_differ("search_global_idle_user", "search_dialect_4"); }
    assert("search_global_idle_user".spec_bytes() != "search_number_of_active_indexes".spec_bytes()) by { reveal_strlit("search_number_of_active_indexes"); lemma_texts_differ("search_global_idle_user", "search_number_of_active_indexes"); }
    assert("search_global_idle_user".spec_bytes() != "search_number_of_active_indexes_running_queries".spec_bytes()) by { reveal_strlit("search_number_of_active_indexes_running_queries"); lemma_texts_differ("search_global_idle_user", "search_number_of_active_indexes_running_queries"); }
    assert("search_global_idle_user".spec_bytes() != "search_number_of_active_indexes_indexing".spec_bytes()) by { reveal_strlit("search_number_of_active_indexes_indexing"); lemma_texts_differ("search_global_idle_user", "search_number_of_active_indexes_indexing"); }
    assert("search_global_idle_user".spec_bytes() != "search_total_active_write_threads".spec_bytes()) by { reveal_strlit("search_total_active_write_threads"); lemma_texts_differ("search_global_idle_user", "search_total_active_write_threads"); }
    assert("search_global_idle_user".spec_bytes() != "search_smallest_memory_index".spec_bytes()) by { reveal_strlit("search_smallest_memory_index"); lemma_texts_differ("search_global_idle_user", "search_smallest_memory_index"); }
    assert("search_global_idle_user".spec_bytes() != "search_largest_memory_index".spec_bytes()) by { reveal_strlit("search_largest_memory_index"); lemma_texts_differ("search_global_idle_user", "search_largest_memory_index"); }
    assert("search_global_idle_user".spec_bytes() != "search_used_memory_vector_index".spec_bytes()) by { reveal_strlit("search_used_memory_vector_index"); lemma_texts_differ("search_global_idle_user", "search_used_memory_vector_index"); }
}

/// The field `search_global_idle_internal` is reported as the gauge `search_global_idle_internal` where part 5 of the table is read.
pub proof fn lemma_field_search_global_idle_internal()
    ensures
        table_part_5("search_global_idle_internal".spec_bytes()) == Some(
            GenericMetric { kind: Kind::Gauge, name: "search_global_idle_internal", description: "", micros: false },
        ),
{
    reveal_strlit("search_global_idle_internal");
    assert("search_global_idle_internal".spec_bytes() != "tile38_last_gc_time_seconds".spec_bytes()) by {
        reveal_strlit("tile38_last_gc_time_seconds");
        assert("search_global_idle_internal"@[0] != "tile38_last_gc_time_seconds"@[0]);
        lemma_texts_differ("search_global_idle_internal", "tile38_last_gc_time_seconds");
    }
    assert("search_global_idle_internal".spec_bytes() != "tile38_next_gc_bytes".spec_bytes()) by { reveal_strlit("tile38_next_gc_bytes"); lemma_texts_differ("search_global_idle_internal", "tile38_next_gc_bytes"); }
    assert("search_global_idle_internal".spec_bytes() != "server_threads".spec_bytes()) by { reveal_strlit("server_threads"); lemma_texts_differ("search_global_idle_internal", "server_threads"); }
    assert("search_global_idle_internal".spec_bytes() != "long_lock_waits".spec_bytes()) by { reveal_strlit("long_lock_waits"); lemma_texts_differ("search_global_idle_internal", "long_lock_waits"); }
    assert("search_global_idle_internal".spec_bytes() != "current_client_thread".spec_bytes()) by { reveal_strlit("current_client_thread"); lemma_texts_differ("search_global_idle_internal", "current_client_thread"); }
    assert("search_global_idle_internal".spec_bytes() != "search_number_of_indexes".spec_bytes()) by { reveal_strlit("search_number_of_indexes"); lemma_texts_differ("search_global_idle_internal", "search_number_of_indexes"); }
    assert("search_global_idle_internal".spec_bytes() != "search_used_memory_indexes".spec_bytes()) by { reveal_strlit("search_used_memory_indexes"); lemma_texts_differ("search_global_idle_internal", "search_used_memory_indexes"); }
    assert("search_global_idle_internal".spec_bytes() != "search_global_idle".spec_bytes()) by { reveal_strlit("search_global_idle"); lemma_texts_differ("search_global_idle_internal", "search_global_idle"); }
    assert("search_global_idle_internal".spec_bytes() != "search_global_total".spec_bytes()) by { reveal_strlit("search_global_total"); lemma_texts_differ("search_global_idle_internal", "search_global_total"); }
    assert("search_global_idle_internal".spec_bytes() != "search_bytes_collected".spec_bytes()) by { reveal_strlit("search_bytes_collected"); lemma_texts_differ("search_global_idle_internal", "search_bytes_collected"); }
    assert("search_global_idle_internal".spec_bytes() != "search_dialect_1".spec_bytes()) by { reveal_strlit("search_dialect_1"); lemma_texts_differ("search_global_idle_internal", "search_dialect_1"); }
    assert("search_global_idle_internal".spec_bytes() != "search_dialect_2".spec_bytes()) by { reveal_strlit("search_dialect_2"); lemma_texts_differ("search_global_idle_internal", "search_dialect_2"); }
    assert("search_global_idle_internal".spec_bytes() != "search_dialect_3".spec_bytes()) by { reveal_strlit("search_dialect_3"); lemma_texts_differ("search_global_idle_internal", "search_dialect_3"); }
    assert("search_global_idle_internal".spec_bytes() != "search_dialect_4".spec_bytes()) by { reveal_strlit("search_dialect_4"); lemma_texts_differ("search_global_idle_internal", "search_dialect_4"); }
    assert("search_global_idle_internal".spec_bytes() != "search_number_of_active_indexes".spec_bytes()) by { reveal_strlit("search_number_of_active_indexes"); lemma_texts_differ("search_global_idle_internal", "search_number_of_active_indexes"); }
    assert("search_global_idle_internal".spec_bytes() != "search_number_of_active_indexes_running_queries".spec_bytes()) by { reveal_strlit("search_number_of_active_indexes_running_queries"); lemma_texts_differ("search_global_idle_internal", "search_number_of_active_indexes_running_queries"); }
    assert("search_global_idle_internal".spec_bytes() != "search_number_of_active_indexes_indexing".spec_bytes()) by { reveal_strlit("search_number_of_active_indexes_indexing"); lemma_texts_differ("search_global_idle_internal", "search_number_of_active_indexes_indexing"); }
    assert("search_global_idle_internal".spec_bytes() != "search_total_active_write_threads".spec_bytes()) by { reveal_strlit("search_total_active_write_threads"); lemma_texts_differ("search_global_idle_internal", "search_total_active_write_threads"); }
    assert("search_global_idle_internal".spec_bytes() != "search_smallest_memory_index".spec_bytes()) by { reveal_strlit("search_smallest_memory_index"); lemma_texts_differ("search_global_idle_internal", "search_smallest_memory_index"); }
    assert("search_global_idle_internal".spec_bytes() != "search_largest_memory_index".spec_bytes()) by {
        reveal_strlit("search_largest_memory_index");
        assert("search_global_idle_internal"@[7] != "search_largest_memory_index"@[7]);
        lemma_texts_differ("search_global_idle_internal", "search_largest_memory_index");
    }
    assert("search_global_idle_internal".spec_bytes() != "search_used_memory_vector_index".spec_bytes()) by { reveal_strlit("search_used_memory_vector_index"); lemma_texts_differ("search_global_idle_internal", "search_used_memory_vector_index"); }
    assert("search_global_idle_internal".spec_bytes() != "search_global_idle_user".spec_bytes()) by { reveal_strlit("search_global_idle_user"); lemma_texts_differ("search_global_idle_internal", "search_global_idle_user"); }
}

/// The field `search_global_total_user` is reported as the gauge `search_global_total_user` where part 5 of the table is read.
pub proof fn lemma_field_search_global_total_user()
    ensures
        table_part_5("search_global_total_user".spec_bytes()) == Some(
            GenericMetric { kind: Kind::Gauge, name: "search_global_total_user", description: "", micros: false },
        ),
{
    reveal_strlit("search_global_total_user");
    assert("search_global_total_user".spec_bytes() != "tile38_last_gc_time_seconds".spec_bytes()) by { reveal_strlit("tile38_last_gc_time_seconds"); lemma_texts_differ("search_global_total_user", "tile38_last_gc_time_seconds"); }
    assert("search_global_total_user".spec_bytes() != "tile38_next_gc_bytes".spec_bytes()) by { reveal_strlit("tile38_next_gc_bytes"); lemma_texts_differ("search_global_total_user", "tile38_next_gc_bytes"); }
    assert("search_global_total_user".spec_bytes() != "server_threads".spec_bytes()) by { reveal_strlit("server_threads"); lemma_texts_differ("search_global_total_user", "server_threads"); }
    assert("search_global_total_user".spec_bytes() != "long_lock_waits".spec_bytes()) by { reveal_strlit("long_lock_waits"); lemma_texts_differ("search_global_total_user", "long_lock_waits"); }
    assert("search_global_total_user".spec_bytes() != "current_client_thread".spec_bytes()) by { reveal_strlit("current_client_thread"); lemma_texts_differ("search_global_total_user", "current_client_thread"); }
    assert("search_global_total_user".spec_bytes() != "search_number_of_indexes".spec_bytes()) by {
        reveal_strlit("search_number_of_indexes");
        assert("search_global_total_user"@[7] != "search_number_of_indexes"@[7]);
        lemma_texts_differ("search_global_total_user", "search_number_of_indexes");
    }
    assert("search_global_total_user".spec_bytes() != "search_used_memory_indexes".spec_bytes()) by { reveal_strlit("search_used_memory_indexes"); lemma_texts_differ("search_global_total_user", "search_used_memory_indexes"); }
    assert("search_global_total_user".spec_bytes() != "search_global_idle".spec_bytes()) by { reveal_strlit("search_global_idle"); lemma_texts_differ("search_global_total_user", "search_global_idle"); }
    assert("search_global_total_user".spec_bytes() != "search_global_total".spec_bytes()) by { reveal_strlit("search_global_total"); lemma_texts_differ("search_global_total_user", "search_global_total"); }
    assert("search_global_total_user".spec_bytes() != "search_bytes_collected".spec_bytes()) by { reveal_strlit("search_bytes_collected"); lemma_texts_differ("search_global_total_user", "search_bytes_collected"); }
    assert("search_global_total_user".spec_bytes() != "search_dialect_1".spec_bytes()) by { reveal_strlit("search_dialect_1"); lemma_texts_differ("search_global_total_user", "search_dialect_1"); }
    assert("search_global_total_user".spec_bytes() != "search_dialect_2".spec_bytes()) by { reveal_strlit("search_dialect_2"); lemma_texts_differ("search_global_total_user", "search_dialect_2"); }
    assert("search_global_total_user".spec_bytes() != "search_dialect_3".spec_bytes()) by { reveal_strlit("search_dialect_3"); lemma_texts_differ("search_global_total_user", "search_dialect_3"); }
    assert("search_global_total_user".spec_bytes() != "search_dialect_4".spec_bytes()) by { reveal_strlit("search_dialect_4"); lemma_texts_differ("search_global_total_user", "search_dialect_4"); }
    assert("search_global_total_user".spec_bytes() != "search_number_of_active_indexes".spec_bytes()) by { reveal_strlit("search_number_of_active_indexes"); lemma_texts_differ("search_global_total_user", "search_number_of_active_indexes"); }
    assert("search_global_total_user".spec_bytes() != "search_number_of_active_indexes_running_queries".spec_bytes()) by { reveal_strlit("search_number_of_active_indexes_running_queries"); lemma_texts_differ("search_global_total_user", "search_number_of_active_indexes_running_queries"); }
    assert("search_global_total_user".spec_bytes() != "search_number_of_active_indexes_indexing".spec_bytes()) by { reveal_strlit("search_number_of_active_indexes_indexing"); lemma_texts_differ("search_global_total_user", "search_number_of_active_indexes_indexing"); }
    assert("search_global_total_user".spec_bytes() != "search_total_active_write_threads".spec_bytes()) by { reveal_strlit("search_total_active_write_threads"); lemma_texts_differ("search_global_total_user", "search_total_active_write_threads"); }
    assert("search_global_total_user".spec_bytes() != "search_smallest_memory_index".spec_bytes()) by { reveal_strlit("search_smallest_memory_index"); lemma_texts_differ("search_global_total_user", "search_smallest_memory_index"); }
    assert("search_global_total_user".spec_bytes() != "search_largest_memory_index".spec_bytes()) by { reveal_strlit("search_largest_memory_index"); lemma_texts_differ("search_global_total_user", "search_largest_memory_index"); }
    assert("search_global_total_user".spec_bytes() != "search_used_memory_vector_index".spec_bytes()) by { reveal_strlit("search_used_memory_vector_index"); lemma_texts_differ("search_global_total_user", "search_used_memory_vector_index"); }
    assert("search_global_total_user".spec_bytes() != "search_global_idle_user".spec_bytes()) by { reveal_strlit("search_global_idle_user"); lemma_texts_differ("search_global_total_user", "search_global_idle_user"); }
    assert("search_global_total_user".spec_bytes() != "search_global_idle_internal".spec_bytes()) by { reveal_strlit("search_global_idle_internal"); lemma_texts_differ("search_global_total_user", "search_global_idle_internal"); }
}

/// The field `search_global_total_internal` is reported as the gauge `search_global_total_internal` where part 5 of the table is read.
pub proof fn lemma_field_search_global_total_internal()
    ensures
        table_part_5("search_global_total_internal".spec_bytes()) == Some(
            GenericMetric { kind: Kind::Gauge, name: "search_global_total_internal", description: "", micros: false },
        ),
{
    reveal_strlit("search_global_total_internal");
    assert("search_global_total_internal".spec_bytes() != "tile38_last_gc_time_seconds".spec_bytes()) by { reveal_strlit("tile38_last_gc_time_seconds"); lemma_texts_differ("search_global_total_internal", "tile38_last_gc_time_seconds"); }
    assert("search_global_total_internal".spec_bytes() != "tile38_next_gc_bytes".spec_bytes()) by { reveal_strlit("tile38_next_gc_bytes"); lemma_texts_differ("search_global_total_internal", "tile38_next_gc_bytes"); }
    assert("search_global_total_internal".spec_bytes() != "server_threads".spec_bytes()) by { reveal_strlit("server_threads"); lemma_texts_differ("search_global_total_internal", "server_threads"); }
    assert("search_global_total_internal".spec_bytes() != "long_lock_waits".spec_bytes()) by { reveal_strlit("long_lock_waits"); lemma_texts_differ("search_global_total_internal", "long_lock_waits"); }
    assert("search_global_total_internal".spec_bytes() != "current_client_thread".spec_bytes()) by { reveal_strlit("current_client_thread"); lemma_texts_differ("search_global_total_internal", "current_client_thread"); }
    assert("search_global_total_internal".spec_bytes() != "search_number_of_indexes".spec_bytes()) by { reveal_strlit("search_number_of_indexes"); lemma_texts_differ("search_global_total_internal", "search_number_of_indexes"); }
    assert("search_global_total_internal".spec_bytes() != "search_used_memory_indexes".spec_bytes()) by { reveal_strlit("search_used_memory_indexes"); lemma_texts_differ("search_global_total_internal", "search_used_memory_indexes"); }
    assert("search_global_total_internal".spec_bytes() != "search_global_idle".spec_bytes()) by { reveal_strlit("search_global_idle"); lemma_texts_differ("search_global_total_internal", "search_global_idle"); }
    assert("search_global_total_internal".spec_bytes() != "search_global_total".spec_bytes()) by { reveal_strlit("search_global_total"); lemma_texts_differ("search_global_total_internal", "search_global_total"); }
    assert("search_global_total_internal".spec_bytes() != "search_bytes_collected".spec_bytes()) by { reveal_strlit("search_bytes_collected"); lemma_texts_differ("search_global_total_internal", "search_bytes_collected"); }
    assert("search_global_total_internal".spec_bytes() != "search_dialect_1".spec_bytes()) by { reveal_strlit("search_dialect_1"); lemma_texts_differ("search_global_total_internal", "search_dialect_1"); }
    assert("search_global_total_internal".spec_bytes() != "search_dialect_2".spec_bytes()) by { reveal_strlit("search_dialect_2"); lemma_texts_differ("search_global_total_internal", "search_dialect_2"); }
    assert("search_global_total_internal".spec_bytes() != "search_dialect_3".spec_bytes()) by { reveal_strlit("search_dialect_3"); lemma_texts_differ("search_global_total_internal", "search_dialect_3"); }
    assert("search_global_total_internal".spec_bytes() != "search_dialect_4".spec_bytes()) by { reveal_strlit("search_dialect_4"); lemma_texts_differ("search_global_total_internal", "search_dialect_4"); }
    assert("search_global_total_internal".spec_bytes() != "search_number_of_active_indexes".spec_bytes()) by { reveal_strlit("search_number_of_active_indexes"); lemma_texts_differ("search_global_total_internal", "search_number_of_active_indexes"); }
    assert("search_global_total_internal".spec_bytes() != "search_number_of_active_indexes_running_queries".spec_bytes()) by { reveal_strlit("search_number_of_active_indexes_running_queries"); lemma_texts_differ("search_global_total_internal", "search_number_of_active_indexes_running_queries"); }
    assert("search_global_total_internal".spec_bytes() != "search_number_of_active_indexes_indexing".spec_bytes()) by { reveal_strlit("search_number_of_active_indexes_indexing"); lemma_texts_differ("search_global_total_internal", "search_number_of_active_indexes_indexing"); }
    assert("search_global_total_internal".spec_bytes() != "search_total_active_write_threads".spec_bytes()) by { reveal_strlit("search_total_active_write_threads"); lemma_texts_differ("search_global_total_internal", "search_total_active_write_threads"); }
    assert("search_global_total_internal".spec_bytes() != "search_smallest_memory_index".spec_bytes()) by {
        reveal_strlit("search_smallest_memory_index");
        assert("search_global_total_internal"@[7] != "search_smallest_memory_index"@[7]);
        lemma_texts_differ("search_global_total_internal", "search_smallest_memory_index");
    }
    assert("search_global_total_internal".spec_bytes() != "search_largest_memory_index".spec_bytes()) by { reveal_strlit("search_largest_memory_index"); lemma_texts_differ("search_global_total_internal", "search_largest_memory_index"); }
    assert("search_global_total_internal".spec_bytes() != "search_used_memory_vector_index".spec_bytes()) by { reveal_strlit("search_used_memory_vector_index"); lemma_texts_differ("search_global_total_internal", "search_used_memory_vector_index"); }
    assert("search_global_total_internal".spec_bytes() != "search_global_idle_user".spec_bytes()) by { reveal_strlit("search_global_idle_user"); lemma_texts_differ("search_global_total_internal", "search_global_idle_user"); }
    assert("search_global_total_internal".spec_bytes() != "search_global_idle_internal".spec_bytes()) by { reveal_strlit("search_global_idle_internal"); lemma_texts_differ("search_global_total_internal", "search_global_idle_internal"); }
    assert("search_global_total_internal".spec_bytes() != "search_global_total_user".spec_bytes()) by { reveal_strlit("search_global_total_user"); lemma_texts_differ("search_global_total_internal", "search_global_total_user"); }
}

/// The field `search_gc_bytes_collected` is reported as the gauge `search_gc_collected_bytes` where part 5 of the table is read.
pub proof fn lemma_field_search_gc_bytes_collected()
    ensures
        table_part_5("search_gc_bytes_collected".spec_bytes()) == Some(
            GenericMetric { kind: Kind::Gauge, name: "search_gc_collected_bytes", description: "The total amount of memory freed by the garbage collectors from indexes in the shard's memory in bytes", micros: false },
        ),
{
    reveal_strlit("search_gc_bytes_collected");
    assert("search_gc_bytes_collected".spec_bytes() != "tile38_last_gc_time_seconds".spec_bytes()) by { reveal_strlit("tile38_last_gc_time_seconds"); lemma_texts_differ("search_gc_bytes_collected", "tile38_last_gc_time_seconds"); }
    assert("search_gc_bytes_collected".spec_bytes() != "tile38_next_gc_bytes".spec_bytes()) by { reveal_strlit("tile38_next_gc_bytes"); lemma_texts_differ("search_gc_bytes_collected", "tile38_next_gc_bytes"); }
    assert("search_gc_bytes_collected".spec_bytes() != "server_threads".spec_bytes()) by { reveal_strlit("server_threads"); lemma_texts_differ("search_gc_bytes_collected", "server_threads"); }
    assert("search_gc_bytes_collected".spec_bytes() != "long_lock_waits".spec_bytes()) by { reveal_strlit("long_lock_waits"); lemma_texts_differ("search_gc_bytes_collected", "long_lock_waits"); }
    assert("search_gc_bytes_collected".spec_bytes() != "current_client_thread".spec_bytes()) by { reveal_strlit("current_client_thread"); lemma_texts_differ("search_gc_bytes_collected", "current_client_thread"); }
    assert("search_gc_bytes_collected".spec_bytes() != "search_number_of_indexes".spec_bytes()) by { reveal_strlit("search_number_of_indexes"); lemma_texts_differ("search_gc_bytes_collected", "search_number_of_indexes"); }
    assert("search_gc_bytes_collected".spec_bytes() != "search_used_memory_indexes".spec_bytes()) by { reveal_strlit("search_used_memory_indexes"); lemma_texts_differ("search_gc_bytes_collected", "search_used_memory_indexes"); }
    assert("search_gc_bytes_collected".spec_bytes() != "search_global_idle".spec_bytes()) by { reveal_strlit("search_global_idle"); lemma_texts_differ("search_gc_bytes_collected", "search_global_idle"); }
    assert("search_gc_bytes_collected".spec_bytes() != "search_global_total".spec_bytes()) by { reveal_strlit("search_global_total"); lemma_texts_differ("search_gc_bytes_collected", "search_global_total"); }
    assert("search_gc_bytes_collected".spec_bytes() != "search_bytes_collected".spec_bytes()) by { reveal_strlit("search_bytes_collected"); lemma_texts_differ("search_gc_bytes_collected", "search_bytes_collected"); }
    assert("search_gc_bytes_collected".spec_bytes() != "search_dialect_1".spec_bytes()) by { reveal_strlit("search_dialect_1"); lemma_texts_differ("search_gc_bytes_collected", "search_dialect_1"); }
    assert("search_gc_bytes_collected".spec_bytes() != "search_dialect_2".spec_bytes()) by { reveal_strlit("search_dialect_2"); lemma_texts_differ("search_gc_bytes_collected", "search_dialect_2"); }
    assert("search_gc_bytes_collected".spec_bytes() != "search_dialect_3".spec_bytes()) by { reveal_strlit("search_dialect_3"); lemma_texts_differ("search_gc_bytes_collected", "search_dialect_3"); }
    assert("search_gc_bytes_collected".spec_bytes() != "search_dialect_4".spec_bytes()) by { reveal_strlit("search_dialect_4"); lemma_texts_differ("search_gc_bytes_collected", "search_dialect_4"); }
    assert("search_gc_bytes_collected".spec_bytes() != "search_number_of_active_indexes".spec_bytes()) by { reveal_strlit("search_number_of_active_indexes"); lemma_texts_differ("search_gc_bytes_collected", "search_number_of_active_indexes"); }
    assert("search_gc_bytes_collected".spec_bytes() != "search_number_of_active_indexes_running_queries".spec_bytes()) by { reveal_strlit("search_number_of_active_indexes_running_queries"); lemma_texts_differ("search_gc_bytes_collected", "search_number_of_active_indexes_running_queries"); }
    assert("search_gc_bytes_collected".spec_bytes() != "search_number_of_active_indexes_indexing".spec_bytes()) by { reveal_strlit("search_number_of_active_indexes_indexing"); lemma_texts_differ("search_gc_bytes_collected", "search_number_of_active_indexes_indexing"); }
    assert("search_gc_bytes_collected".spec_bytes() != "search_total_active_write_threads".spec_bytes()) by { reveal_strlit("search_total_active_write_threads"); lemma_texts_differ("search_gc_bytes_collected", "search_total_active_write_threads"); }
    assert("search_gc_bytes_collected".spec_bytes() != "search_smallest_memory_index".spec_bytes()) by { reveal_strlit("search_smallest_memory_index"); lemma_texts_differ("search_gc_bytes_collected", "search_smallest_memory_index"); }
    assert("search_gc_bytes_collected".spec_bytes() != "search_largest_memory_index".spec_bytes()) by { reveal_strlit("search_largest_memory_index"); lemma_texts_differ("search_gc_bytes_collected", "search_largest_memory_index"); }
    assert("search_gc_bytes_collected".spec_bytes() != "search_used_memory_vector_index".spec_bytes()) by { reveal_strlit("search_used_memory_vector_index"); lemma_texts_differ("search_gc_bytes_collected", "search_used_memory_vector_index"); }
    assert("search_gc_bytes_collected".spec_bytes() != "search_global_idle_user".spec_bytes()) by { reveal_strlit("search_global_idle_user"); lemma_texts_differ("search_gc_bytes_collected", "search_global_idle_user"); }
    assert("search_gc_bytes_collected".spec_bytes() != "search_global_idle_internal".spec_bytes()) by { reveal_strlit("search_global_idle_internal"); lemma_texts_differ("search_gc_bytes_collected", "search_global_idle_internal"); }
    assert("search_gc_bytes_collected".spec_bytes() != "search_global_total_user".spec_bytes()) by { reveal_strlit("search_global_total_user"); lemma_texts_differ("search_gc_bytes_collected", "search_global_total_user"); }
    assert("search_gc_bytes_collected".spec_bytes() != "search_global_total_internal".spec_bytes()) by { reveal_strlit("search_global_total_internal"); lemma_texts_differ("search_gc_bytes_collected", "search_global_total_internal"); }
}

/// The field `search_gc_total_docs_not_collected` is reported as the gauge `search_gc_total_docs_not_collected` where part 5 of the table is read.
pub proof fn lemma_field_search_gc_total_docs_not_collected()
    ensures
        table_part_5("search_gc_total_docs_not_collected".spec_bytes()) == Some(
            GenericMetric { kind: Kind::Gauge, name: "search_gc_total_docs_not_collected", description: "The number of documents marked as deleted, whose memory has not yet been freed by the garbage collector", micros: false },
        ),
{
    reveal_strlit("search_gc_total_docs_not_collected");
    assert("search_gc_total_docs_not_collected".spec_bytes() != "tile38_last_gc_time_seconds".spec_bytes()) by { reveal_strlit("tile38_last_gc_time_seconds"); lemma_texts_differ("search_gc_total_docs_not_collected", "tile38_last_gc_time_seconds"); }
    assert("search_gc_total_docs_not_collected".spec_bytes() != "tile38_next_gc_bytes".spec_bytes()) by { reveal_strlit("tile38_next_gc_bytes"); lemma_texts_differ("search_gc_total_docs_not_collected", "tile38_next_gc_bytes"); }
    assert("search_gc_total_docs_not_collected".spec_bytes() != "server_threads".spec_bytes()) by { reveal_strlit("server_threads"); lemma_texts_differ("search_gc_total_docs_not_collected", "server_threads"); }
    assert("search_gc_total_docs_not_collected".spec_bytes() != "long_lock_waits".spec_bytes()) by { reveal_strlit("long_lock_waits"); lemma_texts_differ("search_gc_total_docs_not_collected", "long_lock_waits"); }
    assert("search_gc_total_docs_not_collected".spec_bytes() != "current_client_thread".spec_bytes()) by { reveal_strlit("current_client_thread"); lemma_texts_differ("search_gc_total_docs_not_collected", "current_client_thread"); }
    assert("search_gc_total_docs_not_collected".spec_bytes() != "search_number_of_indexes".spec_bytes()) by { reveal_strlit("search_number_of_indexes"); lemma_texts_differ("search_gc_total_docs_not_collected", "search_number_of_indexes"); }
    assert("search_gc_total_docs_not_collected".spec_bytes() != "search_used_memory_indexes".spec_bytes()) by { reveal_strlit("search_used_memory_indexes"); lemma_texts_differ("search_gc_total_docs_not_collected", "search_used_memory_indexes"); }
    assert("search_gc_total_docs_not_collected".spec_bytes() != "search_global_idle".spec_bytes()) by { reveal_strlit("search_global_idle"); lemma_texts_differ("search_gc_total_docs_not_collected", "search_global_idle"); }
    assert("search_gc_total_docs_not_collected".spec_bytes() != "search_global_total".spec_bytes()) by { reveal_strlit("search_global_total"); lemma_texts_differ("search_gc_total_docs_not_collected", "search_global_total"); }
    assert("search_gc_total_docs_not_collected".spec_bytes() != "search_bytes_collected".spec_bytes()) by { reveal_strlit("search_bytes_collected"); lemma_texts_differ("search_gc_total_docs_not_collected", "search_bytes_collected"); }
    assert("search_gc_total_docs_not_collected".spec_bytes() != "search_dialect_1".spec_bytes()) by { reveal_strlit("search_dialect_1"); lemma_texts_differ("search_gc_total_docs_not_collected", "search_dialect_1"); }
    assert("search_gc_total_docs_not_collected".spec_bytes() != "search_dialect_2".spec_bytes()) by { reveal_strlit("search_dialect_2"); lemma_texts_differ("search_gc_total_docs_not_collected", "search_dialect_2"); }
    assert("search_gc_total_docs_not_collected".spec_bytes() != "search_dialect_3".spec_bytes()) by { reveal_strlit("search_dialect_3"); lemma_texts_differ("search_gc_total_docs_not_collected", "search_dialect_3"); }
    assert("search_gc_total_docs_not_collected".spec_bytes() != "search_dialect_4".spec_bytes()) by { reveal_strlit("search_dialect_4"); lemma_texts_differ("search_gc_total_docs_not_collected", "search_dialect_4"); }
    assert("search_gc_total_docs_not_collected".spec_bytes() != "search_number_of_active_indexes".spec_bytes()) by { reveal_strlit("search_number_of_active_indexes"); lemma_texts_differ("search_gc_total_docs_not_collected", "search_number_of_active_indexes"); }
    assert("search_gc_total_docs_not_collected".spec_bytes() != "search_number_of_active_indexes_running_queries".spec_bytes()) by { reveal_strlit("search_number_of_active_indexes_running_queries"); lemma_texts_differ("search_gc_total_docs_not_collected", "search_number_of_active_indexes_running_queries"); }
    assert("search_gc_total_docs_not_collected".spec_bytes() != "search_number_of_active_indexes_indexing".spec_bytes()) by { reveal_strlit("search_number_of_active_indexes_indexing"); lemma_texts_differ("search_gc_total_docs_not_collected", "search_number_of_active_indexes_indexing"); }
    assert("search_gc_total_docs_not_collected".spec_bytes() != "search_total_active_write_threads".spec_bytes()) by { reveal_strlit("search_total_active_write_threads"); lemma_texts_differ("search_gc_total_docs_not_collected", "search_total_active_write_threads"); }
    assert("search_gc_total_docs_not_collected".spec_bytes() != "search_smallest_memory_index".spec_bytes()) by { reveal_strlit("search_smallest_memory_index"); lemma_texts_differ("search_gc_total_docs_not_collected", "search_smallest_memory_index"); }
    assert("search_gc_total_docs_not_collected".spec_bytes() != "search_largest_memory_index".spec_bytes()) by { reveal_strlit("search_largest_memory_index"); lemma_texts_differ("search_gc_total_docs_not_collected", "search_largest_memory_index"); }
    assert("search_gc_total_docs_not_collected".spec_bytes() != "search_used_memory_vector_index".spec_bytes()) by { reveal_strlit("search_used_memory_vector_index"); lemma_texts_differ("search_gc_total_docs_not_collected", "search_used_memory_vector_index"); }
    assert("search_gc_total_docs_not_collected".spec_bytes() != "search_global_idle_user".spec_bytes()) by { reveal_strlit("search_global_idle_user"); lemma_texts_differ("search_gc_total_docs_not_collected", "search_global_idle_user"); }
    assert("search_gc_total_docs_not_collected".spec_bytes() != "search_global_idle_internal".spec_bytes()) by { reveal_strlit("search_global_idle_internal"); lemma_texts_differ("search_gc_total_docs_not_collected", "search_global_idle_internal"); }
    assert("search_gc_total_docs_not_collected".spec_bytes() != "search_global_total_user".spec_bytes()) by { reveal_strlit("search_global_total_user"); lemma_texts_differ("search_gc_total_docs_not_collected", "search_global_total_user"); }
    assert("search_gc_total_docs_not_collected".spec_bytes() != "search_global_total_internal".spec_bytes()) by { reveal_strlit("search_global_total_internal"); lemma_texts_differ("search_gc_total_docs_not_collected", "search_global_total_internal"); }
    assert("search_gc_total_docs_not_collected".spec_bytes() != "search_gc_bytes_collected".spec_bytes()) by { reveal_strlit("search_gc_bytes_collected"); lemma_texts_differ("search_gc_total_docs_not_collected", "search_gc_bytes_collected"); }
}

/// The field `search_gc_marked_deleted_vectors` is reported as the gauge `search_gc_marked_deleted_vectors` where part 6 of the table is read.
pub proof fn lemma_field_search_gc_marked_deleted_vectors()
    ensures
        table_part_6("search_gc_marked_deleted_vectors".spec_bytes()) == Some(
            GenericMetric { kind: Kind::Gauge, name: "search_gc_marked_deleted_vectors", description: "The number of vectors marked as deleted in the vector indexes that have not yet been cleaned", micros: false },
        ),
{

}

/// The field `search_errors_indexing_failures` is reported as the gauge `search_errors_indexing_failures` where part 6 of the table is read.
pub proof fn lemma_field_search_errors_indexing_failures()
    ensures
        table_part_6("search_errors_indexing_failures".spec_bytes()) == Some(
            GenericMetric { kind: Kind::Gauge, name: "search_errors_indexing_failures", description: "The total number of indexing failures recorded across all indexes in the shard", micros: false },
        ),
{
    reveal_strlit("search_errors_indexing_failures");
    assert("search_errors_indexing_failures".spec_bytes() != "search_gc_marked_deleted_vectors".spec_bytes()) by { reveal_strlit("search_gc_marked_deleted_vectors"); lemma_texts_differ("search_errors_indexing_failures", "search_gc_marked_deleted_vectors"); }
}

/// The field `total_connections_received` is reported as the counter `connections_received_total` where part 6 of the table is read.
pub proof fn lemma_field_total_connections_received()
    ensures
        table_part_6("total_connections_received".spec_bytes()) == Some(
            GenericMetric { kind: Kind::Sum, name: "connections_received_total", description: "Total number of connections accepted by the server", micros: false },
        ),
{
    reveal_strlit("total_connections_received");
    assert("total_connections_received".spec_bytes() != "search_gc_marked_deleted_vectors".spec_bytes()) by { reveal_strlit("search_gc_marked_deleted_vectors"); lemma_texts_differ("total_connections_received", "search_gc_marked_deleted_vectors"); }
    assert("total_connections_received".spec_bytes() != "search_errors_indexing_failures".spec_bytes()) by { reveal_strlit("search_errors_indexing_failures"); lemma_texts_differ("total_connections_received", "search_errors_indexing_failures"); }
}

/// The field `total_commands_processed` is reported as the counter `commands_processed_total` where part 6 of the table is read.
pub proof fn lemma_field_total_commands_processed()
    ensures
        table_part_6("total_commands_processed".spec_bytes()) == Some(
            GenericMetric { kind: Kind::Sum, name: "commands_processed_total", description: "Total number of commands processed by the server", micros: false },
        ),
{
    reveal_strlit("total_commands_processed");
    assert("total_commands_processed".spec_bytes() != "search_gc_marked_deleted_vectors".spec_bytes()) by { reveal_strlit("search_gc_marked_deleted_vectors"); lemma_texts_differ("total_commands_processed", "search_gc_marked_deleted_vectors"); }
    assert("total_commands_processed".spec_bytes() != "search_errors_indexing_failures".spec_bytes()) by { reveal_strlit("search_errors_indexing_failures"); lemma_texts_differ("total_commands_processed", "search_errors_indexing_failures"); }
    assert("total_commands_processed".spec_bytes() != "total_connections_received".spec_bytes()) by { reveal_strlit("total_connections_received"); lemma_texts_differ("total_commands_processed", "total_connections_received"); }
}

/// The field `rejected_connections` is reported as the counter `rejected_connections_total` where part 6 of the table is read.
pub proof fn lemma_field_rejected_connections()
    ensures
        table_part_6("rejected_connections".spec_bytes()) == Some(
            GenericMetric { kind: Kind::Sum, name: "rejected_connections_total", description: "Number of connections rejected because of maxclients limit", micros: false },
        ),
{
    reveal_strlit("rejected_connections");
    assert("rejected_connections".spec_bytes() != "search_gc_marked_deleted_vectors".spec_bytes()) by { reveal_strlit("search_gc_marked_deleted_vectors"); lemma_texts_differ("rejected_connections", "search_gc_marked_deleted_vectors"); }
    assert("rejected_connections".spec_bytes() != "search_errors_indexing_failures".spec_bytes()) by { reveal_strlit("search_errors_indexing_failures"); lemma_texts_differ("rejected_connections", "search_errors_indexing_failures"); }
    assert("rejected_connections".spec_bytes() != "total_connections_received".spec_bytes()) by { reveal_strlit("total_connections_received"); lemma_texts_differ("rejected_connections", "total_connections_received"); }
    assert("rejected_connections".spec_bytes() != "total_commands_processed".spec_bytes()) by { reveal_strlit("total_commands_processed"); lemma_texts_differ("rejected_connections", "total_commands_processed"); }
}

/// The field `total_net_input_bytes` is reported as the counter `net_input_bytes_total` where part 6 of the table is read.
pub proof fn lemma_field_total_net_input_bytes()
    ensures
        table_part_6("total_net_input_bytes".spec_bytes()) == Some(
            GenericMetric { kind: Kind::Sum, name: "net_input_bytes_total", description: "The total number of bytes read from the network", micros: false },
        ),
{
    reveal_strlit("total_net_input_bytes");
    assert("total_net_input_bytes".spec_bytes() != "search_gc_marked_deleted_vectors".spec_bytes()) by { reveal_strlit("search_gc_marked_deleted_vectors"); lemma_texts_differ("total_net_input_bytes", "search_gc_marked_deleted_vectors"); }
    assert("total_net_input_bytes".spec_bytes() != "search_errors_indexing_failures".spec_bytes()) by { reveal_strlit("search_errors_indexing_failures"); lemma_texts_differ("total_net_input_bytes", "search_errors_indexing_failures"); }
    assert("total_net_input_bytes".spec_bytes() != "total_connections_received".spec_bytes()) by { reveal_strlit("total_connections_received"); lemma_texts_differ("total_net_input_bytes", "total_connections_received"); }
    assert("total_net_input_bytes".spec_bytes() != "total_commands_processed".spec_bytes()) by { reveal_strlit("total_commands_processed"); lemma_texts_differ("total_net_input_bytes", "total_commands_processed"); }
    assert("total_net_input_bytes".spec_bytes() != "rejected_connections".spec_bytes()) by { reveal_strlit("rejected_connections"); lemma_texts_differ("total_net_input_bytes", "rejected_connections"); }
}

/// The field `total_net_output_bytes` is reported as the counter `net_output_bytes_total` where part 6 of the table is read.
pub proof fn lemma_field_total_net_output_bytes()
    ensures
        table_part_6("total_net_output_bytes".spec_bytes()) == Some(
            GenericMetric { kind: Kind::Sum, name: "net_output_bytes_total", description: "The total number of bytes written to the network", micros: false },
        ),
{
    reveal_strlit("total_net_output_bytes");
    assert("total_net_output_bytes".spec_bytes() != "search_gc_marked_deleted_vectors".spec_bytes()) by { reveal_strlit("search_gc_marked_deleted_vectors"); lemma_texts_differ("total_net_output_bytes", "search_gc_marked_deleted_vectors"); }
    assert("total_net_output_bytes".spec_bytes() != "search_errors_indexing_failures".spec_bytes()) by { reveal_strlit("search_errors_indexing_failures"); lemma_texts_differ("total_net_output_bytes", "search_errors_indexing_failures"); }
    assert("total_net_output_bytes".spec_bytes() != "total_connections_received".spec_bytes()) by { reveal_strlit("total_connections_received"); lemma_texts_differ("total_net_output_bytes", "total_connections_received"); }
    assert("total_net_output_bytes".spec_bytes() != "total_commands_processed".spec_bytes()) by { reveal_strlit("total_commands_processed"); lemma_texts_differ("total_net_output_bytes", "total_commands_processed"); }
    assert("total_net_output_bytes".spec_bytes() != "rejected_connections".spec_bytes()) by { reveal_strlit("rejected_connections"); lemma_texts_differ("total_net_output_bytes", "rejected_connections"); }
    assert("total_net_output_bytes".spec_bytes() != "total_net_input_bytes".spec_bytes()) by { reveal_strlit("total_net_input_bytes"); lemma_texts_differ("total_net_output_bytes", "total_net_input_bytes"); }
}

/// The field `total_net_repl_input_bytes` is reported as the counter `net_repl_input_bytes_total` where part 6 of the table is read.
pub proof fn lemma_field_total_net_repl_input_bytes()
    ensures
        table_part_6("total_net_repl_input_bytes".spec_bytes()) == Some(
            GenericMetric { kind: Kind::Sum, name: "net_repl_input_bytes_total", description: "The total number of bytes read from the network for replication purposes", micros: false },
        ),
{
    reveal_strlit("total_net_repl_input_bytes");
    assert("total_net_repl_input_bytes".spec_bytes() != "search_gc_marked_deleted_vectors".spec_bytes()) by { reveal_strlit("search_gc_marked_deleted_vectors"); lemma_texts_differ("total_net_repl_input_bytes", "search_gc_marked_deleted_vectors"); }
    assert("total_net_repl_input_bytes".spec_bytes() != "search_errors_indexing_failures".spec_bytes()) by { reveal_strlit("search_errors_indexing_failures"); lemma_texts_differ("total_net_repl_input_bytes", "search_errors_indexing_failures"); }
    assert("total_net_repl_input_bytes".spec_bytes() != "total_connections_received".spec_bytes()) by {
        reveal_strlit("total_connections_received");
        assert("total_net_repl_input_bytes"@[6] != "total_connections_received"@[6]);
        lemma_texts_differ("total_net_repl_input_bytes", "total_connections_received");
    }
    assert("total_net_repl_input_bytes".spec_bytes() != "total_commands_processed".spec_bytes()) by { reveal_strlit("total_commands_processed"); lemma_texts_differ("total_net_repl_input_bytes", "total_commands_processed"); }
    assert("total_net_repl_input_bytes".spec_bytes() != "rejected_connections".spec_bytes()) by { reveal_strlit("rejected_connections"); lemma_texts_differ("total_net_repl_input_bytes", "rejected_connections"); }
    assert("total_net_repl_input_bytes".spec_bytes() != "total_net_input_bytes".spec_bytes()) by { reveal_strlit("total_net_input_bytes"); lemma_texts_differ("total_net_repl_input_bytes", "total_net_input_bytes"); }
    assert("total_net_repl_input_bytes".spec_bytes() != "total_net_output_bytes".spec_bytes()) by { reveal_strlit("total_net_output_bytes"); lemma_texts_differ("total_net_repl_input_bytes", "total_net_output_bytes"); }
}

/// The field `total_net_repl_output_bytes` is reported as the counter `net_repl_output_bytes_total` where part 6 of the table is read.
pub proof fn lemma_field_total_net_repl_output_bytes()
    ensures
        table_part_6("total_net_repl_output_bytes".spec_bytes()) == Some(
            GenericMetric { kind: Kind::Sum, name: "net_repl_output_bytes_total", description: "The total number of bytes written to the network for replication purposes", micros: false },
        ),
{
    reveal_strlit("total_net_repl_output_bytes");
    assert("total_net_repl_output_bytes".spec_bytes() != "search_gc_marked_deleted_vectors".spec_bytes()) by { reveal_strlit("search_gc_marked_deleted_vectors"); lemma_texts_differ("total_net_repl_output_bytes", "search_gc_marked_deleted_vectors"); }
    assert("total_net_repl_output_bytes".spec_bytes() != "search_errors_indexing_failures".spec_bytes()) by { reveal_strlit("search_errors_indexing_failures"); lemma_texts_differ("total_net_repl_output_bytes", "search_errors_indexing_failures"); }
    assert("total_net_repl_output_bytes".spec_bytes() != "total_connections_received".spec_bytes()) by { reveal_strlit("total_connections_received"); lemma_texts_differ("total_net_repl_output_bytes", "total_connections_received"); }
    assert("total_net_repl_output_bytes".spec_bytes() != "total_commands_processed".spec_bytes()) by { reveal_strlit("total_commands_processed"); lemma_texts_differ("total_net_repl_output_bytes", "total_commands_processed"); }
    assert("total_net_repl_output_bytes".spec_bytes() != "rejected_connections".spec_bytes()) by { reveal_strlit("rejected_connections"); lemma_texts_differ("total_net_repl_output_bytes", "rejected_connections"); }
    assert("total_net_repl_output_bytes".spec_bytes() != "total_net_input_bytes".spec_bytes()) by { reveal_strlit("total_net_input_bytes"); lemma_texts_differ("total_net_repl_output_bytes", "total_net_input_bytes"); }
    assert("total_net_repl_output_bytes".spec_bytes() != "total_net_output_bytes".spec_bytes()) by { reveal_strlit("total_net_output_bytes"); lemma_texts_differ("total_net_repl_output_bytes", "total_net_output_bytes"); }
    assert("total_net_repl_output_bytes".spec_bytes() != "total_net_repl_input_bytes".spec_bytes()) by { reveal_strlit("total_net_repl_input_bytes"); lemma_texts_differ("total_net_repl_output_bytes", "total_net_repl_input_bytes"); }
}

/// The field `expired_subkeys` is reported as the counter `expired_subkeys_total` where part 6 of the table is read.
pub proof fn lemma_field_expired_subkeys()
    ensures
        table_part_6("expired_subkeys".spec_bytes()) == Some(
            GenericMetric { kind: Kind::Sum, name: "expired_subkeys_total", description: "The number of hash field expiration events", micros: false },
        ),
{
    reveal_strlit("expired_subkeys");
    assert("expired_subkeys".spec_bytes() != "search_gc_marked_deleted_vectors".spec_bytes()) by { reveal_strlit("search_gc_marked_deleted_vectors"); lemma_texts_differ("expired_subkeys", "search_gc_marked_deleted_vectors"); }
    assert("expired_subkeys".spec_bytes() != "search_errors_indexing_failures".spec_bytes()) by { reveal_strlit("search_errors_indexing_failures"); lemma_texts_differ("expired_subkeys", "search_errors_indexing_failures"); }
    assert("expired_subkeys".spec_bytes() != "total_connections_received".spec_bytes()) by { reveal_strlit("total_connections_received"); lemma_texts_differ("expired_subkeys", "total_connections_received"); }
    assert("expired_subkeys".spec_bytes() != "total_commands_processed".spec_bytes()) by { reveal_strlit("total_commands_processed"); lemma_texts_differ("expired_subkeys", "total_commands_processed"); }
    assert("expired_subkeys".spec_bytes() != "rejected_connections".spec_bytes()) by { reveal_strlit("rejected_connections"); lemma_texts_differ("expired_subkeys", "rejected_connections"); }
    assert("expired_subkeys".spec_bytes() != "total_net_input_bytes".spec_bytes()) by { reveal_strlit("total_net_input_bytes"); lemma_texts_differ("expired_subkeys", "total_net_input_bytes"); }
    assert("expired_subkeys".spec_bytes() != "total_net_output_bytes".spec_bytes()) by { reveal_strlit("total_net_output_bytes"); lemma_texts_differ("expired_subkeys", "total_net_output_bytes"); }
    assert("expired_subkeys".spec_bytes() != "total_net_repl_input_bytes".spec_bytes()) by { reveal_strlit("total_net_repl_input_bytes"); lemma_texts_differ("expired_subkeys", "total_net_repl_input_bytes"); }
    assert("expired_subkeys".spec_bytes() != "total_net_repl_output_bytes".spec_bytes()) by { reveal_strlit("total_net_repl_output_bytes"); lemma_texts_differ("expired_subkeys", "total_net_repl_output_bytes"); }
}

/// The field `expired_keys` is reported as the counter `expired_keys_total` where part 6 of the table is read.
pub proof fn lemma_field_expired_keys()
    ensures
        table_part_6("expired_keys".spec_bytes()) == Some(
            GenericMetric { kind: Kind::Sum, name: "expired_keys_total", description: "Total number of key expiration events", micros: false },
        ),
{
    reveal_strlit("expired_keys");
    assert("expired_keys".spec_bytes() != "search_gc_marked_deleted_vectors".spec_bytes()) by { reveal_strlit("search_gc_marked_deleted_vectors"); lemma_texts_differ("expired_keys", "search_gc_marked_deleted_vectors"); }
    assert("expired_keys".spec_bytes() != "search_errors_indexing_failures".spec_bytes()) by { reveal_strlit("search_errors_indexing_failures"); lemma_texts_differ("expired_keys", "search_errors_indexing_failures"); }
    assert("expired_keys".spec_bytes() != "total_connections_received".spec_bytes()) by { reveal_strlit("total_connections_received"); lemma_texts_differ("expired_keys", "total_connections_received"); }
    assert("expired_keys".spec_bytes() != "total_commands_processed".spec_bytes()) by { reveal_strlit("total_commands_processed"); lemma_texts_differ("expired_keys", "total_commands_processed"); }
    assert("expired_keys".spec_bytes() != "rejected_connections".spec_bytes()) by { reveal_strlit("rejected_connections"); lemma_texts_differ("expired_keys", "rejected_connections"); }
    assert("expired_keys".spec_bytes() != "total_net_input_bytes".spec_bytes()) by { reveal_strlit("total_net_input_bytes"); lemma_texts_differ("expired_keys", "total_net_input_bytes"); }
    assert("expired_keys".spec_bytes() != "total_net_output_bytes".spec_bytes()) by { reveal_strlit("total_net_output_bytes"); lemma_texts_differ("expired_keys", "total_net_output_bytes"); }
    assert("expired_keys".spec_bytes() != "total_net_repl_input_bytes".spec_bytes()) by { reveal_strlit("total_net_repl_input_bytes"); lemma_texts_differ("expired_keys", "total_net_repl_input_bytes"); }
    assert("expired_keys".spec_bytes() != "total_net_repl_output_bytes".spec_bytes()) by { reveal_strlit("total_net_repl_output_bytes"); lemma_texts_differ("expired_keys", "total_net_repl_output_bytes"); }
    assert("expired_keys".spec_bytes() != "expired_subkeys".spec_bytes()) by { reveal_strlit("expired_subkeys"); lemma_texts_differ("expired_keys", "expired_subkeys"); }
}

/// The field `expire_cycle_cpu_milliseconds` is reported as the counter `expire_cycle_cpu_time_ms_total` where part 6 of the table is read.
pub proof fn lemma_field_expire_cycle_cpu_milliseconds()
    ensures
        table_part_6("expire_cycle_cpu_milliseconds".spec_bytes()) == Some(
            GenericMetric { kind: Kind::Sum, name: "expire_cycle_cpu_time_ms_total", description: "The cumulative amount of time spent on active expiry cycles", micros: false },
        ),
{
    reveal_strlit("expire_cycle_cpu_milliseconds");
    assert("expire_cycle_cpu_milliseconds".spec_bytes() != "search_gc_marked_deleted_vectors".spec_bytes()) by { reveal_strlit("search_gc_marked_deleted_vectors"); lemma_texts_differ("expire_cycle_cpu_milliseconds", "search_gc_marked_deleted_vectors"); }
    assert("expire_cycle_cpu_milliseconds".spec_bytes() != "search_errors_indexing_failures".spec_bytes()) by { reveal_strlit("search_errors_indexing_failures"); lemma_texts_differ("expire_cycle_cpu_milliseconds", "search_errors_indexing_failures"); }
    assert("expire_cycle_cpu_milliseconds".spec_bytes() != "total_connections_received".spec_bytes()) by { reveal_strlit("total_connections_received"); lemma_texts_differ("expire_cycle_cpu_milliseconds", "total_connections_received"); }
    assert("expire_cycle_cpu_milliseconds".spec_bytes() != "total_commands_processed".spec_bytes()) by { reveal_strlit("total_commands_processed"); lemma_texts_differ("expire_cycle_cpu_milliseconds", "total_commands_processed"); }
    assert("expire_cycle_cpu_milliseconds".spec_bytes() != "rejected_connections".spec_bytes()) by { reveal_strlit("rejected_connections"); lemma_texts_differ("expire_cycle_cpu_milliseconds", "rejected_connections"); }
    assert("expire_cycle_cpu_milliseconds".spec_bytes() != "total_net_input_bytes".spec_bytes()) by { reveal_strlit("total_net_input_bytes"); lemma_texts_differ("expire_cycle_cpu_milliseconds", "total_net_input_bytes"); }
    assert("expire_cycle_cpu_milliseconds".spec_bytes() != "total_net_output_bytes".spec_bytes()) by { reveal_strlit("total_net_output_bytes"); lemma_texts_differ("expire_cycle_cpu_milliseconds", "total_net_output_bytes"); }
    assert("expire_cycle_cpu_milliseconds".spec_bytes() != "total_net_repl_input_bytes".spec_bytes()) by { reveal_strlit("total_net_repl_input_bytes"); lemma_texts_differ("expire_cycle_cpu_milliseconds", "total_net_repl_input_bytes"); }
    assert("expire_cycle_cpu_milliseconds".spec_bytes() != "total_net_repl_output_bytes".spec_bytes()) by { reveal_strlit("total_net_repl_output_bytes"); lemma_texts_differ("expire_cycle_cpu_milliseconds", "total_net_repl_output_bytes"); }
    assert("expire_cycle_cpu_milliseconds".spec_bytes() != "expired_subkeys".spec_bytes()) by { reveal_strlit("expired_subkeys"); lemma_texts_differ("expire_cycle_cpu_milliseconds", "expired_subkeys"); }
    assert("expire_cycle_cpu_milliseconds".spec_bytes() != "expired_keys".spec_bytes()) by { reveal_strlit("expired_keys"); lemma_texts_differ("expire_cycle_cpu_milliseconds", "expired_keys"); }
}

/// The field `evicted_keys` is reported as the counter `evicted_keys_total` where part 6 of the table is read.
pub proof fn lemma_field_evicted_keys()
    ensures
        table_part_6("evicted_keys".spec_bytes()) == Some(
            GenericMetric { kind: Kind::Sum, name: "evicted_keys_total", description: "Number of evicted keys due to maxmemory limit", micros: false },
        ),
{
    reveal_strlit("evicted_keys");
    assert("evicted_keys".spec_bytes() != "search_gc_marked_deleted_vectors".spec_bytes()) by { reveal_strlit("search_gc_marked_deleted_vectors"); lemma_texts_differ("evicted_keys", "search_gc_marked_deleted_vectors"); }
    assert("evicted_keys".spec_bytes() != "search_errors_indexing_failures".spec_bytes()) by { reveal_strlit("search_errors_indexing_failures"); lemma_texts_differ("evicted_keys", "search_errors_indexing_failures"); }
    assert("evicted_keys".spec_bytes() != "total_connections_received".spec_bytes()) by { reveal_strlit("total_connections_received"); lemma_texts_differ("evicted_keys", "total_connections_received"); }
    assert("evicted_keys".spec_bytes() != "total_commands_processed".spec_bytes()) by { reveal_strlit("total_commands_processed"); lemma_texts_differ("evicted_keys", "total_commands_processed"); }
    assert("evicted_keys".spec_bytes() != "rejected_connections".spec_bytes()) by { reveal_strlit("rejected_connections"); lemma_texts_differ("evicted_keys", "rejected_connections"); }
    assert("evicted_keys".spec_bytes() != "total_net_input_bytes".spec_bytes()) by { reveal_strlit("total_net_input_bytes"); lemma_texts_differ("evicted_keys", "total_net_input_bytes"); }
    assert("evicted_keys".spec_bytes() != "total_net_output_bytes".spec_bytes()) by { reveal_strlit("total_net_output_bytes"); lemma_texts_differ("evicted_keys", "total_net_output_bytes"); }
    assert("evicted_keys".spec_bytes() != "total_net_repl_input_bytes".spec_bytes()) by { reveal_strlit("total_net_repl_input_bytes"); lemma_texts_differ("evicted_keys", "total_net_repl_input_bytes"); }
    assert("evicted_keys".spec_bytes() != "total_net_repl_output_bytes".spec_bytes()) by { reveal_strlit("total_net_repl_output_bytes"); lemma_texts_differ("evicted_keys", "total_net_repl_output_bytes"); }
    assert("evicted_keys".spec_bytes() != "expired_subkeys".spec_bytes()) by { reveal_strlit("expired_subkeys"); lemma_texts_differ("evicted_keys", "expired_subkeys"); }
    assert("evicted_keys".spec_bytes() != "expired_keys".spec_bytes()) by {
        reveal_strlit("expired_keys");
        assert("evicted_keys"@[1] != "expired_keys"@[1]);
        lemma_texts_differ("evicted_keys", "expired_keys");
    }
    assert("evicted_keys".spec_bytes() != "expire_cycle_cpu_milliseconds".spec_bytes()) by { reveal_strlit("expire_cycle_cpu_milliseconds"); lemma_texts_differ("evicted_keys", "expire_cycle_cpu_milliseconds"); }
}

/// The field `evicted_clients` is reported as the counter `evicted_clients_total` where part 6 of the table is read.
pub proof fn lemma_field_evicted_clients()
    ensures
        table_part_6("evicted_clients".spec_bytes()) == Some(
            GenericMetric { kind: Kind::Sum, name: "evicted_clients_total", description: "Number of evicted clients due to maxmemory-clients limit", micros: false },
        ),
{
    reveal_strlit("evicted_clients");
    assert("evicted_clients".spec_bytes() != "search_gc_marked_deleted_vectors".spec_bytes()) by { reveal_strlit("search_gc_marked_deleted_vectors"); lemma_texts_differ("evicted_clients", "search_gc_marked_deleted_vectors"); }
    assert("evicted_clients".spec_bytes() != "search_errors_indexing_failures".spec_bytes()) by { reveal_strlit("search_errors_indexing_failures"); lemma_texts_differ("evicted_clients", "search_errors_indexing_failures"); }
    assert("evicted_clients".spec_bytes() != "total_connections_received".spec_bytes()) by { reveal_strlit("total_connections_received"); lemma_texts_differ("evicted_clients", "total_connections_received"); }
    assert("evicted_clients".spec_bytes() != "total_commands_processed".spec_bytes()) by { reveal_strlit("total_commands_processed"); lemma_texts_differ("evicted_clients", "total_commands_processed"); }
    assert("evicted_clients".spec_bytes() != "rejected_connections".spec_bytes()) by { reveal_strlit("rejected_connections"); lemma_texts_differ("evicted_clients", "rejected_connections"); }
    assert("evicted_clients".spec_bytes() != "total_net_input_bytes".spec_bytes()) by { reveal_strlit("total_net_input_bytes"); lemma_texts_differ("evicted_clients", "total_net_input_bytes"); }
    assert("evicted_clients".spec_bytes() != "total_net_output_bytes".spec_bytes()) by { reveal_strlit("total_net_output_bytes"); lemma_texts_differ("evicted_clients", "total_net_output_bytes"); }
    assert("evicted_clients".spec_bytes() != "total_net_repl_input_bytes".spec_bytes()) by { reveal_strlit("total_net_repl_input_bytes"); lemma_texts_differ("evicted_clients", "total_net_repl_input_bytes"); }
    assert("evicted_clients".spec_bytes() != "total_net_repl_output_bytes".spec_bytes()) by { reveal_strlit("total_net_repl_output_bytes"); lemma_texts_differ("evicted_clients", "total_net_repl_output_bytes"); }
    assert("evicted_clients".spec_bytes() != "expired_subkeys".spec_bytes()) by {
        reveal_strlit("expired_subkeys");
        assert("evicted_clients"@[1] != "expired_subkeys"@[1]);
        lemma_texts_differ("evicted_clients", "expired_subkeys");
    }
    assert("evicted_clients".spec_bytes() != "expired_keys".spec_bytes()) by { reveal_strlit("expired_keys"); lemma_texts_differ("evicted_clients", "expired_keys"); }
    assert("evicted_clients".spec_bytes() != "expire_cycle_cpu_milliseconds".spec_bytes()) by { reveal_strlit("expire_cycle_cpu_milliseconds"); lemma_texts_differ("evicted_clients", "expire_cycle_cpu_milliseconds"); }
    assert("evicted_clients".spec_bytes() != "evicted_keys".spec_bytes()) by { reveal_strlit("evicted_keys"); lemma_texts_differ("evicted_clients", "evicted_keys"); }
}

/// The field `evicted_scripts` is reported as the counter `evicted_scripts_total` where part 6 of the table is read.
pub proof fn lemma_field_evicted_scripts()
    ensures
        table_part_6("evicted_scripts".spec_bytes()) == Some(
            GenericMetric { kind: Kind::Sum, name: "evicted_scripts_total", description: "Number of evicted EVAL scripts due to LRU policy, see EVAL for more details", micros: false },
        ),
{
    reveal_strlit("evicted_scripts");
    assert("evicted_scripts".spec_bytes() != "search_gc_marked_deleted_vectors".spec_bytes()) by { reveal_strlit("search_gc_marked_deleted_vectors"); lemma_texts_differ("evicted_scripts", "search_gc_marked_deleted_vectors"); }
    assert("evicted_scripts".spec_bytes() != "search_errors_indexing_failures".spec_bytes()) by { reveal_strlit("search_errors_indexing_failures"); lemma_texts_differ("evicted_scripts", "search_errors_indexing_failures"); }
    assert("evicted_scripts".spec_bytes() != "total_connections_received".spec_bytes()) by { reveal_strlit("total_connections_received"); lemma_texts_differ("evicted_scripts", "total_connections_received"); }
    assert("evicted_scripts".spec_bytes() != "total_commands_processed".spec_bytes()) by { reveal_strlit("total_commands_processed"); lemma_texts_differ("evicted_scripts", "total_commands_processed"); }
    assert("evicted_scripts".spec_bytes() != "rejected_connections".spec_bytes()) by { reveal_strlit("rejected_connections"); lemma_texts_differ("evicted_scripts", "rejected_connections"); }
    assert("evicted_scripts".spec_bytes() != "total_net_input_bytes".spec_bytes()) by { reveal_strlit("total_net_input_bytes"); lemma_texts_differ("evicted_scripts", "total_net_input_bytes"); }
    assert("evicted_scripts".spec_bytes() != "total_net_output_bytes".spec_bytes()) by { reveal_strlit("total_net_output_bytes"); lemma_texts_differ("evicted_scripts", "total_net_output_bytes"); }
    assert("evicted_scripts".spec_bytes() != "total_net_repl_input_bytes".spec_bytes()) by { reveal_strlit("total_net_repl_input_bytes"); lemma_texts_differ("evicted_scripts", "total_net_repl_input_bytes"); }
    assert("evicted_scripts".spec_bytes() != "total_net_repl_output_bytes".spec_bytes()) by { reveal_strlit("total_net_repl_output_bytes"); lemma_texts_differ("evicted_scripts", "total_net_repl_output_bytes"); }
    assert("evicted_scripts".spec_bytes() != "expired_subkeys".spec_bytes()) by {
        reveal_strlit("expired_subkeys");
        assert("evicted_scripts"@[1] != "expired_subkeys"@[1]);
        lemma_texts_differ("evicted_scripts", "expired_subkeys");
    }
    assert("evicted_scripts".spec_bytes() != "expired_keys".spec_bytes()) by { reveal_strlit("expired_keys"); lemma_texts_differ("evicted_scripts", "expired_keys"); }
    assert("evicted_scripts".spec_bytes() != "expire_cycle_cpu_milliseconds".spec_bytes()) by { reveal_strlit("expire_cycle_cpu_milliseconds"); lemma_texts_differ("evicted_scripts", "expire_cycle_cpu_milliseconds"); }
    assert("evicted_scripts".spec_bytes() != "evicted_keys".spec_bytes()) by { reveal_strlit("evicted_keys"); lemma_texts_differ("evicted_scripts", "evicted_keys"); }
    assert("evicted_scripts".spec_bytes() != "evicted_clients".spec_bytes()) by {
        reveal_strlit("evicted_clients");
        assert("evicted_scripts"@[8] != "evicted_clients"@[8]);
        lemma_texts_differ("evicted_scripts", "evicted_clients");
    }
}

/// The field `total_eviction_exceeded_time` is reported as the counter `eviction_exceeded_time_ms_total` where part 6 of the table is read.
pub proof fn lemma_field_total_eviction_exceeded_time()
    ensures
        table_part_6("total_eviction_exceeded_time".spec_bytes()) == Some(
            GenericMetric { kind: Kind::Sum, name: "eviction_exceeded_time_ms_total", description: "Total time used_memory was greater than maxmemory since server startup, in milliseconds", micros: false },
        ),
{
    reveal_strlit("total_eviction_exceeded_time");
    assert("total_eviction_exceeded_time".spec_bytes() != "search_gc_marked_deleted_vectors".spec_bytes()) by { reveal_strlit("search_gc_marked_deleted_vectors"); lemma_texts_differ("total_eviction_exceeded_time", "search_gc_marked_deleted_vectors"); }
    assert("total_eviction_exceeded_time".spec_bytes() != "search_errors_indexing_failures".spec_bytes()) by { reveal_strlit("search_errors_indexing_failures"); lemma_texts_differ("total_eviction_exceeded_time", "search_errors_indexing_failures"); }
    assert("total_eviction_exceeded_time".spec_bytes() != "total_connections_received".spec_bytes()) by { reveal_strlit("total_connections_received"); lemma_texts_differ("total_eviction_exceeded_time", "total_connections_received"); }
    assert("total_eviction_exceeded_time".spec_bytes() != "total_commands_processed".spec_bytes()) by { reveal_strlit("total_commands_processed"); lemma_texts_differ("total_eviction_exceeded_time", "total_commands_processed"); }
    assert("total_eviction_exceeded_time".spec_bytes() != "rejected_connections".spec_bytes()) by { reveal_strlit("rejected_connections"); lemma_texts_differ("total_eviction_exceeded_time", "rejected_connections"); }
    assert("total_eviction_exceeded_time".spec_bytes() != "total_net_input_bytes".spec_bytes()) by { reveal_strlit("total_net_input_bytes"); lemma_texts_differ("total_eviction_exceeded_time", "total_net_input_bytes"); }
    assert("total_eviction_exceeded_time".spec_bytes() != "total_net_output_bytes".spec_bytes()) by { reveal_strlit("total_net_output_bytes"); lemma_texts_differ("total_eviction_exceeded_time", "total_net_output_bytes"); }
    assert("total_eviction_exceeded_time".spec_bytes() != "total_net_repl_input_bytes".spec_bytes()) by { reveal_strlit("total_net_repl_input_bytes"); lemma_texts_differ("total_eviction_exceeded_time", "total_net_repl_input_bytes"); }
    assert("total_eviction_exceeded_time".spec_bytes() != "total_net_repl_output_bytes".spec_bytes()) by { reveal_strlit("total_net_repl_output_bytes"); lemma_texts_differ("total_eviction_exceeded_time", "total_net_repl_output_bytes"); }
    assert("total_eviction_exceeded_time".spec_bytes() != "expired_subkeys".spec_bytes()) by { reveal_strlit("expired_subkeys"); lemma_texts_differ("total_eviction_exceeded_time", "expired_subkeys"); }
    assert("total_eviction_exceeded_time".spec_bytes() != "expired_keys".spec_bytes()) by { reveal_strlit("expired_keys"); lemma_texts_differ("total_eviction_exceeded_time", "expired_keys"); }
    assert("total_eviction_exceeded_time".spec_bytes() != "expire_cycle_cpu_milliseconds".spec_bytes()) by { reveal_strlit("expire_cycle_cpu_milliseconds"); lemma_texts_differ("total_eviction_exceeded_time", "expire_cycle_cpu_milliseconds"); }
    assert("total_eviction_exceeded_time".spec_bytes() != "evicted_keys".spec_bytes()) by { reveal_strlit("evicted_keys"); lemma_texts_differ("total_eviction_exceeded_time", "evicted_keys"); }
    assert("total_eviction_exceeded_time".spec_bytes() != "evicted_clients".spec_bytes()) by { reveal_strlit("evicted_clients"); lemma_texts_differ("total_eviction_exceeded_time", "evicted_clients"); }
    assert("total_eviction_exceeded_time".spec_bytes() != "evicted_scripts".spec_bytes()) by { reveal_strlit("evicted_scripts"); lemma_texts_differ("total_eviction_exceeded_time", "evicted_scripts"); }
}

/// The field `keyspace_hits` is reported as the counter `keyspace_hits_total` where part 6 of the table is read.
pub proof fn lemma_field_keyspace_hits()
    ensures
        table_part_6("keyspace_hits".spec_bytes()) == Some(
            GenericMetric { kind: Kind::Sum, name: "keyspace_hits_total", description: "Number of successful lookup of keys in the main dictionary", micros: false },
        ),
{
    reveal_strlit("keyspace_hits");
    assert("keyspace_hits".spec_bytes() != "search_gc_marked_deleted_vectors".spec_bytes()) by { reveal_strlit("search_gc_marked_deleted_vectors"); lemma_texts_differ("keyspace_hits", "search_gc_marked_deleted_vectors"); }
    assert("keyspace_hits".spec_bytes() != "search_errors_indexing_failures".spec_bytes()) by { reveal_strlit("search_errors_indexing_failures"); lemma_texts_differ("keyspace_hits", "search_errors_indexing_failures"); }
    assert("keyspace_hits".spec_bytes() != "total_connections_received".spec_bytes()) by { reveal_strlit("total_connections_received"); lemma_texts_differ("keyspace_hits", "total_connections_received"); }
    assert("keyspace_hits".spec_bytes() != "total_commands_processed".spec_bytes()) by { reveal_strlit("total_commands_processed"); lemma_texts_differ("keyspace_hits", "total_commands_processed"); }
    assert("keyspace_hits".spec_bytes() != "rejected_connections".spec_bytes()) by { reveal_strlit("rejected_connections"); lemma_texts_differ("keyspace_hits", "rejected_connections"); }
    assert("keyspace_hits".spec_bytes() != "total_net_input_bytes".spec_bytes()) by { reveal_strlit("total_net_input_bytes"); lemma_texts_differ("keyspace_hits", "total_net_input_bytes"); }
    assert("keyspace_hits".spec_bytes() != "total_net_output_bytes".spec_bytes()) by { reveal_strlit("total_net_output_bytes"); lemma_texts_differ("keyspace_hits", "total_net_output_bytes"); }
    assert("keyspace_hits".spec_bytes() != "total_net_repl_input_bytes".spec_bytes()) by { reveal_strlit("total_net_repl_input_bytes"); lemma_texts_differ("keyspace_hits", "total_net_repl_input_bytes"); }
    assert("keyspace_hits".spec_bytes() != "total_net_repl_output_bytes".spec_bytes()) by { reveal_strlit("total_net_repl_output_bytes"); lemma_texts_differ("keyspace_hits", "total_net_repl_output_bytes"); }
    assert("keyspace_hits".spec_bytes() != "expired_subkeys".spec_bytes()) by { reveal_strlit("expired_subkeys"); lemma_texts_differ("keyspace_hits", "expired_subkeys"); }
    assert("keyspace_hits".spec_bytes() != "expired_keys".spec_bytes()) by { reveal_strlit("expired_keys"); lemma_texts_differ("keyspace_hits", "expired_keys"); }
    assert("keyspace_hits".spec_bytes() != "expire_cycle_cpu_milliseconds".spec_bytes()) by { reveal_strlit("expire_cycle_cpu_milliseconds"); lemma_texts_differ("keyspace_hits", "expire_cycle_cpu_milliseconds"); }
    assert("keyspace_hits".spec_bytes() != "evicted_keys".spec_bytes()) by { reveal_strlit("evicted_keys"); lemma_texts_differ("keyspace_hits", "evicted_keys"); }
    assert("keyspace_hits".spec_bytes() != "evicted_clients".spec_bytes()) by { reveal_strlit("evicted_clients"); lemma_texts_differ("keyspace_hits", "evicted_clients"); }
    assert("keyspace_hits".spec_bytes() != "evicted_scripts".spec_bytes()) by { reveal_strlit("evicted_scripts"); lemma_texts_differ("keyspace_hits", "evicted_scripts"); }
    assert("keyspace_hits".spec_bytes() != "total_eviction_exceeded_time".spec_bytes()) by { reveal_strlit("total_eviction_exceeded_time"); lemma_texts_differ("keyspace_hits", "total_eviction_exceeded_time"); }
}

/// The field `keyspace_misses` is reported as the counter `keyspace_misses_total` where part 6 of the table is read.
pub proof fn lemma_field_keyspace_misses()
    ensures
        table_part_6("keyspace_misses".spec_bytes()) == Some(
            GenericMetric { kind: Kind::Sum, name: "keyspace_misses_total", description: "Number of failed lookup of keys in the main dictionary", micros: false },
        ),
{
    reveal_strlit("keyspace_misses");
    assert("keyspace_misses".spec_bytes() != "search_gc_marked_deleted_vectors".spec_bytes()) by { reveal_strlit("search_gc_marked_deleted_vectors"); lemma_texts_differ("keyspace_misses", "search_gc_marked_deleted_vectors"); }
    assert("keyspace_misses".spec_bytes() != "search_errors_indexing_failures".spec_bytes()) by { reveal_strlit("search_errors_indexing_failures"); lemma_texts_differ("keyspace_misses", "search_errors_indexing_failures"); }
    assert("keyspace_misses".spec_bytes() != "total_connections_received".spec_bytes()) by { reveal_strlit("total_connections_received"); lemma_texts_differ("keyspace_misses", "total_connections_received"); }
    assert("keyspace_misses".spec_bytes() != "total_commands_processed".spec_bytes()) by { reveal_strlit("total_commands_processed"); lemma_texts_differ("keyspace_misses", "total_commands_processed"); }
    assert("keyspace_misses".spec_bytes() != "rejected_connections".spec_bytes()) by { reveal_strlit("rejected_connections"); lemma_texts_differ("keyspace_misses", "rejected_connections"); }
    assert("keyspace_misses".spec_bytes() != "total_net_input_bytes".spec_bytes()) by { reveal_strlit("total_net_input_bytes"); lemma_texts_differ("keyspace_misses", "total_net_input_bytes"); }
    assert("keyspace_misses".spec_bytes() != "total_net_output_bytes".spec_bytes()) by { reveal_strlit("total_net_output_bytes"); lemma_texts_differ("keyspace_misses", "total_net_output_bytes"); }
    assert("keyspace_misses".spec_bytes() != "total_net_repl_input_bytes".spec_bytes()) by { reveal_strlit("total_net_repl_input_bytes"); lemma_texts_differ("keyspace_misses", "total_net_repl_input_bytes"); }
    assert("keyspace_misses".spec_bytes() != "total_net_repl_output_bytes".spec_bytes()) by { reveal_strlit("total_net_repl_output_bytes"); lemma_texts_differ("keyspace_misses", "total_net_repl_output_bytes"); }
    assert("keyspace_misses".spec_bytes() != "expired_subkeys".spec_bytes()) by {
        reveal_strlit("expired_subkeys");
        assert("keyspace_misses"@[0] != "expired_subkeys"@[0]);
        lemma_texts_differ("keyspace_misses", "expired_subkeys");
    }
    assert("keyspace_misses".spec_bytes() != "expired_keys".spec_bytes()) by { reveal_strlit("expired_keys"); lemma_texts_differ("keyspace_misses", "expired_keys"); }
    assert("keyspace_misses".spec_bytes() != "expire_cycle_cpu_milliseconds".spec_bytes()) by { reveal_strlit("expire_cycle_cpu_milliseconds"); lemma_texts_differ("keyspace_misses", "expire_cycle_cpu_milliseconds"); }
    assert("keyspace_misses".spec_bytes() != "evicted_keys".spec_bytes()) by { reveal_strlit("evicted_keys"); lemma_texts_differ("keyspace_misses", "evicted_keys"); }
    assert("keyspace_misses".spec_bytes() != "evicted_clients".spec_bytes()) by {
        reveal_strlit("evicted_clients");
        assert("keyspace_misses"@[0] != "evicted_clients"@[0]);
        lemma_texts_differ("keyspace_misses", "evicted_clients");
    }
    assert("keyspace_misses".spec_bytes() != "evicted_scripts".spec_bytes()) by {
        reveal_strlit("evicted_scripts");
        assert("keyspace_misses"@[0] != "evicted_scripts"@[0]);
        lemma_texts_differ("keyspace_misses", "evicted_scripts");
    }
    assert("keyspace_misses".spec_bytes() != "total_eviction_exceeded_time".spec_bytes()) by { reveal_strlit("total_eviction_exceeded_time"); lemma_texts_differ("keyspace_misses", "total_eviction_exceeded_time"); }
    assert("keyspace_misses".spec_bytes() != "keyspace_hits".spec_bytes()) by { reveal_strlit("keyspace_hits"); lemma_texts_differ("keyspace_misses", "keyspace_hits"); }
}

/// The field `used_cpu_sys` is reported as the counter `cpu_sys_seconds_total` where part 6 of the table is read.
pub proof fn lemma_field_used_cpu_sys()
    ensures
        table_part_6("used_cpu_sys".spec_bytes()) == Some(
            GenericMetric { kind: Kind::Sum, name: "cpu_sys_seconds_total", description: "System CPU consumed by the Redis server, which is the sum of system CPU consumed by all threads of the server process (main thread and background threads)", micros: false },
        ),
{
    reveal_strlit("used_cpu_sys");
    assert("used_cpu_sys".spec_bytes() != "search_gc_marked_deleted_vectors".spec_bytes()) by { reveal_strlit("search_gc_marked_deleted_vectors"); lemma_texts_differ("used_cpu_sys", "search_gc_marked_deleted_vectors"); }
    assert("used_cpu_sys".spec_bytes() != "search_errors_indexing_failures".spec_bytes()) by { reveal_strlit("search_errors_indexing_failures"); lemma_texts_differ("used_cpu_sys", "search_errors_indexing_failures"); }
    assert("used_cpu_sys".spec_bytes() != "total_connections_received".spec_bytes()) by { reveal_strlit("total_connections_received"); lemma_texts_differ("used_cpu_sys", "total_connections_received"); }
    assert("used_cpu_sys".spec_bytes() != "total_commands_processed".spec_bytes()) by { reveal_strlit("total_commands_processed"); lemma_texts_differ("used_cpu_sys", "total_commands_processed"); }
    assert("used_cpu_sys".spec_bytes() != "rejected_connections".spec_bytes()) by { reveal_strlit("rejected_connections"); lemma_texts_differ("used_cpu_sys", "rejected_connections"); }
    assert("used_cpu_sys".spec_bytes() != "total_net_input_bytes".spec_bytes()) by { reveal_strlit("total_net_input_bytes"); lemma_texts_differ("used_cpu_sys", "total_net_input_bytes"); }
    assert("used_cpu_sys".spec_bytes() != "total_net_output_bytes".spec_bytes()) by { reveal_strlit("total_net_output_bytes"); lemma_texts_differ("used_cpu_sys", "total_net_output_bytes"); }
    assert("used_cpu_sys".spec_bytes() != "total_net_repl_input_bytes".spec_bytes()) by { reveal_strlit("total_net_repl_input_bytes"); lemma_texts_differ("used_cpu_sys", "total_net_repl_input_bytes"); }
    assert("used_cpu_sys".spec_bytes() != "total_net_repl_output_bytes".spec_bytes()) by { reveal_strlit("total_net_repl_output_bytes"); lemma_texts_differ("used_cpu_sys", "total_net_repl_output_bytes"); }
    assert("used_cpu_sys".spec_bytes() != "expired_subkeys".spec_bytes()) by { reveal_strlit("expired_subkeys"); lemma_texts_differ("used_cpu_sys", "expired_subkeys"); }
    assert("used_cpu_sys".spec_bytes() != "expired_keys".spec_bytes()) by {
        reveal_strlit("expired_keys");
        assert("used_cpu_sys"@[0] != "expired_keys"@[0]);
        lemma_texts_differ("used_cpu_sys", "expired_keys");
    }
    assert("used_cpu_sys".spec_bytes() != "expire_cycle_cpu_milliseconds".spec_bytes()) by { reveal_strlit("expire_cycle_cpu_milliseconds"); lemma_texts_differ("used_cpu_sys", "expire_cycle_cpu_milliseconds"); }
    assert("used_cpu_sys".spec_bytes() != "evicted_keys".spec_bytes()) by {
        reveal_strlit("evicted_keys");
        assert("used_cpu_sys"@[0] != "evicted_keys"@[0]);
        lemma_texts_differ("used_cpu_sys", "evicted_keys");
    }
    assert("used_cpu_sys".spec_bytes() != "evicted_clients".spec_bytes()) by { reveal_strlit("evicted_clients"); lemma_texts_differ("used_cpu_sys", "evicted_clients"); }
    assert("used_cpu_sys".spec_bytes() != "evicted_scripts".spec_bytes()) by { reveal_strlit("evicted_scripts"); lemma_texts_differ("used_cpu_sys", "evicted_scripts"); }
    assert("used_cpu_sys".spec_bytes() != "total_eviction_exceeded_time".spec_bytes()) by { reveal_strlit("total_eviction_exceeded_time"); lemma_texts_differ("used_cpu_sys", "total_eviction_exceeded_time"); }
    assert("used_cpu_sys".spec_bytes() != "keyspace_hits".spec_bytes()) by { reveal_strlit("keyspace_hits"); lemma_texts_differ("used_cpu_sys", "keyspace_hits"); }
    assert("used_cpu_sys".spec_bytes() != "keyspace_misses".spec_bytes()) by { reveal_strlit("keyspace_misses"); lemma_texts_differ("used_cpu_sys", "keyspace_misses"); }
}

/// The field `used_cpu_user` is reported as the counter `cpu_user_seconds_total` where part 6 of the table is read.
pub proof fn lemma_field_used_cpu_user()
    ensures
        table_part_6("used_cpu_user".spec_bytes()) == Some(
            GenericMetric { kind: Kind::Sum, name: "cpu_user_seconds_total", description: "User CPU consumed by the Redis server, which is the sum of user CPU consumed by all threads of the server process (main thread and background threads)", micros: false },
        ),
{
    reveal_strlit("used_cpu_user");
    assert("used_cpu_user".spec_bytes() != "search_gc_marked_deleted_vectors".spec_bytes()) by { reveal_strlit("search_gc_marked_deleted_vectors"); lemma_texts_differ("used_cpu_user", "search_gc_marked_deleted_vectors"); }
    assert("used_cpu_user".spec_bytes() != "search_errors_indexing_failures".spec_bytes()) by { reveal_strlit("search_errors_indexing_failures"); lemma_texts_differ("used_cpu_user", "search_errors_indexing_failures"); }
    assert("used_cpu_user".spec_bytes() != "total_connections_received".spec_bytes()) by { reveal_strlit("total_connections_received"); lemma_texts_differ("used_cpu_user", "total_connections_received"); }
    assert("used_cpu_user".spec_bytes() != "total_commands_processed".spec_bytes()) by { reveal_strlit("total_commands_processed"); lemma_texts_differ("used_cpu_user", "total_commands_processed"); }
    assert("used_cpu_user".spec_bytes() != "rejected_connections".spec_bytes()) by { reveal_strlit("rejected_connections"); lemma_texts_differ("used_cpu_user", "rejected_connections"); }
    assert("used_cpu_user".spec_bytes() != "total_net_input_bytes".spec_bytes()) by { reveal_strlit("total_net_input_bytes"); lemma_texts_differ("used_cpu_user", "total_net_input_bytes"); }
    assert("used_cpu_user".spec_bytes() != "total_net_output_bytes".spec_bytes()) by { reveal_strlit("total_net_output_bytes"); lemma_texts_differ("used_cpu_user", "total_net_output_bytes"); }
    assert("used_cpu_user".spec_bytes() != "total_net_repl_input_bytes".spec_bytes()) by { reveal_strlit("total_net_repl_input_bytes"); lemma_texts_differ("used_cpu_user", "total_net_repl_input_bytes"); }
    assert("used_cpu_user".spec_bytes() != "total_net_repl_output_bytes".spec_bytes()) by { reveal_strlit("total_net_repl_output_bytes"); lemma_texts_differ("used_cpu_user", "total_net_repl_output_bytes"); }
    assert("used_cpu_user".spec_bytes() != "expired_subkeys".spec_bytes()) by { reveal_strlit("expired_subkeys"); lemma_texts_differ("used_cpu_user", "expired_subkeys"); }
    assert("used_cpu_user".spec_bytes() != "expired_keys".spec_bytes()) by { reveal_strlit("expired_keys"); lemma_texts_differ("used_cpu_user", "expired_keys"); }
    assert("used_cpu_user".spec_bytes() != "expire_cycle_cpu_milliseconds".spec_bytes()) by { reveal_strlit("expire_cycle_cpu_milliseconds"); lemma_texts_differ("used_cpu_user", "expire_cycle_cpu_milliseconds"); }
    assert("used_cpu_user".spec_bytes() != "evicted_keys".spec_bytes()) by { reveal_strlit("evicted_keys"); lemma_texts_differ("used_cpu_user", "evicted_keys"); }
    assert("used_cpu_user".spec_bytes() != "evicted_clients".spec_bytes()) by { reveal_strlit("evicted_clients"); lemma_texts_differ("used_cpu_user", "evicted_clients"); }
    assert("used_cpu_user".spec_bytes() != "evicted_scripts".spec_bytes()) by { reveal_strlit("evicted_scripts"); lemma_texts_differ("used_cpu_user", "evicted_scripts"); }
    assert("used_cpu_user".spec_bytes() != "total_eviction_exceeded_time".spec_bytes()) by { reveal_strlit("total_eviction_exceeded_time"); lemma_texts_differ("used_cpu_user", "total_eviction_exceeded_time"); }
    assert("used_cpu_user".spec_bytes() != "keyspace_hits".spec_bytes()) by {
        reveal_strlit("keyspace_hits");
        assert("used_cpu_user"@[0] != "keyspace_hits"@[0]);
        lemma_texts_differ("used_cpu_user", "keyspace_hits");
    }
    assert("used_cpu_user".spec_bytes() != "keyspace_misses".spec_bytes()) by { reveal_strlit("keyspace_misses"); lemma_texts_differ("used_cpu_user", "keyspace_misses"); }
    assert("used_cpu_user".spec_bytes() != "used_cpu_sys".spec_bytes()) by { reveal_strlit("used_cpu_sys"); lemma_texts_differ("used_cpu_user", "used_cpu_sys"); }
}

/// The field `used_cpu_sys_children` is reported as the counter `cpu_sys_children_seconds_total` where part 6 of the table is read.
pub proof fn lemma_field_used_cpu_sys_children()
    ensures
        table_part_6("used_cpu_sys_children".spec_bytes()) == Some(
            GenericMetric { kind: Kind::Sum, name: "cpu_sys_children_seconds_total", description: "System CPU consumed by the background processes", micros: false },
        ),
{
    reveal_strlit("used_cpu_sys_children");
    assert("used_cpu_sys_children".spec_bytes() != "search_gc_marked_deleted_vectors".spec_bytes()) by { reveal_strlit("search_gc_marked_deleted_vectors"); lemma_texts_differ("used_cpu_sys_children", "search_gc_marked_deleted_vectors"); }
    assert("used_cpu_sys_children".spec_bytes() != "search_errors_indexing_failures".spec_bytes()) by { reveal_strlit("search_errors_indexing_failures"); lemma_texts_differ("used_cpu_sys_children", "search_errors_indexing_failures"); }
    assert("used_cpu_sys_children".spec_bytes() != "total_connections_received".spec_bytes()) by { reveal_strlit("total_connections_received"); lemma_texts_differ("used_cpu_sys_children", "total_connections_received"); }
    assert("used_cpu_sys_children".spec_bytes() != "total_commands_processed".spec_bytes()) by { reveal_strlit("total_commands_processed"); lemma_texts_differ("used_cpu_sys_children", "total_commands_processed"); }
    assert("used_cpu_sys_children".spec_bytes() != "rejected_connections".spec_bytes()) by { reveal_strlit("rejected_connections"); lemma_texts_differ("used_cpu_sys_children", "rejected_connections"); }
    assert("used_cpu_sys_children".spec_bytes() != "total_net_input_bytes".spec_bytes()) by {
        reveal_strlit("total_net_input_bytes");
        assert("used_cpu_sys_children"@[0] != "total_net_input_bytes"@[0]);
        lemma_texts_differ("used_cpu_sys_children", "total_net_input_bytes");
    }
    assert("used_cpu_sys_children".spec_bytes() != "total_net_output_bytes".spec_bytes()) by { reveal_strlit("total_net_output_bytes"); lemma_texts_differ("used_cpu_sys_children", "total_net_output_bytes"); }
    assert("used_cpu_sys_children".spec_bytes() != "total_net_repl_input_bytes".spec_bytes()) by { reveal_strlit("total_net_repl_input_bytes"); lemma_texts_differ("used_cpu_sys_children", "total_net_repl_input_bytes"); }
    assert("used_cpu_sys_children".spec_bytes() != "total_net_repl_output_bytes".spec_bytes()) by { reveal_strlit("total_net_repl_output_bytes"); lemma_texts_differ("used_cpu_sys_children", "total_net_repl_output_bytes"); }
    assert("used_cpu_sys_children".spec_bytes() != "expired_subkeys".spec_bytes()) by { reveal_strlit("expired_subkeys"); lemma_texts_differ("used_cpu_sys_children", "expired_subkeys"); }
    assert("used_cpu_sys_children".spec_bytes() != "expired_keys".spec_bytes()) by { reveal_strlit("expired_keys"); lemma_texts_differ("used_cpu_sys_children", "expired_keys"); }
    assert("used_cpu_sys_children".spec_bytes() != "expire_cycle_cpu_milliseconds".spec_bytes()) by { reveal_strlit("expire_cycle_cpu_milliseconds"); lemma_texts_differ("used_cpu_sys_children", "expire_cycle_cpu_milliseconds"); }
    assert("used_cpu_sys_children".spec_bytes() != "evicted_keys".spec_bytes()) by { reveal_strlit("evicted_keys"); lemma_texts_differ("used_cpu_sys_children", "evicted_keys"); }
    assert("used_cpu_sys_children".spec_bytes() != "evicted_clients".spec_bytes()) by { reveal_strlit("evicted_clients"); lemma_texts_differ("used_cpu_sys_children", "evicted_clients"); }
    assert("used_cpu_sys_children".spec_bytes() != "evicted_scripts".spec_bytes()) by { reveal_strlit("evicted_scripts"); lemma_texts_differ("used_cpu_sys_children", "evicted_scripts"); }
    assert("used_cpu_sys_children".spec_bytes() != "total_eviction_exceeded_time".spec_bytes()) by { reveal_strlit("total_eviction_exceeded_time"); lemma_texts_differ("used_cpu_sys_children", "total_eviction_exceeded_time"); }
    assert("used_cpu_sys_children".spec_bytes() != "keyspace_hits".spec_bytes()) by { reveal_strlit("keyspace_hits"); lemma_texts_differ("used_cpu_sys_children", "keyspace_hits"); }
    assert("used_cpu_sys_children".spec_bytes() != "keyspace_misses".spec_bytes()) by { reveal_strlit("keyspace_misses"); lemma_texts_differ("used_cpu_sys_children", "keyspace_misses"); }
    assert("used_cpu_sys_children".spec_bytes() != "used_cpu_sys".spec_bytes()) by { reveal_strlit("used_cpu_sys"); lemma_texts_differ("used_cpu_sys_children", "used_cpu_sys"); }
    assert("used_cpu_sys_children".spec_bytes() != "used_cpu_user".spec_bytes()) by { reveal_strlit("used_cpu_user"); lemma_texts_differ("used_cpu_sys_children", "used_cpu_user"); }
}

/// The field `used_cpu_user_children` is reported as the counter `cpu_user_children_seconds_total` where part 6 of the table is read.
pub proof fn lemma_field_used_cpu_user_children()
    ensures
        table_part_6("used_cpu_user_children".spec_bytes()) == Some(
            GenericMetric { kind: Kind::Sum, name: "cpu_user_children_seconds_total", description: "User CPU consumed by the background processes", micros: false },
        ),
{
    reveal_strlit("used_cpu_user_children");
    assert("used_cpu_user_children".spec_bytes() != "search_gc_marked_deleted_vectors".spec_bytes()) by { reveal_strlit("search_gc_marked_deleted_vectors"); lemma_texts_differ("used_cpu_user_children", "search_gc_marked_deleted_vectors"); }
    assert("used_cpu_user_children".spec_bytes() != "search_errors_indexing_failures".spec_bytes()) by { reveal_strlit("search_errors_indexing_failures"); lemma_texts_differ("used_cpu_user_children", "search_errors_indexing_failures"); }
    assert("used_cpu_user_children".spec_bytes() != "total_connections_received".spec_bytes()) by { reveal_strlit("total_connections_received"); lemma_texts_differ("used_cpu_user_children", "total_connections_received"); }
    assert("used_cpu_user_children".spec_bytes() != "total_commands_processed".spec_bytes()) by { reveal_strlit("total_commands_processed"); lemma_texts_differ("used_cpu_user_children", "total_commands_processed"); }
    assert("used_cpu_user_children".spec_bytes() != "rejected_connections".spec_bytes()) by { reveal_strlit("rejected_connections"); lemma_texts_differ("used_cpu_user_children", "rejected_connections"); }
    assert("used_cpu_user_children".spec_bytes() != "total_net_input_bytes".spec_bytes()) by { reveal_strlit("total_net_input_bytes"); lemma_texts_differ("used_cpu_user_children", "total_net_input_bytes"); }
    assert("used_cpu_user_children".spec_bytes() != "total_net_output_bytes".spec_bytes()) by {
        reveal_strlit("total_net_output_bytes");
        assert("used_cpu_user_children"@[0] != "total_net_output_bytes"@[0]);
        lemma_texts_differ("used_cpu_user_children", "total_net_output_bytes");
    }
    assert("used_cpu_user_children".spec_bytes() != "total_net_repl_input_bytes".spec_bytes()) by { reveal_strlit("total_net_repl_input_bytes"); lemma_texts_differ("used_cpu_user_children", "total_net_repl_input_bytes"); }
    assert("used_cpu_user_children".spec_bytes() != "total_net_repl_output_bytes".spec_bytes()) by { reveal_strlit("total_net_repl_output_bytes"); lemma_texts_differ("used_cpu_user_children", "total_net_repl_output_bytes"); }
    assert("used_cpu_user_children".spec_bytes() != "expired_subkeys".spec_bytes()) by { reveal_strlit("expired_subkeys"); lemma_texts_differ("used_cpu_user_children", "expired_subkeys"); }
    assert("used_cpu_user_children".spec_bytes() != "expired_keys".spec_bytes()) by { reveal_strlit("expired_keys"); lemma_texts_differ("used_cpu_user_children", "expired_keys"); }
    assert("used_cpu_user_children".spec_bytes() != "expire_cycle_cpu_milliseconds".spec_bytes()) by { reveal_strlit("expire_cycle_cpu_milliseconds"); lemma_texts_differ("used_cpu_user_children", "expire_cycle_cpu_milliseconds"); }
    assert("used_cpu_user_children".spec_bytes() != "evicted_keys".spec_bytes()) by { reveal_strlit("evicted_keys"); lemma_texts_differ("used_cpu_user_children", "evicted_keys"); }
    assert("used_cpu_user_children".spec_bytes() != "evicted_clients".spec_bytes()) by { reveal_strlit("evicted_clients"); lemma_texts_differ("used_cpu_user_children", "evicted_clients"); }
    assert("used_cpu_user_children".spec_bytes() != "evicted_scripts".spec_bytes()) by { reveal_strlit("evicted_scripts"); lemma_texts_differ("used_cpu_user_children", "evicted_scripts"); }
    assert("used_cpu_user_children".spec_bytes() != "total_eviction_exceeded_time".spec_bytes()) by { reveal_strlit("total_eviction_exceeded_time"); lemma_texts_differ("used_cpu_user_children", "total_eviction_exceeded_time"); }
    assert("used_cpu_user_children".spec_bytes() != "keyspace_hits".spec_bytes()) by { reveal_strlit("keyspace_hits"); lemma_texts_differ("used_cpu_user_children", "keyspace_hits"); }
    assert("used_cpu_user_children".spec_bytes() != "keyspace_misses".spec_bytes()) by { reveal_strlit("keyspace_misses"); lemma_texts_differ("used_cpu_user_children", "keyspace_misses"); }
    assert("used_cpu_user_children".spec_bytes() != "used_cpu_sys".spec_bytes()) by { reveal_strlit("used_cpu_sys"); lemma_texts_differ("used_cpu_user_children", "used_cpu_sys"); }
    assert("used_cpu_user_children".spec_bytes() != "used_cpu_user".spec_bytes()) by { reveal_strlit("used_cpu_user"); lemma_texts_differ("used_cpu_user_children", "used_cpu_user"); }
    assert("used_cpu_user_children".spec_bytes() != "used_cpu_sys_children".spec_bytes()) by { reveal_strlit("used_cpu_sys_children"); lemma_texts_differ("used_cpu_user_children", "used_cpu_sys_children"); }
}

/// The field `used_cpu_sys_main_thread` is reported as the counter `cpu_sys_main_thread_seconds_total` where part 6 of the table is read.
pub proof fn lemma_field_used_cpu_sys_main_thread()
    ensures
        table_part_6("used_cpu_sys_main_thread".spec_bytes()) == Some(
            GenericMetric { kind: Kind::Sum, name: "cpu_sys_main_thread_seconds_total", description: "System CPU consumed by the Redis server main thread", micros: false },
        ),
{
    reveal_strlit("used_cpu_sys_main_thread");
    assert("used_cpu_sys_main_thread".spec_bytes() != "search_gc_marked_deleted_vectors".spec_bytes()) by { reveal_strlit("search_gc_marked_deleted_vectors"); lemma_texts_differ("used_cpu_sys_main_thread", "search_gc_marked_deleted_vectors"); }
    assert("used_cpu_sys_main_thread".spec_bytes() != "search_errors_indexing_failures".spec_bytes()) by { reveal_strlit("search_errors_indexing_failures"); lemma_texts_differ("used_cpu_sys_main_thread", "search_errors_indexing_failures"); }
    assert("used_cpu_sys_main_thread".spec_bytes() != "total_connections_received".spec_bytes()) by { reveal_strlit("total_connections_received"); lemma_texts_differ("used_cpu_sys_main_thread", "total_connections_received"); }
    assert("used_cpu_sys_main_thread".spec_bytes() != "total_commands_processed".spec_bytes()) by {
        reveal_strlit("total_commands_processed");
        assert("used_cpu_sys_main_thread"@[0] != "total_commands_processed"@[0]);
        lemma_texts_differ("used_cpu_sys_main_thread", "total_commands_processed");
    }
    assert("used_cpu_sys_main_thread".spec_bytes() != "rejected_connections".spec_bytes()) by { reveal_strlit("rejected_connections"); lemma_texts_differ("used_cpu_sys_main_thread", "rejected_connections"); }
    assert("used_cpu_sys_main_thread".spec_bytes() != "total_net_input_bytes".spec_bytes()) by { reveal_strlit("total_net_input_bytes"); lemma_texts_differ("used_cpu_sys_main_thread", "total_net_input_bytes"); }
    assert("used_cpu_sys_main_thread".spec_bytes() != "total_net_output_bytes".spec_bytes()) by { reveal_strlit("total_net_output_bytes"); lemma_texts_differ("used_cpu_sys_main_thread", "total_net_output_bytes"); }
    assert("used_cpu_sys_main_thread".spec_bytes() != "total_net_repl_input_bytes".spec_bytes()) by { reveal_strlit("total_net_repl_input_bytes"); lemma_texts_differ("used_cpu_sys_main_thread", "total_net_repl_input_bytes"); }
    assert("used_cpu_sys_main_thread".spec_bytes() != "total_net_repl_output_bytes".spec_bytes()) by { reveal_strlit("total_net_repl_output_bytes"); lemma_texts_differ("used_cpu_sys_main_thread", "total_net_repl_output_bytes"); }
    assert("used_cpu_sys_main_thread".spec_bytes() != "expired_subkeys".spec_bytes()) by { reveal_strlit("expired_subkeys"); lemma_texts_differ("used_cpu_sys_main_thread", "expired_subkeys"); }
    assert("used_cpu_sys_main_thread".spec_bytes() != "expired_keys".spec_bytes()) by { reveal_strlit("expired_keys"); lemma_texts_differ("used_cpu_sys_main_thread", "expired_keys"); }
    assert("used_cpu_sys_main_thread".spec_bytes() != "expire_cycle_cpu_milliseconds".spec_bytes()) by { reveal_strlit("expire_cycle_cpu_milliseconds"); lemma_texts_differ("used_cpu_sys_main_thread", "expire_cycle_cpu_milliseconds"); }
    assert("used_cpu_sys_main_thread".spec_bytes() != "evicted_keys".spec_bytes()) by { reveal_strlit("evicted_keys"); lemma_texts_differ("used_cpu_sys_main_thread", "evicted_keys"); }
    assert("used_cpu_sys_main_thread".spec_bytes() != "evicted_clients".spec_bytes()) by { reveal_strlit("evicted_clients"); lemma_texts_differ("used_cpu_sys_main_thread", "evicted_clients"); }
    assert("used_cpu_sys_main_thread".spec_bytes() != "evicted_scripts".spec_bytes()) by { reveal_strlit("evicted_scripts"); lemma_texts_differ("used_cpu_sys_main_thread", "evicted_scripts"); }
    assert("used_cpu_sys_main_thread".spec_bytes() != "total_eviction_exceeded_time".spec_bytes()) by { reveal_strlit("total_eviction_exceeded_time"); lemma_texts_differ("used_cpu_sys_main_thread", "total_eviction_exceeded_time"); }
    assert("used_cpu_sys_main_thread".spec_bytes() != "keyspace_hits".spec_bytes()) by { reveal_strlit("keyspace_hits"); lemma_texts_differ("used_cpu_sys_main_thread", "keyspace_hits"); }
    assert("used_cpu_sys_main_thread".spec_bytes() != "keyspace_misses".spec_bytes()) by { reveal_strlit("keyspace_misses"); lemma_texts_differ("used_cpu_sys_main_thread", "keyspace_misses"); }
    assert("used_cpu_sys_main_thread".spec_bytes() != "used_cpu_sys".spec_bytes()) by { reveal_strlit("used_cpu_sys"); lemma_texts_differ("used_cpu_sys_main_thread", "used_cpu_sys"); }
    assert("used_cpu_sys_main_thread".spec_bytes() != "used_cpu_user".spec_bytes()) by { reveal_strlit("used_cpu_user"); lemma_texts_differ("used_cpu_sys_main_thread", "used_cpu_user"); }
    assert("used_cpu_sys_main_thread".spec_bytes() != "used_cpu_sys_children".spec_bytes()) by { reveal_strlit("used_cpu_sys_children"); lemma_texts_differ("used_cpu_sys_main_thread", "used_cpu_sys_children"); }
    assert("used_cpu_sys_main_thread".spec_bytes() != "used_cpu_user_children".spec_bytes()) by { reveal_strlit("used_cpu_user_children"); lemma_texts_differ("used_cpu_sys_main_thread", "used_cpu_user_children"); }
}

/// The field `used_cpu_user_main_thread` is reported as the counter `cpu_user_main_thread_seconds_total` where part 6 of the table is read.
pub proof fn lemma_field_used_cpu_user_main_thread()
    ensures
        table_part_6("used_cpu_user_main_thread".spec_bytes()) == Some(
            GenericMetric { kind: Kind::Sum, name: "cpu_user_main_thread_seconds_total", description: "User CPU consumed by the Redis server main thread", micros: false },
        ),
{
    reveal_strlit("used_cpu_user_main_thread");
    assert("used_cpu_user_main_thread".spec_bytes() != "search_gc_marked_deleted_vectors".spec_bytes()) by { reveal_strlit("search_gc_marked_deleted_vectors"); lemma_texts_differ("used_cpu_user_main_thread", "search_gc_marked_deleted_vectors"); }
    assert("used_cpu_user_main_thread".spec_bytes() != "search_errors_indexing_failures".spec_bytes()) by { reveal_strlit("search_errors_indexing_failures"); lemma_texts_differ("used_cpu_user_main_thread", "search_errors_indexing_failures"); }
    assert("used_cpu_user_main_thread".spec_bytes() != "total_connections_received".spec_bytes()) by { reveal_strlit("total_connections_received"); lemma_texts_differ("used_cpu_user_main_thread", "total_connections_received"); }
    assert("used_cpu_user_main_thread".spec_bytes() != "total_commands_processed".spec_bytes()) by { reveal_strlit("total_commands_processed"); lemma_texts_differ("used_cpu_user_main_thread", "total_commands_processed"); }
    assert("used_cpu_user_main_thread".spec_bytes() != "rejected_connections".spec_bytes()) by { reveal_strlit("rejected_connections"); lemma_texts_differ("used_cpu_user_main_thread", "rejected_connections"); }
    assert("used_cpu_user_main_thread".spec_bytes() != "total_net_input_bytes".spec_bytes()) by { reveal_strlit("total_net_input_bytes"); lemma_texts_differ("used_cpu_user_main_thread", "total_net_input_bytes"); }
    assert("used_cpu_user_main_thread".spec_bytes() != "total_net_output_bytes".spec_bytes()) by { reveal_strlit("total_net_output_bytes"); lemma_texts_differ("used_cpu_user_main_thread", "total_net_output_bytes"); }
    assert("used_cpu_user_main_thread".spec_bytes() != "total_net_repl_input_bytes".spec_bytes()) by { reveal_strlit("total_net_repl_input_bytes"); lemma_texts_differ("used_cpu_user_main_thread", "total_net_repl_input_bytes"); }
    assert("used_cpu_user_main_thread".spec_bytes() != "total_net_repl_output_bytes".spec_bytes()) by { reveal_strlit("total_net_repl_output_bytes"); lemma_texts_differ("used_cpu_user_main_thread", "total_net_repl_output_bytes"); }
    assert("used_cpu_user_main_thread".spec_bytes() != "expired_subkeys".spec_bytes()) by { reveal_strlit("expired_subkeys"); lemma_texts_differ("used_cpu_user_main_thread", "expired_subkeys"); }
    assert("used_cpu_user_main_thread".spec_bytes() != "expired_keys".spec_bytes()) by { reveal_strlit("expired_keys"); lemma_texts_differ("used_cpu_user_main_thread", "expired_keys"); }
    assert("used_cpu_user_main_thread".spec_bytes() != "expire_cycle_cpu_milliseconds".spec_bytes()) by { reveal_strlit("expire_cycle_cpu_milliseconds"); lemma_texts_differ("used_cpu_user_main_thread", "expire_cycle_cpu_milliseconds"); }
    assert("used_cpu_user_main_thread".spec_bytes() != "evicted_keys".spec_bytes()) by { reveal_strlit("evicted_keys"); lemma_texts_differ("used_cpu_user_main_thread", "evicted_keys"); }
    assert("used_cpu_user_main_thread".spec_bytes() != "evicted_clients".spec_bytes()) by { reveal_strlit("evicted_clients"); lemma_texts_differ("used_cpu_user_main_thread", "evicted_clients"); }
    assert("used_cpu_user_main_thread".spec_bytes() != "evicted_scripts".spec_bytes()) by { reveal_strlit("evicted_scripts"); lemma_texts_differ("used_cpu_user_main_thread", "evicted_scripts"); }
    assert("used_cpu_user_main_thread".spec_bytes() != "total_eviction_exceeded_time".spec_bytes()) by { reveal_strlit("total_eviction_exceeded_time"); lemma_texts_differ("used_cpu_user_main_thread", "total_eviction_exceeded_time"); }
    assert("used_cpu_user_main_thread".spec_bytes() != "keyspace_hits".spec_bytes()) by { reveal_strlit("keyspace_hits"); lemma_texts_differ("used_cpu_user_main_thread", "keyspace_hits"); }
    assert("used_cpu_user_main_thread".spec_bytes() != "keyspace_misses".spec_bytes()) by { reveal_strlit("keyspace_misses"); lemma_texts_differ("used_cpu_user_main_thread", "keyspace_misses"); }
    assert("used_cpu_user_main_thread".spec_bytes() != "used_cpu_sys".spec_bytes()) by { reveal_strlit("used_cpu_sys"); lemma_texts_differ("used_cpu_user_main_thread", "used_cpu_sys"); }
    assert("used_cpu_user_main_thread".spec_bytes() != "used_cpu_user".spec_bytes()) by { reveal_strlit("used_cpu_user"); lemma_texts_differ("used_cpu_user_main_thread", "used_cpu_user"); }
    assert("used_cpu_user_main_thread".spec_bytes() != "used_cpu_sys_children".spec_bytes()) by { reveal_strlit("used_cpu_sys_children"); lemma_texts_differ("used_cpu_user_main_thread", "used_cpu_sys_children"); }
    assert("used_cpu_user_main_thread".spec_bytes() != "used_cpu_user_children".spec_bytes()) by { reveal_strlit("used_cpu_user_children"); lemma_texts_differ("used_cpu_user_main_thread", "used_cpu_user_children"); }
    assert("used_cpu_user_main_thread".spec_bytes() != "used_cpu_sys_main_thread".spec_bytes()) by { reveal_strlit("used_cpu_sys_main_thread"); lemma_texts_differ("used_cpu_user_main_thread", "used_cpu_sys_main_thread"); }
}

/// The field `unexpected_error_replies` is reported as the counter `unexpected_error_replies` where part 6 of the table is read.
pub proof fn lemma_field_unexpected_error_replies()
    ensures
        table_part_6("unexpected_error_replies".spec_bytes()) == Some(
            GenericMetric { kind: Kind::Sum, name: "unexpected_error_replies", description: "Number of unexpected error replies, that are types of errors from an AOF load or replication", micros: false },
        ),
{
    reveal_strlit("unexpected_error_replies");
    assert("unexpected_error_replies".spec_bytes() != "search_gc_marked_deleted_vectors".spec_bytes()) by { reveal_strlit("search_gc_marked_deleted_vectors"); lemma_texts_differ("unexpected_error_replies", "search_gc_marked_deleted_vectors"); }
    assert("unexpected_error_replies".spec_bytes() != "search_errors_indexing_failures".spec_bytes()) by { reveal_strlit("search_errors_indexing_failures"); lemma_texts_differ("unexpected_error_replies", "search_errors_indexing_failures"); }
    assert("unexpected_error_replies".spec_bytes() != "total_connections_received".spec_bytes()) by { reveal_strlit("total_connections_received"); lemma_texts_differ("unexpected_error_replies", "total_connections_received"); }
    assert("unexpected_error_replies".spec_bytes() != "total_commands_processed".spec_bytes()) by {
        reveal_strlit("total_commands_processed");
        assert("unexpected_error_replies"@[0] != "total_commands_processed"@[0]);
        lemma_texts_differ("unexpected_error_replies", "total_commands_processed");
    }
    assert("unexpected_error_replies".spec_bytes() != "rejected_connections".spec_bytes()) by { reveal_strlit("rejected_connections"); lemma_texts_differ("unexpected_error_replies", "rejected_connections"); }
    assert("unexpected_error_replies".spec_bytes() != "total_net_input_bytes".spec_bytes()) by { reveal_strlit("total_net_input_bytes"); lemma_texts_differ("unexpected_error_replies", "total_net_input_bytes"); }
    assert("unexpected_error_replies".spec_bytes() != "total_net_output_bytes".spec_bytes()) by { reveal_strlit("total_net_output_bytes"); lemma_texts_differ("unexpected_error_replies", "total_net_output_bytes"); }
    assert("unexpected_error_replies".spec_bytes() != "total_net_repl_input_bytes".spec_bytes()) by { reveal_strlit("total_net_repl_input_bytes"); lemma_texts_differ("unexpected_error_replies", "total_net_repl_input_bytes"); }
    assert("unexpected_error_replies".spec_bytes() != "total_net_repl_output_bytes".spec_bytes()) by { reveal_strlit("total_net_repl_output_bytes"); lemma_texts_differ("unexpected_error_replies", "total_net_repl_output_bytes"); }
    assert("unexpected_error_replies".spec_bytes() != "expired_subkeys".spec_bytes()) by { reveal_strlit("expired_subkeys"); lemma_texts_differ("unexpected_error_replies", "expired_subkeys"); }
    assert("unexpected_error_replies".spec_bytes() != "expired_keys".spec_bytes()) by { reveal_strlit("expired_keys"); lemma_texts_differ("unexpected_error_replies", "expired_keys"); }
    assert("unexpected_error_replies".spec_bytes() != "expire_cycle_cpu_milliseconds".spec_bytes()) by { reveal_strlit("expire_cycle_cpu_milliseconds"); lemma_texts_differ("unexpected_error_replies", "expire_cycle_cpu_milliseconds"); }
    assert("unexpected_error_replies".spec_bytes() != "evicted_keys".spec_bytes()) by { reveal_strlit("evicted_keys"); lemma_texts_differ("unexpected_error_replies", "evicted_keys"); }
    assert("unexpected_error_replies".spec_bytes() != "evicted_clients".spec_bytes()) by { reveal_strlit("evicted_clients"); lemma_texts_differ("unexpected_error_replies", "evicted_clients"); }
    assert("unexpected_error_replies".spec_bytes() != "evicted_scripts".spec_bytes()) by { reveal_strlit("evicted_scripts"); lemma_texts_differ("unexpected_error_replies", "evicted_scripts"); }
    assert("unexpected_error_replies".spec_bytes() != "total_eviction_exceeded_time".spec_bytes()) by { reveal_strlit("total_eviction_exceeded_time"); lemma_texts_differ("unexpected_error_replies", "total_eviction_exceeded_time"); }
    assert("unexpected_error_replies".spec_bytes() != "keyspace_hits".spec_bytes()) by { reveal_strlit("keyspace_hits"); lemma_texts_differ("unexpected_error_replies", "keyspace_hits"); }
    assert("unexpected_error_replies".spec_bytes() != "keyspace_misses".spec_bytes()) by { reveal_strlit("keyspace_misses"); lemma_texts_differ("unexpected_error_replies", "keyspace_misses"); }
    assert("unexpected_error_replies".spec_bytes() != "used_cpu_sys".spec_bytes()) by { reveal_strlit("used_cpu_sys"); lemma_texts_differ("unexpected_error_replies", "used_cpu_sys"); }
    assert("unexpected_error_replies".spec_bytes() != "used_cpu_user".spec_bytes()) by { reveal_strlit("used_cpu_user"); lemma_texts_differ("unexpected_error_replies", "used_cpu_user"); }
    assert("unexpected_error_replies".spec_bytes() != "used_cpu_sys_children".spec_bytes()) by { reveal_strlit("used_cpu_sys_children"); lemma_texts_differ("unexpected_error_replies", "used_cpu_sys_children"); }
    assert("unexpected_error_replies".spec_bytes() != "used_cpu_user_children".spec_bytes()) by { reveal_strlit("used_cpu_user_children"); lemma_texts_differ("unexpected_error_replies", "used_cpu_user_children"); }
    assert("unexpected_error_replies".spec_bytes() != "used_cpu_sys_main_thread".spec_bytes()) by {
        reveal_strlit("used_cpu_sys_main_thread");
        assert("unexpected_error_replies"@[1] != "used_cpu_sys_main_thread"@[1]);
        lemma_texts_differ("unexpected_error_replies", "used_cpu_sys_main_thread");
    }
    assert("unexpected_error_replies".spec_bytes() != "used_cpu_user_main_thread".spec_bytes()) by { reveal_strlit("used_cpu_user_main_thread"); lemma_texts_differ("unexpected_error_replies", "used_cpu_user_main_thread"); }
}

/// The field `total_error_replies` is reported as the counter `total_error_replies` where part 6 of the table is read.
pub proof fn lemma_field_total_error_replies()
    ensures
        table_part_6("total_error_replies".spec_bytes()) == Some(
            GenericMetric { kind: Kind::Sum, name: "total_error_replies", description: "Total number of issued error replies, that is the sum of rejected commands (errors prior command execution) and failed commands (errors within the command execution)", micros: false },
        ),
{
    reveal_strlit("total_error_replies");
    assert("total_error_replies".spec_bytes() != "search_gc_marked_deleted_vectors".spec_bytes()) by { reveal_strlit("search_gc_marked_deleted_vectors"); lemma_texts_differ("total_error_replies", "search_gc_marked_deleted_vectors"); }
    assert("total_error_replies".spec_bytes() != "search_errors_indexing_failures".spec_bytes()) by { reveal_strlit("search_errors_indexing_failures"); lemma_texts_differ("total_error_replies", "search_errors_indexing_failures"); }
    assert("total_error_replies".spec_bytes() != "total_connections_received".spec_bytes()) by { reveal_strlit("total_connections_received"); lemma_texts_differ("total_error_replies", "total_connections_received"); }
    assert("total_error_replies".spec_bytes() != "total_commands_processed".spec_bytes()) by { reveal_strlit("total_commands_processed"); lemma_texts_differ("total_error_replies", "total_commands_processed"); }
    assert("total_error_replies".spec_bytes() != "rejected_connections".spec_bytes()) by { reveal_strlit("rejected_connections"); lemma_texts_differ("total_error_replies", "rejected_connections"); }
    assert("total_error_replies".spec_bytes() != "total_net_input_bytes".spec_bytes()) by { reveal_strlit("total_net_input_bytes"); lemma_texts_differ("total_error_replies", "total_net_input_bytes"); }
    assert("total_error_replies".spec_bytes() != "total_net_output_bytes".spec_bytes()) by { reveal_strlit("total_net_output_bytes"); lemma_texts_differ("total_error_replies", "total_net_output_bytes"); }
    assert("total_error_replies".spec_bytes() != "total_net_repl_input_bytes".spec_bytes()) by { reveal_strlit("total_net_repl_input_bytes"); lemma_texts_differ("total_error_replies", "total_net_repl_input_bytes"); }
    assert("total_error_replies".spec_bytes() != "total_net_repl_output_bytes".spec_bytes()) by { reveal_strlit("total_net_repl_output_bytes"); lemma_texts_differ("total_error_replies", "total_net_repl_output_bytes"); }
    assert("total_error_replies".spec_bytes() != "expired_subkeys".spec_bytes()) by { reveal_strlit("expired_subkeys"); lemma_texts_differ("total_error_replies", "expired_subkeys"); }
    assert("total_error_replies".spec_bytes() != "expired_keys".spec_bytes()) by { reveal_strlit("expired_keys"); lemma_texts_differ("total_error_replies", "expired_keys"); }
    assert("total_error_replies".spec_bytes() != "expire_cycle_cpu_milliseconds".spec_bytes()) by { reveal_strlit("expire_cycle_cpu_milliseconds"); lemma_texts_differ("total_error_replies", "expire_cycle_cpu_milliseconds"); }
    assert("total_error_replies".spec_bytes() != "evicted_keys".spec_bytes()) by { reveal_strlit("evicted_keys"); lemma_texts_differ("total_error_replies", "evicted_keys"); }
    assert("total_error_replies".spec_bytes() != "evicted_clients".spec_bytes()) by { reveal_strlit("evicted_clients"); lemma_texts_differ("total_error_replies", "evicted_clients"); }
    assert("total_error_replies".spec_bytes() != "evicted_scripts".spec_bytes()) by { reveal_strlit("evicted_scripts"); lemma_texts_differ("total_error_replies", "evicted_scripts"); }
    assert("total_error_replies".spec_bytes() != "total_eviction_exceeded_time".spec_bytes()) by { reveal_strlit("total_eviction_exceeded_time"); lemma_texts_differ("total_error_replies", "total_eviction_exceeded_time"); }
    assert("total_error_replies".spec_bytes() != "keyspace_hits".spec_bytes()) by { reveal_strlit("keyspace_hits"); lemma_texts_differ("total_error_replies", "keyspace_hits"); }
    assert("total_error_replies".spec_bytes() != "keyspace_misses".spec_bytes()) by { reveal_strlit("keyspace_misses"); lemma_texts_differ("total_error_replies", "keyspace_misses"); }
    assert("total_error_replies".spec_bytes() != "used_cpu_sys".spec_bytes()) by { reveal_strlit("used_cpu_sys"); lemma_texts_differ("total_error_replies", "used_cpu_sys"); }
    assert("total_error_replies".spec_bytes() != "used_cpu_user".spec_bytes()) by { reveal_strlit("used_cpu_user"); lemma_texts_differ("total_error_replies", "used_cpu_user"); }
    assert("total_error_replies".spec_bytes() != "used_cpu_sys_children".spec_bytes()) by { reveal_strlit("used_cpu_sys_children"); lemma_texts_differ("total_error_replies", "used_cpu_sys_children"); }
    assert("total_error_replies".spec_bytes() != "used_cpu_user_children".spec_bytes()) by { reveal_strlit("used_cpu_user_children"); lemma_texts_differ("total_error_replies", "used_cpu_user_children"); }
    assert("total_error_replies".spec_bytes() != "used_cpu_sys_main_thread".spec_bytes()) by { reveal_strlit("used_cpu_sys_main_thread"); lemma_texts_differ("total_error_replies", "used_cpu_sys_main_thread"); }
    assert("total_error_replies".spec_bytes() != "used_cpu_user_main_thread".spec_bytes()) by { reveal_strlit("used_cpu_user_main_thread"); lemma_texts_differ("total_error_replies", "used_cpu_user_main_thread"); }
    assert("total_error_replies".spec_bytes() != "unexpected_error_replies".spec_bytes()) by { reveal_strlit("unexpected_error_replies"); lemma_texts_differ("total_error_replies", "unexpected_error_replies"); }
}

/// The field `dump_payload_sanitizations` is reported as the counter `dump_payload_sanitizations` where part 6 of the table is read.
pub proof fn lemma_field_dump_payload_sanitizations()
    ensures
        table_part_6("dump_payload_sanitizations".spec_bytes()) == Some(
            GenericMetric { kind: Kind::Sum, name: "dump_payload_sanitizations", description: "Total number of dump payload deep integrity validations (see sanitize-dump-payload config)", micros: false },
        ),
{
    reveal_strlit("dump_payload_sanitizations");
    assert("dump_payload_sanitizations".spec_bytes() != "search_gc_marked_deleted_vectors".spec_bytes()) by { reveal_strlit("search_gc_marked_deleted_vectors"); lemma_texts_differ("dump_payload_sanitizations", "search_gc_marked_deleted_vectors"); }
    assert("dump_payload_sanitizations".spec_bytes() != "search_errors_indexing_failures".spec_bytes()) by { reveal_strlit("search_errors_indexing_failures"); lemma_texts_differ("dump_payload_sanitizations", "search_errors_indexing_failures"); }
    assert("dump_payload_sanitizations".spec_bytes() != "total_connections_received".spec_bytes()) by {
        reveal_strlit("total_connections_received");
        assert("dump_payload_sanitizations"@[0] != "total_connections_received"@[0]);
        lemma_texts_differ("dump_payload_sanitizations", "total_connections_received");
    }
    assert("dump_payload_sanitizations".spec_bytes() != "total_commands_processed".spec_bytes()) by { reveal_strlit("total_commands_processed"); lemma_texts_differ("dump_payload_sanitizations", "total_commands_processed"); }
    assert("dump_payload_sanitizations".spec_bytes() != "rejected_connections".spec_bytes()) by { reveal_strlit("rejected_connections"); lemma_texts_differ("dump_payload_sanitizations", "rejected_connections"); }
    assert("dump_payload_sanitizations".spec_bytes() != "total_net_input_bytes".spec_bytes()) by { reveal_strlit("total_net_input_bytes"); lemma_texts_differ("dump_payload_sanitizations", "total_net_input_bytes"); }
    assert("dump_payload_sanitizations".spec_bytes() != "total_net_output_bytes".spec_bytes()) by { reveal_strlit("total_net_output_bytes"); lemma_texts_differ("dump_payload_sanitizations", "total_net_output_bytes"); }
    assert("dump_payload_sanitizations".spec_bytes() != "total_net_repl_input_bytes".spec_bytes()) by {
        reveal_strlit("total_net_repl_input_bytes");
        assert("dump_payload_sanitizations"@[0] != "total_net_repl_input_bytes"@[0]);
        lemma_texts_differ("dump_payload_sanitizations", "total_net_repl_input_bytes");
    }
    assert("dump_payload_sanitizations".spec_bytes() != "total_net_repl_output_bytes".spec_bytes()) by { reveal_strlit("total_net_repl_output_bytes"); lemma_texts_differ("dump_payload_sanitizations", "total_net_repl_output_bytes"); }
    assert("dump_payload_sanitizations".spec_bytes() != "expired_subkeys".spec_bytes()) by { reveal_strlit("expired_subkeys"); lemma_texts_differ("dump_payload_sanitizations", "expired_subkeys"); }
    assert("dump_payload_sanitizations".spec_bytes() != "expired_keys".spec_bytes()) by { reveal_strlit("expired_keys"); lemma_texts_differ("dump_payload_sanitizations", "expired_keys"); }
    assert("dump_payload_sanitizations".spec_bytes() != "expire_cycle_cpu_milliseconds".spec_bytes()) by { reveal_strlit("expire_cycle_cpu_milliseconds"); lemma_texts_differ("dump_payload_sanitizations", "expire_cycle_cpu_milliseconds"); }
    assert("dump_payload_sanitizations".spec_bytes() != "evicted_keys".spec_bytes()) by { reveal_strlit("evicted_keys"); lemma_texts_differ("dump_payload_sanitizations", "evicted_keys"); }
    assert("dump_payload_sanitizations".spec_bytes() != "evicted_clients".spec_bytes()) by { reveal_strlit("evicted_clients"); lemma_texts_differ("dump_payload_sanitizations", "evicted_clients"); }
    assert("dump_payload_sanitizations".spec_bytes() != "evicted_scripts".spec_bytes()) by { reveal_strlit("evicted_scripts"); lemma_texts_differ("dump_payload_sanitizations", "evicted_scripts"); }
    assert("dump_payload_sanitizations".spec_bytes() != "total_eviction_exceeded_time".spec_bytes()) by { reveal_strlit("total_eviction_exceeded_time"); lemma_texts_differ("dump_payload_sanitizations", "total_eviction_exceeded_time"); }
    assert("dump_payload_sanitizations".spec_bytes() != "keyspace_hits".spec_bytes()) by { reveal_strlit("keyspace_hits"); lemma_texts_differ("dump_payload_sanitizations", "keyspace_hits"); }
    assert("dump_payload_sanitizations".spec_bytes() != "keyspace_misses".spec_bytes()) by { reveal_strlit("keyspace_misses"); lemma_texts_differ("dump_payload_sanitizations", "keyspace_misses"); }
    assert("dump_payload_sanitizations".spec_bytes() != "used_cpu_sys".spec_bytes()) by { reveal_strlit("used_cpu_sys"); lemma_texts_differ("dump_payload_sanitizations", "used_cpu_sys"); }
    assert("dump_payload_sanitizations".spec_bytes() != "used_cpu_user".spec_bytes()) by { reveal_strlit("used_cpu_user"); lemma_texts_differ("dump_payload_sanitizations", "used_cpu_user"); }
    assert("dump_payload_sanitizations".spec_bytes() != "used_cpu_sys_children".spec_bytes()) by { reveal_strlit("used_cpu_sys_children"); lemma_texts_differ("dump_payload_sanitizations", "used_cpu_sys_children"); }
    assert("dump_payload_sanitizations".spec_bytes() != "used_cpu_user_children".spec_bytes()) by { reveal_strlit("used_cpu_user_children"); lemma_texts_differ("dump_payload_sanitizations", "used_cpu_user_children"); }
    assert("dump_payload_sanitizations".spec_bytes() != "used_cpu_sys_main_thread".spec_bytes()) by { reveal_strlit("used_cpu_sys_main_thread"); lemma_texts_differ("dump_payload_sanitizations", "used_cpu_sys_main_thread"); }
    assert("dump_payload_sanitizations".spec_bytes() != "used_cpu_user_main_thread".spec_bytes()) by { reveal_strlit("used_cpu_user_main_thread"); lemma_texts_differ("dump_payload_sanitizations", "used_cpu_user_main_thread"); }
    assert("dump_payload_sanitizations".spec_bytes() != "unexpected_error_replies".spec_bytes()) by { reveal_strlit("unexpected_error_replies"); lemma_texts_differ("dump_payload_sanitizations", "unexpected_error_replies"); }
    assert("dump_payload_sanitizations".spec_bytes() != "total_error_replies".spec_bytes()) by { reveal_strlit("total_error_replies"); lemma_texts_differ("dump_payload_sanitizations", "total_error_replies"); }
}

/// The field `total_reads_processed` is reported as the counter `total_reads_processed` where part 7 of the table is read.
pub proof fn lemma_field_total_reads_processed()
    ensures
        table_part_7("total_reads_processed".spec_bytes()) == Some(
            GenericMetric { kind: Kind::Sum, name: "total_reads_processed", description: "Total number of read events processed", micros: false },
        ),
{

}

/// The field `total_writes_processed` is reported as the counter `total_writes_processed` where part 7 of the table is read.
pub proof fn lemma_field_total_writes_processed()
    ensures
        table_part_7("total_writes_processed".spec_bytes()) == Some(
            GenericMetric { kind: Kind::Sum, name: "total_writes_processed", description: "Total number of write events processed", micros: false },
        ),
{
    reveal_strlit("total_writes_processed");
    assert("total_writes_processed".spec_bytes() != "total_reads_processed".spec_bytes()) by { reveal_strlit("total_reads_processed"); lemma_texts_differ("total_writes_processed", "total_reads_processed"); }
}

/// The field `io_threaded_reads_processed` is reported as the counter `io_threaded_reads_processed` where part 7 of the table is read.
pub proof fn lemma_field_io_threaded_reads_processed()
    ensures
        table_part_7("io_threaded_reads_processed".spec_bytes()) == Some(
            GenericMetric { kind: Kind::Sum, name: "io_threaded_reads_processed", description: "Number of read events processed by I/O threads", micros: false },
        ),
{
    reveal_strlit("io_threaded_reads_processed");
    assert("io_threaded_reads_processed".spec_bytes() != "total_reads_processed".spec_bytes()) by { reveal_strlit("total_reads_processed"); lemma_texts_differ("io_threaded_reads_processed", "total_reads_processed"); }
    assert("io_threaded_reads_processed".spec_bytes() != "total_writes_processed".spec_bytes()) by { reveal_strlit("total_writes_processed"); lemma_texts_differ("io_threaded_reads_processed", "total_writes_processed"); }
}

/// The field `io_threaded_writes_processed` is reported as the counter `io_threaded_writes_processed` where part 7 of the table is read.
pub proof fn lemma_field_io_threaded_writes_processed()
    ensures
        table_part_7("io_threaded_writes_processed".spec_bytes()) == Some(
            GenericMetric { kind: Kind::Sum, name: "io_threaded_writes_processed", description: "Number of write events processed by I/O threads", micros: false },
        ),
{
    reveal_strlit("io_threaded_writes_processed");
    assert("io_threaded_writes_processed".spec_bytes() != "total_reads_processed".spec_bytes()) by { reveal_strlit("total_reads_processed"); lemma_texts_differ("io_threaded_writes_processed", "total_reads_processed"); }
    assert("io_threaded_writes_processed".spec_bytes() != "total_writes_processed".spec_bytes()) by { reveal_strlit("total_writes_processed"); lemma_texts_differ("io_threaded_writes_processed", "total_writes_processed"); }
    assert("io_threaded_writes_processed".spec_bytes() != "io_threaded_reads_processed".spec_bytes()) by { reveal_strlit("io_threaded_reads_processed"); lemma_texts_differ("io_threaded_writes_processed", "io_threaded_reads_processed"); }
}

/// The field `client_query_buffer_limit_disconnections` is reported as the counter `client_query_buffer_limit_disconnections_total` where part 7 of the table is read.
pub proof fn lemma_field_client_query_buffer_limit_disconnections()
    ensures
        table_part_7("client_query_buffer_limit_disconnections".spec_bytes()) == Some(
            GenericMetric { kind: Kind::Sum, name: "client_query_buffer_limit_disconnections_total", description: "Total number of disconnections due to client reaching query buffer limit", micros: false },
        ),
{
    reveal_strlit("client_query_buffer_limit_disconnections");
    assert("client_query_buffer_limit_disconnections".spec_bytes() != "total_reads_processed".spec_bytes()) by { reveal_strlit("total_reads_processed"); lemma_texts_differ("client_query_buffer_limit_disconnections", "total_reads_processed"); }
    assert("client_query_buffer_limit_disconnections".spec_bytes() != "total_writes_processed".spec_bytes()) by { reveal_strlit("total_writes_processed"); lemma_texts_differ("client_query_buffer_limit_disconnections", "total_writes_processed"); }
    assert("client_query_buffer_limit_disconnections".spec_bytes() != "io_threaded_reads_processed".spec_bytes()) by { reveal_strlit("io_threaded_reads_processed"); lemma_texts_differ("client_query_buffer_limit_disconnections", "io_threaded_reads_processed"); }
    assert("client_query_buffer_limit_disconnections".spec_bytes() != "io_threaded_writes_processed".spec_bytes()) by { reveal_strlit("io_threaded_writes_processed"); lemma_texts_differ("client_query_buffer_limit_disconnections", "io_threaded_writes_processed"); }
}

/// The field `client_output_buffer_limit_disconnections` is reported as the counter `client_output_buffer_limit_disconnections_total` where part 7 of the table is read.
pub proof fn lemma_field_client_output_buffer_limit_disconnections()
    ensures
        table_part_7("client_output_buffer_limit_disconnections".spec_bytes()) == Some(
            GenericMetric { kind: Kind::Sum, name: "client_output_buffer_limit_disconnections_total", description: "Total number of disconnections due to client reaching output buffer limit", micros: false },
        ),
{
    reveal_strlit("client_output_buffer_limit_disconnections");
    assert("client_output_buffer_limit_disconnections".spec_bytes() != "total_reads_processed".spec_bytes()) by { reveal_strlit("total_reads_processed"); lemma_texts_differ("client_output_buffer_limit_disconnections", "total_reads_processed"); }
    assert("client_output_buffer_limit_disconnections".spec_bytes() != "total_writes_processed".spec_bytes()) by { reveal_strlit("total_writes_processed"); lemma_texts_differ("client_output_buffer_limit_disconnections", "total_writes_processed"); }
    assert("client_output_buffer_limit_disconnections".spec_bytes() != "io_threaded_reads_processed".spec_bytes()) by { reveal_strlit("io_threaded_reads_processed"); lemma_texts_differ("client_output_buffer_limit_disconnections", "io_threaded_reads_processed"); }
    assert("client_output_buffer_limit_disconnections".spec_bytes() != "io_threaded_writes_processed".spec_bytes()) by { reveal_strlit("io_threaded_writes_processed"); lemma_texts_differ("client_output_buffer_limit_disconnections", "io_threaded_writes_processed"); }
    assert("client_output_buffer_limit_disconnections".spec_bytes() != "client_query_buffer_limit_disconnections".spec_bytes()) by { reveal_strlit("client_query_buffer_limit_disconnections"); lemma_texts_differ("client_output_buffer_limit_disconnections", "client_query_buffer_limit_disconnections"); }
}

/// The field `reply_buffer_shrinks` is reported as the counter `reply_buffer_shrinks_total` where part 7 of the table is read.
pub proof fn lemma_field_reply_buffer_shrinks()
    ensures
        table_part_7("reply_buffer_shrinks".spec_bytes()) == Some(
            GenericMetric { kind: Kind::Sum, name: "reply_buffer_shrinks_total", description: "Total number of output buffer shrinks", micros: false },
        ),
{
    reveal_strlit("reply_buffer_shrinks");
    assert("reply_buffer_shrinks".spec_bytes() != "total_reads_processed".spec_bytes()) by { reveal_strlit("total_reads_processed"); lemma_texts_differ("reply_buffer_shrinks", "total_reads_processed"); }
    assert("reply_buffer_shrinks".spec_bytes() != "total_writes_processed".spec_bytes()) by { reveal_strlit("total_writes_processed"); lemma_texts_differ("reply_buffer_shrinks", "total_writes_processed"); }
    assert("reply_buffer_shrinks".spec_bytes() != "io_threaded_reads_processed".spec_bytes()) by { reveal_strlit("io_threaded_reads_processed"); lemma_texts_differ("reply_buffer_shrinks", "io_threaded_reads_processed"); }
    assert("reply_buffer_shrinks".spec_bytes() != "io_threaded_writes_processed".spec_bytes()) by { reveal_strlit("io_threaded_writes_processed"); lemma_texts_differ("reply_buffer_shrinks", "io_threaded_writes_processed"); }
    assert("reply_buffer_shrinks".spec_bytes() != "client_query_buffer_limit_disconnections".spec_bytes()) by { reveal_strlit("client_query_buffer_limit_disconnections"); lemma_texts_differ("reply_buffer_shrinks", "client_query_buffer_limit_disconnections"); }
    assert("reply_buffer_shrinks".spec_bytes() != "client_output_buffer_limit_disconnections".spec_bytes()) by { reveal_strlit("client_output_buffer_limit_disconnections"); lemma_texts_differ("reply_buffer_shrinks", "client_output_buffer_limit_disconnections"); }
}

/// The field `reply_buffer_expands` is reported as the counter `reply_buffer_expands_total` where part 7 of the table is read.
pub proof fn lemma_field_reply_buffer_expands()
    ensures
        table_part_7("reply_buffer_expands".spec_bytes()) == Some(
            GenericMetric { kind: Kind::Sum, name: "reply_buffer_expands_total", description: "Total number of output buffer expands", micros: false },
        ),
{
    reveal_strlit("reply_buffer_expands");
    assert("reply_buffer_expands".spec_bytes() != "total_reads_processed".spec_bytes()) by { reveal_strlit("total_reads_processed"); lemma_texts_differ("reply_buffer_expands", "total_reads_processed"); }
    assert("reply_buffer_expands".spec_bytes() != "total_writes_processed".spec_bytes()) by { reveal_strlit("total_writes_processed"); lemma_texts_differ("reply_buffer_expands", "total_writes_processed"); }
    assert("reply_buffer_expands".spec_bytes() != "io_threaded_reads_processed".spec_bytes()) by { reveal_strlit("io_threaded_reads_processed"); lemma_texts_differ("reply_buffer_expands", "io_threaded_reads_processed"); }
    assert("reply_buffer_expands".spec_bytes() != "io_threaded_writes_processed".spec_bytes()) by { reveal_strlit("io_threaded_writes_processed"); lemma_texts_differ("reply_buffer_expands", "io_threaded_writes_processed"); }
    assert("reply_buffer_expands".spec_bytes() != "client_query_buffer_limit_disconnections".spec_bytes()) by { reveal_strlit("client_query_buffer_limit_disconnections"); lemma_texts_differ("reply_buffer_expands", "client_query_buffer_limit_disconnections"); }
    assert("reply_buffer_expands".spec_bytes() != "client_output_buffer_limit_disconnections".spec_bytes()) by { reveal_strlit("client_output_buffer_limit_disconnections"); lemma_texts_differ("reply_buffer_expands", "client_output_buffer_limit_disconnections"); }
    assert("reply_buffer_expands".spec_bytes() != "reply_buffer_shrinks".spec_bytes()) by {
        reveal_strlit("reply_buffer_shrinks");
        assert("reply_buffer_expands"@[13] != "reply_buffer_shrinks"@[13]);
        lemma_texts_differ("reply_buffer_expands", "reply_buffer_shrinks");
    }
}

/// The field `acl_access_denied_auth` is reported as the counter `acl_access_denied_auth_total` where part 7 of the table is read.
pub proof fn lemma_field_acl_access_denied_auth()
    ensures
        table_part_7("acl_access_denied_auth".spec_bytes()) == Some(
            GenericMetric { kind: Kind::Sum, name: "acl_access_denied_auth_total", description: "Number of authentication failures", micros: false },
        ),
{
    reveal_strlit("acl_access_denied_auth");
    assert("acl_access_denied_auth".spec_bytes() != "total_reads_processed".spec_bytes()) by { reveal_strlit("total_reads_processed"); lemma_texts_differ("acl_access_denied_auth", "total_reads_processed"); }
    assert("acl_access_denied_auth".spec_bytes() != "total_writes_processed".spec_bytes()) by {
        reveal_strlit("total_writes_processed");
        assert("acl_access_denied_auth"@[0] != "total_writes_processed"@[0]);
        lemma_texts_differ("acl_access_denied_auth", "total_writes_processed");
    }
    assert("acl_access_denied_auth".spec_bytes() != "io_threaded_reads_processed".spec_bytes()) by { reveal_strlit("io_threaded_reads_processed"); lemma_texts_differ("acl_access_denied_auth", "io_threaded_reads_processed"); }
    assert("acl_access_denied_auth".spec_bytes() != "io_threaded_writes_processed".spec_bytes()) by { reveal_strlit("io_threaded_writes_processed"); lemma_texts_differ("acl_access_denied_auth", "io_threaded_writes_processed"); }
    assert("acl_access_denied_auth".spec_bytes() != "client_query_buffer_limit_disconnections".spec_bytes()) by { reveal_strlit("client_query_buffer_limit_disconnections"); lemma_texts_differ("acl_access_denied_auth", "client_query_buffer_limit_disconnections"); }
    assert("acl_access_denied_auth".spec_bytes() != "client_output_buffer_limit_disconnections".spec_bytes()) by { reveal_strlit("client_output_buffer_limit_disconnections"); lemma_texts_differ("acl_access_denied_auth", "client_output_buffer_limit_disconnections"); }
    assert("acl_access_denied_auth".spec_bytes() != "reply_buffer_shrinks".spec_bytes()) by { reveal_strlit("reply_buffer_shrinks"); lemma_texts_differ("acl_access_denied_auth", "reply_buffer_shrinks"); }
    assert("acl_access_denied_auth".spec_bytes() != "reply_buffer_expands".spec_bytes()) by { reveal_strlit("reply_buffer_expands"); lemma_texts_differ("acl_access_denied_auth", "reply_buffer_expands"); }
}

/// The field `acl_access_denied_cmd` is reported as the counter `acl_access_denied_cmd_total` where part 7 of the table is read.
pub proof fn lemma_field_acl_access_denied_cmd()
    ensures
        table_part_7("acl_access_denied_cmd".spec_bytes()) == Some(
            GenericMetric { kind: Kind::Sum, name: "acl_access_denied_cmd_total", description: "Number of commands rejected because of access denied to the command", micros: false },
        ),
{
    reveal_strlit("acl_access_denied_cmd");
    assert("acl_access_denied_cmd".spec_bytes() != "total_reads_processed".spec_bytes()) by {
        reveal_strlit("total_reads_processed");
        assert("acl_access_denied_cmd"@[0] != "total_reads_processed"@[0]);
        lemma_texts_differ("acl_access_denied_cmd", "total_reads_processed");
    }
    assert("acl_access_denied_cmd".spec_bytes() != "total_writes_processed".spec_bytes()) by { reveal_strlit("total_writes_processed"); lemma_texts_differ("acl_access_denied_cmd", "total_writes_processed"); }
    assert("acl_access_denied_cmd".spec_bytes() != "io_threaded_reads_processed".spec_bytes()) by { reveal_strlit("io_threaded_reads_processed"); lemma_texts_differ("acl_access_denied_cmd", "io_threaded_reads_processed"); }
    assert("acl_access_denied_cmd".spec_bytes() != "io_threaded_writes_processed".spec_bytes()) by { reveal_strlit("io_threaded_writes_processed"); lemma_texts_differ("acl_access_denied_cmd", "io_threaded_writes_processed"); }
    assert("acl_access_denied_cmd".spec_bytes() != "client_query_buffer_limit_disconnections".spec_bytes()) by { reveal_strlit("client_query_buffer_limit_disconnections"); lemma_texts_differ("acl_access_denied_cmd", "client_query_buffer_limit_disconnections"); }
    assert("acl_access_denied_cmd".spec_bytes() != "client_output_buffer_limit_disconnections".spec_bytes()) by { reveal_strlit("client_output_buffer_limit_disconnections"); lemma_texts_differ("acl_access_denied_cmd", "client_output_buffer_limit_disconnections"); }
    assert("acl_access_denied_cmd".spec_bytes() != "reply_buffer_shrinks".spec_bytes()) by { reveal_strlit("reply_buffer_shrinks"); lemma_texts_differ("acl_access_denied_cmd", "reply_buffer_shrinks"); }
    assert("acl_access_denied_cmd".spec_bytes() != "reply_buffer_expands".spec_bytes()) by { reveal_strlit("reply_buffer_expands"); lemma_texts_differ("acl_access_denied_cmd", "reply_buffer_expands"); }
    assert("acl_access_denied_cmd".spec_bytes() != "acl_access_denied_auth".spec_bytes()) by { reveal_strlit("acl_access_denied_auth"); lemma_texts_differ("acl_access_denied_cmd", "acl_access_denied_auth"); }
}

/// The field `acl_access_denied_key` is reported as the counter `acl_access_denied_key_total` where part 7 of the table is read.
pub proof fn lemma_field_acl_access_denied_key()
    ensures
        table_part_7("acl_access_denied_key".spec_bytes()) == Some(
            GenericMetric { kind: Kind::Sum, name: "acl_access_denied_key_total", description: "Number of commands rejected because of access denied to a key", micros: false },
        ),
{
    reveal_strlit("acl_access_denied_key");
    assert("acl_access_denied_key".spec_bytes() != "total_reads_processed".spec_bytes()) by {
        reveal_strlit("total_reads_processed");
        assert("acl_access_denied_key"@[0] != "total_reads_processed"@[0]);
        lemma_texts_differ("acl_access_denied_key", "total_reads_processed");
    }
    assert("acl_access_denied_key".spec_bytes() != "total_writes_processed".spec_bytes()) by { reveal_strlit("total_writes_processed"); lemma_texts_differ("acl_access_denied_key", "total_writes_processed"); }
    assert("acl_access_denied_key".spec_bytes() != "io_threaded_reads_processed".spec_bytes()) by { reveal_strlit("io_threaded_reads_processed"); lemma_texts_differ("acl_access_denied_key", "io_threaded_reads_processed"); }
    assert("acl_access_denied_key".spec_bytes() != "io_threaded_writes_processed".spec_bytes()) by { reveal_strlit("io_threaded_writes_processed"); lemma_texts_differ("acl_access_denied_key", "io_threaded_writes_processed"); }
    assert("acl_access_denied_key".spec_bytes() != "client_query_buffer_limit_disconnections".spec_bytes()) by { reveal_strlit("client_query_buffer_limit_disconnections"); lemma_texts_differ("acl_access_denied_key", "client_query_buffer_limit_disconnections"); }
    assert("acl_access_denied_key".spec_bytes() != "client_output_buffer_limit_disconnections".spec_bytes()) by { reveal_strlit("client_output_buffer_limit_disconnections"); lemma_texts_differ("acl_access_denied_key", "client_output_buffer_limit_disconnections"); }
    assert("acl_access_denied_key".spec_bytes() != "reply_buffer_shrinks".spec_bytes()) by { reveal_strlit("reply_buffer_shrinks"); lemma_texts_differ("acl_access_denied_key", "reply_buffer_shrinks"); }
    assert("acl_access_denied_key".spec_bytes() != "reply_buffer_expands".spec_bytes()) by { reveal_strlit("reply_buffer_expands"); lemma_texts_differ("acl_access_denied_key", "reply_buffer_expands"); }
    assert("acl_access_denied_key".spec_bytes() != "acl_access_denied_auth".spec_bytes()) by { reveal_strlit("acl_access_denied_auth"); lemma_texts_differ("acl_access_denied_key", "acl_access_denied_auth"); }
    assert("acl_access_denied_key".spec_bytes() != "acl_access_denied_cmd".spec_bytes()) by {
        reveal_strlit("acl_access_denied_cmd");
        assert("acl_access_denied_key"@[18] != "acl_access_denied_cmd"@[18]);
        lemma_texts_differ("acl_access_denied_key", "acl_access_denied_cmd");
    }
}

/// The field `acl_access_denied_channel` is reported as the counter `acl_access_denied_channel_total` where part 7 of the table is read.
pub proof fn lemma_field_acl_access_denied_channel()
    ensures
        table_part_7("acl_access_denied_channel".spec_bytes()) == Some(
            GenericMetric { kind: Kind::Sum, name: "acl_access_denied_channel_total", description: "Number of commands rejected because of access denied to a channel", micros: false },
        ),
{
    reveal_strlit("acl_access_denied_channel");
    assert("acl_access_denied_channel".spec_bytes() != "total_reads_processed".spec_bytes()) by { reveal_strlit("total_reads_processed"); lemma_texts_differ("acl_access_denied_channel", "total_reads_processed"); }
    assert("acl_access_denied_channel".spec_bytes() != "total_writes_processed".spec_bytes()) by { reveal_strlit("total_writes_processed"); lemma_texts_differ("acl_access_denied_channel", "total_writes_processed"); }
    assert("acl_access_denied_channel".spec_bytes() != "io_threaded_reads_processed".spec_bytes()) by { reveal_strlit("io_threaded_reads_processed"); lemma_texts_differ("acl_access_denied_channel", "io_threaded_reads_processed"); }
    assert("acl_access_denied_channel".spec_bytes() != "io_threaded_writes_processed".spec_bytes()) by { reveal_strlit("io_threaded_writes_processed"); lemma_texts_differ("acl_access_denied_channel", "io_threaded_writes_processed"); }
    assert("acl_access_denied_channel".spec_bytes() != "client_query_buffer_limit_disconnections".spec_bytes()) by { reveal_strlit("client_query_buffer_limit_disconnections"); lemma_texts_differ("acl_access_denied_channel", "client_query_buffer_limit_disconnections"); }
    assert("acl_access_denied_channel".spec_bytes() != "client_output_buffer_limit_disconnections".spec_bytes()) by { reveal_strlit("client_output_buffer_limit_disconnections"); lemma_texts_differ("acl_access_denied_channel", "client_output_buffer_limit_disconnections"); }
    assert("acl_access_denied_channel".spec_bytes() != "reply_buffer_shrinks".spec_bytes()) by { reveal_strlit("reply_buffer_shrinks"); lemma_texts_differ("acl_access_denied_channel", "reply_buffer_shrinks"); }
    assert("acl_access_denied_channel".spec_bytes() != "reply_buffer_expands".spec_bytes()) by { reveal_strlit("reply_buffer_expands"); lemma_texts_differ("acl_access_denied_channel", "reply_buffer_expands"); }
    assert("acl_access_denied_channel".spec_bytes() != "acl_access_denied_auth".spec_bytes()) by { reveal_strlit("acl_access_denied_auth"); lemma_texts_differ("acl_access_denied_channel", "acl_access_denied_auth"); }
    assert("acl_access_denied_channel".spec_bytes() != "acl_access_denied_cmd".spec_bytes()) by { reveal_strlit("acl_access_denied_cmd"); lemma_texts_differ("acl_access_denied_channel", "acl_access_denied_cmd"); }
    assert("acl_access_denied_channel".spec_bytes() != "acl_access_denied_key".spec_bytes()) by { reveal_strlit("acl_access_denied_key"); lemma_texts_differ("acl_access_denied_channel", "acl_access_denied_key"); }
}

/// The field `cached_keys` is reported as the counter `cached_keys_total` where part 7 of the table is read.
pub proof fn lemma_field_cached_keys()
    ensures
        table_part_7("cached_keys".spec_bytes()) == Some(
            GenericMetric { kind: Kind::Sum, name: "cached_keys_total", description: "", micros: false },
        ),
{
    reveal_strlit("cached_keys");
    assert("cached_keys".spec_bytes() != "total_reads_processed".spec_bytes()) by { reveal_strlit("total_reads_processed"); lemma_texts_differ("cached_keys", "total_reads_processed"); }
    assert("cached_keys".spec_bytes() != "total_writes_processed".spec_bytes()) by { reveal_strlit("total_writes_processed"); lemma_texts_differ("cached_keys", "total_writes_processed"); }
    assert("cached_keys".spec_bytes() != "io_threaded_reads_processed".spec_bytes()) by { reveal_strlit("io_threaded_reads_processed"); lemma_texts_differ("cached_keys", "io_threaded_reads_processed"); }
    assert("cached_keys".spec_bytes() != "io_threaded_writes_processed".spec_bytes()) by { reveal_strlit("io_threaded_writes_processed"); lemma_texts_differ("cached_keys", "io_threaded_writes_processed"); }
    assert("cached_keys".spec_bytes() != "client_query_buffer_limit_disconnections".spec_bytes()) by { reveal_strlit("client_query_buffer_limit_disconnections"); lemma_texts_differ("cached_keys", "client_query_buffer_limit_disconnections"); }
    assert("cached_keys".spec_bytes() != "client_output_buffer_limit_disconnections".spec_bytes()) by { reveal_strlit("client_output_buffer_limit_disconnections"); lemma_texts_differ("cached_keys", "client_output_buffer_limit_disconnections"); }
    assert("cached_keys".spec_bytes() != "reply_buffer_shrinks".spec_bytes()) by { reveal_strlit("reply_buffer_shrinks"); lemma_texts_differ("cached_keys", "reply_buffer_shrinks"); }
    assert("cached_keys".spec_bytes() != "reply_buffer_expands".spec_bytes()) by { reveal_strlit("reply_buffer_expands"); lemma_texts_differ("cached_keys", "reply_buffer_expands"); }
    assert("cached_keys".spec_bytes() != "acl_access_denied_auth".spec_bytes()) by { reveal_strlit("acl_access_denied_auth"); lemma_texts_differ("cached_keys", "acl_access_denied_auth"); }
    assert("cached_keys".spec_bytes() != "acl_access_denied_cmd".spec_bytes()) by { reveal_strlit("acl_access_denied_cmd"); lemma_texts_differ("cached_keys", "acl_access_denied_cmd"); }
    assert("cached_keys".spec_bytes() != "acl_access_denied_key".spec_bytes()) by { reveal_strlit("acl_access_denied_key"); lemma_texts_differ("cached_keys", "acl_access_denied_key"); }
    assert("cached_keys".spec_bytes() != "acl_access_denied_channel".spec_bytes()) by { reveal_strlit("acl_access_denied_channel"); lemma_texts_differ("cached_keys", "acl_access_denied_channel"); }
}

/// The field `storage_provider_read_hits` is reported as the counter `storage_provider_read_hits` where part 7 of the table is read.
pub proof fn lemma_field_storage_provider_read_hits()
    ensures
        table_part_7("storage_provider_read_hits".spec_bytes()) == Some(
            GenericMetric { kind: Kind::Sum, name: "storage_provider_read_hits", description: "", micros: false },
        ),
{
    reveal_strlit("storage_provider_read_hits");
    assert("storage_provider_read_hits".spec_bytes() != "total_reads_processed".spec_bytes()) by { reveal_strlit("total_reads_processed"); lemma_texts_differ("storage_provider_read_hits", "total_reads_processed"); }
    assert("storage_provider_read_hits".spec_bytes() != "total_writes_processed".spec_bytes()) by { reveal_strlit("total_writes_processed"); lemma_texts_differ("storage_provider_read_hits", "total_writes_processed"); }
    assert("storage_provider_read_hits".spec_bytes() != "io_threaded_reads_processed".spec_bytes()) by { reveal_strlit("io_threaded_reads_processed"); lemma_texts_differ("storage_provider_read_hits", "io_threaded_reads_processed"); }
    assert("storage_provider_read_hits".spec_bytes() != "io_threaded_writes_processed".spec_bytes()) by { reveal_strlit("io_threaded_writes_processed"); lemma_texts_differ("storage_provider_read_hits", "io_threaded_writes_processed"); }
    assert("storage_provider_read_hits".spec_bytes() != "client_query_buffer_limit_disconnections".spec_bytes()) by { reveal_strlit("client_query_buffer_limit_disconnections"); lemma_texts_differ("storage_provider_read_hits", "client_query_buffer_limit_disconnections"); }
    assert("storage_provider_read_hits".spec_bytes() != "client_output_buffer_limit_disconnections".spec_bytes()) by { reveal_strlit("client_output_buffer_limit_disconnections"); lemma_texts_differ("storage_provider_read_hits", "client_output_buffer_limit_disconnections"); }
    assert("storage_provider_read_hits".spec_bytes() != "reply_buffer_shrinks".spec_bytes()) by { reveal_strlit("reply_buffer_shrinks"); lemma_texts_differ("storage_provider_read_hits", "reply_buffer_shrinks"); }
    assert("storage_provider_read_hits".spec_bytes() != "reply_buffer_expands".spec_bytes()) by { reveal_strlit("reply_buffer_expands"); lemma_texts_differ("storage_provider_read_hits", "reply_buffer_expands"); }
    assert("storage_provider_read_hits".spec_bytes() != "acl_access_denied_auth".spec_bytes()) by { reveal_strlit("acl_access_denied_auth"); lemma_texts_differ("storage_provider_read_hits", "acl_access_denied_auth"); }
    assert("storage_provider_read_hits".spec_bytes() != "acl_access_denied_cmd".spec_bytes()) by { reveal_strlit("acl_access_denied_cmd"); lemma_texts_differ("storage_provider_read_hits", "acl_access_denied_cmd"); }
    assert("storage_provider_read_hits".spec_bytes() != "acl_access_denied_key".spec_bytes()) by { reveal_strlit("acl_access_denied_key"); lemma_texts_differ("storage_provider_read_hits", "acl_access_denied_key"); }
    assert("storage_provider_read_hits".spec_bytes() != "acl_access_denied_channel".spec_bytes()) by { reveal_strlit("acl_access_denied_channel"); lemma_texts_differ("storage_provider_read_hits", "acl_access_denied_channel"); }
    assert("storage_provider_read_hits".spec_bytes() != "cached_keys".spec_bytes()) by { reveal_strlit("cached_keys"); lemma_texts_differ("storage_provider_read_hits", "cached_keys"); }
}

/// The field `storage_provider_read_misses` is reported as the counter `storage_provider_read_misses` where part 7 of the table is read.
pub proof fn lemma_field_storage_provider_read_misses()
    ensures
        table_part_7("storage_provider_read_misses".spec_bytes()) == Some(
            GenericMetric { kind: Kind::Sum, name: "storage_provider_read_misses", description: "", micros: false },
        ),
{
    reveal_strlit("storage_provider_read_misses");
    assert("storage_provider_read_misses".spec_bytes() != "total_reads_processed".spec_bytes()) by { reveal_strlit("total_reads_processed"); lemma_texts_differ("storage_provider_read_misses", "total_reads_processed"); }
    assert("storage_provider_read_misses".spec_bytes() != "total_writes_processed".spec_bytes()) by { reveal_strlit("total_writes_processed"); lemma_texts_differ("storage_provider_read_misses", "total_writes_processed"); }
    assert("storage_provider_read_misses".spec_bytes() != "io_threaded_reads_processed".spec_bytes()) by { reveal_strlit("io_threaded_reads_processed"); lemma_texts_differ("storage_provider_read_misses", "io_threaded_reads_processed"); }
    assert("storage_provider_read_misses".spec_bytes() != "io_threaded_writes_processed".spec_bytes()) by {
        reveal_strlit("io_threaded_writes_processed");
        assert("storage_provider_read_misses"@[0] != "io_threaded_writes_processed"@[0]);
        lemma_texts_differ("storage_provider_read_misses", "io_threaded_writes_processed");
    }
    assert("storage_provider_read_misses".spec_bytes() != "client_query_buffer_limit_disconnections".spec_bytes()) by { reveal_strlit("client_query_buffer_limit_disconnections"); lemma_texts_differ("storage_provider_read_misses", "client_query_buffer_limit_disconnections"); }
    assert("storage_provider_read_misses".spec_bytes() != "client_output_buffer_limit_disconnections".spec_bytes()) by { reveal_strlit("client_output_buffer_limit_disconnections"); lemma_texts_differ("storage_provider_read_misses", "client_output_buffer_limit_disconnections"); }
    assert("storage_provider_read_misses".spec_bytes() != "reply_buffer_shrinks".spec_bytes()) by { reveal_strlit("reply_buffer_shrinks"); lemma_texts_differ("storage_provider_read_misses", "reply_buffer_shrinks"); }
    assert("storage_provider_read_misses".spec_bytes() != "reply_buffer_expands".spec_bytes()) by { reveal_strlit("reply_buffer_expands"); lemma_texts_differ("storage_provider_read_misses", "reply_buffer_expands"); }
    assert("storage_provider_read_misses".spec_bytes() != "acl_access_denied_auth".spec_bytes()) by { reveal_strlit("acl_access_denied_auth"); lemma_texts_differ("storage_provider_read_misses", "acl_access_denied_auth"); }
    assert("storage_provider_read_misses".spec_bytes() != "acl_access_denied_cmd".spec_bytes()) by { reveal_strlit("acl_access_denied_cmd"); lemma_texts_differ("storage_provider_read_misses", "acl_access_denied_cmd"); }
    assert("storage_provider_read_misses".spec_bytes() != "acl_access_denied_key".spec_bytes()) by { reveal_strlit("acl_access_denied_key"); lemma_texts_differ("storage_provider_read_misses", "acl_access_denied_key"); }
    assert("storage_provider_read_misses".spec_bytes() != "acl_access_denied_channel".spec_bytes()) by { reveal_strlit("acl_access_denied_channel"); lemma_texts_differ("storage_provider_read_misses", "acl_access_denied_channel"); }
    assert("storage_provider_read_misses".spec_bytes() != "cached_keys".spec_bytes()) by { reveal_strlit("cached_keys"); lemma_texts_differ("storage_provider_read_misses", "cached_keys"); }
    assert("storage_provider_read_misses".spec_bytes() != "storage_provider_read_hits".spec_bytes()) by { reveal_strlit("storage_provider_read_hits"); lemma_texts_differ("storage_provider_read_misses", "storage_provider_read_hits"); }
}

/// The field `search_total_indexing_time` is reported as the counter `search_indexing_time_ms_total` where part 7 of the table is read.
pub proof fn lemma_field_search_total_indexing_time()
    ensures
        table_part_7("search_total_indexing_time".spec_bytes()) == Some(
            GenericMetric { kind: Kind::Sum, name: "search_indexing_time_ms_total", description: "The total time spent on indexing operations, excluding the background indexing of vectors in the HNSW graph", micros: false },
        ),
{
    reveal_strlit("search_total_indexing_time");
    assert("search_total_indexing_time".spec_bytes() != "total_reads_processed".spec_bytes()) by { reveal_strlit("total_reads_processed"); lemma_texts_differ("search_total_indexing_time", "total_reads_processed"); }
    assert("search_total_indexing_time".spec_bytes() != "total_writes_processed".spec_bytes()) by { reveal_strlit("total_writes_processed"); lemma_texts_differ("search_total_indexing_time", "total_writes_processed"); }
    assert("search_total_indexing_time".spec_bytes() != "io_threaded_reads_processed".spec_bytes()) by { reveal_strlit("io_threaded_reads_processed"); lemma_texts_differ("search_total_indexing_time", "io_threaded_reads_processed"); }
    assert("search_total_indexing_time".spec_bytes() != "io_threaded_writes_processed".spec_bytes()) by { reveal_strlit("io_threaded_writes_processed"); lemma_texts_differ("search_total_indexing_time", "io_threaded_writes_processed"); }
    assert("search_total_indexing_time".spec_bytes() != "client_query_buffer_limit_disconnections".spec_bytes()) by { reveal_strlit("client_query_buffer_limit_disconnections"); lemma_texts_differ("search_total_indexing_time", "client_query_buffer_limit_disconnections"); }
    assert("search_total_indexing_time".spec_bytes() != "client_output_buffer_limit_disconnections".spec_bytes()) by { reveal_strlit("client_output_buffer_limit_disconnections"); lemma_texts_differ("search_total_indexing_time", "client_output_buffer_limit_disconnections"); }
    assert("search_total_indexing_time".spec_bytes() != "reply_buffer_shrinks".spec_bytes()) by { reveal_strlit("reply_buffer_shrinks"); lemma_texts_differ("search_total_indexing_time", "reply_buffer_shrinks"); }
    assert("search_total_indexing_time".spec_bytes() != "reply_buffer_expands".spec_bytes()) by { reveal_strlit("reply_buffer_expands"); lemma_texts_differ("search_total_indexing_time", "reply_buffer_expands"); }
    assert("search_total_indexing_time".spec_bytes() != "acl_access_denied_auth".spec_bytes()) by { reveal_strlit("acl_access_denied_auth"); lemma_texts_differ("search_total_indexing_time", "acl_access_denied_auth"); }
    assert("search_total_indexing_time".spec_bytes() != "acl_access_denied_cmd".spec_bytes()) by { reveal_strlit("acl_access_denied_cmd"); lemma_texts_differ("search_total_indexing_time", "acl_access_denied_cmd"); }
    assert("search_total_indexing_time".spec_bytes() != "acl_access_denied_key".spec_bytes()) by { reveal_strlit("acl_access_denied_key"); lemma_texts_differ("search_total_indexing_time", "acl_access_denied_key"); }
    assert("search_total_indexing_time".spec_bytes() != "acl_access_denied_channel".spec_bytes()) by { reveal_strlit("acl_access_denied_channel"); lemma_texts_differ("search_total_indexing_time", "acl_access_denied_channel"); }
    assert("search_total_indexing_time".spec_bytes() != "cached_keys".spec_bytes()) by { reveal_strlit("cached_keys"); lemma_texts_differ("search_total_indexing_time", "cached_keys"); }
    assert("search_total_indexing_time".spec_bytes() != "storage_provider_read_hits".spec_bytes()) by {
        reveal_strlit("storage_provider_read_hits");
        assert("search_total_indexing_time"@[1] != "storage_provider_read_hits"@[1]);
        lemma_texts_differ("search_total_indexing_time", "storage_provider_read_hits");
    }
    assert("search_total_indexing_time".spec_bytes() != "storage_provider_read_misses".spec_bytes()) by { reveal_strlit("storage_provider_read_misses"); lemma_texts_differ("search_total_indexing_time", "storage_provider_read_misses"); }
}

/// The field `search_total_cycles` is reported as the counter `search_cycles_total` where part 7 of the table is read.
pub proof fn lemma_field_search_total_cycles()
    ensures
        table_part_7("search_total_cycles".spec_bytes()) == Some(
            GenericMetric { kind: Kind::Sum, name: "search_cycles_total", description: "The total number of garbage collection cycles executed", micros: false },
        ),
{
    reveal_strlit("search_total_cycles");
    assert("search_total_cycles".spec_bytes() != "total_reads_processed".spec_bytes()) by { reveal_strlit("total_reads_processed"); lemma_texts_differ("search_total_cycles", "total_reads_processed"); }
    assert("search_total_cycles".spec_bytes() != "total_writes_processed".spec_bytes()) by { reveal_strlit("total_writes_processed"); lemma_texts_differ("search_total_cycles", "total_writes_processed"); }
    assert("search_total_cycles".spec_bytes() != "io_threaded_reads_processed".spec_bytes()) by { reveal_strlit("io_threaded_reads_processed"); lemma_texts_differ("search_total_cycles", "io_threaded_reads_processed"); }
    assert("search_total_cycles".spec_bytes() != "io_threaded_writes_processed".spec_bytes()) by { reveal_strlit("io_threaded_writes_processed"); lemma_texts_differ("search_total_cycles", "io_threaded_writes_processed"); }
    assert("search_total_cycles".spec_bytes() != "client_query_buffer_limit_disconnections".spec_bytes()) by { reveal_strlit("client_query_buffer_limit_disconnections"); lemma_texts_differ("search_total_cycles", "client_query_buffer_limit_disconnections"); }
    assert("search_total_cycles".spec_bytes() != "client_output_buffer_limit_disconnections".spec_bytes()) by { reveal_strlit("client_output_buffer_limit_disconnections"); lemma_texts_differ("search_total_cycles", "client_output_buffer_limit_disconnections"); }
    assert("search_total_cycles".spec_bytes() != "reply_buffer_shrinks".spec_bytes()) by { reveal_strlit("reply_buffer_shrinks"); lemma_texts_differ("search_total_cycles", "reply_buffer_shrinks"); }
    assert("search_total_cycles".spec_bytes() != "reply_buffer_expands".spec_bytes()) by { reveal_strlit("reply_buffer_expands"); lemma_texts_differ("search_total_cycles", "reply_buffer_expands"); }
    assert("search_total_cycles".spec_bytes() != "acl_access_denied_auth".spec_bytes()) by { reveal_strlit("acl_access_denied_auth"); lemma_texts_differ("search_total_cycles", "acl_access_denied_auth"); }
    assert("search_total_cycles".spec_bytes() != "acl_access_denied_cmd".spec_bytes()) by { reveal_strlit("acl_access_denied_cmd"); lemma_texts_differ("search_total_cycles", "acl_access_denied_cmd"); }
    assert("search_total_cycles".spec_bytes() != "acl_access_denied_key".spec_bytes()) by { reveal_strlit("acl_access_denied_key"); lemma_texts_differ("search_total_cycles", "acl_access_denied_key"); }
    assert("search_total_cycles".spec_bytes() != "acl_access_denied_channel".spec_bytes()) by { reveal_strlit("acl_access_denied_channel"); lemma_texts_differ("search_total_cycles", "acl_access_denied_channel"); }
    assert("search_total_cycles".spec_bytes() != "cached_keys".spec_bytes()) by { reveal_strlit("cached_keys"); lemma_texts_differ("search_total_cycles", "cached_keys"); }
    assert("search_total_cycles".spec_bytes() != "storage_provider_read_hits".spec_bytes()) by { reveal_strlit("storage_provider_read_hits"); lemma_texts_differ("search_total_cycles", "storage_provider_read_hits"); }
    assert("search_total_cycles".spec_bytes() != "storage_provider_read_misses".spec_bytes()) by { reveal_strlit("storage_provider_read_misses"); lemma_texts_differ("search_total_cycles", "storage_provider_read_misses"); }
    assert("search_total_cycles".spec_bytes() != "search_total_indexing_time".spec_bytes()) by { reveal_strlit("search_total_indexing_time"); lemma_texts_differ("search_total_cycles", "search_total_indexing_time"); }
}

/// The field `search_total_ms_run` is reported as the counter `search_run_ms_total` where part 7 of the table is read.
pub proof fn lemma_field_search_total_ms_run()
    ensures
        table_part_7("search_total_ms_run".spec_bytes()) == Some(
            GenericMetric { kind: Kind::Sum, name: "search_run_ms_total", description: "The total duration of all garbage collection cycles in the shard, measured in milliseconds", micros: false },
        ),
{
    reveal_strlit("search_total_ms_run");
    assert("search_total_ms_run".spec_bytes() != "total_reads_processed".spec_bytes()) by { reveal_strlit("total_reads_processed"); lemma_texts_differ("search_total_ms_run", "total_reads_processed"); }
    assert("search_total_ms_run".spec_bytes() != "total_writes_processed".spec_bytes()) by { reveal_strlit("total_writes_processed"); lemma_texts_differ("search_total_ms_run", "total_writes_processed"); }
    assert("search_total_ms_run".spec_bytes() != "io_threaded_reads_processed".spec_bytes()) by { reveal_strlit("io_threaded_reads_processed"); lemma_texts_differ("search_total_ms_run", "io_threaded_reads_processed"); }
    assert("search_total_ms_run".spec_bytes() != "io_threaded_writes_processed".spec_bytes()) by { reveal_strlit("io_threaded_writes_processed"); lemma_texts_differ("search_total_ms_run", "io_threaded_writes_processed"); }
    assert("search_total_ms_run".spec_bytes() != "client_query_buffer_limit_disconnections".spec_bytes()) by { reveal_strlit("client_query_buffer_limit_disconnections"); lemma_texts_differ("search_total_ms_run", "client_query_buffer_limit_disconnections"); }
    assert("search_total_ms_run".spec_bytes() != "client_output_buffer_limit_disconnections".spec_bytes()) by { reveal_strlit("client_output_buffer_limit_disconnections"); lemma_texts_differ("search_total_ms_run", "client_output_buffer_limit_disconnections"); }
    assert("search_total_ms_run".spec_bytes() != "reply_buffer_shrinks".spec_bytes()) by { reveal_strlit("reply_buffer_shrinks"); lemma_texts_differ("search_total_ms_run", "reply_buffer_shrinks"); }
    assert("search_total_ms_run".spec_bytes() != "reply_buffer_expands".spec_bytes()) by { reveal_strlit("reply_buffer_expands"); lemma_texts_differ("search_total_ms_run", "reply_buffer_expands"); }
    assert("search_total_ms_run".spec_bytes() != "acl_access_denied_auth".spec_bytes()) by { reveal_strlit("acl_access_denied_auth"); lemma_texts_differ("search_total_ms_run", "acl_access_denied_auth"); }
    assert("search_total_ms_run".spec_bytes() != "acl_access_denied_cmd".spec_bytes()) by { reveal_strlit("acl_access_denied_cmd"); lemma_texts_differ("search_total_ms_run", "acl_access_denied_cmd"); }
    assert("search_total_ms_run".spec_bytes() != "acl_access_denied_key".spec_bytes()) by { reveal_strlit("acl_access_denied_key"); lemma_texts_differ("search_total_ms_run", "acl_access_denied_key"); }
    assert("search_total_ms_run".spec_bytes() != "acl_access_denied_channel".spec_bytes()) by { reveal_strlit("acl_access_denied_channel"); lemma_texts_differ("search_total_ms_run", "acl_access_denied_channel"); }
    assert("search_total_ms_run".spec_bytes() != "cached_keys".spec_bytes()) by { reveal_strlit("cached_keys"); lemma_texts_differ("search_total_ms_run", "cached_keys"); }
    assert("search_total_ms_run".spec_bytes() != "storage_provider_read_hits".spec_bytes()) by { reveal_strlit("storage_provider_read_hits"); lemma_texts_differ("search_total_ms_run", "storage_provider_read_hits"); }
    assert("search_total_ms_run".spec_bytes() != "storage_provider_read_misses".spec_bytes()) by { reveal_strlit("storage_provider_read_misses"); lemma_texts_differ("search_total_ms_run", "storage_provider_read_misses"); }
    assert("search_total_ms_run".spec_bytes() != "search_total_indexing_time".spec_bytes()) by { reveal_strlit("search_total_indexing_time"); lemma_texts_differ("search_total_ms_run", "search_total_indexing_time"); }
    assert("search_total_ms_run".spec_bytes() != "search_total_cycles".spec_bytes()) by {
        reveal_strlit("search_total_cycles");
        assert("search_total_ms_run"@[13] != "search_total_cycles"@[13]);
        lemma_texts_differ("search_total_ms_run", "search_total_cycles");
    }
}

/// The field `search_gc_total_cycles` is reported as the counter `search_gc_cycles_total` where part 7 of the table is read.
pub proof fn lemma_field_search_gc_total_cycles()
    ensures
        table_part_7("search_gc_total_cycles".spec_bytes()) == Some(
            GenericMetric { kind: Kind::Sum, name: "search_gc_cycles_total", description: "The total number of garbage collection cycles executed", micros: false },
        ),
{
    reveal_strlit("search_gc_total_cycles");
    assert("search_gc_total_cycles".spec_bytes() != "total_reads_processed".spec_bytes()) by { reveal_strlit("total_reads_processed"); lemma_texts_differ("search_gc_total_cycles", "total_reads_processed"); }
    assert("search_gc_total_cycles".spec_bytes() != "total_writes_processed".spec_bytes()) by {
        reveal_strlit("total_writes_processed");
        assert("search_gc_total_cycles"@[0] != "total_writes_processed"@[0]);
        lemma_texts_differ("search_gc_total_cycles", "total_writes_processed");
    }
    assert("search_gc_total_cycles".spec_bytes() != "io_threaded_reads_processed".spec_bytes()) by { reveal_strlit("io_threaded_reads_processed"); lemma_texts_differ("search_gc_total_cycles", "io_threaded_reads_processed"); }
    assert("search_gc_total_cycles".spec_bytes() != "io_threaded_writes_processed".spec_bytes()) by { reveal_strlit("io_threaded_writes_processed"); lemma_texts_differ("search_gc_total_cycles", "io_threaded_writes_processed"); }
    assert("search_gc_total_cycles".spec_bytes() != "client_query_buffer_limit_disconnections".spec_bytes()) by { reveal_strlit("client_query_buffer_limit_disconnections"); lemma_texts_differ("search_gc_total_cycles", "client_query_buffer_limit_disconnections"); }
    assert("search_gc_total_cycles".spec_bytes() != "client_output_buffer_limit_disconnections".spec_bytes()) by { reveal_strlit("client_output_buffer_limit_disconnections"); lemma_texts_differ("search_gc_total_cycles", "client_output_buffer_limit_disconnections"); }
    assert("search_gc_total_cycles".spec_bytes() != "reply_buffer_shrinks".spec_bytes()) by { reveal_strlit("reply_buffer_shrinks"); lemma_texts_differ("search_gc_total_cycles", "reply_buffer_shrinks"); }
    assert("search_gc_total_cycles".spec_bytes() != "reply_buffer_expands".spec_bytes()) by { reveal_strlit("reply_buffer_expands"); lemma_texts_differ("search_gc_total_cycles", "reply_buffer_expands"); }
    assert("search_gc_total_cycles".spec_bytes() != "acl_access_denied_auth".spec_bytes()) by {
        reveal_strlit("acl_access_denied_auth");
        assert("search_gc_total_cycles"@[0] != "acl_access_denied_auth"@[0]);
        lemma_texts_differ("search_gc_total_cycles", "acl_access_denied_auth");
    }
    assert("search_gc_total_cycles".spec_bytes() != "acl_access_denied_cmd".spec_bytes()) by { reveal_strlit("acl_access_denied_cmd"); lemma_texts_differ("search_gc_total_cycles", "acl_access_denied_cmd"); }
    assert("search_gc_total_cycles".spec_bytes() != "acl_access_denied_key".spec_bytes()) by { reveal_strlit("acl_access_denied_key"); lemma_texts_differ("search_gc_total_cycles", "acl_access_denied_key"); }
    assert("search_gc_total_cycles".spec_bytes() != "acl_access_denied_channel".spec_bytes()) by { reveal_strlit("acl_access_denied_channel"); lemma_texts_differ("search_gc_total_cycles", "acl_access_denied_channel"); }
    assert("search_gc_total_cycles".spec_bytes() != "cached_keys".spec_bytes()) by { reveal_strlit("cached_keys"); lemma_texts_differ("search_gc_total_cycles", "cached_keys"); }
    assert("search_gc_total_cycles".spec_bytes() != "storage_provider_read_hits".spec_bytes()) by { reveal_strlit("storage_provider_read_hits"); lemma_texts_differ("search_gc_total_cycles", "storage_provider_read_hits"); }
    assert("search_gc_total_cycles".spec_bytes() != "storage_provider_read_misses".spec_bytes()) by { reveal_strlit("storage_provider_read_misses"); lemma_texts_differ("search_gc_total_cycles", "storage_provider_read_misses"); }
    assert("search_gc_total_cycles".spec_bytes() != "search_total_indexing_time".spec_bytes()) by { reveal_strlit("search_total_indexing_time"); lemma_texts_differ("search_gc_total_cycles", "search_total_indexing_time"); }
    assert("search_gc_total_cycles".spec_bytes() != "search_total_cycles".spec_bytes()) by { reveal_strlit("search_total_cycles"); lemma_texts_differ("search_gc_total_cycles", "search_total_cycles"); }
    assert("search_gc_total_cycles".spec_bytes() != "search_total_ms_run".spec_bytes()) by { reveal_strlit("search_total_ms_run"); lemma_texts_differ("search_gc_total_cycles", "search_total_ms_run"); }
}

/// The field `search_gc_total_ms_run` is reported as the counter `search_gc_run_ms_total` where part 7 of the table is read.
pub proof fn lemma_field_search_gc_total_ms_run()
    ensures
        table_part_7("search_gc_total_ms_run".spec_bytes()) == Some(
            GenericMetric { kind: Kind::Sum, name: "search_gc_run_ms_total", description: "The total duration of all garbage collection cycles in the shard, measured in milliseconds", micros: false },
        ),
{
    reveal_strlit("search_gc_total_ms_run");
    assert("search_gc_total_ms_run".spec_bytes() != "total_reads_processed".spec_bytes()) by { reveal_strlit("total_reads_processed"); lemma_texts_differ("search_gc_total_ms_run", "total_reads_processed"); }
    assert("search_gc_total_ms_run".spec_bytes() != "total_writes_processed".spec_bytes()) by {
        reveal_strlit("total_writes_processed");
        assert("search_gc_total_ms_run"@[0] != "total_writes_processed"@[0]);
        lemma_texts_differ("search_gc_total_ms_run", "total_writes_processed");
    }
    assert("search_gc_total_ms_run".spec_bytes() != "io_threaded_reads_processed".spec_bytes()) by { reveal_strlit("io_threaded_reads_processed"); lemma_texts_differ("search_gc_total_ms_run", "io_threaded_reads_processed"); }
    assert("search_gc_total_ms_run".spec_bytes() != "io_threaded_writes_processed".spec_bytes()) by { reveal_strlit("io_threaded_writes_processed"); lemma_texts_differ("search_gc_total_ms_run", "io_threaded_writes_processed"); }
    assert("search_gc_total_ms_run".spec_bytes() != "client_query_buffer_limit_disconnections".spec_bytes()) by { reveal_strlit("client_query_buffer_limit_disconnections"); lemma_texts_differ("search_gc_total_ms_run", "client_query_buffer_limit_disconnections"); }
    assert("search_gc_total_ms_run".spec_bytes() != "client_output_buffer_limit_disconnections".spec_bytes()) by { reveal_strlit("client_output_buffer_limit_disconnections"); lemma_texts_differ("search_gc_total_ms_run", "client_output_buffer_limit_disconnections"); }
    assert("search_gc_total_ms_run".spec_bytes() != "reply_buffer_shrinks".spec_bytes()) by { reveal_strlit("reply_buffer_shrinks"); lemma_texts_differ("search_gc_total_ms_run", "reply_buffer_shrinks"); }
    assert("search_gc_total_ms_run".spec_bytes() != "reply_buffer_expands".spec_bytes()) by { reveal_strlit("reply_buffer_expands"); lemma_texts_differ("search_gc_total_ms_run", "reply_buffer_expands"); }
    assert("search_gc_total_ms_run".spec_bytes() != "acl_access_denied_auth".spec_bytes()) by {
        reveal_strlit("acl_access_denied_auth");
        assert("search_gc_total_ms_run"@[0] != "acl_access_denied_auth"@[0]);
        lemma_texts_differ("search_gc_total_ms_run", "acl_access_denied_auth");
    }
    assert("search_gc_total_ms_run".spec_bytes() != "acl_access_denied_cmd".spec_bytes()) by { reveal_strlit("acl_access_denied_cmd"); lemma_texts_differ("search_gc_total_ms_run", "acl_access_denied_cmd"); }
    assert("search_gc_total_ms_run".spec_bytes() != "acl_access_denied_key".spec_bytes()) by { reveal_strlit("acl_access_denied_key"); lemma_texts_differ("search_gc_total_ms_run", "acl_access_denied_key"); }
    assert("search_gc_total_ms_run".spec_bytes() != "acl_access_denied_channel".spec_bytes()) by { reveal_strlit("acl_access_denied_channel"); lemma_texts_differ("search_gc_total_ms_run", "acl_access_denied_channel"); }
    assert("search_gc_total_ms_run".spec_bytes() != "cached_keys".spec_bytes()) by { reveal_strlit("cached_keys"); lemma_texts_differ("search_gc_total_ms_run", "cached_keys"); }
    assert("search_gc_total_ms_run".spec_bytes() != "storage_provider_read_hits".spec_bytes()) by { reveal_strlit("storage_provider_read_hits"); lemma_texts_differ("search_gc_total_ms_run", "storage_provider_read_hits"); }
    assert("search_gc_total_ms_run".spec_bytes() != "storage_provider_read_misses".spec_bytes()) by { reveal_strlit("storage_provider_read_misses"); lemma_texts_differ("search_gc_total_ms_run", "storage_provider_read_misses"); }
    assert("search_gc_total_ms_run".spec_bytes() != "search_total_indexing_time".spec_bytes()) by { reveal_strlit("search_total_indexing_time"); lemma_texts_differ("search_gc_total_ms_run", "search_total_indexing_time"); }
    assert("search_gc_total_ms_run".spec_bytes() != "search_total_cycles".spec_bytes()) by { reveal_strlit("search_total_cycles"); lemma_texts_differ("search_gc_total_ms_run", "search_total_cycles"); }
    assert("search_gc_total_ms_run".spec_bytes() != "search_total_ms_run".spec_bytes()) by { reveal_strlit("search_total_ms_run"); lemma_texts_differ("search_gc_total_ms_run", "search_total_ms_run"); }
    assert("search_gc_total_ms_run".spec_bytes() != "search_gc_total_cycles".spec_bytes()) by {
        reveal_strlit("search_gc_total_cycles");
        assert("search_gc_total_ms_run"@[16] != "search_gc_total_cycles"@[16]);
        lemma_texts_differ("search_gc_total_ms_run", "search_gc_total_cycles");
    }
}

/// The field `search_total_queries_processed` is reported as the counter `search_queries_processed_total` where part 7 of the table is read.
pub proof fn lemma_field_search_total_queries_processed()
    ensures
        table_part_7("search_total_queries_processed".spec_bytes()) == Some(
            GenericMetric { kind: Kind::Sum, name: "search_queries_processed_total", description: "The total number of successful query executions (When using cursors, not counting reading from existing cursors) in the shard", micros: false },
        ),
{
    reveal_strlit("search_total_queries_processed");
    assert("search_total_queries_processed".spec_bytes() != "total_reads_processed".spec_bytes()) by { reveal_strlit("total_reads_processed"); lemma_texts_differ("search_total_queries_processed", "total_reads_processed"); }
    assert("search_total_queries_processed".spec_bytes() != "total_writes_processed".spec_bytes()) by { reveal_strlit("total_writes_processed"); lemma_texts_differ("search_total_queries_processed", "total_writes_processed"); }
    assert("search_total_queries_processed".spec_bytes() != "io_threaded_reads_processed".spec_bytes()) by { reveal_strlit("io_threaded_reads_processed"); lemma_texts_differ("search_total_queries_processed", "io_threaded_reads_processed"); }
    assert("search_total_queries_processed".spec_bytes() != "io_threaded_writes_processed".spec_bytes()) by { reveal_strlit("io_threaded_writes_processed"); lemma_texts_differ("search_total_queries_processed", "io_threaded_writes_processed"); }
    assert("search_total_queries_processed".spec_bytes() != "client_query_buffer_limit_disconnections".spec_bytes()) by { reveal_strlit("client_query_buffer_limit_disconnections"); lemma_texts_differ("search_total_queries_processed", "client_query_buffer_limit_disconnections"); }
    assert("search_total_queries_processed".spec_bytes() != "client_output_buffer_limit_disconnections".spec_bytes()) by { reveal_strlit("client_output_buffer_limit_disconnections"); lemma_texts_differ("search_total_queries_processed", "client_output_buffer_limit_disconnections"); }
    assert("search_total_queries_processed".spec_bytes() != "reply_buffer_shrinks".spec_bytes()) by { reveal_strlit("reply_buffer_shrinks"); lemma_texts_differ("search_total_queries_processed", "reply_buffer_shrinks"); }
    assert("search_total_queries_processed".spec_bytes() != "reply_buffer_expands".spec_bytes()) by { reveal_strlit("reply_buffer_expands"); lemma_texts_differ("search_total_queries_processed", "reply_buffer_expands"); }
    assert("search_total_queries_processed".spec_bytes() != "acl_access_denied_auth".spec_bytes()) by { reveal_strlit("acl_access_denied_auth"); lemma_texts_differ("search_total_queries_processed", "acl_access_denied_auth"); }
    assert("search_total_queries_processed".spec_bytes() != "acl_access_denied_cmd".spec_bytes()) by { reveal_strlit("acl_access_denied_cmd"); lemma_texts_differ("search_total_queries_processed", "acl_access_denied_cmd"); }
    assert("search_total_queries_processed".spec_bytes() != "acl_access_denied_key".spec_bytes()) by { reveal_strlit("acl_access_denied_key"); lemma_texts_differ("search_total_queries_processed", "acl_access_denied_key"); }
    assert("search_total_queries_processed".spec_bytes() != "acl_access_denied_channel".spec_bytes()) by { reveal_strlit("acl_access_denied_channel"); lemma_texts_differ("search_total_queries_processed", "acl_access_denied_channel"); }
    assert("search_total_queries_processed".spec_bytes() != "cached_keys".spec_bytes()) by { reveal_strlit("cached_keys"); lemma_texts_differ("search_total_queries_processed", "cached_keys"); }
    assert("search_total_queries_processed".spec_bytes() != "storage_provider_read_hits".spec_bytes()) by { reveal_strlit("storage_provider_read_hits"); lemma_texts_differ("search_total_queries_processed", "storage_provider_read_hits"); }
    assert("search_total_queries_processed".spec_bytes() != "storage_provider_read_misses".spec_bytes()) by { reveal_strlit("storage_provider_read_misses"); lemma_texts_differ("search_total_queries_processed", "storage_provider_read_misses"); }
    assert("search_total_queries_processed".spec_bytes() != "search_total_indexing_time".spec_bytes()) by { reveal_strlit("search_total_indexing_time"); lemma_texts_differ("search_total_queries_processed", "search_total_indexing_time"); }
    assert("search_total_queries_processed".spec_bytes() != "search_total_cycles".spec_bytes()) by { reveal_strlit("search_total_cycles"); lemma_texts_differ("search_total_queries_processed", "search_total_cycles"); }
    assert("search_total_queries_processed".spec_bytes() != "search_total_ms_run".spec_bytes()) by { reveal_strlit("search_total_ms_run"); lemma_texts_differ("search_total_queries_processed", "search_total_ms_run"); }
    assert("search_total_queries_processed".spec_bytes() != "search_gc_total_cycles".spec_bytes()) by { reveal_strlit("search_gc_total_cycles"); lemma_texts_differ("search_total_queries_processed", "search_gc_total_cycles"); }
    assert("search_total_queries_processed".spec_bytes() != "search_gc_total_ms_run".spec_bytes()) by { reveal_strlit("search_gc_total_ms_run"); lemma_texts_differ("search_total_queries_processed", "search_gc_total_ms_run"); }
}

/// The field `search_total_query_commands` is reported as the counter `search_query_commands_total` where part 7 of the table is read.
pub proof fn lemma_field_search_total_query_commands()
    ensures
        table_part_7("search_total_query_commands".spec_bytes()) == Some(
            GenericMetric { kind: Kind::Sum, name: "search_query_commands_total", description: "The total number of successful query command executions", micros: false },
        ),
{
    reveal_strlit("search_total_query_commands");
    assert("search_total_query_commands".spec_bytes() != "total_reads_processed".spec_bytes()) by { reveal_strlit("total_reads_processed"); lemma_texts_differ("search_total_query_commands", "total_reads_processed"); }
    assert("search_total_query_commands".spec_bytes() != "total_writes_processed".spec_bytes()) by { reveal_strlit("total_writes_processed"); lemma_texts_differ("search_total_query_commands", "total_writes_processed"); }
    assert("search_total_query_commands".spec_bytes() != "io_threaded_reads_processed".spec_bytes()) by {
        reveal_strlit("io_threaded_reads_processed");
        assert("search_total_query_commands"@[0] != "io_threaded_reads_processed"@[0]);
        lemma_texts_differ("search_total_query_commands", "io_threaded_reads_processed");
    }
    assert("search_total_query_commands".spec_bytes() != "io_threaded_writes_processed".spec_bytes()) by { reveal_strlit("io_threaded_writes_processed"); lemma_texts_differ("search_total_query_commands", "io_threaded_writes_processed"); }
    assert("search_total_query_commands".spec_bytes() != "client_query_buffer_limit_disconnections".spec_bytes()) by { reveal_strlit("client_query_buffer_limit_disconnections"); lemma_texts_differ("search_total_query_commands", "client_query_buffer_limit_disconnections"); }
    assert("search_total_query_commands".spec_bytes() != "client_output_buffer_limit_disconnections".spec_bytes()) by { reveal_strlit("client_output_buffer_limit_disconnections"); lemma_texts_differ("search_total_query_commands", "client_output_buffer_limit_disconnections"); }
    assert("search_total_query_commands".spec_bytes() != "reply_buffer_shrinks".spec_bytes()) by { reveal_strlit("reply_buffer_shrinks"); lemma_texts_differ("search_total_query_commands", "reply_buffer_shrinks"); }
    assert("search_total_query_commands".spec_bytes() != "reply_buffer_expands".spec_bytes()) by { reveal_strlit("reply_buffer_expands"); lemma_texts_differ("search_total_query_commands", "reply_buffer_expands"); }
    assert("search_total_query_commands".spec_bytes() != "acl_access_denied_auth".spec_bytes()) by { reveal_strlit("acl_access_denied_auth"); lemma_texts_differ("search_total_query_commands", "acl_access_denied_auth"); }
    assert("search_total_query_commands".spec_bytes() != "acl_access_denied_cmd".spec_bytes()) by { reveal_strlit("acl_access_denied_cmd"); lemma_texts_differ("search_total_query_commands", "acl_access_denied_cmd"); }
    assert("search_total_query_commands".spec_bytes() != "acl_access_denied_key".spec_bytes()) by { reveal_strlit("acl_access_denied_key"); lemma_texts_differ("search_total_query_commands", "acl_access_denied_key"); }
    assert("search_total_query_commands".spec_bytes() != "acl_access_denied_channel".spec_bytes()) by { reveal_strlit("acl_access_denied_channel"); lemma_texts_differ("search_total_query_commands", "acl_access_denied_channel"); }
    assert("search_total_query_commands".spec_bytes() != "cached_keys".spec_bytes()) by { reveal_strlit("cached_keys"); lemma_texts_differ("search_total_query_commands", "cached_keys"); }
    assert("search_total_query_commands".spec_bytes() != "storage_provider_read_hits".spec_bytes()) by { reveal_strlit("storage_provider_read_hits"); lemma_texts_differ("search_total_query_commands", "storage_provider_read_hits"); }
    assert("search_total_query_commands".spec_bytes() != "storage_provider_read_misses".spec_bytes()) by { reveal_strlit("storage_provider_read_misses"); lemma_texts_differ("search_total_query_commands", "storage_provider_read_misses"); }
    assert("search_total_query_commands".spec_bytes() != "search_total_indexing_time".spec_bytes()) by { reveal_strlit("search_total_indexing_time"); lemma_texts_differ("search_total_query_commands", "search_total_indexing_time"); }
    assert("search_total_query_commands".spec_bytes() != "search_total_cycles".spec_bytes()) by { reveal_strlit("search_total_cycles"); lemma_texts_differ("search_total_query_commands", "search_total_cycles"); }
    assert("search_total_query_commands".spec_bytes() != "search_total_ms_run".spec_bytes()) by { reveal_strlit("search_total_ms_run"); lemma_texts_differ("search_total_query_commands", "search_total_ms_run"); }
    assert("search_total_query_commands".spec_bytes() != "search_gc_total_cycles".spec_bytes()) by { reveal_strlit("search_gc_total_cycles"); lemma_texts_differ("search_total_query_commands", "search_gc_total_cycles"); }
    assert("search_total_query_commands".spec_bytes() != "search_gc_total_ms_run".spec_bytes()) by { reveal_strlit("search_gc_total_ms_run"); lemma_texts_differ("search_total_query_commands", "search_gc_total_ms_run"); }
    assert("search_total_query_commands".spec_bytes() != "search_total_queries_processed".spec_bytes()) by { reveal_strlit("search_total_queries_processed"); lemma_texts_differ("search_total_query_commands", "search_total_queries_processed"); }
}

/// The field `search_total_query_execution_time_ms` is reported as the counter `search_query_execution_time_ms_total` where part 7 of the table is read.
pub proof fn lemma_field_search_total_query_execution_time_ms()
    ensures
        table_part_7("search_total_query_execution_time_ms".spec_bytes()) == Some(
            GenericMetric { kind: Kind::Sum, name: "search_query_execution_time_ms_total", description: "The cumulative execution time of all query commands, including FT.SEARCH, FT.AGGREGATE, and FT.CURSOR READ, measured in ms", micros: false },
        ),
{
    reveal_strlit("search_total_query_execution_time_ms");
    assert("search_total_query_execution_time_ms".spec_bytes() != "total_reads_processed".spec_bytes()) by { reveal_strlit("total_reads_processed"); lemma_texts_differ("search_total_query_execution_time_ms", "total_reads_processed"); }
    assert("search_total_query_execution_time_ms".spec_bytes() != "total_writes_processed".spec_bytes()) by { reveal_strlit("total_writes_processed"); lemma_texts_differ("search_total_query_execution_time_ms", "total_writes_processed"); }
    assert("search_total_query_execution_time_ms".spec_bytes() != "io_threaded_reads_processed".spec_bytes()) by { reveal_strlit("io_threaded_reads_processed"); lemma_texts_differ("search_total_query_execution_time_ms", "io_threaded_reads_processed"); }
    assert("search_total_query_execution_time_ms".spec_bytes() != "io_threaded_writes_processed".spec_bytes()) by { reveal_strlit("io_threaded_writes_processed"); lemma_texts_differ("search_total_query_execution_time_ms", "io_threaded_writes_processed"); }
    assert("search_total_query_execution_time_ms".spec_bytes() != "client_query_buffer_limit_disconnections".spec_bytes()) by { reveal_strlit("client_query_buffer_limit_disconnections"); lemma_texts_differ("search_total_query_execution_time_ms", "client_query_buffer_limit_disconnections"); }
    assert("search_total_query_execution_time_ms".spec_bytes() != "client_output_buffer_limit_disconnections".spec_bytes()) by { reveal_strlit("client_output_buffer_limit_disconnections"); lemma_texts_differ("search_total_query_execution_time_ms", "client_output_buffer_limit_disconnections"); }
    assert("search_total_query_execution_time_ms".spec_bytes() != "reply_buffer_shrinks".spec_bytes()) by { reveal_strlit("reply_buffer_shrinks"); lemma_texts_differ("search_total_query_execution_time_ms", "reply_buffer_shrinks"); }
    assert("search_total_query_execution_time_ms".spec_bytes() != "reply_buffer_expands".spec_bytes()) by { reveal_strlit("reply_buffer_expands"); lemma_texts_differ("search_total_query_execution_time_ms", "reply_buffer_expands"); }
    assert("search_total_query_execution_time_ms".spec_bytes() != "acl_access_denied_auth".spec_bytes()) by { reveal_strlit("acl_access_denied_auth"); lemma_texts_differ("search_total_query_execution_time_ms", "acl_access_denied_auth"); }
    assert("search_total_query_execution_time_ms".spec_bytes() != "acl_access_denied_cmd".spec_bytes()) by { reveal_strlit("acl_access_denied_cmd"); lemma_texts_differ("search_total_query_execution_time_ms", "acl_access_denied_cmd"); }
    assert("search_total_query_execution_time_ms".spec_bytes() != "acl_access_denied_key".spec_bytes()) by { reveal_strlit("acl_access_denied_key"); lemma_texts_differ("search_total_query_execution_time_ms", "acl_access_denied_key"); }
    assert("search_total_query_execution_time_ms".spec_bytes() != "acl_access_denied_channel".spec_bytes()) by { reveal_strlit("acl_access_denied_channel"); lemma_texts_differ("search_total_query_execution_time_ms", "acl_access_denied_channel"); }
    assert("search_total_query_execution_time_ms".spec_bytes() != "cached_keys".spec_bytes()) by { reveal_strlit("cached_keys"); lemma_texts_differ("search_total_query_execution_time_ms", "cached_keys"); }
    assert("search_total_query_execution_time_ms".spec_bytes() != "storage_provider_read_hits".spec_bytes()) by { reveal_strlit("storage_provider_read_hits"); lemma_texts_differ("search_total_query_execution_time_ms", "storage_provider_read_hits"); }
    assert("search_total_query_execution_time_ms".spec_bytes() != "storage_provider_read_misses".spec_bytes()) by { reveal_strlit("storage_provider_read_misses"); lemma_texts_differ("search_total_query_execution_time_ms", "storage_provider_read_misses"); }
    assert("search_total_query_execution_time_ms".spec_bytes() != "search_total_indexing_time".spec_bytes()) by { reveal_strlit("search_total_indexing_time"); lemma_texts_differ("search_total_query_execution_time_ms", "search_total_indexing_time"); }
    assert("search_total_query_execution_time_ms".spec_bytes() != "search_total_cycles".spec_bytes()) by { reveal_strlit("search_total_cycles"); lemma_texts_differ("search_total_query_execution_time_ms", "search_total_cycles"); }
    assert("search_total_query_execution_time_ms".spec_bytes() != "search_total_ms_run".spec_bytes()) by { reveal_strlit("search_total_ms_run"); lemma_texts_differ("search_total_query_execution_time_ms", "search_total_ms_run"); }
    assert("search_total_query_execution_time_ms".spec_bytes() != "search_gc_total_cycles".spec_bytes()) by { reveal_strlit("search_gc_total_cycles"); lemma_texts_differ("search_total_query_execution_time_ms", "search_gc_total_cycles"); }
    assert("search_total_query_execution_time_ms".spec_bytes() != "search_gc_total_ms_run".spec_bytes()) by { reveal_strlit("search_gc_total_ms_run"); lemma_texts_differ("search_total_query_execution_time_ms", "search_gc_total_ms_run"); }
    assert("search_total_query_execution_time_ms".spec_bytes() != "search_total_queries_processed".spec_bytes()) by { reveal_strlit("search_total_queries_processed"); lemma_texts_differ("search_total_query_execution_time_ms", "search_total_queries_processed"); }
    assert("search_total_query_execution_time_ms".spec_bytes() != "search_total_query_commands".spec_bytes()) by { reveal_strlit("search_total_query_commands"); lemma_texts_differ("search_total_query_execution_time_ms", "search_total_query_commands"); }
}

/// The field `search_total_active_queries` is reported as the counter `search_active_queries_total` where part 7 of the table is read.
pub proof fn lemma_field_search_total_active_queries()
    ensures
        table_part_7("search_total_active_queries".spec_bytes()) == Some(
            GenericMetric { kind: Kind::Sum, name: "search_active_queries_total", description: "The total number of background queries currently being executed in the shard, excluding FT.CURSOR READ", micros: false },
        ),
{
    reveal_strlit("search_total_active_queries");
    assert("search_total_active_queries".spec_bytes() != "total_reads_processed".spec_bytes()) by { reveal_strlit("total_reads_processed"); lemma_texts_differ("search_total_active_queries", "total_reads_processed"); }
    assert("search_total_active_queries".spec_bytes() != "total_writes_processed".spec_bytes()) by { reveal_strlit("total_writes_processed"); lemma_texts_differ("search_total_active_queries", "total_writes_processed"); }
    assert("search_total_active_queries".spec_bytes() != "io_threaded_reads_processed".spec_bytes()) by {
        reveal_strlit("io_threaded_reads_processed");
        assert("search_total_active_queries"@[0] != "io_threaded_reads_processed"@[0]);
        lemma_texts_differ("search_total_active_queries", "io_threaded_reads_processed");
    }
    assert("search_total_active_queries".spec_bytes() != "io_threaded_writes_processed".spec_bytes()) by { reveal_strlit("io_threaded_writes_processed"); lemma_texts_differ("search_total_active_queries", "io_threaded_writes_processed"); }
    assert("search_total_active_queries".spec_bytes() != "client_query_buffer_limit_disconnections".spec_bytes()) by { reveal_strlit("client_query_buffer_limit_disconnections"); lemma_texts_differ("search_total_active_queries", "client_query_buffer_limit_disconnections"); }
    assert("search_total_active_queries".spec_bytes() != "client_output_buffer_limit_disconnections".spec_bytes()) by { reveal_strlit("client_output_buffer_limit_disconnections"); lemma_texts_differ("search_total_active_queries", "client_output_buffer_limit_disconnections"); }
    assert("search_total_active_queries".spec_bytes() != "reply_buffer_shrinks".spec_bytes()) by { reveal_strlit("reply_buffer_shrinks"); lemma_texts_differ("search_total_active_queries", "reply_buffer_shrinks"); }
    assert("search_total_active_queries".spec_bytes() != "reply_buffer_expands".spec_bytes()) by { reveal_strlit("reply_buffer_expands"); lemma_texts_differ("search_total_active_queries", "reply_buffer_expands"); }
    assert("search_total_active_queries".spec_bytes() != "acl_access_denied_auth".spec_bytes()) by { reveal_strlit("acl_access_denied_auth"); lemma_texts_differ("search_total_active_queries", "acl_access_denied_auth"); }
    assert("search_total_active_queries".spec_bytes() != "acl_access_denied_cmd".spec_bytes()) by { reveal_strlit("acl_access_denied_cmd"); lemma_texts_differ("search_total_active_queries", "acl_access_denied_cmd"); }
    assert("search_total_active_queries".spec_bytes() != "acl_access_denied_key".spec_bytes()) by { reveal_strlit("acl_access_denied_key"); lemma_texts_differ("search_total_active_queries", "acl_access_denied_key"); }
    assert("search_total_active_queries".spec_bytes() != "acl_access_denied_channel".spec_bytes()) by { reveal_strlit("acl_access_denied_channel"); lemma_texts_differ("search_total_active_queries", "acl_access_denied_channel"); }
    assert("search_total_active_queries".spec_bytes() != "cached_keys".spec_bytes()) by { reveal_strlit("cached_keys"); lemma_texts_differ("search_total_active_queries", "cached_keys"); }
    assert("search_total_active_queries".spec_bytes() != "storage_provider_read_hits".spec_bytes()) by { reveal_strlit("storage_provider_read_hits"); lemma_texts_differ("search_total_active_queries", "storage_provider_read_hits"); }
    assert("search_total_active_queries".spec_bytes() != "storage_provider_read_misses".spec_bytes()) by { reveal_strlit("storage_provider_read_misses"); lemma_texts_differ("search_total_active_queries", "storage_provider_read_misses"); }
    assert("search_total_active_queries".spec_bytes() != "search_total_indexing_time".spec_bytes()) by { reveal_strlit("search_total_indexing_time"); lemma_texts_differ("search_total_active_queries", "search_total_indexing_time"); }
    assert("search_total_active_queries".spec_bytes() != "search_total_cycles".spec_bytes()) by { reveal_strlit("search_total_cycles"); lemma_texts_differ("search_total_active_queries", "search_total_cycles"); }
    assert("search_total_active_queries".spec_bytes() != "search_total_ms_run".spec_bytes()) by { reveal_strlit("search_total_ms_run"); lemma_texts_differ("search_total_active_queries", "search_total_ms_run"); }
    assert("search_total_active_queries".spec_bytes() != "search_gc_total_cycles".spec_bytes()) by { reveal_strlit("search_gc_total_cycles"); lemma_texts_differ("search_total_active_queries", "search_gc_total_cycles"); }
    assert("search_total_active_queries".spec_bytes() != "search_gc_total_ms_run".spec_bytes()) by { reveal_strlit("search_gc_total_ms_run"); lemma_texts_differ("search_total_active_queries", "search_gc_total_ms_run"); }
    assert("search_total_active_queries".spec_bytes() != "search_total_queries_processed".spec_bytes()) by { reveal_strlit("search_total_queries_processed"); lemma_texts_differ("search_total_active_queries", "search_total_queries_processed"); }
    assert("search_total_active_queries".spec_bytes() != "search_total_query_commands".spec_bytes()) by {
        reveal_strlit("search_total_query_commands");
        assert("search_total_active_queries"@[13] != "search_total_query_commands"@[13]);
        lemma_texts_differ("search_total_active_queries", "search_total_query_commands");
    }
    assert("search_total_active_queries".spec_bytes() != "search_total_query_execution_time_ms".spec_bytes()) by { reveal_strlit("search_total_query_execution_time_ms"); lemma_texts_differ("search_total_active_queries", "search_total_query_execution_time_ms"); }
}

} // verus!
