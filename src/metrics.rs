//! The metrics page: four gauges in the Prometheus text exposition format,
//! each with its help and type lines.
use crate::decimal::{all_digits, decimal, decimal_text, digits_value, lemma_decimal_reads_back};
use vstd::prelude::*;
use vstd::string::*;

verus! {

/// The measurements the metrics page shows.
#[derive(Clone, Copy, Debug, PartialEq, Eq, Structural)]
pub struct MetricsSnapshot {
    pub uptime_seconds: u64,
    pub memory_total_bytes: u64,
    pub memory_used_bytes: u64,
    pub cpu_count: u64,
}

/// Name of the uptime gauge.
pub const UPTIME_NAME: &'static str = "app_uptime_seconds";

/// Help text of the uptime gauge.
pub const UPTIME_HELP: &'static str = "Time since application started";

/// Name of the total-memory gauge, in bytes.
pub const MEMORY_TOTAL_NAME: &'static str = "app_memory_total_bytes";

/// Help text of the total-memory gauge.
pub const MEMORY_TOTAL_HELP: &'static str = "Total system memory";

/// Name of the used-memory gauge, in bytes.
pub const MEMORY_USED_NAME: &'static str = "app_memory_used_bytes";

/// Help text of the used-memory gauge.
pub const MEMORY_USED_HELP: &'static str = "Used system memory";

/// Name of the CPU-count gauge.
pub const CPU_COUNT_NAME: &'static str = "app_cpu_count";

/// Help text of the CPU-count gauge.
pub const CPU_COUNT_HELP: &'static str = "Number of CPUs available";

/// Opens a help line.
pub const HELP_MARK: &'static str = "# HELP ";

/// Opens a type line.
pub const TYPE_MARK: &'static str = "# TYPE ";

/// Ends a type line of a gauge.
pub const GAUGE_TYPE: &'static str = " gauge";

/// Separates a sample's name from its value.
pub const SPACE: &'static str = " ";

/// Ends every line.
pub const NEWLINE: &'static str = "\n";

/// One gauge: its help line, its type line and its sample line, each ended
/// by a newline.
pub open spec fn gauge_block(name: Seq<char>, help: Seq<char>, value: nat) -> Seq<char> {
    HELP_MARK@ + name + SPACE@ + help + NEWLINE@ + TYPE_MARK@ + name + GAUGE_TYPE@ + NEWLINE@
        + sample_line(name, value)
}

/// A gauge's sample line: its name, a space, its value in decimal, a newline.
pub open spec fn sample_line(name: Seq<char>, value: nat) -> Seq<char> {
    name + SPACE@ + decimal(value) + NEWLINE@
}

/// The page for a snapshot: the four gauges, a blank line between two.
pub open spec fn metrics_text(m: MetricsSnapshot) -> Seq<char> {
    gauge_block(UPTIME_NAME@, UPTIME_HELP@, m.uptime_seconds as nat) + NEWLINE@ + gauge_block(
        MEMORY_TOTAL_NAME@,
        MEMORY_TOTAL_HELP@,
        m.memory_total_bytes as nat,
    ) + NEWLINE@ + gauge_block(MEMORY_USED_NAME@, MEMORY_USED_HELP@, m.memory_used_bytes as nat)
        + NEWLINE@ + gauge_block(CPU_COUNT_NAME@, CPU_COUNT_HELP@, m.cpu_count as nat)
}

/// Appends one gauge.
fn append_gauge(out: &mut String, name: &str, help: &str, value: u64)
    ensures
        final(out)@ == old(out)@ + gauge_block(name@, help@, value as nat),
{
    out.append(HELP_MARK);
    out.append(name);
    out.append(SPACE);
    out.append(help);
    out.append(NEWLINE);
    out.append(TYPE_MARK);
    out.append(name);
    out.append(GAUGE_TYPE);
    out.append(NEWLINE);
    out.append(name);
    out.append(SPACE);
    let v = decimal_text(value);
    out.append(v.as_str());
    out.append(NEWLINE);
    assert(final(out)@ =~= old(out)@ + gauge_block(name@, help@, value as nat));
}

/// Writes the metrics page for a snapshot.
pub fn render_metrics(m: &MetricsSnapshot) -> (r: String)
    ensures
        r@ == metrics_text(*m),
{
    let mut out = String::new();
    append_gauge(&mut out, UPTIME_NAME, UPTIME_HELP, m.uptime_seconds);
    out.append(NEWLINE);
    append_gauge(&mut out, MEMORY_TOTAL_NAME, MEMORY_TOTAL_HELP, m.memory_total_bytes);
    out.append(NEWLINE);
    append_gauge(&mut out, MEMORY_USED_NAME, MEMORY_USED_HELP, m.memory_used_bytes);
    out.append(NEWLINE);
    append_gauge(&mut out, CPU_COUNT_NAME, CPU_COUNT_HELP, m.cpu_count);
    assert(out@ =~= metrics_text(*m));
    out
}

/// The page is four gauges, uptime, total memory, used memory and CPU
/// count, in that order; each sample's value is a run of decimal digits that
/// reads back as the measurement, so never negative; and the used-memory
/// sample is at most the total-memory one whenever the measurements are.
pub proof fn lemma_metrics_exposition(m: MetricsSnapshot)
    ensures
        metrics_text(m) == gauge_block(UPTIME_NAME@, UPTIME_HELP@, m.uptime_seconds as nat)
            + NEWLINE@ + gauge_block(
            MEMORY_TOTAL_NAME@,
            MEMORY_TOTAL_HELP@,
            m.memory_total_bytes as nat,
        ) + NEWLINE@ + gauge_block(
            MEMORY_USED_NAME@,
            MEMORY_USED_HELP@,
            m.memory_used_bytes as nat,
        ) + NEWLINE@ + gauge_block(CPU_COUNT_NAME@, CPU_COUNT_HELP@, m.cpu_count as nat),
        all_digits(decimal(m.uptime_seconds as nat)),
        digits_value(decimal(m.uptime_seconds as nat)) == m.uptime_seconds,
        all_digits(decimal(m.memory_total_bytes as nat)),
        digits_value(decimal(m.memory_total_bytes as nat)) == m.memory_total_bytes,
        all_digits(decimal(m.memory_used_bytes as nat)),
        digits_value(decimal(m.memory_used_bytes as nat)) == m.memory_used_bytes,
        all_digits(decimal(m.cpu_count as nat)),
        digits_value(decimal(m.cpu_count as nat)) == m.cpu_count,
        m.memory_used_bytes <= m.memory_total_bytes ==> digits_value(
            decimal(m.memory_used_bytes as nat),
        ) <= digits_value(decimal(m.memory_total_bytes as nat)),
{
    lemma_decimal_reads_back(m.uptime_seconds as nat);
    lemma_decimal_reads_back(m.memory_total_bytes as nat);
    lemma_decimal_reads_back(m.memory_used_bytes as nat);
    lemma_decimal_reads_back(m.cpu_count as nat);
}

} // verus!
