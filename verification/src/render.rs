//! The metrics renderer: maps one repository's parsed status document into
//! Prometheus exposition-format text. The metric table is fixed — six cache
//! gauges followed by the `last_modified` counter — and each entry emits a
//! `# HELP` line, a `# TYPE` line and one sample line, so a repository
//! always renders to exactly 21 lines, in an order other tooling may rely
//! on. The emitted text is pinned character for character by `render_spec`.

use vstd::prelude::*;

use crate::parse::BorgResponseCacheStats;

verus! {

/// The decimal digits of `n`, most significant first.
pub open spec fn dec_digits(n: nat) -> Seq<char>
    decreases n,
{
    if n < 10 {
        seq![digit_char(n)]
    } else {
        dec_digits(n / 10).push(digit_char(n % 10))
    }
}

pub open spec fn digit_char(d: nat) -> char {
    (((d + ('0' as u32)) as u8) as char)
}

/// The decimal rendering of a possibly negative integer.
pub open spec fn dec_int(i: int) -> Seq<char> {
    if i < 0 {
        seq!['-'] + dec_digits((-i) as nat)
    } else {
        dec_digits(i as nat)
    }
}

pub open spec fn nl() -> Seq<char> {
    "\n"@
}

pub open spec fn help_line(name: Seq<char>) -> Seq<char> {
    "# HELP "@ + name + " borg-prometheus-exporter"@
}

pub open spec fn type_line(name: Seq<char>, mtype: Seq<char>) -> Seq<char> {
    "# TYPE "@ + name + " "@ + mtype
}

pub open spec fn sample_line(name: Seq<char>, label: Seq<char>, value: Seq<char>) -> Seq<char> {
    name + "{repository=\""@ + label + "\"} "@ + value
}

/// One metric's three newline-terminated lines.
pub open spec fn metric_block(
    name: Seq<char>,
    mtype: Seq<char>,
    label: Seq<char>,
    value: Seq<char>,
) -> Seq<char> {
    help_line(name) + nl() + type_line(name, mtype) + nl() + sample_line(name, label, value) + nl()
}

/// The full text rendered for one repository: the fixed table, chunk and
/// size gauges first, the `last_modified` counter last.
pub open spec fn render_spec(label: Seq<char>, stats: BorgResponseCacheStats, epoch: int) -> Seq<
    char,
> {
    metric_block("borg_total_chunks"@, "gauge"@, label, dec_digits(stats.total_chunks as nat))
        + metric_block("borg_total_csize"@, "gauge"@, label, dec_digits(stats.total_csize as nat))
        + metric_block("borg_total_size"@, "gauge"@, label, dec_digits(stats.total_size as nat))
        + metric_block(
        "borg_total_unique_chunks"@,
        "gauge"@,
        label,
        dec_digits(stats.total_unique_chunks as nat),
    ) + metric_block("borg_unique_csize"@, "gauge"@, label, dec_digits(stats.unique_csize as nat))
        + metric_block("borg_unique_size"@, "gauge"@, label, dec_digits(stats.unique_size as nat))
        + metric_block("borg_last_modified"@, "counter"@, label, dec_int(epoch))
}

/// One metric's three lines, without their terminating newlines.
pub open spec fn block_lines(
    name: Seq<char>,
    mtype: Seq<char>,
    label: Seq<char>,
    value: Seq<char>,
) -> Seq<Seq<char>> {
    seq![help_line(name), type_line(name, mtype), sample_line(name, label, value)]
}

/// The 21 lines rendered for one repository, in emission order.
pub open spec fn render_lines(label: Seq<char>, stats: BorgResponseCacheStats, epoch: int) -> Seq<
    Seq<char>,
> {
    block_lines("borg_total_chunks"@, "gauge"@, label, dec_digits(stats.total_chunks as nat))
        + block_lines("borg_total_csize"@, "gauge"@, label, dec_digits(stats.total_csize as nat))
        + block_lines("borg_total_size"@, "gauge"@, label, dec_digits(stats.total_size as nat))
        + block_lines(
        "borg_total_unique_chunks"@,
        "gauge"@,
        label,
        dec_digits(stats.total_unique_chunks as nat),
    ) + block_lines("borg_unique_csize"@, "gauge"@, label, dec_digits(stats.unique_csize as nat))
        + block_lines("borg_unique_size"@, "gauge"@, label, dec_digits(stats.unique_size as nat))
        + block_lines("borg_last_modified"@, "counter"@, label, dec_int(epoch))
}

/// Each line followed by a newline, concatenated in order.
pub open spec fn join_lines(lines: Seq<Seq<char>>) -> Seq<char>
    decreases lines.len(),
{
    if lines.len() == 0 {
        Seq::empty()
    } else {
        lines.first() + nl() + join_lines(lines.drop_first())
    }
}

proof fn lemma_join_lines_app(a: Seq<Seq<char>>, b: Seq<Seq<char>>)
    ensures
        join_lines(a + b) == join_lines(a) + join_lines(b),
    decreases a.len(),
{
    if a.len() == 0 {
        assert(a + b =~= b);
        assert(join_lines(a) + join_lines(b) =~= join_lines(b));
    } else {
        assert((a + b).drop_first() =~= a.drop_first() + b);
        lemma_join_lines_app(a.drop_first(), b);
        assert(join_lines(a + b) =~= join_lines(a) + join_lines(b));
    }
}

proof fn lemma_join_block(name: Seq<char>, mtype: Seq<char>, label: Seq<char>, value: Seq<char>)
    ensures
        join_lines(block_lines(name, mtype, label, value)) == metric_block(
            name,
            mtype,
            label,
            value,
        ),
{
    reveal_with_fuel(join_lines, 5);
    let lines = block_lines(name, mtype, label, value);
    assert(lines.drop_first() =~= seq![type_line(name, mtype), sample_line(name, label, value)]);
    assert(lines.drop_first().drop_first() =~= seq![sample_line(name, label, value)]);
    assert(lines.drop_first().drop_first().drop_first() =~= Seq::<Seq<char>>::empty());
    assert(join_lines(lines) =~= metric_block(name, mtype, label, value));
}

/// The renderer emits exactly 21 lines per repository — seven metrics, each
/// contributing its HELP line, its TYPE line and its sample line — and the
/// rendered text is those lines, newline-terminated, in the fixed table
/// order. The lines are a function of the label, counters and epoch alone,
/// so their order and count never depend on how the source document was
/// arranged.
#[verifier::rlimit(60)]
pub proof fn lemma_render_line_structure(
    label: Seq<char>,
    stats: BorgResponseCacheStats,
    epoch: int,
)
    ensures
        render_lines(label, stats, epoch).len() == 21,
        render_spec(label, stats, epoch) == join_lines(render_lines(label, stats, epoch)),
{
    let b1 = block_lines("borg_total_chunks"@, "gauge"@, label, dec_digits(stats.total_chunks as nat));
    let b2 = block_lines("borg_total_csize"@, "gauge"@, label, dec_digits(stats.total_csize as nat));
    let b3 = block_lines("borg_total_size"@, "gauge"@, label, dec_digits(stats.total_size as nat));
    let b4 = block_lines(
        "borg_total_unique_chunks"@,
        "gauge"@,
        label,
        dec_digits(stats.total_unique_chunks as nat),
    );
    let b5 = block_lines("borg_unique_csize"@, "gauge"@, label, dec_digits(stats.unique_csize as nat));
    let b6 = block_lines("borg_unique_size"@, "gauge"@, label, dec_digits(stats.unique_size as nat));
    let b7 = block_lines("borg_last_modified"@, "counter"@, label, dec_int(epoch));
    lemma_join_block("borg_total_chunks"@, "gauge"@, label, dec_digits(stats.total_chunks as nat));
    lemma_join_block("borg_total_csize"@, "gauge"@, label, dec_digits(stats.total_csize as nat));
    lemma_join_block("borg_total_size"@, "gauge"@, label, dec_digits(stats.total_size as nat));
    lemma_join_block(
        "borg_total_unique_chunks"@,
        "gauge"@,
        label,
        dec_digits(stats.total_unique_chunks as nat),
    );
    lemma_join_block("borg_unique_csize"@, "gauge"@, label, dec_digits(stats.unique_csize as nat));
    lemma_join_block("borg_unique_size"@, "gauge"@, label, dec_digits(stats.unique_size as nat));
    lemma_join_block("borg_last_modified"@, "counter"@, label, dec_int(epoch));
    lemma_join_lines_app(b6, b7);
    lemma_join_lines_app(b5, b6 + b7);
    lemma_join_lines_app(b4, b5 + (b6 + b7));
    lemma_join_lines_app(b3, b4 + (b5 + (b6 + b7)));
    lemma_join_lines_app(b2, b3 + (b4 + (b5 + (b6 + b7))));
    lemma_join_lines_app(b1, b2 + (b3 + (b4 + (b5 + (b6 + b7)))));
    assert(render_lines(label, stats, epoch) =~= b1 + (b2 + (b3 + (b4 + (b5 + (b6 + b7))))));
    assert(render_spec(label, stats, epoch) =~= join_lines(
        render_lines(label, stats, epoch),
    ));
}

fn digit_str(d: u8) -> (r: &'static str)
    requires
        d < 10,
    ensures
        r@ == seq![digit_char(d as nat)],
{
    proof {
        reveal_strlit("0");
        reveal_strlit("1");
        reveal_strlit("2");
        reveal_strlit("3");
        reveal_strlit("4");
        reveal_strlit("5");
        reveal_strlit("6");
        reveal_strlit("7");
        reveal_strlit("8");
        reveal_strlit("9");
    }
    match d {
        0 => "0",
        1 => "1",
        2 => "2",
        3 => "3",
        4 => "4",
        5 => "5",
        6 => "6",
        7 => "7",
        8 => "8",
        _ => "9",
    }
}

/// Appends the decimal digits of `n`.
fn push_decimal(out: &mut String, n: u64)
    ensures
        final(out)@ == old(out)@ + dec_digits(n as nat),
    decreases n,
{
    if n < 10 {
        out.append(digit_str(n as u8));
    } else {
        push_decimal(out, n / 10);
        out.append(digit_str((n % 10) as u8));
        assert(out@ =~= old(out)@ + dec_digits(n as nat));
    }
}

/// Appends the decimal rendering of a possibly negative `n`.
fn push_decimal_i64(out: &mut String, n: i64)
    ensures
        final(out)@ == old(out)@ + dec_int(n as int),
{
    if n >= 0 {
        push_decimal(out, n as u64);
    } else {
        proof {
            reveal_strlit("-");
        }
        out.append("-");
        let magnitude: u64 = ((-(n + 1)) as u64) + 1;
        assert(magnitude == -(n as int));
        push_decimal(out, magnitude);
        assert(out@ =~= old(out)@ + dec_int(n as int));
    }
}

/// Appends one metric's HELP, TYPE and sample lines for a gauge-style
/// `u64` counter value.
fn append_metric_u64(out: &mut String, name: &str, mtype: &str, label: &str, value: u64)
    ensures
        final(out)@ == old(out)@ + metric_block(name@, mtype@, label@, dec_digits(value as nat)),
{
    out.append("# HELP ");
    out.append(name);
    out.append(" borg-prometheus-exporter");
    out.append("\n");
    out.append("# TYPE ");
    out.append(name);
    out.append(" ");
    out.append(mtype);
    out.append("\n");
    out.append(name);
    out.append("{repository=\"");
    out.append(label);
    out.append("\"} ");
    push_decimal(out, value);
    out.append("\n");
    assert(out@ =~= old(out)@ + metric_block(name@, mtype@, label@, dec_digits(value as nat)));
}

/// Appends one metric's HELP, TYPE and sample lines for a signed epoch
/// value.
fn append_metric_i64(out: &mut String, name: &str, mtype: &str, label: &str, value: i64)
    ensures
        final(out)@ == old(out)@ + metric_block(name@, mtype@, label@, dec_int(value as int)),
{
    out.append("# HELP ");
    out.append(name);
    out.append(" borg-prometheus-exporter");
    out.append("\n");
    out.append("# TYPE ");
    out.append(name);
    out.append(" ");
    out.append(mtype);
    out.append("\n");
    out.append(name);
    out.append("{repository=\"");
    out.append(label);
    out.append("\"} ");
    push_decimal_i64(out, value);
    out.append("\n");
    assert(out@ =~= old(out)@ + metric_block(name@, mtype@, label@, dec_int(value as int)));
}

/// Renders one repository's metrics: exactly the text of `render_spec` for
/// the given label, counters and epoch seconds.
pub fn render_status(label: &str, stats: &BorgResponseCacheStats, epoch: i64) -> (r: String)
    ensures
        r@ == render_spec(label@, *stats, epoch as int),
{
    let mut out = String::new();
    append_metric_u64(&mut out, "borg_total_chunks", "gauge", label, stats.total_chunks);
    append_metric_u64(&mut out, "borg_total_csize", "gauge", label, stats.total_csize);
    append_metric_u64(&mut out, "borg_total_size", "gauge", label, stats.total_size);
    append_metric_u64(&mut out, "borg_total_unique_chunks", "gauge", label,
        stats.total_unique_chunks);
    append_metric_u64(&mut out, "borg_unique_csize", "gauge", label, stats.unique_csize);
    append_metric_u64(&mut out, "borg_unique_size", "gauge", label, stats.unique_size);
    append_metric_i64(&mut out, "borg_last_modified", "counter", label, epoch);
    assert(out@ =~= render_spec(label@, *stats, epoch as int));
    out
}

} // verus!
