//! What is counted, measured and written down of it.
use vstd::arithmetic::div_mod::lemma_fundamental_div_mod;
use vstd::prelude::*;

use crate::diagnostics::{
    after_failure, after_guest_install, after_guest_offer, after_host_change, all_stats,
    document_stats, last_usage, leading_digits, power_of_two, size_text, stats_of, tenths,
    tenths_text, usage_delta, wrapped_sum, ClipboardView, StatsView,
};
use crate::json::JsonView;
use crate::text::{decimal, digit};

verus! {

// ---------------------------------------------------------------------------
// The clipboard's history
// ---------------------------------------------------------------------------
/// Whether nothing was counted between two states.
pub open spec fn same_counts(a: ClipboardView, b: ClipboardView) -> bool {
    a.host_to_guest_events == b.host_to_guest_events && a.guest_to_host_events
        == b.guest_to_host_events && a.guest_offers == b.guest_offers && a.failures == b.failures
}

/// Each event is counted once and under its own name, and its time and its
/// direction are kept.
pub proof fn law_clipboard_events_are_counted(
    before: ClipboardView,
    bytes: usize,
    mime: Seq<char>,
    direction: Seq<char>,
    error: Seq<char>,
    now: u128,
)
    requires
        before.host_to_guest_events < u64::MAX,
        before.guest_to_host_events < u64::MAX,
        before.guest_offers < u64::MAX,
        before.failures < u64::MAX,
    ensures
        ({
            let copied = after_host_change(before, bytes, Some(mime), now);
            let offered = after_guest_offer(before, mime, now);
            let installed = after_guest_install(before, bytes, now);
            let failed = after_failure(before, direction, error, now);
            &&& copied.host_to_guest_events == before.host_to_guest_events + 1
            &&& same_counts(
                ClipboardView { host_to_guest_events: before.host_to_guest_events, ..copied },
                before,
            )
            &&& offered.guest_offers == before.guest_offers + 1
            &&& same_counts(ClipboardView { guest_offers: before.guest_offers, ..offered }, before)
            &&& installed.guest_to_host_events == before.guest_to_host_events + 1
            &&& same_counts(
                ClipboardView { guest_to_host_events: before.guest_to_host_events, ..installed },
                before,
            )
            &&& failed.failures == before.failures + 1
            &&& same_counts(ClipboardView { failures: before.failures, ..failed }, before)
            &&& copied.last_direction == Some("macOS -> Wayland"@)
            &&& offered.last_direction == Some("Wayland -> macOS"@)
            &&& installed.last_direction == Some("Wayland -> macOS"@)
            &&& failed.last_direction == Some(direction)
            &&& copied.last_event_unix_ms == Some(now)
            &&& offered.last_event_unix_ms == Some(now)
            &&& installed.last_event_unix_ms == Some(now)
            &&& failed.last_event_unix_ms == Some(now)
        }),
{
}

/// The kind of what was copied or offered last is kept until another comes; an
/// empty clipboard has none.
pub proof fn law_last_kind_is_kept(
    before: ClipboardView,
    bytes: usize,
    mime: Seq<char>,
    direction: Seq<char>,
    error: Seq<char>,
    now: u128,
)
    ensures
        bytes > 0 ==> after_host_change(before, bytes, Some(mime), now).last_mime == Some(mime),
        after_host_change(before, 0, Some(mime), now).last_mime is None,
        after_guest_offer(before, mime, now).last_mime == Some(mime),
        after_guest_install(before, bytes, now).last_mime == before.last_mime,
        after_failure(before, direction, error, now).last_mime == before.last_mime,
        after_failure(before, direction, error, now).state == "Error"@,
        bytes > 0 ==> after_host_change(before, bytes, Some(mime), now).state == "Ready"@,
        bytes > 0 ==> after_guest_install(before, bytes, now).state == "Ready"@,
{
}

// ---------------------------------------------------------------------------
// Sizes
// ---------------------------------------------------------------------------
/// Tenths of a unit are rounded to the nearest.
pub proof fn law_tenths_are_nearest(value: nat, unit: nat)
    requires
        unit > 0,
    ensures
        2 * (tenths(value, unit) * unit - value * 10) <= unit,
        2 * (value * 10 - tenths(value, unit) * unit) <= unit,
{
    let whole = (value * 10) / unit;
    let rest = (value * 10) % unit;
    lemma_fundamental_div_mod((value * 10) as int, unit as int);
    assert(value * 10 == unit * whole + rest);
    assert(unit * whole == whole * unit) by (nonlinear_arith);
    assert((whole + 1) * unit == whole * unit + unit) by (nonlinear_arith);
}

/// Tenths are written with one digit behind the point.
pub proof fn law_tenths_are_written(whole: nat, tenth: nat)
    requires
        tenth < 10,
    ensures
        tenths_text(10 * whole + tenth) == decimal(whole) + "."@ + seq![digit(tenth as int)],
{
    assert((10 * whole + tenth) / 10 == whole);
    assert((10 * whole + tenth) % 10 == tenth);
}

/// A size is written in the largest unit that it holds at least once.
pub proof fn law_size_has_its_unit(bytes: nat)
    ensures
        bytes < 1024 ==> size_text(bytes) == decimal(bytes) + " B"@,
        1024 <= bytes < 1048576 ==> " KiB"@.is_suffix_of(size_text(bytes)) && size_text(bytes)
            == tenths_text(tenths(bytes, 1024)) + " KiB"@,
        1048576 <= bytes < 1073741824 ==> " MiB"@.is_suffix_of(size_text(bytes)) && size_text(bytes)
            == tenths_text(tenths(bytes, 1048576)) + " MiB"@,
        1073741824 <= bytes ==> " GiB"@.is_suffix_of(size_text(bytes)) && size_text(bytes)
            == tenths_text(tenths(bytes, 1073741824)) + " GiB"@,
{
    let text = size_text(bytes);
    if bytes >= 1073741824 {
        assert(text.skip(text.len() - " GiB"@.len()) =~= " GiB"@);
    } else if bytes >= 1048576 {
        assert(text.skip(text.len() - " MiB"@.len()) =~= " MiB"@);
    } else if bytes >= 1024 {
        assert(text.skip(text.len() - " KiB"@.len()) =~= " KiB"@);
    }
}

/// A number of at most 53 bits keeps all its digits.
pub proof fn law_small_numbers_keep_their_digits(value: nat)
    requires
        value < 9007199254740992,
    ensures
        leading_digits(value, 0) == value,
{
    reveal_with_fuel(power_of_two, 1);
    assert(power_of_two(0) == 1);
}

// ---------------------------------------------------------------------------
// What containers use
// ---------------------------------------------------------------------------
/// Each number of a row is read from under its own name; a number that is not
/// there is nothing, and a row without a name is none.
pub proof fn law_stats_are_read_by_name(row: JsonView, n: u64)
    ensures
        stats_of(row) is Some <==> row.text_field("id"@) is Some,
        stats_of(row) matches Some(stats) ==> {
            &&& Some(stats.id) == row.text_field("id"@)
            &&& row.field("cpuUsageUsec"@) == Some(JsonView::Number(Some(n)))
                ==> stats.cpu_usage_usec == n
            &&& row.field("memoryUsageBytes"@) == Some(JsonView::Number(Some(n)))
                ==> stats.memory_usage_bytes == n
            &&& row.field("memoryLimitBytes"@) == Some(JsonView::Number(Some(n)))
                ==> stats.memory_limit_bytes == n
            &&& row.field("networkRxBytes"@) == Some(JsonView::Number(Some(n)))
                ==> stats.network_rx_bytes == n
            &&& row.field("networkTxBytes"@) == Some(JsonView::Number(Some(n)))
                ==> stats.network_tx_bytes == n
            &&& row.field("blockReadBytes"@) == Some(JsonView::Number(Some(n)))
                ==> stats.block_read_bytes == n
            &&& row.field("blockWriteBytes"@) == Some(JsonView::Number(Some(n)))
                ==> stats.block_write_bytes == n
            &&& row.field("numProcesses"@) == Some(JsonView::Number(Some(n))) ==> stats.processes
                == n
            &&& row.field("memoryUsageBytes"@) is None ==> stats.memory_usage_bytes == 0
        },
{
}

/// A list of rows is read row by row, and not at all where one of them is none;
/// what is no list is refused.
pub proof fn law_all_rows_are_read(rows: Seq<JsonView>)
    ensures
        all_stats(rows) is Some <==> forall|i: int|
            0 <= i < rows.len() ==> stats_of(#[trigger] rows[i]) is Some,
        all_stats(rows) matches Some(stats) ==> stats.len() == rows.len() && forall|i: int|
            0 <= i < rows.len() ==> Some(#[trigger] stats[i]) == stats_of(rows[i]),
        all_stats(rows) matches Some(stats) ==> document_stats(JsonView::Array(rows)) == Ok::<
            Seq<StatsView>,
            Seq<char>,
        >(stats),
        all_stats(rows) is None ==> document_stats(JsonView::Array(rows)) is Err,
        document_stats(JsonView::Null) is Err,
    decreases rows.len(),
{
    if rows.len() > 0 {
        let front = rows.drop_last();
        law_all_rows_are_read(front);
        assert forall|i: int| 0 <= i < front.len() implies #[trigger] front[i] == rows[i] by {}
        if all_stats(rows) is Some {
            assert forall|i: int| 0 <= i < rows.len() implies stats_of(#[trigger] rows[i]) is Some by {
                if i < front.len() {
                    assert(stats_of(front[i]) is Some);
                }
            }
        }
        if forall|i: int| 0 <= i < rows.len() ==> stats_of(#[trigger] rows[i]) is Some {
            assert forall|i: int| 0 <= i < front.len() implies stats_of(#[trigger] front[i])
                is Some by {
                assert(stats_of(rows[i]) is Some);
            }
            assert(stats_of(rows[rows.len() - 1]) is Some);
        }
    }
}

/// What a container has used since it was last asked is the difference; it is
/// nothing where the count has gone back, and is not known of a container that
/// was not asked before.
pub proof fn law_usage_is_the_difference(
    stats: StatsView,
    previous: Seq<(String, u64)>,
    elapsed: u64,
    before: u64,
)
    requires
        elapsed > 0,
        last_usage(previous, stats.id) == Some(before),
    ensures
        stats.cpu_usage_usec >= before ==> usage_delta(stats, previous, Some(elapsed)) is Some
            && usage_delta(stats, previous, Some(elapsed))->0 + before == stats.cpu_usage_usec,
        stats.cpu_usage_usec < before ==> usage_delta(stats, previous, Some(elapsed)) == Some(0u64),
        usage_delta(stats, previous, None) is None,
        usage_delta(stats, previous, Some(0)) is None,
{
}

/// What a container was found to have used last is what it was recorded with
/// last; of one that was never recorded nothing is known.
pub proof fn law_last_usage_is_found(
    usages: Seq<(String, u64)>,
    entry: (String, u64),
    id: Seq<char>,
)
    ensures
        last_usage(usages.push(entry), entry.0@) == Some(entry.1),
        id != entry.0@ ==> last_usage(usages.push(entry), id) == last_usage(usages, id),
        last_usage(seq![], id) is None,
{
    assert(usages.push(entry).drop_last() == usages);
}

/// The sum of some numbers.
pub open spec fn total(values: Seq<u64>) -> nat
    decreases values.len(),
{
    if values.len() == 0 {
        0
    } else {
        total(values.drop_last()) + values.last() as nat
    }
}

/// The whole of what containers use is the sum of what each uses, as long as it
/// fits.
pub proof fn law_whole_is_the_sum(values: Seq<u64>)
    requires
        total(values) <= u64::MAX,
    ensures
        wrapped_sum(values) == total(values),
    decreases values.len(),
{
    if values.len() > 0 {
        law_whole_is_the_sum(values.drop_last());
    }
}

} // verus!
