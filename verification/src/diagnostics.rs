//! What is known of the clipboard, of the containers' resources and of the
//! disk.
use vstd::prelude::*;
use vstd::string::*;

use crate::json::{parse_value, parsed_value, Json, JsonView};
use crate::session_launch::CommandOutput;
use crate::text::{
    concat, concat3, copy_option, decimal, decimal_text, digit, lemma_deep_push, lines, lines_of,
    lossy, lossy_text, outcome, same, trim, trimmed,
};

verus! {

// ---------------------------------------------------------------------------
// Clipboard
// ---------------------------------------------------------------------------
/// What happened to the clipboard so far.
#[derive(Debug)]
pub struct ClipboardSnapshot {
    pub state: String,
    pub last_direction: Option<String>,
    pub last_mime: Option<String>,
    pub last_event_unix_ms: Option<u128>,
    pub host_to_guest_events: u64,
    pub guest_to_host_events: u64,
    pub guest_offers: u64,
    pub failures: u64,
    pub last_error: Option<String>,
}

/// What a clipboard snapshot holds, as text.
#[verifier::ext_equal]
pub struct ClipboardView {
    pub state: Seq<char>,
    pub last_direction: Option<Seq<char>>,
    pub last_mime: Option<Seq<char>>,
    pub last_event_unix_ms: Option<u128>,
    pub host_to_guest_events: u64,
    pub guest_to_host_events: u64,
    pub guest_offers: u64,
    pub failures: u64,
    pub last_error: Option<Seq<char>>,
}

impl DeepView for ClipboardSnapshot {
    type V = ClipboardView;

    open spec fn deep_view(&self) -> ClipboardView {
        ClipboardView {
            state: self.state@,
            last_direction: self.last_direction.deep_view(),
            last_mime: self.last_mime.deep_view(),
            last_event_unix_ms: self.last_event_unix_ms,
            host_to_guest_events: self.host_to_guest_events,
            guest_to_host_events: self.guest_to_host_events,
            guest_offers: self.guest_offers,
            failures: self.failures,
            last_error: self.last_error.deep_view(),
        }
    }
}

impl Clone for ClipboardSnapshot {
    fn clone(&self) -> (result: Self)
        ensures
            result.deep_view() == self.deep_view(),
    {
        ClipboardSnapshot {
            state: self.state.clone(),
            last_direction: copy_option(&self.last_direction),
            last_mime: copy_option(&self.last_mime),
            last_event_unix_ms: self.last_event_unix_ms,
            host_to_guest_events: self.host_to_guest_events,
            guest_to_host_events: self.guest_to_host_events,
            guest_offers: self.guest_offers,
            failures: self.failures,
            last_error: copy_option(&self.last_error),
        }
    }
}

impl Default for ClipboardSnapshot {
    fn default() -> (result: Self)
        ensures
            result.deep_view() == (ClipboardView {
                state: Seq::empty(),
                last_direction: None,
                last_mime: None,
                last_event_unix_ms: None,
                host_to_guest_events: 0,
                guest_to_host_events: 0,
                guest_offers: 0,
                failures: 0,
                last_error: None,
            }),
    {
        ClipboardSnapshot {
            state: String::new(),
            last_direction: None,
            last_mime: None,
            last_event_unix_ms: None,
            host_to_guest_events: 0,
            guest_to_host_events: 0,
            guest_offers: 0,
            failures: 0,
            last_error: None,
        }
    }
}

/// A counter after one more event; at its end it stays.
pub open spec fn counted(count: u64) -> u64 {
    if count == u64::MAX {
        count
    } else {
        (count + 1) as u64
    }
}

fn count_up(count: u64) -> (result: u64)
    ensures
        result == counted(count),
{
    count.saturating_add(1)
}

/// The clipboard after an event: a state, a direction, a time, and a kind of
/// contents where one is given.
pub open spec fn clipboard_event(
    before: ClipboardView,
    state: Seq<char>,
    direction: Seq<char>,
    mime: Option<Seq<char>>,
    now: u128,
) -> ClipboardView {
    ClipboardView {
        state,
        last_direction: Some(direction),
        last_mime: if mime is Some {
            mime
        } else {
            before.last_mime
        },
        last_event_unix_ms: Some(now),
        ..before
    }
}

fn update_clipboard(
    snapshot: &mut ClipboardSnapshot,
    state: &str,
    direction: &str,
    mime: Option<&str>,
    now: u128,
)
    ensures
        final(snapshot).deep_view() == clipboard_event(
            old(snapshot).deep_view(),
            state@,
            direction@,
            mime.deep_view(),
            now,
        ),
{
    snapshot.state = state.to_owned();
    snapshot.last_direction = Some(direction.to_owned());
    if let Some(mime) = mime {
        snapshot.last_mime = Some(mime.to_owned());
    }
    snapshot.last_event_unix_ms = Some(now);
}

/// The clipboard as it is known.
pub fn clipboard_snapshot(snapshot: &ClipboardSnapshot) -> (result: ClipboardSnapshot)
    ensures
        result.deep_view() == snapshot.deep_view(),
{
    snapshot.clone()
}

/// The clipboard after the host offered new contents to the guests; none of
/// them where it was cleared.
pub open spec fn after_host_change(
    before: ClipboardView,
    bytes: usize,
    mime: Option<Seq<char>>,
    now: u128,
) -> ClipboardView {
    let event = clipboard_event(before, "Ready"@, "macOS -> Wayland"@, mime, now);
    let counted = ClipboardView {
        host_to_guest_events: counted(before.host_to_guest_events),
        last_error: None,
        ..event
    };
    if bytes == 0 {
        ClipboardView { state: "macOS clipboard cleared"@, last_mime: None, ..counted }
    } else {
        counted
    }
}

pub fn record_clipboard_host_change(
    snapshot: &mut ClipboardSnapshot,
    bytes: usize,
    mime: Option<&str>,
    now: u128,
)
    ensures
        final(snapshot).deep_view() == after_host_change(
            old(snapshot).deep_view(),
            bytes,
            mime.deep_view(),
            now,
        ),
{
    update_clipboard(snapshot, "Ready", "macOS -> Wayland", mime, now);
    snapshot.host_to_guest_events = count_up(snapshot.host_to_guest_events);
    snapshot.last_error = None;
    if bytes == 0 {
        snapshot.state = "macOS clipboard cleared".to_owned();
        snapshot.last_mime = None;
    }
}

/// The clipboard after a guest offered contents of a kind.
pub open spec fn after_guest_offer(before: ClipboardView, mime: Seq<char>, now: u128) -> ClipboardView {
    ClipboardView {
        guest_offers: counted(before.guest_offers),
        ..clipboard_event(before, "Guest offer"@, "Wayland -> macOS"@, Some(mime), now)
    }
}

pub fn record_clipboard_guest_offer(snapshot: &mut ClipboardSnapshot, mime: &str, now: u128)
    ensures
        final(snapshot).deep_view() == after_guest_offer(old(snapshot).deep_view(), mime@, now),
{
    update_clipboard(snapshot, "Guest offer", "Wayland -> macOS", Some(mime), now);
    snapshot.guest_offers = count_up(snapshot.guest_offers);
}

/// The clipboard after the contents of a guest were handed to the host.
pub open spec fn after_guest_install(before: ClipboardView, bytes: usize, now: u128) -> ClipboardView {
    ClipboardView {
        guest_to_host_events: counted(before.guest_to_host_events),
        last_error: None,
        ..clipboard_event(
            before,
            if bytes == 0 {
                "Wayland clipboard was empty"@
            } else {
                "Ready"@
            },
            "Wayland -> macOS"@,
            None,
            now,
        )
    }
}

pub fn record_clipboard_guest_install(snapshot: &mut ClipboardSnapshot, bytes: usize, now: u128)
    ensures
        final(snapshot).deep_view() == after_guest_install(old(snapshot).deep_view(), bytes, now),
{
    update_clipboard(snapshot, "Ready", "Wayland -> macOS", None, now);
    snapshot.guest_to_host_events = count_up(snapshot.guest_to_host_events);
    snapshot.last_error = None;
    if bytes == 0 {
        snapshot.state = "Wayland clipboard was empty".to_owned();
    }
}

/// The clipboard after a transfer failed.
pub open spec fn after_failure(
    before: ClipboardView,
    direction: Seq<char>,
    error: Seq<char>,
    now: u128,
) -> ClipboardView {
    ClipboardView {
        failures: counted(before.failures),
        last_error: Some(error),
        ..clipboard_event(before, "Error"@, direction, None, now)
    }
}

fn record_clipboard_failure_for(
    snapshot: &mut ClipboardSnapshot,
    direction: &str,
    error: &str,
    now: u128,
)
    ensures
        final(snapshot).deep_view() == after_failure(
            old(snapshot).deep_view(),
            direction@,
            error@,
            now,
        ),
{
    update_clipboard(snapshot, "Error", direction, None, now);
    snapshot.failures = count_up(snapshot.failures);
    snapshot.last_error = Some(error.to_owned());
}

/// Records that contents of a guest did not reach the host.
pub fn record_clipboard_failure(snapshot: &mut ClipboardSnapshot, error: &str, now: u128)
    ensures
        final(snapshot).deep_view() == after_failure(
            old(snapshot).deep_view(),
            "Wayland -> macOS"@,
            error@,
            now,
        ),
{
    record_clipboard_failure_for(snapshot, "Wayland -> macOS", error, now);
}

/// Records that contents of the host did not reach the guests.
pub fn record_clipboard_host_failure(snapshot: &mut ClipboardSnapshot, error: &str, now: u128)
    ensures
        final(snapshot).deep_view() == after_failure(
            old(snapshot).deep_view(),
            "macOS -> Wayland"@,
            error@,
            now,
        ),
{
    record_clipboard_failure_for(snapshot, "macOS -> Wayland", error, now);
}

/// An error of the clipboard is remembered through offers, until a transfer in
/// either direction succeeds.
pub proof fn law_error_lasts_until_success(
    before: ClipboardView,
    direction: Seq<char>,
    error: Seq<char>,
    mime: Seq<char>,
    bytes: usize,
    contents: Option<Seq<char>>,
    now: u128,
)
    ensures
        ({
            let failed = after_failure(before, direction, error, now);
            &&& failed.last_error == Some(error)
            &&& after_guest_offer(failed, mime, now).last_error == Some(error)
            &&& after_host_change(failed, bytes, contents, now).last_error is None
            &&& after_guest_install(failed, bytes, now).last_error is None
        }),
{
}

// ---------------------------------------------------------------------------
// Sizes
// ---------------------------------------------------------------------------
/// A quotient in tenths, rounded to the nearest, and to the even one of two
/// that are as near.
pub open spec fn tenths(value: nat, unit: nat) -> nat {
    let whole = (value * 10) / unit;
    let rest = (value * 10) % unit;
    if 2 * rest > unit || (2 * rest == unit && whole % 2 == 1) {
        whole + 1
    } else {
        whole
    }
}

/// A number of tenths with one digit behind the point.
pub open spec fn tenths_text(count: nat) -> Seq<char> {
    decimal(count / 10) + "."@ + seq![digit((count % 10) as int)]
}

/// The unit of a size in words: the largest one that it reaches.
pub open spec fn size_text(bytes: nat) -> Seq<char> {
    if bytes >= 0x4000_0000 {
        tenths_text(tenths(bytes, 0x4000_0000)) + " GiB"@
    } else if bytes >= 0x10_0000 {
        tenths_text(tenths(bytes, 0x10_0000)) + " MiB"@
    } else if bytes >= 0x400 {
        tenths_text(tenths(bytes, 0x400)) + " KiB"@
    } else {
        decimal(bytes) + " B"@
    }
}

fn one_decimal(value: u128, unit: u128) -> (result: String)
    requires
        value <= 0x1_0000_0000_0000_0000,
        0 < unit <= 0x4000_0000,
    ensures
        result@ == tenths_text(tenths(value as nat, unit as nat)),
{
    let whole: u128 = (value * 10) / unit;
    let rest: u128 = (value * 10) % unit;
    assert(whole <= value * 10) by (nonlinear_arith)
        requires
            whole == (value * 10) / unit as int,
            unit > 0,
            value >= 0,
    ;
    let count: u128 = if 2 * rest > unit || (2 * rest == unit && whole % 2 == 1) {
        whole + 1
    } else {
        whole
    };
    let mut result = decimal_text(count / 10);
    result.append(".");
    let ghost front = result@;
    result.push((48u8 + (count % 10) as u8) as char);
    assert(result@ == front + seq![digit((count % 10) as int)]);
    result
}

/// The number that a 64-bit number becomes where only its 53 leading binary
/// digits are kept, rounded to the nearest and to the even one of two.
pub open spec fn leading_digits(value: nat, step: nat) -> nat
    decreases 12 - step,
{
    if step >= 11 || value < 0x20_0000_0000_0000 * power_of_two(step) {
        let unit = power_of_two(step);
        let kept = value / unit;
        let rest = value % unit;
        if 2 * rest > unit || (2 * rest == unit && kept % 2 == 1) {
            (kept + 1) * unit
        } else {
            kept * unit
        }
    } else {
        leading_digits(value, step + 1)
    }
}

pub open spec fn power_of_two(exponent: nat) -> nat
    decreases exponent,
{
    if exponent == 0 {
        1
    } else {
        2 * power_of_two((exponent - 1) as nat)
    }
}

fn keep_leading_digits(value: u64) -> (result: u128)
    ensures
        result == leading_digits(value as nat, 0),
        result <= 0x1_0000_0000_0000_0000,
        value < 0x20_0000_0000_0000 ==> result == value,
{
    let wide: u128 = value as u128;
    let mut step: usize = 0;
    let mut unit: u128 = 1;
    while step < 11 && wide >= 0x20_0000_0000_0000 * unit
        invariant
            step <= 11,
            wide == value,
            unit == power_of_two(step as nat),
            1 <= unit <= 2048,
            step == 0 ==> unit == 1,
            step > 0 ==> value >= 0x20_0000_0000_0000,
            unit * 0x20_0000_0000_0000 <= 0x1_0000_0000_0000_0000,
            (step < 11 ==> unit <= 1024),
            leading_digits(value as nat, 0) == leading_digits(value as nat, step as nat),
        decreases 11 - step,
    {
        proof {
            lemma_powers();
        }
        step += 1;
        unit = unit * 2;
    }
    let kept: u128 = wide / unit;
    let rest: u128 = wide % unit;
    proof {
        lemma_powers();
        assert(kept * unit + rest == wide) by (nonlinear_arith)
            requires
                kept == wide / unit,
                rest == wide % unit,
                unit > 0,
        ;
        assert((kept + 1) * unit == kept * unit + unit) by (nonlinear_arith);
        assert(kept * unit <= wide);
        assert(rest < unit);
        lemma_fits(wide as nat, unit as nat);
    }
    if 2 * rest > unit || (2 * rest == unit && kept % 2 == 1) {
        (kept + 1) * unit
    } else {
        kept * unit
    }
}

proof fn lemma_powers()
    ensures
        power_of_two(0) == 1,
        power_of_two(1) == 2,
        power_of_two(2) == 4,
        power_of_two(3) == 8,
        power_of_two(4) == 16,
        power_of_two(5) == 32,
        power_of_two(6) == 64,
        power_of_two(7) == 128,
        power_of_two(8) == 256,
        power_of_two(9) == 512,
        power_of_two(10) == 1024,
        power_of_two(11) == 2048,
{
    reveal_with_fuel(power_of_two, 12);
}

/// Rounding up to a multiple of a small power of two stays within 64 bits and
/// one.
proof fn lemma_fits(value: nat, unit: nat)
    requires
        value <= u64::MAX,
        unit == 1 || unit == 2 || unit == 4 || unit == 8 || unit == 16 || unit == 32 || unit == 64
            || unit == 128 || unit == 256 || unit == 512 || unit == 1024 || unit == 2048,
    ensures
        (value / unit) * unit + unit <= 0x1_0000_0000_0000_0000,
{
}

/// A size in bytes as the user reads it.
pub fn format_byte_count(bytes: u64) -> (result: String)
    ensures
        result@ == size_text(leading_digits(bytes as nat, 0)),
{
    let size: u128 = keep_leading_digits(bytes);
    if size >= 0x4000_0000 {
        let number = one_decimal(size, 0x4000_0000);
        concat(number.as_str(), " GiB")
    } else if size >= 0x10_0000 {
        let number = one_decimal(size, 0x10_0000);
        concat(number.as_str(), " MiB")
    } else if size >= 0x400 {
        let number = one_decimal(size, 0x400);
        concat(number.as_str(), " KiB")
    } else {
        let number = decimal_text(size);
        concat(number.as_str(), " B")
    }
}

/// The free space below which no image is built, pulled or loaded.
pub const STORAGE_GROWTH_MINIMUM_BYTES: u64 = 8589934592;

/// Whether there is room for another image, and how much.
pub fn ensure_storage_growth_allowed(available: Option<u64>) -> (result: Result<u64, String>)
    ensures
        outcome(result) == (match available {
            None => Err::<u64, Seq<char>>("Unable to determine available disk space"@),
            Some(bytes) => if bytes < STORAGE_GROWTH_MINIMUM_BYTES {
                Err(
                    "Only "@ + tenths_text(tenths(bytes as nat, 0x4000_0000))
                        + " GiB is free. Cocoa-Way requires at least 8 GiB before building, pulling, or loading an image."@,
                )
            } else {
                Ok(bytes)
            },
        }),
{
    match available {
        None => Err("Unable to determine available disk space".to_owned()),
        Some(bytes) => if bytes < STORAGE_GROWTH_MINIMUM_BYTES {
            let number = one_decimal(bytes as u128, 0x4000_0000);
            Err(
                concat3(
                    "Only ",
                    number.as_str(),
                    " GiB is free. Cocoa-Way requires at least 8 GiB before building, pulling, or loading an image.",
                ),
            )
        } else {
            Ok(bytes)
        },
    }
}

/// The free bytes of a file system, from its free blocks and their size.
pub fn free_bytes(blocks: u64, block_size: u64) -> (result: u64)
    ensures
        result == (if blocks * block_size > u64::MAX {
            u64::MAX as int
        } else {
            blocks * block_size
        }),
{
    match blocks.checked_mul(block_size) {
        Some(bytes) => bytes,
        None => u64::MAX,
    }
}

// ---------------------------------------------------------------------------
// Resources of containers
// ---------------------------------------------------------------------------
/// What the runtime reports of one container.
#[derive(Debug)]
pub struct RawContainerStats {
    pub id: String,
    pub cpu_usage_usec: u64,
    pub memory_usage_bytes: u64,
    pub memory_limit_bytes: u64,
    pub network_rx_bytes: u64,
    pub network_tx_bytes: u64,
    pub block_read_bytes: u64,
    pub block_write_bytes: u64,
    pub processes: u64,
}

/// What the runtime reports of one container, as text and numbers.
#[verifier::ext_equal]
pub struct StatsView {
    pub id: Seq<char>,
    pub cpu_usage_usec: u64,
    pub memory_usage_bytes: u64,
    pub memory_limit_bytes: u64,
    pub network_rx_bytes: u64,
    pub network_tx_bytes: u64,
    pub block_read_bytes: u64,
    pub block_write_bytes: u64,
    pub processes: u64,
}

impl DeepView for RawContainerStats {
    type V = StatsView;

    open spec fn deep_view(&self) -> StatsView {
        StatsView {
            id: self.id@,
            cpu_usage_usec: self.cpu_usage_usec,
            memory_usage_bytes: self.memory_usage_bytes,
            memory_limit_bytes: self.memory_limit_bytes,
            network_rx_bytes: self.network_rx_bytes,
            network_tx_bytes: self.network_tx_bytes,
            block_read_bytes: self.block_read_bytes,
            block_write_bytes: self.block_write_bytes,
            processes: self.processes,
        }
    }
}

/// The number under a key; zero if there is none.
pub open spec fn count_field(row: JsonView, key: Seq<char>) -> u64 {
    match row.field(key) {
        Some(value) => match value.number() {
            Some(number) => number,
            None => 0,
        },
        None => 0,
    }
}

fn u64_field(row: &Json, key: &str) -> (result: u64)
    ensures
        result == count_field(row.deep_view(), key@),
{
    match row.get(key) {
        Some(value) => match value.as_u64() {
            Some(number) => number,
            None => 0,
        },
        None => 0,
    }
}

/// The statistics of one row; none if it does not name its container.
pub open spec fn stats_of(row: JsonView) -> Option<StatsView> {
    match row.text_field("id"@) {
        Some(id) => Some(
            StatsView {
                id,
                cpu_usage_usec: count_field(row, "cpuUsageUsec"@),
                memory_usage_bytes: count_field(row, "memoryUsageBytes"@),
                memory_limit_bytes: count_field(row, "memoryLimitBytes"@),
                network_rx_bytes: count_field(row, "networkRxBytes"@),
                network_tx_bytes: count_field(row, "networkTxBytes"@),
                block_read_bytes: count_field(row, "blockReadBytes"@),
                block_write_bytes: count_field(row, "blockWriteBytes"@),
                processes: count_field(row, "numProcesses"@),
            },
        ),
        None => None,
    }
}

/// The statistics of all rows, or none if one of them does not name its
/// container.
pub open spec fn all_stats(rows: Seq<JsonView>) -> Option<Seq<StatsView>>
    decreases rows.len(),
{
    if rows.len() == 0 {
        Some(Seq::empty())
    } else {
        match (all_stats(rows.drop_last()), stats_of(rows.last())) {
            (Some(before), Some(last)) => Some(before.push(last)),
            _ => None,
        }
    }
}

/// The statistics that a document holds.
pub open spec fn document_stats(document: JsonView) -> Result<Seq<StatsView>, Seq<char>> {
    match document {
        JsonView::Array(rows) => match all_stats(rows) {
            Some(stats) => Ok(stats),
            None => Err("container stats row is missing id"@),
        },
        _ => Err("container stats JSON was not an array"@),
    }
}

fn row_stats(row: &Json) -> (result: Option<RawContainerStats>)
    ensures
        result.deep_view() == stats_of(row.deep_view()),
{
    match row.get_str("id") {
        Some(id) => Some(
            RawContainerStats {
                id: id.to_owned(),
                cpu_usage_usec: u64_field(row, "cpuUsageUsec"),
                memory_usage_bytes: u64_field(row, "memoryUsageBytes"),
                memory_limit_bytes: u64_field(row, "memoryLimitBytes"),
                network_rx_bytes: u64_field(row, "networkRxBytes"),
                network_tx_bytes: u64_field(row, "networkTxBytes"),
                block_read_bytes: u64_field(row, "blockReadBytes"),
                block_write_bytes: u64_field(row, "blockWriteBytes"),
                processes: u64_field(row, "numProcesses"),
            },
        ),
        None => None,
    }
}

proof fn lemma_missing_row(rows: Seq<JsonView>, at: int)
    requires
        0 <= at < rows.len(),
        stats_of(rows[at]) is None,
    ensures
        all_stats(rows) is None,
    decreases rows.len(),
{
    if at < rows.len() - 1 {
        lemma_missing_row(rows.drop_last(), at);
    }
}

/// Reads the statistics from a document.
pub fn stats_rows(document: &Json) -> (result: Result<Vec<RawContainerStats>, String>)
    ensures
        outcome(result) == document_stats(document.deep_view()),
{
    broadcast use lemma_deep_push;

    let rows = match document.as_array() {
        Some(rows) => rows,
        None => return Err("container stats JSON was not an array".to_owned()),
    };
    let ghost all = rows.deep_view();
    let mut result: Vec<RawContainerStats> = Vec::new();
    assert(result.deep_view() == Seq::<StatsView>::empty());
    for i in 0..rows.len()
        invariant
            all == rows.deep_view(),
            document.deep_view() == JsonView::Array(all),
            all_stats(all.take(i as int)) == Some(result.deep_view()),
    {
        assert(all.take(i + 1).drop_last() == all.take(i as int));
        match row_stats(&rows[i]) {
            Some(stats) => {
                result.push(stats);
            },
            None => {
                proof {
                    lemma_missing_row(all, i as int);
                }
                return Err("container stats row is missing id".to_owned());
            },
        }
    }
    assert(all.take(all.len() as int) == all);
    Ok(result)
}

/// What a reply of `container stats` holds.
pub open spec fn reply_stats(reply: Seq<u8>) -> Result<Seq<StatsView>, Seq<char>> {
    match parsed_value(reply) {
        Ok(document) => document_stats(document),
        Err(error) => Err("Invalid container stats JSON: "@ + error),
    }
}

pub fn parse_stats(output: &[u8]) -> (result: Result<Vec<RawContainerStats>, String>)
    ensures
        outcome(result) == reply_stats(output@),
{
    match parse_value(output) {
        Ok(document) => stats_rows(&document),
        Err(error) => Err(concat("Invalid container stats JSON: ", error.as_str())),
    }
}

/// What is known of one container: its statistics, and the processor time that
/// it used since the sample before, where both are known.
#[derive(Debug)]
pub struct ContainerResource {
    pub stats: RawContainerStats,
    pub cpu_delta_usec: Option<u64>,
}

/// What is known of the containers and of the disk.
#[derive(Debug)]
pub struct ResourceSnapshot {
    pub available: bool,
    pub sampled_at_unix_ms: u128,
    pub error: Option<String>,
    pub containers: Vec<ContainerResource>,
    pub total_memory_usage_bytes: u64,
    pub total_memory_limit_bytes: u64,
    pub disk_available_bytes: Option<u64>,
}

/// The last value that a list gives for an id.
pub open spec fn last_usage(usages: Seq<(String, u64)>, id: Seq<char>) -> Option<u64>
    decreases usages.len(),
{
    if usages.len() == 0 {
        None
    } else if usages.last().0@ == id {
        Some(usages.last().1)
    } else {
        last_usage(usages.drop_last(), id)
    }
}

fn find_usage(usages: &Vec<(String, u64)>, id: &str) -> (result: Option<u64>)
    ensures
        result == last_usage(usages@, id@),
{
    let mut i: usize = usages.len();
    assert(usages@.take(i as int) == usages@);
    while i > 0
        invariant
            i <= usages.len(),
            last_usage(usages@, id@) == last_usage(usages@.take(i as int), id@),
        decreases i,
    {
        assert(usages@.take(i as int).drop_last() == usages@.take(i - 1));
        let pair = &usages[i - 1];
        if same(pair.0.as_str(), id) {
            return Some(pair.1);
        }
        i -= 1;
    }
    None
}

/// The processor time between two samples: known where time has passed and the
/// container was in the sample before. A clock that ran backwards counts as
/// no time used.
pub open spec fn usage_delta(
    stats: StatsView,
    previous: Seq<(String, u64)>,
    elapsed_usec: Option<u64>,
) -> Option<u64> {
    match elapsed_usec {
        Some(elapsed) if elapsed > 0 => match last_usage(previous, stats.id) {
            Some(before) => Some(
                if stats.cpu_usage_usec < before {
                    0
                } else {
                    (stats.cpu_usage_usec - before) as u64
                },
            ),
            None => None,
        },
        _ => None,
    }
}

/// A sum that wraps around at 64 bits.
pub open spec fn wrapped_sum(values: Seq<u64>) -> u64
    decreases values.len(),
{
    if values.len() == 0 {
        0
    } else {
        wrapped_sum(values.drop_last()).wrapping_add(values.last())
    }
}

/// The containers of a sample and the sums over them.
pub fn sampled_resources(
    raw: Vec<RawContainerStats>,
    previous: &Vec<(String, u64)>,
    elapsed_usec: Option<u64>,
    now: u128,
    disk_available_bytes: Option<u64>,
) -> (result: ResourceSnapshot)
    ensures
        result.available,
        result.sampled_at_unix_ms == now,
        result.error is None,
        result.disk_available_bytes == disk_available_bytes,
        result.containers@.len() == raw@.len(),
        forall|i: int|
            0 <= i < raw@.len() ==> (#[trigger] result.containers@[i]).stats.deep_view()
                == raw@[i].deep_view() && result.containers@[i].cpu_delta_usec == usage_delta(
                raw@[i].deep_view(),
                previous@,
                elapsed_usec,
            ),
        result.total_memory_usage_bytes == wrapped_sum(
            raw@.map_values(|stats: RawContainerStats| stats.memory_usage_bytes),
        ),
        result.total_memory_limit_bytes == wrapped_sum(
            raw@.map_values(|stats: RawContainerStats| stats.memory_limit_bytes),
        ),
{
    let ghost usages = raw@.map_values(|stats: RawContainerStats| stats.memory_usage_bytes);
    let ghost limits = raw@.map_values(|stats: RawContainerStats| stats.memory_limit_bytes);
    let ghost all = raw@;
    let mut containers: Vec<ContainerResource> = Vec::new();
    let mut usage: u64 = 0;
    let mut limit: u64 = 0;
    for stats in it: raw
        invariant
            it.seq() == all,
            usages == all.map_values(|stats: RawContainerStats| stats.memory_usage_bytes),
            limits == all.map_values(|stats: RawContainerStats| stats.memory_limit_bytes),
            containers@.len() == it.index(),
            usage == wrapped_sum(usages.take(it.index() as int)),
            limit == wrapped_sum(limits.take(it.index() as int)),
            forall|k: int|
                0 <= k < it.index() ==> (#[trigger] containers@[k]).stats.deep_view()
                    == all[k].deep_view() && containers@[k].cpu_delta_usec == usage_delta(
                    all[k].deep_view(),
                    previous@,
                    elapsed_usec,
                ),
    {
        let ghost i = it.index() as int;
        assert(usages.take(i + 1).drop_last() == usages.take(i));
        assert(limits.take(i + 1).drop_last() == limits.take(i));
        usage = usage.wrapping_add(stats.memory_usage_bytes);
        limit = limit.wrapping_add(stats.memory_limit_bytes);
        let known = match elapsed_usec {
            Some(elapsed) => elapsed > 0,
            None => false,
        };
        let delta: Option<u64> = if known {
            match find_usage(previous, stats.id.as_str()) {
                Some(before) => if stats.cpu_usage_usec < before {
                    Some(0)
                } else {
                    Some(stats.cpu_usage_usec - before)
                },
                None => None,
            }
        } else {
            None
        };
        containers.push(ContainerResource { stats, cpu_delta_usec: delta });
    }
    assert(usages.take(all.len() as int) == usages);
    assert(limits.take(all.len() as int) == limits);
    ResourceSnapshot {
        available: true,
        sampled_at_unix_ms: now,
        error: None,
        containers,
        total_memory_usage_bytes: usage,
        total_memory_limit_bytes: limit,
        disk_available_bytes,
    }
}

/// A snapshot that says nothing but why.
pub open spec fn says_only(snapshot: ResourceSnapshot, error: Seq<char>, now: u128, disk: Option<u64>) -> bool {
    &&& !snapshot.available
    &&& snapshot.sampled_at_unix_ms == now
    &&& snapshot.error.deep_view() == Some(error)
    &&& snapshot.containers@.len() == 0
    &&& snapshot.total_memory_usage_bytes == 0
    &&& snapshot.total_memory_limit_bytes == 0
    &&& snapshot.disk_available_bytes == disk
}

fn no_resources(error: &str, now: u128, disk_available_bytes: Option<u64>) -> (result: ResourceSnapshot)
    ensures
        says_only(result, error@, now, disk_available_bytes),
{
    ResourceSnapshot {
        available: false,
        sampled_at_unix_ms: now,
        error: Some(error.to_owned()),
        containers: Vec::new(),
        total_memory_usage_bytes: 0,
        total_memory_limit_bytes: 0,
        disk_available_bytes,
    }
}

/// The snapshot before the first sample.
pub fn waiting_resources(disk_available_bytes: Option<u64>) -> (result: ResourceSnapshot)
    ensures
        says_only(
            result,
            "Waiting for the first Apple Container resource sample"@,
            0,
            disk_available_bytes,
        ),
{
    no_resources("Waiting for the first Apple Container resource sample", 0, disk_available_bytes)
}

/// The snapshot for a sample that failed, with the reason trimmed.
pub fn resource_error(error: &str, now: u128, disk_available_bytes: Option<u64>) -> (result:
    ResourceSnapshot)
    ensures
        says_only(result, trimmed(error@), now, disk_available_bytes),
{
    no_resources(trim(error), now, disk_available_bytes)
}

/// Why a reply of `container stats` gives no sample; none if it gives one.
pub open spec fn sample_problem(reply: Result<CommandOutput, String>) -> Option<Seq<char>> {
    match reply {
        Err(error) => Some(error@),
        Ok(output) => if !output.success {
            Some(
                if lines_of(lossy_text(output.stderr@)).len() > 0 {
                    lines_of(lossy_text(output.stderr@))[0]
                } else {
                    "container stats failed"@
                },
            )
        } else {
            match reply_stats(output.stdout@) {
                Ok(_) => None,
                Err(error) => Some(error),
            }
        },
    }
}

/// The snapshot that follows from the reply to `container stats`; without a
/// reply, the runtime is not installed.
pub fn sample_resources(
    reply: Option<Result<CommandOutput, String>>,
    previous: &Vec<(String, u64)>,
    elapsed_usec: Option<u64>,
    now: u128,
    disk_available_bytes: Option<u64>,
) -> (result: ResourceSnapshot)
    ensures
        match reply {
            None => says_only(
                result,
                "Apple Container command not found"@,
                now,
                disk_available_bytes,
            ),
            Some(reply) => match sample_problem(reply) {
                Some(problem) => says_only(result, trimmed(problem), now, disk_available_bytes),
                None => {
                    let stats = reply_stats(reply->Ok_0.stdout@)->Ok_0;
                    &&& result.available
                    &&& result.sampled_at_unix_ms == now
                    &&& result.error is None
                    &&& result.disk_available_bytes == disk_available_bytes
                    &&& result.containers@.len() == stats.len()
                    &&& forall|i: int|
                        0 <= i < stats.len() ==> (#[trigger] result.containers@[i]).stats.deep_view()
                            == stats[i] && result.containers@[i].cpu_delta_usec == usage_delta(
                            stats[i],
                            previous@,
                            elapsed_usec,
                        )
                    &&& result.total_memory_usage_bytes == wrapped_sum(
                        stats.map_values(|stats: StatsView| stats.memory_usage_bytes),
                    )
                    &&& result.total_memory_limit_bytes == wrapped_sum(
                        stats.map_values(|stats: StatsView| stats.memory_limit_bytes),
                    )
                },
            },
        },
{
    let output = match reply {
        None => {
            return no_resources("Apple Container command not found", now, disk_available_bytes);
        },
        Some(Err(error)) => {
            return resource_error(error.as_str(), now, disk_available_bytes);
        },
        Some(Ok(output)) => output,
    };
    if !output.success {
        let text = lossy(output.stderr.as_slice());
        let rows = lines(text.as_str());
        if rows.len() > 0 {
            assert(rows.deep_view()[0] == rows@[0]@);
            return resource_error(rows[0].as_str(), now, disk_available_bytes);
        }
        return resource_error("container stats failed", now, disk_available_bytes);
    }
    match parse_stats(output.stdout.as_slice()) {
        Ok(raw) => {
            let ghost stats = raw.deep_view();
            proof {
                assert(stats.map_values(|stats: StatsView| stats.memory_usage_bytes)
                    =~= raw@.map_values(|stats: RawContainerStats| stats.memory_usage_bytes));
                assert(stats.map_values(|stats: StatsView| stats.memory_limit_bytes)
                    =~= raw@.map_values(|stats: RawContainerStats| stats.memory_limit_bytes));
            }
            sampled_resources(raw, previous, elapsed_usec, now, disk_available_bytes)
        },
        Err(error) => resource_error(error.as_str(), now, disk_available_bytes),
    }
}

/// The processor times of a sample, for the sample after it.
pub fn sampled_usage(containers: &Vec<ContainerResource>) -> (result: Vec<(String, u64)>)
    ensures
        result@.len() == containers@.len(),
        forall|i: int|
            0 <= i < containers@.len() ==> (#[trigger] result@[i]).0@ == containers@[i].stats.id@
                && result@[i].1 == containers@[i].stats.cpu_usage_usec,
{
    let mut result: Vec<(String, u64)> = Vec::new();
    for i in 0..containers.len()
        invariant
            result@.len() == i,
            forall|k: int|
                0 <= k < i ==> (#[trigger] result@[k]).0@ == containers@[k].stats.id@
                    && result@[k].1 == containers@[k].stats.cpu_usage_usec,
    {
        result.push((containers[i].stats.id.clone(), containers[i].stats.cpu_usage_usec));
    }
    result
}

} // verus!
