//! Container runtimes: their versions, what Cocoa-Way can do with them, how they
//! are doing, and what their commands answered.
use vstd::prelude::*;
use vstd::string::*;

use crate::application_model::RuntimeStatus;
use crate::container_mode::{runtime_state_of, ContainerMode, RuntimeStateView};
use crate::inventory::{
    active_context, apple_container_rows, apple_rows_of, command_preview_lines, contexts_of,
    count_running, count_running_machines, current_context, docker_container_rows,
    docker_context_rows, docker_rows_of, first_stderr_line, loading, loading_text,
    orbstack_machine_rows, orbstack_rows, preview_of, running_machines, running_rows, says_running,
    shown_complaint,
};
use crate::json::{parse_value, parsed_value, Json, JsonView};
use crate::profiles::{
    counted, example_image, format_count, smoke_image_build_command, NAV_APPLE_CONTAINER,
    NAV_ORBSTACK,
};
use crate::session_launch::CommandOutput;
use crate::text::{
    all_digits, chars_of, concat, concat3, contains, empty_list, eq_ignore_ascii_case, has_text,
    is_ascii_digit, is_digit, is_space, is_whitespace, lossy, lossy_text, lowered, occurs,
    parse_u64, parsed_number, pieces, push_text, replace_char, replaced, same, split, split_at,
    string_of, to_ascii_lowercase, trim, trimmed, without_text, drop_text,
};

verus! {

// ---------------------------------------------------------------------------
// Versions
// ---------------------------------------------------------------------------
/// The version from which on sockets can be published reliably.
pub const APPLE_CONTAINER_TRANSPORT_V2_MINIMUM: (u64, u64, u64) = (1, 1, 0);

/// The version without known security faults.
pub const APPLE_CONTAINER_SECURITY_BASELINE: (u64, u64, u64) = (1, 3, 1);

/// The test for what stands between words in which a version may be.
pub open spec fn is_version_break() -> spec_fn(char) -> bool {
    |c: char| is_space(c) || c == '('
}

pub open spec fn is_version_char(c: char) -> bool {
    is_digit(c) || c == '.'
}

/// A word without what is no part of a version at its start.
pub open spec fn version_start(word: Seq<char>) -> Seq<char>
    decreases word.len(),
{
    if word.len() == 0 || is_version_char(word.first()) {
        word
    } else {
        version_start(word.drop_first())
    }
}

/// A word without what is no part of a version at its end.
pub open spec fn version_end(word: Seq<char>) -> Seq<char>
    decreases word.len(),
{
    if word.len() == 0 || is_version_char(word.last()) {
        word
    } else {
        version_end(word.drop_last())
    }
}

pub open spec fn version_core(word: Seq<char>) -> Seq<char> {
    version_end(version_start(word))
}

/// Whether a text is a version: at least three numbers with dots between them.
pub open spec fn is_version(text: Seq<char>) -> bool {
    let parts = split_at(text, '.');
    parts.len() >= 3 && forall|i: int|
        0 <= i < parts.len() ==> (#[trigger] parts[i]).len() > 0 && all_digits(parts[i])
}

/// The first version among some words.
pub open spec fn first_version(words: Seq<Seq<char>>) -> Option<Seq<char>>
    decreases words.len(),
{
    if words.len() == 0 {
        None
    } else if is_version(version_core(words.first())) {
        Some(version_core(words.first()))
    } else {
        first_version(words.drop_first())
    }
}

/// The version that a text names.
pub open spec fn version_in(text: Seq<char>) -> Option<Seq<char>> {
    first_version(pieces(text, is_version_break()))
}

fn version_words(text: &str) -> (result: Vec<String>)
    ensures
        result.deep_view() == pieces(text@, is_version_break()),
{
    let chars = chars_of(text);
    let ghost separates = is_version_break();
    let mut done: Vec<String> = empty_list();
    let mut current: String = String::new();
    assert(done.deep_view().push(current@) == seq![Seq::<char>::empty()]);
    for i in 0..chars.len()
        invariant
            chars@ == text@,
            separates == is_version_break(),
            done.deep_view().push(current@) == pieces(text@.take(i as int), separates),
    {
        assert(text@.take(i + 1).drop_last() == text@.take(i as int));
        let ghost before = done.deep_view().push(current@);
        assert(before.drop_last() == done.deep_view());
        if is_whitespace(chars[i]) || chars[i] == '(' {
            push_text(&mut done, current.as_str());
            current = String::new();
        } else {
            current.push(chars[i]);
        }
    }
    assert(text@.take(text@.len() as int) == text@);
    push_text(&mut done, current.as_str());
    done
}

fn version_core_text(word: &str) -> (result: String)
    ensures
        result@ == version_core(word@),
{
    let chars = chars_of(word);
    let mut start: usize = 0;
    let mut end: usize = chars.len();
    assert(word@.skip(0) == word@);
    while start < end && !(is_ascii_digit(chars[start]) || chars[start] == '.')
        invariant
            start <= end,
            end == chars@.len(),
            chars@ == word@,
            version_start(word@) == version_start(word@.skip(start as int)),
        decreases end - start,
    {
        assert(word@.skip(start as int).drop_first() == word@.skip(start + 1));
        start = start + 1;
    }
    assert(version_start(word@) == word@.skip(start as int));
    assert(word@.subrange(start as int, end as int) == word@.skip(start as int));
    while end > start && !(is_ascii_digit(chars[end - 1]) || chars[end - 1] == '.')
        invariant
            start <= end <= chars@.len(),
            chars@ == word@,
            version_core(word@) == version_end(word@.subrange(start as int, end as int)),
        decreases end - start,
    {
        assert(word@.subrange(start as int, end as int).drop_last() == word@.subrange(
            start as int,
            end - 1,
        ));
        end = end - 1;
    }
    let mut kept: Vec<char> = Vec::new();
    for i in start..end
        invariant
            start <= end <= chars@.len(),
            chars@ == word@,
            start <= i <= end,
            kept@ == word@.subrange(start as int, i as int),
    {
        kept.push(chars[i]);
        assert(kept@ == word@.subrange(start as int, i + 1));
    }
    string_of(kept.as_slice())
}

fn only_digits(text: &str) -> (result: bool)
    ensures
        result == all_digits(text@),
{
    let chars = chars_of(text);
    for i in 0..chars.len()
        invariant
            chars@ == text@,
            forall|j: int| 0 <= j < i ==> is_digit(#[trigger] text@[j]),
    {
        if !is_ascii_digit(chars[i]) {
            assert(!is_digit(text@[i as int]));
            return false;
        }
    }
    true
}

fn is_version_text(text: &str) -> (result: bool)
    ensures
        result == is_version(text@),
{
    let parts = split(text, '.');
    let ghost all = parts.deep_view();
    assert(all.len() == parts@.len());
    if parts.len() < 3 {
        return false;
    }
    for i in 0..parts.len()
        invariant
            all == parts.deep_view(),
            all == split_at(text@, '.'),
            all.len() >= 3,
            forall|j: int|
                0 <= j < i ==> (#[trigger] all[j]).len() > 0 && all_digits(all[j]),
    {
        assert(all[i as int] == parts@[i as int]@);
        if parts[i].as_str().unicode_len() == 0 || !only_digits(parts[i].as_str()) {
            return false;
        }
    }
    true
}

pub fn extract_version(text: &str) -> (result: Option<String>)
    ensures
        result.deep_view() == version_in(text@),
{
    let words = version_words(text);
    let ghost all = words.deep_view();
    assert(all.skip(0) == all);
    for i in 0..words.len()
        invariant
            all == words.deep_view(),
            all == pieces(text@, is_version_break()),
            first_version(all) == first_version(all.skip(i as int)),
    {
        assert(all.skip(i as int).drop_first() == all.skip(i + 1));
        assert(all.skip(i as int).first() == words@[i as int]@);
        let core = version_core_text(words[i].as_str());
        if is_version_text(core.as_str()) {
            return Some(core);
        }
    }
    None
}

/// What is found is a version, whatever the text is.
pub proof fn law_extracted_is_version(text: Seq<char>)
    ensures
        version_in(text) matches Some(version) ==> is_version(version),
{
    lemma_first_is_version(pieces(text, is_version_break()));
}

proof fn lemma_first_is_version(words: Seq<Seq<char>>)
    ensures
        first_version(words) matches Some(version) ==> is_version(version),
    decreases words.len(),
{
    if words.len() > 0 {
        lemma_first_is_version(words.drop_first());
    }
}

/// The numbers among the parts of a version.
pub open spec fn version_numbers(parts: Seq<Seq<char>>) -> Seq<nat>
    decreases parts.len(),
{
    if parts.len() == 0 {
        Seq::empty()
    } else {
        match parsed_number(parts.last(), u64::MAX as nat) {
            Some(number) => version_numbers(parts.drop_last()).push(number),
            None => version_numbers(parts.drop_last()),
        }
    }
}

pub open spec fn number_at(numbers: Seq<nat>, index: int) -> nat {
    if index < numbers.len() {
        numbers[index]
    } else {
        0
    }
}

/// Whether three numbers are at least three others, the first counting most.
pub open spec fn not_below(
    major: nat,
    minor: nat,
    patch: nat,
    minimum: (u64, u64, u64),
) -> bool {
    major > minimum.0 || (major == minimum.0 && (minor > minimum.1 || (minor == minimum.1 && patch
        >= minimum.2)))
}

/// Whether a version is at least another; what is missing counts as nought.
pub open spec fn reaches(version: Seq<char>, minimum: (u64, u64, u64)) -> bool {
    let numbers = version_numbers(split_at(version, '.'));
    not_below(number_at(numbers, 0), number_at(numbers, 1), number_at(numbers, 2), minimum)
}

pub fn version_at_least(version: &str, minimum: (u64, u64, u64)) -> (result: bool)
    ensures
        result == reaches(version@, minimum),
{
    let parts = split(version, '.');
    let ghost all = parts.deep_view();
    let mut numbers: Vec<u64> = Vec::new();
    for i in 0..parts.len()
        invariant
            all == parts.deep_view(),
            numbers@.map_values(|number: u64| number as nat) == version_numbers(
                all.take(i as int),
            ),
    {
        assert(all.take(i + 1).drop_last() == all.take(i as int));
        assert(all.take(i + 1).last() == parts@[i as int]@);
        let ghost before = numbers@;
        if let Some(number) = parse_u64(parts[i].as_str()) {
            numbers.push(number);
            assert(numbers@.map_values(|number: u64| number as nat) == before.map_values(
                |number: u64| number as nat,
            ).push(number as nat));
        }
    }
    assert(all.take(all.len() as int) == all);
    let ghost known = version_numbers(all);
    assert(known == numbers@.map_values(|number: u64| number as nat));
    let major: u64 = if numbers.len() > 0 {
        numbers[0]
    } else {
        0
    };
    let minor: u64 = if numbers.len() > 1 {
        numbers[1]
    } else {
        0
    };
    let patch: u64 = if numbers.len() > 2 {
        numbers[2]
    } else {
        0
    };
    assert(major == number_at(known, 0) && minor == number_at(known, 1) && patch == number_at(
        known,
        2,
    ));
    major > minimum.0 || (major == minimum.0 && (minor > minimum.1 || (minor == minimum.1 && patch
        >= minimum.2)))
}

/// A version that reaches one version reaches each that is not above it.
pub proof fn law_versions_are_ordered(
    version: Seq<char>,
    minimum: (u64, u64, u64),
    lower: (u64, u64, u64),
)
    requires
        reaches(version, minimum),
        not_below(minimum.0 as nat, minimum.1 as nat, minimum.2 as nat, lower),
    ensures
        reaches(version, lower),
{
}

pub fn yes_no(value: bool) -> (result: &'static str)
    ensures
        result@ == (if value {
            "yes"@
        } else {
            "no"@
        }),
{
    if value {
        "yes"
    } else {
        "no"
    }
}

// ---------------------------------------------------------------------------
// Compatibility
// ---------------------------------------------------------------------------
/// What Cocoa-Way can do with the Apple Container that is installed.
#[derive(Debug)]
pub struct AppleContainerCompatibility {
    pub cli_version: String,
    pub api_version: String,
    pub system_status: String,
    pub publish_socket: bool,
    pub stats_json: bool,
    pub summary: String,
    pub detail: String,
}

#[verifier::ext_equal]
pub struct CompatibilityView {
    pub cli_version: Seq<char>,
    pub api_version: Seq<char>,
    pub system_status: Seq<char>,
    pub publish_socket: bool,
    pub stats_json: bool,
    pub summary: Seq<char>,
    pub detail: Seq<char>,
}

impl DeepView for AppleContainerCompatibility {
    type V = CompatibilityView;

    open spec fn deep_view(&self) -> CompatibilityView {
        CompatibilityView {
            cli_version: self.cli_version@,
            api_version: self.api_version@,
            system_status: self.system_status@,
            publish_socket: self.publish_socket,
            stats_json: self.stats_json,
            summary: self.summary@,
            detail: self.detail@,
        }
    }
}

/// What a command has printed, if it succeeded.
pub open spec fn success_text(reply: Result<CommandOutput, String>) -> Seq<char> {
    match reply {
        Ok(output) if output.success => lossy_text(output.stdout@),
        _ => ""@,
    }
}

fn success_output(reply: &Result<CommandOutput, String>) -> (result: String)
    ensures
        result@ == success_text(*reply),
{
    match reply {
        Ok(output) => {
            if output.success {
                return lossy(output.stdout.as_slice());
            }
        },
        Err(_) => {},
    }
    "".to_owned()
}

pub open spec fn version_or_unknown(version: Option<Seq<char>>) -> Seq<char> {
    match version {
        Some(version) => version,
        None => "unknown"@,
    }
}

pub open spec fn compatibility_summary(
    cli: Seq<char>,
    api: Seq<char>,
    status: Seq<char>,
    publish_socket: bool,
) -> Seq<char> {
    if cli != "unknown"@ && api != "unknown"@ && cli != api {
        "Client/API version mismatch"@
    } else if cli != "unknown"@ && !reaches(cli, APPLE_CONTAINER_SECURITY_BASELINE) {
        "Compatible; security update strongly recommended"@
    } else if !publish_socket {
        "Legacy transport fallback required"@
    } else if status != "running"@ {
        "Installed; management service is not running"@
    } else {
        "Compatible with Cocoa-Way"@
    }
}

pub open spec fn compatibility_detail(cli: Seq<char>, api: Seq<char>, publish_socket: bool) -> Seq<char> {
    if cli != "unknown"@ && api != "unknown"@ && cli != api {
        "The CLI and API server differ. Restart or reinstall Apple Container before launching applications."@
    } else if cli != "unknown"@ && !reaches(cli, APPLE_CONTAINER_SECURITY_BASELINE) {
        "Apple Container "@ + cli
            + " can run through Cocoa-Way, but 1.3.1 fixes multiple security vulnerabilities. Stop the service and run `/usr/local/bin/update-container.sh` before normal use."@
    } else if !publish_socket {
        "Cocoa-Way can use its compatibility relay, but Transport V2 requires `container run --publish-socket`."@
    } else if reaches(cli, APPLE_CONTAINER_TRANSPORT_V2_MINIMUM) {
        "Apple Container 1.3.1+ satisfies Cocoa-Way's current security and Transport V2 compatibility baseline."@
    } else {
        "This CLI predates reliable non-root published sockets. Cocoa-Way will use its compatibility relay."@
    }
}

/// What follows from the version of the command, what the runtime says of
/// itself, and what its commands can do.
pub open spec fn compatibility_of(
    version: Seq<char>,
    status: Option<JsonView>,
    publish_socket: bool,
    stats_help: Seq<char>,
) -> CompatibilityView {
    let cli = version_or_unknown(version_in(version));
    let system = match status {
        Some(value) => match value.text_field("status"@) {
            Some(text) => text,
            None => "unavailable"@,
        },
        None => "unavailable"@,
    };
    let api = match status {
        Some(value) => match value.text_field("apiServerVersion"@) {
            Some(text) => version_or_unknown(version_in(text)),
            None => "unknown"@,
        },
        None => "unknown"@,
    };
    CompatibilityView {
        cli_version: cli,
        api_version: api,
        system_status: system,
        publish_socket,
        stats_json: occurs(stats_help, "--format"@) && occurs(stats_help, "--no-stream"@),
        summary: compatibility_summary(cli, api, system, publish_socket),
        detail: compatibility_detail(cli, api, publish_socket),
    }
}

fn version_or_word(version: Option<String>) -> (result: String)
    ensures
        result@ == version_or_unknown(version.deep_view()),
{
    match version {
        Some(version) => version,
        None => "unknown".to_owned(),
    }
}

fn summary_text(cli: &str, api: &str, status: &str, publish_socket: bool) -> (result: &'static str)
    ensures
        result@ == compatibility_summary(cli@, api@, status@, publish_socket),
{
    if !same(cli, "unknown") && !same(api, "unknown") && !same(cli, api) {
        "Client/API version mismatch"
    } else if !same(cli, "unknown") && !version_at_least(cli, APPLE_CONTAINER_SECURITY_BASELINE) {
        "Compatible; security update strongly recommended"
    } else if !publish_socket {
        "Legacy transport fallback required"
    } else if !same(status, "running") {
        "Installed; management service is not running"
    } else {
        "Compatible with Cocoa-Way"
    }
}

fn detail_text(cli: &str, api: &str, publish_socket: bool) -> (result: String)
    ensures
        result@ == compatibility_detail(cli@, api@, publish_socket),
{
    if !same(cli, "unknown") && !same(api, "unknown") && !same(cli, api) {
        "The CLI and API server differ. Restart or reinstall Apple Container before launching applications.".to_owned()
    } else if !same(cli, "unknown") && !version_at_least(cli, APPLE_CONTAINER_SECURITY_BASELINE) {
        concat3(
            "Apple Container ",
            cli,
            " can run through Cocoa-Way, but 1.3.1 fixes multiple security vulnerabilities. Stop the service and run `/usr/local/bin/update-container.sh` before normal use.",
        )
    } else if !publish_socket {
        "Cocoa-Way can use its compatibility relay, but Transport V2 requires `container run --publish-socket`.".to_owned()
    } else if version_at_least(cli, APPLE_CONTAINER_TRANSPORT_V2_MINIMUM) {
        "Apple Container 1.3.1+ satisfies Cocoa-Way's current security and Transport V2 compatibility baseline.".to_owned()
    } else {
        "This CLI predates reliable non-root published sockets. Cocoa-Way will use its compatibility relay.".to_owned()
    }
}

/// Judges an installation by what its commands have said.
pub fn judge_compatibility(
    version: &str,
    status: Option<&Json>,
    publish_socket: bool,
    stats_help: &str,
) -> (result: AppleContainerCompatibility)
    ensures
        result.deep_view() == compatibility_of(
            version@,
            status.deep_view(),
            publish_socket,
            stats_help@,
        ),
{
    let cli_version = version_or_word(extract_version(version));
    let mut system_status = "unavailable".to_owned();
    let mut api_version = "unknown".to_owned();
    if let Some(status) = status {
        if let Some(text) = status.get_str("status") {
            system_status = text.to_owned();
        }
        if let Some(text) = status.get_str("apiServerVersion") {
            api_version = version_or_word(extract_version(text));
        }
    }
    let stats_json = contains(stats_help, "--format") && contains(stats_help, "--no-stream");
    let summary = summary_text(
        cli_version.as_str(),
        api_version.as_str(),
        system_status.as_str(),
        publish_socket,
    ).to_owned();
    let detail = detail_text(cli_version.as_str(), api_version.as_str(), publish_socket);
    AppleContainerCompatibility {
        cli_version,
        api_version,
        system_status,
        publish_socket,
        stats_json,
        summary,
        detail,
    }
}

/// What the runtime says of itself, if it says something that can be read.
pub open spec fn status_document(reply: Result<CommandOutput, String>) -> Option<JsonView> {
    match reply {
        Ok(output) if output.success => match parsed_value(output.stdout@) {
            Ok(value) => Some(value),
            Err(_) => None,
        },
        _ => None,
    }
}

pub fn apple_container_compatibility(
    version: &Result<CommandOutput, String>,
    status: &Result<CommandOutput, String>,
    publish_socket: bool,
    stats_help: &Result<CommandOutput, String>,
) -> (result: AppleContainerCompatibility)
    ensures
        result.deep_view() == compatibility_of(
            success_text(*version),
            status_document(*status),
            publish_socket,
            success_text(*stats_help),
        ),
{
    let version_text = success_output(version);
    let help = success_output(stats_help);
    if let Ok(output) = status {
        if output.success {
            if let Ok(value) = parse_value(output.stdout.as_slice()) {
                return judge_compatibility(
                    version_text.as_str(),
                    Some(&value),
                    publish_socket,
                    help.as_str(),
                );
            }
        }
    }
    judge_compatibility(version_text.as_str(), None, publish_socket, help.as_str())
}

// ---------------------------------------------------------------------------
// How a runtime is doing
// ---------------------------------------------------------------------------
/// How a runtime is doing, and what it has.
#[derive(Debug)]
pub struct RuntimeOverview {
    pub status: RuntimeStatus,
    pub detail: String,
    pub version: String,
    pub resources: String,
    pub provider: String,
}

#[verifier::ext_equal]
pub struct OverviewView {
    pub status: RuntimeStatus,
    pub detail: Seq<char>,
    pub version: Seq<char>,
    pub resources: Seq<char>,
    pub provider: Seq<char>,
}

impl DeepView for RuntimeOverview {
    type V = OverviewView;

    open spec fn deep_view(&self) -> OverviewView {
        OverviewView {
            status: self.status,
            detail: self.detail@,
            version: self.version@,
            resources: self.resources@,
            provider: self.provider@,
        }
    }
}

/// What the status word of Apple Container says.
pub open spec fn apple_status(system: Seq<char>) -> RuntimeStatus {
    let word = lowered(system);
    if occurs(word, "running"@) {
        RuntimeStatus::Ready
    } else if occurs(word, "stop"@) || occurs(word, "not running"@) {
        RuntimeStatus::Unavailable
    } else if occurs(word, "fail"@) || occurs(word, "error"@) {
        RuntimeStatus::Failed
    } else {
        RuntimeStatus::Degraded
    }
}

fn status_of_word(system: &str) -> (result: RuntimeStatus)
    ensures
        result == apple_status(system@),
{
    let word = to_ascii_lowercase(system);
    if contains(word.as_str(), "running") {
        RuntimeStatus::Ready
    } else if contains(word.as_str(), "stop") || contains(word.as_str(), "not running") {
        RuntimeStatus::Unavailable
    } else if contains(word.as_str(), "fail") || contains(word.as_str(), "error") {
        RuntimeStatus::Failed
    } else {
        RuntimeStatus::Degraded
    }
}

/// What is shown of a runtime: what is being done to it comes before what it
/// says of itself.
pub open spec fn shown_status(
    operation: Option<RuntimeStateView>,
    status: RuntimeStatus,
    detail: Seq<char>,
) -> (RuntimeStatus, Seq<char>) {
    match operation {
        Some(state) if state.status is Starting || state.status is Stopping => (
            state.status,
            state.detail,
        ),
        _ => (status, detail),
    }
}

/// The first line of what `--version` has printed.
pub open spec fn version_line(reply: Result<CommandOutput, String>) -> Seq<char> {
    preview_of(reply)[0]
}

fn version_line_text(reply: &Result<CommandOutput, String>) -> (result: String)
    ensures
        result@ == version_line(*reply),
{
    let lines = command_preview_lines(reply);
    assert(lines.deep_view().len() == lines@.len());
    assert(preview_of(*reply).len() > 0);
    assert(lines.deep_view()[0] == lines@[0]@);
    lines[0].clone()
}

fn overview(
    mode: &ContainerMode,
    runtime: &str,
    status: RuntimeStatus,
    detail: String,
    version: String,
    resources: String,
    provider: String,
) -> (result: RuntimeOverview)
    ensures
        result.deep_view() == (OverviewView {
            status: shown_status(
                runtime_state_of(mode.deep_view().runtime_states, runtime@),
                status,
                detail@,
            ).0,
            detail: shown_status(
                runtime_state_of(mode.deep_view().runtime_states, runtime@),
                status,
                detail@,
            ).1,
            version: version@,
            resources: resources@,
            provider: provider@,
        }),
{
    if let Some(state) = mode.runtime_system_state(runtime) {
        if state.status == RuntimeStatus::Starting || state.status == RuntimeStatus::Stopping {
            return RuntimeOverview {
                status: state.status,
                detail: state.detail,
                version,
                resources,
                provider,
            };
        }
    }
    RuntimeOverview { status, detail, version, resources, provider }
}

pub open spec fn apple_overview_of(
    operation: Option<RuntimeStateView>,
    version: Result<CommandOutput, String>,
    compatibility: CompatibilityView,
    containers: Result<CommandOutput, String>,
) -> OverviewView {
    let shown = shown_status(
        operation,
        apple_status(compatibility.system_status),
        compatibility.detail,
    );
    OverviewView {
        status: shown.0,
        detail: shown.1,
        version: version_line(version),
        resources: counted(running_rows(apple_rows_of(containers)), "running container"@),
        provider: if compatibility.publish_socket {
            "GUI Transport V2"@
        } else {
            "Compatibility relay"@
        },
    }
}

/// How Apple Container is doing.
pub fn apple_overview(
    mode: &ContainerMode,
    version: &Result<CommandOutput, String>,
    compatibility: &AppleContainerCompatibility,
    containers: &Result<CommandOutput, String>,
) -> (result: RuntimeOverview)
    ensures
        result.deep_view() == apple_overview_of(
            runtime_state_of(mode.deep_view().runtime_states, "apple"@),
            *version,
            compatibility.deep_view(),
            *containers,
        ),
{
    let rows = apple_container_rows(containers);
    let resources = format_count(count_running(&rows), "running container");
    let provider = if compatibility.publish_socket {
        "GUI Transport V2".to_owned()
    } else {
        "Compatibility relay".to_owned()
    };
    overview(
        mode,
        "apple",
        status_of_word(compatibility.system_status.as_str()),
        compatibility.detail.clone(),
        version_line_text(version),
        resources,
        provider,
    )
}

/// What the status of OrbStack says.
pub open spec fn orbstack_status(reply: Result<CommandOutput, String>) -> (RuntimeStatus, Seq<char>) {
    match reply {
        Ok(output) => if output.success {
            let text = trimmed(lossy_text(output.stdout@));
            if says_running(text) {
                (RuntimeStatus::Ready, "OrbStack services are running."@)
            } else {
                (RuntimeStatus::Unavailable, "OrbStack is "@ + text + "."@)
            }
        } else {
            (RuntimeStatus::Failed, shown_complaint(output, "OrbStack status failed"@))
        },
        Err(error) => if error@ == loading() {
            (RuntimeStatus::Degraded, "Checking OrbStack status in the background."@)
        } else {
            (RuntimeStatus::Failed, error@)
        },
    }
}

pub open spec fn orbstack_overview_of(
    operation: Option<RuntimeStateView>,
    version: Result<CommandOutput, String>,
    status: Result<CommandOutput, String>,
    machines: Result<CommandOutput, String>,
) -> OverviewView {
    let live = orbstack_status(status);
    let shown = shown_status(operation, live.0, live.1);
    OverviewView {
        status: shown.0,
        detail: shown.1,
        version: version_line(version),
        resources: counted(
            running_machines(orbstack_rows(live.0 is Ready, machines)),
            "running machine"@,
        ),
        provider: "OrbStack provider"@,
    }
}

fn orbstack_state(reply: &Result<CommandOutput, String>) -> (result: (RuntimeStatus, String))
    ensures
        (result.0, result.1@) == orbstack_status(*reply),
{
    match reply {
        Ok(output) => {
            if output.success {
                let text = lossy(output.stdout.as_slice());
                let word = trim(text.as_str());
                if eq_ignore_ascii_case(word, "running") {
                    (RuntimeStatus::Ready, "OrbStack services are running.".to_owned())
                } else {
                    (RuntimeStatus::Unavailable, concat3("OrbStack is ", word, "."))
                }
            } else {
                (RuntimeStatus::Failed, first_stderr_line(output, "OrbStack status failed"))
            }
        },
        Err(error) => {
            if same(error.as_str(), loading_text()) {
                (
                    RuntimeStatus::Degraded,
                    "Checking OrbStack status in the background.".to_owned(),
                )
            } else {
                (RuntimeStatus::Failed, error.clone())
            }
        },
    }
}

/// How OrbStack is doing.
pub fn orbstack_overview(
    mode: &ContainerMode,
    version: &Result<CommandOutput, String>,
    status: &Result<CommandOutput, String>,
    machines: &Result<CommandOutput, String>,
) -> (result: RuntimeOverview)
    ensures
        result.deep_view() == orbstack_overview_of(
            runtime_state_of(mode.deep_view().runtime_states, "orbstack"@),
            *version,
            *status,
            *machines,
        ),
{
    let (live, detail) = orbstack_state(status);
    let rows = orbstack_machine_rows(live == RuntimeStatus::Ready, machines);
    let resources = format_count(count_running_machines(&rows), "running machine");
    overview(
        mode,
        "orbstack",
        live,
        detail,
        version_line_text(version),
        resources,
        "OrbStack provider".to_owned(),
    )
}

/// What Docker says of its engine.
pub open spec fn docker_status(reply: Result<CommandOutput, String>) -> (RuntimeStatus, Seq<char>) {
    match reply {
        Ok(output) => if output.success {
            (
                RuntimeStatus::Ready,
                "Connected to Docker Engine "@ + trimmed(lossy_text(output.stdout@)) + "."@,
            )
        } else {
            (
                RuntimeStatus::Unavailable,
                shown_complaint(output, "Cannot connect to the Docker endpoint"@),
            )
        },
        Err(error) => if error@ == loading() {
            (RuntimeStatus::Degraded, "Checking the active Docker context in the background."@)
        } else {
            (RuntimeStatus::Failed, error@)
        },
    }
}

fn docker_state(reply: &Result<CommandOutput, String>) -> (result: (RuntimeStatus, String))
    ensures
        (result.0, result.1@) == docker_status(*reply),
{
    match reply {
        Ok(output) => {
            if output.success {
                let text = lossy(output.stdout.as_slice());
                (
                    RuntimeStatus::Ready,
                    concat3("Connected to Docker Engine ", trim(text.as_str()), "."),
                )
            } else {
                (
                    RuntimeStatus::Unavailable,
                    first_stderr_line(output, "Cannot connect to the Docker endpoint"),
                )
            }
        },
        Err(error) => {
            if same(error.as_str(), loading_text()) {
                (
                    RuntimeStatus::Degraded,
                    "Checking the active Docker context in the background.".to_owned(),
                )
            } else {
                (RuntimeStatus::Failed, error.clone())
            }
        },
    }
}

pub open spec fn docker_overview_of(
    operation: Option<RuntimeStateView>,
    version: Result<CommandOutput, String>,
    info: Result<CommandOutput, String>,
    containers: Option<Result<CommandOutput, String>>,
    contexts: Option<Result<CommandOutput, String>>,
) -> OverviewView {
    let live = docker_status(info);
    let shown = shown_status(operation, live.0, live.1);
    OverviewView {
        status: shown.0,
        detail: shown.1,
        version: version_line(version),
        resources: counted(running_rows(docker_rows_of(containers)), "running container"@),
        provider: "Context: "@ + (match current_context(contexts_of(contexts)) {
            Some(name) => name,
            None => "No active context"@,
        }),
    }
}

/// How Docker is doing.
pub fn docker_overview(
    mode: &ContainerMode,
    version: &Result<CommandOutput, String>,
    info: &Result<CommandOutput, String>,
    containers: &Option<Result<CommandOutput, String>>,
    contexts: &Option<Result<CommandOutput, String>>,
) -> (result: RuntimeOverview)
    ensures
        result.deep_view() == docker_overview_of(
            runtime_state_of(mode.deep_view().runtime_states, "docker"@),
            *version,
            *info,
            *containers,
            *contexts,
        ),
{
    let (live, detail) = docker_state(info);
    let rows = docker_container_rows(containers);
    let resources = format_count(count_running(&rows), "running container");
    let context_rows = docker_context_rows(contexts);
    let context = match active_context(&context_rows) {
        Some(name) => name,
        None => "No active context".to_owned(),
    };
    overview(
        mode,
        "docker",
        live,
        detail,
        version_line_text(version),
        resources,
        concat("Context: ", context.as_str()),
    )
}

/// What the commands of the runtimes have answered. Docker's containers and
/// contexts are none where its command is not installed.
#[derive(Debug)]
pub struct RuntimeReplies {
    /// The version of the runtime of the page.
    pub version: Result<CommandOutput, String>,
    pub compatibility: AppleContainerCompatibility,
    pub apple_containers: Result<CommandOutput, String>,
    pub orbstack_status: Result<CommandOutput, String>,
    pub orbstack_machines: Result<CommandOutput, String>,
    pub docker_info: Result<CommandOutput, String>,
    pub docker_containers: Option<Result<CommandOutput, String>>,
    pub docker_contexts: Option<Result<CommandOutput, String>>,
}

/// How the runtime of a page is doing. A page of no runtime in particular tells of
/// Docker.
pub open spec fn overview_of_page(
    nav: usize,
    states: Seq<RuntimeStateView>,
    replies: RuntimeReplies,
) -> OverviewView {
    if nav == NAV_APPLE_CONTAINER {
        apple_overview_of(
            runtime_state_of(states, "apple"@),
            replies.version,
            replies.compatibility.deep_view(),
            replies.apple_containers,
        )
    } else if nav == NAV_ORBSTACK {
        orbstack_overview_of(
            runtime_state_of(states, "orbstack"@),
            replies.version,
            replies.orbstack_status,
            replies.orbstack_machines,
        )
    } else {
        docker_overview_of(
            runtime_state_of(states, "docker"@),
            replies.version,
            replies.docker_info,
            replies.docker_containers,
            replies.docker_contexts,
        )
    }
}

pub fn runtime_overview(nav: usize, mode: &ContainerMode, replies: &RuntimeReplies) -> (result:
    RuntimeOverview)
    ensures
        result.deep_view() == overview_of_page(nav, mode.deep_view().runtime_states, *replies),
{
    if nav == NAV_APPLE_CONTAINER {
        apple_overview(mode, &replies.version, &replies.compatibility, &replies.apple_containers)
    } else if nav == NAV_ORBSTACK {
        orbstack_overview(
            mode,
            &replies.version,
            &replies.orbstack_status,
            &replies.orbstack_machines,
        )
    } else {
        docker_overview(
            mode,
            &replies.version,
            &replies.docker_info,
            &replies.docker_containers,
            &replies.docker_contexts,
        )
    }
}

// ---------------------------------------------------------------------------
// What commands have answered
// ---------------------------------------------------------------------------
/// For how long an answer is taken to be up to date.
pub const UI_COMMAND_CACHE_TTL_MS: u64 = 10000;

/// The key under which the answer of a command is kept.
pub open spec fn command_key(
    command: Seq<char>,
    child_path: Seq<char>,
    args: Seq<Seq<char>>,
) -> Seq<char>
    decreases args.len(),
{
    if args.len() == 0 {
        command + "\0"@ + child_path
    } else {
        command_key(command, child_path, args.drop_last()) + "\0"@ + args.last()
    }
}

pub fn ui_command_cache_key(command: &str, child_path: &str, args: &Vec<String>) -> (result: String)
    ensures
        result@ == command_key(command@, child_path@, args.deep_view()),
{
    let ghost all = args.deep_view();
    let mut key = concat3(command, "\0", child_path);
    for i in 0..args.len()
        invariant
            all == args.deep_view(),
            key@ == command_key(command@, child_path@, all.take(i as int)),
    {
        assert(all.take(i + 1).drop_last() == all.take(i as int));
        assert(all.take(i + 1).last() == args@[i as int]@);
        key.append("\0");
        key.append(args[i].as_str());
    }
    assert(all.take(all.len() as int) == all);
    key
}

/// What a command has answered, and when.
#[derive(Debug)]
pub struct UiCommandCacheEntry {
    pub key: String,
    pub completed_at: u64,
    pub result: Result<CommandOutput, String>,
}

/// For how long what was made of the answers is remembered.
pub const COMPATIBILITY_LIFETIME_MS: u64 = 5000;

/// The answers of commands, each once, and the commands that are being asked.
#[derive(Debug)]
pub struct CommandCache {
    pub entries: Vec<UiCommandCacheEntry>,
    pub refreshing: Vec<String>,
    /// How Apple Container was last judged, and when.
    pub compatibility: Option<(u64, AppleContainerCompatibility)>,
}

/// The last judgement, if it is still remembered.
pub open spec fn remembered(
    compatibility: Option<(u64, CompatibilityView)>,
    now: u64,
) -> Option<CompatibilityView> {
    match compatibility {
        Some((checked_at, known)) => if now < checked_at || now - checked_at
            < COMPATIBILITY_LIFETIME_MS {
            Some(known)
        } else {
            None
        },
        None => None,
    }
}

fn copy_compatibility(known: &AppleContainerCompatibility) -> (result: AppleContainerCompatibility)
    ensures
        result.deep_view() == known.deep_view(),
{
    AppleContainerCompatibility {
        cli_version: known.cli_version.clone(),
        api_version: known.api_version.clone(),
        system_status: known.system_status.clone(),
        publish_socket: known.publish_socket,
        stats_json: known.stats_json,
        summary: known.summary.clone(),
        detail: known.detail.clone(),
    }
}

/// The answer of a command, if there is one.
pub open spec fn answer_of(entries: Seq<UiCommandCacheEntry>, key: Seq<char>) -> Option<
    UiCommandCacheEntry,
>
    decreases entries.len(),
{
    if entries.len() == 0 {
        None
    } else if entries.last().key@ == key {
        Some(entries.last())
    } else {
        answer_of(entries.drop_last(), key)
    }
}

/// The answers of the other commands.
pub open spec fn other_answers(entries: Seq<UiCommandCacheEntry>, key: Seq<char>) -> Seq<
    UiCommandCacheEntry,
>
    decreases entries.len(),
{
    if entries.len() == 0 {
        Seq::empty()
    } else if entries.last().key@ == key {
        other_answers(entries.drop_last(), key)
    } else {
        other_answers(entries.drop_last(), key).push(entries.last())
    }
}

/// Whether a command is to be asked: there is no answer, or it is old.
pub open spec fn is_stale(answer: Option<UiCommandCacheEntry>, now: u64) -> bool {
    match answer {
        Some(entry) => now >= entry.completed_at && now - entry.completed_at
            >= UI_COMMAND_CACHE_TTL_MS,
        None => true,
    }
}

impl CommandCache {
    pub fn new() -> (result: Self)
        ensures
            result.entries@ == Seq::<UiCommandCacheEntry>::empty(),
            result.refreshing.deep_view() == Seq::<Seq<char>>::empty(),
            result.compatibility is None,
    {
        CommandCache { entries: Vec::new(), refreshing: empty_list(), compatibility: None }
    }

    /// The answer of a command, however old.
    pub fn answer(&self, key: &str) -> (result: Option<&UiCommandCacheEntry>)
        ensures
            match result {
                Some(entry) => answer_of(self.entries@, key@) == Some(*entry),
                None => answer_of(self.entries@, key@) is None,
            },
    {
        let mut i: usize = self.entries.len();
        assert(self.entries@.take(i as int) == self.entries@);
        while i > 0
            invariant
                i <= self.entries@.len(),
                answer_of(self.entries@, key@) == answer_of(self.entries@.take(i as int), key@),
            decreases i,
        {
            assert(self.entries@.take(i as int).drop_last() == self.entries@.take(i - 1));
            if same(self.entries[i - 1].key.as_str(), key) {
                return Some(&self.entries[i - 1]);
            }
            i = i - 1;
        }
        None
    }

    /// What a command has answered, however old; that it is still to answer, where it
    /// has not.
    pub fn reply(&self, key: &str) -> (result: Result<&CommandOutput, String>)
        ensures
            match answer_of(self.entries@, key@) {
                Some(entry) => match entry.result {
                    Ok(output) => result matches Ok(kept) && *kept == output,
                    Err(error) => result matches Err(kept) && kept@ == error@,
                },
                None => result matches Err(kept) && kept@ == loading(),
            },
    {
        match self.answer(key) {
            Some(entry) => match &entry.result {
                Ok(output) => Ok(output),
                Err(error) => Err(error.clone()),
            },
            None => Err(loading_text().to_owned()),
        }
    }

    /// How Apple Container is judged: as it was a moment ago, or by what its commands
    /// have said. A new judgement is remembered.
    pub fn apple_container_compatibility(
        &mut self,
        version: &Result<CommandOutput, String>,
        status: &Result<CommandOutput, String>,
        publish_socket: bool,
        stats_help: &Result<CommandOutput, String>,
        now: u64,
    ) -> (result: AppleContainerCompatibility)
        ensures
            match remembered(old(self).compatibility.deep_view(), now) {
                Some(known) => {
                    &&& result.deep_view() == known
                    &&& final(self).compatibility == old(self).compatibility
                },
                None => {
                    &&& result.deep_view() == compatibility_of(
                        success_text(*version),
                        status_document(*status),
                        publish_socket,
                        success_text(*stats_help),
                    )
                    &&& final(self).compatibility.deep_view() == Some((now, result.deep_view()))
                },
            },
            final(self).entries == old(self).entries,
            final(self).refreshing == old(self).refreshing,
    {
        if let Some((checked_at, known)) = &self.compatibility {
            if now < *checked_at || now - *checked_at < COMPATIBILITY_LIFETIME_MS {
                return copy_compatibility(known);
            }
        }
        let judged = apple_container_compatibility(version, status, publish_socket, stats_help);
        self.compatibility = Some((now, copy_compatibility(&judged)));
        judged
    }

    /// Says whether a command is to be asked now: it is where its answer is
    /// missing or old, unless it is being asked. It is then being asked.
    pub fn run_ui_command(&mut self, key: &str, now: u64) -> (result: bool)
        ensures
            result == (is_stale(answer_of(old(self).entries@, key@), now) && !old(
                self,
            ).refreshing.deep_view().contains(key@)),
            final(self).refreshing.deep_view() == (if result {
                old(self).refreshing.deep_view().push(key@)
            } else {
                old(self).refreshing.deep_view()
            }),
            final(self).entries@ == old(self).entries@,
            final(self).compatibility == old(self).compatibility,
    {
        let stale = match self.answer(key) {
            Some(entry) => now >= entry.completed_at && now - entry.completed_at
                >= UI_COMMAND_CACHE_TTL_MS,
            None => true,
        };
        if stale && !has_text(&self.refreshing, key) {
            push_text(&mut self.refreshing, key);
            return true;
        }
        false
    }

    /// The answer of a command has come. It takes the place of the one before.
    pub fn answered(&mut self, key: &str, now: u64, reply: Result<CommandOutput, String>)
        ensures
            ({
                let entries = final(self).entries@;
                &&& entries.len() > 0
                &&& entries.drop_last() == other_answers(old(self).entries@, key@)
                &&& entries.last().key@ == key@
                &&& entries.last().completed_at == now
                &&& entries.last().result == reply
            }),
            final(self).refreshing.deep_view() == without_text(
                old(self).refreshing.deep_view(),
                key@,
            ),
            final(self).compatibility == old(self).compatibility,
    {
        let mut all: Vec<UiCommandCacheEntry> = Vec::new();
        std::mem::swap(&mut self.entries, &mut all);
        let ghost before = all@;
        let mut kept: Vec<UiCommandCacheEntry> = Vec::new();
        for entry in it: all
            invariant
                it.seq() == before,
                kept@ == other_answers(before.take(it.index()), key@),
        {
            assert(before.take(it.index() + 1).drop_last() == before.take(it.index()));
            if !same(entry.key.as_str(), key) {
                kept.push(entry);
            }
        }
        assert(before.take(before.len() as int) == before);
        let ghost others = kept@;
        kept.push(UiCommandCacheEntry { key: key.to_owned(), completed_at: now, result: reply });
        assert(kept@.drop_last() == others);
        self.entries = kept;
        self.refreshing = drop_text(&self.refreshing, key);
    }

    /// No answer counts any longer. What is being asked is still being asked.
    pub fn invalidate_ui_command_cache(&mut self)
        ensures
            final(self).entries@ == Seq::<UiCommandCacheEntry>::empty(),
            final(self).refreshing.deep_view() == old(self).refreshing.deep_view(),
            final(self).compatibility is None,
    {
        self.entries = Vec::new();
        self.compatibility = None;
    }
}

/// What was judged is remembered for five seconds and no longer.
pub proof fn law_judgement_is_remembered(checked_at: u64, known: CompatibilityView, now: u64)
    requires
        checked_at <= now,
    ensures
        remembered(Some((checked_at, known)), now) == (if now - checked_at < 5000 {
            Some(known)
        } else {
            None
        }),
{
}

/// An answer that has just come is found and up to date.
pub proof fn law_answer_is_found(entries: Seq<UiCommandCacheEntry>, entry: UiCommandCacheEntry)
    ensures
        answer_of(other_answers(entries, entry.key@).push(entry), entry.key@) == Some(entry),
        !is_stale(Some(entry), entry.completed_at),
{
    assert(other_answers(entries, entry.key@).push(entry).last() == entry);
}

/// The answer of one command changes nothing of what another has answered.
pub proof fn law_answers_are_apart(
    entries: Seq<UiCommandCacheEntry>,
    entry: UiCommandCacheEntry,
    other: Seq<char>,
)
    requires
        other != entry.key@,
    ensures
        answer_of(other_answers(entries, entry.key@).push(entry), other) == answer_of(
            entries,
            other,
        ),
    decreases entries.len(),
{
    let kept = other_answers(entries, entry.key@);
    assert(kept.push(entry).drop_last() == kept);
    lemma_other_answers(entries, entry.key@, other);
}

proof fn lemma_other_answers(entries: Seq<UiCommandCacheEntry>, key: Seq<char>, other: Seq<char>)
    requires
        other != key,
    ensures
        answer_of(other_answers(entries, key), other) == answer_of(entries, other),
    decreases entries.len(),
{
    if entries.len() > 0 {
        lemma_other_answers(entries.drop_last(), key, other);
        if entries.last().key@ != key {
            let kept = other_answers(entries.drop_last(), key);
            assert(kept.push(entries.last()).drop_last() == kept);
        }
    }
}

// ---------------------------------------------------------------------------
// Drawing no more often than needed
// ---------------------------------------------------------------------------
/// When something was last done, so that it is not done too often.
#[derive(Debug, Clone, Copy, PartialEq, Eq, Structural)]
pub struct Throttle {
    pub last: Option<u64>,
}

pub open spec fn is_due(last: Option<u64>, now: u64, interval: u64) -> bool {
    match last {
        Some(last) => now >= last && now - last >= interval,
        None => true,
    }
}

impl Throttle {
    pub fn new() -> (result: Self)
        ensures
            result.last is None,
    {
        Throttle { last: None }
    }

    /// Whether it is time again; if so, it is taken to be done.
    pub fn due(&mut self, now: u64, interval: u64) -> (result: bool)
        ensures
            result == is_due(old(self).last, now, interval),
            final(self).last == (if result {
                Some(now)
            } else {
                old(self).last
            }),
    {
        let due = match self.last {
            Some(last) => now >= last && now - last >= interval,
            None => true,
        };
        if due {
            self.last = Some(now);
        }
        due
    }
}

/// What drawing the window again depends on.
#[derive(Debug)]
pub struct Redraw {
    pub stream: Throttle,
    pub background: Throttle,
    pub resize: Throttle,
    /// A later drawing was asked for.
    pub pending: bool,
}

/// What follows from new answers of commands.
#[derive(Debug, Clone, Copy, PartialEq, Eq, Structural)]
pub enum CacheRedraw {
    /// The window is drawn now.
    Now,
    /// The window is drawn after a tenth of a second.
    Later,
    /// The window is being drawn later anyhow.
    Nothing,
}

impl Redraw {
    pub fn new() -> (result: Self)
        ensures
            result.stream.last is None,
            result.background.last is None,
            result.resize.last is None,
            !result.pending,
    {
        Redraw {
            stream: Throttle::new(),
            background: Throttle::new(),
            resize: Throttle::new(),
            pending: false,
        }
    }

    /// Answers of commands have come: what was made of the earlier ones is forgotten.
    pub fn record_command_cache_updated(&mut self, cache: &mut CommandCache, now: u64) -> (result:
        CacheRedraw)
        ensures
            final(cache).compatibility is None,
            final(cache).entries == old(cache).entries,
            final(cache).refreshing == old(cache).refreshing,
            ({
                let due = is_due(old(self).stream.last, now, 100);
                &&& result == (if due {
                    CacheRedraw::Now
                } else if old(self).pending {
                    CacheRedraw::Nothing
                } else {
                    CacheRedraw::Later
                })
                &&& final(self).stream.last == (if due {
                    Some(now)
                } else {
                    old(self).stream.last
                })
                &&& final(self).pending == (old(self).pending || !due)
            }),
            final(self).background == old(self).background,
            final(self).resize == old(self).resize,
    {
        cache.compatibility = None;
        if self.stream.due(now, 100) {
            return CacheRedraw::Now;
        }
        if self.pending {
            return CacheRedraw::Nothing;
        }
        self.pending = true;
        CacheRedraw::Later
    }

    /// The later drawing is due.
    pub fn record_command_cache_refresh_due(&mut self, now: u64)
        ensures
            !final(self).pending,
            final(self).stream.last == Some(now),
            final(self).background == old(self).background,
            final(self).resize == old(self).resize,
    {
        self.pending = false;
        self.stream.last = Some(now);
    }
}

// ---------------------------------------------------------------------------
// Commands to copy
// ---------------------------------------------------------------------------
/// The commands that the user may want to copy.
pub open spec fn useful_commands(data_root: Seq<char>, config_path: Seq<char>) -> Seq<Seq<char>> {
    seq![
        "container system status"@,
        "container image list"@,
        "container build -f "@ + "examples/container-images/Containerfile.niri"@ + " -t "@
            + example_image() + " "@ + "."@,
        "container image pull docker.io/library/alpine:3.20"@,
        "container image load --input /tmp/cocoa-way-niri.tar"@,
        "docker image ls"@,
        "docker buildx build -f examples/container-images/Containerfile.niri --output type=oci,dest=/tmp/cocoa-way-niri.tar ."@,
        "open '"@ + replaced(data_root, '\'', "'\\''"@) + "'"@,
        "open -R "@ + config_path,
    ]
}

pub fn command_items(data_root: &str, config_path: &str) -> (result: Vec<String>)
    ensures
        result.deep_view() == useful_commands(data_root@, config_path@),
{
    let mut items: Vec<String> = empty_list();
    push_text(&mut items, "container system status");
    push_text(&mut items, "container image list");
    let build = smoke_image_build_command();
    push_text(&mut items, build.as_str());
    push_text(&mut items, "container image pull docker.io/library/alpine:3.20");
    push_text(&mut items, "container image load --input /tmp/cocoa-way-niri.tar");
    push_text(&mut items, "docker image ls");
    push_text(
        &mut items,
        "docker buildx build -f examples/container-images/Containerfile.niri --output type=oci,dest=/tmp/cocoa-way-niri.tar .",
    );
    let root = replace_char(data_root, '\'', "'\\''");
    let open = concat3("open '", root.as_str(), "'");
    push_text(&mut items, open.as_str());
    let reveal = concat("open -R ", config_path);
    push_text(&mut items, reveal.as_str());
    items
}

} // verus!
