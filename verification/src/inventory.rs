//! What the container runtimes have: containers, machines, contexts, images and
//! volumes, read from what their commands print.
use vstd::prelude::*;
use vstd::string::*;

use crate::json::{parse_array, parsed_array, Json, JsonView};
use crate::session_launch::CommandOutput;
use crate::text::{
    blank, concat, concat3, concat5, contains, drop_empty, empty_list, eq_ignore_ascii_case,
    is_blank, join, joined, lines, lines_of, lossy, lossy_text, lowered, occurs, push_deep,
    push_text, same, short_text, shortened, split, split_at, split_whitespace, trim, trimmed,
    without_empty, words_of, outcome,
};

verus! {

/// What the answer of a command is while it is not there yet.
pub open spec fn loading() -> Seq<char> {
    "Loading runtime data..."@
}

pub fn loading_text() -> (result: &'static str)
    ensures
        result@ == loading(),
{
    "Loading runtime data..."
}

/// Why a command has no answer, in words.
pub open spec fn command_problem(prefix: Seq<char>, error: Seq<char>) -> Seq<char> {
    if error == loading() {
        loading()
    } else {
        prefix + ": "@ + error
    }
}

pub fn ui_command_error(prefix: &str, error: &str) -> (result: String)
    ensures
        result@ == command_problem(prefix@, error@),
{
    if same(error, loading_text()) {
        loading_text().to_owned()
    } else {
        concat3(prefix, ": ", error)
    }
}

/// The first line of what a command complained about, or another text where
/// that is blank.
pub open spec fn complaint(output: CommandOutput, other: Seq<char>) -> Seq<char> {
    let all = lines_of(lossy_text(output.stderr@));
    if all.len() > 0 && !is_blank(all[0]) {
        all[0]
    } else {
        other
    }
}

fn complaint_text(output: &CommandOutput, other: &str) -> (result: String)
    ensures
        result@ == complaint(*output, other@),
{
    let text = lossy(output.stderr.as_slice());
    let all = lines(text.as_str());
    assert(all.deep_view().len() == all@.len());
    if all.len() > 0 {
        assert(all.deep_view()[0] == all@[0]@);
        if !blank(all[0].as_str()) {
            return all[0].clone();
        }
    }
    other.to_owned()
}

/// The complaint of a command as it is shown.
pub open spec fn shown_complaint(output: CommandOutput, other: Seq<char>) -> Seq<char> {
    let line = complaint(output, other);
    if occurs(line, "Cannot connect to the Docker daemon"@) {
        "Docker daemon is offline. Start Docker or OrbStack, then Reload."@
    } else {
        shortened(line, 82)
    }
}

pub fn first_stderr_line(output: &CommandOutput, fallback: &str) -> (result: String)
    ensures
        result@ == shown_complaint(*output, fallback@),
{
    let line = complaint_text(output, fallback);
    if contains(line.as_str(), "Cannot connect to the Docker daemon") {
        "Docker daemon is offline. Start Docker or OrbStack, then Reload.".to_owned()
    } else {
        short_text(line.as_str(), 82)
    }
}

/// The lines that are not blank.
pub open spec fn written(all: Seq<Seq<char>>) -> Seq<Seq<char>>
    decreases all.len(),
{
    if all.len() == 0 {
        Seq::empty()
    } else if is_blank(all.last()) {
        written(all.drop_last())
    } else {
        written(all.drop_last()).push(all.last())
    }
}

/// The lines that a command has printed and that are not blank.
pub open spec fn printed(output: CommandOutput) -> Seq<Seq<char>> {
    written(lines_of(lossy_text(output.stdout@)))
}

fn printed_lines(output: &CommandOutput) -> (result: Vec<String>)
    ensures
        result.deep_view() == printed(*output),
{
    let text = lossy(output.stdout.as_slice());
    let all = lines(text.as_str());
    let ghost whole = all.deep_view();
    let mut result: Vec<String> = empty_list();
    for i in 0..all.len()
        invariant
            whole == all.deep_view(),
            result.deep_view() == written(whole.take(i as int)),
    {
        assert(whole.take(i + 1).drop_last() == whole.take(i as int));
        assert(whole.take(i + 1).last() == all@[i as int]@);
        if !blank(all[i].as_str()) {
            push_text(&mut result, all[i].as_str());
        }
    }
    assert(whole.take(whole.len() as int) == whole);
    result
}

/// What a command has printed, in at most eight lines, or what went wrong.
pub open spec fn preview_of(reply: Result<CommandOutput, String>) -> Seq<Seq<char>> {
    match reply {
        Ok(output) => if output.success {
            let all = printed(output);
            if all.len() == 0 {
                seq!["OK"@]
            } else if all.len() > 8 {
                all.take(8)
            } else {
                all
            }
        } else {
            seq![complaint(output, "Command failed"@)]
        },
        Err(error) => seq![command_problem("Command failed"@, error@)],
    }
}

pub fn command_preview_lines(reply: &Result<CommandOutput, String>) -> (result: Vec<String>)
    ensures
        result.deep_view() == preview_of(*reply),
{
    let mut result: Vec<String> = empty_list();
    match reply {
        Ok(output) => {
            if output.success {
                let all = printed_lines(output);
                let ghost whole = all.deep_view();
                assert(whole.len() == all@.len());
                if all.len() == 0 {
                    push_text(&mut result, "OK");
                } else {
                    let count: usize = if all.len() > 8 {
                        8
                    } else {
                        all.len()
                    };
                    assert(whole.take(0) == Seq::<Seq<char>>::empty());
                    for i in 0..count
                        invariant
                            count <= all@.len(),
                            whole == all.deep_view(),
                            result.deep_view() == whole.take(i as int),
                    {
                        push_text(&mut result, all[i].as_str());
                        assert(result.deep_view() == whole.take(i + 1));
                    }
                    assert(all@.len() <= 8 ==> whole.take(count as int) == whole);
                }
            } else {
                let line = complaint_text(output, "Command failed");
                push_text(&mut result, line.as_str());
            }
        },
        Err(error) => {
            let line = ui_command_error("Command failed", error.as_str());
            push_text(&mut result, line.as_str());
        },
    }
    result
}

/// The command that says more of something, by the key of its runtime.
pub fn preview_command(runtime_key: &str) -> (result: Option<&'static str>)
    ensures
        result.deep_view() == (if runtime_key@ == "container"@ || runtime_key@ == "apple"@
            || runtime_key@ == "apple container"@ {
            Some("container"@)
        } else if runtime_key@ == "docker"@ {
            Some("docker"@)
        } else {
            None
        }),
{
    if same(runtime_key, "container") || same(runtime_key, "apple") || same(
        runtime_key,
        "apple container",
    ) {
        Some("container")
    } else if same(runtime_key, "docker") {
        Some("docker")
    } else {
        None
    }
}

/// What is shown where more of something is asked for: `reply` is none where
/// the command is not installed.
pub open spec fn resource_preview(
    runtime_key: Seq<char>,
    reply: Option<Result<CommandOutput, String>>,
) -> Seq<Seq<char>> {
    if runtime_key == "container"@ || runtime_key == "apple"@ || runtime_key
        == "apple container"@ {
        match reply {
            Some(reply) => preview_of(reply).map_values(|line: Seq<char>| shortened(line, 96)),
            None => seq!["Command `"@ + "container"@ + "` was not found in PATH."@],
        }
    } else if runtime_key == "docker"@ {
        match reply {
            Some(reply) => preview_of(reply).map_values(|line: Seq<char>| shortened(line, 96)),
            None => seq!["Command `"@ + "docker"@ + "` was not found in PATH."@],
        }
    } else {
        seq!["Unsupported runtime for inspect preview"@]
    }
}

pub fn resource_preview_lines(
    runtime_key: &str,
    reply: Option<&Result<CommandOutput, String>>,
) -> (result: Vec<String>)
    ensures
        result.deep_view() == resource_preview(
            runtime_key@,
            match reply {
                Some(reply) => Some(*reply),
                None => None,
            },
        ),
{
    let mut result: Vec<String> = empty_list();
    match preview_command(runtime_key) {
        None => {
            push_text(&mut result, "Unsupported runtime for inspect preview");
        },
        Some(command) => match reply {
            None => {
                let line = concat3("Command `", command, "` was not found in PATH.");
                push_text(&mut result, line.as_str());
            },
            Some(reply) => {
                let all = command_preview_lines(reply);
                let ghost shown = all.deep_view().map_values(|line: Seq<char>| shortened(line, 96));
                for i in 0..all.len()
                    invariant
                        shown == all.deep_view().map_values(|line: Seq<char>| shortened(line, 96)),
                        result.deep_view() == shown.take(i as int),
                {
                    let line = short_text(all[i].as_str(), 96);
                    assert(shown[i as int] == line@);
                    push_text(&mut result, line.as_str());
                    assert(result.deep_view() == shown.take(i + 1));
                }
                assert(shown.take(shown.len() as int) == shown);
            },
        },
    }
    result
}

// ---------------------------------------------------------------------------
// Containers
// ---------------------------------------------------------------------------
/// A container in a list, or a message in its place, which has no name.
#[derive(Debug)]
pub struct RuntimeContainerRow {
    pub name: Option<String>,
    pub label: String,
    pub running: bool,
}

#[verifier::ext_equal]
pub struct ContainerRowView {
    pub name: Option<Seq<char>>,
    pub label: Seq<char>,
    pub running: bool,
}

impl DeepView for RuntimeContainerRow {
    type V = ContainerRowView;

    open spec fn deep_view(&self) -> ContainerRowView {
        ContainerRowView {
            name: self.name.deep_view(),
            label: self.label@,
            running: self.running,
        }
    }
}

pub open spec fn container_message(label: Seq<char>) -> ContainerRowView {
    ContainerRowView { name: None, label, running: false }
}

fn container_note(label: String) -> (result: RuntimeContainerRow)
    ensures
        result.deep_view() == container_message(label@),
{
    RuntimeContainerRow { name: None, label, running: false }
}

pub open spec fn says_running(state: Seq<char>) -> bool {
    lowered(state) == lowered("running"@)
}

/// A container from a row of Apple Container's list. The helper that builds
/// images has no name, so that nothing can be done to it.
pub open spec fn apple_container_row(line: Seq<char>) -> ContainerRowView {
    let parts = words_of(line);
    if parts.len() < 5 {
        container_message(shortened(line, 96))
    } else if parts[0] == "buildkit"@ {
        ContainerRowView {
            name: None,
            label: "BuildKit helper  "@ + parts[4],
            running: says_running(parts[4]),
        }
    } else {
        ContainerRowView {
            name: Some(parts[0]),
            label: shortened(parts[0], 28) + "  "@ + parts[4] + "  "@ + shortened(parts[1], 38),
            running: says_running(parts[4]),
        }
    }
}

pub fn parse_apple_container_row(line: &str) -> (result: RuntimeContainerRow)
    ensures
        result.deep_view() == apple_container_row(line@),
{
    let parts = split_whitespace(line);
    let ghost all = parts.deep_view();
    assert(all.len() == parts@.len());
    if parts.len() < 5 {
        return container_note(short_text(line, 96));
    }
    assert(all[0] == parts@[0]@ && all[1] == parts@[1]@ && all[4] == parts@[4]@);
    let id = parts[0].as_str();
    let state = parts[4].as_str();
    if same(id, "buildkit") {
        return RuntimeContainerRow {
            name: None,
            label: concat("BuildKit helper  ", state),
            running: eq_ignore_ascii_case(state, "running"),
        };
    }
    let short_id = short_text(id, 28);
    let image = short_text(parts[1].as_str(), 38);
    RuntimeContainerRow {
        name: Some(id.to_owned()),
        label: concat5(short_id.as_str(), "  ", state, "  ", image.as_str()),
        running: eq_ignore_ascii_case(state, "running"),
    }
}

/// The containers in a list; the first line is a heading.
pub open spec fn apple_rows_of(reply: Result<CommandOutput, String>) -> Seq<ContainerRowView> {
    match reply {
        Ok(output) => if output.success {
            let all = printed(output);
            if all.len() <= 1 {
                seq![container_message("No local Apple containers"@)]
            } else {
                all.skip(1).map_values(|line: Seq<char>| apple_container_row(line))
            }
        } else {
            seq![container_message(complaint(output, "container list failed"@))]
        },
        Err(error) => seq![
            container_message(command_problem("container list failed"@, error@)),
        ],
    }
}

pub fn apple_container_rows(reply: &Result<CommandOutput, String>) -> (result: Vec<
    RuntimeContainerRow,
>)
    ensures
        result.deep_view() == apple_rows_of(*reply),
{
    let mut rows: Vec<RuntimeContainerRow> = empty_list();
    match reply {
        Ok(output) => {
            if output.success {
                let all = printed_lines(output);
                let ghost whole = all.deep_view();
                assert(whole.len() == all@.len());
                if all.len() <= 1 {
                    push_deep(&mut rows, container_note("No local Apple containers".to_owned()));
                } else {
                    let ghost wanted = whole.skip(1).map_values(
                        |line: Seq<char>| apple_container_row(line),
                    );
                    let count: usize = all.len() - 1;
                    for i in 0..count
                        invariant
                            count == all@.len() - 1,
                            whole == all.deep_view(),
                            wanted == whole.skip(1).map_values(
                                |line: Seq<char>| apple_container_row(line),
                            ),
                            rows.deep_view() == wanted.take(i as int),
                    {
                        let row = parse_apple_container_row(all[i + 1].as_str());
                        assert(wanted[i as int] == row.deep_view());
                        push_deep(&mut rows, row);
                        assert(rows.deep_view() == wanted.take(i + 1));
                    }
                    assert(wanted.take(wanted.len() as int) == wanted);
                }
            } else {
                push_deep(
                    &mut rows,
                    container_note(complaint_text(output, "container list failed")),
                );
            }
        },
        Err(error) => {
            push_deep(
                &mut rows,
                container_note(ui_command_error("container list failed", error.as_str())),
            );
        },
    }
    rows
}

/// A container from a row of Docker's list, whose columns are separated by
/// tabs.
pub open spec fn docker_container_row(line: Seq<char>) -> ContainerRowView {
    let parts = split_at(line, '\t');
    if parts.len() < 4 {
        container_message(shortened(line, 96))
    } else {
        let state = trimmed(parts[1]);
        ContainerRowView {
            name: Some(trimmed(parts[0])),
            label: shortened(trimmed(parts[0]), 26) + "  "@ + shortened(trimmed(parts[2]), 32)
                + "  "@ + shortened(trimmed(parts[3]), 30),
            running: state == "running"@ || state == "restarting"@ || state == "paused"@,
        }
    }
}

pub fn format_docker_container_row(line: &str) -> (result: RuntimeContainerRow)
    ensures
        result.deep_view() == docker_container_row(line@),
{
    let parts = split(line, '\t');
    let ghost all = parts.deep_view();
    assert(all.len() == parts@.len());
    if parts.len() < 4 {
        return container_note(short_text(line, 96));
    }
    assert(all[0] == parts@[0]@ && all[1] == parts@[1]@ && all[2] == parts@[2]@ && all[3]
        == parts@[3]@);
    let name = trim(parts[0].as_str());
    let state = trim(parts[1].as_str());
    let short_name = short_text(name, 26);
    let status = short_text(trim(parts[2].as_str()), 32);
    let image = short_text(trim(parts[3].as_str()), 30);
    RuntimeContainerRow {
        name: Some(name.to_owned()),
        label: concat5(short_name.as_str(), "  ", status.as_str(), "  ", image.as_str()),
        running: same(state, "running") || same(state, "restarting") || same(state, "paused"),
    }
}

pub open spec fn docker_rows_of(reply: Option<Result<CommandOutput, String>>) -> Seq<
    ContainerRowView,
> {
    match reply {
        None => seq![container_message("docker command not found"@)],
        Some(Ok(output)) => if output.success {
            let all = printed(output);
            if all.len() == 0 {
                seq![container_message("No Docker containers to stop or delete"@)]
            } else {
                all.map_values(|line: Seq<char>| docker_container_row(line))
            }
        } else {
            seq![container_message(shown_complaint(output, "Docker container list failed"@))]
        },
        Some(Err(error)) => seq![
            container_message(command_problem("Docker container list failed"@, error@)),
        ],
    }
}

/// Docker's containers; `reply` is none where Docker is not installed.
pub fn docker_container_rows(reply: &Option<Result<CommandOutput, String>>) -> (result: Vec<
    RuntimeContainerRow,
>)
    ensures
        result.deep_view() == docker_rows_of(*reply),
{
    let mut rows: Vec<RuntimeContainerRow> = empty_list();
    match reply {
        None => {
            push_deep(&mut rows, container_note("docker command not found".to_owned()));
        },
        Some(Ok(output)) => {
            if output.success {
                let all = printed_lines(output);
                let ghost whole = all.deep_view();
                let ghost wanted = whole.map_values(|line: Seq<char>| docker_container_row(line));
                assert(whole.len() == all@.len());
                for i in 0..all.len()
                    invariant
                        whole == all.deep_view(),
                        wanted == whole.map_values(|line: Seq<char>| docker_container_row(line)),
                        rows.deep_view() == wanted.take(i as int),
                {
                    let row = format_docker_container_row(all[i].as_str());
                    assert(wanted[i as int] == row.deep_view());
                    push_deep(&mut rows, row);
                    assert(rows.deep_view() == wanted.take(i + 1));
                }
                assert(wanted.take(wanted.len() as int) == wanted);
                if all.len() == 0 {
                    assert(rows.deep_view() == Seq::<ContainerRowView>::empty());
                    push_deep(
                        &mut rows,
                        container_note("No Docker containers to stop or delete".to_owned()),
                    );
                }
            } else {
                push_deep(
                    &mut rows,
                    container_note(first_stderr_line(output, "Docker container list failed")),
                );
            }
        },
        Some(Err(error)) => {
            push_deep(
                &mut rows,
                container_note(ui_command_error("Docker container list failed", error.as_str())),
            );
        },
    }
    rows
}

/// How many containers in a list run.
pub open spec fn running_rows(rows: Seq<ContainerRowView>) -> nat
    decreases rows.len(),
{
    if rows.len() == 0 {
        0
    } else {
        running_rows(rows.drop_last()) + (if rows.last().name is Some && rows.last().running {
            1nat
        } else {
            0nat
        })
    }
}

pub fn count_running(rows: &Vec<RuntimeContainerRow>) -> (result: usize)
    ensures
        result == running_rows(rows.deep_view()),
{
    let ghost all = rows.deep_view();
    let mut count: usize = 0;
    for i in 0..rows.len()
        invariant
            all == rows.deep_view(),
            count == running_rows(all.take(i as int)),
            count <= i,
    {
        assert(all.take(i + 1).drop_last() == all.take(i as int));
        assert(all.take(i + 1).last() == rows@[i as int].deep_view());
        if rows[i].name.is_some() && rows[i].running {
            count = count + 1;
        }
    }
    assert(all.take(all.len() as int) == all);
    count
}

// ---------------------------------------------------------------------------
// Contexts of Docker
// ---------------------------------------------------------------------------
/// A context of Docker in a list, or a message in its place.
#[derive(Debug)]
pub struct DockerContextRow {
    pub name: Option<String>,
    pub label: String,
    pub current: bool,
}

#[verifier::ext_equal]
pub struct ContextRowView {
    pub name: Option<Seq<char>>,
    pub label: Seq<char>,
    pub current: bool,
}

impl DeepView for DockerContextRow {
    type V = ContextRowView;

    open spec fn deep_view(&self) -> ContextRowView {
        ContextRowView {
            name: self.name.deep_view(),
            label: self.label@,
            current: self.current,
        }
    }
}

pub open spec fn context_message(label: Seq<char>) -> ContextRowView {
    ContextRowView { name: None, label, current: false }
}

fn context_note(label: String) -> (result: DockerContextRow)
    ensures
        result.deep_view() == context_message(label@),
{
    DockerContextRow { name: None, label, current: false }
}

/// A column of a table without spaces around it, or nothing where there are
/// fewer columns.
pub open spec fn column(parts: Seq<Seq<char>>, index: int) -> Seq<char> {
    if index < parts.len() {
        trimmed(parts[index])
    } else {
        ""@
    }
}

fn column_text(parts: &Vec<String>, index: usize) -> (result: String)
    ensures
        result@ == column(parts.deep_view(), index as int),
{
    if index < parts.len() {
        assert(parts.deep_view()[index as int] == parts@[index as int]@);
        trim(parts[index].as_str()).to_owned()
    } else {
        "".to_owned()
    }
}

/// A context from a row of Docker's list, if the row has one. The current one is
/// marked.
pub open spec fn docker_context_row(line: Seq<char>) -> Option<ContextRowView> {
    let parts = split_at(line, '\t');
    let name = column(parts, 0);
    let current = column(parts, 1) == "true"@;
    let description = column(parts, 3);
    if name.len() == 0 {
        None
    } else {
        Some(
            ContextRowView {
                name: Some(name),
                label: (if current {
                    "*"@
                } else {
                    " "@
                }) + " "@ + name + "  "@ + shortened(
                    if description.len() == 0 {
                        column(parts, 2)
                    } else {
                        description
                    },
                    52,
                ),
                current,
            },
        )
    }
}

pub fn parse_docker_context_line(line: &str) -> (result: Option<DockerContextRow>)
    ensures
        result.deep_view() == docker_context_row(line@),
{
    let parts = split(line, '\t');
    let name = column_text(&parts, 0);
    if name.as_str().unicode_len() == 0 {
        return None;
    }
    let flag = column_text(&parts, 1);
    let current = same(flag.as_str(), "true");
    let endpoint = column_text(&parts, 2);
    let description = column_text(&parts, 3);
    let detail = if description.as_str().unicode_len() == 0 {
        short_text(endpoint.as_str(), 52)
    } else {
        short_text(description.as_str(), 52)
    };
    Some(
        DockerContextRow {
            label: concat5(
                if current {
                    "*"
                } else {
                    " "
                },
                " ",
                name.as_str(),
                "  ",
                detail.as_str(),
            ),
            name: Some(name),
            current,
        },
    )
}

pub open spec fn context_rows(all: Seq<Seq<char>>) -> Seq<ContextRowView>
    decreases all.len(),
{
    if all.len() == 0 {
        Seq::empty()
    } else {
        match docker_context_row(all.last()) {
            Some(row) => context_rows(all.drop_last()).push(row),
            None => context_rows(all.drop_last()),
        }
    }
}

pub open spec fn contexts_of(reply: Option<Result<CommandOutput, String>>) -> Seq<ContextRowView> {
    match reply {
        None => seq![context_message("docker command not found"@)],
        Some(Ok(output)) => if output.success {
            let rows = context_rows(printed(output));
            if rows.len() == 0 {
                seq![context_message("No Docker contexts found"@)]
            } else {
                rows
            }
        } else {
            seq![context_message(shown_complaint(output, "Docker context list failed"@))]
        },
        Some(Err(error)) => seq![
            context_message(command_problem("Docker context list failed"@, error@)),
        ],
    }
}

/// Docker's contexts; `reply` is none where Docker is not installed.
pub fn docker_context_rows(reply: &Option<Result<CommandOutput, String>>) -> (result: Vec<
    DockerContextRow,
>)
    ensures
        result.deep_view() == contexts_of(*reply),
{
    let mut rows: Vec<DockerContextRow> = empty_list();
    match reply {
        None => {
            push_deep(&mut rows, context_note("docker command not found".to_owned()));
        },
        Some(Ok(output)) => {
            if output.success {
                let all = printed_lines(output);
                let ghost whole = all.deep_view();
                for i in 0..all.len()
                    invariant
                        whole == all.deep_view(),
                        rows.deep_view() == context_rows(whole.take(i as int)),
                {
                    assert(whole.take(i + 1).drop_last() == whole.take(i as int));
                    assert(whole.take(i + 1).last() == all@[i as int]@);
                    if let Some(row) = parse_docker_context_line(all[i].as_str()) {
                        push_deep(&mut rows, row);
                    }
                }
                assert(whole.take(whole.len() as int) == whole);
                assert(rows.deep_view().len() == rows@.len());
                if rows.len() == 0 {
                    rows = empty_list();
                    push_deep(&mut rows, context_note("No Docker contexts found".to_owned()));
                }
            } else {
                push_deep(
                    &mut rows,
                    context_note(first_stderr_line(output, "Docker context list failed")),
                );
            }
        },
        Some(Err(error)) => {
            push_deep(
                &mut rows,
                context_note(ui_command_error("Docker context list failed", error.as_str())),
            );
        },
    }
    rows
}

/// The name of the current context.
pub open spec fn current_context(rows: Seq<ContextRowView>) -> Option<Seq<char>>
    decreases rows.len(),
{
    if rows.len() == 0 {
        None
    } else if rows.first().current {
        rows.first().name
    } else {
        current_context(rows.drop_first())
    }
}

pub fn active_context(rows: &Vec<DockerContextRow>) -> (result: Option<String>)
    ensures
        result.deep_view() == current_context(rows.deep_view()),
{
    let ghost all = rows.deep_view();
    assert(all.skip(0) == all);
    for i in 0..rows.len()
        invariant
            all == rows.deep_view(),
            current_context(all) == current_context(all.skip(i as int)),
    {
        assert(all.skip(i as int).drop_first() == all.skip(i + 1));
        assert(all.skip(i as int).first() == rows@[i as int].deep_view());
        if rows[i].current {
            return match &rows[i].name {
                Some(name) => Some(name.clone()),
                None => None,
            };
        }
    }
    None
}

// ---------------------------------------------------------------------------
// Machines of OrbStack
// ---------------------------------------------------------------------------
/// A machine of OrbStack in a list, or a message in its place.
#[derive(Debug)]
pub struct OrbStackMachineRow {
    pub name: Option<String>,
    pub label: String,
    pub detail: String,
    pub running: bool,
}

#[verifier::ext_equal]
pub struct MachineRowView {
    pub name: Option<Seq<char>>,
    pub label: Seq<char>,
    pub detail: Seq<char>,
    pub running: bool,
}

impl DeepView for OrbStackMachineRow {
    type V = MachineRowView;

    open spec fn deep_view(&self) -> MachineRowView {
        MachineRowView {
            name: self.name.deep_view(),
            label: self.label@,
            detail: self.detail@,
            running: self.running,
        }
    }
}

pub open spec fn machine_message(label: Seq<char>, detail: Seq<char>) -> MachineRowView {
    MachineRowView { name: None, label, detail, running: false }
}

fn machine_note(label: &str, detail: &str) -> (result: OrbStackMachineRow)
    ensures
        result.deep_view() == machine_message(label@, detail@),
{
    OrbStackMachineRow {
        name: None,
        label: label.to_owned(),
        detail: detail.to_owned(),
        running: false,
    }
}

/// The text under a key of the value under another.
pub open spec fn nested_text(
    value: JsonView,
    outer: Seq<char>,
    inner: Seq<char>,
    other: Seq<char>,
) -> Seq<char> {
    match value.field(outer) {
        Some(inside) => match inside.text_field(inner) {
            Some(text) => text,
            None => other,
        },
        None => other,
    }
}

fn nested_str(value: &Json, outer: &str, inner: &str, other: &str) -> (result: String)
    ensures
        result@ == nested_text(value.deep_view(), outer@, inner@, other@),
{
    match value.get(outer) {
        Some(inside) => match inside.get_str(inner) {
            Some(text) => text.to_owned(),
            None => other.to_owned(),
        },
        None => other.to_owned(),
    }
}

/// Texts with a separator between those that are not empty.
pub open spec fn joined_filled(parts: Seq<Seq<char>>, separator: Seq<char>) -> Seq<char> {
    joined(without_empty(parts), separator)
}

/// A machine from an entry of OrbStack's list, if the entry has a name.
pub open spec fn machine_row(value: JsonView) -> Option<MachineRowView> {
    match value.text_field("name"@) {
        Some(name) => {
            let state = match value.text_field("state"@) {
                Some(state) => state,
                None => "unknown"@,
            };
            let image = joined_filled(
                seq![
                    nested_text(value, "image"@, "distro"@, "Linux"@),
                    nested_text(value, "image"@, "version"@, ""@),
                ],
                " "@,
            );
            Some(
                MachineRowView {
                    name: Some(name),
                    label: name,
                    detail: joined_filled(
                        seq![state, image, nested_text(value, "image"@, "arch"@, ""@)],
                        " · "@,
                    ),
                    running: says_running(state),
                },
            )
        },
        None => None,
    }
}

fn machine_of(value: &Json) -> (result: Option<OrbStackMachineRow>)
    ensures
        result.deep_view() == machine_row(value.deep_view()),
{
    let name = match value.get_str("name") {
        Some(name) => name.to_owned(),
        None => return None,
    };
    let state = match value.get_str("state") {
        Some(state) => state.to_owned(),
        None => "unknown".to_owned(),
    };
    let distro = nested_str(value, "image", "distro", "Linux");
    let version = nested_str(value, "image", "version", "");
    let arch = nested_str(value, "image", "arch", "");
    let mut parts: Vec<String> = empty_list();
    push_text(&mut parts, distro.as_str());
    push_text(&mut parts, version.as_str());
    assert(parts.deep_view() == seq![distro@, version@]);
    let kept = drop_empty(parts);
    let image = join(&kept, " ");
    let mut words: Vec<String> = empty_list();
    push_text(&mut words, state.as_str());
    push_text(&mut words, image.as_str());
    push_text(&mut words, arch.as_str());
    assert(words.deep_view() == seq![state@, image@, arch@]);
    let filled = drop_empty(words);
    let detail = join(&filled, " · ");
    Some(
        OrbStackMachineRow {
            label: name.clone(),
            name: Some(name),
            detail,
            running: eq_ignore_ascii_case(state.as_str(), "running"),
        },
    )
}

pub open spec fn machine_rows(values: Seq<JsonView>) -> Seq<MachineRowView>
    decreases values.len(),
{
    if values.len() == 0 {
        Seq::empty()
    } else {
        match machine_row(values.last()) {
            Some(row) => machine_rows(values.drop_last()).push(row),
            None => machine_rows(values.drop_last()),
        }
    }
}

/// The machines among the entries of a list.
pub fn machines_in(values: &Vec<Json>) -> (result: Vec<OrbStackMachineRow>)
    ensures
        result.deep_view() == machine_rows(values.deep_view()),
{
    let ghost all = values.deep_view();
    let mut rows: Vec<OrbStackMachineRow> = empty_list();
    for i in 0..values.len()
        invariant
            all == values.deep_view(),
            rows.deep_view() == machine_rows(all.take(i as int)),
    {
        assert(all.take(i + 1).drop_last() == all.take(i as int));
        if let Some(row) = machine_of(&values[i]) {
            push_deep(&mut rows, row);
        }
    }
    assert(all.take(all.len() as int) == all);
    rows
}

pub open spec fn parsed_machines(text: Seq<char>) -> Result<Seq<MachineRowView>, Seq<char>> {
    match parsed_array(text) {
        Ok(values) => Ok(machine_rows(values)),
        Err(error) => Err("Invalid OrbStack JSON: "@ + error),
    }
}

pub fn parse_orbstack_machine_rows(json: &str) -> (result: Result<Vec<OrbStackMachineRow>, String>)
    ensures
        outcome(result) == parsed_machines(json@),
{
    match parse_array(json) {
        Ok(values) => Ok(machines_in(&values)),
        Err(error) => Err(concat("Invalid OrbStack JSON: ", error.as_str())),
    }
}

/// Whether the status of OrbStack says that it runs.
pub open spec fn orbstack_running(reply: Result<CommandOutput, String>) -> bool {
    match reply {
        Ok(output) => output.success && says_running(trimmed(lossy_text(output.stdout@))),
        Err(_) => false,
    }
}

pub fn orbstack_is_running(reply: &Result<CommandOutput, String>) -> (result: bool)
    ensures
        result == orbstack_running(*reply),
{
    match reply {
        Ok(output) => {
            let text = lossy(output.stdout.as_slice());
            output.success && eq_ignore_ascii_case(trim(text.as_str()), "running")
        },
        Err(_) => false,
    }
}

pub open spec fn orbstack_rows(running: bool, reply: Result<CommandOutput, String>) -> Seq<
    MachineRowView,
> {
    if !running {
        seq![
            machine_message(
                "OrbStack is stopped"@,
                "Start OrbStack to inspect its Linux machines."@,
            ),
        ]
    } else {
        match reply {
            Ok(output) => if output.success {
                match parsed_machines(lossy_text(output.stdout@)) {
                    Ok(rows) => if rows.len() > 0 {
                        rows
                    } else {
                        seq![
                            machine_message(
                                "No OrbStack machines"@,
                                "Create or import a machine from OrbStack first."@,
                            ),
                        ]
                    },
                    Err(error) => seq![
                        machine_message("Machine list could not be parsed"@, error),
                    ],
                }
            } else {
                seq![
                    machine_message(
                        "Machine list failed"@,
                        shown_complaint(output, "OrbStack returned an error"@),
                    ),
                ]
            },
            Err(error) => if error@ == loading() {
                seq![machine_message(loading(), "Checking OrbStack in the background."@)]
            } else {
                seq![machine_message("Machine list failed"@, error@)]
            },
        }
    }
}

/// OrbStack's machines, which only a running OrbStack lists.
pub fn orbstack_machine_rows(running: bool, reply: &Result<CommandOutput, String>) -> (result: Vec<
    OrbStackMachineRow,
>)
    ensures
        result.deep_view() == orbstack_rows(running, *reply),
{
    let mut rows: Vec<OrbStackMachineRow> = empty_list();
    if !running {
        push_deep(
            &mut rows,
            machine_note("OrbStack is stopped", "Start OrbStack to inspect its Linux machines."),
        );
        return rows;
    }
    match reply {
        Ok(output) => {
            if output.success {
                let text = lossy(output.stdout.as_slice());
                match parse_orbstack_machine_rows(text.as_str()) {
                    Ok(found) => {
                        assert(found.deep_view().len() == found@.len());
                        if found.len() > 0 {
                            return found;
                        }
                        push_deep(
                            &mut rows,
                            machine_note(
                                "No OrbStack machines",
                                "Create or import a machine from OrbStack first.",
                            ),
                        );
                    },
                    Err(error) => {
                        push_deep(
                            &mut rows,
                            machine_note("Machine list could not be parsed", error.as_str()),
                        );
                    },
                }
            } else {
                let detail = first_stderr_line(output, "OrbStack returned an error");
                push_deep(&mut rows, machine_note("Machine list failed", detail.as_str()));
            }
        },
        Err(error) => {
            if same(error.as_str(), loading_text()) {
                push_deep(
                    &mut rows,
                    machine_note(loading_text(), "Checking OrbStack in the background."),
                );
            } else {
                push_deep(&mut rows, machine_note("Machine list failed", error.as_str()));
            }
        },
    }
    rows
}

pub open spec fn running_machines(rows: Seq<MachineRowView>) -> nat
    decreases rows.len(),
{
    if rows.len() == 0 {
        0
    } else {
        running_machines(rows.drop_last()) + (if rows.last().name is Some && rows.last().running {
            1nat
        } else {
            0nat
        })
    }
}

pub fn count_running_machines(rows: &Vec<OrbStackMachineRow>) -> (result: usize)
    ensures
        result == running_machines(rows.deep_view()),
{
    let ghost all = rows.deep_view();
    let mut count: usize = 0;
    for i in 0..rows.len()
        invariant
            all == rows.deep_view(),
            count == running_machines(all.take(i as int)),
            count <= i,
    {
        assert(all.take(i + 1).drop_last() == all.take(i as int));
        assert(all.take(i + 1).last() == rows@[i as int].deep_view());
        if rows[i].name.is_some() && rows[i].running {
            count = count + 1;
        }
    }
    assert(all.take(all.len() as int) == all);
    count
}

} // verus!
