//! What the lists of containers, machines and contexts say.
use vstd::prelude::*;

use crate::inventory::{
    apple_container_row, apple_rows_of, command_problem, context_rows, current_context,
    docker_container_row, docker_context_row, docker_rows_of, machine_row, machine_rows,
    orbstack_rows, parsed_machines, preview_of, printed, running_machines, running_rows, written,
    ContainerRowView, ContextRowView, MachineRowView,
};
use crate::json::JsonView;
use crate::session_launch::CommandOutput;
use crate::splitting::{is_whole, lemma_pieces_of_joined};
use crate::storage_laws::is_column;
use crate::text::{is_blank, is_char, joined, lossy_text, lowered, shortened, split_at, words_of};
use crate::text_laws::law_trimmed_is_kept;

verus! {

// ---------------------------------------------------------------------------
// Containers
// ---------------------------------------------------------------------------
/// A row of Apple Container's list is of the container that its first word
/// names, which runs where its fifth word says so. The builder's container and
/// a row that cannot be read are of none.
pub proof fn law_apple_row_names_its_container(line: Seq<char>)
    ensures
        words_of(line).len() >= 5 && words_of(line)[0] != "buildkit"@ ==> apple_container_row(
            line,
        ).name == Some(words_of(line)[0]) && (apple_container_row(line).running <==> lowered(
            words_of(line)[4],
        ) == lowered("running"@)),
        words_of(line).len() >= 5 && words_of(line)[0] == "buildkit"@ ==> apple_container_row(
            line,
        ).name is None,
        words_of(line).len() < 5 ==> apple_container_row(line).name is None && !apple_container_row(
            line,
        ).running,
{
}

/// A row of Docker's list is of the container that its first column names, which
/// counts as running while it runs, restarts or is paused.
pub proof fn law_docker_row_names_its_container(
    name: Seq<char>,
    state: Seq<char>,
    image: Seq<char>,
    status: Seq<char>,
)
    requires
        is_column(name),
        is_column(state),
        is_column(image),
        is_column(status),
    ensures
        ({
            let row = docker_container_row(joined(seq![name, state, image, status], seq!['\t']));
            &&& row.name == Some(name)
            &&& row.running <==> state == "running"@ || state == "restarting"@ || state
                == "paused"@
            &&& row.label == shortened(name, 26) + "  "@ + shortened(image, 32) + "  "@ + shortened(
                status,
                30,
            )
        }),
{
    let parts = seq![name, state, image, status];
    assert forall|k: int| 0 <= k < parts.len() implies is_whole(
        #[trigger] parts[k],
        is_char('\t'),
    ) by {
        assert forall|j: int| 0 <= j < parts[k].len() implies !is_char('\t')(
            #[trigger] parts[k][j],
        ) by {
            assert(parts[k].contains(parts[k][j]));
        }
    }
    lemma_pieces_of_joined(parts, '\t', is_char('\t'));
    law_trimmed_is_kept(name);
    law_trimmed_is_kept(state);
    law_trimmed_is_kept(image);
    law_trimmed_is_kept(status);
    assert(split_at(joined(parts, seq!['\t']), '\t') == parts);
}

/// Every container of a list that came has its row, in the list's order, the
/// heading of Apple's aside; else there is one row, of no container.
pub proof fn law_containers_are_listed(
    reply: Result<CommandOutput, String>,
    found: Option<Result<CommandOutput, String>>,
    i: int,
)
    ensures
        match reply {
            Ok(output) if output.success && printed(output).len() > 1 => {
                &&& apple_rows_of(reply).len() == printed(output).len() - 1
                &&& 0 <= i < printed(output).len() - 1 ==> apple_rows_of(reply)[i]
                    == apple_container_row(printed(output)[i + 1])
            },
            _ => apple_rows_of(reply).len() == 1 && apple_rows_of(reply)[0].name is None
                && !apple_rows_of(reply)[0].running,
        },
        match found {
            Some(Ok(output)) if output.success && printed(output).len() > 0 => {
                &&& docker_rows_of(found).len() == printed(output).len()
                &&& 0 <= i < printed(output).len() ==> docker_rows_of(found)[i]
                    == docker_container_row(printed(output)[i])
            },
            _ => docker_rows_of(found).len() == 1 && docker_rows_of(found)[0].name is None
                && !docker_rows_of(found)[0].running,
        },
{
}

/// What runs is counted: in two lists together it is what runs in the one and
/// what runs in the other, and a row counts where it names what runs.
pub proof fn law_running_is_counted(
    a: Seq<ContainerRowView>,
    b: Seq<ContainerRowView>,
    row: ContainerRowView,
)
    ensures
        running_rows(a + b) == running_rows(a) + running_rows(b),
        running_rows(seq![row]) == (if row.name is Some && row.running {
            1nat
        } else {
            0nat
        }),
    decreases b.len(),
{
    reveal_with_fuel(running_rows, 2);
    assert(seq![row].drop_last().len() == 0);
    if b.len() == 0 {
        assert(a + b == a);
    } else {
        assert((a + b).drop_last() == a + b.drop_last());
        law_running_is_counted(a, b.drop_last(), row);
    }
}

// ---------------------------------------------------------------------------
// Machines
// ---------------------------------------------------------------------------
/// A machine goes by its name, shows its state first, and runs where its state
/// says so; an entry without a name is none.
pub proof fn law_machine_is_read(value: JsonView)
    ensures
        machine_row(value) is Some <==> value.text_field("name"@) is Some,
        machine_row(value) matches Some(row) ==> row.name == value.text_field("name"@) && Some(
            row.label,
        ) == value.text_field("name"@) && (row.running <==> (value.text_field("state"@) matches Some(
            state,
        ) && lowered(state) == lowered("running"@))),
{
    reveal_strlit("unknown");
    reveal_strlit("running");
    let unknown = lowered("unknown"@);
    let running = lowered("running"@);
    assert(unknown[0] == 'u');
    assert(running[0] == 'r');
}

/// The machines of two lists one behind the other are those of the first and
/// then those of the second.
pub proof fn law_machines_are_listed_in_order(a: Seq<JsonView>, b: Seq<JsonView>, value: JsonView)
    ensures
        machine_rows(a + b) == machine_rows(a) + machine_rows(b),
        machine_rows(seq![value]) == (match machine_row(value) {
            Some(row) => seq![row],
            None => seq![],
        }),
    decreases b.len(),
{
    reveal_with_fuel(machine_rows, 2);
    assert(seq![value].drop_last() == Seq::<JsonView>::empty());
    assert(machine_rows(seq![value]) =~= (match machine_row(value) {
        Some(row) => seq![row],
        None => seq![],
    }));
    if b.len() == 0 {
        assert(a + b == a);
        assert(machine_rows(a) + machine_rows(b) == machine_rows(a));
    } else {
        assert((a + b).drop_last() == a + b.drop_last());
        law_machines_are_listed_in_order(a, b.drop_last(), value);
        assert(machine_rows(a + b) =~= machine_rows(a) + machine_rows(b));
    }
}

/// The machines that run are counted, list by list.
pub proof fn law_running_machines_are_counted(
    a: Seq<MachineRowView>,
    b: Seq<MachineRowView>,
    row: MachineRowView,
)
    ensures
        running_machines(a + b) == running_machines(a) + running_machines(b),
        running_machines(seq![row]) == (if row.name is Some && row.running {
            1nat
        } else {
            0nat
        }),
    decreases b.len(),
{
    reveal_with_fuel(running_machines, 2);
    assert(seq![row].drop_last().len() == 0);
    if b.len() == 0 {
        assert(a + b == a);
    } else {
        assert((a + b).drop_last() == a + b.drop_last());
        law_running_machines_are_counted(a, b.drop_last(), row);
    }
}

/// The machines of an OrbStack that runs are shown where its list can be read
/// and holds any; else there is one row, of no machine.
pub proof fn law_machines_need_orbstack(running: bool, reply: Result<CommandOutput, String>)
    ensures
        match reply {
            Ok(output) if running && output.success && (parsed_machines(
                lossy_text(output.stdout@),
            ) matches Ok(rows) && rows.len() > 0) => Ok::<Seq<MachineRowView>, Seq<char>>(
                orbstack_rows(running, reply),
            ) == parsed_machines(lossy_text(output.stdout@)),
            _ => orbstack_rows(running, reply).len() == 1 && orbstack_rows(running, reply)[0].name
                is None && !orbstack_rows(running, reply)[0].running,
        },
{
}

// ---------------------------------------------------------------------------
// Contexts
// ---------------------------------------------------------------------------
/// A context goes by its first column, and is the current one where its second
/// says so.
pub proof fn law_context_is_read(
    name: Seq<char>,
    current: Seq<char>,
    endpoint: Seq<char>,
    description: Seq<char>,
)
    requires
        is_column(name),
        is_column(current),
        is_column(endpoint),
        is_column(description),
    ensures
        ({
            let row = docker_context_row(
                joined(seq![name, current, endpoint, description], seq!['\t']),
            );
            &&& row is Some
            &&& row->0.name == Some(name)
            &&& row->0.current <==> current == "true"@
            &&& shortened(description, 52).is_suffix_of(row->0.label)
        }),
{
    let parts = seq![name, current, endpoint, description];
    assert forall|k: int| 0 <= k < parts.len() implies is_whole(
        #[trigger] parts[k],
        is_char('\t'),
    ) by {
        assert forall|j: int| 0 <= j < parts[k].len() implies !is_char('\t')(
            #[trigger] parts[k][j],
        ) by {
            assert(parts[k].contains(parts[k][j]));
        }
    }
    lemma_pieces_of_joined(parts, '\t', is_char('\t'));
    law_trimmed_is_kept(name);
    law_trimmed_is_kept(current);
    law_trimmed_is_kept(endpoint);
    law_trimmed_is_kept(description);
    let line = joined(parts, seq!['\t']);
    assert(split_at(line, '\t') == parts);
    let label = docker_context_row(line)->0.label;
    let shown = shortened(description, 52);
    assert(label.skip(label.len() - shown.len()) =~= shown);
}

/// The contexts of two lists one behind the other are those of the first and
/// then those of the second.
pub proof fn law_contexts_are_listed_in_order(a: Seq<Seq<char>>, b: Seq<Seq<char>>, line: Seq<char>)
    ensures
        context_rows(a + b) == context_rows(a) + context_rows(b),
        context_rows(seq![line]) == (match docker_context_row(line) {
            Some(row) => seq![row],
            None => seq![],
        }),
    decreases b.len(),
{
    reveal_with_fuel(context_rows, 2);
    assert(seq![line].drop_last() == Seq::<Seq<char>>::empty());
    assert(context_rows(seq![line]) =~= (match docker_context_row(line) {
        Some(row) => seq![row],
        None => seq![],
    }));
    if b.len() == 0 {
        assert(a + b == a);
        assert(context_rows(a) + context_rows(b) == context_rows(a));
    } else {
        assert((a + b).drop_last() == a + b.drop_last());
        law_contexts_are_listed_in_order(a, b.drop_last(), line);
        assert(context_rows(a + b) =~= context_rows(a) + context_rows(b));
    }
}

/// The current context is the first that is marked as current.
pub proof fn law_current_context_is_marked(rows: Seq<ContextRowView>, i: int)
    requires
        0 <= i < rows.len(),
        rows[i].current,
        forall|k: int| 0 <= k < i ==> !(#[trigger] rows[k]).current,
    ensures
        current_context(rows) == rows[i].name,
    decreases rows.len(),
{
    if i > 0 {
        assert(!rows[0].current);
        let rest = rows.drop_first();
        assert forall|k: int| 0 <= k < i - 1 implies !(#[trigger] rest[k]).current by {
            assert(rest[k] == rows[k + 1]);
        }
        law_current_context_is_marked(rest, i - 1);
    }
}

/// Where no context is marked, none is current.
pub proof fn law_unmarked_is_not_current(rows: Seq<ContextRowView>)
    requires
        forall|k: int| 0 <= k < rows.len() ==> !(#[trigger] rows[k]).current,
    ensures
        current_context(rows) is None,
    decreases rows.len(),
{
    if rows.len() > 0 {
        assert(!rows[0].current);
        let rest = rows.drop_first();
        assert forall|k: int| 0 <= k < rest.len() implies !(#[trigger] rest[k]).current by {
            assert(rest[k] == rows[k + 1]);
        }
        law_unmarked_is_not_current(rest);
    }
}

// ---------------------------------------------------------------------------
// What commands print
// ---------------------------------------------------------------------------
/// Lines that are blank are left out, and the others stay in their order.
pub proof fn law_blank_lines_are_left_out(a: Seq<Seq<char>>, b: Seq<Seq<char>>, line: Seq<char>)
    ensures
        written(a + b) == written(a) + written(b),
        written(seq![line]) == (if is_blank(line) {
            seq![]
        } else {
            seq![line]
        }),
    decreases b.len(),
{
    reveal_with_fuel(written, 2);
    assert(seq![line].drop_last() == Seq::<Seq<char>>::empty());
    assert(written(seq![line]) =~= (if is_blank(line) {
        seq![]
    } else {
        seq![line]
    }));
    if b.len() == 0 {
        assert(a + b == a);
        assert(written(a) + written(b) == written(a));
    } else {
        assert((a + b).drop_last() == a + b.drop_last());
        law_blank_lines_are_left_out(a, b.drop_last(), line);
        assert(written(a + b) =~= written(a) + written(b));
    }
}

/// A preview shows the first lines that a command printed, eight at most, or
/// says what happened in one line.
pub proof fn law_preview_is_short(reply: Result<CommandOutput, String>)
    ensures
        1 <= preview_of(reply).len() <= 8,
        match reply {
            Ok(output) if output.success && printed(output).len() > 0 => preview_of(
                reply,
            ).is_prefix_of(printed(output)) && (printed(output).len() <= 8 ==> preview_of(reply)
                == printed(output)),
            _ => preview_of(reply).len() == 1,
        },
{
    if reply is Ok && reply->Ok_0.success && printed(reply->Ok_0).len() > 0 {
        let all = printed(reply->Ok_0);
        let shown = preview_of(reply);
        assert(shown =~= all.take(shown.len() as int));
    }
}

/// A problem is told with what it is a problem of; while an answer is awaited,
/// only that is said.
pub proof fn law_problem_is_told(prefix: Seq<char>, error: Seq<char>)
    ensures
        error != "Loading runtime data..."@ ==> command_problem(prefix, error) == prefix + ": "@
            + error,
        error == "Loading runtime data..."@ ==> command_problem(prefix, error) == error,
{
}

} // verus!
