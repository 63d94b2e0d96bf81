//! How versions, states and answers of the runtimes are judged.
use vstd::prelude::*;

use crate::application_model::RuntimeStatus;
use crate::container_mode::RuntimeStateView;
use crate::inventory::{apple_rows_of, docker_rows_of, running_rows};
use crate::json::JsonView;
use crate::profiles::{counted, NAV_APPLE_CONTAINER, NAV_ORBSTACK};
use crate::runtimes::{
    apple_status, command_key, compatibility_of, compatibility_summary, docker_status,
    first_version, is_due, is_stale, is_version, is_version_break, is_version_char, orbstack_status,
    overview_of_page, reaches, shown_status, version_end, version_in, version_line, version_numbers,
    version_start, RuntimeReplies, UiCommandCacheEntry,
};
use crate::session_launch::CommandOutput;
use crate::splitting::{is_whole, lemma_pieces_concat, lemma_pieces_of_joined, lemma_pieces_of_whole};
use crate::text::{
    decimal, is_char, is_digit, is_space, joined, lemma_pieces_nonempty, lossy_text, lowered,
    occurs, pieces, split_at, trimmed,
};
use crate::text_laws::{law_numbers_are_read_back, law_written_number_is_parsed};

verus! {

// ---------------------------------------------------------------------------
// Versions
// ---------------------------------------------------------------------------
proof fn lemma_first_version_joined(a: Seq<Seq<char>>, b: Seq<Seq<char>>)
    ensures
        first_version(a + b) == (if first_version(a) is Some {
            first_version(a)
        } else {
            first_version(b)
        }),
    decreases a.len(),
{
    if a.len() == 0 {
        assert(a + b == b);
    } else {
        assert((a + b).first() == a.first());
        assert((a + b).drop_first() == a.drop_first() + b);
        lemma_first_version_joined(a.drop_first(), b);
    }
}

/// The version of a text is the first that it holds: that of what stands before
/// a space or a bracket, else that of what stands behind it.
pub proof fn law_first_version_is_found(a: Seq<char>, between: char, b: Seq<char>)
    requires
        is_space(between) || between == '(',
    ensures
        version_in(a.push(between) + b) == (if version_in(a) is Some {
            version_in(a)
        } else {
            version_in(b)
        }),
{
    let breaks = is_version_break();
    let first = pieces(a, breaks);
    let second = pieces(b, breaks);
    lemma_pieces_nonempty(a, breaks);
    lemma_pieces_nonempty(b, breaks);
    lemma_pieces_concat(a.push(between), b, breaks);
    assert(a.push(between).drop_last() == a);
    let ended = pieces(a.push(between), breaks);
    assert(ended == first.push(Seq::<char>::empty()));
    assert(ended.drop_last() == first);
    assert(ended.last() + second[0] == second[0]);
    assert(pieces(a.push(between) + b, breaks) == first + second) by {
        assert(first.push(second[0]) + second.drop_first() == first + second);
    }
    lemma_first_version_joined(first, second);
}

/// Three numbers with points between them, as a version is written.
pub open spec fn written_version(major: nat, minor: nat, patch: nat) -> Seq<char> {
    joined(seq![decimal(major), decimal(minor), decimal(patch)], seq!['.'])
}

proof fn lemma_digits_are_whole(value: nat)
    ensures
        is_whole(decimal(value), is_char('.')),
        decimal(value).len() > 0,
        forall|i: int| 0 <= i < decimal(value).len() ==> is_digit(#[trigger] decimal(value)[i]),
{
    law_numbers_are_read_back(value);
    assert forall|i: int| 0 <= i < decimal(value).len() implies !is_char('.')(
        #[trigger] decimal(value)[i],
    ) by {
        assert(is_digit(decimal(value)[i]));
    }
}

proof fn lemma_version_parts(major: nat, minor: nat, patch: nat)
    ensures
        split_at(written_version(major, minor, patch), '.') == seq![
            decimal(major),
            decimal(minor),
            decimal(patch),
        ],
        written_version(major, minor, patch) == decimal(major) + seq!['.'] + decimal(minor)
            + seq!['.'] + decimal(patch),
{
    let parts = seq![decimal(major), decimal(minor), decimal(patch)];
    lemma_digits_are_whole(major);
    lemma_digits_are_whole(minor);
    lemma_digits_are_whole(patch);
    assert forall|k: int| 0 <= k < parts.len() implies is_whole(
        #[trigger] parts[k],
        is_char('.'),
    ) by {}
    lemma_pieces_of_joined(parts, '.', is_char('.'));
    reveal_with_fuel(joined, 3);
    assert(parts.drop_last() == seq![decimal(major), decimal(minor)]);
    assert(parts.drop_last().drop_last() == seq![decimal(major)]);
}

/// A version that stands alone is found as it is written, with or without a
/// letter before it.
pub proof fn law_written_version_is_found(major: nat, minor: nat, patch: nat)
    ensures
        version_in(written_version(major, minor, patch)) == Some(
            written_version(major, minor, patch),
        ),
        version_in(seq!['v'] + written_version(major, minor, patch)) == Some(
            written_version(major, minor, patch),
        ),
{
    let text = written_version(major, minor, patch);
    lemma_version_parts(major, minor, patch);
    lemma_digits_are_whole(major);
    lemma_digits_are_whole(minor);
    lemma_digits_are_whole(patch);
    law_numbers_are_read_back(major);
    law_numbers_are_read_back(minor);
    law_numbers_are_read_back(patch);
    let breaks = is_version_break();
    assert forall|i: int| 0 <= i < text.len() implies is_version_char(#[trigger] text[i])
        && !breaks(text[i]) by {
        let a = decimal(major).len();
        let b = decimal(minor).len();
        if i < a {
            assert(text[i] == decimal(major)[i]);
        } else if i > a && i <= a + b {
            assert(text[i] == decimal(minor)[i - a - 1]);
        } else if i > a + b + 1 {
            assert(text[i] == decimal(patch)[i - a - b - 2]);
        }
    }
    let parts = split_at(text, '.');
    assert(is_version(text)) by {
        assert forall|i: int| 0 <= i < parts.len() implies (#[trigger] parts[i]).len() > 0
            && crate::text::all_digits(parts[i]) by {}
    }
    assert(is_whole(text, breaks));
    lemma_pieces_of_whole(text, breaks);
    assert(is_version_char(text[0]));
    assert(is_version_char(text[text.len() - 1]));
    assert(version_start(text) == text);
    assert(version_end(text) == text);
    let lettered = seq!['v'] + text;
    assert forall|i: int| 0 <= i < lettered.len() implies !breaks(#[trigger] lettered[i]) by {
        if i > 0 {
            assert(lettered[i] == text[i - 1]);
        }
    }
    assert(is_whole(lettered, breaks));
    lemma_pieces_of_whole(lettered, breaks);
    assert(lettered.drop_first() == text);
    assert(version_start(lettered) == text) by {
        reveal_with_fuel(version_start, 2);
    }
    assert(seq![text].first() == text);
    assert(seq![lettered].first() == lettered);
}

/// A version reaches another just where its first number is greater, or where
/// that is the same and the second is greater, or where both are the same and
/// the third is no smaller.
pub proof fn law_versions_are_compared(
    major: u64,
    minor: u64,
    patch: u64,
    minimum: (u64, u64, u64),
)
    ensures
        reaches(written_version(major as nat, minor as nat, patch as nat), minimum) <==> major
            > minimum.0 || (major == minimum.0 && minor > minimum.1) || (major == minimum.0 && minor
            == minimum.1 && patch >= minimum.2),
{
    lemma_version_parts(major as nat, minor as nat, patch as nat);
    law_written_number_is_parsed(major as nat, u64::MAX as nat);
    law_written_number_is_parsed(minor as nat, u64::MAX as nat);
    law_written_number_is_parsed(patch as nat, u64::MAX as nat);
    let parts = seq![decimal(major as nat), decimal(minor as nat), decimal(patch as nat)];
    let two = seq![decimal(major as nat), decimal(minor as nat)];
    let one = seq![decimal(major as nat)];
    assert(parts.drop_last() == two);
    assert(two.drop_last() == one);
    assert(one.drop_last() == Seq::<Seq<char>>::empty());
    reveal_with_fuel(version_numbers, 4);
    assert(version_numbers(one) =~= seq![major as nat]);
    assert(version_numbers(two) =~= seq![major as nat, minor as nat]);
    assert(version_numbers(parts) =~= seq![major as nat, minor as nat, patch as nat]);
}

/// Apple's runtime is called compatible just where its two parts have the same
/// version as far as both are known, where the version is not one with known
/// flaws, where it can publish sockets, and where its service runs.
pub proof fn law_compatible_means_ready(
    cli: Seq<char>,
    api: Seq<char>,
    status: Seq<char>,
    publish_socket: bool,
)
    ensures
        compatibility_summary(cli, api, status, publish_socket) == "Compatible with Cocoa-Way"@
            <==> (cli == "unknown"@ || api == "unknown"@ || cli == api) && (cli == "unknown"@
            || reaches(cli, (1, 3, 1))) && publish_socket && status == "running"@,
        cli != "unknown"@ && api != "unknown"@ && cli != api ==> compatibility_summary(
            cli,
            api,
            status,
            publish_socket,
        ) == "Client/API version mismatch"@,
{
    reveal_strlit("Client/API version mismatch");
    reveal_strlit("Compatible; security update strongly recommended");
    reveal_strlit("Legacy transport fallback required");
    reveal_strlit("Installed; management service is not running");
    reveal_strlit("Compatible with Cocoa-Way");
    assert("Client/API version mismatch"@[1] == 'l' && "Compatible with Cocoa-Way"@[1] == 'o'
        && "Legacy transport fallback required"@[1] == 'e'
        && "Installed; management service is not running"@[1] == 'n');
    assert("Compatible; security update strongly recommended"@[10] == ';'
        && "Compatible with Cocoa-Way"@[10] == ' ');
}

/// The judgement of Apple's runtime holds what its answers say.
pub proof fn law_judgement_holds_the_answers(
    version: Seq<char>,
    status: JsonView,
    publish_socket: bool,
    help: Seq<char>,
    word: Seq<char>,
)
    ensures
        ({
            let judged = compatibility_of(version, Some(status), publish_socket, help);
            &&& version_in(version) matches Some(found) ==> judged.cli_version == found
            &&& version_in(version) is None ==> judged.cli_version == "unknown"@
            &&& status.text_field("status"@) == Some(word) ==> judged.system_status == word
            &&& status.text_field("apiServerVersion"@) == Some(word) && version_in(word) is Some
                ==> judged.api_version == version_in(word)->0
            &&& judged.publish_socket == publish_socket
            &&& judged.stats_json <==> occurs(help, "--format"@) && occurs(help, "--no-stream"@)
        }),
        compatibility_of(version, None, publish_socket, help).system_status == "unavailable"@,
        compatibility_of(version, None, publish_socket, help).api_version == "unknown"@,
{
}

// ---------------------------------------------------------------------------
// States
// ---------------------------------------------------------------------------
/// Docker is ready where it answers, unavailable where it refuses, and failed
/// where it could not be asked; while it is asked, that is said.
pub proof fn law_docker_state_is_read(reply: Result<CommandOutput, String>)
    ensures
        match reply {
            Ok(output) => docker_status(reply).0 == (if output.success {
                RuntimeStatus::Ready
            } else {
                RuntimeStatus::Unavailable
            }),
            Err(error) => docker_status(reply).0 == (if error@ == "Loading runtime data..."@ {
                RuntimeStatus::Degraded
            } else {
                RuntimeStatus::Failed
            }),
        },
{
}

/// OrbStack is ready where it says that it runs, and unavailable where it says
/// anything else.
pub proof fn law_orbstack_state_is_read(reply: Result<CommandOutput, String>)
    ensures
        match reply {
            Ok(output) => orbstack_status(reply).0 == (if !output.success {
                RuntimeStatus::Failed
            } else if lowered(trimmed(lossy_text(output.stdout@))) == lowered("running"@) {
                RuntimeStatus::Ready
            } else {
                RuntimeStatus::Unavailable
            }),
            Err(error) => orbstack_status(reply).0 == (if error@ == "Loading runtime data..."@ {
                RuntimeStatus::Degraded
            } else {
                RuntimeStatus::Failed
            }),
        },
{
}

/// Apple's runtime is ready where its status speaks of running, unavailable
/// where it speaks of stopping, and failed where it speaks of failure.
pub proof fn law_apple_state_is_read(system: Seq<char>)
    ensures
        apple_status(system) is Ready <==> occurs(lowered(system), "running"@),
        apple_status(system) is Unavailable ==> occurs(lowered(system), "stop"@) || occurs(
            lowered(system),
            "not running"@,
        ),
        !occurs(lowered(system), "running"@) && occurs(lowered(system), "stop"@) ==> apple_status(
            system,
        ) is Unavailable,
        apple_status(system) is Failed ==> occurs(lowered(system), "fail"@) || occurs(
            lowered(system),
            "error"@,
        ),
{
}

/// While a runtime is being started or stopped, that is shown; else what the
/// runtime says is.
pub proof fn law_operation_is_shown(
    operation: Option<RuntimeStateView>,
    status: RuntimeStatus,
    detail: Seq<char>,
)
    ensures
        match operation {
            Some(state) => if state.status is Starting || state.status is Stopping {
                shown_status(operation, status, detail) == (state.status, state.detail)
            } else {
                shown_status(operation, status, detail) == (status, detail)
            },
            None => shown_status(operation, status, detail) == (status, detail),
        },
{
}

/// An overview counts what runs on its own runtime and says how that is reached.
pub proof fn law_overview_is_of_its_runtime(
    states: Seq<RuntimeStateView>,
    replies: RuntimeReplies,
    nav: usize,
)
    ensures
        overview_of_page(NAV_APPLE_CONTAINER, states, replies).resources == counted(
            running_rows(apple_rows_of(replies.apple_containers)),
            "running container"@,
        ),
        nav != NAV_APPLE_CONTAINER && nav != NAV_ORBSTACK ==> overview_of_page(
            nav,
            states,
            replies,
        ).resources == counted(
            running_rows(docker_rows_of(replies.docker_containers)),
            "running container"@,
        ),
        overview_of_page(NAV_ORBSTACK, states, replies).provider == "OrbStack provider"@,
        overview_of_page(nav, states, replies).version == version_line(replies.version),
{
}

// ---------------------------------------------------------------------------
// Answers
// ---------------------------------------------------------------------------
/// An answer is out of date once its time is over, and not before; what was
/// never answered is out of date.
pub proof fn law_answers_grow_old(entry: UiCommandCacheEntry, now: u64)
    requires
        now >= entry.completed_at,
    ensures
        is_stale(None, now),
        is_stale(Some(entry), now) <==> now - entry.completed_at
            >= 10000,
{
}

/// What is done again and again is due where it was never done, and again once
/// its interval is over.
pub proof fn law_interval_is_kept(last: u64, now: u64, interval: u64)
    requires
        last <= now,
    ensures
        is_due(None, now, interval),
        is_due(Some(last), now, interval) <==> now >= last + interval,
{
}

/// A command's key is its name, its path and its arguments with nothing between
/// them that they can hold.
pub proof fn law_key_is_the_command(command: Seq<char>, path: Seq<char>, args: Seq<Seq<char>>)
    ensures
        command_key(command, path, args) == joined(seq![command, path] + args, "\0"@),
    decreases args.len(),
{
    let all = seq![command, path] + args;
    if args.len() == 0 {
        reveal_with_fuel(joined, 3);
        assert(all =~= seq![command, path]);
        assert(all.drop_last() =~= seq![command]);
    } else {
        law_key_is_the_command(command, path, args.drop_last());
        assert(all.drop_last() =~= seq![command, path] + args.drop_last());
    }
}

/// Commands that differ have different keys.
pub proof fn law_keys_tell_commands_apart(a: Seq<Seq<char>>, b: Seq<Seq<char>>)
    requires
        a.len() >= 2,
        b.len() >= 2,
        forall|i: int| 0 <= i < a.len() ==> !(#[trigger] a[i]).contains('\0'),
        forall|i: int| 0 <= i < b.len() ==> !(#[trigger] b[i]).contains('\0'),
        command_key(a[0], a[1], a.skip(2)) == command_key(b[0], b[1], b.skip(2)),
    ensures
        a == b,
{
    reveal_strlit("\0");
    assert("\0"@ =~= seq!['\0']);
    law_key_is_the_command(a[0], a[1], a.skip(2));
    law_key_is_the_command(b[0], b[1], b.skip(2));
    assert(seq![a[0], a[1]] + a.skip(2) =~= a);
    assert(seq![b[0], b[1]] + b.skip(2) =~= b);
    lemma_key_parts(a);
    lemma_key_parts(b);
}

proof fn lemma_key_parts(parts: Seq<Seq<char>>)
    requires
        parts.len() > 0,
        forall|i: int| 0 <= i < parts.len() ==> !(#[trigger] parts[i]).contains('\0'),
    ensures
        split_at(joined(parts, seq!['\0']), '\0') == parts,
{
    assert forall|k: int| 0 <= k < parts.len() implies is_whole(
        #[trigger] parts[k],
        is_char('\0'),
    ) by {
        assert forall|j: int| 0 <= j < parts[k].len() implies !is_char('\0')(
            #[trigger] parts[k][j],
        ) by {
            assert(parts[k].contains(parts[k][j]));
        }
    }
    lemma_pieces_of_joined(parts, '\0', is_char('\0'));
}

} // verus!
