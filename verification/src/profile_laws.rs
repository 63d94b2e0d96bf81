//! What is shown of profiles and of what became of them.
use vstd::prelude::*;

use crate::activity::cleaned;
use crate::container_sessions::{LaunchErrorView, SessionView};
use crate::profiles::{
    ago, all_wrapped, argument_lines, copy_name, counted, defaults_for_image, elapsed,
    example_image, first_holding, flag_value, image_place, page_of, preferred_image, row_width,
    runtime_key, shown_runtime, wrapped, NAV_APPLE_CONTAINER, NAV_DOCKER, NAV_ORBSTACK,
};
use crate::records::{checked_detail, end_status, failure_label, launched_detail, pull_place, shown_lines};
use crate::session_launch::{CheckReport, LaunchReport};
use crate::splitting::lemma_joined_cut;
use crate::text::{decimal, is_blank, joined, lemma_occurs, lowered, occurs, trimmed, trimmed_start};

verus! {

// ---------------------------------------------------------------------------
// Arguments of a runtime
// ---------------------------------------------------------------------------
/// Whether none of some arguments is a flag, or gives it a value.
pub open spec fn lack_flag(arguments: Seq<Seq<char>>, flag: Seq<char>) -> bool {
    forall|i: int|
        0 <= i < arguments.len() ==> #[trigger] arguments[i] != flag && !(flag + "="@).is_prefix_of(
            arguments[i],
        )
}

/// The value of a flag is what stands behind it, or behind the sign of equality
/// in it, at its first place; a flag that is not there has none.
pub proof fn law_flag_has_its_value(
    before: Seq<Seq<char>>,
    flag: Seq<char>,
    value: Seq<char>,
    after: Seq<Seq<char>>,
)
    requires
        lack_flag(before, flag),
    ensures
        flag_value(before + seq![flag, value] + after, flag) == Some(value),
        flag_value(before + seq![flag + "="@ + value] + after, flag) == Some(value),
        flag_value(before, flag) is None,
    decreases before.len(),
{
    let set = flag + "="@ + value;
    if before.len() == 0 {
        let apart = before + seq![flag, value] + after;
        assert(apart.first() == flag);
        assert(apart[1] == value);
        let together = before + seq![set] + after;
        assert(together.first() == set);
        assert(set != flag) by {
            reveal_strlit("=");
            assert(set.len() > flag.len());
        }
        assert((flag + "="@).is_prefix_of(set));
        assert(set.skip((flag + "="@).len() as int) =~= value);
    } else {
        let rest = before.drop_first();
        assert(before[0] == before.first());
        assert forall|i: int| 0 <= i < rest.len() implies #[trigger] rest[i] != flag && !(flag
            + "="@).is_prefix_of(rest[i]) by {
            assert(rest[i] == before[i + 1]);
        }
        law_flag_has_its_value(rest, flag, value, after);
        assert((before + seq![flag, value] + after).first() == before.first());
        assert((before + seq![flag, value] + after).drop_first() =~= rest + seq![flag, value]
            + after);
        assert((before + seq![set] + after).first() == before.first());
        assert((before + seq![set] + after).drop_first() =~= rest + seq![set] + after);
    }
}

/// The lines that show some arguments hold them all, in their order, with a
/// space between any two.
pub proof fn law_argument_lines_hold_the_arguments(arguments: Seq<Seq<char>>)
    ensures
        joined(argument_lines(arguments), " "@) == joined(arguments, " "@),
        arguments.len() > 0 <==> argument_lines(arguments).len() > 0,
        argument_lines(arguments).len() <= arguments.len(),
    decreases arguments.len(),
{
    if arguments.len() > 0 {
        let pair = crate::profiles::takes_value(arguments);
        let n: int = if pair {
            2
        } else {
            1
        };
        let rest = arguments.skip(n);
        law_argument_lines_hold_the_arguments(rest);
        let first = if pair {
            arguments[0] + " "@ + arguments[1]
        } else {
            arguments[0]
        };
        let lines = argument_lines(arguments);
        assert(lines == seq![first] + argument_lines(rest));
        assert(joined(arguments.take(n), " "@) == first) by {
            reveal_with_fuel(joined, 3);
            if pair {
                assert(arguments.take(2).drop_last() =~= seq![arguments[0]]);
                assert(arguments.take(2).last() == arguments[1]);
            }
        }
        if rest.len() > 0 {
            lemma_joined_cut(arguments, " "@, n);
            lemma_joined_cut(lines, " "@, 1);
            assert(lines.take(1) =~= seq![first]);
            assert(lines.skip(1) =~= argument_lines(rest));
        } else {
            assert(arguments.take(n) =~= arguments);
            assert(lines =~= seq![first]);
        }
    }
}

// ---------------------------------------------------------------------------
// Names of runtimes
// ---------------------------------------------------------------------------
/// A runtime has one page, one name and one key, by whichever of its names it
/// is called; what is not known counts as Apple's, except for its key.
pub proof fn law_runtime_has_its_page(runtime: Seq<char>)
    ensures
        page_of(runtime) == NAV_DOCKER <==> shown_runtime(runtime) == "Docker"@,
        page_of(runtime) == NAV_ORBSTACK <==> shown_runtime(runtime) == "OrbStack"@,
        page_of(runtime) == NAV_APPLE_CONTAINER <==> shown_runtime(runtime) == "Apple Container"@,
        lowered(trimmed(runtime)) == "docker"@ ==> page_of(runtime) == NAV_DOCKER && runtime_key(
            runtime,
        ) == "docker"@,
        lowered(trimmed(runtime)) == "orb"@ || lowered(trimmed(runtime)) == "orbstack"@ ==> page_of(
            runtime,
        ) == NAV_ORBSTACK && runtime_key(runtime) == "orbstack"@,
        lowered(trimmed(runtime)) == "container"@ || lowered(trimmed(runtime)) == "apple"@
            ==> page_of(runtime) == NAV_APPLE_CONTAINER && runtime_key(runtime) == "apple"@,
{
    reveal_strlit("docker");
    reveal_strlit("orb");
    reveal_strlit("orbstack");
    reveal_strlit("container");
    reveal_strlit("apple");
    reveal_strlit("apple-container");
    reveal_strlit("apple container");
    reveal_strlit("Docker");
    reveal_strlit("OrbStack");
    reveal_strlit("Apple Container");
    assert("docker"@.len() == 6 && "orb"@.len() == 3 && "orbstack"@.len() == 8 && "container"@.len()
        == 9 && "apple"@.len() == 5 && "apple-container"@.len() == 15 && "apple container"@.len()
        == 15);
    assert("Docker"@.len() == 6 && "OrbStack"@.len() == 8 && "Apple Container"@.len() == 15);
}

// ---------------------------------------------------------------------------
// Counts and times
// ---------------------------------------------------------------------------
/// One thing is named in the singular, and any other number of things in the
/// plural.
pub proof fn law_counts_are_in_words(count: nat, noun: Seq<char>)
    ensures
        counted(1, noun) == decimal(1) + " "@ + noun,
        count != 1 ==> counted(count, noun) == decimal(count) + " "@ + noun + "s"@,
{
    reveal_strlit("");
    assert(decimal(1) + " "@ + noun + ""@ =~= decimal(1) + " "@ + noun);
}

/// A time that is past is told in whole seconds, minutes, hours or days, in the
/// largest of them that it holds; a time that is to come is now.
pub proof fn law_past_is_told_in_its_unit(now: u128, before: u128)
    ensures
        before <= now ==> elapsed(now, before) == now - before,
        before > now ==> elapsed(now, before) == 0,
        elapsed(now, before) < 60000 ==> ago(elapsed(now, before)) == decimal(
            elapsed(now, before) / 1000,
        ) + "s ago"@,
        60000 <= elapsed(now, before) < 3600000 ==> ago(elapsed(now, before)) == decimal(
            elapsed(now, before) / 60000,
        ) + "m ago"@,
        3600000 <= elapsed(now, before) < 86400000 ==> ago(elapsed(now, before)) == decimal(
            elapsed(now, before) / 3600000,
        ) + "h ago"@,
        86400000 <= elapsed(now, before) ==> ago(elapsed(now, before)) == decimal(
            elapsed(now, before) / 86400000,
        ) + "d ago"@,
{
    let ms = elapsed(now, before);
    assert(ms / 1000 / 60 == ms / 60000);
    assert(ms / 1000 / 3600 == ms / 3600000);
    assert(ms / 1000 / 86400 == ms / 86400000);
}

// ---------------------------------------------------------------------------
// Rows of text
// ---------------------------------------------------------------------------
/// A line is cut into rows that are no wider than is asked, unless less than
/// sixteen is asked; a line that fits is one row, as it is.
pub proof fn law_rows_fit(line: Seq<char>, max: nat, first: bool)
    requires
        max >= 18,
    ensures
        forall|i: int|
            0 <= i < wrapped(line, max, first).len() ==> (#[trigger] wrapped(
                line,
                max,
                first,
            )[i]).len() <= max,
        0 < line.len() <= max && first ==> wrapped(line, max, first) == seq![line],
        line.len() == 0 <==> wrapped(line, max, first).len() == 0,
        line.len() > max && first ==> wrapped(line, max, first)[0] == line.take(max as int),
    decreases line.len(),
{
    reveal_strlit("");
    reveal_strlit("  ");
    if line.len() > 0 {
        let width = row_width(max, first);
        let prefix = if first {
            ""@
        } else {
            "  "@
        };
        if line.len() > width {
            crate::profiles::lemma_trimmed_start_shorter(line.skip(width as int));
            let rest = trimmed_start(line.skip(width as int));
            law_rows_fit(rest, max, false);
            let rows = wrapped(line, max, first);
            assert(rows == seq![prefix + line.take(width as int)] + wrapped(rest, max, false));
            assert forall|i: int| 0 <= i < rows.len() implies (#[trigger] rows[i]).len() <= max by {
                if i > 0 {
                    assert(rows[i] == wrapped(rest, max, false)[i - 1]);
                }
            }
        }
        assert(""@ + line =~= line);
        assert(""@ + line.take(width as int) =~= line.take(width as int));
    }
}

/// The rows of two texts one behind the other are those of the first and then
/// those of the second.
pub proof fn law_lines_are_wrapped_in_order(a: Seq<Seq<char>>, b: Seq<Seq<char>>, max: nat)
    ensures
        all_wrapped(a + b, max) == all_wrapped(a, max) + all_wrapped(b, max),
    decreases b.len(),
{
    if b.len() == 0 {
        assert(a + b == a);
        assert(all_wrapped(a, max) + all_wrapped(b, max) == all_wrapped(a, max));
    } else {
        assert((a + b).drop_last() == a + b.drop_last());
        law_lines_are_wrapped_in_order(a, b.drop_last(), max);
        assert(all_wrapped(a + b, max) =~= all_wrapped(a, max) + all_wrapped(b, max));
    }
}

/// Lines that say nothing once they are cleaned are left out; the others are
/// shown cleaned and in their order.
pub proof fn law_details_are_shown_cleaned(a: Seq<Seq<char>>, b: Seq<Seq<char>>, line: Seq<char>)
    ensures
        shown_lines(a + b) == shown_lines(a) + shown_lines(b),
        shown_lines(seq![line]) == (if is_blank(cleaned(line)) {
            seq![]
        } else {
            seq![cleaned(line)]
        }),
    decreases b.len(),
{
    reveal_with_fuel(shown_lines, 2);
    assert(seq![line].drop_last() == Seq::<Seq<char>>::empty());
    assert(shown_lines(seq![line]) =~= (if is_blank(cleaned(line)) {
        seq![]
    } else {
        seq![cleaned(line)]
    }));
    if b.len() == 0 {
        assert(a + b == a);
        assert(shown_lines(a) + shown_lines(b) == shown_lines(a));
    } else {
        assert((a + b).drop_last() == a + b.drop_last());
        law_details_are_shown_cleaned(a, b.drop_last(), line);
        assert(shown_lines(a + b) =~= shown_lines(a) + shown_lines(b));
    }
}

// ---------------------------------------------------------------------------
// Images and copies
// ---------------------------------------------------------------------------
/// A profile for an image keeps the image and the runtime, and runs a desktop
/// where the image is one.
pub proof fn law_defaults_suit_the_image(runtime: Seq<char>, image: Seq<char>)
    ensures
        defaults_for_image(runtime, image).image == image,
        defaults_for_image(runtime, image).runtime == runtime,
        occurs(lowered(image), "niri"@) ==> defaults_for_image(runtime, image).command == "niri"@
            && defaults_for_image(runtime, image).profile == "niri"@,
        !occurs(lowered(image), "niri"@) ==> defaults_for_image(runtime, image).command.len() == 0
            && defaults_for_image(runtime, image).profile == "single-app"@,
        defaults_for_image(runtime, image).display == "auto"@,
{
    reveal_strlit("");
}

/// The image that is preferred is the example where it is there, else one that
/// is there and is called like it, else the example.
pub proof fn law_preferred_image_is_there(images: Seq<Seq<char>>, i: int)
    ensures
        images.contains(example_image()) ==> preferred_image(images) == example_image(),
        preferred_image(images) != example_image() ==> images.contains(preferred_image(images))
            && occurs(preferred_image(images), "cocoa-way-niri"@),
        0 <= i < images.len() && occurs(images[i], "cocoa-way-niri"@) ==> images.contains(
            preferred_image(images),
        ),
{
    lemma_first_holding(images, "cocoa-way-niri"@, i);
}

proof fn lemma_first_holding(images: Seq<Seq<char>>, text: Seq<char>, i: int)
    ensures
        first_holding(images, text) matches Some(image) ==> images.contains(image) && occurs(
            image,
            text,
        ),
        0 <= i < images.len() && occurs(images[i], text) ==> first_holding(images, text) is Some,
    decreases images.len(),
{
    if images.len() > 0 {
        let rest = images.drop_first();
        lemma_first_holding(rest, text, i - 1);
        if occurs(images.first(), text) {
            assert(images.contains(images[0]));
        } else {
            if first_holding(rest, text) is Some {
                let image = first_holding(rest, text)->0;
                let k = choose|k: int| 0 <= k < rest.len() && rest[k] == image;
                assert(images[k + 1] == image);
            }
            if 0 < i < images.len() {
                assert(rest[i - 1] == images[i]);
            }
        }
    }
}

/// The profile of an image is the first with that image.
pub proof fn law_profile_of_an_image_is_found(sessions: Seq<SessionView>, image: Seq<char>, i: int)
    ensures
        -1 <= image_place(sessions, image) < sessions.len(),
        image_place(sessions, image) >= 0 ==> sessions[image_place(sessions, image)].image == image,
        0 <= i < sessions.len() && sessions[i].image == image ==> 0 <= image_place(sessions, image)
            <= i,
    decreases sessions.len(),
{
    if sessions.len() > 0 {
        let front = sessions.drop_last();
        law_profile_of_an_image_is_found(front, image, i);
        if image_place(front, image) >= 0 {
            assert(front[image_place(front, image)] == sessions[image_place(front, image)]);
        }
        if 0 <= i < front.len() {
            assert(front[i] == sessions[i]);
        }
    }
}

/// A copy is named after what it is a copy of.
pub proof fn law_copy_is_named_after_its_original(
    sessions: Seq<SessionView>,
    name: Seq<char>,
    now: u128,
)
    ensures
        (name + " Copy"@).is_prefix_of(copy_name(sessions, name, now)),
{
    let base = name + " Copy"@;
    if crate::profiles::is_named(sessions, base) {
        lemma_numbered_keeps_base(sessions, base, 2, now);
    } else {
        assert(base.take(base.len() as int) =~= base);
    }
}

proof fn lemma_numbered_keeps_base(
    sessions: Seq<SessionView>,
    base: Seq<char>,
    number: nat,
    now: u128,
)
    ensures
        base.is_prefix_of(crate::profiles::numbered_name(sessions, base, number, now)),
    decreases 100 - number,
{
    if number >= 100 {
        let text = base + " "@ + decimal((now / 1000) as nat);
        assert(text.take(base.len() as int) =~= base);
    } else if crate::profiles::is_named(sessions, base + " "@ + decimal(number)) {
        lemma_numbered_keeps_base(sessions, base, number + 1, now);
    } else {
        let text = base + " "@ + decimal(number);
        assert(text.take(base.len() as int) =~= base);
    }
}

// ---------------------------------------------------------------------------
// What became of a profile
// ---------------------------------------------------------------------------
/// A launch that failed because the container runs shows it as running; one that
/// the display forbids is blocked; any other is an error.
pub proof fn law_failure_has_its_label(error: LaunchErrorView)
    ensures
        failure_label(error) == "Running"@ <==> error is ContainerAlreadyRunning,
        failure_label(error) == "Blocked"@ <==> error is UnsupportedDisplay,
        failure_label(error) == "Error"@ <==> error !is ContainerAlreadyRunning && error
            !is UnsupportedDisplay,
{
    reveal_strlit("Running");
    reveal_strlit("Blocked");
    reveal_strlit("Error");
    assert("Running"@[0] == 'R' && "Blocked"@[0] == 'B' && "Error"@[0] == 'E');
}

/// What is said of a launch that succeeded names the application and its
/// container, and ends with the number of waypipe's process.
pub proof fn law_launched_names_its_container(
    name: Seq<char>,
    report: LaunchReport,
    waypipe_pid: u32,
)
    ensures
        name.is_prefix_of(launched_detail(name, report, waypipe_pid)),
        ("; waypipe pid: "@ + decimal(waypipe_pid as nat)).is_suffix_of(
            launched_detail(name, report, waypipe_pid),
        ),
        occurs(
            launched_detail(name, report, waypipe_pid),
            "; container: "@ + report.container_name@ + "; command: "@,
        ),
{
    let text = launched_detail(name, report, waypipe_pid);
    let end = "; waypipe pid: "@ + decimal(waypipe_pid as nat);
    let a = name + " is running. Runtime: "@ + report.runtime@;
    let b = "; container: "@ + report.container_name@ + "; command: "@;
    let c = report.command@ + "; host socket: "@ + report.host_socket@ + "; container socket: "@
        + report.container_socket@ + end;
    assert(text =~= a + b + c);
    lemma_occurs(a, b, c);
    assert(text.take(name.len() as int) =~= name);
    assert(text.skip(text.len() - end.len()) =~= end);
}

/// What is said of a check tells whether the container runs, and whose it is.
pub proof fn law_check_tells_who_runs(name: Seq<char>, report: CheckReport, ours: bool)
    ensures
        name.is_prefix_of(checked_detail(name, report, ours)),
        report.running && ours ==> (name
            + " is running and tracked by this Cocoa-Way process. Runtime: "@).is_prefix_of(
            checked_detail(name, report, ours),
        ),
        !report.running ==> (name + " is ready. Runtime: "@).is_prefix_of(
            checked_detail(name, report, ours),
        ),
        ("; runtime binary: "@ + report.runtime_binary@).is_suffix_of(
            checked_detail(name, report, ours),
        ),
{
    let text = checked_detail(name, report, ours);
    let end = "; runtime binary: "@ + report.runtime_binary@;
    assert(text.take(name.len() as int) =~= name);
    assert(text.skip(text.len() - end.len()) =~= end);
    if !report.running {
        reveal_strlit(" is ready. Runtime: ");
        reveal_strlit(" is ");
        reveal_strlit("ready");
        reveal_strlit(". Runtime: ");
        assert(" is ready. Runtime: "@ =~= " is "@ + "ready"@ + ". Runtime: "@);
        let front = name + " is ready. Runtime: "@;
        assert(text.take(front.len() as int) =~= front);
    } else if ours {
        reveal_strlit(" is running and tracked by this Cocoa-Way process. Runtime: ");
        reveal_strlit(" is ");
        reveal_strlit("running and tracked by this Cocoa-Way process");
        reveal_strlit(". Runtime: ");
        assert(" is running and tracked by this Cocoa-Way process. Runtime: "@ =~= " is "@
            + "running and tracked by this Cocoa-Way process"@ + ". Runtime: "@);
        let front = name + " is running and tracked by this Cocoa-Way process. Runtime: "@;
        assert(text.take(front.len() as int) =~= front);
    }
}

/// A fetch is found by its runtime and its image, and by nothing less.
pub proof fn law_fetch_is_found(
    pulls: Seq<(Seq<char>, Seq<char>)>,
    runtime: Seq<char>,
    image: Seq<char>,
    i: int,
)
    ensures
        -1 <= pull_place(pulls, runtime, image) < pulls.len(),
        pull_place(pulls, runtime, image) >= 0 ==> pulls[pull_place(pulls, runtime, image)] == (
            runtime,
            image,
        ),
        0 <= i < pulls.len() && pulls[i] == (runtime, image) ==> 0 <= pull_place(
            pulls,
            runtime,
            image,
        ) <= i,
    decreases pulls.len(),
{
    if pulls.len() > 0 {
        let front = pulls.drop_last();
        law_fetch_is_found(front, runtime, image, i);
        if pull_place(front, runtime, image) >= 0 {
            assert(front[pull_place(front, runtime, image)] == pulls[pull_place(
                front,
                runtime,
                image,
            )]);
        }
        if 0 <= i < front.len() {
            assert(front[i] == pulls[i]);
        }
    }
}

/// An operation ends as completed just where it succeeded, and else as failed.
pub proof fn law_end_follows_success(success: bool)
    ensures
        success ==> end_status(success) is Completed,
        !success ==> end_status(success) is Failed,
{
}

} // verus!
