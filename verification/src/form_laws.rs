//! What the forms of the window keep of what the user has put into them.
use vstd::prelude::*;

use crate::container_mode::EffectView;
use crate::container_sessions::SessionView;
use crate::dialogs::{edited_session, form_problem, form_session, pulled, PullForm, SessionForm};
use crate::profiles::{
    canonical_reference, defaults_of, gui_limits, listed_parts, name_for_image, profile_of,
    semicolon_parts, DefaultsView,
};
use crate::splitting::{is_whole, lemma_pieces_concat, lemma_pieces_of_whole};
use crate::text::{
    has_pair, is_char, is_space, joined, lemma_pieces_nonempty, lowered, occurs, pieces, replaced,
    split_at, trimmed,
};
use crate::text_laws::law_trimmed_is_kept;

verus! {

// ---------------------------------------------------------------------------
// Lists in a field
// ---------------------------------------------------------------------------
proof fn lemma_listed_joined(a: Seq<Seq<char>>, b: Seq<Seq<char>>)
    ensures
        listed_parts(a + b) == listed_parts(a) + listed_parts(b),
    decreases b.len(),
{
    if b.len() == 0 {
        assert(a + b == a);
        assert(listed_parts(a) + listed_parts(b) == listed_parts(a));
    } else {
        assert((a + b).drop_last() == a + b.drop_last());
        lemma_listed_joined(a, b.drop_last());
        assert(listed_parts(a + b) =~= listed_parts(a) + listed_parts(b));
    }
}

/// What stands before a semicolon and what stands behind it are listed one
/// behind the other.
pub proof fn law_semicolon_parts_are_apart(a: Seq<char>, b: Seq<char>)
    ensures
        semicolon_parts(a.push(';') + b) == semicolon_parts(a) + semicolon_parts(b),
{
    let ends = is_char(';');
    let first = pieces(a, ends);
    let second = pieces(b, ends);
    lemma_pieces_nonempty(a, ends);
    lemma_pieces_nonempty(b, ends);
    lemma_pieces_concat(a.push(';'), b, ends);
    assert(a.push(';').drop_last() == a);
    let ended = pieces(a.push(';'), ends);
    assert(ended == first.push(Seq::<char>::empty()));
    assert(ended.drop_last() == first);
    assert(ended.last() + second[0] == second[0]);
    assert(pieces(a.push(';') + b, ends) == first + second) by {
        assert(first.push(second[0]) + second.drop_first() == first + second);
    }
    lemma_listed_joined(first, second);
}

/// A text without semicolons is one part, without the spaces around it, and no
/// part where it holds nothing but spaces.
pub proof fn law_part_is_trimmed(text: Seq<char>)
    requires
        !text.contains(';'),
    ensures
        semicolon_parts(text) == (if trimmed(text).len() == 0 {
            seq![]
        } else {
            seq![trimmed(text)]
        }),
{
    let ends = is_char(';');
    assert(is_whole(text, ends)) by {
        assert forall|i: int| 0 <= i < text.len() implies !ends(#[trigger] text[i]) by {
            assert(text.contains(text[i]));
        }
    }
    lemma_pieces_of_whole(text, ends);
    assert(seq![text].drop_last() == Seq::<Seq<char>>::empty());
    reveal_with_fuel(listed_parts, 2);
    assert(semicolon_parts(text) =~= (if trimmed(text).len() == 0 {
        seq![]
    } else {
        seq![trimmed(text)]
    }));
}

/// Whether a text can stand in a list of a field as it is.
pub open spec fn is_listable(part: Seq<char>) -> bool {
    part.len() > 0 && !is_space(part[0]) && !is_space(part.last()) && !part.contains(';')
}

/// A list that a field shows is read back from it.
pub proof fn law_shown_list_is_read_back(parts: Seq<Seq<char>>)
    requires
        forall|i: int| 0 <= i < parts.len() ==> is_listable(#[trigger] parts[i]),
    ensures
        semicolon_parts(joined(parts, "; "@)) == parts,
    decreases parts.len(),
{
    reveal_strlit("; ");
    if parts.len() == 0 {
        law_part_is_trimmed(Seq::empty());
        assert(trimmed(Seq::<char>::empty()).len() == 0);
        assert(semicolon_parts(joined(parts, "; "@)) =~= parts);
    } else if parts.len() == 1 {
        law_part_is_trimmed(parts[0]);
        law_trimmed_is_kept(parts[0]);
        assert(semicolon_parts(joined(parts, "; "@)) =~= parts);
    } else {
        let front = parts.drop_last();
        assert forall|i: int| 0 <= i < front.len() implies is_listable(#[trigger] front[i]) by {
            assert(parts[i] == front[i]);
        }
        law_shown_list_is_read_back(front);
        let last = parts[parts.len() - 1];
        let spaced = seq![' '] + last;
        let text = joined(front, "; "@);
        assert(text + "; "@ + last == text.push(';') + spaced);
        law_semicolon_parts_are_apart(text, spaced);
        assert(!spaced.contains(';')) by {
            if spaced.contains(';') {
                let i = choose|i: int| 0 <= i < spaced.len() && spaced[i] == ';';
                assert(last.contains(last[i - 1]));
            }
        }
        law_part_is_trimmed(spaced);
        assert(spaced.drop_first() == last);
        law_trimmed_is_kept(last);
        assert(trimmed(spaced) == last) by {
            reveal_with_fuel(crate::text::trimmed_start, 2);
        }
        assert(semicolon_parts(joined(parts, "; "@)) =~= parts);
    }
}

// ---------------------------------------------------------------------------
// The form of a profile
// ---------------------------------------------------------------------------
/// The profile that comes of a form: a new one, or an edited one.
pub open spec fn profile_from(form: SessionForm, original: Option<SessionView>) -> SessionView {
    match original {
        Some(original) => edited_session(form, original),
        None => form_session(form),
    }
}

/// Whether a profile is new or edited, each field that the form shows is in it,
/// without the spaces around it. A field that is left empty gives no command,
/// the name that the image suggests, Apple's runtime, and whatever display is
/// there.
pub proof fn law_form_fields_are_kept(form: SessionForm, original: Option<SessionView>)
    ensures
        trimmed(form.command@).len() > 0 ==> profile_from(form, original).command == Some(
            trimmed(form.command@),
        ),
        trimmed(form.command@).len() == 0 ==> profile_from(form, original).command is None,
        trimmed(form.name@).len() > 0 ==> profile_from(form, original).name == trimmed(form.name@),
        trimmed(form.name@).len() == 0 ==> profile_from(form, original).name == name_for_image(
            trimmed(form.image@),
        ),
        profile_from(form, original).image == trimmed(form.image@),
        trimmed(form.runtime@).len() > 0 ==> profile_from(form, original).runtime == trimmed(
            form.runtime@,
        ),
        trimmed(form.runtime@).len() == 0 ==> profile_from(form, original).runtime
            == "container"@,
        trimmed(form.display@).len() > 0 ==> profile_from(form, original).display == Some(
            trimmed(form.display@),
        ),
        trimmed(form.display@).len() == 0 ==> profile_from(form, original).display == Some(
            "auto"@,
        ),
        form.presentation == 1 ==> profile_from(form, original).presentation == Some("rootless"@),
        form.presentation != 1 ==> profile_from(form, original).presentation == Some("desktop"@),
        profile_from(form, original).profile == profile_of(trimmed(form.profile@)),
        profile_from(form, original).audio <==> form.audio == 1,
        profile_from(form, original).mounts == semicolon_parts(trimmed(form.mounts@)),
        profile_from(form, original).env == semicolon_parts(trimmed(form.env@)),
{
}

/// A form is refused just where it names no image, or asks for sound on Docker
/// or OrbStack; so an accepted profile has an image, and one with sound runs on
/// neither.
pub proof fn law_form_is_refused(form: SessionForm, original: Option<SessionView>)
    ensures
        form_problem(form) is None <==> profile_from(form, original).image.len() > 0 && !(
        profile_from(form, original).audio && (profile_from(form, original).runtime == "docker"@
            || profile_from(form, original).runtime == "orb"@ || profile_from(
            form,
            original,
        ).runtime == "orbstack"@)),
        trimmed(form.image@).len() == 0 ==> form_problem(form) == Some(
            "Enter an image reference before creating the session."@,
        ),
        trimmed(form.image@).len() > 0 && form_problem(form) is Some ==> form_problem(form) == Some(
            "Audio forwarding currently requires Apple Container."@,
        ),
{
}

/// What the form does not show is kept of an edited profile, and is not there
/// in a new one; a new one on Apple's runtime is given its limits.
pub proof fn law_hidden_fields_are_left(form: SessionForm, original: SessionView)
    ensures
        edited_session(form, original).app == original.app,
        edited_session(form, original).socket == original.socket,
        edited_session(form, original).container_socket == original.container_socket,
        edited_session(form, original).waypipe_path == original.waypipe_path,
        edited_session(form, original).waypipe_compress == original.waypipe_compress,
        edited_session(form, original).waypipe_threads == original.waypipe_threads,
        edited_session(form, original).runtime_args == original.runtime_args,
        form_session(form).app is None,
        form_session(form).socket is None,
        form_session(form).container_socket is None,
        form_session(form).waypipe_path is None,
        form_session(form).waypipe_compress is None,
        form_session(form).waypipe_threads is None,
        form_session(form).runtime_args == gui_limits(
            form_session(form).runtime,
            form_session(form).profile,
        ),
{
}

/// Whether a form holds what it was filled in with.
pub open spec fn is_unchanged(form: SessionForm, defaults: DefaultsView) -> bool {
    &&& form.name@ == defaults.name
    &&& form.runtime@ == defaults.runtime
    &&& form.display@ == defaults.display
    &&& form.presentation == (if defaults.presentation == "rootless"@ {
        1int
    } else {
        0int
    })
    &&& form.profile@ == defaults.profile
    &&& form.image@ == defaults.image
    &&& form.command@ == defaults.command
    &&& form.mounts@ == defaults.mounts
    &&& form.env@ == defaults.env
    &&& form.audio == (if defaults.audio {
        1int
    } else {
        0int
    })
}

/// Whether a text is not empty and has no spaces around it.
pub open spec fn is_tidy(text: Seq<char>) -> bool {
    text.len() > 0 && !is_space(text[0]) && !is_space(text.last())
}

/// Whether each text that the form shows of a profile can stand there as it is.
pub open spec fn is_showable(session: SessionView) -> bool {
    &&& is_tidy(session.name)
    &&& is_tidy(session.runtime)
    &&& is_tidy(session.image)
    &&& session.display matches Some(display) && is_tidy(display)
    &&& session.presentation == Some("desktop"@) || session.presentation == Some("rootless"@)
    &&& session.profile matches Some(profile) && is_tidy(profile) && profile_of(profile) == Some(
        profile,
    )
    &&& session.command matches Some(command) && is_tidy(command)
    &&& forall|i: int| 0 <= i < session.mounts.len() ==> is_listable(#[trigger] session.mounts[i])
    &&& forall|i: int| 0 <= i < session.env.len() ==> is_listable(#[trigger] session.env[i])
}

proof fn lemma_shown_list_is_trimmed(parts: Seq<Seq<char>>)
    requires
        forall|i: int| 0 <= i < parts.len() ==> is_listable(#[trigger] parts[i]),
    ensures
        trimmed(joined(parts, "; "@)) == joined(parts, "; "@),
    decreases parts.len(),
{
    lemma_shown_list_ends(parts);
    law_trimmed_is_kept(joined(parts, "; "@));
}

proof fn lemma_shown_list_ends(parts: Seq<Seq<char>>)
    requires
        forall|i: int| 0 <= i < parts.len() ==> is_listable(#[trigger] parts[i]),
    ensures
        parts.len() > 0 ==> is_tidy(joined(parts, "; "@)),
        parts.len() == 0 ==> joined(parts, "; "@).len() == 0,
    decreases parts.len(),
{
    if parts.len() > 1 {
        let front = parts.drop_last();
        assert forall|i: int| 0 <= i < front.len() implies is_listable(#[trigger] front[i]) by {
            assert(parts[i] == front[i]);
        }
        lemma_shown_list_ends(front);
        assert(is_listable(parts[parts.len() - 1]));
        let text = joined(front, "; "@);
        let whole = joined(parts, "; "@);
        assert(whole == text + "; "@ + parts.last());
        assert(whole[0] == text[0]);
        assert(whole.last() == parts.last().last());
    } else if parts.len() == 1 {
        assert(is_listable(parts[0]));
    }
}

/// A profile that is opened in the form and saved as it is stays as it was.
pub proof fn law_saving_unchanged_keeps_profile(session: SessionView, form: SessionForm)
    requires
        is_showable(session),
        is_unchanged(form, defaults_of(session)),
    ensures
        edited_session(form, session) == session,
{
    law_trimmed_is_kept(form.name@);
    law_trimmed_is_kept(form.runtime@);
    law_trimmed_is_kept(form.image@);
    law_trimmed_is_kept(form.display@);
    law_trimmed_is_kept(form.profile@);
    law_trimmed_is_kept(form.command@);
    lemma_shown_list_is_trimmed(session.mounts);
    lemma_shown_list_is_trimmed(session.env);
    law_shown_list_is_read_back(session.mounts);
    law_shown_list_is_read_back(session.env);
    reveal_strlit("desktop");
    reveal_strlit("rootless");
    assert("desktop"@.len() != "rootless"@.len());
    assert(edited_session(form, session) =~= session);
}

/// A profile goes by one name, however it is written; the name that it goes by
/// is its own.
pub proof fn law_profile_names_are_settled(typed: Seq<char>)
    ensures
        profile_of(typed) is None <==> trimmed(typed).len() == 0,
        lowered(trimmed(typed)) == "desktop"@ || lowered(trimmed(typed)) == "niri-desktop"@
            || lowered(trimmed(typed)) == "niri"@ ==> profile_of(typed) == Some("niri"@),
        lowered(trimmed(typed)) == "app"@ || lowered(trimmed(typed)) == "single"@ || lowered(
            trimmed(typed),
        ) == "single-app"@ ==> profile_of(typed) == Some("single-app"@),
        lowered(trimmed(typed)) == "debug"@ || lowered(trimmed(typed)) == "sh"@ || lowered(
            trimmed(typed),
        ) == "shell"@ ==> profile_of(typed) == Some("shell"@),
{
    reveal_strlit("desktop");
    reveal_strlit("niri-desktop");
    reveal_strlit("niri");
    reveal_strlit("app");
    reveal_strlit("single");
    reveal_strlit("single-app");
    reveal_strlit("debug");
    reveal_strlit("sh");
    reveal_strlit("shell");
    let value = lowered(trimmed(typed));
    assert(value.len() == trimmed(typed).len());
    assert("single-app"@[0] != "niri-desktop"@[0]);
    assert("single"@[0] == 's' && "debug"@[0] == 'd' && "shell"@[0] == 's' && "sh"@[0] == 's');
    assert("desktop"@[0] == 'd' && "niri"@[0] == 'n' && "app"@[0] == 'a');
    assert("single-app"@[0] == 's');
}

/// A new profile on Apple's runtime gets memory, shared memory and processors,
/// a desktop more memory than an application; other runtimes set no limits.
pub proof fn law_limits_suit_the_profile(runtime: Seq<char>, profile: Option<Seq<char>>)
    ensures
        trimmed(runtime) == "container"@ || trimmed(runtime) == "apple"@ || trimmed(runtime)
            == "apple-container"@ ==> has_pair(
            gui_limits(runtime, profile),
            "--memory"@,
            if profile == Some("niri"@) || profile == Some("desktop"@) {
                "4G"@
            } else {
                "2G"@
            },
        ) && has_pair(
            gui_limits(runtime, profile),
            "--shm-size"@,
            if profile == Some("niri"@) || profile == Some("desktop"@) {
                "1G"@
            } else {
                "512M"@
            },
        ) && has_pair(gui_limits(runtime, profile), "--cpus"@, "4"@),
        trimmed(runtime) != "container"@ && trimmed(runtime) != "apple"@ && trimmed(runtime)
            != "apple-container"@ ==> gui_limits(runtime, profile).len() == 0,
{
    let limits = gui_limits(runtime, profile);
    if limits.len() > 0 {
        assert(limits[0] == "--memory"@);
        assert(limits[2] == "--shm-size"@);
        assert(limits[4] == "--cpus"@);
    }
}

/// A profile of an image is named after the last part of the image's name,
/// without its tag, and with spaces for dashes.
pub proof fn law_name_is_the_image_s(path: Seq<char>, base: Seq<char>, tag: Seq<char>)
    requires
        base.len() > 0,
        !base.contains('/'),
        !base.contains(':'),
        !tag.contains('/'),
        !occurs(lowered(path.push('/') + base.push(':') + tag), "niri"@),
    ensures
        name_for_image(path.push('/') + base.push(':') + tag) == replaced(base, '-', " "@),
{
    let image = path.push('/') + base.push(':') + tag;
    let tail = base.push(':') + tag;
    assert(image == path.push('/') + tail);
    let slash = is_char('/');
    assert(is_whole(tail, slash)) by {
        assert forall|i: int| 0 <= i < tail.len() implies !slash(#[trigger] tail[i]) by {
            if i < base.len() {
                assert(base.contains(base[i]));
            } else if i > base.len() {
                assert(tag.contains(tag[i - base.len() - 1]));
            }
        }
    }
    lemma_pieces_of_whole(tail, slash);
    lemma_pieces_concat(path.push('/'), tail, slash);
    lemma_pieces_nonempty(path, slash);
    assert(path.push('/').drop_last() == path);
    let ended = pieces(path.push('/'), slash);
    assert(ended.last() == Seq::<char>::empty());
    assert(ended.last() + tail == tail);
    assert(split_at(image, '/').last() == tail);
    let colon = is_char(':');
    assert(is_whole(base, colon)) by {
        assert forall|i: int| 0 <= i < base.len() implies !colon(#[trigger] base[i]) by {
            assert(base.contains(base[i]));
        }
    }
    lemma_pieces_of_whole(base, colon);
    lemma_pieces_concat(base.push(':'), tag, colon);
    lemma_pieces_nonempty(tag, colon);
    assert(base.push(':').drop_last() == base);
    let named = pieces(base.push(':'), colon);
    assert(named == seq![base, Seq::<char>::empty()]);
    assert(split_at(tail, ':').first() == base);
}

// ---------------------------------------------------------------------------
// The form by which an image is fetched
// ---------------------------------------------------------------------------
/// A form that names an image asks for that image, on the runtime, for the
/// platform and over the connection that were picked; one that names none is
/// refused.
pub proof fn law_pull_asks_for_what_was_picked(form: PullForm)
    ensures
        match pulled(form) {
            Ok(EffectView::PullImage { runtime, image, platform, scheme, configure_session }) => {
                &&& trimmed(form.reference@).len() > 0
                &&& runtime == (if form.destination == 1 {
                    "docker"@
                } else {
                    "container"@
                })
                &&& image == canonical_reference(form.registry, trimmed(form.reference@))
                &&& platform is None <==> form.platform != 1 && form.platform != 2
                &&& form.platform == 1 ==> platform == Some("linux/arm64"@)
                &&& form.platform == 2 ==> platform == Some("linux/amd64"@)
                &&& scheme is None <==> form.connection != 1 && form.connection != 2
                &&& form.connection == 1 ==> scheme == Some("https"@)
                &&& form.connection == 2 ==> scheme == Some("http"@)
                &&& configure_session <==> form.after == 1
            },
            Ok(_) => false,
            Err(problem) => trimmed(form.reference@).len() == 0 && problem
                == "Image reference is required."@,
        },
{
}

/// A reference whose first part names a registry is kept. Else it is of the
/// registry that was picked: of the Docker Hub where none was, whose images
/// without an owner are those of its library.
pub proof fn law_registry_is_added(source: isize, first: Seq<char>, rest: Seq<char>)
    requires
        is_tidy(first),
        !first.contains('/'),
        is_tidy(rest),
        rest[0] != '/',
        !"docker://"@.is_prefix_of(first.push('/') + rest),
        !"docker://"@.is_prefix_of(first),
    ensures
        ({
            let owned = first.push('/') + rest;
            let named = first.contains('.') || first.contains(':') || first == "localhost"@;
            &&& named || source == 3 ==> canonical_reference(source, owned) == owned
            &&& !named && source == 1 ==> canonical_reference(source, owned) == "ghcr.io/"@ + owned
            &&& !named && source == 2 ==> canonical_reference(source, owned) == "quay.io/"@ + owned
            &&& !named && source != 1 && source != 2 && source != 3 ==> canonical_reference(
                source,
                owned,
            ) == "docker.io/"@ + owned
            &&& source == 3 ==> canonical_reference(source, first) == first
            &&& source == 1 ==> canonical_reference(source, first) == "ghcr.io/"@ + first
            &&& source == 2 ==> canonical_reference(source, first) == "quay.io/"@ + first
            &&& source != 1 && source != 2 && source != 3 ==> canonical_reference(source, first)
                == "docker.io/library/"@ + first
        }),
{
    reveal_strlit("docker://");
    reveal_strlit("/");
    let owned = first.push('/') + rest;
    assert(owned[0] == first[0]);
    assert(owned.last() == rest.last());
    law_trimmed_is_kept(owned);
    law_trimmed_is_kept(first);
    let slash = is_char('/');
    assert(is_whole(first, slash)) by {
        assert forall|i: int| 0 <= i < first.len() implies !slash(#[trigger] first[i]) by {
            assert(first.contains(first[i]));
        }
    }
    lemma_pieces_of_whole(first, slash);
    lemma_pieces_concat(first.push('/'), rest, slash);
    lemma_pieces_nonempty(rest, slash);
    assert(first.push('/').drop_last() == first);
    assert(pieces(first.push('/'), slash) == seq![first, Seq::<char>::empty()]);
    assert(split_at(owned, '/').first() == first);
    assert(owned[first.len() as int] == '/');
    assert(owned.contains('/'));
    assert(first[0] != '/') by {
        assert(first.contains(first[0]));
    }
    assert(!"/"@.is_prefix_of(owned)) by {
        assert("/"@[0] == '/');
    }
    assert(!"/"@.is_prefix_of(first));
}

} // verus!
