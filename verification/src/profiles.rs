//! Application profiles as the user sees and edits them.
use vstd::prelude::*;
use vstd::string::*;

use crate::container_sessions::{
    command_of, is_apple_container_session, runtime_of, session_command, slug_of, slug_text,
    ContainerSession, SessionView,
};
use crate::presentation::presentation_of;
use crate::text::{
    concat, concat3, concat4, contains, contains_char, count_text, decimal, decimal_text,
    empty_list, is_blank, is_char, join, joined, lowered, occurs, push_text, replace_char,
    replaced, same, split, split_at, starts_with, strip_prefix, to_ascii_lowercase, trim,
    trim_start, trim_start_matches, trimmed, trimmed_start, without_prefixes, after_prefix, blank,
    lemma_pieces_nonempty,
};
use crate::tasks::{keep_last, last_of};

verus! {

// ---------------------------------------------------------------------------
// Runtimes
// ---------------------------------------------------------------------------
/// The pages of the window.
pub const NAV_SESSIONS: usize = 0;

pub const NAV_IMAGES: usize = 1;

pub const NAV_VOLUMES: usize = 2;

pub const NAV_DISPLAYS: usize = 3;

pub const NAV_APPLE_CONTAINER: usize = 4;

pub const NAV_DOCKER: usize = 5;

pub const NAV_ORBSTACK: usize = 6;

pub const NAV_ACTIVITY: usize = 7;

pub const NAV_COMMANDS: usize = 8;

pub const NAV_RUNNING: usize = 9;

/// A name of a runtime without spaces around it, in small letters.
pub open spec fn folded(runtime: Seq<char>) -> Seq<char> {
    lowered(trimmed(runtime))
}

/// What a runtime is called; what is not known is Apple Container.
pub open spec fn shown_runtime(runtime: Seq<char>) -> Seq<char> {
    let name = folded(runtime);
    if name == "docker"@ {
        "Docker"@
    } else if name == "orb"@ || name == "orbstack"@ {
        "OrbStack"@
    } else {
        "Apple Container"@
    }
}

pub fn runtime_label(runtime: &str) -> (result: &'static str)
    ensures
        result@ == shown_runtime(runtime@),
{
    let name = to_ascii_lowercase(trim(runtime));
    if same(name.as_str(), "docker") {
        "Docker"
    } else if same(name.as_str(), "orb") || same(name.as_str(), "orbstack") {
        "OrbStack"
    } else {
        "Apple Container"
    }
}

/// The page of a runtime.
pub open spec fn page_of(runtime: Seq<char>) -> usize {
    let name = folded(runtime);
    if name == "docker"@ {
        NAV_DOCKER
    } else if name == "orb"@ || name == "orbstack"@ {
        NAV_ORBSTACK
    } else {
        NAV_APPLE_CONTAINER
    }
}

pub fn runtime_nav(runtime: &str) -> (result: usize)
    ensures
        result == page_of(runtime@),
{
    let name = to_ascii_lowercase(trim(runtime));
    if same(name.as_str(), "docker") {
        NAV_DOCKER
    } else if same(name.as_str(), "orb") || same(name.as_str(), "orbstack") {
        NAV_ORBSTACK
    } else {
        NAV_APPLE_CONTAINER
    }
}

/// The key under which a runtime is remembered; what is not known is Docker.
pub open spec fn runtime_key(runtime: Seq<char>) -> Seq<char> {
    let name = folded(runtime);
    if name == "apple"@ || name == "container"@ || name == "apple-container"@ || name
        == "apple container"@ {
        "apple"@
    } else if name == "orb"@ || name == "orbstack"@ {
        "orbstack"@
    } else {
        "docker"@
    }
}

pub fn normalized_runtime_key(runtime: &str) -> (result: &'static str)
    ensures
        result@ == runtime_key(runtime@),
{
    let name = to_ascii_lowercase(trim(runtime));
    if same(name.as_str(), "apple") || same(name.as_str(), "container") || same(
        name.as_str(),
        "apple-container",
    ) || same(name.as_str(), "apple container") {
        "apple"
    } else if same(name.as_str(), "orb") || same(name.as_str(), "orbstack") {
        "orbstack"
    } else {
        "docker"
    }
}

// ---------------------------------------------------------------------------
// What a profile shows
// ---------------------------------------------------------------------------
/// The command that a profile shows: the one that is run.
pub fn session_display_command(session: &ContainerSession) -> (result: String)
    ensures
        result@ == command_of(session.deep_view()),
{
    session_command(session)
}

/// The display that a profile asks for.
pub open spec fn display_target(session: SessionView) -> Seq<char> {
    match session.display {
        Some(display) => if trimmed(display).len() == 0 {
            "auto"@
        } else {
            trimmed(display)
        },
        None => "auto"@,
    }
}

pub fn session_display_target(session: &ContainerSession) -> (result: String)
    ensures
        result@ == display_target(session.deep_view()),
{
    if let Some(display) = &session.display {
        let value = trim(display.as_str());
        if value.unicode_len() != 0 {
            return value.to_owned();
        }
    }
    "auto".to_owned()
}

/// The name of a display made from any text.
pub fn display_slot_slug(value: &str) -> (result: String)
    ensures
        result@ == slug_of(value@, "display"@),
{
    slug_text(value, "display")
}

pub open spec fn resolved_target(session: SessionView) -> Seq<char> {
    let target = display_target(session);
    if target == "auto"@ {
        "automatic"@
    } else if target == "default"@ {
        "default"@
    } else {
        "dedicated"@
    }
}

pub fn resolved_session_display_target(session: &ContainerSession) -> (result: &'static str)
    ensures
        result@ == resolved_target(session.deep_view()),
{
    let target = session_display_target(session);
    if same(target.as_str(), "auto") {
        "automatic"
    } else if same(target.as_str(), "default") {
        "default"
    } else {
        "dedicated"
    }
}

pub open spec fn display_summary(session: SessionView) -> Seq<char> {
    let target = display_target(session);
    if target == "auto"@ || target == "default"@ || target == "dedicated"@ {
        target
    } else {
        target + " -> dedicated"@
    }
}

pub fn session_display_summary(session: &ContainerSession) -> (result: String)
    ensures
        result@ == display_summary(session.deep_view()),
{
    let target = session_display_target(session);
    if same(target.as_str(), "auto") || same(target.as_str(), "default") || same(
        target.as_str(),
        "dedicated",
    ) {
        target
    } else {
        concat(target.as_str(), " -> dedicated")
    }
}

pub open spec fn presentation_summary(session: SessionView) -> Seq<char> {
    if presentation_of(session.presentation) is Rootless {
        "Rootless"@
    } else {
        "Desktop"@
    }
}

pub fn session_presentation_summary(session: &ContainerSession) -> (result: &'static str)
    ensures
        result@ == presentation_summary(session.deep_view()),
{
    if session.presentation_mode().is_rootless() {
        "Rootless"
    } else {
        "Desktop"
    }
}

pub open spec fn waypipe_summary(session: SessionView) -> Seq<char> {
    "compress "@ + (match session.waypipe_compress {
        Some(value) if !is_blank(value) => value,
        _ => if runtime_of(session.runtime) is Apple {
            "none"@
        } else {
            "lz4"@
        },
    }) + "; threads "@ + (match session.waypipe_threads {
        Some(count) => decimal(count as nat),
        None => "auto"@,
    })
}

pub fn session_waypipe_summary(session: &ContainerSession) -> (result: String)
    ensures
        result@ == waypipe_summary(session.deep_view()),
{
    let mut compress = if is_apple_container_session(session) {
        "none".to_owned()
    } else {
        "lz4".to_owned()
    };
    if let Some(value) = &session.waypipe_compress {
        if !blank(value.as_str()) {
            compress = value.clone();
        }
    }
    let threads = match session.waypipe_threads {
        Some(count) => count_text(count),
        None => "auto".to_owned(),
    };
    concat4("compress ", compress.as_str(), "; threads ", threads.as_str())
}

// ---------------------------------------------------------------------------
// New profiles
// ---------------------------------------------------------------------------
/// The profile that is meant by what the user has typed.
pub open spec fn profile_of(profile: Seq<char>) -> Option<Seq<char>> {
    let value = folded(profile);
    if value.len() == 0 {
        None
    } else if value == "desktop"@ || value == "niri"@ || value == "niri-desktop"@ {
        Some("niri"@)
    } else if value == "app"@ || value == "single"@ || value == "single-app"@ {
        Some("single-app"@)
    } else if value == "debug"@ || value == "shell"@ || value == "sh"@ {
        Some("shell"@)
    } else {
        Some(value)
    }
}

pub fn normalize_profile(profile: &str) -> (result: Option<String>)
    ensures
        result.deep_view() == profile_of(profile@),
{
    let value = to_ascii_lowercase(trim(profile));
    if value.as_str().unicode_len() == 0 {
        None
    } else if same(value.as_str(), "desktop") || same(value.as_str(), "niri") || same(
        value.as_str(),
        "niri-desktop",
    ) {
        Some("niri".to_owned())
    } else if same(value.as_str(), "app") || same(value.as_str(), "single") || same(
        value.as_str(),
        "single-app",
    ) {
        Some("single-app".to_owned())
    } else if same(value.as_str(), "debug") || same(value.as_str(), "shell") || same(
        value.as_str(),
        "sh",
    ) {
        Some("shell".to_owned())
    } else {
        Some(value)
    }
}

pub open spec fn names_apple(runtime: Seq<char>) -> bool {
    let name = trimmed(runtime);
    name == "container"@ || name == "apple"@ || name == "apple-container"@
}

/// The limits that a new profile gives its container: more for a desktop, and
/// none where the runtime is not Apple Container.
pub open spec fn gui_limits(runtime: Seq<char>, profile: Option<Seq<char>>) -> Seq<Seq<char>> {
    if names_apple(runtime) {
        if profile == Some("niri"@) || profile == Some("desktop"@) {
            seq!["--memory"@, "4G"@, "--shm-size"@, "1G"@, "--cpus"@, "4"@]
        } else {
            seq!["--memory"@, "2G"@, "--shm-size"@, "512M"@, "--cpus"@, "4"@]
        }
    } else {
        Seq::empty()
    }
}

pub fn default_gui_runtime_args(runtime: &str, profile: Option<&str>) -> (result: Vec<String>)
    ensures
        result.deep_view() == gui_limits(runtime@, profile.deep_view()),
{
    let name = trim(runtime);
    let mut result: Vec<String> = empty_list();
    if same(name, "container") || same(name, "apple") || same(name, "apple-container") {
        let desktop = match profile {
            Some(profile) => same(profile, "niri") || same(profile, "desktop"),
            None => false,
        };
        push_text(&mut result, "--memory");
        push_text(&mut result, if desktop {
            "4G"
        } else {
            "2G"
        });
        push_text(&mut result, "--shm-size");
        push_text(&mut result, if desktop {
            "1G"
        } else {
            "512M"
        });
        push_text(&mut result, "--cpus");
        push_text(&mut result, "4");
    }
    result
}

/// The image of the example profile.
pub open spec fn example_image() -> Seq<char> {
    "localhost/cocoa-way-niri:latest"@
}

pub fn smoke_image_reference() -> (result: &'static str)
    ensures
        result@ == example_image(),
{
    "localhost/cocoa-way-niri:latest"
}

pub fn smoke_containerfile_path() -> (result: &'static str)
    ensures
        result@ == "examples/container-images/Containerfile.niri"@,
{
    "examples/container-images/Containerfile.niri"
}

pub fn smoke_build_context() -> (result: &'static str)
    ensures
        result@ == "."@,
{
    "."
}

/// The command by which the example image is built.
pub open spec fn example_build_command() -> Seq<char> {
    "container build -f "@ + "examples/container-images/Containerfile.niri"@ + " -t "@
        + example_image() + " "@ + "."@
}

pub fn smoke_image_build_command() -> (result: String)
    ensures
        result@ == example_build_command(),
{
    let mut command = concat4(
        "container build -f ",
        smoke_containerfile_path(),
        " -t ",
        smoke_image_reference(),
    );
    command.append(" ");
    command.append(smoke_build_context());
    command
}

/// The example profile.
pub open spec fn example_session() -> SessionView {
    SessionView {
        name: "Niri Desktop"@,
        image: example_image(),
        runtime: "container"@,
        display: Some("auto"@),
        presentation: Some("desktop"@),
        profile: Some("niri"@),
        app: None,
        command: Some("niri"@),
        socket: None,
        container_socket: None,
        waypipe_path: None,
        waypipe_compress: None,
        waypipe_threads: None,
        audio: true,
        runtime_args: gui_limits("container"@, Some("niri"@)),
        mounts: Seq::empty(),
        env: Seq::empty(),
    }
}

pub fn smoke_session() -> (result: ContainerSession)
    ensures
        result.deep_view() == example_session(),
{
    ContainerSession {
        name: "Niri Desktop".to_owned(),
        image: smoke_image_reference().to_owned(),
        runtime: "container".to_owned(),
        display: Some("auto".to_owned()),
        presentation: Some("desktop".to_owned()),
        profile: Some("niri".to_owned()),
        app: None,
        command: Some("niri".to_owned()),
        socket: None,
        container_socket: None,
        waypipe_path: None,
        waypipe_compress: None,
        waypipe_threads: None,
        audio: true,
        runtime_args: default_gui_runtime_args("container", Some("niri")),
        mounts: empty_list(),
        env: empty_list(),
    }
}

/// The place of the first profile of an image, or -1.
pub open spec fn image_place(sessions: Seq<SessionView>, image: Seq<char>) -> int
    decreases sessions.len(),
{
    if sessions.len() == 0 {
        -1
    } else {
        let before = image_place(sessions.drop_last(), image);
        if before >= 0 {
            before
        } else if sessions.last().image == image {
            sessions.len() - 1
        } else {
            -1
        }
    }
}

proof fn lemma_image_stays(sessions: Seq<SessionView>, image: Seq<char>, count: int)
    requires
        0 <= count <= sessions.len(),
        image_place(sessions.take(count), image) >= 0,
    ensures
        image_place(sessions, image) == image_place(sessions.take(count), image),
    decreases sessions.len() - count,
{
    if count == sessions.len() {
        assert(sessions.take(count) == sessions);
    } else {
        assert(sessions.take(count + 1).drop_last() == sessions.take(count));
        lemma_image_stays(sessions, image, count + 1);
    }
}

/// Finds the profile of the example image.
pub fn find_smoke_session(sessions: &Vec<ContainerSession>) -> (result: Option<usize>)
    ensures
        match result {
            Some(place) => place < sessions@.len() && place == image_place(
                sessions.deep_view(),
                example_image(),
            ),
            None => image_place(sessions.deep_view(), example_image()) < 0,
        },
{
    let ghost all = sessions.deep_view();
    for i in 0..sessions.len()
        invariant
            all == sessions.deep_view(),
            image_place(all.take(i as int), example_image()) < 0,
    {
        assert(all.take(i + 1).last() == sessions@[i as int].deep_view());
        assert(all.take(i + 1).drop_last() == all.take(i as int));
        if same(sessions[i].image.as_str(), smoke_image_reference()) {
            proof {
                lemma_image_stays(all, example_image(), i + 1);
            }
            return Some(i);
        }
    }
    assert(all.take(all.len() as int) == all);
    None
}

/// The first of some images that holds a text, if one does.
pub open spec fn first_holding(images: Seq<Seq<char>>, text: Seq<char>) -> Option<Seq<char>>
    decreases images.len(),
{
    if images.len() == 0 {
        None
    } else if occurs(images.first(), text) {
        Some(images.first())
    } else {
        first_holding(images.drop_first(), text)
    }
}

/// The image that a new profile is offered: the example image where it is here,
/// else one of that kind, else the example image all the same.
pub open spec fn preferred_image(images: Seq<Seq<char>>) -> Seq<char> {
    if images.contains(example_image()) {
        example_image()
    } else {
        match first_holding(images, "cocoa-way-niri"@) {
            Some(image) => image,
            None => example_image(),
        }
    }
}

pub fn preferred_gui_image_reference(references: &Vec<String>) -> (result: String)
    ensures
        result@ == preferred_image(references.deep_view()),
{
    let ghost all = references.deep_view();
    for i in 0..references.len()
        invariant
            all == references.deep_view(),
            forall|j: int| 0 <= j < i ==> #[trigger] all[j] != example_image(),
    {
        if same(references[i].as_str(), smoke_image_reference()) {
            assert(all[i as int] == example_image());
            return references[i].clone();
        }
    }
    assert(!all.contains(example_image()));
    assert(all.skip(0) == all);
    for i in 0..references.len()
        invariant
            all == references.deep_view(),
            !all.contains(example_image()),
            first_holding(all, "cocoa-way-niri"@) == first_holding(
                all.skip(i as int),
                "cocoa-way-niri"@,
            ),
    {
        assert(all.skip(i as int).drop_first() == all.skip(i + 1));
        assert(all.skip(i as int).first() == references@[i as int]@);
        if contains(references[i].as_str(), "cocoa-way-niri") {
            return references[i].clone();
        }
    }
    smoke_image_reference().to_owned()
}

/// The name that a profile of an image is given: the last part of the image's
/// name, without its tag and with spaces for dashes.
pub open spec fn name_for_image(image: Seq<char>) -> Seq<char> {
    if occurs(lowered(image), "niri"@) {
        "Niri Desktop"@
    } else {
        let base = split_at(split_at(image, '/').last(), ':').first();
        replaced(
            if base.len() == 0 {
                "Application"@
            } else {
                base
            },
            '-',
            " "@,
        )
    }
}

pub fn default_session_name(image: &str) -> (result: String)
    ensures
        result@ == name_for_image(image@),
{
    let small = to_ascii_lowercase(image);
    if contains(small.as_str(), "niri") {
        return "Niri Desktop".to_owned();
    }
    let parts = split(image, '/');
    proof {
        lemma_pieces_nonempty(image@, is_char('/'));
    }
    let last: usize = parts.len() - 1;
    let tail = split(parts[last].as_str(), ':');
    proof {
        lemma_pieces_nonempty(parts@[last as int]@, is_char(':'));
    }
    assert(parts.deep_view().last() == parts@[last as int]@);
    assert(tail.deep_view().first() == tail@[0]@);
    let base = tail[0].as_str();
    if base.unicode_len() == 0 {
        replace_char("Application", '-', " ")
    } else {
        replace_char(base, '-', " ")
    }
}

/// What a new profile is filled in with.
#[derive(Debug)]
pub struct AddSessionDefaults {
    pub name: String,
    pub runtime: String,
    pub display: String,
    pub presentation: String,
    pub profile: String,
    pub image: String,
    pub command: String,
    pub mounts: String,
    pub env: String,
    pub audio: bool,
}

#[verifier::ext_equal]
pub struct DefaultsView {
    pub name: Seq<char>,
    pub runtime: Seq<char>,
    pub display: Seq<char>,
    pub presentation: Seq<char>,
    pub profile: Seq<char>,
    pub image: Seq<char>,
    pub command: Seq<char>,
    pub mounts: Seq<char>,
    pub env: Seq<char>,
    pub audio: bool,
}

impl DeepView for AddSessionDefaults {
    type V = DefaultsView;

    open spec fn deep_view(&self) -> DefaultsView {
        DefaultsView {
            name: self.name@,
            runtime: self.runtime@,
            display: self.display@,
            presentation: self.presentation@,
            profile: self.profile@,
            image: self.image@,
            command: self.command@,
            mounts: self.mounts@,
            env: self.env@,
            audio: self.audio,
        }
    }
}

pub open spec fn empty_defaults() -> DefaultsView {
    DefaultsView {
        name: ""@,
        runtime: ""@,
        display: ""@,
        presentation: ""@,
        profile: ""@,
        image: ""@,
        command: ""@,
        mounts: ""@,
        env: ""@,
        audio: true,
    }
}

impl Default for AddSessionDefaults {
    fn default() -> (result: Self)
        ensures
            result.deep_view() == empty_defaults(),
    {
        AddSessionDefaults {
            name: "".to_owned(),
            runtime: "".to_owned(),
            display: "".to_owned(),
            presentation: "".to_owned(),
            profile: "".to_owned(),
            image: "".to_owned(),
            command: "".to_owned(),
            mounts: "".to_owned(),
            env: "".to_owned(),
            audio: true,
        }
    }
}

/// What a new profile of an image is filled in with. Only a desktop is known to
/// have a command.
pub open spec fn defaults_for_image(runtime: Seq<char>, image: Seq<char>) -> DefaultsView {
    let niri = occurs(lowered(image), "niri"@);
    DefaultsView {
        name: name_for_image(image),
        runtime,
        display: "auto"@,
        profile: if niri {
            "niri"@
        } else {
            "single-app"@
        },
        image,
        command: if niri {
            "niri"@
        } else {
            ""@
        },
        ..empty_defaults()
    }
}

pub fn session_defaults_for_image(runtime: &str, image: &str) -> (result: AddSessionDefaults)
    ensures
        result.deep_view() == defaults_for_image(runtime@, image@),
{
    let small = to_ascii_lowercase(image);
    let niri = contains(small.as_str(), "niri");
    let mut defaults = AddSessionDefaults::default();
    defaults.name = default_session_name(image);
    defaults.runtime = runtime.to_owned();
    defaults.display = "auto".to_owned();
    defaults.profile = if niri {
        "niri".to_owned()
    } else {
        "single-app".to_owned()
    };
    defaults.image = image.to_owned();
    defaults.command = if niri {
        "niri".to_owned()
    } else {
        "".to_owned()
    };
    defaults
}

/// What a new desktop profile is filled in with.
pub fn new_image_defaults(image: &str) -> (result: AddSessionDefaults)
    ensures
        result.deep_view() == (DefaultsView {
            name: "Niri Desktop"@,
            runtime: "container"@,
            display: "auto"@,
            profile: "niri"@,
            image: image@,
            command: "niri"@,
            ..empty_defaults()
        }),
{
    let mut defaults = AddSessionDefaults::default();
    defaults.name = "Niri Desktop".to_owned();
    defaults.runtime = "container".to_owned();
    defaults.display = "auto".to_owned();
    defaults.profile = "niri".to_owned();
    defaults.image = image.to_owned();
    defaults.command = "niri".to_owned();
    defaults
}

pub open spec fn text_or(value: Option<Seq<char>>, other: Seq<char>) -> Seq<char> {
    match value {
        Some(value) => value,
        None => other,
    }
}

pub fn copy_or(value: &Option<String>, other: &str) -> (result: String)
    ensures
        result@ == text_or(value.deep_view(), other@),
{
    match value {
        Some(value) => value.clone(),
        None => other.to_owned(),
    }
}

/// What an existing profile is filled in with when it is edited.
pub open spec fn defaults_of(session: SessionView) -> DefaultsView {
    DefaultsView {
        name: session.name,
        runtime: session.runtime,
        display: text_or(session.display, "auto"@),
        presentation: text_or(session.presentation, "desktop"@),
        profile: text_or(session.profile, "niri"@),
        image: session.image,
        command: match session.command {
            Some(command) => command,
            None => text_or(session.app, ""@),
        },
        mounts: joined(session.mounts, "; "@),
        env: joined(session.env, "; "@),
        audio: session.audio,
    }
}

pub fn defaults_from_session(session: &ContainerSession) -> (result: AddSessionDefaults)
    ensures
        result.deep_view() == defaults_of(session.deep_view()),
{
    AddSessionDefaults {
        name: session.name.clone(),
        runtime: session.runtime.clone(),
        display: copy_or(&session.display, "auto"),
        presentation: copy_or(&session.presentation, "desktop"),
        profile: copy_or(&session.profile, "niri"),
        image: session.image.clone(),
        command: match &session.command {
            Some(command) => command.clone(),
            None => copy_or(&session.app, ""),
        },
        mounts: join(&session.mounts, "; "),
        env: join(&session.env, "; "),
        audio: session.audio,
    }
}

// ---------------------------------------------------------------------------
// Copies
// ---------------------------------------------------------------------------
pub open spec fn is_named(sessions: Seq<SessionView>, name: Seq<char>) -> bool {
    exists|i: int| 0 <= i < sessions.len() && (#[trigger] sessions[i]).name == name
}

fn has_name(sessions: &Vec<ContainerSession>, name: &str) -> (result: bool)
    ensures
        result == is_named(sessions.deep_view(), name@),
{
    let ghost all = sessions.deep_view();
    for i in 0..sessions.len()
        invariant
            all == sessions.deep_view(),
            forall|j: int| 0 <= j < i ==> (#[trigger] all[j]).name != name@,
    {
        assert(all[i as int].name == sessions@[i as int].name@);
        if same(sessions[i].name.as_str(), name) {
            return true;
        }
    }
    false
}

/// The first name with a number, from some number on, that no profile has; after
/// the numbers are used up, the time.
pub open spec fn numbered_name(
    sessions: Seq<SessionView>,
    base: Seq<char>,
    number: nat,
    now_ms: u128,
) -> Seq<char>
    decreases 100 - number,
{
    if number >= 100 {
        base + " "@ + decimal((now_ms / 1000) as nat)
    } else if is_named(sessions, base + " "@ + decimal(number)) {
        numbered_name(sessions, base, number + 1, now_ms)
    } else {
        base + " "@ + decimal(number)
    }
}

/// The name of a copy of a profile.
pub open spec fn copy_name(sessions: Seq<SessionView>, name: Seq<char>, now_ms: u128) -> Seq<char> {
    let base = name + " Copy"@;
    if is_named(sessions, base) {
        numbered_name(sessions, base, 2, now_ms)
    } else {
        base
    }
}

pub fn unique_duplicate_name(sessions: &Vec<ContainerSession>, name: &str, now_ms: u128) -> (result:
    String)
    ensures
        result@ == copy_name(sessions.deep_view(), name@, now_ms),
{
    let base = concat(name, " Copy");
    if !has_name(sessions, base.as_str()) {
        return base;
    }
    for suffix in 2usize..100
        invariant
            2 <= suffix <= 100,
            base@ == name@ + " Copy"@,
            numbered_name(sessions.deep_view(), base@, 2, now_ms) == numbered_name(
                sessions.deep_view(),
                base@,
                suffix as nat,
                now_ms,
            ),
            is_named(sessions.deep_view(), base@),
    {
        let number = count_text(suffix);
        let candidate = concat3(base.as_str(), " ", number.as_str());
        if !has_name(sessions, candidate.as_str()) {
            return candidate;
        }
    }
    let seconds = decimal_text(now_ms / 1000);
    concat3(base.as_str(), " ", seconds.as_str())
}

proof fn lemma_numbered_name_is_new(
    sessions: Seq<SessionView>,
    base: Seq<char>,
    number: nat,
    now_ms: u128,
)
    requires
        !is_named(sessions, base + " "@ + decimal((now_ms / 1000) as nat)),
    ensures
        !is_named(sessions, numbered_name(sessions, base, number, now_ms)),
    decreases 100 - number,
{
    if number < 100 {
        lemma_numbered_name_is_new(sessions, base, number + 1, now_ms);
    }
}

/// A copy gets a name that no profile has, unless one has the name with the
/// time that is the last resort.
pub proof fn law_copy_name_is_new(sessions: Seq<SessionView>, name: Seq<char>, now_ms: u128)
    requires
        !is_named(sessions, name + " Copy"@ + " "@ + decimal((now_ms / 1000) as nat)),
    ensures
        !is_named(sessions, copy_name(sessions, name, now_ms)),
{
    lemma_numbered_name_is_new(sessions, name + " Copy"@, 2, now_ms);
}

// ---------------------------------------------------------------------------
// References of images
// ---------------------------------------------------------------------------
/// Whether a reference says which registry it is of.
pub open spec fn names_registry(reference: Seq<char>) -> bool {
    let first = split_at(reference, '/').first();
    reference.contains('/') && (first.contains('.') || first.contains(':') || first
        == "localhost"@)
}

/// The full reference of an image from what the user has typed and the registry
/// that was picked: the Docker Hub, GitHub's, Quay, or none.
pub open spec fn canonical_reference(source: isize, typed: Seq<char>) -> Seq<char> {
    let reference = without_prefixes(trimmed(typed), "docker://"@);
    if names_registry(reference) || source == 3 {
        reference
    } else if source == 1 {
        "ghcr.io/"@ + without_prefixes(reference, "/"@)
    } else if source == 2 {
        "quay.io/"@ + without_prefixes(reference, "/"@)
    } else if reference.contains('/') {
        "docker.io/"@ + without_prefixes(reference, "/"@)
    } else {
        "docker.io/library/"@ + reference
    }
}

pub fn normalize_registry_reference(source: isize, reference: &str) -> (result: String)
    ensures
        result@ == canonical_reference(source, reference@),
{
    let reference = trim_start_matches(trim(reference), "docker://");
    let parts = split(reference, '/');
    proof {
        lemma_pieces_nonempty(reference@, is_char('/'));
    }
    assert(parts.deep_view().first() == parts@[0]@);
    let first = parts[0].as_str();
    let nested = contains_char(reference, '/');
    let has_registry = nested && (contains_char(first, '.') || contains_char(first, ':') || same(
        first,
        "localhost",
    ));
    if has_registry || source == 3 {
        return reference.to_owned();
    }
    if source == 1 {
        concat("ghcr.io/", trim_start_matches(reference, "/"))
    } else if source == 2 {
        concat("quay.io/", trim_start_matches(reference, "/"))
    } else if nested {
        concat("docker.io/", trim_start_matches(reference, "/"))
    } else {
        concat("docker.io/library/", reference)
    }
}

/// The parts of a list that is separated by semicolons, without spaces around
/// them and without empty ones.
pub open spec fn listed_parts(parts: Seq<Seq<char>>) -> Seq<Seq<char>>
    decreases parts.len(),
{
    if parts.len() == 0 {
        Seq::empty()
    } else if trimmed(parts.last()).len() == 0 {
        listed_parts(parts.drop_last())
    } else {
        listed_parts(parts.drop_last()).push(trimmed(parts.last()))
    }
}

pub open spec fn semicolon_parts(value: Seq<char>) -> Seq<Seq<char>> {
    listed_parts(split_at(value, ';'))
}

pub fn semicolon_list(value: &str) -> (result: Vec<String>)
    ensures
        result.deep_view() == semicolon_parts(value@),
{
    let parts = split(value, ';');
    let ghost all = parts.deep_view();
    let mut result: Vec<String> = empty_list();
    for i in 0..parts.len()
        invariant
            all == parts.deep_view(),
            result.deep_view() == listed_parts(all.take(i as int)),
    {
        assert(all.take(i + 1).drop_last() == all.take(i as int));
        assert(all.take(i + 1).last() == parts@[i as int]@);
        let part = trim(parts[i].as_str());
        if part.unicode_len() != 0 {
            push_text(&mut result, part);
        }
    }
    assert(all.take(all.len() as int) == all);
    result
}

// ---------------------------------------------------------------------------
// Arguments, counts and times
// ---------------------------------------------------------------------------
/// The value of a flag among arguments: the argument behind it, or what stands
/// behind its equals sign.
pub open spec fn flag_value(arguments: Seq<Seq<char>>, flag: Seq<char>) -> Option<Seq<char>>
    decreases arguments.len(),
{
    if arguments.len() == 0 {
        None
    } else if arguments.first() == flag {
        if arguments.len() > 1 {
            Some(arguments[1])
        } else {
            None
        }
    } else {
        match after_prefix(arguments.first(), flag + "="@) {
            Some(value) => Some(value),
            None => flag_value(arguments.drop_first(), flag),
        }
    }
}

pub fn runtime_arg_value(arguments: &Vec<String>, flag: &str) -> (result: Option<String>)
    ensures
        result.deep_view() == flag_value(arguments.deep_view(), flag@),
{
    let ghost all = arguments.deep_view();
    let prefix = concat(flag, "=");
    assert(all.skip(0) == all);
    for i in 0..arguments.len()
        invariant
            all == arguments.deep_view(),
            prefix@ == flag@ + "="@,
            flag_value(all, flag@) == flag_value(all.skip(i as int), flag@),
    {
        assert(all.skip(i as int).drop_first() == all.skip(i + 1));
        assert(all.skip(i as int).first() == arguments@[i as int]@);
        if same(arguments[i].as_str(), flag) {
            if i + 1 < arguments.len() {
                assert(all.skip(i as int)[1] == arguments@[i + 1]@);
                return Some(arguments[i + 1].clone());
            }
            return None;
        }
        if let Some(value) = strip_prefix(arguments[i].as_str(), prefix.as_str()) {
            return Some(value.to_owned());
        }
    }
    None
}

/// Whether an argument and the one behind it belong together.
pub open spec fn takes_value(arguments: Seq<Seq<char>>) -> bool {
    &&& arguments.len() > 1
    &&& "--"@.is_prefix_of(arguments[0])
    &&& !arguments[0].contains('=')
    &&& !"--"@.is_prefix_of(arguments[1])
}

/// The arguments on lines, a flag together with its value.
pub open spec fn argument_lines(arguments: Seq<Seq<char>>) -> Seq<Seq<char>>
    decreases arguments.len(),
{
    if arguments.len() == 0 {
        Seq::empty()
    } else if takes_value(arguments) {
        seq![arguments[0] + " "@ + arguments[1]] + argument_lines(arguments.skip(2))
    } else {
        seq![arguments[0]] + argument_lines(arguments.skip(1))
    }
}

pub fn format_runtime_arguments(arguments: &Vec<String>) -> (result: String)
    ensures
        result@ == joined(argument_lines(arguments.deep_view()), "\n"@),
{
    let ghost all = arguments.deep_view();
    let mut lines: Vec<String> = empty_list();
    let mut i: usize = 0;
    assert(all.skip(0) == all);
    while i < arguments.len()
        invariant
            i <= arguments@.len(),
            all == arguments.deep_view(),
            lines.deep_view() + argument_lines(all.skip(i as int)) == argument_lines(all),
        decreases arguments@.len() - i,
    {
        let ghost rest = all.skip(i as int);
        let ghost before = lines.deep_view();
        assert(rest[0] == arguments@[i as int]@);
        let argument = arguments[i].as_str();
        let mut paired = false;
        if i + 1 < arguments.len() {
            assert(rest[1] == arguments@[i + 1]@);
            paired = starts_with(argument, "--") && !contains_char(argument, '=') && !starts_with(
                arguments[i + 1].as_str(),
                "--",
            );
        }
        assert(paired == takes_value(rest));
        if paired {
            let line = concat3(argument, " ", arguments[i + 1].as_str());
            push_text(&mut lines, line.as_str());
            assert(rest.skip(2) == all.skip(i + 2));
            i = i + 2;
        } else {
            push_text(&mut lines, argument);
            assert(rest.skip(1) == all.skip(i + 1));
            i = i + 1;
        }
        assert(lines.deep_view() + argument_lines(all.skip(i as int)) == before + argument_lines(
            rest,
        ));
    }
    assert(lines.deep_view() == argument_lines(all));
    join(&lines, "\n")
}

/// A number of things.
pub open spec fn counted(count: nat, noun: Seq<char>) -> Seq<char> {
    decimal(count) + " "@ + noun + (if count == 1 {
        ""@
    } else {
        "s"@
    })
}

pub fn format_count(count: usize, noun: &str) -> (result: String)
    ensures
        result@ == counted(count as nat, noun@),
{
    let number = count_text(count);
    concat4(
        number.as_str(),
        " ",
        noun,
        if count == 1 {
            ""
        } else {
            "s"
        },
    )
}

/// How long ago something was, in the largest unit of which there is one.
pub open spec fn ago(elapsed_ms: nat) -> Seq<char> {
    let seconds = elapsed_ms / 1000;
    if seconds < 60 {
        decimal(seconds) + "s ago"@
    } else if seconds < 3600 {
        decimal(seconds / 60) + "m ago"@
    } else if seconds < 86400 {
        decimal(seconds / 3600) + "h ago"@
    } else {
        decimal(seconds / 86400) + "d ago"@
    }
}

pub open spec fn elapsed(now_ms: u128, then_ms: u128) -> nat {
    if now_ms > then_ms {
        (now_ms - then_ms) as nat
    } else {
        0
    }
}

pub fn elapsed_time_label(now_ms: u128, started_at_unix_ms: u128) -> (result: String)
    ensures
        result@ == ago(elapsed(now_ms, started_at_unix_ms)),
{
    let elapsed_ms: u128 = if now_ms > started_at_unix_ms {
        now_ms - started_at_unix_ms
    } else {
        0
    };
    let seconds: u128 = elapsed_ms / 1000;
    if seconds < 60 {
        let number = decimal_text(seconds);
        concat(number.as_str(), "s ago")
    } else if seconds < 3600 {
        let number = decimal_text(seconds / 60);
        concat(number.as_str(), "m ago")
    } else if seconds < 86400 {
        let number = decimal_text(seconds / 3600);
        concat(number.as_str(), "h ago")
    } else {
        let number = decimal_text(seconds / 86400);
        concat(number.as_str(), "d ago")
    }
}

// ---------------------------------------------------------------------------
// Images of profiles
// ---------------------------------------------------------------------------
pub fn is_local_image_reference(image: &str) -> (result: bool)
    ensures
        result == ("localhost/"@.is_prefix_of(image@) || "localhost:"@.is_prefix_of(image@)
            || !image@.contains('/')),
{
    starts_with(image, "localhost/") || starts_with(image, "localhost:") || !contains_char(
        image,
        '/',
    )
}

pub fn is_smoke_image_reference(image: &str) -> (result: bool)
    ensures
        result == (occurs(image@, "cocoa-way-niri"@) || occurs(image@, "cocoa-way-smoke"@)),
{
    contains(image, "cocoa-way-niri") || contains(image, "cocoa-way-smoke")
}

// ---------------------------------------------------------------------------
// Lines that fit
// ---------------------------------------------------------------------------
/// The width that is left for a row, and never too little.
pub open spec fn row_width(max: nat, first: bool) -> nat {
    let left = if first {
        max
    } else if max > 2 {
        (max - 2) as nat
    } else {
        0
    };
    if left < 16 {
        16
    } else {
        left
    }
}

pub proof fn lemma_trimmed_start_shorter(text: Seq<char>)
    ensures
        trimmed_start(text).len() <= text.len(),
    decreases text.len(),
{
    if text.len() > 0 {
        lemma_trimmed_start_shorter(text.drop_first());
    }
}

/// A line broken into rows that fit: all but the first are indented, and spaces
/// where a row is broken are dropped.
pub open spec fn wrapped(line: Seq<char>, max: nat, first: bool) -> Seq<Seq<char>>
    decreases line.len(),
{
    if line.len() == 0 {
        Seq::empty()
    } else {
        let prefix = if first {
            ""@
        } else {
            "  "@
        };
        let width = row_width(max, first);
        if line.len() <= width {
            seq![prefix + line]
        } else {
            proof {
                lemma_trimmed_start_shorter(line.skip(width as int));
            }
            seq![prefix + line.take(width as int)] + wrapped(
                trimmed_start(line.skip(width as int)),
                max,
                false,
            )
        }
    }
}

pub open spec fn all_wrapped(lines: Seq<Seq<char>>, max: nat) -> Seq<Seq<char>>
    decreases lines.len(),
{
    if lines.len() == 0 {
        Seq::empty()
    } else {
        all_wrapped(lines.drop_last(), max) + wrapped(lines.last(), max, true)
    }
}

/// Splits a text after some number of characters.
pub fn split_at_char_count(value: &str, max_chars: usize) -> (result: (&str, &str))
    ensures
        result.0@ == (if value@.len() <= max_chars {
            value@
        } else {
            value@.take(max_chars as int)
        }),
        result.1@ == (if value@.len() <= max_chars {
            Seq::<char>::empty()
        } else {
            value@.skip(max_chars as int)
        }),
{
    let length: usize = value.unicode_len();
    if length <= max_chars {
        let rest = value.substring_char(length, length);
        assert(rest@ == Seq::<char>::empty());
        (value, rest)
    } else {
        let head = value.substring_char(0, max_chars);
        let rest = value.substring_char(max_chars, length);
        assert(head@ == value@.take(max_chars as int));
        assert(rest@ == value@.skip(max_chars as int));
        (head, rest)
    }
}

/// Breaks lines into rows that fit, and keeps the last rows.
pub fn wrapped_log_lines(logs: &Vec<String>, max_chars: usize, max_rows: usize) -> (result: Vec<
    String,
>)
    ensures
        result.deep_view() == last_of(
            all_wrapped(logs.deep_view(), max_chars as nat),
            max_rows as nat,
        ),
{
    let ghost all = logs.deep_view();
    let mut rows: Vec<String> = empty_list();
    for i in 0..logs.len()
        invariant
            all == logs.deep_view(),
            rows.deep_view() == all_wrapped(all.take(i as int), max_chars as nat),
    {
        assert(all.take(i + 1).drop_last() == all.take(i as int));
        assert(all.take(i + 1).last() == logs@[i as int]@);
        let ghost before = rows.deep_view();
        let ghost whole = wrapped(logs@[i as int]@, max_chars as nat, true);
        let mut remaining = logs[i].as_str();
        let mut first = true;
        assert(before + whole == before + whole);
        while remaining.unicode_len() != 0
            invariant
                rows.deep_view() + wrapped(remaining@, max_chars as nat, first) == before + whole,
            decreases remaining@.len(),
        {
            let ghost start = remaining@;
            let ghost written = rows.deep_view();
            let prefix = if first {
                ""
            } else {
                "  "
            };
            let left: usize = if first {
                max_chars
            } else if max_chars > 2 {
                max_chars - 2
            } else {
                0
            };
            let limit: usize = if left < 16 {
                16
            } else {
                left
            };
            let (chunk, rest) = split_at_char_count(remaining, limit);
            let row = concat(prefix, chunk);
            push_text(&mut rows, row.as_str());
            proof {
                lemma_trimmed_start_shorter(rest@);
            }
            remaining = trim_start(rest);
            assert(rows.deep_view() + wrapped(remaining@, max_chars as nat, false) == written
                + wrapped(start, max_chars as nat, first)) by {
                assert(limit == row_width(max_chars as nat, first));
            }
            first = false;
        }
        assert(rows.deep_view() == before + whole);
    }
    assert(all.take(all.len() as int) == all);
    keep_last(&mut rows, max_rows);
    rows
}

} // verus!
