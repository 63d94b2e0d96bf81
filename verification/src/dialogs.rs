//! The forms that the user fills in, and what is made of them.
use vstd::prelude::*;
use vstd::string::*;

use crate::container_mode::{
    active_of, note, one_effect, profile_invalidated, ActiveView, ContainerMode, Effect,
    EffectView, ModeView,
};
use crate::container_sessions::{ContainerSession, SessionView};
use crate::profiles::{
    canonical_reference, default_gui_runtime_args, default_session_name, example_image, gui_limits,
    name_for_image, normalize_profile, normalize_registry_reference, normalized_runtime_key,
    profile_of, runtime_key, runtime_label, semicolon_list, semicolon_parts, shown_runtime,
    smoke_image_reference, AddSessionDefaults, DefaultsView, NAV_SESSIONS,
};
use crate::storage::{bullet_list, bulleted};
use crate::text::{
    concat, concat3, concat4, concat5, concat6, copy_list, copy_option, count_text, decimal,
    empty_list, eq_ignore_ascii_case, lowered, outcome, push_deep, push_text, same, texts2, texts3,
    texts4, trim, trimmed,
};

verus! {

// ---------------------------------------------------------------------------
// Forms
// ---------------------------------------------------------------------------
/// What stands in a field of a form.
#[derive(Debug)]
pub enum FieldKind {
    /// A text, with an example that is shown while the field is empty.
    Text { example: String, value: String },
    /// A text that is not shown.
    Secret { example: String },
    /// One of several choices.
    Choice { options: Vec<String>, selected: usize },
    /// A text that cannot be changed.
    Fixed(String),
}

pub enum FieldKindView {
    Text { example: Seq<char>, value: Seq<char> },
    Secret { example: Seq<char> },
    Choice { options: Seq<Seq<char>>, selected: usize },
    Fixed(Seq<char>),
}

impl DeepView for FieldKind {
    type V = FieldKindView;

    open spec fn deep_view(&self) -> FieldKindView {
        match self {
            FieldKind::Text { example, value } => FieldKindView::Text {
                example: example@,
                value: value@,
            },
            FieldKind::Secret { example } => FieldKindView::Secret { example: example@ },
            FieldKind::Choice { options, selected } => FieldKindView::Choice {
                options: options.deep_view(),
                selected: *selected,
            },
            FieldKind::Fixed(text) => FieldKindView::Fixed(text@),
        }
    }
}

/// A form: a title, an explanation, fields with their names, and the word on the
/// button that accepts it. Each form can be cancelled.
#[derive(Debug)]
pub struct Dialog {
    pub title: String,
    pub detail: String,
    pub fields: Vec<(String, FieldKind)>,
    pub accept: String,
}

#[verifier::ext_equal]
pub struct DialogView {
    pub title: Seq<char>,
    pub detail: Seq<char>,
    pub fields: Seq<(Seq<char>, FieldKindView)>,
    pub accept: Seq<char>,
}

impl DeepView for Dialog {
    type V = DialogView;

    open spec fn deep_view(&self) -> DialogView {
        DialogView {
            title: self.title@,
            detail: self.detail@,
            fields: self.fields.deep_view(),
            accept: self.accept@,
        }
    }
}

fn text_field(fields: &mut Vec<(String, FieldKind)>, name: &str, example: &str, value: &str)
    ensures
        final(fields).deep_view() == old(fields).deep_view().push(
            (name@, FieldKindView::Text { example: example@, value: value@ }),
        ),
{
    push_deep(
        fields,
        (
            name.to_owned(),
            FieldKind::Text { example: example.to_owned(), value: value.to_owned() },
        ),
    );
}

fn choice_field(
    fields: &mut Vec<(String, FieldKind)>,
    name: &str,
    options: Vec<String>,
    selected: usize,
)
    ensures
        final(fields).deep_view() == old(fields).deep_view().push(
            (name@, FieldKindView::Choice { options: options.deep_view(), selected }),
        ),
{
    push_deep(fields, (name.to_owned(), FieldKind::Choice { options, selected }));
}

pub open spec fn filled(value: Seq<char>, other: Seq<char>) -> Seq<char> {
    if value.len() == 0 {
        other
    } else {
        value
    }
}

fn filled_text(value: &str, other: &str) -> (result: String)
    ensures
        result@ == filled(value@, other@),
{
    if value.unicode_len() == 0 {
        other.to_owned()
    } else {
        value.to_owned()
    }
}

// ---------------------------------------------------------------------------
// Profiles
// ---------------------------------------------------------------------------
/// The fields of the form for a profile.
pub open spec fn session_fields(defaults: DefaultsView) -> Seq<(Seq<char>, FieldKindView)> {
    seq![
        (
            "Name"@,
            FieldKindView::Text { example: "Niri Desktop"@, value: defaults.name },
        ),
        (
            "Runtime"@,
            FieldKindView::Text {
                example: "container"@,
                value: filled(defaults.runtime, "container"@),
            },
        ),
        (
            "Display"@,
            FieldKindView::Text { example: "auto"@, value: filled(defaults.display, "auto"@) },
        ),
        (
            "Presentation"@,
            FieldKindView::Choice {
                options: seq!["Desktop"@, "Rootless"@],
                selected: if lowered(defaults.presentation) == lowered("rootless"@) {
                    1
                } else {
                    0
                },
            },
        ),
        (
            "Profile"@,
            FieldKindView::Text {
                example: "niri / single-app / shell"@,
                value: filled(defaults.profile, "niri"@),
            },
        ),
        (
            "Image / Source"@,
            FieldKindView::Text { example: example_image(), value: defaults.image },
        ),
        ("Command"@, FieldKindView::Text { example: "niri"@, value: defaults.command }),
        (
            "Mounts"@,
            FieldKindView::Text {
                example: "separate multiple mounts with ;"@,
                value: defaults.mounts,
            },
        ),
        (
            "Env"@,
            FieldKindView::Text {
                example: "WAYLAND_DEBUG=1; RUST_LOG=info"@,
                value: defaults.env,
            },
        ),
        (
            "Audio"@,
            FieldKindView::Choice {
                options: seq!["Off"@, "Forward playback (Apple, experimental)"@],
                selected: if defaults.audio {
                    1
                } else {
                    0
                },
            },
        ),
    ]
}

/// The form for a profile, new or existing.
pub fn session_dialog(defaults: &AddSessionDefaults, is_edit: bool) -> (result: Dialog)
    ensures
        result.deep_view() == (DialogView {
            title: if is_edit {
                "Edit Application"@
            } else {
                "New Application"@
            },
            detail: if is_edit {
                "Update this Container Mode profile. Advanced socket and waypipe fields are preserved."@
            } else {
                "Create a Container Mode profile backed by Apple Container, Docker, or OrbStack."@
            },
            fields: session_fields(defaults.deep_view()),
            accept: if is_edit {
                "Save"@
            } else {
                "Create"@
            },
        }),
{
    let mut fields: Vec<(String, FieldKind)> = empty_list();
    text_field(&mut fields, "Name", "Niri Desktop", defaults.name.as_str());
    let runtime = filled_text(defaults.runtime.as_str(), "container");
    text_field(&mut fields, "Runtime", "container", runtime.as_str());
    let display = filled_text(defaults.display.as_str(), "auto");
    text_field(&mut fields, "Display", "auto", display.as_str());
    let rootless = eq_ignore_ascii_case(defaults.presentation.as_str(), "rootless");
    choice_field(
        &mut fields,
        "Presentation",
        texts2("Desktop", "Rootless"),
        if rootless {
            1
        } else {
            0
        },
    );
    let profile = filled_text(defaults.profile.as_str(), "niri");
    text_field(&mut fields, "Profile", "niri / single-app / shell", profile.as_str());
    text_field(
        &mut fields,
        "Image / Source",
        smoke_image_reference(),
        defaults.image.as_str(),
    );
    text_field(&mut fields, "Command", "niri", defaults.command.as_str());
    text_field(
        &mut fields,
        "Mounts",
        "separate multiple mounts with ;",
        defaults.mounts.as_str(),
    );
    text_field(&mut fields, "Env", "WAYLAND_DEBUG=1; RUST_LOG=info", defaults.env.as_str());
    choice_field(
        &mut fields,
        "Audio",
        texts2("Off", "Forward playback (Apple, experimental)"),
        if defaults.audio {
            1
        } else {
            0
        },
    );
    let title = if is_edit {
        "Edit Application"
    } else {
        "New Application"
    };
    let detail = if is_edit {
        "Update this Container Mode profile. Advanced socket and waypipe fields are preserved."
    } else {
        "Create a Container Mode profile backed by Apple Container, Docker, or OrbStack."
    };
    let accept = if is_edit {
        "Save"
    } else {
        "Create"
    };
    Dialog {
        title: title.to_owned(),
        detail: detail.to_owned(),
        fields,
        accept: accept.to_owned(),
    }
}

/// What the user has put into the form for a profile.
#[derive(Debug)]
pub struct SessionForm {
    pub name: String,
    pub runtime: String,
    pub display: String,
    pub presentation: isize,
    pub profile: String,
    pub image: String,
    pub command: String,
    pub mounts: String,
    pub env: String,
    pub audio: isize,
}

/// The runtime that a form asks for.
pub open spec fn form_runtime(form: SessionForm) -> Seq<char> {
    filled(trimmed(form.runtime@), "container"@)
}

/// What is wrong with a form: there is no image, or the sound is wanted where
/// it cannot be had.
pub open spec fn form_problem(form: SessionForm) -> Option<Seq<char>> {
    let runtime = form_runtime(form);
    if trimmed(form.image@).len() == 0 {
        Some("Enter an image reference before creating the session."@)
    } else if form.audio == 1 && (runtime == "docker"@ || runtime == "orb"@ || runtime
        == "orbstack"@) {
        Some("Audio forwarding currently requires Apple Container."@)
    } else {
        None
    }
}

/// The new profile that a form describes.
pub open spec fn form_session(form: SessionForm) -> SessionView {
    let image = trimmed(form.image@);
    let runtime = form_runtime(form);
    let profile = profile_of(trimmed(form.profile@));
    let command = trimmed(form.command@);
    SessionView {
        name: filled(trimmed(form.name@), name_for_image(image)),
        image,
        runtime,
        display: Some(filled(trimmed(form.display@), "auto"@)),
        presentation: Some(
            if form.presentation == 1 {
                "rootless"@
            } else {
                "desktop"@
            },
        ),
        profile,
        app: None,
        command: if command.len() == 0 {
            None
        } else {
            Some(command)
        },
        socket: None,
        container_socket: None,
        waypipe_path: None,
        waypipe_compress: None,
        waypipe_threads: None,
        audio: form.audio == 1,
        runtime_args: gui_limits(runtime, profile),
        mounts: semicolon_parts(trimmed(form.mounts@)),
        env: semicolon_parts(trimmed(form.env@)),
    }
}

/// An edited profile: what the form does not show stays as it was.
pub open spec fn edited_session(form: SessionForm, original: SessionView) -> SessionView {
    SessionView {
        app: original.app,
        socket: original.socket,
        container_socket: original.container_socket,
        waypipe_path: original.waypipe_path,
        waypipe_compress: original.waypipe_compress,
        waypipe_threads: original.waypipe_threads,
        runtime_args: original.runtime_args,
        ..form_session(form)
    }
}

/// Makes a profile of a form, on the ground of an existing one if there is one.
pub fn session_from_form(form: &SessionForm, original: Option<&ContainerSession>) -> (result: Result<
    ContainerSession,
    String,
>)
    ensures
        outcome(result) == (match form_problem(*form) {
            Some(problem) => Err::<SessionView, Seq<char>>(problem),
            None => Ok(
                match original {
                    Some(original) => edited_session(*form, original.deep_view()),
                    None => form_session(*form),
                },
            ),
        }),
{
    let image = trim(form.image.as_str());
    if image.unicode_len() == 0 {
        return Err("Enter an image reference before creating the session.".to_owned());
    }
    let runtime = filled_text(trim(form.runtime.as_str()), "container");
    let audio = form.audio == 1;
    if audio && (same(runtime.as_str(), "docker") || same(runtime.as_str(), "orb") || same(
        runtime.as_str(),
        "orbstack",
    )) {
        return Err("Audio forwarding currently requires Apple Container.".to_owned());
    }
    let profile = normalize_profile(trim(form.profile.as_str()));
    let runtime_args = default_gui_runtime_args(
        runtime.as_str(),
        match &profile {
            Some(profile) => Some(profile.as_str()),
            None => None,
        },
    );
    let fallback = default_session_name(image);
    let command = trim(form.command.as_str());
    let mut session = ContainerSession {
        name: filled_text(trim(form.name.as_str()), fallback.as_str()),
        image: image.to_owned(),
        runtime,
        display: Some(filled_text(trim(form.display.as_str()), "auto")),
        presentation: Some(
            if form.presentation == 1 {
                "rootless".to_owned()
            } else {
                "desktop".to_owned()
            },
        ),
        profile,
        app: None,
        command: if command.unicode_len() == 0 {
            None
        } else {
            Some(command.to_owned())
        },
        socket: None,
        container_socket: None,
        waypipe_path: None,
        waypipe_compress: None,
        waypipe_threads: None,
        audio,
        runtime_args,
        mounts: semicolon_list(trim(form.mounts.as_str())),
        env: semicolon_list(trim(form.env.as_str())),
    };
    assert(session.deep_view() == form_session(*form));
    if let Some(original) = original {
        session.app = copy_option(&original.app);
        session.socket = copy_option(&original.socket);
        session.container_socket = copy_option(&original.container_socket);
        session.waypipe_path = copy_option(&original.waypipe_path);
        session.waypipe_compress = copy_option(&original.waypipe_compress);
        session.waypipe_threads = original.waypipe_threads;
        session.runtime_args = copy_list(&original.runtime_args);
        assert(session.deep_view() == edited_session(*form, original.deep_view()));
    }
    Ok(session)
}

/// The window after a profile was saved: it is picked, and nothing is known of
/// it.
pub open spec fn saved_selected(mode: ModeView, index: Option<usize>) -> ModeView {
    let picked = ModeView { selected_nav: NAV_SESSIONS, selected_session: index, ..mode };
    match index {
        Some(index) => profile_invalidated(picked, index),
        None => picked,
    }
}

/// The profile that is picked after one was saved: the edited one, else the
/// last.
pub open spec fn saved_index(edited: Option<usize>, count: usize) -> Option<usize> {
    match edited {
        Some(index) => Some(index),
        None => if count == 0 {
            None
        } else {
            Some((count - 1) as usize)
        },
    }
}

/// A profile was saved, or not. `edited` is its number where it was there
/// before; `count` is how many profiles there are then.
pub fn session_saved(
    mode: &mut ContainerMode,
    session: &ContainerSession,
    edited: Option<usize>,
    count: usize,
    saved: Result<(), String>,
    now: u128,
) -> (result: Vec<Effect>)
    requires
        old(mode).well_formed(),
    ensures
        final(mode).well_formed(),
        match saved {
            Ok(_) => {
                &&& final(mode).deep_view() == note(
                    saved_selected(old(mode).deep_view(), saved_index(edited, count)),
                    now,
                    (if edited is Some {
                        "Updated"@
                    } else {
                        "Added"@
                    }) + " session: "@ + session.name@ + " ("@ + session.image@ + ")"@,
                )
                &&& result.deep_view() == seq![EffectView::Rebuild]
            },
            Err(error) => {
                let message = "Failed to "@ + (if edited is Some {
                    "update"@
                } else {
                    "add"@
                }) + " session: "@ + error@;
                &&& final(mode).deep_view() == note(old(mode).deep_view(), now, message)
                &&& result.deep_view() == seq![EffectView::Alert(message)]
            },
        },
{
    match saved {
        Ok(_) => {
            let index = match edited {
                Some(index) => Some(index),
                None => if count == 0 {
                    None
                } else {
                    Some(count - 1)
                },
            };
            mode.selected_nav = NAV_SESSIONS;
            mode.selected_session = index;
            if let Some(index) = index {
                mode.invalidate_profile_validation(index);
            }
            let message = concat6(
                if edited.is_some() {
                    "Updated"
                } else {
                    "Added"
                },
                " session: ",
                session.name.as_str(),
                " (",
                session.image.as_str(),
                ")",
            );
            mode.push_activity(now, message.as_str());
            one_effect(Effect::Rebuild)
        },
        Err(error) => {
            let message = concat4(
                "Failed to ",
                if edited.is_some() {
                    "update"
                } else {
                    "add"
                },
                " session: ",
                error.as_str(),
            );
            mode.push_activity(now, message.as_str());
            one_effect(Effect::Alert(message))
        },
    }
}

/// A profile that is edited and saved unchanged keeps what the form does not
/// show, whatever the form holds.
pub proof fn law_edit_keeps_hidden_fields(form: SessionForm, original: SessionView)
    ensures
        edited_session(form, original).app == original.app,
        edited_session(form, original).socket == original.socket,
        edited_session(form, original).container_socket == original.container_socket,
        edited_session(form, original).waypipe_path == original.waypipe_path,
        edited_session(form, original).waypipe_compress == original.waypipe_compress,
        edited_session(form, original).waypipe_threads == original.waypipe_threads,
        edited_session(form, original).runtime_args == original.runtime_args,
{
}

// ---------------------------------------------------------------------------
// Images
// ---------------------------------------------------------------------------
/// The form by which an image is fetched.
pub fn pull_dialog() -> (result: Dialog)
    ensures
        result.deep_view() == (DialogView {
            title: "Pull an Image"@,
            detail: "Choose a registry and destination. Base images still need waypipe and a GUI command before they can open a Cocoa-Way session."@,
            fields: seq![
                (
                    "Destination"@,
                    FieldKindView::Choice {
                        options: seq!["Apple Container"@, "Docker-compatible Context"@],
                        selected: 0,
                    },
                ),
                (
                    "Registry"@,
                    FieldKindView::Choice {
                        options: seq![
                            "Docker Hub"@,
                            "GitHub Container Registry"@,
                            "Quay"@,
                            "Custom OCI reference"@,
                        ],
                        selected: 0,
                    },
                ),
                (
                    "Reference"@,
                    FieldKindView::Text {
                        example: "library/ubuntu:24.04"@,
                        value: "library/ubuntu:24.04"@,
                    },
                ),
                (
                    "Platform"@,
                    FieldKindView::Choice {
                        options: seq![
                            "Native architecture"@,
                            "Linux arm64"@,
                            "Linux amd64"@,
                        ],
                        selected: 0,
                    },
                ),
                (
                    "Connection"@,
                    FieldKindView::Choice {
                        options: seq!["Runtime default"@, "HTTPS"@, "HTTP (insecure)"@],
                        selected: 0,
                    },
                ),
                (
                    "After pull"@,
                    FieldKindView::Choice {
                        options: seq!["Keep as a local image"@, "Create an application"@],
                        selected: 1,
                    },
                ),
            ],
            accept: "Pull"@,
        }),
{
    let mut fields: Vec<(String, FieldKind)> = empty_list();
    choice_field(
        &mut fields,
        "Destination",
        texts2("Apple Container", "Docker-compatible Context"),
        0,
    );
    choice_field(
        &mut fields,
        "Registry",
        texts4("Docker Hub", "GitHub Container Registry", "Quay", "Custom OCI reference"),
        0,
    );
    text_field(&mut fields, "Reference", "library/ubuntu:24.04", "library/ubuntu:24.04");
    choice_field(
        &mut fields,
        "Platform",
        texts3("Native architecture", "Linux arm64", "Linux amd64"),
        0,
    );
    choice_field(
        &mut fields,
        "Connection",
        texts3("Runtime default", "HTTPS", "HTTP (insecure)"),
        0,
    );
    choice_field(
        &mut fields,
        "After pull",
        texts2("Keep as a local image", "Create an application"),
        1,
    );
    Dialog {
        title: "Pull an Image".to_owned(),
        detail: "Choose a registry and destination. Base images still need waypipe and a GUI command before they can open a Cocoa-Way session.".to_owned(),
        fields,
        accept: "Pull".to_owned(),
    }
}

/// What the user has put into the form by which an image is fetched.
#[derive(Debug)]
pub struct PullForm {
    pub destination: isize,
    pub registry: isize,
    pub reference: String,
    pub platform: isize,
    pub connection: isize,
    pub after: isize,
}

/// The connection that was picked.
pub open spec fn connection_of(choice: isize) -> Option<Seq<char>> {
    if choice == 1 {
        Some("https"@)
    } else if choice == 2 {
        Some("http"@)
    } else {
        None
    }
}

fn connection_text(choice: isize) -> (result: Option<String>)
    ensures
        result.deep_view() == connection_of(choice),
{
    if choice == 1 {
        Some("https".to_owned())
    } else if choice == 2 {
        Some("http".to_owned())
    } else {
        None
    }
}

/// What the form by which an image is fetched asks for.
pub open spec fn pulled(form: PullForm) -> Result<EffectView, Seq<char>> {
    if trimmed(form.reference@).len() == 0 {
        Err::<EffectView, Seq<char>>("Image reference is required."@)
    } else {
        Ok(
            EffectView::PullImage {
                runtime: if form.destination == 1 {
                    "docker"@
                } else {
                    "container"@
                },
                image: canonical_reference(form.registry, trimmed(form.reference@)),
                platform: if form.platform == 1 {
                    Some("linux/arm64"@)
                } else if form.platform == 2 {
                    Some("linux/amd64"@)
                } else {
                    None
                },
                scheme: connection_of(form.connection),
                configure_session: form.after == 1,
            },
        )
    }
}

/// What is asked for once the form by which an image is fetched is accepted.
pub fn pull_request(form: &PullForm) -> (result: Result<Effect, String>)
    ensures
        outcome(result) == pulled(*form),
{
    let reference = trim(form.reference.as_str());
    if reference.unicode_len() == 0 {
        return Err("Image reference is required.".to_owned());
    }
    let runtime = if form.destination == 1 {
        "docker".to_owned()
    } else {
        "container".to_owned()
    };
    let platform = if form.platform == 1 {
        Some("linux/arm64".to_owned())
    } else if form.platform == 2 {
        Some("linux/amd64".to_owned())
    } else {
        None
    };
    Ok(
        Effect::PullImage {
            runtime,
            image: normalize_registry_reference(form.registry, reference),
            platform,
            scheme: connection_text(form.connection),
            configure_session: form.after == 1,
        },
    )
}

/// The form by which the user signs in to a registry.
pub fn login_dialog() -> (result: Dialog)
    ensures
        result.deep_view() == (DialogView {
            title: "Registry Login"@,
            detail: "Credentials are passed to Apple Container through standard input and are never added to process arguments or Cocoa-Way logs."@,
            fields: seq![
                (
                    "Registry"@,
                    FieldKindView::Text { example: "ghcr.io"@, value: "ghcr.io"@ },
                ),
                ("Username"@, FieldKindView::Text { example: "account name"@, value: ""@ }),
                (
                    "Token / password"@,
                    FieldKindView::Secret { example: "personal access token"@ },
                ),
                (
                    "Connection"@,
                    FieldKindView::Choice {
                        options: seq!["Runtime default"@, "HTTPS"@, "HTTP (insecure)"@],
                        selected: 0,
                    },
                ),
            ],
            accept: "Login"@,
        }),
{
    let mut fields: Vec<(String, FieldKind)> = empty_list();
    text_field(&mut fields, "Registry", "ghcr.io", "ghcr.io");
    text_field(&mut fields, "Username", "account name", "");
    push_deep(
        &mut fields,
        (
            "Token / password".to_owned(),
            FieldKind::Secret { example: "personal access token".to_owned() },
        ),
    );
    choice_field(
        &mut fields,
        "Connection",
        texts3("Runtime default", "HTTPS", "HTTP (insecure)"),
        0,
    );
    Dialog {
        title: "Registry Login".to_owned(),
        detail: "Credentials are passed to Apple Container through standard input and are never added to process arguments or Cocoa-Way logs.".to_owned(),
        fields,
        accept: "Login".to_owned(),
    }
}

/// What is asked for once that form is accepted.
pub fn login_request(server: &str, username: &str, password: &str, connection: isize) -> (result:
    Result<Effect, String>)
    ensures
        outcome(result) == (if trimmed(server@).len() == 0 || trimmed(username@).len() == 0
            || trimmed(password@).len() == 0 {
            Err::<EffectView, Seq<char>>("Registry, username, and token/password are required."@)
        } else {
            Ok(
                EffectView::LoginRegistry {
                    server: trimmed(server@),
                    username: trimmed(username@),
                    password: trimmed(password@),
                    scheme: connection_of(connection),
                },
            )
        }),
{
    let server = trim(server);
    let username = trim(username);
    let password = trim(password);
    if server.unicode_len() == 0 || username.unicode_len() == 0 || password.unicode_len() == 0 {
        return Err("Registry, username, and token/password are required.".to_owned());
    }
    Ok(
        Effect::LoginRegistry {
            server: server.to_owned(),
            username: username.to_owned(),
            password: password.to_owned(),
            scheme: connection_text(connection),
        },
    )
}

/// The form by which an image is deleted.
pub fn delete_image_dialog() -> (result: Dialog)
    ensures
        result.deep_view() == (DialogView {
            title: "Delete Image"@,
            detail: "Delete a local image from Apple Container or Docker. Running containers are not stopped by this action."@,
            fields: seq![
                (
                    "Runtime"@,
                    FieldKindView::Text { example: "container"@, value: "container"@ },
                ),
                ("Image"@, FieldKindView::Text { example: example_image(), value: ""@ }),
            ],
            accept: "Delete"@,
        }),
{
    let mut fields: Vec<(String, FieldKind)> = empty_list();
    text_field(&mut fields, "Runtime", "container", "container");
    text_field(&mut fields, "Image", smoke_image_reference(), "");
    Dialog {
        title: "Delete Image".to_owned(),
        detail: "Delete a local image from Apple Container or Docker. Running containers are not stopped by this action.".to_owned(),
        fields,
        accept: "Delete".to_owned(),
    }
}

/// What is asked for once that form is accepted.
pub fn delete_image_request(runtime: &str, image: &str) -> (result: Result<Effect, String>)
    ensures
        outcome(result) == (if trimmed(image@).len() == 0 {
            Err::<EffectView, Seq<char>>("Image is required."@)
        } else {
            Ok(
                EffectView::DeleteImage {
                    runtime: filled(trimmed(runtime@), "container"@),
                    image: trimmed(image@),
                },
            )
        }),
{
    let image = trim(image);
    if image.unicode_len() == 0 {
        return Err("Image is required.".to_owned());
    }
    Ok(
        Effect::DeleteImage {
            runtime: filled_text(trim(runtime), "container"),
            image: image.to_owned(),
        },
    )
}

// ---------------------------------------------------------------------------
// Volumes
// ---------------------------------------------------------------------------
/// The form by which a volume is made.
pub fn create_volume_dialog() -> (result: Dialog)
    ensures
        result.deep_view() == (DialogView {
            title: "Create Volume"@,
            detail: "Choose the runtime that will own this persistent volume."@,
            fields: seq![
                ("Name"@, FieldKindView::Text { example: "project-data"@, value: ""@ }),
                (
                    "Runtime"@,
                    FieldKindView::Choice {
                        options: seq!["Apple Container"@, "Docker-compatible Context"@],
                        selected: 0,
                    },
                ),
                ("Type"@, FieldKindView::Fixed("Managed volume"@)),
            ],
            accept: "Create"@,
        }),
{
    let mut fields: Vec<(String, FieldKind)> = empty_list();
    text_field(&mut fields, "Name", "project-data", "");
    choice_field(
        &mut fields,
        "Runtime",
        texts2("Apple Container", "Docker-compatible Context"),
        0,
    );
    push_deep(
        &mut fields,
        ("Type".to_owned(), FieldKind::Fixed("Managed volume".to_owned())),
    );
    Dialog {
        title: "Create Volume".to_owned(),
        detail: "Choose the runtime that will own this persistent volume.".to_owned(),
        fields,
        accept: "Create".to_owned(),
    }
}

/// What is asked for once that form is accepted.
pub fn create_volume_request(runtime: isize, volume: &str) -> (result: Result<Effect, String>)
    ensures
        outcome(result) == (if trimmed(volume@).len() == 0 {
            Err::<EffectView, Seq<char>>("Volume name is required."@)
        } else {
            Ok(
                EffectView::CreateVolume {
                    runtime: if runtime == 1 {
                        "docker"@
                    } else {
                        "container"@
                    },
                    volume: trimmed(volume@),
                },
            )
        }),
{
    let volume = trim(volume);
    if volume.unicode_len() == 0 {
        return Err("Volume name is required.".to_owned());
    }
    Ok(
        Effect::CreateVolume {
            runtime: if runtime == 1 {
                "docker".to_owned()
            } else {
                "container".to_owned()
            },
            volume: volume.to_owned(),
        },
    )
}

// ---------------------------------------------------------------------------
// Questions
// ---------------------------------------------------------------------------
/// What the user is asked before a profile is deleted.
pub fn delete_session_question(name: &str) -> (result: (String, String))
    ensures
        result.0@ == "Delete profile “"@ + name@ + "”?"@,
        result.1@ == "This removes the saved launch configuration for '"@ + name@
            + "'. Images, volumes, containers, and displays will not be deleted."@,
{
    (
        concat3("Delete profile “", name, "”?"),
        concat3(
            "This removes the saved launch configuration for '",
            name,
            "'. Images, volumes, containers, and displays will not be deleted.",
        ),
    )
}

/// What the user is asked before a container or a machine is deleted.
pub fn delete_resource_question(kind: &str, runtime: &str, name: &str) -> (result: (String, String))
    ensures
        result.0@ == "Delete "@ + kind@ + "?"@,
        result.1@ == "This deletes '"@ + name@ + "' from "@ + shown_runtime(runtime@)
            + ". Running containers that use it may fail."@,
{
    (
        concat3("Delete ", kind, "?"),
        concat5(
            "This deletes '",
            name,
            "' from ",
            runtime_label(runtime),
            ". Running containers that use it may fail.",
        ),
    )
}

/// What the settings say.
pub fn settings_text(config_path: &str) -> (result: String)
    ensures
        result@ == "General\nLocal, open-source control plane.\n\nRuntime\nApple Container is first-class; Docker-compatible contexts are optional providers.\n\nDisplay\nProfiles may use auto, default, or a named managed display.\n\nStorage\nImage and volume operations are checked before destructive actions.\n\nAdvanced\nConfiguration file: "@
            + config_path@,
{
    concat(
        "General\nLocal, open-source control plane.\n\nRuntime\nApple Container is first-class; Docker-compatible contexts are optional providers.\n\nDisplay\nProfiles may use auto, default, or a named managed display.\n\nStorage\nImage and volume operations are checked before destructive actions.\n\nAdvanced\nConfiguration file: ",
        config_path,
    )
}

/// Whether a profile has an instance and runs on Apple Container.
pub open spec fn runs_on_apple(
    sessions: Seq<SessionView>,
    active: Seq<ActiveView>,
    index: int,
) -> bool {
    index < sessions.len() && active_of(active, index as usize) is Some && runtime_key(
        sessions[index].runtime,
    ) == "apple"@
}

/// The profiles, from the first some number of them, that run on Apple
/// Container.
pub open spec fn apple_profiles(
    sessions: Seq<SessionView>,
    active: Seq<ActiveView>,
    count: int,
) -> Seq<usize>
    decreases count,
{
    if count <= 0 {
        Seq::empty()
    } else if runs_on_apple(sessions, active, count - 1) {
        apple_profiles(sessions, active, count - 1).push((count - 1) as usize)
    } else {
        apple_profiles(sessions, active, count - 1)
    }
}

pub open spec fn names_of(sessions: Seq<SessionView>, indices: Seq<usize>) -> Seq<Seq<char>> {
    indices.map_values(|index: usize| sessions[index as int].name)
}

/// The profiles that have to be stopped before Apple Container is, in their
/// order, and the question that the user is asked: none where nothing runs.
pub fn confirm_stop_apple_runtime(mode: &ContainerMode, sessions: &Vec<ContainerSession>) -> (result:
    (Vec<usize>, Option<(String, String)>))
    ensures
        ({
            let running = apple_profiles(
                sessions.deep_view(),
                mode.deep_view().active_sessions,
                sessions@.len() as int,
            );
            &&& result.0@ == running
            &&& result.1.deep_view() == (if running.len() == 0 {
                None
            } else {
                Some(
                    (
                        "Apple Container has "@ + decimal(running.len())
                            + " running Cocoa-Way instance"@ + (if running.len() == 1 {
                            ""@
                        } else {
                            "s"@
                        }) + "."@,
                        "Stopping the runtime requires these application instances to be terminated first:\n\n"@
                            + bulleted(names_of(sessions.deep_view(), running))
                            + "\n\nThis does not delete their saved profiles or images."@,
                    ),
                )
            })
        }),
{
    let ghost all = sessions.deep_view();
    let ghost active = mode.deep_view().active_sessions;
    let mut running: Vec<usize> = Vec::new();
    let mut names: Vec<String> = empty_list();
    assert(names_of(all, Seq::empty()) == Seq::<Seq<char>>::empty());
    for i in 0..sessions.len()
        invariant
            all == sessions.deep_view(),
            active == mode.deep_view().active_sessions,
            running@ == apple_profiles(all, active, i as int),
            names.deep_view() == names_of(all, running@),
    {
        assert(all[i as int] == sessions@[i as int].deep_view());
        if mode.active_session(i).is_some() && same(
            normalized_runtime_key(sessions[i].runtime.as_str()),
            "apple",
        ) {
            let ghost before = running@;
            running.push(i);
            push_text(&mut names, sessions[i].name.as_str());
            assert(names_of(all, before.push(i)) == names_of(all, before).push(all[i as int].name));
        }
    }
    if running.len() == 0 {
        return (running, None);
    }
    let number = count_text(running.len());
    let title = concat5(
        "Apple Container has ",
        number.as_str(),
        " running Cocoa-Way instance",
        if running.len() == 1 {
            ""
        } else {
            "s"
        },
        ".",
    );
    let list = bullet_list(&names);
    let detail = concat3(
        "Stopping the runtime requires these application instances to be terminated first:\n\n",
        list.as_str(),
        "\n\nThis does not delete their saved profiles or images.",
    );
    (running, Some((title, detail)))
}

} // verus!
