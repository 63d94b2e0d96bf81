//! What the buttons of the container window do.
use vstd::prelude::*;
use vstd::string::*;

use crate::actions::{
    application_diagnostics, diagnostics_text, managed_display_command, managed_display_environment, request_selected_runtime_container_details,
};
use crate::container_mode::{
    image_task_set, note, one_effect, session_selected, two_effects, ContainerMode, Effect,
    EffectView, ManagedDisplaySnapshot, ModeView,
};
use crate::container_sessions::{slug_of, ContainerSession, SessionView};
use crate::diagnostics::{
    ensure_storage_growth_allowed, tenths, tenths_text, STORAGE_GROWTH_MINIMUM_BYTES,
};
use crate::dialogs::{delete_resource_question, pull_request, pulled, PullForm};
use crate::page::{Action, ActionView, Command};
use crate::profiles::{
    example_build_command, example_image, shown_runtime, smoke_build_context,
    smoke_containerfile_path, smoke_image_build_command, smoke_image_reference,
};
use crate::records::record_storage_growth_blocked;
use crate::runtime_paths::quoted;
use crate::session_config::{session_to_toml, session_toml};
use crate::text::{concat, empty_list, outcome, push_deep, texts1, texts2};
use crate::window::export_file_name;

verus! {

// ---------------------------------------------------------------------------
// Room on the disk
// ---------------------------------------------------------------------------
/// Why no image may be built, fetched or loaded; none if it may.
pub open spec fn storage_problem(available: Option<u64>) -> Option<Seq<char>> {
    match available {
        None => Some("Unable to determine available disk space"@),
        Some(bytes) => if bytes < STORAGE_GROWTH_MINIMUM_BYTES {
            Some(
                "Only "@ + tenths_text(tenths(bytes as nat, 0x4000_0000))
                    + " GiB is free. Cocoa-Way requires at least 8 GiB before building, pulling, or loading an image."@,
            )
        } else {
            None
        },
    }
}

/// The window after an image was refused for want of room.
pub open spec fn storage_blocked(
    mode: ModeView,
    action: Seq<char>,
    problem: Seq<char>,
    now: u128,
) -> ModeView {
    note(
        image_task_set(mode, None),
        now,
        "Storage protection blocked "@ + action + ": "@ + problem,
    )
}

pub open spec fn blocked_effects(problem: Seq<char>) -> Seq<EffectView> {
    seq![EffectView::Rebuild, EffectView::Alert(problem)]
}

/// Whether there is room for another image. If there is not, the user is told,
/// and what was under way is over.
pub fn allow_storage_growth(
    mode: &mut ContainerMode,
    action: &str,
    available: Option<u64>,
    now: u128,
) -> (result: Option<Vec<Effect>>)
    requires
        old(mode).well_formed(),
    ensures
        final(mode).well_formed(),
        match storage_problem(available) {
            None => result is None && final(mode).deep_view() == old(mode).deep_view(),
            Some(problem) => {
                &&& result is Some
                &&& result->0.deep_view() == blocked_effects(problem)
                &&& final(mode).deep_view() == storage_blocked(
                    old(mode).deep_view(),
                    action@,
                    problem,
                    now,
                )
            },
        },
{
    match ensure_storage_growth_allowed(available) {
        Ok(_) => None,
        Err(problem) => {
            let mut effects = record_storage_growth_blocked(mode, action, problem.as_str(), now);
            push_deep(&mut effects, Effect::Alert(problem));
            Some(effects)
        },
    }
}

/// The user builds the image of the example.
pub fn request_smoke_image_build(mode: &mut ContainerMode, available: Option<u64>, now: u128) -> (
    result: Vec<Effect>)
    requires
        old(mode).well_formed(),
    ensures
        final(mode).well_formed(),
        match storage_problem(available) {
            Some(problem) => {
                &&& final(mode).deep_view() == storage_blocked(
                    old(mode).deep_view(),
                    "build the example image"@,
                    problem,
                    now,
                )
                &&& result.deep_view() == blocked_effects(problem)
            },
            None => {
                &&& final(mode).deep_view() == note(
                    old(mode).deep_view(),
                    now,
                    "Example image build requested: "@ + example_image(),
                )
                &&& result.deep_view() == seq![
                    EffectView::BuildImage {
                        image: example_image(),
                        containerfile: "examples/container-images/Containerfile.niri"@,
                        context: "."@,
                    },
                ]
            },
        },
{
    if let Some(effects) = allow_storage_growth(mode, "build the example image", available, now) {
        return effects;
    }
    let message = concat("Example image build requested: ", smoke_image_reference());
    mode.push_activity(now, message.as_str());
    one_effect(
        Effect::BuildImage {
            image: smoke_image_reference().to_owned(),
            containerfile: smoke_containerfile_path().to_owned(),
            context: smoke_build_context().to_owned(),
        },
    )
}

/// The user builds the image of the example for a profile, which is picked.
pub fn build_smoke_container_session_image(
    mode: &mut ContainerMode,
    index: usize,
    available: Option<u64>,
    now: u128,
) -> (result: Vec<Effect>)
    requires
        old(mode).well_formed(),
    ensures
        final(mode).well_formed(),
        ({
            let picked = session_selected(old(mode).deep_view(), index);
            match storage_problem(available) {
                Some(problem) => {
                    &&& final(mode).deep_view() == storage_blocked(
                        picked,
                        "build the example image"@,
                        problem,
                        now,
                    )
                    &&& result.deep_view() == blocked_effects(problem).push(EffectView::Rebuild)
                },
                None => {
                    &&& final(mode).deep_view() == note(
                        picked,
                        now,
                        "Example image build requested: "@ + example_image(),
                    )
                    &&& result.deep_view() == seq![
                        EffectView::BuildImage {
                            image: example_image(),
                            containerfile: "examples/container-images/Containerfile.niri"@,
                            context: "."@,
                        },
                        EffectView::Rebuild,
                    ]
                },
            }
        }),
{
    mode.select_session(index);
    let mut effects = request_smoke_image_build(mode, available, now);
    push_deep(&mut effects, Effect::Rebuild);
    effects
}

/// The user fetches the image that a profile lacks.
pub fn pull_container_session_image(
    mode: &mut ContainerMode,
    sessions: &Vec<ContainerSession>,
    index: usize,
    available: Option<u64>,
    now: u128,
) -> (result: Vec<Effect>)
    requires
        old(mode).well_formed(),
    ensures
        final(mode).well_formed(),
        ({
            let profiles: Seq<SessionView> = sessions.deep_view();
            if index >= profiles.len() {
                &&& final(mode).deep_view() == old(mode).deep_view()
                &&& result.deep_view() == seq![
                    EffectView::Alert("Application profile no longer exists."@),
                ]
            } else {
                let session = profiles[index as int];
                let asked = note(
                    session_selected(old(mode).deep_view(), index),
                    now,
                    "Pull requested for missing image: "@ + session.image,
                );
                match storage_problem(available) {
                    Some(problem) => {
                        &&& final(mode).deep_view() == storage_blocked(
                            asked,
                            "pull the missing session image"@,
                            problem,
                            now,
                        )
                        &&& result.deep_view() == blocked_effects(problem)
                    },
                    None => {
                        &&& final(mode).deep_view() == asked
                        &&& result.deep_view() == seq![
                            EffectView::PullImage {
                                runtime: session.runtime,
                                image: session.image,
                                platform: None,
                                scheme: None,
                                configure_session: false,
                            },
                            EffectView::Rebuild,
                        ]
                    },
                }
            }
        }),
{
    if index >= sessions.len() {
        return one_effect(Effect::Alert("Application profile no longer exists.".to_owned()));
    }
    let session = &sessions[index];
    assert(sessions.deep_view()[index as int] == sessions@[index as int].deep_view());
    mode.select_session(index);
    let message = concat("Pull requested for missing image: ", session.image.as_str());
    mode.push_activity(now, message.as_str());
    if let Some(effects) = allow_storage_growth(
        mode,
        "pull the missing session image",
        available,
        now,
    ) {
        return effects;
    }
    two_effects(
        Effect::PullImage {
            runtime: session.runtime.clone(),
            image: session.image.clone(),
            platform: None,
            scheme: None,
            configure_session: false,
        },
        Effect::Rebuild,
    )
}

/// The user has filled in the form by which an image is fetched.
pub fn pull_image(mode: &mut ContainerMode, form: &PullForm, available: Option<u64>, now: u128) -> (
    result: Vec<Effect>)
    requires
        old(mode).well_formed(),
    ensures
        final(mode).well_formed(),
        match pulled(*form) {
            Err(message) => {
                &&& final(mode).deep_view() == old(mode).deep_view()
                &&& result.deep_view() == seq![EffectView::Alert(message)]
            },
            Ok(effect) => match storage_problem(available) {
                Some(problem) => {
                    &&& final(mode).deep_view() == storage_blocked(
                        old(mode).deep_view(),
                        "pull an image"@,
                        problem,
                        now,
                    )
                    &&& result.deep_view() == blocked_effects(problem)
                },
                None => {
                    &&& final(mode).deep_view() == old(mode).deep_view()
                    &&& result.deep_view() == seq![effect]
                },
            },
        },
{
    match pull_request(form) {
        Err(message) => one_effect(Effect::Alert(message)),
        Ok(effect) => {
            if let Some(effects) = allow_storage_growth(mode, "pull an image", available, now) {
                return effects;
            }
            one_effect(effect)
        },
    }
}

/// What came of the panel in which the user picks an archive.
#[derive(Debug)]
pub enum ArchiveChoice {
    Cancelled,
    /// Nothing was picked.
    Nothing,
    /// What was picked is no file of this machine.
    NoPath,
    Path(String),
}

/// The user loads an archive. Where there is no room for an image, what was picked
/// makes no difference.
pub fn load_image(
    mode: &mut ContainerMode,
    available: Option<u64>,
    choice: ArchiveChoice,
    now: u128,
) -> (result: Vec<Effect>)
    requires
        old(mode).well_formed(),
    ensures
        final(mode).well_formed(),
        match storage_problem(available) {
            Some(problem) => {
                &&& final(mode).deep_view() == storage_blocked(
                    old(mode).deep_view(),
                    "load an OCI archive"@,
                    problem,
                    now,
                )
                &&& result.deep_view() == blocked_effects(problem)
            },
            None => {
                &&& final(mode).deep_view() == old(mode).deep_view()
                &&& result.deep_view() == (match choice {
                    ArchiveChoice::Cancelled => Seq::<EffectView>::empty(),
                    ArchiveChoice::Nothing => seq![EffectView::Alert("No archive was selected."@)],
                    ArchiveChoice::NoPath => seq![
                        EffectView::Alert(
                            "Selected archive does not have a local filesystem path."@,
                        ),
                    ],
                    ArchiveChoice::Path(path) => seq![EffectView::LoadImage(path@)],
                })
            },
        },
{
    if let Some(effects) = allow_storage_growth(mode, "load an OCI archive", available, now) {
        return effects;
    }
    match choice {
        ArchiveChoice::Cancelled => empty_list(),
        ArchiveChoice::Nothing => one_effect(Effect::Alert("No archive was selected.".to_owned())),
        ArchiveChoice::NoPath => one_effect(
            Effect::Alert("Selected archive does not have a local filesystem path.".to_owned()),
        ),
        ArchiveChoice::Path(path) => one_effect(Effect::LoadImage(path)),
    }
}

/// An image is built, fetched or loaded.
pub open spec fn grows(effect: EffectView) -> bool {
    effect is BuildImage || effect is PullImage || effect is LoadImage
}

/// Nothing that makes the storage grow is asked for where an image was refused
/// for want of room.
pub proof fn law_blocked_effects_do_not_grow(problem: Seq<char>)
    ensures
        forall|i: int| 0 <= i < blocked_effects(problem).len() ==> !grows(
            #[trigger] blocked_effects(problem)[i],
        ),
{
}

/// An image is refused exactly where less than eight gibibytes are known to be
/// free.
pub proof fn law_room_is_eight_gibibytes(available: Option<u64>)
    ensures
        storage_problem(available) is None <==> (available is Some && available->0
            >= 8 * 1024 * 1024 * 1024),
{
}

// ---------------------------------------------------------------------------
// The window itself
// ---------------------------------------------------------------------------
/// The user empties the list of what happened.
pub fn clear_container_activity(mode: &mut ContainerMode) -> (result: Vec<Effect>)
    requires
        old(mode).well_formed(),
    ensures
        final(mode).well_formed(),
        final(mode).deep_view() == (ModeView {
            activity: Seq::empty(),
            ..old(mode).deep_view()
        }),
        result.deep_view() == seq![EffectView::Rebuild],
{
    mode.activity.clear();
    one_effect(Effect::Rebuild)
}

/// The user picks a tab.
pub fn select_container_tab(mode: &mut ContainerMode, tab: usize) -> (result: Vec<Effect>)
    requires
        old(mode).well_formed(),
    ensures
        final(mode).well_formed(),
        final(mode).deep_view() == (ModeView { selected_tab: tab, ..old(mode).deep_view() }),
        result.deep_view() == seq![EffectView::Rebuild],
{
    mode.selected_tab = tab;
    one_effect(Effect::Rebuild)
}

fn append_effects(effects: &mut Vec<Effect>, more: Vec<Effect>)
    ensures
        final(effects).deep_view() == old(effects).deep_view() + more.deep_view(),
{
    let ghost before = effects.deep_view();
    let ghost all = more@;
    for effect in it: more
        invariant
            it.seq() == all,
            effects.deep_view() == before + more.deep_view().take(it.index() as int),
    {
        push_deep(effects, effect);
    }
}

/// The user asks for everything anew.
pub fn reload_container_mode(mode: &mut ContainerMode) -> (result: Vec<Effect>)
    requires
        old(mode).well_formed(),
    ensures
        final(mode).well_formed(),
        match old(mode).deep_view().selected_container {
            Some(container) => {
                &&& final(mode).deep_view() == (ModeView {
                    container_details: None,
                    ..old(mode).deep_view()
                })
                &&& result.deep_view() == seq![
                    EffectView::InvalidateCommands,
                    EffectView::RefreshContainerDetails {
                        runtime: container.runtime,
                        name: container.name,
                    },
                    EffectView::Rebuild,
                ]
            },
            None => {
                &&& final(mode).deep_view() == old(mode).deep_view()
                &&& result.deep_view() == seq![EffectView::InvalidateCommands, EffectView::Rebuild]
            },
        },
{
    let mut effects = one_effect(Effect::InvalidateCommands);
    let details = request_selected_runtime_container_details(mode);
    let ghost asked = details.deep_view();
    append_effects(&mut effects, details);
    assert(effects.deep_view() == seq![EffectView::InvalidateCommands] + asked);
    push_deep(&mut effects, Effect::Rebuild);
    effects
}

// ---------------------------------------------------------------------------
// Copying
// ---------------------------------------------------------------------------
/// The user copies the command that builds the image of the example.
pub fn copy_smoke_image_build_command(mode: &mut ContainerMode, now: u128) -> (result: Vec<Effect>)
    requires
        old(mode).well_formed(),
    ensures
        final(mode).well_formed(),
        final(mode).deep_view() == note(
            old(mode).deep_view(),
            now,
            "Copied example image build command."@,
        ),
        result.deep_view() == seq![
            EffectView::CopyText(example_build_command()),
            EffectView::Rebuild,
        ],
{
    mode.push_activity(now, "Copied example image build command.");
    two_effects(Effect::CopyText(smoke_image_build_command()), Effect::Rebuild)
}

/// The user copies one of the commands that are listed.
pub fn copy_container_command(
    mode: &mut ContainerMode,
    commands: &Vec<String>,
    index: usize,
    now: u128,
) -> (result: Vec<Effect>)
    requires
        old(mode).well_formed(),
    ensures
        final(mode).well_formed(),
        if index < commands.deep_view().len() {
            let command = commands.deep_view()[index as int];
            &&& final(mode).deep_view() == note(
                old(mode).deep_view(),
                now,
                "Copied command: "@ + command,
            )
            &&& result.deep_view() == seq![EffectView::CopyText(command), EffectView::Rebuild]
        } else {
            &&& final(mode).deep_view() == old(mode).deep_view()
            &&& result.deep_view() == seq![EffectView::Alert("Command no longer exists."@)]
        },
{
    if index >= commands.len() {
        return one_effect(Effect::Alert("Command no longer exists.".to_owned()));
    }
    assert(commands.deep_view()[index as int] == commands@[index as int]@);
    let message = concat("Copied command: ", commands[index].as_str());
    mode.push_activity(now, message.as_str());
    two_effects(Effect::CopyText(commands[index].clone()), Effect::Rebuild)
}

/// The user copies all that helps to find out what is wrong with an application.
pub fn copy_application_diagnostics(
    mode: &mut ContainerMode,
    sessions: &Vec<ContainerSession>,
    index: usize,
    now: u128,
) -> (result: Vec<Effect>)
    requires
        old(mode).well_formed(),
    ensures
        final(mode).well_formed(),
        if index < sessions.deep_view().len() {
            let session = sessions.deep_view()[index as int];
            &&& final(mode).deep_view() == note(
                old(mode).deep_view(),
                now,
                "Copied diagnostics for application: "@ + session.name,
            )
            &&& result.deep_view() == seq![
                EffectView::CopyText(diagnostics_text(old(mode).deep_view(), session, index)),
            ]
        } else {
            &&& final(mode).deep_view() == old(mode).deep_view()
            &&& result.deep_view() == seq![
                EffectView::Alert("Application profile no longer exists."@),
            ]
        },
{
    if index >= sessions.len() {
        return one_effect(Effect::Alert("Application profile no longer exists.".to_owned()));
    }
    assert(sessions.deep_view()[index as int] == sessions@[index as int].deep_view());
    let text = application_diagnostics(mode, &sessions[index], index);
    let message = concat("Copied diagnostics for application: ", sessions[index].name.as_str());
    mode.push_activity(now, message.as_str());
    one_effect(Effect::CopyText(text))
}

/// The user copies the variables by which a display is reached.
pub fn copy_managed_display_environment(
    mode: &mut ContainerMode,
    display: &ManagedDisplaySnapshot,
    now: u128,
) -> (result: Vec<Effect>)
    requires
        old(mode).well_formed(),
    ensures
        final(mode).well_formed(),
        final(mode).deep_view() == note(
            old(mode).deep_view(),
            now,
            "Copied environment for managed display: "@ + display.slot@,
        ),
        result.deep_view() == seq![
            EffectView::CopyText(
                "export XDG_RUNTIME_DIR="@ + quoted(display.runtime_dir@) + " WAYLAND_DISPLAY="@
                    + quoted(display.display@),
            ),
        ],
{
    let message = concat("Copied environment for managed display: ", display.slot.as_str());
    mode.push_activity(now, message.as_str());
    one_effect(Effect::CopyText(managed_display_environment(display)))
}

/// The user copies the command that shows an application on a display.
pub fn copy_managed_display_command(
    mode: &mut ContainerMode,
    display: &ManagedDisplaySnapshot,
    now: u128,
) -> (result: Vec<Effect>)
    requires
        old(mode).well_formed(),
    ensures
        final(mode).well_formed(),
        final(mode).deep_view() == note(
            old(mode).deep_view(),
            now,
            "Copied run_waypipe.sh command for managed display: "@ + display.slot@,
        ),
        result.deep_view() == seq![
            EffectView::CopyText("./run_waypipe.sh --display "@ + quoted(display.slot@)),
        ],
{
    let message = concat(
        "Copied run_waypipe.sh command for managed display: ",
        display.slot.as_str(),
    );
    mode.push_activity(now, message.as_str());
    one_effect(Effect::CopyText(managed_display_command(display)))
}

// ---------------------------------------------------------------------------
// Other programs of the host
// ---------------------------------------------------------------------------
/// What is said once a display was to come to the front: whether its process
/// was found, and whether the host has put it there.
pub fn focus_managed_display(found: bool, activated: bool) -> (result: Vec<Effect>)
    ensures
        result.deep_view() == (if !found {
            seq![EffectView::Alert("The managed display process is no longer running."@)]
        } else if !activated {
            seq![EffectView::Alert("macOS could not focus the managed display window."@)]
        } else {
            Seq::<EffectView>::empty()
        }),
{
    if !found {
        one_effect(Effect::Alert("The managed display process is no longer running.".to_owned()))
    } else if !activated {
        one_effect(Effect::Alert("macOS could not focus the managed display window.".to_owned()))
    } else {
        empty_list()
    }
}

/// The page on which releases of the Apple runtime are found.
pub const APPLE_CONTAINER_RELEASES_URL: &'static str = "https://github.com/apple/container/releases/latest";

/// A program of the host that the user opens.
#[derive(Clone, Copy, Debug, PartialEq, Eq, Structural)]
pub enum HostPage {
    DataRoot,
    Releases,
    OrbStack,
}

/// The words that are handed to the host's command `open`.
pub fn open_words(page: HostPage, data_root: &str) -> (result: Vec<String>)
    ensures
        result.deep_view() == (match page {
            HostPage::DataRoot => seq![data_root@],
            HostPage::Releases => seq![APPLE_CONTAINER_RELEASES_URL@],
            HostPage::OrbStack => seq!["-a"@, "OrbStack"@],
        }),
{
    match page {
        HostPage::DataRoot => texts1(data_root),
        HostPage::Releases => texts1(APPLE_CONTAINER_RELEASES_URL),
        HostPage::OrbStack => texts2("-a", "OrbStack"),
    }
}

/// What is said once the host was to open something. That a folder could not be
/// opened is not found out.
pub fn host_page_opened(
    mode: &mut ContainerMode,
    page: HostPage,
    opened: Result<(), String>,
    now: u128,
) -> (result: Vec<Effect>)
    requires
        old(mode).well_formed(),
    ensures
        final(mode).well_formed(),
        match (page, opened) {
            (HostPage::DataRoot, _) => {
                &&& final(mode).deep_view() == note(
                    old(mode).deep_view(),
                    now,
                    "Opened Apple Container data root."@,
                )
                &&& result.deep_view() == seq![EffectView::Rebuild]
            },
            (HostPage::Releases, Ok(_)) => {
                &&& final(mode).deep_view() == note(
                    old(mode).deep_view(),
                    now,
                    "Opened the official Apple Container release page."@,
                )
                &&& result.deep_view() == seq![EffectView::Rebuild]
            },
            (HostPage::OrbStack, Ok(_)) => {
                &&& final(mode).deep_view() == note(old(mode).deep_view(), now, "Opened OrbStack."@)
                &&& result.deep_view() == seq![EffectView::Rebuild]
            },
            (HostPage::Releases, Err(error)) => {
                &&& final(mode).deep_view() == old(mode).deep_view()
                &&& result.deep_view() == seq![
                    EffectView::Alert(
                        "Could not open the Apple Container release page: "@ + error@,
                    ),
                    EffectView::Rebuild,
                ]
            },
            (HostPage::OrbStack, Err(error)) => {
                &&& final(mode).deep_view() == old(mode).deep_view()
                &&& result.deep_view() == seq![
                    EffectView::Alert("Could not open OrbStack: "@ + error@),
                    EffectView::Rebuild,
                ]
            },
        },
{
    match (page, opened) {
        (HostPage::DataRoot, _) => {
            mode.push_activity(now, "Opened Apple Container data root.");
            one_effect(Effect::Rebuild)
        },
        (HostPage::Releases, Ok(_)) => {
            mode.push_activity(now, "Opened the official Apple Container release page.");
            one_effect(Effect::Rebuild)
        },
        (HostPage::OrbStack, Ok(_)) => {
            mode.push_activity(now, "Opened OrbStack.");
            one_effect(Effect::Rebuild)
        },
        (HostPage::Releases, Err(error)) => {
            let message = concat(
                "Could not open the Apple Container release page: ",
                error.as_str(),
            );
            two_effects(Effect::Alert(message), Effect::Rebuild)
        },
        (HostPage::OrbStack, Err(error)) => {
            let message = concat("Could not open OrbStack: ", error.as_str());
            two_effects(Effect::Alert(message), Effect::Rebuild)
        },
    }
}

// ---------------------------------------------------------------------------
// Profiles as text
// ---------------------------------------------------------------------------
/// The name of the file and the text by which a profile is exported.
pub fn export_session_profile(sessions: &Vec<ContainerSession>, index: usize) -> (result: Result<
    (String, String),
    String,
>)
    ensures
        ({
            let profiles: Seq<SessionView> = sessions.deep_view();
            outcome(result) == (if index < profiles.len() {
                Ok::<(Seq<char>, Seq<char>), Seq<char>>(
                    (
                        slug_of(profiles[index as int].name, "display"@) + ".toml"@,
                        session_toml(profiles[index as int]),
                    ),
                )
            } else {
                Err("Application profile no longer exists."@)
            })
        }),
{
    if index >= sessions.len() {
        return Err("Application profile no longer exists.".to_owned());
    }
    assert(sessions.deep_view()[index as int] == sessions@[index as int].deep_view());
    Ok((export_file_name(&sessions[index]), session_to_toml(&sessions[index])))
}

/// What came of an export.
#[derive(Debug)]
pub enum ExportOutcome {
    Cancelled,
    /// No place was picked.
    Nothing,
    /// The place is no file of this machine.
    NoPath,
    Written(Result<(), String>),
}

/// What is said once a profile was to be exported.
pub fn profile_exported(mode: &mut ContainerMode, name: &str, export: ExportOutcome, now: u128) -> (
    result: Vec<Effect>)
    requires
        old(mode).well_formed(),
    ensures
        final(mode).well_formed(),
        final(mode).deep_view() == (if export matches ExportOutcome::Written(Ok(_)) {
            note(old(mode).deep_view(), now, "Exported application profile: "@ + name@)
        } else {
            old(mode).deep_view()
        }),
        result.deep_view() == (match export {
            ExportOutcome::Cancelled => Seq::<EffectView>::empty(),
            ExportOutcome::Nothing => seq![
                EffectView::Alert("No export destination was selected."@),
            ],
            ExportOutcome::NoPath => seq![
                EffectView::Alert("The export destination is not a local file."@),
            ],
            ExportOutcome::Written(Ok(_)) => Seq::<EffectView>::empty(),
            ExportOutcome::Written(Err(error)) => seq![
                EffectView::Alert("Failed to export profile: "@ + error@),
            ],
        }),
{
    match export {
        ExportOutcome::Cancelled => empty_list(),
        ExportOutcome::Nothing => one_effect(
            Effect::Alert("No export destination was selected.".to_owned()),
        ),
        ExportOutcome::NoPath => one_effect(
            Effect::Alert("The export destination is not a local file.".to_owned()),
        ),
        ExportOutcome::Written(Ok(_)) => {
            let message = concat("Exported application profile: ", name);
            mode.push_activity(now, message.as_str());
            empty_list()
        },
        ExportOutcome::Written(Err(error)) => one_effect(
            Effect::Alert(concat("Failed to export profile: ", error.as_str())),
        ),
    }
}

/// The title under which a profile is shown as text, and the text.
pub fn show_raw_session_profile(sessions: &Vec<ContainerSession>, index: usize) -> (result: Result<
    (String, String),
    String,
>)
    ensures
        ({
            let profiles: Seq<SessionView> = sessions.deep_view();
            outcome(result) == (if index < profiles.len() {
                Ok::<(Seq<char>, Seq<char>), Seq<char>>(
                    (
                        "Raw Configuration: "@ + profiles[index as int].name,
                        session_toml(profiles[index as int]),
                    ),
                )
            } else {
                Err("Application profile no longer exists."@)
            })
        }),
{
    if index >= sessions.len() {
        return Err("Application profile no longer exists.".to_owned());
    }
    assert(sessions.deep_view()[index as int] == sessions@[index as int].deep_view());
    let title = concat("Raw Configuration: ", sessions[index].name.as_str());
    Ok((title, session_to_toml(&sessions[index])))
}

// ---------------------------------------------------------------------------
// Containers, machines and contexts
// ---------------------------------------------------------------------------
/// What a button of a runtime leads to.
#[derive(Debug)]
pub enum Pressed {
    /// Something else takes care of it.
    Elsewhere,
    Effects(Vec<Effect>),
    /// The user is asked first.
    Confirm { title: String, detail: String, then_do: Effect },
}

pub enum PressedView {
    Elsewhere,
    Effects(Seq<EffectView>),
    Confirm { title: Seq<char>, detail: Seq<char>, then_do: EffectView },
}

impl DeepView for Pressed {
    type V = PressedView;

    open spec fn deep_view(&self) -> PressedView {
        match self {
            Pressed::Elsewhere => PressedView::Elsewhere,
            Pressed::Effects(effects) => PressedView::Effects(effects.deep_view()),
            Pressed::Confirm { title, detail, then_do } => PressedView::Confirm {
                title: title@,
                detail: detail@,
                then_do: then_do.deep_view(),
            },
        }
    }
}

pub open spec fn deletion(
    kind: Seq<char>,
    runtime: Seq<char>,
    name: Seq<char>,
    effect: EffectView,
) -> PressedView {
    PressedView::Confirm {
        title: "Delete "@ + kind + "?"@,
        detail: "This deletes '"@ + name + "' from "@ + shown_runtime(runtime)
            + ". Running containers that use it may fail."@,
        then_do: effect,
    }
}

pub open spec fn machine_action(name: Seq<char>, action: Seq<char>) -> EffectView {
    EffectView::MachineAction { runtime: "orbstack"@, name, action }
}

/// What a button of a runtime leads to. A container is named by its runtime and
/// its name, a machine or a context by its name.
pub open spec fn press(action: ActionView) -> PressedView {
    match action {
        ActionView::Do(Command::StartAppleSystem) => PressedView::Effects(
            seq![EffectView::StartAppleSystem, EffectView::Rebuild],
        ),
        ActionView::Do(Command::StartOrbStack) => PressedView::Effects(
            seq![EffectView::RuntimeAction { runtime: "orbstack"@, action: "start"@ }],
        ),
        ActionView::Do(Command::StopOrbStack) => PressedView::Effects(
            seq![EffectView::RuntimeAction { runtime: "orbstack"@, action: "stop"@ }],
        ),
        ActionView::Do(Command::CreateDisplay) => PressedView::Effects(
            seq![EffectView::CreateDisplay],
        ),
        ActionView::With(command, names) => if names.len() == 1 {
            let name = names[0];
            match command {
                Command::StartMachine => PressedView::Effects(
                    seq![machine_action(name, "start"@)],
                ),
                Command::StopMachine => PressedView::Effects(seq![machine_action(name, "stop"@)]),
                Command::DeleteMachine => deletion(
                    "Machine"@,
                    "OrbStack"@,
                    name,
                    machine_action(name, "delete"@),
                ),
                Command::OpenMachineTerminal => PressedView::Effects(
                    seq![EffectView::OpenMachineTerminal { runtime: "orbstack"@, name }],
                ),
                Command::UseContext => PressedView::Effects(seq![EffectView::UseContext(name)]),
                _ => PressedView::Elsewhere,
            }
        } else if names.len() == 2 {
            let runtime = names[0];
            let name = names[1];
            match command {
                Command::StartContainer => PressedView::Effects(
                    seq![EffectView::StartContainer { runtime, name }],
                ),
                Command::StopContainer => PressedView::Effects(
                    seq![EffectView::StopContainer { runtime, name }],
                ),
                Command::RestartContainer => PressedView::Effects(
                    seq![EffectView::RestartContainer { runtime, name }],
                ),
                Command::OpenContainerTerminal => PressedView::Effects(
                    seq![EffectView::OpenContainerTerminal { runtime, name }],
                ),
                Command::DeleteContainer => deletion(
                    "Container"@,
                    runtime,
                    name,
                    EffectView::DeleteContainer { runtime, name },
                ),
                _ => PressedView::Elsewhere,
            }
        } else {
            PressedView::Elsewhere
        },
        _ => PressedView::Elsewhere,
    }
}

fn machine_effect(name: &str, action: &str) -> (result: Effect)
    ensures
        result.deep_view() == machine_action(name@, action@),
{
    Effect::MachineAction {
        runtime: "orbstack".to_owned(),
        name: name.to_owned(),
        action: action.to_owned(),
    }
}

fn confirmed(kind: &str, runtime: &str, name: &str, effect: Effect) -> (result: Pressed)
    ensures
        result.deep_view() == deletion(kind@, runtime@, name@, effect.deep_view()),
{
    let question = delete_resource_question(kind, runtime, name);
    Pressed::Confirm { title: question.0, detail: question.1, then_do: effect }
}

fn machine_pressed(command: Command, name: &String) -> (result: Pressed)
    ensures
        result.deep_view() == press(ActionView::With(command, seq![name@])),
{
    match command {
        Command::StartMachine => Pressed::Effects(
            one_effect(machine_effect(name.as_str(), "start")),
        ),
        Command::StopMachine => Pressed::Effects(one_effect(machine_effect(name.as_str(), "stop"))),
        Command::DeleteMachine => confirmed(
            "Machine",
            "OrbStack",
            name.as_str(),
            machine_effect(name.as_str(), "delete"),
        ),
        Command::OpenMachineTerminal => Pressed::Effects(
            one_effect(
                Effect::OpenMachineTerminal {
                    runtime: "orbstack".to_owned(),
                    name: name.clone(),
                },
            ),
        ),
        Command::UseContext => Pressed::Effects(one_effect(Effect::UseContext(name.clone()))),
        _ => Pressed::Elsewhere,
    }
}

fn container_pressed(command: Command, runtime: &String, name: &String) -> (result: Pressed)
    ensures
        result.deep_view() == press(ActionView::With(command, seq![runtime@, name@])),
{
    match command {
        Command::StartContainer => Pressed::Effects(
            one_effect(Effect::StartContainer { runtime: runtime.clone(), name: name.clone() }),
        ),
        Command::StopContainer => Pressed::Effects(
            one_effect(Effect::StopContainer { runtime: runtime.clone(), name: name.clone() }),
        ),
        Command::RestartContainer => Pressed::Effects(
            one_effect(Effect::RestartContainer { runtime: runtime.clone(), name: name.clone() }),
        ),
        Command::OpenContainerTerminal => Pressed::Effects(
            one_effect(
                Effect::OpenContainerTerminal { runtime: runtime.clone(), name: name.clone() },
            ),
        ),
        Command::DeleteContainer => confirmed(
            "Container",
            runtime.as_str(),
            name.as_str(),
            Effect::DeleteContainer { runtime: runtime.clone(), name: name.clone() },
        ),
        _ => Pressed::Elsewhere,
    }
}

/// Decides what a button of a runtime leads to.
pub fn pressed(action: &Action) -> (result: Pressed)
    ensures
        result.deep_view() == press(action.deep_view()),
{
    match action {
        Action::Do(Command::StartAppleSystem) => Pressed::Effects(
            two_effects(Effect::StartAppleSystem, Effect::Rebuild),
        ),
        Action::Do(Command::StartOrbStack) => Pressed::Effects(
            one_effect(
                Effect::RuntimeAction {
                    runtime: "orbstack".to_owned(),
                    action: "start".to_owned(),
                },
            ),
        ),
        Action::Do(Command::StopOrbStack) => Pressed::Effects(
            one_effect(
                Effect::RuntimeAction { runtime: "orbstack".to_owned(), action: "stop".to_owned() },
            ),
        ),
        Action::Do(Command::CreateDisplay) => Pressed::Effects(one_effect(Effect::CreateDisplay)),
        Action::With(command, names) => {
            let ghost all = names.deep_view();
            if names.len() == 1 {
                assert(all == seq![names@[0]@]);
                machine_pressed(*command, &names[0])
            } else if names.len() == 2 {
                assert(all == seq![names@[0]@, names@[1]@]);
                container_pressed(*command, &names[0], &names[1])
            } else {
                Pressed::Elsewhere
            }
        },
        _ => Pressed::Elsewhere,
    }
}

/// Nothing is deleted before the user was asked.
pub proof fn law_deleting_is_confirmed(action: ActionView)
    ensures
        press(action) matches PressedView::Effects(effects) ==> forall|i: int|
            0 <= i < effects.len() ==> !((#[trigger] effects[i]) is DeleteContainer) && !(
            effects[i] matches EffectView::MachineAction { action, .. } && action == "delete"@),
{
    reveal_strlit("start");
    reveal_strlit("stop");
    reveal_strlit("delete");
    assert("start"@.len() == 5);
    assert("stop"@.len() == 4);
    assert("delete"@.len() == 6);
}

} // verus!
